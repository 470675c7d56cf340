//! Reading the dates of historic records and grouping the records into candles of a period.
use vstd::prelude::*;
use crate::types::{TimeFrameType, time_frame_minutes};
use chrono::{Datelike, TimeZone, Timelike};

verus! {

/// A local wall-clock time: a day (as a day number), hour, minute, second and nanosecond.
#[derive(Copy, Clone, Debug, PartialEq, Eq, Structural)]
pub struct LocalTime {
    pub day: i64,
    pub hour: u32,
    pub minute: u32,
    pub second: u32,
    pub nanosecond: u32,
}

/// `a` comes before `b`.
pub open spec fn before(a: LocalTime, b: LocalTime) -> bool {
    ||| a.day < b.day
    ||| a.day == b.day && a.hour < b.hour
    ||| a.day == b.day && a.hour == b.hour && a.minute < b.minute
    ||| a.day == b.day && a.hour == b.hour && a.minute == b.minute && a.second < b.second
    ||| a.day == b.day && a.hour == b.hour && a.minute == b.minute && a.second == b.second
        && a.nanosecond < b.nanosecond
}

/// Whether `a` comes before `b`.
pub fn is_before(a: &LocalTime, b: &LocalTime) -> (r: bool)
    ensures
        r == before(*a, *b),
{
    if a.day != b.day {
        a.day < b.day
    } else if a.hour != b.hour {
        a.hour < b.hour
    } else if a.minute != b.minute {
        a.minute < b.minute
    } else if a.second != b.second {
        a.second < b.second
    } else {
        a.nanosecond < b.nanosecond
    }
}

/// The start of the candle of `time_frame` in which `t` falls: minutes are cut down to a
/// multiple of 5, 15 or 30 for those periods, hours to the hour (and to a multiple of 4
/// for four-hour candles); seconds and nanoseconds are dropped. Other periods keep `t`.
pub open spec fn spec_round_down(t: LocalTime, time_frame: TimeFrameType) -> LocalTime {
    match time_frame {
        TimeFrameType::M5 => LocalTime { minute: (t.minute - t.minute % 5) as u32, second: 0, nanosecond: 0, ..t },
        TimeFrameType::M15 => LocalTime { minute: (t.minute - t.minute % 15) as u32, second: 0, nanosecond: 0, ..t },
        TimeFrameType::M30 => LocalTime { minute: (t.minute - t.minute % 30) as u32, second: 0, nanosecond: 0, ..t },
        TimeFrameType::H1 => LocalTime { minute: 0, second: 0, nanosecond: 0, ..t },
        TimeFrameType::H4 => LocalTime { hour: (t.hour - t.hour % 4) as u32, minute: 0, second: 0, nanosecond: 0, ..t },
        _ => t,
    }
}

/// The start of the candle of `time_frame` in which `time` falls.
pub fn round_down_to_interval(time: LocalTime, time_frame: &TimeFrameType) -> (r: LocalTime)
    ensures
        r == spec_round_down(time, *time_frame),
{
    match time_frame {
        TimeFrameType::M5 => LocalTime { minute: time.minute - time.minute % 5, second: 0, nanosecond: 0, ..time },
        TimeFrameType::M15 => LocalTime { minute: time.minute - time.minute % 15, second: 0, nanosecond: 0, ..time },
        TimeFrameType::M30 => LocalTime { minute: time.minute - time.minute % 30, second: 0, nanosecond: 0, ..time },
        TimeFrameType::H1 => LocalTime { minute: 0, second: 0, nanosecond: 0, ..time },
        TimeFrameType::H4 => LocalTime { hour: time.hour - time.hour % 4, minute: 0, second: 0, nanosecond: 0, ..time },
        _ => time,
    }
}

/// The start of a candle is its own start, and no candle starts after a time in it.
pub proof fn lemma_round_down_idempotent(t: LocalTime, time_frame: TimeFrameType)
    ensures
        spec_round_down(spec_round_down(t, time_frame), time_frame) == spec_round_down(t, time_frame),
        !before(t, spec_round_down(t, time_frame)),
{
    let r = spec_round_down(t, time_frame);
    match time_frame {
        TimeFrameType::M5 => {
            assert((t.minute - t.minute % 5) % 5 == 0) by (nonlinear_arith);
        },
        TimeFrameType::M15 => {
            assert((t.minute - t.minute % 15) % 15 == 0) by (nonlinear_arith);
        },
        TimeFrameType::M30 => {
            assert((t.minute - t.minute % 30) % 30 == 0) by (nonlinear_arith);
        },
        TimeFrameType::H4 => {
            assert((t.hour - t.hour % 4) % 4 == 0) by (nonlinear_arith);
        },
        _ => {},
    }
}

/// `before` orders times: it is irreflexive, transitive and total.
pub proof fn lemma_before_order(a: LocalTime, b: LocalTime, c: LocalTime)
    ensures
        !before(a, a),
        before(a, b) && before(b, c) ==> before(a, c),
        a != b ==> before(a, b) || before(b, a),
        before(a, b) ==> !before(b, a),
{
}

/// A time that a clock can show: hour, minute and second in range, and a nanosecond below
/// two seconds' worth (a value of a second or more marks a leap second, as chrono keeps it).
pub open spec fn valid_local_time(t: LocalTime) -> bool {
    t.hour < 24 && t.minute < 60 && t.second < 60 && t.nanosecond < 2_000_000_000
}

/// Nanoseconds since the start of the day.
pub open spec fn nanos_of_day(t: LocalTime) -> int {
    ((t.hour * 60 + t.minute) * 60 + t.second) * 1_000_000_000 + t.nanosecond
}

/// The length of a candle of the periods that `round_down_to_interval` cuts, in nanoseconds;
/// 0 for the periods it leaves alone.
pub open spec fn cut_length(time_frame: TimeFrameType) -> int {
    match time_frame {
        TimeFrameType::M5 => 300_000_000_000,
        TimeFrameType::M15 => 900_000_000_000,
        TimeFrameType::M30 => 1_800_000_000_000,
        TimeFrameType::H1 => 3_600_000_000_000,
        TimeFrameType::H4 => 14_400_000_000_000,
        _ => 0,
    }
}

/// For a time a clock can show, the start of its candle is a time a clock can show, on the
/// same day, at a whole multiple of the candle's length into the day, not after the time
/// and less than one candle before it (a leap second aside); for the periods that are not
/// cut the time is its own start.
pub proof fn lemma_round_down_law(t: LocalTime, time_frame: TimeFrameType)
    requires
        valid_local_time(t),
    ensures
        valid_local_time(spec_round_down(t, time_frame)),
        spec_round_down(t, time_frame).day == t.day,
        !before(t, spec_round_down(t, time_frame)),
        nanos_of_day(spec_round_down(t, time_frame)) <= nanos_of_day(t),
        cut_length(time_frame) == 0 ==> spec_round_down(t, time_frame) == t,
        cut_length(time_frame) > 0 ==> {
            &&& spec_round_down(t, time_frame).second == 0
            &&& spec_round_down(t, time_frame).nanosecond == 0
            &&& nanos_of_day(spec_round_down(t, time_frame)) % cut_length(time_frame) == 0
            &&& (t.nanosecond < 1_000_000_000
                ==> nanos_of_day(t) - nanos_of_day(spec_round_down(t, time_frame)) < cut_length(time_frame))
        },
{
    lemma_round_down_idempotent(t, time_frame);
    let r = spec_round_down(t, time_frame);
    let h = t.hour as int;
    let m = t.minute as int;
    let sec = t.second as int;
    let ns = t.nanosecond as int;
    match time_frame {
        TimeFrameType::M5 => {
            assert(nanos_of_day(r) == (h * 12 + m / 5) * 300_000_000_000 && m % 5 <= 4
                && m - m % 5 == (m / 5) * 5) by (nonlinear_arith)
                requires r.minute == m - m % 5, r.hour == h, r.second == 0, r.nanosecond == 0, 0 <= m,
                    nanos_of_day(r) == ((r.hour * 60 + r.minute) * 60 + r.second) * 1_000_000_000 + r.nanosecond;
            assert(((h * 12 + m / 5) * 300_000_000_000) % 300_000_000_000 == 0) by (nonlinear_arith)
                requires 0 <= h, 0 <= m;
        },
        TimeFrameType::M15 => {
            assert(nanos_of_day(r) == (h * 4 + m / 15) * 900_000_000_000 && m % 15 <= 14) by (nonlinear_arith)
                requires r.minute == m - m % 15, r.hour == h, r.second == 0, r.nanosecond == 0, 0 <= m,
                    nanos_of_day(r) == ((r.hour * 60 + r.minute) * 60 + r.second) * 1_000_000_000 + r.nanosecond;
            assert(((h * 4 + m / 15) * 900_000_000_000) % 900_000_000_000 == 0) by (nonlinear_arith)
                requires 0 <= h, 0 <= m;
        },
        TimeFrameType::M30 => {
            assert(nanos_of_day(r) == (h * 2 + m / 30) * 1_800_000_000_000 && m % 30 <= 29) by (nonlinear_arith)
                requires r.minute == m - m % 30, r.hour == h, r.second == 0, r.nanosecond == 0, 0 <= m,
                    nanos_of_day(r) == ((r.hour * 60 + r.minute) * 60 + r.second) * 1_000_000_000 + r.nanosecond;
            assert(((h * 2 + m / 30) * 1_800_000_000_000) % 1_800_000_000_000 == 0) by (nonlinear_arith)
                requires 0 <= h, 0 <= m;
        },
        TimeFrameType::H1 => {
            assert((h * 3_600_000_000_000) % 3_600_000_000_000 == 0) by (nonlinear_arith)
                requires 0 <= h;
        },
        TimeFrameType::H4 => {
            assert(nanos_of_day(r) == (h / 4) * 14_400_000_000_000 && h % 4 <= 3) by (nonlinear_arith)
                requires r.hour == h - h % 4, r.minute == 0, r.second == 0, r.nanosecond == 0, 0 <= h,
                    nanos_of_day(r) == ((r.hour * 60 + r.minute) * 60 + r.second) * 1_000_000_000 + r.nanosecond;
            assert(((h / 4) * 14_400_000_000_000) % 14_400_000_000_000 == 0) by (nonlinear_arith)
                requires 0 <= h;
        },
        _ => {},
    }
    assert(nanos_of_day(r) <= nanos_of_day(t) && (cut_length(time_frame) > 0 && t.nanosecond < 1_000_000_000
        ==> nanos_of_day(t) - nanos_of_day(r) < cut_length(time_frame))) by (nonlinear_arith)
        requires
            valid_local_time(t),
            r.day == t.day,
            r.hour <= t.hour,
            r.hour == t.hour || (t.hour - r.hour <= 3 && r.minute == 0 && cut_length(time_frame) == 14_400_000_000_000),
            r.hour == t.hour ==> r.minute <= t.minute,
            cut_length(time_frame) > 0 ==> r.second == 0 && r.nanosecond == 0,
            cut_length(time_frame) == 0 ==> r == t,
            cut_length(time_frame) == 300_000_000_000 ==> t.minute - r.minute <= 4 && r.hour == t.hour,
            cut_length(time_frame) == 900_000_000_000 ==> t.minute - r.minute <= 14 && r.hour == t.hour,
            cut_length(time_frame) == 1_800_000_000_000 ==> t.minute - r.minute <= 29 && r.hour == t.hour,
            cut_length(time_frame) == 3_600_000_000_000 ==> r.minute == 0 && r.hour == t.hour,
            cut_length(time_frame) == 0 || cut_length(time_frame) == 300_000_000_000
                || cut_length(time_frame) == 900_000_000_000 || cut_length(time_frame) == 1_800_000_000_000
                || cut_length(time_frame) == 3_600_000_000_000 || cut_length(time_frame) == 14_400_000_000_000,
            nanos_of_day(r) == ((r.hour * 60 + r.minute) * 60 + r.second) * 1_000_000_000 + r.nanosecond,
            nanos_of_day(t) == ((t.hour * 60 + t.minute) * 60 + t.second) * 1_000_000_000 + t.nanosecond;
}

/// The candles that `round_down_to_interval` cuts are as long as the broker's bars of the
/// same period: the candle length in nanoseconds is the period's length in minutes times a
/// minute.
pub proof fn lemma_cut_length_is_period_length(time_frame: TimeFrameType)
    ensures
        cut_length(time_frame) > 0 ==> cut_length(time_frame) == time_frame_minutes(time_frame) * 60_000_000_000,
        cut_length(time_frame) > 0 <==> (time_frame == TimeFrameType::M5 || time_frame == TimeFrameType::M15
            || time_frame == TimeFrameType::M30 || time_frame == TimeFrameType::H1 || time_frame == TimeFrameType::H4),
{
}

/// How many records are read under a limit: all for `0`, none for a negative limit, and
/// at most `limit` otherwise.
pub open spec fn records_taken(n: nat, limit: i64) -> nat {
    if limit == 0 {
        n
    } else if limit < 0 {
        0
    } else if (limit as nat) < n {
        limit as nat
    } else {
        n
    }
}

/// How many of `n` records are read under `records_limit`, as `records_taken` says.
pub fn taken_records(n: usize, records_limit: i64) -> (taken: usize)
    ensures
        taken == records_taken(n as nat, records_limit),
{
    if records_limit == 0 {
        n
    } else if records_limit < 0 {
        0
    } else if (records_limit as u64) < (n as u64) {
        records_limit as u64 as usize
    } else {
        n
    }
}

/// Candles listed in strictly increasing order of their start.
pub open spec fn sorted_starts(g: Seq<(LocalTime, Vec<usize>)>) -> bool {
    forall|a: int, b: int| 0 <= a < b < g.len() ==> before(#[trigger] g[a].0, #[trigger] g[b].0)
}

/// Record `j` is listed in some candle.
pub open spec fn listed(g: Seq<(LocalTime, Vec<usize>)>, j: int) -> bool {
    exists|a: int, t: int| 0 <= a < g.len() && 0 <= t < g[a].1@.len() && #[trigger] g[a].1@[t] == j
}

/// `g` groups the first `n` records of `times` into candles of `time_frame`: candles in
/// increasing order of their start, each listing in increasing order the records that
/// fall in it, and every one of the first `n` records listed.
pub open spec fn groups_records(g: Seq<(LocalTime, Vec<usize>)>, times: Seq<LocalTime>, time_frame: TimeFrameType,
    n: nat) -> bool {
    &&& sorted_starts(g)
    &&& forall|a: int| 0 <= a < g.len() ==> (#[trigger] g[a]).1@.len() > 0
    &&& forall|a: int, t: int| 0 <= a < g.len() && 0 <= t < g[a].1@.len() ==> {
        &&& #[trigger] g[a].1@[t] < n
        &&& spec_round_down(times[g[a].1@[t] as int], time_frame) == g[a].0
    }
    &&& forall|a: int, t: int, u: int| 0 <= a < g.len() && 0 <= t < u < g[a].1@.len()
        ==> #[trigger] g[a].1@[t] < #[trigger] g[a].1@[u]
    &&& forall|j: int| 0 <= j < n ==> listed(g, j)
}

/// Groups the records, read in order and up to `records_limit` of them (`0` meaning no
/// limit), into candles of `time_frame` by the start of the candle in which each falls.
pub fn group_by_candle(times: &Vec<LocalTime>, time_frame: &TimeFrameType, records_limit: i64)
    -> (groups: Vec<(LocalTime, Vec<usize>)>)
    ensures
        groups_records(groups@, times@, *time_frame, records_taken(times@.len(), records_limit)),
{
    let taken = taken_records(times.len(), records_limit);
    let mut groups: Vec<(LocalTime, Vec<usize>)> = Vec::new();
    let mut i: usize = 0;
    while i < taken
        invariant
            taken == records_taken(times@.len(), records_limit),
            taken <= times@.len(),
            i <= taken,
            groups_records(groups@, times@, *time_frame, i as nat),
        decreases taken - i,
    {
        let key = round_down_to_interval(times[i], time_frame);
        let mut p: usize = 0;
        while p < groups.len() && is_before(&groups[p].0, &key)
            invariant
                p <= groups@.len(),
                forall|q: int| 0 <= q < p ==> before(#[trigger] groups@[q].0, key),
            decreases groups@.len() - p,
        {
            p = p + 1;
        }
        let ghost old_g = groups@;
        if p < groups.len() && groups[p].0 == key {
            let mut g = groups.remove(p);
            let ghost old_members = g.1@;
            g.1.push(i);
            groups.insert(p, g);
            proof {
                assert(groups@ =~= old_g.update(p as int, g));
                assert forall|a: int, t: int| 0 <= a < groups@.len() && 0 <= t < groups@[a].1@.len() implies {
                    &&& #[trigger] groups@[a].1@[t] < i + 1
                    &&& spec_round_down(times@[groups@[a].1@[t] as int], *time_frame) == groups@[a].0
                } by {
                    if a == p && t == old_members.len() {
                    } else if a == p {
                        assert(groups@[a].1@[t] == old_g[a].1@[t]);
                    } else {
                        assert(groups@[a] == old_g[a]);
                    }
                }
                assert forall|a: int, t: int, u: int| 0 <= a < groups@.len() && 0 <= t < u < groups@[a].1@.len()
                    implies #[trigger] groups@[a].1@[t] < #[trigger] groups@[a].1@[u] by {
                    if a == p {
                        assert(groups@[a].1@[t] == old_g[a].1@[t]);
                        if u < old_members.len() {
                            assert(groups@[a].1@[u] == old_g[a].1@[u]);
                        }
                    } else {
                        assert(groups@[a] == old_g[a]);
                    }
                }
                assert forall|j: int| 0 <= j < i + 1 implies listed(groups@, j) by {
                    if j == i {
                        assert(groups@[p as int].1@[old_members.len() as int] == j);
                    } else {
                        assert(listed(old_g, j));
                        let (a, t) = choose|a: int, t: int| 0 <= a < old_g.len() && 0 <= t < old_g[a].1@.len()
                            && #[trigger] old_g[a].1@[t] == j;
                        if a == p {
                            assert(groups@[a].1@[t] == old_g[a].1@[t]);
                        } else {
                            assert(groups@[a] == old_g[a]);
                        }
                    }
                }
                assert forall|a: int| 0 <= a < groups@.len() implies (#[trigger] groups@[a]).1@.len() > 0 by {
                    if a != p {
                        assert(groups@[a] == old_g[a]);
                    }
                }
                assert(sorted_starts(groups@)) by {
                    assert forall|a: int, b: int| 0 <= a < b < groups@.len() implies before(#[trigger] groups@[a].0, #[trigger] groups@[b].0) by {
                        assert(groups@[a].0 == old_g[a].0);
                        assert(groups@[b].0 == old_g[b].0);
                    }
                }
            }
        } else {
            let mut members: Vec<usize> = Vec::new();
            members.push(i);
            groups.insert(p, (key, members));
            proof {
                let e = (key, members);
                assert(groups@ =~= old_g.insert(p as int, e));
                assert forall|q: int| p <= q < old_g.len() implies before(key, #[trigger] old_g[q].0) by {
                    lemma_before_order(key, old_g[p as int].0, old_g[q].0);
                    lemma_before_order(old_g[p as int].0, key, old_g[q].0);
                    if q > p {
                        lemma_before_order(key, old_g[p as int].0, old_g[q].0);
                    }
                }
                assert forall|a: int| 0 <= a < groups@.len() implies #[trigger] groups@[a] == (if a < p {
                    old_g[a]
                } else if a == p {
                    e
                } else {
                    old_g[a - 1]
                }) by {}
                assert(sorted_starts(groups@)) by {
                    assert forall|a: int, b: int| 0 <= a < b < groups@.len() implies before(#[trigger] groups@[a].0, #[trigger] groups@[b].0) by {
                        if b < p {
                        } else if b == p {
                        } else if a < p {
                            lemma_before_order(old_g[a].0, key, old_g[b - 1].0);
                        } else if a == p {
                        } else {
                        }
                    }
                }
                assert forall|a: int| 0 <= a < groups@.len() implies (#[trigger] groups@[a]).1@.len() > 0 by {}
                assert forall|a: int, t: int| 0 <= a < groups@.len() && 0 <= t < groups@[a].1@.len() implies {
                    &&& #[trigger] groups@[a].1@[t] < i + 1
                    &&& spec_round_down(times@[groups@[a].1@[t] as int], *time_frame) == groups@[a].0
                } by {
                    if a < p {
                        assert(groups@[a] == old_g[a]);
                    } else if a > p {
                        assert(groups@[a] == old_g[a - 1]);
                    }
                }
                assert forall|a: int, t: int, u: int| 0 <= a < groups@.len() && 0 <= t < u < groups@[a].1@.len()
                    implies #[trigger] groups@[a].1@[t] < #[trigger] groups@[a].1@[u] by {
                    if a < p {
                        assert(groups@[a] == old_g[a]);
                    } else if a > p {
                        assert(groups@[a] == old_g[a - 1]);
                    }
                }
                assert forall|j: int| 0 <= j < i + 1 implies listed(groups@, j) by {
                    if j == i {
                        assert(groups@[p as int].1@[0] == j);
                    } else {
                        assert(listed(old_g, j));
                        let (a, t) = choose|a: int, t: int| 0 <= a < old_g.len() && 0 <= t < old_g[a].1@.len()
                            && #[trigger] old_g[a].1@[t] == j;
                        if a < p {
                            assert(groups@[a] == old_g[a]);
                        } else {
                            assert(groups@[a + 1] == old_g[a]);
                        }
                    }
                }
            }
        }
        i = i + 1;
    }
    groups
}

/// Why historic records cannot be read.
#[derive(Copy, Clone, Debug, PartialEq, Eq, Structural)]
pub enum HistoricError {
    File,
}

/// The local time written by a record's date text in the form `%Y%m%d %H%M%S` (as chrono's
/// `NaiveDateTime::parse_from_str` reads it), or `None` when the text is not such a date.
pub uninterp spec fn candle_date(text: Seq<char>) -> Option<LocalTime>;

/// Reads a record's date with chrono's `NaiveDateTime::parse_from_str` and the format
/// `%Y%m%d %H%M%S`: the result is `candle_date` of the text, and a date read is one a clock
/// can show (chrono keeps hours, minutes and seconds in range and a nanosecond below two
/// seconds' worth).
#[verifier::external_body]
fn parse_candle_date(text: &str) -> (r: Option<LocalTime>)
    ensures
        r == candle_date(text@),
        r matches Some(t) ==> valid_local_time(t),
{
    match chrono::NaiveDateTime::parse_from_str(text, "%Y%m%d %H%M%S") {
        Ok(n) => Some(LocalTime {
            day: n.date().num_days_from_ce() as i64,
            hour: n.hour(),
            minute: n.minute(),
            second: n.second(),
            nanosecond: n.nanosecond(),
        }),
        Err(_) => None,
    }
}

/// Whether the machine's local time zone shows the time exactly once (chrono's
/// `Local.from_local_datetime(..).single()`). The answer depends on the machine's time zone,
/// so nothing is stated of it.
#[verifier::external_body]
fn shown_once_locally(t: &LocalTime) -> (ok: bool) {
    let date = match chrono::NaiveDate::from_num_days_from_ce_opt(t.day as i32) {
        Some(d) => d,
        None => return false,
    };
    match date.and_hms_nano_opt(t.hour, t.minute, t.second, t.nanosecond) {
        Some(n) => chrono::Local.from_local_datetime(&n).single().is_some(),
        None => false,
    }
}

/// The dates of the first `n` records, read.
pub open spec fn parsed_dates(dates: Seq<String>, n: nat) -> Seq<LocalTime> {
    Seq::new(n, |j: int| candle_date(dates[j]@).unwrap())
}

/// Some record among the first `n` has a date that cannot be read.
pub open spec fn some_date_unreadable(dates: Seq<String>, n: nat) -> bool {
    exists|j: int| 0 <= j < n && #[trigger] candle_date(dates[j]@) is None
}

/// Reads the dates of the first `n` records, or `None` when one cannot be read.
fn parse_dates(dates: &Vec<String>, n: usize) -> (r: Option<Vec<LocalTime>>)
    requires
        n <= dates@.len(),
    ensures
        r is None <==> some_date_unreadable(dates@, n as nat),
        r matches Some(v) ==> v@ == parsed_dates(dates@, n as nat)
            && forall|j: int| 0 <= j < n ==> valid_local_time(#[trigger] v@[j]),
{
    let mut times: Vec<LocalTime> = Vec::new();
    let mut i: usize = 0;
    while i < n
        invariant
            n <= dates@.len(),
            i <= n,
            times@ == parsed_dates(dates@, i as nat),
            forall|j: int| 0 <= j < i ==> valid_local_time(#[trigger] times@[j]),
            !some_date_unreadable(dates@, i as nat),
        decreases n - i,
    {
        match parse_candle_date(dates[i].as_str()) {
            Some(t) => {
                times.push(t);
                proof {
                    assert(times@ =~= parsed_dates(dates@, (i + 1) as nat));
                    assert(!some_date_unreadable(dates@, (i + 1) as nat)) by {
                        assert forall|j: int| 0 <= j < i + 1 implies !(#[trigger] candle_date(dates@[j]@) is None) by {
                            if j < i {
                                assert(!(candle_date(dates@[j]@) is None));
                            }
                        }
                    }
                }
            },
            None => {
                assert(candle_date(dates@[i as int]@) is None);
                return None;
            },
        }
        i = i + 1;
    }
    Some(times)
}

/// Groups historic records into candles of `time_frame` by their dates: the first records
/// under `records_limit` (`0` meaning no limit) are read, and the records past it are never
/// looked at. It fails exactly when the date of a record read cannot be read; otherwise the
/// candles group the records read by their dates, as `groups_records` says.
pub fn candle_times(dates: &Vec<String>, time_frame: &TimeFrameType, records_limit: i64)
    -> (r: Result<Vec<(LocalTime, Vec<usize>)>, HistoricError>)
    ensures
        r is Err <==> some_date_unreadable(dates@, records_taken(dates@.len(), records_limit)),
        r matches Err(e) ==> e == HistoricError::File,
        r matches Ok(g) ==> groups_records(g@, parsed_dates(dates@, records_taken(dates@.len(), records_limit)),
            *time_frame, records_taken(dates@.len(), records_limit)),
{
    let n = taken_records(dates.len(), records_limit);
    match parse_dates(dates, n) {
        None => Err(HistoricError::File),
        Some(times) => Ok(group_by_candle(&times, time_frame, 0)),
    }
}

/// Groups records whose dates are `times` into candles of `time_frame`, given for each
/// date whether the machine's local time zone shows it exactly once: it fails exactly when
/// one is not, and otherwise groups all the records, as `groups_records` says.
pub fn group_local_times(times: &Vec<LocalTime>, shown_once: &Vec<bool>, time_frame: &TimeFrameType)
    -> (r: Result<Vec<(LocalTime, Vec<usize>)>, HistoricError>)
    requires
        shown_once@.len() == times@.len(),
    ensures
        r is Err <==> exists|j: int| 0 <= j < shown_once@.len() && !#[trigger] shown_once@[j],
        r matches Err(e) ==> e == HistoricError::File,
        r matches Ok(g) ==> groups_records(g@, times@, *time_frame, times@.len()),
{
    let mut i: usize = 0;
    while i < shown_once.len()
        invariant
            i <= shown_once@.len(),
            forall|j: int| 0 <= j < i ==> #[trigger] shown_once@[j],
        decreases shown_once@.len() - i,
    {
        if !shown_once[i] {
            return Err(HistoricError::File);
        }
        i = i + 1;
    }
    Ok(group_by_candle(times, time_frame, 0))
}

/// Asks, for each of `times`, whether the machine's local time zone shows it exactly once.
fn local_answers(times: &Vec<LocalTime>) -> (answers: Vec<bool>)
    ensures
        answers@.len() == times@.len(),
{
    let mut answers: Vec<bool> = Vec::new();
    let mut i: usize = 0;
    while i < times.len()
        invariant
            i <= times@.len(),
            answers@.len() == i,
        decreases times@.len() - i,
    {
        answers.push(shown_once_locally(&times[i]));
        i = i + 1;
    }
    answers
}

/// Groups historic records as `candle_times` does, and also fails when the machine's local
/// time zone does not show the date of a record read exactly once (a time skipped or
/// repeated at a change of daylight-saving time), as `group_local_times` decides from the
/// machine's answers. Those answers depend on the machine, so a success is promised only
/// when no record is read: then the result is an empty list.
pub fn local_candle_times(dates: &Vec<String>, time_frame: &TimeFrameType, records_limit: i64)
    -> (r: Result<Vec<(LocalTime, Vec<usize>)>, HistoricError>)
    ensures
        records_taken(dates@.len(), records_limit) == 0 ==> (r matches Ok(g) && g@.len() == 0),
        some_date_unreadable(dates@, records_taken(dates@.len(), records_limit)) ==> r is Err,
        r matches Err(e) ==> e == HistoricError::File,
        r matches Ok(g) ==> !some_date_unreadable(dates@, records_taken(dates@.len(), records_limit))
            && groups_records(g@, parsed_dates(dates@, records_taken(dates@.len(), records_limit)),
            *time_frame, records_taken(dates@.len(), records_limit)),
{
    let n = taken_records(dates.len(), records_limit);
    match parse_dates(dates, n) {
        None => Err(HistoricError::File),
        Some(times) => {
            let answers = local_answers(&times);
            let r = group_local_times(&times, &answers, time_frame);
            proof {
                if n == 0 && r is Ok {
                    let g = r->Ok_0;
                    if g@.len() > 0 {
                        assert(g@[0].1@.len() > 0);
                        assert(g@[0].1@[0] < 0);
                    }
                }
            }
            r
        },
    }
}

} // verus!
