//! Plain value types shared by the bot and the server.
use vstd::prelude::*;

verus! {

/// Whether two strings hold the same characters.
pub fn same_text(a: &str, b: &str) -> (same: bool)
    ensures
        same == (a@ == b@),
{
    let x: String = a.to_owned();
    let y: String = b.to_owned();
    x == y
}

/// Candle periods the bot trades on; `ERR` stands for an unknown period.
#[derive(Copy, Clone, Debug, PartialEq, Eq, Structural)]
pub enum TimeFrameType {
    M,
    W,
    D,
    H4,
    H1,
    M30,
    M15,
    M5,
    M1,
    ERR,
}

/// The name under which each period is written.
pub open spec fn time_frame_name(tf: TimeFrameType) -> Seq<char> {
    match tf {
        TimeFrameType::M => "M"@,
        TimeFrameType::W => "W"@,
        TimeFrameType::D => "D"@,
        TimeFrameType::H4 => "H4"@,
        TimeFrameType::H1 => "H1"@,
        TimeFrameType::M30 => "M30"@,
        TimeFrameType::M15 => "M15"@,
        TimeFrameType::M5 => "M5"@,
        TimeFrameType::M1 => "M1"@,
        TimeFrameType::ERR => "ERR"@,
    }
}

/// The period a name stands for: the period whose name it is, `ERR` for any other text.
pub open spec fn time_frame_of(name: Seq<char>) -> TimeFrameType {
    if name == "M"@ {
        TimeFrameType::M
    } else if name == "W"@ {
        TimeFrameType::W
    } else if name == "D"@ {
        TimeFrameType::D
    } else if name == "H4"@ {
        TimeFrameType::H4
    } else if name == "H1"@ {
        TimeFrameType::H1
    } else if name == "M30"@ {
        TimeFrameType::M30
    } else if name == "M15"@ {
        TimeFrameType::M15
    } else if name == "M5"@ {
        TimeFrameType::M5
    } else if name == "M1"@ {
        TimeFrameType::M1
    } else {
        TimeFrameType::ERR
    }
}

impl TimeFrameType {
    /// Reads a period from its name.
    pub fn from_str(name: &str) -> (tf: TimeFrameType)
        ensures
            tf == time_frame_of(name@),
    {
        if same_text(name, "M") {
            TimeFrameType::M
        } else if same_text(name, "W") {
            TimeFrameType::W
        } else if same_text(name, "D") {
            TimeFrameType::D
        } else if same_text(name, "H4") {
            TimeFrameType::H4
        } else if same_text(name, "H1") {
            TimeFrameType::H1
        } else if same_text(name, "M30") {
            TimeFrameType::M30
        } else if same_text(name, "M15") {
            TimeFrameType::M15
        } else if same_text(name, "M5") {
            TimeFrameType::M5
        } else if same_text(name, "M1") {
            TimeFrameType::M1
        } else {
            TimeFrameType::ERR
        }
    }

    /// The name of this period.
    pub fn name(&self) -> (name: String)
        ensures
            name@ == time_frame_name(*self),
    {
        match self {
            TimeFrameType::M => "M".to_owned(),
            TimeFrameType::W => "W".to_owned(),
            TimeFrameType::D => "D".to_owned(),
            TimeFrameType::H4 => "H4".to_owned(),
            TimeFrameType::H1 => "H1".to_owned(),
            TimeFrameType::M30 => "M30".to_owned(),
            TimeFrameType::M15 => "M15".to_owned(),
            TimeFrameType::M5 => "M5".to_owned(),
            TimeFrameType::M1 => "M1".to_owned(),
            TimeFrameType::ERR => "ERR".to_owned(),
        }
    }
}

/// The length of a period in minutes, as the broker counts periods; an unknown period
/// counts as one minute.
pub open spec fn time_frame_minutes(tf: TimeFrameType) -> u64 {
    match tf {
        TimeFrameType::M => 43200,
        TimeFrameType::W => 10080,
        TimeFrameType::D => 1440,
        TimeFrameType::H4 => 240,
        TimeFrameType::H1 => 60,
        TimeFrameType::M30 => 30,
        TimeFrameType::M15 => 15,
        TimeFrameType::M5 => 5,
        TimeFrameType::M1 => 1,
        TimeFrameType::ERR => 1,
    }
}

impl TimeFrameType {
    /// The length of this period in minutes.
    pub fn minutes(&self) -> (m: u64)
        ensures
            m == time_frame_minutes(*self),
    {
        match self {
            TimeFrameType::M => 43200,
            TimeFrameType::W => 10080,
            TimeFrameType::D => 1440,
            TimeFrameType::H4 => 240,
            TimeFrameType::H1 => 60,
            TimeFrameType::M30 => 30,
            TimeFrameType::M15 => 15,
            TimeFrameType::M5 => 5,
            TimeFrameType::M1 => 1,
            TimeFrameType::ERR => 1,
        }
    }
}

/// The start, in seconds since the Unix epoch, of the `num_bars` candles of `time_frame`
/// that end at `now` (seconds too), or `None` when it does not fit in an `i64`.
pub fn starting_bar(now: i64, num_bars: i64, time_frame: &TimeFrameType) -> (start: Option<i64>)
    ensures
        start == (if i64::MIN <= now - num_bars * time_frame_minutes(*time_frame) * 60 <= i64::MAX {
            Some((now - num_bars * time_frame_minutes(*time_frame) * 60) as i64)
        } else {
            None
        }),
{
    let span_per_bar: i128 = (time_frame.minutes() * 60) as i128;
    let bars: i128 = num_bars as i128;
    assert(-0x8000_0000_0000_0000 * 43200 * 60 <= bars * span_per_bar <= 0x7fff_ffff_ffff_ffff * 43200 * 60)
        by (nonlinear_arith)
        requires
            -0x8000_0000_0000_0000 <= bars <= 0x7fff_ffff_ffff_ffff,
            60 <= span_per_bar <= 43200 * 60,
    ;
    assert(bars * span_per_bar == num_bars * time_frame_minutes(*time_frame) * 60) by (nonlinear_arith)
        requires
            bars == num_bars,
            span_per_bar == time_frame_minutes(*time_frame) * 60,
    ;
    let start: i128 = (now as i128) - bars * span_per_bar;
    if i64::MIN as i128 <= start && start <= i64::MAX as i128 {
        Some(start as i64)
    } else {
        None
    }
}

/// Reading back the name of a known period gives the period again.
pub proof fn lemma_time_frame_name_round_trip(tf: TimeFrameType)
    requires
        tf != TimeFrameType::ERR,
    ensures
        time_frame_of(time_frame_name(tf)) == tf,
{
    reveal_strlit("M");
    reveal_strlit("W");
    reveal_strlit("D");
    reveal_strlit("H4");
    reveal_strlit("H1");
    reveal_strlit("M30");
    reveal_strlit("M15");
    reveal_strlit("M5");
    reveal_strlit("M1");
    assert("M"@.len() == 1 && "W"@.len() == 1 && "D"@.len() == 1);
    assert("H4"@.len() == 2 && "H1"@.len() == 2 && "M5"@.len() == 2 && "M1"@.len() == 2);
    assert("M30"@.len() == 3 && "M15"@.len() == 3);
    assert("M"@[0] != "W"@[0] && "M"@[0] != "D"@[0] && "W"@[0] != "D"@[0]);
    assert("H4"@[1] != "H1"@[1]);
    assert("M5"@[1] != "M1"@[1]);
    assert("M30"@[1] != "M15"@[1]);
    assert("H1"@[0] != "M1"@[0]);
    assert("H4"@[0] != "M5"@[0]);
    assert("H1"@[0] != "M5"@[0]);
    assert("H4"@[0] != "M1"@[0]);
}

/// Whether the bot's base period is the period a message speaks of.
pub fn is_base_time_frame(a: &TimeFrameType, b: &TimeFrameType) -> (same: bool)
    ensures
        same == (*a == *b),
{
    *a == *b
}

/// Markets the bot trades in.
#[derive(Copy, Clone, Debug, PartialEq, Eq, Structural)]
pub enum Market {
    Forex,
    Crypto,
    Stock,
}

/// The market a configuration name stands for; any unknown name is a stock market.
pub open spec fn market_of(name: Seq<char>) -> Market {
    if name == "Forex"@ {
        Market::Forex
    } else if name == "Crypto"@ {
        Market::Crypto
    } else {
        Market::Stock
    }
}

/// Reads the market from its configuration name.
pub fn get_market(market: String) -> (m: Market)
    ensures
        m == market_of(market@),
{
    if same_text(market.as_str(), "Forex") {
        Market::Forex
    } else if same_text(market.as_str(), "Crypto") {
        Market::Crypto
    } else {
        Market::Stock
    }
}

/// Which sides a strategy trades and whether it follows a higher period as well.
#[derive(Copy, Clone, Debug, PartialEq, Eq, Structural)]
pub enum StrategyType {
    OnlyLong,
    OnlyShort,
    LongShort,
    OnlyLongMTF,
    OnlyShortMTF,
    LongShortMTF,
}

/// A strategy that also reads a higher period.
pub open spec fn spec_is_mtf(st: StrategyType) -> bool {
    st == StrategyType::OnlyLongMTF || st == StrategyType::OnlyShortMTF
        || st == StrategyType::LongShortMTF
}

/// A strategy that may open long positions.
pub open spec fn spec_is_long(st: StrategyType) -> bool {
    st == StrategyType::OnlyLong || st == StrategyType::LongShort || st == StrategyType::OnlyLongMTF
        || st == StrategyType::LongShortMTF
}

/// A strategy that may open short positions.
pub open spec fn spec_is_short(st: StrategyType) -> bool {
    st == StrategyType::OnlyShort || st == StrategyType::LongShort
        || st == StrategyType::OnlyShortMTF || st == StrategyType::LongShortMTF
}

/// Whether a strategy follows a higher period as well.
pub fn is_mtf_strategy(st: &StrategyType) -> (mtf: bool)
    ensures
        mtf == spec_is_mtf(*st),
{
    match st {
        StrategyType::OnlyLongMTF | StrategyType::OnlyShortMTF | StrategyType::LongShortMTF => true,
        _ => false,
    }
}

/// Whether a strategy may open long positions.
pub fn is_long_strategy(st: &StrategyType) -> (long: bool)
    ensures
        long == spec_is_long(*st),
{
    match st {
        StrategyType::OnlyLong
        | StrategyType::LongShort
        | StrategyType::OnlyLongMTF
        | StrategyType::LongShortMTF => true,
        _ => false,
    }
}

/// Whether a strategy may open short positions.
pub fn is_short_strategy(st: &StrategyType) -> (short: bool)
    ensures
        short == spec_is_short(*st),
{
    match st {
        StrategyType::OnlyShort
        | StrategyType::LongShort
        | StrategyType::OnlyShortMTF
        | StrategyType::LongShortMTF => true,
        _ => false,
    }
}

/// Every strategy trades at least one side.
pub proof fn lemma_every_strategy_trades_a_side(st: StrategyType)
    ensures
        spec_is_long(st) || spec_is_short(st),
{
}

/// The strategy type a configuration name stands for: the type of that name, and
/// `OnlyLongMTF` for any other text.
pub open spec fn strategy_type_of(name: Seq<char>) -> StrategyType {
    if name == "OnlyLong"@ {
        StrategyType::OnlyLong
    } else if name == "OnlyShort"@ {
        StrategyType::OnlyShort
    } else if name == "LongShort"@ {
        StrategyType::LongShort
    } else if name == "OnlyShortMTF"@ {
        StrategyType::OnlyShortMTF
    } else if name == "LongShortMTF"@ {
        StrategyType::LongShortMTF
    } else {
        StrategyType::OnlyLongMTF
    }
}

/// The name under which each strategy type is written.
pub open spec fn strategy_type_name(st: StrategyType) -> Seq<char> {
    match st {
        StrategyType::OnlyLong => "OnlyLong"@,
        StrategyType::OnlyShort => "OnlyShort"@,
        StrategyType::LongShort => "LongShort"@,
        StrategyType::OnlyLongMTF => "OnlyLongMTF"@,
        StrategyType::OnlyShortMTF => "OnlyShortMTF"@,
        StrategyType::LongShortMTF => "LongShortMTF"@,
    }
}

impl StrategyType {
    /// Reads a strategy type from its configuration name.
    pub fn from_str(name: &str) -> (st: StrategyType)
        ensures
            st == strategy_type_of(name@),
    {
        if same_text(name, "OnlyLong") {
            StrategyType::OnlyLong
        } else if same_text(name, "OnlyShort") {
            StrategyType::OnlyShort
        } else if same_text(name, "LongShort") {
            StrategyType::LongShort
        } else if same_text(name, "OnlyShortMTF") {
            StrategyType::OnlyShortMTF
        } else if same_text(name, "LongShortMTF") {
            StrategyType::LongShortMTF
        } else {
            StrategyType::OnlyLongMTF
        }
    }

    /// The name of this strategy type.
    pub fn name(&self) -> (name: String)
        ensures
            name@ == strategy_type_name(*self),
    {
        match self {
            StrategyType::OnlyLong => "OnlyLong".to_owned(),
            StrategyType::OnlyShort => "OnlyShort".to_owned(),
            StrategyType::LongShort => "LongShort".to_owned(),
            StrategyType::OnlyLongMTF => "OnlyLongMTF".to_owned(),
            StrategyType::OnlyShortMTF => "OnlyShortMTF".to_owned(),
            StrategyType::LongShortMTF => "LongShortMTF".to_owned(),
        }
    }
}

/// Reading back the name of a strategy type gives the type again.
pub proof fn lemma_strategy_type_name_round_trip(st: StrategyType)
    ensures
        strategy_type_of(strategy_type_name(st)) == st,
{
    reveal_strlit("OnlyLong");
    reveal_strlit("OnlyShort");
    reveal_strlit("LongShort");
    reveal_strlit("OnlyLongMTF");
    reveal_strlit("OnlyShortMTF");
    reveal_strlit("LongShortMTF");
    assert("OnlyLong"@.len() == 8 && "OnlyShort"@.len() == 9 && "LongShort"@.len() == 9);
    assert("OnlyLongMTF"@.len() == 11 && "OnlyShortMTF"@.len() == 12);
    assert("LongShortMTF"@.len() == 12);
    assert("OnlyShort"@[0] != "LongShort"@[0]);
    assert("OnlyShortMTF"@[0] != "LongShortMTF"@[0]);
    match st {
        StrategyType::OnlyLong => {},
        StrategyType::OnlyShort => {
            assert("OnlyShort"@ != "OnlyLong"@);
        },
        StrategyType::LongShort => {
            assert("LongShort"@ != "OnlyLong"@);
            assert("LongShort"@ != "OnlyShort"@);
        },
        StrategyType::OnlyLongMTF => {
            assert("OnlyLongMTF"@ != "OnlyLong"@);
            assert("OnlyLongMTF"@ != "OnlyShort"@);
            assert("OnlyLongMTF"@ != "LongShort"@);
            assert("OnlyLongMTF"@ != "OnlyShortMTF"@);
            assert("OnlyLongMTF"@ != "LongShortMTF"@);
        },
        StrategyType::OnlyShortMTF => {
            assert("OnlyShortMTF"@ != "OnlyLong"@);
            assert("OnlyShortMTF"@ != "OnlyShort"@);
            assert("OnlyShortMTF"@ != "LongShort"@);
        },
        StrategyType::LongShortMTF => {
            assert("LongShortMTF"@ != "OnlyLong"@);
            assert("LongShortMTF"@ != "OnlyShort"@);
            assert("LongShortMTF"@ != "LongShort"@);
            assert("LongShortMTF"@ != "OnlyShortMTF"@);
        },
    }
}

/// The side a higher period points to.
#[derive(Copy, Clone, Debug, PartialEq, Eq, Structural)]
pub enum TradeDirection {
    Long,
    Short,
    Neutral,
}

impl TradeDirection {
    /// Whether the direction is long.
    pub fn is_long(&self) -> (long: bool)
        ensures
            long == (*self == TradeDirection::Long),
    {
        match self {
            TradeDirection::Long => true,
            _ => false,
        }
    }

    /// Whether the direction is short.
    pub fn is_short(&self) -> (short: bool)
        ensures
            short == (*self == TradeDirection::Short),
    {
        match self {
            TradeDirection::Short => true,
            _ => false,
        }
    }
}

/// `s` starts with `prefix`.
pub open spec fn starts_with(s: Seq<char>, prefix: Seq<char>) -> bool {
    prefix.len() <= s.len() && s.subrange(0, prefix.len() as int) == prefix
}

/// `s` ends with `suffix`.
pub open spec fn ends_with(s: Seq<char>, suffix: Seq<char>) -> bool {
    suffix.len() <= s.len() && s.subrange(s.len() - suffix.len(), s.len() as int) == suffix
}

/// What a strategy type does is written in its name: it follows a higher period exactly when
/// its name ends in `MTF`; it trades long only, short only, or both sides exactly when its
/// name starts with `OnlyLong`, `OnlyShort` or `LongShort`. In particular the long-only types
/// never trade short, the short-only types never trade long, and every `MTF` type (the
/// short-only one too) follows its higher period.
pub proof fn lemma_strategy_type_by_name(st: StrategyType)
    ensures
        spec_is_mtf(st) <==> ends_with(strategy_type_name(st), "MTF"@),
        (spec_is_long(st) && !spec_is_short(st)) <==> starts_with(strategy_type_name(st), "OnlyLong"@),
        (spec_is_short(st) && !spec_is_long(st)) <==> starts_with(strategy_type_name(st), "OnlyShort"@),
        (spec_is_long(st) && spec_is_short(st)) <==> starts_with(strategy_type_name(st), "LongShort"@),
        spec_is_mtf(st) <==> (st == StrategyType::OnlyLongMTF || st == StrategyType::OnlyShortMTF
            || st == StrategyType::LongShortMTF),
        spec_is_short(st) <==> (st == StrategyType::OnlyShort || st == StrategyType::LongShort
            || st == StrategyType::OnlyShortMTF || st == StrategyType::LongShortMTF),
        spec_is_long(st) <==> (st == StrategyType::OnlyLong || st == StrategyType::LongShort
            || st == StrategyType::OnlyLongMTF || st == StrategyType::LongShortMTF),
{
    reveal_strlit("OnlyLong");
    reveal_strlit("OnlyShort");
    reveal_strlit("LongShort");
    reveal_strlit("OnlyLongMTF");
    reveal_strlit("OnlyShortMTF");
    reveal_strlit("LongShortMTF");
    reveal_strlit("MTF");
    reveal_strlit("OnlyLong");
    reveal_strlit("OnlyShort");
    reveal_strlit("LongShort");
    match st {
        StrategyType::OnlyLong => {
            assert("OnlyLong"@.subrange(5, 8)[2] != "MTF"@[2]);
            assert("OnlyLong"@.subrange(0, 8) =~= "OnlyLong"@);
        },
        StrategyType::OnlyShort => {
            assert("OnlyShort"@.subrange(6, 9)[2] != "MTF"@[2]);
            assert("OnlyShort"@.subrange(0, 8)[4] != "OnlyLong"@[4]);
            assert("OnlyShort"@.subrange(0, 9) =~= "OnlyShort"@);
            assert("OnlyShort"@.subrange(0, 9)[0] != "LongShort"@[0]);
        },
        StrategyType::LongShort => {
            assert("LongShort"@.subrange(6, 9)[2] != "MTF"@[2]);
            assert("LongShort"@.subrange(0, 8)[0] != "OnlyLong"@[0]);
            assert("LongShort"@.subrange(0, 9)[0] != "OnlyShort"@[0]);
            assert("LongShort"@.subrange(0, 9) =~= "LongShort"@);
        },
        StrategyType::OnlyLongMTF => {
            assert("OnlyLongMTF"@.subrange(8, 11) =~= "MTF"@);
            assert("OnlyLongMTF"@.subrange(0, 8) =~= "OnlyLong"@);
            assert("OnlyLongMTF"@.subrange(0, 9)[4] != "OnlyShort"@[4]);
            assert("OnlyLongMTF"@.subrange(0, 9)[0] != "LongShort"@[0]);
        },
        StrategyType::OnlyShortMTF => {
            assert("OnlyShortMTF"@.subrange(9, 12) =~= "MTF"@);
            assert("OnlyShortMTF"@.subrange(0, 8)[4] != "OnlyLong"@[4]);
            assert("OnlyShortMTF"@.subrange(0, 9) =~= "OnlyShort"@);
            assert("OnlyShortMTF"@.subrange(0, 9)[0] != "LongShort"@[0]);
        },
        StrategyType::LongShortMTF => {
            assert("LongShortMTF"@.subrange(9, 12) =~= "MTF"@);
            assert("LongShortMTF"@.subrange(0, 8)[0] != "OnlyLong"@[0]);
            assert("LongShortMTF"@.subrange(0, 9)[0] != "OnlyShort"@[0]);
            assert("LongShortMTF"@.subrange(0, 9) =~= "LongShort"@);
        },
    }
}

/// The periods' lengths, in minutes, relate as the periods do: a minute, five of them, three
/// of those, two of those, two of those (an hour), four hours, six of those (a day), seven
/// days (a week) and thirty days (a month as the broker counts it).
pub proof fn lemma_time_frame_lengths()
    ensures
        time_frame_minutes(TimeFrameType::M1) == 1,
        time_frame_minutes(TimeFrameType::M5) == 5 * time_frame_minutes(TimeFrameType::M1),
        time_frame_minutes(TimeFrameType::M15) == 3 * time_frame_minutes(TimeFrameType::M5),
        time_frame_minutes(TimeFrameType::M30) == 2 * time_frame_minutes(TimeFrameType::M15),
        time_frame_minutes(TimeFrameType::H1) == 2 * time_frame_minutes(TimeFrameType::M30),
        time_frame_minutes(TimeFrameType::H1) == 60,
        time_frame_minutes(TimeFrameType::H4) == 4 * time_frame_minutes(TimeFrameType::H1),
        time_frame_minutes(TimeFrameType::D) == 6 * time_frame_minutes(TimeFrameType::H4),
        time_frame_minutes(TimeFrameType::W) == 7 * time_frame_minutes(TimeFrameType::D),
        time_frame_minutes(TimeFrameType::M) == 30 * time_frame_minutes(TimeFrameType::D),
{
}

} // verus!
