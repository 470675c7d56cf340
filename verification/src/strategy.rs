//! The decisions a strategy takes on each candle: whether to look for an exit or an
//! entry, which side to trade, and what becomes of the entry and exit signals.
use vstd::prelude::*;
use crate::types::{StrategyType, TimeFrameType, TradeDirection, spec_is_long, spec_is_short,
    spec_is_mtf, is_long_strategy, is_short_strategy, is_mtf_strategy, same_text};

verus! {

/// The kinds of trades and orders the bot sends.
#[derive(Copy, Clone, Debug, PartialEq, Eq, Structural)]
pub enum TradeType {
    EntryLong,
    EntryShort,
    ExitLong,
    ExitShort,
    StopLoss,
    MarketInLong,
    MarketInShort,
    MarketOutLong,
    MarketOutShort,
    OrderInLong,
    OrderInShort,
    OrderOutLong,
    OrderOutShort,
}

/// A side of the market.
#[derive(Copy, Clone, Debug, PartialEq, Eq, Structural)]
pub enum Side {
    Long,
    Short,
}

/// What a strategy's entry or exit rule says on a candle; `OT` describes an order to place.
pub enum Position<OT> {
    MarketIn(Option<Vec<OT>>),
    MarketOut(Option<Vec<OT>>),
    Order(Vec<OT>),
    NoSignal,
}

/// What the bot does with an entry signal: open at market with the kind of trade and
/// the orders that go with it, or place pending orders of a kind.
pub enum OpenPlan<OT> {
    MarketIn(TradeType, Option<Vec<OT>>),
    PendingOrders(TradeType, Vec<OT>),
    NoPosition,
}

/// What the bot does with an exit signal.
pub enum ExitPlan<OT> {
    MarketOut(TradeType),
    PendingOrders(TradeType, Vec<OT>),
    NoPosition,
}

/// What to look at on the latest candle.
#[derive(Copy, Clone, Debug, PartialEq, Eq, Structural)]
pub enum NextCheck {
    /// A trade is open and confirmed: look for an exit.
    Exit,
    /// No trade is open and the last exit is confirmed: look for an entry.
    Open,
    /// A trade is open but its entry is not confirmed yet.
    WaitTradeIn,
    /// No trade is open but the last exit is not confirmed yet.
    WaitTradeOut,
}

/// Whether a trade is open: more entries than exits.
pub open spec fn spec_open_positions(trades_in: nat, trades_out: nat) -> bool {
    trades_in > trades_out
}

/// What to look at, from the number of entries and exits and whether the latest of each
/// is confirmed (`None` when there is none).
pub open spec fn spec_next_check(trades_in: nat, trades_out: nat, last_in_fulfilled: Option<bool>,
    last_out_fulfilled: Option<bool>) -> NextCheck {
    if spec_open_positions(trades_in, trades_out) {
        if last_in_fulfilled != Some(false) { NextCheck::Exit } else { NextCheck::WaitTradeIn }
    } else {
        if last_out_fulfilled != Some(false) { NextCheck::Open } else { NextCheck::WaitTradeOut }
    }
}

/// Decides what to look at on the latest candle.
pub fn next_check(trades_in: usize, trades_out: usize, last_in_fulfilled: Option<bool>,
    last_out_fulfilled: Option<bool>) -> (check: NextCheck)
    ensures
        check == spec_next_check(trades_in as nat, trades_out as nat, last_in_fulfilled, last_out_fulfilled),
{
    let open_positions = trades_in > trades_out;
    if open_positions {
        let fulfilled = match last_in_fulfilled {
            Some(f) => f,
            None => true,
        };
        if fulfilled { NextCheck::Exit } else { NextCheck::WaitTradeIn }
    } else {
        let fulfilled = match last_out_fulfilled {
            Some(f) => f,
            None => true,
        };
        if fulfilled { NextCheck::Open } else { NextCheck::WaitTradeOut }
    }
}

/// The side on which to look for an entry: none while a new trade must wait or orders
/// are pending; otherwise long if the strategy trades long and the higher period points
/// long (or directions are ignored), else short under the same terms.
pub open spec fn spec_open_side(wait_for_new_trade: bool, pending_orders: nat, strategy_type: StrategyType,
    direction: TradeDirection, follow_direction: bool) -> Option<Side> {
    if !wait_for_new_trade && pending_orders == 0 {
        if spec_is_long(strategy_type) && (direction == TradeDirection::Long || !follow_direction) {
            Some(Side::Long)
        } else if spec_is_short(strategy_type) && (direction == TradeDirection::Short || !follow_direction) {
            Some(Side::Short)
        } else {
            None
        }
    } else {
        None
    }
}

/// Picks the side on which to look for an entry.
pub fn open_side(wait_for_new_trade: bool, pending_orders: usize, strategy_type: &StrategyType,
    direction: &TradeDirection, follow_direction: bool) -> (side: Option<Side>)
    ensures
        side == spec_open_side(wait_for_new_trade, pending_orders as nat, *strategy_type, *direction, follow_direction),
{
    let no_pending_orders = pending_orders == 0;
    if !wait_for_new_trade && no_pending_orders {
        if is_long_strategy(strategy_type) && (direction.is_long() || !follow_direction) {
            Some(Side::Long)
        } else if is_short_strategy(strategy_type) && (direction.is_short() || !follow_direction) {
            Some(Side::Short)
        } else {
            None
        }
    } else {
        None
    }
}

/// The kind of a market entry on a side.
pub open spec fn market_in_type(side: Side) -> TradeType {
    match side {
        Side::Long => TradeType::MarketInLong,
        Side::Short => TradeType::MarketInShort,
    }
}

/// The kind of an entry order on a side.
pub open spec fn order_in_type(side: Side) -> TradeType {
    match side {
        Side::Long => TradeType::OrderInLong,
        Side::Short => TradeType::OrderInShort,
    }
}

/// The kind of a market exit on a side.
pub open spec fn market_out_type(side: Side) -> TradeType {
    match side {
        Side::Long => TradeType::MarketOutLong,
        Side::Short => TradeType::MarketOutShort,
    }
}

/// The kind of an exit order on a side.
pub open spec fn order_out_type(side: Side) -> TradeType {
    match side {
        Side::Long => TradeType::OrderOutLong,
        Side::Short => TradeType::OrderOutShort,
    }
}

/// Whether an entry keeps the orders that come with it: when orders may be overwritten
/// or none are pending.
pub open spec fn keeps_orders(overwrite_orders: bool, pending_orders: nat) -> bool {
    overwrite_orders || pending_orders == 0
}

/// Turns an entry signal on a side into what the bot does: a market entry of that side,
/// with its orders if it keeps them; pending entry orders of that side, all of them if it
/// keeps them and none otherwise; any other signal opens nothing.
pub fn open_plan<OT>(side: Side, signal: Position<OT>, overwrite_orders: bool, pending_orders: usize) -> (plan: OpenPlan<OT>)
    ensures
        match signal {
            Position::MarketIn(orders) => plan matches OpenPlan::MarketIn(t, o)
                && t == market_in_type(side)
                && o == (if keeps_orders(overwrite_orders, pending_orders as nat) { orders } else { None }),
            Position::Order(orders) => plan matches OpenPlan::PendingOrders(t, o)
                && t == order_in_type(side)
                && o@ == (if keeps_orders(overwrite_orders, pending_orders as nat) { orders@ } else { Seq::empty() }),
            _ => plan is NoPosition,
        },
{
    let keep = overwrite_orders || pending_orders == 0;
    match signal {
        Position::MarketIn(orders) => {
            let trade_type = match side {
                Side::Long => TradeType::MarketInLong,
                Side::Short => TradeType::MarketInShort,
            };
            OpenPlan::MarketIn(trade_type, if keep { orders } else { None })
        },
        Position::Order(orders) => {
            let trade_type = match side {
                Side::Long => TradeType::OrderInLong,
                Side::Short => TradeType::OrderInShort,
            };
            OpenPlan::PendingOrders(trade_type, if keep { orders } else { Vec::new() })
        },
        _ => OpenPlan::NoPosition,
    }
}

/// The side on which to look for an exit: the side of the open trade, once the trade may
/// be closed.
pub open spec fn spec_exit_side(wait_for_closing_trade: bool, long_entry: bool) -> Option<Side> {
    if wait_for_closing_trade {
        if long_entry { Some(Side::Long) } else { Some(Side::Short) }
    } else {
        None
    }
}

/// Picks the side on which to look for an exit.
pub fn exit_side(wait_for_closing_trade: bool, long_entry: bool) -> (side: Option<Side>)
    ensures
        side == spec_exit_side(wait_for_closing_trade, long_entry),
{
    if wait_for_closing_trade {
        if long_entry { Some(Side::Long) } else { Some(Side::Short) }
    } else {
        None
    }
}

/// Turns an exit signal on a side into what the bot does: a market exit of that side,
/// or the given exit orders of that side; any other signal closes nothing.
pub fn exit_plan<OT>(side: Side, signal: Position<OT>) -> (plan: ExitPlan<OT>)
    ensures
        match signal {
            Position::MarketOut(_) => plan matches ExitPlan::MarketOut(t) && t == market_out_type(side),
            Position::Order(orders) => plan matches ExitPlan::PendingOrders(t, o)
                && t == order_out_type(side) && o == orders,
            _ => plan is NoPosition,
        },
{
    match signal {
        Position::MarketOut(_) => ExitPlan::MarketOut(match side {
            Side::Long => TradeType::MarketOutLong,
            Side::Short => TradeType::MarketOutShort,
        }),
        Position::Order(orders) => ExitPlan::PendingOrders(match side {
            Side::Long => TradeType::OrderOutLong,
            Side::Short => TradeType::OrderOutShort,
        }, orders),
        _ => ExitPlan::NoPosition,
    }
}

/// An entry is looked for only on a side the strategy trades, with no pending orders,
/// so the orders that come with it are always kept.
pub proof fn lemma_open_side_sound(wait_for_new_trade: bool, pending_orders: nat, strategy_type: StrategyType,
    direction: TradeDirection, follow_direction: bool, overwrite_orders: bool)
    ensures
        spec_open_side(wait_for_new_trade, pending_orders, strategy_type, direction, follow_direction) == Some(Side::Long)
            ==> spec_is_long(strategy_type),
        spec_open_side(wait_for_new_trade, pending_orders, strategy_type, direction, follow_direction) == Some(Side::Short)
            ==> spec_is_short(strategy_type),
        spec_open_side(wait_for_new_trade, pending_orders, strategy_type, direction, follow_direction) is Some
            ==> !wait_for_new_trade && keeps_orders(overwrite_orders, pending_orders),
        follow_direction && spec_open_side(wait_for_new_trade, pending_orders, strategy_type, direction, follow_direction)
            == Some(Side::Long) ==> direction == TradeDirection::Long,
        follow_direction && spec_open_side(wait_for_new_trade, pending_orders, strategy_type, direction, follow_direction)
            == Some(Side::Short) ==> direction == TradeDirection::Short,
{
}

/// An exit is looked for exactly when the open trade may be closed, and then on the side
/// of that trade: long for a long entry, short for a short one.
pub proof fn lemma_exit_side_law(wait_for_closing_trade: bool, long_entry: bool)
    ensures
        spec_exit_side(wait_for_closing_trade, long_entry) is Some <==> wait_for_closing_trade,
        spec_exit_side(wait_for_closing_trade, long_entry) == Some(Side::Long) <==> wait_for_closing_trade && long_entry,
        spec_exit_side(wait_for_closing_trade, long_entry) == Some(Side::Short) <==> wait_for_closing_trade && !long_entry,
{
}

/// A long-only strategy never looks for a short entry and a short-only one never for a
/// long entry, whatever the higher period says; a strategy trading both sides looks on the
/// side the higher period points to when it follows the direction.
pub proof fn lemma_open_side_respects_strategy(wait_for_new_trade: bool, pending_orders: nat,
    strategy_type: StrategyType, direction: TradeDirection, follow_direction: bool)
    ensures
        (strategy_type == StrategyType::OnlyLong || strategy_type == StrategyType::OnlyLongMTF)
            ==> spec_open_side(wait_for_new_trade, pending_orders, strategy_type, direction, follow_direction)
                != Some(Side::Short),
        (strategy_type == StrategyType::OnlyShort || strategy_type == StrategyType::OnlyShortMTF)
            ==> spec_open_side(wait_for_new_trade, pending_orders, strategy_type, direction, follow_direction)
                != Some(Side::Long),
        (strategy_type == StrategyType::LongShort || strategy_type == StrategyType::LongShortMTF)
            && !wait_for_new_trade && pending_orders == 0 && follow_direction && direction == TradeDirection::Short
            ==> spec_open_side(wait_for_new_trade, pending_orders, strategy_type, direction, follow_direction)
                == Some(Side::Short),
        (strategy_type == StrategyType::OnlyLong || strategy_type == StrategyType::OnlyLongMTF)
            && !wait_for_new_trade && pending_orders == 0 && (direction == TradeDirection::Long || !follow_direction)
            ==> spec_open_side(wait_for_new_trade, pending_orders, strategy_type, direction, follow_direction)
                == Some(Side::Long),
{
    crate::types::lemma_strategy_type_by_name(strategy_type);
}

/// An exit is looked for only while a trade is open, an entry only while none is.
pub proof fn lemma_next_check_sound(trades_in: nat, trades_out: nat, last_in_fulfilled: Option<bool>,
    last_out_fulfilled: Option<bool>)
    ensures
        spec_next_check(trades_in, trades_out, last_in_fulfilled, last_out_fulfilled) == NextCheck::Exit
            ==> trades_in > trades_out,
        spec_next_check(trades_in, trades_out, last_in_fulfilled, last_out_fulfilled) == NextCheck::Open
            ==> trades_in <= trades_out,
{
}

/// The place of the latest confirmed entry, if any.
pub fn last_fulfilled(fulfilled: &Vec<bool>) -> (last: Option<usize>)
    ensures
        match last {
            Some(i) => i < fulfilled@.len() && fulfilled@[i as int]
                && forall|j: int| i < j < fulfilled@.len() ==> !fulfilled@[j],
            None => forall|j: int| 0 <= j < fulfilled@.len() ==> !fulfilled@[j],
        },
{
    let mut i: usize = fulfilled.len();
    while i > 0
        invariant
            i <= fulfilled@.len(),
            forall|j: int| i <= j < fulfilled@.len() ==> !fulfilled@[j],
        decreases i,
    {
        if fulfilled[i - 1] {
            return Some(i - 1);
        }
        i = i - 1;
    }
    None
}

/// The place of the strategy called `name` among the known ones; the last such place
/// when the name occurs more than once.
pub fn find_strategy(names: &Vec<String>, name: &str) -> (found: Option<usize>)
    ensures
        match found {
            Some(i) => i < names@.len() && names@[i as int]@ == name@
                && forall|j: int| i < j < names@.len() ==> names@[j]@ != name@,
            None => forall|j: int| 0 <= j < names@.len() ==> names@[j]@ != name@,
        },
{
    let mut found: Option<usize> = None;
    let mut i: usize = 0;
    while i < names.len()
        invariant
            i <= names@.len(),
            match found {
                Some(k) => k < i && names@[k as int]@ == name@
                    && forall|j: int| k < j < i ==> names@[j]@ != name@,
                None => forall|j: int| 0 <= j < i ==> names@[j]@ != name@,
            },
        decreases names@.len() - i,
    {
        if same_text(names[i].as_str(), name) {
            found = Some(i);
        }
        i = i + 1;
    }
    found
}

/// The settings a strategy starts with, apart from its sizes and ratios.
pub struct StrategySettings {
    pub name: String,
    pub time_frame: TimeFrameType,
    pub higher_time_frame: Option<TimeFrameType>,
    pub strategy_type: StrategyType,
    pub trading_direction: TradeDirection,
}

/// The strategy type a strategy starts with: the given one, or `OnlyLongMTF`.
pub open spec fn settled_strategy_type(strategy_type: Option<StrategyType>) -> StrategyType {
    match strategy_type {
        Some(t) => t,
        None => StrategyType::OnlyLongMTF,
    }
}

/// Settles a strategy's settings: the given name or `default_name`; the given strategy
/// type or `OnlyLongMTF`; the given period or the configured base period; the given higher
/// period, else the configured higher period for a strategy that follows one (which must
/// then be configured), else none. A new strategy trades long until a higher period says
/// otherwise.
pub fn strategy_settings(name: Option<&str>, default_name: &str, time_frame: Option<&str>, base_time_frame: &str,
    higher_time_frame: Option<&str>, configured_higher_time_frame: Option<&str>,
    strategy_type: Option<StrategyType>) -> (s: StrategySettings)
    requires
        higher_time_frame is None && spec_is_mtf(settled_strategy_type(strategy_type))
            ==> configured_higher_time_frame is Some,
    ensures
        s.name@ == (match name { Some(n) => n@, None => default_name@ }),
        s.strategy_type == settled_strategy_type(strategy_type),
        s.time_frame == crate::types::time_frame_of(match time_frame { Some(t) => t@, None => base_time_frame@ }),
        s.higher_time_frame == (match higher_time_frame {
            Some(h) => Some(crate::types::time_frame_of(h@)),
            None => if spec_is_mtf(settled_strategy_type(strategy_type)) {
                Some(crate::types::time_frame_of(configured_higher_time_frame.unwrap()@))
            } else {
                None
            },
        }),
        s.trading_direction == TradeDirection::Long,
{
    let name: String = match name {
        Some(n) => n.to_owned(),
        None => default_name.to_owned(),
    };
    let strategy_type = match strategy_type {
        Some(t) => t,
        None => StrategyType::OnlyLongMTF,
    };
    let time_frame = match time_frame {
        Some(t) => TimeFrameType::from_str(t),
        None => TimeFrameType::from_str(base_time_frame),
    };
    let higher_time_frame = match higher_time_frame {
        Some(h) => Some(TimeFrameType::from_str(h)),
        None => {
            if is_mtf_strategy(&strategy_type) {
                Some(TimeFrameType::from_str(configured_higher_time_frame.unwrap()))
            } else {
                None
            }
        },
    };
    StrategySettings {
        name,
        time_frame,
        higher_time_frame,
        strategy_type,
        trading_direction: TradeDirection::Long,
    }
}

/// The candle at which a market entry is taken: the one after `index`, for an entry
/// signal; nothing for any other trade kind.
pub fn trade_in_index(index: usize, entry_type: TradeType) -> (next: Option<usize>)
    requires
        index < usize::MAX,
    ensures
        next == (if entry_type == TradeType::EntryLong || entry_type == TradeType::EntryShort {
            Some((index + 1) as usize)
        } else {
            None
        }),
{
    if entry_type == TradeType::EntryLong || entry_type == TradeType::EntryShort {
        Some(index + 1)
    } else {
        None
    }
}

/// Whether and how a trade entered at `index_in` is closed at candle `index`: only after
/// the entry, on an exit signal or a hit stop loss; a hit stop loss makes it a stop-loss
/// exit. The exit is taken at the next candle.
pub fn trade_out_kind(index: usize, index_in: usize, exit_type: TradeType, stop_loss_activated: bool)
    -> (out: Option<(TradeType, usize)>)
    requires
        index < usize::MAX,
    ensures
        out == (if index > index_in && (exit_type == TradeType::ExitLong || exit_type == TradeType::ExitShort
            || stop_loss_activated) {
            Some((if stop_loss_activated { TradeType::StopLoss } else { exit_type }, (index + 1) as usize))
        } else {
            None
        }),
{
    if index > index_in && (exit_type == TradeType::ExitLong || exit_type == TradeType::ExitShort || stop_loss_activated) {
        let trade_type = if stop_loss_activated { TradeType::StopLoss } else { exit_type };
        Some((trade_type, index + 1))
    } else {
        None
    }
}

} // verus!
