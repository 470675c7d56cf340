//! The bot's record of its trades and orders, and how signals and broker answers change it.
use vstd::prelude::*;

verus! {

/// The trade a decision produced, if any.
pub enum TradeResult<TI, TO> {
    TradeIn(TI),
    TradeOut(TO),
    NoTrade,
}

/// What a strategy decided on a candle: a market entry (with the orders that go with it),
/// a market exit, an order that was hit (with the trade it opens or closes), new pending
/// orders, or nothing.
pub enum PositionResult<TI, TO, O> {
    MarketIn(TradeResult<TI, TO>, Option<Vec<O>>),
    MarketOut(TradeResult<TI, TO>),
    MarketInOrder(TradeResult<TI, TO>, O),
    MarketOutOrder(TradeResult<TI, TO>, O),
    PendingOrder(Vec<O>),
    NoPosition,
}

/// The bot's trades and orders. `open_positions` tells whether the bot holds a position.
pub struct Ledger<TI, TO, O> {
    pub trades_in: Vec<TI>,
    pub trades_out: Vec<TO>,
    pub orders: Vec<O>,
    pub open_positions: bool,
}

/// The counts a ledger keeps: never more exits than entries, and never more than
/// `max_buy_orders` entries without their exit.
pub open spec fn counts_balanced(trades_in: nat, trades_out: nat, max_buy_orders: nat) -> bool {
    trades_out <= trades_in <= trades_out + max_buy_orders
}

/// `new` is `old` with clones of `added` at its end.
pub open spec fn appended_clones<T: Clone>(new: Seq<T>, old: Seq<T>, added: Seq<T>) -> bool {
    &&& new.len() == old.len() + added.len()
    &&& new.subrange(0, old.len() as int) == old
    &&& forall|i: int| 0 <= i < added.len() ==> cloned(added[i], #[trigger] new[old.len() + i])
}

/// Whether an entry may be recorded: fewer than `max_buy_orders` entries are without exit.
pub open spec fn may_add_trade_in(trades_in: nat, trades_out: nat, max_buy_orders: nat) -> bool {
    trades_in >= trades_out && trades_in - trades_out < max_buy_orders
}

/// A market entry that carries its trade.
pub open spec fn is_market_in_trade<TI, TO, O>(r: PositionResult<TI, TO, O>) -> bool {
    r matches PositionResult::MarketIn(TradeResult::TradeIn(_), _)
}

/// A market exit that carries its trade.
pub open spec fn is_market_out_trade<TI, TO, O>(r: PositionResult<TI, TO, O>) -> bool {
    r matches PositionResult::MarketOut(TradeResult::TradeOut(_))
}

/// Whether a new position is sent to the server: an entry while no position is held, or
/// an exit while one is.
pub open spec fn spec_sends_trade<TI, TO, O>(r: PositionResult<TI, TO, O>, open_positions: bool) -> bool {
    (is_market_in_trade(r) && !open_positions) || (is_market_out_trade(r) && open_positions)
}

/// Whether a position is held after a new position was handled.
pub open spec fn spec_open_after_trade<TI, TO, O>(r: PositionResult<TI, TO, O>, open_positions: bool) -> bool {
    if is_market_in_trade(r) && !open_positions {
        true
    } else if is_market_out_trade(r) && open_positions {
        false
    } else {
        open_positions
    }
}

/// Whether an order that was hit is taken: when it changes whether a position is held.
pub open spec fn spec_takes_order<TI, TO, O>(r: PositionResult<TI, TO, O>, open_positions: bool) -> bool {
    ||| (r is MarketInOrder && !open_positions)
    ||| (r is MarketOutOrder && open_positions)
}

/// The trades and open flag of a ledger are those of another.
pub open spec fn same_trades<TI, TO, O>(a: Ledger<TI, TO, O>, b: Ledger<TI, TO, O>) -> bool {
    a.trades_in == b.trades_in && a.trades_out == b.trades_out
}

impl<TI: Clone, TO: Clone, O: Clone> Ledger<TI, TO, O> {
    /// An empty ledger with no position.
    pub fn new() -> (l: Self)
        ensures
            l.trades_in@.len() == 0,
            l.trades_out@.len() == 0,
            l.orders@.len() == 0,
            !l.open_positions,
    {
        Ledger { trades_in: Vec::new(), trades_out: Vec::new(), orders: Vec::new(), open_positions: false }
    }

    /// Forgets the trades and orders of an earlier session.
    pub fn clean_previous_data(&mut self)
        ensures
            final(self).trades_in@.len() == 0,
            final(self).trades_out@.len() == 0,
            final(self).orders@.len() == 0,
            final(self).open_positions == old(self).open_positions,
    {
        self.trades_in = Vec::new();
        self.trades_out = Vec::new();
        self.orders = Vec::new();
    }

    /// Records an entry, unless `max_buy_orders` entries are already without exit
    /// (or the ledger holds more exits than entries).
    pub fn add_trade_in(&mut self, trade_in: &TI, max_buy_orders: usize)
        ensures
            final(self).trades_out == old(self).trades_out,
            final(self).orders == old(self).orders,
            final(self).open_positions == old(self).open_positions,
            if may_add_trade_in(old(self).trades_in@.len(), old(self).trades_out@.len(), max_buy_orders as nat) {
                appended_clones(final(self).trades_in@, old(self).trades_in@, seq![*trade_in])
            } else {
                final(self).trades_in == old(self).trades_in
            },
            counts_balanced(old(self).trades_in@.len(), old(self).trades_out@.len(), max_buy_orders as nat)
                ==> counts_balanced(final(self).trades_in@.len(), final(self).trades_out@.len(), max_buy_orders as nat),
    {
        let num_trades_in = self.trades_in.len();
        let num_trades_out = self.trades_out.len();
        let has_active_trade = match num_trades_in.checked_sub(num_trades_out) {
            Some(diff) => diff < max_buy_orders,
            None => false,
        };
        if has_active_trade {
            let t = trade_in.clone();
            let ghost before = self.trades_in@;
            self.trades_in.push(t);
            proof {
                assert(self.trades_in@.subrange(0, before.len() as int) =~= before);
                assert(self.trades_in@[before.len() as int] == t);
            }
        }
    }

    /// Records an exit, if some entry is without exit.
    pub fn add_trade_out(&mut self, trade_out: &TO)
        ensures
            final(self).trades_in == old(self).trades_in,
            final(self).orders == old(self).orders,
            final(self).open_positions == old(self).open_positions,
            if old(self).trades_in@.len() > old(self).trades_out@.len() {
                appended_clones(final(self).trades_out@, old(self).trades_out@, seq![*trade_out])
            } else {
                final(self).trades_out == old(self).trades_out
            },
            forall|max: nat| counts_balanced(old(self).trades_in@.len(), old(self).trades_out@.len(), max)
                ==> #[trigger] counts_balanced(final(self).trades_in@.len(), final(self).trades_out@.len(), max),
    {
        if self.trades_in.len() > self.trades_out.len() {
            let t = trade_out.clone();
            let ghost before = self.trades_out@;
            self.trades_out.push(t);
            proof {
                assert(self.trades_out@.subrange(0, before.len() as int) =~= before);
                assert(self.trades_out@[before.len() as int] == t);
            }
        }
    }

    /// Adds clones of new pending orders after the ones the ledger holds.
    pub fn add_pending(&mut self, new_orders: &Vec<O>)
        ensures
            final(self).trades_in == old(self).trades_in,
            final(self).trades_out == old(self).trades_out,
            final(self).open_positions == old(self).open_positions,
            appended_clones(final(self).orders@, old(self).orders@, new_orders@),
    {
        let ghost before = self.orders@;
        let mut i: usize = 0;
        proof {
            assert(self.orders@.subrange(0, before.len() as int) =~= before);
        }
        while i < new_orders.len()
            invariant
                i <= new_orders@.len(),
                self.trades_in == old(self).trades_in,
                self.trades_out == old(self).trades_out,
                self.open_positions == old(self).open_positions,
                before == old(self).orders@,
                appended_clones(self.orders@, before, new_orders@.subrange(0, i as int)),
            decreases new_orders@.len() - i,
        {
            let o = new_orders[i].clone();
            let ghost prev = self.orders@;
            self.orders.push(o);
            proof {
                let added = new_orders@.subrange(0, i + 1);
                assert(self.orders@.subrange(0, before.len() as int) =~= prev.subrange(0, before.len() as int));
                assert forall|k: int| 0 <= k < added.len() implies cloned(added[k], #[trigger] self.orders@[before.len() + k]) by {
                    if k < i {
                        assert(added[k] == new_orders@.subrange(0, i as int)[k]);
                        assert(self.orders@[before.len() + k] == prev[before.len() + k]);
                    } else {
                        assert(added[k] == new_orders@[i as int]);
                    }
                }
            }
            i = i + 1;
        }
        proof {
            assert(new_orders@.subrange(0, new_orders@.len() as int) =~= new_orders@);
        }
    }
}

impl<TI: Clone, TO: Clone, O: Clone> Ledger<TI, TO, O> {
    /// Handles a new position: an entry is sent while no position is held (its orders
    /// become pending and a position is held), an exit is sent while one is (and none is
    /// held then), new pending orders are added while no position is held. Returns
    /// whether the position is sent to the server.
    pub fn process_trade(&mut self, result: &PositionResult<TI, TO, O>, associated_orders: Option<&Vec<O>>)
        -> (sent: bool)
        ensures
            sent == spec_sends_trade(*result, old(self).open_positions),
            same_trades(*final(self), *old(self)),
            final(self).open_positions == spec_open_after_trade(*result, old(self).open_positions),
            if is_market_in_trade(*result) && !old(self).open_positions && associated_orders is Some {
                appended_clones(final(self).orders@, old(self).orders@, associated_orders.unwrap()@)
            } else if !old(self).open_positions && result is PendingOrder {
                appended_clones(final(self).orders@, old(self).orders@, result->PendingOrder_0@)
            } else {
                final(self).orders == old(self).orders
            },
    {
        let open = self.open_positions;
        match result {
            PositionResult::MarketIn(TradeResult::TradeIn(_), _) => {
                if !open {
                    match associated_orders {
                        Some(new_orders) => {
                            self.add_pending(new_orders);
                        },
                        None => {},
                    }
                    self.open_positions = true;
                    true
                } else {
                    false
                }
            },
            PositionResult::MarketOut(TradeResult::TradeOut(_)) => {
                if open {
                    self.open_positions = false;
                    true
                } else {
                    false
                }
            },
            PositionResult::PendingOrder(new_orders) => {
                if !open {
                    self.add_pending(new_orders);
                }
                false
            },
            _ => false,
        }
    }

    /// Handles the position a strategy decided on: sends it as `process_trade` does and
    /// records the entry or exit it carries; new pending orders are added while no
    /// position is held. Returns whether the position is sent to the server.
    pub fn process_activated_positions(&mut self, result: &PositionResult<TI, TO, O>, max_buy_orders: usize)
        -> (sent: bool)
        ensures
            sent == spec_sends_trade(*result, old(self).open_positions),
            positions_step(*old(self), *final(self), *result, max_buy_orders as nat),
            counts_balanced(old(self).trades_in@.len(), old(self).trades_out@.len(), max_buy_orders as nat)
                ==> counts_balanced(final(self).trades_in@.len(), final(self).trades_out@.len(), max_buy_orders as nat),
    {
        match result {
            PositionResult::MarketIn(TradeResult::TradeIn(trade_in), associated_orders) => {
                let sent = self.process_trade(result, associated_orders.as_ref());
                self.add_trade_in(trade_in, max_buy_orders);
                sent
            },
            PositionResult::MarketOut(TradeResult::TradeOut(trade_out)) => {
                let sent = self.process_trade(result, None);
                self.add_trade_out(trade_out);
                sent
            },
            PositionResult::PendingOrder(new_orders) => {
                if !self.open_positions {
                    self.add_pending(new_orders);
                }
                false
            },
            _ => false,
        }
    }

    /// Handles an order that was hit: it is taken (and the position sent) when it
    /// changes whether a position is held; a position is then held exactly when the
    /// order opens one, and the orders become what `fulfil` makes of them (the hit order
    /// marked fulfilled). Returns whether it is taken.
    pub fn fullfill_activated_order<F: Fn(&Vec<O>) -> Vec<O>>(&mut self, result: &PositionResult<TI, TO, O>,
        fulfil: F) -> (taken: bool)
        requires
            call_requires(fulfil, (&old(self).orders,)),
        ensures
            taken == (old(self).open_positions != (result is MarketInOrder)),
            final(self).open_positions == (if taken { result is MarketInOrder } else { old(self).open_positions }),
            same_trades(*final(self), *old(self)),
            if taken {
                call_ensures(fulfil, (&old(self).orders,), final(self).orders)
            } else {
                final(self).orders == old(self).orders
            },
    {
        let should_open = match result {
            PositionResult::MarketInOrder(_, _) => true,
            _ => false,
        };
        if self.open_positions != should_open {
            let fulfilled = fulfil(&self.orders);
            self.orders = fulfilled;
            self.open_positions = should_open;
            true
        } else {
            false
        }
    }

    /// Handles an order that was hit: takes it as `fullfill_activated_order` does and
    /// records the entry or exit it carries. Returns whether it is taken.
    pub fn process_activated_orders<F: Fn(&Vec<O>) -> Vec<O>>(&mut self, result: &PositionResult<TI, TO, O>,
        max_buy_orders: usize, fulfil: F) -> (taken: bool)
        requires
            call_requires(fulfil, (&old(self).orders,)),
        ensures
            taken == spec_takes_activated(*result, old(self).open_positions),
            orders_step(*old(self), *final(self), *result, max_buy_orders as nat, fulfil),
            counts_balanced(old(self).trades_in@.len(), old(self).trades_out@.len(), max_buy_orders as nat)
                ==> counts_balanced(final(self).trades_in@.len(), final(self).trades_out@.len(), max_buy_orders as nat),
    {
        match result {
            PositionResult::MarketInOrder(TradeResult::TradeIn(trade_in), _) => {
                let taken = self.fullfill_activated_order(result, fulfil);
                self.add_trade_in(trade_in, max_buy_orders);
                taken
            },
            PositionResult::MarketOutOrder(TradeResult::TradeOut(trade_out), _) => {
                let taken = self.fullfill_activated_order(result, fulfil);
                self.add_trade_out(trade_out);
                taken
            },
            _ => false,
        }
    }

    /// Drops the pending orders that expired, while no position is held: the orders become
    /// what `cancel_expired` makes of them. With a position held nothing changes.
    pub fn cancel_expired_orders<F: Fn(&Vec<O>) -> Vec<O>>(&mut self, cancel_expired: F)
        requires
            call_requires(cancel_expired, (&old(self).orders,)),
        ensures
            expiry_step(*old(self), *final(self), cancel_expired),
    {
        if !self.open_positions {
            let kept = cancel_expired(&self.orders);
            self.orders = kept;
        }
    }

    /// Takes the broker's answer to an entry: an accepted entry replaces the latest
    /// recorded one and a position is held; a refused one is dropped and none is held.
    /// Either way the orders become what `update_orders` makes of them (the orders tied to
    /// the entry updated with the broker's answer).
    pub fn settle_trade_in<F: Fn(&Vec<O>) -> Vec<O>>(&mut self, trade_in: TI, accepted: bool, update_orders: F)
        requires
            call_requires(update_orders, (&old(self).orders,)),
        ensures
            final(self).trades_out == old(self).trades_out,
            call_ensures(update_orders, (&old(self).orders,), final(self).orders),
            final(self).open_positions == accepted,
            accepted ==> final(self).trades_in@ == (if old(self).trades_in@.len() > 0 {
                old(self).trades_in@.update(old(self).trades_in@.len() - 1, trade_in)
            } else {
                old(self).trades_in@
            }),
            !accepted ==> final(self).trades_in@ == (if old(self).trades_in@.len() > 0 {
                old(self).trades_in@.drop_last()
            } else {
                old(self).trades_in@
            }),
    {
        let updated = update_orders(&self.orders);
        self.orders = updated;
        if accepted {
            let n = self.trades_in.len();
            if n > 0 {
                self.trades_in.set(n - 1, trade_in);
            }
            self.open_positions = true;
        } else {
            let _ = self.trades_in.pop();
            self.open_positions = false;
        }
    }

    /// Takes the broker's answer to an exit: an accepted exit replaces the latest recorded
    /// one, the orders become what `update_orders` makes of them and no position is held;
    /// a refused one is dropped, the orders stay and the position is held.
    pub fn settle_trade_out<F: Fn(&Vec<O>) -> Vec<O>>(&mut self, trade_out: TO, accepted: bool, update_orders: F)
        requires
            call_requires(update_orders, (&old(self).orders,)),
        ensures
            final(self).trades_in == old(self).trades_in,
            final(self).open_positions == !accepted,
            accepted ==> call_ensures(update_orders, (&old(self).orders,), final(self).orders),
            !accepted ==> final(self).orders == old(self).orders,
            accepted ==> final(self).trades_out@ == (if old(self).trades_out@.len() > 0 {
                old(self).trades_out@.update(old(self).trades_out@.len() - 1, trade_out)
            } else {
                old(self).trades_out@
            }),
            !accepted ==> final(self).trades_out@ == (if old(self).trades_out@.len() > 0 {
                old(self).trades_out@.drop_last()
            } else {
                old(self).trades_out@
            }),
    {
        if accepted {
            let updated = update_orders(&self.orders);
            self.orders = updated;
            let n = self.trades_out.len();
            if n > 0 {
                self.trades_out.set(n - 1, trade_out);
            }
            self.open_positions = false;
        } else {
            let _ = self.trades_out.pop();
            self.open_positions = true;
        }
    }
}

/// What handling a strategy's new position does to a ledger (`a` before, `b` after): the
/// open flag as `spec_open_after_trade` says; an entry is recorded as `add_trade_in` does and
/// its orders become pending when the entry is sent; an exit is recorded as `add_trade_out`
/// does; new pending orders are added while no position is held; anything else changes
/// nothing.
pub open spec fn positions_step<TI: Clone, TO: Clone, O: Clone>(a: Ledger<TI, TO, O>, b: Ledger<TI, TO, O>,
    r: PositionResult<TI, TO, O>, max_buy_orders: nat) -> bool {
    &&& b.open_positions == spec_open_after_trade(r, a.open_positions)
    &&& match r {
        PositionResult::MarketIn(TradeResult::TradeIn(t), assoc) => {
            &&& (if may_add_trade_in(a.trades_in@.len(), a.trades_out@.len(), max_buy_orders) {
                appended_clones(b.trades_in@, a.trades_in@, seq![t])
            } else {
                b.trades_in == a.trades_in
            })
            &&& b.trades_out == a.trades_out
            &&& (if !a.open_positions && assoc is Some {
                appended_clones(b.orders@, a.orders@, assoc.unwrap()@)
            } else {
                b.orders == a.orders
            })
        },
        PositionResult::MarketOut(TradeResult::TradeOut(t)) => {
            &&& (if a.trades_in@.len() > a.trades_out@.len() {
                appended_clones(b.trades_out@, a.trades_out@, seq![t])
            } else {
                b.trades_out == a.trades_out
            })
            &&& b.trades_in == a.trades_in
            &&& b.orders == a.orders
        },
        PositionResult::PendingOrder(new_orders) => {
            &&& same_trades(b, a)
            &&& (if !a.open_positions {
                appended_clones(b.orders@, a.orders@, new_orders@)
            } else {
                b.orders == a.orders
            })
        },
        _ => b == a,
    }
}

/// Whether an order that was hit is taken: an entry order while no position is held, an
/// exit order while one is, each carrying its trade.
pub open spec fn spec_takes_activated<TI, TO, O>(r: PositionResult<TI, TO, O>, open_positions: bool) -> bool {
    match r {
        PositionResult::MarketInOrder(TradeResult::TradeIn(_), _) => !open_positions,
        PositionResult::MarketOutOrder(TradeResult::TradeOut(_), _) => open_positions,
        _ => false,
    }
}

/// What handling an order that was hit does to a ledger (`a` before, `b` after): an entry
/// order leaves a position held and records its entry as `add_trade_in` does; an exit order
/// leaves none held and records its exit as `add_trade_out` does; a taken order makes the
/// orders what `fulfil` gives for them; anything else changes nothing.
pub open spec fn orders_step<TI: Clone, TO: Clone, O, F: Fn(&Vec<O>) -> Vec<O>>(a: Ledger<TI, TO, O>, b: Ledger<TI, TO, O>,
    r: PositionResult<TI, TO, O>, max_buy_orders: nat, fulfil: F) -> bool {
    &&& (if spec_takes_activated(r, a.open_positions) {
        call_ensures(fulfil, (&a.orders,), b.orders)
    } else {
        b.orders == a.orders
    })
    &&& match r {
        PositionResult::MarketInOrder(TradeResult::TradeIn(t), _) => {
            &&& b.open_positions
            &&& (if may_add_trade_in(a.trades_in@.len(), a.trades_out@.len(), max_buy_orders) {
                appended_clones(b.trades_in@, a.trades_in@, seq![t])
            } else {
                b.trades_in == a.trades_in
            })
            &&& b.trades_out == a.trades_out
        },
        PositionResult::MarketOutOrder(TradeResult::TradeOut(t), _) => {
            &&& !b.open_positions
            &&& (if a.trades_in@.len() > a.trades_out@.len() {
                appended_clones(b.trades_out@, a.trades_out@, seq![t])
            } else {
                b.trades_out == a.trades_out
            })
            &&& b.trades_in == a.trades_in
        },
        _ => b == a,
    }
}

/// What dropping expired orders does to a ledger (`a` before, `b` after): while no
/// position is held the orders become what `cancel_expired` gives for them; nothing else
/// changes.
pub open spec fn expiry_step<TI, TO, O, F: Fn(&Vec<O>) -> Vec<O>>(a: Ledger<TI, TO, O>, b: Ledger<TI, TO, O>,
    cancel_expired: F) -> bool {
    &&& same_trades(b, a)
    &&& b.open_positions == a.open_positions
    &&& (if !a.open_positions {
        call_ensures(cancel_expired, (&a.orders,), b.orders)
    } else {
        b.orders == a.orders
    })
}

/// The bot's step on a streamed candle: the strategy's new position is handled as
/// `process_activated_positions` does, then the order it found hit as
/// `process_activated_orders` does, and when no position is held afterwards the expired
/// pending orders are dropped. Returns whether the new position was sent and whether the
/// hit order was taken.
pub fn on_candle<TI: Clone, TO: Clone, O: Clone, F: Fn(&Vec<O>) -> Vec<O>, G: Fn(&Vec<O>) -> Vec<O>>(
    ledger: &mut Ledger<TI, TO, O>, new_position: &PositionResult<TI, TO, O>,
    activated_orders: &PositionResult<TI, TO, O>, max_buy_orders: usize, fulfil: F, cancel_expired: G)
    -> (sent: (bool, bool))
    requires
        forall|v: &Vec<O>| #[trigger] call_requires(fulfil, (v,)),
        forall|v: &Vec<O>| #[trigger] call_requires(cancel_expired, (v,)),
    ensures
        sent.0 == spec_sends_trade(*new_position, old(ledger).open_positions),
        sent.1 == spec_takes_activated(*activated_orders, spec_open_after_trade(*new_position, old(ledger).open_positions)),
        exists|after_position: Ledger<TI, TO, O>, after_orders: Ledger<TI, TO, O>|
            #[trigger] positions_step(*old(ledger), after_position, *new_position, max_buy_orders as nat)
            && #[trigger] orders_step(after_position, after_orders, *activated_orders, max_buy_orders as nat, fulfil)
            && expiry_step(after_orders, *final(ledger), cancel_expired),
        counts_balanced(old(ledger).trades_in@.len(), old(ledger).trades_out@.len(), max_buy_orders as nat)
            ==> counts_balanced(final(ledger).trades_in@.len(), final(ledger).trades_out@.len(), max_buy_orders as nat),
{
    let ghost before = *ledger;
    let sent_position = ledger.process_activated_positions(new_position, max_buy_orders);
    let ghost after_position = *ledger;
    let taken = ledger.process_activated_orders(activated_orders, max_buy_orders, fulfil);
    let ghost after_orders = *ledger;
    ledger.cancel_expired_orders(cancel_expired);
    assert(positions_step(before, after_position, *new_position, max_buy_orders as nat)
        && orders_step(after_position, after_orders, *activated_orders, max_buy_orders as nat, fulfil)
        && expiry_step(after_orders, *ledger, cancel_expired));
    (sent_position, taken)
}

} // verus!
