//! Shared top-of-book view: up to three best bid levels and the best ask,
//! each an independently settable slot, plus a one-shot completion signal.
//!
//! One instance is created per subscription cycle, written by the snapshot
//! callback and read by the decision routine, then discarded. The container
//! here is the sequential model of that view: each operation replaces or
//! reads a whole slot, so a read never observes a torn mix of two writes,
//! and the completion signal is a level-triggered flag that is never
//! cleared. The wrapper that shares it between the callback and the
//! decision routine guards each slot so these operations stay whole.

use vstd::prelude::*;

verus! {

/// Side of a resting level: a bid or an ask.
#[derive(Clone, Copy, Debug, PartialEq, Eq, Structural)]
pub enum Side {
    Buy,
    Sell,
}

/// One aggregate level of the book. Price and size are fixed-point decimal
/// values in scaled integer units; a level is immutable once captured.
#[derive(Clone, Copy, Debug, PartialEq, Eq, Structural)]
pub struct PriceLevel {
    pub price: i64,
    pub size: i64,
    pub side: Side,
}

/// The four independently settable slots of the view.
#[derive(Clone, Copy, Debug, PartialEq, Eq, Structural)]
pub enum Slot {
    FirstBid,
    SecondBid,
    ThirdBid,
    FirstAsk,
}

/// The view itself: four optional slots and the completion flag.
#[derive(Clone, Copy, Debug)]
pub struct OrderBookState {
    pub first_bid: Option<PriceLevel>,
    pub second_bid: Option<PriceLevel>,
    pub third_bid: Option<PriceLevel>,
    pub first_ask: Option<PriceLevel>,
    pub ready: bool,
}

impl OrderBookState {
    /// The slot's current value.
    pub open spec fn spec_get(self, slot: Slot) -> Option<PriceLevel> {
        match slot {
            Slot::FirstBid => self.first_bid,
            Slot::SecondBid => self.second_bid,
            Slot::ThirdBid => self.third_bid,
            Slot::FirstAsk => self.first_ask,
        }
    }

    /// The view after one slot is overwritten; the other slots and the
    /// completion flag keep their values.
    pub open spec fn spec_set(self, slot: Slot, level: PriceLevel) -> OrderBookState {
        match slot {
            Slot::FirstBid => OrderBookState { first_bid: Some(level), ..self },
            Slot::SecondBid => OrderBookState { second_bid: Some(level), ..self },
            Slot::ThirdBid => OrderBookState { third_bid: Some(level), ..self },
            Slot::FirstAsk => OrderBookState { first_ask: Some(level), ..self },
        }
    }

    /// A fresh view: every slot unset, signal not yet raised.
    pub fn new() -> (s: OrderBookState)
        ensures
            s.first_bid is None,
            s.second_bid is None,
            s.third_bid is None,
            s.first_ask is None,
            !s.ready,
    {
        OrderBookState {
            first_bid: None,
            second_bid: None,
            third_bid: None,
            first_ask: None,
            ready: false,
        }
    }

    /// Overwrite one slot with a whole level; every other part of the view
    /// is untouched.
    pub fn set_level(&mut self, slot: Slot, level: PriceLevel)
        ensures
            *final(self) == old(self).spec_set(slot, level),
    {
        match slot {
            Slot::FirstBid => {
                self.first_bid = Some(level);
            }
            Slot::SecondBid => {
                self.second_bid = Some(level);
            }
            Slot::ThirdBid => {
                self.third_bid = Some(level);
            }
            Slot::FirstAsk => {
                self.first_ask = Some(level);
            }
        }
    }

    /// Read one whole slot; `None` means the slot was never set.
    pub fn get_level(&self, slot: Slot) -> (r: Option<PriceLevel>)
        ensures
            r == self.spec_get(slot),
    {
        match slot {
            Slot::FirstBid => self.first_bid,
            Slot::SecondBid => self.second_bid,
            Slot::ThirdBid => self.third_bid,
            Slot::FirstAsk => self.first_ask,
        }
    }

    /// Raise the completion signal. The flag is level-triggered and never
    /// cleared, so raising it again is harmless, and a waiter that starts
    /// after the signal still observes it.
    pub fn signal_ready(&mut self)
        ensures
            final(self).ready,
            final(self).first_bid == old(self).first_bid,
            final(self).second_bid == old(self).second_bid,
            final(self).third_bid == old(self).third_bid,
            final(self).first_ask == old(self).first_ask,
    {
        self.ready = true;
    }

    /// One poll of the wait: reports whether the signal has been raised.
    pub fn is_ready(&self) -> (r: bool)
        ensures
            r == self.ready,
    {
        self.ready
    }
}

/// Whether some level of the sequence is an ask.
pub open spec fn has_sell(s: Seq<PriceLevel>) -> bool {
    exists|k: int| 0 <= k < s.len() && s[k].side == Side::Sell
}

/// Whether position `k` holds the first ask of the sequence.
pub open spec fn is_first_sell_at(s: Seq<PriceLevel>, k: int) -> bool {
    &&& 0 <= k < s.len()
    &&& s[k].side == Side::Sell
    &&& forall|j: int| 0 <= j < k ==> s[j].side != Side::Sell
}

/// Position of the first ask in the delivered insert sequence, if any.
pub fn find_first_sell(inserts: &Vec<PriceLevel>) -> (r: Option<usize>)
    ensures
        r matches Some(k) ==> is_first_sell_at(inserts@, k as int),
        r is None ==> !has_sell(inserts@),
{
    let mut i: usize = 0;
    while i < inserts.len()
        invariant
            0 <= i <= inserts@.len(),
            forall|j: int| 0 <= j < i ==> inserts@[j].side != Side::Sell,
        decreases inserts@.len() - i,
    {
        if inserts[i].side == Side::Sell {
            return Some(i);
        }
        i = i + 1;
    }
    None
}

/// Write one delivered snapshot into the view and raise the completion
/// signal. The first three inserts are taken positionally as the best bid
/// candidates, exactly as the feed delivered them; the first insert on the
/// sell side, wherever it stands, becomes the best ask. A short snapshot
/// leaves the remaining slots as they were, which downstream logic reads as
/// "no data". The signal is raised unconditionally, once per delivery.
pub fn extract_data_from_snapshot(view: &mut OrderBookState, inserts: &Vec<PriceLevel>)
    ensures
        final(view).first_bid == (if inserts@.len() >= 1 { Some(inserts@[0]) } else { old(view).first_bid }),
        final(view).second_bid == (if inserts@.len() >= 2 { Some(inserts@[1]) } else { old(view).second_bid }),
        final(view).third_bid == (if inserts@.len() >= 3 { Some(inserts@[2]) } else { old(view).third_bid }),
        has_sell(inserts@) ==> (exists|k: int| is_first_sell_at(inserts@, k) && final(view).first_ask == Some(inserts@[k])),
        !has_sell(inserts@) ==> final(view).first_ask == old(view).first_ask,
        final(view).ready,
{
    if inserts.len() >= 1 {
        view.set_level(Slot::FirstBid, inserts[0]);
    }
    if inserts.len() >= 2 {
        view.set_level(Slot::SecondBid, inserts[1]);
    }
    if inserts.len() >= 3 {
        view.set_level(Slot::ThirdBid, inserts[2]);
    }
    match find_first_sell(inserts) {
        Some(k) => {
            view.set_level(Slot::FirstAsk, inserts[k]);
        }
        None => {}
    }
    view.signal_ready();
}

/// The view after a sequence of slot writes, applied in order.
pub open spec fn apply_writes(s: OrderBookState, w: Seq<(Slot, PriceLevel)>) -> OrderBookState
    decreases w.len(),
{
    if w.len() == 0 {
        s
    } else {
        apply_writes(s.spec_set(w[0].0, w[0].1), w.drop_first())
    }
}

/// The last value written to `slot` by the sequence, if any write names it.
pub open spec fn last_write_to(w: Seq<(Slot, PriceLevel)>, slot: Slot) -> Option<PriceLevel>
    decreases w.len(),
{
    if w.len() == 0 {
        None
    } else {
        match last_write_to(w.drop_first(), slot) {
            Some(l) => Some(l),
            None => if w[0].0 == slot { Some(w[0].1) } else { None },
        }
    }
}

/// Monotonic overwrite: after any sequence of slot writes, a slot holds the
/// last value written to it — never an earlier value, and never a mix of two
/// writes, since a write replaces the whole level. A slot that no write
/// names keeps its prior value.
pub proof fn lemma_monotonic_overwrite(s: OrderBookState, w: Seq<(Slot, PriceLevel)>, slot: Slot)
    ensures
        last_write_to(w, slot) matches Some(l) ==> apply_writes(s, w).spec_get(slot) == Some(l),
        last_write_to(w, slot) is None ==> apply_writes(s, w).spec_get(slot) == s.spec_get(slot),
    decreases w.len(),
{
    if w.len() > 0 {
        lemma_monotonic_overwrite(s.spec_set(w[0].0, w[0].1), w.drop_first(), slot);
    }
}

/// A slot never returns to unset: a write only replaces a whole value, so
/// once a slot holds a level, it holds one after any further writes.
pub proof fn lemma_slots_never_cleared(s: OrderBookState, w: Seq<(Slot, PriceLevel)>, slot: Slot)
    requires
        s.spec_get(slot) is Some,
    ensures
        apply_writes(s, w).spec_get(slot) is Some,
    decreases w.len(),
{
    if w.len() > 0 {
        lemma_slots_never_cleared(s.spec_set(w[0].0, w[0].1), w.drop_first(), slot);
    }
}

/// Slot writes never touch the completion flag.
pub proof fn lemma_writes_preserve_ready(s: OrderBookState, w: Seq<(Slot, PriceLevel)>)
    ensures
        apply_writes(s, w).ready == s.ready,
    decreases w.len(),
{
    if w.len() > 0 {
        lemma_writes_preserve_ready(s.spec_set(w[0].0, w[0].1), w.drop_first());
    }
}

/// No lost signal: the completion flag is level-triggered and never
/// cleared, so once `signal_ready` has run, any interleaving of later slot
/// writes leaves the flag raised, and a wait that polls the flag — whether
/// it started before or after the signal — observes it.
pub proof fn lemma_signal_not_lost(s: OrderBookState, w: Seq<(Slot, PriceLevel)>)
    requires
        s.ready,
    ensures
        apply_writes(s, w).ready,
{
    lemma_writes_preserve_ready(s, w);
}

} // verus!
