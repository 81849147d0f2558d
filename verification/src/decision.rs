//! The two decisions made from a captured top-of-book view: the competitive
//! reprice of a resting bid, and the liquidity safeguard that asks for the
//! order's cancellation when the nearby book could not absorb an adverse
//! fill of the configured multiple of our size.
//!
//! All prices and sizes are exact fixed-point decimal values in scaled
//! integer units. Absence of book data is a first-class state: a decision
//! with missing slots holds the price and never cancels.

use vstd::prelude::*;

use crate::book::OrderBookState;
use crate::book::PriceLevel;

verus! {

/// Largest price magnitude, in units, that a well-formed level or order may
/// carry. A computed target price stays within twice this bound, and every
/// intermediate difference or sum fits an `i64`.
pub const PRICE_UNIT_BOUND: i64 = 2_000_000_000_000_000_000;

/// Largest size, in units, that a well-formed level or order may carry; the
/// sum over the three tracked bid levels fits an `i64`.
pub const SIZE_UNIT_BOUND: i64 = 2_000_000_000_000_000_000;

/// Largest admissible size-margin multiplier.
pub const MARGIN_BOUND: i64 = 2_147_483_647;

/// Configuration of the two decisions: the price increment granularity, the
/// maximum price distance counted as absorbable, and the size-margin
/// multiplier, all per market rather than process-wide.
pub struct DecisionConfig {
    /// Price increment used to step ahead of or re-tighten toward the
    /// competition, in price units.
    pub step_size: i64,
    /// Maximum distance below the adjusted price within which a bid level's
    /// size counts as absorbable, in price units.
    pub max_spread: i64,
    /// The book must hold at least this multiple of the order's size in
    /// absorbable liquidity, or the order is cancelled.
    pub margin_multiplier: i64,
}

impl DecisionConfig {
    /// Well-formedness: a positive step, non-negative spread and
    /// multiplier, all within the bounds the arithmetic needs.
    pub open spec fn valid(self) -> bool {
        &&& 0 < self.step_size <= PRICE_UNIT_BOUND
        &&& 0 <= self.max_spread <= PRICE_UNIT_BOUND
        &&& 0 <= self.margin_multiplier <= MARGIN_BOUND
    }
}

/// Well-formedness of one captured level: price magnitude bounded,
/// aggregate resting size non-negative and bounded.
pub open spec fn level_valid(l: PriceLevel) -> bool {
    &&& -PRICE_UNIT_BOUND <= l.price <= PRICE_UNIT_BOUND
    &&& 0 <= l.size <= SIZE_UNIT_BOUND
}

/// Well-formedness of an optional slot: unset, or holding a valid level.
pub open spec fn slot_valid(s: Option<PriceLevel>) -> bool {
    s matches Some(l) ==> level_valid(l)
}

/// Well-formedness of a whole captured view.
pub open spec fn view_valid(v: OrderBookState) -> bool {
    &&& slot_valid(v.first_bid)
    &&& slot_valid(v.second_bid)
    &&& slot_valid(v.third_bid)
    &&& slot_valid(v.first_ask)
}

/// The competitive-quoting rule, over mathematical integers.
///
/// With no best bid captured there is no data, and the price holds. When
/// our price differs from the best bid we join the best bid. When we define
/// the best bid alone (our size is the whole aggregate), and the second bid
/// is known and more than one step below us, we re-tighten to one step
/// above it. When other size shares our level, and the best ask is known
/// and does not sit exactly one step above us, we step ahead by one step to
/// claim the top alone. In every other case the price holds.
pub open spec fn new_bid_price_spec(
    order_price: int,
    order_size: int,
    v: OrderBookState,
    cfg: DecisionConfig,
) -> int {
    match v.first_bid {
        None => order_price,
        Some(fb) => {
            if order_price != fb.price {
                fb.price as int
            } else if order_size == fb.size {
                match v.second_bid {
                    Some(sb) => {
                        if order_price - sb.price > cfg.step_size {
                            sb.price + cfg.step_size
                        } else {
                            order_price
                        }
                    }
                    None => order_price,
                }
            } else {
                match v.first_ask {
                    Some(fa) => {
                        if fa.price != order_price + cfg.step_size {
                            order_price + cfg.step_size
                        } else {
                            order_price
                        }
                    }
                    None => order_price,
                }
            }
        }
    }
}

/// Compute the reprice target for one resting bid from the captured view.
/// Holds the current price whenever the view gives no reason to move.
pub fn determine_new_bid_price(
    order_price: i64,
    order_size: i64,
    view: &OrderBookState,
    cfg: &DecisionConfig,
) -> (new_price: i64)
    requires
        cfg.valid(),
        view_valid(*view),
        -PRICE_UNIT_BOUND <= order_price <= PRICE_UNIT_BOUND,
    ensures
        new_price as int == new_bid_price_spec(order_price as int, order_size as int, *view, *cfg),
        -2 * PRICE_UNIT_BOUND <= new_price <= 2 * PRICE_UNIT_BOUND,
        view.first_bid is None ==> new_price == order_price,
{
    let mut new_price: i64 = order_price;
    match view.first_bid {
        None => {}
        Some(fb) => {
            if order_price != fb.price {
                new_price = fb.price;
            } else if order_size == fb.size {
                match view.second_bid {
                    Some(sb) => {
                        if order_price - sb.price > cfg.step_size {
                            new_price = sb.price + cfg.step_size;
                        }
                    }
                    None => {}
                }
            } else {
                match view.first_ask {
                    Some(fa) => {
                        if fa.price != order_price + cfg.step_size {
                            new_price = order_price + cfg.step_size;
                        }
                    }
                    None => {}
                }
            }
        }
    }
    new_price
}

/// Size of one level counted toward absorbable liquidity: its whole size
/// when it rests within `max_spread` below the adjusted price, else
/// nothing.
pub open spec fn absorbable_from(l: PriceLevel, price_to_adjust: int, max_spread: int) -> int {
    if price_to_adjust - l.price < max_spread {
        l.size as int
    } else {
        0
    }
}

/// The liquidity-safeguard rule. A cancellation is owed exactly when all
/// three bid slots were captured and the summed absorbable size over them
/// falls short of the order's size times the margin multiplier. With any
/// slot unset the safeguard abstains: missing data never cancels.
pub open spec fn should_cancel_spec(
    v: OrderBookState,
    price_to_adjust: int,
    order_size: int,
    cfg: DecisionConfig,
) -> bool {
    match (v.first_bid, v.second_bid, v.third_bid) {
        (Some(b1), Some(b2), Some(b3)) => {
            absorbable_from(b1, price_to_adjust, cfg.max_spread as int)
                + absorbable_from(b2, price_to_adjust, cfg.max_spread as int)
                + absorbable_from(b3, price_to_adjust, cfg.max_spread as int)
                < order_size * cfg.margin_multiplier
        }
        _ => false,
    }
}

/// Decide whether the order must be cancelled for want of absorbable
/// liquidity under the adjusted price.
pub fn check_liquidity_is_low(
    view: &OrderBookState,
    price_to_adjust: i64,
    order_size: i64,
    cfg: &DecisionConfig,
) -> (cancel: bool)
    requires
        cfg.valid(),
        view_valid(*view),
        -2 * PRICE_UNIT_BOUND <= price_to_adjust <= 2 * PRICE_UNIT_BOUND,
        0 <= order_size <= SIZE_UNIT_BOUND,
    ensures
        cancel == should_cancel_spec(*view, price_to_adjust as int, order_size as int, *cfg),
        view.first_bid is None || view.second_bid is None || view.third_bid is None ==> !cancel,
{
    match (view.first_bid, view.second_bid, view.third_bid) {
        (Some(b1), Some(b2), Some(b3)) => {
            let mut glob_size: i64 = 0;
            if price_to_adjust - b1.price < cfg.max_spread {
                glob_size = glob_size + b1.size;
            }
            if price_to_adjust - b2.price < cfg.max_spread {
                glob_size = glob_size + b2.size;
            }
            if price_to_adjust - b3.price < cfg.max_spread {
                glob_size = glob_size + b3.size;
            }
            proof {
                let os = order_size as int;
                let mm = cfg.margin_multiplier as int;
                assert(0 <= os * mm <= SIZE_UNIT_BOUND as int * MARGIN_BOUND as int) by (nonlinear_arith)
                    requires
                        0 <= os <= SIZE_UNIT_BOUND as int,
                        0 <= mm <= MARGIN_BOUND as int,
                ;
            }
            (glob_size as i128) < (order_size as i128) * (cfg.margin_multiplier as i128)
        }
        _ => false,
    }
}

/// What one evaluation pass asks of the order-management collaborator.
pub struct OrderAction {
    /// The reprice target the decider computed.
    pub new_price: i64,
    /// Whether a modify request must be sent: exactly when the target
    /// differs from the current price.
    pub reprice: bool,
    /// Whether a cancellation request must be sent.
    pub cancel: bool,
}

/// One whole evaluation of a resting bid against the captured view: the
/// reprice target, whether a modify request is owed, and whether the
/// liquidity safeguard asks for cancellation at the adjusted price.
///
/// A no-op reprice is idempotent: when the computed target equals the
/// current price, no modify request is issued.
pub fn decide_order_action(
    order_price: i64,
    order_size: i64,
    view: &OrderBookState,
    cfg: &DecisionConfig,
) -> (a: OrderAction)
    requires
        cfg.valid(),
        view_valid(*view),
        -PRICE_UNIT_BOUND <= order_price <= PRICE_UNIT_BOUND,
        0 <= order_size <= SIZE_UNIT_BOUND,
    ensures
        a.new_price as int == new_bid_price_spec(order_price as int, order_size as int, *view, *cfg),
        a.reprice == (a.new_price != order_price),
        a.new_price == order_price ==> !a.reprice,
        a.cancel == should_cancel_spec(*view, a.new_price as int, order_size as int, *cfg),
        view.first_bid is None || view.second_bid is None || view.third_bid is None ==> !a.cancel,
{
    let new_price = determine_new_bid_price(order_price, order_size, view, cfg);
    let reprice = new_price != order_price;
    let cancel = check_liquidity_is_low(view, new_price, order_size, cfg);
    OrderAction { new_price, reprice, cancel }
}

} // verus!
