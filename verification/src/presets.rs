//! The order preset factory: named constructors that assemble mutually
//! consistent field combinations for each supported order style.
//!
//! Every preset is a pure function of its economically meaningful
//! parameters.  Its contract states the whole resulting order: exactly
//! the fields relevant to the style are set, every other field keeps the
//! default of [`crate::order::default_order_v`].  No preset validates its
//! inputs — an inverted stop/limit pair or a negative quantity passes
//! through untouched, to be judged by the venue.

use vstd::prelude::*;
use vstd::string::StringExecFns;
use crate::common::TagValue;
use crate::common::TagValueV;
use crate::common::tag_values_view;
use crate::fields::str_eq;
use crate::order::AuctionStrategy;
use crate::order::Order;
use crate::order::OrderComboLeg;
use crate::order::OrderV;
use crate::order::default_order_v;
use crate::order_condition::ConditionType;
use crate::order_condition::ContractCondition;
use crate::order_condition::ContractConditionV;
use crate::order_condition::ExecutionCondition;
use crate::order_condition::ExecutionConditionV;
use crate::order_condition::MarginCondition;
use crate::order_condition::OperatorCondition;
use crate::order_condition::OrderCondition;
use crate::order_condition::PercentChangeCondition;
use crate::order_condition::PercentChangeConditionV;
use crate::order_condition::PriceCondition;
use crate::order_condition::PriceConditionV;
use crate::order_condition::TimeCondition;
use crate::order_condition::TimeConditionV;
use crate::order_condition::TriggerMethod;
use crate::order_condition::VolumeCondition;
use crate::order_condition::VolumeConditionV;
use crate::order_condition::trigger_method_from_code_spec;

verus! {

/// An auction order is entered during the pre-market opening period for
/// execution at the calculated opening price, and re-submitted as a limit
/// order at that price if not filled on the open.
pub open spec fn at_auction_order_v(account: Seq<char>, action: Seq<char>, quantity: i64, price: i64) -> OrderV {
    OrderV {
        account: account,
        action: action,
        total_quantity: quantity,
        tif: "AUC"@,
        order_type: "MTL"@,
        lmt_price: price,
        ..default_order_v()
    }
}

/// A limit order with a hidden discretionary amount off the limit price
/// that widens the range over which it may execute; the market sees only
/// the limit price.
pub open spec fn discretionary_order_v(account: Seq<char>, action: Seq<char>, quantity: i64, price: i64, discretionary_amount: i64) -> OrderV {
    OrderV {
        account: account,
        action: action,
        total_quantity: quantity,
        order_type: "LMT"@,
        lmt_price: price,
        discretionary_amt: discretionary_amount,
        ..default_order_v()
    }
}

/// A market order buys or sells at the market bid or offer, favouring
/// speed of execution over price protection.
pub open spec fn market_order_v(account: Seq<char>, action: Seq<char>, quantity: i64) -> OrderV {
    OrderV {
        account: account,
        action: action,
        total_quantity: quantity,
        order_type: "MKT"@,
        ..default_order_v()
    }
}

/// A market-if-touched order is held until its trigger price is touched,
/// then submitted as a market order.
pub open spec fn market_if_touched_order_order_v(account: Seq<char>, action: Seq<char>, quantity: i64, price: i64) -> OrderV {
    OrderV {
        account: account,
        action: action,
        total_quantity: quantity,
        order_type: "MIT"@,
        aux_price: price,
        ..default_order_v()
    }
}

/// A market-on-close order executes as close to the closing price as
/// possible.
pub open spec fn market_on_close_order_v(account: Seq<char>, action: Seq<char>, quantity: i64) -> OrderV {
    OrderV {
        account: account,
        action: action,
        total_quantity: quantity,
        order_type: "MOC"@,
        ..default_order_v()
    }
}

/// A market-on-open order combines a market order with the opening time
/// in force, filling at the market's open.
pub open spec fn market_on_open_order_v(account: Seq<char>, action: Seq<char>, quantity: i64) -> OrderV {
    OrderV {
        account: account,
        action: action,
        total_quantity: quantity,
        order_type: "MKT"@,
        tif: "OPG"@,
        ..default_order_v()
    }
}

/// A midpoint-match order executes at the midpoint of the national best
/// bid and offer.
pub open spec fn midpoint_match_order_v(account: Seq<char>, action: Seq<char>, quantity: i64) -> OrderV {
    OrderV {
        account: account,
        action: action,
        total_quantity: quantity,
        order_type: "MKT"@,
        ..default_order_v()
    }
}

/// A midprice order seeks the midpoint of the national best bid and
/// offer or better, capped by an optional worst acceptable price.
pub open spec fn midprice_order_v(account: Seq<char>, action: Seq<char>, quantity: i64, price_cap: i64) -> OrderV {
    OrderV {
        account: account,
        action: action,
        total_quantity: quantity,
        order_type: "MIDPRICE"@,
        lmt_price: price_cap,
        ..default_order_v()
    }
}

/// A pegged-to-market order maintains its price relative to the national
/// best offer (buys) or bid (sells) by the given offset.
pub open spec fn pegged_to_market_order_v(account: Seq<char>, action: Seq<char>, quantity: i64, market_offset: i64) -> OrderV {
    OrderV {
        account: account,
        action: action,
        total_quantity: quantity,
        order_type: "PEG MKT"@,
        aux_price: market_offset,
        ..default_order_v()
    }
}

/// A pegged-to-stock order adjusts an option's price by the product of a
/// signed delta and the movement of the underlying stock against a
/// reference price.
pub open spec fn pegged_to_stock_order_v(account: Seq<char>, action: Seq<char>, quantity: i64, delta: i64, stock_reference_price: i64, starting_price: i64) -> OrderV {
    OrderV {
        account: account,
        action: action,
        total_quantity: quantity,
        order_type: "PEG STK"@,
        delta: delta,
        stock_ref_price: stock_reference_price,
        starting_price: starting_price,
        ..default_order_v()
    }
}

/// A relative (pegged-to-primary) order bids or offers more aggressively
/// than the national best bid and offer by the given offset, under an
/// absolute price cap.
pub open spec fn relative_pegged_to_primary_order_v(account: Seq<char>, action: Seq<char>, quantity: i64, price_cap: i64, offset_amount: i64) -> OrderV {
    OrderV {
        account: account,
        action: action,
        total_quantity: quantity,
        order_type: "REL"@,
        lmt_price: price_cap,
        aux_price: offset_amount,
        ..default_order_v()
    }
}

/// A sweep-to-fill order takes the best price and quantity available,
/// then the next best, transmitting each portion for immediate
/// execution.
pub open spec fn sweep_to_fill_order_v(account: Seq<char>, action: Seq<char>, quantity: i64, price: i64) -> OrderV {
    OrderV {
        account: account,
        action: action,
        total_quantity: quantity,
        order_type: "LMT"@,
        lmt_price: price,
        sweep_to_fill: true,
        ..default_order_v()
    }
}

/// An auction limit order participates in the BOX price-improvement
/// auction at a specified limit price.
pub open spec fn auction_limit_order_v(account: Seq<char>, action: Seq<char>, quantity: i64, price: i64, auction_strategy: AuctionStrategy) -> OrderV {
    OrderV {
        account: account,
        action: action,
        total_quantity: quantity,
        order_type: "LMT"@,
        lmt_price: price,
        auction_strategy: auction_strategy,
        ..default_order_v()
    }
}

/// An auction pegged-to-stock order adjusts its price by a signed delta
/// times the movement of the underlying, for the BOX price-improvement
/// auction.
pub open spec fn auction_pegged_to_stock_order_v(account: Seq<char>, action: Seq<char>, quantity: i64, starting_price: i64, delta: i64) -> OrderV {
    OrderV {
        account: account,
        action: action,
        total_quantity: quantity,
        order_type: "PEG STK"@,
        delta: delta,
        starting_price: starting_price,
        ..default_order_v()
    }
}

/// An auction relative order offsets the national best bid or offer for
/// the BOX price-improvement auction.
pub open spec fn auction_relative_order_v(account: Seq<char>, action: Seq<char>, quantity: i64, offset: i64) -> OrderV {
    OrderV {
        account: account,
        action: action,
        total_quantity: quantity,
        order_type: "REL"@,
        aux_price: offset,
        ..default_order_v()
    }
}

/// A block order carries the block attribute for large-volume option
/// orders of at least fifty contracts.
pub open spec fn block_order_v(account: Seq<char>, action: Seq<char>, quantity: i64, price: i64) -> OrderV {
    OrderV {
        account: account,
        action: action,
        total_quantity: quantity,
        order_type: "LMT"@,
        lmt_price: price,
        block_order: true,
        ..default_order_v()
    }
}

/// A box-top order executes as a market order at the current best price;
/// any unfilled remainder becomes a limit order at the fill price.
pub open spec fn box_top_order_v(account: Seq<char>, action: Seq<char>, quantity: i64) -> OrderV {
    OrderV {
        account: account,
        action: action,
        total_quantity: quantity,
        order_type: "BOX TOP"@,
        ..default_order_v()
    }
}

/// A limit order buys or sells at a specified price or better.
pub open spec fn limit_order_v(account: Seq<char>, action: Seq<char>, quantity: i64, limit_price: i64) -> OrderV {
    OrderV {
        account: account,
        action: action,
        total_quantity: quantity,
        order_type: "LMT"@,
        lmt_price: limit_price,
        ..default_order_v()
    }
}

/// A limit order denominated in the second currency of a pair through
/// the cash-quantity field.
pub open spec fn limit_order_with_cash_qty_order_v(account: Seq<char>, action: Seq<char>, quantity: i64, limit_price: i64, cash_qty: i64) -> OrderV {
    OrderV {
        account: account,
        action: action,
        total_quantity: quantity,
        order_type: "LMT"@,
        lmt_price: limit_price,
        cash_qty: cash_qty,
        ..default_order_v()
    }
}

/// A limit-if-touched order is held until its trigger price is touched,
/// then submitted as a limit order.
pub open spec fn limit_if_touched_order_v(account: Seq<char>, action: Seq<char>, quantity: i64, limit_price: i64, trigger_price: i64) -> OrderV {
    OrderV {
        account: account,
        action: action,
        total_quantity: quantity,
        order_type: "LIT"@,
        lmt_price: limit_price,
        aux_price: trigger_price,
        ..default_order_v()
    }
}

/// A limit-on-close order executes at the close if the closing price is
/// at or better than the limit price.
pub open spec fn limit_on_close_order_v(account: Seq<char>, action: Seq<char>, quantity: i64, limit_price: i64) -> OrderV {
    OrderV {
        account: account,
        action: action,
        total_quantity: quantity,
        order_type: "LOC"@,
        lmt_price: limit_price,
        ..default_order_v()
    }
}

/// A limit-on-open order combines a limit order with the opening time in
/// force, executing at the open at its limit price or better.
pub open spec fn limit_on_open_order_v(account: Seq<char>, action: Seq<char>, quantity: i64, limit_price: i64) -> OrderV {
    OrderV {
        account: account,
        action: action,
        total_quantity: quantity,
        tif: "OPG"@,
        order_type: "LMT"@,
        lmt_price: limit_price,
        ..default_order_v()
    }
}

/// A passive relative order seeks a less aggressive price than the
/// national best bid or offer by subtracting the given offset.
pub open spec fn passive_relative_order_v(account: Seq<char>, action: Seq<char>, quantity: i64, offset: i64) -> OrderV {
    OrderV {
        account: account,
        action: action,
        total_quantity: quantity,
        order_type: "PASSV REL"@,
        aux_price: offset,
        ..default_order_v()
    }
}

/// A pegged-to-midpoint order bids at the midpoint of the national best
/// bid and offer, adjusting as the market moves, within a limit.
pub open spec fn pegged_to_midpoint_order_v(account: Seq<char>, action: Seq<char>, quantity: i64, offset: i64, limit_price: i64) -> OrderV {
    OrderV {
        account: account,
        action: action,
        total_quantity: quantity,
        order_type: "PEG MID"@,
        aux_price: offset,
        lmt_price: limit_price,
        ..default_order_v()
    }
}

/// A market-to-limit order executes at the current best market price;
/// any unfilled remainder re-submits as a limit order at the fill
/// price.
pub open spec fn market_to_limit_order_v(account: Seq<char>, action: Seq<char>, quantity: i64) -> OrderV {
    OrderV {
        account: account,
        action: action,
        total_quantity: quantity,
        order_type: "MTL"@,
        ..default_order_v()
    }
}

/// A market-with-protection order is resubmitted as a limit order near
/// the market price if it does not immediately execute in full.
pub open spec fn market_with_protection_order_v(account: Seq<char>, action: Seq<char>, quantity: i64) -> OrderV {
    OrderV {
        account: account,
        action: action,
        total_quantity: quantity,
        order_type: "MKT PRT"@,
        ..default_order_v()
    }
}

/// A stop order submits a market order once the stop trigger price is
/// attained or penetrated.
pub open spec fn stop_order_v(account: Seq<char>, action: Seq<char>, quantity: i64, stop_price: i64) -> OrderV {
    OrderV {
        account: account,
        action: action,
        total_quantity: quantity,
        order_type: "STP"@,
        aux_price: stop_price,
        ..default_order_v()
    }
}

/// A stop-limit order submits a limit order at the given limit price
/// once the stop trigger price is attained or penetrated.
pub open spec fn stop_limit_order_v(account: Seq<char>, action: Seq<char>, quantity: i64, limit_price: i64, stop_price: i64) -> OrderV {
    OrderV {
        account: account,
        action: action,
        total_quantity: quantity,
        order_type: "STP LMT"@,
        lmt_price: limit_price,
        aux_price: stop_price,
        ..default_order_v()
    }
}

/// A stop-with-protection order triggers at the stop price and fills
/// within an exchange-defined protected range.
pub open spec fn stop_with_protection_order_v(account: Seq<char>, action: Seq<char>, quantity: i64, stop_price: i64) -> OrderV {
    OrderV {
        account: account,
        action: action,
        total_quantity: quantity,
        order_type: "STP PRT"@,
        aux_price: stop_price,
        ..default_order_v()
    }
}

/// A trailing stop order keeps its stop price a fixed percentage behind
/// a favourable market, submitting a market order when the stop is
/// hit.
pub open spec fn trailing_stop_order_v(account: Seq<char>, action: Seq<char>, quantity: i64, trailing_percent: i64, trail_stop_price: i64) -> OrderV {
    OrderV {
        account: account,
        action: action,
        total_quantity: quantity,
        order_type: "TRAIL"@,
        trailing_percent: trailing_percent,
        trail_stop_price: trail_stop_price,
        ..default_order_v()
    }
}

/// A trailing stop-limit order trails both its stop trigger and its
/// limit offset behind a favourable market, submitting a limit order
/// when the stop is hit.
pub open spec fn trailing_stop_limit_order_v(account: Seq<char>, action: Seq<char>, quantity: i64, lmt_price_offset: i64, trailing_amount: i64, trail_stop_price: i64) -> OrderV {
    OrderV {
        account: account,
        action: action,
        total_quantity: quantity,
        order_type: "TRAIL LIMIT"@,
        trail_stop_price: trail_stop_price,
        lmt_price_offset: lmt_price_offset,
        aux_price: trailing_amount,
        ..default_order_v()
    }
}

/// A volatility order is priced as an implied-volatility level rather
/// than a premium; the level counts ten-thousandths of a percent point
/// and the type selects daily or annual volatility.
pub open spec fn volatility_order_v(account: Seq<char>, action: Seq<char>, quantity: i64, volatility_percent: i64, volatility_type: i32) -> OrderV {
    OrderV {
        account: account,
        action: action,
        total_quantity: quantity,
        order_type: "VOL"@,
        volatility: volatility_percent,
        volatility_type: volatility_type,
        ..default_order_v()
    }
}

impl Order {
    /// An auction order is entered during the pre-market opening period for
    /// execution at the calculated opening price, and re-submitted as a limit
    /// order at that price if not filled on the open.
    pub fn at_auction_order(account: &str, action: &str, quantity: i64, price: i64) -> (r: Order)
        ensures
            r@ == at_auction_order_v(account@, action@, quantity, price),
    {
        let mut r = Order::default();
        r.account = String::from_str(account);
        r.action = String::from_str(action);
        r.total_quantity = quantity;
        r.tif = String::from_str("AUC");
        r.order_type = String::from_str("MTL");
        r.lmt_price = price;
        r
    }

    /// A limit order with a hidden discretionary amount off the limit price
    /// that widens the range over which it may execute; the market sees only
    /// the limit price.
    pub fn discretionary_order(account: &str, action: &str, quantity: i64, price: i64, discretionary_amount: i64) -> (r: Order)
        ensures
            r@ == discretionary_order_v(account@, action@, quantity, price, discretionary_amount),
    {
        let mut r = Order::default();
        r.account = String::from_str(account);
        r.action = String::from_str(action);
        r.total_quantity = quantity;
        r.order_type = String::from_str("LMT");
        r.lmt_price = price;
        r.discretionary_amt = discretionary_amount;
        r
    }

    /// A market order buys or sells at the market bid or offer, favouring
    /// speed of execution over price protection.
    pub fn market_order(account: &str, action: &str, quantity: i64) -> (r: Order)
        ensures
            r@ == market_order_v(account@, action@, quantity),
    {
        let mut r = Order::default();
        r.account = String::from_str(account);
        r.action = String::from_str(action);
        r.total_quantity = quantity;
        r.order_type = String::from_str("MKT");
        r
    }

    /// A market-if-touched order is held until its trigger price is touched,
    /// then submitted as a market order.
    pub fn market_if_touched_order_order(account: &str, action: &str, quantity: i64, price: i64) -> (r: Order)
        ensures
            r@ == market_if_touched_order_order_v(account@, action@, quantity, price),
    {
        let mut r = Order::default();
        r.account = String::from_str(account);
        r.action = String::from_str(action);
        r.total_quantity = quantity;
        r.order_type = String::from_str("MIT");
        r.aux_price = price;
        r
    }

    /// A market-on-close order executes as close to the closing price as
    /// possible.
    pub fn market_on_close_order(account: &str, action: &str, quantity: i64) -> (r: Order)
        ensures
            r@ == market_on_close_order_v(account@, action@, quantity),
    {
        let mut r = Order::default();
        r.account = String::from_str(account);
        r.action = String::from_str(action);
        r.total_quantity = quantity;
        r.order_type = String::from_str("MOC");
        r
    }

    /// A market-on-open order combines a market order with the opening time
    /// in force, filling at the market's open.
    pub fn market_on_open_order(account: &str, action: &str, quantity: i64) -> (r: Order)
        ensures
            r@ == market_on_open_order_v(account@, action@, quantity),
    {
        let mut r = Order::default();
        r.account = String::from_str(account);
        r.action = String::from_str(action);
        r.total_quantity = quantity;
        r.order_type = String::from_str("MKT");
        r.tif = String::from_str("OPG");
        r
    }

    /// A midpoint-match order executes at the midpoint of the national best
    /// bid and offer.
    pub fn midpoint_match_order(account: &str, action: &str, quantity: i64) -> (r: Order)
        ensures
            r@ == midpoint_match_order_v(account@, action@, quantity),
    {
        let mut r = Order::default();
        r.account = String::from_str(account);
        r.action = String::from_str(action);
        r.total_quantity = quantity;
        r.order_type = String::from_str("MKT");
        r
    }

    /// A midprice order seeks the midpoint of the national best bid and
    /// offer or better, capped by an optional worst acceptable price.
    pub fn midprice_order(account: &str, action: &str, quantity: i64, price_cap: i64) -> (r: Order)
        ensures
            r@ == midprice_order_v(account@, action@, quantity, price_cap),
    {
        let mut r = Order::default();
        r.account = String::from_str(account);
        r.action = String::from_str(action);
        r.total_quantity = quantity;
        r.order_type = String::from_str("MIDPRICE");
        r.lmt_price = price_cap;
        r
    }

    /// A pegged-to-market order maintains its price relative to the national
    /// best offer (buys) or bid (sells) by the given offset.
    pub fn pegged_to_market_order(account: &str, action: &str, quantity: i64, market_offset: i64) -> (r: Order)
        ensures
            r@ == pegged_to_market_order_v(account@, action@, quantity, market_offset),
    {
        let mut r = Order::default();
        r.account = String::from_str(account);
        r.action = String::from_str(action);
        r.total_quantity = quantity;
        r.order_type = String::from_str("PEG MKT");
        r.aux_price = market_offset;
        r
    }

    /// A pegged-to-stock order adjusts an option's price by the product of a
    /// signed delta and the movement of the underlying stock against a
    /// reference price.
    pub fn pegged_to_stock_order(account: &str, action: &str, quantity: i64, delta: i64, stock_reference_price: i64, starting_price: i64) -> (r: Order)
        ensures
            r@ == pegged_to_stock_order_v(account@, action@, quantity, delta, stock_reference_price, starting_price),
    {
        let mut r = Order::default();
        r.account = String::from_str(account);
        r.action = String::from_str(action);
        r.total_quantity = quantity;
        r.order_type = String::from_str("PEG STK");
        r.delta = delta;
        r.stock_ref_price = stock_reference_price;
        r.starting_price = starting_price;
        r
    }

    /// A relative (pegged-to-primary) order bids or offers more aggressively
    /// than the national best bid and offer by the given offset, under an
    /// absolute price cap.
    pub fn relative_pegged_to_primary_order(account: &str, action: &str, quantity: i64, price_cap: i64, offset_amount: i64) -> (r: Order)
        ensures
            r@ == relative_pegged_to_primary_order_v(account@, action@, quantity, price_cap, offset_amount),
    {
        let mut r = Order::default();
        r.account = String::from_str(account);
        r.action = String::from_str(action);
        r.total_quantity = quantity;
        r.order_type = String::from_str("REL");
        r.lmt_price = price_cap;
        r.aux_price = offset_amount;
        r
    }

    /// A sweep-to-fill order takes the best price and quantity available,
    /// then the next best, transmitting each portion for immediate
    /// execution.
    pub fn sweep_to_fill_order(account: &str, action: &str, quantity: i64, price: i64) -> (r: Order)
        ensures
            r@ == sweep_to_fill_order_v(account@, action@, quantity, price),
    {
        let mut r = Order::default();
        r.account = String::from_str(account);
        r.action = String::from_str(action);
        r.total_quantity = quantity;
        r.order_type = String::from_str("LMT");
        r.lmt_price = price;
        r.sweep_to_fill = true;
        r
    }

    /// An auction limit order participates in the BOX price-improvement
    /// auction at a specified limit price.
    pub fn auction_limit_order(account: &str, action: &str, quantity: i64, price: i64, auction_strategy: AuctionStrategy) -> (r: Order)
        ensures
            r@ == auction_limit_order_v(account@, action@, quantity, price, auction_strategy),
    {
        let mut r = Order::default();
        r.account = String::from_str(account);
        r.action = String::from_str(action);
        r.total_quantity = quantity;
        r.order_type = String::from_str("LMT");
        r.lmt_price = price;
        r.auction_strategy = auction_strategy;
        r
    }

    /// An auction pegged-to-stock order adjusts its price by a signed delta
    /// times the movement of the underlying, for the BOX price-improvement
    /// auction.
    pub fn auction_pegged_to_stock_order(account: &str, action: &str, quantity: i64, starting_price: i64, delta: i64) -> (r: Order)
        ensures
            r@ == auction_pegged_to_stock_order_v(account@, action@, quantity, starting_price, delta),
    {
        let mut r = Order::default();
        r.account = String::from_str(account);
        r.action = String::from_str(action);
        r.total_quantity = quantity;
        r.order_type = String::from_str("PEG STK");
        r.delta = delta;
        r.starting_price = starting_price;
        r
    }

    /// An auction relative order offsets the national best bid or offer for
    /// the BOX price-improvement auction.
    pub fn auction_relative_order(account: &str, action: &str, quantity: i64, offset: i64) -> (r: Order)
        ensures
            r@ == auction_relative_order_v(account@, action@, quantity, offset),
    {
        let mut r = Order::default();
        r.account = String::from_str(account);
        r.action = String::from_str(action);
        r.total_quantity = quantity;
        r.order_type = String::from_str("REL");
        r.aux_price = offset;
        r
    }

    /// A block order carries the block attribute for large-volume option
    /// orders of at least fifty contracts.
    pub fn block_order(account: &str, action: &str, quantity: i64, price: i64) -> (r: Order)
        ensures
            r@ == block_order_v(account@, action@, quantity, price),
    {
        let mut r = Order::default();
        r.account = String::from_str(account);
        r.action = String::from_str(action);
        r.total_quantity = quantity;
        r.order_type = String::from_str("LMT");
        r.lmt_price = price;
        r.block_order = true;
        r
    }

    /// A box-top order executes as a market order at the current best price;
    /// any unfilled remainder becomes a limit order at the fill price.
    pub fn box_top_order(account: &str, action: &str, quantity: i64) -> (r: Order)
        ensures
            r@ == box_top_order_v(account@, action@, quantity),
    {
        let mut r = Order::default();
        r.account = String::from_str(account);
        r.action = String::from_str(action);
        r.total_quantity = quantity;
        r.order_type = String::from_str("BOX TOP");
        r
    }

    /// A limit order buys or sells at a specified price or better.
    pub fn limit_order(account: &str, action: &str, quantity: i64, limit_price: i64) -> (r: Order)
        ensures
            r@ == limit_order_v(account@, action@, quantity, limit_price),
    {
        let mut r = Order::default();
        r.account = String::from_str(account);
        r.action = String::from_str(action);
        r.total_quantity = quantity;
        r.order_type = String::from_str("LMT");
        r.lmt_price = limit_price;
        r
    }

    /// A limit order denominated in the second currency of a pair through
    /// the cash-quantity field.
    pub fn limit_order_with_cash_qty_order(account: &str, action: &str, quantity: i64, limit_price: i64, cash_qty: i64) -> (r: Order)
        ensures
            r@ == limit_order_with_cash_qty_order_v(account@, action@, quantity, limit_price, cash_qty),
    {
        let mut r = Order::default();
        r.account = String::from_str(account);
        r.action = String::from_str(action);
        r.total_quantity = quantity;
        r.order_type = String::from_str("LMT");
        r.lmt_price = limit_price;
        r.cash_qty = cash_qty;
        r
    }

    /// A limit-if-touched order is held until its trigger price is touched,
    /// then submitted as a limit order.
    pub fn limit_if_touched_order(account: &str, action: &str, quantity: i64, limit_price: i64, trigger_price: i64) -> (r: Order)
        ensures
            r@ == limit_if_touched_order_v(account@, action@, quantity, limit_price, trigger_price),
    {
        let mut r = Order::default();
        r.account = String::from_str(account);
        r.action = String::from_str(action);
        r.total_quantity = quantity;
        r.order_type = String::from_str("LIT");
        r.lmt_price = limit_price;
        r.aux_price = trigger_price;
        r
    }

    /// A limit-on-close order executes at the close if the closing price is
    /// at or better than the limit price.
    pub fn limit_on_close_order(account: &str, action: &str, quantity: i64, limit_price: i64) -> (r: Order)
        ensures
            r@ == limit_on_close_order_v(account@, action@, quantity, limit_price),
    {
        let mut r = Order::default();
        r.account = String::from_str(account);
        r.action = String::from_str(action);
        r.total_quantity = quantity;
        r.order_type = String::from_str("LOC");
        r.lmt_price = limit_price;
        r
    }

    /// A limit-on-open order combines a limit order with the opening time in
    /// force, executing at the open at its limit price or better.
    pub fn limit_on_open_order(account: &str, action: &str, quantity: i64, limit_price: i64) -> (r: Order)
        ensures
            r@ == limit_on_open_order_v(account@, action@, quantity, limit_price),
    {
        let mut r = Order::default();
        r.account = String::from_str(account);
        r.action = String::from_str(action);
        r.total_quantity = quantity;
        r.tif = String::from_str("OPG");
        r.order_type = String::from_str("LMT");
        r.lmt_price = limit_price;
        r
    }

    /// A passive relative order seeks a less aggressive price than the
    /// national best bid or offer by subtracting the given offset.
    pub fn passive_relative_order(account: &str, action: &str, quantity: i64, offset: i64) -> (r: Order)
        ensures
            r@ == passive_relative_order_v(account@, action@, quantity, offset),
    {
        let mut r = Order::default();
        r.account = String::from_str(account);
        r.action = String::from_str(action);
        r.total_quantity = quantity;
        r.order_type = String::from_str("PASSV REL");
        r.aux_price = offset;
        r
    }

    /// A pegged-to-midpoint order bids at the midpoint of the national best
    /// bid and offer, adjusting as the market moves, within a limit.
    pub fn pegged_to_midpoint_order(account: &str, action: &str, quantity: i64, offset: i64, limit_price: i64) -> (r: Order)
        ensures
            r@ == pegged_to_midpoint_order_v(account@, action@, quantity, offset, limit_price),
    {
        let mut r = Order::default();
        r.account = String::from_str(account);
        r.action = String::from_str(action);
        r.total_quantity = quantity;
        r.order_type = String::from_str("PEG MID");
        r.aux_price = offset;
        r.lmt_price = limit_price;
        r
    }

    /// A market-to-limit order executes at the current best market price;
    /// any unfilled remainder re-submits as a limit order at the fill
    /// price.
    pub fn market_to_limit_order(account: &str, action: &str, quantity: i64) -> (r: Order)
        ensures
            r@ == market_to_limit_order_v(account@, action@, quantity),
    {
        let mut r = Order::default();
        r.account = String::from_str(account);
        r.action = String::from_str(action);
        r.total_quantity = quantity;
        r.order_type = String::from_str("MTL");
        r
    }

    /// A market-with-protection order is resubmitted as a limit order near
    /// the market price if it does not immediately execute in full.
    pub fn market_with_protection_order(account: &str, action: &str, quantity: i64) -> (r: Order)
        ensures
            r@ == market_with_protection_order_v(account@, action@, quantity),
    {
        let mut r = Order::default();
        r.account = String::from_str(account);
        r.action = String::from_str(action);
        r.total_quantity = quantity;
        r.order_type = String::from_str("MKT PRT");
        r
    }

    /// A stop order submits a market order once the stop trigger price is
    /// attained or penetrated.
    pub fn stop_order(account: &str, action: &str, quantity: i64, stop_price: i64) -> (r: Order)
        ensures
            r@ == stop_order_v(account@, action@, quantity, stop_price),
    {
        let mut r = Order::default();
        r.account = String::from_str(account);
        r.action = String::from_str(action);
        r.total_quantity = quantity;
        r.order_type = String::from_str("STP");
        r.aux_price = stop_price;
        r
    }

    /// A stop-limit order submits a limit order at the given limit price
    /// once the stop trigger price is attained or penetrated.
    pub fn stop_limit_order(account: &str, action: &str, quantity: i64, limit_price: i64, stop_price: i64) -> (r: Order)
        ensures
            r@ == stop_limit_order_v(account@, action@, quantity, limit_price, stop_price),
    {
        let mut r = Order::default();
        r.account = String::from_str(account);
        r.action = String::from_str(action);
        r.total_quantity = quantity;
        r.order_type = String::from_str("STP LMT");
        r.lmt_price = limit_price;
        r.aux_price = stop_price;
        r
    }

    /// A stop-with-protection order triggers at the stop price and fills
    /// within an exchange-defined protected range.
    pub fn stop_with_protection_order(account: &str, action: &str, quantity: i64, stop_price: i64) -> (r: Order)
        ensures
            r@ == stop_with_protection_order_v(account@, action@, quantity, stop_price),
    {
        let mut r = Order::default();
        r.account = String::from_str(account);
        r.action = String::from_str(action);
        r.total_quantity = quantity;
        r.order_type = String::from_str("STP PRT");
        r.aux_price = stop_price;
        r
    }

    /// A trailing stop order keeps its stop price a fixed percentage behind
    /// a favourable market, submitting a market order when the stop is
    /// hit.
    pub fn trailing_stop_order(account: &str, action: &str, quantity: i64, trailing_percent: i64, trail_stop_price: i64) -> (r: Order)
        ensures
            r@ == trailing_stop_order_v(account@, action@, quantity, trailing_percent, trail_stop_price),
    {
        let mut r = Order::default();
        r.account = String::from_str(account);
        r.action = String::from_str(action);
        r.total_quantity = quantity;
        r.order_type = String::from_str("TRAIL");
        r.trailing_percent = trailing_percent;
        r.trail_stop_price = trail_stop_price;
        r
    }

    /// A trailing stop-limit order trails both its stop trigger and its
    /// limit offset behind a favourable market, submitting a limit order
    /// when the stop is hit.
    pub fn trailing_stop_limit_order(account: &str, action: &str, quantity: i64, lmt_price_offset: i64, trailing_amount: i64, trail_stop_price: i64) -> (r: Order)
        ensures
            r@ == trailing_stop_limit_order_v(account@, action@, quantity, lmt_price_offset, trailing_amount, trail_stop_price),
    {
        let mut r = Order::default();
        r.account = String::from_str(account);
        r.action = String::from_str(action);
        r.total_quantity = quantity;
        r.order_type = String::from_str("TRAIL LIMIT");
        r.trail_stop_price = trail_stop_price;
        r.lmt_price_offset = lmt_price_offset;
        r.aux_price = trailing_amount;
        r
    }

    /// A volatility order is priced as an implied-volatility level rather
    /// than a premium; the level counts ten-thousandths of a percent point
    /// and the type selects daily or annual volatility.
    pub fn volatility_order(account: &str, action: &str, quantity: i64, volatility_percent: i64, volatility_type: i32) -> (r: Order)
        ensures
            r@ == volatility_order_v(account@, action@, quantity, volatility_percent, volatility_type),
    {
        let mut r = Order::default();
        r.account = String::from_str(account);
        r.action = String::from_str(action);
        r.total_quantity = quantity;
        r.order_type = String::from_str("VOL");
        r.volatility = volatility_percent;
        r.volatility_type = volatility_type;
        r
    }

}

/// The side that brackets an entry: `SELL` for a `BUY` parent, `BUY` for
/// anything else.
pub open spec fn opposite_action(action: Seq<char>) -> Seq<char> {
    if action == "BUY"@ { "SELL"@ } else { "BUY"@ }
}

fn opposite_action_of(action: &str) -> (r: &'static str)
    ensures
        r@ == opposite_action(action@),
{
    if str_eq(action, "BUY") { "SELL" } else { "BUY" }
}

/// The smart-combo routing parameters of a combination preset: exactly
/// one `("NonGuaranteed", "1")` pair when the flag is set, none
/// otherwise.
pub open spec fn non_guaranteed_params(non_guaranteed: bool) -> Seq<TagValueV> {
    if non_guaranteed {
        seq![TagValueV { tag: "NonGuaranteed"@, value: "1"@ }]
    } else {
        Seq::empty()
    }
}

/// One combination leg per price, in the same order.
pub open spec fn combo_legs_of(prices: Seq<i64>) -> Seq<OrderComboLeg> {
    prices.map_values(|p: i64| OrderComboLeg { price: p })
}

/// The parent of a bracket: a limit order at the entry price that is
/// held back (`transmit` clear) until the last child activates the
/// whole bracket.
pub open spec fn bracket_parent_v(
    parent_order_id: i32,
    account: Seq<char>,
    action: Seq<char>,
    quantity: i64,
    limit_price: i64,
) -> OrderV {
    OrderV {
        order_id: parent_order_id,
        account: account,
        action: action,
        order_type: "LMT"@,
        total_quantity: quantity,
        lmt_price: limit_price,
        transmit: false,
        ..default_order_v()
    }
}

/// The take-profit child of a bracket: an opposite-side limit order
/// linked to the parent, held back like the parent.  Its order id is the
/// parent's plus one by convention, not checked against an allocator.
pub open spec fn bracket_take_profit_v(
    parent_order_id: i32,
    action: Seq<char>,
    quantity: i64,
    take_profit_limit_price: i64,
) -> OrderV {
    OrderV {
        order_id: (parent_order_id + 1) as i32,
        action: opposite_action(action),
        order_type: "LMT"@,
        total_quantity: quantity,
        lmt_price: take_profit_limit_price,
        parent_id: parent_order_id,
        transmit: false,
        ..default_order_v()
    }
}

/// The stop-loss child of a bracket: an opposite-side stop order linked
/// to the parent.  It is the one order of the three that transmits, so
/// submitting it last activates the whole bracket atomically.  Its order
/// id is the parent's plus two by convention.
pub open spec fn bracket_stop_loss_v(
    parent_order_id: i32,
    action: Seq<char>,
    quantity: i64,
    stop_loss_price: i64,
) -> OrderV {
    OrderV {
        order_id: (parent_order_id + 2) as i32,
        action: opposite_action(action),
        order_type: "STP"@,
        aux_price: stop_loss_price,
        total_quantity: quantity,
        parent_id: parent_order_id,
        transmit: true,
        ..default_order_v()
    }
}

/// The order with its one-cancels-all group fields replaced and every
/// other field kept.
pub open spec fn with_oca(o: OrderV, group: Seq<char>, group_type: i32) -> OrderV {
    OrderV {
        oca_group: group,
        oca_type: group_type,
        ..o
    }
}

/// Bracket invariant: of the three orders of a bracket exactly the
/// stop-loss transmits; both children reference the parent's order id
/// through `parent_id`; and for a `BUY` or `SELL` parent both children
/// take the opposite side.
pub proof fn lemma_bracket_invariant(
    parent_order_id: i32,
    account: Seq<char>,
    action: Seq<char>,
    quantity: i64,
    limit_price: i64,
    take_profit_limit_price: i64,
    stop_loss_price: i64,
)
    ensures
        !bracket_parent_v(parent_order_id, account, action, quantity, limit_price).transmit,
        !bracket_take_profit_v(parent_order_id, action, quantity, take_profit_limit_price).transmit,
        bracket_stop_loss_v(parent_order_id, action, quantity, stop_loss_price).transmit,
        bracket_parent_v(parent_order_id, account, action, quantity, limit_price).order_id == parent_order_id,
        bracket_take_profit_v(parent_order_id, action, quantity, take_profit_limit_price).parent_id == parent_order_id,
        bracket_stop_loss_v(parent_order_id, action, quantity, stop_loss_price).parent_id == parent_order_id,
        action == "BUY"@ ==> bracket_take_profit_v(parent_order_id, action, quantity, take_profit_limit_price).action == "SELL"@
            && bracket_stop_loss_v(parent_order_id, action, quantity, stop_loss_price).action == "SELL"@,
        action == "SELL"@ ==> bracket_take_profit_v(parent_order_id, action, quantity, take_profit_limit_price).action == "BUY"@
            && bracket_stop_loss_v(parent_order_id, action, quantity, stop_loss_price).action == "BUY"@,
{
    reveal_strlit("BUY");
    reveal_strlit("SELL");
    assert("SELL"@ != "BUY"@) by {
        assert("SELL"@.len() == 4);
        assert("BUY"@.len() == 3);
    }
}

impl Order {
    /// A bracket couples an entry order with two opposite-side exits: a
    /// take-profit limit order and a stop-loss stop order.  The parent
    /// and the take-profit are held back; the stop-loss transmits, so
    /// submitting it last activates all three atomically.
    pub fn bracket_order(
        parent_order_id: i32,
        account: &str,
        action: &str,
        quantity: i64,
        limit_price: i64,
        take_profit_limit_price: i64,
        stop_loss_price: i64,
    ) -> (r: (Order, Order, Order))
        requires
            parent_order_id + 2 <= i32::MAX,
        ensures
            r.0@ == bracket_parent_v(parent_order_id, account@, action@, quantity, limit_price),
            r.1@ == bracket_take_profit_v(parent_order_id, action@, quantity, take_profit_limit_price),
            r.2@ == bracket_stop_loss_v(parent_order_id, action@, quantity, stop_loss_price),
    {
        let mut parent = Order::default();
        parent.order_id = parent_order_id;
        parent.account = String::from_str(account);
        parent.action = String::from_str(action);
        parent.order_type = String::from_str("LMT");
        parent.total_quantity = quantity;
        parent.lmt_price = limit_price;
        parent.transmit = false;

        let mut take_profit = Order::default();
        take_profit.order_id = parent_order_id + 1;
        take_profit.action = String::from_str(opposite_action_of(action));
        take_profit.order_type = String::from_str("LMT");
        take_profit.total_quantity = quantity;
        take_profit.lmt_price = take_profit_limit_price;
        take_profit.parent_id = parent_order_id;
        take_profit.transmit = false;

        let mut stop_loss = Order::default();
        stop_loss.order_id = parent_order_id + 2;
        stop_loss.action = String::from_str(opposite_action_of(action));
        stop_loss.order_type = String::from_str("STP");
        stop_loss.aux_price = stop_loss_price;
        stop_loss.total_quantity = quantity;
        stop_loss.parent_id = parent_order_id;
        stop_loss.transmit = true;

        (parent, take_profit, stop_loss)
    }

    /// Assigns every order of the list to the named one-cancels-all
    /// group with the given group type, mutating the caller's orders in
    /// place: each order keeps every other field, and the number and
    /// relative order of the orders is unchanged.
    pub fn one_cancels_all_order(oca_group: &str, oca_orders: &mut Vec<Order>, oca_type: i32)
        ensures
            final(oca_orders)@.len() == old(oca_orders)@.len(),
            forall|i: int| 0 <= i < old(oca_orders)@.len() ==>
                (#[trigger] final(oca_orders)@[i])@ == with_oca(old(oca_orders)@[i]@, oca_group@, oca_type),
    {
        let n = oca_orders.len();
        let mut i: usize = 0;
        while i < n
            invariant
                i <= n,
                n == oca_orders@.len(),
                n == old(oca_orders)@.len(),
                forall|j: int| i <= j < n ==> oca_orders@[j] == old(oca_orders)@[j],
                forall|j: int| 0 <= j < i ==>
                    (#[trigger] oca_orders@[j])@ == with_oca(old(oca_orders)@[j]@, oca_group@, oca_type),
            decreases n - i,
        {
            let ghost pre = oca_orders@;
            let mut o = oca_orders.remove(i);
            Self::set_oca(&mut o, oca_group, oca_type);
            oca_orders.insert(i, o);
            proof {
                assert(oca_orders@ =~= pre.update(i as int, o));
            }
            i += 1;
        }
    }


    /// A price trigger: fires when the scoped contract trades above or
    /// below the given price, sampled by the trigger method the wire
    /// code names.  The code must be one of the documented trigger
    /// methods.
    pub fn price_condition_order(
        trigger_method: i32,
        con_id: i32,
        exchange: &str,
        price: i64,
        is_more: bool,
        is_conjunction: bool,
    ) -> (r: PriceCondition)
        requires
            trigger_method_from_code_spec(trigger_method as int) is Some,
        ensures
            Option::Some(r.trigger_method) == trigger_method_from_code_spec(trigger_method as int),
            r@ == (PriceConditionV {
                contract_condition: ContractConditionV {
                    operator_condition: OperatorCondition {
                        order_condition: OrderCondition {
                            cond_type: ConditionType::Price,
                            is_conjunction_connection: is_conjunction,
                        },
                        is_more: is_more,
                    },
                    con_id: con_id,
                    exchange: exchange@,
                },
                price: price,
                trigger_method: r.trigger_method,
            }),
    {
        let tm = match TriggerMethod::from_code(trigger_method) {
            Some(m) => m,
            None => {
                proof {
                    assert(false);
                }
                TriggerMethod::Default
            },
        };
        PriceCondition {
            contract_condition: ContractCondition {
                operator_condition: OperatorCondition {
                    order_condition: OrderCondition {
                        cond_type: ConditionType::Price,
                        is_conjunction_connection: is_conjunction,
                    },
                    is_more,
                },
                con_id,
                exchange: String::from_str(exchange),
            },
            price,
            trigger_method: tm,
        }
    }

    /// An execution trigger: fires on an execution for the given symbol,
    /// security type and exchange.
    pub fn execution_condition_order(
        symbol: &str,
        sec_type: &str,
        exchange: &str,
        is_conjunction: bool,
    ) -> (r: ExecutionCondition)
        ensures
            r@ == (ExecutionConditionV {
                order_condition: OrderCondition {
                    cond_type: ConditionType::Execution,
                    is_conjunction_connection: is_conjunction,
                },
                symbol: symbol@,
                sec_type: sec_type@,
                exchange: exchange@,
            }),
    {
        ExecutionCondition {
            order_condition: OrderCondition {
                cond_type: ConditionType::Execution,
                is_conjunction_connection: is_conjunction,
            },
            symbol: String::from_str(symbol),
            sec_type: String::from_str(sec_type),
            exchange: String::from_str(exchange),
        }
    }

    /// A margin trigger: fires when the account's margin cushion moves
    /// above or below the given percentage, counted in ten-thousandths
    /// of a percent point.
    pub fn margin_condition_order(percent: i64, is_more: bool, is_conjunction: bool) -> (r: MarginCondition)
        ensures
            r == (MarginCondition {
                operator_condition: OperatorCondition {
                    order_condition: OrderCondition {
                        cond_type: ConditionType::Margin,
                        is_conjunction_connection: is_conjunction,
                    },
                    is_more: is_more,
                },
                percent: percent,
            }),
    {
        MarginCondition {
            operator_condition: OperatorCondition {
                order_condition: OrderCondition {
                    cond_type: ConditionType::Margin,
                    is_conjunction_connection: is_conjunction,
                },
                is_more,
            },
            percent,
        }
    }

    /// A percent-change trigger: fires when the scoped contract's price
    /// changes against the last close by more or less than the given
    /// percentage, counted in ten-thousandths of a percent point.
    pub fn percentage_change_condition_order(
        pct_change: i64,
        con_id: i32,
        exchange: &str,
        is_more: bool,
        is_conjunction: bool,
    ) -> (r: PercentChangeCondition)
        ensures
            r@ == (PercentChangeConditionV {
                contract_condition: ContractConditionV {
                    operator_condition: OperatorCondition {
                        order_condition: OrderCondition {
                            cond_type: ConditionType::PercentChange,
                            is_conjunction_connection: is_conjunction,
                        },
                        is_more: is_more,
                    },
                    con_id: con_id,
                    exchange: exchange@,
                },
                change_percent: pct_change,
            }),
    {
        PercentChangeCondition {
            contract_condition: ContractCondition {
                operator_condition: OperatorCondition {
                    order_condition: OrderCondition {
                        cond_type: ConditionType::PercentChange,
                        is_conjunction_connection: is_conjunction,
                    },
                    is_more,
                },
                con_id,
                exchange: String::from_str(exchange),
            },
            change_percent: pct_change,
        }
    }

    /// A time trigger: fires before or after the given venue-formatted
    /// time (`is_more` reads "after").
    pub fn time_condition_order(time: &str, is_more: bool, is_conjunction: bool) -> (r: TimeCondition)
        ensures
            r@ == (TimeConditionV {
                operator_condition: OperatorCondition {
                    order_condition: OrderCondition {
                        cond_type: ConditionType::Time,
                        is_conjunction_connection: is_conjunction,
                    },
                    is_more: is_more,
                },
                time: time@,
            }),
    {
        TimeCondition {
            operator_condition: OperatorCondition {
                order_condition: OrderCondition {
                    cond_type: ConditionType::Time,
                    is_conjunction_connection: is_conjunction,
                },
                is_more,
            },
            time: String::from_str(time),
        }
    }

    /// A volume trigger: fires when the scoped contract's traded volume
    /// moves above or below the given number of units.
    pub fn volume_condition_order(
        con_id: i32,
        exchange: &str,
        is_more: bool,
        volume: i32,
        is_conjunction: bool,
    ) -> (r: VolumeCondition)
        ensures
            r@ == (VolumeConditionV {
                contract_condition: ContractConditionV {
                    operator_condition: OperatorCondition {
                        order_condition: OrderCondition {
                            cond_type: ConditionType::Volume,
                            is_conjunction_connection: is_conjunction,
                        },
                        is_more: is_more,
                    },
                    con_id: con_id,
                    exchange: exchange@,
                },
                volume: volume,
            }),
    {
        VolumeCondition {
            contract_condition: ContractCondition {
                operator_condition: OperatorCondition {
                    order_condition: OrderCondition {
                        cond_type: ConditionType::Volume,
                        is_conjunction_connection: is_conjunction,
                    },
                    is_more,
                },
                con_id,
                exchange: String::from_str(exchange),
            },
            volume,
        }
    }

    fn set_oca(o: &mut Order, group: &str, group_type: i32)
        ensures
            final(o)@ == with_oca(old(o)@, group@, group_type),
    {
        o.oca_group = String::from_str(group);
        o.oca_type = group_type;
        proof {
            assert(o@ == with_oca(old(o)@, group@, group_type));
        }
    }

    /// A combination limit order, good till cancelled; a non-guaranteed
    /// combination carries the `NonGuaranteed` routing parameter.
    pub fn combo_limit_order(
        account: &str,
        action: &str,
        quantity: i64,
        limit_price: i64,
        non_guaranteed: bool,
    ) -> (r: Order)
        ensures
            r@ == combo_limit_order_v(account@, action@, quantity, limit_price, non_guaranteed),
    {
        let mut r = Order::default();
        r.account = String::from_str(account);
        r.action = String::from_str(action);
        r.order_type = String::from_str("LMT");
        r.tif = String::from_str("GTC");
        r.total_quantity = quantity;
        r.lmt_price = limit_price;
        if non_guaranteed {
            r.smart_combo_routing_params.push(
                TagValue::new(String::from_str("NonGuaranteed"), String::from_str("1")),
            );
        }
        proof {
            assert(tag_values_view(r.smart_combo_routing_params@)
                =~= non_guaranteed_params(non_guaranteed));
        }
        r
    }

    /// A combination market order; a non-guaranteed combination carries
    /// the `NonGuaranteed` routing parameter.
    pub fn combo_market_order(
        account: &str,
        action: &str,
        quantity: i64,
        non_guaranteed: bool,
    ) -> (r: Order)
        ensures
            r@ == combo_market_order_v(account@, action@, quantity, non_guaranteed),
    {
        let mut r = Order::default();
        r.account = String::from_str(account);
        r.action = String::from_str(action);
        r.order_type = String::from_str("MKT");
        r.total_quantity = quantity;
        if non_guaranteed {
            r.smart_combo_routing_params.push(
                TagValue::new(String::from_str("NonGuaranteed"), String::from_str("1")),
            );
        }
        proof {
            assert(tag_values_view(r.smart_combo_routing_params@)
                =~= non_guaranteed_params(non_guaranteed));
        }
        r
    }

    /// A combination limit order with one explicit price per leg, in the
    /// callers' order; a non-guaranteed combination carries the
    /// `NonGuaranteed` routing parameter.
    pub fn limit_for_combo_with_leg_prices_order(
        account: &str,
        action: &str,
        quantity: i64,
        leg_prices: Vec<i64>,
        non_guaranteed: bool,
    ) -> (r: Order)
        ensures
            r@ == limit_for_combo_with_leg_prices_order_v(account@, action@, quantity, leg_prices@, non_guaranteed),
    {
        let mut r = Order::default();
        r.account = String::from_str(account);
        r.action = String::from_str(action);
        r.order_type = String::from_str("LMT");
        r.total_quantity = quantity;
        let mut legs: Vec<OrderComboLeg> = Vec::new();
        let mut i: usize = 0;
        while i < leg_prices.len()
            invariant
                i <= leg_prices@.len(),
                legs@ == combo_legs_of(leg_prices@.take(i as int)),
            decreases leg_prices@.len() - i,
        {
            legs.push(OrderComboLeg::new(leg_prices[i]));
            proof {
                assert(legs@ =~= combo_legs_of(leg_prices@.take(i + 1)));
            }
            i += 1;
        }
        proof {
            assert(leg_prices@.take(leg_prices@.len() as int) =~= leg_prices@);
        }
        r.order_combo_legs = legs;
        if non_guaranteed {
            r.smart_combo_routing_params.push(
                TagValue::new(String::from_str("NonGuaranteed"), String::from_str("1")),
            );
        }
        proof {
            assert(tag_values_view(r.smart_combo_routing_params@)
                =~= non_guaranteed_params(non_guaranteed));
        }
        r
    }

    /// A combination order working as a relative order and a limit
    /// order; a non-guaranteed combination carries the `NonGuaranteed`
    /// routing parameter.
    pub fn relative_limit_combo_order(
        account: &str,
        action: &str,
        quantity: i64,
        limit_price: i64,
        non_guaranteed: bool,
    ) -> (r: Order)
        ensures
            r@ == relative_limit_combo_order_v(account@, action@, quantity, limit_price, non_guaranteed),
    {
        let mut r = Order::default();
        r.account = String::from_str(account);
        r.action = String::from_str(action);
        r.total_quantity = quantity;
        r.order_type = String::from_str("REL + LMT");
        r.lmt_price = limit_price;
        if non_guaranteed {
            r.smart_combo_routing_params.push(
                TagValue::new(String::from_str("NonGuaranteed"), String::from_str("1")),
            );
        }
        proof {
            assert(tag_values_view(r.smart_combo_routing_params@)
                =~= non_guaranteed_params(non_guaranteed));
        }
        r
    }

    /// A combination order working as a relative order and a market
    /// order; a non-guaranteed combination carries the `NonGuaranteed`
    /// routing parameter.
    pub fn relative_market_combo_order(
        account: &str,
        action: &str,
        quantity: i64,
        non_guaranteed: bool,
    ) -> (r: Order)
        ensures
            r@ == relative_market_combo_order_v(account@, action@, quantity, non_guaranteed),
    {
        let mut r = Order::default();
        r.account = String::from_str(account);
        r.action = String::from_str(action);
        r.total_quantity = quantity;
        r.order_type = String::from_str("REL + MKT");
        if non_guaranteed {
            r.smart_combo_routing_params.push(
                TagValue::new(String::from_str("NonGuaranteed"), String::from_str("1")),
            );
        }
        proof {
            assert(tag_values_view(r.smart_combo_routing_params@)
                =~= non_guaranteed_params(non_guaranteed));
        }
        r
    }


    /// A what-if order: a limit order evaluated by the venue for its
    /// projected margin and commission impact without being placed.
    pub fn what_if_limit_order(
        account: &str,
        action: &str,
        quantity: i64,
        limit_price: i64,
    ) -> (r: Order)
        ensures
            r@ == what_if_limit_order_v(account@, action@, quantity, limit_price),
    {
        let mut r = Self::limit_order(account, action, quantity, limit_price);
        r.what_if = true;
        r
    }

    /// A foreign-exchange hedge for a parent order: a market order of
    /// quantity zero with the FX hedge type, linked to the parent.
    pub fn market_fhedge_order(account: &str, parent_order_id: i32, action: &str) -> (r: Order)
        ensures
            r@ == market_fhedge_order_v(account@, parent_order_id, action@),
    {
        let mut r = Self::market_order(account, action, 0);
        r.parent_id = parent_order_id;
        r.hedge_type = String::from_str("F");
        r
    }

    /// A pegged-to-benchmark order moves its price by a set amount each
    /// time a reference contract's price moves by a set amount, starting
    /// from a given price, and stays active while the reference trades
    /// inside a range.
    pub fn pegged_to_benchmark_order(
        account: &str,
        action: &str,
        quantity: i64,
        starting_price: i64,
        pegged_change_amount_decrease: bool,
        pegged_change_amount: i64,
        reference_change_amount: i64,
        reference_con_id: i32,
        reference_exchange: &str,
        stock_reference_price: i64,
        reference_contract_lower_range: i64,
        reference_contract_upper_range: i64,
    ) -> (r: Order)
        ensures
            r@ == pegged_to_benchmark_order_v(
                account@,
                action@,
                quantity,
                starting_price,
                pegged_change_amount_decrease,
                pegged_change_amount,
                reference_change_amount,
                reference_con_id,
                reference_exchange@,
                stock_reference_price,
                reference_contract_lower_range,
                reference_contract_upper_range,
            ),
    {
        let mut r = Order::default();
        r.order_type = String::from_str("PEG BENCH");
        r.account = String::from_str(account);
        r.action = String::from_str(action);
        r.total_quantity = quantity;
        r.starting_price = starting_price;
        r.is_pegged_change_amount_decrease = pegged_change_amount_decrease;
        r.pegged_change_amount = pegged_change_amount;
        r.reference_change_amount = reference_change_amount;
        r.reference_contract_id = reference_con_id;
        r.reference_exchange_id = String::from_str(reference_exchange);
        r.stock_ref_price = stock_reference_price;
        r.stock_range_lower = reference_contract_lower_range;
        r.stock_range_upper = reference_contract_upper_range;
        r
    }

    /// Attaches an opposite-side stop order to a parent and declares the
    /// two-stage transition the venue applies once the trigger price is
    /// penetrated: the parent becomes a stop order at the adjusted stop
    /// price.
    pub fn attach_adjustable_to_stop_order(
        parent: Order,
        attached_order_stop_price: i64,
        trigger_price: i64,
        adjust_stop_price: i64,
    ) -> (r: Order)
        ensures
            r@ == attach_adjustable_to_stop_v(parent@, attached_order_stop_price, trigger_price, adjust_stop_price),
    {
        let mut r = Self::stop_order(
            parent.account.as_str(),
            opposite_action_of(parent.action.as_str()),
            parent.total_quantity,
            attached_order_stop_price,
        );
        r.parent_id = parent.order_id;
        r.trigger_price = trigger_price;
        r.adjusted_order_type = String::from_str("STP");
        r.adjusted_stop_price = adjust_stop_price;
        r
    }

    /// Attaches an opposite-side stop order to a parent and declares the
    /// transition to a stop-limit order at the adjusted stop and limit
    /// prices once the trigger price is penetrated.
    pub fn attach_adjustable_to_stop_limit_order(
        parent: Order,
        attached_order_stop_price: i64,
        trigger_price: i64,
        adjusted_stop_price: i64,
        adjusted_stop_limit_price: i64,
    ) -> (r: Order)
        ensures
            r@ == attach_adjustable_to_stop_limit_v(
                parent@,
                attached_order_stop_price,
                trigger_price,
                adjusted_stop_price,
                adjusted_stop_limit_price,
            ),
    {
        let mut r = Self::stop_order(
            parent.account.as_str(),
            opposite_action_of(parent.action.as_str()),
            parent.total_quantity,
            attached_order_stop_price,
        );
        r.parent_id = parent.order_id;
        r.trigger_price = trigger_price;
        r.adjusted_order_type = String::from_str("STP LMT");
        r.adjusted_stop_price = adjusted_stop_price;
        r.adjusted_stop_limit_price = adjusted_stop_limit_price;
        r
    }

    /// Attaches an opposite-side stop order to a parent and declares the
    /// transition to a trailing-stop order with the given stop price,
    /// trail amount and trail unit once the trigger price is penetrated.
    pub fn attach_adjustable_to_trail_order(
        parent: Order,
        attached_order_stop_price: i64,
        trigger_price: i64,
        adjusted_stop_price: i64,
        adjusted_trail_amount: i64,
        trail_unit: i32,
    ) -> (r: Order)
        ensures
            r@ == attach_adjustable_to_trail_v(
                parent@,
                attached_order_stop_price,
                trigger_price,
                adjusted_stop_price,
                adjusted_trail_amount,
                trail_unit,
            ),
    {
        let mut r = Self::stop_order(
            parent.account.as_str(),
            opposite_action_of(parent.action.as_str()),
            parent.total_quantity,
            attached_order_stop_price,
        );
        r.parent_id = parent.order_id;
        r.trigger_price = trigger_price;
        r.adjusted_order_type = String::from_str("TRAIL");
        r.adjusted_stop_price = adjusted_stop_price;
        r.adjustable_trailing_unit = trail_unit;
        r.adjusted_trailing_amount = adjusted_trail_amount;
        r
    }
}

/// A good-till-cancelled combination limit order with the
/// `NonGuaranteed` routing parameter when flagged.
pub open spec fn combo_limit_order_v(
    account: Seq<char>,
    action: Seq<char>,
    quantity: i64,
    limit_price: i64,
    non_guaranteed: bool,
) -> OrderV {
    OrderV {
        account: account,
        action: action,
        order_type: "LMT"@,
        tif: "GTC"@,
        total_quantity: quantity,
        lmt_price: limit_price,
        smart_combo_routing_params: non_guaranteed_params(non_guaranteed),
        ..default_order_v()
    }
}

/// A combination market order with the `NonGuaranteed` routing parameter
/// when flagged.
pub open spec fn combo_market_order_v(
    account: Seq<char>,
    action: Seq<char>,
    quantity: i64,
    non_guaranteed: bool,
) -> OrderV {
    OrderV {
        account: account,
        action: action,
        order_type: "MKT"@,
        total_quantity: quantity,
        smart_combo_routing_params: non_guaranteed_params(non_guaranteed),
        ..default_order_v()
    }
}

/// A combination limit order carrying one leg per price, in the same
/// order, with the `NonGuaranteed` routing parameter when flagged.
pub open spec fn limit_for_combo_with_leg_prices_order_v(
    account: Seq<char>,
    action: Seq<char>,
    quantity: i64,
    leg_prices: Seq<i64>,
    non_guaranteed: bool,
) -> OrderV {
    OrderV {
        account: account,
        action: action,
        order_type: "LMT"@,
        total_quantity: quantity,
        order_combo_legs: combo_legs_of(leg_prices),
        smart_combo_routing_params: non_guaranteed_params(non_guaranteed),
        ..default_order_v()
    }
}

/// A relative-plus-limit combination order with the `NonGuaranteed`
/// routing parameter when flagged.
pub open spec fn relative_limit_combo_order_v(
    account: Seq<char>,
    action: Seq<char>,
    quantity: i64,
    limit_price: i64,
    non_guaranteed: bool,
) -> OrderV {
    OrderV {
        account: account,
        action: action,
        total_quantity: quantity,
        order_type: "REL + LMT"@,
        lmt_price: limit_price,
        smart_combo_routing_params: non_guaranteed_params(non_guaranteed),
        ..default_order_v()
    }
}

/// A relative-plus-market combination order with the `NonGuaranteed`
/// routing parameter when flagged.
pub open spec fn relative_market_combo_order_v(
    account: Seq<char>,
    action: Seq<char>,
    quantity: i64,
    non_guaranteed: bool,
) -> OrderV {
    OrderV {
        account: account,
        action: action,
        total_quantity: quantity,
        order_type: "REL + MKT"@,
        smart_combo_routing_params: non_guaranteed_params(non_guaranteed),
        ..default_order_v()
    }
}

/// A limit order submitted in what-if mode.
pub open spec fn what_if_limit_order_v(
    account: Seq<char>,
    action: Seq<char>,
    quantity: i64,
    limit_price: i64,
) -> OrderV {
    OrderV {
        what_if: true,
        ..limit_order_v(account, action, quantity, limit_price)
    }
}

/// A zero-quantity market order carrying the FX hedge type, linked to
/// its parent.
pub open spec fn market_fhedge_order_v(
    account: Seq<char>,
    parent_order_id: i32,
    action: Seq<char>,
) -> OrderV {
    OrderV {
        parent_id: parent_order_id,
        hedge_type: "F"@,
        ..market_order_v(account, action, 0)
    }
}

/// A pegged-to-benchmark order: price moves with a reference contract,
/// active while the reference trades inside the given range.
pub open spec fn pegged_to_benchmark_order_v(
    account: Seq<char>,
    action: Seq<char>,
    quantity: i64,
    starting_price: i64,
    pegged_change_amount_decrease: bool,
    pegged_change_amount: i64,
    reference_change_amount: i64,
    reference_con_id: i32,
    reference_exchange: Seq<char>,
    stock_reference_price: i64,
    reference_contract_lower_range: i64,
    reference_contract_upper_range: i64,
) -> OrderV {
    OrderV {
        order_type: "PEG BENCH"@,
        account: account,
        action: action,
        total_quantity: quantity,
        starting_price: starting_price,
        is_pegged_change_amount_decrease: pegged_change_amount_decrease,
        pegged_change_amount: pegged_change_amount,
        reference_change_amount: reference_change_amount,
        reference_contract_id: reference_con_id,
        reference_exchange_id: reference_exchange,
        stock_ref_price: stock_reference_price,
        stock_range_lower: reference_contract_lower_range,
        stock_range_upper: reference_contract_upper_range,
        ..default_order_v()
    }
}

/// The attached stop order of `attach_adjustable_to_stop_order`, with
/// the declared transition of the parent into a stop order.
pub open spec fn attach_adjustable_to_stop_v(
    parent: OrderV,
    attached_order_stop_price: i64,
    trigger_price: i64,
    adjust_stop_price: i64,
) -> OrderV {
    OrderV {
        parent_id: parent.order_id,
        trigger_price: trigger_price,
        adjusted_order_type: "STP"@,
        adjusted_stop_price: adjust_stop_price,
        ..stop_order_v(parent.account, opposite_action(parent.action), parent.total_quantity, attached_order_stop_price)
    }
}

/// The attached stop order of `attach_adjustable_to_stop_limit_order`,
/// with the declared transition of the parent into a stop-limit order.
pub open spec fn attach_adjustable_to_stop_limit_v(
    parent: OrderV,
    attached_order_stop_price: i64,
    trigger_price: i64,
    adjusted_stop_price: i64,
    adjusted_stop_limit_price: i64,
) -> OrderV {
    OrderV {
        parent_id: parent.order_id,
        trigger_price: trigger_price,
        adjusted_order_type: "STP LMT"@,
        adjusted_stop_price: adjusted_stop_price,
        adjusted_stop_limit_price: adjusted_stop_limit_price,
        ..stop_order_v(parent.account, opposite_action(parent.action), parent.total_quantity, attached_order_stop_price)
    }
}

/// The attached stop order of `attach_adjustable_to_trail_order`, with
/// the declared transition of the parent into a trailing-stop order.
pub open spec fn attach_adjustable_to_trail_v(
    parent: OrderV,
    attached_order_stop_price: i64,
    trigger_price: i64,
    adjusted_stop_price: i64,
    adjusted_trail_amount: i64,
    trail_unit: i32,
) -> OrderV {
    OrderV {
        parent_id: parent.order_id,
        trigger_price: trigger_price,
        adjusted_order_type: "TRAIL"@,
        adjusted_stop_price: adjusted_stop_price,
        adjustable_trailing_unit: trail_unit,
        adjusted_trailing_amount: adjusted_trail_amount,
        ..stop_order_v(parent.account, opposite_action(parent.action), parent.total_quantity, attached_order_stop_price)
    }
}

} // verus!
