//! The order aggregate and its small companion records.
//!
//! An `Order` is a single large configurable record holding every field
//! any supported order style may need.  Every field is independently
//! optional: numeric fields default to the sentinels of
//! [`crate::common`], flags to their documented defaults, strings to
//! empty.  An order is a valid value the moment it is constructed; no
//! field combination is rejected at this layer — semantic validation is
//! the venue's responsibility.  Decimal amounts (prices, quantities,
//! offsets) count ten-thousandths throughout.

use vstd::prelude::*;
use vstd::string::StringExecFns;
use crate::common::TagValue;
use crate::common::TagValueV;
use crate::common::UNSET_DOUBLE;
use crate::common::UNSET_INTEGER;
use crate::common::tag_values_view;
use crate::order_condition::OrderConditionEnum;
use crate::order_condition::OrderConditionEnumV;
use crate::order_condition::conditions_view;

verus! {

/// Who an order originates from.
#[derive(Clone, Copy, Debug, PartialEq, Eq, Structural)]
pub enum Origin {
    Customer,
    Firm,
    Unknown,
}

/// The wire code of each origin.
pub open spec fn origin_code(o: Origin) -> int {
    match o {
        Origin::Customer => 0,
        Origin::Firm => 1,
        Origin::Unknown => 2,
    }
}

/// The origin a wire code denotes.
pub open spec fn origin_from_code_spec(c: int) -> Option<Origin> {
    if c == 0 { Option::Some(Origin::Customer) }
    else if c == 1 { Option::Some(Origin::Firm) }
    else if c == 2 { Option::Some(Origin::Unknown) }
    else { Option::None }
}

impl Origin {
    /// The wire code of this origin.
    pub fn code(self) -> (c: i32)
        ensures
            c as int == origin_code(self),
    {
        match self {
            Origin::Customer => 0,
            Origin::Firm => 1,
            Origin::Unknown => 2,
        }
    }

    /// The origin a wire code denotes, if any.
    pub fn from_code(c: i32) -> (r: Option<Origin>)
        ensures
            r == origin_from_code_spec(c as int),
    {
        if c == 0 { Some(Origin::Customer) }
        else if c == 1 { Some(Origin::Firm) }
        else if c == 2 { Some(Origin::Unknown) }
        else { None }
    }
}

impl Default for Origin {
    /// An unspecified origin reads as `Unknown`.
    fn default() -> (r: Self)
        ensures
            r == Origin::Unknown,
    {
        Origin::Unknown
    }
}

/// The auction strategy of a BOX exchange order.
#[derive(Clone, Copy, Debug, PartialEq, Eq, Structural)]
pub enum AuctionStrategy {
    AuctionUnset,
    AuctionMatch,
    AuctionImprovement,
    AuctionTransparent,
}

/// The wire code of each auction strategy.
pub open spec fn auction_strategy_code(a: AuctionStrategy) -> int {
    match a {
        AuctionStrategy::AuctionUnset => 0,
        AuctionStrategy::AuctionMatch => 1,
        AuctionStrategy::AuctionImprovement => 2,
        AuctionStrategy::AuctionTransparent => 3,
    }
}

/// The auction strategy a wire code denotes.
pub open spec fn auction_strategy_from_code_spec(c: int) -> Option<AuctionStrategy> {
    if c == 0 { Option::Some(AuctionStrategy::AuctionUnset) }
    else if c == 1 { Option::Some(AuctionStrategy::AuctionMatch) }
    else if c == 2 { Option::Some(AuctionStrategy::AuctionImprovement) }
    else if c == 3 { Option::Some(AuctionStrategy::AuctionTransparent) }
    else { Option::None }
}

impl AuctionStrategy {
    /// The wire code of this auction strategy.
    pub fn code(self) -> (c: i32)
        ensures
            c as int == auction_strategy_code(self),
    {
        match self {
            AuctionStrategy::AuctionUnset => 0,
            AuctionStrategy::AuctionMatch => 1,
            AuctionStrategy::AuctionImprovement => 2,
            AuctionStrategy::AuctionTransparent => 3,
        }
    }

    /// The auction strategy a wire code denotes, if any.
    pub fn from_code(c: i32) -> (r: Option<AuctionStrategy>)
        ensures
            r == auction_strategy_from_code_spec(c as int),
    {
        if c == 0 { Some(AuctionStrategy::AuctionUnset) }
        else if c == 1 { Some(AuctionStrategy::AuctionMatch) }
        else if c == 2 { Some(AuctionStrategy::AuctionImprovement) }
        else if c == 3 { Some(AuctionStrategy::AuctionTransparent) }
        else { None }
    }
}

impl Default for AuctionStrategy {
    /// An unspecified auction strategy reads as `AuctionUnset`.
    fn default() -> (r: Self)
        ensures
            r == AuctionStrategy::AuctionUnset,
    {
        AuctionStrategy::AuctionUnset
    }
}

/// Compliance metadata of an order: three descriptive strings, empty by
/// default.
#[derive(Clone, Debug)]
pub struct SoftDollarTier {
    pub name: String,
    pub val: String,
    pub display_name: String,
}

/// Ghost image of a soft-dollar tier.
#[verifier::ext_equal]
pub ghost struct SoftDollarTierV {
    pub name: Seq<char>,
    pub val: Seq<char>,
    pub display_name: Seq<char>,
}

impl View for SoftDollarTier {
    type V = SoftDollarTierV;

    open spec fn view(&self) -> SoftDollarTierV {
        SoftDollarTierV {
            name: self.name@,
            val: self.val@,
            display_name: self.display_name@,
        }
    }
}

impl SoftDollarTier {
    pub fn new(name: String, val: String, display_name: String) -> (r: Self)
        ensures
            r@ == (SoftDollarTierV { name: name@, val: val@, display_name: display_name@ }),
    {
        SoftDollarTier { name, val, display_name }
    }
}

/// One leg of a combination order: its price contribution in
/// ten-thousandths.  The order holds these in sequence; the index
/// position correlates to the combination's constituent legs.
#[derive(Clone, Copy, Debug, PartialEq, Eq, Structural)]
pub struct OrderComboLeg {
    pub price: i64,
}

impl OrderComboLeg {
    pub fn new(price: i64) -> (r: Self)
        ensures
            r.price == price,
    {
        OrderComboLeg { price }
    }
}

/// The venue's read-only snapshot of an order after a what-if
/// evaluation or submission: margin and equity deltas, commissions and
/// completion status.  This layer only defines its shape and renders
/// it; commission amounts use the decimal sentinel when unreported.
#[derive(Clone, Debug)]
pub struct OrderState {
    pub status: String,
    pub init_margin_before: String,
    pub maint_margin_before: String,
    pub equity_with_loan_before: String,
    pub init_margin_change: String,
    pub maint_margin_change: String,
    pub equity_with_loan_change: String,
    pub init_margin_after: String,
    pub maint_margin_after: String,
    pub equity_with_loan_after: String,
    pub commission: i64,
    pub min_commission: i64,
    pub max_commission: i64,
    pub commission_currency: String,
    pub warning_text: String,
    pub completed_time: String,
    pub completed_status: String,
}

/// Ghost image of an order-state snapshot.
#[verifier::ext_equal]
pub ghost struct OrderStateV {
    pub status: Seq<char>,
    pub init_margin_before: Seq<char>,
    pub maint_margin_before: Seq<char>,
    pub equity_with_loan_before: Seq<char>,
    pub init_margin_change: Seq<char>,
    pub maint_margin_change: Seq<char>,
    pub equity_with_loan_change: Seq<char>,
    pub init_margin_after: Seq<char>,
    pub maint_margin_after: Seq<char>,
    pub equity_with_loan_after: Seq<char>,
    pub commission: i64,
    pub min_commission: i64,
    pub max_commission: i64,
    pub commission_currency: Seq<char>,
    pub warning_text: Seq<char>,
    pub completed_time: Seq<char>,
    pub completed_status: Seq<char>,
}

impl View for OrderState {
    type V = OrderStateV;

    open spec fn view(&self) -> OrderStateV {
        OrderStateV {
            status: self.status@,
            init_margin_before: self.init_margin_before@,
            maint_margin_before: self.maint_margin_before@,
            equity_with_loan_before: self.equity_with_loan_before@,
            init_margin_change: self.init_margin_change@,
            maint_margin_change: self.maint_margin_change@,
            equity_with_loan_change: self.equity_with_loan_change@,
            init_margin_after: self.init_margin_after@,
            maint_margin_after: self.maint_margin_after@,
            equity_with_loan_after: self.equity_with_loan_after@,
            commission: self.commission,
            min_commission: self.min_commission,
            max_commission: self.max_commission,
            commission_currency: self.commission_currency@,
            warning_text: self.warning_text@,
            completed_time: self.completed_time@,
            completed_status: self.completed_status@,
        }
    }
}

impl OrderState {
    pub fn new(
        status: String,
        init_margin_before: String,
        maint_margin_before: String,
        equity_with_loan_before: String,
        init_margin_change: String,
        maint_margin_change: String,
        equity_with_loan_change: String,
        init_margin_after: String,
        maint_margin_after: String,
        equity_with_loan_after: String,
        commission: i64,
        min_commission: i64,
        max_commission: i64,
        commission_currency: String,
        warning_text: String,
        completed_time: String,
        completed_status: String,
    ) -> (r: Self)
        ensures
            r@ == (OrderStateV {
                status: status@,
                init_margin_before: init_margin_before@,
                maint_margin_before: maint_margin_before@,
                equity_with_loan_before: equity_with_loan_before@,
                init_margin_change: init_margin_change@,
                maint_margin_change: maint_margin_change@,
                equity_with_loan_change: equity_with_loan_change@,
                init_margin_after: init_margin_after@,
                maint_margin_after: maint_margin_after@,
                equity_with_loan_after: equity_with_loan_after@,
                commission: commission,
                min_commission: min_commission,
                max_commission: max_commission,
                commission_currency: commission_currency@,
                warning_text: warning_text@,
                completed_time: completed_time@,
                completed_status: completed_status@,
            }),
    {
        OrderState {
            status,
            init_margin_before,
            maint_margin_before,
            equity_with_loan_before,
            init_margin_change,
            maint_margin_change,
            equity_with_loan_change,
            init_margin_after,
            maint_margin_after,
            equity_with_loan_after,
            commission,
            min_commission,
            max_commission,
            commission_currency,
            warning_text,
            completed_time,
            completed_status,
        }
    }
}

/// The order aggregate: every field any order style may need, each
/// independently optional through its type's sentinel or empty default.
#[derive(Clone, Debug)]
pub struct Order {
    pub soft_dollar_tier: SoftDollarTier,
    pub order_id: i32,
    pub client_id: i32,
    pub perm_id: i32,
    pub action: String,
    pub total_quantity: i64,
    pub order_type: String,
    pub lmt_price: i64,
    pub aux_price: i64,
    pub tif: String,
    pub active_start_time: String,
    pub active_stop_time: String,
    pub oca_group: String,
    pub oca_type: i32,
    pub order_ref: String,
    pub transmit: bool,
    pub parent_id: i32,
    pub block_order: bool,
    pub sweep_to_fill: bool,
    pub display_size: i32,
    pub trigger_method: i32,
    pub outside_rth: bool,
    pub hidden: bool,
    pub good_after_time: String,
    pub good_till_date: String,
    pub rule80a: String,
    pub all_or_none: bool,
    pub min_qty: i32,
    pub percent_offset: i64,
    pub override_percentage_constraints: bool,
    pub trail_stop_price: i64,
    pub trailing_percent: i64,
    pub fa_group: String,
    pub fa_profile: String,
    pub fa_method: String,
    pub fa_percentage: String,
    pub designated_location: String,
    pub open_close: String,
    pub origin: Origin,
    pub short_sale_slot: i32,
    pub exempt_code: i32,
    pub discretionary_amt: i64,
    pub e_trade_only: bool,
    pub firm_quote_only: bool,
    pub nbbo_price_cap: i64,
    pub opt_out_smart_routing: bool,
    pub auction_strategy: AuctionStrategy,
    pub starting_price: i64,
    pub stock_ref_price: i64,
    pub delta: i64,
    pub stock_range_lower: i64,
    pub stock_range_upper: i64,
    pub randomize_price: bool,
    pub randomize_size: bool,
    pub volatility: i64,
    pub volatility_type: i32,
    pub delta_neutral_order_type: String,
    pub delta_neutral_aux_price: i64,
    pub delta_neutral_con_id: i32,
    pub delta_neutral_settling_firm: String,
    pub delta_neutral_clearing_account: String,
    pub delta_neutral_clearing_intent: String,
    pub delta_neutral_open_close: String,
    pub delta_neutral_short_sale: bool,
    pub delta_neutral_short_sale_slot: i32,
    pub delta_neutral_designated_location: String,
    pub continuous_update: bool,
    pub reference_price_type: i32,
    pub basis_points: i64,
    pub basis_points_type: i32,
    pub scale_init_level_size: i32,
    pub scale_subs_level_size: i32,
    pub scale_price_increment: i64,
    pub scale_price_adjust_value: i64,
    pub scale_price_adjust_interval: i32,
    pub scale_profit_offset: i64,
    pub scale_auto_reset: bool,
    pub scale_init_position: i32,
    pub scale_init_fill_qty: i32,
    pub scale_random_percent: bool,
    pub scale_table: String,
    pub hedge_type: String,
    pub hedge_param: String,
    pub account: String,
    pub settling_firm: String,
    pub clearing_account: String,
    pub clearing_intent: String,
    pub algo_strategy: String,
    pub algo_params: Vec<TagValue>,
    pub smart_combo_routing_params: Vec<TagValue>,
    pub algo_id: String,
    pub what_if: bool,
    pub not_held: bool,
    pub solicited: bool,
    pub model_code: String,
    pub order_combo_legs: Vec<OrderComboLeg>,
    pub order_misc_options: Vec<TagValue>,
    pub reference_contract_id: i32,
    pub pegged_change_amount: i64,
    pub is_pegged_change_amount_decrease: bool,
    pub reference_change_amount: i64,
    pub reference_exchange_id: String,
    pub adjusted_order_type: String,
    pub trigger_price: i64,
    pub adjusted_stop_price: i64,
    pub adjusted_stop_limit_price: i64,
    pub adjusted_trailing_amount: i64,
    pub adjustable_trailing_unit: i32,
    pub lmt_price_offset: i64,
    pub conditions: Vec<OrderConditionEnum>,
    pub conditions_cancel_order: bool,
    pub conditions_ignore_rth: bool,
    pub ext_operator: String,
    pub cash_qty: i64,
    pub mifid2decision_maker: String,
    pub mifid2decision_algo: String,
    pub mifid2execution_trader: String,
    pub mifid2execution_algo: String,
    pub dont_use_auto_price_for_hedge: bool,
    pub is_oms_container: bool,
    pub discretionary_up_to_limit_price: bool,
    pub auto_cancel_date: String,
    pub filled_quantity: i64,
    pub ref_futures_con_id: i32,
    pub auto_cancel_parent: bool,
    pub shareholder: String,
    pub imbalance_only: bool,
    pub route_marketable_to_bbo: bool,
    pub parent_perm_id: i32,
    pub use_price_mgmt_algo: bool,
}

/// Ghost image of an order: strings as character sequences, lists as
/// sequences of their elements' images.
pub ghost struct OrderV {
    pub soft_dollar_tier: SoftDollarTierV,
    pub order_id: i32,
    pub client_id: i32,
    pub perm_id: i32,
    pub action: Seq<char>,
    pub total_quantity: i64,
    pub order_type: Seq<char>,
    pub lmt_price: i64,
    pub aux_price: i64,
    pub tif: Seq<char>,
    pub active_start_time: Seq<char>,
    pub active_stop_time: Seq<char>,
    pub oca_group: Seq<char>,
    pub oca_type: i32,
    pub order_ref: Seq<char>,
    pub transmit: bool,
    pub parent_id: i32,
    pub block_order: bool,
    pub sweep_to_fill: bool,
    pub display_size: i32,
    pub trigger_method: i32,
    pub outside_rth: bool,
    pub hidden: bool,
    pub good_after_time: Seq<char>,
    pub good_till_date: Seq<char>,
    pub rule80a: Seq<char>,
    pub all_or_none: bool,
    pub min_qty: i32,
    pub percent_offset: i64,
    pub override_percentage_constraints: bool,
    pub trail_stop_price: i64,
    pub trailing_percent: i64,
    pub fa_group: Seq<char>,
    pub fa_profile: Seq<char>,
    pub fa_method: Seq<char>,
    pub fa_percentage: Seq<char>,
    pub designated_location: Seq<char>,
    pub open_close: Seq<char>,
    pub origin: Origin,
    pub short_sale_slot: i32,
    pub exempt_code: i32,
    pub discretionary_amt: i64,
    pub e_trade_only: bool,
    pub firm_quote_only: bool,
    pub nbbo_price_cap: i64,
    pub opt_out_smart_routing: bool,
    pub auction_strategy: AuctionStrategy,
    pub starting_price: i64,
    pub stock_ref_price: i64,
    pub delta: i64,
    pub stock_range_lower: i64,
    pub stock_range_upper: i64,
    pub randomize_price: bool,
    pub randomize_size: bool,
    pub volatility: i64,
    pub volatility_type: i32,
    pub delta_neutral_order_type: Seq<char>,
    pub delta_neutral_aux_price: i64,
    pub delta_neutral_con_id: i32,
    pub delta_neutral_settling_firm: Seq<char>,
    pub delta_neutral_clearing_account: Seq<char>,
    pub delta_neutral_clearing_intent: Seq<char>,
    pub delta_neutral_open_close: Seq<char>,
    pub delta_neutral_short_sale: bool,
    pub delta_neutral_short_sale_slot: i32,
    pub delta_neutral_designated_location: Seq<char>,
    pub continuous_update: bool,
    pub reference_price_type: i32,
    pub basis_points: i64,
    pub basis_points_type: i32,
    pub scale_init_level_size: i32,
    pub scale_subs_level_size: i32,
    pub scale_price_increment: i64,
    pub scale_price_adjust_value: i64,
    pub scale_price_adjust_interval: i32,
    pub scale_profit_offset: i64,
    pub scale_auto_reset: bool,
    pub scale_init_position: i32,
    pub scale_init_fill_qty: i32,
    pub scale_random_percent: bool,
    pub scale_table: Seq<char>,
    pub hedge_type: Seq<char>,
    pub hedge_param: Seq<char>,
    pub account: Seq<char>,
    pub settling_firm: Seq<char>,
    pub clearing_account: Seq<char>,
    pub clearing_intent: Seq<char>,
    pub algo_strategy: Seq<char>,
    pub algo_params: Seq<TagValueV>,
    pub smart_combo_routing_params: Seq<TagValueV>,
    pub algo_id: Seq<char>,
    pub what_if: bool,
    pub not_held: bool,
    pub solicited: bool,
    pub model_code: Seq<char>,
    pub order_combo_legs: Seq<OrderComboLeg>,
    pub order_misc_options: Seq<TagValueV>,
    pub reference_contract_id: i32,
    pub pegged_change_amount: i64,
    pub is_pegged_change_amount_decrease: bool,
    pub reference_change_amount: i64,
    pub reference_exchange_id: Seq<char>,
    pub adjusted_order_type: Seq<char>,
    pub trigger_price: i64,
    pub adjusted_stop_price: i64,
    pub adjusted_stop_limit_price: i64,
    pub adjusted_trailing_amount: i64,
    pub adjustable_trailing_unit: i32,
    pub lmt_price_offset: i64,
    pub conditions: Seq<OrderConditionEnumV>,
    pub conditions_cancel_order: bool,
    pub conditions_ignore_rth: bool,
    pub ext_operator: Seq<char>,
    pub cash_qty: i64,
    pub mifid2decision_maker: Seq<char>,
    pub mifid2decision_algo: Seq<char>,
    pub mifid2execution_trader: Seq<char>,
    pub mifid2execution_algo: Seq<char>,
    pub dont_use_auto_price_for_hedge: bool,
    pub is_oms_container: bool,
    pub discretionary_up_to_limit_price: bool,
    pub auto_cancel_date: Seq<char>,
    pub filled_quantity: i64,
    pub ref_futures_con_id: i32,
    pub auto_cancel_parent: bool,
    pub shareholder: Seq<char>,
    pub imbalance_only: bool,
    pub route_marketable_to_bbo: bool,
    pub parent_perm_id: i32,
    pub use_price_mgmt_algo: bool,
}

impl View for Order {
    type V = OrderV;

    open spec fn view(&self) -> OrderV {
        OrderV {
            soft_dollar_tier: self.soft_dollar_tier@,
            order_id: self.order_id,
            client_id: self.client_id,
            perm_id: self.perm_id,
            action: self.action@,
            total_quantity: self.total_quantity,
            order_type: self.order_type@,
            lmt_price: self.lmt_price,
            aux_price: self.aux_price,
            tif: self.tif@,
            active_start_time: self.active_start_time@,
            active_stop_time: self.active_stop_time@,
            oca_group: self.oca_group@,
            oca_type: self.oca_type,
            order_ref: self.order_ref@,
            transmit: self.transmit,
            parent_id: self.parent_id,
            block_order: self.block_order,
            sweep_to_fill: self.sweep_to_fill,
            display_size: self.display_size,
            trigger_method: self.trigger_method,
            outside_rth: self.outside_rth,
            hidden: self.hidden,
            good_after_time: self.good_after_time@,
            good_till_date: self.good_till_date@,
            rule80a: self.rule80a@,
            all_or_none: self.all_or_none,
            min_qty: self.min_qty,
            percent_offset: self.percent_offset,
            override_percentage_constraints: self.override_percentage_constraints,
            trail_stop_price: self.trail_stop_price,
            trailing_percent: self.trailing_percent,
            fa_group: self.fa_group@,
            fa_profile: self.fa_profile@,
            fa_method: self.fa_method@,
            fa_percentage: self.fa_percentage@,
            designated_location: self.designated_location@,
            open_close: self.open_close@,
            origin: self.origin,
            short_sale_slot: self.short_sale_slot,
            exempt_code: self.exempt_code,
            discretionary_amt: self.discretionary_amt,
            e_trade_only: self.e_trade_only,
            firm_quote_only: self.firm_quote_only,
            nbbo_price_cap: self.nbbo_price_cap,
            opt_out_smart_routing: self.opt_out_smart_routing,
            auction_strategy: self.auction_strategy,
            starting_price: self.starting_price,
            stock_ref_price: self.stock_ref_price,
            delta: self.delta,
            stock_range_lower: self.stock_range_lower,
            stock_range_upper: self.stock_range_upper,
            randomize_price: self.randomize_price,
            randomize_size: self.randomize_size,
            volatility: self.volatility,
            volatility_type: self.volatility_type,
            delta_neutral_order_type: self.delta_neutral_order_type@,
            delta_neutral_aux_price: self.delta_neutral_aux_price,
            delta_neutral_con_id: self.delta_neutral_con_id,
            delta_neutral_settling_firm: self.delta_neutral_settling_firm@,
            delta_neutral_clearing_account: self.delta_neutral_clearing_account@,
            delta_neutral_clearing_intent: self.delta_neutral_clearing_intent@,
            delta_neutral_open_close: self.delta_neutral_open_close@,
            delta_neutral_short_sale: self.delta_neutral_short_sale,
            delta_neutral_short_sale_slot: self.delta_neutral_short_sale_slot,
            delta_neutral_designated_location: self.delta_neutral_designated_location@,
            continuous_update: self.continuous_update,
            reference_price_type: self.reference_price_type,
            basis_points: self.basis_points,
            basis_points_type: self.basis_points_type,
            scale_init_level_size: self.scale_init_level_size,
            scale_subs_level_size: self.scale_subs_level_size,
            scale_price_increment: self.scale_price_increment,
            scale_price_adjust_value: self.scale_price_adjust_value,
            scale_price_adjust_interval: self.scale_price_adjust_interval,
            scale_profit_offset: self.scale_profit_offset,
            scale_auto_reset: self.scale_auto_reset,
            scale_init_position: self.scale_init_position,
            scale_init_fill_qty: self.scale_init_fill_qty,
            scale_random_percent: self.scale_random_percent,
            scale_table: self.scale_table@,
            hedge_type: self.hedge_type@,
            hedge_param: self.hedge_param@,
            account: self.account@,
            settling_firm: self.settling_firm@,
            clearing_account: self.clearing_account@,
            clearing_intent: self.clearing_intent@,
            algo_strategy: self.algo_strategy@,
            algo_params: tag_values_view(self.algo_params@),
            smart_combo_routing_params: tag_values_view(self.smart_combo_routing_params@),
            algo_id: self.algo_id@,
            what_if: self.what_if,
            not_held: self.not_held,
            solicited: self.solicited,
            model_code: self.model_code@,
            order_combo_legs: self.order_combo_legs@,
            order_misc_options: tag_values_view(self.order_misc_options@),
            reference_contract_id: self.reference_contract_id,
            pegged_change_amount: self.pegged_change_amount,
            is_pegged_change_amount_decrease: self.is_pegged_change_amount_decrease,
            reference_change_amount: self.reference_change_amount,
            reference_exchange_id: self.reference_exchange_id@,
            adjusted_order_type: self.adjusted_order_type@,
            trigger_price: self.trigger_price,
            adjusted_stop_price: self.adjusted_stop_price,
            adjusted_stop_limit_price: self.adjusted_stop_limit_price,
            adjusted_trailing_amount: self.adjusted_trailing_amount,
            adjustable_trailing_unit: self.adjustable_trailing_unit,
            lmt_price_offset: self.lmt_price_offset,
            conditions: conditions_view(self.conditions@),
            conditions_cancel_order: self.conditions_cancel_order,
            conditions_ignore_rth: self.conditions_ignore_rth,
            ext_operator: self.ext_operator@,
            cash_qty: self.cash_qty,
            mifid2decision_maker: self.mifid2decision_maker@,
            mifid2decision_algo: self.mifid2decision_algo@,
            mifid2execution_trader: self.mifid2execution_trader@,
            mifid2execution_algo: self.mifid2execution_algo@,
            dont_use_auto_price_for_hedge: self.dont_use_auto_price_for_hedge,
            is_oms_container: self.is_oms_container,
            discretionary_up_to_limit_price: self.discretionary_up_to_limit_price,
            auto_cancel_date: self.auto_cancel_date@,
            filled_quantity: self.filled_quantity,
            ref_futures_con_id: self.ref_futures_con_id,
            auto_cancel_parent: self.auto_cancel_parent,
            shareholder: self.shareholder@,
            imbalance_only: self.imbalance_only,
            route_marketable_to_bbo: self.route_marketable_to_bbo,
            parent_perm_id: self.parent_perm_id,
            use_price_mgmt_algo: self.use_price_mgmt_algo,
        }
    }
}

/// The default order: every optional numeric field at its sentinel,
/// every flag at its documented default (`transmit`, `e_trade_only` and
/// `firm_quote_only` set), every string empty but `open_close` at `O`,
/// origin `Customer` and `exempt_code` `-1`.
pub open spec fn default_order_v() -> OrderV {
    OrderV {
        soft_dollar_tier: SoftDollarTierV { name: Seq::empty(), val: Seq::empty(), display_name: Seq::empty() },
        order_id: 0,
        client_id: 0,
        perm_id: 0,
        action: Seq::<char>::empty(),
        total_quantity: 0,
        order_type: Seq::<char>::empty(),
        lmt_price: UNSET_DOUBLE,
        aux_price: UNSET_DOUBLE,
        tif: Seq::<char>::empty(),
        active_start_time: Seq::<char>::empty(),
        active_stop_time: Seq::<char>::empty(),
        oca_group: Seq::<char>::empty(),
        oca_type: 0,
        order_ref: Seq::<char>::empty(),
        transmit: true,
        parent_id: 0,
        block_order: false,
        sweep_to_fill: false,
        display_size: 0,
        trigger_method: 0,
        outside_rth: false,
        hidden: false,
        good_after_time: Seq::<char>::empty(),
        good_till_date: Seq::<char>::empty(),
        rule80a: Seq::<char>::empty(),
        all_or_none: false,
        min_qty: UNSET_INTEGER,
        percent_offset: UNSET_DOUBLE,
        override_percentage_constraints: false,
        trail_stop_price: UNSET_DOUBLE,
        trailing_percent: UNSET_DOUBLE,
        fa_group: Seq::<char>::empty(),
        fa_profile: Seq::<char>::empty(),
        fa_method: Seq::<char>::empty(),
        fa_percentage: Seq::<char>::empty(),
        designated_location: Seq::<char>::empty(),
        open_close: "O"@,
        origin: Origin::Customer,
        short_sale_slot: 0,
        exempt_code: -1i32,
        discretionary_amt: 0,
        e_trade_only: true,
        firm_quote_only: true,
        nbbo_price_cap: UNSET_DOUBLE,
        opt_out_smart_routing: false,
        auction_strategy: AuctionStrategy::AuctionUnset,
        starting_price: UNSET_DOUBLE,
        stock_ref_price: UNSET_DOUBLE,
        delta: UNSET_DOUBLE,
        stock_range_lower: UNSET_DOUBLE,
        stock_range_upper: UNSET_DOUBLE,
        randomize_price: false,
        randomize_size: false,
        volatility: UNSET_DOUBLE,
        volatility_type: UNSET_INTEGER,
        delta_neutral_order_type: Seq::<char>::empty(),
        delta_neutral_aux_price: UNSET_DOUBLE,
        delta_neutral_con_id: 0,
        delta_neutral_settling_firm: Seq::<char>::empty(),
        delta_neutral_clearing_account: Seq::<char>::empty(),
        delta_neutral_clearing_intent: Seq::<char>::empty(),
        delta_neutral_open_close: Seq::<char>::empty(),
        delta_neutral_short_sale: false,
        delta_neutral_short_sale_slot: 0,
        delta_neutral_designated_location: Seq::<char>::empty(),
        continuous_update: false,
        reference_price_type: UNSET_INTEGER,
        basis_points: UNSET_DOUBLE,
        basis_points_type: UNSET_INTEGER,
        scale_init_level_size: UNSET_INTEGER,
        scale_subs_level_size: UNSET_INTEGER,
        scale_price_increment: UNSET_DOUBLE,
        scale_price_adjust_value: UNSET_DOUBLE,
        scale_price_adjust_interval: UNSET_INTEGER,
        scale_profit_offset: UNSET_DOUBLE,
        scale_auto_reset: false,
        scale_init_position: UNSET_INTEGER,
        scale_init_fill_qty: UNSET_INTEGER,
        scale_random_percent: false,
        scale_table: Seq::<char>::empty(),
        hedge_type: Seq::<char>::empty(),
        hedge_param: Seq::<char>::empty(),
        account: Seq::<char>::empty(),
        settling_firm: Seq::<char>::empty(),
        clearing_account: Seq::<char>::empty(),
        clearing_intent: Seq::<char>::empty(),
        algo_strategy: Seq::<char>::empty(),
        algo_params: Seq::<TagValueV>::empty(),
        smart_combo_routing_params: Seq::<TagValueV>::empty(),
        algo_id: Seq::<char>::empty(),
        what_if: false,
        not_held: false,
        solicited: false,
        model_code: Seq::<char>::empty(),
        order_combo_legs: Seq::<OrderComboLeg>::empty(),
        order_misc_options: Seq::<TagValueV>::empty(),
        reference_contract_id: 0,
        pegged_change_amount: 0,
        is_pegged_change_amount_decrease: false,
        reference_change_amount: 0,
        reference_exchange_id: Seq::<char>::empty(),
        adjusted_order_type: Seq::<char>::empty(),
        trigger_price: UNSET_DOUBLE,
        adjusted_stop_price: UNSET_DOUBLE,
        adjusted_stop_limit_price: UNSET_DOUBLE,
        adjusted_trailing_amount: UNSET_DOUBLE,
        adjustable_trailing_unit: 0,
        lmt_price_offset: UNSET_DOUBLE,
        conditions: Seq::<OrderConditionEnumV>::empty(),
        conditions_cancel_order: false,
        conditions_ignore_rth: false,
        ext_operator: Seq::<char>::empty(),
        cash_qty: UNSET_DOUBLE,
        mifid2decision_maker: Seq::<char>::empty(),
        mifid2decision_algo: Seq::<char>::empty(),
        mifid2execution_trader: Seq::<char>::empty(),
        mifid2execution_algo: Seq::<char>::empty(),
        dont_use_auto_price_for_hedge: false,
        is_oms_container: false,
        discretionary_up_to_limit_price: false,
        auto_cancel_date: Seq::<char>::empty(),
        filled_quantity: UNSET_DOUBLE,
        ref_futures_con_id: 0,
        auto_cancel_parent: false,
        shareholder: Seq::<char>::empty(),
        imbalance_only: false,
        route_marketable_to_bbo: false,
        parent_perm_id: 0,
        use_price_mgmt_algo: false,
    }
}

impl Default for Order {
    /// Builds the default order, field for field as `default_order_v`
    /// states it.
    fn default() -> (r: Self)
        ensures
            r@ == default_order_v(),
    {
        let r = Order {
            soft_dollar_tier: SoftDollarTier::new(String::new(), String::new(), String::new()),
            order_id: 0,
            client_id: 0,
            perm_id: 0,
            action: String::new(),
            total_quantity: 0,
            order_type: String::new(),
            lmt_price: UNSET_DOUBLE,
            aux_price: UNSET_DOUBLE,
            tif: String::new(),
            active_start_time: String::new(),
            active_stop_time: String::new(),
            oca_group: String::new(),
            oca_type: 0,
            order_ref: String::new(),
            transmit: true,
            parent_id: 0,
            block_order: false,
            sweep_to_fill: false,
            display_size: 0,
            trigger_method: 0,
            outside_rth: false,
            hidden: false,
            good_after_time: String::new(),
            good_till_date: String::new(),
            rule80a: String::new(),
            all_or_none: false,
            min_qty: UNSET_INTEGER,
            percent_offset: UNSET_DOUBLE,
            override_percentage_constraints: false,
            trail_stop_price: UNSET_DOUBLE,
            trailing_percent: UNSET_DOUBLE,
            fa_group: String::new(),
            fa_profile: String::new(),
            fa_method: String::new(),
            fa_percentage: String::new(),
            designated_location: String::new(),
            open_close: String::from_str("O"),
            origin: Origin::Customer,
            short_sale_slot: 0,
            exempt_code: -1,
            discretionary_amt: 0,
            e_trade_only: true,
            firm_quote_only: true,
            nbbo_price_cap: UNSET_DOUBLE,
            opt_out_smart_routing: false,
            auction_strategy: AuctionStrategy::AuctionUnset,
            starting_price: UNSET_DOUBLE,
            stock_ref_price: UNSET_DOUBLE,
            delta: UNSET_DOUBLE,
            stock_range_lower: UNSET_DOUBLE,
            stock_range_upper: UNSET_DOUBLE,
            randomize_price: false,
            randomize_size: false,
            volatility: UNSET_DOUBLE,
            volatility_type: UNSET_INTEGER,
            delta_neutral_order_type: String::new(),
            delta_neutral_aux_price: UNSET_DOUBLE,
            delta_neutral_con_id: 0,
            delta_neutral_settling_firm: String::new(),
            delta_neutral_clearing_account: String::new(),
            delta_neutral_clearing_intent: String::new(),
            delta_neutral_open_close: String::new(),
            delta_neutral_short_sale: false,
            delta_neutral_short_sale_slot: 0,
            delta_neutral_designated_location: String::new(),
            continuous_update: false,
            reference_price_type: UNSET_INTEGER,
            basis_points: UNSET_DOUBLE,
            basis_points_type: UNSET_INTEGER,
            scale_init_level_size: UNSET_INTEGER,
            scale_subs_level_size: UNSET_INTEGER,
            scale_price_increment: UNSET_DOUBLE,
            scale_price_adjust_value: UNSET_DOUBLE,
            scale_price_adjust_interval: UNSET_INTEGER,
            scale_profit_offset: UNSET_DOUBLE,
            scale_auto_reset: false,
            scale_init_position: UNSET_INTEGER,
            scale_init_fill_qty: UNSET_INTEGER,
            scale_random_percent: false,
            scale_table: String::new(),
            hedge_type: String::new(),
            hedge_param: String::new(),
            account: String::new(),
            settling_firm: String::new(),
            clearing_account: String::new(),
            clearing_intent: String::new(),
            algo_strategy: String::new(),
            algo_params: Vec::new(),
            smart_combo_routing_params: Vec::new(),
            algo_id: String::new(),
            what_if: false,
            not_held: false,
            solicited: false,
            model_code: String::new(),
            order_combo_legs: Vec::new(),
            order_misc_options: Vec::new(),
            reference_contract_id: 0,
            pegged_change_amount: 0,
            is_pegged_change_amount_decrease: false,
            reference_change_amount: 0,
            reference_exchange_id: String::new(),
            adjusted_order_type: String::new(),
            trigger_price: UNSET_DOUBLE,
            adjusted_stop_price: UNSET_DOUBLE,
            adjusted_stop_limit_price: UNSET_DOUBLE,
            adjusted_trailing_amount: UNSET_DOUBLE,
            adjustable_trailing_unit: 0,
            lmt_price_offset: UNSET_DOUBLE,
            conditions: Vec::new(),
            conditions_cancel_order: false,
            conditions_ignore_rth: false,
            ext_operator: String::new(),
            cash_qty: UNSET_DOUBLE,
            mifid2decision_maker: String::new(),
            mifid2decision_algo: String::new(),
            mifid2execution_trader: String::new(),
            mifid2execution_algo: String::new(),
            dont_use_auto_price_for_hedge: false,
            is_oms_container: false,
            discretionary_up_to_limit_price: false,
            auto_cancel_date: String::new(),
            filled_quantity: UNSET_DOUBLE,
            ref_futures_con_id: 0,
            auto_cancel_parent: false,
            shareholder: String::new(),
            imbalance_only: false,
            route_marketable_to_bbo: false,
            parent_perm_id: 0,
            use_price_mgmt_algo: false,
        };
        proof {
            assert(tag_values_view(Seq::<TagValue>::empty()) =~= Seq::<TagValueV>::empty());
            assert(conditions_view(Seq::<OrderConditionEnum>::empty()) =~= Seq::<OrderConditionEnumV>::empty());
        }
        r
    }
}

impl Order {
    /// Builds an order from every field explicitly.
    #[allow(clippy::too_many_arguments)]
    pub fn new(
        soft_dollar_tier: SoftDollarTier,
        order_id: i32,
        client_id: i32,
        perm_id: i32,
        action: String,
        total_quantity: i64,
        order_type: String,
        lmt_price: i64,
        aux_price: i64,
        tif: String,
        active_start_time: String,
        active_stop_time: String,
        oca_group: String,
        oca_type: i32,
        order_ref: String,
        transmit: bool,
        parent_id: i32,
        block_order: bool,
        sweep_to_fill: bool,
        display_size: i32,
        trigger_method: i32,
        outside_rth: bool,
        hidden: bool,
        good_after_time: String,
        good_till_date: String,
        rule80a: String,
        all_or_none: bool,
        min_qty: i32,
        percent_offset: i64,
        override_percentage_constraints: bool,
        trail_stop_price: i64,
        trailing_percent: i64,
        fa_group: String,
        fa_profile: String,
        fa_method: String,
        fa_percentage: String,
        designated_location: String,
        open_close: String,
        origin: Origin,
        short_sale_slot: i32,
        exempt_code: i32,
        discretionary_amt: i64,
        e_trade_only: bool,
        firm_quote_only: bool,
        nbbo_price_cap: i64,
        opt_out_smart_routing: bool,
        auction_strategy: AuctionStrategy,
        starting_price: i64,
        stock_ref_price: i64,
        delta: i64,
        stock_range_lower: i64,
        stock_range_upper: i64,
        randomize_price: bool,
        randomize_size: bool,
        volatility: i64,
        volatility_type: i32,
        delta_neutral_order_type: String,
        delta_neutral_aux_price: i64,
        delta_neutral_con_id: i32,
        delta_neutral_settling_firm: String,
        delta_neutral_clearing_account: String,
        delta_neutral_clearing_intent: String,
        delta_neutral_open_close: String,
        delta_neutral_short_sale: bool,
        delta_neutral_short_sale_slot: i32,
        delta_neutral_designated_location: String,
        continuous_update: bool,
        reference_price_type: i32,
        basis_points: i64,
        basis_points_type: i32,
        scale_init_level_size: i32,
        scale_subs_level_size: i32,
        scale_price_increment: i64,
        scale_price_adjust_value: i64,
        scale_price_adjust_interval: i32,
        scale_profit_offset: i64,
        scale_auto_reset: bool,
        scale_init_position: i32,
        scale_init_fill_qty: i32,
        scale_random_percent: bool,
        scale_table: String,
        hedge_type: String,
        hedge_param: String,
        account: String,
        settling_firm: String,
        clearing_account: String,
        clearing_intent: String,
        algo_strategy: String,
        algo_params: Vec<TagValue>,
        smart_combo_routing_params: Vec<TagValue>,
        algo_id: String,
        what_if: bool,
        not_held: bool,
        solicited: bool,
        model_code: String,
        order_combo_legs: Vec<OrderComboLeg>,
        order_misc_options: Vec<TagValue>,
        reference_contract_id: i32,
        pegged_change_amount: i64,
        is_pegged_change_amount_decrease: bool,
        reference_change_amount: i64,
        reference_exchange_id: String,
        adjusted_order_type: String,
        trigger_price: i64,
        adjusted_stop_price: i64,
        adjusted_stop_limit_price: i64,
        adjusted_trailing_amount: i64,
        adjustable_trailing_unit: i32,
        lmt_price_offset: i64,
        conditions: Vec<OrderConditionEnum>,
        conditions_cancel_order: bool,
        conditions_ignore_rth: bool,
        ext_operator: String,
        cash_qty: i64,
        mifid2decision_maker: String,
        mifid2decision_algo: String,
        mifid2execution_trader: String,
        mifid2execution_algo: String,
        dont_use_auto_price_for_hedge: bool,
        is_oms_container: bool,
        discretionary_up_to_limit_price: bool,
        auto_cancel_date: String,
        filled_quantity: i64,
        ref_futures_con_id: i32,
        auto_cancel_parent: bool,
        shareholder: String,
        imbalance_only: bool,
        route_marketable_to_bbo: bool,
        parent_perm_id: i32,
        use_price_mgmt_algo: bool,
    ) -> (r: Self)
        ensures
            r@ == (OrderV {
                soft_dollar_tier: soft_dollar_tier@,
                order_id: order_id,
                client_id: client_id,
                perm_id: perm_id,
                action: action@,
                total_quantity: total_quantity,
                order_type: order_type@,
                lmt_price: lmt_price,
                aux_price: aux_price,
                tif: tif@,
                active_start_time: active_start_time@,
                active_stop_time: active_stop_time@,
                oca_group: oca_group@,
                oca_type: oca_type,
                order_ref: order_ref@,
                transmit: transmit,
                parent_id: parent_id,
                block_order: block_order,
                sweep_to_fill: sweep_to_fill,
                display_size: display_size,
                trigger_method: trigger_method,
                outside_rth: outside_rth,
                hidden: hidden,
                good_after_time: good_after_time@,
                good_till_date: good_till_date@,
                rule80a: rule80a@,
                all_or_none: all_or_none,
                min_qty: min_qty,
                percent_offset: percent_offset,
                override_percentage_constraints: override_percentage_constraints,
                trail_stop_price: trail_stop_price,
                trailing_percent: trailing_percent,
                fa_group: fa_group@,
                fa_profile: fa_profile@,
                fa_method: fa_method@,
                fa_percentage: fa_percentage@,
                designated_location: designated_location@,
                open_close: open_close@,
                origin: origin,
                short_sale_slot: short_sale_slot,
                exempt_code: exempt_code,
                discretionary_amt: discretionary_amt,
                e_trade_only: e_trade_only,
                firm_quote_only: firm_quote_only,
                nbbo_price_cap: nbbo_price_cap,
                opt_out_smart_routing: opt_out_smart_routing,
                auction_strategy: auction_strategy,
                starting_price: starting_price,
                stock_ref_price: stock_ref_price,
                delta: delta,
                stock_range_lower: stock_range_lower,
                stock_range_upper: stock_range_upper,
                randomize_price: randomize_price,
                randomize_size: randomize_size,
                volatility: volatility,
                volatility_type: volatility_type,
                delta_neutral_order_type: delta_neutral_order_type@,
                delta_neutral_aux_price: delta_neutral_aux_price,
                delta_neutral_con_id: delta_neutral_con_id,
                delta_neutral_settling_firm: delta_neutral_settling_firm@,
                delta_neutral_clearing_account: delta_neutral_clearing_account@,
                delta_neutral_clearing_intent: delta_neutral_clearing_intent@,
                delta_neutral_open_close: delta_neutral_open_close@,
                delta_neutral_short_sale: delta_neutral_short_sale,
                delta_neutral_short_sale_slot: delta_neutral_short_sale_slot,
                delta_neutral_designated_location: delta_neutral_designated_location@,
                continuous_update: continuous_update,
                reference_price_type: reference_price_type,
                basis_points: basis_points,
                basis_points_type: basis_points_type,
                scale_init_level_size: scale_init_level_size,
                scale_subs_level_size: scale_subs_level_size,
                scale_price_increment: scale_price_increment,
                scale_price_adjust_value: scale_price_adjust_value,
                scale_price_adjust_interval: scale_price_adjust_interval,
                scale_profit_offset: scale_profit_offset,
                scale_auto_reset: scale_auto_reset,
                scale_init_position: scale_init_position,
                scale_init_fill_qty: scale_init_fill_qty,
                scale_random_percent: scale_random_percent,
                scale_table: scale_table@,
                hedge_type: hedge_type@,
                hedge_param: hedge_param@,
                account: account@,
                settling_firm: settling_firm@,
                clearing_account: clearing_account@,
                clearing_intent: clearing_intent@,
                algo_strategy: algo_strategy@,
                algo_params: tag_values_view(algo_params@),
                smart_combo_routing_params: tag_values_view(smart_combo_routing_params@),
                algo_id: algo_id@,
                what_if: what_if,
                not_held: not_held,
                solicited: solicited,
                model_code: model_code@,
                order_combo_legs: order_combo_legs@,
                order_misc_options: tag_values_view(order_misc_options@),
                reference_contract_id: reference_contract_id,
                pegged_change_amount: pegged_change_amount,
                is_pegged_change_amount_decrease: is_pegged_change_amount_decrease,
                reference_change_amount: reference_change_amount,
                reference_exchange_id: reference_exchange_id@,
                adjusted_order_type: adjusted_order_type@,
                trigger_price: trigger_price,
                adjusted_stop_price: adjusted_stop_price,
                adjusted_stop_limit_price: adjusted_stop_limit_price,
                adjusted_trailing_amount: adjusted_trailing_amount,
                adjustable_trailing_unit: adjustable_trailing_unit,
                lmt_price_offset: lmt_price_offset,
                conditions: conditions_view(conditions@),
                conditions_cancel_order: conditions_cancel_order,
                conditions_ignore_rth: conditions_ignore_rth,
                ext_operator: ext_operator@,
                cash_qty: cash_qty,
                mifid2decision_maker: mifid2decision_maker@,
                mifid2decision_algo: mifid2decision_algo@,
                mifid2execution_trader: mifid2execution_trader@,
                mifid2execution_algo: mifid2execution_algo@,
                dont_use_auto_price_for_hedge: dont_use_auto_price_for_hedge,
                is_oms_container: is_oms_container,
                discretionary_up_to_limit_price: discretionary_up_to_limit_price,
                auto_cancel_date: auto_cancel_date@,
                filled_quantity: filled_quantity,
                ref_futures_con_id: ref_futures_con_id,
                auto_cancel_parent: auto_cancel_parent,
                shareholder: shareholder@,
                imbalance_only: imbalance_only,
                route_marketable_to_bbo: route_marketable_to_bbo,
                parent_perm_id: parent_perm_id,
                use_price_mgmt_algo: use_price_mgmt_algo,
            }),
    {
        let r = Order {
            soft_dollar_tier,
            order_id,
            client_id,
            perm_id,
            action,
            total_quantity,
            order_type,
            lmt_price,
            aux_price,
            tif,
            active_start_time,
            active_stop_time,
            oca_group,
            oca_type,
            order_ref,
            transmit,
            parent_id,
            block_order,
            sweep_to_fill,
            display_size,
            trigger_method,
            outside_rth,
            hidden,
            good_after_time,
            good_till_date,
            rule80a,
            all_or_none,
            min_qty,
            percent_offset,
            override_percentage_constraints,
            trail_stop_price,
            trailing_percent,
            fa_group,
            fa_profile,
            fa_method,
            fa_percentage,
            designated_location,
            open_close,
            origin,
            short_sale_slot,
            exempt_code,
            discretionary_amt,
            e_trade_only,
            firm_quote_only,
            nbbo_price_cap,
            opt_out_smart_routing,
            auction_strategy,
            starting_price,
            stock_ref_price,
            delta,
            stock_range_lower,
            stock_range_upper,
            randomize_price,
            randomize_size,
            volatility,
            volatility_type,
            delta_neutral_order_type,
            delta_neutral_aux_price,
            delta_neutral_con_id,
            delta_neutral_settling_firm,
            delta_neutral_clearing_account,
            delta_neutral_clearing_intent,
            delta_neutral_open_close,
            delta_neutral_short_sale,
            delta_neutral_short_sale_slot,
            delta_neutral_designated_location,
            continuous_update,
            reference_price_type,
            basis_points,
            basis_points_type,
            scale_init_level_size,
            scale_subs_level_size,
            scale_price_increment,
            scale_price_adjust_value,
            scale_price_adjust_interval,
            scale_profit_offset,
            scale_auto_reset,
            scale_init_position,
            scale_init_fill_qty,
            scale_random_percent,
            scale_table,
            hedge_type,
            hedge_param,
            account,
            settling_firm,
            clearing_account,
            clearing_intent,
            algo_strategy,
            algo_params,
            smart_combo_routing_params,
            algo_id,
            what_if,
            not_held,
            solicited,
            model_code,
            order_combo_legs,
            order_misc_options,
            reference_contract_id,
            pegged_change_amount,
            is_pegged_change_amount_decrease,
            reference_change_amount,
            reference_exchange_id,
            adjusted_order_type,
            trigger_price,
            adjusted_stop_price,
            adjusted_stop_limit_price,
            adjusted_trailing_amount,
            adjustable_trailing_unit,
            lmt_price_offset,
            conditions,
            conditions_cancel_order,
            conditions_ignore_rth,
            ext_operator,
            cash_qty,
            mifid2decision_maker,
            mifid2decision_algo,
            mifid2execution_trader,
            mifid2execution_algo,
            dont_use_auto_price_for_hedge,
            is_oms_container,
            discretionary_up_to_limit_price,
            auto_cancel_date,
            filled_quantity,
            ref_futures_con_id,
            auto_cancel_parent,
            shareholder,
            imbalance_only,
            route_marketable_to_bbo,
            parent_perm_id,
            use_price_mgmt_algo,
        };
        r
    }
}

} // verus!
