use twsapi_core::common::UNSET_DOUBLE;
use twsapi_core::common::UNSET_INTEGER;
use twsapi_core::order::AuctionStrategy;
use twsapi_core::order::Order;
use twsapi_core::order::Origin;

/// The fields every preset leaves untouched must keep their defaults.
fn assert_untouched_defaults(o: &Order) {
    assert_eq!(o.order_id, 0);
    assert_eq!(o.client_id, 0);
    assert_eq!(o.perm_id, 0);
    assert_eq!(o.oca_group, "");
    assert_eq!(o.oca_type, 0);
    assert_eq!(o.parent_id, 0);
    assert!(!o.outside_rth);
    assert!(!o.hidden);
    assert!(!o.all_or_none);
    assert_eq!(o.min_qty, UNSET_INTEGER);
    assert_eq!(o.percent_offset, UNSET_DOUBLE);
    assert_eq!(o.open_close, "O");
    assert_eq!(o.origin, Origin::Customer);
    assert_eq!(o.short_sale_slot, 0);
    assert_eq!(o.exempt_code, -1);
    assert!(o.e_trade_only);
    assert!(o.firm_quote_only);
    assert_eq!(o.nbbo_price_cap, UNSET_DOUBLE);
    assert_eq!(o.auction_strategy, AuctionStrategy::AuctionUnset);
    assert_eq!(o.volatility, UNSET_DOUBLE);
    assert_eq!(o.volatility_type, UNSET_INTEGER);
    assert_eq!(o.scale_init_level_size, UNSET_INTEGER);
    assert_eq!(o.scale_price_increment, UNSET_DOUBLE);
    assert_eq!(o.hedge_type, "");
    assert_eq!(o.algo_strategy, "");
    assert!(o.algo_params.is_empty());
    assert!(o.order_misc_options.is_empty());
    assert!(o.conditions.is_empty());
    assert!(!o.what_if);
    assert_eq!(o.cash_qty, UNSET_DOUBLE);
    assert_eq!(o.filled_quantity, UNSET_DOUBLE);
    assert!(!o.use_price_mgmt_algo);
}

#[test]
fn default_order_uses_sentinels_and_documented_flags() {
    let o = Order::default();
    assert_eq!(o.action, "");
    assert_eq!(o.order_type, "");
    assert_eq!(o.total_quantity, 0);
    assert_eq!(o.lmt_price, UNSET_DOUBLE);
    assert_eq!(o.aux_price, UNSET_DOUBLE);
    assert_eq!(o.tif, "");
    assert!(o.transmit);
    assert_eq!(o.trail_stop_price, UNSET_DOUBLE);
    assert_eq!(o.trailing_percent, UNSET_DOUBLE);
    assert_eq!(o.account, "");
    assert!(o.order_combo_legs.is_empty());
    assert!(o.smart_combo_routing_params.is_empty());
    assert_untouched_defaults(&o);
}

#[test]
fn stop_limit_order_matches_its_documented_mapping() {
    // quantity 100, limit 50.5 and stop 50.0, in ten-thousandths
    let o = Order::stop_limit_order("U123", "BUY", 1_000_000, 505_000, 500_000);
    assert_eq!(o.order_type, "STP LMT");
    assert_eq!(o.action, "BUY");
    assert_eq!(o.account, "U123");
    assert_eq!(o.total_quantity, 1_000_000);
    assert_eq!(o.lmt_price, 505_000);
    assert_eq!(o.aux_price, 500_000);
    assert_eq!(o.tif, "");
    assert!(o.transmit);
    assert_untouched_defaults(&o);
}

#[test]
fn market_order_sets_only_its_style_fields() {
    let o = Order::market_order("DU111", "SELL", 2_500_000);
    assert_eq!(o.order_type, "MKT");
    assert_eq!(o.action, "SELL");
    assert_eq!(o.total_quantity, 2_500_000);
    assert_eq!(o.lmt_price, UNSET_DOUBLE);
    assert_eq!(o.aux_price, UNSET_DOUBLE);
    assert_untouched_defaults(&o);
}

#[test]
fn limit_order_sets_its_limit_price() {
    let o = Order::limit_order("DU111", "BUY", 10_000, 1_234_500);
    assert_eq!(o.order_type, "LMT");
    assert_eq!(o.lmt_price, 1_234_500);
    assert_eq!(o.aux_price, UNSET_DOUBLE);
    assert_untouched_defaults(&o);
}

#[test]
fn at_auction_order_uses_the_auction_time_in_force() {
    let o = Order::at_auction_order("DU111", "BUY", 10_000, 505_000);
    assert_eq!(o.tif, "AUC");
    assert_eq!(o.order_type, "MTL");
    assert_eq!(o.lmt_price, 505_000);
    assert_untouched_defaults(&o);
}

#[test]
fn market_on_open_order_uses_the_opening_time_in_force() {
    let o = Order::market_on_open_order("DU111", "BUY", 10_000);
    assert_eq!(o.order_type, "MKT");
    assert_eq!(o.tif, "OPG");
    assert_untouched_defaults(&o);
}

#[test]
fn sweep_to_fill_order_sets_its_flag() {
    let o = Order::sweep_to_fill_order("DU111", "BUY", 10_000, 505_000);
    assert_eq!(o.order_type, "LMT");
    assert!(o.sweep_to_fill);
    assert!(!o.block_order);
    assert_untouched_defaults(&o);
}

#[test]
fn block_order_sets_its_flag() {
    let o = Order::block_order("DU111", "BUY", 500_000, 505_000);
    assert!(o.block_order);
    assert!(!o.sweep_to_fill);
    assert_untouched_defaults(&o);
}

#[test]
fn trailing_stop_order_sets_trail_fields() {
    let o = Order::trailing_stop_order("DU111", "SELL", 10_000, 50_000, 450_000);
    assert_eq!(o.order_type, "TRAIL");
    assert_eq!(o.trailing_percent, 50_000);
    assert_eq!(o.trail_stop_price, 450_000);
    assert_eq!(o.lmt_price, UNSET_DOUBLE);
    assert_untouched_defaults(&o);
}

#[test]
fn trailing_stop_limit_order_sets_trail_and_offset_fields() {
    let o = Order::trailing_stop_limit_order("DU111", "BUY", 10_000, 20_000, 30_000, 450_000);
    assert_eq!(o.order_type, "TRAIL LIMIT");
    assert_eq!(o.lmt_price_offset, 20_000);
    assert_eq!(o.aux_price, 30_000);
    assert_eq!(o.trail_stop_price, 450_000);
    assert_untouched_defaults(&o);
}

#[test]
fn volatility_order_sets_volatility_fields() {
    let o = Order::volatility_order("DU111", "SELL", 10_000, 400_000, 2);
    assert_eq!(o.order_type, "VOL");
    assert_eq!(o.volatility, 400_000);
    assert_eq!(o.volatility_type, 2);
    assert_eq!(o.lmt_price, UNSET_DOUBLE);
}

#[test]
fn auction_limit_order_keeps_the_given_strategy() {
    let o = Order::auction_limit_order(
        "DU111",
        "BUY",
        10_000,
        505_000,
        AuctionStrategy::AuctionImprovement,
    );
    assert_eq!(o.order_type, "LMT");
    assert_eq!(o.auction_strategy, AuctionStrategy::AuctionImprovement);
    assert_eq!(o.lmt_price, 505_000);
}

#[test]
fn pegged_to_benchmark_order_maps_every_reference_field() {
    let o = Order::pegged_to_benchmark_order(
        "DU111", "SELL", 1_000_000, 327_500, false, 100, 200, 9988, "ISLAND", 327_000, 300_000,
        350_000,
    );
    assert_eq!(o.order_type, "PEG BENCH");
    assert_eq!(o.starting_price, 327_500);
    assert!(!o.is_pegged_change_amount_decrease);
    assert_eq!(o.pegged_change_amount, 100);
    assert_eq!(o.reference_change_amount, 200);
    assert_eq!(o.reference_contract_id, 9988);
    assert_eq!(o.reference_exchange_id, "ISLAND");
    assert_eq!(o.stock_ref_price, 327_000);
    assert_eq!(o.stock_range_lower, 300_000);
    assert_eq!(o.stock_range_upper, 350_000);
}

#[test]
fn bracket_order_links_and_transmits_as_documented() {
    let (parent, take_profit, stop_loss) =
        Order::bracket_order(100, "DU111", "BUY", 1_000_000, 505_000, 550_000, 450_000);
    // the parent: a held-back limit order at the entry price
    assert_eq!(parent.order_id, 100);
    assert_eq!(parent.action, "BUY");
    assert_eq!(parent.order_type, "LMT");
    assert_eq!(parent.lmt_price, 505_000);
    assert!(!parent.transmit);
    // the take-profit: a held-back opposite-side limit order
    assert_eq!(take_profit.order_id, 101);
    assert_eq!(take_profit.action, "SELL");
    assert_eq!(take_profit.order_type, "LMT");
    assert_eq!(take_profit.lmt_price, 550_000);
    assert_eq!(take_profit.parent_id, 100);
    assert!(!take_profit.transmit);
    // the stop-loss: the one transmitting order, an opposite-side stop
    assert_eq!(stop_loss.order_id, 102);
    assert_eq!(stop_loss.action, "SELL");
    assert_eq!(stop_loss.order_type, "STP");
    assert_eq!(stop_loss.aux_price, 450_000);
    assert_eq!(stop_loss.parent_id, 100);
    assert!(stop_loss.transmit);
    // exactly one of the three transmits
    let transmitted =
        [&parent, &take_profit, &stop_loss].iter().filter(|o| o.transmit).count();
    assert_eq!(transmitted, 1);
}

#[test]
fn bracket_order_flips_a_sell_parent_to_buy_children() {
    let (parent, take_profit, stop_loss) =
        Order::bracket_order(7, "DU111", "SELL", 1_000_000, 505_000, 450_000, 550_000);
    assert_eq!(parent.action, "SELL");
    assert_eq!(take_profit.action, "BUY");
    assert_eq!(stop_loss.action, "BUY");
}

#[test]
fn one_cancels_all_order_sets_group_fields_in_place() {
    let mut orders = vec![
        Order::limit_order("DU111", "BUY", 10_000, 505_000),
        Order::stop_order("DU111", "SELL", 20_000, 450_000),
        Order::market_order("DU222", "BUY", 30_000),
    ];
    Order::one_cancels_all_order("TakeProfit", &mut orders, 3);
    assert_eq!(orders.len(), 3);
    for o in &orders {
        assert_eq!(o.oca_group, "TakeProfit");
        assert_eq!(o.oca_type, 3);
    }
    // the number and relative order of the orders is unchanged, and
    // every other field too
    assert_eq!(orders[0].order_type, "LMT");
    assert_eq!(orders[0].lmt_price, 505_000);
    assert_eq!(orders[1].order_type, "STP");
    assert_eq!(orders[1].aux_price, 450_000);
    assert_eq!(orders[1].action, "SELL");
    assert_eq!(orders[2].order_type, "MKT");
    assert_eq!(orders[2].account, "DU222");
}

#[test]
fn combo_limit_order_is_good_till_cancelled() {
    let o = Order::combo_limit_order("DU111", "BUY", 10_000, 505_000, false);
    assert_eq!(o.order_type, "LMT");
    assert_eq!(o.tif, "GTC");
    assert!(o.smart_combo_routing_params.is_empty());
    let g = Order::combo_limit_order("DU111", "BUY", 10_000, 505_000, true);
    assert_eq!(g.smart_combo_routing_params.len(), 1);
    assert_eq!(g.smart_combo_routing_params[0].tag, "NonGuaranteed");
    assert_eq!(g.smart_combo_routing_params[0].value, "1");
}

#[test]
fn combo_leg_prices_carry_over_in_order() {
    // leg prices 1.5, -0.25 and 3.0 in ten-thousandths
    let o = Order::limit_for_combo_with_leg_prices_order(
        "DU111",
        "BUY",
        10_000,
        vec![15_000, -2_500, 30_000],
        true,
    );
    assert_eq!(o.order_combo_legs.len(), 3);
    assert_eq!(o.order_combo_legs[0].price, 15_000);
    assert_eq!(o.order_combo_legs[1].price, -2_500);
    assert_eq!(o.order_combo_legs[2].price, 30_000);
    assert_eq!(o.smart_combo_routing_params.len(), 1);
    assert_eq!(o.smart_combo_routing_params[0].tag, "NonGuaranteed");
    assert_eq!(o.smart_combo_routing_params[0].value, "1");
    let plain = Order::limit_for_combo_with_leg_prices_order(
        "DU111",
        "BUY",
        10_000,
        vec![15_000, -2_500, 30_000],
        false,
    );
    assert!(plain.smart_combo_routing_params.is_empty());
}

#[test]
fn relative_combo_orders_use_their_compound_types() {
    let l = Order::relative_limit_combo_order("DU111", "BUY", 10_000, 505_000, false);
    assert_eq!(l.order_type, "REL + LMT");
    let m = Order::relative_market_combo_order("DU111", "SELL", 10_000, true);
    assert_eq!(m.order_type, "REL + MKT");
    assert_eq!(m.smart_combo_routing_params.len(), 1);
}

#[test]
fn what_if_limit_order_marks_the_what_if_flag() {
    let o = Order::what_if_limit_order("DU111", "BUY", 10_000, 505_000);
    assert!(o.what_if);
    assert_eq!(o.order_type, "LMT");
    assert_eq!(o.lmt_price, 505_000);
}

#[test]
fn market_fhedge_order_has_zero_quantity_and_fx_hedge_type() {
    let o = Order::market_fhedge_order("DU111", 42, "BUY");
    assert_eq!(o.order_type, "MKT");
    assert_eq!(o.total_quantity, 0);
    assert_eq!(o.parent_id, 42);
    assert_eq!(o.hedge_type, "F");
}

#[test]
fn attach_adjustable_to_stop_builds_the_opposite_stop() {
    let parent = Order::limit_order("DU111", "BUY", 1_000_000, 505_000);
    let mut parent = parent;
    parent.order_id = 55;
    let o = Order::attach_adjustable_to_stop_order(parent, 450_000, 460_000, 440_000);
    assert_eq!(o.order_type, "STP");
    assert_eq!(o.action, "SELL");
    assert_eq!(o.account, "DU111");
    assert_eq!(o.total_quantity, 1_000_000);
    assert_eq!(o.aux_price, 450_000);
    assert_eq!(o.parent_id, 55);
    assert_eq!(o.trigger_price, 460_000);
    assert_eq!(o.adjusted_order_type, "STP");
    assert_eq!(o.adjusted_stop_price, 440_000);
}

#[test]
fn attach_adjustable_to_stop_limit_declares_the_stop_limit_transition() {
    let mut parent = Order::limit_order("DU111", "SELL", 1_000_000, 505_000);
    parent.order_id = 56;
    let o = Order::attach_adjustable_to_stop_limit_order(parent, 550_000, 540_000, 560_000, 565_000);
    assert_eq!(o.action, "BUY");
    assert_eq!(o.parent_id, 56);
    assert_eq!(o.adjusted_order_type, "STP LMT");
    assert_eq!(o.adjusted_stop_price, 560_000);
    assert_eq!(o.adjusted_stop_limit_price, 565_000);
}

#[test]
fn attach_adjustable_to_trail_declares_the_trailing_transition() {
    let mut parent = Order::limit_order("DU111", "BUY", 1_000_000, 505_000);
    parent.order_id = 57;
    let o = Order::attach_adjustable_to_trail_order(parent, 450_000, 460_000, 440_000, 5_000, 1);
    assert_eq!(o.adjusted_order_type, "TRAIL");
    assert_eq!(o.adjusted_stop_price, 440_000);
    assert_eq!(o.adjusted_trailing_amount, 5_000);
    assert_eq!(o.adjustable_trailing_unit, 1);
}

#[test]
fn origins_and_auction_strategies_have_documented_codes() {
    assert_eq!(Origin::default(), Origin::Unknown);
    assert_eq!(Origin::Customer.code(), 0);
    assert_eq!(Origin::from_code(1), Some(Origin::Firm));
    assert_eq!(Origin::from_code(3), None);
    assert_eq!(AuctionStrategy::default(), AuctionStrategy::AuctionUnset);
    assert_eq!(AuctionStrategy::AuctionTransparent.code(), 3);
    assert_eq!(AuctionStrategy::from_code(2), Some(AuctionStrategy::AuctionImprovement));
    assert_eq!(AuctionStrategy::from_code(4), None);
}
