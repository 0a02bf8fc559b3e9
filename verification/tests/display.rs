use twsapi_core::common::TagValue;
use twsapi_core::common::UNSET_DOUBLE;
use twsapi_core::order::Order;
use twsapi_core::order::OrderComboLeg;
use twsapi_core::order::OrderState;
use twsapi_core::order::SoftDollarTier;
use twsapi_core::order_condition::OrderConditionEnum;

#[test]
fn limit_order_renders_line_by_line() {
    let o = Order::limit_order("DU111", "BUY", 10_000, 505_000);
    let expected = "order_id = 0\n\
                    client_id = 0\n\
                    perm_id = 0\n\
                    order_type = LMT\n\
                    action = BUY\n\
                    total_quantity = 1.0000\n\
                    lmt_price = 50.5000\n\
                    tif = \n\
                    what_if = false\n\
                    algo_strategy = \n\
                    algo_params = ()\n\
                    CMB = ()\n\
                    COND = ()";
    assert_eq!(o.to_display_string(), expected);
}

#[test]
fn unset_limit_price_renders_as_marker_not_zero() {
    let o = Order::market_order("DU111", "SELL", 10_000);
    assert_eq!(o.lmt_price, UNSET_DOUBLE);
    let rendered = o.to_display_string();
    assert!(rendered.contains("lmt_price = UNSET"));
    assert!(!rendered.contains("lmt_price = 0"));
    let mut zeroed = Order::market_order("DU111", "SELL", 10_000);
    zeroed.lmt_price = 0;
    assert!(zeroed.to_display_string().contains("lmt_price = 0.0000"));
    assert_ne!(rendered, zeroed.to_display_string());
}

#[test]
fn algo_params_and_legs_render_joined_by_commas() {
    let mut o = Order::limit_order("DU111", "BUY", 10_000, 505_000);
    o.algo_strategy = "Vwap".to_string();
    o.algo_params.push(TagValue::new("maxPctVol".to_string(), "0.2".to_string()));
    o.algo_params.push(TagValue::new("noTakeLiq".to_string(), "1".to_string()));
    o.order_combo_legs.push(OrderComboLeg::new(15_000));
    o.order_combo_legs.push(OrderComboLeg::new(-2_500));
    let rendered = o.to_display_string();
    assert!(rendered.contains("algo_strategy = Vwap"));
    assert!(rendered.contains("algo_params = (maxPctVol = 0.2,noTakeLiq = 1)"));
    assert!(rendered.contains("CMB = (1.5000,-0.2500)"));
}

#[test]
fn conditions_render_as_serialized_fields() {
    let mut o = Order::limit_order("DU111", "BUY", 10_000, 505_000);
    let price = Order::price_condition_order(0, 265598, "SMART", 1_377_500, true, false);
    let margin = Order::margin_condition_order(300_000, false, true);
    o.conditions.push(OrderConditionEnum::Price(price));
    o.conditions.push(OrderConditionEnum::Margin(margin));
    let rendered = o.to_display_string();
    assert!(rendered.contains("COND = (1,o,265598,SMART,1,137.7500,0|4,a,0,30.0000|)"));
}

#[test]
fn soft_dollar_tier_renders_its_three_fields() {
    let t = SoftDollarTier::new(
        "T1".to_string(),
        "val1".to_string(),
        "Tier One".to_string(),
    );
    assert_eq!(
        t.to_display_string(),
        "name: T1\nvalue: val1\ndisplay_name: Tier One"
    );
}

#[test]
fn combo_leg_renders_its_price() {
    let leg = OrderComboLeg::new(-2_500);
    assert_eq!(leg.to_display_string(), "-0.2500");
}

#[test]
fn order_state_renders_commissions_with_the_sentinel_marker() {
    let s = OrderState::new(
        "PreSubmitted".to_string(),
        "1.0".to_string(),
        "2.0".to_string(),
        "3.0".to_string(),
        "4.0".to_string(),
        "5.0".to_string(),
        "6.0".to_string(),
        "7.0".to_string(),
        "8.0".to_string(),
        "9.0".to_string(),
        12_500,
        UNSET_DOUBLE,
        UNSET_DOUBLE,
        "USD".to_string(),
        "".to_string(),
        "".to_string(),
        "".to_string(),
    );
    let rendered = s.to_display_string();
    assert!(rendered.starts_with("status: PreSubmitted\n"));
    assert!(rendered.contains("init_margin_before: 1.0\n"));
    assert!(rendered.contains("equity_with_loan_after: 9.0\n"));
    assert!(rendered.contains("commission: 1.2500\n"));
    assert!(rendered.contains("min_commission: UNSET\n"));
    assert!(rendered.contains("max_commission: UNSET\n"));
    assert!(rendered.contains("commission_currency: USD\n"));
    assert!(rendered.ends_with("completed_status: "));
}
