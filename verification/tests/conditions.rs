use twsapi_core::fields::ParseError;
use twsapi_core::fields::direction_name;
use twsapi_core::fields::parse_bool_field;
use twsapi_core::fields::parse_conjunction;
use twsapi_core::order::Order;
use twsapi_core::order_condition::ConditionType;
use twsapi_core::order_condition::OrderConditionEnum;
use twsapi_core::order_condition::TriggerMethod;
use twsapi_core::order_condition::create_condition;
use twsapi_core::order_condition::parse_condition_fields;

#[test]
fn condition_type_codes_round_trip() {
    for t in [
        ConditionType::Price,
        ConditionType::Time,
        ConditionType::Margin,
        ConditionType::Execution,
        ConditionType::Volume,
        ConditionType::PercentChange,
    ] {
        assert_eq!(ConditionType::from_code(t.code()), Some(t));
    }
    assert_eq!(ConditionType::Price.code(), 1);
    assert_eq!(ConditionType::Time.code(), 3);
    assert_eq!(ConditionType::Margin.code(), 4);
    assert_eq!(ConditionType::Execution.code(), 5);
    assert_eq!(ConditionType::Volume.code(), 6);
    assert_eq!(ConditionType::PercentChange.code(), 7);
    assert_eq!(ConditionType::from_code(2), None);
    assert_eq!(ConditionType::from_code(8), None);
}

#[test]
fn trigger_method_codes_round_trip() {
    for t in [
        TriggerMethod::Default,
        TriggerMethod::DoubleBidAsk,
        TriggerMethod::Last,
        TriggerMethod::DoubleLast,
        TriggerMethod::BidAsk,
        TriggerMethod::LastOrBidAsk,
        TriggerMethod::MidPoint,
    ] {
        assert_eq!(TriggerMethod::from_code(t.code()), Some(t));
    }
    assert_eq!(TriggerMethod::from_code(5), None);
    assert_eq!(TriggerMethod::from_code(6), None);
    assert_eq!(TriggerMethod::from_code(9), None);
}

#[test]
fn price_condition_serializes_in_wire_order() {
    let c = Order::price_condition_order(0, 265598, "SMART", 1_377_500, true, false);
    assert_eq!(c.contract_condition.con_id, 265598);
    assert_eq!(c.contract_condition.exchange, "SMART");
    assert!(c.contract_condition.operator_condition.is_more);
    assert!(!c
        .contract_condition
        .operator_condition
        .order_condition
        .is_conjunction_connection);
    assert_eq!(c.price, 1_377_500);
    assert_eq!(c.trigger_method, TriggerMethod::Default);
    let fields = c.make_fields();
    assert_eq!(
        fields,
        vec!["1", "o", "265598", "SMART", "1", "137.7500", "0"]
    );
}

#[test]
fn price_condition_fields_decode_back() {
    // chaining with is_more true and is_conjunction false: the serialized
    // conjunction field reads back as false, the comparison as "above"
    let c = Order::price_condition_order(0, 265598, "SMART", 1_377_500, true, false);
    let fields = c.make_fields();
    assert_eq!(parse_conjunction(&fields[1]), Ok(false));
    assert_eq!(parse_bool_field(&fields[4]), Ok(true));
    assert_eq!(direction_name(parse_bool_field(&fields[4]).unwrap()), "above");
    match parse_condition_fields(&fields) {
        Ok(OrderConditionEnum::Price(back)) => {
            assert_eq!(back.contract_condition.con_id, 265598);
            assert_eq!(back.contract_condition.exchange, "SMART");
            assert!(back.contract_condition.operator_condition.is_more);
            assert!(!back
                .contract_condition
                .operator_condition
                .order_condition
                .is_conjunction_connection);
            assert_eq!(back.price, 1_377_500);
            assert_eq!(back.trigger_method, TriggerMethod::Default);
        }
        other => panic!("expected a price condition, got {:?}", other),
    }
}

#[test]
fn execution_condition_round_trips() {
    let c = Order::execution_condition_order("AAPL", "STK", "ISLAND", true);
    let fields = c.make_fields();
    assert_eq!(fields, vec!["5", "a", "AAPL", "STK", "ISLAND"]);
    match parse_condition_fields(&fields) {
        Ok(OrderConditionEnum::Execution(back)) => {
            assert_eq!(back.symbol, "AAPL");
            assert_eq!(back.sec_type, "STK");
            assert_eq!(back.exchange, "ISLAND");
            assert!(back.order_condition.is_conjunction_connection);
        }
        other => panic!("expected an execution condition, got {:?}", other),
    }
}

#[test]
fn margin_condition_round_trips() {
    let c = Order::margin_condition_order(300_000, false, true);
    let fields = c.make_fields();
    assert_eq!(fields, vec!["4", "a", "0", "30.0000"]);
    match parse_condition_fields(&fields) {
        Ok(OrderConditionEnum::Margin(back)) => {
            assert_eq!(back.percent, 300_000);
            assert!(!back.operator_condition.is_more);
            assert!(back.operator_condition.order_condition.is_conjunction_connection);
        }
        other => panic!("expected a margin condition, got {:?}", other),
    }
}

#[test]
fn time_condition_round_trips() {
    let c = Order::time_condition_order("20251231 23:59:59", true, false);
    let fields = c.make_fields();
    assert_eq!(fields, vec!["3", "o", "1", "20251231 23:59:59"]);
    match parse_condition_fields(&fields) {
        Ok(OrderConditionEnum::Time(back)) => {
            assert_eq!(back.time, "20251231 23:59:59");
            assert!(back.operator_condition.is_more);
        }
        other => panic!("expected a time condition, got {:?}", other),
    }
}

#[test]
fn percent_change_condition_round_trips() {
    let c = Order::percentage_change_condition_order(-12_500, 4001, "NYSE", false, false);
    let fields = c.make_fields();
    assert_eq!(fields, vec!["7", "o", "4001", "NYSE", "0", "-1.2500"]);
    match parse_condition_fields(&fields) {
        Ok(OrderConditionEnum::PercentChange(back)) => {
            assert_eq!(back.change_percent, -12_500);
            assert_eq!(back.contract_condition.con_id, 4001);
            assert_eq!(back.contract_condition.exchange, "NYSE");
            assert!(!back.contract_condition.operator_condition.is_more);
        }
        other => panic!("expected a percent-change condition, got {:?}", other),
    }
}

#[test]
fn volume_condition_round_trips() {
    let c = Order::volume_condition_order(4001, "ISLAND", true, 2_000_000, true);
    let fields = c.make_fields();
    assert_eq!(fields, vec!["6", "a", "4001", "ISLAND", "1", "2000000"]);
    match parse_condition_fields(&fields) {
        Ok(OrderConditionEnum::Volume(back)) => {
            assert_eq!(back.volume, 2_000_000);
            assert_eq!(back.contract_condition.con_id, 4001);
            assert_eq!(back.contract_condition.exchange, "ISLAND");
            assert!(back.contract_condition.operator_condition.is_more);
        }
        other => panic!("expected a volume condition, got {:?}", other),
    }
}

#[test]
fn decoding_rejects_unknown_tags() {
    let fields: Vec<String> = vec!["9".to_string(), "a".to_string()];
    assert_eq!(parse_condition_fields(&fields).unwrap_err(), ParseError::Malformed);
    let fields: Vec<String> = vec!["2".to_string(), "o".to_string()];
    assert_eq!(parse_condition_fields(&fields).unwrap_err(), ParseError::Malformed);
}

#[test]
fn decoding_rejects_short_or_misshapen_lists() {
    let empty: Vec<String> = Vec::new();
    assert_eq!(parse_condition_fields(&empty).unwrap_err(), ParseError::Malformed);
    let one: Vec<String> = vec!["1".to_string()];
    assert_eq!(parse_condition_fields(&one).unwrap_err(), ParseError::Malformed);
    // a price condition needs exactly seven fields
    let six: Vec<String> = ["1", "o", "1", "SMART", "1", "5.0"]
        .iter()
        .map(|s| s.to_string())
        .collect();
    assert_eq!(parse_condition_fields(&six).unwrap_err(), ParseError::Malformed);
}

#[test]
fn decoding_rejects_bad_payloads() {
    // conjunction flag must be the letter a or o
    let fields: Vec<String> = ["1", "x", "1", "SMART", "1", "5.0", "0"]
        .iter()
        .map(|s| s.to_string())
        .collect();
    assert_eq!(parse_condition_fields(&fields).unwrap_err(), ParseError::Malformed);
    // comparison flag must be 1 or 0
    let fields: Vec<String> = ["1", "o", "1", "SMART", "yes", "5.0", "0"]
        .iter()
        .map(|s| s.to_string())
        .collect();
    assert_eq!(parse_condition_fields(&fields).unwrap_err(), ParseError::Malformed);
    // a contract id larger than its field type is out of range
    let fields: Vec<String> = ["1", "o", "99999999999", "SMART", "1", "5.0", "0"]
        .iter()
        .map(|s| s.to_string())
        .collect();
    assert_eq!(parse_condition_fields(&fields).unwrap_err(), ParseError::OutOfRange);
    // an unknown trigger-method code is malformed
    let fields: Vec<String> = ["1", "o", "1", "SMART", "1", "5.0", "9"]
        .iter()
        .map(|s| s.to_string())
        .collect();
    assert_eq!(parse_condition_fields(&fields).unwrap_err(), ParseError::Malformed);
}

#[test]
fn create_condition_builds_empty_variants() {
    match create_condition(ConditionType::Price) {
        OrderConditionEnum::Price(c) => {
            assert_eq!(c.price, 0);
            assert_eq!(c.contract_condition.con_id, 0);
            assert_eq!(c.contract_condition.exchange, "");
            assert_eq!(c.trigger_method, TriggerMethod::Default);
            assert_eq!(
                c.contract_condition.operator_condition.order_condition.cond_type,
                ConditionType::Price
            );
        }
        other => panic!("expected a price condition, got {:?}", other),
    }
    match create_condition(ConditionType::Execution) {
        OrderConditionEnum::Execution(c) => {
            assert_eq!(c.symbol, "");
            assert_eq!(c.order_condition.cond_type, ConditionType::Execution);
        }
        other => panic!("expected an execution condition, got {:?}", other),
    }
}
