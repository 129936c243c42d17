use lte_strategy_bridge::{parse_int_keys, AlgoSuggestionTradeStatus};

fn entries(keys: &[&str]) -> Vec<(String, usize)> {
    keys.iter().enumerate().map(|(i, k)| (k.to_string(), i)).collect()
}

#[test]
fn keys_parse_in_order() {
    let out = parse_int_keys(entries(&["60", "-5", "+7", "0", "9223372036854775807", "-9223372036854775808"])).unwrap();
    assert_eq!(out, vec![(60, 0), (-5, 1), (7, 2), (0, 3), (i64::MAX, 4), (i64::MIN, 5)]);
}

#[test]
fn empty_map_converts() {
    assert_eq!(parse_int_keys(Vec::<(String, u8)>::new()).unwrap(), Vec::new());
}

#[test]
fn first_bad_key_is_reported() {
    let err = parse_int_keys(entries(&["1", "x1", "abc"])).unwrap_err();
    assert_eq!(err, "invalid integer map key: x1");
}

#[test]
fn rejected_key_forms() {
    for bad in ["", "+", "-", " 1", "1 ", "1_000", "1.5", "9223372036854775808", "-9223372036854775809", "٣"] {
        let err = parse_int_keys(entries(&[bad])).unwrap_err();
        assert_eq!(err, format!("invalid integer map key: {bad}"));
    }
}

#[test]
fn trade_status() {
    assert!(AlgoSuggestionTradeStatus::FastTrade.is_fast());
    assert!(!AlgoSuggestionTradeStatus::FastTrade.is_normal());
    assert!(AlgoSuggestionTradeStatus::Normal.is_normal());
    assert!(!AlgoSuggestionTradeStatus::Normal.is_fast());
}
