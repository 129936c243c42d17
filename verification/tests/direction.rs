use lte_strategy_bridge::{
    default_order_type, Direction, ModuleClosePosition, ModuleOrderSide, OrderRole,
};

#[test]
fn index_follows_all() {
    for (i, d) in Direction::ALL.iter().enumerate() {
        assert_eq!(d.index(), i);
    }
    assert_eq!(Direction::Long.index(), 0);
    assert_eq!(Direction::Short.index(), 1);
    assert_eq!(Direction::Both.index(), 2);
}

#[test]
fn from_index_undoes_index() {
    for d in Direction::ALL {
        assert_eq!(Direction::from_index(d.index()), d);
    }
}

#[test]
fn from_index_past_end_is_both() {
    assert_eq!(Direction::from_index(0), Direction::Long);
    assert_eq!(Direction::from_index(1), Direction::Short);
    assert_eq!(Direction::from_index(2), Direction::Both);
    assert_eq!(Direction::from_index(3), Direction::Both);
    assert_eq!(Direction::from_index(usize::MAX), Direction::Both);
}

#[test]
fn oposite_swaps_sides() {
    assert_eq!(Direction::Long.oposite(), Direction::Short);
    assert_eq!(Direction::Short.oposite(), Direction::Long);
    assert_eq!(Direction::Both.oposite(), Direction::Both);
    for d in Direction::ALL {
        assert_eq!(d.oposite().oposite(), d);
    }
}

#[test]
fn exactly_one_kind_holds() {
    assert!(Direction::Long.is_long() && !Direction::Long.is_short() && !Direction::Long.is_both());
    assert!(!Direction::Short.is_long() && Direction::Short.is_short() && !Direction::Short.is_both());
    assert!(!Direction::Both.is_long() && !Direction::Both.is_short() && Direction::Both.is_both());
}

#[test]
fn from_i32_follows_sign() {
    assert_eq!(Direction::from(5), Direction::Long);
    assert_eq!(Direction::from(1), Direction::Long);
    assert_eq!(Direction::from(i32::MAX), Direction::Long);
    assert_eq!(Direction::from(-1), Direction::Short);
    assert_eq!(Direction::from(i32::MIN), Direction::Short);
    assert_eq!(Direction::from(0), Direction::Both);
}

#[test]
fn from_i32_negation_is_opposite() {
    for v in [-7, -1, 0, 1, 42] {
        assert_eq!(Direction::from(-v), Direction::from(v).oposite());
    }
}

#[test]
fn defaults() {
    assert_eq!(Direction::default(), Direction::Both);
    assert_eq!(ModuleOrderSide::default(), ModuleOrderSide::Buy);
    assert_eq!(default_order_type(), "Market");
}

#[test]
fn close_position_carries_reason() {
    let c = ModuleClosePosition { direction: Direction::Short, reason: "tp hit".to_string() };
    let d = c.clone();
    assert_eq!(d.direction, Direction::Short);
    assert_eq!(d.reason, "tp hit");
    assert_ne!(OrderRole::Entry, OrderRole::StopLoss);
}
