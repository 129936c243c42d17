use std::collections::BTreeMap;

use lte_strategy_bridge::{
    get_value, IndicatorField, IndicatorFieldKey, IndicatorKey, IndicatorSnapshot, NamedMap,
    TimeframeSec,
};

#[test]
fn timeframe_seconds() {
    assert_eq!(TimeframeSec::Tf1m.as_i64(), 60);
    assert_eq!(TimeframeSec::Tf5m.as_i64(), 300);
    assert_eq!(TimeframeSec::Tf15m.as_i64(), 900);
    assert_eq!(TimeframeSec::Tf30m.as_i64(), 1800);
    assert_eq!(TimeframeSec::Tf1h.as_i64(), 3600);
    assert_eq!(TimeframeSec::Tf4h.as_i64(), 14400);
}

#[test]
fn indicator_names() {
    assert_eq!(IndicatorKey::Psar.as_name(), "psar");
    assert_eq!(IndicatorKey::ChandelierExit.as_name(), "ce");
    assert_eq!(IndicatorKey::BollingerBands20.as_name(), "bb_20");
    assert_eq!(IndicatorKey::Stoch1413.as_name(), "stoch_14,1,3");
    assert_eq!(IndicatorKey::EmaCross926.as_name(), "emacross_9,26");
    assert_eq!(IndicatorKey::Mrc200.as_name(), "mrc_200");
    assert_eq!(IndicatorKey::Candle.as_name(), "candle");
}

#[test]
fn field_names() {
    assert_eq!(IndicatorField::Value.as_name(), "Value");
    assert_eq!(IndicatorField::MeanLine.as_name(), "MeanLine");
    assert_eq!(IndicatorField::CurrentCross.as_name(), "CurrentCross");
    assert_eq!(IndicatorField::Min.as_name(), "Min");
}

#[test]
fn indicator_names_are_distinct() {
    let keys = [
        IndicatorKey::Psar, IndicatorKey::Natr14, IndicatorKey::Natr30, IndicatorKey::Ema9,
        IndicatorKey::Ema20, IndicatorKey::Ema21, IndicatorKey::Ema26, IndicatorKey::Ema200,
        IndicatorKey::Smi10, IndicatorKey::Smi25, IndicatorKey::Rsi14, IndicatorKey::Mfi14,
        IndicatorKey::Cci20, IndicatorKey::Lsma50, IndicatorKey::ChandelierExit,
        IndicatorKey::BollingerBands20, IndicatorKey::ATRTralling, IndicatorKey::Supertrend,
        IndicatorKey::ZigZagTrend, IndicatorKey::Stoch1413, IndicatorKey::Mrc200,
        IndicatorKey::Imbalance, IndicatorKey::Window, IndicatorKey::Wave,
        IndicatorKey::EmaCross926, IndicatorKey::Volume50, IndicatorKey::Smc,
        IndicatorKey::DPSignal, IndicatorKey::Ntps, IndicatorKey::Candle,
    ];
    for a in keys {
        for b in keys {
            assert_eq!(a.as_name() == b.as_name(), a == b);
        }
    }
}

fn fields(pairs: &[(&str, i32)]) -> NamedMap<i32> {
    let mut m = NamedMap::new();
    for (k, v) in pairs {
        m.insert(k.to_string(), *v);
    }
    m
}

fn snapshot() -> IndicatorSnapshot<i32> {
    let mut newest = NamedMap::new();
    newest.insert("rsi_14".to_string(), fields(&[("Value", 55)]));
    newest.insert("mrc_200".to_string(), fields(&[("MeanLine", 10), ("UpInner", 12)]));
    let mut older = NamedMap::new();
    older.insert("rsi_14".to_string(), fields(&[("Value", 40)]));
    older.insert("ema_9".to_string(), fields(&[("Value", 3)]));
    let mut snap = BTreeMap::new();
    snap.insert(60, vec![newest, older]);
    snap.insert(300, Vec::new());
    snap
}

fn key(timeframe: TimeframeSec, indicator: IndicatorKey, field: IndicatorField) -> IndicatorFieldKey {
    IndicatorFieldKey { timeframe, indicator, field }
}

#[test]
fn get_value_reads_newest_candle() {
    let snap = snapshot();
    let k = key(TimeframeSec::Tf1m, IndicatorKey::Rsi14, IndicatorField::Value);
    assert_eq!(get_value(&snap, k), Some(&55));
    let k = key(TimeframeSec::Tf1m, IndicatorKey::Mrc200, IndicatorField::UpInner);
    assert_eq!(get_value(&snap, k), Some(&12));
}

#[test]
fn get_value_ignores_older_candles() {
    let snap = snapshot();
    let k = key(TimeframeSec::Tf1m, IndicatorKey::Ema9, IndicatorField::Value);
    assert_eq!(get_value(&snap, k), None);
}

#[test]
fn get_value_missing_parts() {
    let snap = snapshot();
    // timeframe absent
    assert_eq!(get_value(&snap, key(TimeframeSec::Tf1h, IndicatorKey::Rsi14, IndicatorField::Value)), None);
    // timeframe without candles
    assert_eq!(get_value(&snap, key(TimeframeSec::Tf5m, IndicatorKey::Rsi14, IndicatorField::Value)), None);
    // field absent
    assert_eq!(get_value(&snap, key(TimeframeSec::Tf1m, IndicatorKey::Rsi14, IndicatorField::Close)), None);
}

#[test]
fn named_map_insert_replaces() {
    let mut m = NamedMap::new();
    assert_eq!(m.get("a"), None);
    m.insert("a".to_string(), 1);
    m.insert("b".to_string(), 2);
    m.insert("a".to_string(), 3);
    assert_eq!(m.get("a"), Some(&3));
    assert_eq!(m.get("b"), Some(&2));
    assert_eq!(m.get("c"), None);
}

#[test]
fn named_map_from_entries_later_entry_counts() {
    let m = NamedMap::from_entries(vec![
        ("a".to_string(), 1),
        ("b".to_string(), 2),
        ("a".to_string(), 3),
    ]);
    assert_eq!(m.get("a"), Some(&3));
    assert_eq!(m.get("b"), Some(&2));
    assert_eq!(m.get("c"), None);
    let empty: NamedMap<u8> = NamedMap::from_entries(Vec::new());
    assert_eq!(empty.get(""), None);
}
