use std::collections::BTreeMap;
use vstd::prelude::*;
use crate::named_map::NamedMap;

verus! {

/// Candle timeframes for which the host delivers indicators, by length.
#[derive(Debug, Clone, Copy, PartialEq, Eq, Hash, Structural)]
pub enum TimeframeSec {
    /// One minute.
    Tf1m,
    /// Five minutes.
    Tf5m,
    /// Fifteen minutes.
    Tf15m,
    /// Thirty minutes.
    Tf30m,
    /// One hour.
    Tf1h,
    /// Four hours.
    Tf4h,
}

impl TimeframeSec {
    /// Length of the timeframe in seconds, the key of the indicator snapshot.
    pub open spec fn seconds(self) -> int {
        match self {
            TimeframeSec::Tf1m => 60,
            TimeframeSec::Tf5m => 300,
            TimeframeSec::Tf15m => 900,
            TimeframeSec::Tf30m => 1800,
            TimeframeSec::Tf1h => 3600,
            TimeframeSec::Tf4h => 14400,
        }
    }

    pub fn as_i64(self) -> (r: i64)
        ensures
            r == self.seconds(),
    {
        match self {
            TimeframeSec::Tf1m => 60i64,
            TimeframeSec::Tf5m => 300i64,
            TimeframeSec::Tf15m => 900i64,
            TimeframeSec::Tf30m => 1800i64,
            TimeframeSec::Tf1h => 3600i64,
            TimeframeSec::Tf4h => 14400i64,
        }
    }
}

/// Indicators that the host computes.
#[derive(Debug, Clone, Copy, PartialEq, Eq, Hash, Structural)]
pub enum IndicatorKey {
    /// Parabolic stop and reverse.
    Psar,
    /// Normalised average true range over 14 candles.
    Natr14,
    /// Normalised average true range over 30 candles.
    Natr30,
    /// Exponential moving average over 9 candles.
    Ema9,
    /// Exponential moving average over 20 candles.
    Ema20,
    /// Exponential moving average over 21 candles.
    Ema21,
    /// Exponential moving average over 26 candles.
    Ema26,
    /// Exponential moving average over 200 candles.
    Ema200,
    /// Stochastic momentum index over 10 candles.
    Smi10,
    /// Stochastic momentum index over 25 candles.
    Smi25,
    /// Relative strength index over 14 candles.
    Rsi14,
    /// Money flow index over 14 candles.
    Mfi14,
    /// Commodity channel index over 20 candles.
    Cci20,
    /// Least-squares moving average over 50 candles.
    Lsma50,
    /// Chandelier exit.
    ChandelierExit,
    /// Bollinger bands over 20 candles.
    BollingerBands20,
    /// Trailing stop by average true range.
    ATRTralling,
    /// The host's `supertrend` indicator.
    Supertrend,
    /// Trend of the zig-zag swings.
    ZigZagTrend,
    /// Stochastic oscillator with periods 14, 1 and 3.
    Stoch1413,
    /// Mean reversion channel over 200 candles.
    Mrc200,
    /// The host's `imbalance` indicator.
    Imbalance,
    /// The host's `window` indicator.
    Window,
    /// The host's `wave` indicator.
    Wave,
    /// Crossing of the 9- and 26-candle exponential averages.
    EmaCross926,
    /// Volume over 50 candles.
    Volume50,
    /// The host's `smc` indicator.
    Smc,
    /// The host's `dpsignal` indicator.
    DPSignal,
    /// The host's `ntps` indicator.
    Ntps,
    /// Shape of the candle itself.
    Candle,
}

impl IndicatorKey {
    /// Name under which the host files the indicator in each candle.
    pub open spec fn name(self) -> Seq<char> {
        match self {
            IndicatorKey::Psar => "psar"@,
            IndicatorKey::Natr14 => "natr_14"@,
            IndicatorKey::Natr30 => "natr_30"@,
            IndicatorKey::Ema9 => "ema_9"@,
            IndicatorKey::Ema20 => "ema_20"@,
            IndicatorKey::Ema21 => "ema_21"@,
            IndicatorKey::Ema26 => "ema_26"@,
            IndicatorKey::Ema200 => "ema_200"@,
            IndicatorKey::Smi10 => "smi_10"@,
            IndicatorKey::Smi25 => "smi_25"@,
            IndicatorKey::Rsi14 => "rsi_14"@,
            IndicatorKey::Mfi14 => "mfi_14"@,
            IndicatorKey::Cci20 => "cci_20"@,
            IndicatorKey::Lsma50 => "lsma_50"@,
            IndicatorKey::ChandelierExit => "ce"@,
            IndicatorKey::BollingerBands20 => "bb_20"@,
            IndicatorKey::ATRTralling => "atrtralling"@,
            IndicatorKey::Supertrend => "supertrend"@,
            IndicatorKey::ZigZagTrend => "zigzagtrend"@,
            IndicatorKey::Stoch1413 => "stoch_14,1,3"@,
            IndicatorKey::Mrc200 => "mrc_200"@,
            IndicatorKey::Imbalance => "imbalance"@,
            IndicatorKey::Window => "window"@,
            IndicatorKey::Wave => "wave"@,
            IndicatorKey::EmaCross926 => "emacross_9,26"@,
            IndicatorKey::Volume50 => "volume_50"@,
            IndicatorKey::Smc => "smc"@,
            IndicatorKey::DPSignal => "dpsignal"@,
            IndicatorKey::Ntps => "ntps"@,
            IndicatorKey::Candle => "candle"@,
        }
    }

    pub fn as_name(self) -> (r: &'static str)
        ensures
            r@ == self.name(),
    {
        match self {
            IndicatorKey::Psar => "psar",
            IndicatorKey::Natr14 => "natr_14",
            IndicatorKey::Natr30 => "natr_30",
            IndicatorKey::Ema9 => "ema_9",
            IndicatorKey::Ema20 => "ema_20",
            IndicatorKey::Ema21 => "ema_21",
            IndicatorKey::Ema26 => "ema_26",
            IndicatorKey::Ema200 => "ema_200",
            IndicatorKey::Smi10 => "smi_10",
            IndicatorKey::Smi25 => "smi_25",
            IndicatorKey::Rsi14 => "rsi_14",
            IndicatorKey::Mfi14 => "mfi_14",
            IndicatorKey::Cci20 => "cci_20",
            IndicatorKey::Lsma50 => "lsma_50",
            IndicatorKey::ChandelierExit => "ce",
            IndicatorKey::BollingerBands20 => "bb_20",
            IndicatorKey::ATRTralling => "atrtralling",
            IndicatorKey::Supertrend => "supertrend",
            IndicatorKey::ZigZagTrend => "zigzagtrend",
            IndicatorKey::Stoch1413 => "stoch_14,1,3",
            IndicatorKey::Mrc200 => "mrc_200",
            IndicatorKey::Imbalance => "imbalance",
            IndicatorKey::Window => "window",
            IndicatorKey::Wave => "wave",
            IndicatorKey::EmaCross926 => "emacross_9,26",
            IndicatorKey::Volume50 => "volume_50",
            IndicatorKey::Smc => "smc",
            IndicatorKey::DPSignal => "dpsignal",
            IndicatorKey::Ntps => "ntps",
            IndicatorKey::Candle => "candle",
        }
    }
}

/// Fields that an indicator may carry in a candle; each is filed under the
/// variant's own name.
#[derive(Debug, Clone, Copy, PartialEq, Eq, Hash, Structural)]
pub enum IndicatorField {
    Value,
    MeanLine,
    UpInner,
    UpSmall,
    UpOuter,
    UpBig,
    DownInner,
    DownSmall,
    DownOuter,
    DownBig,
    CurrentCross,
    PrevCross,
    Open,
    High,
    Low,
    Close,
    Direction,
    BodyChange,
    Atr,
    Drop,
    Gain,
    Max,
    Min,
}

impl IndicatorField {
    /// Name under which the host files the field of an indicator.
    pub open spec fn name(self) -> Seq<char> {
        match self {
            IndicatorField::Value => "Value"@,
            IndicatorField::MeanLine => "MeanLine"@,
            IndicatorField::UpInner => "UpInner"@,
            IndicatorField::UpSmall => "UpSmall"@,
            IndicatorField::UpOuter => "UpOuter"@,
            IndicatorField::UpBig => "UpBig"@,
            IndicatorField::DownInner => "DownInner"@,
            IndicatorField::DownSmall => "DownSmall"@,
            IndicatorField::DownOuter => "DownOuter"@,
            IndicatorField::DownBig => "DownBig"@,
            IndicatorField::CurrentCross => "CurrentCross"@,
            IndicatorField::PrevCross => "PrevCross"@,
            IndicatorField::Open => "Open"@,
            IndicatorField::High => "High"@,
            IndicatorField::Low => "Low"@,
            IndicatorField::Close => "Close"@,
            IndicatorField::Direction => "Direction"@,
            IndicatorField::BodyChange => "BodyChange"@,
            IndicatorField::Atr => "Atr"@,
            IndicatorField::Drop => "Drop"@,
            IndicatorField::Gain => "Gain"@,
            IndicatorField::Max => "Max"@,
            IndicatorField::Min => "Min"@,
        }
    }

    pub fn as_name(self) -> (r: &'static str)
        ensures
            r@ == self.name(),
    {
        match self {
            IndicatorField::Value => "Value",
            IndicatorField::MeanLine => "MeanLine",
            IndicatorField::UpInner => "UpInner",
            IndicatorField::UpSmall => "UpSmall",
            IndicatorField::UpOuter => "UpOuter",
            IndicatorField::UpBig => "UpBig",
            IndicatorField::DownInner => "DownInner",
            IndicatorField::DownSmall => "DownSmall",
            IndicatorField::DownOuter => "DownOuter",
            IndicatorField::DownBig => "DownBig",
            IndicatorField::CurrentCross => "CurrentCross",
            IndicatorField::PrevCross => "PrevCross",
            IndicatorField::Open => "Open",
            IndicatorField::High => "High",
            IndicatorField::Low => "Low",
            IndicatorField::Close => "Close",
            IndicatorField::Direction => "Direction",
            IndicatorField::BodyChange => "BodyChange",
            IndicatorField::Atr => "Atr",
            IndicatorField::Drop => "Drop",
            IndicatorField::Gain => "Gain",
            IndicatorField::Max => "Max",
            IndicatorField::Min => "Min",
        }
    }
}

/// Distinct timeframes have distinct lengths, and every length is positive.
pub proof fn lemma_timeframe_seconds_distinct(a: TimeframeSec, b: TimeframeSec)
    ensures
        a.seconds() > 0,
        a.seconds() == b.seconds() ==> a == b,
{
}

/// Each timeframe is keyed by its length in seconds: one, five, fifteen
/// and thirty minutes, one hour and four hours.
pub proof fn lemma_timeframe_lengths()
    ensures
        TimeframeSec::Tf1m.seconds() == 60,
        TimeframeSec::Tf5m.seconds() == 300,
        TimeframeSec::Tf15m.seconds() == 900,
        TimeframeSec::Tf30m.seconds() == 1800,
        TimeframeSec::Tf1h.seconds() == 3600,
        TimeframeSec::Tf4h.seconds() == 14400,
{
}

/// The name under which the host files each indicator.
pub proof fn lemma_indicator_names()
    ensures
        IndicatorKey::Psar.name() == "psar"@,
        IndicatorKey::Natr14.name() == "natr_14"@,
        IndicatorKey::Natr30.name() == "natr_30"@,
        IndicatorKey::Ema9.name() == "ema_9"@,
        IndicatorKey::Ema20.name() == "ema_20"@,
        IndicatorKey::Ema21.name() == "ema_21"@,
        IndicatorKey::Ema26.name() == "ema_26"@,
        IndicatorKey::Ema200.name() == "ema_200"@,
        IndicatorKey::Smi10.name() == "smi_10"@,
        IndicatorKey::Smi25.name() == "smi_25"@,
        IndicatorKey::Rsi14.name() == "rsi_14"@,
        IndicatorKey::Mfi14.name() == "mfi_14"@,
        IndicatorKey::Cci20.name() == "cci_20"@,
        IndicatorKey::Lsma50.name() == "lsma_50"@,
        IndicatorKey::ChandelierExit.name() == "ce"@,
        IndicatorKey::BollingerBands20.name() == "bb_20"@,
        IndicatorKey::ATRTralling.name() == "atrtralling"@,
        IndicatorKey::Supertrend.name() == "supertrend"@,
        IndicatorKey::ZigZagTrend.name() == "zigzagtrend"@,
        IndicatorKey::Stoch1413.name() == "stoch_14,1,3"@,
        IndicatorKey::Mrc200.name() == "mrc_200"@,
        IndicatorKey::Imbalance.name() == "imbalance"@,
        IndicatorKey::Window.name() == "window"@,
        IndicatorKey::Wave.name() == "wave"@,
        IndicatorKey::EmaCross926.name() == "emacross_9,26"@,
        IndicatorKey::Volume50.name() == "volume_50"@,
        IndicatorKey::Smc.name() == "smc"@,
        IndicatorKey::DPSignal.name() == "dpsignal"@,
        IndicatorKey::Ntps.name() == "ntps"@,
        IndicatorKey::Candle.name() == "candle"@,
{
}

/// Each field is filed under the variant's own name.
pub proof fn lemma_field_names()
    ensures
        IndicatorField::Value.name() == "Value"@,
        IndicatorField::MeanLine.name() == "MeanLine"@,
        IndicatorField::UpInner.name() == "UpInner"@,
        IndicatorField::UpSmall.name() == "UpSmall"@,
        IndicatorField::UpOuter.name() == "UpOuter"@,
        IndicatorField::UpBig.name() == "UpBig"@,
        IndicatorField::DownInner.name() == "DownInner"@,
        IndicatorField::DownSmall.name() == "DownSmall"@,
        IndicatorField::DownOuter.name() == "DownOuter"@,
        IndicatorField::DownBig.name() == "DownBig"@,
        IndicatorField::CurrentCross.name() == "CurrentCross"@,
        IndicatorField::PrevCross.name() == "PrevCross"@,
        IndicatorField::Open.name() == "Open"@,
        IndicatorField::High.name() == "High"@,
        IndicatorField::Low.name() == "Low"@,
        IndicatorField::Close.name() == "Close"@,
        IndicatorField::Direction.name() == "Direction"@,
        IndicatorField::BodyChange.name() == "BodyChange"@,
        IndicatorField::Atr.name() == "Atr"@,
        IndicatorField::Drop.name() == "Drop"@,
        IndicatorField::Gain.name() == "Gain"@,
        IndicatorField::Max.name() == "Max"@,
        IndicatorField::Min.name() == "Min"@,
{
}

/// The lookup reads the snapshot's entry at the length of the key's
/// timeframe in seconds: it finds a value exactly when that entry has a
/// candle whose first (newest) one files the key's indicator name with the
/// key's field name, and the value is the one filed there.
pub proof fn lemma_snapshot_value_reads_timeframe_entry<V>(
    indicators: Map<i64, Vec<NamedMap<NamedMap<V>>>>,
    key: IndicatorFieldKey,
    v: V,
)
    ensures
        snapshot_value(indicators, key) == Some(v) <==> {
            &&& indicators.contains_key(key.timeframe.seconds() as i64)
            &&& indicators[key.timeframe.seconds() as i64]@.len() > 0
            &&& indicators[key.timeframe.seconds() as i64]@[0]@.contains_key(key.indicator.name())
            &&& indicators[key.timeframe.seconds() as i64]@[0]@[key.indicator.name()]@.contains_key(
                key.field.name(),
            )
            &&& indicators[key.timeframe.seconds() as i64]@[0]@[key.indicator.name()]@[key.field.name()]
                == v
        },
        snapshot_value(indicators, key) is None <==> !{
            &&& indicators.contains_key(key.timeframe.seconds() as i64)
            &&& indicators[key.timeframe.seconds() as i64]@.len() > 0
            &&& indicators[key.timeframe.seconds() as i64]@[0]@.contains_key(key.indicator.name())
            &&& indicators[key.timeframe.seconds() as i64]@[0]@[key.indicator.name()]@.contains_key(
                key.field.name(),
            )
        },
{
}

/// Length, first, last and middle character of a text.
pub open spec fn outline(s: Seq<char>) -> (int, char, char, char) {
    (s.len() as int, s[0], s[s.len() - 1], s[(s.len() / 2) as int])
}

impl IndicatorKey {
    /// Outline of the name: its length, first, last and middle characters.
    pub open spec fn name_outline(self) -> (int, char, char, char) {
        match self {
            IndicatorKey::Psar => (4, 'p', 'r', 'a'),
            IndicatorKey::Natr14 => (7, 'n', '4', 'r'),
            IndicatorKey::Natr30 => (7, 'n', '0', 'r'),
            IndicatorKey::Ema9 => (5, 'e', '9', 'a'),
            IndicatorKey::Ema20 => (6, 'e', '0', '_'),
            IndicatorKey::Ema21 => (6, 'e', '1', '_'),
            IndicatorKey::Ema26 => (6, 'e', '6', '_'),
            IndicatorKey::Ema200 => (7, 'e', '0', '_'),
            IndicatorKey::Smi10 => (6, 's', '0', '_'),
            IndicatorKey::Smi25 => (6, 's', '5', '_'),
            IndicatorKey::Rsi14 => (6, 'r', '4', '_'),
            IndicatorKey::Mfi14 => (6, 'm', '4', '_'),
            IndicatorKey::Cci20 => (6, 'c', '0', '_'),
            IndicatorKey::Lsma50 => (7, 'l', '0', 'a'),
            IndicatorKey::ChandelierExit => (2, 'c', 'e', 'e'),
            IndicatorKey::BollingerBands20 => (5, 'b', '0', '_'),
            IndicatorKey::ATRTralling => (11, 'a', 'g', 'a'),
            IndicatorKey::Supertrend => (10, 's', 'd', 't'),
            IndicatorKey::ZigZagTrend => (11, 'z', 'd', 'g'),
            IndicatorKey::Stoch1413 => (12, 's', '3', '1'),
            IndicatorKey::Mrc200 => (7, 'm', '0', '_'),
            IndicatorKey::Imbalance => (9, 'i', 'e', 'l'),
            IndicatorKey::Window => (6, 'w', 'w', 'd'),
            IndicatorKey::Wave => (4, 'w', 'e', 'v'),
            IndicatorKey::EmaCross926 => (13, 'e', '6', 's'),
            IndicatorKey::Volume50 => (9, 'v', '0', 'm'),
            IndicatorKey::Smc => (3, 's', 'c', 'm'),
            IndicatorKey::DPSignal => (8, 'd', 'l', 'g'),
            IndicatorKey::Ntps => (4, 'n', 's', 'p'),
            IndicatorKey::Candle => (6, 'c', 'e', 'd'),
        }
    }
}

proof fn lemma_indicator_name_outline(k: IndicatorKey)
    ensures
        outline(k.name()) == k.name_outline(),
{
    reveal_strlit("atrtralling");
    reveal_strlit("bb_20");
    reveal_strlit("candle");
    reveal_strlit("cci_20");
    reveal_strlit("ce");
    reveal_strlit("dpsignal");
    reveal_strlit("ema_20");
    reveal_strlit("ema_200");
    reveal_strlit("ema_21");
    reveal_strlit("ema_26");
    reveal_strlit("ema_9");
    reveal_strlit("emacross_9,26");
    reveal_strlit("imbalance");
    reveal_strlit("lsma_50");
    reveal_strlit("mfi_14");
    reveal_strlit("mrc_200");
    reveal_strlit("natr_14");
    reveal_strlit("natr_30");
    reveal_strlit("ntps");
    reveal_strlit("psar");
    reveal_strlit("rsi_14");
    reveal_strlit("smc");
    reveal_strlit("smi_10");
    reveal_strlit("smi_25");
    reveal_strlit("stoch_14,1,3");
    reveal_strlit("supertrend");
    reveal_strlit("volume_50");
    reveal_strlit("wave");
    reveal_strlit("window");
    reveal_strlit("zigzagtrend");
}

/// Distinct indicators are filed under distinct names, so a lookup by name
/// finds the indicator that was asked for and no other.
pub proof fn lemma_indicator_names_distinct(a: IndicatorKey, b: IndicatorKey)
    ensures
        a.name() == b.name() ==> a == b,
{
    lemma_indicator_name_outline(a);
    lemma_indicator_name_outline(b);
}

impl IndicatorField {
    /// Outline of the name: its length, first, last and middle characters.
    pub open spec fn name_outline(self) -> (int, char, char, char) {
        match self {
            IndicatorField::Value => (5, 'V', 'e', 'l'),
            IndicatorField::MeanLine => (8, 'M', 'e', 'L'),
            IndicatorField::UpInner => (7, 'U', 'r', 'n'),
            IndicatorField::UpSmall => (7, 'U', 'l', 'm'),
            IndicatorField::UpOuter => (7, 'U', 'r', 'u'),
            IndicatorField::UpBig => (5, 'U', 'g', 'B'),
            IndicatorField::DownInner => (9, 'D', 'r', 'I'),
            IndicatorField::DownSmall => (9, 'D', 'l', 'S'),
            IndicatorField::DownOuter => (9, 'D', 'r', 'O'),
            IndicatorField::DownBig => (7, 'D', 'g', 'n'),
            IndicatorField::CurrentCross => (12, 'C', 's', 't'),
            IndicatorField::PrevCross => (9, 'P', 's', 'C'),
            IndicatorField::Open => (4, 'O', 'n', 'e'),
            IndicatorField::High => (4, 'H', 'h', 'g'),
            IndicatorField::Low => (3, 'L', 'w', 'o'),
            IndicatorField::Close => (5, 'C', 'e', 'o'),
            IndicatorField::Direction => (9, 'D', 'n', 'c'),
            IndicatorField::BodyChange => (10, 'B', 'e', 'h'),
            IndicatorField::Atr => (3, 'A', 'r', 't'),
            IndicatorField::Drop => (4, 'D', 'p', 'o'),
            IndicatorField::Gain => (4, 'G', 'n', 'i'),
            IndicatorField::Max => (3, 'M', 'x', 'a'),
            IndicatorField::Min => (3, 'M', 'n', 'i'),
        }
    }
}

proof fn lemma_field_name_outline(f: IndicatorField)
    ensures
        outline(f.name()) == f.name_outline(),
{
    reveal_strlit("Atr");
    reveal_strlit("BodyChange");
    reveal_strlit("Close");
    reveal_strlit("CurrentCross");
    reveal_strlit("Direction");
    reveal_strlit("DownBig");
    reveal_strlit("DownInner");
    reveal_strlit("DownOuter");
    reveal_strlit("DownSmall");
    reveal_strlit("Drop");
    reveal_strlit("Gain");
    reveal_strlit("High");
    reveal_strlit("Low");
    reveal_strlit("Max");
    reveal_strlit("MeanLine");
    reveal_strlit("Min");
    reveal_strlit("Open");
    reveal_strlit("PrevCross");
    reveal_strlit("UpBig");
    reveal_strlit("UpInner");
    reveal_strlit("UpOuter");
    reveal_strlit("UpSmall");
    reveal_strlit("Value");
}

/// Distinct fields are filed under distinct names.
pub proof fn lemma_field_names_distinct(a: IndicatorField, b: IndicatorField)
    ensures
        a.name() == b.name() ==> a == b,
{
    lemma_field_name_outline(a);
    lemma_field_name_outline(b);
}

/// Address of one indicator field: timeframe, indicator and field.
#[derive(Debug, Clone, Copy, PartialEq, Eq, Hash, Structural)]
pub struct IndicatorFieldKey {
    pub timeframe: TimeframeSec,
    pub indicator: IndicatorKey,
    pub field: IndicatorField,
}

/// Indicators delivered by the host: timeframe length in seconds to the
/// candles of that timeframe, newest first; each candle maps indicator names
/// to the fields of the indicator, and each field name to its value.
pub type IndicatorSnapshot<V> = BTreeMap<i64, Vec<NamedMap<NamedMap<V>>>>;

/// The value filed in the newest candle of the key's timeframe under the
/// key's indicator and field names, if there is one.
pub open spec fn snapshot_value<V>(
    indicators: Map<i64, Vec<NamedMap<NamedMap<V>>>>,
    key: IndicatorFieldKey,
) -> Option<V> {
    let tf = key.timeframe.seconds() as i64;
    if indicators.contains_key(tf) && indicators[tf]@.len() > 0 {
        let by_indicator = indicators[tf]@[0]@;
        let indicator = key.indicator.name();
        let field = key.field.name();
        if by_indicator.contains_key(indicator) && by_indicator[indicator]@.contains_key(field) {
            Some(by_indicator[indicator]@[field])
        } else {
            None
        }
    } else {
        None
    }
}

/// Looks up one indicator field in the newest candle of a timeframe.
pub fn get_value<'a, V>(indicators: &'a IndicatorSnapshot<V>, key: IndicatorFieldKey) -> (r: Option<&'a V>)
    ensures
        match r {
            Some(v) => snapshot_value(indicators@, key) == Some(*v),
            None => snapshot_value(indicators@, key) is None,
        },
{
    broadcast use vstd::std_specs::btree::group_btree_axioms, vstd::laws_cmp::group_laws_cmp;

    let tf = key.timeframe.as_i64();
    match indicators.get(&tf) {
        Some(candles) => {
            if candles.len() == 0 {
                return None;
            }
            match candles[0].get(key.indicator.as_name()) {
                Some(fields) => fields.get(key.field.as_name()),
                None => None,
            }
        },
        None => None,
    }
}

} // verus!
