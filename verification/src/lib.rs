//! Verified core of the strategy bridge: the trading-side enums and records,
//! typed access to indicator snapshots, the integer-key conversion of
//! suggestion klines, and the decision logic of the stdin/stdout loop.
pub mod abi;
pub mod bridge_loop;
pub mod indicator_access;
pub mod named_map;
pub mod sug_info;

pub use abi::{
    default_order_type, Direction, ModuleClosePosition, ModuleIndicatorCross, ModuleOrderSide,
    OrderRole,
};
pub use bridge_loop::{LoopAction, LoopEvent, LoopState};
pub use indicator_access::{
    get_value, IndicatorField, IndicatorFieldKey, IndicatorKey, IndicatorSnapshot, TimeframeSec,
};
pub use named_map::NamedMap;
pub use sug_info::{parse_int_keys, AlgoSuggestionTradeStatus};
