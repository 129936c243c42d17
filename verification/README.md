# lte_strategy_bridge

The bridge between a trading host and a strategy module: the module reads one
JSON input per line on stdin and answers each with one JSON output line.

- `src/` is the verified library (Verus):
  - `abi.rs`: directions, order roles and sides, close requests;
  - `indicator_access.rs`: timeframes, indicator and field names, and the
    lookup of one field in an indicator snapshot;
  - `named_map.rs`: the name-keyed map that the snapshot is made of;
  - `sug_info.rs`: trade status, and the conversion of decimal map keys;
  - `bridge_loop.rs`: the decisions of the stdin/stdout loop, with the laws
    that every non-empty line gets exactly one answer and when the loop stops.
- `app/` is ordinary Rust around it: the serde-serialisable records (most of
  them hold floating-point prices), the floating-point helpers, and the loop
  that does the reading, parsing, handler call, serialising and writing.
- `tests/` runs the library on concrete values.
