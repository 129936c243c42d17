use lte_strategy_bridge::{LoopAction, LoopEvent, LoopState};

fn step(state: LoopState, event: LoopEvent) -> (LoopState, LoopAction) {
    state.step(event)
}

#[test]
fn empty_line_is_skipped() {
    let (s, a) = step(LoopState::AwaitingLine, LoopEvent::LineRead(String::new()));
    assert!(matches!(s, LoopState::AwaitingLine));
    assert!(matches!(a, LoopAction::ReadLine));
}

#[test]
fn handled_line_is_written_then_next_read() {
    let (s, a) = step(LoopState::AwaitingLine, LoopEvent::LineRead("{}".to_string()));
    assert!(matches!(a, LoopAction::ParseInput(ref l) if l == "{}"));
    let (s, a) = step(s, LoopEvent::InputParsed);
    assert!(matches!(a, LoopAction::RunHandler));
    let (s, a) = step(s, LoopEvent::HandlerReturned);
    assert!(matches!(a, LoopAction::EncodeHandlerOutput));
    let (s, a) = step(s, LoopEvent::Encoded("{\"stop_bot\":false}".to_string()));
    assert!(matches!(a, LoopAction::WriteLine(ref t) if t == "{\"stop_bot\":false}"));
    let (s, a) = step(s, LoopEvent::Written);
    assert!(matches!(s, LoopState::AwaitingLine));
    assert!(matches!(a, LoopAction::ReadLine));
}

#[test]
fn parse_error_is_reported() {
    let (s, a) = step(LoopState::AwaitingInput, LoopEvent::InputRejected("expected value at line 1".to_string()));
    assert!(matches!(a, LoopAction::EncodeReport(ref m) if m == "input parse error: expected value at line 1"));
    let (_, a) = step(s, LoopEvent::Encoded("{\"error\":\"x\"}".to_string()));
    assert!(matches!(a, LoopAction::WriteLine(ref t) if t == "{\"error\":\"x\"}"));
}

#[test]
fn parse_error_report_fallback() {
    let (s, _) = step(LoopState::AwaitingInput, LoopEvent::InputRejected("bad".to_string()));
    let (s, a) = step(s, LoopEvent::EncodeFailed("ignored".to_string()));
    assert!(matches!(a, LoopAction::WriteLine(ref t) if t == "{\"error\":\"input parse error: bad\"}"));
    assert!(matches!(s, LoopState::AwaitingWrite));
}

#[test]
fn panic_is_reported() {
    let (s, a) = step(LoopState::AwaitingHandler, LoopEvent::HandlerPanicked(Some("boom".to_string())));
    assert!(matches!(a, LoopAction::EncodeReport(ref m) if m == "handler panicked: boom"));
    assert!(matches!(s, LoopState::AwaitingOutputEncoding));
    let (_, a) = step(LoopState::AwaitingHandler, LoopEvent::HandlerPanicked(None));
    assert!(matches!(a, LoopAction::EncodeReport(ref m) if m == "handler panicked: unknown panic"));
}

#[test]
fn output_encoding_failure_fallback() {
    let (s, a) = step(LoopState::AwaitingOutputEncoding, LoopEvent::EncodeFailed("key must be a string".to_string()));
    assert!(matches!(a, LoopAction::WriteLine(ref t) if t == "{\"error\":\"output serialise error: key must be a string\"}"));
    assert!(matches!(s, LoopState::AwaitingWrite));
}

#[test]
fn loop_stops_on_end_and_failures() {
    let (s, a) = step(LoopState::AwaitingLine, LoopEvent::InputClosed);
    assert!(matches!(s, LoopState::Finished) && matches!(a, LoopAction::Stop));
    let (s, a) = step(LoopState::AwaitingLine, LoopEvent::ReadFailed);
    assert!(matches!(s, LoopState::Finished) && matches!(a, LoopAction::Stop));
    let (s, a) = step(LoopState::AwaitingWrite, LoopEvent::WriteFailed);
    assert!(matches!(s, LoopState::Finished) && matches!(a, LoopAction::Stop));
    let (s, a) = step(s, LoopEvent::LineRead("x".to_string()));
    assert!(matches!(s, LoopState::Finished) && matches!(a, LoopAction::Stop));
}

#[test]
fn unexpected_outcome_ends_loop() {
    let (s, a) = step(LoopState::AwaitingLine, LoopEvent::Written);
    assert!(matches!(s, LoopState::Finished) && matches!(a, LoopAction::Stop));
    let (s, a) = step(LoopState::AwaitingWrite, LoopEvent::InputParsed);
    assert!(matches!(s, LoopState::Finished) && matches!(a, LoopAction::Stop));
    let (s, a) = step(
        LoopState::AwaitingReportEncoding { message: "m".to_string() },
        LoopEvent::Encoded(String::new()),
    );
    assert!(matches!(s, LoopState::AwaitingWrite) && matches!(a, LoopAction::WriteLine(ref t) if t.is_empty()));
}

#[test]
fn one_output_line_per_input_line() {
    // three lines: one empty, one that fails to parse, one that is handled
    let mut state = LoopState::AwaitingLine;
    let mut writes = 0;
    let mut lines = vec!["".to_string(), "oops".to_string(), "{}".to_string()];
    lines.reverse();
    let mut event = LoopEvent::LineRead(lines.pop().unwrap());
    loop {
        let (s, a) = step(state, event);
        state = s;
        event = match a {
            LoopAction::ReadLine => match lines.pop() {
                Some(l) => LoopEvent::LineRead(l),
                None => LoopEvent::InputClosed,
            },
            LoopAction::ParseInput(l) => {
                if l == "{}" { LoopEvent::InputParsed } else { LoopEvent::InputRejected("invalid".to_string()) }
            }
            LoopAction::RunHandler => LoopEvent::HandlerReturned,
            LoopAction::EncodeHandlerOutput | LoopAction::EncodeReport(_) => LoopEvent::Encoded("{}".to_string()),
            LoopAction::WriteLine(_) => {
                writes += 1;
                LoopEvent::Written
            }
            LoopAction::Stop => break,
        };
    }
    assert_eq!(writes, 2);
}
