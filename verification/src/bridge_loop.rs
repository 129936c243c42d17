//! Decisions of the persistent stdin/stdout loop that connects a strategy
//! module to its host.
//!
//! The host writes one JSON-encoded module input per line; the loop hands
//! each non-empty line to the parser, runs the handler on what was parsed,
//! serialises its output as one JSON line and writes it back.  Parse
//! failures and handler panics are reported through the `error` field of an
//! otherwise empty output.  The loop ends when the input is closed or a read
//! or a write fails.
//!
//! The outside work (reading, parsing, running the handler, serialising,
//! writing) is done by the caller; `LoopState::step` takes the outcome of the
//! last piece of work and says what to do next.
use vstd::prelude::*;

verus! {

/// Where the loop stands.
pub enum LoopState {
    /// Waiting for the next input line.
    AwaitingLine,
    /// A line was handed to the input parser.
    AwaitingInput,
    /// The parsed input was handed to the handler.
    AwaitingHandler,
    /// An output (the handler's, or a report of its panic) is being serialised.
    AwaitingOutputEncoding,
    /// A report of an input parse error is being serialised; `message` is
    /// the report's error text.
    AwaitingReportEncoding { message: String },
    /// A line was handed to the writer.
    AwaitingWrite,
    /// The loop is over.
    Finished,
}

/// Outcome of the outside work that the last action asked for.
pub enum LoopEvent {
    /// A line was read (without its line terminator).
    LineRead(String),
    /// Reading the input failed.
    ReadFailed,
    /// The input is closed: no line is left.
    InputClosed,
    /// The line parsed as a module input.
    InputParsed,
    /// The line did not parse; the parser's error text.
    InputRejected(String),
    /// The handler returned an output.
    HandlerReturned,
    /// The handler panicked; the panic's message where it was a string.
    HandlerPanicked(Option<String>),
    /// The output serialised to this JSON text.
    Encoded(String),
    /// Serialising failed; the serialiser's error text.
    EncodeFailed(String),
    /// The line was written (and the output flushed, which may fail unnoticed).
    Written,
    /// Writing the line failed.
    WriteFailed,
}

/// What the caller is to do next.
pub enum LoopAction {
    /// Read the next input line.
    ReadLine,
    /// Parse this line as a module input.
    ParseInput(String),
    /// Run the handler on the parsed input.
    RunHandler,
    /// Serialise the output the handler returned.
    EncodeHandlerOutput,
    /// Serialise a default output whose `error` field holds this text.
    EncodeReport(String),
    /// Write this text as one output line.
    WriteLine(String),
    /// End the loop.
    Stop,
}

/// `LoopState` with its texts taken as character sequences.
pub enum LoopStateModel {
    AwaitingLine,
    AwaitingInput,
    AwaitingHandler,
    AwaitingOutputEncoding,
    AwaitingReportEncoding(Seq<char>),
    AwaitingWrite,
    Finished,
}

/// `LoopEvent` with its texts taken as character sequences.
pub enum LoopEventModel {
    LineRead(Seq<char>),
    ReadFailed,
    InputClosed,
    InputParsed,
    InputRejected(Seq<char>),
    HandlerReturned,
    HandlerPanicked(Option<Seq<char>>),
    Encoded(Seq<char>),
    EncodeFailed(Seq<char>),
    Written,
    WriteFailed,
}

/// `LoopAction` with its texts taken as character sequences.
pub enum LoopActionModel {
    ReadLine,
    ParseInput(Seq<char>),
    RunHandler,
    EncodeHandlerOutput,
    EncodeReport(Seq<char>),
    WriteLine(Seq<char>),
    Stop,
}

impl View for LoopState {
    type V = LoopStateModel;

    open spec fn view(&self) -> LoopStateModel {
        match self {
            LoopState::AwaitingLine => LoopStateModel::AwaitingLine,
            LoopState::AwaitingInput => LoopStateModel::AwaitingInput,
            LoopState::AwaitingHandler => LoopStateModel::AwaitingHandler,
            LoopState::AwaitingOutputEncoding => LoopStateModel::AwaitingOutputEncoding,
            LoopState::AwaitingReportEncoding { message } => LoopStateModel::AwaitingReportEncoding(
                message@,
            ),
            LoopState::AwaitingWrite => LoopStateModel::AwaitingWrite,
            LoopState::Finished => LoopStateModel::Finished,
        }
    }
}

impl View for LoopEvent {
    type V = LoopEventModel;

    open spec fn view(&self) -> LoopEventModel {
        match self {
            LoopEvent::LineRead(line) => LoopEventModel::LineRead(line@),
            LoopEvent::ReadFailed => LoopEventModel::ReadFailed,
            LoopEvent::InputClosed => LoopEventModel::InputClosed,
            LoopEvent::InputParsed => LoopEventModel::InputParsed,
            LoopEvent::InputRejected(e) => LoopEventModel::InputRejected(e@),
            LoopEvent::HandlerReturned => LoopEventModel::HandlerReturned,
            LoopEvent::HandlerPanicked(payload) => LoopEventModel::HandlerPanicked(
                match payload {
                    Some(p) => Some(p@),
                    None => None,
                },
            ),
            LoopEvent::Encoded(json) => LoopEventModel::Encoded(json@),
            LoopEvent::EncodeFailed(e) => LoopEventModel::EncodeFailed(e@),
            LoopEvent::Written => LoopEventModel::Written,
            LoopEvent::WriteFailed => LoopEventModel::WriteFailed,
        }
    }
}

impl View for LoopAction {
    type V = LoopActionModel;

    open spec fn view(&self) -> LoopActionModel {
        match self {
            LoopAction::ReadLine => LoopActionModel::ReadLine,
            LoopAction::ParseInput(line) => LoopActionModel::ParseInput(line@),
            LoopAction::RunHandler => LoopActionModel::RunHandler,
            LoopAction::EncodeHandlerOutput => LoopActionModel::EncodeHandlerOutput,
            LoopAction::EncodeReport(message) => LoopActionModel::EncodeReport(message@),
            LoopAction::WriteLine(text) => LoopActionModel::WriteLine(text@),
            LoopAction::Stop => LoopActionModel::Stop,
        }
    }
}

/// Error text that reports an input line that did not parse.
pub open spec fn parse_error_message(detail: Seq<char>) -> Seq<char> {
    "input parse error: "@ + detail
}

/// Error text that reports a handler panic.
pub open spec fn panic_message(payload: Option<Seq<char>>) -> Seq<char> {
    "handler panicked: "@ + match payload {
        Some(p) => p,
        None => "unknown panic"@,
    }
}

/// Error text that reports an output that could not be serialised.
pub open spec fn encode_error_message(detail: Seq<char>) -> Seq<char> {
    "output serialise error: "@ + detail
}

/// The JSON line written in place of an output that could not be
/// serialised: an object whose only field `error` holds the text, which is
/// copied in as it is.
pub open spec fn error_line(message: Seq<char>) -> Seq<char> {
    "{\"error\":\""@ + message + "\"}"@
}

/// Whether `event` is an outcome of the work that `state` waits for.
pub open spec fn accepts(state: LoopStateModel, event: LoopEventModel) -> bool {
    match state {
        LoopStateModel::AwaitingLine => event is LineRead || event is ReadFailed
            || event is InputClosed,
        LoopStateModel::AwaitingInput => event is InputParsed || event is InputRejected,
        LoopStateModel::AwaitingHandler => event is HandlerReturned || event is HandlerPanicked,
        LoopStateModel::AwaitingOutputEncoding => event is Encoded || event is EncodeFailed,
        LoopStateModel::AwaitingReportEncoding(_) => event is Encoded || event is EncodeFailed,
        LoopStateModel::AwaitingWrite => event is Written || event is WriteFailed,
        LoopStateModel::Finished => false,
    }
}

/// The loop's transition: the next state and the next action after
/// `event` in `state`; an event that `state` does not accept ends the loop.
pub open spec fn next(state: LoopStateModel, event: LoopEventModel) -> (
    LoopStateModel,
    LoopActionModel,
) {
    match (state, event) {
        (LoopStateModel::AwaitingLine, LoopEventModel::LineRead(line)) => if line.len() == 0 {
            (LoopStateModel::AwaitingLine, LoopActionModel::ReadLine)
        } else {
            (LoopStateModel::AwaitingInput, LoopActionModel::ParseInput(line))
        },
        (LoopStateModel::AwaitingInput, LoopEventModel::InputParsed) => (
            LoopStateModel::AwaitingHandler,
            LoopActionModel::RunHandler,
        ),
        (LoopStateModel::AwaitingInput, LoopEventModel::InputRejected(e)) => (
            LoopStateModel::AwaitingReportEncoding(parse_error_message(e)),
            LoopActionModel::EncodeReport(parse_error_message(e)),
        ),
        (LoopStateModel::AwaitingHandler, LoopEventModel::HandlerReturned) => (
            LoopStateModel::AwaitingOutputEncoding,
            LoopActionModel::EncodeHandlerOutput,
        ),
        (LoopStateModel::AwaitingHandler, LoopEventModel::HandlerPanicked(payload)) => (
            LoopStateModel::AwaitingOutputEncoding,
            LoopActionModel::EncodeReport(panic_message(payload)),
        ),
        (LoopStateModel::AwaitingOutputEncoding, LoopEventModel::Encoded(json)) => (
            LoopStateModel::AwaitingWrite,
            LoopActionModel::WriteLine(json),
        ),
        (LoopStateModel::AwaitingOutputEncoding, LoopEventModel::EncodeFailed(e)) => (
            LoopStateModel::AwaitingWrite,
            LoopActionModel::WriteLine(error_line(encode_error_message(e))),
        ),
        (LoopStateModel::AwaitingReportEncoding(_), LoopEventModel::Encoded(json)) => (
            LoopStateModel::AwaitingWrite,
            LoopActionModel::WriteLine(json),
        ),
        (LoopStateModel::AwaitingReportEncoding(message), LoopEventModel::EncodeFailed(_)) => (
            LoopStateModel::AwaitingWrite,
            LoopActionModel::WriteLine(error_line(message)),
        ),
        (LoopStateModel::AwaitingWrite, LoopEventModel::Written) => (
            LoopStateModel::AwaitingLine,
            LoopActionModel::ReadLine,
        ),
        _ => (LoopStateModel::Finished, LoopActionModel::Stop),
    }
}

/// Joins two texts.
fn joined(prefix: &str, rest: &str) -> (r: String)
    ensures
        r@ == prefix@ + rest@,
{
    let mut r = String::from_str(prefix);
    r.append(rest);
    r
}

/// The JSON line that carries `message` as its only `error` field.
fn error_line_text(message: &str) -> (r: String)
    ensures
        r@ == error_line(message@),
{
    let mut r = String::from_str("{\"error\":\"");
    r.append(message);
    r.append("\"}");
    r
}

impl LoopState {
    /// Takes the outcome of the last piece of outside work and returns the
    /// next state and what to do next.  An outcome that the state does not
    /// wait for ends the loop.
    pub fn step(self, event: LoopEvent) -> (r: (LoopState, LoopAction))
        ensures
            (r.0@, r.1@) == next(self@, event@),
    {
        match (self, event) {
            (LoopState::AwaitingLine, LoopEvent::LineRead(line)) => {
                if line.as_str().unicode_len() == 0 {
                    (LoopState::AwaitingLine, LoopAction::ReadLine)
                } else {
                    (LoopState::AwaitingInput, LoopAction::ParseInput(line))
                }
            },
            (LoopState::AwaitingInput, LoopEvent::InputParsed) => (
                LoopState::AwaitingHandler,
                LoopAction::RunHandler,
            ),
            (LoopState::AwaitingInput, LoopEvent::InputRejected(e)) => {
                let message = joined("input parse error: ", e.as_str());
                let report = message.clone();
                (
                    LoopState::AwaitingReportEncoding { message },
                    LoopAction::EncodeReport(report),
                )
            },
            (LoopState::AwaitingHandler, LoopEvent::HandlerReturned) => (
                LoopState::AwaitingOutputEncoding,
                LoopAction::EncodeHandlerOutput,
            ),
            (LoopState::AwaitingHandler, LoopEvent::HandlerPanicked(payload)) => {
                let message = match payload {
                    Some(p) => joined("handler panicked: ", p.as_str()),
                    None => joined("handler panicked: ", "unknown panic"),
                };
                (LoopState::AwaitingOutputEncoding, LoopAction::EncodeReport(message))
            },
            (LoopState::AwaitingOutputEncoding, LoopEvent::Encoded(json)) => (
                LoopState::AwaitingWrite,
                LoopAction::WriteLine(json),
            ),
            (LoopState::AwaitingOutputEncoding, LoopEvent::EncodeFailed(e)) => {
                let message = joined("output serialise error: ", e.as_str());
                (LoopState::AwaitingWrite, LoopAction::WriteLine(error_line_text(message.as_str())))
            },
            (LoopState::AwaitingReportEncoding { .. }, LoopEvent::Encoded(json)) => (
                LoopState::AwaitingWrite,
                LoopAction::WriteLine(json),
            ),
            (LoopState::AwaitingReportEncoding { message }, LoopEvent::EncodeFailed(_)) => (
                LoopState::AwaitingWrite,
                LoopAction::WriteLine(error_line_text(message.as_str())),
            ),
            (LoopState::AwaitingWrite, LoopEvent::Written) => (
                LoopState::AwaitingLine,
                LoopAction::ReadLine,
            ),
            _ => (LoopState::Finished, LoopAction::Stop),
        }
    }
}

/// Whether a line has been read that still awaits its output line: 1 while
/// it is parsed, handled or serialised, 0 otherwise.
pub open spec fn in_flight(state: LoopStateModel) -> int {
    match state {
        LoopStateModel::AwaitingInput => 1,
        LoopStateModel::AwaitingHandler => 1,
        LoopStateModel::AwaitingOutputEncoding => 1,
        LoopStateModel::AwaitingReportEncoding(_) => 1,
        _ => 0,
    }
}

/// Every event is an outcome that the loop, started in `state`, waits for
/// when it comes.
pub open spec fn runs(state: LoopStateModel, events: Seq<LoopEventModel>) -> bool
    decreases events.len(),
{
    events.len() == 0 || (accepts(state, events[0]) && runs(
        next(state, events[0]).0,
        events.drop_first(),
    ))
}

/// State of the loop, started in `state`, after the events.
pub open spec fn state_after(state: LoopStateModel, events: Seq<LoopEventModel>) -> LoopStateModel
    decreases events.len(),
{
    if events.len() == 0 {
        state
    } else {
        state_after(next(state, events[0]).0, events.drop_first())
    }
}

/// Actions of the loop, started in `state`, one per event.
pub open spec fn actions_after(state: LoopStateModel, events: Seq<LoopEventModel>) -> Seq<
    LoopActionModel,
>
    decreases events.len(),
{
    if events.len() == 0 {
        Seq::empty()
    } else {
        seq![next(state, events[0]).1] + actions_after(next(state, events[0]).0, events.drop_first())
    }
}

/// Number of output lines among the actions.
pub open spec fn writes(actions: Seq<LoopActionModel>) -> int
    decreases actions.len(),
{
    if actions.len() == 0 {
        0
    } else {
        (if actions[0] is WriteLine {
            1int
        } else {
            0int
        }) + writes(actions.drop_first())
    }
}

/// Number of non-empty input lines among the events.
pub open spec fn lines(events: Seq<LoopEventModel>) -> int
    decreases events.len(),
{
    if events.len() == 0 {
        0
    } else {
        (if events[0] matches LoopEventModel::LineRead(l) && l.len() > 0 {
            1int
        } else {
            0int
        }) + lines(events.drop_first())
    }
}

/// One step keeps the balance of lines read and lines written.
proof fn lemma_step_balance(state: LoopStateModel, event: LoopEventModel)
    requires
        accepts(state, event),
    ensures
        (if next(state, event).1 is WriteLine {
            1int
        } else {
            0int
        }) + in_flight(next(state, event).0) == in_flight(state) + (if event matches LoopEventModel::LineRead(l)
            && l.len() > 0 {
            1int
        } else {
            0int
        }),
{
}

/// Over any run of the loop, the output lines written plus the line still in
/// flight at the end balance the line in flight at the start plus the
/// non-empty lines read.
pub proof fn lemma_run_balance(state: LoopStateModel, events: Seq<LoopEventModel>)
    requires
        runs(state, events),
    ensures
        writes(actions_after(state, events)) + in_flight(state_after(state, events)) == in_flight(
            state,
        ) + lines(events),
    decreases events.len(),
{
    if events.len() > 0 {
        let (s1, a) = next(state, events[0]);
        lemma_step_balance(state, events[0]);
        lemma_run_balance(s1, events.drop_first());
        let rest = actions_after(s1, events.drop_first());
        assert((seq![a] + rest).drop_first() =~= rest);
    }
}

/// Every non-empty input line is answered by exactly one output line: a run
/// of the loop from its start that has no line in flight at its end wrote as
/// many lines as it read non-empty lines.
pub proof fn lemma_one_output_line_per_input_line(events: Seq<LoopEventModel>)
    requires
        runs(LoopStateModel::AwaitingLine, events),
        in_flight(state_after(LoopStateModel::AwaitingLine, events)) == 0,
    ensures
        writes(actions_after(LoopStateModel::AwaitingLine, events)) == lines(events),
{
    lemma_run_balance(LoopStateModel::AwaitingLine, events);
}

/// The loop reads the next line only when no line is in flight: after an
/// empty line, or once the answer to the last line was written.
pub proof fn lemma_read_only_when_answered(state: LoopStateModel, event: LoopEventModel)
    requires
        accepts(state, event),
        next(state, event).1 is ReadLine,
    ensures
        in_flight(state) == 0,
        event is Written || event == LoopEventModel::LineRead(Seq::empty()),
{
    if let LoopEventModel::LineRead(l) = event {
        assert(l =~= Seq::<char>::empty());
    }
}

/// The loop stops exactly when the input is closed, a read fails or a write
/// fails, and once stopped it takes no further event.
pub proof fn lemma_stops_exactly_on_end_or_io_failure(state: LoopStateModel, event: LoopEventModel)
    requires
        accepts(state, event),
    ensures
        (next(state, event).1 is Stop) <==> (event is InputClosed || event is ReadFailed
            || event is WriteFailed),
        (next(state, event).0 is Finished) <==> (next(state, event).1 is Stop),
        forall|e: LoopEventModel| !accepts(LoopStateModel::Finished, e),
{
}

/// Every non-empty line that is read goes, unchanged, to the input parser;
/// an empty line is skipped and the next line is read.
pub proof fn lemma_every_nonempty_line_is_parsed(line: Seq<char>)
    ensures
        line.len() > 0 ==> next(LoopStateModel::AwaitingLine, LoopEventModel::LineRead(line)) == (
            LoopStateModel::AwaitingInput,
            LoopActionModel::ParseInput(line),
        ),
        line.len() == 0 ==> next(LoopStateModel::AwaitingLine, LoopEventModel::LineRead(line)) == (
            LoopStateModel::AwaitingLine,
            LoopActionModel::ReadLine,
        ),
{
}

/// A parsed input goes to the handler, the handler's output is serialised,
/// the serialised text is written unchanged, and once it is written the next
/// line is read.
pub proof fn lemma_parsed_input_is_handled_and_answered(json: Seq<char>)
    ensures
        next(LoopStateModel::AwaitingInput, LoopEventModel::InputParsed) == (
            LoopStateModel::AwaitingHandler,
            LoopActionModel::RunHandler,
        ),
        next(LoopStateModel::AwaitingHandler, LoopEventModel::HandlerReturned) == (
            LoopStateModel::AwaitingOutputEncoding,
            LoopActionModel::EncodeHandlerOutput,
        ),
        next(LoopStateModel::AwaitingOutputEncoding, LoopEventModel::Encoded(json)) == (
            LoopStateModel::AwaitingWrite,
            LoopActionModel::WriteLine(json),
        ),
        next(LoopStateModel::AwaitingWrite, LoopEventModel::Written) == (
            LoopStateModel::AwaitingLine,
            LoopActionModel::ReadLine,
        ),
{
}

/// A line that does not parse is answered by an output whose error text is
/// `input parse error: ` and the parser's message; if that output cannot be
/// serialised, the line `{"error":"input parse error: <message>"}` is
/// written instead.
pub proof fn lemma_parse_error_is_reported(detail: Seq<char>, json: Seq<char>, failure: Seq<char>)
    ensures
        next(LoopStateModel::AwaitingInput, LoopEventModel::InputRejected(detail)) == (
            LoopStateModel::AwaitingReportEncoding("input parse error: "@ + detail),
            LoopActionModel::EncodeReport("input parse error: "@ + detail),
        ),
        next(
            LoopStateModel::AwaitingReportEncoding("input parse error: "@ + detail),
            LoopEventModel::Encoded(json),
        ) == (LoopStateModel::AwaitingWrite, LoopActionModel::WriteLine(json)),
        next(
            LoopStateModel::AwaitingReportEncoding("input parse error: "@ + detail),
            LoopEventModel::EncodeFailed(failure),
        ) == (
            LoopStateModel::AwaitingWrite,
            LoopActionModel::WriteLine(
                "{\"error\":\""@ + ("input parse error: "@ + detail) + "\"}"@,
            ),
        ),
{
}

/// A handler panic is answered by an output whose error text is
/// `handler panicked: ` and the panic's message, or `unknown panic` where it
/// had none; that output is serialised like the handler's own.
pub proof fn lemma_panic_is_reported(payload: Seq<char>)
    ensures
        next(LoopStateModel::AwaitingHandler, LoopEventModel::HandlerPanicked(Some(payload))) == (
            LoopStateModel::AwaitingOutputEncoding,
            LoopActionModel::EncodeReport("handler panicked: "@ + payload),
        ),
        next(LoopStateModel::AwaitingHandler, LoopEventModel::HandlerPanicked(None)) == (
            LoopStateModel::AwaitingOutputEncoding,
            LoopActionModel::EncodeReport("handler panicked: "@ + "unknown panic"@),
        ),
{
}

/// An output that cannot be serialised is answered by the line
/// `{"error":"output serialise error: <message>"}`.
pub proof fn lemma_encode_failure_is_reported(failure: Seq<char>)
    ensures
        next(LoopStateModel::AwaitingOutputEncoding, LoopEventModel::EncodeFailed(failure)) == (
            LoopStateModel::AwaitingWrite,
            LoopActionModel::WriteLine(
                "{\"error\":\""@ + ("output serialise error: "@ + failure) + "\"}"@,
            ),
        ),
{
}

/// The loop ends when the input is closed, a read fails or a write fails.
pub proof fn lemma_end_and_failures_stop()
    ensures
        next(LoopStateModel::AwaitingLine, LoopEventModel::InputClosed) == (
            LoopStateModel::Finished,
            LoopActionModel::Stop,
        ),
        next(LoopStateModel::AwaitingLine, LoopEventModel::ReadFailed) == (
            LoopStateModel::Finished,
            LoopActionModel::Stop,
        ),
        next(LoopStateModel::AwaitingWrite, LoopEventModel::WriteFailed) == (
            LoopStateModel::Finished,
            LoopActionModel::Stop,
        ),
{
}

} // verus!
