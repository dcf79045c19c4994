//! The event listener: a single long-lived unit of concurrency per session.
//!
//! After a startup grace wait it makes one connection attempt to the
//! session's endpoint, emits one subscribe request per observed property,
//! then reads notification lines until the stream ends.  Every decision of
//! that lifecycle is the verified step function here; the shell performs the
//! blocking wait, connect, write, read and sink delivery between steps.
//! A failed connection, a dead stream or a failed delivery terminates the
//! listener for good — there is deliberately no retry.

use vstd::prelude::*;
use vstd::string::{StringExecFns, StrSliceExecFns};
use crate::numeral::{signed_dec, dec_digits, digit_char, u64_to_dec, lemma_digit_char_injective};

verus! {

broadcast use vstd::seq::group_seq_axioms;

/// A structured event parsed from one notification line.
#[derive(Clone, Debug)]
pub struct MpvEvent {
    /// The engine's event kind: the line's `event` field.
    pub event_type: String,
    /// The changed property's name, when the line carries a `name` field.
    pub name: Option<String>,
    /// The associated value as JSON text, when the line carries `data`.
    pub data: Option<String>,
}

/// What parsing one notification line yields: a structured event for a JSON
/// object carrying an `event` field, nothing for any other line.
pub uninterp spec fn parsed_event(line: Seq<char>) -> Option<MpvEvent>;

/// Relies on serde_json for the inbound line grammar: `from_str` parses the
/// line into a `Value`; `Value::get` and `Value::as_str` read the `event`
/// and `name` fields; `Value::to_string` renders the `data` field back to
/// JSON text.  The outcome depends on the line's characters alone.
#[verifier::external_body]
fn parse_event_line(line: &str) -> (r: Option<MpvEvent>)
    ensures
        r == parsed_event(line@),
{
    let value: serde_json::Value = match serde_json::from_str(line) {
        Ok(v) => v,
        Err(_) => return None,
    };
    let event_type = match value.get("event").and_then(|v| v.as_str()) {
        Some(s) => s.to_string(),
        None => return None,
    };
    let name = value.get("name").and_then(|v| v.as_str()).map(String::from);
    let data = value.get("data").map(|v| v.to_string());
    Some(MpvEvent { event_type, name, data })
}

/// The fixed, ordered set of properties the listener subscribes to.
pub open spec fn observed_property(i: int) -> Seq<char> {
    if i == 0 {
        "playlist"@
    } else if i == 1 {
        "filename"@
    } else if i == 2 {
        "pause"@
    } else if i == 3 {
        "eof-reached"@
    } else if i == 4 {
        "time-pos"@
    } else if i == 5 {
        "duration"@
    } else {
        "volume"@
    }
}

/// The observed properties, in their fixed subscription order.
pub fn observed_properties() -> (props: Vec<&'static str>)
    ensures
        props@.len() == 7,
        forall|i: int| 0 <= i < 7 ==> props@[i]@ == observed_property(i),
{
    let mut props: Vec<&'static str> = Vec::new();
    props.push("playlist");
    props.push("filename");
    props.push("pause");
    props.push("eof-reached");
    props.push("time-pos");
    props.push("duration");
    props.push("volume");
    proof {
        assert forall|i: int| 0 <= i < 7 implies props@[i]@ == observed_property(i) by {
            assert(props@[0]@ == observed_property(0));
            assert(props@[1]@ == observed_property(1));
            assert(props@[2]@ == observed_property(2));
            assert(props@[3]@ == observed_property(3));
            assert(props@[4]@ == observed_property(4));
            assert(props@[5]@ == observed_property(5));
            assert(props@[6]@ == observed_property(6));
        }
    }
    props
}

/// The subscribe request for one property: the observe line carrying the
/// property's 1-based subscription identifier and its name.
pub open spec fn observe_line(id: int, prop: Seq<char>) -> Seq<char> {
    "{\"command\": [\"observe_property\", "@ + signed_dec(id) + ", \""@ + prop + "\"]}"@
}

/// The subscribe requests, one per observed property, in the fixed order,
/// each carrying that property's 1-based subscription identifier.
pub fn observe_commands() -> (cmds: Vec<String>)
    ensures
        cmds@.len() == 7,
        forall|i: int| 0 <= i < 7 ==> cmds@[i]@ == observe_line(i + 1, observed_property(i)),
{
    let props = observed_properties();
    let mut cmds: Vec<String> = Vec::new();
    let mut i: usize = 0;
    while i < 7
        invariant
            props@.len() == 7,
            forall|j: int| 0 <= j < 7 ==> props@[j]@ == observed_property(j),
            i <= 7,
            cmds@.len() == i,
            forall|j: int| 0 <= j < i ==> cmds@[j]@ == observe_line(j + 1, observed_property(j)),
        decreases 7 - i,
    {
        let mut s = String::from_str("{\"command\": [\"observe_property\", ");
        let id_digits = u64_to_dec((i as u64) + 1);
        s.append(id_digits.as_str());
        s.append(", \"");
        s.append(props[i]);
        s.append("\"]}");
        proof {
            assert(signed_dec(i + 1) == dec_digits((i + 1) as nat));
        }
        cmds.push(s);
        i = i + 1;
    }
    cmds
}

/// Two positions in the observed-property set never share a subscribe
/// request: the identifiers differ, so the observe lines themselves differ.
pub proof fn lemma_observe_lines_distinct(i: int, j: int)
    requires
        0 <= i < 7,
        0 <= j < 7,
        i != j,
    ensures
        observe_line(i + 1, observed_property(i)) != observe_line(j + 1, observed_property(j)),
{
    let p = "{\"command\": [\"observe_property\", "@;
    let li = observe_line(i + 1, observed_property(i));
    let lj = observe_line(j + 1, observed_property(j));
    assert(signed_dec(i + 1) == seq![digit_char(i + 1)]);
    assert(signed_dec(j + 1) == seq![digit_char(j + 1)]);
    let k = p.len() as int;
    assert((p + signed_dec(i + 1))[k] == digit_char(i + 1));
    assert((p + signed_dec(j + 1))[k] == digit_char(j + 1));
    assert(li[k] == digit_char(i + 1));
    assert(lj[k] == digit_char(j + 1));
    if digit_char(i + 1) == digit_char(j + 1) {
        lemma_digit_char_injective(i + 1, j + 1);
        assert(false);
    }
}

/// The listener's lifecycle states.
#[derive(Clone, Copy, Debug, PartialEq, Eq, Structural)]
pub enum ListenerState {
    /// Waiting out the engine's startup latency before connecting.
    StartupDelay,
    /// About to make the single connection attempt.
    Connecting,
    /// Connected; the subscribe requests are being written.
    Subscribing,
    /// Reading notification lines.
    Listening,
    /// Finished for this session; never restarted.
    Terminated,
}

/// What the shell reports back to the listener between steps.
#[derive(Debug)]
pub enum ListenerInput {
    /// The startup grace wait has elapsed.
    Waited,
    /// The transport connection to the endpoint succeeded.
    Connected,
    /// The single connection attempt failed.
    ConnectFailed,
    /// The subscribe lines were written, fire-and-forget.
    SubscribesSent,
    /// One line was read from the notification stream.
    Line(String),
    /// The notification stream ended.
    StreamEnded,
    /// Reading from the stream failed unrecoverably.
    ReadFailed,
    /// The last forwarded event reached the sink.
    Delivered,
    /// The sink could not accept the event.
    DeliveryFailed,
}

/// What the shell must do after a step.
#[derive(Debug)]
pub enum ListenerAction {
    /// Wait briefly for the engine to create its endpoint.
    Wait,
    /// Attempt the single transport connection.
    Connect,
    /// Write the given subscribe lines, without checking them individually.
    Subscribe(Vec<String>),
    /// Block for the next notification line.
    ReadLine,
    /// Forward one structured event to the event sink.
    Forward(MpvEvent),
    /// Stop: the listener is finished for this session.
    Stop,
}

/// Where a freshly started listener begins: waiting out startup latency.
pub fn listener_start() -> (r: (ListenerState, ListenerAction))
    ensures
        r.0 == ListenerState::StartupDelay,
        r.1 is Wait,
{
    (ListenerState::StartupDelay, ListenerAction::Wait)
}

/// One step of the listener: the next state, and the action the shell must
/// perform.  A parsable line with an `event` field is forwarded; any other
/// line is dropped and reading continues; connect, read and delivery
/// failures — and the end of the stream — terminate the listener for good.
pub fn listener_step(state: ListenerState, input: ListenerInput) -> (r: (
    ListenerState,
    ListenerAction,
))
    ensures
        (match state {
            ListenerState::StartupDelay => (match input {
                ListenerInput::Waited => r.0 == ListenerState::Connecting && r.1 is Connect,
                _ => r.0 == ListenerState::Terminated && r.1 is Stop,
            }),
            ListenerState::Connecting => (match input {
                ListenerInput::Connected => r.0 == ListenerState::Subscribing && (r.1 matches
                ListenerAction::Subscribe(cmds) && cmds@.len() == 7 && (forall|i: int|
                    0 <= i < 7 ==> cmds@[i]@ == observe_line(i + 1, observed_property(i)))),
                _ => r.0 == ListenerState::Terminated && r.1 is Stop,
            }),
            ListenerState::Subscribing => (match input {
                ListenerInput::SubscribesSent => r.0 == ListenerState::Listening && r.1
                    is ReadLine,
                _ => r.0 == ListenerState::Terminated && r.1 is Stop,
            }),
            ListenerState::Listening => (match input {
                ListenerInput::Line(l) => (match parsed_event(l@) {
                    Some(ev) => r.0 == ListenerState::Listening && (r.1 matches
                    ListenerAction::Forward(e) && e == ev),
                    None => r.0 == ListenerState::Listening && r.1 is ReadLine,
                }),
                ListenerInput::Delivered => r.0 == ListenerState::Listening && r.1 is ReadLine,
                _ => r.0 == ListenerState::Terminated && r.1 is Stop,
            }),
            ListenerState::Terminated => r.0 == ListenerState::Terminated && r.1 is Stop,
        }),
{
    match (state, input) {
        (ListenerState::StartupDelay, ListenerInput::Waited) => (
            ListenerState::Connecting,
            ListenerAction::Connect,
        ),
        (ListenerState::Connecting, ListenerInput::Connected) => (
            ListenerState::Subscribing,
            ListenerAction::Subscribe(observe_commands()),
        ),
        (ListenerState::Subscribing, ListenerInput::SubscribesSent) => (
            ListenerState::Listening,
            ListenerAction::ReadLine,
        ),
        (ListenerState::Listening, ListenerInput::Line(l)) => {
            match parse_event_line(l.as_str()) {
                Some(ev) => (ListenerState::Listening, ListenerAction::Forward(ev)),
                None => (ListenerState::Listening, ListenerAction::ReadLine),
            }
        },
        (ListenerState::Listening, ListenerInput::Delivered) => (
            ListenerState::Listening,
            ListenerAction::ReadLine,
        ),
        _ => (ListenerState::Terminated, ListenerAction::Stop),
    }
}

} // verus!
