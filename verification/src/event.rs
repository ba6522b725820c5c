//! The event classifier: maps one inbound structured frame to one lifecycle
//! event of the closed set {started, progress, finished, failed,
//! unrecognized}.
//!
//! The classification key is the `event` string under the frame's `header`
//! object; a failed event optionally carries an `error_message` there. The
//! frame text is parsed with an outside JSON crate behind trusted wrappers;
//! the classification of the extracted fields is verified and exact.

use vstd::prelude::*;

verus! {

/// The variant of a lifecycle event, without its payload.
#[derive(PartialEq, Eq, Structural, Clone, Copy, Debug)]
pub enum EventKind {
    Started,
    Progress,
    Finished,
    Failed,
    Unrecognized,
}

/// One server-sent lifecycle event. A failed event carries the server's
/// error description, or the fixed unknown-reason sentinel when the frame
/// held none.
#[derive(Debug)]
pub enum LifecycleEvent {
    /// The server accepts input from now on.
    Started,
    /// Informational progress; no control-flow effect.
    Progress,
    /// Terminal: the task completed.
    Finished,
    /// Terminal: the server reported the task as failed.
    Failed { reason: String },
    /// An event string outside the known set; non-terminal.
    Unrecognized,
}

impl LifecycleEvent {
    /// The variant of this event.
    pub open spec fn kind(&self) -> EventKind {
        match self {
            LifecycleEvent::Started => EventKind::Started,
            LifecycleEvent::Progress => EventKind::Progress,
            LifecycleEvent::Finished => EventKind::Finished,
            LifecycleEvent::Failed { .. } => EventKind::Failed,
            LifecycleEvent::Unrecognized => EventKind::Unrecognized,
        }
    }

    /// Whether this event ends the session.
    pub open spec fn spec_is_terminal(&self) -> bool {
        self.kind() == EventKind::Finished || self.kind() == EventKind::Failed
    }

    /// Whether this event ends the session.
    pub fn is_terminal(&self) -> (r: bool)
        ensures
            r == self.spec_is_terminal(),
    {
        match self {
            LifecycleEvent::Finished => true,
            LifecycleEvent::Failed { .. } => true,
            _ => false,
        }
    }
}

/// A structured frame that could not be parsed; local and non-fatal.
#[derive(PartialEq, Eq, Structural, Clone, Copy, Debug)]
pub enum DecodeError {
    Malformed,
}

/// The variant that a given classification key maps to. Total: every key —
/// present or absent — maps to exactly one variant.
pub open spec fn spec_event_kind(name: Option<Seq<char>>) -> EventKind {
    match name {
        Some(n) => if n == "task-started"@ {
            EventKind::Started
        } else if n == "result-generated"@ {
            EventKind::Progress
        } else if n == "task-finished"@ {
            EventKind::Finished
        } else if n == "task-failed"@ {
            EventKind::Failed
        } else {
            EventKind::Unrecognized
        },
        None => EventKind::Unrecognized,
    }
}

/// The failure description surfaced for a failed event: the frame's own
/// description when present, the fixed sentinel otherwise.
pub open spec fn spec_failure_reason(error_message: Option<Seq<char>>) -> Seq<char> {
    match error_message {
        Some(m) => m,
        None => "Unknown error"@,
    }
}

/// Classifies the fields extracted from one structured frame. Pure and
/// total: every input maps to exactly one event, and a failed event carries
/// exactly the description the frame held, or the sentinel when it held
/// none.
pub fn classify(event_name: Option<String>, error_message: Option<String>) -> (e: LifecycleEvent)
    ensures
        e.kind() == spec_event_kind(event_name.deep_view()),
        e matches LifecycleEvent::Failed { reason } ==> reason@ == spec_failure_reason(
            error_message.deep_view(),
        ),
{
    match event_name {
        Some(n) => {
            if n == String::from_str("task-started") {
                LifecycleEvent::Started
            } else if n == String::from_str("result-generated") {
                LifecycleEvent::Progress
            } else if n == String::from_str("task-finished") {
                LifecycleEvent::Finished
            } else if n == String::from_str("task-failed") {
                match error_message {
                    Some(m) => LifecycleEvent::Failed { reason: m },
                    None => LifecycleEvent::Failed { reason: String::from_str("Unknown error") },
                }
            } else {
                LifecycleEvent::Unrecognized
            }
        },
        None => LifecycleEvent::Unrecognized,
    }
}

#[verifier::external_type_specification]
#[verifier::external_body]
pub struct ExValue(serde_json::Value);

/// Whether `serde_json` accepts a text as one well-formed JSON document; a
/// function of the text alone.
pub uninterp spec fn json_wellformed(s: Seq<char>) -> bool;

/// Relies on `serde_json::from_str`: returns `Ok` exactly when the text is
/// one well-formed JSON document, and then its parsed form.
#[verifier::external_body]
fn parse_json(s: &str) -> (r: Option<serde_json::Value>)
    ensures
        r is Some <==> json_wellformed(s@),
{
    serde_json::from_str::<serde_json::Value>(s).ok()
}

/// Relies on `serde_json::Value::get`: for an object, the member under the
/// given key; `None` for a missing key or a non-object.
#[verifier::external_body]
fn json_member<'a>(v: &'a serde_json::Value, key: &str) -> (r: Option<&'a serde_json::Value>) {
    v.get(key)
}

/// Relies on `serde_json::Value::as_str`: `Some` exactly for a string
/// value; the string is handed back owned.
#[verifier::external_body]
fn json_string_value(v: &serde_json::Value) -> (r: Option<String>) {
    match v.as_str() {
        Some(s) => Some(s.to_string()),
        None => None,
    }
}

/// Decodes one structured frame: parses the text, extracts the
/// classification key and optional error description under `header`, and
/// classifies them. Fails exactly on text that is not well-formed JSON;
/// every well-formed frame — whatever its shape — yields exactly one event.
pub fn decode_frame(text: &str) -> (r: Result<LifecycleEvent, DecodeError>)
    ensures
        r is Err <==> !json_wellformed(text@),
        r matches Err(e) ==> e == DecodeError::Malformed,
{
    match parse_json(text) {
        None => Err(DecodeError::Malformed),
        Some(v) => {
            let header = json_member(&v, "header");
            let event_name = match header {
                Some(h) => match json_member(h, "event") {
                    Some(ev) => json_string_value(ev),
                    None => None,
                },
                None => None,
            };
            let error_message = match header {
                Some(h) => match json_member(h, "error_message") {
                    Some(em) => json_string_value(em),
                    None => None,
                },
                None => None,
            };
            Ok(classify(event_name, error_message))
        },
    }
}

} // verus!
