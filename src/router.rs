//! The response router's decisions: what becomes of each line that the child
//! process writes on its output.
//!
//! A line that holds a JSON value with an `id` field answers a request and is
//! delivered whole to whoever waits for responses. Any other value is a
//! notification, which is dropped or reported as the policy says. A line that
//! is no JSON value at all breaks the protocol and ends the router, as does
//! the end of the stream.
use vstd::prelude::*;
use crate::json::{decode_value, has_field, json_decoding, json_field};

verus! {

/// What the router does with notifications.
#[derive(Debug, Clone, Copy, PartialEq, Eq, Structural)]
pub enum NotificationPolicy {
    Drop,
    Forward,
}

/// An inbound line, decoded and classified.
pub enum Inbound {
    /// A value with an `id` field.
    Response(serde_json::Value),
    /// A value without one.
    Notification(serde_json::Value),
    /// Text that is no JSON value.
    Malformed,
}

/// The router's next move.
pub enum RouterAction {
    /// Hand the value to the response queue.
    Deliver(serde_json::Value),
    /// Pass the notification to the observer.
    Report(serde_json::Value),
    /// Read on.
    Skip,
    /// The line broke the protocol: stop reading.
    Fail,
    /// The stream has ended: stop reading.
    Stop,
}

/// How a line classifies.
pub open spec fn classified(line: Seq<char>) -> Inbound {
    match json_decoding(line) {
        None => Inbound::Malformed,
        Some(v) => if json_field(v, "id"@) is Some {
            Inbound::Response(v)
        } else {
            Inbound::Notification(v)
        },
    }
}

/// What the router does with the next read: `None` where the stream has
/// ended or could not be read.
pub open spec fn routed(line: Option<Seq<char>>, policy: NotificationPolicy) -> RouterAction {
    match line {
        None => RouterAction::Stop,
        Some(text) => match classified(text) {
            Inbound::Response(v) => RouterAction::Deliver(v),
            Inbound::Notification(v) => match policy {
                NotificationPolicy::Forward => RouterAction::Report(v),
                NotificationPolicy::Drop => RouterAction::Skip,
            },
            Inbound::Malformed => RouterAction::Fail,
        },
    }
}

/// Whether a decoded inbound frame carries a correlation id, and so answers a
/// request.
pub fn is_response(v: &serde_json::Value) -> (r: bool)
    ensures
        r == json_field(*v, "id"@) is Some,
{
    has_field(v, "id")
}

/// Decodes one line of the child's output and tells responses from
/// notifications.
pub fn classify_line(line: &str) -> (r: Inbound)
    ensures
        r == classified(line@),
{
    match decode_value(line) {
        Err(_) => Inbound::Malformed,
        Ok(v) => {
            if is_response(&v) {
                Inbound::Response(v)
            } else {
                Inbound::Notification(v)
            }
        },
    }
}

/// Decides what becomes of the next read from the child's output.
pub fn route(line: Option<&str>, policy: NotificationPolicy) -> (r: RouterAction)
    ensures
        r == routed(
            match line {
                Some(text) => Some(text@),
                None => None,
            },
            policy,
        ),
{
    match line {
        None => RouterAction::Stop,
        Some(text) => match classify_line(text) {
            Inbound::Response(v) => RouterAction::Deliver(v),
            Inbound::Notification(v) => match policy {
                NotificationPolicy::Forward => RouterAction::Report(v),
                NotificationPolicy::Drop => RouterAction::Skip,
            },
            Inbound::Malformed => RouterAction::Fail,
        },
    }
}

/// Every value that the router delivers carries an `id` field, and it is
/// the value that the line held, whole.
pub proof fn delivered_values_are_responses(line: Seq<char>, policy: NotificationPolicy, v: serde_json::Value)
    requires
        routed(Some(line), policy) == RouterAction::Deliver(v),
    ensures
        json_decoding(line) == Some(v),
        json_field(v, "id"@) is Some,
{
}

/// The router stops at a malformed line and at the end of the stream, and
/// at nothing else.
pub proof fn router_stops_only_at_end_or_malformed(line: Option<Seq<char>>, policy: NotificationPolicy)
    ensures
        (routed(line, policy) is Stop || routed(line, policy) is Fail) <==> (line is None || json_decoding(line->Some_0) is None),
{
}

} // verus!
