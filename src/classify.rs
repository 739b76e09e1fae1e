//! Classification of inbound frames, in the fixed priority order
//! client action > event acknowledgment > mobile export > legacy point array.

use vstd::prelude::*;
use crate::text::{has_key_seq, str_has_key, str_eq};

verus! {

/// The shape of an inbound text judged by the keys it holds.
#[derive(Debug, Clone, Copy, PartialEq, Eq, Structural)]
pub enum WebSocketMessageType {
    EventAck,
    ExportData,
    Action,
    Unknown,
}

/// The type a text is given by the keys it holds (a quoted word followed,
/// after optional whitespace, by `:`; the same word as a value does not
/// count): `"action"` first; then `"id"` with `"name"` and no `"points"`;
/// then `"event"` with `"points"`.
pub open spec fn message_type_of(s: Seq<char>) -> WebSocketMessageType {
    if has_key_seq(s, "\"action\""@) {
        WebSocketMessageType::Action
    } else if has_key_seq(s, "\"id\""@) && has_key_seq(s, "\"name\""@) && !has_key_seq(
        s,
        "\"points\""@,
    ) {
        WebSocketMessageType::EventAck
    } else if has_key_seq(s, "\"event\""@) && has_key_seq(s, "\"points\""@) {
        WebSocketMessageType::ExportData
    } else {
        WebSocketMessageType::Unknown
    }
}

/// The type of an inbound text, judged by the keys it holds.
pub fn identify_message_type(json_str: &str) -> (r: WebSocketMessageType)
    ensures
        r == message_type_of(json_str@),
{
    if str_has_key(json_str, "\"action\"") {
        WebSocketMessageType::Action
    } else if str_has_key(json_str, "\"id\"") && str_has_key(json_str, "\"name\"")
        && !str_has_key(json_str, "\"points\"") {
        WebSocketMessageType::EventAck
    } else if str_has_key(json_str, "\"event\"") && str_has_key(json_str, "\"points\"") {
        WebSocketMessageType::ExportData
    } else {
        WebSocketMessageType::Unknown
    }
}

/// Which structural decodes of one inbound text succeeded.
#[derive(Debug, Clone, Copy, PartialEq, Eq, Structural)]
pub struct DecodeAttempts {
    /// `{ "action": string }`
    pub as_action: bool,
    /// `{ "id", "name", ... }`
    pub as_event_ack: bool,
    /// `{ "event": {...}, "points": [...] }`
    pub as_mobile_export: bool,
    /// `[ point, ... ]`
    pub as_legacy_points: bool,
}

/// The variant an inbound text is dispatched as.
#[derive(Debug, Clone, Copy, PartialEq, Eq, Structural)]
pub enum InboundKind {
    ClientAction,
    EventAck,
    MobileExport,
    LegacyPointArray,
    Unrecognized,
}

/// The first decode, in priority order, that succeeded.
pub open spec fn kind_of(d: DecodeAttempts) -> InboundKind {
    if d.as_action {
        InboundKind::ClientAction
    } else if d.as_event_ack {
        InboundKind::EventAck
    } else if d.as_mobile_export {
        InboundKind::MobileExport
    } else if d.as_legacy_points {
        InboundKind::LegacyPointArray
    } else {
        InboundKind::Unrecognized
    }
}

/// Resolves an inbound text by the first successful decode in priority order;
/// a text that satisfies several shapes takes the highest one.
pub fn classify(d: DecodeAttempts) -> (r: InboundKind)
    ensures
        r == kind_of(d),
        d.as_action ==> r == InboundKind::ClientAction,
        !d.as_action && d.as_event_ack ==> r == InboundKind::EventAck,
        (r == InboundKind::Unrecognized) <==> !(d.as_action || d.as_event_ack
            || d.as_mobile_export || d.as_legacy_points),
{
    if d.as_action {
        InboundKind::ClientAction
    } else if d.as_event_ack {
        InboundKind::EventAck
    } else if d.as_mobile_export {
        InboundKind::MobileExport
    } else if d.as_legacy_points {
        InboundKind::LegacyPointArray
    } else {
        InboundKind::Unrecognized
    }
}

/// A client action, by its `action` value.
#[derive(Debug, Clone, Copy, PartialEq, Eq, Structural)]
pub enum ActionKind {
    GetEvents,
    Terminate,
    Other,
}

/// The recognised action values.
pub open spec fn action_kind_of(a: Seq<char>) -> ActionKind {
    if a == "get_events"@ {
        ActionKind::GetEvents
    } else if a == "terminate"@ {
        ActionKind::Terminate
    } else {
        ActionKind::Other
    }
}

/// Which action an `action` value asks for.
pub fn action_kind(action: &str) -> (r: ActionKind)
    ensures
        r == action_kind_of(action@),
{
    if str_eq(action, "get_events") {
        ActionKind::GetEvents
    } else if str_eq(action, "terminate") {
        ActionKind::Terminate
    } else {
        ActionKind::Other
    }
}

/// Whether a control-channel message asks the session to terminate.
pub fn is_terminate(control: &str) -> (r: bool)
    ensures
        r == (control@ == "terminate"@),
{
    str_eq(control, "terminate")
}

} // verus!
