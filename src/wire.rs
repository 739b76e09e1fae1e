//! Text frames sent to the mobile device, the connection URI, the SQL
//! placeholder lists and the listening-port rules.

use vstd::prelude::*;
use crate::text::{chars_of, decimal, push_chars, push_decimal, push_signed, push_str, signed_decimal, string_of};

verus! {

/// Acknowledgment code of a successful exchange.
pub const ACK_OK: i32 = 3;

/// Acknowledgment code of a failed ingestion.
pub const ACK_FAILED: i32 = 1;

/// Lowest port a session listens on.
pub const PORT_MIN: u16 = 1025;

/// Highest port a session listens on (the topmost value is kept out).
pub const PORT_MAX: u16 = 65534;

/// The port rule: unprivileged, below the topmost value.
pub open spec fn port_ok(port: int) -> bool {
    PORT_MIN <= port <= PORT_MAX
}

/// `?, ?, ..., ?` with `n` marks.
pub open spec fn placeholders(n: nat) -> Seq<char>
    decreases n,
{
    if n == 0 {
        Seq::empty()
    } else if n == 1 {
        seq!['?']
    } else {
        placeholders((n - 1) as nat) + seq![',', ' ', '?']
    }
}

/// The event query for `n` identifiers.
pub open spec fn events_query(n: nat) -> Seq<char> {
    if n == 0 {
        "SELECT * FROM event WHERE 1=0"@
    } else {
        "SELECT id, name, description, date_debut, date_fin, statut, geometry FROM event WHERE id IN ("@
            + placeholders(n) + ")"@
    }
}

/// The WebSocket URI of a host, a port and a path.
pub open spec fn websocket_uri(host: Seq<char>, port: nat, path: Seq<char>) -> Seq<char> {
    "ws://"@ + host + ":"@ + decimal(port) + path
}

/// The flat error object `{"error":true,"code":..,"message":".."}`.
pub open spec fn error_message_text(code: int, description: Seq<char>) -> Seq<char> {
    "{\"error\":true,\"code\":"@ + signed_decimal(code) + ",\"message\":\""@ + description
        + "\"}"@
}

/// A lower-case hexadecimal digit, for `d < 16`.
pub open spec fn hex_digit_char(d: nat) -> char {
    if d < 10 {
        crate::text::digit_char(d)
    } else if d == 10 {
        'a'
    } else if d == 11 {
        'b'
    } else if d == 12 {
        'c'
    } else if d == 13 {
        'd'
    } else if d == 14 {
        'e'
    } else {
        'f'
    }
}

/// How one character is written inside a JSON string: quote and backslash
/// escaped, the short escapes for backspace, tab, newline, form feed and
/// carriage return, `\u00xx` for the other control characters, any other
/// character as it is.
pub open spec fn json_char_escape(c: char) -> Seq<char> {
    if c == '"' {
        seq!['\\', '"']
    } else if c == '\\' {
        seq!['\\', '\\']
    } else if c == '\u{8}' {
        seq!['\\', 'b']
    } else if c == '\t' {
        seq!['\\', 't']
    } else if c == '\n' {
        seq!['\\', 'n']
    } else if c == '\u{c}' {
        seq!['\\', 'f']
    } else if c == '\r' {
        seq!['\\', 'r']
    } else if (c as u32) < 0x20 {
        seq![
            '\\',
            'u',
            '0',
            '0',
            hex_digit_char(((c as u32) / 16) as nat),
            hex_digit_char(((c as u32) % 16) as nat),
        ]
    } else {
        seq![c]
    }
}

/// The escaped body of a JSON string holding `s`.
pub open spec fn json_escaped(s: Seq<char>) -> Seq<char>
    decreases s.len(),
{
    if s.len() == 0 {
        Seq::empty()
    } else {
        json_escaped(s.drop_last()) + json_char_escape(s.last())
    }
}

/// A JSON string literal (quotes and escapes included) holding `s`.
pub open spec fn json_string_literal(s: Seq<char>) -> Seq<char> {
    seq!['"'] + json_escaped(s) + seq!['"']
}

/// The flat acknowledgment object, given the message already written as a JSON string.
pub open spec fn ack_text(code: int, quoted_message: Seq<char>) -> Seq<char> {
    "{\"code\":"@ + signed_decimal(code) + ",\"message\":"@ + quoted_message + "}"@
}

/// Relies on `serde_json::to_string` for a `str`: the text between quotes,
/// escaped by serde_json's table (`ESCAPE` in its `ser.rs`). Serialising a
/// `str` cannot fail (no map keys, no custom impl).
#[verifier::external_body]
fn quote_json(s: &str) -> (r: String)
    ensures
        r@ == json_string_literal(s@),
{
    serde_json::to_string(s).unwrap_or_default()
}

/// Relies on `rand::Rng::random_range` over `rand::rng()`: a value drawn
/// from `[low, high)`; the range is not empty, so it does not panic.
#[verifier::external_body]
fn random_below(low: u16, high: u16) -> (r: u16)
    requires
        low < high,
    ensures
        low <= r < high,
{
    rand::Rng::random_range(&mut rand::rng(), low..high)
}

/// A random listening port in `[1025, 65534]`.
pub fn random_port() -> (port: u16)
    ensures
        port_ok(port as int),
{
    random_below(PORT_MIN, PORT_MAX + 1)
}

/// Whether a port obeys the port rule.
pub fn is_valid_port(port: u16) -> (r: bool)
    ensures
        r == port_ok(port as int),
{
    PORT_MIN <= port && port <= PORT_MAX
}

/// `count` SQL placeholders separated by `", "`.
pub fn generate_sql_placeholders(count: usize) -> (r: String)
    ensures
        r@ == placeholders(count as nat),
{
    let mut out: Vec<char> = Vec::new();
    let mut i: usize = 0;
    while i < count
        invariant
            i <= count,
            out@ == placeholders(i as nat),
        decreases count - i,
    {
        if i > 0 {
            out.push(',');
            out.push(' ');
        }
        out.push('?');
        i = i + 1;
        assert(out@ =~= placeholders(i as nat));
    }
    string_of(&out)
}

/// The query that selects the events with the given identifiers.
pub fn build_events_query(event_ids: &[i64]) -> (r: String)
    ensures
        r@ == events_query(event_ids@.len()),
{
    if event_ids.len() == 0 {
        return String::from_str("SELECT * FROM event WHERE 1=0");
    }
    let mut out = chars_of(
        "SELECT id, name, description, date_debut, date_fin, statut, geometry FROM event WHERE id IN (",
    );
    let marks = chars_of(generate_sql_placeholders(event_ids.len()).as_str());
    push_chars(&mut out, &marks);
    push_str(&mut out, ")");
    string_of(&out)
}

/// `ws://<host>:<port><path>`.
pub fn build_websocket_uri(host: &str, port: u16, path: &str) -> (r: String)
    ensures
        r@ == websocket_uri(host@, port as nat, path@),
{
    let mut out = chars_of("ws://");
    push_str(&mut out, host);
    push_str(&mut out, ":");
    push_decimal(&mut out, port as u64);
    push_str(&mut out, path);
    proof {
        assert(out@ =~= websocket_uri(host@, port as nat, path@));
    }
    string_of(&out)
}

/// The flat error object for a code and a description.
pub fn create_error_message(code: i32, description: &str) -> (r: String)
    ensures
        r@ == error_message_text(code as int, description@),
{
    let mut out = chars_of("{\"error\":true,\"code\":");
    push_signed(&mut out, code as i64);
    push_str(&mut out, ",\"message\":\"");
    push_str(&mut out, description);
    push_str(&mut out, "\"}");
    proof {
        assert(out@ =~= error_message_text(code as int, description@));
    }
    string_of(&out)
}

/// The acknowledgment object, from a message already written as a JSON string.
pub fn ack_with_quoted(code: i32, quoted_message: &str) -> (r: String)
    ensures
        r@ == ack_text(code as int, quoted_message@),
{
    let mut out = chars_of("{\"code\":");
    push_signed(&mut out, code as i64);
    push_str(&mut out, ",\"message\":");
    push_str(&mut out, quoted_message);
    push_str(&mut out, "}");
    proof {
        assert(out@ =~= ack_text(code as int, quoted_message@));
    }
    string_of(&out)
}

/// The acknowledgment object `{"code":..,"message":".."}`.
pub fn create_ack_response(code: i32, message: &str) -> (r: String)
    ensures
        r@ == ack_text(code as int, json_string_literal(message@)),
{
    let quoted = quote_json(message);
    ack_with_quoted(code, quoted.as_str())
}

/// Same as [`create_ack_response`].
pub fn serialize_ack_response(code: i32, message: &str) -> (r: String)
    ensures
        r@ == ack_text(code as int, json_string_literal(message@)),
{
    create_ack_response(code, message)
}

/// Why the server says goodbye; each reason has its own notice text.
#[derive(Debug, Clone, Copy, PartialEq, Eq, Structural)]
pub enum Farewell {
    /// The desktop side closed the session.
    ServerClosed,
    /// The mobile device asked to end the session.
    ConnectionEnded,
    /// The mobile export was stored; the session is over.
    DataReceived,
    /// The planning payload was delivered.
    PlanningSent,
}

/// The notice text of a goodbye.
pub open spec fn farewell_text(f: Farewell) -> Seq<char> {
    match f {
        Farewell::ServerClosed => "Serveur fermé"@,
        Farewell::ConnectionEnded => "Connexion terminée"@,
        Farewell::DataReceived => "Données reçues, connexion fermée"@,
        Farewell::PlanningSent => "Planning envoyé avec succès"@,
    }
}

/// `{"message":"..","type":"goodbye"}`.
pub open spec fn goodbye_text(f: Farewell) -> Seq<char> {
    "{\"message\":\""@ + farewell_text(f) + "\",\"type\":\"goodbye\"}"@
}

/// `{"eventCount":N,"message":"N événement(s) disponible(s)","type":"connected"}`.
pub open spec fn connected_text(n: nat) -> Seq<char> {
    "{\"eventCount\":"@ + decimal(n) + ",\"message\":\""@ + decimal(n)
        + " événement(s) disponible(s)\",\"type\":\"connected\"}"@
}

/// A `type`-tagged object carrying an already encoded JSON value under `key`.
pub open spec fn tagged_text(key: Seq<char>, value: Seq<char>, kind: Seq<char>) -> Seq<char> {
    "{\""@ + key + "\":"@ + value + ",\"type\":\""@ + kind + "\"}"@
}

/// The handshake of a receive-only session.
pub open spec fn ready_text(quoted_event_id: Seq<char>) -> Seq<char> {
    "{\"eventId\":"@ + quoted_event_id
        + ",\"message\":\"Prêt à recevoir les données\",\"type\":\"ready_to_receive\"}"@
}

fn farewell_str(f: Farewell) -> (r: &'static str)
    ensures
        r@ == farewell_text(f),
{
    match f {
        Farewell::ServerClosed => "Serveur fermé",
        Farewell::ConnectionEnded => "Connexion terminée",
        Farewell::DataReceived => "Données reçues, connexion fermée",
        Farewell::PlanningSent => "Planning envoyé avec succès",
    }
}

/// The goodbye frame for a reason.
pub fn goodbye_frame(f: Farewell) -> (r: String)
    ensures
        r@ == goodbye_text(f),
{
    let mut out = chars_of("{\"message\":\"");
    push_str(&mut out, farewell_str(f));
    push_str(&mut out, "\",\"type\":\"goodbye\"}");
    proof {
        assert(out@ =~= goodbye_text(f));
    }
    string_of(&out)
}

/// The handshake frame announcing how many events the session offers.
pub fn connected_frame(event_count: usize) -> (r: String)
    ensures
        r@ == connected_text(event_count as nat),
{
    let mut out = chars_of("{\"eventCount\":");
    push_decimal(&mut out, event_count as u64);
    push_str(&mut out, ",\"message\":\"");
    push_decimal(&mut out, event_count as u64);
    push_str(&mut out, " événement(s) disponible(s)\",\"type\":\"connected\"}");
    proof {
        assert(out@ =~= connected_text(event_count as nat));
    }
    string_of(&out)
}

fn tagged_frame(key: &str, value: &str, kind: &str) -> (r: String)
    ensures
        r@ == tagged_text(key@, value@, kind@),
{
    let mut out = chars_of("{\"");
    push_str(&mut out, key);
    push_str(&mut out, "\":");
    push_str(&mut out, value);
    push_str(&mut out, ",\"type\":\"");
    push_str(&mut out, kind);
    push_str(&mut out, "\"}");
    proof {
        assert(out@ =~= tagged_text(key@, value@, kind@));
    }
    string_of(&out)
}

/// The frame pushing one event, given the event encoded as JSON.
pub fn event_frame(event_json: &str) -> (r: String)
    ensures
        r@ == tagged_text("data"@, event_json@, "event"@),
{
    tagged_frame("data", event_json, "event")
}

/// The answer to `get_events`, given the event list encoded as JSON.
pub fn events_frame(events_json: &str) -> (r: String)
    ensures
        r@ == tagged_text("data"@, events_json@, "events"@),
{
    tagged_frame("data", events_json, "events")
}

/// The planning payload, given the planning list encoded as JSON.
pub fn planning_frame(actions_json: &str) -> (r: String)
    ensures
        r@ == tagged_text("actions"@, actions_json@, "planning_data"@),
{
    tagged_frame("actions", actions_json, "planning_data")
}

/// The handshake of a receive-only session for one event.
pub fn ready_frame(event_id: &str) -> (r: String)
    ensures
        r@ == ready_text(json_string_literal(event_id@)),
{
    let quoted = quote_json(event_id);
    ready_with_quoted(quoted.as_str())
}

/// The handshake of a receive-only session, given the event id already
/// written as a JSON string.
pub fn ready_with_quoted(quoted_event_id: &str) -> (r: String)
    ensures
        r@ == ready_text(quoted_event_id@),
{
    let mut out = chars_of("{\"eventId\":");
    push_str(&mut out, quoted_event_id);
    push_str(&mut out, ",\"message\":\"Prêt à recevoir les données\",\"type\":\"ready_to_receive\"}");
    proof {
        assert(out@ =~= ready_text(quoted_event_id@));
    }
    string_of(&out)
}

/// `Event <id> reçu avec succès`.
pub open spec fn event_received_text(id: Seq<char>) -> Seq<char> {
    "Event "@ + id + " reçu avec succès"@
}

/// `Event '<name>' et <n> point(s) reçus avec succès`.
pub open spec fn export_received_text(name: Seq<char>, n: nat) -> Seq<char> {
    "Event '"@ + name + "' et "@ + decimal(n) + " point(s) reçus avec succès"@
}

/// `<n> point(s) reçus`.
pub open spec fn points_received_text(n: nat) -> Seq<char> {
    decimal(n) + " point(s) reçus"@
}

/// `<prefix><detail>`, the error texts of failed insertions.
pub open spec fn prefixed(prefix: Seq<char>, detail: Seq<char>) -> Seq<char> {
    prefix + detail
}

/// The acknowledgment of an event the mobile device confirmed.
pub fn event_ack_reply(event_id: &str) -> (r: String)
    ensures
        r@ == ack_text(ACK_OK as int, json_string_literal(event_received_text(event_id@))),
{
    let mut msg = chars_of("Event ");
    push_str(&mut msg, event_id);
    push_str(&mut msg, " reçu avec succès");
    proof {
        assert(msg@ =~= event_received_text(event_id@));
    }
    let text = string_of(&msg);
    create_ack_response(ACK_OK, text.as_str())
}

/// The acknowledgment of a stored mobile export.
pub fn export_success_reply(event_name: &str, point_count: usize) -> (r: String)
    ensures
        r@ == ack_text(
            ACK_OK as int,
            json_string_literal(export_received_text(event_name@, point_count as nat)),
        ),
{
    let mut msg = chars_of("Event '");
    push_str(&mut msg, event_name);
    push_str(&mut msg, "' et ");
    push_decimal(&mut msg, point_count as u64);
    push_str(&mut msg, " point(s) reçus avec succès");
    proof {
        assert(msg@ =~= export_received_text(event_name@, point_count as nat));
    }
    let text = string_of(&msg);
    create_ack_response(ACK_OK, text.as_str())
}

/// The acknowledgment of a receive-only session that stored `n` points.
pub fn points_received_reply(point_count: usize) -> (r: String)
    ensures
        r@ == ack_text(ACK_OK as int, json_string_literal(points_received_text(point_count as nat))),
{
    let mut msg: Vec<char> = Vec::new();
    push_decimal(&mut msg, point_count as u64);
    push_str(&mut msg, " point(s) reçus");
    let text = string_of(&msg);
    create_ack_response(ACK_OK, text.as_str())
}

fn prefixed_string(prefix: &str, detail: &str) -> (r: String)
    ensures
        r@ == prefixed(prefix@, detail@),
{
    let mut out = chars_of(prefix);
    push_str(&mut out, detail);
    string_of(&out)
}

/// The error acknowledgment of a failed ingestion, as the full session sends it.
pub fn ingest_error_reply(detail: &str) -> (r: String)
    ensures
        r@ == ack_text(
            ACK_FAILED as int,
            json_string_literal(prefixed("Erreur insertion points: "@, detail@)),
        ),
{
    let text = prefixed_string("Erreur insertion points: ", detail);
    create_ack_response(ACK_FAILED, text.as_str())
}

/// The error acknowledgment of a failed fetch of the session's events.
pub fn fetch_error_reply(detail: &str) -> (r: String)
    ensures
        r@ == ack_text(
            ACK_FAILED as int,
            json_string_literal(prefixed("Erreur récupération des événements: "@, detail@)),
        ),
{
    let text = prefixed_string("Erreur récupération des événements: ", detail);
    create_ack_response(ACK_FAILED, text.as_str())
}

/// The error acknowledgment of a failed ingestion, as the receive-only session sends it.
pub fn receive_error_reply(detail: &str) -> (r: String)
    ensures
        r@ == ack_text(ACK_FAILED as int, json_string_literal(prefixed("Erreur: "@, detail@))),
{
    let text = prefixed_string("Erreur: ", detail);
    create_ack_response(ACK_FAILED, text.as_str())
}

/// The plain-text outcome of a stored legacy point array.
pub fn legacy_success_text() -> (r: String)
    ensures
        r@ == "fini"@,
{
    String::from_str("fini")
}

/// The plain-text outcome of a failed legacy point array.
pub fn legacy_error_text(detail: &str) -> (r: String)
    ensures
        r@ == prefixed("erreur: "@, detail@),
{
    prefixed_string("erreur: ", detail)
}

} // verus!
