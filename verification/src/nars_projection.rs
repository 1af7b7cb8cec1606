//! The NARS attach client's own logic: event endpoint parsing, the
//! WebSocket handshake accept value and framing, and the normalisation of
//! NARS events into the carrier session event vocabulary.
use vstd::prelude::*;
use crate::carrier_protocol::{SessionEvent, SessionEventKind, SessionEventView};
use crate::projection_state::TurnState;
use crate::carrier_protocol_contract::{protocol_schemas_session_event, session_event_schema};
use crate::json::{
    compact_text, copy_json, entries_get, entries_text, entries_view, entry_text, find_entry,
    get_text, merge_absent, object_entries, put_absent, put_if_absent, to_compact_text, Json,
    JsonNumber, JsonValue, NumberView, lemma_object_view,
};
use crate::text::{
    ascii_lower, decimal, replace_char, replace_char_exec, str_eq, to_ascii_lower, u64_decimal,
};
use crate::text::{
    chars_of, concat, find_char, string_of, first_index, is_blank, is_blank_str, last_index, owned,
    parse_unsigned, parse_unsigned_decimal, rfind_char, strip_prefix, substring, trim_str,
};

verus! {

/// Where a launch binding says the NARS event stream is.
#[derive(Debug, Clone, PartialEq, Eq)]
pub struct LaunchBindingResolution {
    pub event_endpoint: String,
    pub identity: Option<String>,
    pub session: Option<String>,
}

/// A parsed `ws://` event endpoint.
#[derive(Debug, Clone, PartialEq, Eq)]
pub struct WebSocketEndpoint {
    pub host: String,
    pub port: u16,
    pub path: String,
}

/// The mathematical form of an endpoint.
pub struct EndpointView {
    pub host: Seq<char>,
    pub port: u16,
    pub path: Seq<char>,
}

impl View for WebSocketEndpoint {
    type V = EndpointView;

    open spec fn view(&self) -> EndpointView {
        EndpointView { host: self.host@, port: self.port, path: self.path@ }
    }
}

/// Authority and path of what follows `ws://`: the path starts at the first
/// `/` and defaults to `/events`.
pub open spec fn split_authority(rem: Seq<char>) -> (Seq<char>, Seq<char>) {
    match first_index(rem, '/') {
        Some(i) => (rem.take(i), seq!['/'] + rem.skip(i + 1)),
        None => (rem, "/events"@),
    }
}

/// Host and port text of an authority: a bracketed host runs to the first `]`,
/// which a `:` must follow; otherwise the port follows the last `:`.
pub open spec fn split_host_port(authority: Seq<char>) -> Result<(Seq<char>, Seq<char>), Seq<char>> {
    if authority.len() > 0 && authority[0] == '[' {
        let rest = authority.drop_first();
        match first_index(rest, ']') {
            Some(j) => {
                let after = rest.skip(j + 1);
                if after.len() > 0 && after[0] == ':' {
                    Ok((rest.take(j), after.drop_first()))
                } else {
                    Err("nars_attach_endpoint_missing_port"@)
                }
            },
            None => Err("nars_attach_endpoint_invalid_host"@),
        }
    } else {
        match last_index(authority, ':') {
            Some(k) => Ok((authority.take(k), authority.skip(k + 1))),
            None => Err("nars_attach_endpoint_missing_port"@),
        }
    }
}

/// What parsing an event endpoint gives.
pub open spec fn endpoint_view(endpoint: Seq<char>) -> Result<EndpointView, Seq<char>> {
    if !"ws://"@.is_prefix_of(endpoint) {
        Err("nars_attach_requires_ws_endpoint"@)
    } else {
        let rem = endpoint.skip(5);
        if rem.len() == 0 {
            Err("nars_attach_endpoint_empty"@)
        } else {
            let (authority, path) = split_authority(rem);
            match split_host_port(authority) {
                Err(e) => Err(e),
                Ok((host, port_text)) => {
                    if is_blank(host) {
                        Err("nars_attach_endpoint_missing_host"@)
                    } else {
                        match parse_unsigned(port_text, 65535) {
                            Some(p) => if p == 0 {
                                Err("nars_attach_endpoint_invalid_port"@)
                            } else {
                                Ok(EndpointView { host, port: p as u16, path })
                            },
                            None => Err("nars_attach_endpoint_invalid_port"@),
                        }
                    }
                },
            }
        }
    }
}

pub open spec fn endpoint_result_view(r: Result<WebSocketEndpoint, String>) -> Result<EndpointView, Seq<char>> {
    match r {
        Ok(e) => Ok(e@),
        Err(m) => Err(m@),
    }
}

/// Parses a `ws://host:port/path` event endpoint.
pub fn parse_websocket_endpoint(endpoint: &str) -> (r: Result<WebSocketEndpoint, String>)
    ensures
        endpoint_result_view(r) == endpoint_view(endpoint@),
{
    proof {
        reveal_strlit("ws://");
    }
    let rem = match strip_prefix(endpoint, "ws://") {
        Some(rem) => rem,
        None => {
            return Err(owned("nars_attach_requires_ws_endpoint"));
        },
    };
    let rc = chars_of(rem.as_str());
    if rc.len() == 0 {
        return Err(owned("nars_attach_endpoint_empty"));
    }
    let (authority, path): (Vec<char>, String) = match find_char(&rc, '/') {
        Some(i) => {
            let a = crate::text::slice_range(&rc, 0, i);
            let tail = substring(&rc, i + 1, rc.len());
            let p = concat("/", tail.as_str());
            proof {
                reveal_strlit("/");
            }
            assert(p@ =~= seq!['/'] + rem@.skip(i + 1));
            assert(a@ =~= rem@.take(i as int));
            (a, p)
        },
        None => (rc, owned("/events")),
    };
    let ghost split = split_authority(rem@);
    assert(authority@ == split.0 && path@ == split.1);
    let (host, port_text): (String, String) = if authority.len() > 0 && authority[0] == '[' {
        let rest = crate::text::slice_from(&authority, 1);
        assert(rest@ =~= authority@.drop_first());
        match find_char(&rest, ']') {
            Some(j) => {
                if j + 1 < rest.len() && rest[j + 1] == ':' {
                    let h = substring(&rest, 0, j);
                    let pt = substring(&rest, j + 2, rest.len());
                    assert(h@ =~= rest@.take(j as int));
                    assert(pt@ =~= rest@.skip(j + 1).drop_first());
                    (h, pt)
                } else {
                    return Err(owned("nars_attach_endpoint_missing_port"));
                }
            },
            None => {
                return Err(owned("nars_attach_endpoint_invalid_host"));
            },
        }
    } else {
        match rfind_char(&authority, ':') {
            Some(k) => {
                let h = substring(&authority, 0, k);
                let pt = substring(&authority, k + 1, authority.len());
                assert(h@ =~= authority@.take(k as int));
                assert(pt@ =~= authority@.skip(k + 1));
                (h, pt)
            },
            None => {
                return Err(owned("nars_attach_endpoint_missing_port"));
            },
        }
    };
    if is_blank_str(host.as_str()) {
        return Err(owned("nars_attach_endpoint_missing_host"));
    }
    match parse_unsigned_decimal(port_text.as_str(), 65535) {
        Some(p) => {
            if p == 0 {
                return Err(owned("nars_attach_endpoint_invalid_port"));
            }
            Ok(WebSocketEndpoint { host, port: p as u16, path })
        },
        None => Err(owned("nars_attach_endpoint_invalid_port")),
    }
}

/// The standard base64 alphabet.
pub open spec fn b64_digit(i: u8) -> char {
    if i < 26 {
        (65 + i) as u8 as char
    } else if i < 52 {
        (97 + i - 26) as u8 as char
    } else if i < 62 {
        (48 + i - 52) as u8 as char
    } else if i == 62 {
        '+'
    } else {
        '/'
    }
}

/// Padded standard base64 of a byte string, three bytes to four characters.
pub open spec fn base64(b: Seq<u8>) -> Seq<char>
    decreases b.len(),
{
    if b.len() == 0 {
        seq![]
    } else if b.len() == 1 {
        seq![b64_digit(b[0] >> 2), b64_digit((b[0] & 3) << 4), '=', '=']
    } else if b.len() == 2 {
        seq![
            b64_digit(b[0] >> 2),
            b64_digit(((b[0] & 3) << 4) | (b[1] >> 4)),
            b64_digit((b[1] & 15) << 2),
            '=',
        ]
    } else {
        seq![
            b64_digit(b[0] >> 2),
            b64_digit(((b[0] & 3) << 4) | (b[1] >> 4)),
            b64_digit(((b[1] & 15) << 2) | (b[2] >> 6)),
            b64_digit(b[2] & 63),
        ] + base64(b.skip(3))
    }
}

fn b64_char(i: u8) -> (c: char)
    requires
        i < 64,
    ensures
        c == b64_digit(i),
{
    if i < 26 {
        (65 + i) as char
    } else if i < 52 {
        (97 + i - 26) as char
    } else if i < 62 {
        (48 + i - 52) as char
    } else if i == 62 {
        '+'
    } else {
        '/'
    }
}

/// Padded standard base64 of a byte string.
pub fn base64_encode(bytes: &[u8]) -> (r: String)
    ensures
        r@ == base64(bytes@),
{
    let mut out: Vec<char> = Vec::new();
    let mut i: usize = 0;
    assert(bytes@.skip(0) =~= bytes@);
    while i < bytes.len()
        invariant
            i <= bytes.len(),
            base64(bytes@) == out@ + base64(bytes@.skip(i as int)),
        decreases bytes.len() - i,
    {
        let rest = bytes.len() - i;
        let first = bytes[i];
        let second = if rest > 1 { bytes[i + 1] } else { 0u8 };
        let third = if rest > 2 { bytes[i + 2] } else { 0u8 };
        let ghost s = bytes@.skip(i as int);
        assert(s[0] == first);
        assert(rest > 1 ==> s[1] == second);
        assert(rest > 2 ==> s[2] == third);
        assert((first >> 2) < 64) by (bit_vector);
        assert(((first & 3) << 4) | (second >> 4) < 64) by (bit_vector);
        assert(((second & 15) << 2) | (third >> 6) < 64) by (bit_vector);
        assert((third & 63) < 64) by (bit_vector);
        assert(((first & 3) << 4) | (0u8 >> 4) == (first & 3) << 4) by (bit_vector);
        assert(((second & 15) << 2) | (0u8 >> 6) == (second & 15) << 2) by (bit_vector);
        let ghost before = out@;
        out.push(b64_char(first >> 2));
        out.push(b64_char(((first & 3) << 4) | (second >> 4)));
        if rest > 1 {
            out.push(b64_char(((second & 15) << 2) | (third >> 6)));
        } else {
            out.push('=');
        }
        if rest > 2 {
            out.push(b64_char(third & 63));
        } else {
            out.push('=');
        }
        if rest > 3 {
            assert(s.skip(3) =~= bytes@.skip(i + 3));
            assert(base64(s) == out@.skip(before.len() as int) + base64(bytes@.skip(i + 3)));
            assert(out@ =~= before + out@.skip(before.len() as int));
            i = i + 3;
        } else {
            if rest == 3 {
                assert(s.skip(3).len() == 0);
                assert(base64(s.skip(3)) == Seq::<char>::empty());
            }
            assert(base64(s) =~= out@.skip(before.len() as int));
            assert(out@ =~= before + out@.skip(before.len() as int));
            assert(bytes@.skip(bytes.len() as int) =~= Seq::<u8>::empty());
            i = bytes.len();
        }
    }
    assert(bytes@.skip(i as int) =~= Seq::<u8>::empty());
    assert(out@ =~= out@ + Seq::<char>::empty());
    string_of(out.as_slice())
}

/// The session event kind a normalised NARS event name maps to; unknown
/// names are diagnostics.
pub open spec fn kind_of_name(name: Seq<char>) -> SessionEventKind {
    if name == "session_started"@ || name == "carrier_session_started"@ {
        SessionEventKind::CarrierSessionStarted
    } else if name == "input_queued"@ || name == "input_queued_for_turn_boundary"@ || name == "operator_input_queued"@ {
        SessionEventKind::InputQueuedForTurnBoundary
    } else if name == "user_message"@ || name == "operator_input_submitted"@ || name == "input_admitted"@ || name == "input_admitted_to_turn"@ {
        SessionEventKind::InputAdmittedToTurn
    } else if name == "input_completed"@ {
        SessionEventKind::InputCompleted
    } else if name == "input_dropped"@ || name == "input_dropped_by_operator"@ {
        SessionEventKind::InputDroppedByOperator
    } else if name == "input_abandoned"@ || name == "input_abandoned_on_session_end"@ {
        SessionEventKind::InputAbandonedOnSessionEnd
    } else if name == "system_directive_held"@ {
        SessionEventKind::SystemDirectiveHeld
    } else if name == "system_directive_released"@ {
        SessionEventKind::SystemDirectiveReleased
    } else if name == "turn_started"@ || name == "carrier_turn_started"@ {
        SessionEventKind::TurnStarted
    } else if name == "provider_request"@ || name == "provider_request_recorded"@ {
        SessionEventKind::ProviderRequestRecorded
    } else if name == "assistant_message"@ || name == "assistant_message_stream"@ || name == "provider_text_delta"@ || name == "provider_text_delta_recorded"@ {
        SessionEventKind::ProviderTextDeltaRecorded
    } else if name == "tool_call"@ || name == "carrier_tool_requested"@ || name == "provider_tool_call_requested"@ || name == "tool_call_requested"@ {
        SessionEventKind::ProviderToolCallRequested
    } else if name == "tool_result"@ || name == "carrier_tool_completed"@ || name == "tool_result_received"@ {
        SessionEventKind::ToolResultReceived
    } else if name == "turn_completed"@ || name == "turn_complete"@ || name == "carrier_turn_completed"@ {
        SessionEventKind::TurnCompleted
    } else if name == "turn_failed"@ || name == "carrier_turn_failed"@ {
        SessionEventKind::TurnFailed
    } else if name == "turn_interrupted"@ || name == "carrier_turn_interrupted"@ {
        SessionEventKind::TurnInterrupted
    } else if name == "session_closed"@ || name == "carrier_session_closed"@ {
        SessionEventKind::CarrierSessionClosed
    } else {
        SessionEventKind::CarrierDiagnosticRecorded
    }
}

/// The session event kind for a normalised NARS event name.
pub fn event_kind(name: &str) -> (r: SessionEventKind)
    ensures
        r == kind_of_name(name@),
{
    if str_eq(name, "session_started") || str_eq(name, "carrier_session_started") {
        SessionEventKind::CarrierSessionStarted
    } else if str_eq(name, "input_queued") || str_eq(name, "input_queued_for_turn_boundary") || str_eq(name, "operator_input_queued") {
        SessionEventKind::InputQueuedForTurnBoundary
    } else if str_eq(name, "user_message") || str_eq(name, "operator_input_submitted") || str_eq(name, "input_admitted") || str_eq(name, "input_admitted_to_turn") {
        SessionEventKind::InputAdmittedToTurn
    } else if str_eq(name, "input_completed") {
        SessionEventKind::InputCompleted
    } else if str_eq(name, "input_dropped") || str_eq(name, "input_dropped_by_operator") {
        SessionEventKind::InputDroppedByOperator
    } else if str_eq(name, "input_abandoned") || str_eq(name, "input_abandoned_on_session_end") {
        SessionEventKind::InputAbandonedOnSessionEnd
    } else if str_eq(name, "system_directive_held") {
        SessionEventKind::SystemDirectiveHeld
    } else if str_eq(name, "system_directive_released") {
        SessionEventKind::SystemDirectiveReleased
    } else if str_eq(name, "turn_started") || str_eq(name, "carrier_turn_started") {
        SessionEventKind::TurnStarted
    } else if str_eq(name, "provider_request") || str_eq(name, "provider_request_recorded") {
        SessionEventKind::ProviderRequestRecorded
    } else if str_eq(name, "assistant_message") || str_eq(name, "assistant_message_stream") || str_eq(name, "provider_text_delta") || str_eq(name, "provider_text_delta_recorded") {
        SessionEventKind::ProviderTextDeltaRecorded
    } else if str_eq(name, "tool_call") || str_eq(name, "carrier_tool_requested") || str_eq(name, "provider_tool_call_requested") || str_eq(name, "tool_call_requested") {
        SessionEventKind::ProviderToolCallRequested
    } else if str_eq(name, "tool_result") || str_eq(name, "carrier_tool_completed") || str_eq(name, "tool_result_received") {
        SessionEventKind::ToolResultReceived
    } else if str_eq(name, "turn_completed") || str_eq(name, "turn_complete") || str_eq(name, "carrier_turn_completed") {
        SessionEventKind::TurnCompleted
    } else if str_eq(name, "turn_failed") || str_eq(name, "carrier_turn_failed") {
        SessionEventKind::TurnFailed
    } else if str_eq(name, "turn_interrupted") || str_eq(name, "carrier_turn_interrupted") {
        SessionEventKind::TurnInterrupted
    } else if str_eq(name, "session_closed") || str_eq(name, "carrier_session_closed") {
        SessionEventKind::CarrierSessionClosed
    } else {
        SessionEventKind::CarrierDiagnosticRecorded
    }
}

/// Each NARS event name maps to the session event kind of its own entry in
/// the carrier vocabulary, and each kind is reached from exactly the names
/// listed for it (an interrupted turn is never a failed one); every other
/// name is a diagnostic.
pub proof fn lemma_event_kind_vocabulary(name: Seq<char>)
    ensures
        kind_of_name(name) == SessionEventKind::CarrierSessionStarted <==> (name == "session_started"@ ||
            name == "carrier_session_started"@),
        kind_of_name(name) == SessionEventKind::InputQueuedForTurnBoundary <==> (name == "input_queued"@ ||
            name == "input_queued_for_turn_boundary"@ ||
            name == "operator_input_queued"@),
        kind_of_name(name) == SessionEventKind::InputAdmittedToTurn <==> (name == "user_message"@ ||
            name == "operator_input_submitted"@ ||
            name == "input_admitted"@ ||
            name == "input_admitted_to_turn"@),
        kind_of_name(name) == SessionEventKind::InputCompleted <==> (name == "input_completed"@),
        kind_of_name(name) == SessionEventKind::InputDroppedByOperator <==> (name == "input_dropped"@ ||
            name == "input_dropped_by_operator"@),
        kind_of_name(name) == SessionEventKind::InputAbandonedOnSessionEnd <==> (name == "input_abandoned"@ ||
            name == "input_abandoned_on_session_end"@),
        kind_of_name(name) == SessionEventKind::SystemDirectiveHeld <==> (name == "system_directive_held"@),
        kind_of_name(name) == SessionEventKind::SystemDirectiveReleased <==> (name == "system_directive_released"@),
        kind_of_name(name) == SessionEventKind::TurnStarted <==> (name == "turn_started"@ ||
            name == "carrier_turn_started"@),
        kind_of_name(name) == SessionEventKind::ProviderRequestRecorded <==> (name == "provider_request"@ ||
            name == "provider_request_recorded"@),
        kind_of_name(name) == SessionEventKind::ProviderTextDeltaRecorded <==> (name == "assistant_message"@ ||
            name == "assistant_message_stream"@ ||
            name == "provider_text_delta"@ ||
            name == "provider_text_delta_recorded"@),
        kind_of_name(name) == SessionEventKind::ProviderToolCallRequested <==> (name == "tool_call"@ ||
            name == "carrier_tool_requested"@ ||
            name == "provider_tool_call_requested"@ ||
            name == "tool_call_requested"@),
        kind_of_name(name) == SessionEventKind::ToolResultReceived <==> (name == "tool_result"@ ||
            name == "carrier_tool_completed"@ ||
            name == "tool_result_received"@),
        kind_of_name(name) == SessionEventKind::TurnCompleted <==> (name == "turn_completed"@ ||
            name == "turn_complete"@ ||
            name == "carrier_turn_completed"@),
        kind_of_name(name) == SessionEventKind::TurnFailed <==> (name == "turn_failed"@ ||
            name == "carrier_turn_failed"@),
        kind_of_name(name) == SessionEventKind::TurnInterrupted <==> (name == "turn_interrupted"@ ||
            name == "carrier_turn_interrupted"@),
        kind_of_name(name) == SessionEventKind::CarrierSessionClosed <==> (name == "session_closed"@ ||
            name == "carrier_session_closed"@),
        !(name == "session_started"@ ||
            name == "carrier_session_started"@ ||
            name == "input_queued"@ ||
            name == "input_queued_for_turn_boundary"@ ||
            name == "operator_input_queued"@ ||
            name == "user_message"@ ||
            name == "operator_input_submitted"@ ||
            name == "input_admitted"@ ||
            name == "input_admitted_to_turn"@ ||
            name == "input_completed"@ ||
            name == "input_dropped"@ ||
            name == "input_dropped_by_operator"@ ||
            name == "input_abandoned"@ ||
            name == "input_abandoned_on_session_end"@ ||
            name == "system_directive_held"@ ||
            name == "system_directive_released"@ ||
            name == "turn_started"@ ||
            name == "carrier_turn_started"@ ||
            name == "provider_request"@ ||
            name == "provider_request_recorded"@ ||
            name == "assistant_message"@ ||
            name == "assistant_message_stream"@ ||
            name == "provider_text_delta"@ ||
            name == "provider_text_delta_recorded"@ ||
            name == "tool_call"@ ||
            name == "carrier_tool_requested"@ ||
            name == "provider_tool_call_requested"@ ||
            name == "tool_call_requested"@ ||
            name == "tool_result"@ ||
            name == "carrier_tool_completed"@ ||
            name == "tool_result_received"@ ||
            name == "turn_completed"@ ||
            name == "turn_complete"@ ||
            name == "carrier_turn_completed"@ ||
            name == "turn_failed"@ ||
            name == "carrier_turn_failed"@ ||
            name == "turn_interrupted"@ ||
            name == "carrier_turn_interrupted"@ ||
            name == "session_closed"@ ||
            name == "carrier_session_closed"@) ==> kind_of_name(name) == SessionEventKind::CarrierDiagnosticRecorded,
{
    assert(kind_of_name("session_started"@) == SessionEventKind::CarrierSessionStarted) by {
        reveal_strlit("session_started");
    }
    assert(kind_of_name("carrier_session_started"@) == SessionEventKind::CarrierSessionStarted) by {
        reveal_strlit("carrier_session_started");
    }
    assert(kind_of_name("input_queued"@) == SessionEventKind::InputQueuedForTurnBoundary) by {
        reveal_strlit("input_queued");
        reveal_strlit("session_started");
        assert("input_queued"@.len() != "session_started"@.len());
        reveal_strlit("carrier_session_started");
        assert("input_queued"@.len() != "carrier_session_started"@.len());
    }
    assert(kind_of_name("input_queued_for_turn_boundary"@) == SessionEventKind::InputQueuedForTurnBoundary) by {
        reveal_strlit("input_queued_for_turn_boundary");
        reveal_strlit("session_started");
        assert("input_queued_for_turn_boundary"@.len() != "session_started"@.len());
        reveal_strlit("carrier_session_started");
        assert("input_queued_for_turn_boundary"@.len() != "carrier_session_started"@.len());
    }
    assert(kind_of_name("operator_input_queued"@) == SessionEventKind::InputQueuedForTurnBoundary) by {
        reveal_strlit("operator_input_queued");
        reveal_strlit("session_started");
        assert("operator_input_queued"@.len() != "session_started"@.len());
        reveal_strlit("carrier_session_started");
        assert("operator_input_queued"@.len() != "carrier_session_started"@.len());
    }
    assert(kind_of_name("user_message"@) == SessionEventKind::InputAdmittedToTurn) by {
        reveal_strlit("user_message");
        reveal_strlit("session_started");
        assert("user_message"@.len() != "session_started"@.len());
        reveal_strlit("carrier_session_started");
        assert("user_message"@.len() != "carrier_session_started"@.len());
        reveal_strlit("input_queued");
        assert("user_message"@[0] != "input_queued"@[0]);
        reveal_strlit("input_queued_for_turn_boundary");
        assert("user_message"@.len() != "input_queued_for_turn_boundary"@.len());
        reveal_strlit("operator_input_queued");
        assert("user_message"@.len() != "operator_input_queued"@.len());
    }
    assert(kind_of_name("operator_input_submitted"@) == SessionEventKind::InputAdmittedToTurn) by {
        reveal_strlit("operator_input_submitted");
        reveal_strlit("session_started");
        assert("operator_input_submitted"@.len() != "session_started"@.len());
        reveal_strlit("carrier_session_started");
        assert("operator_input_submitted"@.len() != "carrier_session_started"@.len());
        reveal_strlit("input_queued");
        assert("operator_input_submitted"@.len() != "input_queued"@.len());
        reveal_strlit("input_queued_for_turn_boundary");
        assert("operator_input_submitted"@.len() != "input_queued_for_turn_boundary"@.len());
        reveal_strlit("operator_input_queued");
        assert("operator_input_submitted"@.len() != "operator_input_queued"@.len());
    }
    assert(kind_of_name("input_admitted"@) == SessionEventKind::InputAdmittedToTurn) by {
        reveal_strlit("input_admitted");
        reveal_strlit("session_started");
        assert("input_admitted"@.len() != "session_started"@.len());
        reveal_strlit("carrier_session_started");
        assert("input_admitted"@.len() != "carrier_session_started"@.len());
        reveal_strlit("input_queued");
        assert("input_admitted"@.len() != "input_queued"@.len());
        reveal_strlit("input_queued_for_turn_boundary");
        assert("input_admitted"@.len() != "input_queued_for_turn_boundary"@.len());
        reveal_strlit("operator_input_queued");
        assert("input_admitted"@.len() != "operator_input_queued"@.len());
    }
    assert(kind_of_name("input_admitted_to_turn"@) == SessionEventKind::InputAdmittedToTurn) by {
        reveal_strlit("input_admitted_to_turn");
        reveal_strlit("session_started");
        assert("input_admitted_to_turn"@.len() != "session_started"@.len());
        reveal_strlit("carrier_session_started");
        assert("input_admitted_to_turn"@.len() != "carrier_session_started"@.len());
        reveal_strlit("input_queued");
        assert("input_admitted_to_turn"@.len() != "input_queued"@.len());
        reveal_strlit("input_queued_for_turn_boundary");
        assert("input_admitted_to_turn"@.len() != "input_queued_for_turn_boundary"@.len());
        reveal_strlit("operator_input_queued");
        assert("input_admitted_to_turn"@.len() != "operator_input_queued"@.len());
    }
    assert(kind_of_name("input_completed"@) == SessionEventKind::InputCompleted) by {
        reveal_strlit("input_completed");
        reveal_strlit("session_started");
        assert("input_completed"@[0] != "session_started"@[0]);
        reveal_strlit("carrier_session_started");
        assert("input_completed"@.len() != "carrier_session_started"@.len());
        reveal_strlit("input_queued");
        assert("input_completed"@.len() != "input_queued"@.len());
        reveal_strlit("input_queued_for_turn_boundary");
        assert("input_completed"@.len() != "input_queued_for_turn_boundary"@.len());
        reveal_strlit("operator_input_queued");
        assert("input_completed"@.len() != "operator_input_queued"@.len());
        reveal_strlit("user_message");
        assert("input_completed"@.len() != "user_message"@.len());
        reveal_strlit("operator_input_submitted");
        assert("input_completed"@.len() != "operator_input_submitted"@.len());
        reveal_strlit("input_admitted");
        assert("input_completed"@.len() != "input_admitted"@.len());
        reveal_strlit("input_admitted_to_turn");
        assert("input_completed"@.len() != "input_admitted_to_turn"@.len());
    }
    assert(kind_of_name("input_dropped"@) == SessionEventKind::InputDroppedByOperator) by {
        reveal_strlit("input_dropped");
        reveal_strlit("session_started");
        assert("input_dropped"@.len() != "session_started"@.len());
        reveal_strlit("carrier_session_started");
        assert("input_dropped"@.len() != "carrier_session_started"@.len());
        reveal_strlit("input_queued");
        assert("input_dropped"@.len() != "input_queued"@.len());
        reveal_strlit("input_queued_for_turn_boundary");
        assert("input_dropped"@.len() != "input_queued_for_turn_boundary"@.len());
        reveal_strlit("operator_input_queued");
        assert("input_dropped"@.len() != "operator_input_queued"@.len());
        reveal_strlit("user_message");
        assert("input_dropped"@.len() != "user_message"@.len());
        reveal_strlit("operator_input_submitted");
        assert("input_dropped"@.len() != "operator_input_submitted"@.len());
        reveal_strlit("input_admitted");
        assert("input_dropped"@.len() != "input_admitted"@.len());
        reveal_strlit("input_admitted_to_turn");
        assert("input_dropped"@.len() != "input_admitted_to_turn"@.len());
        reveal_strlit("input_completed");
        assert("input_dropped"@.len() != "input_completed"@.len());
    }
    assert(kind_of_name("input_dropped_by_operator"@) == SessionEventKind::InputDroppedByOperator) by {
        reveal_strlit("input_dropped_by_operator");
        reveal_strlit("session_started");
        assert("input_dropped_by_operator"@.len() != "session_started"@.len());
        reveal_strlit("carrier_session_started");
        assert("input_dropped_by_operator"@.len() != "carrier_session_started"@.len());
        reveal_strlit("input_queued");
        assert("input_dropped_by_operator"@.len() != "input_queued"@.len());
        reveal_strlit("input_queued_for_turn_boundary");
        assert("input_dropped_by_operator"@.len() != "input_queued_for_turn_boundary"@.len());
        reveal_strlit("operator_input_queued");
        assert("input_dropped_by_operator"@.len() != "operator_input_queued"@.len());
        reveal_strlit("user_message");
        assert("input_dropped_by_operator"@.len() != "user_message"@.len());
        reveal_strlit("operator_input_submitted");
        assert("input_dropped_by_operator"@.len() != "operator_input_submitted"@.len());
        reveal_strlit("input_admitted");
        assert("input_dropped_by_operator"@.len() != "input_admitted"@.len());
        reveal_strlit("input_admitted_to_turn");
        assert("input_dropped_by_operator"@.len() != "input_admitted_to_turn"@.len());
        reveal_strlit("input_completed");
        assert("input_dropped_by_operator"@.len() != "input_completed"@.len());
    }
    assert(kind_of_name("input_abandoned"@) == SessionEventKind::InputAbandonedOnSessionEnd) by {
        reveal_strlit("input_abandoned");
        reveal_strlit("session_started");
        assert("input_abandoned"@[0] != "session_started"@[0]);
        reveal_strlit("carrier_session_started");
        assert("input_abandoned"@.len() != "carrier_session_started"@.len());
        reveal_strlit("input_queued");
        assert("input_abandoned"@.len() != "input_queued"@.len());
        reveal_strlit("input_queued_for_turn_boundary");
        assert("input_abandoned"@.len() != "input_queued_for_turn_boundary"@.len());
        reveal_strlit("operator_input_queued");
        assert("input_abandoned"@.len() != "operator_input_queued"@.len());
        reveal_strlit("user_message");
        assert("input_abandoned"@.len() != "user_message"@.len());
        reveal_strlit("operator_input_submitted");
        assert("input_abandoned"@.len() != "operator_input_submitted"@.len());
        reveal_strlit("input_admitted");
        assert("input_abandoned"@.len() != "input_admitted"@.len());
        reveal_strlit("input_admitted_to_turn");
        assert("input_abandoned"@.len() != "input_admitted_to_turn"@.len());
        reveal_strlit("input_completed");
        assert("input_abandoned"@[6] != "input_completed"@[6]);
        reveal_strlit("input_dropped");
        assert("input_abandoned"@.len() != "input_dropped"@.len());
        reveal_strlit("input_dropped_by_operator");
        assert("input_abandoned"@.len() != "input_dropped_by_operator"@.len());
    }
    assert(kind_of_name("input_abandoned_on_session_end"@) == SessionEventKind::InputAbandonedOnSessionEnd) by {
        reveal_strlit("input_abandoned_on_session_end");
        reveal_strlit("session_started");
        assert("input_abandoned_on_session_end"@.len() != "session_started"@.len());
        reveal_strlit("carrier_session_started");
        assert("input_abandoned_on_session_end"@.len() != "carrier_session_started"@.len());
        reveal_strlit("input_queued");
        assert("input_abandoned_on_session_end"@.len() != "input_queued"@.len());
        reveal_strlit("input_queued_for_turn_boundary");
        assert("input_abandoned_on_session_end"@[6] != "input_queued_for_turn_boundary"@[6]);
        reveal_strlit("operator_input_queued");
        assert("input_abandoned_on_session_end"@.len() != "operator_input_queued"@.len());
        reveal_strlit("user_message");
        assert("input_abandoned_on_session_end"@.len() != "user_message"@.len());
        reveal_strlit("operator_input_submitted");
        assert("input_abandoned_on_session_end"@.len() != "operator_input_submitted"@.len());
        reveal_strlit("input_admitted");
        assert("input_abandoned_on_session_end"@.len() != "input_admitted"@.len());
        reveal_strlit("input_admitted_to_turn");
        assert("input_abandoned_on_session_end"@.len() != "input_admitted_to_turn"@.len());
        reveal_strlit("input_completed");
        assert("input_abandoned_on_session_end"@.len() != "input_completed"@.len());
        reveal_strlit("input_dropped");
        assert("input_abandoned_on_session_end"@.len() != "input_dropped"@.len());
        reveal_strlit("input_dropped_by_operator");
        assert("input_abandoned_on_session_end"@.len() != "input_dropped_by_operator"@.len());
    }
    assert(kind_of_name("system_directive_held"@) == SessionEventKind::SystemDirectiveHeld) by {
        reveal_strlit("system_directive_held");
        reveal_strlit("session_started");
        assert("system_directive_held"@.len() != "session_started"@.len());
        reveal_strlit("carrier_session_started");
        assert("system_directive_held"@.len() != "carrier_session_started"@.len());
        reveal_strlit("input_queued");
        assert("system_directive_held"@.len() != "input_queued"@.len());
        reveal_strlit("input_queued_for_turn_boundary");
        assert("system_directive_held"@.len() != "input_queued_for_turn_boundary"@.len());
        reveal_strlit("operator_input_queued");
        assert("system_directive_held"@[0] != "operator_input_queued"@[0]);
        reveal_strlit("user_message");
        assert("system_directive_held"@.len() != "user_message"@.len());
        reveal_strlit("operator_input_submitted");
        assert("system_directive_held"@.len() != "operator_input_submitted"@.len());
        reveal_strlit("input_admitted");
        assert("system_directive_held"@.len() != "input_admitted"@.len());
        reveal_strlit("input_admitted_to_turn");
        assert("system_directive_held"@.len() != "input_admitted_to_turn"@.len());
        reveal_strlit("input_completed");
        assert("system_directive_held"@.len() != "input_completed"@.len());
        reveal_strlit("input_dropped");
        assert("system_directive_held"@.len() != "input_dropped"@.len());
        reveal_strlit("input_dropped_by_operator");
        assert("system_directive_held"@.len() != "input_dropped_by_operator"@.len());
        reveal_strlit("input_abandoned");
        assert("system_directive_held"@.len() != "input_abandoned"@.len());
        reveal_strlit("input_abandoned_on_session_end");
        assert("system_directive_held"@.len() != "input_abandoned_on_session_end"@.len());
    }
    assert(kind_of_name("system_directive_released"@) == SessionEventKind::SystemDirectiveReleased) by {
        reveal_strlit("system_directive_released");
        reveal_strlit("session_started");
        assert("system_directive_released"@.len() != "session_started"@.len());
        reveal_strlit("carrier_session_started");
        assert("system_directive_released"@.len() != "carrier_session_started"@.len());
        reveal_strlit("input_queued");
        assert("system_directive_released"@.len() != "input_queued"@.len());
        reveal_strlit("input_queued_for_turn_boundary");
        assert("system_directive_released"@.len() != "input_queued_for_turn_boundary"@.len());
        reveal_strlit("operator_input_queued");
        assert("system_directive_released"@.len() != "operator_input_queued"@.len());
        reveal_strlit("user_message");
        assert("system_directive_released"@.len() != "user_message"@.len());
        reveal_strlit("operator_input_submitted");
        assert("system_directive_released"@.len() != "operator_input_submitted"@.len());
        reveal_strlit("input_admitted");
        assert("system_directive_released"@.len() != "input_admitted"@.len());
        reveal_strlit("input_admitted_to_turn");
        assert("system_directive_released"@.len() != "input_admitted_to_turn"@.len());
        reveal_strlit("input_completed");
        assert("system_directive_released"@.len() != "input_completed"@.len());
        reveal_strlit("input_dropped");
        assert("system_directive_released"@.len() != "input_dropped"@.len());
        reveal_strlit("input_dropped_by_operator");
        assert("system_directive_released"@[0] != "input_dropped_by_operator"@[0]);
        reveal_strlit("input_abandoned");
        assert("system_directive_released"@.len() != "input_abandoned"@.len());
        reveal_strlit("input_abandoned_on_session_end");
        assert("system_directive_released"@.len() != "input_abandoned_on_session_end"@.len());
        reveal_strlit("system_directive_held");
        assert("system_directive_released"@.len() != "system_directive_held"@.len());
    }
    assert(kind_of_name("turn_started"@) == SessionEventKind::TurnStarted) by {
        reveal_strlit("turn_started");
        reveal_strlit("session_started");
        assert("turn_started"@.len() != "session_started"@.len());
        reveal_strlit("carrier_session_started");
        assert("turn_started"@.len() != "carrier_session_started"@.len());
        reveal_strlit("input_queued");
        assert("turn_started"@[0] != "input_queued"@[0]);
        reveal_strlit("input_queued_for_turn_boundary");
        assert("turn_started"@.len() != "input_queued_for_turn_boundary"@.len());
        reveal_strlit("operator_input_queued");
        assert("turn_started"@.len() != "operator_input_queued"@.len());
        reveal_strlit("user_message");
        assert("turn_started"@[0] != "user_message"@[0]);
        reveal_strlit("operator_input_submitted");
        assert("turn_started"@.len() != "operator_input_submitted"@.len());
        reveal_strlit("input_admitted");
        assert("turn_started"@.len() != "input_admitted"@.len());
        reveal_strlit("input_admitted_to_turn");
        assert("turn_started"@.len() != "input_admitted_to_turn"@.len());
        reveal_strlit("input_completed");
        assert("turn_started"@.len() != "input_completed"@.len());
        reveal_strlit("input_dropped");
        assert("turn_started"@.len() != "input_dropped"@.len());
        reveal_strlit("input_dropped_by_operator");
        assert("turn_started"@.len() != "input_dropped_by_operator"@.len());
        reveal_strlit("input_abandoned");
        assert("turn_started"@.len() != "input_abandoned"@.len());
        reveal_strlit("input_abandoned_on_session_end");
        assert("turn_started"@.len() != "input_abandoned_on_session_end"@.len());
        reveal_strlit("system_directive_held");
        assert("turn_started"@.len() != "system_directive_held"@.len());
        reveal_strlit("system_directive_released");
        assert("turn_started"@.len() != "system_directive_released"@.len());
    }
    assert(kind_of_name("carrier_turn_started"@) == SessionEventKind::TurnStarted) by {
        reveal_strlit("carrier_turn_started");
        reveal_strlit("session_started");
        assert("carrier_turn_started"@.len() != "session_started"@.len());
        reveal_strlit("carrier_session_started");
        assert("carrier_turn_started"@.len() != "carrier_session_started"@.len());
        reveal_strlit("input_queued");
        assert("carrier_turn_started"@.len() != "input_queued"@.len());
        reveal_strlit("input_queued_for_turn_boundary");
        assert("carrier_turn_started"@.len() != "input_queued_for_turn_boundary"@.len());
        reveal_strlit("operator_input_queued");
        assert("carrier_turn_started"@.len() != "operator_input_queued"@.len());
        reveal_strlit("user_message");
        assert("carrier_turn_started"@.len() != "user_message"@.len());
        reveal_strlit("operator_input_submitted");
        assert("carrier_turn_started"@.len() != "operator_input_submitted"@.len());
        reveal_strlit("input_admitted");
        assert("carrier_turn_started"@.len() != "input_admitted"@.len());
        reveal_strlit("input_admitted_to_turn");
        assert("carrier_turn_started"@.len() != "input_admitted_to_turn"@.len());
        reveal_strlit("input_completed");
        assert("carrier_turn_started"@.len() != "input_completed"@.len());
        reveal_strlit("input_dropped");
        assert("carrier_turn_started"@.len() != "input_dropped"@.len());
        reveal_strlit("input_dropped_by_operator");
        assert("carrier_turn_started"@.len() != "input_dropped_by_operator"@.len());
        reveal_strlit("input_abandoned");
        assert("carrier_turn_started"@.len() != "input_abandoned"@.len());
        reveal_strlit("input_abandoned_on_session_end");
        assert("carrier_turn_started"@.len() != "input_abandoned_on_session_end"@.len());
        reveal_strlit("system_directive_held");
        assert("carrier_turn_started"@.len() != "system_directive_held"@.len());
        reveal_strlit("system_directive_released");
        assert("carrier_turn_started"@.len() != "system_directive_released"@.len());
    }
    assert(kind_of_name("provider_request"@) == SessionEventKind::ProviderRequestRecorded) by {
        reveal_strlit("provider_request");
        reveal_strlit("session_started");
        assert("provider_request"@.len() != "session_started"@.len());
        reveal_strlit("carrier_session_started");
        assert("provider_request"@.len() != "carrier_session_started"@.len());
        reveal_strlit("input_queued");
        assert("provider_request"@.len() != "input_queued"@.len());
        reveal_strlit("input_queued_for_turn_boundary");
        assert("provider_request"@.len() != "input_queued_for_turn_boundary"@.len());
        reveal_strlit("operator_input_queued");
        assert("provider_request"@.len() != "operator_input_queued"@.len());
        reveal_strlit("user_message");
        assert("provider_request"@.len() != "user_message"@.len());
        reveal_strlit("operator_input_submitted");
        assert("provider_request"@.len() != "operator_input_submitted"@.len());
        reveal_strlit("input_admitted");
        assert("provider_request"@.len() != "input_admitted"@.len());
        reveal_strlit("input_admitted_to_turn");
        assert("provider_request"@.len() != "input_admitted_to_turn"@.len());
        reveal_strlit("input_completed");
        assert("provider_request"@.len() != "input_completed"@.len());
        reveal_strlit("input_dropped");
        assert("provider_request"@.len() != "input_dropped"@.len());
        reveal_strlit("input_dropped_by_operator");
        assert("provider_request"@.len() != "input_dropped_by_operator"@.len());
        reveal_strlit("input_abandoned");
        assert("provider_request"@.len() != "input_abandoned"@.len());
        reveal_strlit("input_abandoned_on_session_end");
        assert("provider_request"@.len() != "input_abandoned_on_session_end"@.len());
        reveal_strlit("system_directive_held");
        assert("provider_request"@.len() != "system_directive_held"@.len());
        reveal_strlit("system_directive_released");
        assert("provider_request"@.len() != "system_directive_released"@.len());
        reveal_strlit("turn_started");
        assert("provider_request"@.len() != "turn_started"@.len());
        reveal_strlit("carrier_turn_started");
        assert("provider_request"@.len() != "carrier_turn_started"@.len());
    }
    assert(kind_of_name("provider_request_recorded"@) == SessionEventKind::ProviderRequestRecorded) by {
        reveal_strlit("provider_request_recorded");
        reveal_strlit("session_started");
        assert("provider_request_recorded"@.len() != "session_started"@.len());
        reveal_strlit("carrier_session_started");
        assert("provider_request_recorded"@.len() != "carrier_session_started"@.len());
        reveal_strlit("input_queued");
        assert("provider_request_recorded"@.len() != "input_queued"@.len());
        reveal_strlit("input_queued_for_turn_boundary");
        assert("provider_request_recorded"@.len() != "input_queued_for_turn_boundary"@.len());
        reveal_strlit("operator_input_queued");
        assert("provider_request_recorded"@.len() != "operator_input_queued"@.len());
        reveal_strlit("user_message");
        assert("provider_request_recorded"@.len() != "user_message"@.len());
        reveal_strlit("operator_input_submitted");
        assert("provider_request_recorded"@.len() != "operator_input_submitted"@.len());
        reveal_strlit("input_admitted");
        assert("provider_request_recorded"@.len() != "input_admitted"@.len());
        reveal_strlit("input_admitted_to_turn");
        assert("provider_request_recorded"@.len() != "input_admitted_to_turn"@.len());
        reveal_strlit("input_completed");
        assert("provider_request_recorded"@.len() != "input_completed"@.len());
        reveal_strlit("input_dropped");
        assert("provider_request_recorded"@.len() != "input_dropped"@.len());
        reveal_strlit("input_dropped_by_operator");
        assert("provider_request_recorded"@[0] != "input_dropped_by_operator"@[0]);
        reveal_strlit("input_abandoned");
        assert("provider_request_recorded"@.len() != "input_abandoned"@.len());
        reveal_strlit("input_abandoned_on_session_end");
        assert("provider_request_recorded"@.len() != "input_abandoned_on_session_end"@.len());
        reveal_strlit("system_directive_held");
        assert("provider_request_recorded"@.len() != "system_directive_held"@.len());
        reveal_strlit("system_directive_released");
        assert("provider_request_recorded"@[0] != "system_directive_released"@[0]);
        reveal_strlit("turn_started");
        assert("provider_request_recorded"@.len() != "turn_started"@.len());
        reveal_strlit("carrier_turn_started");
        assert("provider_request_recorded"@.len() != "carrier_turn_started"@.len());
    }
    assert(kind_of_name("assistant_message"@) == SessionEventKind::ProviderTextDeltaRecorded) by {
        reveal_strlit("assistant_message");
        reveal_strlit("session_started");
        assert("assistant_message"@.len() != "session_started"@.len());
        reveal_strlit("carrier_session_started");
        assert("assistant_message"@.len() != "carrier_session_started"@.len());
        reveal_strlit("input_queued");
        assert("assistant_message"@.len() != "input_queued"@.len());
        reveal_strlit("input_queued_for_turn_boundary");
        assert("assistant_message"@.len() != "input_queued_for_turn_boundary"@.len());
        reveal_strlit("operator_input_queued");
        assert("assistant_message"@.len() != "operator_input_queued"@.len());
        reveal_strlit("user_message");
        assert("assistant_message"@.len() != "user_message"@.len());
        reveal_strlit("operator_input_submitted");
        assert("assistant_message"@.len() != "operator_input_submitted"@.len());
        reveal_strlit("input_admitted");
        assert("assistant_message"@.len() != "input_admitted"@.len());
        reveal_strlit("input_admitted_to_turn");
        assert("assistant_message"@.len() != "input_admitted_to_turn"@.len());
        reveal_strlit("input_completed");
        assert("assistant_message"@.len() != "input_completed"@.len());
        reveal_strlit("input_dropped");
        assert("assistant_message"@.len() != "input_dropped"@.len());
        reveal_strlit("input_dropped_by_operator");
        assert("assistant_message"@.len() != "input_dropped_by_operator"@.len());
        reveal_strlit("input_abandoned");
        assert("assistant_message"@.len() != "input_abandoned"@.len());
        reveal_strlit("input_abandoned_on_session_end");
        assert("assistant_message"@.len() != "input_abandoned_on_session_end"@.len());
        reveal_strlit("system_directive_held");
        assert("assistant_message"@.len() != "system_directive_held"@.len());
        reveal_strlit("system_directive_released");
        assert("assistant_message"@.len() != "system_directive_released"@.len());
        reveal_strlit("turn_started");
        assert("assistant_message"@.len() != "turn_started"@.len());
        reveal_strlit("carrier_turn_started");
        assert("assistant_message"@.len() != "carrier_turn_started"@.len());
        reveal_strlit("provider_request");
        assert("assistant_message"@.len() != "provider_request"@.len());
        reveal_strlit("provider_request_recorded");
        assert("assistant_message"@.len() != "provider_request_recorded"@.len());
    }
    assert(kind_of_name("assistant_message_stream"@) == SessionEventKind::ProviderTextDeltaRecorded) by {
        reveal_strlit("assistant_message_stream");
        reveal_strlit("session_started");
        assert("assistant_message_stream"@.len() != "session_started"@.len());
        reveal_strlit("carrier_session_started");
        assert("assistant_message_stream"@.len() != "carrier_session_started"@.len());
        reveal_strlit("input_queued");
        assert("assistant_message_stream"@.len() != "input_queued"@.len());
        reveal_strlit("input_queued_for_turn_boundary");
        assert("assistant_message_stream"@.len() != "input_queued_for_turn_boundary"@.len());
        reveal_strlit("operator_input_queued");
        assert("assistant_message_stream"@.len() != "operator_input_queued"@.len());
        reveal_strlit("user_message");
        assert("assistant_message_stream"@.len() != "user_message"@.len());
        reveal_strlit("operator_input_submitted");
        assert("assistant_message_stream"@[0] != "operator_input_submitted"@[0]);
        reveal_strlit("input_admitted");
        assert("assistant_message_stream"@.len() != "input_admitted"@.len());
        reveal_strlit("input_admitted_to_turn");
        assert("assistant_message_stream"@.len() != "input_admitted_to_turn"@.len());
        reveal_strlit("input_completed");
        assert("assistant_message_stream"@.len() != "input_completed"@.len());
        reveal_strlit("input_dropped");
        assert("assistant_message_stream"@.len() != "input_dropped"@.len());
        reveal_strlit("input_dropped_by_operator");
        assert("assistant_message_stream"@.len() != "input_dropped_by_operator"@.len());
        reveal_strlit("input_abandoned");
        assert("assistant_message_stream"@.len() != "input_abandoned"@.len());
        reveal_strlit("input_abandoned_on_session_end");
        assert("assistant_message_stream"@.len() != "input_abandoned_on_session_end"@.len());
        reveal_strlit("system_directive_held");
        assert("assistant_message_stream"@.len() != "system_directive_held"@.len());
        reveal_strlit("system_directive_released");
        assert("assistant_message_stream"@.len() != "system_directive_released"@.len());
        reveal_strlit("turn_started");
        assert("assistant_message_stream"@.len() != "turn_started"@.len());
        reveal_strlit("carrier_turn_started");
        assert("assistant_message_stream"@.len() != "carrier_turn_started"@.len());
        reveal_strlit("provider_request");
        assert("assistant_message_stream"@.len() != "provider_request"@.len());
        reveal_strlit("provider_request_recorded");
        assert("assistant_message_stream"@.len() != "provider_request_recorded"@.len());
    }
    assert(kind_of_name("provider_text_delta"@) == SessionEventKind::ProviderTextDeltaRecorded) by {
        reveal_strlit("provider_text_delta");
        reveal_strlit("session_started");
        assert("provider_text_delta"@.len() != "session_started"@.len());
        reveal_strlit("carrier_session_started");
        assert("provider_text_delta"@.len() != "carrier_session_started"@.len());
        reveal_strlit("input_queued");
        assert("provider_text_delta"@.len() != "input_queued"@.len());
        reveal_strlit("input_queued_for_turn_boundary");
        assert("provider_text_delta"@.len() != "input_queued_for_turn_boundary"@.len());
        reveal_strlit("operator_input_queued");
        assert("provider_text_delta"@.len() != "operator_input_queued"@.len());
        reveal_strlit("user_message");
        assert("provider_text_delta"@.len() != "user_message"@.len());
        reveal_strlit("operator_input_submitted");
        assert("provider_text_delta"@.len() != "operator_input_submitted"@.len());
        reveal_strlit("input_admitted");
        assert("provider_text_delta"@.len() != "input_admitted"@.len());
        reveal_strlit("input_admitted_to_turn");
        assert("provider_text_delta"@.len() != "input_admitted_to_turn"@.len());
        reveal_strlit("input_completed");
        assert("provider_text_delta"@.len() != "input_completed"@.len());
        reveal_strlit("input_dropped");
        assert("provider_text_delta"@.len() != "input_dropped"@.len());
        reveal_strlit("input_dropped_by_operator");
        assert("provider_text_delta"@.len() != "input_dropped_by_operator"@.len());
        reveal_strlit("input_abandoned");
        assert("provider_text_delta"@.len() != "input_abandoned"@.len());
        reveal_strlit("input_abandoned_on_session_end");
        assert("provider_text_delta"@.len() != "input_abandoned_on_session_end"@.len());
        reveal_strlit("system_directive_held");
        assert("provider_text_delta"@.len() != "system_directive_held"@.len());
        reveal_strlit("system_directive_released");
        assert("provider_text_delta"@.len() != "system_directive_released"@.len());
        reveal_strlit("turn_started");
        assert("provider_text_delta"@.len() != "turn_started"@.len());
        reveal_strlit("carrier_turn_started");
        assert("provider_text_delta"@.len() != "carrier_turn_started"@.len());
        reveal_strlit("provider_request");
        assert("provider_text_delta"@.len() != "provider_request"@.len());
        reveal_strlit("provider_request_recorded");
        assert("provider_text_delta"@.len() != "provider_request_recorded"@.len());
    }
    assert(kind_of_name("provider_text_delta_recorded"@) == SessionEventKind::ProviderTextDeltaRecorded) by {
        reveal_strlit("provider_text_delta_recorded");
        reveal_strlit("session_started");
        assert("provider_text_delta_recorded"@.len() != "session_started"@.len());
        reveal_strlit("carrier_session_started");
        assert("provider_text_delta_recorded"@.len() != "carrier_session_started"@.len());
        reveal_strlit("input_queued");
        assert("provider_text_delta_recorded"@.len() != "input_queued"@.len());
        reveal_strlit("input_queued_for_turn_boundary");
        assert("provider_text_delta_recorded"@.len() != "input_queued_for_turn_boundary"@.len());
        reveal_strlit("operator_input_queued");
        assert("provider_text_delta_recorded"@.len() != "operator_input_queued"@.len());
        reveal_strlit("user_message");
        assert("provider_text_delta_recorded"@.len() != "user_message"@.len());
        reveal_strlit("operator_input_submitted");
        assert("provider_text_delta_recorded"@.len() != "operator_input_submitted"@.len());
        reveal_strlit("input_admitted");
        assert("provider_text_delta_recorded"@.len() != "input_admitted"@.len());
        reveal_strlit("input_admitted_to_turn");
        assert("provider_text_delta_recorded"@.len() != "input_admitted_to_turn"@.len());
        reveal_strlit("input_completed");
        assert("provider_text_delta_recorded"@.len() != "input_completed"@.len());
        reveal_strlit("input_dropped");
        assert("provider_text_delta_recorded"@.len() != "input_dropped"@.len());
        reveal_strlit("input_dropped_by_operator");
        assert("provider_text_delta_recorded"@.len() != "input_dropped_by_operator"@.len());
        reveal_strlit("input_abandoned");
        assert("provider_text_delta_recorded"@.len() != "input_abandoned"@.len());
        reveal_strlit("input_abandoned_on_session_end");
        assert("provider_text_delta_recorded"@.len() != "input_abandoned_on_session_end"@.len());
        reveal_strlit("system_directive_held");
        assert("provider_text_delta_recorded"@.len() != "system_directive_held"@.len());
        reveal_strlit("system_directive_released");
        assert("provider_text_delta_recorded"@.len() != "system_directive_released"@.len());
        reveal_strlit("turn_started");
        assert("provider_text_delta_recorded"@.len() != "turn_started"@.len());
        reveal_strlit("carrier_turn_started");
        assert("provider_text_delta_recorded"@.len() != "carrier_turn_started"@.len());
        reveal_strlit("provider_request");
        assert("provider_text_delta_recorded"@.len() != "provider_request"@.len());
        reveal_strlit("provider_request_recorded");
        assert("provider_text_delta_recorded"@.len() != "provider_request_recorded"@.len());
    }
    assert(kind_of_name("tool_call"@) == SessionEventKind::ProviderToolCallRequested) by {
        reveal_strlit("tool_call");
        reveal_strlit("session_started");
        assert("tool_call"@.len() != "session_started"@.len());
        reveal_strlit("carrier_session_started");
        assert("tool_call"@.len() != "carrier_session_started"@.len());
        reveal_strlit("input_queued");
        assert("tool_call"@.len() != "input_queued"@.len());
        reveal_strlit("input_queued_for_turn_boundary");
        assert("tool_call"@.len() != "input_queued_for_turn_boundary"@.len());
        reveal_strlit("operator_input_queued");
        assert("tool_call"@.len() != "operator_input_queued"@.len());
        reveal_strlit("user_message");
        assert("tool_call"@.len() != "user_message"@.len());
        reveal_strlit("operator_input_submitted");
        assert("tool_call"@.len() != "operator_input_submitted"@.len());
        reveal_strlit("input_admitted");
        assert("tool_call"@.len() != "input_admitted"@.len());
        reveal_strlit("input_admitted_to_turn");
        assert("tool_call"@.len() != "input_admitted_to_turn"@.len());
        reveal_strlit("input_completed");
        assert("tool_call"@.len() != "input_completed"@.len());
        reveal_strlit("input_dropped");
        assert("tool_call"@.len() != "input_dropped"@.len());
        reveal_strlit("input_dropped_by_operator");
        assert("tool_call"@.len() != "input_dropped_by_operator"@.len());
        reveal_strlit("input_abandoned");
        assert("tool_call"@.len() != "input_abandoned"@.len());
        reveal_strlit("input_abandoned_on_session_end");
        assert("tool_call"@.len() != "input_abandoned_on_session_end"@.len());
        reveal_strlit("system_directive_held");
        assert("tool_call"@.len() != "system_directive_held"@.len());
        reveal_strlit("system_directive_released");
        assert("tool_call"@.len() != "system_directive_released"@.len());
        reveal_strlit("turn_started");
        assert("tool_call"@.len() != "turn_started"@.len());
        reveal_strlit("carrier_turn_started");
        assert("tool_call"@.len() != "carrier_turn_started"@.len());
        reveal_strlit("provider_request");
        assert("tool_call"@.len() != "provider_request"@.len());
        reveal_strlit("provider_request_recorded");
        assert("tool_call"@.len() != "provider_request_recorded"@.len());
        reveal_strlit("assistant_message");
        assert("tool_call"@.len() != "assistant_message"@.len());
        reveal_strlit("assistant_message_stream");
        assert("tool_call"@.len() != "assistant_message_stream"@.len());
        reveal_strlit("provider_text_delta");
        assert("tool_call"@.len() != "provider_text_delta"@.len());
        reveal_strlit("provider_text_delta_recorded");
        assert("tool_call"@.len() != "provider_text_delta_recorded"@.len());
    }
    assert(kind_of_name("carrier_tool_requested"@) == SessionEventKind::ProviderToolCallRequested) by {
        reveal_strlit("carrier_tool_requested");
        reveal_strlit("session_started");
        assert("carrier_tool_requested"@.len() != "session_started"@.len());
        reveal_strlit("carrier_session_started");
        assert("carrier_tool_requested"@.len() != "carrier_session_started"@.len());
        reveal_strlit("input_queued");
        assert("carrier_tool_requested"@.len() != "input_queued"@.len());
        reveal_strlit("input_queued_for_turn_boundary");
        assert("carrier_tool_requested"@.len() != "input_queued_for_turn_boundary"@.len());
        reveal_strlit("operator_input_queued");
        assert("carrier_tool_requested"@.len() != "operator_input_queued"@.len());
        reveal_strlit("user_message");
        assert("carrier_tool_requested"@.len() != "user_message"@.len());
        reveal_strlit("operator_input_submitted");
        assert("carrier_tool_requested"@.len() != "operator_input_submitted"@.len());
        reveal_strlit("input_admitted");
        assert("carrier_tool_requested"@.len() != "input_admitted"@.len());
        reveal_strlit("input_admitted_to_turn");
        assert("carrier_tool_requested"@[0] != "input_admitted_to_turn"@[0]);
        reveal_strlit("input_completed");
        assert("carrier_tool_requested"@.len() != "input_completed"@.len());
        reveal_strlit("input_dropped");
        assert("carrier_tool_requested"@.len() != "input_dropped"@.len());
        reveal_strlit("input_dropped_by_operator");
        assert("carrier_tool_requested"@.len() != "input_dropped_by_operator"@.len());
        reveal_strlit("input_abandoned");
        assert("carrier_tool_requested"@.len() != "input_abandoned"@.len());
        reveal_strlit("input_abandoned_on_session_end");
        assert("carrier_tool_requested"@.len() != "input_abandoned_on_session_end"@.len());
        reveal_strlit("system_directive_held");
        assert("carrier_tool_requested"@.len() != "system_directive_held"@.len());
        reveal_strlit("system_directive_released");
        assert("carrier_tool_requested"@.len() != "system_directive_released"@.len());
        reveal_strlit("turn_started");
        assert("carrier_tool_requested"@.len() != "turn_started"@.len());
        reveal_strlit("carrier_turn_started");
        assert("carrier_tool_requested"@.len() != "carrier_turn_started"@.len());
        reveal_strlit("provider_request");
        assert("carrier_tool_requested"@.len() != "provider_request"@.len());
        reveal_strlit("provider_request_recorded");
        assert("carrier_tool_requested"@.len() != "provider_request_recorded"@.len());
        reveal_strlit("assistant_message");
        assert("carrier_tool_requested"@.len() != "assistant_message"@.len());
        reveal_strlit("assistant_message_stream");
        assert("carrier_tool_requested"@.len() != "assistant_message_stream"@.len());
        reveal_strlit("provider_text_delta");
        assert("carrier_tool_requested"@.len() != "provider_text_delta"@.len());
        reveal_strlit("provider_text_delta_recorded");
        assert("carrier_tool_requested"@.len() != "provider_text_delta_recorded"@.len());
    }
    assert(kind_of_name("provider_tool_call_requested"@) == SessionEventKind::ProviderToolCallRequested) by {
        reveal_strlit("provider_tool_call_requested");
        reveal_strlit("session_started");
        assert("provider_tool_call_requested"@.len() != "session_started"@.len());
        reveal_strlit("carrier_session_started");
        assert("provider_tool_call_requested"@.len() != "carrier_session_started"@.len());
        reveal_strlit("input_queued");
        assert("provider_tool_call_requested"@.len() != "input_queued"@.len());
        reveal_strlit("input_queued_for_turn_boundary");
        assert("provider_tool_call_requested"@.len() != "input_queued_for_turn_boundary"@.len());
        reveal_strlit("operator_input_queued");
        assert("provider_tool_call_requested"@.len() != "operator_input_queued"@.len());
        reveal_strlit("user_message");
        assert("provider_tool_call_requested"@.len() != "user_message"@.len());
        reveal_strlit("operator_input_submitted");
        assert("provider_tool_call_requested"@.len() != "operator_input_submitted"@.len());
        reveal_strlit("input_admitted");
        assert("provider_tool_call_requested"@.len() != "input_admitted"@.len());
        reveal_strlit("input_admitted_to_turn");
        assert("provider_tool_call_requested"@.len() != "input_admitted_to_turn"@.len());
        reveal_strlit("input_completed");
        assert("provider_tool_call_requested"@.len() != "input_completed"@.len());
        reveal_strlit("input_dropped");
        assert("provider_tool_call_requested"@.len() != "input_dropped"@.len());
        reveal_strlit("input_dropped_by_operator");
        assert("provider_tool_call_requested"@.len() != "input_dropped_by_operator"@.len());
        reveal_strlit("input_abandoned");
        assert("provider_tool_call_requested"@.len() != "input_abandoned"@.len());
        reveal_strlit("input_abandoned_on_session_end");
        assert("provider_tool_call_requested"@.len() != "input_abandoned_on_session_end"@.len());
        reveal_strlit("system_directive_held");
        assert("provider_tool_call_requested"@.len() != "system_directive_held"@.len());
        reveal_strlit("system_directive_released");
        assert("provider_tool_call_requested"@.len() != "system_directive_released"@.len());
        reveal_strlit("turn_started");
        assert("provider_tool_call_requested"@.len() != "turn_started"@.len());
        reveal_strlit("carrier_turn_started");
        assert("provider_tool_call_requested"@.len() != "carrier_turn_started"@.len());
        reveal_strlit("provider_request");
        assert("provider_tool_call_requested"@.len() != "provider_request"@.len());
        reveal_strlit("provider_request_recorded");
        assert("provider_tool_call_requested"@.len() != "provider_request_recorded"@.len());
        reveal_strlit("assistant_message");
        assert("provider_tool_call_requested"@.len() != "assistant_message"@.len());
        reveal_strlit("assistant_message_stream");
        assert("provider_tool_call_requested"@.len() != "assistant_message_stream"@.len());
        reveal_strlit("provider_text_delta");
        assert("provider_tool_call_requested"@.len() != "provider_text_delta"@.len());
        reveal_strlit("provider_text_delta_recorded");
        assert("provider_tool_call_requested"@[10] != "provider_text_delta_recorded"@[10]);
    }
    assert(kind_of_name("tool_call_requested"@) == SessionEventKind::ProviderToolCallRequested) by {
        reveal_strlit("tool_call_requested");
        reveal_strlit("session_started");
        assert("tool_call_requested"@.len() != "session_started"@.len());
        reveal_strlit("carrier_session_started");
        assert("tool_call_requested"@.len() != "carrier_session_started"@.len());
        reveal_strlit("input_queued");
        assert("tool_call_requested"@.len() != "input_queued"@.len());
        reveal_strlit("input_queued_for_turn_boundary");
        assert("tool_call_requested"@.len() != "input_queued_for_turn_boundary"@.len());
        reveal_strlit("operator_input_queued");
        assert("tool_call_requested"@.len() != "operator_input_queued"@.len());
        reveal_strlit("user_message");
        assert("tool_call_requested"@.len() != "user_message"@.len());
        reveal_strlit("operator_input_submitted");
        assert("tool_call_requested"@.len() != "operator_input_submitted"@.len());
        reveal_strlit("input_admitted");
        assert("tool_call_requested"@.len() != "input_admitted"@.len());
        reveal_strlit("input_admitted_to_turn");
        assert("tool_call_requested"@.len() != "input_admitted_to_turn"@.len());
        reveal_strlit("input_completed");
        assert("tool_call_requested"@.len() != "input_completed"@.len());
        reveal_strlit("input_dropped");
        assert("tool_call_requested"@.len() != "input_dropped"@.len());
        reveal_strlit("input_dropped_by_operator");
        assert("tool_call_requested"@.len() != "input_dropped_by_operator"@.len());
        reveal_strlit("input_abandoned");
        assert("tool_call_requested"@.len() != "input_abandoned"@.len());
        reveal_strlit("input_abandoned_on_session_end");
        assert("tool_call_requested"@.len() != "input_abandoned_on_session_end"@.len());
        reveal_strlit("system_directive_held");
        assert("tool_call_requested"@.len() != "system_directive_held"@.len());
        reveal_strlit("system_directive_released");
        assert("tool_call_requested"@.len() != "system_directive_released"@.len());
        reveal_strlit("turn_started");
        assert("tool_call_requested"@.len() != "turn_started"@.len());
        reveal_strlit("carrier_turn_started");
        assert("tool_call_requested"@.len() != "carrier_turn_started"@.len());
        reveal_strlit("provider_request");
        assert("tool_call_requested"@.len() != "provider_request"@.len());
        reveal_strlit("provider_request_recorded");
        assert("tool_call_requested"@.len() != "provider_request_recorded"@.len());
        reveal_strlit("assistant_message");
        assert("tool_call_requested"@.len() != "assistant_message"@.len());
        reveal_strlit("assistant_message_stream");
        assert("tool_call_requested"@.len() != "assistant_message_stream"@.len());
        reveal_strlit("provider_text_delta");
        assert("tool_call_requested"@[0] != "provider_text_delta"@[0]);
        reveal_strlit("provider_text_delta_recorded");
        assert("tool_call_requested"@.len() != "provider_text_delta_recorded"@.len());
    }
    assert(kind_of_name("tool_result"@) == SessionEventKind::ToolResultReceived) by {
        reveal_strlit("tool_result");
        reveal_strlit("session_started");
        assert("tool_result"@.len() != "session_started"@.len());
        reveal_strlit("carrier_session_started");
        assert("tool_result"@.len() != "carrier_session_started"@.len());
        reveal_strlit("input_queued");
        assert("tool_result"@.len() != "input_queued"@.len());
        reveal_strlit("input_queued_for_turn_boundary");
        assert("tool_result"@.len() != "input_queued_for_turn_boundary"@.len());
        reveal_strlit("operator_input_queued");
        assert("tool_result"@.len() != "operator_input_queued"@.len());
        reveal_strlit("user_message");
        assert("tool_result"@.len() != "user_message"@.len());
        reveal_strlit("operator_input_submitted");
        assert("tool_result"@.len() != "operator_input_submitted"@.len());
        reveal_strlit("input_admitted");
        assert("tool_result"@.len() != "input_admitted"@.len());
        reveal_strlit("input_admitted_to_turn");
        assert("tool_result"@.len() != "input_admitted_to_turn"@.len());
        reveal_strlit("input_completed");
        assert("tool_result"@.len() != "input_completed"@.len());
        reveal_strlit("input_dropped");
        assert("tool_result"@.len() != "input_dropped"@.len());
        reveal_strlit("input_dropped_by_operator");
        assert("tool_result"@.len() != "input_dropped_by_operator"@.len());
        reveal_strlit("input_abandoned");
        assert("tool_result"@.len() != "input_abandoned"@.len());
        reveal_strlit("input_abandoned_on_session_end");
        assert("tool_result"@.len() != "input_abandoned_on_session_end"@.len());
        reveal_strlit("system_directive_held");
        assert("tool_result"@.len() != "system_directive_held"@.len());
        reveal_strlit("system_directive_released");
        assert("tool_result"@.len() != "system_directive_released"@.len());
        reveal_strlit("turn_started");
        assert("tool_result"@.len() != "turn_started"@.len());
        reveal_strlit("carrier_turn_started");
        assert("tool_result"@.len() != "carrier_turn_started"@.len());
        reveal_strlit("provider_request");
        assert("tool_result"@.len() != "provider_request"@.len());
        reveal_strlit("provider_request_recorded");
        assert("tool_result"@.len() != "provider_request_recorded"@.len());
        reveal_strlit("assistant_message");
        assert("tool_result"@.len() != "assistant_message"@.len());
        reveal_strlit("assistant_message_stream");
        assert("tool_result"@.len() != "assistant_message_stream"@.len());
        reveal_strlit("provider_text_delta");
        assert("tool_result"@.len() != "provider_text_delta"@.len());
        reveal_strlit("provider_text_delta_recorded");
        assert("tool_result"@.len() != "provider_text_delta_recorded"@.len());
        reveal_strlit("tool_call");
        assert("tool_result"@.len() != "tool_call"@.len());
        reveal_strlit("carrier_tool_requested");
        assert("tool_result"@.len() != "carrier_tool_requested"@.len());
        reveal_strlit("provider_tool_call_requested");
        assert("tool_result"@.len() != "provider_tool_call_requested"@.len());
        reveal_strlit("tool_call_requested");
        assert("tool_result"@.len() != "tool_call_requested"@.len());
    }
    assert(kind_of_name("carrier_tool_completed"@) == SessionEventKind::ToolResultReceived) by {
        reveal_strlit("carrier_tool_completed");
        reveal_strlit("session_started");
        assert("carrier_tool_completed"@.len() != "session_started"@.len());
        reveal_strlit("carrier_session_started");
        assert("carrier_tool_completed"@.len() != "carrier_session_started"@.len());
        reveal_strlit("input_queued");
        assert("carrier_tool_completed"@.len() != "input_queued"@.len());
        reveal_strlit("input_queued_for_turn_boundary");
        assert("carrier_tool_completed"@.len() != "input_queued_for_turn_boundary"@.len());
        reveal_strlit("operator_input_queued");
        assert("carrier_tool_completed"@.len() != "operator_input_queued"@.len());
        reveal_strlit("user_message");
        assert("carrier_tool_completed"@.len() != "user_message"@.len());
        reveal_strlit("operator_input_submitted");
        assert("carrier_tool_completed"@.len() != "operator_input_submitted"@.len());
        reveal_strlit("input_admitted");
        assert("carrier_tool_completed"@.len() != "input_admitted"@.len());
        reveal_strlit("input_admitted_to_turn");
        assert("carrier_tool_completed"@[0] != "input_admitted_to_turn"@[0]);
        reveal_strlit("input_completed");
        assert("carrier_tool_completed"@.len() != "input_completed"@.len());
        reveal_strlit("input_dropped");
        assert("carrier_tool_completed"@.len() != "input_dropped"@.len());
        reveal_strlit("input_dropped_by_operator");
        assert("carrier_tool_completed"@.len() != "input_dropped_by_operator"@.len());
        reveal_strlit("input_abandoned");
        assert("carrier_tool_completed"@.len() != "input_abandoned"@.len());
        reveal_strlit("input_abandoned_on_session_end");
        assert("carrier_tool_completed"@.len() != "input_abandoned_on_session_end"@.len());
        reveal_strlit("system_directive_held");
        assert("carrier_tool_completed"@.len() != "system_directive_held"@.len());
        reveal_strlit("system_directive_released");
        assert("carrier_tool_completed"@.len() != "system_directive_released"@.len());
        reveal_strlit("turn_started");
        assert("carrier_tool_completed"@.len() != "turn_started"@.len());
        reveal_strlit("carrier_turn_started");
        assert("carrier_tool_completed"@.len() != "carrier_turn_started"@.len());
        reveal_strlit("provider_request");
        assert("carrier_tool_completed"@.len() != "provider_request"@.len());
        reveal_strlit("provider_request_recorded");
        assert("carrier_tool_completed"@.len() != "provider_request_recorded"@.len());
        reveal_strlit("assistant_message");
        assert("carrier_tool_completed"@.len() != "assistant_message"@.len());
        reveal_strlit("assistant_message_stream");
        assert("carrier_tool_completed"@.len() != "assistant_message_stream"@.len());
        reveal_strlit("provider_text_delta");
        assert("carrier_tool_completed"@.len() != "provider_text_delta"@.len());
        reveal_strlit("provider_text_delta_recorded");
        assert("carrier_tool_completed"@.len() != "provider_text_delta_recorded"@.len());
        reveal_strlit("tool_call");
        assert("carrier_tool_completed"@.len() != "tool_call"@.len());
        reveal_strlit("carrier_tool_requested");
        assert("carrier_tool_completed"@[13] != "carrier_tool_requested"@[13]);
        reveal_strlit("provider_tool_call_requested");
        assert("carrier_tool_completed"@.len() != "provider_tool_call_requested"@.len());
        reveal_strlit("tool_call_requested");
        assert("carrier_tool_completed"@.len() != "tool_call_requested"@.len());
    }
    assert(kind_of_name("tool_result_received"@) == SessionEventKind::ToolResultReceived) by {
        reveal_strlit("tool_result_received");
        reveal_strlit("session_started");
        assert("tool_result_received"@.len() != "session_started"@.len());
        reveal_strlit("carrier_session_started");
        assert("tool_result_received"@.len() != "carrier_session_started"@.len());
        reveal_strlit("input_queued");
        assert("tool_result_received"@.len() != "input_queued"@.len());
        reveal_strlit("input_queued_for_turn_boundary");
        assert("tool_result_received"@.len() != "input_queued_for_turn_boundary"@.len());
        reveal_strlit("operator_input_queued");
        assert("tool_result_received"@.len() != "operator_input_queued"@.len());
        reveal_strlit("user_message");
        assert("tool_result_received"@.len() != "user_message"@.len());
        reveal_strlit("operator_input_submitted");
        assert("tool_result_received"@.len() != "operator_input_submitted"@.len());
        reveal_strlit("input_admitted");
        assert("tool_result_received"@.len() != "input_admitted"@.len());
        reveal_strlit("input_admitted_to_turn");
        assert("tool_result_received"@.len() != "input_admitted_to_turn"@.len());
        reveal_strlit("input_completed");
        assert("tool_result_received"@.len() != "input_completed"@.len());
        reveal_strlit("input_dropped");
        assert("tool_result_received"@.len() != "input_dropped"@.len());
        reveal_strlit("input_dropped_by_operator");
        assert("tool_result_received"@.len() != "input_dropped_by_operator"@.len());
        reveal_strlit("input_abandoned");
        assert("tool_result_received"@.len() != "input_abandoned"@.len());
        reveal_strlit("input_abandoned_on_session_end");
        assert("tool_result_received"@.len() != "input_abandoned_on_session_end"@.len());
        reveal_strlit("system_directive_held");
        assert("tool_result_received"@.len() != "system_directive_held"@.len());
        reveal_strlit("system_directive_released");
        assert("tool_result_received"@.len() != "system_directive_released"@.len());
        reveal_strlit("turn_started");
        assert("tool_result_received"@.len() != "turn_started"@.len());
        reveal_strlit("carrier_turn_started");
        assert("tool_result_received"@[0] != "carrier_turn_started"@[0]);
        reveal_strlit("provider_request");
        assert("tool_result_received"@.len() != "provider_request"@.len());
        reveal_strlit("provider_request_recorded");
        assert("tool_result_received"@.len() != "provider_request_recorded"@.len());
        reveal_strlit("assistant_message");
        assert("tool_result_received"@.len() != "assistant_message"@.len());
        reveal_strlit("assistant_message_stream");
        assert("tool_result_received"@.len() != "assistant_message_stream"@.len());
        reveal_strlit("provider_text_delta");
        assert("tool_result_received"@.len() != "provider_text_delta"@.len());
        reveal_strlit("provider_text_delta_recorded");
        assert("tool_result_received"@.len() != "provider_text_delta_recorded"@.len());
        reveal_strlit("tool_call");
        assert("tool_result_received"@.len() != "tool_call"@.len());
        reveal_strlit("carrier_tool_requested");
        assert("tool_result_received"@.len() != "carrier_tool_requested"@.len());
        reveal_strlit("provider_tool_call_requested");
        assert("tool_result_received"@.len() != "provider_tool_call_requested"@.len());
        reveal_strlit("tool_call_requested");
        assert("tool_result_received"@.len() != "tool_call_requested"@.len());
    }
    assert(kind_of_name("turn_completed"@) == SessionEventKind::TurnCompleted) by {
        reveal_strlit("turn_completed");
        reveal_strlit("session_started");
        assert("turn_completed"@.len() != "session_started"@.len());
        reveal_strlit("carrier_session_started");
        assert("turn_completed"@.len() != "carrier_session_started"@.len());
        reveal_strlit("input_queued");
        assert("turn_completed"@.len() != "input_queued"@.len());
        reveal_strlit("input_queued_for_turn_boundary");
        assert("turn_completed"@.len() != "input_queued_for_turn_boundary"@.len());
        reveal_strlit("operator_input_queued");
        assert("turn_completed"@.len() != "operator_input_queued"@.len());
        reveal_strlit("user_message");
        assert("turn_completed"@.len() != "user_message"@.len());
        reveal_strlit("operator_input_submitted");
        assert("turn_completed"@.len() != "operator_input_submitted"@.len());
        reveal_strlit("input_admitted");
        assert("turn_completed"@[0] != "input_admitted"@[0]);
        reveal_strlit("input_admitted_to_turn");
        assert("turn_completed"@.len() != "input_admitted_to_turn"@.len());
        reveal_strlit("input_completed");
        assert("turn_completed"@.len() != "input_completed"@.len());
        reveal_strlit("input_dropped");
        assert("turn_completed"@.len() != "input_dropped"@.len());
        reveal_strlit("input_dropped_by_operator");
        assert("turn_completed"@.len() != "input_dropped_by_operator"@.len());
        reveal_strlit("input_abandoned");
        assert("turn_completed"@.len() != "input_abandoned"@.len());
        reveal_strlit("input_abandoned_on_session_end");
        assert("turn_completed"@.len() != "input_abandoned_on_session_end"@.len());
        reveal_strlit("system_directive_held");
        assert("turn_completed"@.len() != "system_directive_held"@.len());
        reveal_strlit("system_directive_released");
        assert("turn_completed"@.len() != "system_directive_released"@.len());
        reveal_strlit("turn_started");
        assert("turn_completed"@.len() != "turn_started"@.len());
        reveal_strlit("carrier_turn_started");
        assert("turn_completed"@.len() != "carrier_turn_started"@.len());
        reveal_strlit("provider_request");
        assert("turn_completed"@.len() != "provider_request"@.len());
        reveal_strlit("provider_request_recorded");
        assert("turn_completed"@.len() != "provider_request_recorded"@.len());
        reveal_strlit("assistant_message");
        assert("turn_completed"@.len() != "assistant_message"@.len());
        reveal_strlit("assistant_message_stream");
        assert("turn_completed"@.len() != "assistant_message_stream"@.len());
        reveal_strlit("provider_text_delta");
        assert("turn_completed"@.len() != "provider_text_delta"@.len());
        reveal_strlit("provider_text_delta_recorded");
        assert("turn_completed"@.len() != "provider_text_delta_recorded"@.len());
        reveal_strlit("tool_call");
        assert("turn_completed"@.len() != "tool_call"@.len());
        reveal_strlit("carrier_tool_requested");
        assert("turn_completed"@.len() != "carrier_tool_requested"@.len());
        reveal_strlit("provider_tool_call_requested");
        assert("turn_completed"@.len() != "provider_tool_call_requested"@.len());
        reveal_strlit("tool_call_requested");
        assert("turn_completed"@.len() != "tool_call_requested"@.len());
        reveal_strlit("tool_result");
        assert("turn_completed"@.len() != "tool_result"@.len());
        reveal_strlit("carrier_tool_completed");
        assert("turn_completed"@.len() != "carrier_tool_completed"@.len());
        reveal_strlit("tool_result_received");
        assert("turn_completed"@.len() != "tool_result_received"@.len());
    }
    assert(kind_of_name("turn_complete"@) == SessionEventKind::TurnCompleted) by {
        reveal_strlit("turn_complete");
        reveal_strlit("session_started");
        assert("turn_complete"@.len() != "session_started"@.len());
        reveal_strlit("carrier_session_started");
        assert("turn_complete"@.len() != "carrier_session_started"@.len());
        reveal_strlit("input_queued");
        assert("turn_complete"@.len() != "input_queued"@.len());
        reveal_strlit("input_queued_for_turn_boundary");
        assert("turn_complete"@.len() != "input_queued_for_turn_boundary"@.len());
        reveal_strlit("operator_input_queued");
        assert("turn_complete"@.len() != "operator_input_queued"@.len());
        reveal_strlit("user_message");
        assert("turn_complete"@.len() != "user_message"@.len());
        reveal_strlit("operator_input_submitted");
        assert("turn_complete"@.len() != "operator_input_submitted"@.len());
        reveal_strlit("input_admitted");
        assert("turn_complete"@.len() != "input_admitted"@.len());
        reveal_strlit("input_admitted_to_turn");
        assert("turn_complete"@.len() != "input_admitted_to_turn"@.len());
        reveal_strlit("input_completed");
        assert("turn_complete"@.len() != "input_completed"@.len());
        reveal_strlit("input_dropped");
        assert("turn_complete"@[0] != "input_dropped"@[0]);
        reveal_strlit("input_dropped_by_operator");
        assert("turn_complete"@.len() != "input_dropped_by_operator"@.len());
        reveal_strlit("input_abandoned");
        assert("turn_complete"@.len() != "input_abandoned"@.len());
        reveal_strlit("input_abandoned_on_session_end");
        assert("turn_complete"@.len() != "input_abandoned_on_session_end"@.len());
        reveal_strlit("system_directive_held");
        assert("turn_complete"@.len() != "system_directive_held"@.len());
        reveal_strlit("system_directive_released");
        assert("turn_complete"@.len() != "system_directive_released"@.len());
        reveal_strlit("turn_started");
        assert("turn_complete"@.len() != "turn_started"@.len());
        reveal_strlit("carrier_turn_started");
        assert("turn_complete"@.len() != "carrier_turn_started"@.len());
        reveal_strlit("provider_request");
        assert("turn_complete"@.len() != "provider_request"@.len());
        reveal_strlit("provider_request_recorded");
        assert("turn_complete"@.len() != "provider_request_recorded"@.len());
        reveal_strlit("assistant_message");
        assert("turn_complete"@.len() != "assistant_message"@.len());
        reveal_strlit("assistant_message_stream");
        assert("turn_complete"@.len() != "assistant_message_stream"@.len());
        reveal_strlit("provider_text_delta");
        assert("turn_complete"@.len() != "provider_text_delta"@.len());
        reveal_strlit("provider_text_delta_recorded");
        assert("turn_complete"@.len() != "provider_text_delta_recorded"@.len());
        reveal_strlit("tool_call");
        assert("turn_complete"@.len() != "tool_call"@.len());
        reveal_strlit("carrier_tool_requested");
        assert("turn_complete"@.len() != "carrier_tool_requested"@.len());
        reveal_strlit("provider_tool_call_requested");
        assert("turn_complete"@.len() != "provider_tool_call_requested"@.len());
        reveal_strlit("tool_call_requested");
        assert("turn_complete"@.len() != "tool_call_requested"@.len());
        reveal_strlit("tool_result");
        assert("turn_complete"@.len() != "tool_result"@.len());
        reveal_strlit("carrier_tool_completed");
        assert("turn_complete"@.len() != "carrier_tool_completed"@.len());
        reveal_strlit("tool_result_received");
        assert("turn_complete"@.len() != "tool_result_received"@.len());
    }
    assert(kind_of_name("carrier_turn_completed"@) == SessionEventKind::TurnCompleted) by {
        reveal_strlit("carrier_turn_completed");
        reveal_strlit("session_started");
        assert("carrier_turn_completed"@.len() != "session_started"@.len());
        reveal_strlit("carrier_session_started");
        assert("carrier_turn_completed"@.len() != "carrier_session_started"@.len());
        reveal_strlit("input_queued");
        assert("carrier_turn_completed"@.len() != "input_queued"@.len());
        reveal_strlit("input_queued_for_turn_boundary");
        assert("carrier_turn_completed"@.len() != "input_queued_for_turn_boundary"@.len());
        reveal_strlit("operator_input_queued");
        assert("carrier_turn_completed"@.len() != "operator_input_queued"@.len());
        reveal_strlit("user_message");
        assert("carrier_turn_completed"@.len() != "user_message"@.len());
        reveal_strlit("operator_input_submitted");
        assert("carrier_turn_completed"@.len() != "operator_input_submitted"@.len());
        reveal_strlit("input_admitted");
        assert("carrier_turn_completed"@.len() != "input_admitted"@.len());
        reveal_strlit("input_admitted_to_turn");
        assert("carrier_turn_completed"@[0] != "input_admitted_to_turn"@[0]);
        reveal_strlit("input_completed");
        assert("carrier_turn_completed"@.len() != "input_completed"@.len());
        reveal_strlit("input_dropped");
        assert("carrier_turn_completed"@.len() != "input_dropped"@.len());
        reveal_strlit("input_dropped_by_operator");
        assert("carrier_turn_completed"@.len() != "input_dropped_by_operator"@.len());
        reveal_strlit("input_abandoned");
        assert("carrier_turn_completed"@.len() != "input_abandoned"@.len());
        reveal_strlit("input_abandoned_on_session_end");
        assert("carrier_turn_completed"@.len() != "input_abandoned_on_session_end"@.len());
        reveal_strlit("system_directive_held");
        assert("carrier_turn_completed"@.len() != "system_directive_held"@.len());
        reveal_strlit("system_directive_released");
        assert("carrier_turn_completed"@.len() != "system_directive_released"@.len());
        reveal_strlit("turn_started");
        assert("carrier_turn_completed"@.len() != "turn_started"@.len());
        reveal_strlit("carrier_turn_started");
        assert("carrier_turn_completed"@.len() != "carrier_turn_started"@.len());
        reveal_strlit("provider_request");
        assert("carrier_turn_completed"@.len() != "provider_request"@.len());
        reveal_strlit("provider_request_recorded");
        assert("carrier_turn_completed"@.len() != "provider_request_recorded"@.len());
        reveal_strlit("assistant_message");
        assert("carrier_turn_completed"@.len() != "assistant_message"@.len());
        reveal_strlit("assistant_message_stream");
        assert("carrier_turn_completed"@.len() != "assistant_message_stream"@.len());
        reveal_strlit("provider_text_delta");
        assert("carrier_turn_completed"@.len() != "provider_text_delta"@.len());
        reveal_strlit("provider_text_delta_recorded");
        assert("carrier_turn_completed"@.len() != "provider_text_delta_recorded"@.len());
        reveal_strlit("tool_call");
        assert("carrier_turn_completed"@.len() != "tool_call"@.len());
        reveal_strlit("carrier_tool_requested");
        assert("carrier_turn_completed"@[9] != "carrier_tool_requested"@[9]);
        reveal_strlit("provider_tool_call_requested");
        assert("carrier_turn_completed"@.len() != "provider_tool_call_requested"@.len());
        reveal_strlit("tool_call_requested");
        assert("carrier_turn_completed"@.len() != "tool_call_requested"@.len());
        reveal_strlit("tool_result");
        assert("carrier_turn_completed"@.len() != "tool_result"@.len());
        reveal_strlit("carrier_tool_completed");
        assert("carrier_turn_completed"@[9] != "carrier_tool_completed"@[9]);
        reveal_strlit("tool_result_received");
        assert("carrier_turn_completed"@.len() != "tool_result_received"@.len());
    }
    assert(kind_of_name("turn_failed"@) == SessionEventKind::TurnFailed) by {
        reveal_strlit("turn_failed");
        reveal_strlit("session_started");
        assert("turn_failed"@.len() != "session_started"@.len());
        reveal_strlit("carrier_session_started");
        assert("turn_failed"@.len() != "carrier_session_started"@.len());
        reveal_strlit("input_queued");
        assert("turn_failed"@.len() != "input_queued"@.len());
        reveal_strlit("input_queued_for_turn_boundary");
        assert("turn_failed"@.len() != "input_queued_for_turn_boundary"@.len());
        reveal_strlit("operator_input_queued");
        assert("turn_failed"@.len() != "operator_input_queued"@.len());
        reveal_strlit("user_message");
        assert("turn_failed"@.len() != "user_message"@.len());
        reveal_strlit("operator_input_submitted");
        assert("turn_failed"@.len() != "operator_input_submitted"@.len());
        reveal_strlit("input_admitted");
        assert("turn_failed"@.len() != "input_admitted"@.len());
        reveal_strlit("input_admitted_to_turn");
        assert("turn_failed"@.len() != "input_admitted_to_turn"@.len());
        reveal_strlit("input_completed");
        assert("turn_failed"@.len() != "input_completed"@.len());
        reveal_strlit("input_dropped");
        assert("turn_failed"@.len() != "input_dropped"@.len());
        reveal_strlit("input_dropped_by_operator");
        assert("turn_failed"@.len() != "input_dropped_by_operator"@.len());
        reveal_strlit("input_abandoned");
        assert("turn_failed"@.len() != "input_abandoned"@.len());
        reveal_strlit("input_abandoned_on_session_end");
        assert("turn_failed"@.len() != "input_abandoned_on_session_end"@.len());
        reveal_strlit("system_directive_held");
        assert("turn_failed"@.len() != "system_directive_held"@.len());
        reveal_strlit("system_directive_released");
        assert("turn_failed"@.len() != "system_directive_released"@.len());
        reveal_strlit("turn_started");
        assert("turn_failed"@.len() != "turn_started"@.len());
        reveal_strlit("carrier_turn_started");
        assert("turn_failed"@.len() != "carrier_turn_started"@.len());
        reveal_strlit("provider_request");
        assert("turn_failed"@.len() != "provider_request"@.len());
        reveal_strlit("provider_request_recorded");
        assert("turn_failed"@.len() != "provider_request_recorded"@.len());
        reveal_strlit("assistant_message");
        assert("turn_failed"@.len() != "assistant_message"@.len());
        reveal_strlit("assistant_message_stream");
        assert("turn_failed"@.len() != "assistant_message_stream"@.len());
        reveal_strlit("provider_text_delta");
        assert("turn_failed"@.len() != "provider_text_delta"@.len());
        reveal_strlit("provider_text_delta_recorded");
        assert("turn_failed"@.len() != "provider_text_delta_recorded"@.len());
        reveal_strlit("tool_call");
        assert("turn_failed"@.len() != "tool_call"@.len());
        reveal_strlit("carrier_tool_requested");
        assert("turn_failed"@.len() != "carrier_tool_requested"@.len());
        reveal_strlit("provider_tool_call_requested");
        assert("turn_failed"@.len() != "provider_tool_call_requested"@.len());
        reveal_strlit("tool_call_requested");
        assert("turn_failed"@.len() != "tool_call_requested"@.len());
        reveal_strlit("tool_result");
        assert("turn_failed"@[1] != "tool_result"@[1]);
        reveal_strlit("carrier_tool_completed");
        assert("turn_failed"@.len() != "carrier_tool_completed"@.len());
        reveal_strlit("tool_result_received");
        assert("turn_failed"@.len() != "tool_result_received"@.len());
        reveal_strlit("turn_completed");
        assert("turn_failed"@.len() != "turn_completed"@.len());
        reveal_strlit("turn_complete");
        assert("turn_failed"@.len() != "turn_complete"@.len());
        reveal_strlit("carrier_turn_completed");
        assert("turn_failed"@.len() != "carrier_turn_completed"@.len());
    }
    assert(kind_of_name("carrier_turn_failed"@) == SessionEventKind::TurnFailed) by {
        reveal_strlit("carrier_turn_failed");
        reveal_strlit("session_started");
        assert("carrier_turn_failed"@.len() != "session_started"@.len());
        reveal_strlit("carrier_session_started");
        assert("carrier_turn_failed"@.len() != "carrier_session_started"@.len());
        reveal_strlit("input_queued");
        assert("carrier_turn_failed"@.len() != "input_queued"@.len());
        reveal_strlit("input_queued_for_turn_boundary");
        assert("carrier_turn_failed"@.len() != "input_queued_for_turn_boundary"@.len());
        reveal_strlit("operator_input_queued");
        assert("carrier_turn_failed"@.len() != "operator_input_queued"@.len());
        reveal_strlit("user_message");
        assert("carrier_turn_failed"@.len() != "user_message"@.len());
        reveal_strlit("operator_input_submitted");
        assert("carrier_turn_failed"@.len() != "operator_input_submitted"@.len());
        reveal_strlit("input_admitted");
        assert("carrier_turn_failed"@.len() != "input_admitted"@.len());
        reveal_strlit("input_admitted_to_turn");
        assert("carrier_turn_failed"@.len() != "input_admitted_to_turn"@.len());
        reveal_strlit("input_completed");
        assert("carrier_turn_failed"@.len() != "input_completed"@.len());
        reveal_strlit("input_dropped");
        assert("carrier_turn_failed"@.len() != "input_dropped"@.len());
        reveal_strlit("input_dropped_by_operator");
        assert("carrier_turn_failed"@.len() != "input_dropped_by_operator"@.len());
        reveal_strlit("input_abandoned");
        assert("carrier_turn_failed"@.len() != "input_abandoned"@.len());
        reveal_strlit("input_abandoned_on_session_end");
        assert("carrier_turn_failed"@.len() != "input_abandoned_on_session_end"@.len());
        reveal_strlit("system_directive_held");
        assert("carrier_turn_failed"@.len() != "system_directive_held"@.len());
        reveal_strlit("system_directive_released");
        assert("carrier_turn_failed"@.len() != "system_directive_released"@.len());
        reveal_strlit("turn_started");
        assert("carrier_turn_failed"@.len() != "turn_started"@.len());
        reveal_strlit("carrier_turn_started");
        assert("carrier_turn_failed"@.len() != "carrier_turn_started"@.len());
        reveal_strlit("provider_request");
        assert("carrier_turn_failed"@.len() != "provider_request"@.len());
        reveal_strlit("provider_request_recorded");
        assert("carrier_turn_failed"@.len() != "provider_request_recorded"@.len());
        reveal_strlit("assistant_message");
        assert("carrier_turn_failed"@.len() != "assistant_message"@.len());
        reveal_strlit("assistant_message_stream");
        assert("carrier_turn_failed"@.len() != "assistant_message_stream"@.len());
        reveal_strlit("provider_text_delta");
        assert("carrier_turn_failed"@[0] != "provider_text_delta"@[0]);
        reveal_strlit("provider_text_delta_recorded");
        assert("carrier_turn_failed"@.len() != "provider_text_delta_recorded"@.len());
        reveal_strlit("tool_call");
        assert("carrier_turn_failed"@.len() != "tool_call"@.len());
        reveal_strlit("carrier_tool_requested");
        assert("carrier_turn_failed"@.len() != "carrier_tool_requested"@.len());
        reveal_strlit("provider_tool_call_requested");
        assert("carrier_turn_failed"@.len() != "provider_tool_call_requested"@.len());
        reveal_strlit("tool_call_requested");
        assert("carrier_turn_failed"@[0] != "tool_call_requested"@[0]);
        reveal_strlit("tool_result");
        assert("carrier_turn_failed"@.len() != "tool_result"@.len());
        reveal_strlit("carrier_tool_completed");
        assert("carrier_turn_failed"@.len() != "carrier_tool_completed"@.len());
        reveal_strlit("tool_result_received");
        assert("carrier_turn_failed"@.len() != "tool_result_received"@.len());
        reveal_strlit("turn_completed");
        assert("carrier_turn_failed"@.len() != "turn_completed"@.len());
        reveal_strlit("turn_complete");
        assert("carrier_turn_failed"@.len() != "turn_complete"@.len());
        reveal_strlit("carrier_turn_completed");
        assert("carrier_turn_failed"@.len() != "carrier_turn_completed"@.len());
    }
    assert(kind_of_name("turn_interrupted"@) == SessionEventKind::TurnInterrupted) by {
        reveal_strlit("turn_interrupted");
        reveal_strlit("session_started");
        assert("turn_interrupted"@.len() != "session_started"@.len());
        reveal_strlit("carrier_session_started");
        assert("turn_interrupted"@.len() != "carrier_session_started"@.len());
        reveal_strlit("input_queued");
        assert("turn_interrupted"@.len() != "input_queued"@.len());
        reveal_strlit("input_queued_for_turn_boundary");
        assert("turn_interrupted"@.len() != "input_queued_for_turn_boundary"@.len());
        reveal_strlit("operator_input_queued");
        assert("turn_interrupted"@.len() != "operator_input_queued"@.len());
        reveal_strlit("user_message");
        assert("turn_interrupted"@.len() != "user_message"@.len());
        reveal_strlit("operator_input_submitted");
        assert("turn_interrupted"@.len() != "operator_input_submitted"@.len());
        reveal_strlit("input_admitted");
        assert("turn_interrupted"@.len() != "input_admitted"@.len());
        reveal_strlit("input_admitted_to_turn");
        assert("turn_interrupted"@.len() != "input_admitted_to_turn"@.len());
        reveal_strlit("input_completed");
        assert("turn_interrupted"@.len() != "input_completed"@.len());
        reveal_strlit("input_dropped");
        assert("turn_interrupted"@.len() != "input_dropped"@.len());
        reveal_strlit("input_dropped_by_operator");
        assert("turn_interrupted"@.len() != "input_dropped_by_operator"@.len());
        reveal_strlit("input_abandoned");
        assert("turn_interrupted"@.len() != "input_abandoned"@.len());
        reveal_strlit("input_abandoned_on_session_end");
        assert("turn_interrupted"@.len() != "input_abandoned_on_session_end"@.len());
        reveal_strlit("system_directive_held");
        assert("turn_interrupted"@.len() != "system_directive_held"@.len());
        reveal_strlit("system_directive_released");
        assert("turn_interrupted"@.len() != "system_directive_released"@.len());
        reveal_strlit("turn_started");
        assert("turn_interrupted"@.len() != "turn_started"@.len());
        reveal_strlit("carrier_turn_started");
        assert("turn_interrupted"@.len() != "carrier_turn_started"@.len());
        reveal_strlit("provider_request");
        assert("turn_interrupted"@[0] != "provider_request"@[0]);
        reveal_strlit("provider_request_recorded");
        assert("turn_interrupted"@.len() != "provider_request_recorded"@.len());
        reveal_strlit("assistant_message");
        assert("turn_interrupted"@.len() != "assistant_message"@.len());
        reveal_strlit("assistant_message_stream");
        assert("turn_interrupted"@.len() != "assistant_message_stream"@.len());
        reveal_strlit("provider_text_delta");
        assert("turn_interrupted"@.len() != "provider_text_delta"@.len());
        reveal_strlit("provider_text_delta_recorded");
        assert("turn_interrupted"@.len() != "provider_text_delta_recorded"@.len());
        reveal_strlit("tool_call");
        assert("turn_interrupted"@.len() != "tool_call"@.len());
        reveal_strlit("carrier_tool_requested");
        assert("turn_interrupted"@.len() != "carrier_tool_requested"@.len());
        reveal_strlit("provider_tool_call_requested");
        assert("turn_interrupted"@.len() != "provider_tool_call_requested"@.len());
        reveal_strlit("tool_call_requested");
        assert("turn_interrupted"@.len() != "tool_call_requested"@.len());
        reveal_strlit("tool_result");
        assert("turn_interrupted"@.len() != "tool_result"@.len());
        reveal_strlit("carrier_tool_completed");
        assert("turn_interrupted"@.len() != "carrier_tool_completed"@.len());
        reveal_strlit("tool_result_received");
        assert("turn_interrupted"@.len() != "tool_result_received"@.len());
        reveal_strlit("turn_completed");
        assert("turn_interrupted"@.len() != "turn_completed"@.len());
        reveal_strlit("turn_complete");
        assert("turn_interrupted"@.len() != "turn_complete"@.len());
        reveal_strlit("carrier_turn_completed");
        assert("turn_interrupted"@.len() != "carrier_turn_completed"@.len());
        reveal_strlit("turn_failed");
        assert("turn_interrupted"@.len() != "turn_failed"@.len());
        reveal_strlit("carrier_turn_failed");
        assert("turn_interrupted"@.len() != "carrier_turn_failed"@.len());
    }
    assert(kind_of_name("carrier_turn_interrupted"@) == SessionEventKind::TurnInterrupted) by {
        reveal_strlit("carrier_turn_interrupted");
        reveal_strlit("session_started");
        assert("carrier_turn_interrupted"@.len() != "session_started"@.len());
        reveal_strlit("carrier_session_started");
        assert("carrier_turn_interrupted"@.len() != "carrier_session_started"@.len());
        reveal_strlit("input_queued");
        assert("carrier_turn_interrupted"@.len() != "input_queued"@.len());
        reveal_strlit("input_queued_for_turn_boundary");
        assert("carrier_turn_interrupted"@.len() != "input_queued_for_turn_boundary"@.len());
        reveal_strlit("operator_input_queued");
        assert("carrier_turn_interrupted"@.len() != "operator_input_queued"@.len());
        reveal_strlit("user_message");
        assert("carrier_turn_interrupted"@.len() != "user_message"@.len());
        reveal_strlit("operator_input_submitted");
        assert("carrier_turn_interrupted"@[0] != "operator_input_submitted"@[0]);
        reveal_strlit("input_admitted");
        assert("carrier_turn_interrupted"@.len() != "input_admitted"@.len());
        reveal_strlit("input_admitted_to_turn");
        assert("carrier_turn_interrupted"@.len() != "input_admitted_to_turn"@.len());
        reveal_strlit("input_completed");
        assert("carrier_turn_interrupted"@.len() != "input_completed"@.len());
        reveal_strlit("input_dropped");
        assert("carrier_turn_interrupted"@.len() != "input_dropped"@.len());
        reveal_strlit("input_dropped_by_operator");
        assert("carrier_turn_interrupted"@.len() != "input_dropped_by_operator"@.len());
        reveal_strlit("input_abandoned");
        assert("carrier_turn_interrupted"@.len() != "input_abandoned"@.len());
        reveal_strlit("input_abandoned_on_session_end");
        assert("carrier_turn_interrupted"@.len() != "input_abandoned_on_session_end"@.len());
        reveal_strlit("system_directive_held");
        assert("carrier_turn_interrupted"@.len() != "system_directive_held"@.len());
        reveal_strlit("system_directive_released");
        assert("carrier_turn_interrupted"@.len() != "system_directive_released"@.len());
        reveal_strlit("turn_started");
        assert("carrier_turn_interrupted"@.len() != "turn_started"@.len());
        reveal_strlit("carrier_turn_started");
        assert("carrier_turn_interrupted"@.len() != "carrier_turn_started"@.len());
        reveal_strlit("provider_request");
        assert("carrier_turn_interrupted"@.len() != "provider_request"@.len());
        reveal_strlit("provider_request_recorded");
        assert("carrier_turn_interrupted"@.len() != "provider_request_recorded"@.len());
        reveal_strlit("assistant_message");
        assert("carrier_turn_interrupted"@.len() != "assistant_message"@.len());
        reveal_strlit("assistant_message_stream");
        assert("carrier_turn_interrupted"@[0] != "assistant_message_stream"@[0]);
        reveal_strlit("provider_text_delta");
        assert("carrier_turn_interrupted"@.len() != "provider_text_delta"@.len());
        reveal_strlit("provider_text_delta_recorded");
        assert("carrier_turn_interrupted"@.len() != "provider_text_delta_recorded"@.len());
        reveal_strlit("tool_call");
        assert("carrier_turn_interrupted"@.len() != "tool_call"@.len());
        reveal_strlit("carrier_tool_requested");
        assert("carrier_turn_interrupted"@.len() != "carrier_tool_requested"@.len());
        reveal_strlit("provider_tool_call_requested");
        assert("carrier_turn_interrupted"@.len() != "provider_tool_call_requested"@.len());
        reveal_strlit("tool_call_requested");
        assert("carrier_turn_interrupted"@.len() != "tool_call_requested"@.len());
        reveal_strlit("tool_result");
        assert("carrier_turn_interrupted"@.len() != "tool_result"@.len());
        reveal_strlit("carrier_tool_completed");
        assert("carrier_turn_interrupted"@.len() != "carrier_tool_completed"@.len());
        reveal_strlit("tool_result_received");
        assert("carrier_turn_interrupted"@.len() != "tool_result_received"@.len());
        reveal_strlit("turn_completed");
        assert("carrier_turn_interrupted"@.len() != "turn_completed"@.len());
        reveal_strlit("turn_complete");
        assert("carrier_turn_interrupted"@.len() != "turn_complete"@.len());
        reveal_strlit("carrier_turn_completed");
        assert("carrier_turn_interrupted"@.len() != "carrier_turn_completed"@.len());
        reveal_strlit("turn_failed");
        assert("carrier_turn_interrupted"@.len() != "turn_failed"@.len());
        reveal_strlit("carrier_turn_failed");
        assert("carrier_turn_interrupted"@.len() != "carrier_turn_failed"@.len());
    }
    assert(kind_of_name("session_closed"@) == SessionEventKind::CarrierSessionClosed) by {
        reveal_strlit("session_closed");
        reveal_strlit("session_started");
        assert("session_closed"@.len() != "session_started"@.len());
        reveal_strlit("carrier_session_started");
        assert("session_closed"@.len() != "carrier_session_started"@.len());
        reveal_strlit("input_queued");
        assert("session_closed"@.len() != "input_queued"@.len());
        reveal_strlit("input_queued_for_turn_boundary");
        assert("session_closed"@.len() != "input_queued_for_turn_boundary"@.len());
        reveal_strlit("operator_input_queued");
        assert("session_closed"@.len() != "operator_input_queued"@.len());
        reveal_strlit("user_message");
        assert("session_closed"@.len() != "user_message"@.len());
        reveal_strlit("operator_input_submitted");
        assert("session_closed"@.len() != "operator_input_submitted"@.len());
        reveal_strlit("input_admitted");
        assert("session_closed"@[0] != "input_admitted"@[0]);
        reveal_strlit("input_admitted_to_turn");
        assert("session_closed"@.len() != "input_admitted_to_turn"@.len());
        reveal_strlit("input_completed");
        assert("session_closed"@.len() != "input_completed"@.len());
        reveal_strlit("input_dropped");
        assert("session_closed"@.len() != "input_dropped"@.len());
        reveal_strlit("input_dropped_by_operator");
        assert("session_closed"@.len() != "input_dropped_by_operator"@.len());
        reveal_strlit("input_abandoned");
        assert("session_closed"@.len() != "input_abandoned"@.len());
        reveal_strlit("input_abandoned_on_session_end");
        assert("session_closed"@.len() != "input_abandoned_on_session_end"@.len());
        reveal_strlit("system_directive_held");
        assert("session_closed"@.len() != "system_directive_held"@.len());
        reveal_strlit("system_directive_released");
        assert("session_closed"@.len() != "system_directive_released"@.len());
        reveal_strlit("turn_started");
        assert("session_closed"@.len() != "turn_started"@.len());
        reveal_strlit("carrier_turn_started");
        assert("session_closed"@.len() != "carrier_turn_started"@.len());
        reveal_strlit("provider_request");
        assert("session_closed"@.len() != "provider_request"@.len());
        reveal_strlit("provider_request_recorded");
        assert("session_closed"@.len() != "provider_request_recorded"@.len());
        reveal_strlit("assistant_message");
        assert("session_closed"@.len() != "assistant_message"@.len());
        reveal_strlit("assistant_message_stream");
        assert("session_closed"@.len() != "assistant_message_stream"@.len());
        reveal_strlit("provider_text_delta");
        assert("session_closed"@.len() != "provider_text_delta"@.len());
        reveal_strlit("provider_text_delta_recorded");
        assert("session_closed"@.len() != "provider_text_delta_recorded"@.len());
        reveal_strlit("tool_call");
        assert("session_closed"@.len() != "tool_call"@.len());
        reveal_strlit("carrier_tool_requested");
        assert("session_closed"@.len() != "carrier_tool_requested"@.len());
        reveal_strlit("provider_tool_call_requested");
        assert("session_closed"@.len() != "provider_tool_call_requested"@.len());
        reveal_strlit("tool_call_requested");
        assert("session_closed"@.len() != "tool_call_requested"@.len());
        reveal_strlit("tool_result");
        assert("session_closed"@.len() != "tool_result"@.len());
        reveal_strlit("carrier_tool_completed");
        assert("session_closed"@.len() != "carrier_tool_completed"@.len());
        reveal_strlit("tool_result_received");
        assert("session_closed"@.len() != "tool_result_received"@.len());
        reveal_strlit("turn_completed");
        assert("session_closed"@[0] != "turn_completed"@[0]);
        reveal_strlit("turn_complete");
        assert("session_closed"@.len() != "turn_complete"@.len());
        reveal_strlit("carrier_turn_completed");
        assert("session_closed"@.len() != "carrier_turn_completed"@.len());
        reveal_strlit("turn_failed");
        assert("session_closed"@.len() != "turn_failed"@.len());
        reveal_strlit("carrier_turn_failed");
        assert("session_closed"@.len() != "carrier_turn_failed"@.len());
        reveal_strlit("turn_interrupted");
        assert("session_closed"@.len() != "turn_interrupted"@.len());
        reveal_strlit("carrier_turn_interrupted");
        assert("session_closed"@.len() != "carrier_turn_interrupted"@.len());
    }
    assert(kind_of_name("carrier_session_closed"@) == SessionEventKind::CarrierSessionClosed) by {
        reveal_strlit("carrier_session_closed");
        reveal_strlit("session_started");
        assert("carrier_session_closed"@.len() != "session_started"@.len());
        reveal_strlit("carrier_session_started");
        assert("carrier_session_closed"@.len() != "carrier_session_started"@.len());
        reveal_strlit("input_queued");
        assert("carrier_session_closed"@.len() != "input_queued"@.len());
        reveal_strlit("input_queued_for_turn_boundary");
        assert("carrier_session_closed"@.len() != "input_queued_for_turn_boundary"@.len());
        reveal_strlit("operator_input_queued");
        assert("carrier_session_closed"@.len() != "operator_input_queued"@.len());
        reveal_strlit("user_message");
        assert("carrier_session_closed"@.len() != "user_message"@.len());
        reveal_strlit("operator_input_submitted");
        assert("carrier_session_closed"@.len() != "operator_input_submitted"@.len());
        reveal_strlit("input_admitted");
        assert("carrier_session_closed"@.len() != "input_admitted"@.len());
        reveal_strlit("input_admitted_to_turn");
        assert("carrier_session_closed"@[0] != "input_admitted_to_turn"@[0]);
        reveal_strlit("input_completed");
        assert("carrier_session_closed"@.len() != "input_completed"@.len());
        reveal_strlit("input_dropped");
        assert("carrier_session_closed"@.len() != "input_dropped"@.len());
        reveal_strlit("input_dropped_by_operator");
        assert("carrier_session_closed"@.len() != "input_dropped_by_operator"@.len());
        reveal_strlit("input_abandoned");
        assert("carrier_session_closed"@.len() != "input_abandoned"@.len());
        reveal_strlit("input_abandoned_on_session_end");
        assert("carrier_session_closed"@.len() != "input_abandoned_on_session_end"@.len());
        reveal_strlit("system_directive_held");
        assert("carrier_session_closed"@.len() != "system_directive_held"@.len());
        reveal_strlit("system_directive_released");
        assert("carrier_session_closed"@.len() != "system_directive_released"@.len());
        reveal_strlit("turn_started");
        assert("carrier_session_closed"@.len() != "turn_started"@.len());
        reveal_strlit("carrier_turn_started");
        assert("carrier_session_closed"@.len() != "carrier_turn_started"@.len());
        reveal_strlit("provider_request");
        assert("carrier_session_closed"@.len() != "provider_request"@.len());
        reveal_strlit("provider_request_recorded");
        assert("carrier_session_closed"@.len() != "provider_request_recorded"@.len());
        reveal_strlit("assistant_message");
        assert("carrier_session_closed"@.len() != "assistant_message"@.len());
        reveal_strlit("assistant_message_stream");
        assert("carrier_session_closed"@.len() != "assistant_message_stream"@.len());
        reveal_strlit("provider_text_delta");
        assert("carrier_session_closed"@.len() != "provider_text_delta"@.len());
        reveal_strlit("provider_text_delta_recorded");
        assert("carrier_session_closed"@.len() != "provider_text_delta_recorded"@.len());
        reveal_strlit("tool_call");
        assert("carrier_session_closed"@.len() != "tool_call"@.len());
        reveal_strlit("carrier_tool_requested");
        assert("carrier_session_closed"@[8] != "carrier_tool_requested"@[8]);
        reveal_strlit("provider_tool_call_requested");
        assert("carrier_session_closed"@.len() != "provider_tool_call_requested"@.len());
        reveal_strlit("tool_call_requested");
        assert("carrier_session_closed"@.len() != "tool_call_requested"@.len());
        reveal_strlit("tool_result");
        assert("carrier_session_closed"@.len() != "tool_result"@.len());
        reveal_strlit("carrier_tool_completed");
        assert("carrier_session_closed"@[8] != "carrier_tool_completed"@[8]);
        reveal_strlit("tool_result_received");
        assert("carrier_session_closed"@.len() != "tool_result_received"@.len());
        reveal_strlit("turn_completed");
        assert("carrier_session_closed"@.len() != "turn_completed"@.len());
        reveal_strlit("turn_complete");
        assert("carrier_session_closed"@.len() != "turn_complete"@.len());
        reveal_strlit("carrier_turn_completed");
        assert("carrier_session_closed"@[8] != "carrier_turn_completed"@[8]);
        reveal_strlit("turn_failed");
        assert("carrier_session_closed"@.len() != "turn_failed"@.len());
        reveal_strlit("carrier_turn_failed");
        assert("carrier_session_closed"@.len() != "carrier_turn_failed"@.len());
        reveal_strlit("turn_interrupted");
        assert("carrier_session_closed"@.len() != "turn_interrupted"@.len());
        reveal_strlit("carrier_turn_interrupted");
        assert("carrier_session_closed"@.len() != "carrier_turn_interrupted"@.len());
    }
}

/// The first of `keys` whose member is text, and that text.
pub open spec fn first_text(entries: Seq<(Seq<char>, Json)>, keys: Seq<Seq<char>>) -> Option<Seq<char>>
    decreases keys.len(),
{
    if keys.len() == 0 {
        None
    } else {
        match entries_text(entries, keys[0]) {
            Some(s) => Some(s),
            None => first_text(entries, keys.drop_first()),
        }
    }
}

pub open spec fn or_text(o: Option<Seq<char>>, fallback: Seq<char>) -> Seq<char> {
    match o {
        Some(s) => s,
        None => fallback,
    }
}

/// The event name NARS gives an event, lower-cased with `-` read as `_`.
pub open spec fn event_name_of(entries: Seq<(Seq<char>, Json)>) -> Seq<char> {
    replace_char(
        ascii_lower(or_text(first_text(entries, seq!["event"@, "event_kind"@, "type"@, "kind"@]), "diagnostic"@)),
        '-',
        '_',
    )
}

/// The payload members before the event-kind specific fields: the object's
/// `payload` object (or nothing), then every top-level member whose key it
/// lacks, then the sequence when one is known.
pub open spec fn merged_payload(obj: Seq<(Seq<char>, Json)>) -> Seq<(Seq<char>, Json)> {
    let base = match entries_get(obj, "payload"@) {
        Some(Json::Object(p)) => p,
        _ => seq![],
    };
    merge_absent(base, obj)
}

/// The id a normalised event carries.
pub open spec fn normalized_event_id(obj: Seq<(Seq<char>, Json)>, sequence: Option<u64>) -> Seq<char> {
    match first_text(obj, seq!["event_id"@, "id"@, "request_id"@]) {
        Some(id) => id,
        None => match sequence {
            Some(n) => "nars-sequence-"@ + decimal(n as nat),
            None => "nars-event-"@ + decimal(merged_payload(obj).len()),
        },
    }
}

pub open spec fn json_text(s: Seq<char>) -> Json {
    Json::Str(s)
}

/// The payload fields added for the event's kind.
pub open spec fn kind_fields(
    p1: Seq<(Seq<char>, Json)>,
    kind: SessionEventKind,
    event_id: Seq<char>,
) -> Seq<(Seq<char>, Json)> {
    let source_kind = or_text(first_text(p1, seq!["source_kind"@, "source"@]), "operator"@);
    let p2 = if kind == SessionEventKind::InputAdmittedToTurn || kind == SessionEventKind::TurnStarted {
        let q = put_absent(put_absent(p1, "input_event_id"@, json_text(event_id)), "source_kind"@, json_text(source_kind));
        match first_text(q, seq!["content_preview"@, "content"@, "text"@, "message"@]) {
            Some(c) => put_absent(q, "content_preview"@, json_text(c)),
            None => q,
        }
    } else {
        p1
    };
    let p3 = if kind == SessionEventKind::ProviderTextDeltaRecorded {
        let q = match first_text(p2, seq!["text_delta"@, "text"@, "content"@, "message"@]) {
            Some(x) => put_absent(p2, "text_delta"@, json_text(x)),
            None => p2,
        };
        put_absent(q, "turn_id"@, json_text(Seq::empty()))
    } else {
        p2
    };
    let p4 = if kind == SessionEventKind::ProviderToolCallRequested {
        let tool = or_text(first_text(p3, seq!["tool_name"@, "name"@]), "tool"@);
        let q = put_absent(put_absent(p3, "tool_name"@, json_text(tool)), "turn_id"@, json_text(Seq::empty()));
        if entries_get(q, "arguments_summary"@) is None && entries_get(q, "arguments"@) is Some {
            q.push(("arguments_summary"@, json_text(compact_text(entries_get(q, "arguments"@)->Some_0))))
        } else {
            q
        }
    } else {
        p3
    };
    let p5 = if kind == SessionEventKind::ToolResultReceived {
        let tool = or_text(first_text(p4, seq!["tool_name"@, "name"@]), "tool"@);
        put_absent(put_absent(p4, "tool_name"@, json_text(tool)), "status"@, json_text("completed"@))
    } else {
        p4
    };
    let p6 = if kind == SessionEventKind::TurnStarted || kind == SessionEventKind::ProviderRequestRecorded {
        put_absent(p5, "turn_id"@, json_text(Seq::empty()))
    } else {
        p5
    };
    if kind == SessionEventKind::TurnCompleted || kind == SessionEventKind::TurnFailed || kind
        == SessionEventKind::TurnInterrupted {
        put_absent(p6, "turn_id"@, json_text(Seq::empty()))
    } else {
        p6
    }
}

/// The session event a raw NARS event normalises to: `None` unless the raw
/// value is an object.
pub open spec fn normalized_event(
    raw: Json,
    sequence: Option<u64>,
    identity: Option<Seq<char>>,
    session: Option<Seq<char>>,
    site_root: Option<Seq<char>>,
) -> Option<SessionEventView> {
    match raw {
        Json::Object(obj) => {
            let kind = kind_of_name(event_name_of(obj));
            let event_id = normalized_event_id(obj, sequence);
            let p1 = match sequence {
                Some(n) => put_absent(merged_payload(obj), "sequence"@, Json::Number(NumberView::Unsigned(n))),
                None => merged_payload(obj),
            };
            Some(SessionEventView {
                schema: protocol_schemas_session_event(),
                event_kind: kind,
                event_id,
                occurred_at: or_text(first_text(obj, seq!["occurred_at"@, "timestamp"@, "created_at"@]), Seq::empty()),
                carrier_session_id: or_text(
                    first_text(obj, seq!["session_id"@, "carrier_session_id"@]),
                    or_text(session, Seq::empty()),
                ),
                agent_id: or_text(entries_text(obj, "agent_id"@), or_text(identity, Seq::empty())),
                site_id: or_text(entries_text(obj, "site_id"@), Seq::empty()),
                site_root: or_text(entries_text(obj, "site_root"@), or_text(site_root, Seq::empty())),
                payload: Json::Object(kind_fields(p1, kind, event_id)),
            })
        },
        _ => None,
    }
}

pub open spec fn opt_event_view(r: Option<SessionEvent>) -> Option<SessionEventView> {
    match r {
        Some(e) => Some(e@),
        None => None,
    }
}

/// The first of `keys` whose member is text.
pub fn first_text_of(entries: &Vec<(String, JsonValue)>, keys: &[&str]) -> (r: Option<String>)
    ensures
        crate::json::opt_str_view(r) == first_text(entries_view(entries@), keys@.map_values(|k: &str| k@)),
{
    let ghost ks = keys@.map_values(|k: &str| k@);
    let mut i: usize = 0;
    assert(ks.skip(0) =~= ks);
    while i < keys.len()
        invariant
            i <= keys.len(),
            ks == keys@.map_values(|k: &str| k@),
            first_text(entries_view(entries@), ks) == first_text(entries_view(entries@), ks.skip(i as int)),
        decreases keys.len() - i,
    {
        assert(ks.skip(i as int).drop_first() =~= ks.skip(i + 1));
        assert(ks.skip(i as int)[0] == keys@[i as int]@);
        let t = entry_text(entries, keys[i]);
        if t.is_some() {
            return t;
        }
        i = i + 1;
    }
    None
}

fn text_or(o: Option<String>, fallback: &str) -> (r: String)
    ensures
        r@ == or_text(crate::json::opt_str_view(o), fallback@),
{
    match o {
        Some(s) => s,
        None => owned(fallback),
    }
}

fn text_or_owned(o: Option<String>, fallback: Option<&str>) -> (r: String)
    ensures
        r@ == or_text(
            crate::json::opt_str_view(o),
            or_text(
                match fallback {
                    Some(f) => Some(f@),
                    None => None,
                },
                Seq::empty(),
            ),
        ),
{
    match o {
        Some(s) => s,
        None => match fallback {
            Some(f) => owned(f),
            None => String::new(),
        },
    }
}

/// The normalised NARS event name.
pub fn event_name(entries: &Vec<(String, JsonValue)>) -> (r: String)
    ensures
        r@ == event_name_of(entries_view(entries@)),
{
    let raw = text_or(first_text_of(entries, &["event", "event_kind", "type", "kind"]), "diagnostic");
    proof {
        assert(["event", "event_kind", "type", "kind"]@.map_values(|k: &str| k@) =~= seq![
            "event"@,
            "event_kind"@,
            "type"@,
            "kind"@,
        ]);
    }
    let lower = to_ascii_lower(raw.as_str());
    replace_char_exec(lower.as_str(), '-', '_')
}

fn text_value(s: String) -> (r: JsonValue)
    ensures
        r@ == json_text(s@),
{
    JsonValue::Str(s)
}

fn merged_payload_of(obj: &Vec<(String, JsonValue)>) -> (r: Vec<(String, JsonValue)>)
    ensures
        entries_view(r@) == merged_payload(entries_view(obj@)),
{
    let mut payload: Vec<(String, JsonValue)> = match find_entry(obj, "payload") {
        Some(i) => match object_entries(&obj[i].1) {
            Some(p) => crate::json::copy_entries(p),
            None => Vec::new(),
        },
        None => Vec::new(),
    };
    let ghost ov = entries_view(obj@);
    assert(entries_view(payload@) =~= match entries_get(ov, "payload"@) {
        Some(Json::Object(p)) => p,
        _ => seq![],
    });
    assert(ov.skip(0) =~= ov);
    let mut i: usize = 0;
    while i < obj.len()
        invariant
            i <= obj.len(),
            ov == entries_view(obj@),
            merged_payload(ov) == merge_absent(entries_view(payload@), ov.skip(i as int)),
        decreases obj.len() - i,
    {
        assert(ov.skip(i as int).drop_first() =~= ov.skip(i + 1));
        assert(ov.skip(i as int)[0] == (obj@[i as int].0@, obj@[i as int].1@));
        let value = copy_json(&obj[i].1);
        put_if_absent(&mut payload, obj[i].0.as_str(), value);
        i = i + 1;
    }
    assert(ov.skip(i as int) =~= Seq::<(Seq<char>, Json)>::empty());
    payload
}

fn add_kind_fields(payload: &mut Vec<(String, JsonValue)>, kind: SessionEventKind, event_id: &str)
    ensures
        entries_view(final(payload)@) == kind_fields(entries_view(old(payload)@), kind, event_id@),
{
    let ghost p1 = entries_view(payload@);
    let source_kind = text_or(first_text_of(payload, &["source_kind", "source"]), "operator");
    assert(["source_kind", "source"]@.map_values(|k: &str| k@) =~= seq!["source_kind"@, "source"@]);
    if kind == SessionEventKind::InputAdmittedToTurn || kind == SessionEventKind::TurnStarted {
        put_if_absent(payload, "input_event_id", text_value(owned(event_id)));
        put_if_absent(payload, "source_kind", text_value(source_kind));
        let content = first_text_of(payload, &["content_preview", "content", "text", "message"]);
        assert(["content_preview", "content", "text", "message"]@.map_values(|k: &str| k@) =~= seq![
            "content_preview"@,
            "content"@,
            "text"@,
            "message"@,
        ]);
        if let Some(c) = content {
            put_if_absent(payload, "content_preview", text_value(c));
        }
    }
    let ghost p2 = entries_view(payload@);
    if kind == SessionEventKind::ProviderTextDeltaRecorded {
        let text = first_text_of(payload, &["text_delta", "text", "content", "message"]);
        assert(["text_delta", "text", "content", "message"]@.map_values(|k: &str| k@) =~= seq![
            "text_delta"@,
            "text"@,
            "content"@,
            "message"@,
        ]);
        if let Some(x) = text {
            put_if_absent(payload, "text_delta", text_value(x));
        }
        put_if_absent(payload, "turn_id", text_value(String::new()));
    }
    let ghost p3 = entries_view(payload@);
    if kind == SessionEventKind::ProviderToolCallRequested {
        let tool = text_or(first_text_of(payload, &["tool_name", "name"]), "tool");
        assert(["tool_name", "name"]@.map_values(|k: &str| k@) =~= seq!["tool_name"@, "name"@]);
        put_if_absent(payload, "tool_name", text_value(tool));
        put_if_absent(payload, "turn_id", text_value(String::new()));
        if find_entry(payload, "arguments_summary").is_none() {
            if let Some(i) = find_entry(payload, "arguments") {
                let summary = to_compact_text(&payload[i].1);
                let ghost before = payload@;
                payload.push((owned("arguments_summary"), text_value(summary)));
                assert(entries_view(payload@) =~= entries_view(before).push(
                    ("arguments_summary"@, json_text(summary@)),
                ));
            }
        }
    }
    let ghost p4 = entries_view(payload@);
    if kind == SessionEventKind::ToolResultReceived {
        let tool = text_or(first_text_of(payload, &["tool_name", "name"]), "tool");
        assert(["tool_name", "name"]@.map_values(|k: &str| k@) =~= seq!["tool_name"@, "name"@]);
        put_if_absent(payload, "tool_name", text_value(tool));
        put_if_absent(payload, "status", text_value(owned("completed")));
    }
    if kind == SessionEventKind::TurnStarted || kind == SessionEventKind::ProviderRequestRecorded {
        put_if_absent(payload, "turn_id", text_value(String::new()));
    }
    if kind == SessionEventKind::TurnCompleted || kind == SessionEventKind::TurnFailed || kind
        == SessionEventKind::TurnInterrupted {
        put_if_absent(payload, "turn_id", text_value(String::new()));
    }
}

/// Normalises a raw NARS event into a carrier session event; `None` when
/// the raw value is not an object.
pub fn normalize_nars_event(
    raw: &JsonValue,
    sequence: Option<u64>,
    identity: Option<&str>,
    session: Option<&str>,
    site_root: Option<&str>,
) -> (r: Option<SessionEvent>)
    ensures
        opt_event_view(r) == normalized_event(
            raw@,
            sequence,
            match identity {
                Some(s) => Some(s@),
                None => None,
            },
            match session {
                Some(s) => Some(s@),
                None => None,
            },
            match site_root {
                Some(s) => Some(s@),
                None => None,
            },
        ),
{
    let obj = match object_entries(raw) {
        Some(o) => o,
        None => {
            return None;
        },
    };
    let ghost ov = entries_view(obj@);
    let name = event_name(obj);
    let kind = event_kind(name.as_str());
    let mut payload = merged_payload_of(obj);
    let event_id: String = match first_text_of(obj, &["event_id", "id", "request_id"]) {
        Some(id) => id,
        None => match sequence {
            Some(n) => concat("nars-sequence-", u64_decimal(n).as_str()),
            None => concat("nars-event-", u64_decimal(payload.len() as u64).as_str()),
        },
    };
    assert(["event_id", "id", "request_id"]@.map_values(|k: &str| k@) =~= seq!["event_id"@, "id"@, "request_id"@]);
    let occurred_at = text_or(first_text_of(obj, &["occurred_at", "timestamp", "created_at"]), "");
    assert(["occurred_at", "timestamp", "created_at"]@.map_values(|k: &str| k@) =~= seq![
        "occurred_at"@,
        "timestamp"@,
        "created_at"@,
    ]);
    proof {
        reveal_strlit("");
    }
    let carrier_session_id = text_or_owned(first_text_of(obj, &["session_id", "carrier_session_id"]), session);
    assert(["session_id", "carrier_session_id"]@.map_values(|k: &str| k@) =~= seq![
        "session_id"@,
        "carrier_session_id"@,
    ]);
    let agent_id = text_or_owned(entry_text(obj, "agent_id"), identity);
    let site_id = text_or(entry_text(obj, "site_id"), "");
    let root = text_or_owned(entry_text(obj, "site_root"), site_root);
    if let Some(n) = sequence {
        put_if_absent(&mut payload, "sequence", JsonValue::Number(JsonNumber::Unsigned(n)));
    }
    add_kind_fields(&mut payload, kind, event_id.as_str());
    proof {
        lemma_object_view(payload);
        assert(""@ =~= Seq::<char>::empty());
    }
    assert(kind == kind_of_name(event_name_of(ov)));
    assert(event_id@ == normalized_event_id(ov, sequence));
    assert(occurred_at@ == or_text(first_text(ov, seq!["occurred_at"@, "timestamp"@, "created_at"@]), Seq::empty()));
    assert(site_id@ == or_text(entries_text(ov, "site_id"@), Seq::empty()));
    Some(SessionEvent {
        schema: session_event_schema(),
        event_kind: kind,
        event_id,
        occurred_at,
        carrier_session_id,
        agent_id,
        site_id,
        site_root: root,
        payload: JsonValue::Object(payload),
    })
}

/// The replay state of an attached projection client: the sequence range
/// seen so far, the event ids already delivered, whether older history is
/// exhausted, and the request counter.
#[derive(Debug)]
pub struct ReplayCursor {
    last_sequence: Option<u64>,
    oldest_sequence: Option<u64>,
    history_exhausted: bool,
    seen_event_ids: Vec<String>,
    request_counter: u64,
}

/// The mathematical form of a replay cursor.
pub struct CursorView {
    pub last_sequence: Option<u64>,
    pub oldest_sequence: Option<u64>,
    pub history_exhausted: bool,
    pub seen: Seq<Seq<char>>,
    pub request_counter: u64,
}

impl View for ReplayCursor {
    type V = CursorView;

    closed spec fn view(&self) -> CursorView {
        CursorView {
            last_sequence: self.last_sequence,
            oldest_sequence: self.oldest_sequence,
            history_exhausted: self.history_exhausted,
            seen: crate::text::strs(self.seen_event_ids@),
            request_counter: self.request_counter,
        }
    }
}

/// No event id occurs twice.
pub open spec fn distinct_ids(s: Seq<Seq<char>>) -> bool {
    forall|i: int, j: int| 0 <= i < j < s.len() ==> s[i] != s[j]
}

pub open spec fn max_seq(a: Option<u64>, n: u64) -> u64 {
    match a {
        Some(l) => if l >= n {
            l
        } else {
            n
        },
        None => n,
    }
}

pub open spec fn min_seq(a: Option<u64>, n: u64) -> u64 {
    match a {
        Some(l) => if l <= n {
            l
        } else {
            n
        },
        None => n,
    }
}

/// What delivering a raw event at a sequence does: the sequence range grows
/// to cover it, and the normalised event comes out only when its id is new.
pub open spec fn accept_view(c: CursorView, raw: Json, sequence: Option<u64>) -> (CursorView, Option<SessionEventView>) {
    match normalized_event(raw, sequence, None, None, None) {
        None => (c, None),
        Some(e) => {
            let c1 = match sequence {
                Some(n) => CursorView {
                    last_sequence: Some(max_seq(c.last_sequence, n)),
                    oldest_sequence: Some(min_seq(c.oldest_sequence, n)),
                    ..c
                },
                None => c,
            };
            if c1.seen.contains(e.event_id) {
                (c1, None)
            } else {
                (CursorView { seen: c1.seen.push(e.event_id), ..c1 }, Some(e))
            }
        },
    }
}

/// The unsigned number at `v[outer][inner]`.
pub open spec fn nested_unsigned(v: Json, outer: Seq<char>, inner: Seq<char>) -> Option<u64> {
    match crate::json::field(v, outer) {
        Some(o) => match crate::json::field(o, inner) {
            Some(x) => crate::json::as_unsigned(x),
            None => None,
        },
        None => None,
    }
}

pub open spec fn unsigned_field(v: Json, key: Seq<char>) -> Option<u64> {
    match crate::json::field(v, key) {
        Some(x) => crate::json::as_unsigned(x),
        None => None,
    }
}

/// The sequence a live frame carries: its cursor's, else its payload's.
pub open spec fn live_sequence(frame: Json) -> Option<u64> {
    match nested_unsigned(frame, "cursor"@, "sequence"@) {
        Some(n) => Some(n),
        None => nested_unsigned(frame, "payload"@, "event_sequence"@),
    }
}

/// What a live `session_event` frame does: frames at or below the last
/// sequence seen are dropped; others deliver their payload.
pub open spec fn live_view(c: CursorView, frame: Json) -> (CursorView, Option<SessionEventView>) {
    let sequence = live_sequence(frame);
    if c.last_sequence is Some && sequence is Some && sequence->Some_0 <= c.last_sequence->Some_0 {
        (c, None)
    } else {
        let payload = match crate::json::field(frame, "payload"@) {
            Some(p) => p,
            None => Json::Null,
        };
        accept_view(c, payload, sequence)
    }
}

/// The sequence a history record carries.
pub open spec fn history_sequence(raw: Json) -> Option<u64> {
    match unsigned_field(raw, "event_sequence"@) {
        Some(n) => Some(n),
        None => unsigned_field(raw, "sequence"@),
    }
}

/// Delivering history records in order.
pub open spec fn accept_history(c: CursorView, records: Seq<Json>) -> (CursorView, Seq<SessionEventView>)
    decreases records.len(),
{
    if records.len() == 0 {
        (c, seq![])
    } else {
        let (c1, e) = accept_view(c, records[0], history_sequence(records[0]));
        let (c2, rest) = accept_history(c1, records.drop_first());
        (c2, match e {
            Some(ev) => seq![ev] + rest,
            None => rest,
        })
    }
}

/// A sequence bound that only grows: once `before` is known, `after` is
/// known and not below it.
pub open spec fn not_below(before: Option<u64>, after: Option<u64>) -> bool {
    before matches Some(l) ==> (after matches Some(m) && m >= l)
}

/// A sequence bound that only shrinks: once `before` is known, `after` is
/// known and not above it.
pub open spec fn not_above(before: Option<u64>, after: Option<u64>) -> bool {
    before matches Some(l) ==> (after matches Some(m) && m <= l)
}

/// Delivering an event never moves the cursor backwards: the last sequence
/// only grows and the oldest only shrinks; an event delivered at sequence
/// `n` leaves the last sequence at the larger of the old one and `n`, and
/// the oldest at the smaller.
pub proof fn lemma_accept_keeps_sequence_range(c: CursorView, raw: Json, sequence: Option<u64>)
    ensures
        not_below(c.last_sequence, accept_view(c, raw, sequence).0.last_sequence),
        not_above(c.oldest_sequence, accept_view(c, raw, sequence).0.oldest_sequence),
        (normalized_event(raw, sequence, None, None, None) is Some && sequence is Some) ==> (accept_view(
            c,
            raw,
            sequence,
        ).0.last_sequence matches Some(m) && m >= sequence->Some_0 && (m == sequence->Some_0 || c.last_sequence == Some(m))),
        (normalized_event(raw, sequence, None, None, None) is Some && sequence is Some) ==> (accept_view(
            c,
            raw,
            sequence,
        ).0.oldest_sequence matches Some(m) && m <= sequence->Some_0 && (m == sequence->Some_0 || c.oldest_sequence == Some(m))),
{
}

/// Delivering a page of history records never lowers the last sequence nor
/// raises the oldest one.
pub proof fn lemma_history_keeps_sequence_range(c: CursorView, records: Seq<Json>)
    ensures
        not_below(c.last_sequence, accept_history(c, records).0.last_sequence),
        not_above(c.oldest_sequence, accept_history(c, records).0.oldest_sequence),
    decreases records.len(),
{
    if records.len() > 0 {
        let c1 = accept_view(c, records[0], history_sequence(records[0])).0;
        lemma_accept_keeps_sequence_range(c, records[0], history_sequence(records[0]));
        lemma_history_keeps_sequence_range(c1, records.drop_first());
    }
}

/// Whatever frame arrives, live or a history page, and whenever a history
/// read starts, the cursor's last sequence never decreases, so a
/// resubscription never asks again for events already seen.
pub proof fn lemma_cursor_never_moves_back(c: CursorView, frame: Json, request_id: Seq<char>)
    ensures
        not_below(c.last_sequence, live_view(c, frame).0.last_sequence),
        not_below(c.last_sequence, poll_view(c, frame).0.last_sequence),
        not_below(c.last_sequence, history_view(c, frame, request_id).0.last_sequence),
        not_below(c.last_sequence, history_read_view(c).0.last_sequence),
        not_above(c.oldest_sequence, poll_view(c, frame).0.oldest_sequence),
        not_above(c.oldest_sequence, history_view(c, frame, request_id).0.oldest_sequence),
{
    let payload = match crate::json::field(frame, "payload"@) {
        Some(p) => p,
        None => Json::Null,
    };
    lemma_accept_keeps_sequence_range(c, payload, live_sequence(frame));
    let records = match crate::json::field(frame, "events"@) {
        Some(Json::Array(a)) => a,
        _ => seq![],
    };
    lemma_history_keeps_sequence_range(c, records);
}

/// The cursor only adds to the ids it has seen, and delivers an event only
/// when its id was not seen before, recording it; so over any run of
/// deliveries, live or from history, no event id is delivered twice.
pub proof fn lemma_cursor_delivers_each_id_once(c: CursorView, raw: Json, sequence: Option<u64>, frame: Json)
    ensures
        c.seen.is_prefix_of(accept_view(c, raw, sequence).0.seen),
        accept_view(c, raw, sequence).1 matches Some(e) ==> !c.seen.contains(e.event_id)
            && accept_view(c, raw, sequence).0.seen.contains(e.event_id),
        c.seen.is_prefix_of(live_view(c, frame).0.seen),
        live_view(c, frame).1 matches Some(e) ==> !c.seen.contains(e.event_id) && live_view(
            c,
            frame,
        ).0.seen.contains(e.event_id),
{
    assert(c.seen.is_prefix_of(c.seen));
    match normalized_event(raw, sequence, None, None, None) {
        Some(e) => {
            assert(c.seen.is_prefix_of(c.seen.push(e.event_id)));
            assert(c.seen.push(e.event_id)[c.seen.len() as int] == e.event_id);
        },
        None => {},
    }
    let sequence2 = live_sequence(frame);
    let payload = match crate::json::field(frame, "payload"@) {
        Some(p) => p,
        None => Json::Null,
    };
    match normalized_event(payload, sequence2, None, None, None) {
        Some(e) => {
            assert(c.seen.is_prefix_of(c.seen.push(e.event_id)));
            assert(c.seen.push(e.event_id)[c.seen.len() as int] == e.event_id);
        },
        None => {},
    }
}

fn nested_unsigned_of(v: &JsonValue, outer: &str, inner: &str) -> (r: Option<u64>)
    ensures
        r == nested_unsigned(v@, outer@, inner@),
{
    match crate::json::get(v, outer) {
        Some(o) => match crate::json::get(o, inner) {
            Some(x) => crate::json::get_unsigned(x),
            None => None,
        },
        None => None,
    }
}

fn unsigned_field_of(v: &JsonValue, key: &str) -> (r: Option<u64>)
    ensures
        r == unsigned_field(v@, key@),
{
    match crate::json::get(v, key) {
        Some(x) => crate::json::get_unsigned(x),
        None => None,
    }
}

impl ReplayCursor {
    /// No event id is recorded twice.
    #[verifier::type_invariant]
    spec fn seen_ids_distinct(self) -> bool {
        distinct_ids(crate::text::strs(self.seen_event_ids@))
    }

    /// The highest sequence delivered so far.
    pub fn last_sequence(&self) -> (r: Option<u64>)
        ensures
            r == self@.last_sequence,
    {
        self.last_sequence
    }

    /// The lowest sequence delivered so far.
    pub fn oldest_sequence(&self) -> (r: Option<u64>)
        ensures
            r == self@.oldest_sequence,
    {
        self.oldest_sequence
    }

    /// Whether no older history is left to read.
    pub fn history_exhausted(&self) -> (r: bool)
        ensures
            r == self@.history_exhausted,
    {
        self.history_exhausted
    }

    /// A cursor that has seen nothing.
    pub fn new() -> (r: Self)
        ensures
            r@.last_sequence is None,
            r@.oldest_sequence is None,
            !r@.history_exhausted,
            r@.seen == Seq::<Seq<char>>::empty(),
            r@.request_counter == 0,
    {
        let r = ReplayCursor {
            last_sequence: None,
            oldest_sequence: None,
            history_exhausted: false,
            seen_event_ids: Vec::new(),
            request_counter: 0,
        };
        assert(r@.seen =~= Seq::<Seq<char>>::empty());
        r
    }

    fn has_seen(&self, id: &str) -> (r: bool)
        ensures
            r == self@.seen.contains(id@),
    {
        crate::text::list_contains(&self.seen_event_ids, id)
    }

    /// Delivers a raw event at a sequence (`normalize_event_value`).
    pub fn accept_event(&mut self, raw: &JsonValue, sequence: Option<u64>) -> (r: Option<SessionEvent>)
        ensures
            (final(self)@, opt_event_view(r)) == accept_view(old(self)@, raw@, sequence),
            distinct_ids(final(self)@.seen),
    {
        proof {
            use_type_invariant(&*self);
        }
        let event = match normalize_nars_event(raw, sequence, None, None, None) {
            Some(e) => e,
            None => {
                return None;
            },
        };
        if let Some(n) = sequence {
            self.last_sequence = Some(
                match self.last_sequence {
                    Some(l) => if l >= n {
                        l
                    } else {
                        n
                    },
                    None => n,
                },
            );
            self.oldest_sequence = Some(
                match self.oldest_sequence {
                    Some(o) => if o <= n {
                        o
                    } else {
                        n
                    },
                    None => n,
                },
            );
        }
        if self.has_seen(event.event_id.as_str()) {
            return None;
        }
        let ghost before = self.seen_event_ids@;
        let mut seen: Vec<String> = Vec::new();
        std::mem::swap(&mut seen, &mut self.seen_event_ids);
        seen.push(event.event_id.clone());
        assert(crate::text::strs(seen@) =~= crate::text::strs(before).push(event.event_id@));
        self.seen_event_ids = seen;
        Some(event)
    }

    /// Handles a live `session_event` frame (`normalize_live_frame`).
    pub fn accept_live_frame(&mut self, frame: &JsonValue) -> (r: Option<SessionEvent>)
        ensures
            (final(self)@, opt_event_view(r)) == live_view(old(self)@, frame@),
            distinct_ids(final(self)@.seen),
    {
        proof {
            use_type_invariant(&*self);
        }
        let sequence = match nested_unsigned_of(frame, "cursor", "sequence") {
            Some(n) => Some(n),
            None => nested_unsigned_of(frame, "payload", "event_sequence"),
        };
        if let (Some(last), Some(value)) = (self.last_sequence, sequence) {
            if value <= last {
                return None;
            }
        }
        match crate::json::get(frame, "payload") {
            Some(p) => self.accept_event(p, sequence),
            None => self.accept_event(&JsonValue::Null, sequence),
        }
    }

    /// Delivers history records in order (`normalize_history_value` on each).
    pub fn accept_history_records(&mut self, records: &Vec<JsonValue>) -> (r: Vec<SessionEvent>)
        ensures
            (final(self)@, r@.map_values(|e: SessionEvent| e@)) == accept_history(
                old(self)@,
                records@.map_values(|x: JsonValue| x@),
            ),
            distinct_ids(final(self)@.seen),
    {
        proof {
            use_type_invariant(&*self);
        }
        let ghost all = records@.map_values(|x: JsonValue| x@);
        let ghost start = self@;
        let mut out: Vec<SessionEvent> = Vec::new();
        let mut i: usize = 0;
        assert(all.skip(0) =~= all);
        assert(out@.map_values(|e: SessionEvent| e@) =~= Seq::<SessionEventView>::empty());
        while i < records.len()
            invariant
                i <= records.len(),
                all == records@.map_values(|x: JsonValue| x@),
                distinct_ids(self@.seen),
                accept_history(start, all) == (
                    accept_history(self@, all.skip(i as int)).0,
                    out@.map_values(|e: SessionEvent| e@) + accept_history(self@, all.skip(i as int)).1,
                ),
            decreases records.len() - i,
        {
            assert(all.skip(i as int).drop_first() =~= all.skip(i + 1));
            assert(all.skip(i as int)[0] == records@[i as int]@);
            let raw = &records[i];
            let sequence = match unsigned_field_of(raw, "event_sequence") {
                Some(n) => Some(n),
                None => unsigned_field_of(raw, "sequence"),
            };
            let ghost before_out = out@.map_values(|e: SessionEvent| e@);
            match self.accept_event(raw, sequence) {
                Some(e) => {
                    out.push(e);
                    assert(out@.map_values(|e: SessionEvent| e@) =~= before_out.push(e@));
                    assert(before_out + (seq![e@] + accept_history(self@, all.skip(i + 1)).1) =~= out@.map_values(
                        |e: SessionEvent| e@,
                    ) + accept_history(self@, all.skip(i + 1)).1);
                },
                None => {},
            }
            i = i + 1;
        }
        assert(all.skip(i as int) =~= Seq::<Json>::empty());
        assert(out@.map_values(|e: SessionEvent| e@) + Seq::<SessionEventView>::empty() =~= out@.map_values(
            |e: SessionEvent| e@,
        ));
        out
    }
}

/// What one server frame means while polling live events.
#[derive(Debug)]
pub enum PollStep {
    /// A `session_event` frame, and the event it delivers if any.
    Event(Option<SessionEvent>),
    /// A `websocket_error` frame: the error to report.
    ServerError(String),
    /// Any other frame.
    Skip,
}

/// What one server frame means while waiting for an older history page.
#[derive(Debug)]
pub enum HistoryStep {
    /// A live `session_event` frame that arrived meanwhile.
    Live(Option<SessionEvent>),
    /// A `websocket_error` frame: the error to report.
    ServerError(String),
    /// The requested page: its new events, oldest first.
    Page(Vec<SessionEvent>),
    /// Any other frame.
    Skip,
}

pub open spec fn counter_after(c: u64) -> u64 {
    if c == u64::MAX {
        c
    } else {
        (c + 1) as u64
    }
}

pub open spec fn unsigned_json(n: u64) -> Json {
    Json::Number(NumberView::Unsigned(n))
}

/// A NARS request frame.
pub open spec fn request_frame_view(counter: u64, method: Seq<char>, params: Json) -> Json {
    Json::Object(seq![
        ("id"@, Json::Str("agent-tui-"@ + decimal(counter as nat))),
        ("method"@, Json::Str(method)),
        ("params"@, params),
    ])
}

/// The parameters of the event subscription.
pub open spec fn subscribe_params_view(last: Option<u64>, subscription_id: Seq<char>) -> Json {
    let base = seq![
        ("include_replay"@, Json::Bool(true)),
        ("page_size"@, unsigned_json(100)),
        ("view"@, Json::Str("raw"@)),
        ("subscription_id"@, Json::Str(subscription_id)),
    ];
    Json::Object(
        match last {
            Some(n) => base.push(("since_sequence"@, unsigned_json(n))),
            None => base,
        },
    )
}

/// The parameters of a submission: none for blank text; steering metadata
/// while a turn is active.
pub open spec fn submit_params_view(text: Seq<char>, active_turn_id: Option<Seq<char>>) -> Option<Json> {
    let t = crate::text::trim(text);
    if t.len() == 0 {
        None
    } else {
        match active_turn_id {
            Some(id) => Some(
                Json::Object(
                    seq![
                        ("content"@, Json::Str(t)),
                        ("source"@, Json::Str("operator_steering"@)),
                        ("delivery_mode"@, Json::Str("admit_after_active_turn"@)),
                        ("active_turn_id"@, Json::Str(id)),
                    ],
                ),
            ),
            None => Some(
                Json::Object(seq![("content"@, Json::Str(t)), ("source"@, Json::Str("manual_operator"@))]),
            ),
        }
    }
}

/// The request for the page of history before a sequence.
pub open spec fn history_request_view(counter: u64, before: u64) -> Json {
    Json::Object(
        seq![
            ("id"@, Json::Str("agent-tui-history-"@ + decimal(counter as nat))),
            ("method"@, Json::Str("session.events.read"@)),
            (
                "params"@,
                Json::Object(
                    seq![
                        ("before_sequence"@, unsigned_json(before)),
                        ("direction"@, Json::Str("backward"@)),
                        ("limit"@, unsigned_json(100)),
                        ("view"@, Json::Str("raw"@)),
                    ],
                ),
            ),
        ],
    )
}

/// The error a `websocket_error` frame reports.
pub open spec fn server_error_view(frame: Json) -> Seq<char> {
    "nars_attach_server_error:"@ + or_text(crate::json::text_field(frame, "code"@), "unknown"@)
}

/// The mathematical form of a poll step.
pub enum PollStepView {
    Event(Option<SessionEventView>),
    ServerError(Seq<char>),
    Skip,
}

/// The mathematical form of a history step.
pub enum HistoryStepView {
    Live(Option<SessionEventView>),
    ServerError(Seq<char>),
    Page(Seq<SessionEventView>),
    Skip,
}

pub open spec fn poll_step_view(s: PollStep) -> PollStepView {
    match s {
        PollStep::Event(e) => PollStepView::Event(opt_event_view(e)),
        PollStep::ServerError(m) => PollStepView::ServerError(m@),
        PollStep::Skip => PollStepView::Skip,
    }
}

pub open spec fn history_step_view(s: HistoryStep) -> HistoryStepView {
    match s {
        HistoryStep::Live(e) => HistoryStepView::Live(opt_event_view(e)),
        HistoryStep::ServerError(m) => HistoryStepView::ServerError(m@),
        HistoryStep::Page(p) => HistoryStepView::Page(p@.map_values(|e: SessionEvent| e@)),
        HistoryStep::Skip => HistoryStepView::Skip,
    }
}

pub open spec fn history_read_result(r: Option<(String, JsonValue)>) -> Option<(Seq<char>, Json)> {
    match r {
        Some((id, frame)) => Some((id@, frame@)),
        None => None,
    }
}

/// Starting a history read.
pub open spec fn history_read_view(c: CursorView) -> (CursorView, Option<(Seq<char>, Json)>) {
    if c.history_exhausted {
        (c, None)
    } else {
        match c.oldest_sequence {
            None => (CursorView { history_exhausted: true, ..c }, None),
            Some(before) => {
                let n = counter_after(c.request_counter);
                (
                    CursorView { request_counter: n, ..c },
                    Some(("agent-tui-history-"@ + decimal(n as nat), history_request_view(n, before))),
                )
            },
        }
    }
}

/// One frame while polling.
pub open spec fn poll_view(c: CursorView, frame: Json) -> (CursorView, PollStepView) {
    let event = crate::json::text_field(frame, "event"@);
    if event == Some("session_event"@) {
        let (c1, e) = live_view(c, frame);
        (c1, PollStepView::Event(e))
    } else if event == Some("websocket_error"@) {
        (c, PollStepView::ServerError(server_error_view(frame)))
    } else {
        (c, PollStepView::Skip)
    }
}

/// One frame while waiting for a history page.
pub open spec fn history_view(c: CursorView, frame: Json, request_id: Seq<char>) -> (CursorView, HistoryStepView) {
    let event = crate::json::text_field(frame, "event"@);
    if event == Some("websocket_error"@) {
        (c, HistoryStepView::ServerError(server_error_view(frame)))
    } else if event == Some("session_event"@) {
        let (c1, e) = live_view(c, frame);
        (c1, HistoryStepView::Live(e))
    } else if event != Some("session_events_read"@) || crate::json::text_field(frame, "request_id"@) != Some(
        request_id,
    ) {
        (c, HistoryStepView::Skip)
    } else {
        let records = match crate::json::field(frame, "events"@) {
            Some(Json::Array(a)) => a,
            _ => seq![],
        };
        let (c1, events) = accept_history(c, records);
        (
            CursorView {
                history_exhausted: crate::json::field(frame, "has_more"@) != Some(Json::Bool(true)),
                ..c1
            },
            HistoryStepView::Page(events),
        )
    }
}

fn member(key: &str, value: JsonValue) -> (r: (String, JsonValue))
    ensures
        r.0@ == key@,
        r.1@ == value@,
{
    (owned(key), value)
}

fn object_of(entries: Vec<(String, JsonValue)>) -> (r: JsonValue)
    ensures
        r@ == Json::Object(entries_view(entries@)),
{
    proof {
        lemma_object_view(entries);
    }
    JsonValue::Object(entries)
}

fn str_value(s: &str) -> (r: JsonValue)
    ensures
        r@ == Json::Str(s@),
{
    JsonValue::Str(owned(s))
}

fn server_error(frame: &JsonValue) -> (r: String)
    ensures
        r@ == server_error_view(frame@),
{
    let code = text_or(crate::json::text_of(frame, "code"), "unknown");
    concat("nars_attach_server_error:", code.as_str())
}

fn event_field_is(frame: &JsonValue, expected: &str) -> (r: bool)
    ensures
        r == (crate::json::text_field(frame@, "event"@) == Some(expected@)),
{
    match crate::json::text_of(frame, "event") {
        Some(e) => str_eq(e.as_str(), expected),
        None => false,
    }
}

/// The parameters of a submission, or `None` when the text is blank and
/// nothing is sent.
pub fn submit_params(text: &str, active_turn_id: Option<&str>) -> (r: Option<JsonValue>)
    ensures
        match r {
            Some(p) => submit_params_view(
                text@,
                match active_turn_id {
                    Some(s) => Some(s@),
                    None => None,
                },
            ) == Some(p@),
            None => submit_params_view(
                text@,
                match active_turn_id {
                    Some(s) => Some(s@),
                    None => None,
                },
            ) is None,
        },
{
    let t = trim_str(text);
    if chars_of(t).len() == 0 {
        return None;
    }
    let mut entries: Vec<(String, JsonValue)> = Vec::new();
    entries.push(member("content", str_value(t)));
    match active_turn_id {
        Some(id) => {
            entries.push(member("source", str_value("operator_steering")));
            entries.push(member("delivery_mode", str_value("admit_after_active_turn")));
            entries.push(member("active_turn_id", str_value(id)));
        },
        None => {
            entries.push(member("source", str_value("manual_operator")));
        },
    }
    let r = object_of(entries);
    assert(entries_view(entries@) =~= match submit_params_view(
        text@,
        match active_turn_id {
            Some(s) => Some(s@),
            None => None,
        },
    ) {
        Some(Json::Object(e)) => e,
        _ => seq![],
    });
    Some(r)
}

impl ReplayCursor {
    /// The next request frame (`send_request_with_params`): the counter
    /// advances, saturating, and names the request.
    pub fn next_request(&mut self, method: &str, params: JsonValue) -> (r: JsonValue)
        ensures
            final(self)@.request_counter == counter_after(old(self)@.request_counter),
            final(self)@.last_sequence == old(self)@.last_sequence,
            final(self)@.oldest_sequence == old(self)@.oldest_sequence,
            final(self)@.history_exhausted == old(self)@.history_exhausted,
            final(self)@.seen == old(self)@.seen,
            r@ == request_frame_view(final(self)@.request_counter, method@, params@),
    {
        proof {
            use_type_invariant(&*self);
        }
        self.request_counter = if self.request_counter == u64::MAX {
            self.request_counter
        } else {
            self.request_counter + 1
        };
        let id = concat("agent-tui-", u64_decimal(self.request_counter).as_str());
        let mut entries: Vec<(String, JsonValue)> = Vec::new();
        entries.push(member("id", JsonValue::Str(id)));
        entries.push(member("method", str_value(method)));
        entries.push(member("params", params));
        let r = object_of(entries);
        assert(entries_view(entries@) =~= seq![
            ("id"@, Json::Str("agent-tui-"@ + decimal(self.request_counter as nat))),
            ("method"@, Json::Str(method@)),
            ("params"@, params@),
        ]);
        r
    }

    /// The parameters of the event subscription, resuming after the last
    /// sequence seen.
    pub fn subscribe_params(&self, subscription_id: &str) -> (r: JsonValue)
        ensures
            r@ == subscribe_params_view(self@.last_sequence, subscription_id@),
    {
        let mut entries: Vec<(String, JsonValue)> = Vec::new();
        entries.push(member("include_replay", JsonValue::Bool(true)));
        entries.push(member("page_size", JsonValue::Number(JsonNumber::Unsigned(100))));
        entries.push(member("view", str_value("raw")));
        entries.push(member("subscription_id", str_value(subscription_id)));
        if let Some(n) = self.last_sequence {
            entries.push(member("since_sequence", JsonValue::Number(JsonNumber::Unsigned(n))));
        }
        let r = object_of(entries);
        assert(entries_view(entries@) =~= match subscribe_params_view(self@.last_sequence, subscription_id@) {
            Json::Object(e) => e,
            _ => seq![],
        });
        r
    }

    /// Starts reading the page of history before the oldest sequence seen:
    /// nothing once history is exhausted; when no sequence is known, history
    /// is marked exhausted; otherwise the request id and frame.
    pub fn begin_history_read(&mut self) -> (r: Option<(String, JsonValue)>)
        ensures
            (final(self)@, history_read_result(r)) == history_read_view(old(self)@),
    {
        proof {
            use_type_invariant(&*self);
        }
        if self.history_exhausted {
            return None;
        }
        let before = match self.oldest_sequence {
            Some(b) => b,
            None => {
                self.history_exhausted = true;
                return None;
            },
        };
        self.request_counter = if self.request_counter == u64::MAX {
            self.request_counter
        } else {
            self.request_counter + 1
        };
        let id = concat("agent-tui-history-", u64_decimal(self.request_counter).as_str());
        let mut params: Vec<(String, JsonValue)> = Vec::new();
        params.push(member("before_sequence", JsonValue::Number(JsonNumber::Unsigned(before))));
        params.push(member("direction", str_value("backward")));
        params.push(member("limit", JsonValue::Number(JsonNumber::Unsigned(100))));
        params.push(member("view", str_value("raw")));
        let params_value = object_of(params);
        let mut entries: Vec<(String, JsonValue)> = Vec::new();
        entries.push(member("id", JsonValue::Str(id.clone())));
        entries.push(member("method", str_value("session.events.read")));
        entries.push(member("params", params_value));
        let frame = object_of(entries);
        assert(entries_view(params@) =~= seq![
            ("before_sequence"@, unsigned_json(before)),
            ("direction"@, Json::Str("backward"@)),
            ("limit"@, unsigned_json(100)),
            ("view"@, Json::Str("raw"@)),
        ]);
        assert(entries_view(entries@) =~= match history_request_view(self.request_counter, before) {
            Json::Object(e) => e,
            _ => seq![],
        });
        Some((id, frame))
    }

    /// What one server frame means while polling live events.
    pub fn poll_frame(&mut self, frame: &JsonValue) -> (r: PollStep)
        ensures
            distinct_ids(final(self)@.seen),
            (final(self)@, poll_step_view(r)) == poll_view(old(self)@, frame@),
    {
        proof {
            use_type_invariant(&*self);
        }
        if !event_field_is(frame, "session_event") {
            if event_field_is(frame, "websocket_error") {
                return PollStep::ServerError(server_error(frame));
            }
            return PollStep::Skip;
        }
        PollStep::Event(self.accept_live_frame(frame))
    }

    /// What one server frame means while waiting for the history page with
    /// the given request id: live events are delivered as they come, and the
    /// page's records are delivered in order, after which history is
    /// exhausted unless the page says it has more.
    pub fn history_frame(&mut self, frame: &JsonValue, request_id: &str) -> (r: HistoryStep)
        ensures
            distinct_ids(final(self)@.seen),
            (final(self)@, history_step_view(r)) == history_view(old(self)@, frame@, request_id@),
    {
        proof {
            use_type_invariant(&*self);
        }
        if event_field_is(frame, "websocket_error") {
            return HistoryStep::ServerError(server_error(frame));
        }
        if event_field_is(frame, "session_event") {
            return HistoryStep::Live(self.accept_live_frame(frame));
        }
        let matches_request = event_field_is(frame, "session_events_read") && match crate::json::text_of(
            frame,
            "request_id",
        ) {
            Some(id) => str_eq(id.as_str(), request_id),
            None => false,
        };
        if !matches_request {
            return HistoryStep::Skip;
        }
        let records: Vec<JsonValue> = match crate::json::get(frame, "events") {
            Some(JsonValue::Array(items)) => copy_values(items),
            _ => Vec::new(),
        };
        let ghost want = match crate::json::field(frame@, "events"@) {
            Some(Json::Array(a)) => a,
            _ => seq![],
        };
        assert(records@.map_values(|x: JsonValue| x@) =~= want);
        let page = self.accept_history_records(&records);
        let has_more = match crate::json::get(frame, "has_more") {
            Some(v) => match crate::json::get_bool(v) {
                Some(b) => b,
                None => false,
            },
            None => false,
        };
        self.history_exhausted = !has_more;
        HistoryStep::Page(page)
    }

    /// What one server text message means while polling: the error naming
    /// why it is not JSON, or the step its frame gives.
    pub fn poll_message(&mut self, message: &str) -> (r: Result<PollStep, String>)
        ensures
            distinct_ids(final(self)@.seen),
            match crate::json::parsed_json(message@) {
                None => final(self)@ == old(self)@ && (r matches Err(e) && e@ == "nars_attach_invalid_server_json:"@
                    + crate::json::json_error_text(message@)),
                Some(frame) => r matches Ok(step) && (final(self)@, poll_step_view(step)) == poll_view(
                    old(self)@,
                    frame,
                ),
            },
    {
        proof {
            use_type_invariant(&*self);
        }
        match crate::json::parse_json_or_error(message) {
            Ok(frame) => Ok(self.poll_frame(&frame)),
            Err(error) => Err(concat("nars_attach_invalid_server_json:", error.as_str())),
        }
    }

    /// What one server text message means while waiting for the history
    /// page with the given request id.
    pub fn history_message(&mut self, message: &str, request_id: &str) -> (r: Result<HistoryStep, String>)
        ensures
            distinct_ids(final(self)@.seen),
            match crate::json::parsed_json(message@) {
                None => final(self)@ == old(self)@ && (r matches Err(e) && e@ == "nars_attach_invalid_server_json:"@
                    + crate::json::json_error_text(message@)),
                Some(frame) => r matches Ok(step) && (final(self)@, history_step_view(step)) == history_view(
                    old(self)@,
                    frame,
                    request_id@,
                ),
            },
    {
        proof {
            use_type_invariant(&*self);
        }
        match crate::json::parse_json_or_error(message) {
            Ok(frame) => Ok(self.history_frame(&frame, request_id)),
            Err(error) => Err(concat("nars_attach_invalid_server_json:", error.as_str())),
        }
    }

    /// The next request as the text line sent to the server.
    pub fn next_request_line(&mut self, method: &str, params: JsonValue) -> (r: String)
        ensures
            final(self)@ == (CursorView { request_counter: counter_after(old(self)@.request_counter), ..old(self)@ }),
            r@ == compact_text(request_frame_view(final(self)@.request_counter, method@, params@)),
    {
        proof {
            use_type_invariant(&*self);
        }
        let frame = self.next_request(method, params);
        to_compact_text(&frame)
    }

    /// Starts a history read, giving the request id and the text line that
    /// asks for the page.
    pub fn begin_history_read_line(&mut self) -> (r: Option<(String, String)>)
        ensures
            final(self)@ == history_read_view(old(self)@).0,
            match (r, history_read_view(old(self)@).1) {
                (Some((id, line)), Some((want_id, frame))) => id@ == want_id && line@ == compact_text(frame),
                (None, None) => true,
                _ => false,
            },
    {
        proof {
            use_type_invariant(&*self);
        }
        match self.begin_history_read() {
            Some((id, frame)) => Some((id, to_compact_text(&frame))),
            None => None,
        }
    }
}

fn copy_values(items: &Vec<JsonValue>) -> (r: Vec<JsonValue>)
    ensures
        r@.map_values(|x: JsonValue| x@) == Json::Array(
            Seq::new(items@.len(), |i: int| if 0 <= i < items@.len() { items@[i]@ } else { Json::Null }),
        )->Array_0,
{
    let mut out: Vec<JsonValue> = Vec::new();
    let mut i: usize = 0;
    while i < items.len()
        invariant
            i <= items.len(),
            out@.map_values(|x: JsonValue| x@) == items@.map_values(|x: JsonValue| x@).take(i as int),
        decreases items.len() - i,
    {
        let ghost before = out@;
        let c = copy_json(&items[i]);
        out.push(c);
        assert(out@ == before.push(c));
        assert(out@.map_values(|x: JsonValue| x@) =~= before.map_values(|x: JsonValue| x@).push(items@[i as int]@));
        assert(out@.map_values(|x: JsonValue| x@) =~= items@.map_values(|x: JsonValue| x@).take(i + 1));
        i = i + 1;
    }
    assert(out@.map_values(|x: JsonValue| x@) =~= Seq::new(
        items@.len(),
        |i: int| if 0 <= i < items@.len() { items@[i]@ } else { Json::Null },
    ));
    out
}

/// What the projection shows of the session besides the transcript.
#[derive(Debug)]
pub struct ProjectionStatus {
    pub identity: String,
    pub session: String,
    pub turn_state: TurnState,
    pub active_phase: Option<String>,
    pub active_turn_id: Option<String>,
    pub queued_inputs: usize,
    pub held_system_directives: usize,
    pub last_error: Option<String>,
    pub transcript_scroll_offset: usize,
}

/// The mathematical form of the projection status.
pub struct StatusView {
    pub identity: Seq<char>,
    pub session: Seq<char>,
    pub turn_state: TurnState,
    pub active_phase: Option<Seq<char>>,
    pub active_turn_id: Option<Seq<char>>,
    pub queued_inputs: nat,
    pub held_system_directives: nat,
    pub last_error: Option<Seq<char>>,
    pub transcript_scroll_offset: nat,
}

impl View for ProjectionStatus {
    type V = StatusView;

    open spec fn view(&self) -> StatusView {
        StatusView {
            identity: self.identity@,
            session: self.session@,
            turn_state: self.turn_state,
            active_phase: crate::json::opt_str_view(self.active_phase),
            active_turn_id: crate::json::opt_str_view(self.active_turn_id),
            queued_inputs: self.queued_inputs as nat,
            held_system_directives: self.held_system_directives as nat,
            last_error: crate::json::opt_str_view(self.last_error),
            transcript_scroll_offset: self.transcript_scroll_offset as nat,
        }
    }
}

/// A fallback text unless it is absent or blank.
pub open spec fn nonblank_or(v: Option<Seq<char>>, fallback: Seq<char>) -> Seq<char> {
    match v {
        Some(s) => if crate::text::is_blank(s) {
            fallback
        } else {
            s
        },
        None => fallback,
    }
}

pub open spec fn inc(n: nat) -> nat {
    if n >= usize::MAX {
        n
    } else {
        n + 1
    }
}

pub open spec fn dec(n: nat) -> nat {
    if n == 0 {
        0
    } else {
        (n - 1) as nat
    }
}

/// The status after a live session event.
pub open spec fn status_after(s: StatusView, e: SessionEventView) -> StatusView {
    let s1 = StatusView {
        identity: if e.agent_id.len() > 0 { e.agent_id } else { s.identity },
        session: if e.carrier_session_id.len() > 0 { e.carrier_session_id } else { s.session },
        ..s
    };
    match e.event_kind {
        SessionEventKind::InputQueuedForTurnBoundary => StatusView { queued_inputs: inc(s1.queued_inputs), ..s1 },
        SessionEventKind::InputAdmittedToTurn | SessionEventKind::InputCompleted
        | SessionEventKind::InputDroppedByOperator | SessionEventKind::InputAbandonedOnSessionEnd => StatusView {
            queued_inputs: dec(s1.queued_inputs),
            ..s1
        },
        SessionEventKind::SystemDirectiveHeld => StatusView {
            held_system_directives: inc(s1.held_system_directives),
            ..s1
        },
        SessionEventKind::SystemDirectiveReleased => StatusView {
            held_system_directives: dec(s1.held_system_directives),
            ..s1
        },
        SessionEventKind::TurnStarted => StatusView {
            turn_state: TurnState::Active,
            active_phase: Some("thinking"@),
            active_turn_id: crate::json::text_field(e.payload, "turn_id"@),
            ..s1
        },
        SessionEventKind::ProviderRequestRecorded | SessionEventKind::ProviderToolCallRequested => StatusView {
            turn_state: TurnState::Active,
            active_phase: Some("calling"@),
            ..s1
        },
        SessionEventKind::TurnCompleted | SessionEventKind::TurnFailed | SessionEventKind::TurnInterrupted => StatusView {
            turn_state: TurnState::Idle,
            active_phase: None,
            active_turn_id: None,
            ..s1
        },
        SessionEventKind::CarrierDiagnosticRecorded => StatusView {
            last_error: first_text(
                match e.payload {
                    Json::Object(p) => p,
                    _ => seq![],
                },
                seq!["message"@, "error"@, "code"@],
            ),
            ..s1
        },
        _ => s1,
    }
}

fn nonblank_text(v: Option<String>, fallback: &str) -> (r: String)
    ensures
        r@ == nonblank_or(crate::json::opt_str_view(v), fallback@),
{
    match v {
        Some(s) => if is_blank_str(s.as_str()) {
            owned(fallback)
        } else {
            s
        },
        None => owned(fallback),
    }
}

impl ProjectionStatus {
    /// The status of a freshly attached projection, with the identity and
    /// session fallbacks given on the command line.
    pub fn new(identity: Option<String>, session: Option<String>) -> (r: Self)
        ensures
            r@.identity == nonblank_or(crate::json::opt_str_view(identity), "agent-tui"@),
            r@.session == nonblank_or(crate::json::opt_str_view(session), "attached"@),
            r@.turn_state == TurnState::Idle,
            (r@.active_phase is None),
            (r@.active_turn_id is None),
            r@.queued_inputs == 0,
            r@.held_system_directives == 0,
            (r@.last_error is None),
            r@.transcript_scroll_offset == 0,
    {
        ProjectionStatus {
            identity: nonblank_text(identity, "agent-tui"),
            session: nonblank_text(session, "attached"),
            turn_state: TurnState::Idle,
            active_phase: None,
            active_turn_id: None,
            queued_inputs: 0,
            held_system_directives: 0,
            last_error: None,
            transcript_scroll_offset: 0,
        }
    }

    /// Applies a live session event to the status (`apply_live_event`).
    pub fn apply_live_event(&mut self, event: &SessionEvent)
        ensures
            final(self)@ == status_after(old(self)@, event@),
    {
        if chars_of(event.agent_id.as_str()).len() > 0 {
            self.identity = event.agent_id.clone();
        }
        if chars_of(event.carrier_session_id.as_str()).len() > 0 {
            self.session = event.carrier_session_id.clone();
        }
        match event.event_kind {
            SessionEventKind::InputQueuedForTurnBoundary => {
                self.queued_inputs = self.queued_inputs.saturating_add(1);
            },
            SessionEventKind::InputAdmittedToTurn | SessionEventKind::InputCompleted
            | SessionEventKind::InputDroppedByOperator | SessionEventKind::InputAbandonedOnSessionEnd => {
                self.queued_inputs = self.queued_inputs.saturating_sub(1);
            },
            SessionEventKind::SystemDirectiveHeld => {
                self.held_system_directives = self.held_system_directives.saturating_add(1);
            },
            SessionEventKind::SystemDirectiveReleased => {
                self.held_system_directives = self.held_system_directives.saturating_sub(1);
            },
            SessionEventKind::TurnStarted => {
                self.turn_state = TurnState::Active;
                self.active_phase = Some(owned("thinking"));
                self.active_turn_id = crate::json::text_of(&event.payload, "turn_id");
            },
            SessionEventKind::ProviderRequestRecorded | SessionEventKind::ProviderToolCallRequested => {
                self.turn_state = TurnState::Active;
                self.active_phase = Some(owned("calling"));
            },
            SessionEventKind::TurnCompleted | SessionEventKind::TurnFailed | SessionEventKind::TurnInterrupted => {
                self.turn_state = TurnState::Idle;
                self.active_phase = None;
                self.active_turn_id = None;
            },
            SessionEventKind::CarrierDiagnosticRecorded => {
                self.last_error = match object_entries(&event.payload) {
                    Some(p) => {
                        assert(["message", "error", "code"]@.map_values(|k: &str| k@) =~= seq![
                            "message"@,
                            "error"@,
                            "code"@,
                        ]);
                        first_text_of(p, &["message", "error", "code"])
                    },
                    None => {
                        proof {
                            reveal_with_fuel(first_text, 4);
                            assert(first_text(seq![], seq!["message"@, "error"@, "code"@]) is None);
                        }
                        None
                    },
                };
            },
            _ => {},
        }
    }

    /// Scrolls the transcript up one row; returns whether older history
    /// should be read first, which is when the offset is within eight rows
    /// of the loaded transcript's top.
    pub fn scroll_up(&mut self, transcript_len: usize) -> (read_older: bool)
        ensures
            read_older == (old(self)@.transcript_scroll_offset + 8 >= transcript_len || old(
                self,
            ).transcript_scroll_offset + 8 > usize::MAX),
            final(self)@ == (StatusView {
                transcript_scroll_offset: inc(old(self)@.transcript_scroll_offset),
                ..old(self)@
            }),
    {
        let read_older = self.transcript_scroll_offset.saturating_add(8) >= transcript_len;
        self.transcript_scroll_offset = self.transcript_scroll_offset.saturating_add(1);
        read_older
    }

    /// Scrolls the transcript down one row.
    pub fn scroll_down(&mut self)
        ensures
            final(self)@ == (StatusView {
                transcript_scroll_offset: dec(old(self)@.transcript_scroll_offset),
                ..old(self)@
            }),
    {
        self.transcript_scroll_offset = self.transcript_scroll_offset.saturating_sub(1);
    }
}

/// The mathematical form of a launch binding resolution.
pub struct ResolutionView {
    pub event_endpoint: Seq<char>,
    pub identity: Option<Seq<char>>,
    pub session: Option<Seq<char>>,
}

impl View for LaunchBindingResolution {
    type V = ResolutionView;

    open spec fn view(&self) -> ResolutionView {
        ResolutionView {
            event_endpoint: self.event_endpoint@,
            identity: crate::json::opt_str_view(self.identity),
            session: crate::json::opt_str_view(self.session),
        }
    }
}

pub open spec fn object_members(v: Json) -> Seq<(Seq<char>, Json)> {
    match v {
        Json::Object(p) => p,
        _ => seq![],
    }
}

/// The error a launch binding with the wrong schema gives, if it has one.
pub open spec fn launch_binding_schema_ok(binding: Json) -> bool {
    crate::json::text_field(binding, "schema"@) == Some("narada.operator_projection_launch_binding.v1"@)
}

/// The error a failed launch binding reports, if it reports failure.
pub open spec fn launch_binding_failure_view(binding: Json) -> Option<Seq<char>> {
    if crate::json::text_field(binding, "status"@) == Some("failed"@) {
        Some("nars_attach_launch_binding_failed:"@ + or_text(crate::json::text_field(binding, "reason"@), "unknown"@))
    } else {
        None
    }
}

pub open spec fn opt_seq(o: Option<Seq<char>>) -> Seq<Seq<char>> {
    match o {
        Some(s) => seq![s],
        None => seq![],
    }
}

/// The session ids a launch binding names, in the order they are tried.
pub open spec fn binding_session_ids(binding: Json) -> Seq<Seq<char>> {
    opt_seq(crate::json::text_field(binding, "nars_session_id"@)) + opt_seq(
        crate::json::text_field(binding, "runtime_session_id"@),
    ) + opt_seq(crate::json::text_field(binding, "carrier_session_id"@)) + opt_seq(
        crate::json::nested_text(binding, "session_ref"@, "id"@),
    ) + opt_seq(crate::json::text_field(binding, "launch_session_id"@))
}

/// What a session index record resolves to for a binding: its endpoint when
/// it names one, belongs to one of the candidate sessions (or to the same
/// launch session), and runs the expected agent.
pub open spec fn record_resolution(
    record: Json,
    candidates: Seq<Seq<char>>,
    launch_session_id: Option<Seq<char>>,
    expected_agent: Option<Seq<char>>,
) -> Option<ResolutionView> {
    let members = object_members(record);
    let endpoint = crate::json::text_field(record, "event_endpoint"@);
    let session = first_text(members, seq!["session_id"@, "runtime_session_id"@, "nars_session_id"@, "carrier_session_id"@]);
    let launch = crate::json::text_field(record, "launch_session_id"@);
    let matches = (session is Some && candidates.contains(session->Some_0)) || (launch is Some
        && launch_session_id is Some && launch == launch_session_id);
    let agent = crate::json::text_field(record, "agent_id"@);
    if endpoint is None || !matches {
        None
    } else if expected_agent is Some && agent != expected_agent {
        None
    } else {
        Some(
            ResolutionView {
                event_endpoint: endpoint->Some_0,
                identity: match agent {
                    Some(a) => Some(a),
                    None => expected_agent,
                },
                session,
            },
        )
    }
}

/// Whether a parsed launch binding has the launch binding schema.
pub fn check_launch_binding_schema(binding: &JsonValue) -> (r: Result<(), String>)
    ensures
        match r {
            Ok(()) => launch_binding_schema_ok(binding@),
            Err(e) => !launch_binding_schema_ok(binding@) && e@ == "nars_attach_launch_binding_schema_invalid"@,
        },
{
    match crate::json::text_of(binding, "schema") {
        Some(s) => if str_eq(s.as_str(), "narada.operator_projection_launch_binding.v1") {
            Ok(())
        } else {
            Err(owned("nars_attach_launch_binding_schema_invalid"))
        },
        None => Err(owned("nars_attach_launch_binding_schema_invalid")),
    }
}

/// The error a launch binding reports when its launch failed.
pub fn launch_binding_failure(binding: &JsonValue) -> (r: Option<String>)
    ensures
        crate::json::opt_str_view(r) == launch_binding_failure_view(binding@),
{
    let failed = match crate::json::text_of(binding, "status") {
        Some(s) => str_eq(s.as_str(), "failed"),
        None => false,
    };
    if failed {
        let reason = text_or(crate::json::text_of(binding, "reason"), "unknown");
        Some(concat("nars_attach_launch_binding_failed:", reason.as_str()))
    } else {
        None
    }
}

fn push_opt(v: &mut Vec<String>, o: Option<String>)
    ensures
        crate::text::strs(final(v)@) == crate::text::strs(old(v)@) + opt_seq(crate::json::opt_str_view(o)),
{
    match o {
        Some(s) => {
            v.push(s);
            assert(crate::text::strs(v@) =~= crate::text::strs(old(v)@) + opt_seq(crate::json::opt_str_view(o)));
        },
        None => {
            assert(crate::text::strs(v@) =~= crate::text::strs(old(v)@) + opt_seq(crate::json::opt_str_view(o)));
        },
    }
}

/// The session ids a launch binding names, in the order they are tried.
pub fn launch_binding_session_ids(binding: &JsonValue) -> (r: Vec<String>)
    ensures
        crate::text::strs(r@) == binding_session_ids(binding@),
{
    let mut ids: Vec<String> = Vec::new();
    assert(crate::text::strs(ids@) =~= Seq::<Seq<char>>::empty());
    push_opt(&mut ids, crate::json::text_of(binding, "nars_session_id"));
    push_opt(&mut ids, crate::json::text_of(binding, "runtime_session_id"));
    push_opt(&mut ids, crate::json::text_of(binding, "carrier_session_id"));
    push_opt(&mut ids, crate::json::nested_text_of(binding, "session_ref", "id"));
    push_opt(&mut ids, crate::json::text_of(binding, "launch_session_id"));
    assert(crate::text::strs(ids@) =~= binding_session_ids(binding@));
    ids
}

fn same_opt_text(a: &Option<String>, b: Option<&str>) -> (r: bool)
    ensures
        r == (crate::json::opt_str_view(*a) is Some && b is Some && crate::json::opt_str_view(*a) == match b {
            Some(s) => Some(s@),
            None => None,
        }),
{
    match (a, b) {
        (Some(x), Some(y)) => str_eq(x.as_str(), y),
        _ => false,
    }
}

/// What a session index record resolves to for a launch binding.
pub fn resolve_session_record(
    record: &JsonValue,
    candidate_ids: &Vec<String>,
    launch_session_id: Option<&str>,
    expected_agent: Option<&str>,
) -> (r: Option<LaunchBindingResolution>)
    ensures
        match r {
            Some(res) => record_resolution(
                record@,
                crate::text::strs(candidate_ids@),
                match launch_session_id {
                    Some(s) => Some(s@),
                    None => None,
                },
                match expected_agent {
                    Some(s) => Some(s@),
                    None => None,
                },
            ) == Some(res@),
            None => record_resolution(
                record@,
                crate::text::strs(candidate_ids@),
                match launch_session_id {
                    Some(s) => Some(s@),
                    None => None,
                },
                match expected_agent {
                    Some(s) => Some(s@),
                    None => None,
                },
            ) is None,
        },
{
    let endpoint = match crate::json::text_of(record, "event_endpoint") {
        Some(e) => e,
        None => {
            return None;
        },
    };
    let session: Option<String> = match object_entries(record) {
        Some(members) => first_text_of(
            members,
            &["session_id", "runtime_session_id", "nars_session_id", "carrier_session_id"],
        ),
        None => {
            proof {
                reveal_with_fuel(first_text, 5);
            }
            None
        },
    };
    assert(["session_id", "runtime_session_id", "nars_session_id", "carrier_session_id"]@.map_values(
        |k: &str| k@,
    ) =~= seq!["session_id"@, "runtime_session_id"@, "nars_session_id"@, "carrier_session_id"@]);
    proof {
        if !(record@ is Object) {
            assert(object_members(record@) == Seq::<(Seq<char>, Json)>::empty());
        }
    }
    let launch = crate::json::text_of(record, "launch_session_id");
    let session_known = match &session {
        Some(s) => crate::text::list_contains(candidate_ids, s.as_str()),
        None => false,
    };
    let matches = session_known || same_opt_text(&launch, launch_session_id);
    if !matches {
        return None;
    }
    let agent = crate::json::text_of(record, "agent_id");
    if let Some(expected) = expected_agent {
        let agent_ok = match &agent {
            Some(a) => str_eq(a.as_str(), expected),
            None => false,
        };
        if !agent_ok {
            return None;
        }
    }
    let identity = match agent {
        Some(a) => Some(a),
        None => match expected_agent {
            Some(e) => Some(owned(e)),
            None => None,
        },
    };
    Some(LaunchBindingResolution { event_endpoint: endpoint, identity, session })
}

/// Reads a launch binding file's text: it must be JSON and carry the launch
/// binding schema.
pub fn parse_launch_binding(text: &str) -> (r: Result<JsonValue, String>)
    ensures
        match crate::json::parsed_json(text@) {
            None => r matches Err(e) && e@ == "nars_attach_launch_binding_invalid_json:"@ + crate::json::json_error_text(
                text@,
            ),
            Some(v) => match r {
                Ok(b) => b@ == v && launch_binding_schema_ok(v),
                Err(e) => !launch_binding_schema_ok(v) && e@ == "nars_attach_launch_binding_schema_invalid"@,
            },
        },
{
    match crate::json::parse_json_or_error(text) {
        Ok(value) => match check_launch_binding_schema(&value) {
            Ok(()) => Ok(value),
            Err(e) => Err(e),
        },
        Err(error) => Err(concat("nars_attach_launch_binding_invalid_json:", error.as_str())),
    }
}

/// Where a session index record's text says the event stream is, when the
/// text is JSON and the record matches (see `resolve_session_record`).
pub fn resolve_session_record_text(
    text: &str,
    candidate_ids: &Vec<String>,
    launch_session_id: Option<&str>,
    expected_agent: Option<&str>,
) -> (r: Option<LaunchBindingResolution>)
    ensures
        ({
            let want = match crate::json::parsed_json(text@) {
                Some(record) => record_resolution(
                    record,
                    crate::text::strs(candidate_ids@),
                    match launch_session_id {
                        Some(s) => Some(s@),
                        None => None,
                    },
                    match expected_agent {
                        Some(s) => Some(s@),
                        None => None,
                    },
                ),
                None => None,
            };
            match r {
                Some(res) => want == Some(res@),
                None => want is None,
            }
        }),
{
    match crate::json::parse_json(text) {
        Some(record) => resolve_session_record(&record, candidate_ids, launch_session_id, expected_agent),
        None => None,
    }
}

} // verus!
