//! WebSocket pieces the attach client computes itself: the handshake accept
//! value, and the encoding and decoding of frames.
use vstd::prelude::*;
use crate::nars_projection::{base64, base64_encode, WebSocketEndpoint};
use crate::sha1::{sha1, sha1_digest};
use crate::text::{
    ascii_lower, concat, decimal, find_char, find_text, first_index, owned, str_eq, substring, to_ascii_lower,
    trim, trim_str, u64_decimal,
};
use vstd::string::StringSliceAdditionalSpecFns;

verus! {

/// The largest payload a frame may carry.
pub const MAX_WEBSOCKET_PAYLOAD: usize = 16777216;

/// The GUID that RFC 6455 appends to the client key.
pub open spec fn websocket_guid_bytes() -> Seq<u8> {
    "258EAFA5-E914-47DA-95CA-C5AB0DC85B11".spec_bytes()
}

/// The `Sec-WebSocket-Accept` value for a client key: base64 of the SHA-1
/// of the key followed by the GUID.
pub open spec fn accept_value(key_bytes: Seq<u8>) -> Seq<char> {
    base64(sha1(key_bytes + websocket_guid_bytes()))
}

/// The `Sec-WebSocket-Accept` value the server must answer a client key with.
pub fn websocket_accept_value(key: &str) -> (r: String)
    requires
        (key.spec_bytes().len() + 36) * 8 <= u64::MAX,
    ensures
        r@ == accept_value(key.spec_bytes()),
{
    let key_bytes = key.as_bytes();
    let guid = "258EAFA5-E914-47DA-95CA-C5AB0DC85B11".as_bytes();
    let mut input: Vec<u8> = Vec::new();
    let mut i: usize = 0;
    while i < key_bytes.len()
        invariant
            i <= key_bytes.len(),
            input@ == key_bytes@.take(i as int),
        decreases key_bytes.len() - i,
    {
        input.push(key_bytes[i]);
        assert(input@ =~= key_bytes@.take(i + 1));
        i = i + 1;
    }
    assert(input@ =~= key_bytes@);
    let mut j: usize = 0;
    while j < guid.len()
        invariant
            j <= guid.len(),
            input@ == key_bytes@ + guid@.take(j as int),
        decreases guid.len() - j,
    {
        input.push(guid[j]);
        assert(input@ =~= key_bytes@ + guid@.take(j + 1));
        j = j + 1;
    }
    assert(guid@.take(guid.len() as int) =~= guid@);
    proof {
        reveal_strlit("258EAFA5-E914-47DA-95CA-C5AB0DC85B11");
        vstd::string::is_ascii_spec_bytes("258EAFA5-E914-47DA-95CA-C5AB0DC85B11");
        assert(vstd::string::is_ascii("258EAFA5-E914-47DA-95CA-C5AB0DC85B11"));
    }
    assert(guid@.len() == 36);
    let digest = sha1_digest(input.as_slice());
    base64_encode(digest.as_slice())
}

/// The big-endian bytes of a 16-bit length.
pub open spec fn be16(x: u16) -> Seq<u8> {
    seq![(x >> 8u16) as u8, x as u8]
}

/// The 16-bit big-endian number at `i`.
pub open spec fn be16_at(b: Seq<u8>, i: int) -> nat {
    (b[i] as nat) * 256 + (b[i + 1] as nat)
}

/// The 64-bit big-endian number at `i`.
pub open spec fn be64_at(b: Seq<u8>, i: int) -> nat {
    ((((((((b[i] as nat) * 256 + b[i + 1] as nat) * 256 + b[i + 2] as nat) * 256 + b[i + 3] as nat) * 256
        + b[i + 4] as nat) * 256 + b[i + 5] as nat) * 256 + b[i + 6] as nat) * 256 + b[i + 7] as nat)
}

/// The length bytes of a masked client frame.
pub open spec fn length_header(len: nat) -> Seq<u8> {
    if len <= 125 {
        seq![(128 + len) as u8]
    } else if len <= 65535 {
        seq![254u8] + be16(len as u16)
    } else {
        seq![255u8] + crate::sha1::be64(len as u64)
    }
}

/// Payload bytes xored with the repeating four-byte mask.
pub open spec fn apply_mask(p: Seq<u8>, mask: Seq<u8>) -> Seq<u8> {
    Seq::new(p.len(), |i: int| p[i] ^ mask[i % 4])
}

/// A final, masked client frame with the given opcode and payload.
pub open spec fn frame_bytes(opcode: u8, payload: Seq<u8>, mask: Seq<u8>) -> Seq<u8> {
    seq![128u8 | opcode] + length_header(payload.len()) + mask + apply_mask(payload, mask)
}

/// What reading one frame from the front of a buffer gives: `None` while
/// the frame is incomplete, else its opcode, unmasked payload and length.
pub open spec fn decode_view(b: Seq<u8>) -> Result<Option<(u8, Seq<u8>, nat)>, Seq<char>> {
    if b.len() < 2 {
        Ok(None)
    } else {
        let opcode = b[0] & 15u8;
        let masked = b[1] & 128u8 != 0;
        let l7 = b[1] & 127u8;
        if (l7 == 126 && b.len() < 4) || (l7 == 127 && b.len() < 10) {
            Ok(None)
        } else {
            let plen: nat = if l7 <= 125 {
                l7 as nat
            } else if l7 == 126 {
                be16_at(b, 2)
            } else {
                be64_at(b, 2)
            };
            let off: int = if l7 <= 125 {
                2
            } else if l7 == 126 {
                4
            } else {
                10
            };
            if plen > MAX_WEBSOCKET_PAYLOAD {
                Err("nars_attach_frame_too_large"@)
            } else if masked && b.len() < off + 4 {
                Ok(None)
            } else {
                let start = if masked {
                    off + 4
                } else {
                    off
                };
                if b.len() < start + plen {
                    Ok(None)
                } else {
                    let body = b.subrange(start, start + plen);
                    let payload = if masked {
                        apply_mask(body, b.subrange(off, off + 4))
                    } else {
                        body
                    };
                    Ok(Some((opcode, payload, (start + plen) as nat)))
                }
            }
        }
    }
}

pub open spec fn frame_result_view(r: Result<Option<(u8, Vec<u8>, usize)>, String>) -> Result<
    Option<(u8, Seq<u8>, nat)>,
    Seq<char>,
> {
    match r {
        Ok(Some((op, p, n))) => Ok(Some((op, p@, n as nat))),
        Ok(None) => Ok(None),
        Err(e) => Err(e@),
    }
}

/// Encodes a final, masked client frame.
pub fn encode_frame(opcode: u8, payload: &[u8], mask: [u8; 4]) -> (r: Result<Vec<u8>, String>)
    ensures
        match r {
            Ok(f) => payload@.len() <= MAX_WEBSOCKET_PAYLOAD && f@ == frame_bytes(opcode, payload@, mask@),
            Err(e) => payload@.len() > MAX_WEBSOCKET_PAYLOAD && e@ == "nars_attach_frame_too_large"@,
        },
{
    if payload.len() > MAX_WEBSOCKET_PAYLOAD {
        return Err(owned("nars_attach_frame_too_large"));
    }
    let len = payload.len();
    let mut frame: Vec<u8> = Vec::new();
    frame.push(128u8 | opcode);
    if len <= 125 {
        frame.push((128 + len) as u8);
    } else if len <= 65535 {
        let l = len as u16;
        frame.push(254u8);
        frame.push((l >> 8u16) as u8);
        frame.push(l as u8);
    } else {
        let l = len as u64;
        frame.push(255u8);
        frame.push((l >> 56u64) as u8);
        frame.push((l >> 48u64) as u8);
        frame.push((l >> 40u64) as u8);
        frame.push((l >> 32u64) as u8);
        frame.push((l >> 24u64) as u8);
        frame.push((l >> 16u64) as u8);
        frame.push((l >> 8u64) as u8);
        frame.push(l as u8);
    }
    let ghost head = frame@;
    assert(head =~= seq![128u8 | opcode] + length_header(len as nat));
    frame.push(mask[0]);
    frame.push(mask[1]);
    frame.push(mask[2]);
    frame.push(mask[3]);
    assert(frame@ =~= head + mask@);
    let ghost with_mask = frame@;
    let mut i: usize = 0;
    while i < len
        invariant
            i <= len,
            len == payload@.len(),
            frame@ == with_mask + apply_mask(payload@, mask@).take(i as int),
        decreases len - i,
    {
        frame.push(payload[i] ^ mask[i % 4]);
        assert(frame@ =~= with_mask + apply_mask(payload@, mask@).take(i + 1));
        i = i + 1;
    }
    assert(apply_mask(payload@, mask@).take(len as int) =~= apply_mask(payload@, mask@));
    Ok(frame)
}

/// Reads one frame from the front of a buffer.
pub fn decode_frame(b: &[u8]) -> (r: Result<Option<(u8, Vec<u8>, usize)>, String>)
    ensures
        frame_result_view(r) == decode_view(b@),
{
    if b.len() < 2 {
        return Ok(None);
    }
    let first = b[0];
    let second = b[1];
    let opcode = first & 15u8;
    let masked = second & 128u8 != 0;
    let l7 = second & 127u8;
    assert(second & 127u8 <= 127u8) by (bit_vector);
    if (l7 == 126 && b.len() < 4) || (l7 == 127 && b.len() < 10) {
        return Ok(None);
    }
    let (plen, off): (u64, usize) = if l7 <= 125 {
        (l7 as u64, 2)
    } else if l7 == 126 {
        ((b[2] as u64) * 256 + (b[3] as u64), 4)
    } else {
        let v: u128 = ((((((((b[2] as u128) * 256 + b[3] as u128) * 256 + b[4] as u128) * 256
            + b[5] as u128) * 256 + b[6] as u128) * 256 + b[7] as u128) * 256 + b[8] as u128) * 256
            + b[9] as u128);
        assert(v == be64_at(b@, 2));
        assert(v <= u64::MAX) by (nonlinear_arith)
            requires
                v == ((((((((b[2] as nat) * 256 + b[3] as nat) * 256 + b[4] as nat) * 256 + b[5] as nat) * 256
                    + b[6] as nat) * 256 + b[7] as nat) * 256 + b[8] as nat) * 256 + b[9] as nat),
                b[2] < 256, b[3] < 256, b[4] < 256, b[5] < 256, b[6] < 256, b[7] < 256, b[8] < 256, b[9] < 256,
        ;
        (v as u64, 10)
    };
    if plen > MAX_WEBSOCKET_PAYLOAD as u64 {
        return Err(owned("nars_attach_frame_too_large"));
    }
    let plen = plen as usize;
    if masked && b.len() < off + 4 {
        return Ok(None);
    }
    let start = if masked { off + 4 } else { off };
    if b.len() < start + plen {
        return Ok(None);
    }
    let mut payload: Vec<u8> = Vec::new();
    let mut i: usize = 0;
    let ghost body = b@.subrange(start as int, start + plen);
    let ghost want = if masked { apply_mask(body, b@.subrange(off as int, off + 4)) } else { body };
    while i < plen
        invariant
            i <= plen,
            start + plen <= b.len(),
            masked ==> off + 4 <= start,
            masked ==> start == off + 4,
            body == b@.subrange(start as int, start + plen),
            want == (if masked { apply_mask(body, b@.subrange(off as int, off + 4)) } else { body }),
            want.len() == plen,
            payload@ == want.take(i as int),
        decreases plen - i,
    {
        let byte = if masked { b[start + i] ^ b[off + i % 4] } else { b[start + i] };
        payload.push(byte);
        assert(payload@ =~= want.take(i + 1));
        i = i + 1;
    }
    assert(want.take(plen as int) =~= want);
    Ok(Some((opcode, payload, start + plen)))
}

/// Decoding a frame this client encodes gives back its opcode and payload,
/// whatever bytes follow it in the buffer.
pub proof fn lemma_frame_round_trip(opcode: u8, payload: Seq<u8>, mask: Seq<u8>, rest: Seq<u8>)
    requires
        opcode < 16,
        payload.len() <= MAX_WEBSOCKET_PAYLOAD,
        mask.len() == 4,
    ensures
        decode_view(frame_bytes(opcode, payload, mask) + rest) == Ok::<Option<(u8, Seq<u8>, nat)>, Seq<char>>(
            Some((opcode, payload, frame_bytes(opcode, payload, mask).len()))),
{
    let f = frame_bytes(opcode, payload, mask);
    let b = f + rest;
    let len = payload.len();
    let hl = length_header(len).len();
    assert(b[0] == 128u8 | opcode);
    assert((128u8 | opcode) & 15u8 == opcode) by (bit_vector)
        requires opcode < 16;
    assert(b[1] == length_header(len)[0]);
    if len <= 125 {
        let l = len as u8;
        let h = (128 + len) as u8;
        assert(h == (128 + l) as u8);
        assert(h & 128u8 != 0 && h & 127u8 == l) by (bit_vector)
            requires l <= 125, h == (128 + l) as u8;
    } else if len <= 65535 {
        let l = len as u16;
        assert(254u8 & 128u8 != 0 && 254u8 & 127u8 == 126) by (bit_vector);
        assert(b[2] == (l >> 8u16) as u8 && b[3] == l as u8);
        assert(((l >> 8u16) as u8) as nat * 256 + (l as u8) as nat == l as nat) by (bit_vector);
    } else {
        let l = len as u64;
        assert(255u8 & 128u8 != 0 && 255u8 & 127u8 == 127) by (bit_vector);
        assert(b[2] == (l >> 56u64) as u8 && b[3] == (l >> 48u64) as u8 && b[4] == (l >> 40u64) as u8
            && b[5] == (l >> 32u64) as u8 && b[6] == (l >> 24u64) as u8 && b[7] == (l >> 16u64) as u8
            && b[8] == (l >> 8u64) as u8 && b[9] == l as u8);
        assert(((((((((l >> 56u64) as u8) as nat * 256 + ((l >> 48u64) as u8) as nat) * 256 + ((l >> 40u64) as u8) as nat)
            * 256 + ((l >> 32u64) as u8) as nat) * 256 + ((l >> 24u64) as u8) as nat) * 256 + ((l >> 16u64) as u8) as nat)
            * 256 + ((l >> 8u64) as u8) as nat) * 256 + (l as u8) as nat == l as nat) by (bit_vector);
    }
    let off: int = 1 + hl as int;
    assert(b.subrange(off, off + 4) =~= mask);
    let body = b.subrange(off + 4, off + 4 + len as int);
    assert(body =~= apply_mask(payload, mask));
    assert forall|i: int| 0 <= i < len implies #[trigger] apply_mask(body, mask)[i] == payload[i] by {
        let x = payload[i];
        let m = mask[i % 4];
        assert(body[i] == x ^ m);
        assert((x ^ m) ^ m == x) by (bit_vector);
    }
    assert(apply_mask(body, mask) =~= payload);
}


/// The HTTP upgrade request that opens the socket for an endpoint and key.
pub open spec fn handshake_request_view(path: Seq<char>, host: Seq<char>, port: u16, key: Seq<char>) -> Seq<char> {
    "GET "@ + path + " HTTP/1.1\r\nHost: "@ + host + seq![':'] + decimal(port as nat)
        + "\r\nUpgrade: websocket\r\nConnection: Upgrade\r\nSec-WebSocket-Key: "@ + key
        + "\r\nSec-WebSocket-Version: 13\r\n\r\n"@
}

/// The HTTP upgrade request that opens the socket for an endpoint and key.
pub fn handshake_request(endpoint: &WebSocketEndpoint, key: &str) -> (r: String)
    ensures
        r@ == handshake_request_view(endpoint.path@, endpoint.host@, endpoint.port, key@),
{
    let a = concat("GET ", endpoint.path.as_str());
    let b = concat(a.as_str(), " HTTP/1.1\r\nHost: ");
    let c = concat(b.as_str(), endpoint.host.as_str());
    let d = concat(c.as_str(), ":");
    let e = concat(d.as_str(), u64_decimal(endpoint.port as u64).as_str());
    let f = concat(e.as_str(), "\r\nUpgrade: websocket\r\nConnection: Upgrade\r\nSec-WebSocket-Key: ");
    let g = concat(f.as_str(), key);
    let r = concat(g.as_str(), "\r\nSec-WebSocket-Version: 13\r\n\r\n");
    proof {
        reveal_strlit(":");
    }
    assert(r@ =~= handshake_request_view(endpoint.path@, endpoint.host@, endpoint.port, key@));
    r
}

/// A line without the `\r` of a `\r\n` ending.
pub open spec fn strip_cr(line: Seq<char>) -> Seq<char> {
    if line.len() > 0 && line.last() == '\r' {
        line.drop_last()
    } else {
        line
    }
}

/// The first line of a text as `str::lines` gives it: up to the first `\n`
/// (without a `\r` before it), or the whole text when it has no `\n`.
pub open spec fn first_line(s: Seq<char>) -> Seq<char> {
    match first_index(s, '\n') {
        Some(i) => strip_cr(s.take(i)),
        None => s,
    }
}

/// The text after the first line.
pub open spec fn after_first_line(s: Seq<char>) -> Seq<char> {
    match first_index(s, '\n') {
        Some(i) => s.skip(i + 1),
        None => seq![],
    }
}

/// The `Sec-WebSocket-Accept` value of a header line, if it is that header
/// (the name compared ignoring ASCII case, the value trimmed).
pub open spec fn line_accept(line: Seq<char>) -> Option<Seq<char>> {
    match first_index(line, ':') {
        Some(i) => if ascii_lower(line.take(i)) == "sec-websocket-accept"@ {
            Some(trim(line.skip(i + 1)))
        } else {
            None
        },
        None => None,
    }
}

/// The first `Sec-WebSocket-Accept` value among the lines of a header.
pub open spec fn header_accept(s: Seq<char>) -> Option<Seq<char>>
    decreases s.len(),
{
    if s.len() == 0 {
        None
    } else {
        match line_accept(first_line(s)) {
            Some(v) => Some(v),
            None => {
                proof {
                    crate::text::lemma_first_index_found(s, '\n');
                }
                header_accept(after_first_line(s))
            },
        }
    }
}

/// Why a handshake response is refused, if it is: its status line must
/// switch protocols, and its accept header must answer the client key.
pub open spec fn handshake_problem(header: Seq<char>, key_bytes: Seq<u8>) -> Option<Seq<char>> {
    if find_text(first_line(header), " 101 "@) is None {
        Some("nars_attach_handshake_not_switching_protocols"@)
    } else if header_accept(header) != Some(accept_value(key_bytes)) {
        Some("nars_attach_handshake_accept_mismatch"@)
    } else {
        None
    }
}

/// The line that starts at `pos`, and where the next one starts.
fn line_at(cs: &Vec<char>, pos: usize) -> (r: (Vec<char>, usize))
    requires
        pos < cs.len(),
    ensures
        r.0@ == first_line(cs@.skip(pos as int)),
        pos < r.1 <= cs.len(),
        cs@.skip(r.1 as int) == after_first_line(cs@.skip(pos as int)),
{
    let ghost rest = cs@.skip(pos as int);
    match crate::text::find_char_from(cs, '\n', pos) {
        Some(i) => {
            let end: usize = if i > pos && cs[i - 1] == '\r' { i - 1 } else { i };
            let line = crate::text::slice_range(cs, pos, end);
            assert(rest.take(i - pos) =~= cs@.subrange(pos as int, i as int));
            assert(line@ =~= strip_cr(rest.take(i - pos)));
            assert(rest.skip(i - pos + 1) =~= cs@.skip(i + 1));
            (line, i + 1)
        },
        None => {
            let line = crate::text::slice_from(cs, pos);
            assert(cs@.skip(cs.len() as int) =~= Seq::<char>::empty());
            (line, cs.len())
        },
    }
}

fn accept_of_line(line: &Vec<char>) -> (r: Option<String>)
    ensures
        crate::json::opt_str_view(r) == line_accept(line@),
{
    match find_char(line, ':') {
        Some(i) => {
            let name = substring(line, 0, i);
            let lower = to_ascii_lower(name.as_str());
            assert(line@.subrange(0, i as int) =~= line@.take(i as int));
            if str_eq(lower.as_str(), "sec-websocket-accept") {
                let value = substring(line, i + 1, line.len());
                assert(line@.subrange(i + 1, line.len() as int) =~= line@.skip(i + 1));
                Some(owned(trim_str(value.as_str())))
            } else {
                None
            }
        },
        None => None,
    }
}

/// Checks the header of the server's handshake response against the key
/// the client sent.
pub fn check_handshake_response(header: &str, key: &str) -> (r: Result<(), String>)
    requires
        (key.spec_bytes().len() + 36) * 8 <= u64::MAX,
    ensures
        match r {
            Ok(()) => handshake_problem(header@, key.spec_bytes()) is None,
            Err(e) => handshake_problem(header@, key.spec_bytes()) == Some(e@),
        },
{
    let cs = crate::text::chars_of(header);
    let status: Vec<char> = if cs.len() > 0 {
        line_at(&cs, 0).0
    } else {
        Vec::new()
    };
    assert(cs@.skip(0) =~= cs@);
    assert(cs.len() == 0 ==> status@ == first_line(header@));
    let pattern = crate::text::chars_of(" 101 ");
    if crate::text::find_text_in(&status, &pattern).is_none() {
        return Err(owned("nars_attach_handshake_not_switching_protocols"));
    }
    let mut found: Option<String> = None;
    let mut pos: usize = 0;
    while pos < cs.len()
        invariant
            pos <= cs.len(),
            cs@ == header@,
            found is None ==> header_accept(cs@) == header_accept(cs@.skip(pos as int)),
            found is Some ==> header_accept(cs@) == crate::json::opt_str_view(found) && pos == cs.len(),
        decreases cs.len() - pos,
    {
        let (line, next) = line_at(&cs, pos);
        match accept_of_line(&line) {
            Some(v) => {
                assert(cs@.skip(pos as int).len() > 0);
                assert(header_accept(cs@.skip(pos as int)) == Some(v@));
                found = Some(v);
                pos = cs.len();
            },
            None => {
                assert(header_accept(cs@.skip(pos as int)) == header_accept(cs@.skip(next as int)));
                pos = next;
            },
        }
    }
    assert(found is None ==> cs@.skip(pos as int) =~= Seq::<char>::empty());
    let expected = websocket_accept_value(key);
    match found {
        Some(v) => if str_eq(v.as_str(), expected.as_str()) {
            Ok(())
        } else {
            Err(owned("nars_attach_handshake_accept_mismatch"))
        },
        None => Err(owned("nars_attach_handshake_accept_mismatch")),
    }
}

/// Whether `needle` occurs in `haystack` at `i`.
pub open spec fn bytes_at(haystack: Seq<u8>, needle: Seq<u8>, i: int) -> bool {
    0 <= i && i + needle.len() <= haystack.len() && haystack.subrange(i, i + needle.len()) == needle
}

/// The first position of a non-empty `needle` in `haystack`.
pub fn find_bytes(haystack: &[u8], needle: &[u8]) -> (r: Option<usize>)
    requires
        needle@.len() > 0,
    ensures
        match r {
            Some(i) => bytes_at(haystack@, needle@, i as int) && forall|j: int|
                0 <= j < i ==> !#[trigger] bytes_at(haystack@, needle@, j),
            None => forall|j: int| !#[trigger] bytes_at(haystack@, needle@, j),
        },
{
    if haystack.len() < needle.len() {
        return None;
    }
    let last = haystack.len() - needle.len();
    assert(haystack@.len() <= usize::MAX);
    let mut i: usize = 0;
    while i <= last
        invariant
            needle@.len() > 0,
            last == haystack@.len() - needle@.len(),
            haystack@.len() <= usize::MAX,
            i <= last + 1,
            forall|j: int| 0 <= j < i ==> !#[trigger] bytes_at(haystack@, needle@, j),
        decreases last + 1 - i,
    {
        let mut k: usize = 0;
        let mut same = true;
        while k < needle.len()
            invariant
                needle@.len() > 0,
                i <= last,
                last == haystack@.len() - needle@.len(),
                haystack@.len() <= usize::MAX,
                k <= needle@.len(),
                same == (forall|m: int| 0 <= m < k ==> haystack@[i + m] == needle@[m]),
            decreases needle.len() - k,
        {
            if haystack[i + k] != needle[k] {
                same = false;
            }
            k = k + 1;
        }
        if same {
            assert(haystack@.subrange(i as int, i + needle@.len()) =~= needle@);
            return Some(i);
        }
        assert(!bytes_at(haystack@, needle@, i as int)) by {
            if bytes_at(haystack@, needle@, i as int) {
                assert forall|m: int| 0 <= m < needle@.len() implies haystack@[i + m] == needle@[m] by {
                    assert(haystack@.subrange(i as int, i + needle@.len())[m] == haystack@[i + m]);
                }
            }
        }
        i = i + 1;
    }
    None
}

/// What the client does with a received frame: hand a text payload on,
/// answer a close or a ping, or skip it.
#[derive(Debug, Clone, PartialEq, Eq)]
pub enum FrameAction {
    Text(Vec<u8>),
    Close,
    Pong(Vec<u8>),
    Skip,
}

/// What the client does with a received frame of an opcode.
pub fn frame_action(opcode: u8, payload: Vec<u8>) -> (r: FrameAction)
    ensures
        opcode == 1 ==> (r matches FrameAction::Text(p) && p@ == payload@),
        opcode == 8 ==> r matches FrameAction::Close,
        opcode == 9 ==> (r matches FrameAction::Pong(p) && p@ == payload@),
        opcode != 1 && opcode != 8 && opcode != 9 ==> r matches FrameAction::Skip,
{
    if opcode == 1 {
        FrameAction::Text(payload)
    } else if opcode == 8 {
        FrameAction::Close
    } else if opcode == 9 {
        FrameAction::Pong(payload)
    } else {
        FrameAction::Skip
    }
}

} // verus!
