//! SHA-1 (FIPS 180-4), which the WebSocket handshake uses to derive the
//! accept value from the client key.
use vstd::prelude::*;

verus! {

/// Addition modulo 2^32.
pub open spec fn wadd(x: u32, y: u32) -> u32 {
    if x + y > u32::MAX {
        (x + y - 0x1_0000_0000) as u32
    } else {
        (x + y) as u32
    }
}

/// Left rotation of a 32-bit word by `n` bits, `0 < n < 32`.
pub open spec fn rotl(x: u32, n: u32) -> u32 {
    (x << n) | (x >> (32 - n) as u32)
}

/// The big-endian word at byte offset `i`.
pub open spec fn be_word(b: Seq<u8>, i: int) -> u32 {
    ((b[i] as u32) << 24u32) | ((b[i + 1] as u32) << 16u32) | ((b[i + 2] as u32) << 8u32) | (b[i + 3] as u32)
}

/// Word `t` of the message schedule of a 64-byte block.
pub open spec fn schedule(block: Seq<u8>, t: nat) -> u32
    decreases t,
{
    if t < 16 {
        be_word(block, (4 * t) as int)
    } else {
        rotl(
            schedule(block, (t - 3) as nat) ^ schedule(block, (t - 8) as nat) ^ schedule(
                block,
                (t - 14) as nat,
            ) ^ schedule(block, (t - 16) as nat),
            1,
        )
    }
}

/// The round function and constant of round `t`.
pub open spec fn round_fk(t: nat, b: u32, c: u32, d: u32) -> (u32, u32) {
    if t < 20 {
        ((b & c) | ((!b) & d), 0x5A827999u32)
    } else if t < 40 {
        (b ^ c ^ d, 0x6ED9EBA1u32)
    } else if t < 60 {
        ((b & c) | (b & d) | (c & d), 0x8F1BBCDCu32)
    } else {
        (b ^ c ^ d, 0xCA62C1D6u32)
    }
}

pub type Sha1State = (u32, u32, u32, u32, u32);

/// One compression round.
pub open spec fn round(s: Sha1State, t: nat, w: u32) -> Sha1State {
    let (f, k) = round_fk(t, s.1, s.2, s.3);
    let temp = wadd(wadd(wadd(wadd(rotl(s.0, 5), f), s.4), k), w);
    (temp, s.0, rotl(s.1, 30), s.2, s.3)
}

/// The working state after the first `t` rounds on a block.
pub open spec fn rounds(block: Seq<u8>, h: Sha1State, t: nat) -> Sha1State
    decreases t,
{
    if t == 0 {
        h
    } else {
        round(rounds(block, h, (t - 1) as nat), (t - 1) as nat, schedule(block, (t - 1) as nat))
    }
}

/// The hash state after one block.
pub open spec fn compress(h: Sha1State, block: Seq<u8>) -> Sha1State {
    let s = rounds(block, h, 80);
    (wadd(h.0, s.0), wadd(h.1, s.1), wadd(h.2, s.2), wadd(h.3, s.3), wadd(h.4, s.4))
}

pub open spec fn initial_state() -> Sha1State {
    (0x67452301u32, 0xEFCDAB89u32, 0x98BADCFEu32, 0x10325476u32, 0xC3D2E1F0u32)
}

/// The hash state after the first `n` blocks of a padded message.
pub open spec fn state_after(padded: Seq<u8>, n: nat) -> Sha1State
    decreases n,
{
    if n == 0 {
        initial_state()
    } else {
        compress(state_after(padded, (n - 1) as nat), padded.subrange((64 * (n - 1)) as int, (64 * n) as int))
    }
}

/// The big-endian bytes of a 64-bit length.
pub open spec fn be64(x: u64) -> Seq<u8> {
    seq![
        (x >> 56u64) as u8,
        (x >> 48u64) as u8,
        (x >> 40u64) as u8,
        (x >> 32u64) as u8,
        (x >> 24u64) as u8,
        (x >> 16u64) as u8,
        (x >> 8u64) as u8,
        x as u8,
    ]
}

/// The big-endian bytes of a word.
pub open spec fn be32(x: u32) -> Seq<u8> {
    seq![(x >> 24u32) as u8, (x >> 16u32) as u8, (x >> 8u32) as u8, x as u8]
}

/// How many zero bytes padding puts after the `0x80` byte.
pub open spec fn pad_zeros(n: nat) -> nat {
    ((119 - (n % 64)) % 64) as nat
}

/// The padded message: the bytes, `0x80`, zeros up to 56 modulo 64, and the
/// bit length in eight big-endian bytes.
pub open spec fn pad(m: Seq<u8>) -> Seq<u8> {
    m + seq![0x80u8] + Seq::new(pad_zeros(m.len()), |i: int| 0u8) + be64((m.len() * 8) as u64)
}

/// The SHA-1 digest of a message.
pub open spec fn sha1(m: Seq<u8>) -> Seq<u8> {
    let p = pad(m);
    let h = state_after(p, p.len() / 64);
    be32(h.0) + be32(h.1) + be32(h.2) + be32(h.3) + be32(h.4)
}

fn rotate(x: u32, n: u32) -> (r: u32)
    requires
        0 < n < 32,
    ensures
        r == rotl(x, n),
{
    (x << n) | (x >> (32 - n))
}

fn add32(x: u32, y: u32) -> (r: u32)
    ensures
        r == wadd(x, y),
{
    x.wrapping_add(y)
}

fn push_be32(out: &mut Vec<u8>, x: u32)
    ensures
        final(out)@ == old(out)@ + be32(x),
{
    out.push((x >> 24u32) as u8);
    out.push((x >> 16u32) as u8);
    out.push((x >> 8u32) as u8);
    out.push(x as u8);
    assert(out@ =~= old(out)@ + be32(x));
}

proof fn lemma_pad_len(n: nat)
    ensures
        (n + 1 + pad_zeros(n) + 8) % 64 == 0,
        n + 1 + pad_zeros(n) + 8 >= 64,
{
    let r = n % 64;
    assert(n == 64 * (n / 64) + r) by (nonlinear_arith)
        requires r == n % 64;
    assert(0 <= r < 64);
    let z = pad_zeros(n);
    if r <= 55 {
        assert(z == 55 - r);
    } else {
        assert(z == 119 - r);
    }
    assert((n + 1 + z + 8) % 64 == 0) by (nonlinear_arith)
        requires
            n == 64 * (n / 64) + r,
            (r <= 55 && z == 55 - r) || (r > 55 && z == 119 - r),
    ;
}

/// Pads a message for hashing.
fn pad_message(input: &[u8]) -> (r: Vec<u8>)
    requires
        input@.len() * 8 <= u64::MAX,
    ensures
        r@ == pad(input@),
        r@.len() % 64 == 0,
        r@.len() >= 64,
{
    let mut message: Vec<u8> = Vec::new();
    let mut i: usize = 0;
    while i < input.len()
        invariant
            i <= input.len(),
            message@ == input@.take(i as int),
        decreases input.len() - i,
    {
        message.push(input[i]);
        assert(message@ =~= input@.take(i + 1));
        i = i + 1;
    }
    assert(message@ =~= input@);
    let n = input.len();
    let bit_length: u64 = (n as u64) * 8;
    message.push(0x80u8);
    let zeros: usize = (119 - (n % 64)) % 64;
    let mut j: usize = 0;
    while j < zeros
        invariant
            j <= zeros,
            zeros == pad_zeros(n as nat),
            message@ == input@ + seq![0x80u8] + Seq::new(j as nat, |k: int| 0u8),
        decreases zeros - j,
    {
        let ghost before = message@;
        message.push(0u8);
        assert(message@ =~= input@ + seq![0x80u8] + Seq::new((j + 1) as nat, |k: int| 0u8));
        j = j + 1;
    }
    let ghost before = message@;
    message.push((bit_length >> 56u64) as u8);
    message.push((bit_length >> 48u64) as u8);
    message.push((bit_length >> 40u64) as u8);
    message.push((bit_length >> 32u64) as u8);
    message.push((bit_length >> 24u64) as u8);
    message.push((bit_length >> 16u64) as u8);
    message.push((bit_length >> 8u64) as u8);
    message.push(bit_length as u8);
    assert(message@ =~= pad(input@));
    proof {
        lemma_pad_len(n as nat);
    }
    message
}

fn be_word_at(block: &Vec<u8>, i: usize) -> (r: u32)
    requires
        i + 4 <= block.len(),
    ensures
        r == be_word(block@, i as int),
{
    ((block[i] as u32) << 24u32) | ((block[i + 1] as u32) << 16u32) | ((block[i + 2] as u32) << 8u32)
        | (block[i + 3] as u32)
}

/// Runs the compression function on the 64 bytes of `padded` at `offset`.
fn compress_block(h: Sha1State, padded: &Vec<u8>, offset: usize) -> (r: Sha1State)
    requires
        offset + 64 <= padded.len(),
    ensures
        r == compress(h, padded@.subrange(offset as int, offset + 64)),
{
    let ghost block = padded@.subrange(offset as int, offset + 64);
    let mut words: Vec<u32> = Vec::new();
    let mut t: usize = 0;
    while t < 16
        invariant
            t <= 16,
            offset + 64 <= padded.len(),
            block == padded@.subrange(offset as int, offset + 64),
            words@.len() == t,
            forall|k: int| 0 <= k < t ==> words@[k] == schedule(block, k as nat),
        decreases 16 - t,
    {
        let w = be_word_at(padded, offset + 4 * t);
        assert(be_word(padded@, offset + 4 * t) == be_word(block, 4 * t));
        words.push(w);
        t = t + 1;
    }
    while t < 80
        invariant
            16 <= t <= 80,
            words@.len() == t,
            forall|k: int| 0 <= k < t ==> words@[k] == schedule(block, k as nat),
        decreases 80 - t,
    {
        let x = words[t - 3] ^ words[t - 8] ^ words[t - 14] ^ words[t - 16];
        let w = rotate(x, 1);
        words.push(w);
        t = t + 1;
    }
    let (mut a, mut b, mut c, mut d, mut e) = h;
    let mut i: usize = 0;
    while i < 80
        invariant
            i <= 80,
            words@.len() == 80,
            forall|k: int| 0 <= k < 80 ==> words@[k] == schedule(block, k as nat),
            (a, b, c, d, e) == rounds(block, h, i as nat),
        decreases 80 - i,
    {
        let (function, constant): (u32, u32) = if i < 20 {
            ((b & c) | ((!b) & d), 0x5A827999u32)
        } else if i < 40 {
            (b ^ c ^ d, 0x6ED9EBA1u32)
        } else if i < 60 {
            ((b & c) | (b & d) | (c & d), 0x8F1BBCDCu32)
        } else {
            (b ^ c ^ d, 0xCA62C1D6u32)
        };
        let temp = add32(add32(add32(add32(rotate(a, 5), function), e), constant), words[i]);
        e = d;
        d = c;
        c = rotate(b, 30);
        b = a;
        a = temp;
        i = i + 1;
    }
    (add32(h.0, a), add32(h.1, b), add32(h.2, c), add32(h.3, d), add32(h.4, e))
}

/// The SHA-1 digest of a message.
pub fn sha1_digest(input: &[u8]) -> (r: Vec<u8>)
    requires
        input@.len() * 8 <= u64::MAX,
    ensures
        r@ == sha1(input@),
        r@.len() == 20,
{
    let message = pad_message(input);
    let mut h: Sha1State = (0x67452301u32, 0xEFCDAB89u32, 0x98BADCFEu32, 0x10325476u32, 0xC3D2E1F0u32);
    let mut offset: usize = 0;
    while offset < message.len()
        invariant
            message@ == pad(input@),
            message@.len() % 64 == 0,
            offset % 64 == 0,
            offset <= message.len(),
            h == state_after(message@, (offset / 64) as nat),
        decreases message.len() - offset,
    {
        assert(offset + 64 <= message.len()) by (nonlinear_arith)
            requires
                offset % 64 == 0,
                message@.len() % 64 == 0,
                offset < message@.len(),
        ;
        h = compress_block(h, &message, offset);
        assert((offset + 64) / 64 == offset / 64 + 1) by (nonlinear_arith)
            requires offset % 64 == 0;
        assert(64 * ((offset / 64) as nat) == offset) by (nonlinear_arith)
            requires offset % 64 == 0;
        offset = offset + 64;
    }
    let mut out: Vec<u8> = Vec::new();
    push_be32(&mut out, h.0);
    push_be32(&mut out, h.1);
    push_be32(&mut out, h.2);
    push_be32(&mut out, h.3);
    push_be32(&mut out, h.4);
    assert(offset == message.len());
    out
}

} // verus!
