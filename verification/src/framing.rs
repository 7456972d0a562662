//! Byte-level framing of the JSON request bodies that the client sends:
//! string escaping, quoting, and decimal number rendering, each with an
//! exact specification.
use vstd::prelude::*;
use vstd::utf8::encode_utf8;

verus! {

/// The byte for the hexadecimal digit `n` (lower case letters).
pub open spec fn hex_digit(n: nat) -> u8
    recommends
        n < 16,
{
    if n < 10 {
        (0x30 + n) as u8
    } else {
        (0x57 + n) as u8
    }
}

/// How one byte of a string appears inside a JSON string literal:
/// quote and backslash get a backslash escape, the control characters
/// backspace, tab, line feed, form feed and carriage return get their
/// two-character escapes, any other control character a `\u00XX` escape,
/// and every remaining byte stands for itself. Bytes of a multi-byte
/// UTF-8 character are all at least 0x80 and pass through unchanged.
pub open spec fn escape_byte(b: u8) -> Seq<u8> {
    if b == 0x22 {
        seq![0x5cu8, 0x22u8]
    } else if b == 0x5c {
        seq![0x5cu8, 0x5cu8]
    } else if b == 0x08 {
        seq![0x5cu8, 0x62u8]
    } else if b == 0x09 {
        seq![0x5cu8, 0x74u8]
    } else if b == 0x0a {
        seq![0x5cu8, 0x6eu8]
    } else if b == 0x0c {
        seq![0x5cu8, 0x66u8]
    } else if b == 0x0d {
        seq![0x5cu8, 0x72u8]
    } else if b < 0x20 {
        seq![0x5cu8, 0x75u8, 0x30u8, 0x30u8, hex_digit((b >> 4) as nat), hex_digit((b & 0xf) as nat)]
    } else {
        seq![b]
    }
}

/// The body of a JSON string literal for the UTF-8 bytes `s`.
pub open spec fn escaped_bytes(s: Seq<u8>) -> Seq<u8>
    decreases s.len(),
{
    if s.len() == 0 {
        Seq::<u8>::empty()
    } else {
        escape_byte(s[0]) + escaped_bytes(s.drop_first())
    }
}

/// A complete JSON string literal (quotes included) for the UTF-8 bytes `s`.
pub open spec fn quoted_bytes(s: Seq<u8>) -> Seq<u8> {
    seq![0x22u8] + escaped_bytes(s) + seq![0x22u8]
}

/// A complete JSON string literal for the text `s`.
pub open spec fn text_json(s: Seq<char>) -> Seq<u8> {
    quoted_bytes(encode_utf8(s))
}

/// The decimal digits of `n`, most significant first.
pub open spec fn dec_of(n: nat) -> Seq<u8>
    decreases n,
{
    if n < 10 {
        seq![(0x30 + n) as u8]
    } else {
        dec_of(n / 10) + seq![(0x30 + n % 10) as u8]
    }
}

/// The decimal rendering of `n`, with a leading minus sign when negative.
pub open spec fn int_text(n: int) -> Seq<u8> {
    if n < 0 {
        seq![0x2du8] + dec_of((-n) as nat)
    } else {
        dec_of(n as nat)
    }
}

/// Escaping a concatenation escapes each part.
pub proof fn lemma_escaped_concat(a: Seq<u8>, b: Seq<u8>)
    ensures
        escaped_bytes(a + b) == escaped_bytes(a) + escaped_bytes(b),
    decreases a.len(),
{
    if a.len() == 0 {
        assert(a + b =~= b);
        assert(escaped_bytes(a) + escaped_bytes(b) =~= escaped_bytes(b));
    } else {
        lemma_escaped_concat(a.drop_first(), b);
        assert((a + b).drop_first() =~= a.drop_first() + b);
        assert((a + b)[0] == a[0]);
        assert(escape_byte(a[0]) + (escaped_bytes(a.drop_first()) + escaped_bytes(b)) =~= (
        escape_byte(a[0]) + escaped_bytes(a.drop_first())) + escaped_bytes(b));
    }
}

fn hex_digit_byte(n: u8) -> (r: u8)
    requires
        n < 16,
    ensures
        r == hex_digit(n as nat),
{
    if n < 10 {
        0x30 + n
    } else {
        0x57 + n
    }
}

/// Appends the bytes of `s` to `out`.
pub fn push_bytes(out: &mut Vec<u8>, s: &[u8])
    ensures
        final(out)@ == old(out)@ + s@,
{
    out.extend_from_slice(s);
}

fn push_escape_of(out: &mut Vec<u8>, b: u8)
    ensures
        final(out)@ == old(out)@ + escape_byte(b),
{
    let ghost start = out@;
    if b == 0x22 {
        out.push(0x5c);
        out.push(0x22);
    } else if b == 0x5c {
        out.push(0x5c);
        out.push(0x5c);
    } else if b == 0x08 {
        out.push(0x5c);
        out.push(0x62);
    } else if b == 0x09 {
        out.push(0x5c);
        out.push(0x74);
    } else if b == 0x0a {
        out.push(0x5c);
        out.push(0x6e);
    } else if b == 0x0c {
        out.push(0x5c);
        out.push(0x66);
    } else if b == 0x0d {
        out.push(0x5c);
        out.push(0x72);
    } else if b < 0x20 {
        assert(b >> 4 < 16 && b & 0xf < 16) by (bit_vector);
        out.push(0x5c);
        out.push(0x75);
        out.push(0x30);
        out.push(0x30);
        let hi = hex_digit_byte(b >> 4);
        let lo = hex_digit_byte(b & 0xf);
        out.push(hi);
        out.push(lo);
    } else {
        out.push(b);
    }
    assert(out@ =~= start + escape_byte(b));
}

/// Appends the escaped form of the bytes `s` to `out`.
pub fn push_escaped(out: &mut Vec<u8>, s: &[u8])
    ensures
        final(out)@ == old(out)@ + escaped_bytes(s@),
{
    let ghost start = out@;
    let mut i: usize = 0;
    while i < s.len()
        invariant
            i <= s.len(),
            out@ == start + escaped_bytes(s@.take(i as int)),
        decreases s.len() - i,
    {
        push_escape_of(out, s[i]);
        proof {
            lemma_escaped_concat(s@.take(i as int), seq![s@[i as int]]);
            assert(s@.take(i as int) + seq![s@[i as int]] =~= s@.take(i + 1));
            assert(seq![s@[i as int]].drop_first() =~= Seq::<u8>::empty());
            assert(escaped_bytes(Seq::<u8>::empty()) =~= Seq::<u8>::empty());
            assert(escaped_bytes(seq![s@[i as int]]) =~= escape_byte(s@[i as int]));
            assert(start + escaped_bytes(s@.take(i as int)) + escape_byte(s@[i as int]) =~= start
                + escaped_bytes(s@.take(i + 1)));
        }
        i = i + 1;
    }
    assert(s@.take(s@.len() as int) =~= s@);
}

/// Appends a complete JSON string literal for the text `s` to `out`.
pub fn push_text_json(out: &mut Vec<u8>, s: &str)
    ensures
        final(out)@ == old(out)@ + text_json(s@),
{
    let ghost start = out@;
    out.push(0x22);
    push_escaped(out, s.as_bytes());
    out.push(0x22);
    assert(out@ =~= start + text_json(s@));
}

/// Appends the decimal digits of `n` to `out`.
pub fn push_dec(out: &mut Vec<u8>, n: u64)
    ensures
        final(out)@ == old(out)@ + dec_of(n as nat),
    decreases n,
{
    if n < 10 {
        out.push(0x30 + n as u8);
        assert(out@ =~= old(out)@ + dec_of(n as nat));
    } else {
        push_dec(out, n / 10);
        out.push(0x30 + (n % 10) as u8);
        assert(out@ =~= old(out)@ + dec_of(n as nat));
    }
}

/// Appends the decimal rendering of `n`, sign included, to `out`.
pub fn push_int(out: &mut Vec<u8>, n: i32)
    ensures
        final(out)@ == old(out)@ + int_text(n as int),
{
    let ghost start = out@;
    if n < 0 {
        out.push(0x2d);
        let wide: i64 = n as i64;
        let m: u64 = (-wide) as u64;
        assert(m == -(n as int));
        push_dec(out, m);
    } else {
        push_dec(out, n as u64);
    }
    assert(out@ =~= start + int_text(n as int));
}

} // verus!
