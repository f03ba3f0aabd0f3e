//! Byte and text encodings: RFC 5987 percent-encoding of header file names
//! and lowercase hexadecimal.
use vstd::prelude::*;
use crate::text::string_from_chars;
use vstd::utf8::encode_utf8;

verus! {

broadcast use vstd::string::group_string_axioms;

/// Bytes that `percent_encode_header` copies as they are.
pub open spec fn is_unreserved(b: u8) -> bool {
    ||| 0x30 <= b <= 0x39
    ||| 0x41 <= b <= 0x5A
    ||| 0x61 <= b <= 0x7A
    ||| b == 0x2E
    ||| b == 0x2D
    ||| b == 0x5F
    ||| b == 0x7E
}

/// Uppercase hexadecimal digit of `n` (`0 <= n < 16`).
pub open spec fn hex_upper(n: int) -> char {
    if n < 10 {
        (0x30 + n) as char
    } else {
        (0x41 + n - 10) as char
    }
}

/// Lowercase hexadecimal digit of `n` (`0 <= n < 16`).
pub open spec fn hex_lower(n: int) -> char {
    if n < 10 {
        (0x30 + n) as char
    } else {
        (0x61 + n - 10) as char
    }
}

/// The encoding of one byte: itself when unreserved, else `%XX`.
pub open spec fn encode_byte(b: u8) -> Seq<char> {
    if is_unreserved(b) {
        seq![b as char]
    } else {
        seq!['%', hex_upper((b / 16) as int), hex_upper((b % 16) as int)]
    }
}

/// Percent-encoding of a byte string, byte by byte.
pub open spec fn percent_encode(bytes: Seq<u8>) -> Seq<char>
    decreases bytes.len(),
{
    if bytes.len() == 0 {
        Seq::empty()
    } else {
        percent_encode(bytes.drop_last()) + encode_byte(bytes.last())
    }
}

/// Characters that may stand in an encoded header value.
pub open spec fn is_header_safe(c: char) -> bool {
    ||| ('0' <= c <= '9')
    ||| ('A' <= c <= 'Z')
    ||| ('a' <= c <= 'z')
    ||| c == '.'
    ||| c == '-'
    ||| c == '_'
    ||| c == '~'
    ||| c == '%'
}

/// Value of an uppercase hexadecimal digit.
pub open spec fn hex_upper_value(c: char) -> int {
    if '0' <= c <= '9' {
        c as int - 0x30
    } else {
        c as int - 0x41 + 10
    }
}

/// Is `c` an uppercase hexadecimal digit?
pub open spec fn is_hex_upper(c: char) -> bool {
    ('0' <= c <= '9') || ('A' <= c <= 'F')
}

/// Decoding of percent-encoded text: `%XX` gives the byte `XX`, any other
/// character gives its own code.
pub open spec fn percent_decode(s: Seq<char>) -> Seq<u8>
    decreases s.len(),
{
    if s.len() == 0 {
        Seq::empty()
    } else if s.len() >= 3 && s[0] == '%' && is_hex_upper(s[1]) && is_hex_upper(s[2]) {
        seq![(hex_upper_value(s[1]) * 16 + hex_upper_value(s[2])) as u8] + percent_decode(
            s.subrange(3, s.len() as int),
        )
    } else {
        seq![s[0] as u8] + percent_decode(s.drop_first())
    }
}

/// ASCII letters, digits and `.-_~` are kept as they are; every other byte
/// becomes `%` and its two uppercase hexadecimal digits.
pub proof fn lemma_encode_byte_rule(b: u8)
    ensures
        (0x30 <= b <= 0x39 || 0x41 <= b <= 0x5A || 0x61 <= b <= 0x7A || b == 0x2E || b == 0x2D || b
            == 0x5F || b == 0x7E) ==> encode_byte(b) == seq![b as char],
        !(0x30 <= b <= 0x39 || 0x41 <= b <= 0x5A || 0x61 <= b <= 0x7A || b == 0x2E || b == 0x2D
            || b == 0x5F || b == 0x7E) ==> encode_byte(b).len() == 3 && encode_byte(b)[0] == '%'
            && hex_upper_value(encode_byte(b)[1]) * 16 + hex_upper_value(encode_byte(b)[2]) == b
            && is_hex_upper(encode_byte(b)[1]) && is_hex_upper(encode_byte(b)[2]),
{
}

proof fn lemma_percent_encode_concat(a: Seq<u8>, b: Seq<u8>)
    ensures
        percent_encode(a + b) == percent_encode(a) + percent_encode(b),
    decreases b.len(),
{
    if b.len() == 0 {
        assert(a + b =~= a);
        assert(percent_encode(a) + percent_encode(b) =~= percent_encode(a));
    } else {
        assert((a + b).drop_last() =~= a + b.drop_last());
        assert((a + b).last() == b.last());
        lemma_percent_encode_concat(a, b.drop_last());
        assert(percent_encode(a) + percent_encode(b.drop_last()) + encode_byte(b.last())
            =~= percent_encode(a) + (percent_encode(b.drop_last()) + encode_byte(b.last())));
    }
}

proof fn lemma_decode_encoded_byte(x: u8, rest: Seq<char>)
    ensures
        percent_decode(encode_byte(x) + rest) == seq![x] + percent_decode(rest),
{
    let e = encode_byte(x) + rest;
    if is_unreserved(x) {
        assert(e[0] == x as char);
        assert(e.drop_first() =~= rest);
        assert((x as char) as u8 == x);
    } else {
        let hi = x / 16;
        let lo = x % 16;
        assert(e[0] == '%');
        assert(e[1] == hex_upper(hi as int));
        assert(e[2] == hex_upper(lo as int));
        assert(is_hex_upper(e[1]) && hex_upper_value(e[1]) == hi);
        assert(is_hex_upper(e[2]) && hex_upper_value(e[2]) == lo);
        assert(e.subrange(3, e.len() as int) =~= rest);
    }
}

/// Decoding an encoded file name gives back its bytes: the encoding loses
/// nothing and two different names never encode alike.
pub proof fn lemma_percent_decode_encode(bytes: Seq<u8>)
    ensures
        percent_decode(percent_encode(bytes)) == bytes,
    decreases bytes.len(),
{
    if bytes.len() > 0 {
        let x = bytes[0];
        let rest = bytes.drop_first();
        assert(bytes =~= seq![x] + rest);
        lemma_percent_encode_concat(seq![x], rest);
        assert(seq![x].drop_last() =~= Seq::<u8>::empty());
        assert(seq![x].last() == x);
        assert(percent_encode(Seq::<u8>::empty()) =~= Seq::<char>::empty());
        assert(percent_encode(seq![x]) =~= encode_byte(x));
        lemma_decode_encoded_byte(x, percent_encode(rest));
        lemma_percent_decode_encode(rest);
        assert(seq![x] + rest =~= bytes);
    }
}

fn hex_upper_digit(n: u8) -> (c: char)
    requires
        n < 16,
    ensures
        c == hex_upper(n as int),
{
    if n < 10 {
        (0x30u8 + n) as char
    } else {
        (0x41u8 + n - 10) as char
    }
}

fn unreserved(b: u8) -> (r: bool)
    ensures
        r == is_unreserved(b),
{
    (0x30 <= b && b <= 0x39) || (0x41 <= b && b <= 0x5A) || (0x61 <= b && b <= 0x7A) || b == 0x2E
        || b == 0x2D || b == 0x5F || b == 0x7E
}

/// Percent-encodes the UTF-8 bytes of a file name for a `Content-Disposition`
/// header: unreserved bytes stay, every other byte becomes `%XX`.
pub fn percent_encode_header(name: &str) -> (r: String)
    ensures
        r@ == percent_encode(encode_utf8(name@)),
        forall|i: int| 0 <= i < r@.len() ==> is_header_safe(#[trigger] r@[i]),
{
    let bytes = name.as_bytes();
    let mut out: Vec<char> = Vec::new();
    let mut i: usize = 0;
    while i < bytes.len()
        invariant
            bytes@ == encode_utf8(name@),
            i <= bytes.len(),
            out@ == percent_encode(bytes@.take(i as int)),
            forall|k: int| 0 <= k < out@.len() ==> is_header_safe(#[trigger] out@[k]),
        decreases bytes.len() - i,
    {
        let b = bytes[i];
        proof {
            assert(bytes@.take(i + 1).drop_last() =~= bytes@.take(i as int));
            assert(bytes@.take(i + 1).last() == b);
        }
        if unreserved(b) {
            out.push(b as char);
        } else {
            out.push('%');
            out.push(hex_upper_digit(b / 16));
            out.push(hex_upper_digit(b % 16));
        }
        assert(out@ =~= percent_encode(bytes@.take(i + 1)));
        i = i + 1;
    }
    assert(bytes@.take(bytes@.len() as int) =~= bytes@);
    string_from_chars(&out)
}

/// Lowercase hexadecimal text of a byte string, two digits per byte,
/// high nibble first.
pub open spec fn hex_of_bytes(bytes: Seq<u8>) -> Seq<char>
    decreases bytes.len(),
{
    if bytes.len() == 0 {
        Seq::empty()
    } else {
        hex_of_bytes(bytes.drop_last()) + seq![
            hex_lower((bytes.last() / 16) as int),
            hex_lower((bytes.last() % 16) as int),
        ]
    }
}

/// The hexadecimal text of a byte string has two characters per byte.
pub proof fn lemma_hex_of_bytes_len(bytes: Seq<u8>)
    ensures
        hex_of_bytes(bytes).len() == 2 * bytes.len(),
    decreases bytes.len(),
{
    if bytes.len() > 0 {
        lemma_hex_of_bytes_len(bytes.drop_last());
    }
}

/// `16^k`.
pub open spec fn pow16(k: nat) -> nat
    decreases k,
{
    if k == 0 {
        1
    } else {
        16 * pow16((k - 1) as nat)
    }
}

/// The `i`-th hexadecimal digit (from the most significant) of a 128-bit value.
pub open spec fn nibble(x: u128, i: int) -> int {
    (x as int / pow16((31 - i) as nat) as int) % 16
}

/// 32 lowercase hexadecimal digits of a 128-bit value, most significant first
/// (the "simple" form of a UUID).
pub open spec fn hex32(x: u128) -> Seq<char> {
    Seq::new(32, |i: int| hex_lower(nibble(x, i)))
}

/// The hyphenated 8-4-4-4-12 form of a UUID.
pub open spec fn hyphenated(x: u128) -> Seq<char> {
    let h = hex32(x);
    h.subrange(0, 8) + seq!['-'] + h.subrange(8, 12) + seq!['-'] + h.subrange(12, 16) + seq!['-']
        + h.subrange(16, 20) + seq!['-'] + h.subrange(20, 32)
}

/// Decimal digits of a natural number.
pub open spec fn decimal_nat(n: nat) -> Seq<char>
    decreases n,
{
    if n < 10 {
        seq![(0x30 + n) as char]
    } else {
        decimal_nat(n / 10) + seq![(0x30 + n % 10) as char]
    }
}

/// Decimal text of an integer, with a leading `-` when negative.
pub open spec fn decimal(v: int) -> Seq<char> {
    if v < 0 {
        seq!['-'] + decimal_nat((-v) as nat)
    } else {
        decimal_nat(v as nat)
    }
}

/// `i64::to_string`: the decimal text of an integer.
#[verifier::external_body]
pub fn i64_to_string(v: i64) -> (r: String)
    ensures
        r@ == decimal(v as int),
{
    v.to_string()
}

} // verus!
