//! Base64 framing of datagrams (standard alphabet, padded output).

use vstd::prelude::*;
use base64::Engine as _;

verus! {

/// The character that stands for the 6-bit value `v` in the standard alphabet.
pub open spec fn base64_symbol(v: int) -> char
    recommends
        0 <= v < 64,
{
    if v < 26 {
        (v + 65) as char
    } else if v < 52 {
        (v - 26 + 97) as char
    } else if v < 62 {
        (v - 52 + 48) as char
    } else if v == 62 {
        '+'
    } else {
        '/'
    }
}

/// The padding character.
pub open spec fn base64_pad() -> char {
    '='
}

/// Whether `c` is a character of the standard alphabet.
pub open spec fn is_base64_symbol(c: char) -> bool {
    ('A' <= c && c <= 'Z') || ('a' <= c && c <= 'z') || ('0' <= c && c <= '9') || c == '+' || c == '/'
}

/// Standard padded base64 (RFC 4648, section 4): every 3 bytes become 4
/// characters; a final group of 1 or 2 bytes is completed with `=`.
pub open spec fn base64_encode(b: Seq<u8>) -> Seq<char>
    decreases b.len(),
{
    if b.len() == 0 {
        Seq::empty()
    } else if b.len() == 1 {
        let x = b[0] as int;
        seq![base64_symbol(x / 4), base64_symbol((x % 4) * 16), base64_pad(), base64_pad()]
    } else if b.len() == 2 {
        let x = b[0] as int;
        let y = b[1] as int;
        seq![
            base64_symbol(x / 4),
            base64_symbol((x % 4) * 16 + y / 16),
            base64_symbol((y % 16) * 4),
            base64_pad(),
        ]
    } else {
        let x = b[0] as int;
        let y = b[1] as int;
        let z = b[2] as int;
        seq![
            base64_symbol(x / 4),
            base64_symbol((x % 4) * 16 + y / 16),
            base64_symbol((y % 16) * 4 + z / 64),
            base64_symbol(z % 64),
        ] + base64_encode(b.subrange(3, b.len() as int))
    }
}

/// The length of the padded encoding of `n` bytes.
pub open spec fn base64_encoded_len(n: int) -> int {
    (n + 2) / 3 * 4
}

/// How many `=` end the encoding of `n` bytes.
pub open spec fn base64_padding_len(n: int) -> int {
    if n % 3 == 1 {
        2
    } else if n % 3 == 2 {
        1
    } else {
        0
    }
}

/// The encoding of `b` with its last `k` characters left off.
pub open spec fn base64_truncated(b: Seq<u8>, k: int) -> Seq<char> {
    base64_encode(b).take(base64_encode(b).len() - k)
}

/// `s` is the encoding of `b`, with all, some or none of its padding.
pub open spec fn is_base64_encoding_of(s: Seq<char>, b: Seq<u8>) -> bool {
    exists|k: int| 0 <= k <= base64_padding_len(b.len() as int) && s == #[trigger] base64_truncated(b, k)
}

/// What decoding `s` gives: the bytes whose encoding it is (with any part of
/// the padding left off), or `None` where there are none. Characters outside
/// the alphabet, padding anywhere but at the end, a final group of one
/// character and a final character with bits the bytes do not use are all
/// refused this way.
pub open spec fn base64_decode(s: Seq<char>) -> Option<Seq<u8>> {
    if exists|b: Seq<u8>| is_base64_encoding_of(s, b) {
        Some(choose|b: Seq<u8>| is_base64_encoding_of(s, b))
    } else {
        None
    }
}

/// Calls `base64::Engine::encode` on a `GeneralPurpose` engine built from the
/// standard alphabet and the `PAD` configuration with padding on. The contract
/// claims that the output is the padded RFC 4648 encoding of the input. The
/// engine panics when the output length overflows `usize`; `requires` leaves
/// that out.
#[verifier::external_body]
fn engine_encode(input: &[u8]) -> (res: String)
    requires
        base64_encoded_len(input@.len() as int) <= usize::MAX,
    ensures
        res@ == base64_encode(input@),
{
    base64::engine::GeneralPurpose::new(
        &base64::alphabet::STANDARD,
        base64::engine::general_purpose::PAD
            .with_encode_padding(true)
            .with_decode_padding_mode(base64::engine::DecodePaddingMode::Indifferent),
    ).encode(input)
}

/// Calls `base64::Engine::decode` on the same engine as `engine_encode`
/// (padding on decode: `Indifferent`, trailing bits checked), and maps its
/// `DecodeError` to `None`. The contract claims that the engine accepts
/// exactly the padded RFC 4648 encodings with all, some or none of their
/// padding, and gives back the bytes encoded.
#[verifier::external_body]
fn engine_decode(input: &str) -> (res: Option<Vec<u8>>)
    ensures
        res is Some <==> base64_decode(input@) is Some,
        res is Some ==> base64_decode(input@) == Some(res->0@),
{
    base64::engine::GeneralPurpose::new(
        &base64::alphabet::STANDARD,
        base64::engine::general_purpose::PAD
            .with_encode_padding(true)
            .with_decode_padding_mode(base64::engine::DecodePaddingMode::Indifferent),
    ).decode(input).ok()
}

/// Encodes bytes as padded standard base64.
pub fn base_64_encode_bytes_to_string(input: &[u8]) -> (res: String)
    requires
        base64_encoded_len(input@.len() as int) <= usize::MAX,
    ensures
        res@ == base64_encode(input@),
        res@.len() == base64_encoded_len(input@.len() as int),
{
    proof {
        lemma_encoded_len(input@);
    }
    engine_encode(input)
}

/// Decodes base64 text that the engine accepts.
pub fn base_64_decode_string_to_bytes(input: &str) -> (res: Vec<u8>)
    requires
        base64_decode(input@) is Some,
    ensures
        base64_decode(input@) == Some(res@),
        forall|b: Seq<u8>| #[trigger] is_base64_encoding_of(input@, b) ==> res@ == b,
{
    match engine_decode(input) {
        Some(v) => {
            proof {
                assert forall|b: Seq<u8>| #[trigger] is_base64_encoding_of(input@, b) implies v@ == b by {
                    lemma_decode_of_encoding(input@, b);
                }
            }
            v
        },
        None => {
            proof {
                assert(false);
            }
            Vec::new()
        },
    }
}

/// Decodes base64 text, or gives `None` where the engine rejects it.
pub fn try_base_64_decode_string_to_bytes(input: &str) -> (res: Option<Vec<u8>>)
    ensures
        res is Some <==> base64_decode(input@) is Some,
        res is Some ==> base64_decode(input@) == Some(res->0@),
        forall|b: Seq<u8>| #[trigger] is_base64_encoding_of(input@, b) ==> res is Some && res->0@ == b,
{
    let res = engine_decode(input);
    proof {
        assert forall|b: Seq<u8>| #[trigger] is_base64_encoding_of(input@, b) implies res is Some
            && res->0@ == b by {
            lemma_decode_of_encoding(input@, b);
        }
    }
    res
}

/// The encoding of `b` has `base64_encoded_len(b.len())` characters.
pub proof fn lemma_encoded_len(b: Seq<u8>)
    ensures
        base64_encode(b).len() == base64_encoded_len(b.len() as int),
    decreases b.len(),
{
    if b.len() >= 3 {
        lemma_encoded_len(b.subrange(3, b.len() as int));
    }
}

/// Distinct 6-bit values stand for distinct characters, none of them the
/// padding character, all of them in the alphabet.
pub proof fn lemma_symbol_distinct(v: int, w: int)
    requires
        0 <= v < 64,
        0 <= w < 64,
    ensures
        base64_symbol(v) != base64_pad(),
        is_base64_symbol(base64_symbol(v)),
        base64_symbol(v) == base64_symbol(w) ==> v == w,
{
}

/// The length of an encoding with `k` characters of its padding left off.
proof fn lemma_truncated_len(b: Seq<u8>, k: int)
    requires
        0 <= k <= base64_padding_len(b.len() as int),
    ensures
        base64_truncated(b, k).len() == base64_encoded_len(b.len() as int) - k,
        b.len() == 0 ==> base64_truncated(b, k).len() == 0,
        1 <= b.len() <= 3 ==> base64_truncated(b, k).len() == 4 - k,
        b.len() >= 4 ==> base64_truncated(b, k).len() >= 6,
{
    lemma_encoded_len(b);
    let n = b.len() as int;
    if n >= 4 {
        assert((n + 2) / 3 >= 2);
    } else if n >= 1 {
        assert((n + 2) / 3 == 1);
    }
}

/// The first characters of an encoding of at most 3 bytes.
proof fn lemma_short_encoding(b: Seq<u8>)
    requires
        1 <= b.len() <= 3,
    ensures
        base64_encode(b).len() == 4,
        base64_encode(b)[0] == base64_symbol(b[0] as int / 4),
        b.len() == 1 ==> base64_encode(b)[1] == base64_symbol((b[0] as int % 4) * 16),
        b.len() >= 2 ==> base64_encode(b)[1] == base64_symbol(
            (b[0] as int % 4) * 16 + b[1] as int / 16,
        ),
        b.len() == 1 ==> base64_encode(b)[2] == base64_pad(),
        b.len() == 2 ==> base64_encode(b)[2] == base64_symbol((b[1] as int % 16) * 4),
        b.len() == 3 ==> base64_encode(b)[2] == base64_symbol(
            (b[1] as int % 16) * 4 + b[2] as int / 64,
        ),
        b.len() <= 2 ==> base64_encode(b)[3] == base64_pad(),
        b.len() == 3 ==> base64_encode(b)[3] == base64_symbol(b[2] as int % 64),
{
    if b.len() == 3 {
        assert(base64_encode(b.subrange(3, 3)) =~= Seq::<char>::empty());
    }
}

/// One text is an encoding (with all, some or none of its padding) of one
/// byte string only: decoding is well defined.
pub proof fn lemma_encoding_unique(s: Seq<char>, a: Seq<u8>, ka: int, b: Seq<u8>, kb: int)
    requires
        0 <= ka <= base64_padding_len(a.len() as int),
        0 <= kb <= base64_padding_len(b.len() as int),
        s == base64_truncated(a, ka),
        s == base64_truncated(b, kb),
    ensures
        a == b,
    decreases a.len(),
{
    lemma_encoded_len(a);
    lemma_encoded_len(b);
    lemma_truncated_len(a, ka);
    lemma_truncated_len(b, kb);
    let ea = base64_encode(a);
    let eb = base64_encode(b);
    if a.len() == 0 || b.len() == 0 {
        assert(a.len() == 0 && b.len() == 0);
        assert(a =~= b);
    } else if a.len() >= 4 || b.len() >= 4 {
        assert(a.len() >= 4 && b.len() >= 4);
        let ta = a.subrange(3, a.len() as int);
        let tb = b.subrange(3, b.len() as int);
        lemma_encoded_len(ta);
        lemma_encoded_len(tb);
        let xa = a[0] as int;
        let ya = a[1] as int;
        let za = a[2] as int;
        let xb = b[0] as int;
        let yb = b[1] as int;
        let zb = b[2] as int;
        assert(s[0] == ea[0] && s[1] == ea[1] && s[2] == ea[2] && s[3] == ea[3]);
        assert(s[0] == eb[0] && s[1] == eb[1] && s[2] == eb[2] && s[3] == eb[3]);
        lemma_symbol_distinct(xa / 4, xb / 4);
        lemma_symbol_distinct((xa % 4) * 16 + ya / 16, (xb % 4) * 16 + yb / 16);
        lemma_symbol_distinct((ya % 16) * 4 + za / 64, (yb % 16) * 4 + zb / 64);
        lemma_symbol_distinct(za % 64, zb % 64);
        assert(xa == xb && ya == yb && za == zb);
        assert(base64_truncated(ta, ka) =~= s.subrange(4, s.len() as int));
        assert(base64_truncated(tb, kb) =~= s.subrange(4, s.len() as int));
        lemma_encoding_unique(s.subrange(4, s.len() as int), ta, ka, tb, kb);
        assert(a =~= seq![a[0], a[1], a[2]] + ta);
        assert(b =~= seq![b[0], b[1], b[2]] + tb);
    } else {
        lemma_short_encoding(a);
        lemma_short_encoding(b);
        let xa = a[0] as int;
        let xb = b[0] as int;
        let ya = if a.len() >= 2 { a[1] as int } else { 0 };
        let yb = if b.len() >= 2 { b[1] as int } else { 0 };
        let za = if a.len() >= 3 { a[2] as int } else { 0 };
        let zb = if b.len() >= 3 { b[2] as int } else { 0 };
        assert(ka == kb);
        assert(s[0] == ea[0] && s[0] == eb[0] && s[1] == ea[1] && s[1] == eb[1]);
        lemma_symbol_distinct(xa / 4, xb / 4);
        lemma_symbol_distinct((xa % 4) * 16 + ya / 16, (xb % 4) * 16 + yb / 16);
        lemma_symbol_distinct((ya % 16) * 4 + za / 64, (yb % 16) * 4 + zb / 64);
        lemma_symbol_distinct(za % 64, zb % 64);
        if a.len() != b.len() {
            if a.len() == 1 || b.len() == 1 {
                assert(s[2] == ea[2] && s[2] == eb[2]);
            } else {
                assert(s[3] == ea[3] && s[3] == eb[3]);
            }
            assert(false);
        }
        if a.len() >= 2 {
            assert(s[2] == ea[2] && s[2] == eb[2]);
        }
        if a.len() == 3 {
            assert(s[3] == ea[3] && s[3] == eb[3]);
        }
        assert(a =~= b);
    }
}

/// Decoding any encoding of `b` (with all, some or none of its padding)
/// gives `b`.
pub proof fn lemma_decode_of_encoding(s: Seq<char>, b: Seq<u8>)
    requires
        is_base64_encoding_of(s, b),
    ensures
        base64_decode(s) == Some(b),
{
    let c = choose|c: Seq<u8>| is_base64_encoding_of(s, c);
    let kb = choose|k: int| 0 <= k <= base64_padding_len(b.len() as int) && s == #[trigger] base64_truncated(b, k);
    let kc = choose|k: int| 0 <= k <= base64_padding_len(c.len() as int) && s == #[trigger] base64_truncated(c, k);
    lemma_encoding_unique(s, b, kb, c, kc);
}

/// Decoding the encoding of `b` gives `b` back: a datagram crosses the
/// tunnel unchanged.
pub proof fn lemma_decode_encode(b: Seq<u8>)
    ensures
        base64_decode(base64_encode(b)) == Some(b),
{
    assert(base64_truncated(b, 0) =~= base64_encode(b));
    lemma_decode_of_encoding(base64_encode(b), b);
}

/// Encoding works group by group: bytes that fill whole groups of three
/// encode the same whether or not more bytes follow.
pub proof fn lemma_encode_concat(a: Seq<u8>, b: Seq<u8>)
    requires
        a.len() % 3 == 0,
    ensures
        base64_encode(a + b) == base64_encode(a) + base64_encode(b),
    decreases a.len(),
{
    if a.len() == 0 {
        assert(a + b =~= b);
        assert(base64_encode(a) + base64_encode(b) =~= base64_encode(b));
    } else {
        let ab = a + b;
        let ta = a.subrange(3, a.len() as int);
        lemma_encode_concat(ta, b);
        assert(ab.subrange(3, ab.len() as int) =~= ta + b);
        assert(ab[0] == a[0] && ab[1] == a[1] && ab[2] == a[2]);
        assert(base64_encode(ab) =~= base64_encode(a) + base64_encode(b));
    }
}

/// Every character of an encoding is a character of the standard alphabet or
/// the padding character, so an encoded datagram travels as plain text.
pub proof fn lemma_encode_alphabet(b: Seq<u8>)
    ensures
        forall|i: int|
            0 <= i < base64_encode(b).len() ==> #[trigger] is_base64_symbol(base64_encode(b)[i])
                || base64_encode(b)[i] == base64_pad(),
    decreases b.len(),
{
    let e = base64_encode(b);
    if b.len() == 0 {
    } else {
        let x = b[0] as int;
        let y = if b.len() >= 2 { b[1] as int } else { 0 };
        let z = if b.len() >= 3 { b[2] as int } else { 0 };
        lemma_symbol_distinct(x / 4, 0);
        lemma_symbol_distinct((x % 4) * 16 + y / 16, 0);
        lemma_symbol_distinct((y % 16) * 4 + z / 64, 0);
        lemma_symbol_distinct(z % 64, 0);
        if b.len() >= 3 {
            let t = b.subrange(3, b.len() as int);
            lemma_encode_alphabet(t);
            assert forall|i: int| 4 <= i < e.len() implies #[trigger] is_base64_symbol(e[i])
                || e[i] == base64_pad() by {
                assert(e[i] == base64_encode(t)[i - 4]);
            }
        }
    }
}

} // verus!
