use vstd::prelude::*;
use base64::Engine as _;
use crate::error::Error;

verus! {

/// The character of the URL-safe base64 alphabet for a six-bit value.
pub open spec fn sextet_char(v: u8) -> char {
    if v < 26 {
        (v + 65) as char
    } else if v < 52 {
        (v + 71) as char
    } else if v < 62 {
        (v - 4) as char
    } else if v == 62 {
        '-'
    } else {
        '_'
    }
}

/// Four characters for three bytes.
pub open spec fn encode_triple(b0: u8, b1: u8, b2: u8) -> Seq<char> {
    seq![
        sextet_char(b0 >> 2),
        sextet_char(((b0 & 3) << 4) | (b1 >> 4)),
        sextet_char(((b1 & 15) << 2) | (b2 >> 6)),
        sextet_char(b2 & 63),
    ]
}

/// URL-safe base64 without padding: each three bytes become four characters,
/// a last single byte two characters, a last pair of bytes three.
pub open spec fn b64(b: Seq<u8>) -> Seq<char>
    decreases b.len(),
{
    if b.len() == 0 {
        seq![]
    } else if b.len() == 1 {
        seq![sextet_char(b[0] >> 2), sextet_char((b[0] & 3) << 4)]
    } else if b.len() == 2 {
        seq![
            sextet_char(b[0] >> 2),
            sextet_char(((b[0] & 3) << 4) | (b[1] >> 4)),
            sextet_char((b[1] & 15) << 2),
        ]
    } else {
        encode_triple(b[0], b[1], b[2]) + b64(b.subrange(3, b.len() as int))
    }
}

/// The text is the encoding of some byte string.
pub open spec fn is_b64(s: Seq<char>) -> bool {
    exists|b: Seq<u8>| b64(b) == s
}

/// The byte string that a valid text encodes.
pub open spec fn decoded(s: Seq<char>) -> Seq<u8> {
    choose|b: Seq<u8>| b64(b) == s
}

/// The text encodes bytes of the given length.
pub open spec fn encodes_len(text: Seq<char>, n: nat) -> bool {
    is_b64(text) && decoded(text).len() == n
}

/// The length of the encoding of `n` bytes.
pub open spec fn b64_len(n: nat) -> nat {
    4 * (n / 3) + if n % 3 == 0 { 0nat } else if n % 3 == 1 { 2nat } else { 3nat }
}

pub proof fn lemma_b64_len(b: Seq<u8>)
    ensures
        b64(b).len() == b64_len(b.len()),
    decreases b.len(),
{
    if b.len() >= 3 {
        lemma_b64_len(b.subrange(3, b.len() as int));
    }
}

proof fn lemma_sextets_in_range(b0: u8, b1: u8, b2: u8)
    ensures
        b0 >> 2 < 64,
        ((b0 & 3) << 4) | (b1 >> 4) < 64,
        ((b1 & 15) << 2) | (b2 >> 6) < 64,
        b2 & 63 < 64,
        (b0 & 3) << 4 < 64,
        (b1 & 15) << 2 < 64,
{
    assert(b0 >> 2 < 64) by (bit_vector);
    assert(((b0 & 3) << 4) | (b1 >> 4) < 64) by (bit_vector);
    assert(((b1 & 15) << 2) | (b2 >> 6) < 64) by (bit_vector);
    assert(b2 & 63 < 64) by (bit_vector);
    assert((b0 & 3) << 4 < 64) by (bit_vector);
    assert((b1 & 15) << 2 < 64) by (bit_vector);
}

proof fn lemma_sextet_char_injective(a: u8, b: u8)
    requires
        a < 64,
        b < 64,
        sextet_char(a) == sextet_char(b),
    ensures
        a == b,
{
}

proof fn lemma_triple_bits(x0: u8, x1: u8, x2: u8, y0: u8, y1: u8, y2: u8)
    requires
        x0 >> 2 == y0 >> 2,
        ((x0 & 3) << 4) | (x1 >> 4) == ((y0 & 3) << 4) | (y1 >> 4),
        ((x1 & 15) << 2) | (x2 >> 6) == ((y1 & 15) << 2) | (y2 >> 6),
        x2 & 63 == y2 & 63,
    ensures
        x0 == y0,
        x1 == y1,
        x2 == y2,
{
    assert(x0 == y0 && x1 == y1 && x2 == y2) by (bit_vector)
        requires
            x0 >> 2 == y0 >> 2,
            ((x0 & 3) << 4) | (x1 >> 4) == ((y0 & 3) << 4) | (y1 >> 4),
            ((x1 & 15) << 2) | (x2 >> 6) == ((y1 & 15) << 2) | (y2 >> 6),
            x2 & 63 == y2 & 63,
    ;
}

proof fn lemma_single_bits(x0: u8, y0: u8)
    requires
        x0 >> 2 == y0 >> 2,
        (x0 & 3) << 4 == (y0 & 3) << 4,
    ensures
        x0 == y0,
{
    assert(x0 == y0) by (bit_vector)
        requires
            x0 >> 2 == y0 >> 2,
            (x0 & 3) << 4 == (y0 & 3) << 4,
    ;
}

proof fn lemma_pair_bits(x0: u8, x1: u8, y0: u8, y1: u8)
    requires
        x0 >> 2 == y0 >> 2,
        ((x0 & 3) << 4) | (x1 >> 4) == ((y0 & 3) << 4) | (y1 >> 4),
        (x1 & 15) << 2 == (y1 & 15) << 2,
    ensures
        x0 == y0,
        x1 == y1,
{
    assert(x0 == y0 && x1 == y1) by (bit_vector)
        requires
            x0 >> 2 == y0 >> 2,
            ((x0 & 3) << 4) | (x1 >> 4) == ((y0 & 3) << 4) | (y1 >> 4),
            (x1 & 15) << 2 == (y1 & 15) << 2,
    ;
}

/// Distinct byte strings have distinct encodings.
pub proof fn lemma_b64_injective(x: Seq<u8>, y: Seq<u8>)
    requires
        b64(x) == b64(y),
    ensures
        x == y,
    decreases x.len(),
{
    lemma_b64_len(x);
    lemma_b64_len(y);
    assert(x.len() == y.len());
    let ex = b64(x);
    let ey = b64(y);
    if x.len() == 0 {
        assert(x =~= y);
    } else if x.len() == 1 {
        assert(ex[0] == ey[0] && ex[1] == ey[1]);
        lemma_sextets_in_range(x[0], 0, 0);
        lemma_sextets_in_range(y[0], 0, 0);
        lemma_sextet_char_injective(x[0] >> 2, y[0] >> 2);
        lemma_sextet_char_injective((x[0] & 3) << 4, (y[0] & 3) << 4);
        lemma_single_bits(x[0], y[0]);
        assert(x =~= y);
    } else if x.len() == 2 {
        assert(ex[0] == ey[0] && ex[1] == ey[1] && ex[2] == ey[2]);
        lemma_sextets_in_range(x[0], x[1], 0);
        lemma_sextets_in_range(y[0], y[1], 0);
        lemma_sextet_char_injective(x[0] >> 2, y[0] >> 2);
        lemma_sextet_char_injective(((x[0] & 3) << 4) | (x[1] >> 4), ((y[0] & 3) << 4) | (y[1] >> 4));
        lemma_sextet_char_injective((x[1] & 15) << 2, (y[1] & 15) << 2);
        lemma_pair_bits(x[0], x[1], y[0], y[1]);
        assert(x =~= y);
    } else {
        let tx = x.subrange(3, x.len() as int);
        let ty = y.subrange(3, y.len() as int);
        assert(ex[0] == ey[0] && ex[1] == ey[1] && ex[2] == ey[2] && ex[3] == ey[3]);
        lemma_sextets_in_range(x[0], x[1], x[2]);
        lemma_sextets_in_range(y[0], y[1], y[2]);
        lemma_sextet_char_injective(x[0] >> 2, y[0] >> 2);
        lemma_sextet_char_injective(((x[0] & 3) << 4) | (x[1] >> 4), ((y[0] & 3) << 4) | (y[1] >> 4));
        lemma_sextet_char_injective(((x[1] & 15) << 2) | (x[2] >> 6), ((y[1] & 15) << 2) | (y[2] >> 6));
        lemma_sextet_char_injective(x[2] & 63, y[2] & 63);
        lemma_triple_bits(x[0], x[1], x[2], y[0], y[1], y[2]);
        assert(b64(tx) =~= ex.subrange(4, ex.len() as int));
        assert(b64(ty) =~= ey.subrange(4, ey.len() as int));
        lemma_b64_injective(tx, ty);
        assert forall|i: int| 0 <= i < x.len() implies x[i] == y[i] by {
            if i >= 3 {
                assert(x[i] == tx[i - 3]);
                assert(y[i] == ty[i - 3]);
            }
        }
        assert(x =~= y);
    }
}

/// Decoding a valid text gives back the bytes it was made from.
pub proof fn lemma_decoded_b64(b: Seq<u8>)
    ensures
        is_b64(b64(b)),
        decoded(b64(b)) == b,
{
    assert(b64(b) == b64(b));
    lemma_b64_injective(decoded(b64(b)), b);
}

/// Relies on base64's `URL_SAFE_NO_PAD` engine: `encode` writes the URL-safe
/// alphabet without padding.
#[verifier::external_body]
pub(crate) fn encode_url_safe(bytes: &[u8]) -> (r: String)
    ensures
        r@ == b64(bytes@),
{
    base64::engine::general_purpose::URL_SAFE_NO_PAD.encode(bytes)
}

/// Relies on base64's `URL_SAFE_NO_PAD` engine: `decode` refuses padding and
/// non-zero trailing bits, so it accepts exactly the texts that `encode` writes,
/// and gives back the bytes they were written from.
#[verifier::external_body]
pub(crate) fn decode_url_safe(text: &str) -> (r: Result<Vec<u8>, String>)
    ensures
        r matches Ok(b) ==> b64(b@) == text@,
        r is Err ==> !is_b64(text@),
{
    match base64::engine::general_purpose::URL_SAFE_NO_PAD.decode(text) {
        Ok(b) => Ok(b),
        Err(e) => Err(e.to_string()),
    }
}

/// The outcome of decoding the named field `text`.
pub open spec fn decode_outcome(field: Seq<char>, text: Seq<char>, r: Result<Vec<u8>, Error>) -> bool {
    match r {
        Ok(b) => is_b64(text) && b@ == decoded(text),
        Err(e) => !is_b64(text) && e.is_decode_at(field),
    }
}

/// Decodes the transport text of the field named `context`.
pub fn base64_decode(context: &'static str, input: &str) -> (r: Result<Vec<u8>, Error>)
    ensures
        decode_outcome(context@, input@, r),
{
    match decode_url_safe(input) {
        Ok(b) => {
            proof {
                lemma_decoded_b64(b@);
            }
            Ok(b)
        },
        Err(detail) => Err(Error::Decode { context, detail }),
    }
}

/// Encodes bytes as transport text.
pub fn base64_encode(bytes: &[u8]) -> (r: String)
    ensures
        r@ == b64(bytes@),
        r@.len() == b64_len(bytes@.len()),
{
    proof {
        lemma_b64_len(bytes@);
    }
    encode_url_safe(bytes)
}

} // verus!
