//! Password hashing: Whirlpool digest of the UTF-8 bytes, written in standard
//! padded Base64.

use base64ct::Encoding;
use vstd::prelude::*;
use vstd::utf8::encode_utf8;
use whirlpool::Digest;

verus! {

/// The Whirlpool digest of a message (64 bytes).
pub uninterp spec fn whirlpool_digest(message: Seq<u8>) -> Seq<u8>;

/// The character of the standard Base64 alphabet for a 6-bit value.
pub open spec fn base64_symbol(value: int) -> char {
    if value < 26 {
        (65 + value) as char
    } else if value < 52 {
        (97 + (value - 26)) as char
    } else if value < 62 {
        (48 + (value - 52)) as char
    } else if value == 62 {
        '+'
    } else {
        '/'
    }
}

/// Standard Base64 with `=` padding (RFC 4648, section 4): every group of three
/// bytes becomes four symbols; a last group of one or two bytes is padded.
pub open spec fn base64_standard(bytes: Seq<u8>) -> Seq<char>
    decreases bytes.len(),
{
    if bytes.len() == 0 {
        seq![]
    } else if bytes.len() == 1 {
        seq![base64_symbol(bytes[0] as int / 4), base64_symbol((bytes[0] as int % 4) * 16), '=', '=']
    } else if bytes.len() == 2 {
        seq![
            base64_symbol(bytes[0] as int / 4),
            base64_symbol((bytes[0] as int % 4) * 16 + bytes[1] as int / 16),
            base64_symbol((bytes[1] as int % 16) * 4),
            '=',
        ]
    } else {
        seq![
            base64_symbol(bytes[0] as int / 4),
            base64_symbol((bytes[0] as int % 4) * 16 + bytes[1] as int / 16),
            base64_symbol((bytes[1] as int % 16) * 4 + bytes[2] as int / 64),
            base64_symbol(bytes[2] as int % 64),
        ] + base64_standard(bytes.skip(3))
    }
}

/// What the platform stores for a password: the Base64 text of the Whirlpool
/// digest of the password's UTF-8 bytes.
pub open spec fn password_digest(password: Seq<char>) -> Seq<char> {
    base64_standard(whirlpool_digest(encode_utf8(password)))
}

/// Calls `whirlpool::Whirlpool::digest` (the `Digest` trait of the `digest`
/// crate) on the bytes. Claimed: the result is the Whirlpool digest of exactly
/// those bytes, and it is 64 bytes long (the hasher's `OutputSize` is `U64`).
#[verifier::external_body]
fn whirlpool(bytes: &[u8]) -> (digest: Vec<u8>)
    ensures
        digest@ == whirlpool_digest(bytes@),
        digest@.len() == 64,
{
    whirlpool::Whirlpool::digest(bytes).to_vec()
}

/// Calls `base64ct::Base64::encode_string` (the `Encoding` trait). Claimed: the
/// result is the standard padded Base64 text of the bytes. The function panics
/// when the length times four overflows `usize`, which `requires` leaves out.
#[verifier::external_body]
fn base64_encode(bytes: &[u8]) -> (encoded: String)
    requires
        bytes@.len() <= usize::MAX / 4,
    ensures
        encoded@ == base64_standard(bytes@),
{
    base64ct::Base64::encode_string(bytes)
}

/// Hashes a password the way accounts store it.
pub fn hash_password(password: &str) -> (hashed: String)
    ensures
        hashed@ == password_digest(password@),
        hashed@ == base64_standard(whirlpool_digest(encode_utf8(password@))),
        hashed@.len() == 88,
        hashed@[86] == '=',
        hashed@[87] == '=',
{
    let bytes = password.as_bytes();
    let digest = whirlpool(bytes);
    proof {
        lemma_base64_length(digest@);
        lemma_base64_double_padding(digest@);
    }
    base64_encode(digest.as_slice())
}

/// Whether `password` is the one whose hash is `stored`.
pub fn password_matches(stored: &String, password: &str) -> (matches: bool)
    ensures
        matches == (stored@ == password_digest(password@)),
        matches == (stored@ == base64_standard(whirlpool_digest(encode_utf8(password@)))),
{
    let hashed = hash_password(password);
    *stored == hashed
}

/// The Base64 text of `n` bytes has `4 * ceil(n / 3)` symbols.
pub proof fn lemma_base64_length(bytes: Seq<u8>)
    ensures
        base64_standard(bytes).len() == 4 * ((bytes.len() + 2) / 3),
    decreases bytes.len(),
{
    if bytes.len() >= 3 {
        lemma_base64_length(bytes.skip(3));
    }
}

/// When the byte count leaves one byte over after the groups of three, the
/// Base64 text ends in `==`.
pub proof fn lemma_base64_double_padding(bytes: Seq<u8>)
    requires
        bytes.len() % 3 == 1,
    ensures
        base64_standard(bytes).len() >= 4,
        base64_standard(bytes)[base64_standard(bytes).len() - 1] == '=',
        base64_standard(bytes)[base64_standard(bytes).len() - 2] == '=',
    decreases bytes.len(),
{
    if bytes.len() > 3 {
        lemma_base64_double_padding(bytes.skip(3));
    }
}

/// Distinct 6-bit values have distinct symbols, and no symbol is the padding `=`.
pub proof fn lemma_base64_symbol_injective(first: int, second: int)
    requires
        0 <= first < 64,
        0 <= second < 64,
    ensures
        base64_symbol(first) != '=',
        base64_symbol(first) == base64_symbol(second) ==> first == second,
{
}

/// The four symbols of a full group of three bytes give the bytes back.
proof fn lemma_group_of_three(x0: u8, x1: u8, x2: u8, y0: u8, y1: u8, y2: u8)
    by (bit_vector)
    requires
        x0 / 4 == y0 / 4,
        (x0 % 4) * 16 + x1 / 16 == (y0 % 4) * 16 + y1 / 16,
        (x1 % 16) * 4 + x2 / 64 == (y1 % 16) * 4 + y2 / 64,
        x2 % 64 == y2 % 64,
    ensures
        x0 == y0,
        x1 == y1,
        x2 == y2,
{
}

/// The three symbols of a last group of two bytes give the bytes back.
proof fn lemma_group_of_two(x0: u8, x1: u8, y0: u8, y1: u8)
    by (bit_vector)
    requires
        x0 / 4 == y0 / 4,
        (x0 % 4) * 16 + x1 / 16 == (y0 % 4) * 16 + y1 / 16,
        (x1 % 16) * 4 == (y1 % 16) * 4,
    ensures
        x0 == y0,
        x1 == y1,
{
}

/// The two symbols of a last group of one byte give the byte back.
proof fn lemma_group_of_one(x0: u8, y0: u8)
    by (bit_vector)
    requires
        x0 / 4 == y0 / 4,
        (x0 % 4) * 16 == (y0 % 4) * 16,
    ensures
        x0 == y0,
{
}

/// Base64 is injective: two byte sequences with the same text are the same.
pub proof fn lemma_base64_injective(first: Seq<u8>, second: Seq<u8>)
    requires
        base64_standard(first) == base64_standard(second),
    ensures
        first == second,
    decreases first.len(),
{
    let text = base64_standard(first);
    if first.len() == 0 || second.len() == 0 {
        if first.len() >= 3 {
            lemma_base64_length(first);
        }
        if second.len() >= 3 {
            lemma_base64_length(second);
        }
        assert(first =~= second);
        return;
    }
    let (a0, b0) = (first[0], second[0]);
    let s0 = a0 as int / 4;
    lemma_base64_symbol_injective(s0, second[0] as int / 4);
    if first.len() == 1 {
        assert(text[2] == '=');
        if second.len() >= 2 {
            let b1 = second[1];
            let v = if second.len() == 2 { (b1 as int % 16) * 4 } else {
                (b1 as int % 16) * 4 + second[2] as int / 64
            };
            lemma_base64_symbol_injective(v, v);
            assert(base64_standard(second)[2] == base64_symbol(v));
            assert(false);
        }
        lemma_base64_symbol_injective((a0 as int % 4) * 16, (b0 as int % 4) * 16);
        lemma_group_of_one(a0, b0);
        assert(first =~= second);
    } else if first.len() == 2 {
        let a1 = first[1];
        let v = (a1 as int % 16) * 4;
        lemma_base64_symbol_injective(v, v);
        assert(text[2] == base64_symbol(v));
        assert(text[3] == '=');
        if second.len() == 1 {
            assert(base64_standard(second)[2] == '=');
            assert(false);
        }
        if second.len() >= 3 {
            let w = second[2] as int % 64;
            lemma_base64_symbol_injective(w, w);
            assert(base64_standard(second)[3] == base64_symbol(w));
            assert(false);
        }
        let b1 = second[1];
        lemma_base64_symbol_injective(
            (a0 as int % 4) * 16 + a1 as int / 16,
            (b0 as int % 4) * 16 + b1 as int / 16,
        );
        lemma_base64_symbol_injective(v, (b1 as int % 16) * 4);
        lemma_group_of_two(a0, a1, b0, b1);
        assert(first =~= second);
    } else {
        let (a1, a2) = (first[1], first[2]);
        let w = a2 as int % 64;
        lemma_base64_symbol_injective(w, w);
        assert(text[3] == base64_symbol(w));
        let u = (a1 as int % 16) * 4 + a2 as int / 64;
        lemma_base64_symbol_injective(u, u);
        assert(text[2] == base64_symbol(u));
        if second.len() == 1 {
            assert(base64_standard(second)[2] == '=');
            assert(false);
        }
        if second.len() == 2 {
            assert(base64_standard(second)[3] == '=');
            assert(false);
        }
        let (b1, b2) = (second[1], second[2]);
        assert(text[0] == base64_symbol(s0));
        assert(base64_standard(second)[0] == base64_symbol(b0 as int / 4));
        assert(text[1] == base64_symbol((a0 as int % 4) * 16 + a1 as int / 16));
        assert(base64_standard(second)[1] == base64_symbol((b0 as int % 4) * 16 + b1 as int / 16));
        assert(base64_standard(second)[2] == base64_symbol((b1 as int % 16) * 4 + b2 as int / 64));
        assert(base64_standard(second)[3] == base64_symbol(b2 as int % 64));
        lemma_base64_symbol_injective(
            (a0 as int % 4) * 16 + a1 as int / 16,
            (b0 as int % 4) * 16 + b1 as int / 16,
        );
        lemma_base64_symbol_injective(u, (b1 as int % 16) * 4 + b2 as int / 64);
        lemma_base64_symbol_injective(w, b2 as int % 64);
        lemma_group_of_three(a0, a1, a2, b0, b1, b2);
        assert(base64_standard(first.skip(3)) =~= text.skip(4));
        assert(base64_standard(second.skip(3)) =~= base64_standard(second).skip(4));
        lemma_base64_injective(first.skip(3), second.skip(3));
        assert(first =~= second.take(3) + second.skip(3));
        assert(first =~= second);
    }
}

/// The stored form of a password is exactly the standard padded Base64 of the
/// Whirlpool digest of its UTF-8 bytes; so two passwords are stored alike
/// exactly when their digests are equal.
pub proof fn lemma_password_digest_is_base64_of_whirlpool(first: Seq<char>, second: Seq<char>)
    ensures
        password_digest(first) == base64_standard(whirlpool_digest(encode_utf8(first))),
        (password_digest(first) == password_digest(second)) <==> (whirlpool_digest(
            encode_utf8(first),
        ) == whirlpool_digest(encode_utf8(second))),
{
    if password_digest(first) == password_digest(second) {
        lemma_base64_injective(
            whirlpool_digest(encode_utf8(first)),
            whirlpool_digest(encode_utf8(second)),
        );
    }
}

} // verus!
