//! Session secrets and the hashes that the store keeps in their place.

use vstd::prelude::*;
use rand::Rng;
use sha2::{Digest, Sha256};
use vstd::utf8::encode_utf8;

verus! {

/// The SHA-256 digest of a byte string.
pub uninterp spec fn sha256_of(b: Seq<u8>) -> Seq<u8>;

/// Relies on `sha2::Sha256::digest`: the 32-byte digest of `input`.
#[verifier::external_body]
fn sha256_digest(input: &[u8]) -> (r: Vec<u8>)
    ensures
        r@ == sha256_of(input@),
        r@.len() == 32,
{
    Sha256::digest(input).to_vec()
}

/// Relies on `String::push`: appends one character.
#[verifier::external_body]
pub(crate) fn push_char(s: &mut String, c: char)
    ensures
        final(s)@ == old(s)@.push(c),
{
    s.push(c)
}

/// Upper-case hexadecimal digit of a value below 16.
pub open spec fn hex_digit(n: u8) -> char {
    if n < 10 {
        (('0' as u8) + n) as char
    } else {
        (('A' as u8) + (n - 10)) as char
    }
}

/// Two upper-case hexadecimal digits for each byte, most significant first.
pub open spec fn upper_hex(b: Seq<u8>) -> Seq<char>
    decreases b.len(),
{
    if b.len() == 0 {
        Seq::empty()
    } else {
        upper_hex(b.drop_last()) + seq![hex_digit(b.last() / 16), hex_digit(b.last() % 16)]
    }
}

fn hex_digit_exec(n: u8) -> (c: char)
    requires
        n < 16,
    ensures
        c == hex_digit(n),
{
    if n < 10 {
        (48u8 + n) as char
    } else {
        (55u8 + n) as char
    }
}

/// Hashes `input` with SHA-256 and writes the digest in upper-case hexadecimal.
pub fn sha2(input: &[u8]) -> (r: String)
    ensures
        r@ == upper_hex(sha256_of(input@)),
{
    let digest = sha256_digest(input);
    let mut out = String::new();
    let mut i: usize = 0;
    while i < digest.len()
        invariant
            i <= digest@.len(),
            digest@ == sha256_of(input@),
            out@ == upper_hex(digest@.subrange(0, i as int)),
        decreases digest@.len() - i,
    {
        let b = digest[i];
        push_char(&mut out, hex_digit_exec(b / 16));
        push_char(&mut out, hex_digit_exec(b % 16));
        proof {
            let next = digest@.subrange(0, i + 1);
            assert(next.drop_last() =~= digest@.subrange(0, i as int));
            assert(next.last() == b);
        }
        i = i + 1;
    }
    proof {
        assert(digest@.subrange(0, digest@.len() as int) =~= digest@);
    }
    out
}

/// The characters a session secret is drawn from.
pub const TOKEN_CHARSET: &'static str = "ABCDEFGHIJKLMNOPQRSTUVWXYZabcdefghijklmnopqrstuvwxyz0123456789!@#$%^&*()-_=+[]{}\\|;:'\"<>./~";

/// The number of characters in a session secret.
pub const TOKEN_LEN: usize = 32;

/// A session secret as handed out: `TOKEN_LEN` characters of `TOKEN_CHARSET`.
pub open spec fn is_token(s: Seq<char>) -> bool {
    &&& s.len() == TOKEN_LEN
    &&& forall|i: int| 0 <= i < s.len() ==> TOKEN_CHARSET@.contains(#[trigger] s[i])
}

/// The key under which the store keeps the session of `secret`: the
/// upper-case hexadecimal SHA-256 digest of its UTF-8 bytes.
pub open spec fn session_key_of(secret: Seq<char>) -> Seq<char> {
    upper_hex(sha256_of(encode_utf8(secret)))
}

/// Relies on `rand::Rng::gen_range` on the thread-local generator: a value
/// below `n` (it panics on an empty range, which `requires` rules out).
#[verifier::external_body]
fn random_below(n: usize) -> (r: usize)
    requires
        n > 0,
    ensures
        r < n,
{
    rand::thread_rng().gen_range(0..n)
}

/// The key under which the session of `secret` is stored.
pub fn session_key(secret: &str) -> (r: String)
    ensures
        r@ == session_key_of(secret@),
{
    sha2(secret.as_bytes())
}

/// Draws a fresh session secret.
pub fn generate_token() -> (r: String)
    ensures
        is_token(r@),
{
    let charset = TOKEN_CHARSET;
    let n = charset.unicode_len();
    proof {
        reveal_strlit("ABCDEFGHIJKLMNOPQRSTUVWXYZabcdefghijklmnopqrstuvwxyz0123456789!@#$%^&*()-_=+[]{}\\|;:'\"<>./~");
    }
    let mut out = String::new();
    let mut i: usize = 0;
    while i < TOKEN_LEN
        invariant
            i <= TOKEN_LEN,
            n == charset@.len(),
            n > 0,
            charset@ == TOKEN_CHARSET@,
            out@.len() == i,
            forall|j: int| 0 <= j < i ==> TOKEN_CHARSET@.contains(#[trigger] out@[j]),
        decreases TOKEN_LEN - i,
    {
        let idx = random_below(n);
        let c = charset.get_char(idx);
        assert(TOKEN_CHARSET@[idx as int] == c);
        push_char(&mut out, c);
        i = i + 1;
    }
    out
}

/// Whether bcrypt accepts `password` against the stored hash `hash`.
pub uninterp spec fn bcrypt_accepts(password: Seq<char>, hash: Seq<char>) -> bool;

/// Relies on `bcrypt::verify`: whether `pass` hashes to `hash` under the cost
/// and salt that `hash` carries. A malformed hash is not accepted.
#[verifier::external_body]
pub fn bcrypt_verify(pass: &str, hash: &str) -> (r: bool)
    ensures
        r == bcrypt_accepts(pass@, hash@),
{
    bcrypt::verify(pass, hash).unwrap_or(false)
}

/// Relies on `bcrypt::hash` at `bcrypt::DEFAULT_COST` with a random salt: a hash
/// that `bcrypt::verify` accepts for `input`, or `None` where the operating
/// system gave no randomness for the salt.
#[verifier::external_body]
pub fn bcrypt_hash(input: &str) -> (r: Option<String>)
    ensures
        r matches Some(h) ==> bcrypt_accepts(input@, h@),
{
    bcrypt::hash(input, bcrypt::DEFAULT_COST).ok()
}

} // verus!
