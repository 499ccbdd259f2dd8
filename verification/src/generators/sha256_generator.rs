use crate::generators::traits::PasswordGenerator;
use sha2::{Digest, Sha256};
use vstd::prelude::*;
use vstd::string::*;
use vstd::utf8::*;

verus! {

/// How many leading bytes of the digest make up a password.
pub const PASSWORD_BYTES: usize = 8;

/// The SHA-256 digest of a byte string.
pub uninterp spec fn sha256(data: Seq<u8>) -> [u8; 32];

/// Runs `sha2::Sha256::digest` over `data`. Trusted: the 32 bytes returned are
/// the SHA-256 digest of `data`, which depends on `data` alone.
#[verifier::external_body]
fn sha256_digest(data: &[u8]) -> (digest: [u8; 32])
    ensures
        digest == sha256(data@),
{
    Sha256::digest(data).into()
}

/// The lowercase hexadecimal digit for a value below sixteen.
pub open spec fn lower_hex_digit(nibble: int) -> char {
    seq!['0', '1', '2', '3', '4', '5', '6', '7', '8', '9', 'a', 'b', 'c', 'd', 'e', 'f'][nibble]
}

/// Whether `c` is one of `0`-`9`, `a`-`f`.
pub open spec fn is_lower_hex(c: char) -> bool {
    ('0' <= c && c <= '9') || ('a' <= c && c <= 'f')
}

/// Lowercase hexadecimal rendering: two digits per byte, high nibble first.
pub open spec fn lower_hex(bytes: Seq<u8>) -> Seq<char> {
    Seq::new(
        2 * bytes.len(),
        |i: int|
            if i % 2 == 0 {
                lower_hex_digit(bytes[i / 2] as int / 16)
            } else {
                lower_hex_digit(bytes[i / 2] as int % 16)
            },
    )
}

/// The bytes that are hashed: the secret, one hyphen, the service, in UTF-8.
pub open spec fn derivation_input(secret: Seq<char>, service: Seq<char>) -> Seq<u8> {
    encode_utf8(secret + seq!['-'] + service)
}

/// The password read off a digest: its leading bytes in lowercase hexadecimal.
pub open spec fn digest_password(digest: Seq<u8>) -> Seq<char> {
    lower_hex(digest.take(PASSWORD_BYTES as int))
}

/// The password derived from a secret and a service.
pub open spec fn derived_password(secret: Seq<char>, service: Seq<char>) -> Seq<char> {
    digest_password(sha256(derivation_input(secret, service))@)
}

/// The one-character string for a hexadecimal digit.
fn lower_hex_str(nibble: u8) -> (digit: &'static str)
    requires
        nibble < 16,
    ensures
        digit@ == seq![lower_hex_digit(nibble as int)],
{
    proof {
        reveal_strlit("0");
        reveal_strlit("1");
        reveal_strlit("2");
        reveal_strlit("3");
        reveal_strlit("4");
        reveal_strlit("5");
        reveal_strlit("6");
        reveal_strlit("7");
        reveal_strlit("8");
        reveal_strlit("9");
        reveal_strlit("a");
        reveal_strlit("b");
        reveal_strlit("c");
        reveal_strlit("d");
        reveal_strlit("e");
        reveal_strlit("f");
    }
    let digit = match nibble {
        0 => "0",
        1 => "1",
        2 => "2",
        3 => "3",
        4 => "4",
        5 => "5",
        6 => "6",
        7 => "7",
        8 => "8",
        9 => "9",
        10 => "a",
        11 => "b",
        12 => "c",
        13 => "d",
        14 => "e",
        _ => "f",
    };
    assert(digit@ =~= seq![lower_hex_digit(nibble as int)]);
    digit
}

/// Renders the leading bytes of a digest as the password.
pub fn password_from_digest(digest: &[u8; 32]) -> (password: String)
    ensures
        password@ == digest_password(digest@),
{
    let mut password = String::new();
    let mut i: usize = 0;
    while i < PASSWORD_BYTES
        invariant
            i <= PASSWORD_BYTES,
            password@ == lower_hex(digest@.take(i as int)),
        decreases PASSWORD_BYTES - i,
    {
        let byte: u8 = digest[i];
        password.append(lower_hex_str(byte / 16));
        password.append(lower_hex_str(byte % 16));
        i += 1;
        assert(password@ =~= lower_hex(digest@.take(i as int)));
    }
    password
}

/// Every derived password is sixteen characters long, each of them one of
/// `0`-`9`, `a`-`f`, whatever the secret and the service are.
pub proof fn lemma_derived_password_is_sixteen_lower_hex(secret: Seq<char>, service: Seq<char>)
    ensures
        derived_password(secret, service).len() == 16,
        forall|i: int| 0 <= i < 16 ==> is_lower_hex(#[trigger] derived_password(secret, service)[i]),
{
    let digest = sha256(derivation_input(secret, service))@;
    lemma_digest_password_is_sixteen_lower_hex(digest);
}

/// The password read off any digest of at least eight bytes is sixteen
/// lowercase hexadecimal digits.
pub proof fn lemma_digest_password_is_sixteen_lower_hex(digest: Seq<u8>)
    requires
        digest.len() >= PASSWORD_BYTES,
    ensures
        digest_password(digest).len() == 16,
        forall|i: int| 0 <= i < 16 ==> is_lower_hex(#[trigger] digest_password(digest)[i]),
{
    assert forall|i: int| 0 <= i < 16 implies is_lower_hex(#[trigger] digest_password(digest)[i]) by {
        let byte = digest.take(PASSWORD_BYTES as int)[i / 2] as int;
        let nibble = if i % 2 == 0 { byte / 16 } else { byte % 16 };
        assert(0 <= nibble < 16);
        assert(digest_password(digest)[i] == lower_hex_digit(nibble));
        lemma_lower_hex_digit_is_lower_hex(nibble);
    }
}

/// Each of the sixteen digits is one of `0`-`9`, `a`-`f`.
pub proof fn lemma_lower_hex_digit_is_lower_hex(nibble: int)
    requires
        0 <= nibble < 16,
    ensures
        is_lower_hex(lower_hex_digit(nibble)),
{
}

/// Derives passwords from the SHA-256 digest of `secret-service`.
pub struct Sha256PasswordGenerator;

impl PasswordGenerator for Sha256PasswordGenerator {
    open spec fn obeys_derived(&self) -> bool {
        true
    }

    open spec fn derived(&self, secret: Seq<char>, service: Seq<char>) -> Seq<char> {
        derived_password(secret, service)
    }

    fn generate(&self, secret: &str, service: &str) -> (password: String)
        ensures
            password@ == derived_password(secret@, service@),
            password@.len() == 16,
            forall|i: int| 0 <= i < 16 ==> is_lower_hex(#[trigger] password@[i]),
    {
        proof {
            lemma_derived_password_is_sixteen_lower_hex(secret@, service@);
        }
        let mut data = String::from_str(secret);
        data.append("-");
        data.append(service);
        proof {
            reveal_strlit("-");
            assert(data@ =~= secret@ + seq!['-'] + service@);
        }
        let digest = sha256_digest(data.as_str().as_bytes());
        password_from_digest(&digest)
    }
}

/// Two derivations from the same secret and service return the same
/// password: whatever two calls of `generate` may return on the same inputs,
/// the two results are equal.
pub proof fn lemma_generate_is_deterministic(
    generator: Sha256PasswordGenerator,
    secret: &str,
    service: &str,
    first: String,
    second: String,
)
    requires
        call_ensures(Sha256PasswordGenerator::generate, (&generator, secret, service), first),
        call_ensures(Sha256PasswordGenerator::generate, (&generator, secret, service), second),
    ensures
        first@ == second@,
{
}

} // verus!
