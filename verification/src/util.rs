use vstd::prelude::*;
use vstd::string::StringExecFns;

verus! {

/// Suffix appended to a password to form its deterministic salt.
pub open spec fn spec_salt_suffix() -> Seq<char> {
    "_salt_lol"@
}

/// The salt derived from a password: the password followed by the suffix.
pub open spec fn spec_salt(password: Seq<char>) -> Seq<char> {
    password + spec_salt_suffix()
}

/// The 32-byte Argon2 digest of a password and salt, with the library's
/// default parameter set.
pub uninterp spec fn argon2_digest(password: Seq<char>, salt: Seq<char>) -> Seq<u8>;

/// The digest this service stores for a password: Argon2 of the password
/// under its password-derived salt.
pub open spec fn spec_password_digest(password: Seq<char>) -> Seq<u8> {
    argon2_digest(password, spec_salt(password))
}

pub open spec fn hex_digit_char(d: nat) -> char {
    if d == 0 {
        '0'
    } else if d == 1 {
        '1'
    } else if d == 2 {
        '2'
    } else if d == 3 {
        '3'
    } else if d == 4 {
        '4'
    } else if d == 5 {
        '5'
    } else if d == 6 {
        '6'
    } else if d == 7 {
        '7'
    } else if d == 8 {
        '8'
    } else if d == 9 {
        '9'
    } else if d == 10 {
        'a'
    } else if d == 11 {
        'b'
    } else if d == 12 {
        'c'
    } else if d == 13 {
        'd'
    } else if d == 14 {
        'e'
    } else {
        'f'
    }
}

/// Lowercase hexadecimal rendering: two digits per byte, high nibble first.
pub open spec fn spec_hex_encode(b: Seq<u8>) -> Seq<char> {
    Seq::new(
        b.len() * 2,
        |i: int|
            if i % 2 == 0 {
                hex_digit_char((b[i / 2] / 16) as nat)
            } else {
                hex_digit_char((b[i / 2] % 16) as nat)
            },
    )
}

pub fn make_salt(password: &str) -> (r: String)
    ensures
        r@ == spec_salt(password@),
{
    let mut salt = password.to_owned();
    salt.append("_salt_lol");
    salt
}

/// Relies on argon2's `Argon2::hash_password_into` with the default parameter
/// set: the 32-byte output is then a function of the password and salt bytes
/// alone. The call only fails on a password over 2^32 - 1 bytes, a salt
/// outside 8..=2^32 - 1 bytes, or an output length outside 4..=2^32 - 1;
/// the preconditions rule those out (each char is 1 to 4 UTF-8 bytes).
#[verifier::external_body]
fn argon2_hash32(password: &str, salt: &str) -> (r: Vec<u8>)
    requires
        password@.len() <= 0x3fff_ffff,
        8 <= salt@.len() <= 0x3fff_ffff,
    ensures
        r@ == argon2_digest(password@, salt@),
        r@.len() == 32,
{
    let mut out = [0u8; 32];
    argon2::Argon2::default()
        .hash_password_into(password.as_bytes(), salt.as_bytes(), &mut out)
        .expect("unable to hash password");
    out.to_vec()
}

/// Relies on hex::encode: each byte becomes two lowercase hexadecimal
/// digits, high nibble first.
#[verifier::external_body]
fn hex_encode(bytes: &Vec<u8>) -> (r: String)
    ensures
        r@ == spec_hex_encode(bytes@),
{
    hex::encode(bytes.as_slice())
}

/// Hashes a password into its salted 32-byte digest.
pub fn hash_password(password: &str) -> (r: Vec<u8>)
    requires
        password@.len() <= 0x3fff_ff00,
    ensures
        r@ == spec_password_digest(password@),
        r@.len() == 32,
{
    let salt = make_salt(password);
    proof {
        reveal_strlit("_salt_lol");
        assert(salt@.len() == password@.len() + 9);
    }
    argon2_hash32(password, salt.as_str())
}

/// Hashes a password and renders the digest as a 64-character lowercase
/// hexadecimal string, the form the user store keeps.
pub fn hash_password_to_string(password: &str) -> (r: String)
    requires
        password@.len() <= 0x3fff_ff00,
    ensures
        r@ == spec_hex_encode(spec_password_digest(password@)),
        r@.len() == 64,
{
    let digest = hash_password(password);
    hex_encode(&digest)
}

/// Hashing is deterministic: the stored digest is a function of the
/// password alone, so hashing the same password twice gives the same digest.
pub proof fn lemma_hash_deterministic(p1: Seq<char>, p2: Seq<char>)
    requires
        p1 == p2,
    ensures
        spec_password_digest(p1) == spec_password_digest(p2),
        spec_hex_encode(spec_password_digest(p1)) == spec_hex_encode(spec_password_digest(p2)),
{
}

} // verus!
