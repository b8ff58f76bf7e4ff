//! Argon2id password hashing, through the `argon2` crate.
use argon2::password_hash::rand_core::OsRng;
use argon2::password_hash::{PasswordHash, PasswordHasher, PasswordVerifier, Salt, SaltString};
use argon2::Argon2;
use crate::text::{starts_with_seq, str_equals};
use vstd::prelude::*;

verus! {

/// Whether `PasswordHash::new` accepts a string as a PHC-format password hash.
pub uninterp spec fn phc_valid(s: Seq<char>) -> bool;

/// Whether `Argon2::default().verify_password` accepts `password` against the
/// PHC-format hash `phc`.
pub uninterp spec fn argon2_accepts(password: Seq<char>, phc: Seq<char>) -> bool;

/// What `Argon2::default().hash_password` gives for a password and a base64 salt,
/// rendered as a PHC string (`None` where hashing fails).
pub uninterp spec fn argon2_phc(password: Seq<char>, salt: Seq<char>) -> Option<Seq<char>>;

/// A password short enough for Argon2: its UTF-8 form (at most four bytes a character)
/// stays within the `u32::MAX` bytes that Argon2 accepts.
pub open spec fn hashable(password: Seq<char>) -> bool {
    password.len() < 0x4000_0000
}

/// A PHC string of Argon2id, version 19 (`0x13`).
pub open spec fn is_argon2id_phc(s: Seq<char>) -> bool {
    starts_with_seq(s, "$argon2id$v=19$"@)
}

/// A character of the standard base64 alphabet.
pub open spec fn is_b64_char(c: char) -> bool {
    ('A' <= c && c <= 'Z') || ('a' <= c && c <= 'z') || ('0' <= c && c <= '9') || c == '+' || c
        == '/'
}

/// The unpadded base64 text of 16 bytes: 22 characters of the standard alphabet, the
/// last of which carries only the final two bits (so it is `A`, `Q`, `g` or `w`).
pub open spec fn is_b64_salt16(s: Seq<char>) -> bool {
    &&& s.len() == 22
    &&& forall|i: int| 0 <= i < 22 ==> is_b64_char(#[trigger] s[i])
    &&& (s[21] == 'A' || s[21] == 'Q' || s[21] == 'g' || s[21] == 'w')
}

/// A stored password accepts `input`: through Argon2 when the stored value is a
/// PHC hash, by plain equality otherwise (passwords stored before hashing existed).
pub open spec fn password_matches(stored: Seq<char>, input: Seq<char>) -> bool {
    if phc_valid(stored) {
        argon2_accepts(input, stored)
    } else {
        stored == input
    }
}

/// `PasswordHash::new(s).is_ok()`. Its source rejects the empty string and any
/// string whose first character is not `$` (the first `$`-separated field must be
/// empty); what else it accepts is left to the name `phc_valid`.
#[verifier::external_body]
pub(crate) fn parses_as_phc(s: &str) -> (r: bool)
    ensures
        r == phc_valid(s@),
        (s@.len() == 0 || s@[0] != '$') ==> !r,
{
    PasswordHash::new(s).is_ok()
}

/// `Argon2::default().verify_password(password, &PasswordHash::new(phc)?)`: recomputes
/// the hash with the algorithm, version, parameters and salt that `phc` records and
/// compares the outputs. The result is the name `argon2_accepts`.
#[verifier::external_body]
fn argon2_verify(password: &str, phc: &str) -> (r: bool)
    requires
        phc_valid(phc@),
    ensures
        r == argon2_accepts(password@, phc@),
{
    match PasswordHash::new(phc) {
        Ok(hash) => Argon2::default().verify_password(password.as_bytes(), &hash).is_ok(),
        Err(_) => false,
    }
}

/// `SaltString::generate(&mut OsRng)`, as its base64 text: 16 random bytes encoded as
/// unpadded base64 (`Salt::RECOMMENDED_LENGTH`, `SaltString::encode_b64`). Which bytes
/// is left to chance; the form of the text is stated.
#[verifier::external_body]
fn random_salt() -> (r: String)
    ensures
        is_b64_salt16(r@),
{
    SaltString::generate(&mut OsRng).as_str().to_string()
}

/// `Argon2::default().hash_password(password, Salt::from_b64(salt)?)` rendered with
/// `to_string`. The result is the name `argon2_phc`. The crate's source also shows:
/// a salt that is the base64 text of 16 bytes passes `Salt::from_b64` and decodes to
/// 16 bytes (within `MIN_SALT_LEN` = 8), and hashing then fails only for a password
/// longer than `MAX_PWD_LEN` = `u32::MAX` bytes; the default algorithm is Argon2id and
/// the default version 19, which `Display` writes first (`$argon2id$v=19$`); a hash it
/// produces parses back (`PasswordHash::new`) and `verify_password` accepts the same
/// password against it. The text of an error is the crate's `Display` of it and is
/// left unsaid.
#[verifier::external_body]
fn argon2_hash(password: &str, salt: &str) -> (r: Result<String, String>)
    ensures
        (r is Ok) == (argon2_phc(password@, salt@) is Some),
        r matches Ok(h) ==> argon2_phc(password@, salt@) == Some(h@),
        r matches Ok(h) ==> phc_valid(h@) && argon2_accepts(password@, h@) && is_argon2id_phc(h@),
        is_b64_salt16(salt@) && hashable(password@) ==> r is Ok,
{
    let salt = match Salt::from_b64(salt) {
        Ok(s) => s,
        Err(e) => return Err(e.to_string()),
    };
    match Argon2::default().hash_password(password.as_bytes(), salt) {
        Ok(h) => Ok(h.to_string()),
        Err(e) => Err(e.to_string()),
    }
}

/// Hashes a plain-text password with Argon2id and a fresh random salt. It succeeds for
/// every password of ordinary length; on failure the message starts with
/// `Hashing failed: `.
pub fn hash_password(password: &str) -> (r: Result<String, String>)
    ensures
        hashable(password@) ==> r is Ok,
        r matches Ok(h) ==> phc_valid(h@) && argon2_accepts(password@, h@) && is_argon2id_phc(h@),
        r matches Err(m) ==> exists|e: Seq<char>| m@ == "Hashing failed: "@ + e,
{
    let salt = random_salt();
    match argon2_hash(password, salt.as_str()) {
        Ok(h) => Ok(h),
        Err(e) => {
            let mut m = String::from_str("Hashing failed: ");
            m.append(e.as_str());
            Err(m)
        },
    }
}

/// Checks `input` against a stored password (a PHC hash or a legacy plain text). A
/// stored value that is empty or does not start with `$` is compared as plain text.
pub fn password_accepts(stored: &str, input: &str) -> (r: bool)
    ensures
        r == password_matches(stored@, input@),
        (stored@.len() == 0 || stored@[0] != '$') ==> r == (stored@ == input@),
{
    if parses_as_phc(stored) {
        argon2_verify(input, stored)
    } else {
        str_equals(stored, input)
    }
}

} // verus!
