//! The calls this library makes into outside crates, each behind a trusted
//! wrapper whose contract states what the crate's source shows.
use vstd::prelude::*;

verus! {

/// The string that `argon2::hash_encoded` produces for a password (taken as
/// its UTF-8 bytes) and a salt, with `argon2::Config::default()`.
pub uninterp spec fn argon2_encoded_hash(password: Seq<char>, salt: Seq<u8>) -> Seq<char>;

/// What `argon2::verify_encoded` returns for an encoded hash and a password
/// (taken as its UTF-8 bytes): `None` where it returns an error.
pub uninterp spec fn argon2_verification(encoded: Seq<char>, password: Seq<char>) -> Option<bool>;

/// The number of bytes in the UTF-8 encoding of a text.
pub open spec fn utf8_len(s: Seq<char>) -> nat {
    vstd::utf8::encode_utf8(s).len()
}

/// A lower-case hexadecimal digit.
pub open spec fn is_lower_hex(c: char) -> bool {
    ('0' <= c && c <= '9') || ('a' <= c && c <= 'f')
}

/// The hyphenated lower-case form of a UUID: 36 characters, hyphens at
/// positions 8, 13, 18 and 23, lower-case hex digits elsewhere.
pub open spec fn is_hyphenated_uuid(s: Seq<char>) -> bool {
    &&& s.len() == 36
    &&& forall|i: int|
        0 <= i < 36 ==> if i == 8 || i == 13 || i == 18 || i == 23 {
            s[i] == '-'
        } else {
            is_lower_hex(#[trigger] s[i])
        }
}

/// Calls `argon2::hash_encoded(password.as_bytes(), salt, &Config::default())`.
/// In the crate's source the checks that can fail for the default
/// configuration are the password length (at most `0xFFFF_FFFF` bytes) and
/// the salt length (8 to `0xFFFF_FFFF` bytes), both in `Context::new`. The
/// produced string records the variant, version, costs, salt and hash, which
/// `verify_encoded` decodes and recomputes, so it accepts the same password
/// (as the crate's documentation shows). The error value is dropped (`None`).
#[verifier::external_body]
pub(crate) fn hash_encoded(password: &str, salt: &[u8]) -> (hash: Option<String>)
    ensures
        hash is Some <==> (utf8_len(password@) <= 0xFFFF_FFFF && 8 <= salt@.len() && salt@.len() <= 0xFFFF_FFFF),
        hash matches Some(h) ==> h@ == argon2_encoded_hash(password@, salt@),
        hash matches Some(h) ==> argon2_verification(h@, password@) == Some(true),
{
    argon2::hash_encoded(password.as_bytes(), salt, &argon2::Config::default()).ok()
}

/// Calls `argon2::verify_encoded(encoded, password.as_bytes())`; the error
/// value is dropped (`None`). The result is named, not described: it depends
/// on decoding `encoded` and rerunning the hash. The call allocates the memory
/// cost written in `encoded`.
#[verifier::external_body]
pub(crate) fn verify_encoded(encoded: &str, password: &str) -> (verdict: Option<bool>)
    ensures
        verdict == argon2_verification(encoded@, password@),
{
    argon2::verify_encoded(encoded, password.as_bytes()).ok()
}

/// The text of a random (version 4, RFC variant) UUID: the hyphenated shape,
/// with the version digit `4` at position 14 and a variant digit `8`, `9`,
/// `a` or `b` at position 19.
pub open spec fn is_uuid_v4_text(s: Seq<char>) -> bool {
    &&& is_hyphenated_uuid(s)
    &&& s[14] == '4'
    &&& (s[19] == '8' || s[19] == '9' || s[19] == 'a' || s[19] == 'b')
}

/// Calls `uuid::Uuid::new_v4().to_string()`. The value is random; what holds
/// of every outcome is its hyphenated lower-case shape (`Display` goes through
/// `LowerHex` and `format_hyphenated` in the crate's source), and the version
/// and variant digits that `new_v4` sets by masking (`v4.rs`): the 13th hex
/// digit is `4` and the 17th is one of `8`, `9`, `a`, `b`, which land at
/// positions 14 and 19 of the hyphenated text. The crate panics if the
/// system's random source fails.
#[verifier::external_body]
pub(crate) fn new_v4_string() -> (id: String)
    ensures
        is_uuid_v4_text(id@),
{
    uuid::Uuid::new_v4().to_string()
}

/// Calls `chrono::Utc::now().timestamp_nanos_opt()`: the current time in
/// nanoseconds since the Unix epoch, `None` for a time after what an `i64`
/// of nanoseconds can hold. `Utc::now()` itself panics when the system clock
/// reads before 1970 (or beyond chrono's range). It depends on the clock, so
/// nothing is stated of it.
#[verifier::external_body]
pub(crate) fn utc_now_timestamp_nanos() -> (nanos: Option<i64>) {
    chrono::Utc::now().timestamp_nanos_opt()
}

} // verus!
