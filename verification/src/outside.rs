//! The calls that the library makes into other crates: the clock, random
//! ids, SHA-256, the home directory, and Unicode character classes.
use crate::common::Timestamp;
use vstd::prelude::*;

verus! {

/// `chrono::Utc::now()`, as seconds since the epoch and the nanoseconds past
/// that second. The clock's reading is not described; chrono takes it from
/// the system clock's duration since the epoch, so the seconds are not
/// negative and the nanoseconds are below one second.
#[verifier::external_body]
pub(crate) fn now() -> (t: Timestamp)
    ensures
        t.secs >= 0,
        t.nanos < 1_000_000_000,
{
    let n = chrono::Utc::now();
    Timestamp { secs: n.timestamp(), nanos: n.timestamp_subsec_nanos() }
}

/// A lowercase hex digit.
pub open spec fn is_lower_hex(c: char) -> bool {
    ('0' <= c && c <= '9') || ('a' <= c && c <= 'f')
}

/// The hyphenated form of a UUID: 36 characters, `-` at positions 8, 13, 18
/// and 23 and a lowercase hex digit everywhere else.
pub open spec fn hyphenated_uuid(s: Seq<char>) -> bool {
    &&& s.len() == 36
    &&& forall|i: int|
        0 <= i < 36 ==> if i == 8 || i == 13 || i == 18 || i == 23 {
            #[trigger] s[i] == '-'
        } else {
            is_lower_hex(s[i])
        }
}

/// `uuid::Uuid::new_v4().to_string()`: a random id in the hyphenated form
/// that `Display` writes (lowercase hex). Which id comes out is not
/// described.
#[verifier::external_body]
pub(crate) fn new_uuid_string() -> (r: String)
    ensures
        hyphenated_uuid(r@),
{
    uuid::Uuid::new_v4().to_string()
}

/// The SHA-256 digest of the UTF-8 bytes of a text with characters `s`.
pub uninterp spec fn sha256_of(s: Seq<char>) -> Seq<u8>;

/// `sha2::Sha256` over the bytes of `s`. The digest is named `sha256_of`; it
/// has 32 bytes.
#[verifier::external_body]
pub(crate) fn sha256_digest(s: &str) -> (r: Vec<u8>)
    ensures
        r@ == sha256_of(s@),
        r@.len() == 32,
{
    let mut hasher = <sha2::Sha256 as sha2::Digest>::new();
    sha2::Digest::update(&mut hasher, s.as_bytes());
    sha2::Digest::finalize(hasher).to_vec()
}

/// `dirs::home_dir()`, as the bytes of the path (on Unix, the path's own
/// bytes, whatever their encoding). It depends on the environment, so
/// nothing is claimed of it.
#[verifier::external_body]
pub(crate) fn home_dir() -> (r: Option<Vec<u8>>) {
    dirs::home_dir().map(|p| p.into_os_string().into_encoded_bytes())
}

/// Whether `char::is_alphanumeric` holds of `c`.
pub uninterp spec fn unicode_alphanumeric(c: char) -> bool;

/// `char::is_alphanumeric`. Its result is named `unicode_alphanumeric`; for
/// ASCII characters it holds exactly of the letters and digits.
#[verifier::external_body]
pub(crate) fn is_alphanumeric(c: char) -> (r: bool)
    ensures
        r == unicode_alphanumeric(c),
        c < '\u{80}' ==> r == (('a' <= c && c <= 'z') || ('A' <= c && c <= 'Z') || ('0' <= c
            && c <= '9')),
{
    c.is_alphanumeric()
}

} // verus!
