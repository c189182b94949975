//! Reading enum names the way the protocol's `FromStr` impls do: the text is
//! trimmed, lowercased, `-` becomes `_`, and the result is read as the body of
//! a JSON string, which must then be one of the variant names.
use crate::text::{
    all_ascii, ascii_lower_seq, chars_of, concat2, is_white, replace_char, replace_chars,
    string_of, trim_back, trim_chars, trim_front, trimmed,
};
use vstd::prelude::*;

verus! {

/// What `str::to_lowercase` returns for a string with characters `s`.
pub uninterp spec fn unicode_lowercase(s: Seq<char>) -> Seq<char>;

/// `str::to_lowercase`. Its result is named `unicode_lowercase`; on ASCII text
/// it is the ASCII lowercase mapping, as the documentation of
/// `char::to_lowercase` gives for ASCII letters. Nothing else is claimed of
/// non-ASCII text.
#[verifier::external_body]
pub(crate) fn to_lowercase(s: &str) -> (r: String)
    ensures
        r@ == unicode_lowercase(s@),
        all_ascii(s@) ==> r@ == ascii_lower_seq(s@),
{
    s.to_lowercase()
}

/// What `serde_json::from_str::<String>` yields for the JSON text made of a
/// double quote, the characters `s` and a double quote (`None` when it fails).
pub uninterp spec fn json_string_body(s: Seq<char>) -> Option<Seq<char>>;

/// Characters that stand for themselves inside a JSON string.
pub open spec fn json_plain(s: Seq<char>) -> bool {
    forall|i: int|
        0 <= i < s.len() ==> #[trigger] s[i] != '"' && s[i] != '\\' && s[i] >= ' '
}

/// `serde_json::from_str::<String>` on `s` wrapped in double quotes. The
/// result is named `json_string_body`; when `s` holds no quote, backslash or
/// control character, the JSON string denotes exactly `s` (RFC 8259, section
/// 7, which serde_json follows). Escape sequences are not described.
#[verifier::external_body]
pub(crate) fn decode_json_string_body(s: &str) -> (r: Option<String>)
    ensures
        r.is_some() == json_string_body(s@).is_some(),
        r matches Some(x) ==> json_string_body(s@) == Some(x@),
        json_plain(s@) ==> r.is_some() && r.unwrap()@ == s@,
{
    serde_json::from_str::<String>(&format!("\"{}\"", s)).ok()
}

/// The variant name that a `FromStr` of the protocol's enums looks for.
pub open spec fn serde_key(s: Seq<char>) -> Option<Seq<char>> {
    json_string_body(replace_char(unicode_lowercase(trimmed(s)), '-', '_'))
}

/// Trims, lowercases, turns `-` into `_` and reads the result as the body of
/// a JSON string.
pub fn serde_key_of(s: &str) -> (r: Option<String>)
    ensures
        r.is_some() == serde_key(s@).is_some(),
        r matches Some(x) ==> serde_key(s@) == Some(x@),
        all_ascii(trimmed(s@)) && json_plain(replace_char(ascii_lower_seq(trimmed(s@)), '-', '_'))
            ==> r.is_some() && r.unwrap()@ == replace_char(
            ascii_lower_seq(trimmed(s@)),
            '-',
            '_',
        ),
{
    let v = chars_of(s);
    let t = trim_chars(&v);
    let ts = string_of(&t);
    let low = to_lowercase(ts.as_str());
    let lv = chars_of(low.as_str());
    let rep = replace_chars(&lv, '-', '_');
    let rs = string_of(&rep);
    decode_json_string_body(rs.as_str())
}

/// `"invalid value: '{s}' for {ty}"`.
pub fn invalid_value_message(s: &str, ty: &str) -> (r: String)
    ensures
        r@ == "invalid value: '"@ + s@ + "' for "@ + ty@,
{
    let a = concat2("invalid value: '", s);
    let b = concat2(a.as_str(), "' for ");
    concat2(b.as_str(), ty)
}

/// A name that parses back to itself: no surrounding whitespace, ASCII
/// lowercase letters and the separators `-` and `_` only.
pub open spec fn tame_name(n: Seq<char>) -> bool {
    &&& n.len() > 0
    &&& forall|i: int|
        0 <= i < n.len() ==> (('a' <= #[trigger] n[i] && n[i] <= 'z') || n[i] == '-' || n[i]
            == '_')
}

pub proof fn lemma_tame_name(n: Seq<char>)
    requires
        tame_name(n),
    ensures
        trimmed(n) == n,
        all_ascii(n),
        ascii_lower_seq(n) == n,
        json_plain(replace_char(n, '-', '_')),
{
    assert(!is_white(n[0]));
    assert(trim_front(n) == n);
    assert(!is_white(n.last()));
    assert(trim_back(n) == n);
    assert(ascii_lower_seq(n) =~= n);
}

} // verus!
