//! Reading single JSON values, as the settings hub hands them over.

use vstd::prelude::*;

verus! {

/// The `u8` that `serde_json::from_str::<u8>` reads from `text`, or `None`
/// where it reports an error.
pub uninterp spec fn json_u8(text: Seq<char>) -> Option<u8>;

/// The `bool` that `serde_json::from_str::<bool>` reads from `text`, or
/// `None` where it reports an error.
pub uninterp spec fn json_bool(text: Seq<char>) -> Option<bool>;

/// The string that `serde_json::from_str::<String>` reads from `text`, or
/// `None` where it reports an error.
pub uninterp spec fn json_string(text: Seq<char>) -> Option<Seq<char>>;

/// A character of a plain name: a lower-case ASCII letter or `_`.
pub open spec fn is_name_char(c: char) -> bool {
    (97 <= c as u32 && c as u32 <= 122) || c == '_'
}

/// `s` in double quotes: the JSON string literal of a plain name.
pub open spec fn quoted(s: Seq<char>) -> Seq<char> {
    seq!['"'] + s + seq!['"']
}

/// `text` is a JSON string literal of plain-name characters only, with no
/// escapes and nothing around it.
pub open spec fn plain_json_string(text: Seq<char>) -> bool {
    &&& text.len() >= 2
    &&& text[0] == '"'
    &&& text[text.len() - 1] == '"'
    &&& forall|i: int| 1 <= i < text.len() - 1 ==> is_name_char(#[trigger] text[i])
}

/// The characters between the quotes of a string literal.
pub open spec fn unquoted(text: Seq<char>) -> Seq<char> {
    text.subrange(1, text.len() - 1)
}

/// A plain name in double quotes is a plain JSON string literal, and its
/// characters between the quotes are the name.
pub proof fn lemma_quoted_plain(s: Seq<char>)
    requires
        forall|i: int| 0 <= i < s.len() ==> is_name_char(#[trigger] s[i]),
    ensures
        plain_json_string(quoted(s)),
        unquoted(quoted(s)) == s,
{
    let q = quoted(s);
    assert forall|i: int| 1 <= i < q.len() - 1 implies is_name_char(#[trigger] q[i]) by {
        assert(q[i] == s[i - 1]);
    }
    assert(unquoted(q) =~= s);
}

/// Reads a JSON number into a `u8`.
///
/// Calls `serde_json::from_str::<u8>`; the contract names its result and
/// claims that an error comes exactly where the call reports one. The error
/// carries the text of `serde_json::Error`, of which nothing is stated.
#[verifier::external_body]
pub(crate) fn parse_json_u8(text: &str) -> (r: Result<u8, String>)
    ensures
        match r {
            Ok(v) => json_u8(text@) == Some(v),
            Err(_) => json_u8(text@) is None,
        },
{
    serde_json::from_str::<u8>(text).map_err(|e| e.to_string())
}

/// Reads a JSON boolean.
///
/// Calls `serde_json::from_str::<bool>`; the contract names its result and
/// claims that an error comes exactly where the call reports one, and that
/// the literals `true` and `false` read as those booleans. The error
/// carries the text of `serde_json::Error`, of which nothing is stated.
#[verifier::external_body]
pub(crate) fn parse_json_bool(text: &str) -> (r: Result<bool, String>)
    ensures
        match r {
            Ok(v) => json_bool(text@) == Some(v) && (text@ == "true"@ ==> v) && (text@ == "false"@ ==> !v),
            Err(_) => json_bool(text@) is None && text@ != "true"@ && text@ != "false"@,
        },
{
    serde_json::from_str::<bool>(text).map_err(|e| e.to_string())
}

/// Reads a JSON string.
///
/// Calls `serde_json::from_str::<String>`; the contract names its result and
/// claims that an error comes exactly where the call reports one, and that a
/// string literal of lower-case letters and underscores without escapes or
/// surrounding spaces reads as the characters between its quotes. The error
/// carries the text of `serde_json::Error`, of which nothing is stated.
#[verifier::external_body]
pub(crate) fn parse_json_string(text: &str) -> (r: Result<String, String>)
    ensures
        match r {
            Ok(v) => json_string(text@) == Some(v@) && (plain_json_string(text@) ==> v@ == unquoted(text@)),
            Err(_) => json_string(text@) is None && !plain_json_string(text@),
        },
{
    serde_json::from_str::<String>(text).map_err(|e| e.to_string())
}

} // verus!
