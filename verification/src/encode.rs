//! The boundary to the encoding crates: form-urlencoding of query pairs,
//! JSON quoting of strings, and RFC 3339 rendering of timestamps. Each
//! outside call stands behind one trusted wrapper; everything built on top
//! of them is verified.

use vstd::prelude::*;

use crate::text::{join, join_spec, seq_views, url_plain};

verus! {

/// What `serde_urlencoded::to_string` returns for a sequence of key/value
/// pairs: a function of the pairs alone.
pub uninterp spec fn urlencoded_of(pairs: Seq<(Seq<char>, Seq<char>)>) -> Seq<char>;

/// What `serde_json::to_string` returns for a string: its JSON text, a
/// function of the characters alone.
pub uninterp spec fn json_string_of(s: Seq<char>) -> Seq<char>;

/// What chrono renders for a Unix timestamp: its RFC 3339 text in UTC with
/// seconds precision, a function of the timestamp alone.
pub uninterp spec fn rfc3339_of(secs: int) -> Seq<char>;

/// The views of a sequence of string pairs.
pub open spec fn pair_views(pairs: Seq<(String, String)>) -> Seq<(Seq<char>, Seq<char>)> {
    pairs.map_values(|p: (String, String)| (p.0@, p.1@))
}

/// Every key and value made of characters the form-urlencoded serializer
/// passes through unchanged.
pub open spec fn all_url_plain(pairs: Seq<(Seq<char>, Seq<char>)>) -> bool {
    forall|i: int| 0 <= i < pairs.len() ==> url_plain(#[trigger] pairs[i].0) && url_plain(
        pairs[i].1,
    )
}

/// Each pair as `key=value`.
pub open spec fn eq_joined(pairs: Seq<(Seq<char>, Seq<char>)>) -> Seq<Seq<char>> {
    pairs.map_values(|p: (Seq<char>, Seq<char>)| p.0 + seq!['='] + p.1)
}

/// Relies on `serde_urlencoded::to_string`: the
/// `application/x-www-form-urlencoded` text of the pairs. Its byte
/// serializer passes ASCII letters, digits and `*`, `-`, `.`, `_` through
/// unchanged and writes the pairs as `key=value` separated by `&`, so for
/// pairs of such characters the text is stated exactly. Serializing string
/// pairs cannot fail.
#[verifier::external_body]
pub fn form_urlencode(pairs: &Vec<(String, String)>) -> (r: String)
    ensures
        r@ == urlencoded_of(pair_views(pairs@)),
        all_url_plain(pair_views(pairs@)) ==> r@ == join_spec(
            eq_joined(pair_views(pairs@)),
            seq!['&'],
        ),
{
    serde_urlencoded::to_string(pairs).unwrap_or_default()
}

/// A character serde_json writes into a JSON string unchanged: anything but
/// `"`, `\` and the control characters below U+0020.
pub open spec fn plain_json_char(c: char) -> bool {
    c != '"' && c != '\\' && (c as u32) >= 32
}

/// Relies on `serde_json::to_string` on a string: its JSON text, quoted and
/// escaped. serde_json escapes only `"`, `\` and the control characters
/// below U+0020, so a string without those is stated exactly: the string
/// itself between two quotes. Serializing a string cannot fail.
#[verifier::external_body]
pub fn json_quote(s: &str) -> (r: String)
    ensures
        r@ == json_string_of(s@),
        (forall|i: int| 0 <= i < s@.len() ==> plain_json_char(s@[i])) ==> r@ == seq!['"'] + s@
            + seq!['"'],
{
    serde_json::to_string(s).unwrap_or_default()
}

/// Timestamps strictly before the year 10000 stay within chrono's range and
/// render as a fixed-width date.
pub const MAX_RENDERED_TIMESTAMP: i64 = 253402300800;

/// Relies on chrono's `DateTime::from_timestamp` and `to_rfc3339_opts`: the
/// RFC 3339 text in UTC (`Z` suffix, seconds precision) of a Unix timestamp.
/// Within the required range the timestamp is valid, so the conversion
/// cannot fail, and the text depends on the timestamp alone.
#[verifier::external_body]
pub fn rfc3339_utc(secs: i64) -> (r: String)
    requires
        0 <= secs < MAX_RENDERED_TIMESTAMP as int,
    ensures
        r@ == rfc3339_of(secs as int),
{
    match chrono::DateTime::from_timestamp(secs, 0) {
        Some(dt) => dt.to_rfc3339_opts(chrono::SecondsFormat::Secs, true),
        None => String::new(),
    }
}

/// The JSON text of an array of strings: each item quoted by
/// [`json_string_of`], the items separated by commas, the whole in square
/// brackets.
pub open spec fn json_string_array_of(items: Seq<Seq<char>>) -> Seq<char> {
    seq!['['] + join_spec(items.map_values(|s: Seq<char>| json_string_of(s)), seq![',']) + seq![']']
}

/// The JSON array text of the strings, as [`json_string_array_of`] says.
pub fn json_array_of_strings(items: &Vec<String>) -> (r: String)
    ensures
        r@ == json_string_array_of(seq_views(items@)),
{
    proof {
        reveal_strlit("[");
        reveal_strlit("]");
        reveal_strlit(",");
    }
    let mut quoted: Vec<String> = Vec::new();
    let mut i: usize = 0;
    while i < items.len()
        invariant
            i <= items.len(),
            quoted@.len() == i,
            forall|j: int| 0 <= j < i ==> quoted@[j]@ == json_string_of(items@[j]@),
        decreases items.len() - i,
    {
        quoted.push(json_quote(items[i].as_str()));
        i = i + 1;
    }
    let body = join(&quoted, ",");
    proof {
        assert(seq_views(quoted@) =~= seq_views(items@).map_values(
            |s: Seq<char>| json_string_of(s),
        ));
        assert(","@ =~= seq![',']);
    }
    let mut r = String::from_str("[");
    r.append(body.as_str());
    r.append("]");
    proof {
        assert("["@ =~= seq!['[']);
        assert("]"@ =~= seq![']']);
    }
    r
}

} // verus!
