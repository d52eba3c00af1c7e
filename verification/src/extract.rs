use vstd::prelude::*;
use vstd::string::{StrSliceExecFns, StringExecFns};

use crate::errors::VerifyError;
use crate::scan::{find_str, lemma_find_from_some, spec_find};

verus! {

/// The key pattern `"field":"`, with one space after the colon when `space` is set.
pub open spec fn spec_key_pattern(field: Seq<char>, space: bool) -> Seq<char> {
    if space {
        "\""@ + field + "\": \""@
    } else {
        "\""@ + field + "\":\""@
    }
}

/// The value captured for one key pattern: the text after the first occurrence
/// of the pattern, up to the next double quote. An absent pattern, an
/// unterminated value and an empty value all count as no capture.
pub open spec fn spec_capture(text: Seq<char>, pat: Seq<char>) -> Option<Seq<char>> {
    match spec_find(text, pat) {
        None => None,
        Some(i) => {
            let rest = text.subrange(i + pat.len() as int, text.len() as int);
            match spec_find(rest, "\""@) {
                None => None,
                Some(j) => if j > 0 {
                    Some(rest.subrange(0, j))
                } else {
                    None
                },
            }
        },
    }
}

/// What field extraction yields: the first capture of `"field":"`, else the
/// first capture of `"field": "`.
pub open spec fn spec_field_value(text: Seq<char>, field: Seq<char>) -> Option<Seq<char>> {
    match spec_capture(text, spec_key_pattern(field, false)) {
        Some(v) => Some(v),
        None => spec_capture(text, spec_key_pattern(field, true)),
    }
}

/// A character allowed in a handle: ASCII letters, digits, underscore.
pub open spec fn spec_is_handle_char(c: char) -> bool {
    ('a' <= c && c <= 'z') || ('A' <= c && c <= 'Z') || ('0' <= c && c <= '9') || c == '_'
}

/// A well-formed handle: at most 15 characters, all from the handle alphabet.
pub open spec fn spec_valid_handle(s: Seq<char>) -> bool {
    s.len() <= 15 && (forall|i: int| 0 <= i < s.len() ==> spec_is_handle_char(s[i]))
}

/// The handle captured for one key pattern; a capture that is empty or not a
/// well-formed handle counts as no capture.
pub open spec fn spec_handle_capture(text: Seq<char>, pat: Seq<char>) -> Option<Seq<char>> {
    match spec_find(text, pat) {
        None => None,
        Some(i) => {
            let rest = text.subrange(i + pat.len() as int, text.len() as int);
            match spec_find(rest, "\""@) {
                None => None,
                Some(j) => {
                    let v = rest.subrange(0, j);
                    if v.len() > 0 && spec_valid_handle(v) {
                        Some(v)
                    } else {
                        None
                    }
                },
            }
        },
    }
}

/// What handle extraction yields: the capture of `"screen_name":"`, else the
/// capture of `"screen_name": "`.
pub open spec fn spec_handle_value(text: Seq<char>) -> Option<Seq<char>> {
    match spec_handle_capture(text, "\"screen_name\":\""@) {
        Some(v) => Some(v),
        None => spec_handle_capture(text, "\"screen_name\": \""@),
    }
}

/// What nested extraction yields: locate `"parent":`, then the first `{` after
/// it, then the first `}` after that brace (not depth-balanced), and extract
/// the field inside that slice.
pub open spec fn spec_nested_field_value(
    text: Seq<char>,
    parent: Seq<char>,
    field: Seq<char>,
) -> Option<Seq<char>> {
    match spec_find(text, "\""@ + parent + "\":"@) {
        None => None,
        Some(ps) => {
            let pd = text.subrange(ps, text.len() as int);
            match spec_find(pd, "{"@) {
                None => None,
                Some(b) => {
                    let nd = pd.subrange(b, pd.len() as int);
                    match spec_find(nd, "}"@) {
                        None => None,
                        Some(e) => spec_field_value(nd.subrange(0, e + 1), field),
                    }
                },
            }
        },
    }
}

/// Whether the nested scan locates a parent object slice: the parent
/// pattern, a `{` after it, and a `}` after that brace.
pub open spec fn spec_nested_slice_found(text: Seq<char>, parent: Seq<char>) -> bool {
    match spec_find(text, "\""@ + parent + "\":"@) {
        None => false,
        Some(ps) => {
            let pd = text.subrange(ps, text.len() as int);
            match spec_find(pd, "{"@) {
                None => false,
                Some(b) => spec_find(pd.subrange(b, pd.len() as int), "}"@) is Some,
            }
        },
    }
}

fn is_handle_char(c: char) -> (r: bool)
    ensures
        r == spec_is_handle_char(c),
{
    ('a' <= c && c <= 'z') || ('A' <= c && c <= 'Z') || ('0' <= c && c <= '9') || c == '_'
}

/// Whether `handle` is a well-formed handle: at most 15 characters, all of
/// them ASCII letters, digits or underscores.
pub fn is_valid_handle(handle: &str) -> (r: bool)
    ensures
        r == spec_valid_handle(handle@),
{
    let n = handle.unicode_len();
    if n > 15 {
        return false;
    }
    let mut i: usize = 0;
    while i < n
        invariant
            n == handle@.len(),
            n <= 15,
            i <= n,
            forall|k: int| 0 <= k < i ==> spec_is_handle_char(handle@[k]),
        decreases n - i,
    {
        if !is_handle_char(handle.get_char(i)) {
            return false;
        }
        i += 1;
    }
    true
}

/// The capture of one key pattern in `data`, as an owned string.
fn capture(data: &str, pat: &str) -> (r: Option<String>)
    ensures
        match r {
            Some(s) => spec_capture(data@, pat@) == Some(s@),
            None => spec_capture(data@, pat@) is None,
        },
{
    match find_str(data, pat) {
        None => None,
        Some(i) => {
            proof {
                lemma_find_from_some(data@, pat@, 0, i as int);
            }
            let n = data.unicode_len();
            let plen = pat.unicode_len();
            let rest = data.substring_char(i + plen, n);
            match find_str(rest, "\"") {
                None => None,
                Some(j) => {
                    if j > 0 {
                        proof {
                            lemma_find_from_some(rest@, "\""@, 0, j as int);
                        }
                        Some(String::from_str(rest.substring_char(0, j)))
                    } else {
                        None
                    }
                },
            }
        },
    }
}

/// The first value of `"field":"..."` (colon with or without one following
/// space) in `data`, as the transcript extraction rules define it. A failure
/// names the missing field.
pub fn extract_json_field(data: &str, field: &str) -> (r: Result<String, VerifyError>)
    ensures
        match r {
            Ok(s) => spec_field_value(data@, field@) == Some(s@),
            Err(e) => spec_field_value(data@, field@) is None && (e
                matches VerifyError::FieldNotFound(f) && f@ == field@),
        },
{
    let p1 = String::from_str("\"").concat(field).concat("\":\"");
    match capture(data, p1.as_str()) {
        Some(v) => Ok(v),
        None => {
            let p2 = String::from_str("\"").concat(field).concat("\": \"");
            match capture(data, p2.as_str()) {
                Some(v) => Ok(v),
                None => Err(VerifyError::FieldNotFound(String::from_str(field))),
            }
        },
    }
}

/// The handle capture of one key pattern in `data`, as an owned string.
fn handle_capture(data: &str, pat: &str) -> (r: Option<String>)
    ensures
        match r {
            Some(s) => spec_handle_capture(data@, pat@) == Some(s@),
            None => spec_handle_capture(data@, pat@) is None,
        },
{
    match find_str(data, pat) {
        None => None,
        Some(i) => {
            proof {
                lemma_find_from_some(data@, pat@, 0, i as int);
            }
            let n = data.unicode_len();
            let plen = pat.unicode_len();
            let rest = data.substring_char(i + plen, n);
            match find_str(rest, "\"") {
                None => None,
                Some(j) => {
                    proof {
                        lemma_find_from_some(rest@, "\""@, 0, j as int);
                    }
                    let v = rest.substring_char(0, j);
                    if j > 0 && is_valid_handle(v) {
                        Some(String::from_str(v))
                    } else {
                        None
                    }
                },
            }
        },
    }
}

/// The first well-formed handle named by `"screen_name"` in `data` (colon with
/// or without one following space); a captured value that is empty or not a
/// well-formed handle counts as not found.
pub fn extract_twitter_handle(data: &str) -> (r: Result<String, VerifyError>)
    ensures
        match r {
            Ok(s) => spec_handle_value(data@) == Some(s@) && s@.len() > 0 && spec_valid_handle(
                s@,
            ),
            Err(e) => spec_handle_value(data@) is None && e == VerifyError::HandleNotFound,
        },
{
    match handle_capture(data, "\"screen_name\":\"") {
        Some(v) => Ok(v),
        None => {
            match handle_capture(data, "\"screen_name\": \"") {
                Some(v) => Ok(v),
                None => Err(VerifyError::HandleNotFound),
            }
        },
    }
}

/// The first value of `field` inside the object that follows `"parent":`.
/// The object slice ends at the first closing brace, not at the balanced one.
/// A failure of the slice scan names the parent and the field; a failure of
/// the inner extraction names the field alone, as the inner extraction
/// reports it.
pub fn extract_nested_field(data: &str, parent: &str, field: &str) -> (r: Result<
    String,
    VerifyError,
>)
    ensures
        match r {
            Ok(s) => spec_nested_field_value(data@, parent@, field@) == Some(s@),
            Err(e) => spec_nested_field_value(data@, parent@, field@) is None && (if
                spec_nested_slice_found(data@, parent@) {
                e matches VerifyError::FieldNotFound(f) && f@ == field@
            } else {
                e matches VerifyError::NestedFieldNotFound(p, f) && p@ == parent@ && f@ == field@
            }),
        },
{
    let ppat = String::from_str("\"").concat(parent).concat("\":");
    match find_str(data, ppat.as_str()) {
        None => Err(
            VerifyError::NestedFieldNotFound(String::from_str(parent), String::from_str(field)),
        ),
        Some(ps) => {
            proof {
                lemma_find_from_some(data@, ppat@, 0, ps as int);
            }
            let n = data.unicode_len();
            let pd = data.substring_char(ps, n);
            match find_str(pd, "{") {
                None => Err(
                    VerifyError::NestedFieldNotFound(
                        String::from_str(parent),
                        String::from_str(field),
                    ),
                ),
                Some(b) => {
                    proof {
                        lemma_find_from_some(pd@, "{"@, 0, b as int);
                    }
                    let pdn = pd.unicode_len();
                    let nd = pd.substring_char(b, pdn);
                    match find_str(nd, "}") {
                        None => Err(
                            VerifyError::NestedFieldNotFound(
                                String::from_str(parent),
                                String::from_str(field),
                            ),
                        ),
                        Some(e) => {
                            let ndn = nd.unicode_len();
                            proof {
                                lemma_find_from_some(nd@, "}"@, 0, e as int);
                                reveal_strlit("}");
                            }
                            let obj = nd.substring_char(0, e + 1);
                            extract_json_field(obj, field)
                        },
                    }
                },
            }
        },
    }
}

} // verus!
