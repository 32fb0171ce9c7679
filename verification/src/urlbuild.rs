//! Assembly of operation URLs: raw path segments, and form-encoded query
//! pairs appended in order, exactly as the wire URL carries them.

use vstd::prelude::*;
use vstd::string::*;
use crate::encode::bool_chars;
use crate::encode::bool_str;
use crate::encode::dec_i64;
use crate::encode::dec_of_i64;
use crate::encode::form_encoded;
use crate::encode::is_plain_char;
use crate::encode::is_plain_chars;
use crate::encode::lemma_bool_chars_plain;
use crate::encode::lemma_dec_of_i64_plain;
use crate::encode::lemma_plain_encoded_identity;
use crate::encode::push_char;
use crate::encode::append_form_encoded;

verus! {

/// One query pair as it stands in the URL: the separator (`?` for the first
/// pair, `&` afterwards), the form-encoded key, `=`, and the already encoded
/// value text.
pub open spec fn query_pair(first: bool, key: Seq<char>, value: Seq<char>) -> Seq<char> {
    (if first {
        seq!['?']
    } else {
        seq!['&']
    }) + form_encoded(key) + seq!['='] + value
}

/// Appends `/` and the segment, spliced into the path verbatim.
pub fn append_path_segment(url: &mut String, seg: &str)
    ensures
        final(url)@ == old(url)@ + seq!['/'] + seg@,
{
    push_char(url, '/');
    url.append(seg);
    proof {
        assert(url@ =~= old(url)@ + seq!['/'] + seg@);
    }
}

/// Appends one query pair, form encoding both key and value.
pub fn append_query_pair(url: &mut String, first: bool, key: &str, value: &str)
    ensures
        final(url)@ == old(url)@ + query_pair(first, key@, form_encoded(value@)),
{
    if first {
        push_char(url, '?');
    } else {
        push_char(url, '&');
    }
    append_form_encoded(url, key);
    push_char(url, '=');
    append_form_encoded(url, value);
    proof {
        assert(url@ =~= old(url)@ + query_pair(first, key@, form_encoded(value@)));
    }
}

/// Appends one query pair whose value is a boolean, rendered `true` or
/// `false`.
pub fn append_query_pair_bool(url: &mut String, first: bool, key: &str, value: bool)
    ensures
        final(url)@ == old(url)@ + query_pair(first, key@, bool_chars(value)),
{
    append_query_pair(url, first, key, bool_str(value));
    proof {
        lemma_bool_chars_plain(value);
        lemma_plain_encoded_identity(bool_chars(value));
    }
}

/// Appends one query pair whose value is an integer, rendered in decimal.
pub fn append_query_pair_i64(url: &mut String, first: bool, key: &str, value: i64)
    ensures
        final(url)@ == old(url)@ + query_pair(first, key@, dec_of_i64(value as int)),
{
    let rendered = dec_i64(value);
    append_query_pair(url, first, key, rendered.as_str());
    proof {
        lemma_dec_of_i64_plain(value as int);
        lemma_plain_encoded_identity(dec_of_i64(value as int));
    }
}

/// The one API version every operation pins in its query string.
pub open spec fn api_version_chars() -> Seq<char> {
    "7.1-preview"@
}

/// Appends the leading `?api-version=7.1-preview` pair.
pub fn append_api_version(url: &mut String)
    ensures
        final(url)@ == old(url)@ + query_pair(true, "api-version"@, api_version_chars()),
{
    append_query_pair(url, true, "api-version", "7.1-preview");
    proof {
        reveal_strlit("7.1-preview");
        let s = "7.1-preview"@;
        assert forall|i: int| 0 <= i < s.len() implies is_plain_char(#[trigger] s[i]) by {
            if i == 0 {
            } else if i == 1 {
            } else if i == 2 {
            } else if i == 3 {
            } else if i == 4 {
            } else if i == 5 {
            } else if i == 6 {
            } else if i == 7 {
            } else if i == 8 {
            } else if i == 9 {
            } else {
                assert(i == 10);
            }
        }
        assert(is_plain_chars(s));
        lemma_plain_encoded_identity(s);
    }
}

} // verus!
