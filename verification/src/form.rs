//! Decoding of the `on_or_off` form field of a change submission.
//!
//! Both submission forms post the same field. A checkbox control submits the
//! field only while it is checked (with the value `on` unless the markup sets
//! one), so an absent field must read as `false`; the text form submits the
//! flag spelled out as `true` or `false`.

use vstd::prelude::*;

verus! {

/// How a submitted field value reads as a boolean: `true` and `on` (the
/// default value a checked checkbox submits) mean on, `false` means off,
/// and anything else is malformed.
pub open spec fn spec_parse_bool(p: Seq<char>) -> Option<bool> {
    if p == "true"@ {
        Option::Some(true)
    } else if p == "on"@ {
        Option::Some(true)
    } else if p == "false"@ {
        Option::Some(false)
    } else {
        Option::None
    }
}

/// How the whole field reads: an absent field means the checkbox was
/// unchecked, so it decodes to `false`; a present field decodes by its value.
pub open spec fn spec_decode_on_or_off(field: Option<Seq<char>>) -> Option<bool> {
    match field {
        Option::Some(p) => spec_parse_bool(p),
        Option::None => Option::Some(false),
    }
}

/// The textual form of a flag value, as the text input shows it.
pub open spec fn spec_bool_label(b: bool) -> Seq<char> {
    if b {
        "true"@
    } else {
        "false"@
    }
}

/// Character-for-character equality of two strings.
pub fn str_eq(a: &str, b: &str) -> (r: bool)
    ensures
        r == (a@ == b@),
{
    let a_len = a.unicode_len();
    let b_len = b.unicode_len();
    if a_len != b_len {
        return false;
    }
    let mut i: usize = 0;
    while i < a_len
        invariant
            i <= a_len,
            a_len == a@.len(),
            b_len == b@.len(),
            a_len == b_len,
            forall|j: int| 0 <= j < i ==> a@[j] == b@[j],
        decreases a_len - i,
    {
        if a.get_char(i) != b.get_char(i) {
            return false;
        }
        i = i + 1;
    }
    proof {
        assert(a@ =~= b@);
    }
    true
}

/// Parse one submitted field value.
pub fn parse_bool_field(s: &str) -> (r: Option<bool>)
    ensures
        r == spec_parse_bool(s@),
{
    if str_eq(s, "true") {
        Some(true)
    } else if str_eq(s, "on") {
        Some(true)
    } else if str_eq(s, "false") {
        Some(false)
    } else {
        None
    }
}

/// Decode the `on_or_off` field of a submission. `None` as the result means
/// the field was present but malformed; the caller surfaces that as a
/// generic service error.
pub fn decode_on_or_off(field: Option<&str>) -> (r: Option<bool>)
    ensures
        r == spec_decode_on_or_off(
            match field {
                Option::Some(s) => Option::Some(s@),
                Option::None => Option::None,
            },
        ),
{
    match field {
        Some(s) => parse_bool_field(s),
        None => Some(false),
    }
}

/// The flag's textual form, used to pre-fill the text input.
pub fn bool_label(b: bool) -> (r: &'static str)
    ensures
        r@ == spec_bool_label(b),
{
    if b {
        "true"
    } else {
        "false"
    }
}

/// Spelling a flag out and decoding the spelling back yields the flag again:
/// the text form round-trips.
pub proof fn lemma_label_parses_back(b: bool)
    ensures
        spec_parse_bool(spec_bool_label(b)) == Option::Some(b),
{
    reveal_strlit("true");
    reveal_strlit("false");
    reveal_strlit("on");
    assert("true"@.len() == 4);
    assert("false"@.len() == 5);
    assert("on"@.len() == 2);
}

} // verus!
