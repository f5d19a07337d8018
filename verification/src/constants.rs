//! Fixed tag names injected into every APM histogram, and the validation of
//! extra export labels taken from the process environment.

use vstd::prelude::*;

verus! {

pub const REALM_TAG_NAME: &'static str = "palantir_realm";

pub const APPLICATION_TAG_NAME: &'static str = "palantir_application";

pub const APPLICATION_HASH_TAG_NAME: &'static str = "palantir_application_hash";

pub const ACTION_KIND_TAG_NAME: &'static str = "palantir_action_kind";

pub const ACTION_NAME_TAG_NAME: &'static str = "palantir_action_name";

pub const ACTION_SPAN_TAG_NAME: &'static str = "palantir_span";

pub const ACTION_METRIC_NAME: &'static str = "palantir_apm";

pub const UNTRACKED_ACTION_KIND_NAME: &'static str = "palantir_untracked";

pub const TOTAL_ACTION_KIND_NAME: &'static str = "palantir_total";

/// Prefix that marks an environment variable as an extra export label.
pub const EXTRA_LABEL_PREFIX: &'static str = "PALANTIR_LABEL_";

/// Characters admitted in an extra label name or value: ASCII digits and
/// letters, `-` and `_`.
pub open spec fn is_label_char(c: char) -> bool {
    ('0' <= c && c <= '9') || ('a' <= c && c <= 'z') || ('A' <= c && c <= 'Z') || c == '-' || c
        == '_'
}

/// A valid extra label name or value: non-empty and made of label characters
/// only.
pub open spec fn spec_valid_label(s: Seq<char>) -> bool {
    s.len() > 0 && forall|i: int| 0 <= i < s.len() ==> is_label_char(#[trigger] s[i])
}

/// Decides whether `s` may serve as an extra export label name or value.
pub fn is_valid_extra_label(s: &str) -> (r: bool)
    ensures
        r == spec_valid_label(s@),
{
    let n = s.unicode_len();
    if n == 0 {
        return false;
    }
    for i in 0..n
        invariant
            n == s@.len(),
            forall|j: int| 0 <= j < i ==> is_label_char(#[trigger] s@[j]),
    {
        let c = s.get_char(i);
        let ok = ('0' <= c && c <= '9') || ('a' <= c && c <= 'z') || ('A' <= c && c <= 'Z') || c
            == '-' || c == '_';
        if !ok {
            return false;
        }
    }
    true
}

} // verus!
