//! The export stage's configuration and payload building: the import
//! endpoint, the extra labels taken from the process environment, and the
//! newline-joined exposition payload of one export cycle.

use vstd::prelude::*;
use crate::constants::{is_valid_extra_label, spec_valid_label, EXTRA_LABEL_PREFIX};
use crate::metrics::tag::{clone_tags, Tag, TagView};
use crate::workers::registry::apm::Registry;

verus! {

/// Seconds between two export cycles; the period is fixed, with no jitter and
/// no adaptive backoff.
pub const REPORT_PERIOD_SECONDS: u64 = 10;

/// The ASCII-lowercase counterpart of `c`; other characters are unchanged.
pub open spec fn spec_lower_char(c: char) -> char {
    if 'A' <= c && c <= 'Z' {
        ((c as u8) + 32) as char
    } else {
        c
    }
}

/// `s` lower-cased character by character (only ASCII letters change).
pub open spec fn spec_lower(s: Seq<char>) -> Seq<char> {
    s.map_values(|c: char| spec_lower_char(c))
}

fn lower_char(c: char) -> (r: char)
    ensures
        r == spec_lower_char(c),
{
    match c {
        'A' => 'a',
        'B' => 'b',
        'C' => 'c',
        'D' => 'd',
        'E' => 'e',
        'F' => 'f',
        'G' => 'g',
        'H' => 'h',
        'I' => 'i',
        'J' => 'j',
        'K' => 'k',
        'L' => 'l',
        'M' => 'm',
        'N' => 'n',
        'O' => 'o',
        'P' => 'p',
        'Q' => 'q',
        'R' => 'r',
        'S' => 's',
        'T' => 't',
        'U' => 'u',
        'V' => 'v',
        'W' => 'w',
        'X' => 'x',
        'Y' => 'y',
        'Z' => 'z',
        _ => c,
    }
}

/// Relies on String::push: appends exactly the one given character.
#[verifier::external_body]
fn push_char(s: &mut String, c: char)
    ensures
        final(s)@ == old(s)@.push(c),
{
    s.push(c);
}

/// Lower-cases a string character by character; only ASCII letters change.
fn to_lowercase_ascii(s: &str) -> (r: String)
    ensures
        r@ == spec_lower(s@),
{
    let mut r = String::new();
    let n = s.unicode_len();
    let mut i: usize = 0;
    while i < n
        invariant
            i <= n,
            n == s@.len(),
            r@.len() == i,
            forall|k: int| 0 <= k < i ==> r@[k] == spec_lower_char(#[trigger] s@[k]),
        decreases n - i,
    {
        let c = lower_char(s.get_char(i));
        push_char(&mut r, c);
        i = i + 1;
    }
    proof {
        assert(r@ =~= spec_lower(s@));
    }
    r
}

fn strip_label_prefix<'a>(key: &'a str) -> (r: Option<&'a str>)
    ensures
        match r {
            Option::Some(rest) => {
                &&& key@.len() >= EXTRA_LABEL_PREFIX@.len()
                &&& key@.take(EXTRA_LABEL_PREFIX@.len() as int) == EXTRA_LABEL_PREFIX@
                &&& rest@ == key@.skip(EXTRA_LABEL_PREFIX@.len() as int)
            },
            Option::None => !(key@.len() >= EXTRA_LABEL_PREFIX@.len() && key@.take(
                EXTRA_LABEL_PREFIX@.len() as int,
            ) == EXTRA_LABEL_PREFIX@),
        },
{
    let plen = EXTRA_LABEL_PREFIX.unicode_len();
    let klen = key.unicode_len();
    if klen < plen {
        return None;
    }
    let mut i: usize = 0;
    while i < plen
        invariant
            i <= plen,
            plen == EXTRA_LABEL_PREFIX@.len(),
            klen == key@.len(),
            plen <= klen,
            forall|k: int| 0 <= k < i ==> key@[k] == EXTRA_LABEL_PREFIX@[k],
        decreases plen - i,
    {
        if key.get_char(i) != EXTRA_LABEL_PREFIX.get_char(i) {
            proof {
                assert(key@.take(plen as int)[i as int] != EXTRA_LABEL_PREFIX@[i as int]);
            }
            return None;
        }
        i = i + 1;
    }
    proof {
        assert(key@.take(plen as int) =~= EXTRA_LABEL_PREFIX@);
    }
    Some(key.substring_char(plen, klen))
}

/// The extra export label derived from one environment pair, if the pair
/// yields one: the name must carry the label prefix, and the stripped name
/// and the value must both be valid label text; the stripped name is
/// lower-cased.
pub open spec fn spec_extra_label(t: TagView) -> Option<TagView> {
    let plen = EXTRA_LABEL_PREFIX@.len();
    if t.key.len() >= plen && t.key.take(plen as int) == EXTRA_LABEL_PREFIX@ {
        let stripped = t.key.skip(plen as int);
        if spec_valid_label(stripped) && spec_valid_label(t.value) {
            Option::Some(TagView { key: spec_lower(stripped), value: t.value })
        } else {
            Option::None
        }
    } else {
        Option::None
    }
}

/// The extra export labels of an environment snapshot, in its order; pairs
/// that yield none are dropped.
pub open spec fn spec_extra_labels(ts: Seq<TagView>) -> Seq<TagView>
    decreases ts.len(),
{
    if ts.len() == 0 {
        Seq::<TagView>::empty()
    } else {
        spec_extra_labels(ts.drop_last()) + match spec_extra_label(ts.last()) {
            Option::Some(t) => seq![t],
            Option::None => Seq::<TagView>::empty(),
        }
    }
}

/// Derives the extra export labels from a snapshot of the process
/// environment, taken once at startup: every variable whose name carries the
/// label prefix becomes a label, with the prefix stripped and the remaining
/// name lower-cased; a pair whose stripped name or value is not valid label
/// text is dropped.
pub fn extra_labels(vars: &Vec<Tag>) -> (r: Vec<Tag>)
    ensures
        r.deep_view() == spec_extra_labels(vars.deep_view()),
{
    let mut r: Vec<Tag> = Vec::new();
    let mut i: usize = 0;
    while i < vars.len()
        invariant
            i <= vars.len(),
            vars.deep_view().len() == vars.len(),
            r.deep_view() == spec_extra_labels(vars.deep_view().take(i as int)),
        decreases vars.len() - i,
    {
        let ghost vs = vars.deep_view();
        proof {
            assert(vs[i as int] == vars[i as int]@);
            assert(vs.take(i + 1).drop_last() =~= vs.take(i as int));
            assert(vs.take(i + 1).last() == vs[i as int]);
        }
        let v = &vars[i];
        match strip_label_prefix(v.key.as_str()) {
            Some(stripped) => {
                if is_valid_extra_label(stripped) && is_valid_extra_label(v.value.as_str()) {
                    let lowered = to_lowercase_ascii(stripped);
                    r.push(Tag { key: lowered, value: v.value.clone() });
                    proof {
                        assert(r.deep_view() =~= spec_extra_labels(vs.take(i + 1)));
                    }
                } else {
                    proof {
                        assert(r.deep_view() =~= spec_extra_labels(vs.take(i + 1)));
                    }
                }
            },
            None => {
                proof {
                    assert(r.deep_view() =~= spec_extra_labels(vs.take(i + 1)));
                }
            },
        }
        i = i + 1;
    }
    proof {
        assert(vars.deep_view().take(vars.len() as int) =~= vars.deep_view());
    }
    r
}

/// The payload of one export cycle: the snapshot's lines joined by newlines.
pub open spec fn spec_join_lines(lines: Seq<Seq<char>>) -> Seq<char>
    decreases lines.len(),
{
    if lines.len() == 0 {
        Seq::<char>::empty()
    } else if lines.len() == 1 {
        lines[0]
    } else {
        spec_join_lines(lines.drop_last()) + "\n"@ + lines.last()
    }
}

/// The mathematical value of a [`Reporter`]: the import endpoint and the
/// extra labels resolved at startup.
pub ghost struct ReporterView {
    pub vm_import_url: Seq<char>,
    pub extra_labels: Seq<TagView>,
}

/// The export stage's configuration: where to push, and which extra labels
/// to attach to the push.
pub struct Reporter {
    vm_import_url: String,
    extra_labels: Vec<Tag>,
}

impl View for Reporter {
    type V = ReporterView;

    closed spec fn view(&self) -> ReporterView {
        ReporterView {
            vm_import_url: self.vm_import_url@,
            extra_labels: self.extra_labels.deep_view(),
        }
    }
}

impl Reporter {
    /// Creates the export stage's configuration.
    pub fn new(vm_import_url: String, extra_labels: Vec<Tag>) -> (r: Reporter)
        ensures
            r@.vm_import_url == vm_import_url@,
            r@.extra_labels == extra_labels.deep_view(),
    {
        Reporter { vm_import_url, extra_labels }
    }

    /// The import endpoint the payload is pushed to.
    pub fn import_url(&self) -> (r: &str)
        ensures
            r@ == self@.vm_import_url,
    {
        self.vm_import_url.as_str()
    }

    /// The extra labels attached to every push.
    pub fn labels(&self) -> (r: Vec<Tag>)
        ensures
            r.deep_view() == self@.extra_labels,
    {
        clone_tags(&self.extra_labels)
    }

    /// Builds the payload of one export cycle from a snapshot of the
    /// registry: the latency histogram's lines, then every collection's
    /// lines, joined by newlines.
    pub fn build_report(&self, registry: &Registry) -> (r: String)
        requires
            registry.wf(),
        ensures
            r@ == spec_join_lines(registry@.spec_serialize_lines()),
    {
        let lines = registry.serialize_prometheus();
        let ghost ls = lines.deep_view();
        let mut report = String::new();
        let mut i: usize = 0;
        while i < lines.len()
            invariant
                i <= lines.len(),
                ls == lines.deep_view(),
                ls.len() == lines.len(),
                report@ == spec_join_lines(ls.take(i as int)),
            decreases lines.len() - i,
        {
            if i > 0 {
                report.append("\n");
            }
            report.append(lines[i].as_str());
            proof {
                assert(ls.take(i + 1).drop_last() =~= ls.take(i as int));
                assert(ls.take(i + 1).last() == ls[i as int]);
                if i == 0 {
                    assert(report@ =~= spec_join_lines(ls.take(1)));
                } else {
                    assert(report@ =~= spec_join_lines(ls.take(i + 1)));
                }
            }
            i = i + 1;
        }
        proof {
            assert(ls.take(lines.len() as int) =~= ls);
        }
        report
    }
}

} // verus!
