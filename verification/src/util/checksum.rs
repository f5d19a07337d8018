//! Order-independent 64-bit fingerprints over records and their tags.
//!
//! Each tag is hashed on its own, the per-tag hashes are sorted and then
//! combined in sorted order, which makes the tag fingerprint independent of
//! tag order. A record's fingerprint hashes the identity fields in a fixed
//! order and folds in the tag fingerprint of its dimension tags.

use std::collections::hash_map::DefaultHasher;
use std::hash::Hasher;
use vstd::prelude::*;
use vstd::bytes::{spec_u64_to_le_bytes, u64_to_le_bytes};
use vstd::seq_lib::lemma_sorted_unique;
use vstd::std_specs::hash::DefaultHasherAdditionalSpecFns;
use vstd::utf8::encode_utf8;
use crate::metrics::tag::{Tag, TagView};
use crate::records::{ActionView, ApmV1Action, Message, MessageView};
use crate::util::sort::{lemma_u64_leq_total, sort_u64, u64_leq};

verus! {

/// The fingerprint of a character sequence: the hash of its UTF-8 bytes.
pub open spec fn spec_string_checksum(s: Seq<char>) -> u64 {
    DefaultHasher::spec_finish(seq![encode_utf8(s)])
}

/// The fingerprint of one tag: its key bytes and value bytes, hashed as two
/// consecutive writes into one fresh hasher.
pub open spec fn spec_tag_checksum(t: TagView) -> u64 {
    DefaultHasher::spec_finish(seq![encode_utf8(t.key), encode_utf8(t.value)])
}

/// The fingerprint of a tag list: the per-tag fingerprints, sorted ascending
/// and hashed in sorted order, which makes the result independent of the
/// order the tags came in.
pub open spec fn spec_tags_checksum(tags: Seq<TagView>) -> u64 {
    let sorted = tags.map_values(|t: TagView| spec_tag_checksum(t)).sort_by(u64_leq());
    DefaultHasher::spec_finish(sorted.map_values(|c: u64| spec_u64_to_le_bytes(c)))
}

/// The fingerprint of an action record: the identity fields hashed in a
/// fixed order, then the tag fingerprint of the additional dimensions.
pub open spec fn spec_action_checksum(a: ActionView) -> u64 {
    DefaultHasher::spec_finish(
        seq![
            encode_utf8(a.realm),
            encode_utf8(a.application),
            encode_utf8(a.application_hash),
            encode_utf8(a.action_kind),
            encode_utf8(a.action_name),
            spec_u64_to_le_bytes(spec_tags_checksum(a.additional_dimensions)),
        ],
    )
}

/// The fingerprint of a decoded message.
pub open spec fn spec_message_checksum(m: MessageView) -> u64 {
    match m {
        MessageView::ApmV1Action(a) => spec_action_checksum(a),
    }
}

/// A 64-bit fingerprint used as an aggregation key.
pub trait Checksum {
    /// The fingerprint as a function of the value's mathematical view.
    spec fn spec_checksum(&self) -> u64;

    /// Computes the fingerprint.
    fn checksum(&self) -> (r: u64)
        ensures
            r == self.spec_checksum(),
    ;
}

impl Checksum for String {
    open spec fn spec_checksum(&self) -> u64 {
        spec_string_checksum(self@)
    }

    fn checksum(&self) -> (r: u64) {
        let mut hasher = DefaultHasher::new();
        hasher.write(self.as_str().as_bytes());
        proof {
            assert(hasher@ =~= seq![encode_utf8(self@)]);
        }
        hasher.finish()
    }
}

impl Checksum for Tag {
    open spec fn spec_checksum(&self) -> u64 {
        spec_tag_checksum(self@)
    }

    fn checksum(&self) -> (r: u64) {
        let mut hasher = DefaultHasher::new();
        hasher.write(self.key.as_str().as_bytes());
        hasher.write(self.value.as_str().as_bytes());
        proof {
            assert(hasher@ =~= seq![encode_utf8(self@.key), encode_utf8(self@.value)]);
        }
        hasher.finish()
    }
}

impl Checksum for Vec<Tag> {
    open spec fn spec_checksum(&self) -> u64 {
        spec_tags_checksum(self.deep_view())
    }

    fn checksum(&self) -> (r: u64) {
        let ghost f = |t: TagView| spec_tag_checksum(t);
        let mut checksums: Vec<u64> = Vec::new();
        let mut i: usize = 0;
        while i < self.len()
            invariant
                i <= self.len(),
                self.deep_view().len() == self.len(),
                checksums@.len() == i,
                forall|k: int|
                    0 <= k < i ==> checksums@[k] == spec_tag_checksum(
                        #[trigger] self.deep_view()[k],
                    ),
            decreases self.len() - i,
        {
            let tag = &self[i];
            checksums.push(tag.checksum());
            proof {
                assert(self.deep_view()[i as int] == self[i as int]@);
            }
            i = i + 1;
        }
        proof {
            assert(checksums@ =~= self.deep_view().map_values(f));
        }

        let sorted = sort_u64(&checksums);

        let ghost g = |c: u64| spec_u64_to_le_bytes(c);
        let mut hasher = DefaultHasher::new();
        let mut j: usize = 0;
        while j < sorted.len()
            invariant
                j <= sorted.len(),
                hasher@.len() == j,
                forall|k: int|
                    0 <= k < j ==> hasher@[k] == spec_u64_to_le_bytes(#[trigger] sorted@[k]),
            decreases sorted.len() - j,
        {
            let bytes = u64_to_le_bytes(sorted[j]);
            hasher.write(bytes.as_slice());
            j = j + 1;
        }
        proof {
            assert(hasher@ =~= sorted@.map_values(g));
        }
        hasher.finish()
    }
}

impl Checksum for ApmV1Action {
    open spec fn spec_checksum(&self) -> u64 {
        spec_action_checksum(self@)
    }

    fn checksum(&self) -> (r: u64) {
        let mut hasher = DefaultHasher::new();
        hasher.write(self.realm.as_str().as_bytes());
        hasher.write(self.application.as_str().as_bytes());
        hasher.write(self.application_hash.as_str().as_bytes());
        hasher.write(self.action_kind.as_str().as_bytes());
        hasher.write(self.action_name.as_str().as_bytes());
        let dims_checksum = self.additional_dimensions.checksum();
        let bytes = u64_to_le_bytes(dims_checksum);
        hasher.write(bytes.as_slice());
        proof {
            assert(hasher@ =~= seq![
                encode_utf8(self@.realm),
                encode_utf8(self@.application),
                encode_utf8(self@.application_hash),
                encode_utf8(self@.action_kind),
                encode_utf8(self@.action_name),
                spec_u64_to_le_bytes(spec_tags_checksum(self@.additional_dimensions)),
            ]);
        }
        hasher.finish()
    }
}

impl Checksum for Message {
    open spec fn spec_checksum(&self) -> u64 {
        spec_message_checksum(self@)
    }

    fn checksum(&self) -> (r: u64) {
        match self {
            Message::ApmV1Action(action) => action.checksum(),
        }
    }
}

/// Mapping a sequence element-wise preserves multiset equality: two sequences
/// that are permutations of each other map to permutations of each other.
proof fn lemma_map_values_multiset<A, B>(s1: Seq<A>, s2: Seq<A>, f: spec_fn(A) -> B)
    requires
        s1.to_multiset() == s2.to_multiset(),
    ensures
        s1.map_values(f).to_multiset() == s2.map_values(f).to_multiset(),
    decreases s1.len(),
{
    broadcast use vstd::seq_lib::group_to_multiset_ensures;
    broadcast use vstd::multiset::group_multiset_axioms;

    if s1.len() == 0 {
        vstd::seq_lib::to_multiset_len(s1);
        vstd::seq_lib::to_multiset_len(s2);
        assert(s2.len() == 0);
        assert(s1.map_values(f) =~= s2.map_values(f));
    } else {
        let x = s1[0];
        assert(s1.contains(x));
        assert(s2.to_multiset().count(x) > 0);
        assert(s2.contains(x));
        let i = choose|i: int| 0 <= i < s2.len() && s2[i] == x;
        assert(s1.remove(0).to_multiset() =~= s2.remove(i).to_multiset()) by {
            assert(s1.remove(0).to_multiset() == s1.to_multiset().remove(x));
            assert(s2.remove(i).to_multiset() == s2.to_multiset().remove(x));
        }
        lemma_map_values_multiset(s1.remove(0), s2.remove(i), f);
        assert(s1.remove(0).map_values(f) =~= s1.map_values(f).remove(0));
        assert(s2.remove(i).map_values(f) =~= s2.map_values(f).remove(i));
        let m1 = s1.map_values(f).to_multiset();
        let m2 = s2.map_values(f).to_multiset();
        let y = f(x);
        assert(s1.map_values(f).remove(0).to_multiset() == m1.remove(s1.map_values(f)[0]));
        assert(s2.map_values(f).remove(i).to_multiset() == m2.remove(s2.map_values(f)[i]));
        assert(m1.remove(y) == m2.remove(y));
        assert(s1.map_values(f).contains(y));
        assert(s2.map_values(f).contains(y));
        assert(m1.count(y) > 0 && m2.count(y) > 0);
        assert forall|z: B| m1.count(z) == m2.count(z) by {
            if z == y {
                assert(m1.remove(y).count(y) == m1.count(y) - 1);
                assert(m2.remove(y).count(y) == m2.count(y) - 1);
            } else {
                assert(m1.remove(y).count(z) == m1.count(z));
                assert(m2.remove(y).count(z) == m2.count(z));
            }
        }
        assert(m1 =~= m2);
    }
}

/// For all sequences of tags that are permutations of each other, the tag
/// fingerprint is identical: tag order never affects the fingerprint.
pub proof fn lemma_tags_checksum_order_independent(t1: Seq<TagView>, t2: Seq<TagView>)
    requires
        t1.to_multiset() == t2.to_multiset(),
    ensures
        spec_tags_checksum(t1) == spec_tags_checksum(t2),
{
    let f = |t: TagView| spec_tag_checksum(t);
    lemma_map_values_multiset(t1, t2, f);
    let c1 = t1.map_values(f);
    let c2 = t2.map_values(f);
    c1.lemma_sort_by_ensures(u64_leq());
    c2.lemma_sort_by_ensures(u64_leq());
    lemma_u64_leq_total();
    lemma_sorted_unique(c1.sort_by(u64_leq()), c2.sort_by(u64_leq()), u64_leq());
    assert(c1.sort_by(u64_leq()) == c2.sort_by(u64_leq()));
}

/// A record's fingerprint is a pure function of its identity fields and its
/// tag set: two actions with equal identity fields whose dimension tags are
/// permutations of each other have the same fingerprint, whatever their
/// durations and sub-measurements.
pub proof fn lemma_action_checksum_identity(a1: ActionView, a2: ActionView)
    requires
        a1.realm == a2.realm,
        a1.application == a2.application,
        a1.application_hash == a2.application_hash,
        a1.action_kind == a2.action_kind,
        a1.action_name == a2.action_name,
        a1.additional_dimensions.to_multiset() == a2.additional_dimensions.to_multiset(),
    ensures
        spec_action_checksum(a1) == spec_action_checksum(a2),
{
    lemma_tags_checksum_order_independent(a1.additional_dimensions, a2.additional_dimensions);
}

} // verus!
