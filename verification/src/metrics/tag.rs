//! A key/value dimension tag attached to metrics and records.

use vstd::prelude::*;

verus! {

/// The mathematical value of a [`Tag`]: its key and value as character
/// sequences.
pub ghost struct TagView {
    pub key: Seq<char>,
    pub value: Seq<char>,
}

pub struct Tag {
    pub key: String,
    pub value: String,
}

impl View for Tag {
    type V = TagView;

    open spec fn view(&self) -> TagView {
        TagView { key: self.key@, value: self.value@ }
    }
}

impl DeepView for Tag {
    type V = TagView;

    open spec fn deep_view(&self) -> TagView {
        self.view()
    }
}

impl Clone for Tag {
    fn clone(&self) -> (r: Tag)
        ensures
            r@ == self@,
    {
        Tag { key: self.key.clone(), value: self.value.clone() }
    }
}

/// Clones a tag list; the copy has the same view.
pub fn clone_tags(tags: &Vec<Tag>) -> (r: Vec<Tag>)
    ensures
        r.deep_view() == tags.deep_view(),
{
    let r = tags.clone();
    assert(r.deep_view() =~= tags.deep_view()) by {
        assert(forall|i: int| 0 <= i < r@.len() ==> cloned(tags[i], r[i]));
    }
    r
}

} // verus!
