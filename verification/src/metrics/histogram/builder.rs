//! A small builder for histograms with a name and a list of tags.

use vstd::prelude::*;
use crate::metrics::histogram::metric::{Histogram, HistogramView};
use crate::metrics::tag::{Tag, TagView};

verus! {

/// The mathematical value of a [`HistogramBuilder`]: the name and the tags
/// accumulated so far.
pub ghost struct BuilderView {
    pub name: Seq<char>,
    pub tags: Seq<TagView>,
}

pub struct HistogramBuilder {
    name: String,
    tags: Vec<Tag>,
}

impl View for HistogramBuilder {
    type V = BuilderView;

    closed spec fn view(&self) -> BuilderView {
        BuilderView { name: self.name@, tags: self.tags.deep_view() }
    }
}

impl HistogramBuilder {
    /// Starts a builder for a histogram called `name`, with no tags yet.
    pub fn named(name: &str) -> (b: HistogramBuilder)
        ensures
            b@.name == name@,
            b@.tags =~= Seq::<TagView>::empty(),
    {
        HistogramBuilder { name: String::from_str(name), tags: Vec::new() }
    }

    /// Appends one key/value tag.
    pub fn tag<'a>(&'a mut self, key: &'a str, value: &'a str) -> (ret: &'a mut HistogramBuilder)
        ensures
            ret@.name == old(self)@.name,
            ret@.tags == old(self)@.tags.push(TagView { key: key@, value: value@ }),
            *final(self) == *final(ret),
    {
        self.tags.push(Tag { key: String::from_str(key), value: String::from_str(value) });
        assert(self.tags.deep_view() =~= old(self).tags.deep_view().push(
            TagView { key: key@, value: value@ },
        ));
        self
    }

    /// Creates the histogram: fresh counters, generation one, and the
    /// accumulated name and tags.
    pub fn finish(&self) -> (h: Histogram)
        ensures
            h.wf(),
            h@ == HistogramView::fresh(self@.name, self@.tags),
    {
        let name = self.name.clone();
        let tags = self.tags.clone();
        assert(tags.deep_view() =~= self.tags.deep_view()) by {
            assert(forall|i: int|
                0 <= i < tags@.len() ==> tags.deep_view()[i] == self.tags.deep_view()[i]) by {
                assert(forall|i: int| 0 <= i < tags@.len() ==> cloned(self.tags[i], tags[i]));
            }
        }
        Histogram::new(name, tags)
    }
}

} // verus!
