//! The aggregation registry: the shared `fingerprint → HistogramCollection`
//! table and the aggregation stage's own latency histogram. The aggregation
//! stage folds records in; the export stage serializes a snapshot.

use vstd::prelude::*;
use crate::metrics::histogram::metric::{spec_serialize, Histogram, HistogramView};
use crate::records::{Message, MessageView};
use crate::util::checksum::{spec_message_checksum, Checksum};
use crate::workers::registry::hc::{
    lemma_key_index, spec_identity_tags, spec_key_index, spec_key_index_from, HcView,
    HistogramCollection,
};

verus! {

/// The name of the latency histogram tracking how long the aggregation stage
/// takes to fold one record in.
pub const HANDLE_TIME_METRIC_NAME: &'static str = "request_handle_time";

/// The mathematical value of a [`Registry`]: the keyed collections in
/// insertion order, and the latency histogram.
pub ghost struct RegistryView {
    pub collections: Seq<(u64, HcView)>,
    pub handle_time: HistogramView,
}

/// The serialized lines of the aggregation table: every collection's lines,
/// in table insertion order.
pub open spec fn spec_collections_lines(cs: Seq<(u64, HcView)>) -> Seq<Seq<char>>
    decreases cs.len(),
{
    if cs.len() == 0 {
        Seq::<Seq<char>>::empty()
    } else {
        spec_collections_lines(cs.drop_last()) + cs.last().1.spec_serialize_lines()
    }
}

impl RegistryView {
    /// Well-formed: fingerprints are unique, every collection is well-formed,
    /// and the latency histogram is well-formed.
    pub open spec fn wf(self) -> bool {
        &&& forall|i: int, j: int|
            0 <= i < j < self.collections.len() ==> (#[trigger] self.collections[i]).0
                != (#[trigger] self.collections[j]).0
        &&& forall|i: int|
            0 <= i < self.collections.len() ==> (#[trigger] self.collections[i]).1.wf()
        &&& self.handle_time.wf()
    }

    /// The fresh collection a record is folded into when its fingerprint is
    /// new: empty, carrying the record's identity tags, stamped at `now`.
    pub open spec fn spec_fresh_collection(m: MessageView, now: u64) -> HcView {
        match m {
            MessageView::ApmV1Action(a) => HcView {
                tags: spec_identity_tags(a),
                metrics: Seq::empty(),
                last_hit: now,
            },
        }
    }

    /// The state after the aggregation stage consumes one record: the record's
    /// fingerprint selects its collection — created first if the fingerprint
    /// is new — and the record is folded into it.
    pub open spec fn spec_ingest(self, m: MessageView, now: u64) -> RegistryView {
        let key = spec_message_checksum(m);
        let i = spec_key_index(self.collections, key);
        if i >= 0 {
            RegistryView {
                collections: self.collections.update(
                    i,
                    (key, self.collections[i].1.spec_process(m, now)),
                ),
                ..self
            }
        } else {
            RegistryView {
                collections: self.collections.push(
                    (key, RegistryView::spec_fresh_collection(m, now).spec_process(m, now)),
                ),
                ..self
            }
        }
    }

    /// The full serialization of a snapshot: the latency histogram's lines
    /// first, then every collection's lines in table insertion order.
    pub open spec fn spec_serialize_lines(self) -> Seq<Seq<char>> {
        spec_serialize(self.handle_time) + spec_collections_lines(self.collections)
    }
}

/// The shared aggregation state: the `fingerprint → HistogramCollection`
/// table and the aggregation stage's latency histogram.
pub struct Registry {
    collections: Vec<(u64, HistogramCollection)>,
    handle_time: Histogram,
}

impl View for Registry {
    type V = RegistryView;

    closed spec fn view(&self) -> RegistryView {
        RegistryView {
            collections: Seq::new(
                self.collections@.len(),
                |i: int| (self.collections@[i].0, self.collections@[i].1@),
            ),
            handle_time: self.handle_time@,
        }
    }
}

impl Registry {
    /// Well-formed: see [`RegistryView::wf`].
    pub open spec fn wf(&self) -> bool {
        self@.wf()
    }

    /// Creates an empty registry with a fresh, untagged latency histogram.
    pub fn new() -> (r: Registry)
        ensures
            r.wf(),
            r@.collections =~= Seq::<(u64, HcView)>::empty(),
            r@.handle_time == HistogramView::fresh(HANDLE_TIME_METRIC_NAME@, Seq::empty()),
    {
        let tags: Vec<crate::metrics::tag::Tag> = Vec::new();
        proof {
            assert(tags.deep_view() =~= Seq::<crate::metrics::tag::TagView>::empty());
        }
        let handle_time = Histogram::new(String::from_str(HANDLE_TIME_METRIC_NAME), tags);
        Registry { collections: Vec::new(), handle_time }
    }

    fn find_index(&self, key: u64) -> (r: Option<usize>)
        ensures
            match r {
                Option::Some(ix) => ix as int == spec_key_index(self@.collections, key),
                Option::None => spec_key_index(self@.collections, key) < 0,
            },
    {
        let mut i: usize = 0;
        while i < self.collections.len()
            invariant
                i <= self.collections.len(),
                self@.collections.len() == self.collections.len(),
                spec_key_index(self@.collections, key) == spec_key_index_from(
                    self@.collections,
                    key,
                    i as int,
                ),
            decreases self.collections.len() - i,
        {
            if self.collections[i].0 == key {
                return Some(i);
            }
            i = i + 1;
        }
        None
    }

    /// Folds one record into the registry at time `now`: computes its
    /// fingerprint, fetches or creates the fingerprint's collection, and
    /// folds the record in.
    pub fn ingest(&mut self, msg: Message, now: u64)
        requires
            old(self).wf(),
        ensures
            final(self).wf(),
            final(self)@ == old(self)@.spec_ingest(msg@, now),
    {
        let checksum = msg.checksum();
        proof {
            lemma_key_index(self@.collections, checksum);
        }
        match self.find_index(checksum) {
            Some(ix) => {
                let ghost gix = spec_key_index(old(self)@.collections, checksum);
                let mut pair = (checksum, HistogramCollection::new(Vec::new(), 0));
                self.collections.set_and_swap(ix, &mut pair);
                proof {
                    assert(pair == old(self).collections@[gix]);
                }
                let (_, mut hc) = pair;
                proof {
                    assert(old(self)@.collections[gix] == (
                        old(self).collections@[gix].0,
                        old(self).collections@[gix].1@,
                    ));
                    assert(old(self)@.collections[gix].1.wf());
                    assert(hc@ == old(self)@.collections[gix].1);
                }
                hc.process(msg, now);
                self.collections.set(ix, (checksum, hc));
                proof {
                    assert(self@.collections =~= old(self)@.collections.update(
                        gix,
                        (checksum, old(self)@.collections[gix].1.spec_process(msg@, now)),
                    ));
                    assert(self@ =~= old(self)@.spec_ingest(msg@, now));
                }
            },
            None => {
                let mut hc = HistogramCollection::from_message(&msg, now);
                proof {
                    assert(hc@ =~= RegistryView::spec_fresh_collection(msg@, now));
                }
                hc.process(msg, now);
                self.collections.push((checksum, hc));
                proof {
                    assert(self@.collections =~= old(self)@.collections.push(
                        (
                            checksum,
                            RegistryView::spec_fresh_collection(msg@, now).spec_process(msg@, now),
                        ),
                    ));
                    assert(self@ =~= old(self)@.spec_ingest(msg@, now));
                }
            },
        }
    }

    /// Tracks how long one aggregation iteration took, in microseconds, into
    /// the latency histogram.
    pub fn track_handle_time(&mut self, elapsed_us: u64)
        requires
            old(self).wf(),
        ensures
            final(self).wf(),
            final(self)@.handle_time == old(self)@.handle_time.spec_track(elapsed_us),
            final(self)@.collections == old(self)@.collections,
    {
        self.handle_time.track(elapsed_us);
        proof {
            assert(self@.collections =~= old(self)@.collections);
        }
    }

    /// Serializes a snapshot of the whole registry: the latency histogram's
    /// lines first, then every collection's lines in table insertion order.
    pub fn serialize_prometheus(&self) -> (res: Vec<String>)
        requires
            self.wf(),
        ensures
            res.deep_view() == self@.spec_serialize_lines(),
    {
        let mut result = self.handle_time.serialize_prometheus();
        let mut i: usize = 0;
        while i < self.collections.len()
            invariant
                self.wf(),
                i <= self.collections.len(),
                self@.collections.len() == self.collections.len(),
                result.deep_view() == spec_serialize(self@.handle_time) + spec_collections_lines(
                    self@.collections.take(i as int),
                ),
            decreases self.collections.len() - i,
        {
            proof {
                assert(self@.collections[i as int] == (
                    self.collections@[i as int].0,
                    self.collections@[i as int].1@,
                ));
                assert(self@.collections[i as int].1.wf());
            }
            let mut lines = self.collections[i].1.serialize_prometheus();
            let ghost old_result = result.deep_view();
            let ghost new_lines = lines.deep_view();
            result.append(&mut lines);
            proof {
                assert(result.deep_view() =~= old_result + new_lines);
                assert(self@.collections.take(i + 1).drop_last() =~= self@.collections.take(
                    i as int,
                ));
                assert(result.deep_view() =~= spec_serialize(self@.handle_time)
                    + spec_collections_lines(self@.collections.take(i + 1)));
            }
            i = i + 1;
        }
        proof {
            assert(self@.collections.take(self.collections.len() as int) =~= self@.collections);
        }
        result
    }

    /// How many fingerprints the table holds.
    pub fn len(&self) -> (r: usize)
        ensures
            r == self@.collections.len(),
    {
        self.collections.len()
    }

    /// The collection aggregating the given fingerprint, if any record with it
    /// has been folded in.
    pub fn get_collection(&self, key: u64) -> (r: Option<&HistogramCollection>)
        requires
            self.wf(),
        ensures
            match r {
                Option::Some(hc) => {
                    let i = spec_key_index(self@.collections, key);
                    &&& i >= 0
                    &&& hc@ == self@.collections[i].1
                    &&& hc.wf()
                },
                Option::None => spec_key_index(self@.collections, key) < 0,
            },
    {
        proof {
            lemma_key_index(self@.collections, key);
        }
        match self.find_index(key) {
            Some(ix) => {
                let hc = &self.collections[ix].1;
                proof {
                    assert(self@.collections[ix as int] == (
                        self.collections@[ix as int].0,
                        self.collections@[ix as int].1@,
                    ));
                    assert(self@.collections[ix as int].1.wf());
                }
                Some(hc)
            },
            None => None,
        }
    }
}

} // verus!
