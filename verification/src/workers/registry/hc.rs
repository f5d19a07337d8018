//! A collection of histograms for one fingerprint: one sub-histogram per
//! sub-measurement name, plus the derived "total" and "untracked"
//! pseudo-measurements.

use vstd::prelude::*;
use crate::constants::{
    ACTION_KIND_TAG_NAME, ACTION_METRIC_NAME, ACTION_NAME_TAG_NAME, ACTION_SPAN_TAG_NAME,
    APPLICATION_HASH_TAG_NAME, APPLICATION_TAG_NAME, REALM_TAG_NAME, TOTAL_ACTION_KIND_NAME,
    UNTRACKED_ACTION_KIND_NAME,
};
use crate::metrics::histogram::metric::{spec_serialize, Histogram, HistogramView, BUCKETS_COUNT};
use crate::metrics::tag::{clone_tags, Tag, TagView};
use crate::records::{ActionView, ApmV1Action, Measurement, MeasurementView, Message, MessageView};
use crate::util::checksum::{spec_string_checksum, Checksum};

verus! {

/// The index of the first entry with key `key`, scanning from `k` on;
/// negative when no entry has that key.
pub open spec fn spec_key_index_from<T>(ms: Seq<(u64, T)>, key: u64, k: int) -> int
    decreases ms.len() - k,
{
    if k < 0 || k >= ms.len() {
        -1
    } else if ms[k].0 == key {
        k
    } else {
        spec_key_index_from(ms, key, k + 1)
    }
}

/// The index of the entry with key `key`; negative when there is none.
pub open spec fn spec_key_index<T>(ms: Seq<(u64, T)>, key: u64) -> int {
    spec_key_index_from(ms, key, 0)
}

/// The key index is either negative with no entry carrying the key, or the
/// first index whose entry carries it.
pub proof fn lemma_key_index<T>(ms: Seq<(u64, T)>, key: u64)
    ensures
        spec_key_index(ms, key) < 0 ==> forall|j: int| 0 <= j < ms.len() ==> ms[j].0 != key,
        spec_key_index(ms, key) >= 0 ==> {
            let i = spec_key_index(ms, key);
            &&& i < ms.len()
            &&& ms[i].0 == key
            &&& forall|j: int| 0 <= j < i ==> ms[j].0 != key
        },
{
    lemma_key_index_from(ms, key, 0);
}

proof fn lemma_key_index_from<T>(ms: Seq<(u64, T)>, key: u64, k: int)
    requires
        0 <= k <= ms.len(),
    ensures
        spec_key_index_from(ms, key, k) < 0 ==> forall|j: int|
            k <= j < ms.len() ==> ms[j].0 != key,
        spec_key_index_from(ms, key, k) >= 0 ==> {
            let i = spec_key_index_from(ms, key, k);
            &&& k <= i < ms.len()
            &&& ms[i].0 == key
            &&& forall|j: int| k <= j < i ==> ms[j].0 != key
        },
    decreases ms.len() - k,
{
    if k < ms.len() && ms[k].0 != key {
        lemma_key_index_from(ms, key, k + 1);
    }
}

/// The saturating sum of the sub-measurements' elapsed times.
pub open spec fn spec_sat_sum(ms: Seq<MeasurementView>) -> u64
    decreases ms.len(),
{
    if ms.len() == 0 {
        0u64
    } else {
        let s = spec_sat_sum(ms.drop_last());
        if s + ms.last().took_us > u64::MAX {
            u64::MAX
        } else {
            (s + ms.last().took_us) as u64
        }
    }
}

/// The mathematical value of a [`HistogramCollection`]: the shared identity
/// tags, the keyed member histograms in insertion order, and the last-touched
/// timestamp in microseconds.
pub ghost struct HcView {
    pub tags: Seq<TagView>,
    pub metrics: Seq<(u64, HistogramView)>,
    pub last_hit: u64,
}

impl HcView {
    /// A member histogram is well-formed, carries the shared metric name, and
    /// has exactly the collection's identity tags plus one final span tag.
    pub open spec fn member_wf(self, h: HistogramView) -> bool {
        &&& h.wf()
        &&& h.name == ACTION_METRIC_NAME@
        &&& h.tags.len() == self.tags.len() + 1
        &&& h.tags.take(self.tags.len() as int) == self.tags
        &&& h.tags.last().key == ACTION_SPAN_TAG_NAME@
    }

    /// Well-formed: member keys are unique and every member histogram is
    /// well-formed and shares the identity tags.
    pub open spec fn wf(self) -> bool {
        &&& forall|i: int, j: int|
            0 <= i < j < self.metrics.len() ==> (#[trigger] self.metrics[i]).0
                != (#[trigger] self.metrics[j]).0
        &&& forall|i: int|
            0 <= i < self.metrics.len() ==> self.member_wf((#[trigger] self.metrics[i]).1)
    }

    /// The state after attributing `took` to the sub-measurement called
    /// `name`: the existing member histogram keyed by the name's fingerprint
    /// tracks the value, or a fresh one is appended, tagged with the name as
    /// its span, and tracks it.
    pub open spec fn spec_track_measurement(self, name: Seq<char>, took: u64) -> HcView {
        let key = spec_string_checksum(name);
        let i = spec_key_index(self.metrics, key);
        if i >= 0 {
            HcView { metrics: self.metrics.update(i, (key, self.metrics[i].1.spec_track(took))), ..self }
        } else {
            let fresh = HistogramView::fresh(
                ACTION_METRIC_NAME@,
                self.tags.push(TagView { key: ACTION_SPAN_TAG_NAME@, value: name }),
            );
            HcView { metrics: self.metrics.push((key, fresh.spec_track(took))), ..self }
        }
    }

    /// The state after attributing every sub-measurement, in order.
    pub open spec fn spec_fold_measurements(self, ms: Seq<MeasurementView>) -> HcView
        decreases ms.len(),
    {
        if ms.len() == 0 {
            self
        } else {
            self.spec_fold_measurements(ms.drop_last()).spec_track_measurement(
                ms.last().name,
                ms.last().took_us,
            )
        }
    }

    /// The state after folding a record: every sub-measurement is attributed,
    /// then the record's total duration is reconciled. When the
    /// sub-measurements' sum fits under the total, the difference goes to
    /// "untracked" and the full duration to "total"; when the sum exceeds the
    /// total (an inconsistent client report), "untracked" gets zero and
    /// "total" the sum itself, so no negative value is ever propagated.
    pub open spec fn spec_process_measurements(
        self,
        ms: Seq<MeasurementView>,
        duration: u64,
    ) -> HcView {
        let folded = self.spec_fold_measurements(ms);
        let total = spec_sat_sum(ms);
        if total <= duration {
            folded.spec_track_measurement(
                UNTRACKED_ACTION_KIND_NAME@,
                (duration - total) as u64,
            ).spec_track_measurement(TOTAL_ACTION_KIND_NAME@, duration)
        } else {
            folded.spec_track_measurement(UNTRACKED_ACTION_KIND_NAME@, 0u64).spec_track_measurement(
                TOTAL_ACTION_KIND_NAME@,
                total,
            )
        }
    }

    /// The serialized lines of the collection: every member histogram's lines
    /// in member insertion order.
    pub open spec fn spec_serialize_lines(self) -> Seq<Seq<char>> {
        spec_metrics_lines(self.metrics)
    }

    /// The state after consuming one decoded record at time `now`.
    pub open spec fn spec_process(self, m: MessageView, now: u64) -> HcView {
        match m {
            MessageView::ApmV1Action(a) => HcView {
                last_hit: now,
                ..self.spec_process_measurements(a.measurements, a.total_us)
            },
        }
    }
}

/// The serialized lines of a keyed histogram list: each histogram's lines, in
/// list order.
pub open spec fn spec_metrics_lines(ms: Seq<(u64, HistogramView)>) -> Seq<Seq<char>>
    decreases ms.len(),
{
    if ms.len() == 0 {
        Seq::<Seq<char>>::empty()
    } else {
        spec_metrics_lines(ms.drop_last()) + spec_serialize(ms.last().1)
    }
}

/// The fixed identity tags of an action record, in their documented order,
/// followed by the record's free-form dimension tags.
pub open spec fn spec_identity_tags(a: ActionView) -> Seq<TagView> {
    seq![
        TagView { key: REALM_TAG_NAME@, value: a.realm },
        TagView { key: APPLICATION_TAG_NAME@, value: a.application },
        TagView { key: APPLICATION_HASH_TAG_NAME@, value: a.application_hash },
        TagView { key: ACTION_KIND_TAG_NAME@, value: a.action_kind },
        TagView { key: ACTION_NAME_TAG_NAME@, value: a.action_name },
    ] + a.additional_dimensions
}

/// One aggregation bucket: the histograms of a single fingerprint.
pub struct HistogramCollection {
    tags: Vec<Tag>,
    metrics: Vec<(u64, Histogram)>,
    last_hit: u64,
}

impl View for HistogramCollection {
    type V = HcView;

    closed spec fn view(&self) -> HcView {
        HcView {
            tags: self.tags.deep_view(),
            metrics: Seq::new(self.metrics@.len(), |i: int| (self.metrics@[i].0, self.metrics@[i].1@)),
            last_hit: self.last_hit,
        }
    }
}

impl HistogramCollection {
    /// Well-formed: see [`HcView::wf`].
    pub open spec fn wf(&self) -> bool {
        self@.wf()
    }

    /// Creates an empty collection with the given identity tags, stamped at
    /// time `now`.
    pub fn new(tags: Vec<Tag>, now: u64) -> (r: HistogramCollection)
        ensures
            r.wf(),
            r@.tags == tags.deep_view(),
            r@.metrics =~= Seq::<(u64, HistogramView)>::empty(),
            r@.last_hit == now,
    {
        HistogramCollection { tags, metrics: Vec::new(), last_hit: now }
    }

    /// Creates an empty collection carrying a record's identity tags: the
    /// fixed identity fields in their documented order, then the record's
    /// free-form dimensions.
    pub fn from_action(a: &ApmV1Action, now: u64) -> (r: HistogramCollection)
        ensures
            r.wf(),
            r@.tags == spec_identity_tags(a@),
            r@.metrics =~= Seq::<(u64, HistogramView)>::empty(),
            r@.last_hit == now,
    {
        let mut tags: Vec<Tag> = Vec::new();
        tags.push(Tag { key: String::from_str(REALM_TAG_NAME), value: a.realm.clone() });
        tags.push(
            Tag { key: String::from_str(APPLICATION_TAG_NAME), value: a.application.clone() },
        );
        tags.push(
            Tag {
                key: String::from_str(APPLICATION_HASH_TAG_NAME),
                value: a.application_hash.clone(),
            },
        );
        tags.push(Tag { key: String::from_str(ACTION_KIND_TAG_NAME), value: a.action_kind.clone() });
        tags.push(Tag { key: String::from_str(ACTION_NAME_TAG_NAME), value: a.action_name.clone() });
        proof {
            assert(forall|k: int|
                0 <= k < 5 ==> tags.deep_view()[k] == #[trigger] spec_identity_tags(a@)[k]);
        }
        let mut i: usize = 0;
        while i < a.additional_dimensions.len()
            invariant
                i <= a.additional_dimensions.len(),
                tags.deep_view().len() == 5 + i,
                forall|k: int|
                    0 <= k < 5 + i ==> tags.deep_view()[k] == #[trigger] spec_identity_tags(a@)[k],
            decreases a.additional_dimensions.len() - i,
        {
            let t = a.additional_dimensions[i].clone();
            tags.push(t);
            proof {
                assert(a.additional_dimensions.deep_view()[i as int]
                    == a.additional_dimensions[i as int]@);
                assert(tags.deep_view()[5 + i as int] == spec_identity_tags(a@)[5 + i as int]);
            }
            i = i + 1;
        }
        proof {
            assert(tags.deep_view() =~= spec_identity_tags(a@));
        }
        HistogramCollection::new(tags, now)
    }

    /// Creates an empty collection for the record a message carries.
    pub fn from_message(msg: &Message, now: u64) -> (r: HistogramCollection)
        ensures
            r.wf(),
            r@.tags == match msg@ {
                MessageView::ApmV1Action(a) => spec_identity_tags(a),
            },
            r@.metrics =~= Seq::<(u64, HistogramView)>::empty(),
            r@.last_hit == now,
    {
        match msg {
            Message::ApmV1Action(action) => HistogramCollection::from_action(action, now),
        }
    }

    fn find_index(&self, key: u64) -> (r: Option<usize>)
        ensures
            match r {
                Option::Some(ix) => ix as int == spec_key_index(self@.metrics, key),
                Option::None => spec_key_index(self@.metrics, key) < 0,
            },
    {
        let mut i: usize = 0;
        while i < self.metrics.len()
            invariant
                i <= self.metrics.len(),
                self@.metrics.len() == self.metrics.len(),
                spec_key_index(self@.metrics, key) == spec_key_index_from(
                    self@.metrics,
                    key,
                    i as int,
                ),
            decreases self.metrics.len() - i,
        {
            if self.metrics[i].0 == key {
                return Some(i);
            }
            i = i + 1;
        }
        None
    }

    /// Attributes `took` microseconds to the sub-measurement called `name`,
    /// creating its member histogram on first sight.
    pub fn process_measurement(&mut self, name: String, took: u64)
        requires
            old(self).wf(),
        ensures
            final(self).wf(),
            final(self)@ == old(self)@.spec_track_measurement(name@, took),
    {
        let checksum = name.checksum();
        proof {
            lemma_key_index(self@.metrics, checksum);
        }
        match self.find_index(checksum) {
            Some(ix) => {
                let ghost gix = spec_key_index(old(self)@.metrics, checksum);
                let mut pair = (checksum, Histogram::new(String::new(), Vec::new()));
                self.metrics.set_and_swap(ix, &mut pair);
                proof {
                    assert(ix as int == gix);
                    assert(pair == old(self).metrics@[gix]);
                }
                let (_, mut histogram) = pair;
                proof {
                    assert(histogram == old(self).metrics@[gix].1);
                    assert(old(self)@.metrics[gix] == (
                        old(self).metrics@[gix].0,
                        old(self).metrics@[gix].1@,
                    ));
                    assert(old(self)@.member_wf(old(self)@.metrics[gix].1));
                    assert(histogram@ == old(self)@.metrics[gix].1);
                    assert(histogram.wf());
                }
                histogram.track(took);
                self.metrics.set(ix, (checksum, histogram));
                proof {
                    assert(self@.metrics =~= old(self)@.metrics.update(
                        gix,
                        (checksum, old(self)@.metrics[gix].1.spec_track(took)),
                    ));
                    assert(self@ =~= old(self)@.spec_track_measurement(name@, took));
                    lemma_track_keeps_member_wf(old(self)@, old(self)@.metrics[gix].1, took);
                }
            },
            None => {
                let mut tags = clone_tags(&self.tags);
                tags.push(Tag { key: String::from_str(ACTION_SPAN_TAG_NAME), value: name });
                proof {
                    assert(tags.deep_view() =~= old(self)@.tags.push(
                        TagView { key: ACTION_SPAN_TAG_NAME@, value: name@ },
                    ));
                }
                let mut histogram = Histogram::new(String::from_str(ACTION_METRIC_NAME), tags);
                histogram.track(took);
                self.metrics.push((checksum, histogram));
                proof {
                    let fresh = HistogramView::fresh(
                        ACTION_METRIC_NAME@,
                        old(self)@.tags.push(
                            TagView { key: ACTION_SPAN_TAG_NAME@, value: name@ },
                        ),
                    );
                    assert(self@.metrics =~= old(self)@.metrics.push(
                        (checksum, fresh.spec_track(took)),
                    ));
                    assert(self@ =~= old(self)@.spec_track_measurement(name@, took));
                    assert(fresh.tags.take(old(self)@.tags.len() as int) =~= old(self)@.tags);
                    assert(old(self)@.member_wf(fresh));
                    lemma_track_keeps_member_wf(old(self)@, fresh, took);
                }
            },
        }
    }

    /// Folds a record's sub-measurements in order, then reconciles against the
    /// record's total duration: the unattributed remainder goes to the
    /// "untracked" pseudo-measurement and the full duration to "total" — or,
    /// when the sub-measurements exceed the total, zero and their sum
    /// respectively.
    pub fn process_measurements(&mut self, measurements: Vec<Measurement>, duration: u64)
        requires
            old(self).wf(),
        ensures
            final(self).wf(),
            final(self)@ == old(self)@.spec_process_measurements(
                measurements.deep_view(),
                duration,
            ),
    {
        let ghost ms = measurements.deep_view();
        let mut total: u64 = 0;
        let mut i: usize = 0;
        while i < measurements.len()
            invariant
                old(self).wf(),
                self.wf(),
                i <= measurements.len(),
                ms == measurements.deep_view(),
                ms.len() == measurements.len(),
                total == spec_sat_sum(ms.take(i as int)),
                self@ == old(self)@.spec_fold_measurements(ms.take(i as int)),
            decreases measurements.len() - i,
        {
            let m = &measurements[i];
            total = if total <= u64::MAX - m.took_us {
                total + m.took_us
            } else {
                u64::MAX
            };
            self.process_measurement(m.name.clone(), m.took_us);
            proof {
                assert(ms[i as int] == measurements[i as int]@);
                assert(ms.take(i + 1).drop_last() =~= ms.take(i as int));
                assert(ms.take(i + 1).last() == ms[i as int]);
            }
            i = i + 1;
        }
        proof {
            assert(ms.take(measurements.len() as int) =~= ms);
        }

        match duration.checked_sub(total) {
            None => {
                self.process_measurement(String::from_str(UNTRACKED_ACTION_KIND_NAME), 0);
                self.process_measurement(String::from_str(TOTAL_ACTION_KIND_NAME), total);
            },
            Some(took) => {
                self.process_measurement(String::from_str(UNTRACKED_ACTION_KIND_NAME), took);
                self.process_measurement(String::from_str(TOTAL_ACTION_KIND_NAME), duration);
            },
        }
    }

    /// Consumes one decoded record at time `now`: folds its sub-measurements
    /// and total duration in, and stamps `last_hit`.
    pub fn process(&mut self, msg: Message, now: u64)
        requires
            old(self).wf(),
        ensures
            final(self).wf(),
            final(self)@ == old(self)@.spec_process(msg@, now),
    {
        match msg {
            Message::ApmV1Action(action) => {
                self.process_measurements(action.measurements, action.total_us);
            },
        }
        self.last_hit = now;
        proof {
            assert(self@ =~= HcView { last_hit: now, ..old(self)@.spec_process(msg@, now) });
            assert(self@.metrics =~= old(self)@.spec_process(msg@, now).metrics);
        }
    }

    /// The member histogram of the sub-measurement called `name`, if the
    /// collection has seen it.
    pub fn get_histogram(&self, name: &String) -> (r: Option<&Histogram>)
        requires
            self.wf(),
        ensures
            match r {
                Option::Some(h) => {
                    let i = spec_key_index(self@.metrics, spec_string_checksum(name@));
                    &&& i >= 0
                    &&& h@ == self@.metrics[i].1
                    &&& h.wf()
                },
                Option::None => spec_key_index(self@.metrics, spec_string_checksum(name@)) < 0,
            },
    {
        let checksum = name.checksum();
        proof {
            lemma_key_index(self@.metrics, checksum);
        }
        match self.find_index(checksum) {
            Some(ix) => {
                let h = &self.metrics[ix].1;
                proof {
                    assert(h@ == self.metrics@[ix as int].1@);
                    assert(self@.metrics[ix as int] == (
                        self.metrics@[ix as int].0,
                        self.metrics@[ix as int].1@,
                    ));
                    assert(h@ == self@.metrics[ix as int].1);
                    assert(self@.member_wf(self@.metrics[ix as int].1));
                    assert(h.wf());
                }
                Some(h)
            },
            None => None,
        }
    }

    /// Serializes every member histogram, in member insertion order; each
    /// member contributes its own bucket, count and sum lines.
    pub fn serialize_prometheus(&self) -> (res: Vec<String>)
        requires
            self.wf(),
        ensures
            res.deep_view() == self@.spec_serialize_lines(),
    {
        let mut result: Vec<String> = Vec::new();
        let mut i: usize = 0;
        while i < self.metrics.len()
            invariant
                self.wf(),
                i <= self.metrics.len(),
                self@.metrics.len() == self.metrics.len(),
                result.deep_view() == spec_metrics_lines(self@.metrics.take(i as int)),
            decreases self.metrics.len() - i,
        {
            proof {
                assert(self@.metrics[i as int] == (
                    self.metrics@[i as int].0,
                    self.metrics@[i as int].1@,
                ));
                assert(self@.member_wf(self@.metrics[i as int].1));
            }
            let mut lines = self.metrics[i].1.serialize_prometheus();
            let ghost old_result = result.deep_view();
            let ghost new_lines = lines.deep_view();
            result.append(&mut lines);
            proof {
                assert(result.deep_view() =~= old_result + new_lines);
                assert(self@.metrics.take(i + 1).drop_last() =~= self@.metrics.take(i as int));
                assert(result.deep_view() =~= spec_metrics_lines(self@.metrics.take(i + 1)));
            }
            i = i + 1;
        }
        proof {
            assert(self@.metrics.take(self.metrics.len() as int) =~= self@.metrics);
        }
        result
    }

    /// When the collection was last folded into, in microseconds.
    pub fn last_hit(&self) -> (r: u64)
        ensures
            r == self@.last_hit,
    {
        self.last_hit
    }
}

/// Tracking into a well-formed member histogram keeps it a well-formed
/// member: neither the bucket layout nor the name or tags change.
proof fn lemma_track_keeps_member_wf(hc: HcView, h: HistogramView, took: u64)
    requires
        hc.member_wf(h),
    ensures
        hc.member_wf(h.spec_track(took)),
{
    let t = h.spec_track(took);
    assert(t.name == h.name && t.tags == h.tags);
    if h.track_overflows(took) {
        assert(t == h.reset());
        assert(t.buckets == Seq::new(BUCKETS_COUNT as nat, |i: int| 0u64));
        assert(t.buckets.len() == BUCKETS_COUNT);
    } else {
        crate::metrics::histogram::metric::lemma_bucket_no(took);
        assert(t.buckets.len() == h.buckets.len());
    }
}

} // verus!
