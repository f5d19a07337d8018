//! A fixed-bucket-layout histogram over the unsigned 64-bit domain, with an
//! overflow/reset policy and a Prometheus/VictoriaMetrics text serialization.
//!
//! The bucket layout is a fixed table of 30 upper bounds, doubling
//! power-of-two-minus-one boundaries from 255 up to `u64::MAX`, defining 30
//! half-open buckets. A tracked value falls into the smallest bucket whose
//! upper bound is at least the value (inclusive upper bound); the last bucket
//! is a catch-all.

use vstd::prelude::*;
use crate::decimal::{spec_dec, u64_to_string};
use crate::metrics::tag::{Tag, TagView};

verus! {

pub const BUCKETS_COUNT: usize = 30;

/// Upper bound of bucket `i`: `2^(i+8) - 1` for the first 29 buckets,
/// `u64::MAX` for the last.
pub open spec fn spec_bucket_bound(i: int) -> u64 {
    if i >= BUCKETS_COUNT - 1 {
        u64::MAX
    } else {
        ((1u64 << ((i + 8) as u64)) - 1) as u64
    }
}

/// Returns the upper bound of bucket `no`.
pub fn bucket_bound(no: usize) -> (r: u64)
    requires
        no < BUCKETS_COUNT,
    ensures
        r == spec_bucket_bound(no as int),
{
    if no == BUCKETS_COUNT - 1 {
        u64::MAX
    } else {
        let k: u64 = (no as u64) + 8;
        assert(k <= 36 ==> (1u64 << k) >= 1) by (bit_vector);
        (1u64 << k) - 1
    }
}

/// The bucket a value falls into: the smallest index whose upper bound is at
/// least `value`, searching from index `i` on, with the last bucket as
/// catch-all.
pub open spec fn spec_bucket_no_from(value: u64, i: int) -> int
    decreases BUCKETS_COUNT - i,
{
    if i >= BUCKETS_COUNT - 1 {
        BUCKETS_COUNT - 1
    } else if value <= spec_bucket_bound(i) {
        i
    } else {
        spec_bucket_no_from(value, i + 1)
    }
}

/// The bucket a value falls into.
pub open spec fn spec_bucket_no(value: u64) -> int {
    spec_bucket_no_from(value, 0)
}

/// The bucket index is in range, the value is at most the bucket's bound, and
/// every earlier bucket's bound is below the value.
pub proof fn lemma_bucket_no(value: u64)
    ensures
        0 <= spec_bucket_no(value) < BUCKETS_COUNT,
        value <= spec_bucket_bound(spec_bucket_no(value)),
        forall|j: int| 0 <= j < spec_bucket_no(value) ==> value > spec_bucket_bound(j),
{
    lemma_bucket_no_from(value, 0);
    assert(value <= spec_bucket_bound(BUCKETS_COUNT - 1));
}

proof fn lemma_bucket_no_from(value: u64, i: int)
    requires
        0 <= i < BUCKETS_COUNT,
        forall|j: int| 0 <= j < i ==> value > spec_bucket_bound(j),
    ensures
        i <= spec_bucket_no_from(value, i) < BUCKETS_COUNT,
        value <= spec_bucket_bound(spec_bucket_no_from(value, i)) || spec_bucket_no_from(value, i)
            == BUCKETS_COUNT - 1,
        forall|j: int| 0 <= j < spec_bucket_no_from(value, i) ==> value > spec_bucket_bound(j),
    decreases BUCKETS_COUNT - i,
{
    if i >= BUCKETS_COUNT - 1 {
    } else if value <= spec_bucket_bound(i) {
    } else {
        lemma_bucket_no_from(value, i + 1);
    }
}

/// Classifies `value` into its bucket by a linear scan of the bucket upper
/// bounds; the smallest bound at least `value` wins.
pub fn get_bucket_no(value: u64) -> (no: usize)
    ensures
        no == spec_bucket_no(value),
        no < BUCKETS_COUNT,
{
    let mut no: usize = 0;
    while no < BUCKETS_COUNT - 1
        invariant
            0 <= no <= BUCKETS_COUNT - 1,
            spec_bucket_no(value) == spec_bucket_no_from(value, no as int),
        decreases BUCKETS_COUNT - no,
    {
        if value <= bucket_bound(no) {
            return no;
        }
        no = no + 1;
    }
    no
}

/// The `vmrange` label text of bucket `i`: the inclusive value range the
/// bucket covers, with `+Inf` as the upper end of the catch-all bucket.
pub open spec fn spec_vmrange(i: int) -> Seq<char> {
    if i == 0 {
        spec_dec(0) + "..."@ + spec_dec(spec_bucket_bound(0) as nat)
    } else if i == BUCKETS_COUNT - 1 {
        spec_dec((spec_bucket_bound(BUCKETS_COUNT - 2) + 1) as nat) + "...+Inf"@
    } else {
        spec_dec((spec_bucket_bound(i - 1) + 1) as nat) + "..."@ + spec_dec(
            spec_bucket_bound(i) as nat,
        )
    }
}

/// Renders the `vmrange` label of bucket `bucket_no`.
pub fn get_vmrange(bucket_no: usize) -> (r: String)
    requires
        bucket_no < BUCKETS_COUNT,
    ensures
        r@ == spec_vmrange(bucket_no as int),
{
    assert(forall|k: u64|
        k <= 36 ==> 1u64 <= #[trigger] (1u64 << k) && ((1u64 << k) - 1) < u64::MAX)
        by (bit_vector);
    if bucket_no == 0 {
        let mut s = u64_to_string(0);
        s.append("...");
        s.append(u64_to_string(bucket_bound(0)).as_str());
        s
    } else if bucket_no == BUCKETS_COUNT - 1 {
        let mut s = u64_to_string(bucket_bound(BUCKETS_COUNT - 2) + 1);
        s.append("...+Inf");
        s
    } else {
        let mut s = u64_to_string(bucket_bound(bucket_no - 1) + 1);
        s.append("...");
        s.append(u64_to_string(bucket_bound(bucket_no)).as_str());
        s
    }
}

/// The mathematical value of a [`Histogram`].
pub ghost struct HistogramView {
    pub name: Seq<char>,
    pub tags: Seq<TagView>,
    pub buckets: Seq<u64>,
    pub count: u64,
    pub sum: u64,
    pub generation: u64,
}

impl HistogramView {
    /// Well-formed: one accumulator per bucket of the fixed layout.
    pub open spec fn wf(self) -> bool {
        self.buckets.len() == BUCKETS_COUNT
    }

    /// A fresh histogram: all counters zero, generation one.
    pub open spec fn fresh(name: Seq<char>, tags: Seq<TagView>) -> HistogramView {
        HistogramView {
            name: name,
            tags: tags,
            buckets: Seq::new(BUCKETS_COUNT as nat, |i: int| 0u64),
            count: 0,
            sum: 0,
            generation: 1,
        }
    }

    /// All counters zeroed and the generation bumped (saturating at
    /// `u64::MAX`); name, tags and bucket layout are kept.
    pub open spec fn reset(self) -> HistogramView {
        HistogramView {
            buckets: Seq::new(BUCKETS_COUNT as nat, |i: int| 0u64),
            count: 0,
            sum: 0,
            generation: if self.generation < u64::MAX {
                (self.generation + 1) as u64
            } else {
                u64::MAX
            },
            ..self
        }
    }

    /// Whether tracking `value` would overflow a 64-bit counter.
    pub open spec fn track_overflows(self, value: u64) -> bool {
        self.sum + value > u64::MAX || self.buckets[spec_bucket_no(value)] + value > u64::MAX
            || self.count + 1 > u64::MAX
    }

    /// The state after tracking `value`: the value is attributed to exactly
    /// one bucket and added to `sum`, and `count` is incremented — unless the
    /// update would overflow a counter, in which case the histogram is reset
    /// instead and the update itself is dropped.
    pub open spec fn spec_track(self, value: u64) -> HistogramView {
        if self.track_overflows(value) {
            self.reset()
        } else {
            let b = spec_bucket_no(value);
            HistogramView {
                buckets: self.buckets.update(b, (self.buckets[b] + value) as u64),
                count: (self.count + 1) as u64,
                sum: (self.sum + value) as u64,
                ..self
            }
        }
    }
}

/// The serialized fragment for one tag: `,key="value"`.
pub open spec fn spec_tag_frag(t: TagView) -> Seq<char> {
    ","@ + t.key + "=\""@ + t.value + "\""@
}

/// The serialized fragments of a tag list, in insertion order.
pub open spec fn spec_tag_frags(tags: Seq<TagView>) -> Seq<char>
    decreases tags.len(),
{
    if tags.len() == 0 {
        Seq::<char>::empty()
    } else {
        spec_tag_frags(tags.drop_last()) + spec_tag_frag(tags.last())
    }
}

/// The tag block shared by every line of a histogram: the generation first,
/// then the identity tags in insertion order. The block is left unclosed so a
/// bucket line can append its range label last.
pub open spec fn spec_common_tags(h: HistogramView) -> Seq<char> {
    "{generation=\""@ + spec_dec(h.generation as nat) + "\""@ + spec_tag_frags(h.tags)
}

/// The serialized line for bucket `i`.
pub open spec fn spec_bucket_line(h: HistogramView, i: int) -> Seq<char> {
    h.name + "_bucket"@ + spec_common_tags(h) + ",vmrange=\""@ + spec_vmrange(i) + "\"} "@
        + spec_dec(h.buckets[i] as nat)
}

/// The serialized `_count` line.
pub open spec fn spec_count_line(h: HistogramView) -> Seq<char> {
    h.name + "_count"@ + spec_common_tags(h) + "} "@ + spec_dec(h.count as nat)
}

/// The serialized `_sum` line.
pub open spec fn spec_sum_line(h: HistogramView) -> Seq<char> {
    h.name + "_sum"@ + spec_common_tags(h) + "} "@ + spec_dec(h.sum as nat)
}

/// The bucket lines for the first `n` buckets: one line per non-zero bucket,
/// in bucket order.
pub open spec fn spec_bucket_lines(h: HistogramView, n: int) -> Seq<Seq<char>>
    decreases n,
{
    if n <= 0 {
        Seq::<Seq<char>>::empty()
    } else {
        spec_bucket_lines(h, n - 1) + if h.buckets[n - 1] != 0 {
            seq![spec_bucket_line(h, n - 1)]
        } else {
            Seq::<Seq<char>>::empty()
        }
    }
}

/// The full text serialization of a histogram: one line per non-zero bucket
/// in bucket order, then exactly one `_count` line and one `_sum` line, which
/// are emitted even when all buckets are zero.
pub open spec fn spec_serialize(h: HistogramView) -> Seq<Seq<char>> {
    spec_bucket_lines(h, BUCKETS_COUNT as int) + seq![spec_count_line(h), spec_sum_line(h)]
}

/// Overflow law: tracking a value that would overflow the running sum, the
/// value's bucket accumulator or the count zeroes `count`, `sum` and every
/// bucket and increments the generation by exactly one; the triggering value
/// is not reflected in the post-reset state. (A generation already at
/// `u64::MAX` saturates there instead of incrementing.)
pub proof fn lemma_track_overflow_resets(h: HistogramView, value: u64)
    requires
        h.wf(),
        h.generation < u64::MAX,
        h.track_overflows(value),
    ensures
        h.spec_track(value).count == 0,
        h.spec_track(value).sum == 0,
        forall|i: int| 0 <= i < BUCKETS_COUNT ==> h.spec_track(value).buckets[i] == 0,
        h.spec_track(value).generation == h.generation + 1,
{
}

/// Monotonicity law: within a generation the counters never decrease — a
/// track that leaves the generation unchanged leaves `count`, `sum` and every
/// bucket accumulator at least as large as before.
pub proof fn lemma_track_monotonic_within_generation(h: HistogramView, value: u64)
    requires
        h.wf(),
        h.generation < u64::MAX,
        h.spec_track(value).generation == h.generation,
    ensures
        h.spec_track(value).count >= h.count,
        h.spec_track(value).sum >= h.sum,
        forall|i: int| 0 <= i < BUCKETS_COUNT ==> h.spec_track(value).buckets[i] >= h.buckets[i],
{
    lemma_bucket_no(value);
    assert(!h.track_overflows(value));
}

/// A histogram with no non-zero bucket serializes to no bucket lines at all:
/// only the `_count` and `_sum` lines remain, which are always emitted.
pub proof fn lemma_zero_buckets_no_lines(h: HistogramView)
    requires
        forall|i: int| 0 <= i < BUCKETS_COUNT ==> h.buckets[i] == 0,
    ensures
        spec_serialize(h) =~= seq![spec_count_line(h), spec_sum_line(h)],
{
    lemma_zero_buckets_no_lines_upto(h, BUCKETS_COUNT as int);
}

proof fn lemma_zero_buckets_no_lines_upto(h: HistogramView, n: int)
    requires
        n <= BUCKETS_COUNT,
        forall|i: int| 0 <= i < n ==> h.buckets[i] == 0,
    ensures
        spec_bucket_lines(h, n) =~= Seq::<Seq<char>>::empty(),
    decreases n,
{
    if n > 0 {
        lemma_zero_buckets_no_lines_upto(h, n - 1);
    }
}

/// A histogram: a name, an ordered set of tags, a generation counter, a
/// running count and sum, and one accumulator per bucket.
pub struct Histogram {
    buckets: Vec<u64>,
    count: u64,
    sum: u64,
    tags: Vec<Tag>,
    generation: u64,
    name: String,
}

fn zero_buckets() -> (v: Vec<u64>)
    ensures
        v@ == Seq::new(BUCKETS_COUNT as nat, |i: int| 0u64),
{
    let mut v: Vec<u64> = Vec::new();
    let mut i: usize = 0;
    while i < BUCKETS_COUNT
        invariant
            i <= BUCKETS_COUNT,
            v@.len() == i,
            forall|j: int| 0 <= j < i ==> v@[j] == 0u64,
        decreases BUCKETS_COUNT - i,
    {
        v.push(0);
        i = i + 1;
    }
    assert(v@ =~= Seq::new(BUCKETS_COUNT as nat, |i: int| 0u64));
    v
}

impl View for Histogram {
    type V = HistogramView;

    closed spec fn view(&self) -> HistogramView {
        HistogramView {
            name: self.name@,
            tags: self.tags.deep_view(),
            buckets: self.buckets@,
            count: self.count,
            sum: self.sum,
            generation: self.generation,
        }
    }
}

impl Histogram {
    /// Well-formed: one accumulator per bucket of the fixed layout.
    pub open spec fn wf(&self) -> bool {
        self@.wf()
    }

    /// Creates a histogram with all counters zero and generation one.
    pub fn new(name: String, tags: Vec<Tag>) -> (h: Histogram)
        ensures
            h.wf(),
            h@ == HistogramView::fresh(name@, tags.deep_view()),
    {
        let h = Histogram {
            buckets: zero_buckets(),
            count: 0,
            sum: 0,
            tags,
            name,
            generation: 1,
        };
        assert(h@ =~= HistogramView::fresh(h@.name, h@.tags));
        h
    }

    /// Zeroes `sum`, `count` and all buckets, and bumps the generation; the
    /// bucket layout, name and tags are untouched.
    pub fn reset(&mut self)
        requires
            old(self).wf(),
        ensures
            final(self).wf(),
            final(self)@ == old(self)@.reset(),
    {
        self.sum = 0;
        self.count = 0;
        self.buckets = zero_buckets();
        self.generation = if self.generation < u64::MAX {
            self.generation + 1
        } else {
            u64::MAX
        };
        assert(self@ =~= old(self)@.reset());
    }

    /// Tracks `value`: classifies it into its bucket and adds it to the bucket
    /// accumulator and the running sum, incrementing `count`. If any of the
    /// three counters would overflow, the histogram resets instead (the update
    /// itself is dropped, not retried), so counters exposed to a monitoring
    /// system stay monotonic within a generation.
    pub fn track(&mut self, value: u64)
        requires
            old(self).wf(),
        ensures
            final(self).wf(),
            final(self)@ == old(self)@.spec_track(value),
    {
        let bucket_no = get_bucket_no(value);
        let result_bucket = self.buckets[bucket_no].checked_add(value);
        let result_sum = self.sum.checked_add(value);
        let result_count = self.count.checked_add(1);

        let mut should_reset = true;

        if let Some(new_sum) = result_sum {
            if let Some(new_bucket) = result_bucket {
                if let Some(new_count) = result_count {
                    should_reset = false;
                    self.buckets.set(bucket_no, new_bucket);
                    self.sum = new_sum;
                    self.count = new_count;
                }
            }
        }

        if should_reset {
            self.reset();
            assert(self@ =~= old(self)@.spec_track(value));
        } else {
            assert(self@ =~= old(self)@.spec_track(value));
        }
    }

    /// The current running count.
    pub fn count(&self) -> (r: u64)
        ensures
            r == self@.count,
    {
        self.count
    }

    /// The current running sum.
    pub fn sum(&self) -> (r: u64)
        ensures
            r == self@.sum,
    {
        self.sum
    }

    /// The current generation.
    pub fn generation(&self) -> (r: u64)
        ensures
            r == self@.generation,
    {
        self.generation
    }

    /// The accumulator of bucket `no`.
    pub fn bucket(&self, no: usize) -> (r: u64)
        requires
            self.wf(),
            no < BUCKETS_COUNT,
        ensures
            r == self@.buckets[no as int],
    {
        self.buckets[no]
    }

    /// Serializes the histogram to exposition text lines: one
    /// `name_bucket{...,vmrange="lo...hi"} n` line per non-zero bucket in
    /// bucket order, then one `name_count{...} c` line and one
    /// `name_sum{...} s` line. Every line carries the generation tag first,
    /// then the identity tags in insertion order.
    pub fn serialize_prometheus(&self) -> (res: Vec<String>)
        requires
            self.wf(),
        ensures
            res.deep_view() == spec_serialize(self@),
    {
        let mut result: Vec<String> = Vec::new();

        let mut common_tags = String::from_str("{generation=\"");
        common_tags.append(u64_to_string(self.generation).as_str());
        common_tags.append("\"");
        let ghost head = "{generation=\""@ + spec_dec(self@.generation as nat) + "\""@;
        assert(common_tags@ =~= head + spec_tag_frags(self@.tags.take(0)));

        let mut ti: usize = 0;
        while ti < self.tags.len()
            invariant
                ti <= self.tags.len(),
                self@.tags.len() == self.tags.len(),
                common_tags@ == head + spec_tag_frags(self@.tags.take(ti as int)),
            decreases self.tags.len() - ti,
        {
            let t = &self.tags[ti];
            common_tags.append(",");
            common_tags.append(t.key.as_str());
            common_tags.append("=\"");
            common_tags.append(t.value.as_str());
            common_tags.append("\"");
            proof {
                let tags = self@.tags;
                assert(tags.take(ti + 1).drop_last() =~= tags.take(ti as int));
                assert(tags.take(ti + 1).last() == tags[ti as int]);
                assert(common_tags@ =~= head + spec_tag_frags(tags.take(ti + 1)));
            }
            ti = ti + 1;
        }
        proof {
            assert(self@.tags.take(self.tags.len() as int) =~= self@.tags);
            assert(common_tags@ == spec_common_tags(self@));
        }

        let mut bucket_no: usize = 0;
        while bucket_no < BUCKETS_COUNT
            invariant
                bucket_no <= BUCKETS_COUNT,
                self.wf(),
                common_tags@ == spec_common_tags(self@),
                result.deep_view() == spec_bucket_lines(self@, bucket_no as int),
            decreases BUCKETS_COUNT - bucket_no,
        {
            let b = self.buckets[bucket_no];
            if b != 0 {
                let mut line = String::from_str(self.name.as_str());
                line.append("_bucket");
                line.append(common_tags.as_str());
                line.append(",vmrange=\"");
                line.append(get_vmrange(bucket_no).as_str());
                line.append("\"} ");
                line.append(u64_to_string(b).as_str());
                proof {
                    assert(line@ =~= spec_bucket_line(self@, bucket_no as int));
                }
                result.push(line);
            }
            proof {
                assert(result.deep_view() =~= spec_bucket_lines(self@, bucket_no + 1));
            }
            bucket_no = bucket_no + 1;
        }

        let mut count = String::from_str(self.name.as_str());
        count.append("_count");
        count.append(common_tags.as_str());
        count.append("} ");
        count.append(u64_to_string(self.count).as_str());
        proof {
            assert(count@ =~= spec_count_line(self@));
        }
        result.push(count);

        let mut sum = String::from_str(self.name.as_str());
        sum.append("_sum");
        sum.append(common_tags.as_str());
        sum.append("} ");
        sum.append(u64_to_string(self.sum).as_str());
        proof {
            assert(sum@ =~= spec_sum_line(self@));
        }
        result.push(sum);

        proof {
            assert(result.deep_view() =~= spec_serialize(self@));
        }
        result
    }
}

} // verus!
