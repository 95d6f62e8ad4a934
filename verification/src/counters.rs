//! The counter set: one total counter plus one counter per category label,
//! with wait-free-style increment semantics (the total always advances; a
//! category counter advances exactly when its label matches).

use vstd::prelude::*;

use crate::text::str_eq;

verus! {

/// A counter value advances by one, wrapping at the 32-bit boundary.
pub open spec fn wrap_inc(c: u32) -> u32 {
    if c == 0xffff_ffffu32 {
        0u32
    } else {
        (c + 1) as u32
    }
}

/// The mathematical state of a counter set: the total and the ordered rows of
/// (label, count).
pub ghost struct CounterView {
    pub total: u32,
    pub rows: Seq<(Seq<char>, u32)>,
}

/// The labels of `rows` are pairwise distinct.
pub open spec fn labels_unique(rows: Seq<(Seq<char>, u32)>) -> bool {
    forall|i: int, j: int| 0 <= i < j < rows.len() ==> rows[i].0 != rows[j].0
}

/// `label` occurs among the labels of `rows`.
pub open spec fn rows_contain(rows: Seq<(Seq<char>, u32)>, label: Seq<char>) -> bool {
    exists|i: int| 0 <= i < rows.len() && rows[i].0 == label
}

/// The view of the stored (label, count) pairs.
pub open spec fn rows_view(rows: Seq<(String, u32)>) -> Seq<(Seq<char>, u32)> {
    rows.map_values(|r: (String, u32)| (r.0@, r.1))
}

/// The label sequence of a stored label list.
pub open spec fn seq_labels(labels: Seq<String>) -> Seq<Seq<char>> {
    labels.map_values(|s: String| s@)
}

/// The label sequences of `labels` are pairwise distinct.
pub open spec fn distinct_seqs(labels: Seq<Seq<char>>) -> bool {
    forall|i: int, j: int| 0 <= i < j < labels.len() ==> labels[i] != labels[j]
}

/// All-zero rows over the given labels.
pub open spec fn fresh_rows(labels: Seq<Seq<char>>) -> Seq<(Seq<char>, u32)> {
    Seq::new(labels.len(), |i: int| (labels[i], 0u32))
}

/// The state of a counter set that was just built over `labels`.
pub open spec fn fresh_view(labels: Seq<Seq<char>>) -> CounterView {
    CounterView { total: 0u32, rows: fresh_rows(labels) }
}

/// One event tagged `label` lands in the set: the total advances, and every
/// row whose label matches advances (with distinct labels, at most one does;
/// an unknown label moves the total alone).
pub open spec fn spec_increment(v: CounterView, label: Seq<char>) -> CounterView {
    CounterView {
        total: wrap_inc(v.total),
        rows: Seq::new(
            v.rows.len(),
            |i: int|
                if v.rows[i].0 == label {
                    (v.rows[i].0, wrap_inc(v.rows[i].1))
                } else {
                    v.rows[i]
                },
        ),
    }
}

/// A configuration fault detected while building a counter set.
#[derive(Clone, Copy, Debug, PartialEq, Eq, Structural)]
pub enum ConfigError {
    /// Two categories of one table carry the same label.
    DuplicateLabel,
}

/// A total counter together with one counter per category label. Labels are
/// fixed at construction; iteration order is insertion order.
pub struct CounterSet {
    total: u32,
    categories: Vec<(String, u32)>,
}

impl View for CounterSet {
    type V = CounterView;

    closed spec fn view(&self) -> CounterView {
        CounterView { total: self.total, rows: rows_view(self.categories@) }
    }
}

impl CounterSet {
    /// The labels of this set are pairwise distinct.
    pub open spec fn wf(&self) -> bool {
        labels_unique(self@.rows)
    }

    /// Builds a counter set over `labels`, all counters at zero; duplicate
    /// labels are a configuration fault and are rejected.
    pub fn new(labels: Vec<String>) -> (r: Result<CounterSet, ConfigError>)
        ensures
            r is Ok <==> distinct_seqs(seq_labels(labels@)),
            r matches Ok(s) ==> s@ == fresh_view(seq_labels(labels@)) && s.wf(),
            r matches Err(e) ==> e == ConfigError::DuplicateLabel,
    {
        let ghost lbls = seq_labels(labels@);
        let n = labels.len();
        let mut i: usize = 1;
        while i < n
            invariant
                n == labels@.len(),
                lbls == seq_labels(labels@),
                1 <= i,
                forall|p: int, q: int| 0 <= p < q < i && q < n ==> lbls[p] != lbls[q],
            decreases n - i,
        {
            let mut j: usize = 0;
            while j < i
                invariant
                    n == labels@.len(),
                    lbls == seq_labels(labels@),
                    j <= i < n,
                    forall|p: int| 0 <= p < j ==> lbls[p] != lbls[i as int],
                decreases i - j,
            {
                if str_eq(labels[j].as_str(), labels[i].as_str()) {
                    proof {
                        assert(lbls[j as int] == lbls[i as int]);
                        assert(!distinct_seqs(lbls));
                    }
                    return Err(ConfigError::DuplicateLabel);
                }
                j = j + 1;
            }
            i = i + 1;
        }
        proof {
            assert(distinct_seqs(lbls));
        }
        let mut categories: Vec<(String, u32)> = Vec::new();
        let mut k: usize = 0;
        while k < n
            invariant
                n == labels@.len(),
                k == categories@.len(),
                k <= n,
                forall|p: int|
                    0 <= p < k ==> categories@[p].0 == labels@[p] && categories@[p].1 == 0u32,
            decreases n - k,
        {
            let label = labels[k].clone();
            categories.push((label, 0u32));
            k = k + 1;
        }
        let s = CounterSet { total: 0, categories };
        proof {
            assert(s@.rows =~= fresh_rows(lbls));
        }
        Ok(s)
    }

    /// Counts one event tagged `category`: the total advances by one, and so
    /// does every counter whose label equals `category` (none, when the label
    /// is unknown to this set).
    pub fn increment(&mut self, category: &str)
        ensures
            final(self)@ == spec_increment(old(self)@, category@),
            old(self).wf() ==> final(self).wf(),
    {
        self.total = self.total.wrapping_add(1);
        let n = self.categories.len();
        let mut i: usize = 0;
        while i < n
            invariant
                n == self.categories@.len(),
                i <= n,
                self.total == wrap_inc(old(self)@.total),
                self.categories@.len() == old(self)@.rows.len(),
                forall|k: int|
                    i <= k < n ==> #[trigger] self.categories@[k] == old(self).categories@[k],
                forall|k: int|
                    0 <= k < i ==> #[trigger] rows_view(self.categories@)[k] == spec_increment(
                        old(self)@,
                        category@,
                    ).rows[k],
            decreases n - i,
        {
            let ghost pre = self.categories@;
            proof {
                assert(rows_view(old(self).categories@)[i as int] == (
                    old(self).categories@[i as int].0@,
                    old(self).categories@[i as int].1,
                ));
            }
            if str_eq(self.categories[i].0.as_str(), category) {
                let c = self.categories[i].1;
                let label = self.categories[i].0.clone();
                self.categories[i] = (label, c.wrapping_add(1));
                proof {
                    assert(self.categories@ == pre.update(
                        i as int,
                        (label, wrap_inc(old(self).categories@[i as int].1)),
                    ));
                }
            }
            proof {
                assert(rows_view(self.categories@)[i as int] == spec_increment(
                    old(self)@,
                    category@,
                ).rows[i as int]);
                assert forall|k: int| 0 <= k < i implies #[trigger] rows_view(
                    self.categories@,
                )[k] == spec_increment(old(self)@, category@).rows[k] by {
                    assert(self.categories@[k] == pre[k]);
                    assert(rows_view(pre)[k] == spec_increment(old(self)@, category@).rows[k]);
                }
            }
            i = i + 1;
        }
        proof {
            assert(self@.rows =~= spec_increment(old(self)@, category@).rows);
            assert forall|p: int, q: int|
                0 <= p < q < self@.rows.len() && old(self).wf() implies self@.rows[p].0
                != self@.rows[q].0 by {
                assert(self@.rows[p].0 == old(self)@.rows[p].0);
                assert(self@.rows[q].0 == old(self)@.rows[q].0);
            }
        }
    }

    /// Wait-free read of the total.
    pub fn read_total(&self) -> (t: u32)
        ensures
            t == self@.total,
    {
        self.total
    }

    /// Wait-free read of every (label, count) pair, in table order.
    pub fn read_categories(&self) -> (rows: &Vec<(String, u32)>)
        ensures
            rows_view(rows@) == self@.rows,
    {
        &self.categories
    }
}

/// The number of occurrences of `label` in `labels`.
pub open spec fn count_eq(labels: Seq<Seq<char>>, label: Seq<char>) -> int
    decreases labels.len(),
{
    if labels.len() == 0 {
        0
    } else {
        (if labels[0] == label {
            1int
        } else {
            0int
        }) + count_eq(labels.drop_first(), label)
    }
}

/// The state after a sequence of events, each one a label, lands in the set
/// in order.
pub open spec fn apply_labels(v: CounterView, labels: Seq<Seq<char>>) -> CounterView
    decreases labels.len(),
{
    if labels.len() == 0 {
        v
    } else {
        apply_labels(spec_increment(v, labels[0]), labels.drop_first())
    }
}

/// The sum of all category counts of `rows`.
pub open spec fn sum_counts(rows: Seq<(Seq<char>, u32)>) -> int
    decreases rows.len(),
{
    if rows.len() == 0 {
        0
    } else {
        rows[0].1 + sum_counts(rows.drop_first())
    }
}

/// An occurrence count is never negative.
proof fn lemma_count_eq_nonneg(labels: Seq<Seq<char>>, label: Seq<char>)
    ensures
        0 <= count_eq(labels, label) <= labels.len(),
    decreases labels.len(),
{
    if labels.len() > 0 {
        lemma_count_eq_nonneg(labels.drop_first(), label);
    }
}

/// Events never add or remove rows.
proof fn lemma_apply_labels_len(v: CounterView, labels: Seq<Seq<char>>)
    ensures
        apply_labels(v, labels).rows.len() == v.rows.len(),
    decreases labels.len(),
{
    if labels.len() > 0 {
        lemma_apply_labels_len(spec_increment(v, labels[0]), labels.drop_first());
    }
}

/// After a sequence of events the total has advanced once per event.
pub proof fn lemma_apply_labels_total(v: CounterView, labels: Seq<Seq<char>>)
    requires
        v.total + labels.len() <= u32::MAX,
    ensures
        apply_labels(v, labels).total == v.total + labels.len(),
    decreases labels.len(),
{
    if labels.len() > 0 {
        lemma_apply_labels_total(spec_increment(v, labels[0]), labels.drop_first());
    }
}

/// After a sequence of events a row keeps its label, and its counter has
/// advanced once per event that carried that label.
pub proof fn lemma_apply_labels_row(v: CounterView, labels: Seq<Seq<char>>, i: int)
    requires
        0 <= i < v.rows.len(),
        v.rows[i].1 + count_eq(labels, v.rows[i].0) <= u32::MAX,
    ensures
        apply_labels(v, labels).rows.len() == v.rows.len(),
        apply_labels(v, labels).rows[i].0 == v.rows[i].0,
        apply_labels(v, labels).rows[i].1 == v.rows[i].1 + count_eq(labels, v.rows[i].0),
    decreases labels.len(),
{
    if labels.len() > 0 {
        let v1 = spec_increment(v, labels[0]);
        lemma_count_eq_nonneg(labels.drop_first(), v.rows[i].0);
        lemma_apply_labels_row(v1, labels.drop_first(), i);
    }
}

/// No lost updates: after any sequence of events lands in one counter set,
/// the total has advanced once per event, and every category's counter equals
/// its old value plus the number of events that carried its label.
pub proof fn lemma_increment_counts(v: CounterView, labels: Seq<Seq<char>>)
    requires
        v.total + labels.len() <= u32::MAX,
        forall|i: int|
            0 <= i < v.rows.len() ==> (#[trigger] v.rows[i]).1 + count_eq(labels, v.rows[i].0)
                <= u32::MAX,
    ensures
        apply_labels(v, labels).total == v.total + labels.len(),
        apply_labels(v, labels).rows.len() == v.rows.len(),
        forall|i: int|
            0 <= i < v.rows.len() ==> #[trigger] apply_labels(v, labels).rows[i] == (
                v.rows[i].0,
                (v.rows[i].1 + count_eq(labels, v.rows[i].0)) as u32,
            ),
{
    lemma_apply_labels_total(v, labels);
    lemma_apply_labels_len(v, labels);
    assert forall|i: int| 0 <= i < v.rows.len() implies #[trigger] apply_labels(v, labels).rows[i]
        == (v.rows[i].0, (v.rows[i].1 + count_eq(labels, v.rows[i].0)) as u32) by {
        lemma_apply_labels_row(v, labels, i);
    }
}

/// Changing exactly one row's counter by one changes the sum by one.
proof fn lemma_sum_counts_update(a: Seq<(Seq<char>, u32)>, b: Seq<(Seq<char>, u32)>, j: int)
    requires
        a.len() == b.len(),
        0 <= j < a.len(),
        forall|k: int| 0 <= k < a.len() && k != j ==> a[k] == b[k],
        b[j].1 == a[j].1 + 1,
    ensures
        sum_counts(b) == sum_counts(a) + 1,
    decreases a.len(),
{
    if j == 0 {
        assert(b.drop_first() =~= a.drop_first());
    } else {
        assert(b[0] == a[0]);
        lemma_sum_counts_update(a.drop_first(), b.drop_first(), j - 1);
    }
}

/// An event with a known label moves the sum of the category counts by one,
/// when the labels are distinct and its counter is not saturated.
proof fn lemma_increment_sum(v: CounterView, label: Seq<char>)
    requires
        labels_unique(v.rows),
        rows_contain(v.rows, label),
        forall|i: int| 0 <= i < v.rows.len() ==> (#[trigger] v.rows[i]).1 < u32::MAX,
    ensures
        sum_counts(spec_increment(v, label).rows) == sum_counts(v.rows) + 1,
{
    let v1 = spec_increment(v, label);
    let j = choose|j: int| 0 <= j < v.rows.len() && v.rows[j].0 == label;
    assert forall|k: int| 0 <= k < v.rows.len() && k != j implies v.rows[k] == v1.rows[k] by {
        assert(v.rows[k].0 != v.rows[j].0);
    }
    lemma_sum_counts_update(v.rows, v1.rows, j);
}

/// After a sequence of events with known labels, the sum of the category
/// counts has advanced once per event.
proof fn lemma_apply_labels_sum(v: CounterView, labels: Seq<Seq<char>>)
    requires
        labels_unique(v.rows),
        forall|k: int| 0 <= k < labels.len() ==> rows_contain(v.rows, #[trigger] labels[k]),
        forall|i: int| 0 <= i < v.rows.len() ==> (#[trigger] v.rows[i]).1 + labels.len()
            <= u32::MAX,
    ensures
        sum_counts(apply_labels(v, labels).rows) == sum_counts(v.rows) + labels.len(),
    decreases labels.len(),
{
    if labels.len() > 0 {
        let e = labels[0];
        let v1 = spec_increment(v, e);
        lemma_increment_sum(v, e);
        assert forall|p: int, q: int| 0 <= p < q < v1.rows.len() implies v1.rows[p].0
            != v1.rows[q].0 by {
            assert(v1.rows[p].0 == v.rows[p].0);
            assert(v1.rows[q].0 == v.rows[q].0);
        }
        assert forall|k: int| 0 <= k < labels.drop_first().len() implies rows_contain(
            v1.rows,
            #[trigger] labels.drop_first()[k],
        ) by {
            assert(labels.drop_first()[k] == labels[k + 1]);
            let w = choose|w: int| 0 <= w < v.rows.len() && v.rows[w].0 == labels[k + 1];
            assert(v1.rows[w].0 == labels[k + 1]);
        }
        lemma_apply_labels_sum(v1, labels.drop_first());
    }
}

/// A fresh set's counters sum to zero.
proof fn lemma_sum_counts_fresh(labels: Seq<Seq<char>>)
    ensures
        sum_counts(fresh_rows(labels)) == 0,
    decreases labels.len(),
{
    if labels.len() > 0 {
        assert(fresh_rows(labels).drop_first() =~= fresh_rows(labels.drop_first()));
        lemma_sum_counts_fresh(labels.drop_first());
    }
}

/// Count conservation: starting from a fresh counter set with distinct
/// labels, after a sequence of events that each carry a known label, the
/// total equals the number of events, and so does the sum of the category
/// counts.
pub proof fn lemma_count_conservation(labels0: Seq<Seq<char>>, events: Seq<Seq<char>>)
    requires
        distinct_seqs(labels0),
        events.len() <= u32::MAX,
        forall|k: int| 0 <= k < events.len() ==> labels0.contains(#[trigger] events[k]),
    ensures
        apply_labels(fresh_view(labels0), events).total == events.len(),
        sum_counts(apply_labels(fresh_view(labels0), events).rows) == events.len(),
{
    let v = fresh_view(labels0);
    lemma_apply_labels_total(v, events);
    lemma_sum_counts_fresh(labels0);
    assert forall|p: int, q: int| 0 <= p < q < v.rows.len() implies v.rows[p].0 != v.rows[q].0 by {
        assert(v.rows[p].0 == labels0[p]);
        assert(v.rows[q].0 == labels0[q]);
    }
    assert forall|k: int| 0 <= k < events.len() implies rows_contain(
        v.rows,
        #[trigger] events[k],
    ) by {
        let w = choose|w: int| 0 <= w < labels0.len() && labels0[w] == events[k];
        assert(v.rows[w].0 == events[k]);
    }
    lemma_apply_labels_sum(v, events);
}

} // verus!
