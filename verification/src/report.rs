//! The reporter: a deterministic, percentage-ranked, fixed-width rendering of
//! one counter set's state. Rows are ordered by descending count, with equal
//! counts kept in table order.

use vstd::prelude::*;
use vstd::relations::{sorted_by, total_ordering};
use vstd::seq_lib::lemma_sorted_unique;

use crate::counters::{rows_view, sum_counts, CounterSet, CounterView};
use crate::text::{
    chars_to_string, dec_digits, pad_right, push_dec, push_padded_dec, push_padded_str,
    push_str_chars, push_two_digits, two_digits,
};

verus! {

/// The percentage of `count` against `total`, in hundredths of a percent,
/// rounded half-up; zero when the total is zero.
pub open spec fn pct_hundredths(count: u32, total: u32) -> nat {
    if total == 0 {
        0
    } else {
        ((10000 * count + total / 2) / (total as int)) as nat
    }
}

/// Computes the percentage of `count` against `total` in hundredths of a
/// percent.
pub fn percentage_hundredths(count: u32, total: u32) -> (h: u64)
    ensures
        h == pct_hundredths(count, total),
{
    if total == 0 {
        0
    } else {
        (10000u64 * (count as u64) + (total as u64) / 2) / (total as u64)
    }
}

/// The report order on (table index, count) pairs: a higher count comes
/// first, and equal counts stay in table order.
pub open spec fn row_leq(a: (usize, u32), b: (usize, u32)) -> bool {
    a.1 > b.1 || (a.1 == b.1 && a.0 <= b.0)
}

/// The report order as a relation value.
pub open spec fn row_order() -> spec_fn((usize, u32), (usize, u32)) -> bool {
    |a: (usize, u32), b: (usize, u32)| row_leq(a, b)
}

/// The report order is a total order: rows with distinct table indices are
/// always strictly ordered, so a sorted arrangement is unique.
pub proof fn lemma_row_order_total()
    ensures
        total_ordering(row_order()),
{
    let r = row_order();
    assert forall|x: (usize, u32)| #[trigger] r(x, x) by {}
    assert forall|x: (usize, u32), y: (usize, u32)| #[trigger] r(x, y) && #[trigger] r(
        y,
        x,
    ) implies x == y by {}
    assert forall|x: (usize, u32), y: (usize, u32), z: (usize, u32)|
        #[trigger] r(x, y) && #[trigger] r(y, z) implies r(x, z) by {}
    assert forall|x: (usize, u32), y: (usize, u32)| #[trigger] r(x, y) || #[trigger] r(y, x) by {}
}

/// The (table index, count) pairs of `rows`.
pub open spec fn indexed_counts(rows: Seq<(Seq<char>, u32)>) -> Seq<(usize, u32)> {
    Seq::new(rows.len(), |i: int| (i as usize, rows[i].1))
}

/// The report ranking of `rows`: their (table index, count) pairs, sorted by
/// the report order.
pub open spec fn rank_seq(rows: Seq<(Seq<char>, u32)>) -> Seq<(usize, u32)> {
    indexed_counts(rows).sort_by(row_order())
}

/// An exec comparison deciding the report order.
fn row_leq_exec(a: (usize, u32), b: (usize, u32)) -> (r: bool)
    ensures
        r == row_leq(a, b),
{
    a.1 > b.1 || (a.1 == b.1 && a.0 <= b.0)
}

/// The least position of `out` whose element does not precede `x` in the
/// report order (the stable insertion point for `x`).
fn insertion_point(out: &Vec<(usize, u32)>, x: (usize, u32)) -> (pos: usize)
    ensures
        pos <= out@.len(),
        forall|k: int| 0 <= k < pos ==> row_leq(out@[k], x),
        pos < out@.len() ==> !row_leq(out@[pos as int], x),
{
    let n = out.len();
    let mut pos: usize = 0;
    while pos < n
        invariant
            pos <= n,
            n == out@.len(),
            forall|k: int| 0 <= k < pos ==> row_leq(out@[k], x),
        decreases n - pos,
    {
        if !row_leq_exec(out[pos], x) {
            return pos;
        }
        pos = pos + 1;
    }
    pos
}

/// Sorts the (table index, count) pairs of `pairs` by the report order, by
/// stable insertion; the result is exactly the report ranking.
fn sort_indexed(pairs: &Vec<(String, u32)>) -> (r: Vec<(usize, u32)>)
    ensures
        r@ == rank_seq(rows_view(pairs@)),
{
    broadcast use vstd::seq_lib::to_multiset_insert;

    let ghost rows = rows_view(pairs@);
    let n = pairs.len();
    let mut v: Vec<(usize, u32)> = Vec::new();
    let mut i: usize = 0;
    while i < n
        invariant
            i <= n,
            n == pairs@.len(),
            rows == rows_view(pairs@),
            v@.len() == i,
            forall|k: int| 0 <= k < i ==> v@[k] == indexed_counts(rows)[k],
        decreases n - i,
    {
        let count = pairs[i].1;
        v.push((i, count));
        i = i + 1;
    }
    proof {
        assert(v@ =~= indexed_counts(rows));
    }
    let mut out: Vec<(usize, u32)> = Vec::new();
    proof {
        assert(out@ =~= v@.take(0int));
    }
    let mut j: usize = 0;
    while j < n
        invariant
            j <= n,
            n == v@.len(),
            v@ == indexed_counts(rows),
            out@.len() == j,
            sorted_by(out@, row_order()),
            out@.to_multiset() == v@.take(j as int).to_multiset(),
        decreases n - j,
    {
        let x = v[j];
        let pos = insertion_point(&out, x);
        let ghost pre = out@;
        out.insert(pos, x);
        proof {
            lemma_row_order_total();
            pre.insert_ensures(pos as int, x);
            let r = row_order();
            assert forall|p: int, q: int| 0 <= p < q < out@.len() implies r(
                out@[p],
                out@[q],
            ) by {
                if q < pos {
                    assert(out@[p] == pre[p] && out@[q] == pre[q]);
                } else if p > pos {
                    assert(out@[p] == pre[p - 1] && out@[q] == pre[q - 1]);
                } else if p == pos && q > pos {
                    assert(out@[q] == pre[q - 1]);
                    assert(!row_leq(pre[pos as int], x));
                    assert(r(x, pre[pos as int]));
                    if q - 1 > pos {
                        assert(r(pre[pos as int], pre[q - 1]));
                    }
                } else if q == pos {
                    assert(out@[p] == pre[p]);
                    assert(row_leq(pre[p], x));
                } else {
                    // p < pos < q, so p and q - 1 are distinct positions of pre
                    assert(out@[p] == pre[p] && out@[q] == pre[q - 1]);
                    assert(p < q - 1);
                    assert(r(pre[p], pre[q - 1]));
                }
            }
            assert(sorted_by(out@, row_order()));
            assert(out@ == pre.insert(pos as int, x));
            vstd::seq_lib::to_multiset_insert(pre, pos as int, x);
            assert(pre.insert(pos as int, x).to_multiset() == pre.to_multiset().insert(x));
            assert(v@.take(j + 1) =~= v@.take(j as int).push(x));
            vstd::seq_lib::to_multiset_build(v@.take(j as int), x);
            assert(out@.to_multiset() == v@.take(j + 1).to_multiset());
        }
        j = j + 1;
    }
    proof {
        assert(v@.take(n as int) =~= v@);
        lemma_row_order_total();
        indexed_counts(rows).lemma_sort_by_ensures(row_order());
        lemma_sorted_unique(out@, rank_seq(rows), row_order());
        assert(out@ =~= rank_seq(rows));
    }
    out
}

/// The report ranking is a permutation of the table positions: it has one
/// entry per row, every entry points into the table, and it carries that
/// row's count.
pub proof fn lemma_rank_seq_props(rows: Seq<(Seq<char>, u32)>)
    requires
        rows.len() <= usize::MAX,
    ensures
        rank_seq(rows).len() == rows.len(),
        forall|k: int|
            0 <= k < rank_seq(rows).len() ==> (#[trigger] rank_seq(rows)[k]).0 < rows.len()
                && rank_seq(rows)[k].1 == rows[rank_seq(rows)[k].0 as int].1,
{
    let idxd = indexed_counts(rows);
    let srt = rank_seq(rows);
    lemma_row_order_total();
    idxd.lemma_sort_by_ensures(row_order());
    idxd.to_multiset_ensures();
    srt.to_multiset_ensures();
    assert(srt.len() == rows.len());
    assert forall|k: int| 0 <= k < srt.len() implies (#[trigger] srt[k]).0 < rows.len()
        && srt[k].1 == rows[srt[k].0 as int].1 by {
        assert(srt.contains(srt[k]));
        assert(srt.to_multiset().count(srt[k]) > 0);
        assert(idxd.to_multiset().count(srt[k]) > 0);
        assert(idxd.contains(srt[k]));
        let i = choose|i: int| 0 <= i < idxd.len() && idxd[i] == srt[k];
        assert(srt[k] == (i as usize, rows[i].1));
    }
}

/// Deterministic ordering: the report ranking has one entry per table row,
/// counts never increase from one row to the next, and rows with equal counts
/// keep their table order strictly.
pub proof fn lemma_report_rows_ordered(rows: Seq<(Seq<char>, u32)>)
    requires
        rows.len() <= usize::MAX,
    ensures
        rank_seq(rows).len() == rows.len(),
        forall|p: int, q: int|
            0 <= p < q < rows.len() ==> (#[trigger] rank_seq(rows)[p]).1 >= (#[trigger] rank_seq(
                rows,
            )[q]).1,
        forall|p: int, q: int|
            0 <= p < q < rows.len() && (#[trigger] rank_seq(rows)[p]).1 == (#[trigger] rank_seq(
                rows,
            )[q]).1 ==> rank_seq(rows)[p].0 < rank_seq(rows)[q].0,
{
    let idxd = indexed_counts(rows);
    let srt = rank_seq(rows);
    lemma_row_order_total();
    idxd.lemma_sort_by_ensures(row_order());
    lemma_rank_seq_props(rows);
    assert(idxd.no_duplicates()) by {
        assert forall|i: int, j: int|
            0 <= i < idxd.len() && 0 <= j < idxd.len() && i != j implies idxd[i] != idxd[j] by {
            assert(idxd[i].0 == i as usize);
            assert(idxd[j].0 == j as usize);
        }
    }
    idxd.lemma_multiset_has_no_duplicates();
    assert(srt.to_multiset() == idxd.to_multiset());
    srt.lemma_multiset_has_no_duplicates_conv();
    let r = row_order();
    assert forall|p: int, q: int| 0 <= p < q < rows.len() implies (#[trigger] srt[p]).1
        >= (#[trigger] srt[q]).1 by {
        assert(r(srt[p], srt[q]));
    }
    assert forall|p: int, q: int|
        0 <= p < q < rows.len() && (#[trigger] srt[p]).1 == (#[trigger] srt[q]).1 implies srt[p].0
        < srt[q].0 by {
        assert(r(srt[p], srt[q]));
        assert(srt[p].0 <= srt[q].0);
        if srt[p].0 == srt[q].0 {
            assert(srt[p] == srt[q]);
            assert(false);
        }
    }
}

/// The rows of `rows` arranged in report order.
pub open spec fn ranked_rows(rows: Seq<(Seq<char>, u32)>) -> Seq<(Seq<char>, u32)> {
    Seq::new(rows.len(), |k: int| rows[rank_seq(rows)[k].0 as int])
}

/// One report row: the label left-justified in a 30-character field, the
/// count left-justified in a 10-character field, and the percentage with
/// exactly two fraction digits, a percent sign, and a line break.
pub open spec fn row_line(label: Seq<char>, count: u32, total: u32) -> Seq<char> {
    pad_right(label, 30) + pad_right(dec_digits(count as nat), 10) + dec_digits(
        pct_hundredths(count, total) / 100,
    ) + "."@ + two_digits(pct_hundredths(count, total) % 100) + "%\n"@
}

/// The report lines of the given rows, in the given order.
pub open spec fn rows_text(rows: Seq<(Seq<char>, u32)>, total: u32) -> Seq<char>
    decreases rows.len(),
{
    if rows.len() == 0 {
        Seq::<char>::empty()
    } else {
        row_line(rows[0].0, rows[0].1, total) + rows_text(rows.drop_first(), total)
    }
}

/// Appending a row to the rendered rows appends its line.
proof fn lemma_rows_text_push(rows: Seq<(Seq<char>, u32)>, x: (Seq<char>, u32), total: u32)
    ensures
        rows_text(rows.push(x), total) == rows_text(rows, total) + row_line(x.0, x.1, total),
    decreases rows.len(),
{
    if rows.len() == 0 {
        let c = row_line(x.0, x.1, total);
        assert(rows.push(x)[0] == x);
        assert(rows.push(x).drop_first() =~= Seq::<(Seq<char>, u32)>::empty());
        assert(rows_text(rows.push(x), total) == c + rows_text(
            Seq::<(Seq<char>, u32)>::empty(),
            total,
        ));
        assert(c + Seq::<char>::empty() =~= Seq::<char>::empty() + c);
    } else {
        assert(rows.push(x).drop_first() =~= rows.drop_first().push(x));
        lemma_rows_text_push(rows.drop_first(), x, total);
        let a = row_line(rows[0].0, rows[0].1, total);
        let b = rows_text(rows.drop_first(), total);
        let c = row_line(x.0, x.1, total);
        assert(rows.push(x)[0] == rows[0]);
        assert(rows_text(rows.push(x), total) == a + (b + c));
        assert(a + (b + c) =~= (a + b) + c);
    }
}

/// The full report block of a counter state: a total line, then one line per
/// category, ranked by descending count with equal counts in table order.
pub open spec fn report_view(v: CounterView) -> Seq<char> {
    "Total events: "@ + dec_digits(v.total as nat) + "\n"@ + rows_text(ranked_rows(v.rows), v.total)
}

/// Renders the ranked, fixed-width report of one counter set's state. The
/// output is a function of that state alone, so rendering the same state
/// twice yields identical text.
pub fn render_stats(set: &CounterSet) -> (r: String)
    ensures
        r@ == report_view(set@),
{
    let ghost vrows = set@.rows;
    let total = set.read_total();
    let rows = set.read_categories();
    let nrows = rows.len();
    let order = sort_indexed(rows);
    proof {
        assert(vrows.len() == nrows);
        lemma_rank_seq_props(vrows);
    }
    let mut out: Vec<char> = Vec::new();
    push_str_chars(&mut out, "Total events: ");
    push_dec(&mut out, total as u64);
    push_str_chars(&mut out, "\n");
    let ghost header = "Total events: "@ + dec_digits(total as nat) + "\n"@;
    proof {
        assert(out@ =~= header);
        assert(out@ =~= header + rows_text(ranked_rows(vrows).take(0int), total));
    }
    let m = order.len();
    let mut k: usize = 0;
    while k < m
        invariant
            m == order@.len(),
            m == vrows.len(),
            m == rows@.len(),
            order@ == rank_seq(vrows),
            rows_view(rows@) == vrows,
            total == set@.total,
            vrows == set@.rows,
            forall|t: int|
                0 <= t < m ==> (#[trigger] order@[t]).0 < m && order@[t].1 == vrows[order@[t].0 as int].1,
            out@ == header + rows_text(ranked_rows(vrows).take(k as int), total),
            k <= m,
        decreases m - k,
    {
        let idx = order[k].0;
        let cnt = order[k].1;
        proof {
            assert(rows_view(rows@)[idx as int] == vrows[idx as int]);
            assert(ranked_rows(vrows)[k as int] == (vrows[idx as int].0, cnt));
        }
        push_padded_str(&mut out, rows[idx].0.as_str(), 30);
        push_padded_dec(&mut out, cnt as u64, 10);
        let h = percentage_hundredths(cnt, total);
        push_dec(&mut out, h / 100);
        push_str_chars(&mut out, ".");
        push_two_digits(&mut out, h % 100);
        push_str_chars(&mut out, "%\n");
        proof {
            let ranked = ranked_rows(vrows);
            lemma_rows_text_push(ranked.take(k as int), ranked[k as int], total);
            assert(ranked.take(k + 1) =~= ranked.take(k as int).push(ranked[k as int]));
            assert(pct_hundredths(cnt, total) / 100 == (h / 100) as nat);
            assert(pct_hundredths(cnt, total) % 100 == (h % 100) as nat);
            assert(out@ =~= header + rows_text(ranked.take(k + 1), total));
        }
        k = k + 1;
    }
    proof {
        assert(ranked_rows(vrows).take(m as int) =~= ranked_rows(vrows));
    }
    chars_to_string(&out)
}

/// The sum of the report percentages of `rows`, in hundredths of a percent.
pub open spec fn sum_pct(rows: Seq<(Seq<char>, u32)>, total: u32) -> int
    decreases rows.len(),
{
    if rows.len() == 0 {
        0
    } else {
        pct_hundredths(rows[0].1, total) + sum_pct(rows.drop_first(), total)
    }
}

/// With a zero total every row renders a percentage of zero: `0.00%`.
pub proof fn lemma_percentage_zero_total(label: Seq<char>, count: u32)
    ensures
        pct_hundredths(count, 0) == 0,
        row_line(label, count, 0) == pad_right(label, 30) + pad_right(
            dec_digits(count as nat),
            10,
        ) + "0.00%\n"@,
{
    reveal_strlit(".");
    reveal_strlit("%\n");
    reveal_strlit("0.00%\n");
    assert(dec_digits(0) == seq!['0']);
    assert(two_digits(0) =~= seq!['0', '0']);
    assert("0.00%\n"@.len() == 6);
    assert(dec_digits(0) + "."@ + two_digits(0) + "%\n"@ =~= "0.00%\n"@);
    assert(row_line(label, count, 0) =~= pad_right(label, 30) + pad_right(
        dec_digits(count as nat),
        10,
    ) + "0.00%\n"@);
}

/// The rounded percentage differs from the exact ratio by at most one unit:
/// in hundredths, `total * pct` stays within `total` of `10000 * count`.
proof fn lemma_pct_bound(count: u32, total: u32)
    requires
        total > 0,
    ensures
        total * pct_hundredths(count, total) <= 10000 * count + total,
        10000 * count - total <= total * pct_hundredths(count, total),
{
    let t = total as int;
    let x = 10000 * count + t / 2;
    vstd::arithmetic::div_mod::lemma_fundamental_div_mod(x, t);
    vstd::arithmetic::div_mod::lemma_mod_bound(x, t);
    assert(t * (x / t) == x - x % t);
    assert(total * pct_hundredths(count, total) == t * (x / t));
}

/// Summed over all rows, the rounding slack stays within one unit per row.
proof fn lemma_sum_pct_bounds(rows: Seq<(Seq<char>, u32)>, total: u32)
    requires
        total > 0,
    ensures
        total * sum_pct(rows, total) <= 10000 * sum_counts(rows) + rows.len() * total,
        total * sum_pct(rows, total) >= 10000 * sum_counts(rows) - rows.len() * total,
    decreases rows.len(),
{
    let t = total as int;
    if rows.len() == 0 {
    } else {
        lemma_pct_bound(rows[0].1, total);
        let rest = rows.drop_first();
        lemma_sum_pct_bounds(rest, total);
        let c0 = rows[0].1 as int;
        let p0 = pct_hundredths(rows[0].1, total) as int;
        let srest = sum_pct(rest, total);
        let crest = sum_counts(rest);
        let nrest = rest.len() as int;
        assert(sum_pct(rows, total) == p0 + srest);
        assert(sum_counts(rows) == c0 + crest);
        assert(t * (p0 + srest) <= 10000 * (c0 + crest) + (nrest + 1) * t) by (nonlinear_arith)
            requires
                t * p0 <= 10000 * c0 + t,
                t * srest <= 10000 * crest + nrest * t,
        ;
        assert(t * (p0 + srest) >= 10000 * (c0 + crest) - (nrest + 1) * t) by (nonlinear_arith)
            requires
                t * p0 >= 10000 * c0 - t,
                t * srest >= 10000 * crest - nrest * t,
        ;
    }
}

/// Percentage conservation: when the counts sum to the total (every event
/// matched a known category) and the total is positive, the rendered
/// percentages sum to 100% within rounding tolerance, at most one hundredth
/// of a percent per row.
pub proof fn lemma_percentage_sum_tolerance(rows: Seq<(Seq<char>, u32)>, total: u32)
    requires
        total > 0,
        sum_counts(rows) == total,
    ensures
        10000 - rows.len() <= sum_pct(rows, total) <= 10000 + rows.len(),
{
    lemma_sum_pct_bounds(rows, total);
    let t = total as int;
    let s = sum_pct(rows, total);
    let n = rows.len() as int;
    assert(t * s <= 10000 * t + n * t);
    assert(t * s >= 10000 * t - n * t);
    assert(s <= 10000 + n) by (nonlinear_arith)
        requires
            t > 0,
            t * s <= 10000 * t + n * t,
    ;
    assert(s >= 10000 - n) by (nonlinear_arith)
        requires
            t > 0,
            t * s >= 10000 * t - n * t,
    ;
}

/// One report section: a header naming the interface, then the report block.
pub open spec fn section_view(name: Seq<char>, v: CounterView) -> Seq<char> {
    name + " stats:\n"@ + report_view(v)
}

/// The report sections of several counter sets, in registration order,
/// separated by blank lines.
pub open spec fn sections_view(sections: Seq<(Seq<char>, CounterView)>) -> Seq<char>
    decreases sections.len(),
{
    if sections.len() == 0 {
        Seq::<char>::empty()
    } else if sections.len() == 1 {
        section_view(sections[0].0, sections[0].1)
    } else {
        section_view(sections[0].0, sections[0].1) + "\n"@ + sections_view(sections.drop_first())
    }
}

/// Appending a section appends a separator (after any earlier section) and
/// its text.
proof fn lemma_sections_push(sections: Seq<(Seq<char>, CounterView)>, x: (Seq<char>, CounterView))
    ensures
        sections_view(sections.push(x)) == sections_view(sections) + (if sections.len() == 0 {
            Seq::<char>::empty()
        } else {
            "\n"@
        }) + section_view(x.0, x.1),
    decreases sections.len(),
{
    let c = section_view(x.0, x.1);
    if sections.len() == 0 {
        assert(sections.push(x)[0] == x);
        assert(sections_view(sections.push(x)) == c);
        assert(sections_view(sections.push(x)) =~= sections_view(sections) + Seq::<char>::empty()
            + c);
    } else {
        assert(sections.push(x)[0] == sections[0]);
        assert(sections.push(x).drop_first() =~= sections.drop_first().push(x));
        lemma_sections_push(sections.drop_first(), x);
        if sections.len() == 1 {
            assert(sections.drop_first().len() == 0);
            assert(sections_view(sections.drop_first().push(x)) == c);
            assert(sections_view(sections.push(x)) == section_view(sections[0].0, sections[0].1)
                + "\n"@ + c);
            assert(sections_view(sections.push(x)) =~= sections_view(sections) + "\n"@ + c);
        } else {
            assert(sections_view(sections.push(x)) =~= sections_view(sections) + "\n"@ + c);
        }
    }
}

/// The named counter states of the given sections.
pub open spec fn section_views(sections: Seq<(String, &CounterSet)>) -> Seq<(Seq<char>, CounterView)> {
    sections.map_values(|s: (String, &CounterSet)| (s.0@, s.1@))
}

/// Renders the report sections of several counter sets, one block per set in
/// registration order, each under a header naming its interface, separated by
/// blank lines.
pub fn render_report(sections: &Vec<(String, &CounterSet)>) -> (r: String)
    ensures
        r@ == sections_view(section_views(sections@)),
{
    let ghost views = section_views(sections@);
    let mut out: Vec<char> = Vec::new();
    let n = sections.len();
    proof {
        assert(out@ =~= sections_view(views.take(0int)));
    }
    let mut i: usize = 0;
    while i < n
        invariant
            n == sections@.len(),
            views == section_views(sections@),
            i <= n,
            out@ == sections_view(views.take(i as int)),
        decreases n - i,
    {
        if i > 0 {
            push_str_chars(&mut out, "\n");
        }
        proof {
            assert(views[i as int] == (sections@[i as int].0@, sections@[i as int].1@));
        }
        push_str_chars(&mut out, sections[i].0.as_str());
        push_str_chars(&mut out, " stats:\n");
        let block = render_stats(sections[i].1);
        push_str_chars(&mut out, block.as_str());
        proof {
            lemma_sections_push(views.take(i as int), views[i as int]);
            assert(views.take(i + 1) =~= views.take(i as int).push(views[i as int]));
            assert(out@ =~= sections_view(views.take(i + 1)));
        }
        i = i + 1;
    }
    proof {
        assert(views.take(n as int) =~= views);
    }
    chars_to_string(&out)
}

} // verus!
