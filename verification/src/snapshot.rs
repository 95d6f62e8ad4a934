//! The snapshot dump: a raw, unsorted rendering of counter sets in table
//! order, together with the deterministic name of the snapshot artifact.

use vstd::prelude::*;

use crate::counters::{CounterSet, CounterView};
use crate::text::{chars_to_string, dec_digits, push_dec, push_str_chars, push_zero_padded_dec, zero_padded};

verus! {

/// The comma-terminated `label: count` pairs of `rows`, in table order.
pub open spec fn snapshot_pairs_text(rows: Seq<(Seq<char>, u32)>) -> Seq<char>
    decreases rows.len(),
{
    if rows.len() == 0 {
        Seq::<char>::empty()
    } else {
        rows[0].0 + ": "@ + dec_digits(rows[0].1 as nat) + ","@ + snapshot_pairs_text(
            rows.drop_first(),
        )
    }
}

/// The raw dump of one counter state: a total line, then one line of
/// comma-terminated `label: count` pairs in table order (not sorted by
/// count).
pub open spec fn snapshot_view(v: CounterView) -> Seq<char> {
    "Total events: "@ + dec_digits(v.total as nat) + "\n"@ + snapshot_pairs_text(v.rows) + "\n"@
}

/// Appending a row to the dumped pairs appends its `label: count,` piece.
proof fn lemma_snapshot_pairs_push(rows: Seq<(Seq<char>, u32)>, x: (Seq<char>, u32))
    ensures
        snapshot_pairs_text(rows.push(x)) == snapshot_pairs_text(rows) + x.0 + ": "@ + dec_digits(
            x.1 as nat,
        ) + ","@,
    decreases rows.len(),
{
    let c = x.0 + ": "@ + dec_digits(x.1 as nat) + ","@;
    if rows.len() == 0 {
        assert(rows.push(x)[0] == x);
        assert(rows.push(x).drop_first() =~= Seq::<(Seq<char>, u32)>::empty());
        assert(snapshot_pairs_text(Seq::<(Seq<char>, u32)>::empty()) == Seq::<char>::empty());
        assert(snapshot_pairs_text(rows.push(x)) == x.0 + ": "@ + dec_digits(x.1 as nat) + ","@
            + Seq::<char>::empty());
        assert(snapshot_pairs_text(rows.push(x)) =~= snapshot_pairs_text(rows) + c);
    } else {
        assert(rows.push(x)[0] == rows[0]);
        assert(rows.push(x).drop_first() =~= rows.drop_first().push(x));
        lemma_snapshot_pairs_push(rows.drop_first(), x);
        assert(snapshot_pairs_text(rows.push(x)) =~= snapshot_pairs_text(rows) + c);
    }
}

/// Renders the raw dump of one counter set's state: the total, then every
/// `label: count` pair in table order.
pub fn snapshot_text(set: &CounterSet) -> (r: String)
    ensures
        r@ == snapshot_view(set@),
{
    let total = set.read_total();
    let rows = set.read_categories();
    let mut out: Vec<char> = Vec::new();
    push_str_chars(&mut out, "Total events: ");
    push_dec(&mut out, total as u64);
    push_str_chars(&mut out, "\n");
    let ghost header = "Total events: "@ + dec_digits(total as nat) + "\n"@;
    proof {
        assert(out@ =~= header);
        assert(out@ =~= header + snapshot_pairs_text(set@.rows.take(0int)));
    }
    let n = rows.len();
    let mut i: usize = 0;
    while i < n
        invariant
            n == rows@.len(),
            n == set@.rows.len(),
            crate::counters::rows_view(rows@) == set@.rows,
            total == set@.total,
            i <= n,
            out@ == header + snapshot_pairs_text(set@.rows.take(i as int)),
        decreases n - i,
    {
        proof {
            assert(crate::counters::rows_view(rows@)[i as int] == set@.rows[i as int]);
        }
        push_str_chars(&mut out, rows[i].0.as_str());
        push_str_chars(&mut out, ": ");
        push_dec(&mut out, rows[i].1 as u64);
        push_str_chars(&mut out, ",");
        proof {
            lemma_snapshot_pairs_push(set@.rows.take(i as int), set@.rows[i as int]);
            assert(set@.rows.take(i + 1) =~= set@.rows.take(i as int).push(set@.rows[i as int]));
            assert(out@ =~= header + snapshot_pairs_text(set@.rows.take(i + 1)));
        }
        i = i + 1;
    }
    push_str_chars(&mut out, "\n");
    proof {
        assert(set@.rows.take(n as int) =~= set@.rows);
        assert(out@ =~= snapshot_view(set@));
    }
    chars_to_string(&out)
}

/// The raw dumps of several counter states, concatenated in registration
/// order.
pub open spec fn snapshots_view(vs: Seq<CounterView>) -> Seq<char>
    decreases vs.len(),
{
    if vs.len() == 0 {
        Seq::<char>::empty()
    } else {
        snapshot_view(vs[0]) + snapshots_view(vs.drop_first())
    }
}

/// Appending a counter state appends its dump.
proof fn lemma_snapshots_push(vs: Seq<CounterView>, x: CounterView)
    ensures
        snapshots_view(vs.push(x)) == snapshots_view(vs) + snapshot_view(x),
    decreases vs.len(),
{
    let c = snapshot_view(x);
    if vs.len() == 0 {
        assert(vs.push(x)[0] == x);
        assert(vs.push(x).drop_first() =~= Seq::<CounterView>::empty());
        assert(snapshots_view(vs.push(x)) == c + snapshots_view(Seq::<CounterView>::empty()));
        assert(snapshots_view(vs.push(x)) =~= snapshots_view(vs) + c);
    } else {
        assert(vs.push(x)[0] == vs[0]);
        assert(vs.push(x).drop_first() =~= vs.drop_first().push(x));
        lemma_snapshots_push(vs.drop_first(), x);
        assert(snapshots_view(vs.push(x)) =~= snapshots_view(vs) + c);
    }
}

/// The counter states of the given sets.
pub open spec fn set_views(sets: Seq<&CounterSet>) -> Seq<CounterView> {
    sets.map_values(|s: &CounterSet| s@)
}

/// Renders the raw dump of several counter sets, one block per set, in
/// registration order.
pub fn snapshot_all_text(sets: &Vec<&CounterSet>) -> (r: String)
    ensures
        r@ == snapshots_view(set_views(sets@)),
{
    let ghost views = set_views(sets@);
    let mut out: Vec<char> = Vec::new();
    proof {
        assert(out@ =~= snapshots_view(views.take(0int)));
    }
    let n = sets.len();
    let mut i: usize = 0;
    while i < n
        invariant
            n == sets@.len(),
            views == set_views(sets@),
            i <= n,
            out@ == snapshots_view(views.take(i as int)),
        decreases n - i,
    {
        proof {
            assert(views[i as int] == sets@[i as int]@);
        }
        let block = snapshot_text(sets[i]);
        push_str_chars(&mut out, block.as_str());
        proof {
            lemma_snapshots_push(views.take(i as int), views[i as int]);
            assert(views.take(i + 1) =~= views.take(i as int).push(views[i as int]));
            assert(out@ =~= snapshots_view(views.take(i + 1)));
        }
        i = i + 1;
    }
    proof {
        assert(views.take(n as int) =~= views);
    }
    chars_to_string(&out)
}

/// The deterministic name of the snapshot artifact for the given local
/// date-time: `atspi-stats-YYYY-MM-DD-HH-MM-SS.txt`.
pub open spec fn snapshot_filename_view(
    year: u32,
    month: u32,
    day: u32,
    hour: u32,
    minute: u32,
    second: u32,
) -> Seq<char> {
    "atspi-stats-"@ + zero_padded(year as nat, 4) + "-"@ + zero_padded(month as nat, 2) + "-"@
        + zero_padded(day as nat, 2) + "-"@ + zero_padded(hour as nat, 2) + "-"@ + zero_padded(
        minute as nat,
        2,
    ) + "-"@ + zero_padded(second as nat, 2) + ".txt"@
}

/// Builds the name of the snapshot artifact from a local date-time.
pub fn snapshot_filename(
    year: u32,
    month: u32,
    day: u32,
    hour: u32,
    minute: u32,
    second: u32,
) -> (r: String)
    ensures
        r@ == snapshot_filename_view(year, month, day, hour, minute, second),
{
    let mut out: Vec<char> = Vec::new();
    push_str_chars(&mut out, "atspi-stats-");
    push_zero_padded_dec(&mut out, year as u64, 4);
    push_str_chars(&mut out, "-");
    push_zero_padded_dec(&mut out, month as u64, 2);
    push_str_chars(&mut out, "-");
    push_zero_padded_dec(&mut out, day as u64, 2);
    push_str_chars(&mut out, "-");
    push_zero_padded_dec(&mut out, hour as u64, 2);
    push_str_chars(&mut out, "-");
    push_zero_padded_dec(&mut out, minute as u64, 2);
    push_str_chars(&mut out, "-");
    push_zero_padded_dec(&mut out, second as u64, 2);
    push_str_chars(&mut out, ".txt");
    proof {
        assert(out@ =~= snapshot_filename_view(year, month, day, hour, minute, second));
    }
    chars_to_string(&out)
}

} // verus!
