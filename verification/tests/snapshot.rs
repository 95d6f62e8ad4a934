//! The snapshot dump: raw table-order text and the deterministic artifact
//! name.

use atspi_stats::counters::CounterSet;
use atspi_stats::snapshot::{snapshot_all_text, snapshot_filename, snapshot_text};
use atspi_stats::tables::MouseCount;

fn labels(names: &[&str]) -> Vec<String> {
    names.iter().map(|s| s.to_string()).collect()
}

#[test]
fn snapshot_dumps_counts_in_table_order() {
    // The dump is not ranked: even though rel outnumbers abs, abs stays
    // first, in table order.
    let mut m = MouseCount::new();
    m.increment("rel");
    m.increment("rel");
    m.increment("button");
    let text = snapshot_text(&m.counters);
    assert_eq!(text, "Total events: 3\nabs: 0,rel: 2,button: 1,\n");
}

#[test]
fn snapshot_of_fresh_set_is_all_zero() {
    let set = CounterSet::new(labels(&["x", "y"])).unwrap();
    assert_eq!(snapshot_text(&set), "Total events: 0\nx: 0,y: 0,\n");
}

#[test]
fn snapshot_all_concatenates_blocks() {
    let mut m = MouseCount::new();
    m.increment("abs");
    let other = CounterSet::new(labels(&["solo"])).unwrap();
    let sets = vec![&m.counters, &other];
    let text = snapshot_all_text(&sets);
    assert_eq!(
        text,
        "Total events: 1\nabs: 1,rel: 0,button: 0,\nTotal events: 0\nsolo: 0,\n"
    );
}

#[test]
fn filename_zero_pads_every_field() {
    assert_eq!(
        snapshot_filename(2024, 3, 7, 9, 5, 0),
        "atspi-stats-2024-03-07-09-05-00.txt"
    );
    assert_eq!(
        snapshot_filename(987, 12, 31, 23, 59, 59),
        "atspi-stats-0987-12-31-23-59-59.txt"
    );
}
