//! Behavior of the counter set itself: construction, increments, reads, and
//! the permissive unknown-label policy.

use atspi_stats::counters::{ConfigError, CounterSet};
use atspi_stats::tables::{Getters, InterfaceCount, MouseCount, ObjectCount};

fn labels(names: &[&str]) -> Vec<String> {
    names.iter().map(|s| s.to_string()).collect()
}

#[test]
fn construction_rejects_duplicate_labels() {
    let r = CounterSet::new(labels(&["a", "b", "a"]));
    assert!(matches!(r, Err(ConfigError::DuplicateLabel)));
}

#[test]
fn construction_accepts_distinct_labels() {
    let set = CounterSet::new(labels(&["a", "b", "c"])).unwrap();
    assert_eq!(set.read_total(), 0);
    let rows = set.read_categories();
    assert_eq!(rows.len(), 3);
    for (i, name) in ["a", "b", "c"].iter().enumerate() {
        assert_eq!(rows[i].0, *name);
        assert_eq!(rows[i].1, 0);
    }
}

#[test]
fn increment_moves_total_and_matching_category() {
    let mut set = CounterSet::new(labels(&["a", "b"])).unwrap();
    set.increment("b");
    set.increment("b");
    set.increment("a");
    assert_eq!(set.read_total(), 3);
    let rows = set.read_categories();
    assert_eq!(rows[0], ("a".to_string(), 1));
    assert_eq!(rows[1], ("b".to_string(), 2));
}

#[test]
fn unknown_label_moves_total_alone() {
    // The permissive policy: an unknown label still advances the total, and
    // no category counter changes.
    let mut m = MouseCount::new();
    m.increment("abs");
    let before: Vec<(String, u32)> = m.get_categories().clone();
    m.increment("wheel");
    assert_eq!(m.get_total(), 2);
    assert_eq!(m.get_categories(), &before);
}

#[test]
fn count_conservation_single_set() {
    // One hundred events with known labels: the total and the sum of the
    // category counts both equal the number of events.
    let mut m = MouseCount::new();
    let names = ["abs", "rel", "button"];
    for i in 0..100usize {
        m.increment(names[i % 3]);
    }
    assert_eq!(m.get_total(), 100);
    let sum: u32 = m.get_categories().iter().map(|r| r.1).sum();
    assert_eq!(sum, 100);
}

#[test]
fn interleaved_producers_lose_no_update() {
    // Two simulated producers take turns against one counter set; every call
    // lands: the total equals the number of calls and each category counts
    // its own calls.
    let mut m = MouseCount::new();
    for _ in 0..50 {
        m.increment("abs"); // producer one
        m.increment("button"); // producer two
    }
    assert_eq!(m.get_total(), 100);
    let rows = m.get_categories();
    assert_eq!(rows[0], ("abs".to_string(), 50));
    assert_eq!(rows[1], ("rel".to_string(), 0));
    assert_eq!(rows[2], ("button".to_string(), 50));
}

#[test]
fn empty_table_counts_totals_only() {
    let mut set = CounterSet::new(Vec::new()).unwrap();
    assert_eq!(set.read_categories().len(), 0);
    set.increment("anything");
    assert_eq!(set.read_total(), 1);
    assert_eq!(set.read_categories().len(), 0);
}

#[test]
fn interface_tally_has_ten_categories() {
    let t = InterfaceCount::new();
    assert_eq!(t.get_total(), 0);
    let rows = t.get_categories();
    let names: Vec<&str> = rows.iter().map(|r| r.0.as_str()).collect();
    assert_eq!(
        names,
        vec![
            "object",
            "window",
            "document",
            "terminal",
            "mouse",
            "keyboard",
            "listener",
            "cache",
            "focus",
            "available"
        ]
    );
}

#[test]
fn object_table_has_twenty_two_distinct_categories() {
    let o = ObjectCount::new();
    let rows = o.get_categories();
    assert_eq!(rows.len(), 22);
    for i in 0..rows.len() {
        for j in (i + 1)..rows.len() {
            assert_ne!(rows[i].0, rows[j].0);
        }
    }
}
