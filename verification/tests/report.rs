//! The reporter: exact rendered text, ranking, tie-breaking, percentage
//! rounding, and determinism.

use atspi_stats::counters::CounterSet;
use atspi_stats::events::{match_mouse_events, MouseEvent};
use atspi_stats::report::{percentage_hundredths, render_report, render_stats};
use atspi_stats::tables::MouseCount;

fn labels(names: &[&str]) -> Vec<String> {
    names.iter().map(|s| s.to_string()).collect()
}

#[test]
fn mouse_scenario_renders_ranked_report() {
    // Five mouse events: abs, abs, rel, button, abs. The report ranks abs
    // first with sixty percent; rel and button tie and keep table order.
    let mut m = MouseCount::new();
    for ev in [
        MouseEvent::Abs,
        MouseEvent::Abs,
        MouseEvent::Rel,
        MouseEvent::Button,
        MouseEvent::Abs,
    ] {
        match_mouse_events(ev, &mut m);
    }
    let text = render_stats(&m.counters);
    let expected = "Total events: 5\n\
                    abs                           3         60.00%\n\
                    rel                           1         20.00%\n\
                    button                        1         20.00%\n";
    assert_eq!(text, expected);
}

#[test]
fn rendering_twice_is_byte_identical() {
    let mut m = MouseCount::new();
    m.increment("rel");
    m.increment("abs");
    let first = render_stats(&m.counters);
    let second = render_stats(&m.counters);
    assert_eq!(first, second);
}

#[test]
fn equal_counts_keep_table_order() {
    // All three categories tie at one event each: the rows appear in table
    // order abs, rel, button.
    let mut m = MouseCount::new();
    m.increment("button");
    m.increment("rel");
    m.increment("abs");
    let text = render_stats(&m.counters);
    let lines: Vec<&str> = text.lines().collect();
    assert!(lines[1].starts_with("abs "));
    assert!(lines[2].starts_with("rel "));
    assert!(lines[3].starts_with("button "));
}

#[test]
fn zero_total_renders_all_zero_percentages() {
    let m = MouseCount::new();
    let text = render_stats(&m.counters);
    let lines: Vec<&str> = text.lines().collect();
    assert_eq!(lines[0], "Total events: 0");
    assert_eq!(lines.len(), 4);
    for line in &lines[1..] {
        assert!(line.ends_with("0.00%"), "line {line:?}");
    }
}

#[test]
fn percentage_rounds_half_up_to_two_digits() {
    // 1/3 rounds down to 33.33%, 2/3 rounds up to 66.67%.
    assert_eq!(percentage_hundredths(1, 3), 3333);
    assert_eq!(percentage_hundredths(2, 3), 6667);
    assert_eq!(percentage_hundredths(1, 2), 5000);
    assert_eq!(percentage_hundredths(0, 7), 0);
    assert_eq!(percentage_hundredths(7, 7), 10000);
    assert_eq!(percentage_hundredths(5, 0), 0);
}

#[test]
fn rendered_percentages_sum_close_to_one_hundred() {
    // Three categories at one event each: 33.33 + 33.33 + 33.33 lies within
    // one hundredth per row of 100.00.
    let mut m = MouseCount::new();
    m.increment("abs");
    m.increment("rel");
    m.increment("button");
    let total = 3u32;
    let sum: u64 = m
        .counters
        .read_categories()
        .iter()
        .map(|r| percentage_hundredths(r.1, total))
        .sum();
    assert!(10000 - 3 <= sum && sum <= 10000 + 3, "sum {sum}");
    assert_eq!(sum, 9999);
}

#[test]
fn long_labels_keep_their_full_text() {
    let mut set =
        CounterSet::new(labels(&["a-label-well-beyond-thirty-characters-wide"])).unwrap();
    set.increment("a-label-well-beyond-thirty-characters-wide");
    let text = render_stats(&set);
    let lines: Vec<&str> = text.lines().collect();
    assert!(lines[1].starts_with("a-label-well-beyond-thirty-characters-wide"));
    assert!(lines[1].ends_with("100.00%"));
}

#[test]
fn report_sections_join_with_blank_lines() {
    let mut m = MouseCount::new();
    m.increment("abs");
    let empty = CounterSet::new(labels(&["only"])).unwrap();
    let sections = vec![
        ("Mouse".to_string(), &m.counters),
        ("Other".to_string(), &empty),
    ];
    let text = render_report(&sections);
    let expected = "Mouse stats:\n\
                    Total events: 1\n\
                    abs                           1         100.00%\n\
                    rel                           0         0.00%\n\
                    button                        0         0.00%\n\
                    \n\
                    Other stats:\n\
                    Total events: 0\n\
                    only                          0         0.00%\n";
    assert_eq!(text, expected);
}
