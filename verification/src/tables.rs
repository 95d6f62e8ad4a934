//! The fixed per-interface category tables of the event taxonomy, and the
//! per-interface counter types built over them.

use vstd::prelude::*;

use crate::counters::{
    distinct_seqs, fresh_view, rows_view, seq_labels, spec_increment, CounterSet, CounterView,
};

verus! {

/// Read access to a per-interface counter type.
pub trait Getters {
    /// The mathematical state of the owned counter set.
    spec fn counter_view(&self) -> CounterView;

    /// Wait-free read of every (label, count) pair, in table order.
    fn get_categories(&self) -> (rows: &Vec<(String, u32)>)
        ensures
            rows_view(rows@) == self.counter_view().rows,
    ;

    /// Wait-free read of the total.
    fn get_total(&self) -> (t: u32)
        ensures
            t == self.counter_view().total,
    ;
}

/// The category labels of the top-level interface tally, one per interface
/// name, in table order.
pub open spec fn interface_labels() -> Seq<Seq<char>> {
    seq![
        "object"@,
        "window"@,
        "document"@,
        "terminal"@,
        "mouse"@,
        "keyboard"@,
        "listener"@,
        "cache"@,
        "focus"@,
        "available"@,
    ]
}

/// The label table of the top-level interface tally, as stored strings.
pub fn interface_label_vec() -> (v: Vec<String>)
    ensures
        seq_labels(v@) == interface_labels(),
{
    let mut v: Vec<String> = Vec::new();
    v.push(String::from_str("object"));
    v.push(String::from_str("window"));
    v.push(String::from_str("document"));
    v.push(String::from_str("terminal"));
    v.push(String::from_str("mouse"));
    v.push(String::from_str("keyboard"));
    v.push(String::from_str("listener"));
    v.push(String::from_str("cache"));
    v.push(String::from_str("focus"));
    v.push(String::from_str("available"));
    proof {
        assert(seq_labels(v@) =~= interface_labels());
    }
    v
}

/// The labels of the top-level interface tally are pairwise distinct.
pub proof fn lemma_interface_labels_distinct()
    ensures
        distinct_seqs(interface_labels()),
{
    reveal_strlit("object");
    reveal_strlit("window");
    reveal_strlit("document");
    reveal_strlit("terminal");
    reveal_strlit("mouse");
    reveal_strlit("keyboard");
    reveal_strlit("listener");
    reveal_strlit("cache");
    reveal_strlit("focus");
    reveal_strlit("available");
    assert("available"@.len() == 9);
    assert("cache"@.len() == 5);
    assert("document"@.len() == 8);
    assert("focus"@.len() == 5);
    assert("keyboard"@.len() == 8);
    assert("listener"@.len() == 8);
    assert("mouse"@.len() == 5);
    assert("object"@.len() == 6);
    assert("terminal"@.len() == 8);
    assert("window"@.len() == 6);
    assert("cache"@[0] == 'c');
    assert("document"@[0] == 'd');
    assert("focus"@[0] == 'f');
    assert("keyboard"@[0] == 'k');
    assert("listener"@[0] == 'l');
    assert("mouse"@[0] == 'm');
    assert("object"@[0] == 'o');
    assert("terminal"@[0] == 't');
    assert("window"@[0] == 'w');
    assert("object"@ != "window"@);
    assert("object"@ != "document"@);
    assert("object"@ != "terminal"@);
    assert("object"@ != "mouse"@);
    assert("object"@ != "keyboard"@);
    assert("object"@ != "listener"@);
    assert("object"@ != "cache"@);
    assert("object"@ != "focus"@);
    assert("object"@ != "available"@);
    assert("window"@ != "document"@);
    assert("window"@ != "terminal"@);
    assert("window"@ != "mouse"@);
    assert("window"@ != "keyboard"@);
    assert("window"@ != "listener"@);
    assert("window"@ != "cache"@);
    assert("window"@ != "focus"@);
    assert("window"@ != "available"@);
    assert("document"@ != "terminal"@);
    assert("document"@ != "mouse"@);
    assert("document"@ != "keyboard"@);
    assert("document"@ != "listener"@);
    assert("document"@ != "cache"@);
    assert("document"@ != "focus"@);
    assert("document"@ != "available"@);
    assert("terminal"@ != "mouse"@);
    assert("terminal"@ != "keyboard"@);
    assert("terminal"@ != "listener"@);
    assert("terminal"@ != "cache"@);
    assert("terminal"@ != "focus"@);
    assert("terminal"@ != "available"@);
    assert("mouse"@ != "keyboard"@);
    assert("mouse"@ != "listener"@);
    assert("mouse"@ != "cache"@);
    assert("mouse"@ != "focus"@);
    assert("mouse"@ != "available"@);
    assert("keyboard"@ != "listener"@);
    assert("keyboard"@ != "cache"@);
    assert("keyboard"@ != "focus"@);
    assert("keyboard"@ != "available"@);
    assert("listener"@ != "cache"@);
    assert("listener"@ != "focus"@);
    assert("listener"@ != "available"@);
    assert("cache"@ != "focus"@);
    assert("cache"@ != "available"@);
    assert("focus"@ != "available"@);
    assert(distinct_seqs(interface_labels()));
}

/// The counter set of the top-level interface tally: it counts events by
/// interface membership, not by sub-category.
pub struct InterfaceCount {
    pub counters: CounterSet,
}

impl InterfaceCount {
    /// Builds the counter set of the top-level interface tally, all counters
/// at zero.
    pub fn new() -> (s: Self)
        ensures
            s.counters@ == fresh_view(interface_labels()),
            s.counters.wf(),
    {
        match CounterSet::new(interface_label_vec()) {
            Ok(counters) => InterfaceCount { counters },
            Err(_) => {
                proof {
                    lemma_interface_labels_distinct();
                }
                vstd::pervasive::unreached()
            },
        }
    }

    /// Counts one event tagged `category` (see `CounterSet::increment`).
    pub fn increment(&mut self, category: &str)
        ensures
            final(self).counters@ == spec_increment(old(self).counters@, category@),
            old(self).counters.wf() ==> final(self).counters.wf(),
    {
        self.counters.increment(category);
    }
}

impl Getters for InterfaceCount {
    open spec fn counter_view(&self) -> CounterView {
        self.counters@
    }

    fn get_categories(&self) -> (rows: &Vec<(String, u32)>) {
        self.counters.read_categories()
    }

    fn get_total(&self) -> (t: u32) {
        self.counters.read_total()
    }
}

/// The category labels of the object interface, in table order.
pub open spec fn object_labels() -> Seq<Seq<char>> {
    seq![
        "property-change"@,
        "bounds-changed"@,
        "link-selected"@,
        "state-changed"@,
        "children-changed"@,
        "visible-data-changed"@,
        "selection-changed"@,
        "model-changed"@,
        "active-descendant-changed"@,
        "announcement"@,
        "attributes-changed"@,
        "row-inserted"@,
        "row-reordered"@,
        "row-deleted"@,
        "column-inserted"@,
        "column-reordered"@,
        "column-deleted"@,
        "text-bounds-changed"@,
        "text-selection-changed"@,
        "text-changed"@,
        "text-attributes-changed"@,
        "text-caret-moved"@,
    ]
}

/// The label table of the object interface, as stored strings.
pub fn object_label_vec() -> (v: Vec<String>)
    ensures
        seq_labels(v@) == object_labels(),
{
    let mut v: Vec<String> = Vec::new();
    v.push(String::from_str("property-change"));
    v.push(String::from_str("bounds-changed"));
    v.push(String::from_str("link-selected"));
    v.push(String::from_str("state-changed"));
    v.push(String::from_str("children-changed"));
    v.push(String::from_str("visible-data-changed"));
    v.push(String::from_str("selection-changed"));
    v.push(String::from_str("model-changed"));
    v.push(String::from_str("active-descendant-changed"));
    v.push(String::from_str("announcement"));
    v.push(String::from_str("attributes-changed"));
    v.push(String::from_str("row-inserted"));
    v.push(String::from_str("row-reordered"));
    v.push(String::from_str("row-deleted"));
    v.push(String::from_str("column-inserted"));
    v.push(String::from_str("column-reordered"));
    v.push(String::from_str("column-deleted"));
    v.push(String::from_str("text-bounds-changed"));
    v.push(String::from_str("text-selection-changed"));
    v.push(String::from_str("text-changed"));
    v.push(String::from_str("text-attributes-changed"));
    v.push(String::from_str("text-caret-moved"));
    proof {
        assert(seq_labels(v@) =~= object_labels());
    }
    v
}

/// The labels of the object interface are pairwise distinct.
pub proof fn lemma_object_labels_distinct()
    ensures
        distinct_seqs(object_labels()),
{
    reveal_strlit("property-change");
    reveal_strlit("bounds-changed");
    reveal_strlit("link-selected");
    reveal_strlit("state-changed");
    reveal_strlit("children-changed");
    reveal_strlit("visible-data-changed");
    reveal_strlit("selection-changed");
    reveal_strlit("model-changed");
    reveal_strlit("active-descendant-changed");
    reveal_strlit("announcement");
    reveal_strlit("attributes-changed");
    reveal_strlit("row-inserted");
    reveal_strlit("row-reordered");
    reveal_strlit("row-deleted");
    reveal_strlit("column-inserted");
    reveal_strlit("column-reordered");
    reveal_strlit("column-deleted");
    reveal_strlit("text-bounds-changed");
    reveal_strlit("text-selection-changed");
    reveal_strlit("text-changed");
    reveal_strlit("text-attributes-changed");
    reveal_strlit("text-caret-moved");
    assert("active-descendant-changed"@.len() == 25);
    assert("announcement"@.len() == 12);
    assert("attributes-changed"@.len() == 18);
    assert("bounds-changed"@.len() == 14);
    assert("children-changed"@.len() == 16);
    assert("column-deleted"@.len() == 14);
    assert("column-inserted"@.len() == 15);
    assert("column-reordered"@.len() == 16);
    assert("link-selected"@.len() == 13);
    assert("model-changed"@.len() == 13);
    assert("property-change"@.len() == 15);
    assert("row-deleted"@.len() == 11);
    assert("row-inserted"@.len() == 12);
    assert("row-reordered"@.len() == 13);
    assert("selection-changed"@.len() == 17);
    assert("state-changed"@.len() == 13);
    assert("text-attributes-changed"@.len() == 23);
    assert("text-bounds-changed"@.len() == 19);
    assert("text-caret-moved"@.len() == 16);
    assert("text-changed"@.len() == 12);
    assert("text-selection-changed"@.len() == 22);
    assert("visible-data-changed"@.len() == 20);
    assert("announcement"@[0] == 'a');
    assert("bounds-changed"@[0] == 'b');
    assert("children-changed"@[0] == 'c');
    assert("children-changed"@[1] == 'h');
    assert("column-deleted"@[0] == 'c');
    assert("column-inserted"@[0] == 'c');
    assert("column-reordered"@[0] == 'c');
    assert("column-reordered"@[1] == 'o');
    assert("link-selected"@[0] == 'l');
    assert("model-changed"@[0] == 'm');
    assert("property-change"@[0] == 'p');
    assert("row-inserted"@[0] == 'r');
    assert("row-reordered"@[0] == 'r');
    assert("state-changed"@[0] == 's');
    assert("text-caret-moved"@[0] == 't');
    assert("text-changed"@[0] == 't');
    assert("property-change"@ != "bounds-changed"@);
    assert("property-change"@ != "link-selected"@);
    assert("property-change"@ != "state-changed"@);
    assert("property-change"@ != "children-changed"@);
    assert("property-change"@ != "visible-data-changed"@);
    assert("property-change"@ != "selection-changed"@);
    assert("property-change"@ != "model-changed"@);
    assert("property-change"@ != "active-descendant-changed"@);
    assert("property-change"@ != "announcement"@);
    assert("property-change"@ != "attributes-changed"@);
    assert("property-change"@ != "row-inserted"@);
    assert("property-change"@ != "row-reordered"@);
    assert("property-change"@ != "row-deleted"@);
    assert("property-change"@ != "column-inserted"@);
    assert("property-change"@ != "column-reordered"@);
    assert("property-change"@ != "column-deleted"@);
    assert("property-change"@ != "text-bounds-changed"@);
    assert("property-change"@ != "text-selection-changed"@);
    assert("property-change"@ != "text-changed"@);
    assert("property-change"@ != "text-attributes-changed"@);
    assert("property-change"@ != "text-caret-moved"@);
    assert("bounds-changed"@ != "link-selected"@);
    assert("bounds-changed"@ != "state-changed"@);
    assert("bounds-changed"@ != "children-changed"@);
    assert("bounds-changed"@ != "visible-data-changed"@);
    assert("bounds-changed"@ != "selection-changed"@);
    assert("bounds-changed"@ != "model-changed"@);
    assert("bounds-changed"@ != "active-descendant-changed"@);
    assert("bounds-changed"@ != "announcement"@);
    assert("bounds-changed"@ != "attributes-changed"@);
    assert("bounds-changed"@ != "row-inserted"@);
    assert("bounds-changed"@ != "row-reordered"@);
    assert("bounds-changed"@ != "row-deleted"@);
    assert("bounds-changed"@ != "column-inserted"@);
    assert("bounds-changed"@ != "column-reordered"@);
    assert("bounds-changed"@ != "column-deleted"@);
    assert("bounds-changed"@ != "text-bounds-changed"@);
    assert("bounds-changed"@ != "text-selection-changed"@);
    assert("bounds-changed"@ != "text-changed"@);
    assert("bounds-changed"@ != "text-attributes-changed"@);
    assert("bounds-changed"@ != "text-caret-moved"@);
    assert("link-selected"@ != "state-changed"@);
    assert("link-selected"@ != "children-changed"@);
    assert("link-selected"@ != "visible-data-changed"@);
    assert("link-selected"@ != "selection-changed"@);
    assert("link-selected"@ != "model-changed"@);
    assert("link-selected"@ != "active-descendant-changed"@);
    assert("link-selected"@ != "announcement"@);
    assert("link-selected"@ != "attributes-changed"@);
    assert("link-selected"@ != "row-inserted"@);
    assert("link-selected"@ != "row-reordered"@);
    assert("link-selected"@ != "row-deleted"@);
    assert("link-selected"@ != "column-inserted"@);
    assert("link-selected"@ != "column-reordered"@);
    assert("link-selected"@ != "column-deleted"@);
    assert("link-selected"@ != "text-bounds-changed"@);
    assert("link-selected"@ != "text-selection-changed"@);
    assert("link-selected"@ != "text-changed"@);
    assert("link-selected"@ != "text-attributes-changed"@);
    assert("link-selected"@ != "text-caret-moved"@);
    assert("state-changed"@ != "children-changed"@);
    assert("state-changed"@ != "visible-data-changed"@);
    assert("state-changed"@ != "selection-changed"@);
    assert("state-changed"@ != "model-changed"@);
    assert("state-changed"@ != "active-descendant-changed"@);
    assert("state-changed"@ != "announcement"@);
    assert("state-changed"@ != "attributes-changed"@);
    assert("state-changed"@ != "row-inserted"@);
    assert("state-changed"@ != "row-reordered"@);
    assert("state-changed"@ != "row-deleted"@);
    assert("state-changed"@ != "column-inserted"@);
    assert("state-changed"@ != "column-reordered"@);
    assert("state-changed"@ != "column-deleted"@);
    assert("state-changed"@ != "text-bounds-changed"@);
    assert("state-changed"@ != "text-selection-changed"@);
    assert("state-changed"@ != "text-changed"@);
    assert("state-changed"@ != "text-attributes-changed"@);
    assert("state-changed"@ != "text-caret-moved"@);
    assert("children-changed"@ != "visible-data-changed"@);
    assert("children-changed"@ != "selection-changed"@);
    assert("children-changed"@ != "model-changed"@);
    assert("children-changed"@ != "active-descendant-changed"@);
    assert("children-changed"@ != "announcement"@);
    assert("children-changed"@ != "attributes-changed"@);
    assert("children-changed"@ != "row-inserted"@);
    assert("children-changed"@ != "row-reordered"@);
    assert("children-changed"@ != "row-deleted"@);
    assert("children-changed"@ != "column-inserted"@);
    assert("children-changed"@ != "column-reordered"@);
    assert("children-changed"@ != "column-deleted"@);
    assert("children-changed"@ != "text-bounds-changed"@);
    assert("children-changed"@ != "text-selection-changed"@);
    assert("children-changed"@ != "text-changed"@);
    assert("children-changed"@ != "text-attributes-changed"@);
    assert("children-changed"@ != "text-caret-moved"@);
    assert("visible-data-changed"@ != "selection-changed"@);
    assert("visible-data-changed"@ != "model-changed"@);
    assert("visible-data-changed"@ != "active-descendant-changed"@);
    assert("visible-data-changed"@ != "announcement"@);
    assert("visible-data-changed"@ != "attributes-changed"@);
    assert("visible-data-changed"@ != "row-inserted"@);
    assert("visible-data-changed"@ != "row-reordered"@);
    assert("visible-data-changed"@ != "row-deleted"@);
    assert("visible-data-changed"@ != "column-inserted"@);
    assert("visible-data-changed"@ != "column-reordered"@);
    assert("visible-data-changed"@ != "column-deleted"@);
    assert("visible-data-changed"@ != "text-bounds-changed"@);
    assert("visible-data-changed"@ != "text-selection-changed"@);
    assert("visible-data-changed"@ != "text-changed"@);
    assert("visible-data-changed"@ != "text-attributes-changed"@);
    assert("visible-data-changed"@ != "text-caret-moved"@);
    assert("selection-changed"@ != "model-changed"@);
    assert("selection-changed"@ != "active-descendant-changed"@);
    assert("selection-changed"@ != "announcement"@);
    assert("selection-changed"@ != "attributes-changed"@);
    assert("selection-changed"@ != "row-inserted"@);
    assert("selection-changed"@ != "row-reordered"@);
    assert("selection-changed"@ != "row-deleted"@);
    assert("selection-changed"@ != "column-inserted"@);
    assert("selection-changed"@ != "column-reordered"@);
    assert("selection-changed"@ != "column-deleted"@);
    assert("selection-changed"@ != "text-bounds-changed"@);
    assert("selection-changed"@ != "text-selection-changed"@);
    assert("selection-changed"@ != "text-changed"@);
    assert("selection-changed"@ != "text-attributes-changed"@);
    assert("selection-changed"@ != "text-caret-moved"@);
    assert("model-changed"@ != "active-descendant-changed"@);
    assert("model-changed"@ != "announcement"@);
    assert("model-changed"@ != "attributes-changed"@);
    assert("model-changed"@ != "row-inserted"@);
    assert("model-changed"@ != "row-reordered"@);
    assert("model-changed"@ != "row-deleted"@);
    assert("model-changed"@ != "column-inserted"@);
    assert("model-changed"@ != "column-reordered"@);
    assert("model-changed"@ != "column-deleted"@);
    assert("model-changed"@ != "text-bounds-changed"@);
    assert("model-changed"@ != "text-selection-changed"@);
    assert("model-changed"@ != "text-changed"@);
    assert("model-changed"@ != "text-attributes-changed"@);
    assert("model-changed"@ != "text-caret-moved"@);
    assert("active-descendant-changed"@ != "announcement"@);
    assert("active-descendant-changed"@ != "attributes-changed"@);
    assert("active-descendant-changed"@ != "row-inserted"@);
    assert("active-descendant-changed"@ != "row-reordered"@);
    assert("active-descendant-changed"@ != "row-deleted"@);
    assert("active-descendant-changed"@ != "column-inserted"@);
    assert("active-descendant-changed"@ != "column-reordered"@);
    assert("active-descendant-changed"@ != "column-deleted"@);
    assert("active-descendant-changed"@ != "text-bounds-changed"@);
    assert("active-descendant-changed"@ != "text-selection-changed"@);
    assert("active-descendant-changed"@ != "text-changed"@);
    assert("active-descendant-changed"@ != "text-attributes-changed"@);
    assert("active-descendant-changed"@ != "text-caret-moved"@);
    assert("announcement"@ != "attributes-changed"@);
    assert("announcement"@ != "row-inserted"@);
    assert("announcement"@ != "row-reordered"@);
    assert("announcement"@ != "row-deleted"@);
    assert("announcement"@ != "column-inserted"@);
    assert("announcement"@ != "column-reordered"@);
    assert("announcement"@ != "column-deleted"@);
    assert("announcement"@ != "text-bounds-changed"@);
    assert("announcement"@ != "text-selection-changed"@);
    assert("announcement"@ != "text-changed"@);
    assert("announcement"@ != "text-attributes-changed"@);
    assert("announcement"@ != "text-caret-moved"@);
    assert("attributes-changed"@ != "row-inserted"@);
    assert("attributes-changed"@ != "row-reordered"@);
    assert("attributes-changed"@ != "row-deleted"@);
    assert("attributes-changed"@ != "column-inserted"@);
    assert("attributes-changed"@ != "column-reordered"@);
    assert("attributes-changed"@ != "column-deleted"@);
    assert("attributes-changed"@ != "text-bounds-changed"@);
    assert("attributes-changed"@ != "text-selection-changed"@);
    assert("attributes-changed"@ != "text-changed"@);
    assert("attributes-changed"@ != "text-attributes-changed"@);
    assert("attributes-changed"@ != "text-caret-moved"@);
    assert("row-inserted"@ != "row-reordered"@);
    assert("row-inserted"@ != "row-deleted"@);
    assert("row-inserted"@ != "column-inserted"@);
    assert("row-inserted"@ != "column-reordered"@);
    assert("row-inserted"@ != "column-deleted"@);
    assert("row-inserted"@ != "text-bounds-changed"@);
    assert("row-inserted"@ != "text-selection-changed"@);
    assert("row-inserted"@ != "text-changed"@);
    assert("row-inserted"@ != "text-attributes-changed"@);
    assert("row-inserted"@ != "text-caret-moved"@);
    assert("row-reordered"@ != "row-deleted"@);
    assert("row-reordered"@ != "column-inserted"@);
    assert("row-reordered"@ != "column-reordered"@);
    assert("row-reordered"@ != "column-deleted"@);
    assert("row-reordered"@ != "text-bounds-changed"@);
    assert("row-reordered"@ != "text-selection-changed"@);
    assert("row-reordered"@ != "text-changed"@);
    assert("row-reordered"@ != "text-attributes-changed"@);
    assert("row-reordered"@ != "text-caret-moved"@);
    assert("row-deleted"@ != "column-inserted"@);
    assert("row-deleted"@ != "column-reordered"@);
    assert("row-deleted"@ != "column-deleted"@);
    assert("row-deleted"@ != "text-bounds-changed"@);
    assert("row-deleted"@ != "text-selection-changed"@);
    assert("row-deleted"@ != "text-changed"@);
    assert("row-deleted"@ != "text-attributes-changed"@);
    assert("row-deleted"@ != "text-caret-moved"@);
    assert("column-inserted"@ != "column-reordered"@);
    assert("column-inserted"@ != "column-deleted"@);
    assert("column-inserted"@ != "text-bounds-changed"@);
    assert("column-inserted"@ != "text-selection-changed"@);
    assert("column-inserted"@ != "text-changed"@);
    assert("column-inserted"@ != "text-attributes-changed"@);
    assert("column-inserted"@ != "text-caret-moved"@);
    assert("column-reordered"@ != "column-deleted"@);
    assert("column-reordered"@ != "text-bounds-changed"@);
    assert("column-reordered"@ != "text-selection-changed"@);
    assert("column-reordered"@ != "text-changed"@);
    assert("column-reordered"@ != "text-attributes-changed"@);
    assert("column-reordered"@ != "text-caret-moved"@);
    assert("column-deleted"@ != "text-bounds-changed"@);
    assert("column-deleted"@ != "text-selection-changed"@);
    assert("column-deleted"@ != "text-changed"@);
    assert("column-deleted"@ != "text-attributes-changed"@);
    assert("column-deleted"@ != "text-caret-moved"@);
    assert("text-bounds-changed"@ != "text-selection-changed"@);
    assert("text-bounds-changed"@ != "text-changed"@);
    assert("text-bounds-changed"@ != "text-attributes-changed"@);
    assert("text-bounds-changed"@ != "text-caret-moved"@);
    assert("text-selection-changed"@ != "text-changed"@);
    assert("text-selection-changed"@ != "text-attributes-changed"@);
    assert("text-selection-changed"@ != "text-caret-moved"@);
    assert("text-changed"@ != "text-attributes-changed"@);
    assert("text-changed"@ != "text-caret-moved"@);
    assert("text-attributes-changed"@ != "text-caret-moved"@);
    assert(distinct_seqs(object_labels()));
}

/// The counter set of the object interface.
pub struct ObjectCount {
    pub counters: CounterSet,
}

impl ObjectCount {
    /// Builds the counter set of the object interface, all counters at zero.
    pub fn new() -> (s: Self)
        ensures
            s.counters@ == fresh_view(object_labels()),
            s.counters.wf(),
    {
        match CounterSet::new(object_label_vec()) {
            Ok(counters) => ObjectCount { counters },
            Err(_) => {
                proof {
                    lemma_object_labels_distinct();
                }
                vstd::pervasive::unreached()
            },
        }
    }

    /// Counts one event tagged `category` (see `CounterSet::increment`).
    pub fn increment(&mut self, category: &str)
        ensures
            final(self).counters@ == spec_increment(old(self).counters@, category@),
            old(self).counters.wf() ==> final(self).counters.wf(),
    {
        self.counters.increment(category);
    }
}

impl Getters for ObjectCount {
    open spec fn counter_view(&self) -> CounterView {
        self.counters@
    }

    fn get_categories(&self) -> (rows: &Vec<(String, u32)>) {
        self.counters.read_categories()
    }

    fn get_total(&self) -> (t: u32) {
        self.counters.read_total()
    }
}

/// The category labels of the window interface, in table order.
pub open spec fn window_labels() -> Seq<Seq<char>> {
    seq![
        "property-change"@,
        "minimize"@,
        "maximize"@,
        "restore"@,
        "close"@,
        "create"@,
        "reparent"@,
        "desktop-create"@,
        "desktop-destroy"@,
        "destroy"@,
        "activate"@,
        "deactivate"@,
        "raise"@,
        "lower"@,
        "move"@,
        "resize"@,
        "shade"@,
        "uushade"@,
        "restyle"@,
    ]
}

/// The label table of the window interface, as stored strings.
pub fn window_label_vec() -> (v: Vec<String>)
    ensures
        seq_labels(v@) == window_labels(),
{
    let mut v: Vec<String> = Vec::new();
    v.push(String::from_str("property-change"));
    v.push(String::from_str("minimize"));
    v.push(String::from_str("maximize"));
    v.push(String::from_str("restore"));
    v.push(String::from_str("close"));
    v.push(String::from_str("create"));
    v.push(String::from_str("reparent"));
    v.push(String::from_str("desktop-create"));
    v.push(String::from_str("desktop-destroy"));
    v.push(String::from_str("destroy"));
    v.push(String::from_str("activate"));
    v.push(String::from_str("deactivate"));
    v.push(String::from_str("raise"));
    v.push(String::from_str("lower"));
    v.push(String::from_str("move"));
    v.push(String::from_str("resize"));
    v.push(String::from_str("shade"));
    v.push(String::from_str("uushade"));
    v.push(String::from_str("restyle"));
    proof {
        assert(seq_labels(v@) =~= window_labels());
    }
    v
}

/// The labels of the window interface are pairwise distinct.
pub proof fn lemma_window_labels_distinct()
    ensures
        distinct_seqs(window_labels()),
{
    reveal_strlit("property-change");
    reveal_strlit("minimize");
    reveal_strlit("maximize");
    reveal_strlit("restore");
    reveal_strlit("close");
    reveal_strlit("create");
    reveal_strlit("reparent");
    reveal_strlit("desktop-create");
    reveal_strlit("desktop-destroy");
    reveal_strlit("destroy");
    reveal_strlit("activate");
    reveal_strlit("deactivate");
    reveal_strlit("raise");
    reveal_strlit("lower");
    reveal_strlit("move");
    reveal_strlit("resize");
    reveal_strlit("shade");
    reveal_strlit("uushade");
    reveal_strlit("restyle");
    assert("activate"@.len() == 8);
    assert("close"@.len() == 5);
    assert("create"@.len() == 6);
    assert("deactivate"@.len() == 10);
    assert("desktop-create"@.len() == 14);
    assert("desktop-destroy"@.len() == 15);
    assert("destroy"@.len() == 7);
    assert("lower"@.len() == 5);
    assert("maximize"@.len() == 8);
    assert("minimize"@.len() == 8);
    assert("move"@.len() == 4);
    assert("property-change"@.len() == 15);
    assert("raise"@.len() == 5);
    assert("reparent"@.len() == 8);
    assert("resize"@.len() == 6);
    assert("restore"@.len() == 7);
    assert("restyle"@.len() == 7);
    assert("shade"@.len() == 5);
    assert("uushade"@.len() == 7);
    assert("activate"@[0] == 'a');
    assert("close"@[0] == 'c');
    assert("create"@[0] == 'c');
    assert("desktop-destroy"@[0] == 'd');
    assert("destroy"@[0] == 'd');
    assert("lower"@[0] == 'l');
    assert("maximize"@[0] == 'm');
    assert("maximize"@[1] == 'a');
    assert("minimize"@[0] == 'm');
    assert("minimize"@[1] == 'i');
    assert("property-change"@[0] == 'p');
    assert("raise"@[0] == 'r');
    assert("reparent"@[0] == 'r');
    assert("resize"@[0] == 'r');
    assert("restore"@[0] == 'r');
    assert("restore"@[4] == 'o');
    assert("restyle"@[0] == 'r');
    assert("restyle"@[4] == 'y');
    assert("shade"@[0] == 's');
    assert("uushade"@[0] == 'u');
    assert("property-change"@ != "minimize"@);
    assert("property-change"@ != "maximize"@);
    assert("property-change"@ != "restore"@);
    assert("property-change"@ != "close"@);
    assert("property-change"@ != "create"@);
    assert("property-change"@ != "reparent"@);
    assert("property-change"@ != "desktop-create"@);
    assert("property-change"@ != "desktop-destroy"@);
    assert("property-change"@ != "destroy"@);
    assert("property-change"@ != "activate"@);
    assert("property-change"@ != "deactivate"@);
    assert("property-change"@ != "raise"@);
    assert("property-change"@ != "lower"@);
    assert("property-change"@ != "move"@);
    assert("property-change"@ != "resize"@);
    assert("property-change"@ != "shade"@);
    assert("property-change"@ != "uushade"@);
    assert("property-change"@ != "restyle"@);
    assert("minimize"@ != "maximize"@);
    assert("minimize"@ != "restore"@);
    assert("minimize"@ != "close"@);
    assert("minimize"@ != "create"@);
    assert("minimize"@ != "reparent"@);
    assert("minimize"@ != "desktop-create"@);
    assert("minimize"@ != "desktop-destroy"@);
    assert("minimize"@ != "destroy"@);
    assert("minimize"@ != "activate"@);
    assert("minimize"@ != "deactivate"@);
    assert("minimize"@ != "raise"@);
    assert("minimize"@ != "lower"@);
    assert("minimize"@ != "move"@);
    assert("minimize"@ != "resize"@);
    assert("minimize"@ != "shade"@);
    assert("minimize"@ != "uushade"@);
    assert("minimize"@ != "restyle"@);
    assert("maximize"@ != "restore"@);
    assert("maximize"@ != "close"@);
    assert("maximize"@ != "create"@);
    assert("maximize"@ != "reparent"@);
    assert("maximize"@ != "desktop-create"@);
    assert("maximize"@ != "desktop-destroy"@);
    assert("maximize"@ != "destroy"@);
    assert("maximize"@ != "activate"@);
    assert("maximize"@ != "deactivate"@);
    assert("maximize"@ != "raise"@);
    assert("maximize"@ != "lower"@);
    assert("maximize"@ != "move"@);
    assert("maximize"@ != "resize"@);
    assert("maximize"@ != "shade"@);
    assert("maximize"@ != "uushade"@);
    assert("maximize"@ != "restyle"@);
    assert("restore"@ != "close"@);
    assert("restore"@ != "create"@);
    assert("restore"@ != "reparent"@);
    assert("restore"@ != "desktop-create"@);
    assert("restore"@ != "desktop-destroy"@);
    assert("restore"@ != "destroy"@);
    assert("restore"@ != "activate"@);
    assert("restore"@ != "deactivate"@);
    assert("restore"@ != "raise"@);
    assert("restore"@ != "lower"@);
    assert("restore"@ != "move"@);
    assert("restore"@ != "resize"@);
    assert("restore"@ != "shade"@);
    assert("restore"@ != "uushade"@);
    assert("restore"@ != "restyle"@);
    assert("close"@ != "create"@);
    assert("close"@ != "reparent"@);
    assert("close"@ != "desktop-create"@);
    assert("close"@ != "desktop-destroy"@);
    assert("close"@ != "destroy"@);
    assert("close"@ != "activate"@);
    assert("close"@ != "deactivate"@);
    assert("close"@ != "raise"@);
    assert("close"@ != "lower"@);
    assert("close"@ != "move"@);
    assert("close"@ != "resize"@);
    assert("close"@ != "shade"@);
    assert("close"@ != "uushade"@);
    assert("close"@ != "restyle"@);
    assert("create"@ != "reparent"@);
    assert("create"@ != "desktop-create"@);
    assert("create"@ != "desktop-destroy"@);
    assert("create"@ != "destroy"@);
    assert("create"@ != "activate"@);
    assert("create"@ != "deactivate"@);
    assert("create"@ != "raise"@);
    assert("create"@ != "lower"@);
    assert("create"@ != "move"@);
    assert("create"@ != "resize"@);
    assert("create"@ != "shade"@);
    assert("create"@ != "uushade"@);
    assert("create"@ != "restyle"@);
    assert("reparent"@ != "desktop-create"@);
    assert("reparent"@ != "desktop-destroy"@);
    assert("reparent"@ != "destroy"@);
    assert("reparent"@ != "activate"@);
    assert("reparent"@ != "deactivate"@);
    assert("reparent"@ != "raise"@);
    assert("reparent"@ != "lower"@);
    assert("reparent"@ != "move"@);
    assert("reparent"@ != "resize"@);
    assert("reparent"@ != "shade"@);
    assert("reparent"@ != "uushade"@);
    assert("reparent"@ != "restyle"@);
    assert("desktop-create"@ != "desktop-destroy"@);
    assert("desktop-create"@ != "destroy"@);
    assert("desktop-create"@ != "activate"@);
    assert("desktop-create"@ != "deactivate"@);
    assert("desktop-create"@ != "raise"@);
    assert("desktop-create"@ != "lower"@);
    assert("desktop-create"@ != "move"@);
    assert("desktop-create"@ != "resize"@);
    assert("desktop-create"@ != "shade"@);
    assert("desktop-create"@ != "uushade"@);
    assert("desktop-create"@ != "restyle"@);
    assert("desktop-destroy"@ != "destroy"@);
    assert("desktop-destroy"@ != "activate"@);
    assert("desktop-destroy"@ != "deactivate"@);
    assert("desktop-destroy"@ != "raise"@);
    assert("desktop-destroy"@ != "lower"@);
    assert("desktop-destroy"@ != "move"@);
    assert("desktop-destroy"@ != "resize"@);
    assert("desktop-destroy"@ != "shade"@);
    assert("desktop-destroy"@ != "uushade"@);
    assert("desktop-destroy"@ != "restyle"@);
    assert("destroy"@ != "activate"@);
    assert("destroy"@ != "deactivate"@);
    assert("destroy"@ != "raise"@);
    assert("destroy"@ != "lower"@);
    assert("destroy"@ != "move"@);
    assert("destroy"@ != "resize"@);
    assert("destroy"@ != "shade"@);
    assert("destroy"@ != "uushade"@);
    assert("destroy"@ != "restyle"@);
    assert("activate"@ != "deactivate"@);
    assert("activate"@ != "raise"@);
    assert("activate"@ != "lower"@);
    assert("activate"@ != "move"@);
    assert("activate"@ != "resize"@);
    assert("activate"@ != "shade"@);
    assert("activate"@ != "uushade"@);
    assert("activate"@ != "restyle"@);
    assert("deactivate"@ != "raise"@);
    assert("deactivate"@ != "lower"@);
    assert("deactivate"@ != "move"@);
    assert("deactivate"@ != "resize"@);
    assert("deactivate"@ != "shade"@);
    assert("deactivate"@ != "uushade"@);
    assert("deactivate"@ != "restyle"@);
    assert("raise"@ != "lower"@);
    assert("raise"@ != "move"@);
    assert("raise"@ != "resize"@);
    assert("raise"@ != "shade"@);
    assert("raise"@ != "uushade"@);
    assert("raise"@ != "restyle"@);
    assert("lower"@ != "move"@);
    assert("lower"@ != "resize"@);
    assert("lower"@ != "shade"@);
    assert("lower"@ != "uushade"@);
    assert("lower"@ != "restyle"@);
    assert("move"@ != "resize"@);
    assert("move"@ != "shade"@);
    assert("move"@ != "uushade"@);
    assert("move"@ != "restyle"@);
    assert("resize"@ != "shade"@);
    assert("resize"@ != "uushade"@);
    assert("resize"@ != "restyle"@);
    assert("shade"@ != "uushade"@);
    assert("shade"@ != "restyle"@);
    assert("uushade"@ != "restyle"@);
    assert(distinct_seqs(window_labels()));
}

/// The counter set of the window interface.
pub struct WindowCount {
    pub counters: CounterSet,
}

impl WindowCount {
    /// Builds the counter set of the window interface, all counters at zero.
    pub fn new() -> (s: Self)
        ensures
            s.counters@ == fresh_view(window_labels()),
            s.counters.wf(),
    {
        match CounterSet::new(window_label_vec()) {
            Ok(counters) => WindowCount { counters },
            Err(_) => {
                proof {
                    lemma_window_labels_distinct();
                }
                vstd::pervasive::unreached()
            },
        }
    }

    /// Counts one event tagged `category` (see `CounterSet::increment`).
    pub fn increment(&mut self, category: &str)
        ensures
            final(self).counters@ == spec_increment(old(self).counters@, category@),
            old(self).counters.wf() ==> final(self).counters.wf(),
    {
        self.counters.increment(category);
    }
}

impl Getters for WindowCount {
    open spec fn counter_view(&self) -> CounterView {
        self.counters@
    }

    fn get_categories(&self) -> (rows: &Vec<(String, u32)>) {
        self.counters.read_categories()
    }

    fn get_total(&self) -> (t: u32) {
        self.counters.read_total()
    }
}

/// The category labels of the terminal interface, in table order.
pub open spec fn terminal_labels() -> Seq<Seq<char>> {
    seq![
        "line-changed"@,
        "column-count-changed"@,
        "line-count-changed"@,
        "application-changed"@,
        "char-width-changed"@,
    ]
}

/// The label table of the terminal interface, as stored strings.
pub fn terminal_label_vec() -> (v: Vec<String>)
    ensures
        seq_labels(v@) == terminal_labels(),
{
    let mut v: Vec<String> = Vec::new();
    v.push(String::from_str("line-changed"));
    v.push(String::from_str("column-count-changed"));
    v.push(String::from_str("line-count-changed"));
    v.push(String::from_str("application-changed"));
    v.push(String::from_str("char-width-changed"));
    proof {
        assert(seq_labels(v@) =~= terminal_labels());
    }
    v
}

/// The labels of the terminal interface are pairwise distinct.
pub proof fn lemma_terminal_labels_distinct()
    ensures
        distinct_seqs(terminal_labels()),
{
    reveal_strlit("line-changed");
    reveal_strlit("column-count-changed");
    reveal_strlit("line-count-changed");
    reveal_strlit("application-changed");
    reveal_strlit("char-width-changed");
    assert("application-changed"@.len() == 19);
    assert("char-width-changed"@.len() == 18);
    assert("column-count-changed"@.len() == 20);
    assert("line-changed"@.len() == 12);
    assert("line-count-changed"@.len() == 18);
    assert("char-width-changed"@[0] == 'c');
    assert("line-count-changed"@[0] == 'l');
    assert("line-changed"@ != "column-count-changed"@);
    assert("line-changed"@ != "line-count-changed"@);
    assert("line-changed"@ != "application-changed"@);
    assert("line-changed"@ != "char-width-changed"@);
    assert("column-count-changed"@ != "line-count-changed"@);
    assert("column-count-changed"@ != "application-changed"@);
    assert("column-count-changed"@ != "char-width-changed"@);
    assert("line-count-changed"@ != "application-changed"@);
    assert("line-count-changed"@ != "char-width-changed"@);
    assert("application-changed"@ != "char-width-changed"@);
    assert(distinct_seqs(terminal_labels()));
}

/// The counter set of the terminal interface.
pub struct TerminalCount {
    pub counters: CounterSet,
}

impl TerminalCount {
    /// Builds the counter set of the terminal interface, all counters at zero.
    pub fn new() -> (s: Self)
        ensures
            s.counters@ == fresh_view(terminal_labels()),
            s.counters.wf(),
    {
        match CounterSet::new(terminal_label_vec()) {
            Ok(counters) => TerminalCount { counters },
            Err(_) => {
                proof {
                    lemma_terminal_labels_distinct();
                }
                vstd::pervasive::unreached()
            },
        }
    }

    /// Counts one event tagged `category` (see `CounterSet::increment`).
    pub fn increment(&mut self, category: &str)
        ensures
            final(self).counters@ == spec_increment(old(self).counters@, category@),
            old(self).counters.wf() ==> final(self).counters.wf(),
    {
        self.counters.increment(category);
    }
}

impl Getters for TerminalCount {
    open spec fn counter_view(&self) -> CounterView {
        self.counters@
    }

    fn get_categories(&self) -> (rows: &Vec<(String, u32)>) {
        self.counters.read_categories()
    }

    fn get_total(&self) -> (t: u32) {
        self.counters.read_total()
    }
}

/// The category labels of the mouse interface, in table order.
pub open spec fn mouse_labels() -> Seq<Seq<char>> {
    seq![
        "abs"@,
        "rel"@,
        "button"@,
    ]
}

/// The label table of the mouse interface, as stored strings.
pub fn mouse_label_vec() -> (v: Vec<String>)
    ensures
        seq_labels(v@) == mouse_labels(),
{
    let mut v: Vec<String> = Vec::new();
    v.push(String::from_str("abs"));
    v.push(String::from_str("rel"));
    v.push(String::from_str("button"));
    proof {
        assert(seq_labels(v@) =~= mouse_labels());
    }
    v
}

/// The labels of the mouse interface are pairwise distinct.
pub proof fn lemma_mouse_labels_distinct()
    ensures
        distinct_seqs(mouse_labels()),
{
    reveal_strlit("abs");
    reveal_strlit("rel");
    reveal_strlit("button");
    assert("abs"@.len() == 3);
    assert("button"@.len() == 6);
    assert("rel"@.len() == 3);
    assert("abs"@[0] == 'a');
    assert("rel"@[0] == 'r');
    assert("abs"@ != "rel"@);
    assert("abs"@ != "button"@);
    assert("rel"@ != "button"@);
    assert(distinct_seqs(mouse_labels()));
}

/// The counter set of the mouse interface.
pub struct MouseCount {
    pub counters: CounterSet,
}

impl MouseCount {
    /// Builds the counter set of the mouse interface, all counters at zero.
    pub fn new() -> (s: Self)
        ensures
            s.counters@ == fresh_view(mouse_labels()),
            s.counters.wf(),
    {
        match CounterSet::new(mouse_label_vec()) {
            Ok(counters) => MouseCount { counters },
            Err(_) => {
                proof {
                    lemma_mouse_labels_distinct();
                }
                vstd::pervasive::unreached()
            },
        }
    }

    /// Counts one event tagged `category` (see `CounterSet::increment`).
    pub fn increment(&mut self, category: &str)
        ensures
            final(self).counters@ == spec_increment(old(self).counters@, category@),
            old(self).counters.wf() ==> final(self).counters.wf(),
    {
        self.counters.increment(category);
    }
}

impl Getters for MouseCount {
    open spec fn counter_view(&self) -> CounterView {
        self.counters@
    }

    fn get_categories(&self) -> (rows: &Vec<(String, u32)>) {
        self.counters.read_categories()
    }

    fn get_total(&self) -> (t: u32) {
        self.counters.read_total()
    }
}

/// The category labels of the document interface, in table order.
pub open spec fn document_labels() -> Seq<Seq<char>> {
    seq![
        "load-complete"@,
        "reload"@,
        "load-stopped"@,
        "content-changed"@,
        "attributes-changed"@,
        "page-changed"@,
    ]
}

/// The label table of the document interface, as stored strings.
pub fn document_label_vec() -> (v: Vec<String>)
    ensures
        seq_labels(v@) == document_labels(),
{
    let mut v: Vec<String> = Vec::new();
    v.push(String::from_str("load-complete"));
    v.push(String::from_str("reload"));
    v.push(String::from_str("load-stopped"));
    v.push(String::from_str("content-changed"));
    v.push(String::from_str("attributes-changed"));
    v.push(String::from_str("page-changed"));
    proof {
        assert(seq_labels(v@) =~= document_labels());
    }
    v
}

/// The labels of the document interface are pairwise distinct.
pub proof fn lemma_document_labels_distinct()
    ensures
        distinct_seqs(document_labels()),
{
    reveal_strlit("load-complete");
    reveal_strlit("reload");
    reveal_strlit("load-stopped");
    reveal_strlit("content-changed");
    reveal_strlit("attributes-changed");
    reveal_strlit("page-changed");
    assert("attributes-changed"@.len() == 18);
    assert("content-changed"@.len() == 15);
    assert("load-complete"@.len() == 13);
    assert("load-stopped"@.len() == 12);
    assert("page-changed"@.len() == 12);
    assert("reload"@.len() == 6);
    assert("load-stopped"@[0] == 'l');
    assert("page-changed"@[0] == 'p');
    assert("load-complete"@ != "reload"@);
    assert("load-complete"@ != "load-stopped"@);
    assert("load-complete"@ != "content-changed"@);
    assert("load-complete"@ != "attributes-changed"@);
    assert("load-complete"@ != "page-changed"@);
    assert("reload"@ != "load-stopped"@);
    assert("reload"@ != "content-changed"@);
    assert("reload"@ != "attributes-changed"@);
    assert("reload"@ != "page-changed"@);
    assert("load-stopped"@ != "content-changed"@);
    assert("load-stopped"@ != "attributes-changed"@);
    assert("load-stopped"@ != "page-changed"@);
    assert("content-changed"@ != "attributes-changed"@);
    assert("content-changed"@ != "page-changed"@);
    assert("attributes-changed"@ != "page-changed"@);
    assert(distinct_seqs(document_labels()));
}

/// The counter set of the document interface.
pub struct DocumentCount {
    pub counters: CounterSet,
}

impl DocumentCount {
    /// Builds the counter set of the document interface, all counters at zero.
    pub fn new() -> (s: Self)
        ensures
            s.counters@ == fresh_view(document_labels()),
            s.counters.wf(),
    {
        match CounterSet::new(document_label_vec()) {
            Ok(counters) => DocumentCount { counters },
            Err(_) => {
                proof {
                    lemma_document_labels_distinct();
                }
                vstd::pervasive::unreached()
            },
        }
    }

    /// Counts one event tagged `category` (see `CounterSet::increment`).
    pub fn increment(&mut self, category: &str)
        ensures
            final(self).counters@ == spec_increment(old(self).counters@, category@),
            old(self).counters.wf() ==> final(self).counters.wf(),
    {
        self.counters.increment(category);
    }
}

impl Getters for DocumentCount {
    open spec fn counter_view(&self) -> CounterView {
        self.counters@
    }

    fn get_categories(&self) -> (rows: &Vec<(String, u32)>) {
        self.counters.read_categories()
    }

    fn get_total(&self) -> (t: u32) {
        self.counters.read_total()
    }
}

/// The category labels of the cache interface, in table order.
pub open spec fn cache_labels() -> Seq<Seq<char>> {
    seq![
        "add"@,
        "legacy-add"@,
        "remove"@,
    ]
}

/// The label table of the cache interface, as stored strings.
pub fn cache_label_vec() -> (v: Vec<String>)
    ensures
        seq_labels(v@) == cache_labels(),
{
    let mut v: Vec<String> = Vec::new();
    v.push(String::from_str("add"));
    v.push(String::from_str("legacy-add"));
    v.push(String::from_str("remove"));
    proof {
        assert(seq_labels(v@) =~= cache_labels());
    }
    v
}

/// The labels of the cache interface are pairwise distinct.
pub proof fn lemma_cache_labels_distinct()
    ensures
        distinct_seqs(cache_labels()),
{
    reveal_strlit("add");
    reveal_strlit("legacy-add");
    reveal_strlit("remove");
    assert("add"@.len() == 3);
    assert("legacy-add"@.len() == 10);
    assert("remove"@.len() == 6);
    assert("add"@ != "legacy-add"@);
    assert("add"@ != "remove"@);
    assert("legacy-add"@ != "remove"@);
    assert(distinct_seqs(cache_labels()));
}

/// The counter set of the cache interface.
pub struct CacheCount {
    pub counters: CounterSet,
}

impl CacheCount {
    /// Builds the counter set of the cache interface, all counters at zero.
    pub fn new() -> (s: Self)
        ensures
            s.counters@ == fresh_view(cache_labels()),
            s.counters.wf(),
    {
        match CounterSet::new(cache_label_vec()) {
            Ok(counters) => CacheCount { counters },
            Err(_) => {
                proof {
                    lemma_cache_labels_distinct();
                }
                vstd::pervasive::unreached()
            },
        }
    }

    /// Counts one event tagged `category` (see `CounterSet::increment`).
    pub fn increment(&mut self, category: &str)
        ensures
            final(self).counters@ == spec_increment(old(self).counters@, category@),
            old(self).counters.wf() ==> final(self).counters.wf(),
    {
        self.counters.increment(category);
    }
}

impl Getters for CacheCount {
    open spec fn counter_view(&self) -> CounterView {
        self.counters@
    }

    fn get_categories(&self) -> (rows: &Vec<(String, u32)>) {
        self.counters.read_categories()
    }

    fn get_total(&self) -> (t: u32) {
        self.counters.read_total()
    }
}

} // verus!
