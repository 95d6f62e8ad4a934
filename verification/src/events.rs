//! The closed event taxonomy and its classifier: every event variant maps to
//! exactly one category label of its interface's table, with no catch-all
//! branch, so extending the taxonomy without extending the classifier cannot
//! compile.

use vstd::prelude::*;

use crate::counters::spec_increment;
use crate::tables::{
    cache_labels, document_labels, interface_labels, mouse_labels, object_labels,
    terminal_labels, window_labels, CacheCount, DocumentCount, InterfaceCount, MouseCount,
    ObjectCount, TerminalCount, WindowCount,
};

verus! {

/// An event of the object interface, stripped to its classification tag.
#[derive(Clone, Copy, Debug, PartialEq, Eq, Structural)]
pub enum ObjectEvent {
    PropertyChange,
    BoundsChanged,
    LinkSelected,
    StateChanged,
    ChildrenChanged,
    VisibleDataChanged,
    SelectionChanged,
    ModelChanged,
    ActiveDescendantChanged,
    Announcement,
    AttributesChanged,
    RowInserted,
    RowReordered,
    RowDeleted,
    ColumnInserted,
    ColumnReordered,
    ColumnDeleted,
    TextBoundsChanged,
    TextSelectionChanged,
    TextChanged,
    TextAttributesChanged,
    TextCaretMoved,
}

/// The category label that a object event is classified under.
pub open spec fn object_event_label(ev: ObjectEvent) -> Seq<char> {
    match ev {
        ObjectEvent::PropertyChange => "property-change"@,
        ObjectEvent::BoundsChanged => "bounds-changed"@,
        ObjectEvent::LinkSelected => "link-selected"@,
        ObjectEvent::StateChanged => "state-changed"@,
        ObjectEvent::ChildrenChanged => "children-changed"@,
        ObjectEvent::VisibleDataChanged => "visible-data-changed"@,
        ObjectEvent::SelectionChanged => "selection-changed"@,
        ObjectEvent::ModelChanged => "model-changed"@,
        ObjectEvent::ActiveDescendantChanged => "active-descendant-changed"@,
        ObjectEvent::Announcement => "announcement"@,
        ObjectEvent::AttributesChanged => "attributes-changed"@,
        ObjectEvent::RowInserted => "row-inserted"@,
        ObjectEvent::RowReordered => "row-reordered"@,
        ObjectEvent::RowDeleted => "row-deleted"@,
        ObjectEvent::ColumnInserted => "column-inserted"@,
        ObjectEvent::ColumnReordered => "column-reordered"@,
        ObjectEvent::ColumnDeleted => "column-deleted"@,
        ObjectEvent::TextBoundsChanged => "text-bounds-changed"@,
        ObjectEvent::TextSelectionChanged => "text-selection-changed"@,
        ObjectEvent::TextChanged => "text-changed"@,
        ObjectEvent::TextAttributesChanged => "text-attributes-changed"@,
        ObjectEvent::TextCaretMoved => "text-caret-moved"@,
    }
}

/// Classifies a object event: a total mapping over the closed set of
/// variants, with no default branch.
pub fn classify_object(ev: &ObjectEvent) -> (label: &'static str)
    ensures
        label@ == object_event_label(*ev),
{
    match ev {
        ObjectEvent::PropertyChange => "property-change",
        ObjectEvent::BoundsChanged => "bounds-changed",
        ObjectEvent::LinkSelected => "link-selected",
        ObjectEvent::StateChanged => "state-changed",
        ObjectEvent::ChildrenChanged => "children-changed",
        ObjectEvent::VisibleDataChanged => "visible-data-changed",
        ObjectEvent::SelectionChanged => "selection-changed",
        ObjectEvent::ModelChanged => "model-changed",
        ObjectEvent::ActiveDescendantChanged => "active-descendant-changed",
        ObjectEvent::Announcement => "announcement",
        ObjectEvent::AttributesChanged => "attributes-changed",
        ObjectEvent::RowInserted => "row-inserted",
        ObjectEvent::RowReordered => "row-reordered",
        ObjectEvent::RowDeleted => "row-deleted",
        ObjectEvent::ColumnInserted => "column-inserted",
        ObjectEvent::ColumnReordered => "column-reordered",
        ObjectEvent::ColumnDeleted => "column-deleted",
        ObjectEvent::TextBoundsChanged => "text-bounds-changed",
        ObjectEvent::TextSelectionChanged => "text-selection-changed",
        ObjectEvent::TextChanged => "text-changed",
        ObjectEvent::TextAttributesChanged => "text-attributes-changed",
        ObjectEvent::TextCaretMoved => "text-caret-moved",
    }
}

/// Coverage: every object event variant is classified under a label of the
/// object interface's own category table.
pub proof fn lemma_classify_object_covered(ev: ObjectEvent)
    ensures
        object_labels().contains(object_event_label(ev)),
{
    match ev {
        ObjectEvent::PropertyChange => {
            assert(object_labels()[0] == object_event_label(ev));
            assert(object_labels().contains(object_event_label(ev)));
        },
        ObjectEvent::BoundsChanged => {
            assert(object_labels()[1] == object_event_label(ev));
            assert(object_labels().contains(object_event_label(ev)));
        },
        ObjectEvent::LinkSelected => {
            assert(object_labels()[2] == object_event_label(ev));
            assert(object_labels().contains(object_event_label(ev)));
        },
        ObjectEvent::StateChanged => {
            assert(object_labels()[3] == object_event_label(ev));
            assert(object_labels().contains(object_event_label(ev)));
        },
        ObjectEvent::ChildrenChanged => {
            assert(object_labels()[4] == object_event_label(ev));
            assert(object_labels().contains(object_event_label(ev)));
        },
        ObjectEvent::VisibleDataChanged => {
            assert(object_labels()[5] == object_event_label(ev));
            assert(object_labels().contains(object_event_label(ev)));
        },
        ObjectEvent::SelectionChanged => {
            assert(object_labels()[6] == object_event_label(ev));
            assert(object_labels().contains(object_event_label(ev)));
        },
        ObjectEvent::ModelChanged => {
            assert(object_labels()[7] == object_event_label(ev));
            assert(object_labels().contains(object_event_label(ev)));
        },
        ObjectEvent::ActiveDescendantChanged => {
            assert(object_labels()[8] == object_event_label(ev));
            assert(object_labels().contains(object_event_label(ev)));
        },
        ObjectEvent::Announcement => {
            assert(object_labels()[9] == object_event_label(ev));
            assert(object_labels().contains(object_event_label(ev)));
        },
        ObjectEvent::AttributesChanged => {
            assert(object_labels()[10] == object_event_label(ev));
            assert(object_labels().contains(object_event_label(ev)));
        },
        ObjectEvent::RowInserted => {
            assert(object_labels()[11] == object_event_label(ev));
            assert(object_labels().contains(object_event_label(ev)));
        },
        ObjectEvent::RowReordered => {
            assert(object_labels()[12] == object_event_label(ev));
            assert(object_labels().contains(object_event_label(ev)));
        },
        ObjectEvent::RowDeleted => {
            assert(object_labels()[13] == object_event_label(ev));
            assert(object_labels().contains(object_event_label(ev)));
        },
        ObjectEvent::ColumnInserted => {
            assert(object_labels()[14] == object_event_label(ev));
            assert(object_labels().contains(object_event_label(ev)));
        },
        ObjectEvent::ColumnReordered => {
            assert(object_labels()[15] == object_event_label(ev));
            assert(object_labels().contains(object_event_label(ev)));
        },
        ObjectEvent::ColumnDeleted => {
            assert(object_labels()[16] == object_event_label(ev));
            assert(object_labels().contains(object_event_label(ev)));
        },
        ObjectEvent::TextBoundsChanged => {
            assert(object_labels()[17] == object_event_label(ev));
            assert(object_labels().contains(object_event_label(ev)));
        },
        ObjectEvent::TextSelectionChanged => {
            assert(object_labels()[18] == object_event_label(ev));
            assert(object_labels().contains(object_event_label(ev)));
        },
        ObjectEvent::TextChanged => {
            assert(object_labels()[19] == object_event_label(ev));
            assert(object_labels().contains(object_event_label(ev)));
        },
        ObjectEvent::TextAttributesChanged => {
            assert(object_labels()[20] == object_event_label(ev));
            assert(object_labels().contains(object_event_label(ev)));
        },
        ObjectEvent::TextCaretMoved => {
            assert(object_labels()[21] == object_event_label(ev));
            assert(object_labels().contains(object_event_label(ev)));
        },
    }
}

/// Classifies a object event and counts it in the object counter set.
pub fn match_object_events(ev: ObjectEvent, obj_count: &mut ObjectCount)
    ensures
        final(obj_count).counters@ == spec_increment(old(obj_count).counters@, object_event_label(ev)),
        old(obj_count).counters.wf() ==> final(obj_count).counters.wf(),
{
    let label = classify_object(&ev);
    obj_count.increment(label);
}

/// An event of the window interface, stripped to its classification tag.
#[derive(Clone, Copy, Debug, PartialEq, Eq, Structural)]
pub enum WindowEvent {
    PropertyChange,
    Minimize,
    Maximize,
    Restore,
    Close,
    Create,
    Reparent,
    DesktopCreate,
    DesktopDestroy,
    Destroy,
    Activate,
    Deactivate,
    Raise,
    Lower,
    Move,
    Resize,
    Shade,
    UUshade,
    Restyle,
}

/// The category label that a window event is classified under.
pub open spec fn window_event_label(ev: WindowEvent) -> Seq<char> {
    match ev {
        WindowEvent::PropertyChange => "property-change"@,
        WindowEvent::Minimize => "minimize"@,
        WindowEvent::Maximize => "maximize"@,
        WindowEvent::Restore => "restore"@,
        WindowEvent::Close => "close"@,
        WindowEvent::Create => "create"@,
        WindowEvent::Reparent => "reparent"@,
        WindowEvent::DesktopCreate => "desktop-create"@,
        WindowEvent::DesktopDestroy => "desktop-destroy"@,
        WindowEvent::Destroy => "destroy"@,
        WindowEvent::Activate => "activate"@,
        WindowEvent::Deactivate => "deactivate"@,
        WindowEvent::Raise => "raise"@,
        WindowEvent::Lower => "lower"@,
        WindowEvent::Move => "move"@,
        WindowEvent::Resize => "resize"@,
        WindowEvent::Shade => "shade"@,
        WindowEvent::UUshade => "uushade"@,
        WindowEvent::Restyle => "restyle"@,
    }
}

/// Classifies a window event: a total mapping over the closed set of
/// variants, with no default branch.
pub fn classify_window(ev: &WindowEvent) -> (label: &'static str)
    ensures
        label@ == window_event_label(*ev),
{
    match ev {
        WindowEvent::PropertyChange => "property-change",
        WindowEvent::Minimize => "minimize",
        WindowEvent::Maximize => "maximize",
        WindowEvent::Restore => "restore",
        WindowEvent::Close => "close",
        WindowEvent::Create => "create",
        WindowEvent::Reparent => "reparent",
        WindowEvent::DesktopCreate => "desktop-create",
        WindowEvent::DesktopDestroy => "desktop-destroy",
        WindowEvent::Destroy => "destroy",
        WindowEvent::Activate => "activate",
        WindowEvent::Deactivate => "deactivate",
        WindowEvent::Raise => "raise",
        WindowEvent::Lower => "lower",
        WindowEvent::Move => "move",
        WindowEvent::Resize => "resize",
        WindowEvent::Shade => "shade",
        WindowEvent::UUshade => "uushade",
        WindowEvent::Restyle => "restyle",
    }
}

/// Coverage: every window event variant is classified under a label of the
/// window interface's own category table.
pub proof fn lemma_classify_window_covered(ev: WindowEvent)
    ensures
        window_labels().contains(window_event_label(ev)),
{
    match ev {
        WindowEvent::PropertyChange => {
            assert(window_labels()[0] == window_event_label(ev));
            assert(window_labels().contains(window_event_label(ev)));
        },
        WindowEvent::Minimize => {
            assert(window_labels()[1] == window_event_label(ev));
            assert(window_labels().contains(window_event_label(ev)));
        },
        WindowEvent::Maximize => {
            assert(window_labels()[2] == window_event_label(ev));
            assert(window_labels().contains(window_event_label(ev)));
        },
        WindowEvent::Restore => {
            assert(window_labels()[3] == window_event_label(ev));
            assert(window_labels().contains(window_event_label(ev)));
        },
        WindowEvent::Close => {
            assert(window_labels()[4] == window_event_label(ev));
            assert(window_labels().contains(window_event_label(ev)));
        },
        WindowEvent::Create => {
            assert(window_labels()[5] == window_event_label(ev));
            assert(window_labels().contains(window_event_label(ev)));
        },
        WindowEvent::Reparent => {
            assert(window_labels()[6] == window_event_label(ev));
            assert(window_labels().contains(window_event_label(ev)));
        },
        WindowEvent::DesktopCreate => {
            assert(window_labels()[7] == window_event_label(ev));
            assert(window_labels().contains(window_event_label(ev)));
        },
        WindowEvent::DesktopDestroy => {
            assert(window_labels()[8] == window_event_label(ev));
            assert(window_labels().contains(window_event_label(ev)));
        },
        WindowEvent::Destroy => {
            assert(window_labels()[9] == window_event_label(ev));
            assert(window_labels().contains(window_event_label(ev)));
        },
        WindowEvent::Activate => {
            assert(window_labels()[10] == window_event_label(ev));
            assert(window_labels().contains(window_event_label(ev)));
        },
        WindowEvent::Deactivate => {
            assert(window_labels()[11] == window_event_label(ev));
            assert(window_labels().contains(window_event_label(ev)));
        },
        WindowEvent::Raise => {
            assert(window_labels()[12] == window_event_label(ev));
            assert(window_labels().contains(window_event_label(ev)));
        },
        WindowEvent::Lower => {
            assert(window_labels()[13] == window_event_label(ev));
            assert(window_labels().contains(window_event_label(ev)));
        },
        WindowEvent::Move => {
            assert(window_labels()[14] == window_event_label(ev));
            assert(window_labels().contains(window_event_label(ev)));
        },
        WindowEvent::Resize => {
            assert(window_labels()[15] == window_event_label(ev));
            assert(window_labels().contains(window_event_label(ev)));
        },
        WindowEvent::Shade => {
            assert(window_labels()[16] == window_event_label(ev));
            assert(window_labels().contains(window_event_label(ev)));
        },
        WindowEvent::UUshade => {
            assert(window_labels()[17] == window_event_label(ev));
            assert(window_labels().contains(window_event_label(ev)));
        },
        WindowEvent::Restyle => {
            assert(window_labels()[18] == window_event_label(ev));
            assert(window_labels().contains(window_event_label(ev)));
        },
    }
}

/// Classifies a window event and counts it in the window counter set.
pub fn match_windowevents(ev: WindowEvent, win_count: &mut WindowCount)
    ensures
        final(win_count).counters@ == spec_increment(old(win_count).counters@, window_event_label(ev)),
        old(win_count).counters.wf() ==> final(win_count).counters.wf(),
{
    let label = classify_window(&ev);
    win_count.increment(label);
}

/// An event of the document interface, stripped to its classification tag.
#[derive(Clone, Copy, Debug, PartialEq, Eq, Structural)]
pub enum DocumentEvent {
    LoadComplete,
    Reload,
    LoadStopped,
    ContentChanged,
    AttributesChanged,
    PageChanged,
}

/// The category label that a document event is classified under.
pub open spec fn document_event_label(ev: DocumentEvent) -> Seq<char> {
    match ev {
        DocumentEvent::LoadComplete => "load-complete"@,
        DocumentEvent::Reload => "reload"@,
        DocumentEvent::LoadStopped => "load-stopped"@,
        DocumentEvent::ContentChanged => "content-changed"@,
        DocumentEvent::AttributesChanged => "attributes-changed"@,
        DocumentEvent::PageChanged => "page-changed"@,
    }
}

/// Classifies a document event: a total mapping over the closed set of
/// variants, with no default branch.
pub fn classify_document(ev: &DocumentEvent) -> (label: &'static str)
    ensures
        label@ == document_event_label(*ev),
{
    match ev {
        DocumentEvent::LoadComplete => "load-complete",
        DocumentEvent::Reload => "reload",
        DocumentEvent::LoadStopped => "load-stopped",
        DocumentEvent::ContentChanged => "content-changed",
        DocumentEvent::AttributesChanged => "attributes-changed",
        DocumentEvent::PageChanged => "page-changed",
    }
}

/// Coverage: every document event variant is classified under a label of the
/// document interface's own category table.
pub proof fn lemma_classify_document_covered(ev: DocumentEvent)
    ensures
        document_labels().contains(document_event_label(ev)),
{
    match ev {
        DocumentEvent::LoadComplete => {
            assert(document_labels()[0] == document_event_label(ev));
            assert(document_labels().contains(document_event_label(ev)));
        },
        DocumentEvent::Reload => {
            assert(document_labels()[1] == document_event_label(ev));
            assert(document_labels().contains(document_event_label(ev)));
        },
        DocumentEvent::LoadStopped => {
            assert(document_labels()[2] == document_event_label(ev));
            assert(document_labels().contains(document_event_label(ev)));
        },
        DocumentEvent::ContentChanged => {
            assert(document_labels()[3] == document_event_label(ev));
            assert(document_labels().contains(document_event_label(ev)));
        },
        DocumentEvent::AttributesChanged => {
            assert(document_labels()[4] == document_event_label(ev));
            assert(document_labels().contains(document_event_label(ev)));
        },
        DocumentEvent::PageChanged => {
            assert(document_labels()[5] == document_event_label(ev));
            assert(document_labels().contains(document_event_label(ev)));
        },
    }
}

/// Classifies a document event and counts it in the document counter set.
pub fn match_documentevents(ev: DocumentEvent, doc_count: &mut DocumentCount)
    ensures
        final(doc_count).counters@ == spec_increment(old(doc_count).counters@, document_event_label(ev)),
        old(doc_count).counters.wf() ==> final(doc_count).counters.wf(),
{
    let label = classify_document(&ev);
    doc_count.increment(label);
}

/// An event of the terminal interface, stripped to its classification tag.
#[derive(Clone, Copy, Debug, PartialEq, Eq, Structural)]
pub enum TerminalEvent {
    LineChanged,
    ColumnCountChanged,
    LineCountChanged,
    ApplicationChanged,
    CharWidthChanged,
}

/// The category label that a terminal event is classified under.
pub open spec fn terminal_event_label(ev: TerminalEvent) -> Seq<char> {
    match ev {
        TerminalEvent::LineChanged => "line-changed"@,
        TerminalEvent::ColumnCountChanged => "column-count-changed"@,
        TerminalEvent::LineCountChanged => "line-count-changed"@,
        TerminalEvent::ApplicationChanged => "application-changed"@,
        TerminalEvent::CharWidthChanged => "char-width-changed"@,
    }
}

/// Classifies a terminal event: a total mapping over the closed set of
/// variants, with no default branch.
pub fn classify_terminal(ev: &TerminalEvent) -> (label: &'static str)
    ensures
        label@ == terminal_event_label(*ev),
{
    match ev {
        TerminalEvent::LineChanged => "line-changed",
        TerminalEvent::ColumnCountChanged => "column-count-changed",
        TerminalEvent::LineCountChanged => "line-count-changed",
        TerminalEvent::ApplicationChanged => "application-changed",
        TerminalEvent::CharWidthChanged => "char-width-changed",
    }
}

/// Coverage: every terminal event variant is classified under a label of the
/// terminal interface's own category table.
pub proof fn lemma_classify_terminal_covered(ev: TerminalEvent)
    ensures
        terminal_labels().contains(terminal_event_label(ev)),
{
    match ev {
        TerminalEvent::LineChanged => {
            assert(terminal_labels()[0] == terminal_event_label(ev));
            assert(terminal_labels().contains(terminal_event_label(ev)));
        },
        TerminalEvent::ColumnCountChanged => {
            assert(terminal_labels()[1] == terminal_event_label(ev));
            assert(terminal_labels().contains(terminal_event_label(ev)));
        },
        TerminalEvent::LineCountChanged => {
            assert(terminal_labels()[2] == terminal_event_label(ev));
            assert(terminal_labels().contains(terminal_event_label(ev)));
        },
        TerminalEvent::ApplicationChanged => {
            assert(terminal_labels()[3] == terminal_event_label(ev));
            assert(terminal_labels().contains(terminal_event_label(ev)));
        },
        TerminalEvent::CharWidthChanged => {
            assert(terminal_labels()[4] == terminal_event_label(ev));
            assert(terminal_labels().contains(terminal_event_label(ev)));
        },
    }
}

/// Classifies a terminal event and counts it in the terminal counter set.
pub fn match_terminal_events(ev: TerminalEvent, term_count: &mut TerminalCount)
    ensures
        final(term_count).counters@ == spec_increment(old(term_count).counters@, terminal_event_label(ev)),
        old(term_count).counters.wf() ==> final(term_count).counters.wf(),
{
    let label = classify_terminal(&ev);
    term_count.increment(label);
}

/// An event of the mouse interface, stripped to its classification tag.
#[derive(Clone, Copy, Debug, PartialEq, Eq, Structural)]
pub enum MouseEvent {
    Abs,
    Rel,
    Button,
}

/// The category label that a mouse event is classified under.
pub open spec fn mouse_event_label(ev: MouseEvent) -> Seq<char> {
    match ev {
        MouseEvent::Abs => "abs"@,
        MouseEvent::Rel => "rel"@,
        MouseEvent::Button => "button"@,
    }
}

/// Classifies a mouse event: a total mapping over the closed set of
/// variants, with no default branch.
pub fn classify_mouse(ev: &MouseEvent) -> (label: &'static str)
    ensures
        label@ == mouse_event_label(*ev),
{
    match ev {
        MouseEvent::Abs => "abs",
        MouseEvent::Rel => "rel",
        MouseEvent::Button => "button",
    }
}

/// Coverage: every mouse event variant is classified under a label of the
/// mouse interface's own category table.
pub proof fn lemma_classify_mouse_covered(ev: MouseEvent)
    ensures
        mouse_labels().contains(mouse_event_label(ev)),
{
    match ev {
        MouseEvent::Abs => {
            assert(mouse_labels()[0] == mouse_event_label(ev));
            assert(mouse_labels().contains(mouse_event_label(ev)));
        },
        MouseEvent::Rel => {
            assert(mouse_labels()[1] == mouse_event_label(ev));
            assert(mouse_labels().contains(mouse_event_label(ev)));
        },
        MouseEvent::Button => {
            assert(mouse_labels()[2] == mouse_event_label(ev));
            assert(mouse_labels().contains(mouse_event_label(ev)));
        },
    }
}

/// Classifies a mouse event and counts it in the mouse counter set.
pub fn match_mouse_events(ev: MouseEvent, mouse_count: &mut MouseCount)
    ensures
        final(mouse_count).counters@ == spec_increment(old(mouse_count).counters@, mouse_event_label(ev)),
        old(mouse_count).counters.wf() ==> final(mouse_count).counters.wf(),
{
    let label = classify_mouse(&ev);
    mouse_count.increment(label);
}

/// An event of the cache interface, stripped to its classification tag.
#[derive(Clone, Copy, Debug, PartialEq, Eq, Structural)]
pub enum CacheEvent {
    Add,
    LegacyAdd,
    Remove,
}

/// The category label that a cache event is classified under.
pub open spec fn cache_event_label(ev: CacheEvent) -> Seq<char> {
    match ev {
        CacheEvent::Add => "add"@,
        CacheEvent::LegacyAdd => "legacy-add"@,
        CacheEvent::Remove => "remove"@,
    }
}

/// Classifies a cache event: a total mapping over the closed set of
/// variants, with no default branch.
pub fn classify_cache(ev: &CacheEvent) -> (label: &'static str)
    ensures
        label@ == cache_event_label(*ev),
{
    match ev {
        CacheEvent::Add => "add",
        CacheEvent::LegacyAdd => "legacy-add",
        CacheEvent::Remove => "remove",
    }
}

/// Coverage: every cache event variant is classified under a label of the
/// cache interface's own category table.
pub proof fn lemma_classify_cache_covered(ev: CacheEvent)
    ensures
        cache_labels().contains(cache_event_label(ev)),
{
    match ev {
        CacheEvent::Add => {
            assert(cache_labels()[0] == cache_event_label(ev));
            assert(cache_labels().contains(cache_event_label(ev)));
        },
        CacheEvent::LegacyAdd => {
            assert(cache_labels()[1] == cache_event_label(ev));
            assert(cache_labels().contains(cache_event_label(ev)));
        },
        CacheEvent::Remove => {
            assert(cache_labels()[2] == cache_event_label(ev));
            assert(cache_labels().contains(cache_event_label(ev)));
        },
    }
}

/// Classifies a cache event and counts it in the cache counter set.
pub fn match_cache_events(ev: CacheEvent, cache_count: &mut CacheCount)
    ensures
        final(cache_count).counters@ == spec_increment(old(cache_count).counters@, cache_event_label(ev)),
        old(cache_count).counters.wf() ==> final(cache_count).counters.wf(),
{
    let label = classify_cache(&ev);
    cache_count.increment(label);
}

/// A classified event of the bus: its variant fixes the interface it belongs
/// to, and for interfaces with sub-categories it carries the sub-tag.
#[derive(Clone, Copy, Debug, PartialEq, Eq, Structural)]
pub enum Event {
    Object(ObjectEvent),
    Window(WindowEvent),
    Document(DocumentEvent),
    Terminal(TerminalEvent),
    Mouse(MouseEvent),
    Keyboard,
    Listener,
    Cache(CacheEvent),
    Focus,
    Available,
}

/// The interface-membership label of an event.
pub open spec fn event_interface_label(ev: Event) -> Seq<char> {
    match ev {
        Event::Object(_) => "object"@,
        Event::Window(_) => "window"@,
        Event::Document(_) => "document"@,
        Event::Terminal(_) => "terminal"@,
        Event::Mouse(_) => "mouse"@,
        Event::Keyboard => "keyboard"@,
        Event::Listener => "listener"@,
        Event::Cache(_) => "cache"@,
        Event::Focus => "focus"@,
        Event::Available => "available"@,
    }
}

/// Classifies an event's interface membership: total over the closed set of
/// interfaces, with no default branch.
pub fn classify_interface(ev: &Event) -> (label: &'static str)
    ensures
        label@ == event_interface_label(*ev),
{
    match ev {
        Event::Object(_) => "object",
        Event::Window(_) => "window",
        Event::Document(_) => "document",
        Event::Terminal(_) => "terminal",
        Event::Mouse(_) => "mouse",
        Event::Keyboard => "keyboard",
        Event::Listener => "listener",
        Event::Cache(_) => "cache",
        Event::Focus => "focus",
        Event::Available => "available",
    }
}

/// Coverage: every event's interface membership is classified under a label
/// of the top-level interface tally's table.
pub proof fn lemma_classify_interface_covered(ev: Event)
    ensures
        interface_labels().contains(event_interface_label(ev)),
{
    match ev {
        Event::Object(_) => {
            assert(interface_labels()[0] == event_interface_label(ev));
            assert(interface_labels().contains(event_interface_label(ev)));
        },
        Event::Window(_) => {
            assert(interface_labels()[1] == event_interface_label(ev));
            assert(interface_labels().contains(event_interface_label(ev)));
        },
        Event::Document(_) => {
            assert(interface_labels()[2] == event_interface_label(ev));
            assert(interface_labels().contains(event_interface_label(ev)));
        },
        Event::Terminal(_) => {
            assert(interface_labels()[3] == event_interface_label(ev));
            assert(interface_labels().contains(event_interface_label(ev)));
        },
        Event::Mouse(_) => {
            assert(interface_labels()[4] == event_interface_label(ev));
            assert(interface_labels().contains(event_interface_label(ev)));
        },
        Event::Keyboard => {
            assert(interface_labels()[5] == event_interface_label(ev));
            assert(interface_labels().contains(event_interface_label(ev)));
        },
        Event::Listener => {
            assert(interface_labels()[6] == event_interface_label(ev));
            assert(interface_labels().contains(event_interface_label(ev)));
        },
        Event::Cache(_) => {
            assert(interface_labels()[7] == event_interface_label(ev));
            assert(interface_labels().contains(event_interface_label(ev)));
        },
        Event::Focus => {
            assert(interface_labels()[8] == event_interface_label(ev));
            assert(interface_labels().contains(event_interface_label(ev)));
        },
        Event::Available => {
            assert(interface_labels()[9] == event_interface_label(ev));
            assert(interface_labels().contains(event_interface_label(ev)));
        },
    }
}

/// Routes one event: the interface tally always counts the event's interface
/// membership; for an interface with sub-categories, its own counter set also
/// counts the sub-category. No other counter set changes.
pub fn route_event(
    ev: Event,
    iface_count: &mut InterfaceCount,
    obj_count: &mut ObjectCount,
    win_count: &mut WindowCount,
    doc_count: &mut DocumentCount,
    term_count: &mut TerminalCount,
    mouse_count: &mut MouseCount,
    cache_count: &mut CacheCount,
)
    ensures
        final(iface_count).counters@ == spec_increment(
            old(iface_count).counters@,
            event_interface_label(ev),
        ),
        final(obj_count).counters@ == (match ev {
            Event::Object(o) => spec_increment(old(obj_count).counters@, object_event_label(o)),
            _ => old(obj_count).counters@,
        }),
        final(win_count).counters@ == (match ev {
            Event::Window(w) => spec_increment(old(win_count).counters@, window_event_label(w)),
            _ => old(win_count).counters@,
        }),
        final(doc_count).counters@ == (match ev {
            Event::Document(d) => spec_increment(
                old(doc_count).counters@,
                document_event_label(d),
            ),
            _ => old(doc_count).counters@,
        }),
        final(term_count).counters@ == (match ev {
            Event::Terminal(t) => spec_increment(
                old(term_count).counters@,
                terminal_event_label(t),
            ),
            _ => old(term_count).counters@,
        }),
        final(mouse_count).counters@ == (match ev {
            Event::Mouse(m) => spec_increment(old(mouse_count).counters@, mouse_event_label(m)),
            _ => old(mouse_count).counters@,
        }),
        final(cache_count).counters@ == (match ev {
            Event::Cache(c) => spec_increment(old(cache_count).counters@, cache_event_label(c)),
            _ => old(cache_count).counters@,
        }),
        old(iface_count).counters.wf() ==> final(iface_count).counters.wf(),
        old(obj_count).counters.wf() ==> final(obj_count).counters.wf(),
        old(win_count).counters.wf() ==> final(win_count).counters.wf(),
        old(doc_count).counters.wf() ==> final(doc_count).counters.wf(),
        old(term_count).counters.wf() ==> final(term_count).counters.wf(),
        old(mouse_count).counters.wf() ==> final(mouse_count).counters.wf(),
        old(cache_count).counters.wf() ==> final(cache_count).counters.wf(),
{
    let label = classify_interface(&ev);
    iface_count.increment(label);
    match ev {
        Event::Object(o) => match_object_events(o, obj_count),
        Event::Window(w) => match_windowevents(w, win_count),
        Event::Document(d) => match_documentevents(d, doc_count),
        Event::Terminal(t) => match_terminal_events(t, term_count),
        Event::Mouse(m) => match_mouse_events(m, mouse_count),
        Event::Cache(c) => match_cache_events(c, cache_count),
        Event::Keyboard => (),
        Event::Listener => (),
        Event::Focus => (),
        Event::Available => (),
    }
}

} // verus!
