//! The classifier: total coverage of the closed taxonomy, and routing of
//! events into the per-interface counter sets.

use atspi_stats::events::{
    classify_cache, classify_document, classify_interface, classify_mouse, classify_object,
    classify_terminal, classify_window, match_cache_events, match_documentevents,
    match_mouse_events, match_object_events, match_terminal_events, match_windowevents,
    route_event, CacheEvent, DocumentEvent, Event, MouseEvent, ObjectEvent, TerminalEvent,
    WindowEvent,
};
use atspi_stats::tables::{
    CacheCount, DocumentCount, Getters, InterfaceCount, MouseCount, ObjectCount, TerminalCount,
    WindowCount,
};

fn table_of<T: Getters>(c: &T) -> Vec<String> {
    c.get_categories().iter().map(|r| r.0.clone()).collect()
}

fn all_object_events() -> Vec<ObjectEvent> {
    vec![
        ObjectEvent::PropertyChange,
        ObjectEvent::BoundsChanged,
        ObjectEvent::LinkSelected,
        ObjectEvent::StateChanged,
        ObjectEvent::ChildrenChanged,
        ObjectEvent::VisibleDataChanged,
        ObjectEvent::SelectionChanged,
        ObjectEvent::ModelChanged,
        ObjectEvent::ActiveDescendantChanged,
        ObjectEvent::Announcement,
        ObjectEvent::AttributesChanged,
        ObjectEvent::RowInserted,
        ObjectEvent::RowReordered,
        ObjectEvent::RowDeleted,
        ObjectEvent::ColumnInserted,
        ObjectEvent::ColumnReordered,
        ObjectEvent::ColumnDeleted,
        ObjectEvent::TextBoundsChanged,
        ObjectEvent::TextSelectionChanged,
        ObjectEvent::TextChanged,
        ObjectEvent::TextAttributesChanged,
        ObjectEvent::TextCaretMoved,
    ]
}

fn all_window_events() -> Vec<WindowEvent> {
    vec![
        WindowEvent::PropertyChange,
        WindowEvent::Minimize,
        WindowEvent::Maximize,
        WindowEvent::Restore,
        WindowEvent::Close,
        WindowEvent::Create,
        WindowEvent::Reparent,
        WindowEvent::DesktopCreate,
        WindowEvent::DesktopDestroy,
        WindowEvent::Destroy,
        WindowEvent::Activate,
        WindowEvent::Deactivate,
        WindowEvent::Raise,
        WindowEvent::Lower,
        WindowEvent::Move,
        WindowEvent::Resize,
        WindowEvent::Shade,
        WindowEvent::UUshade,
        WindowEvent::Restyle,
    ]
}

#[test]
fn classify_object_covers_every_variant() {
    let table = table_of(&ObjectCount::new());
    let events = all_object_events();
    assert_eq!(events.len(), 22);
    for ev in &events {
        let label = classify_object(ev);
        assert!(table.iter().any(|t| t == label), "unmapped label {label}");
    }
}

#[test]
fn classify_window_covers_every_variant() {
    let table = table_of(&WindowCount::new());
    let events = all_window_events();
    assert_eq!(events.len(), 19);
    for ev in &events {
        let label = classify_window(ev);
        assert!(table.iter().any(|t| t == label), "unmapped label {label}");
    }
}

#[test]
fn classify_document_terminal_mouse_cache_cover_every_variant() {
    let doc_table = table_of(&DocumentCount::new());
    for ev in [
        DocumentEvent::LoadComplete,
        DocumentEvent::Reload,
        DocumentEvent::LoadStopped,
        DocumentEvent::ContentChanged,
        DocumentEvent::AttributesChanged,
        DocumentEvent::PageChanged,
    ] {
        let label = classify_document(&ev);
        assert!(doc_table.iter().any(|t| t == label));
    }
    let term_table = table_of(&TerminalCount::new());
    for ev in [
        TerminalEvent::LineChanged,
        TerminalEvent::ColumnCountChanged,
        TerminalEvent::LineCountChanged,
        TerminalEvent::ApplicationChanged,
        TerminalEvent::CharWidthChanged,
    ] {
        let label = classify_terminal(&ev);
        assert!(term_table.iter().any(|t| t == label));
    }
    let mouse_table = table_of(&MouseCount::new());
    for ev in [MouseEvent::Abs, MouseEvent::Rel, MouseEvent::Button] {
        let label = classify_mouse(&ev);
        assert!(mouse_table.iter().any(|t| t == label));
    }
    let cache_table = table_of(&CacheCount::new());
    for ev in [CacheEvent::Add, CacheEvent::LegacyAdd, CacheEvent::Remove] {
        let label = classify_cache(&ev);
        assert!(cache_table.iter().any(|t| t == label));
    }
}

#[test]
fn classify_interface_covers_every_variant() {
    let table = table_of(&InterfaceCount::new());
    for ev in [
        Event::Object(ObjectEvent::Announcement),
        Event::Window(WindowEvent::Minimize),
        Event::Document(DocumentEvent::Reload),
        Event::Terminal(TerminalEvent::LineChanged),
        Event::Mouse(MouseEvent::Abs),
        Event::Keyboard,
        Event::Listener,
        Event::Cache(CacheEvent::Add),
        Event::Focus,
        Event::Available,
    ] {
        let label = classify_interface(&ev);
        assert!(table.iter().any(|t| t == label), "unmapped label {label}");
    }
}

#[test]
fn classify_maps_to_the_expected_labels() {
    assert_eq!(classify_object(&ObjectEvent::TextCaretMoved), "text-caret-moved");
    assert_eq!(classify_window(&WindowEvent::UUshade), "uushade");
    assert_eq!(classify_document(&DocumentEvent::LoadComplete), "load-complete");
    assert_eq!(classify_terminal(&TerminalEvent::CharWidthChanged), "char-width-changed");
    assert_eq!(classify_mouse(&MouseEvent::Rel), "rel");
    assert_eq!(classify_cache(&CacheEvent::LegacyAdd), "legacy-add");
    assert_eq!(classify_interface(&Event::Focus), "focus");
}

#[test]
fn match_functions_count_into_their_set() {
    let mut o = ObjectCount::new();
    match_object_events(ObjectEvent::StateChanged, &mut o);
    match_object_events(ObjectEvent::StateChanged, &mut o);
    assert_eq!(o.get_total(), 2);
    let rows = o.get_categories();
    let state = rows.iter().find(|r| r.0 == "state-changed").unwrap();
    assert_eq!(state.1, 2);

    let mut w = WindowCount::new();
    match_windowevents(WindowEvent::Move, &mut w);
    assert_eq!(w.get_total(), 1);
    assert_eq!(w.get_categories().iter().find(|r| r.0 == "move").unwrap().1, 1);

    let mut d = DocumentCount::new();
    match_documentevents(DocumentEvent::PageChanged, &mut d);
    assert_eq!(d.get_categories().iter().find(|r| r.0 == "page-changed").unwrap().1, 1);

    let mut t = TerminalCount::new();
    match_terminal_events(TerminalEvent::LineCountChanged, &mut t);
    assert_eq!(t.get_categories().iter().find(|r| r.0 == "line-count-changed").unwrap().1, 1);

    let mut m = MouseCount::new();
    match_mouse_events(MouseEvent::Button, &mut m);
    assert_eq!(m.get_categories().iter().find(|r| r.0 == "button").unwrap().1, 1);

    let mut c = CacheCount::new();
    match_cache_events(CacheEvent::Remove, &mut c);
    assert_eq!(c.get_categories().iter().find(|r| r.0 == "remove").unwrap().1, 1);
}

#[test]
fn route_event_counts_interface_and_subcategory() {
    let mut iface = InterfaceCount::new();
    let mut o = ObjectCount::new();
    let mut w = WindowCount::new();
    let mut d = DocumentCount::new();
    let mut t = TerminalCount::new();
    let mut m = MouseCount::new();
    let mut c = CacheCount::new();
    let events = vec![
        Event::Mouse(MouseEvent::Abs),
        Event::Mouse(MouseEvent::Rel),
        Event::Keyboard,
        Event::Object(ObjectEvent::TextChanged),
        Event::Focus,
        Event::Focus,
    ];
    for ev in events {
        route_event(ev, &mut iface, &mut o, &mut w, &mut d, &mut t, &mut m, &mut c);
    }
    assert_eq!(iface.get_total(), 6);
    let iface_rows = iface.get_categories();
    assert_eq!(iface_rows.iter().find(|r| r.0 == "mouse").unwrap().1, 2);
    assert_eq!(iface_rows.iter().find(|r| r.0 == "keyboard").unwrap().1, 1);
    assert_eq!(iface_rows.iter().find(|r| r.0 == "object").unwrap().1, 1);
    assert_eq!(iface_rows.iter().find(|r| r.0 == "focus").unwrap().1, 2);
    assert_eq!(m.get_total(), 2);
    assert_eq!(m.get_categories().iter().find(|r| r.0 == "abs").unwrap().1, 1);
    assert_eq!(o.get_total(), 1);
    assert_eq!(o.get_categories().iter().find(|r| r.0 == "text-changed").unwrap().1, 1);
    assert_eq!(w.get_total(), 0);
    assert_eq!(d.get_total(), 0);
    assert_eq!(t.get_total(), 0);
    assert_eq!(c.get_total(), 0);
}
