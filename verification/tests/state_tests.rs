use aria_press::element::{ControlKind, ElementInfo, Role};
use aria_press::focus::{
    focus_without_scrolling, get_scrollable_elements, restore_scroll_position, AncestorInfo,
    FocusPlan, ScrollableElement, SupportsPreventScroll,
};
use aria_press::handle_map::HandleMap;
use aria_press::listeners::{GlobalListeners, ListenerEventType, ListenerTarget};
use aria_press::text_selection::{
    should_remove_style_attribute, Selection, StyleEffect, TextSelection,
};
use aria_press::transitions::TransitionTracker;

fn html_element(handle: u64) -> ElementInfo {
    ElementInfo {
        handle,
        is_html: true,
        is_svg: false,
        draggable: false,
        content_editable: false,
        control: ControlKind::Other,
        tag_is_anchor: false,
        has_href: false,
        role: Role::Missing,
    }
}

#[test]
fn handle_map_basic_operations() {
    let mut map: HandleMap<u64> = HandleMap::new();
    assert!(map.is_empty());
    assert!(!map.has(1));
    assert!(!map.set(1, 10));
    assert!(map.set(1, 11));
    assert!(!map.set(2, 20));
    assert_eq!(map.size(), 2);
    assert_eq!(map.get(1), Some(&11));
    assert_eq!(map.get(2), Some(&20));
    assert_eq!(map.get(3), None);
    assert!(map.delete(1));
    assert!(!map.delete(1));
    assert_eq!(map.take(2), Some(20));
    assert_eq!(map.take(2), None);
    assert!(map.is_empty());
    map.set(4, 40);
    map.clear();
    assert!(map.is_empty());
}

#[test]
fn listener_registry_records_and_releases() {
    let mut listeners = GlobalListeners::new();
    let a = listeners.add_listener(ListenerTarget::Document, ListenerEventType::PointerMove, false);
    let b = listeners.add_listener(ListenerTarget::Document, ListenerEventType::PointerUp, false);
    let c = listeners.add_listener(ListenerTarget::Element(5), ListenerEventType::KeyUp, true);
    assert_eq!((a, b, c), (0, 1, 2));
    assert_eq!(listeners.entries.len(), 3);

    let removed = listeners.remove_listener(b);
    assert!(removed.is_some());
    assert_eq!(removed.unwrap().event_type, ListenerEventType::PointerUp);
    assert!(listeners.remove_listener(b).is_none());
    assert_eq!(listeners.entries.len(), 2);

    let drained = listeners.remove_all_listeners();
    assert_eq!(drained.len(), 2);
    assert_eq!(drained[0].0, a);
    assert_eq!(drained[1].0, c);
    assert_eq!(listeners.entries.len(), 0);

    // Releasing an already empty registry is a no-op.
    let drained = listeners.remove_all_listeners();
    assert!(drained.is_empty());

    // Keys are never reused within a registry.
    let d = listeners.add_listener(ListenerTarget::Document, ListenerEventType::KeyUp, false);
    assert_eq!(d, 3);
}

#[test]
fn generic_suppression_records_first_value_only() {
    let mut suppressor = TextSelection::new(false);
    let element = html_element(7);

    let fx = suppressor.disable_text_selection(Some(&element), String::from("auto"), None);
    assert_eq!(fx, vec![StyleEffect::SetElementUserSelectNone(7)]);

    // A second suppression before any restore is a no-op on the snapshot.
    let fx = suppressor.disable_text_selection(Some(&element), String::from("none"), None);
    assert!(fx.is_empty());

    // The restore hands back the value recorded by the first call.
    let fx = suppressor.restore_text_selection(&element, String::from("none"));
    assert_eq!(fx, vec![StyleEffect::SetElementUserSelect(7, String::from("auto"))]);

    // The entry is gone: restoring again does nothing.
    let fx = suppressor.restore_text_selection(&element, String::from("none"));
    assert!(fx.is_empty());
}

#[test]
fn generic_suppression_ignores_ineligible_targets() {
    let mut suppressor = TextSelection::new(false);
    let other = ElementInfo { is_html: false, is_svg: false, ..html_element(9) };
    let fx = suppressor.disable_text_selection(Some(&other), String::new(), None);
    assert!(fx.is_empty());
    let fx = suppressor.disable_text_selection(None, String::new(), None);
    assert!(fx.is_empty());

    let svg = ElementInfo { is_html: false, is_svg: true, ..html_element(10) };
    let fx = suppressor.disable_text_selection(Some(&svg), String::from(""), None);
    assert_eq!(fx, vec![StyleEffect::SetElementUserSelectNone(10)]);
}

#[test]
fn generic_restore_skips_overridden_value() {
    let mut suppressor = TextSelection::new(false);
    let element = html_element(3);
    suppressor.disable_text_selection(Some(&element), String::from("text"), None);
    // Someone else changed the inline value meanwhile: nothing is written.
    let fx = suppressor.restore_text_selection(&element, String::from("auto"));
    assert!(fx.is_empty());
    // The registry entry is removed nonetheless.
    let fx = suppressor.restore_text_selection(&element, String::from("none"));
    assert!(fx.is_empty());
}

#[test]
fn ios_resuppression_revokes_pending_restore() {
    let mut suppressor = TextSelection::new(true);
    let element = html_element(1);

    let fx = suppressor.disable_text_selection(
        Some(&element),
        String::new(),
        Some(String::from("text")),
    );
    assert_eq!(fx, vec![StyleEffect::SetDocumentUserSelectNone]);
    assert_eq!(suppressor.selection, Selection::Disabled);

    let fx = suppressor.restore_text_selection(&element, String::new());
    assert_eq!(fx, vec![StyleEffect::ScheduleRestore]);
    assert_eq!(suppressor.selection, Selection::Restoring);

    // A new press before the delayed restoration fires re-disables.
    let fx = suppressor.disable_text_selection(
        Some(&element),
        String::new(),
        Some(String::from("stale")),
    );
    assert!(fx.is_empty());
    assert_eq!(suppressor.selection, Selection::Disabled);
    // The snapshot of the first suppression is kept.
    assert_eq!(suppressor.user_select, Some(String::from("text")));

    // The stale scheduled restoration performs no restoration.
    let fx = suppressor.finish_restoration(true);
    assert!(fx.is_empty());
    assert_eq!(suppressor.selection, Selection::Disabled);
}

#[test]
fn ios_restoration_runs_when_still_due() {
    let mut suppressor = TextSelection::new(true);
    let element = html_element(1);
    suppressor.disable_text_selection(Some(&element), String::new(), Some(String::from("text")));
    suppressor.restore_text_selection(&element, String::new());

    let fx = suppressor.finish_restoration(true);
    assert_eq!(fx, vec![StyleEffect::SetDocumentUserSelect(Some(String::from("text")))]);
    assert_eq!(suppressor.selection, Selection::Default);
    assert_eq!(suppressor.user_select, None);

    // A second fire finds nothing to do.
    let fx = suppressor.finish_restoration(true);
    assert!(fx.is_empty());
}

#[test]
fn ios_restoration_respects_foreign_document_value() {
    let mut suppressor = TextSelection::new(true);
    let element = html_element(1);
    suppressor.disable_text_selection(Some(&element), String::new(), None);
    suppressor.restore_text_selection(&element, String::new());
    // The document value is no longer "none": nothing is written back.
    let fx = suppressor.finish_restoration(false);
    assert!(fx.is_empty());
    assert_eq!(suppressor.selection, Selection::Default);
}

#[test]
fn style_attribute_removal_rule() {
    assert!(should_remove_style_attribute(&None));
    assert!(should_remove_style_attribute(&Some(String::new())));
    assert!(!should_remove_style_attribute(&Some(String::from("color: red"))));
}

#[test]
fn transition_tracker_runs_callbacks_when_drained() {
    let mut tracker = TransitionTracker::new();

    // Nothing transitions: callbacks run immediately.
    assert!(tracker.run_after_transition(100));

    assert!(tracker.on_transition_run(1, 10));
    // A second property on the same element needs no new cancel listener.
    assert!(!tracker.on_transition_run(1, 11));
    assert!(tracker.on_transition_run(2, 10));

    // With transitions in flight, callbacks queue.
    assert!(!tracker.run_after_transition(101));
    assert!(!tracker.run_after_transition(102));

    let (settled, due) = tracker.on_transition_end(1, 10);
    assert!(!settled);
    assert!(due.is_empty());
    let (settled, due) = tracker.on_transition_end(1, 11);
    assert!(settled);
    assert!(due.is_empty());
    let (settled, due) = tracker.on_transition_end(2, 10);
    assert!(settled);
    assert_eq!(due, vec![101, 102]);

    // Duplicate end events for a settled element are ignored.
    let (settled, due) = tracker.on_transition_end(2, 10);
    assert!(!settled);
    assert!(due.is_empty());
}

#[test]
fn focus_capability_probe_is_cached() {
    let mut support = SupportsPreventScroll::new();
    assert!(support.supports_prevent_scroll(Some(true)));
    // The cached outcome wins over later probes.
    assert!(support.supports_prevent_scroll(Some(false)));

    let mut support = SupportsPreventScroll::new();
    // A failed probe counts as unsupported.
    assert!(!support.supports_prevent_scroll(None));
    assert!(!support.supports_prevent_scroll(Some(true)));
}

fn ancestor(handle: u64, scrolls: bool) -> AncestorInfo {
    AncestorInfo {
        handle,
        is_html: true,
        offset_height: 100,
        scroll_height: if scrolls { 300 } else { 100 },
        offset_width: 100,
        scroll_width: 100,
        scroll_top: 40,
        scroll_left: 5,
    }
}

#[test]
fn scrollable_ancestors_are_selected_and_root_appended() {
    let ancestors = vec![ancestor(1, false), ancestor(2, true), ancestor(3, false)];
    let root = ancestor(9, false);
    let saved = get_scrollable_elements(&ancestors, &root);
    assert_eq!(
        saved,
        vec![
            ScrollableElement { handle: 2, scroll_top: 40, scroll_left: 5 },
            ScrollableElement { handle: 9, scroll_top: 40, scroll_left: 5 },
        ]
    );

    // A non-HTML root scrolling element is not appended.
    let foreign_root = AncestorInfo { is_html: false, ..root };
    let saved = get_scrollable_elements(&ancestors, &foreign_root);
    assert_eq!(saved.len(), 1);
}

#[test]
fn restore_scroll_position_replays_saved_positions() {
    let saved = vec![
        ScrollableElement { handle: 2, scroll_top: 40, scroll_left: 5 },
        ScrollableElement { handle: 9, scroll_top: 7, scroll_left: 0 },
    ];
    let effects = restore_scroll_position(&saved);
    assert_eq!(effects.len(), 2);
    assert_eq!(effects[0].handle, 2);
    assert_eq!(effects[0].set_scroll_top, 40);
    assert_eq!(effects[0].set_scroll_left, 5);
    assert_eq!(effects[1].handle, 9);
    assert_eq!(effects[1].set_scroll_top, 7);
}

#[test]
fn focus_plan_follows_capability() {
    let ancestors = vec![ancestor(1, true)];
    let root = ancestor(9, false);

    let mut support = SupportsPreventScroll::new();
    let plan = focus_without_scrolling(&mut support, Some(true), &ancestors, &root);
    assert_eq!(plan, FocusPlan::FocusWithPreventScroll);

    let mut support = SupportsPreventScroll::new();
    let plan = focus_without_scrolling(&mut support, None, &ancestors, &root);
    match plan {
        FocusPlan::FocusThenRestore(saved) => {
            assert_eq!(saved.len(), 2);
            assert_eq!(saved[0].handle, 1);
            assert_eq!(saved[1].handle, 9);
        },
        FocusPlan::FocusWithPreventScroll => panic!("expected the fallback plan"),
    }
}
