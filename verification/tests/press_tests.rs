use aria_press::element::{ControlKind, ElementInfo, KeyId, KeyInfo, Role};
use aria_press::events::{
    DragInput, ElementRef, EventData, EventModifiers, KeyboardInput, MouseInput, PointerInput,
};
use aria_press::geometry::Rect;
use aria_press::use_press::{
    use_press, Effect, Emission, PointerType, PressEvent, PressEventType, PressResult,
    UsePressProps,
};
use aria_press::events::FocusableEvent;
use aria_press::listeners::{ListenerEventType, ListenerTarget};

fn no_modifiers() -> EventModifiers {
    EventModifiers { shift_key: false, ctrl_key: false, alt_key: false, meta_key: false }
}

fn event_data(handle: u64) -> EventData {
    EventData { current_target: ElementRef { handle, is_svg: false }, modifiers: no_modifiers() }
}

fn div_element(handle: u64) -> ElementInfo {
    ElementInfo {
        handle,
        is_html: true,
        is_svg: false,
        draggable: false,
        content_editable: false,
        control: ControlKind::Other,
        tag_is_anchor: false,
        has_href: false,
        role: Role::Missing,
    }
}

fn button_role_div(handle: u64) -> ElementInfo {
    ElementInfo { role: Role::Button, ..div_element(handle) }
}

fn pointer_event(handle: u64, pointer_id: i32, x: i32, y: i32) -> PointerInput {
    PointerInput {
        data: event_data(handle),
        pointer_id,
        button: 0,
        buttons: 1,
        width: 1,
        height: 1,
        pressure_is_zero: false,
        detail: 1,
        pointer_kind: PointerType::Mouse,
        is_trusted: true,
        client_x: x,
        client_y: y,
    }
}

fn target_rect() -> Rect {
    Rect { top: 0, left: 0, bottom: 10, right: 10 }
}

fn event_kinds(emissions: &[Emission]) -> Vec<PressEventType> {
    emissions
        .iter()
        .filter_map(|e| match e {
            Emission::Event(event) => Some(event.event_type),
            Emission::Change(_) => None,
        })
        .collect()
}

fn fresh_machine() -> PressResult {
    use_press(UsePressProps::default())
}

#[test]
fn full_press_commits_once_in_order() {
    let mut machine = fresh_machine();
    let target = div_element(1);
    let mut all: Vec<Emission> = Vec::new();

    let (em, _fx) = machine.on_pointer_down(&pointer_event(1, 7, 5, 5), &target, true);
    all.extend(em.iter().copied());
    // A move that stays inside the target changes nothing.
    let (em, _fx) = machine.on_pointer_move(&pointer_event(1, 7, 6, 6), &target_rect());
    assert!(em.is_empty());
    all.extend(em.iter().copied());
    let (em, _fx) = machine.on_pointer_up(&pointer_event(1, 7, 6, 6), &target_rect(), true);
    all.extend(em.iter().copied());
    let (em, _fx) = machine.global_on_pointer_up(&pointer_event(1, 7, 6, 6), &target_rect());
    all.extend(em.iter().copied());

    assert_eq!(
        event_kinds(&all),
        vec![
            PressEventType::PressStart,
            PressEventType::PressUp,
            PressEventType::PressEnd,
            PressEventType::Press,
        ]
    );
    assert!(!machine.is_pressed());
}

#[test]
fn release_outside_never_commits() {
    let mut machine = fresh_machine();
    let target = div_element(1);
    let mut all: Vec<Emission> = Vec::new();

    let (em, _fx) = machine.on_pointer_down(&pointer_event(1, 7, 5, 5), &target, true);
    all.extend(em.iter().copied());
    let (em, _fx) = machine.on_pointer_move(&pointer_event(1, 7, 50, 50), &target_rect());
    all.extend(em.iter().copied());
    let (em, fx) = machine.global_on_pointer_up(&pointer_event(1, 7, 50, 50), &target_rect());
    all.extend(em.iter().copied());

    assert_eq!(event_kinds(&all), vec![PressEventType::PressStart, PressEventType::PressEnd]);

    // The terminating pointer-up still ends the gesture: all transient
    // state is cleared, the document listeners are detached, and the
    // text-selection suppression is restored.
    assert!(!machine.is_pressed());
    assert_eq!(machine.state.active_pointer_id, None);
    assert!(!machine.state.is_over_target);
    assert_eq!(machine.state.pointer_type, PointerType::Unsupported);
    assert_eq!(machine.listeners.entries.len(), 0);
    let detached = fx.iter().filter(|f| matches!(f, Effect::DetachListener { .. })).count();
    assert_eq!(detached, 3);
    assert!(fx.iter().any(|f| matches!(f, Effect::RestoreTextSelection(1))));
}

#[test]
fn reentry_restarts_press_without_new_gesture() {
    let mut machine = fresh_machine();
    let target = div_element(1);
    let mut all: Vec<Emission> = Vec::new();

    let (em, _fx) = machine.on_pointer_down(&pointer_event(1, 7, 5, 5), &target, true);
    all.extend(em.iter().copied());
    let (em, _fx) = machine.on_pointer_move(&pointer_event(1, 7, 50, 50), &target_rect());
    all.extend(em.iter().copied());
    let (em, _fx) = machine.on_pointer_move(&pointer_event(1, 7, 4, 4), &target_rect());
    all.extend(em.iter().copied());
    let (em, _fx) = machine.global_on_pointer_up(&pointer_event(1, 7, 4, 4), &target_rect());
    all.extend(em.iter().copied());

    assert_eq!(
        event_kinds(&all),
        vec![
            PressEventType::PressStart,
            PressEventType::PressEnd,
            PressEventType::PressStart,
            PressEventType::PressEnd,
            PressEventType::Press,
        ]
    );
}

#[test]
fn duplicate_pointer_down_is_noop() {
    let mut machine = fresh_machine();
    let target = div_element(1);

    let (_em, _fx) = machine.on_pointer_down(&pointer_event(1, 7, 5, 5), &target, true);
    let state_before = machine.state;
    let listeners_before = machine.listeners.entries.len();

    let (em, _fx) = machine.on_pointer_down(&pointer_event(1, 9, 5, 5), &target, true);
    assert!(em.is_empty());
    assert_eq!(machine.state, state_before);
    assert_eq!(machine.listeners.entries.len(), listeners_before);
}

#[test]
fn cancel_scenarios_are_idempotent() {
    let mut machine = fresh_machine();
    let target = div_element(1);
    let cancel_event = FocusableEvent::Pointer(event_data(1), None);

    // Cancel while not pressed is a no-op.
    let (em, fx) = machine.cancel(&cancel_event);
    assert!(em.is_empty());
    assert!(fx.is_empty());

    // Cancel while pressed and over the target fires press-end, no commit.
    let (_em, _fx) = machine.on_pointer_down(&pointer_event(1, 7, 5, 5), &target, true);
    assert!(machine.is_pressed());
    let (em, fx) = machine.cancel(&cancel_event);
    assert_eq!(event_kinds(&em), vec![PressEventType::PressEnd]);
    assert!(!machine.is_pressed());
    assert_eq!(machine.listeners.entries.len(), 0);
    assert!(fx.iter().any(|f| matches!(f, Effect::RestoreTextSelection(1))));

    // A second cancel right after is again a no-op.
    let (em, fx) = machine.cancel(&cancel_event);
    assert!(em.is_empty());
    assert!(fx.is_empty());
}

#[test]
fn keyboard_activation_fires_once_and_commits_once() {
    let mut machine = fresh_machine();
    let target = button_role_div(3);
    let space = KeyInfo { key: KeyId::Space, code_is_space: true };
    let first = KeyboardInput { data: event_data(3), key: space, repeat: false };
    let repeat = KeyboardInput { data: event_data(3), key: space, repeat: true };

    let (em, fx) = machine.on_key_down(&first, &target, true);
    assert_eq!(event_kinds(&em), vec![PressEventType::PressStart]);
    assert!(fx.iter().any(|f| matches!(f, Effect::AttachListener { .. })));

    // OS key-repeat while already pressed emits nothing further.
    let (em, _fx) = machine.on_key_down(&repeat, &target, true);
    assert!(em.is_empty());
    let (em, _fx) = machine.on_key_down(&first, &target, true);
    assert!(em.is_empty());

    // The document key-up ends the press with a commit.
    let up = KeyboardInput { data: event_data(3), key: space, repeat: false };
    let (em, _fx) = machine.global_on_key_up(&up, &target, true);
    assert_eq!(event_kinds(&em), vec![PressEventType::PressEnd, PressEventType::Press]);

    // A second, unrelated key-up does not double-fire.
    let (em, _fx) = machine.global_on_key_up(&up, &target, true);
    assert!(em.is_empty());
}

#[test]
fn keyboard_link_role_synthesizes_click() {
    let mut machine = fresh_machine();
    let target = ElementInfo { role: Role::Link, ..div_element(4) };
    let enter = KeyInfo { key: KeyId::Enter, code_is_space: false };
    let down = KeyboardInput { data: event_data(4), key: enter, repeat: false };

    let (em, _fx) = machine.on_key_down(&down, &target, true);
    assert_eq!(event_kinds(&em), vec![PressEventType::PressStart]);
    let (_em, fx) = machine.global_on_key_up(&down, &target, true);
    assert!(fx.iter().any(|f| matches!(f, Effect::ClickTarget(4))));
}

#[test]
fn virtual_click_synthesizes_full_press() {
    let mut machine = fresh_machine();
    let target = div_element(5);
    let click = MouseInput {
        data: event_data(5),
        button: 0,
        buttons: 0,
        detail: 0,
        is_trusted: true,
        moz_input_source: None,
        is_pointer_event: false,
        type_is_click: true,
        client_x: 2,
        client_y: 2,
    };

    let (em, fx) = machine.on_click(&click, &target, true);
    assert_eq!(
        event_kinds(&em),
        vec![PressEventType::PressStart, PressEventType::PressUp, PressEventType::PressEnd,
            PressEventType::Press]
    );
    assert!(fx.iter().any(|f| matches!(f, Effect::FocusTarget(_))));
}

#[test]
fn ordinary_click_after_press_is_suppressed() {
    let mut machine = fresh_machine();
    let target = div_element(1);

    let (_em, _fx) = machine.on_pointer_down(&pointer_event(1, 7, 5, 5), &target, true);
    let (_em, _fx) = machine.global_on_pointer_up(&pointer_event(1, 7, 5, 5), &target_rect());
    assert!(machine.state.ignore_click_after_press);

    let click = MouseInput {
        data: event_data(1),
        button: 0,
        buttons: 0,
        detail: 0,
        is_trusted: true,
        moz_input_source: None,
        is_pointer_event: false,
        type_is_click: true,
        client_x: 2,
        client_y: 2,
    };
    let (em, _fx) = machine.on_click(&click, &target, true);
    assert!(em.is_empty());
    assert!(!machine.state.ignore_click_after_press);
}

#[test]
fn disabled_machine_emits_nothing() {
    let mut machine = use_press(UsePressProps { is_disabled: true, ..UsePressProps::default() });
    let target = div_element(1);
    let (em, _fx) = machine.on_pointer_down(&pointer_event(1, 7, 5, 5), &target, true);
    assert!(em.is_empty());
    let (em, _fx) = machine.global_on_pointer_up(&pointer_event(1, 7, 5, 5), &target_rect());
    assert!(em.is_empty());
}

#[test]
fn virtual_pointer_event_defers_to_click_handler() {
    let mut machine = fresh_machine();
    let target = div_element(1);
    let mut ev = pointer_event(1, 7, 5, 5);
    ev.width = 0;
    ev.height = 0;
    ev.pressure_is_zero = true;
    // A screen-reader pointer event records the virtual kind only.
    let synthesized = PointerInput { width: 0, height: 0, ..ev };
    let (em, fx) = machine.on_pointer_down(&synthesized, &target, true);
    assert!(em.is_empty());
    assert!(fx.is_empty());
    assert!(!machine.is_pressed());
    assert_eq!(machine.state.pointer_type, PointerType::Virtual);
}

#[test]
fn non_primary_button_is_ignored() {
    let mut machine = fresh_machine();
    let target = div_element(1);
    let mut ev = pointer_event(1, 7, 5, 5);
    ev.button = 2;
    let (em, fx) = machine.on_pointer_down(&ev, &target, true);
    assert!(em.is_empty());
    assert!(fx.is_empty());
    assert!(!machine.is_pressed());
}

#[test]
fn pointer_down_registers_three_document_listeners() {

    let mut machine = fresh_machine();
    let target = div_element(1);
    let (_em, fx) = machine.on_pointer_down(&pointer_event(1, 7, 5, 5), &target, true);
    let attached: Vec<ListenerEventType> = fx
        .iter()
        .filter_map(|f| match f {
            Effect::AttachListener { target: ListenerTarget::Document, event_type, .. } => {
                Some(*event_type)
            },
            _ => None,
        })
        .collect();
    assert_eq!(
        attached,
        vec![
            ListenerEventType::PointerMove,
            ListenerEventType::PointerUp,
            ListenerEventType::PointerCancel,
        ]
    );
    assert_eq!(machine.listeners.entries.len(), 3);

    // The authoritative pointer-up detaches all of them.
    let (_em, fx) = machine.global_on_pointer_up(&pointer_event(1, 7, 5, 5), &target_rect());
    let detached = fx
        .iter()
        .filter(|f| matches!(f, Effect::DetachListener { .. }))
        .count();
    assert_eq!(detached, 3);
    assert_eq!(machine.listeners.entries.len(), 0);
}

#[test]
fn mismatched_pointer_id_is_ignored() {
    let mut machine = fresh_machine();
    let target = div_element(1);
    let (_em, _fx) = machine.on_pointer_down(&pointer_event(1, 7, 5, 5), &target, true);
    let (em, _fx) = machine.on_pointer_move(&pointer_event(1, 8, 50, 50), &target_rect());
    assert!(em.is_empty());
    let (em, _fx) = machine.global_on_pointer_up(&pointer_event(1, 8, 5, 5), &target_rect());
    assert!(em.is_empty());
    assert!(machine.is_pressed());
}

#[test]
fn drag_start_cancels_press() {
    let mut machine = fresh_machine();
    let target = div_element(1);
    let (_em, _fx) = machine.on_pointer_down(&pointer_event(1, 7, 5, 5), &target, true);
    let drag = DragInput { data: event_data(1), client_x: 5, client_y: 5 };
    let (em, _fx) = machine.on_drag_start(&drag, true);
    assert_eq!(event_kinds(&em), vec![PressEventType::PressEnd]);
    assert!(!machine.is_pressed());
    assert_eq!(machine.listeners.entries.len(), 0);
}

#[test]
fn cancel_on_pointer_exit_option_releases_gesture() {
    let mut machine = use_press(UsePressProps {
        should_cancel_on_pointer_exit: true,
        ..UsePressProps::default()
    });
    let target = div_element(1);
    let (_em, _fx) = machine.on_pointer_down(&pointer_event(1, 7, 5, 5), &target, true);
    let (em, fx) = machine.on_pointer_move(&pointer_event(1, 7, 50, 50), &target_rect());
    assert_eq!(event_kinds(&em), vec![PressEventType::PressEnd]);

    // The exit cancels the gesture then and there: flags cleared, the
    // document listeners detached, and text selection restored.
    assert!(!machine.is_pressed());
    assert_eq!(machine.state.active_pointer_id, None);
    assert_eq!(machine.state.pointer_type, PointerType::Unsupported);
    assert_eq!(machine.listeners.entries.len(), 0);
    let detached = fx.iter().filter(|f| matches!(f, Effect::DetachListener { .. })).count();
    assert_eq!(detached, 3);
    assert!(fx.iter().any(|f| matches!(f, Effect::RestoreTextSelection(1))));

    // A pointer that returns afterwards no longer owns a gesture.
    let (em, _fx) = machine.on_pointer_move(&pointer_event(1, 7, 5, 5), &target_rect());
    assert!(em.is_empty());
}

#[test]
fn press_event_records_modifiers_and_target() {

    let data = EventData {
        current_target: ElementRef { handle: 9, is_svg: false },
        modifiers: EventModifiers {
            shift_key: true,
            ctrl_key: false,
            alt_key: true,
            meta_key: false,
        },
    };
    let focusable = FocusableEvent::Mouse(data, None);
    let event = PressEvent::create(&PointerType::Mouse, PressEventType::PressStart, &focusable);
    assert_eq!(event.event_type, PressEventType::PressStart);
    assert_eq!(event.pointer_type, PointerType::Mouse);
    assert_eq!(event.target.handle, 9);
    assert!(event.shift_key);
    assert!(!event.ctrl_key);
    assert!(event.alt_key);
    assert!(!event.meta_key);
}

#[test]
fn pointer_type_from_platform_strings() {
    assert_eq!(PointerType::from(String::from("mouse")), PointerType::Mouse);
    assert_eq!(PointerType::from(String::from("pen")), PointerType::Pen);
    assert_eq!(PointerType::from(String::from("touch")), PointerType::Touch);
    assert_eq!(PointerType::from(String::from("keyboard")), PointerType::Keyboard);
    assert_eq!(PointerType::from(String::from("virtual")), PointerType::Virtual);
    assert_eq!(PointerType::from(String::from("stylus")), PointerType::Unsupported);
    assert_eq!(PointerType::from(String::new()), PointerType::Unsupported);
}
