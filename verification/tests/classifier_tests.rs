use aria_press::element::{
    has_link_role, is_html_anchor_link, is_valid_input_key, is_valid_keyboard_event,
    should_prevent_default, should_prevent_default_keyboard, ControlKind, ElementInfo, InputType,
    KeyId, KeyInfo, Role,
};
use aria_press::events::{
    DragInput, ElementRef, EventData, EventModifiers, GetRects, MouseInput, PointerInput,
    TouchInput, TouchPoint,
};
use aria_press::geometry::{are_rectangles_overlapping, is_above_target, Rect};
use aria_press::platform::{
    is_android, is_apple_device, is_chrome, is_ios, is_ipad, is_iphone, is_mac, is_webkit,
    test_platform, test_user_agent, PlatformInfo,
};
use aria_press::use_press::PointerType;
use aria_press::virtual_event::{is_virtual_click, is_virtual_pointer_event};
use aria_press::events::{FocusableElement, FocusableEvent, ToFocusableElement};

fn no_modifiers() -> EventModifiers {
    EventModifiers { shift_key: false, ctrl_key: false, alt_key: false, meta_key: false }
}

fn event_data() -> EventData {
    EventData { current_target: ElementRef { handle: 1, is_svg: false }, modifiers: no_modifiers() }
}

fn mouse_event() -> MouseInput {
    MouseInput {
        data: event_data(),
        button: 0,
        buttons: 0,
        detail: 1,
        is_trusted: true,
        moz_input_source: None,
        is_pointer_event: false,
        type_is_click: true,
        client_x: 3,
        client_y: 4,
    }
}

fn pointer_input() -> PointerInput {
    PointerInput {
        data: event_data(),
        pointer_id: 1,
        button: 0,
        buttons: 1,
        width: 4,
        height: 6,
        pressure_is_zero: false,
        detail: 1,
        pointer_kind: PointerType::Touch,
        is_trusted: true,
        client_x: 10,
        client_y: 20,
    }
}

#[test]
fn overlap_inside_point() {
    let target = Rect { top: 0, left: 0, bottom: 10, right: 10 };
    let point = Rect { top: 5, left: 5, bottom: 5, right: 5 };
    assert!(is_above_target(&vec![point], &target));
}

#[test]
fn overlap_outside_point() {
    let target = Rect { top: 0, left: 0, bottom: 10, right: 10 };
    let point = Rect { top: 20, left: 20, bottom: 20, right: 20 };
    assert!(!is_above_target(&vec![point], &target));
}

#[test]
fn overlap_is_inclusive_at_the_boundary() {
    let target = Rect { top: 0, left: 0, bottom: 10, right: 10 };
    let edge = Rect { top: 10, left: 10, bottom: 10, right: 10 };
    assert!(is_above_target(&vec![edge], &target));
}

#[test]
fn overlap_any_of_many() {
    let target = Rect { top: 0, left: 0, bottom: 10, right: 10 };
    let far = Rect { top: 50, left: 50, bottom: 50, right: 50 };
    let near = Rect { top: 2, left: 2, bottom: 3, right: 3 };
    assert!(are_rectangles_overlapping(&target, &vec![far, near]));
    assert!(!are_rectangles_overlapping(&target, &vec![far]));
    assert!(!are_rectangles_overlapping(&target, &Vec::new()));
}

#[test]
fn virtual_click_detail_zero_non_pointer() {
    let mut ev = mouse_event();
    ev.detail = 0;
    assert!(is_virtual_click(&ev, false));
    ev.detail = 1;
    assert!(!is_virtual_click(&ev, false));
}

#[test]
fn virtual_click_vendor_marker() {
    let mut ev = mouse_event();
    ev.moz_input_source = Some(0);
    ev.is_trusted = true;
    assert!(is_virtual_click(&ev, false));
    ev.is_trusted = false;
    ev.detail = 1;
    assert!(!is_virtual_click(&ev, false));
}

#[test]
fn virtual_click_android_pointer_typed() {
    let mut ev = mouse_event();
    ev.is_pointer_event = true;
    ev.type_is_click = true;
    ev.buttons = 1;
    ev.detail = 1;
    assert!(is_virtual_click(&ev, true));
    // Off Android the pointer-event rule does not apply.
    assert!(!is_virtual_click(&ev, false));
    ev.buttons = 0;
    assert!(!is_virtual_click(&ev, true));
}

#[test]
fn virtual_pointer_zero_size() {
    let mut ev = pointer_input();
    ev.width = 0;
    ev.height = 0;
    assert!(is_virtual_pointer_event(&ev));
}

#[test]
fn virtual_pointer_talkback_double_tap() {
    let mut ev = pointer_input();
    ev.width = 1;
    ev.height = 1;
    ev.pressure_is_zero = true;
    ev.detail = 0;
    ev.pointer_kind = PointerType::Mouse;
    assert!(is_virtual_pointer_event(&ev));
    // Genuine low-precision touch reports the touch kind.
    ev.pointer_kind = PointerType::Touch;
    assert!(!is_virtual_pointer_event(&ev));
}

#[test]
fn mouse_and_drag_rects_are_degenerate_points() {
    let ev = mouse_event();
    let rects = ev.get_rects();
    assert_eq!(rects.len(), 1);
    assert_eq!(rects[0], Rect { top: 4, right: 3, bottom: 4, left: 3 });

    let drag = DragInput { data: event_data(), client_x: 7, client_y: 8 };
    let rects = drag.get_rects();
    assert_eq!(rects[0], Rect { top: 8, right: 7, bottom: 8, left: 7 });
}

#[test]
fn pointer_rect_is_inflated_by_contact_size() {
    let ev = pointer_input();
    let rects = ev.get_rects();
    assert_eq!(rects[0], Rect { top: 14, right: 14, bottom: 26, left: 6 });
}

#[test]
fn touch_rects_one_per_touch() {
    let touch = TouchInput {
        data: event_data(),
        touches: vec![
            TouchPoint { client_x: 10, client_y: 10, radius_x: 2, radius_y: 3 },
            TouchPoint { client_x: 100, client_y: 100, radius_x: 0, radius_y: 0 },
        ],
    };
    let rects = touch.get_rects();
    assert_eq!(rects.len(), 2);
    assert_eq!(rects[0], Rect { top: 7, right: 12, bottom: 13, left: 8 });
    assert_eq!(rects[1], Rect { top: 100, right: 100, bottom: 100, left: 100 });
}

fn platform(platform: Option<&str>, user_agent: Option<&str>) -> PlatformInfo {
    PlatformInfo {
        platform: platform.map(String::from),
        user_agent: user_agent.map(String::from),
    }
}

#[test]
fn platform_predicates_match_lowercased_substrings() {
    assert!(is_iphone(&platform(Some("iPhone"), None)));
    assert!(is_ipad(&platform(Some("iPad"), None)));
    assert!(is_ios(&platform(Some("IPAD"), None)));
    assert!(!is_ios(&platform(Some("MacIntel"), None)));
    assert!(is_mac(&platform(Some("MacIntel"), None)));
    assert!(is_apple_device(&platform(Some("MacIntel"), None)));
    assert!(is_android(&platform(None, Some("Mozilla/5.0 (Linux; Android 13)"))));
    assert!(is_chrome(&platform(None, Some("Mozilla AppleWebKit Chrome/117"))));
    assert!(!is_webkit(&platform(None, Some("Mozilla AppleWebKit Chrome/117"))));
    assert!(is_webkit(&platform(None, Some("Mozilla AppleWebKit Safari"))));
}

#[test]
fn platform_predicates_without_navigator_strings() {
    assert!(!is_ios(&platform(None, None)));
    assert!(!is_android(&platform(None, None)));
    assert!(!test_platform(&platform(None, None), "iphone"));
    assert!(!test_user_agent(&platform(None, None), "android"));
}

#[test]
fn user_agent_test_is_case_insensitive() {
    let info = platform(None, Some("ANDROID"));
    assert!(test_user_agent(&info, "android"));
    let info = platform(Some("IPHONE"), None);
    assert!(test_platform(&info, "iphone"));
    let info = platform(None, Some("Andro"));
    assert!(!test_user_agent(&info, "android"));
}

fn plain_div() -> ElementInfo {
    ElementInfo {
        handle: 1,
        is_html: true,
        is_svg: false,
        draggable: false,
        content_editable: false,
        control: ControlKind::Other,
        tag_is_anchor: false,
        has_href: false,
        role: Role::Missing,
    }
}

#[test]
fn keyboard_eligibility_table() {
    let space = KeyInfo { key: KeyId::Space, code_is_space: true };
    let enter = KeyInfo { key: KeyId::Enter, code_is_space: false };
    let other = KeyInfo { key: KeyId::Other, code_is_space: false };

    // Plain elements accept Enter and space.
    assert!(is_valid_keyboard_event(&space, &plain_div()));
    assert!(is_valid_keyboard_event(&enter, &plain_div()));
    assert!(!is_valid_keyboard_event(&other, &plain_div()));

    // The physical space code qualifies even with an unrecognized key.
    let physical_space = KeyInfo { key: KeyId::Other, code_is_space: true };
    assert!(is_valid_keyboard_event(&physical_space, &plain_div()));

    // Checkboxes toggle on space only.
    let checkbox = ElementInfo { control: ControlKind::Input(InputType::Checkbox), ..plain_div() };
    assert!(is_valid_keyboard_event(&space, &checkbox));
    assert!(!is_valid_keyboard_event(&enter, &checkbox));

    // Text inputs are never eligible.
    let text = ElementInfo { control: ControlKind::Input(InputType::Text), ..plain_div() };
    assert!(!is_valid_keyboard_event(&space, &text));

    // Text areas and content-editable targets are handled natively.
    let textarea = ElementInfo { control: ControlKind::TextArea, ..plain_div() };
    assert!(!is_valid_keyboard_event(&space, &textarea));
    let editable = ElementInfo { content_editable: true, ..plain_div() };
    assert!(!is_valid_keyboard_event(&space, &editable));

    // A native link is eligible only with role="button" and a non-Enter key.
    let link = ElementInfo { control: ControlKind::Anchor, has_href: true, ..plain_div() };
    assert!(!is_valid_keyboard_event(&enter, &link));
    assert!(!is_valid_keyboard_event(&space, &link));
    let link_button = ElementInfo { role: Role::Button, ..link };
    assert!(is_valid_keyboard_event(&space, &link_button));
    assert!(!is_valid_keyboard_event(&enter, &link_button));

    // A role="link" element is eligible only with Enter.
    let role_link = ElementInfo { role: Role::Link, ..plain_div() };
    assert!(is_valid_keyboard_event(&enter, &role_link));
    assert!(!is_valid_keyboard_event(&space, &role_link));
}

#[test]
fn input_key_validity() {
    assert!(is_valid_input_key(InputType::Checkbox, KeyId::Space));
    assert!(!is_valid_input_key(InputType::Checkbox, KeyId::Enter));
    assert!(is_valid_input_key(InputType::Radio, KeyId::Space));
    assert!(!is_valid_input_key(InputType::Radio, KeyId::Enter));
    assert!(is_valid_input_key(InputType::Submit, KeyId::Enter));
    assert!(is_valid_input_key(InputType::Range, KeyId::Other));
    assert!(!is_valid_input_key(InputType::Text, KeyId::Enter));
}

#[test]
fn anchor_link_and_link_role_rules() {
    let anchor = ElementInfo { control: ControlKind::Anchor, ..plain_div() };
    assert!(is_html_anchor_link(&anchor));
    let named_a = ElementInfo { tag_is_anchor: true, has_href: true, ..plain_div() };
    assert!(is_html_anchor_link(&named_a));
    let bare_a = ElementInfo { tag_is_anchor: true, has_href: false, ..plain_div() };
    assert!(!is_html_anchor_link(&bare_a));
    assert!(has_link_role(&anchor));
    let role_link = ElementInfo { role: Role::Link, ..plain_div() };
    assert!(has_link_role(&role_link));
    assert!(!has_link_role(&plain_div()));
}

#[test]
fn prevent_default_rules() {
    assert!(should_prevent_default(&plain_div()));
    let draggable = ElementInfo { draggable: true, ..plain_div() };
    assert!(!should_prevent_default(&draggable));
    let svg = ElementInfo { is_html: false, is_svg: true, ..plain_div() };
    assert!(should_prevent_default(&svg));

    // Keyboard variant: inputs that accept the key keep their default.
    let checkbox = ElementInfo { control: ControlKind::Input(InputType::Checkbox), ..plain_div() };
    assert!(!should_prevent_default_keyboard(&checkbox, KeyId::Space));
    assert!(should_prevent_default_keyboard(&checkbox, KeyId::Enter));
    let submit = ElementInfo { control: ControlKind::Button { submit: true }, ..plain_div() };
    assert!(should_prevent_default_keyboard(&submit, KeyId::Enter));
    let button = ElementInfo { control: ControlKind::Button { submit: false }, ..plain_div() };
    assert!(!should_prevent_default_keyboard(&button, KeyId::Enter));
    assert!(should_prevent_default_keyboard(&plain_div(), KeyId::Space));
}

#[test]
fn focusable_event_accessors() {

    let data = EventData {
        current_target: ElementRef { handle: 11, is_svg: false },
        modifiers: EventModifiers {
            shift_key: true,
            ctrl_key: true,
            alt_key: false,
            meta_key: false,
        },
    };
    let event = FocusableEvent::Keyboard(data, None);
    assert_eq!(event.current_target().handle, 11);
    assert!(event.shift_key());
    assert!(event.ctrl_key());
    assert!(!event.alt_key());
    assert!(!event.meta_key());
    assert!(matches!(event.focusable_target(), FocusableElement::Html(_)));

    let svg_ref = ElementRef { handle: 12, is_svg: true };
    assert!(matches!(svg_ref.to_focusable_element(), FocusableElement::Svg(_)));
    let overridden = FocusableEvent::Pointer(data, Some(svg_ref.to_focusable_element()));
    assert!(matches!(overridden.focusable_target(), FocusableElement::Svg(_)));
}
