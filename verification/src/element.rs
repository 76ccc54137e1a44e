//! A plain-data model of the pressable DOM element.
//!
//! The platform adapter reads, once per event, the element properties the
//! press logic depends on (tag kind, input type, ARIA role, editability,
//! draggability) and hands them over in an `ElementInfo`. The keyboard
//! eligibility rules and the prevent-default decisions are then verified
//! functions over that record.

use vstd::prelude::*;

verus! {

/// The ARIA role attribute values the press logic distinguishes.
#[derive(Clone, Copy, PartialEq, Eq, Structural, Debug)]
pub enum Role {
    /// No role attribute is present.
    Missing,
    Button,
    Link,
    /// A role attribute with any other value.
    Other,
}

/// The `type` attribute of an input element.
#[derive(Clone, Copy, PartialEq, Eq, Structural, Debug)]
pub enum InputType {
    Checkbox,
    Radio,
    Range,
    Color,
    File,
    Image,
    Button,
    Submit,
    Reset,
    /// Any type not listed above (text, password, search, ...).
    Text,
}

/// The element classes whose press behaviour differs.
#[derive(Clone, Copy, PartialEq, Eq, Structural, Debug)]
pub enum ControlKind {
    /// An input element, with its `type` attribute.
    Input(InputType),
    /// A button element; `submit` records whether its type is "submit".
    Button { submit: bool },
    TextArea,
    /// An anchor element.
    Anchor,
    /// Any other element.
    Other,
}

/// What the press logic reads of one DOM element.
#[derive(Clone, Copy, PartialEq, Eq, Structural, Debug)]
pub struct ElementInfo {
    /// The stable integer handle the adapter assigned to the element.
    pub handle: u64,
    /// Whether the element is an HTML element.
    pub is_html: bool,
    /// Whether the element is an SVG element.
    pub is_svg: bool,
    /// The element's `draggable` property.
    pub draggable: bool,
    /// Whether the element is content-editable.
    pub content_editable: bool,
    /// The element class.
    pub control: ControlKind,
    /// Whether the element's tag name is "A".
    pub tag_is_anchor: bool,
    /// Whether the element carries an `href` attribute.
    pub has_href: bool,
    /// The element's role attribute.
    pub role: Role,
}

/// The keys that can activate a press, as read from a keyboard event.
#[derive(Clone, Copy, PartialEq, Eq, Structural, Debug)]
pub enum KeyId {
    Enter,
    /// The event's `key` is the space character.
    Space,
    Other,
}

/// What the press logic reads of one keyboard event's key.
#[derive(Clone, Copy, PartialEq, Eq, Structural, Debug)]
pub struct KeyInfo {
    pub key: KeyId,
    /// Whether the event's `code` is "Space".
    pub code_is_space: bool,
}

/// The anchor-link rule: an anchor element, or any element with tag name
/// "A" carrying an `href` attribute.
pub open spec fn spec_is_html_anchor_link(target: ElementInfo) -> bool {
    target.control is Anchor || (target.tag_is_anchor && target.has_href)
}

/// Whether the element is a native anchor link.
pub fn is_html_anchor_link(target: &ElementInfo) -> (r: bool)
    ensures
        r == spec_is_html_anchor_link(*target),
{
    matches!(target.control, ControlKind::Anchor) || (target.tag_is_anchor && target.has_href)
}

/// The link-role rule: a native anchor link or an element with
/// `role="link"`.
pub open spec fn spec_has_link_role(target: ElementInfo) -> bool {
    spec_is_html_anchor_link(target) || target.role is Link
}

/// Whether the element behaves as a link.
pub fn has_link_role(target: &ElementInfo) -> (r: bool)
    ensures
        r == spec_has_link_role(*target),
{
    is_html_anchor_link(target) || matches!(target.role, Role::Link)
}

/// Whether `key` activates an input of type `input_type`: checkboxes and
/// radios toggle on space only; the other button-like input types accept
/// any activation key; text-like inputs accept none.
pub open spec fn spec_is_valid_input_key(input_type: InputType, key: KeyId) -> bool {
    match input_type {
        InputType::Checkbox | InputType::Radio => key is Space,
        InputType::Text => false,
        _ => true,
    }
}

/// Whether `key` is a valid activation key for an input element of the
/// given type.
pub fn is_valid_input_key(input_type: InputType, key: KeyId) -> (r: bool)
    ensures
        r == spec_is_valid_input_key(input_type, key),
{
    match input_type {
        InputType::Checkbox | InputType::Radio => matches!(key, KeyId::Space),
        InputType::Text => false,
        _ => true,
    }
}

/// The prevent-default rule: default may be prevented unless the target
/// is a draggable HTML element (preventing it there would break native
/// drag semantics).
pub open spec fn spec_should_prevent_default(target: ElementInfo) -> bool {
    !target.is_html || !target.draggable
}

/// Whether a press handler should prevent the event's default action on
/// this element.
pub fn should_prevent_default(target: &ElementInfo) -> (r: bool)
    ensures
        r == spec_should_prevent_default(*target),
{
    !target.is_html || !target.draggable
}

/// Whether a keyboard activation on `target` should prevent the default
/// action: never for an input that accepts the key natively, only for
/// submit buttons among buttons, and always elsewhere.
pub fn should_prevent_default_keyboard(target: &ElementInfo, key: KeyId) -> (r: bool)
    ensures
        r == match target.control {
            ControlKind::Input(t) => !spec_is_valid_input_key(t, key),
            ControlKind::Button { submit } => submit,
            _ => true,
        },
{
    match target.control {
        ControlKind::Input(input_type) => !is_valid_input_key(input_type, key),
        ControlKind::Button { submit } => submit,
        _ => true,
    }
}

/// The keyboard eligibility rule: the key qualifies for press activation
/// on the element.
pub open spec fn spec_is_valid_keyboard_event(key: KeyInfo, target: ElementInfo) -> bool {
    &&& (key.key is Enter || key.key is Space || key.code_is_space)
    &&& !({
        ||| (target.control matches ControlKind::Input(t) && !spec_is_valid_input_key(t, key.key))
        ||| target.control is TextArea
        ||| target.content_editable
    })
    &&& (!(target.control is Anchor || (target.tag_is_anchor && target.has_href))
        || (target.role is Button && !(key.key is Enter)))
    &&& !(target.role is Link && !(key.key is Enter))
}

/// Whether the keyboard event qualifies to start or end a press on the
/// element: only Enter, space, or the physical space key; never on text
/// inputs, text areas or content-editable targets; a native link only with
/// `role="button"` and a non-Enter key; a `role="link"` element only with
/// Enter.
pub fn is_valid_keyboard_event(key: &KeyInfo, current_target: &ElementInfo) -> (r: bool)
    ensures
        r == spec_is_valid_keyboard_event(*key, *current_target),
{
    let eligible_key = matches!(key.key, KeyId::Enter) || matches!(key.key, KeyId::Space)
        || key.code_is_space;
    if !eligible_key {
        return false;
    }
    let invalid_target = match current_target.control {
        ControlKind::Input(input_type) => !is_valid_input_key(input_type, key.key),
        ControlKind::TextArea => true,
        _ => false,
    } || current_target.content_editable;
    if invalid_target {
        return false;
    }
    if is_html_anchor_link(current_target)
        && !(matches!(current_target.role, Role::Button) && !matches!(key.key, KeyId::Enter)) {
        return false;
    }
    if matches!(current_target.role, Role::Link) && !matches!(key.key, KeyId::Enter) {
        return false;
    }
    true
}

} // verus!
