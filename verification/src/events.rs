//! Plain-data models of the browser events the press logic consumes.
//!
//! The adapter copies, per event, the fields the logic reads; coordinates
//! and sizes keep the 32-bit range the platform reports them in, widened
//! to 64 bits before arithmetic so that rectangle inflation cannot
//! overflow.

use vstd::prelude::*;
use crate::geometry::Rect;

verus! {

/// The keyboard modifier flags carried by every input event.
#[derive(Clone, Copy, PartialEq, Eq, Structural, Debug)]
pub struct EventModifiers {
    pub shift_key: bool,
    pub ctrl_key: bool,
    pub alt_key: bool,
    pub meta_key: bool,
}

/// A reference to a DOM element: its adapter-assigned handle and whether
/// it is an SVG element.
#[derive(Clone, Copy, PartialEq, Eq, Structural, Debug)]
pub struct ElementRef {
    pub handle: u64,
    pub is_svg: bool,
}

/// An element that can receive focus, split by namespace as the platform
/// focus call requires.
#[derive(Clone, Copy, PartialEq, Eq, Structural, Debug)]
pub enum FocusableElement {
    Svg(ElementRef),
    Html(ElementRef),
}

/// The focusable element standing for `value`: SVG elements go to the SVG
/// variant, every other element to the HTML variant.
pub open spec fn spec_focusable_element(value: ElementRef) -> FocusableElement {
    if value.is_svg {
        FocusableElement::Svg(value)
    } else {
        FocusableElement::Html(value)
    }
}

/// Conversion into a [`FocusableElement`].
pub trait ToFocusableElement {
    /// The element reference the conversion classifies.
    spec fn spec_element_ref(&self) -> ElementRef;

    /// Converts the type to a `FocusableElement`.
    fn to_focusable_element(&self) -> (r: FocusableElement)
        ensures
            r == spec_focusable_element(self.spec_element_ref()),
    ;
}

impl ToFocusableElement for ElementRef {
    open spec fn spec_element_ref(&self) -> ElementRef {
        *self
    }

    fn to_focusable_element(&self) -> (r: FocusableElement) {
        if self.is_svg {
            FocusableElement::Svg(*self)
        } else {
            FocusableElement::Html(*self)
        }
    }
}

/// The fields shared by every event the press logic handles.
#[derive(Clone, Copy, PartialEq, Eq, Structural, Debug)]
pub struct EventData {
    /// The element the handler was attached to.
    pub current_target: ElementRef,
    pub modifiers: EventModifiers,
}

/// Any event that can drive a press, with an optional override element
/// recorded when the gesture's target differs from the event's current
/// target.
#[derive(Clone, Copy, PartialEq, Eq, Structural, Debug)]
pub enum FocusableEvent {
    Mouse(EventData, Option<FocusableElement>),
    Keyboard(EventData, Option<FocusableElement>),
    Touch(EventData, Option<FocusableElement>),
    Drag(EventData, Option<FocusableElement>),
    Pointer(EventData, Option<FocusableElement>),
    Wheel(EventData, Option<FocusableElement>),
}

impl FocusableEvent {
    /// The event's shared fields.
    pub open spec fn spec_data(&self) -> EventData {
        match *self {
            FocusableEvent::Mouse(data, _) => data,
            FocusableEvent::Keyboard(data, _) => data,
            FocusableEvent::Touch(data, _) => data,
            FocusableEvent::Drag(data, _) => data,
            FocusableEvent::Pointer(data, _) => data,
            FocusableEvent::Wheel(data, _) => data,
        }
    }

    /// The recorded override element, if any.
    pub open spec fn spec_element(&self) -> Option<FocusableElement> {
        match *self {
            FocusableEvent::Mouse(_, element) => element,
            FocusableEvent::Keyboard(_, element) => element,
            FocusableEvent::Touch(_, element) => element,
            FocusableEvent::Drag(_, element) => element,
            FocusableEvent::Pointer(_, element) => element,
            FocusableEvent::Wheel(_, element) => element,
        }
    }

    /// The element a focus request for this event should go to: the
    /// recorded override element where one was stored, otherwise the
    /// event's current target.
    pub fn focusable_target(&self) -> (r: FocusableElement)
        ensures
            r == match self.spec_element() {
                Some(element) => element,
                None => spec_focusable_element(self.spec_data().current_target),
            },
    {
        let element = match *self {
            FocusableEvent::Mouse(_, element) => element,
            FocusableEvent::Keyboard(_, element) => element,
            FocusableEvent::Touch(_, element) => element,
            FocusableEvent::Drag(_, element) => element,
            FocusableEvent::Pointer(_, element) => element,
            FocusableEvent::Wheel(_, element) => element,
        };
        match element {
            Some(element) => element,
            None => self.current_target().to_focusable_element(),
        }
    }

    /// The element the handler was attached to.
    pub fn current_target(&self) -> (r: ElementRef)
        ensures
            r == self.spec_data().current_target,
    {
        match *self {
            FocusableEvent::Mouse(data, _) => data.current_target,
            FocusableEvent::Keyboard(data, _) => data.current_target,
            FocusableEvent::Touch(data, _) => data.current_target,
            FocusableEvent::Drag(data, _) => data.current_target,
            FocusableEvent::Pointer(data, _) => data.current_target,
            FocusableEvent::Wheel(data, _) => data.current_target,
        }
    }

    /// Whether the shift modifier was held.
    pub fn shift_key(&self) -> (r: bool)
        ensures
            r == self.spec_data().modifiers.shift_key,
    {
        self.data().modifiers.shift_key
    }

    /// Whether the ctrl modifier was held.
    pub fn ctrl_key(&self) -> (r: bool)
        ensures
            r == self.spec_data().modifiers.ctrl_key,
    {
        self.data().modifiers.ctrl_key
    }

    /// Whether the alt modifier was held.
    pub fn alt_key(&self) -> (r: bool)
        ensures
            r == self.spec_data().modifiers.alt_key,
    {
        self.data().modifiers.alt_key
    }

    /// Whether the meta modifier was held.
    pub fn meta_key(&self) -> (r: bool)
        ensures
            r == self.spec_data().modifiers.meta_key,
    {
        self.data().modifiers.meta_key
    }

    fn data(&self) -> (r: EventData)
        ensures
            r == self.spec_data(),
    {
        match *self {
            FocusableEvent::Mouse(data, _) => data,
            FocusableEvent::Keyboard(data, _) => data,
            FocusableEvent::Touch(data, _) => data,
            FocusableEvent::Drag(data, _) => data,
            FocusableEvent::Pointer(data, _) => data,
            FocusableEvent::Wheel(data, _) => data,
        }
    }
}

/// What the press logic reads of a mouse event.
#[derive(Clone, Copy, PartialEq, Eq, Structural, Debug)]
pub struct MouseInput {
    pub data: EventData,
    /// The button whose state change fired the event; 0 is the primary
    /// button.
    pub button: i16,
    /// The buttons held while the event fired, as the platform bit mask.
    pub buttons: u16,
    /// The event's click counter.
    pub detail: i32,
    /// Whether the event was dispatched by the user agent itself.
    pub is_trusted: bool,
    /// The vendor-specific input source marker, where the engine exposes
    /// one.
    pub moz_input_source: Option<i32>,
    /// Whether the event object is a pointer event instance.
    pub is_pointer_event: bool,
    /// Whether the event's type is "click".
    pub type_is_click: bool,
    pub client_x: i32,
    pub client_y: i32,
}

/// What the press logic reads of a pointer event.
#[derive(Clone, Copy, PartialEq, Eq, Structural, Debug)]
pub struct PointerInput {
    pub data: EventData,
    pub pointer_id: i32,
    pub button: i16,
    pub buttons: u16,
    /// The contact geometry's width.
    pub width: i32,
    /// The contact geometry's height.
    pub height: i32,
    /// Whether the reported pressure is exactly zero.
    pub pressure_is_zero: bool,
    pub detail: i32,
    /// The pointer kind string already decoded by [`crate::use_press::PointerType::from`].
    pub pointer_kind: crate::use_press::PointerType,
    pub is_trusted: bool,
    pub client_x: i32,
    pub client_y: i32,
}

/// What the press logic reads of a keyboard event.
#[derive(Clone, Copy, PartialEq, Eq, Structural, Debug)]
pub struct KeyboardInput {
    pub data: EventData,
    /// The key the event reports.
    pub key: crate::element::KeyInfo,
    /// Whether the event comes from the OS key-repeat.
    pub repeat: bool,
}

/// One active touch point of a touch event.
#[derive(Clone, Copy, PartialEq, Eq, Structural, Debug)]
pub struct TouchPoint {
    pub client_x: i32,
    pub client_y: i32,
    pub radius_x: i32,
    pub radius_y: i32,
}

/// What the press logic reads of a touch event.
#[derive(Clone, PartialEq, Eq, Debug)]
pub struct TouchInput {
    pub data: EventData,
    pub touches: Vec<TouchPoint>,
}

/// What the press logic reads of a drag event.
#[derive(Clone, Copy, PartialEq, Eq, Structural, Debug)]
pub struct DragInput {
    pub data: EventData,
    pub client_x: i32,
    pub client_y: i32,
}

/// The degenerate rectangle of a point event at the given coordinates.
pub open spec fn spec_point_rect(x: int, y: int) -> Rect {
    Rect { top: y as i64, right: x as i64, bottom: y as i64, left: x as i64 }
}

/// The rectangle of a contact inflated by its extent on each side.
pub open spec fn spec_inflated_rect(x: int, y: int, extent_x: int, extent_y: int) -> Rect {
    Rect {
        top: (y - extent_y) as i64,
        right: (x + extent_x) as i64,
        bottom: (y + extent_y) as i64,
        left: (x - extent_x) as i64,
    }
}

/// The input point rectangles an event produces for overlap testing.
pub trait GetRects {
    /// The rectangles the event stands for.
    spec fn spec_rects(&self) -> Seq<Rect>;

    /// Computes the event's input point rectangles.
    fn get_rects(&self) -> (r: Vec<Rect>)
        ensures
            r@ == self.spec_rects(),
    ;
}

impl GetRects for MouseInput {
    open spec fn spec_rects(&self) -> Seq<Rect> {
        seq![spec_point_rect(self.client_x as int, self.client_y as int)]
    }

    fn get_rects(&self) -> (r: Vec<Rect>) {
        let x = self.client_x as i64;
        let y = self.client_y as i64;
        let rect = Rect { top: y, right: x, bottom: y, left: x };
        let r = vec![rect];
        assert(r@ =~= self.spec_rects());
        r
    }
}

impl GetRects for DragInput {
    open spec fn spec_rects(&self) -> Seq<Rect> {
        seq![spec_point_rect(self.client_x as int, self.client_y as int)]
    }

    fn get_rects(&self) -> (r: Vec<Rect>) {
        let x = self.client_x as i64;
        let y = self.client_y as i64;
        let rect = Rect { top: y, right: x, bottom: y, left: x };
        let r = vec![rect];
        assert(r@ =~= self.spec_rects());
        r
    }
}

impl GetRects for PointerInput {
    open spec fn spec_rects(&self) -> Seq<Rect> {
        seq![
            spec_inflated_rect(
                self.client_x as int,
                self.client_y as int,
                self.width as int,
                self.height as int,
            ),
        ]
    }

    fn get_rects(&self) -> (r: Vec<Rect>) {
        let x = self.client_x as i64;
        let y = self.client_y as i64;
        let offset_x = self.width as i64;
        let offset_y = self.height as i64;
        let rect = Rect {
            top: y - offset_y,
            right: x + offset_x,
            bottom: y + offset_y,
            left: x - offset_x,
        };
        let r = vec![rect];
        assert(r@ =~= self.spec_rects());
        r
    }
}

impl GetRects for TouchInput {
    open spec fn spec_rects(&self) -> Seq<Rect> {
        Seq::new(
            self.touches@.len(),
            |i: int|
                spec_inflated_rect(
                    self.touches@[i].client_x as int,
                    self.touches@[i].client_y as int,
                    self.touches@[i].radius_x as int,
                    self.touches@[i].radius_y as int,
                ),
        )
    }

    fn get_rects(&self) -> (r: Vec<Rect>) {
        let mut rects: Vec<Rect> = Vec::new();
        let mut index: usize = 0;
        while index < self.touches.len()
            invariant
                index <= self.touches@.len(),
                rects@.len() == index,
                forall|j: int| 0 <= j < index ==> rects@[j] == self.spec_rects()[j],
            decreases self.touches@.len() - index,
        {
            let touch = &self.touches[index];
            let x = touch.client_x as i64;
            let y = touch.client_y as i64;
            let offset_x = touch.radius_x as i64;
            let offset_y = touch.radius_y as i64;
            rects.push(
                Rect {
                    top: y - offset_y,
                    right: x + offset_x,
                    bottom: y + offset_y,
                    left: x - offset_x,
                },
            );
            index += 1;
        }
        assert(rects@ =~= self.spec_rects());
        rects
    }
}

} // verus!
