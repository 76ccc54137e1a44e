//! Classifying synthesized input.
//!
//! Keyboards, assistive technologies and `element.click()` all produce
//! "virtual" click events. These predicates infer such clicks from the
//! event fields alone, so that the press machine can route them through
//! the click-handler fallback path instead of the pointer path.

use vstd::prelude::*;
use crate::events::{MouseInput, PointerInput};
use crate::use_press::PointerType;

verus! {

/// The virtual-click rule: a trusted event with a zero vendor input-source
/// marker; or, on an Android platform, a pointer-event-typed click with
/// exactly the primary button held; or a zero click counter on an event
/// that is not a pointer event.
pub open spec fn spec_is_virtual_click(event: MouseInput, android: bool) -> bool {
    if event.moz_input_source == Some(0i32) && event.is_trusted {
        true
    } else if android && event.is_pointer_event {
        event.type_is_click && event.buttons == 1u16
    } else {
        event.detail == 0i32 && !event.is_pointer_event
    }
}

/// Whether a mouse event was synthesized by assistive technology or by
/// `element.click()` rather than by real hardware input. `android` is the
/// platform capability flag, since one mobile screen reader reports its
/// clicks differently.
pub fn is_virtual_click(event: &MouseInput, android: bool) -> (r: bool)
    ensures
        r == spec_is_virtual_click(*event, android),
{
    if matches!(event.moz_input_source, Some(0i32)) && event.is_trusted {
        return true;
    }
    if android && event.is_pointer_event {
        return event.type_is_click && event.buttons == 1;
    }
    event.detail == 0 && !event.is_pointer_event
}

/// The virtual-pointer rule: a contact of zero width and height, or the
/// specific one-by-one zero-pressure zero-detail mouse-kind pattern a
/// mobile screen reader's double tap produces.
pub open spec fn spec_is_virtual_pointer_event(event: PointerInput) -> bool {
    ||| (event.width == 0i32 && event.height == 0i32)
    ||| (event.width == 1i32 && event.height == 1i32 && event.pressure_is_zero
        && event.detail == 0i32 && event.pointer_kind is Mouse)
}

/// Whether a pointer event was synthesized by a screen reader rather than
/// by real hardware input.
pub fn is_virtual_pointer_event(event: &PointerInput) -> (r: bool)
    ensures
        r == spec_is_virtual_pointer_event(*event),
{
    (event.width == 0 && event.height == 0)
        || (event.width == 1 && event.height == 1 && event.pressure_is_zero && event.detail == 0
            && matches!(event.pointer_kind, PointerType::Mouse))
}

} // verus!
