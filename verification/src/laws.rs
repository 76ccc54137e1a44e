//! Gesture-level guarantees of the press machine.
//!
//! Each proof composes the handler transitions of
//! [`crate::use_press`] over one event sequence and pins down exactly
//! which press events come out, in which order.

use vstd::prelude::*;
use crate::element::ElementInfo;
use crate::events::{GetRects, PointerInput};
use crate::geometry::{spec_any_overlap, Rect};
use crate::listeners::ListenerEntry;
use crate::use_press::{
    spec_cancel, spec_global_on_key_up, spec_global_on_pointer_up, spec_on_key_down,
    spec_on_pointer_down, spec_on_pointer_move, spec_on_pointer_up, Effect, Emission, PressEventType,
    PressState,
};
use crate::virtual_event::spec_is_virtual_pointer_event;

verus! {

/// The press-event types delivered by a list of emissions, in order,
/// with the pressed-change notifications left out.
pub open spec fn spec_event_kinds(emissions: Seq<Emission>) -> Seq<PressEventType>
    decreases emissions.len(),
{
    if emissions.len() == 0 {
        Seq::<PressEventType>::empty()
    } else {
        spec_event_kinds(emissions.drop_last()) + (match emissions.last() {
            Emission::Event(event) => seq![event.event_type],
            Emission::Change(_) => Seq::<PressEventType>::empty(),
        })
    }
}

/// Event kinds distribute over concatenation.
pub proof fn lemma_event_kinds_concat(a: Seq<Emission>, b: Seq<Emission>)
    ensures
        spec_event_kinds(a + b) == spec_event_kinds(a) + spec_event_kinds(b),
    decreases b.len(),
{
    if b.len() == 0 {
        assert(a + b =~= a);
        assert(spec_event_kinds(a) + Seq::<PressEventType>::empty() =~= spec_event_kinds(a));
    } else {
        lemma_event_kinds_concat(a, b.drop_last());
        assert((a + b).drop_last() =~= a + b.drop_last());
        assert((a + b).last() == b.last());
        assert(spec_event_kinds(a + b) =~= spec_event_kinds(a) + spec_event_kinds(b));
    }
}

/// No gesture is in progress.
pub open spec fn spec_idle(s: PressState) -> bool {
    &&& !s.pressed
    &&& !s.did_fire_press_start
    &&& s.active_pointer_id is None
    &&& !s.is_over_target
}

/// A pointer-down that starts a gesture: primary button, inside the
/// element, not synthesized by a screen reader, and not of the virtual
/// pointer kind.
pub open spec fn spec_starts_gesture(ev: PointerInput) -> bool {
    &&& ev.button == 0i16
    &&& !spec_is_virtual_pointer_event(ev)
    &&& !(ev.pointer_kind is Virtual)
}

/// A completed press delivers exactly one committing press event:
/// for pointer-down, pointer-move inside the target, pointer-up over
/// the element and the terminating document pointer-up over the target,
/// the machine emits exactly one press-start, then one press-up, then
/// one press-end, then one press — nothing else, in that order.
pub proof fn lemma_full_press_commits_once(
    s0: PressState,
    entries0: Seq<(u64, ListenerEntry)>,
    key0: u64,
    current_target: ElementInfo,
    down_ev: PointerInput,
    move_ev: PointerInput,
    up_ev: PointerInput,
    end_ev: PointerInput,
    move_rect: Rect,
    up_rect: Rect,
    end_rect: Rect,
)
    requires
        spec_idle(s0),
        !s0.is_disabled,
        spec_starts_gesture(down_ev),
        move_ev.pointer_id == down_ev.pointer_id,
        spec_any_overlap(move_rect, move_ev.spec_rects()),
        up_ev.button == 0i16,
        spec_any_overlap(up_rect, up_ev.spec_rects()),
        end_ev.pointer_id == down_ev.pointer_id,
        end_ev.button == 0i16,
        spec_any_overlap(end_rect, end_ev.spec_rects()),
    ensures
        ({
            let step1 = spec_on_pointer_down(s0, entries0, key0, down_ev, current_target, true);
            let step2 = spec_on_pointer_move(
                step1.state,
                step1.listener_entries,
                step1.next_listener_key,
                move_ev,
                move_rect,
            );
            let step3 = spec_on_pointer_up(
                step2.state,
                step2.listener_entries,
                step2.next_listener_key,
                up_ev,
                up_rect,
                true,
            );
            let step4 = spec_global_on_pointer_up(
                step3.state,
                step3.listener_entries,
                step3.next_listener_key,
                end_ev,
                end_rect,
            );
            spec_event_kinds(step1.emissions + step2.emissions + step3.emissions + step4.emissions)
                == seq![
                PressEventType::PressStart,
                PressEventType::PressUp,
                PressEventType::PressEnd,
                PressEventType::Press,
            ]
        }),
{
    reveal_with_fuel(spec_event_kinds, 8);
    let step1 = spec_on_pointer_down(s0, entries0, key0, down_ev, current_target, true);
    let step2 = spec_on_pointer_move(
        step1.state,
        step1.listener_entries,
        step1.next_listener_key,
        move_ev,
        move_rect,
    );
    let step3 = spec_on_pointer_up(
        step2.state,
        step2.listener_entries,
        step2.next_listener_key,
        up_ev,
        up_rect,
        true,
    );
    let step4 = spec_global_on_pointer_up(
        step3.state,
        step3.listener_entries,
        step3.next_listener_key,
        end_ev,
        end_rect,
    );
    assert(step1.state.pressed && step1.state.is_over_target && step1.state.did_fire_press_start);
    assert(spec_event_kinds(step1.emissions) =~= seq![PressEventType::PressStart]);
    assert(step2.state == step1.state && step2.emissions =~= Seq::<Emission>::empty());
    assert(spec_event_kinds(step2.emissions) =~= Seq::<PressEventType>::empty());
    assert(step3.state == step2.state);
    assert(spec_event_kinds(step3.emissions) =~= seq![PressEventType::PressUp]);
    assert(spec_event_kinds(step4.emissions) =~= seq![
        PressEventType::PressEnd,
        PressEventType::Press,
    ]);
    lemma_event_kinds_concat(step1.emissions, step2.emissions);
    lemma_event_kinds_concat(step1.emissions + step2.emissions, step3.emissions);
    lemma_event_kinds_concat(
        step1.emissions + step2.emissions + step3.emissions,
        step4.emissions,
    );
    assert(spec_event_kinds(
        step1.emissions + step2.emissions + step3.emissions + step4.emissions,
    ) =~= seq![
        PressEventType::PressStart,
        PressEventType::PressUp,
        PressEventType::PressEnd,
        PressEventType::Press,
    ]);
}

/// A press released outside the target never commits, yet still
/// terminates cleanly: for pointer-down, pointer-move out of the target
/// and the terminating document pointer-up still outside it, the machine
/// emits exactly press-start then press-end — no committing press event —
/// and after the pointer-up every transient gesture flag is cleared, the
/// owning pointer is released, and no gesture listener stays registered.
pub proof fn lemma_press_outside_never_commits(
    s0: PressState,
    entries0: Seq<(u64, ListenerEntry)>,
    key0: u64,
    current_target: ElementInfo,
    down_ev: PointerInput,
    move_ev: PointerInput,
    end_ev: PointerInput,
    move_rect: Rect,
    end_rect: Rect,
)
    requires
        spec_idle(s0),
        !s0.is_disabled,
        !s0.should_cancel_on_pointer_exit,
        spec_starts_gesture(down_ev),
        move_ev.pointer_id == down_ev.pointer_id,
        !spec_any_overlap(move_rect, move_ev.spec_rects()),
        end_ev.pointer_id == down_ev.pointer_id,
        end_ev.button == 0i16,
        !spec_any_overlap(end_rect, end_ev.spec_rects()),
    ensures
        ({
            let step1 = spec_on_pointer_down(s0, entries0, key0, down_ev, current_target, true);
            let step2 = spec_on_pointer_move(
                step1.state,
                step1.listener_entries,
                step1.next_listener_key,
                move_ev,
                move_rect,
            );
            let step3 = spec_global_on_pointer_up(
                step2.state,
                step2.listener_entries,
                step2.next_listener_key,
                end_ev,
                end_rect,
            );
            &&& spec_event_kinds(step1.emissions + step2.emissions + step3.emissions) == seq![
                PressEventType::PressStart,
                PressEventType::PressEnd,
            ]
            &&& !step3.state.pressed
            &&& !step3.state.is_over_target
            &&& step3.state.active_pointer_id is None
            &&& step3.state.pointer_type is Unsupported
            &&& step3.listener_entries == Seq::<(u64, ListenerEntry)>::empty()
        }),
{
    reveal_with_fuel(spec_event_kinds, 8);
    let step1 = spec_on_pointer_down(s0, entries0, key0, down_ev, current_target, true);
    let step2 = spec_on_pointer_move(
        step1.state,
        step1.listener_entries,
        step1.next_listener_key,
        move_ev,
        move_rect,
    );
    let step3 = spec_global_on_pointer_up(
        step2.state,
        step2.listener_entries,
        step2.next_listener_key,
        end_ev,
        end_rect,
    );
    assert(spec_event_kinds(step1.emissions) =~= seq![PressEventType::PressStart]);
    assert(!step2.state.pressed && !step2.state.is_over_target);
    assert(spec_event_kinds(step2.emissions) =~= seq![PressEventType::PressEnd]);
    assert(spec_event_kinds(step3.emissions) =~= Seq::<PressEventType>::empty());
    lemma_event_kinds_concat(step1.emissions, step2.emissions);
    lemma_event_kinds_concat(step1.emissions + step2.emissions, step3.emissions);
    assert(spec_event_kinds(step1.emissions + step2.emissions + step3.emissions) =~= seq![
        PressEventType::PressStart,
        PressEventType::PressEnd,
    ]);
    assert(step3.state.active_pointer_id is None);
}

/// A pointer that leaves the target and returns restarts the visual
/// press without a new gesture: for pointer-down, pointer-move out,
/// pointer-move back in and the terminating document pointer-up over
/// the target, press-start fires twice and press-end once before the
/// final press-end/press pair.
pub proof fn lemma_reentry_restarts_press(
    s0: PressState,
    entries0: Seq<(u64, ListenerEntry)>,
    key0: u64,
    current_target: ElementInfo,
    down_ev: PointerInput,
    out_ev: PointerInput,
    in_ev: PointerInput,
    end_ev: PointerInput,
    out_rect: Rect,
    in_rect: Rect,
    end_rect: Rect,
)
    requires
        spec_idle(s0),
        !s0.is_disabled,
        !s0.should_cancel_on_pointer_exit,
        spec_starts_gesture(down_ev),
        out_ev.pointer_id == down_ev.pointer_id,
        !spec_any_overlap(out_rect, out_ev.spec_rects()),
        in_ev.pointer_id == down_ev.pointer_id,
        spec_any_overlap(in_rect, in_ev.spec_rects()),
        end_ev.pointer_id == down_ev.pointer_id,
        end_ev.button == 0i16,
        spec_any_overlap(end_rect, end_ev.spec_rects()),
    ensures
        ({
            let step1 = spec_on_pointer_down(s0, entries0, key0, down_ev, current_target, true);
            let step2 = spec_on_pointer_move(
                step1.state,
                step1.listener_entries,
                step1.next_listener_key,
                out_ev,
                out_rect,
            );
            let step3 = spec_on_pointer_move(
                step2.state,
                step2.listener_entries,
                step2.next_listener_key,
                in_ev,
                in_rect,
            );
            let step4 = spec_global_on_pointer_up(
                step3.state,
                step3.listener_entries,
                step3.next_listener_key,
                end_ev,
                end_rect,
            );
            spec_event_kinds(step1.emissions + step2.emissions + step3.emissions + step4.emissions)
                == seq![
                PressEventType::PressStart,
                PressEventType::PressEnd,
                PressEventType::PressStart,
                PressEventType::PressEnd,
                PressEventType::Press,
            ]
        }),
{
    reveal_with_fuel(spec_event_kinds, 8);
    let step1 = spec_on_pointer_down(s0, entries0, key0, down_ev, current_target, true);
    let step2 = spec_on_pointer_move(
        step1.state,
        step1.listener_entries,
        step1.next_listener_key,
        out_ev,
        out_rect,
    );
    let step3 = spec_on_pointer_move(
        step2.state,
        step2.listener_entries,
        step2.next_listener_key,
        in_ev,
        in_rect,
    );
    let step4 = spec_global_on_pointer_up(
        step3.state,
        step3.listener_entries,
        step3.next_listener_key,
        end_ev,
        end_rect,
    );
    assert(spec_event_kinds(step1.emissions) =~= seq![PressEventType::PressStart]);
    assert(!step2.state.pressed && !step2.state.is_over_target
        && !step2.state.did_fire_press_start);
    assert(spec_event_kinds(step2.emissions) =~= seq![PressEventType::PressEnd]);
    assert(step3.state.pressed && step3.state.is_over_target && step3.state.did_fire_press_start);
    assert(spec_event_kinds(step3.emissions) =~= seq![PressEventType::PressStart]);
    assert(spec_event_kinds(step4.emissions) =~= seq![
        PressEventType::PressEnd,
        PressEventType::Press,
    ]);
    lemma_event_kinds_concat(step1.emissions, step2.emissions);
    lemma_event_kinds_concat(step1.emissions + step2.emissions, step3.emissions);
    lemma_event_kinds_concat(
        step1.emissions + step2.emissions + step3.emissions,
        step4.emissions,
    );
    assert(spec_event_kinds(
        step1.emissions + step2.emissions + step3.emissions + step4.emissions,
    ) =~= seq![
        PressEventType::PressStart,
        PressEventType::PressEnd,
        PressEventType::PressStart,
        PressEventType::PressEnd,
        PressEventType::Press,
    ]);
}

/// A second pointer-down while a press is in progress is a no-op: it
/// emits nothing, registers nothing, and — since the gesture's pointer
/// kind is already recorded — leaves the state exactly as it was.
pub proof fn lemma_duplicate_pointer_down_is_noop(
    s: PressState,
    entries: Seq<(u64, ListenerEntry)>,
    next_key: u64,
    ev: PointerInput,
    current_target: ElementInfo,
    contains_target: bool,
)
    requires
        s.pressed,
        s.pointer_type == ev.pointer_kind,
        !spec_is_virtual_pointer_event(ev),
    ensures
        ({
            let step = spec_on_pointer_down(s, entries, next_key, ev, current_target, contains_target);
            &&& step.state == s
            &&& step.emissions == Seq::<Emission>::empty()
            &&& step.listener_entries == entries
            &&& step.next_listener_key == next_key
        }),
{
    let step = spec_on_pointer_down(s, entries, next_key, ev, current_target, contains_target);
    if ev.button == 0i16 && contains_target {
        assert(step.state == PressState { pointer_type: ev.pointer_kind, ..s });
        assert(step.state == s);
    }
}

/// Cancelling while no press is in progress is a no-op; cancelling a
/// press whose pointer is over the target emits exactly one press-end
/// and no committing press — or nothing at all where no press-start was
/// ever fired, by the press-end no-op rule — and clears every transient
/// flag; and a second cancel right after a first is again a no-op.
pub proof fn lemma_cancel_scenarios(
    s: PressState,
    entries: Seq<(u64, ListenerEntry)>,
    first_ev: crate::events::FocusableEvent,
    second_ev: crate::events::FocusableEvent,
)
    ensures
        !s.pressed ==> spec_cancel(s, entries, first_ev) == (
            s,
            Seq::<Emission>::empty(),
            Seq::<Effect>::empty(),
        ),
        ({
            let (after, emissions, _) = spec_cancel(s, entries, first_ev);
            &&& (s.pressed && s.is_over_target && s.did_fire_press_start ==> spec_event_kinds(
                emissions,
            ) == seq![PressEventType::PressEnd])
            &&& (s.pressed && s.is_over_target && !s.did_fire_press_start ==> emissions
                == Seq::<Emission>::empty())
            &&& (s.pressed ==> {
                &&& !after.pressed
                &&& !after.is_over_target
                &&& (s.is_over_target ==> !after.did_fire_press_start)
                &&& after.active_pointer_id is None
                &&& after.pointer_type is Unsupported
            })
            &&& (s.pressed ==> spec_cancel(
                after,
                Seq::<(u64, ListenerEntry)>::empty(),
                second_ev,
            ) == (after, Seq::<Emission>::empty(), Seq::<Effect>::empty()))
        }),
{
    reveal_with_fuel(spec_event_kinds, 8);
    if s.pressed && s.is_over_target && s.did_fire_press_start {
        let (_, emissions, _) = spec_cancel(s, entries, first_ev);
        assert(spec_event_kinds(emissions) =~= seq![PressEventType::PressEnd]);
    }
}

/// Keyboard activation fires press-start exactly once even under OS
/// key-repeat, and the document key-up commits exactly once: a first
/// qualifying key-down starts the press, a repeated key-down emits
/// nothing, the document key-up emits press-end then the committing
/// press, and a second key-up after it emits nothing.
pub proof fn lemma_keyboard_activation(
    s0: PressState,
    entries0: Seq<(u64, ListenerEntry)>,
    key0: u64,
    current_target: ElementInfo,
    down_ev: crate::events::KeyboardInput,
    repeat_ev: crate::events::KeyboardInput,
    up_ev: crate::events::KeyboardInput,
    late_ev: crate::events::KeyboardInput,
)
    requires
        spec_idle(s0),
        !s0.is_disabled,
        crate::element::spec_is_valid_keyboard_event(down_ev.key, current_target),
        !down_ev.repeat,
        crate::element::spec_is_valid_keyboard_event(repeat_ev.key, current_target),
        crate::element::spec_is_valid_keyboard_event(up_ev.key, current_target),
        crate::element::spec_is_valid_keyboard_event(late_ev.key, current_target),
    ensures
        ({
            let step1 = spec_on_key_down(s0, entries0, key0, down_ev, current_target, true);
            let step2 = spec_on_key_down(
                step1.state,
                step1.listener_entries,
                step1.next_listener_key,
                repeat_ev,
                current_target,
                true,
            );
            let step3 = spec_global_on_key_up(
                step2.state,
                step2.listener_entries,
                step2.next_listener_key,
                up_ev,
                current_target,
                true,
            );
            let step4 = spec_global_on_key_up(
                step3.state,
                step3.listener_entries,
                step3.next_listener_key,
                late_ev,
                current_target,
                true,
            );
            &&& spec_event_kinds(step1.emissions) == seq![PressEventType::PressStart]
            &&& step2.emissions == Seq::<Emission>::empty()
            &&& step2.state == step1.state
            &&& spec_event_kinds(step3.emissions) == seq![
                PressEventType::PressEnd,
                PressEventType::Press,
            ]
            &&& step4.emissions == Seq::<Emission>::empty()
            &&& step4.state == step3.state
        }),
{
    reveal_with_fuel(spec_event_kinds, 8);
    let step1 = spec_on_key_down(s0, entries0, key0, down_ev, current_target, true);
    let step2 = spec_on_key_down(
        step1.state,
        step1.listener_entries,
        step1.next_listener_key,
        repeat_ev,
        current_target,
        true,
    );
    let step3 = spec_global_on_key_up(
        step2.state,
        step2.listener_entries,
        step2.next_listener_key,
        up_ev,
        current_target,
        true,
    );
    assert(step1.state.pressed && step1.state.did_fire_press_start);
    assert(spec_event_kinds(step1.emissions) =~= seq![PressEventType::PressStart]);
    assert(step2.state == step1.state);
    assert(spec_event_kinds(step3.emissions) =~= seq![
        PressEventType::PressEnd,
        PressEventType::Press,
    ]);
    assert(!step3.state.pressed);
}

} // verus!
