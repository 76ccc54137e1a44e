//! The press state machine.
//!
//! [`use_press`] builds a [`PressResult`]: the per-element gesture state
//! together with the full handler surface the element is wired with.
//! Each handler consumes a plain event record, mutates the gesture state,
//! and returns the press events to deliver to the caller's callbacks
//! (emissions) and the platform actions to perform (effects).

use vstd::prelude::*;
use crate::element::ElementInfo;
use crate::events::{ElementRef, FocusableEvent, GetRects, ToFocusableElement};
use crate::listeners::{GlobalListeners, ListenerEntry, ListenerEventType, ListenerTarget};

verus! {

/// The input modality that produced a press event.
#[derive(Clone, Copy, PartialEq, Eq, Structural, Debug)]
pub enum PointerType {
    Unsupported,
    Mouse,
    Pen,
    Touch,
    Keyboard,
    Virtual,
}

/// The pointer type named by the given platform string.
pub open spec fn spec_pointer_type_of(s: Seq<char>) -> PointerType {
    if s == "mouse"@ {
        PointerType::Mouse
    } else if s == "pen"@ {
        PointerType::Pen
    } else if s == "touch"@ {
        PointerType::Touch
    } else if s == "keyboard"@ {
        PointerType::Keyboard
    } else if s == "virtual"@ {
        PointerType::Virtual
    } else {
        PointerType::Unsupported
    }
}

impl From<String> for PointerType {
    /// Decodes the platform's pointer type string.
    fn from(value: String) -> (r: PointerType) {
        if value == "mouse".to_owned() {
            PointerType::Mouse
        } else if value == "pen".to_owned() {
            PointerType::Pen
        } else if value == "touch".to_owned() {
            PointerType::Touch
        } else if value == "keyboard".to_owned() {
            PointerType::Keyboard
        } else if value == "virtual".to_owned() {
            PointerType::Virtual
        } else {
            PointerType::Unsupported
        }
    }
}

impl vstd::std_specs::convert::FromSpecImpl<String> for PointerType {
    open spec fn obeys_from_spec() -> bool {
        true
    }

    open spec fn from_spec(value: String) -> PointerType {
        spec_pointer_type_of(value@)
    }
}

/// The kind of press transition being reported.
#[derive(Clone, Copy, PartialEq, Eq, Structural, Debug)]
pub enum PressEventType {
    PressStart,
    PressEnd,
    PressUp,
    Press,
}

/// One press event, as delivered to the caller's callbacks.
#[derive(Clone, Copy, PartialEq, Eq, Structural, Debug)]
pub struct PressEvent {
    /// The type of press event being fired.
    pub event_type: PressEventType,
    /// The pointer type that triggered the press event.
    pub pointer_type: PointerType,
    /// The target element of the press event.
    pub target: ElementRef,
    /// Whether the shift keyboard modifier was held during the press event.
    pub shift_key: bool,
    /// Whether the ctrl keyboard modifier was held during the press event.
    pub ctrl_key: bool,
    /// Whether the meta keyboard modifier was held during the press event.
    pub meta_key: bool,
    /// Whether the alt keyboard modifier was held during the press event.
    pub alt_key: bool,
}

/// The press event built from an input event's shared fields.
pub open spec fn spec_press_event(
    pointer_type: PointerType,
    event_type: PressEventType,
    focusable_event: FocusableEvent,
) -> PressEvent {
    PressEvent {
        event_type,
        pointer_type,
        target: focusable_event.spec_data().current_target,
        shift_key: focusable_event.spec_data().modifiers.shift_key,
        ctrl_key: focusable_event.spec_data().modifiers.ctrl_key,
        meta_key: focusable_event.spec_data().modifiers.meta_key,
        alt_key: focusable_event.spec_data().modifiers.alt_key,
    }
}

impl PressEvent {
    /// Builds the press event reported for `focusable_event`.
    pub fn create(
        pointer_type: &PointerType,
        event_type: PressEventType,
        focusable_event: &FocusableEvent,
    ) -> (r: PressEvent)
        ensures
            r == spec_press_event(*pointer_type, event_type, *focusable_event),
    {
        PressEvent {
            event_type,
            pointer_type: *pointer_type,
            target: focusable_event.current_target(),
            shift_key: focusable_event.shift_key(),
            ctrl_key: focusable_event.ctrl_key(),
            meta_key: focusable_event.meta_key(),
            alt_key: focusable_event.alt_key(),
        }
    }
}

/// One callback invocation a handler asks the caller to make: a press
/// event, or a pressed-state change notification.
#[derive(Clone, Copy, PartialEq, Eq, Structural, Debug)]
pub enum Emission {
    Event(PressEvent),
    Change(bool),
}

/// One platform action a handler asks the adapter to perform.
#[derive(Clone, Copy, PartialEq, Eq, Structural, Debug)]
pub enum Effect {
    /// Prevent the handled event's default action.
    PreventDefault,
    /// Stop the handled event's propagation.
    StopPropagation,
    /// Focus the element without scrolling it into view.
    FocusTarget(ElementRef),
    /// Suppress text selection for a press on the element with this
    /// handle.
    DisableTextSelection(u64),
    /// Restore text selection for the element with this handle.
    RestoreTextSelection(u64),
    /// Attach the platform listener recorded under `key`.
    AttachListener { key: u64, target: ListenerTarget, event_type: ListenerEventType, capture: bool },
    /// Detach the platform listener that was recorded under `key`.
    DetachListener { key: u64, target: ListenerTarget, event_type: ListenerEventType, capture: bool },
    /// Synthesize a native click on the element with this handle.
    ClickTarget(u64),
}

/// The per-gesture state of one pressable element, together with the
/// configuration it was created with.
#[derive(Clone, Copy, PartialEq, Eq, Debug)]
pub struct PressState {
    /// The caller-controlled pressed state.
    pub controlled_is_pressed: bool,
    /// Whether press events are disabled.
    pub is_disabled: bool,
    /// Whether the target should not receive focus on press.
    pub prevent_focus_on_press: bool,
    /// Whether a press is canceled when the pointer leaves the target.
    pub should_cancel_on_pointer_exit: bool,
    /// Whether text selection stays enabled during a press.
    pub allow_text_selection_on_press: bool,
    /// The Android platform capability flag, read once at creation.
    pub is_android: bool,
    /// Suppresses the mouse events some browsers emulate after touch.
    pub ignore_emulated_mouse_events: bool,
    /// Suppresses the synthetic click that follows a completed press.
    pub ignore_click_after_press: bool,
    /// Guards against a duplicate press-start, independent of `pressed`.
    pub did_fire_press_start: bool,
    /// True between a recognized press-start and its matching press-end.
    pub pressed: bool,
    /// The pointer that owns the current gesture; events of other
    /// pointers are ignored.
    pub active_pointer_id: Option<i32>,
    /// The element that originated the current gesture.
    pub target: Option<ElementInfo>,
    /// Whether the active pointer is currently within the target's
    /// bounds.
    pub is_over_target: bool,
    /// The input modality of the current gesture.
    pub pointer_type: PointerType,
}

/// The recognized press configuration options.
#[derive(Clone, Copy, PartialEq, Eq, Debug)]
pub struct UsePressProps {
    /// Whether the target is in a controlled press state (e.g. an
    /// overlay it triggers is open).
    pub is_pressed: bool,
    /// Whether the press events should be disabled.
    pub is_disabled: bool,
    /// Whether the target should not receive focus on press.
    pub prevent_focus_on_press: bool,
    /// Whether press events should be canceled when the pointer leaves
    /// the target while pressed. By default the press survives and a
    /// returning pointer fires press-start again.
    pub should_cancel_on_pointer_exit: bool,
    /// Whether text selection should stay enabled on the pressable
    /// element.
    pub allow_text_selection_on_press: bool,
    /// Whether the platform is Android, which changes how virtual clicks
    /// are recognized.
    pub is_android: bool,
}

impl Default for UsePressProps {
    /// Every option defaults to off.
    fn default() -> (r: UsePressProps)
        ensures
            r == (UsePressProps {
                is_pressed: false,
                is_disabled: false,
                prevent_focus_on_press: false,
                should_cancel_on_pointer_exit: false,
                allow_text_selection_on_press: false,
                is_android: false,
            }),
    {
        UsePressProps {
            is_pressed: false,
            is_disabled: false,
            prevent_focus_on_press: false,
            should_cancel_on_pointer_exit: false,
            allow_text_selection_on_press: false,
            is_android: false,
        }
    }
}

/// The state a press machine starts in: no gesture in progress.
pub open spec fn spec_initial_press_state(props: UsePressProps) -> PressState {
    PressState {
        controlled_is_pressed: props.is_pressed,
        is_disabled: props.is_disabled,
        prevent_focus_on_press: props.prevent_focus_on_press,
        should_cancel_on_pointer_exit: props.should_cancel_on_pointer_exit,
        allow_text_selection_on_press: props.allow_text_selection_on_press,
        is_android: props.is_android,
        ignore_emulated_mouse_events: false,
        ignore_click_after_press: false,
        did_fire_press_start: false,
        pressed: false,
        active_pointer_id: None,
        target: None,
        is_over_target: false,
        pointer_type: PointerType::Unsupported,
    }
}

/// The press-start transition: a no-op if disabled or a start already
/// fired; otherwise emits press-start and pressed-change(true) and marks
/// the press started.
pub open spec fn spec_trigger_press_start(
    s: PressState,
    ev: FocusableEvent,
    pointer: PointerType,
) -> (PressState, Seq<Emission>) {
    if s.is_disabled || s.did_fire_press_start {
        (s, Seq::<Emission>::empty())
    } else {
        (
            PressState { did_fire_press_start: true, pressed: true, ..s },
            seq![
                Emission::Event(spec_press_event(pointer, PressEventType::PressStart, ev)),
                Emission::Change(true),
            ],
        )
    }
}

/// The press-end transition: a no-op if no start was fired; otherwise
/// emits press-end and pressed-change(false), arms the click suppressor,
/// and additionally emits the committing press event when the release
/// happened over the target and the element is not disabled.
pub open spec fn spec_trigger_press_end(
    s: PressState,
    ev: FocusableEvent,
    pointer: PointerType,
    was_pressed: bool,
) -> (PressState, Seq<Emission>) {
    if !s.did_fire_press_start {
        (s, Seq::<Emission>::empty())
    } else {
        let next = PressState {
            ignore_click_after_press: true,
            did_fire_press_start: false,
            pressed: false,
            ..s
        };
        let base = seq![
            Emission::Event(spec_press_event(pointer, PressEventType::PressEnd, ev)),
            Emission::Change(false),
        ];
        if !was_pressed || s.is_disabled {
            (next, base)
        } else {
            (next, base.push(Emission::Event(spec_press_event(pointer, PressEventType::Press, ev))))
        }
    }
}

/// The press-up transition: emits press-up whenever the element is not
/// disabled, independent of whether the gesture commits.
pub open spec fn spec_trigger_press_up(
    s: PressState,
    ev: FocusableEvent,
    pointer: PointerType,
) -> Seq<Emission> {
    if s.is_disabled {
        Seq::<Emission>::empty()
    } else {
        seq![Emission::Event(spec_press_event(pointer, PressEventType::PressUp, ev))]
    }
}

/// The detach requests for a list of removed listener registrations.
pub open spec fn spec_detach_effects(entries: Seq<(u64, ListenerEntry)>) -> Seq<Effect> {
    entries.map_values(
        |p: (u64, ListenerEntry)|
            Effect::DetachListener {
                key: p.0,
                target: p.1.target,
                event_type: p.1.event_type,
                capture: p.1.capture,
            },
    )
}

/// The cancel transition: a no-op while no press is in progress;
/// otherwise ends the press without committing when the pointer is over
/// the target, resets every transient flag, releases all gesture
/// listeners, and restores text selection unless the element opted out.
pub open spec fn spec_cancel(
    s: PressState,
    entries: Seq<(u64, ListenerEntry)>,
    ev: FocusableEvent,
) -> (PressState, Seq<Emission>, Seq<Effect>) {
    if !s.pressed {
        (s, Seq::<Emission>::empty(), Seq::<Effect>::empty())
    } else {
        let (ended, emissions) = if s.is_over_target {
            spec_trigger_press_end(s, ev, s.pointer_type, false)
        } else {
            (s, Seq::<Emission>::empty())
        };
        let next = PressState {
            pressed: false,
            is_over_target: false,
            active_pointer_id: None,
            pointer_type: PointerType::Unsupported,
            ..ended
        };
        let restore = if !s.allow_text_selection_on_press && s.target is Some {
            seq![Effect::RestoreTextSelection(s.target->Some_0.handle)]
        } else {
            Seq::<Effect>::empty()
        };
        (next, emissions, spec_detach_effects(entries) + restore)
    }
}

/// The press machine for one pressable element: its gesture state and
/// the listener registrations the current gesture holds. The handler
/// methods are wired onto exactly one DOM element by the adapter.
pub struct PressResult {
    /// The gesture state and configuration.
    pub state: PressState,
    /// The document-level listeners of the current gesture.
    pub listeners: GlobalListeners,
}

/// Builds the press machine for one element from its configuration.
pub fn use_press(props: UsePressProps) -> (r: PressResult)
    ensures
        r.wf(),
        r.state == spec_initial_press_state(props),
        r.listeners.entries@.len() == 0,
        r.listeners.next_key == 0,
{
    PressResult {
        state: PressState {
            controlled_is_pressed: props.is_pressed,
            is_disabled: props.is_disabled,
            prevent_focus_on_press: props.prevent_focus_on_press,
            should_cancel_on_pointer_exit: props.should_cancel_on_pointer_exit,
            allow_text_selection_on_press: props.allow_text_selection_on_press,
            is_android: props.is_android,
            ignore_emulated_mouse_events: false,
            ignore_click_after_press: false,
            did_fire_press_start: false,
            pressed: false,
            active_pointer_id: None,
            target: None,
            is_over_target: false,
            pointer_type: PointerType::Unsupported,
        },
        listeners: GlobalListeners::new(),
    }
}

impl PressResult {
    /// The machine is well formed when its listener registry is.
    pub open spec fn wf(&self) -> bool {
        self.listeners.wf()
    }

    /// Whether the element reads as pressed: either the caller controls
    /// it as pressed or a gesture is in progress.
    pub fn is_pressed(&self) -> (r: bool)
        ensures
            r == (self.state.controlled_is_pressed || self.state.pressed),
    {
        self.state.controlled_is_pressed || self.state.pressed
    }

    /// Begins the press: see [`spec_trigger_press_start`].
    pub fn trigger_press_start(
        &mut self,
        focusable_event: &FocusableEvent,
        pointer: PointerType,
    ) -> (emissions: Vec<Emission>)
        ensures
            final(self).listeners == old(self).listeners,
            (final(self).state, emissions@) == spec_trigger_press_start(
                old(self).state,
                *focusable_event,
                pointer,
            ),
    {
        if self.state.is_disabled || self.state.did_fire_press_start {
            let emissions: Vec<Emission> = Vec::new();
            assert(emissions@ =~= Seq::<Emission>::empty());
            return emissions;
        }
        let event = PressEvent::create(&pointer, PressEventType::PressStart, focusable_event);
        let emissions = vec![Emission::Event(event), Emission::Change(true)];
        self.state.did_fire_press_start = true;
        self.state.pressed = true;
        assert(emissions@ =~= spec_trigger_press_start(old(self).state, *focusable_event, pointer).1);
        emissions
    }

    /// Ends the press: see [`spec_trigger_press_end`].
    pub fn trigger_press_end(
        &mut self,
        focusable_event: &FocusableEvent,
        pointer: PointerType,
        was_pressed: bool,
    ) -> (emissions: Vec<Emission>)
        ensures
            final(self).listeners == old(self).listeners,
            (final(self).state, emissions@) == spec_trigger_press_end(
                old(self).state,
                *focusable_event,
                pointer,
                was_pressed,
            ),
    {
        if !self.state.did_fire_press_start {
            let emissions: Vec<Emission> = Vec::new();
            assert(emissions@ =~= Seq::<Emission>::empty());
            return emissions;
        }
        self.state.ignore_click_after_press = true;
        self.state.did_fire_press_start = false;
        let event = PressEvent::create(&pointer, PressEventType::PressEnd, focusable_event);
        let mut emissions = vec![Emission::Event(event), Emission::Change(false)];
        self.state.pressed = false;
        if was_pressed && !self.state.is_disabled {
            let commit = PressEvent::create(&pointer, PressEventType::Press, focusable_event);
            emissions.push(Emission::Event(commit));
        }
        assert(emissions@ =~= spec_trigger_press_end(
            old(self).state,
            *focusable_event,
            pointer,
            was_pressed,
        ).1);
        emissions
    }

    /// Reports the release of the input device: see
    /// [`spec_trigger_press_up`].
    pub fn trigger_press_up(
        &mut self,
        focusable_event: &FocusableEvent,
        pointer: PointerType,
    ) -> (emissions: Vec<Emission>)
        ensures
            *final(self) == *old(self),
            emissions@ == spec_trigger_press_up(old(self).state, *focusable_event, pointer),
    {
        if self.state.is_disabled {
            let emissions: Vec<Emission> = Vec::new();
            assert(emissions@ =~= Seq::<Emission>::empty());
            return emissions;
        }
        let event = PressEvent::create(&pointer, PressEventType::PressUp, focusable_event);
        let emissions = vec![Emission::Event(event)];
        assert(emissions@ =~= spec_trigger_press_up(self.state, *focusable_event, pointer));
        emissions
    }

    /// Cancels any in-progress press: see [`spec_cancel`].
    pub fn cancel(&mut self, event: &FocusableEvent) -> (r: (Vec<Emission>, Vec<Effect>))
        requires
            old(self).wf(),
        ensures
            final(self).wf(),
            final(self).listeners.next_key == old(self).listeners.next_key,
            final(self).listeners.entries@ == if old(self).state.pressed {
                Seq::<(u64, ListenerEntry)>::empty()
            } else {
                old(self).listeners.entries@
            },
            (final(self).state, r.0@, r.1@) == spec_cancel(
                old(self).state,
                old(self).listeners.entries@,
                *event,
            ),
    {
        if !self.state.pressed {
            let r = (Vec::<Emission>::new(), Vec::<Effect>::new());
            assert(r.0@ =~= Seq::<Emission>::empty());
            assert(r.1@ =~= Seq::<Effect>::empty());
            return r;
        }
        let pointer = self.state.pointer_type;
        let mut emissions: Vec<Emission> = Vec::new();
        if self.state.is_over_target {
            emissions = self.trigger_press_end(event, pointer, false);
        }
        self.state.pressed = false;
        self.state.is_over_target = false;
        self.state.active_pointer_id = None;
        self.state.pointer_type = PointerType::Unsupported;
        let removed = self.listeners.remove_all_listeners();
        let mut effects = detach_effects(&removed);
        if !self.state.allow_text_selection_on_press {
            if let Some(target) = &self.state.target {
                effects.push(Effect::RestoreTextSelection(target.handle));
            }
        }
        assert(emissions@ =~= spec_cancel(old(self).state, old(self).listeners.entries@, *event).1);
        assert(effects@ =~= spec_cancel(old(self).state, old(self).listeners.entries@, *event).2);
        (emissions, effects)
    }

    /// Handles a pointer-down on the element: see [`spec_on_pointer_down`].
    /// `contains_target` says whether the event's target lies inside the
    /// element's subtree.
    #[verifier::rlimit(100)]
    pub fn on_pointer_down(
        &mut self,
        event: &crate::events::PointerInput,
        current_target: &ElementInfo,
        contains_target: bool,
    ) -> (r: (Vec<Emission>, Vec<Effect>))
        requires
            old(self).wf(),
            old(self).listeners.next_key + 3 <= u64::MAX,
        ensures
            final(self).wf(),
            spec_matches_step(
                *final(self),
                spec_on_pointer_down(
                    old(self).state,
                    old(self).listeners.entries@,
                    old(self).listeners.next_key,
                    *event,
                    *current_target,
                    contains_target,
                ),
                r.0@,
                r.1@,
            ),
    {
        let ghost step = spec_on_pointer_down(
            old(self).state,
            old(self).listeners.entries@,
            old(self).listeners.next_key,
            *event,
            *current_target,
            contains_target,
        );
        let mut emissions: Vec<Emission> = Vec::new();
        let mut effects: Vec<Effect> = Vec::new();
        if event.button != 0 || !contains_target {
            assert(emissions@ =~= step.emissions);
            assert(effects@ =~= step.effects);
            return (emissions, effects);
        }
        if crate::virtual_event::is_virtual_pointer_event(event) {
            self.state.pointer_type = PointerType::Virtual;
            assert(emissions@ =~= step.emissions);
            assert(effects@ =~= step.effects);
            return (emissions, effects);
        }
        if crate::element::should_prevent_default(current_target) {
            effects.push(Effect::PreventDefault);
        }
        self.state.pointer_type = event.pointer_kind;
        effects.push(Effect::StopPropagation);
        if self.state.pressed {
            assert(emissions@ =~= step.emissions);
            assert(effects@ =~= step.effects);
            return (emissions, effects);
        }
        let (started_emissions, mut started_effects) = self.start_pointer_gesture(
            event,
            current_target,
        );
        emissions = started_emissions;
        effects.append(&mut started_effects);
        assert(emissions@ =~= step.emissions);
        assert(effects@ =~= step.effects);
        (emissions, effects)
    }

    /// Begins the pointer gesture once pointer-down qualified: see
    /// [`spec_start_pointer_gesture`].
    fn start_pointer_gesture(
        &mut self,
        event: &crate::events::PointerInput,
        current_target: &ElementInfo,
    ) -> (r: (Vec<Emission>, Vec<Effect>))
        requires
            old(self).wf(),
            old(self).listeners.next_key + 3 <= u64::MAX,
        ensures
            final(self).wf(),
            spec_matches_step(
                *final(self),
                spec_start_pointer_gesture(
                    old(self).state,
                    old(self).listeners.entries@,
                    old(self).listeners.next_key,
                    *event,
                    *current_target,
                ),
                r.0@,
                r.1@,
            ),
    {
        let ghost step = spec_start_pointer_gesture(
            old(self).state,
            old(self).listeners.entries@,
            old(self).listeners.next_key,
            *event,
            *current_target,
        );
        let mut effects: Vec<Effect> = Vec::new();
        self.state.pressed = true;
        self.state.is_over_target = true;
        self.state.active_pointer_id = Some(event.pointer_id);
        self.state.target = Some(*current_target);
        if !self.state.is_disabled || !self.state.prevent_focus_on_press {
            effects.push(
                Effect::FocusTarget(
                    ElementRef { handle: current_target.handle, is_svg: current_target.is_svg },
                ),
            );
        }
        if !self.state.allow_text_selection_on_press {
            effects.push(Effect::DisableTextSelection(current_target.handle));
        }
        let focusable_event = FocusableEvent::Pointer(event.data, None);
        let emissions = self.trigger_press_start(&focusable_event, event.pointer_kind);
        let move_key = self.listeners.add_listener(
            ListenerTarget::Document,
            ListenerEventType::PointerMove,
            false,
        );
        effects.push(
            Effect::AttachListener {
                key: move_key,
                target: ListenerTarget::Document,
                event_type: ListenerEventType::PointerMove,
                capture: false,
            },
        );
        let up_key = self.listeners.add_listener(
            ListenerTarget::Document,
            ListenerEventType::PointerUp,
            false,
        );
        effects.push(
            Effect::AttachListener {
                key: up_key,
                target: ListenerTarget::Document,
                event_type: ListenerEventType::PointerUp,
                capture: false,
            },
        );
        let cancel_key = self.listeners.add_listener(
            ListenerTarget::Document,
            ListenerEventType::PointerCancel,
            false,
        );
        effects.push(
            Effect::AttachListener {
                key: cancel_key,
                target: ListenerTarget::Document,
                event_type: ListenerEventType::PointerCancel,
                capture: false,
            },
        );
        assert(emissions@ =~= step.emissions);
        assert(effects@ =~= step.effects);
        assert(self.listeners.entries@ =~= step.listener_entries);
        (emissions, effects)
    }

    /// Handles a document-scoped pointer-move of the gesture's pointer:
    /// see [`spec_on_pointer_move`]. `target_rect` is the target's fresh
    /// bounding client rectangle.
    pub fn on_pointer_move(
        &mut self,
        event: &crate::events::PointerInput,
        target_rect: &crate::geometry::Rect,
    ) -> (r: (Vec<Emission>, Vec<Effect>))
        requires
            old(self).wf(),
        ensures
            final(self).wf(),
            spec_matches_step(
                *final(self),
                spec_on_pointer_move(
                    old(self).state,
                    old(self).listeners.entries@,
                    old(self).listeners.next_key,
                    *event,
                    *target_rect,
                ),
                r.0@,
                r.1@,
            ),
    {
        let ghost step = spec_on_pointer_move(
            old(self).state,
            old(self).listeners.entries@,
            old(self).listeners.next_key,
            *event,
            *target_rect,
        );
        let mut emissions: Vec<Emission> = Vec::new();
        let mut effects: Vec<Effect> = Vec::new();
        let id_matches = match self.state.active_pointer_id {
            Some(id) => id == event.pointer_id,
            None => false,
        };
        if !id_matches {
            assert(emissions@ =~= step.emissions);
            assert(effects@ =~= step.effects);
            return (emissions, effects);
        }
        let target = match &self.state.target {
            Some(target) => *target,
            None => {
                assert(emissions@ =~= step.emissions);
                assert(effects@ =~= step.effects);
                return (emissions, effects);
            },
        };
        let target_ref = ElementRef { handle: target.handle, is_svg: target.is_svg };
        let focusable_event = FocusableEvent::Pointer(
            event.data,
            Some(target_ref.to_focusable_element()),
        );
        let rects = crate::events::GetRects::get_rects(event);
        let above = crate::geometry::is_above_target(&rects, target_rect);
        if above && !self.state.is_over_target {
            self.state.is_over_target = true;
            let pointer = self.state.pointer_type;
            emissions = self.trigger_press_start(&focusable_event, pointer);
        } else if !above && self.state.is_over_target {
            self.state.is_over_target = false;
            let pointer = self.state.pointer_type;
            emissions = self.trigger_press_end(&focusable_event, pointer, false);
            if self.state.should_cancel_on_pointer_exit {
                self.state.pressed = false;
                self.state.is_over_target = false;
                self.state.active_pointer_id = None;
                self.state.pointer_type = PointerType::Unsupported;
                let removed = self.listeners.remove_all_listeners();
                effects = detach_effects(&removed);
                if !self.state.allow_text_selection_on_press {
                    effects.push(Effect::RestoreTextSelection(target.handle));
                }
                assert(self.listeners.entries@ =~= step.listener_entries);
            }
        }
        assert(emissions@ =~= step.emissions);
        assert(effects@ =~= step.effects);
        (emissions, effects)
    }

    /// Handles a pointer-up on the element itself: see
    /// [`spec_on_pointer_up`].
    pub fn on_pointer_up(
        &mut self,
        event: &crate::events::PointerInput,
        current_target_rect: &crate::geometry::Rect,
        contains_target: bool,
    ) -> (r: (Vec<Emission>, Vec<Effect>))
        requires
            old(self).wf(),
        ensures
            final(self).wf(),
            spec_matches_step(
                *final(self),
                spec_on_pointer_up(
                    old(self).state,
                    old(self).listeners.entries@,
                    old(self).listeners.next_key,
                    *event,
                    *current_target_rect,
                    contains_target,
                ),
                r.0@,
                r.1@,
            ),
    {
        let ghost step = spec_on_pointer_up(
            old(self).state,
            old(self).listeners.entries@,
            old(self).listeners.next_key,
            *event,
            *current_target_rect,
            contains_target,
        );
        let mut emissions: Vec<Emission> = Vec::new();
        let effects: Vec<Effect> = Vec::new();
        if !contains_target || matches!(self.state.pointer_type, PointerType::Virtual) {
            assert(emissions@ =~= step.emissions);
            assert(effects@ =~= step.effects);
            return (emissions, effects);
        }
        let rects = crate::events::GetRects::get_rects(event);
        if event.button != 0 || !crate::geometry::is_above_target(&rects, current_target_rect) {
            assert(emissions@ =~= step.emissions);
            assert(effects@ =~= step.effects);
            return (emissions, effects);
        }
        let focusable_event = FocusableEvent::Pointer(event.data, None);
        emissions = self.trigger_press_up(&focusable_event, PointerType::Mouse);
        assert(emissions@ =~= step.emissions);
        assert(effects@ =~= step.effects);
        (emissions, effects)
    }

    /// Handles the document-scoped pointer-up that terminates the
    /// gesture: see [`spec_global_on_pointer_up`].
    #[verifier::rlimit(50)]
    pub fn global_on_pointer_up(
        &mut self,
        event: &crate::events::PointerInput,
        target_rect: &crate::geometry::Rect,
    ) -> (r: (Vec<Emission>, Vec<Effect>))
        requires
            old(self).wf(),
        ensures
            final(self).wf(),
            spec_matches_step(
                *final(self),
                spec_global_on_pointer_up(
                    old(self).state,
                    old(self).listeners.entries@,
                    old(self).listeners.next_key,
                    *event,
                    *target_rect,
                ),
                r.0@,
                r.1@,
            ),
    {
        let ghost step = spec_global_on_pointer_up(
            old(self).state,
            old(self).listeners.entries@,
            old(self).listeners.next_key,
            *event,
            *target_rect,
        );
        let mut emissions: Vec<Emission> = Vec::new();
        let mut effects: Vec<Effect> = Vec::new();
        let id_matches = match self.state.active_pointer_id {
            Some(id) => id == event.pointer_id,
            None => false,
        };
        if !id_matches || event.button != 0 {
            assert(emissions@ =~= step.emissions);
            assert(effects@ =~= step.effects);
            return (emissions, effects);
        }
        let target = match &self.state.target {
            Some(target) => *target,
            None => {
                assert(emissions@ =~= step.emissions);
                assert(effects@ =~= step.effects);
                return (emissions, effects);
            },
        };
        let target_ref = ElementRef { handle: target.handle, is_svg: target.is_svg };
        let focusable_event = FocusableEvent::Pointer(
            event.data,
            Some(target_ref.to_focusable_element()),
        );
        let rects = crate::events::GetRects::get_rects(event);
        let above = crate::geometry::is_above_target(&rects, target_rect);
        let pointer = self.state.pointer_type;
        if above {
            emissions = self.trigger_press_end(&focusable_event, pointer, true);
        } else if self.state.is_over_target {
            emissions = self.trigger_press_end(&focusable_event, pointer, false);
        }
        self.state.pressed = false;
        self.state.is_over_target = false;
        self.state.active_pointer_id = None;
        self.state.pointer_type = PointerType::Unsupported;
        let removed = self.listeners.remove_all_listeners();
        effects = detach_effects(&removed);
        if !self.state.allow_text_selection_on_press {
            effects.push(Effect::RestoreTextSelection(target.handle));
        }
        assert(emissions@ =~= step.emissions);
        assert(effects@ =~= step.effects);
        assert(self.listeners.entries@ =~= step.listener_entries);
        (emissions, effects)
    }

    /// Handles a document-scoped pointer-cancel: equivalent to
    /// [`PressResult::cancel`] with the pointer event's data.
    pub fn on_pointer_cancel(
        &mut self,
        event: &crate::events::PointerInput,
    ) -> (r: (Vec<Emission>, Vec<Effect>))
        requires
            old(self).wf(),
        ensures
            final(self).wf(),
            final(self).listeners.next_key == old(self).listeners.next_key,
            final(self).listeners.entries@ == if old(self).state.pressed {
                Seq::<(u64, ListenerEntry)>::empty()
            } else {
                old(self).listeners.entries@
            },
            (final(self).state, r.0@, r.1@) == spec_cancel(
                old(self).state,
                old(self).listeners.entries@,
                FocusableEvent::Pointer(event.data, None),
            ),
    {
        let focusable_event = FocusableEvent::Pointer(event.data, None);
        self.cancel(&focusable_event)
    }

    /// Handles a key-down on the element: see [`spec_on_key_down`].
    pub fn on_key_down(
        &mut self,
        event: &crate::events::KeyboardInput,
        current_target: &ElementInfo,
        contains_target: bool,
    ) -> (r: (Vec<Emission>, Vec<Effect>))
        requires
            old(self).wf(),
            old(self).listeners.next_key + 1 <= u64::MAX,
        ensures
            final(self).wf(),
            spec_matches_step(
                *final(self),
                spec_on_key_down(
                    old(self).state,
                    old(self).listeners.entries@,
                    old(self).listeners.next_key,
                    *event,
                    *current_target,
                    contains_target,
                ),
                r.0@,
                r.1@,
            ),
    {
        let ghost step = spec_on_key_down(
            old(self).state,
            old(self).listeners.entries@,
            old(self).listeners.next_key,
            *event,
            *current_target,
            contains_target,
        );
        let mut emissions: Vec<Emission> = Vec::new();
        let mut effects: Vec<Effect> = Vec::new();
        if crate::element::is_valid_keyboard_event(&event.key, current_target) && contains_target {
            if crate::element::should_prevent_default(current_target) {
                effects.push(Effect::PreventDefault);
            }
            effects.push(Effect::StopPropagation);
            if !self.state.pressed && !event.repeat {
                self.state.target = Some(*current_target);
                self.state.pressed = true;
                let focusable_event = FocusableEvent::Keyboard(event.data, None);
                emissions = self.trigger_press_start(&focusable_event, PointerType::Keyboard);
                let key = self.listeners.add_listener(
                    ListenerTarget::Document,
                    ListenerEventType::KeyUp,
                    false,
                );
                effects.push(
                    Effect::AttachListener {
                        key,
                        target: ListenerTarget::Document,
                        event_type: ListenerEventType::KeyUp,
                        capture: false,
                    },
                );
            }
        } else if matches!(event.key.key, crate::element::KeyId::Enter)
            && crate::element::is_html_anchor_link(current_target) {
            effects.push(Effect::StopPropagation);
        }
        assert(emissions@ =~= step.emissions);
        assert(effects@ =~= step.effects);
        assert(self.listeners.entries@ =~= step.listener_entries);
        (emissions, effects)
    }

    /// Handles the document-scoped key-up that terminates the keyboard
    /// gesture: see [`spec_global_on_key_up`]. `current_target` describes
    /// the event's current target, and `target_contains` says whether the
    /// gesture's recorded target still contains the event's target.
    #[verifier::rlimit(50)]
    pub fn global_on_key_up(
        &mut self,
        event: &crate::events::KeyboardInput,
        current_target: &ElementInfo,
        target_contains: bool,
    ) -> (r: (Vec<Emission>, Vec<Effect>))
        requires
            old(self).wf(),
        ensures
            final(self).wf(),
            spec_matches_step(
                *final(self),
                spec_global_on_key_up(
                    old(self).state,
                    old(self).listeners.entries@,
                    old(self).listeners.next_key,
                    *event,
                    *current_target,
                    target_contains,
                ),
                r.0@,
                r.1@,
            ),
    {
        let ghost step = spec_global_on_key_up(
            old(self).state,
            old(self).listeners.entries@,
            old(self).listeners.next_key,
            *event,
            *current_target,
            target_contains,
        );
        let mut emissions: Vec<Emission> = Vec::new();
        let mut effects: Vec<Effect> = Vec::new();
        if !self.state.pressed || !crate::element::is_valid_keyboard_event(
            &event.key,
            current_target,
        ) {
            assert(emissions@ =~= step.emissions);
            assert(effects@ =~= step.effects);
            return (emissions, effects);
        }
        if crate::element::should_prevent_default(current_target) {
            effects.push(Effect::PreventDefault);
        }
        effects.push(Effect::StopPropagation);
        self.state.pressed = false;
        let focusable = match &self.state.target {
            Some(target) => Some(
                ElementRef { handle: target.handle, is_svg: target.is_svg }.to_focusable_element(),
            ),
            None => None,
        };
        let focusable_event = FocusableEvent::Keyboard(event.data, focusable);
        emissions = self.trigger_press_end(&focusable_event, PointerType::Keyboard, target_contains);
        let removed = self.listeners.remove_all_listeners();
        let mut detached = detach_effects(&removed);
        effects.append(&mut detached);
        if let Some(target) = &self.state.target {
            if target.is_html && target_contains && crate::element::has_link_role(target) {
                effects.push(Effect::ClickTarget(target.handle));
            }
        }
        assert(emissions@ =~= step.emissions);
        assert(effects@ =~= step.effects);
        assert(self.listeners.entries@ =~= step.listener_entries);
        (emissions, effects)
    }

    /// Handles a key-up on the element itself: see [`spec_on_key_up`].
    pub fn on_key_up(
        &mut self,
        event: &crate::events::KeyboardInput,
        current_target: &ElementInfo,
        contains_target: bool,
    ) -> (r: (Vec<Emission>, Vec<Effect>))
        requires
            old(self).wf(),
        ensures
            final(self).wf(),
            spec_matches_step(
                *final(self),
                spec_on_key_up(
                    old(self).state,
                    old(self).listeners.entries@,
                    old(self).listeners.next_key,
                    *event,
                    *current_target,
                    contains_target,
                ),
                r.0@,
                r.1@,
            ),
    {
        let ghost step = spec_on_key_up(
            old(self).state,
            old(self).listeners.entries@,
            old(self).listeners.next_key,
            *event,
            *current_target,
            contains_target,
        );
        let mut emissions: Vec<Emission> = Vec::new();
        let effects: Vec<Effect> = Vec::new();
        if !crate::element::is_valid_keyboard_event(&event.key, current_target) || event.repeat
            || !contains_target {
            assert(emissions@ =~= step.emissions);
            assert(effects@ =~= step.effects);
            return (emissions, effects);
        }
        let focusable = match &self.state.target {
            Some(target) => Some(
                ElementRef { handle: target.handle, is_svg: target.is_svg }.to_focusable_element(),
            ),
            None => None,
        };
        let focusable_event = FocusableEvent::Keyboard(event.data, focusable);
        emissions = self.trigger_press_up(&focusable_event, PointerType::Keyboard);
        assert(emissions@ =~= step.emissions);
        assert(effects@ =~= step.effects);
        (emissions, effects)
    }

    /// Handles a click on the element: see [`spec_on_click`].
    #[verifier::rlimit(50)]
    pub fn on_click(
        &mut self,
        event: &crate::events::MouseInput,
        current_target: &ElementInfo,
        contains_target: bool,
    ) -> (r: (Vec<Emission>, Vec<Effect>))
        requires
            old(self).wf(),
        ensures
            final(self).wf(),
            spec_matches_step(
                *final(self),
                spec_on_click(
                    old(self).state,
                    old(self).listeners.entries@,
                    old(self).listeners.next_key,
                    *event,
                    *current_target,
                    contains_target,
                ),
                r.0@,
                r.1@,
            ),
    {
        let ghost step = spec_on_click(
            old(self).state,
            old(self).listeners.entries@,
            old(self).listeners.next_key,
            *event,
            *current_target,
            contains_target,
        );
        let mut emissions: Vec<Emission> = Vec::new();
        let mut effects: Vec<Effect> = Vec::new();
        if !contains_target {
            assert(emissions@ =~= step.emissions);
            assert(effects@ =~= step.effects);
            return (emissions, effects);
        }
        if event.button != 0 {
            assert(emissions@ =~= step.emissions);
            assert(effects@ =~= step.effects);
            return (emissions, effects);
        }
        effects.push(Effect::StopPropagation);
        if self.state.is_disabled {
            effects.push(Effect::PreventDefault);
        }
        if !self.state.ignore_click_after_press && !self.state.ignore_emulated_mouse_events && (
        matches!(self.state.pointer_type, PointerType::Virtual)
            || crate::virtual_event::is_virtual_click(event, self.state.is_android)) {
            if !self.state.is_disabled || !self.state.prevent_focus_on_press {
                effects.push(
                    Effect::FocusTarget(
                        ElementRef {
                            handle: current_target.handle,
                            is_svg: current_target.is_svg,
                        },
                    ),
                );
            }
            let focusable_event = FocusableEvent::Mouse(event.data, None);
            emissions = self.trigger_press_start(&focusable_event, PointerType::Virtual);
            let mut up_emissions = self.trigger_press_up(&focusable_event, PointerType::Virtual);
            emissions.append(&mut up_emissions);
            let mut end_emissions = self.trigger_press_end(
                &focusable_event,
                PointerType::Virtual,
                true,
            );
            emissions.append(&mut end_emissions);
        }
        self.state.ignore_emulated_mouse_events = false;
        self.state.ignore_click_after_press = false;
        assert(emissions@ =~= step.emissions);
        assert(effects@ =~= step.effects);
        (emissions, effects)
    }

    /// Handles a mouse-down on the element: see [`spec_on_mouse_down`].
    pub fn on_mouse_down(
        &mut self,
        event: &crate::events::MouseInput,
        current_target: &ElementInfo,
        contains_target: bool,
    ) -> (r: (Vec<Emission>, Vec<Effect>))
        requires
            old(self).wf(),
        ensures
            final(self).wf(),
            spec_matches_step(
                *final(self),
                spec_on_mouse_down(
                    old(self).state,
                    old(self).listeners.entries@,
                    old(self).listeners.next_key,
                    *event,
                    *current_target,
                    contains_target,
                ),
                r.0@,
                r.1@,
            ),
    {
        let ghost step = spec_on_mouse_down(
            old(self).state,
            old(self).listeners.entries@,
            old(self).listeners.next_key,
            *event,
            *current_target,
            contains_target,
        );
        let emissions: Vec<Emission> = Vec::new();
        let mut effects: Vec<Effect> = Vec::new();
        if !contains_target || event.button != 0 {
            assert(emissions@ =~= step.emissions);
            assert(effects@ =~= step.effects);
            return (emissions, effects);
        }
        if crate::element::should_prevent_default(current_target) {
            effects.push(Effect::PreventDefault);
        }
        effects.push(Effect::StopPropagation);
        assert(emissions@ =~= step.emissions);
        assert(effects@ =~= step.effects);
        (emissions, effects)
    }

    /// Handles a drag-start on the element: see [`spec_on_drag_start`].
    pub fn on_drag_start(
        &mut self,
        event: &crate::events::DragInput,
        contains_target: bool,
    ) -> (r: (Vec<Emission>, Vec<Effect>))
        requires
            old(self).wf(),
        ensures
            final(self).wf(),
            spec_matches_step(
                *final(self),
                spec_on_drag_start(
                    old(self).state,
                    old(self).listeners.entries@,
                    old(self).listeners.next_key,
                    *event,
                    contains_target,
                ),
                r.0@,
                r.1@,
            ),
    {
        let ghost step = spec_on_drag_start(
            old(self).state,
            old(self).listeners.entries@,
            old(self).listeners.next_key,
            *event,
            contains_target,
        );
        if !contains_target {
            let r = (Vec::<Emission>::new(), Vec::<Effect>::new());
            assert(r.0@ =~= step.emissions);
            assert(r.1@ =~= step.effects);
            return r;
        }
        let focusable_event = FocusableEvent::Drag(event.data, None);
        self.cancel(&focusable_event)
    }

    /// Pointer-enter is not used by the press logic; the handler exists
    /// so a caller can wire the full handler set uniformly.
    pub fn on_pointer_enter(&self, _event: &crate::events::PointerInput) -> (r: (
        Vec<Emission>,
        Vec<Effect>,
    ))
        ensures
            r.0@.len() == 0,
            r.1@.len() == 0,
    {
        (Vec::new(), Vec::new())
    }

    /// Pointer-leave is not used by the press logic; the handler exists
    /// so a caller can wire the full handler set uniformly.
    pub fn on_pointer_leave(&self, _event: &crate::events::PointerInput) -> (r: (
        Vec<Emission>,
        Vec<Effect>,
    ))
        ensures
            r.0@.len() == 0,
            r.1@.len() == 0,
    {
        (Vec::new(), Vec::new())
    }
}

/// Whether a handler's outcome matches the given step: the machine holds
/// the step's state and registry, and the returned emissions and effects
/// are the step's.
pub open spec fn spec_matches_step(
    m: PressResult,
    step: PressStep,
    emissions: Seq<Emission>,
    effects: Seq<Effect>,
) -> bool {
    &&& m.state == step.state
    &&& emissions == step.emissions
    &&& effects == step.effects
    &&& m.listeners.entries@ == step.listener_entries
    &&& m.listeners.next_key == step.next_listener_key
}

/// The complete outcome of one handler step: the next gesture state, the
/// callback invocations to make, the platform actions to perform, and the
/// listener registry contents after the step.
pub struct PressStep {
    pub state: PressState,
    pub emissions: Seq<Emission>,
    pub effects: Seq<Effect>,
    pub listener_entries: Seq<(u64, ListenerEntry)>,
    pub next_listener_key: u64,
}

/// A step that changes nothing and asks for nothing.
pub open spec fn spec_unchanged_step(
    s: PressState,
    entries: Seq<(u64, ListenerEntry)>,
    next_key: u64,
) -> PressStep {
    PressStep {
        state: s,
        emissions: Seq::<Emission>::empty(),
        effects: Seq::<Effect>::empty(),
        listener_entries: entries,
        next_listener_key: next_key,
    }
}

/// The element reference of an element record.
pub open spec fn spec_element_ref_of(info: ElementInfo) -> ElementRef {
    ElementRef { handle: info.handle, is_svg: info.is_svg }
}

/// The pointer-down transition. Non-primary buttons and events from
/// outside the element's subtree are ignored. A virtual pointer event
/// only records the virtual pointer kind and defers to the click
/// handler. Otherwise default is conditionally prevented, propagation
/// stopped, and — unless a press is already in progress — the gesture
/// begins: the state records the pointer and target, the target is
/// focused and its text selection suppressed where the options say so,
/// press-start fires, and the three document-level gesture listeners are
/// registered.
pub open spec fn spec_on_pointer_down(
    s: PressState,
    entries: Seq<(u64, ListenerEntry)>,
    next_key: u64,
    ev: crate::events::PointerInput,
    current_target: ElementInfo,
    contains_target: bool,
) -> PressStep {
    if ev.button != 0i16 || !contains_target {
        spec_unchanged_step(s, entries, next_key)
    } else if crate::virtual_event::spec_is_virtual_pointer_event(ev) {
        PressStep {
            state: PressState { pointer_type: PointerType::Virtual, ..s },
            ..spec_unchanged_step(s, entries, next_key)
        }
    } else {
        let prevent = if crate::element::spec_should_prevent_default(current_target) {
            seq![Effect::PreventDefault]
        } else {
            Seq::<Effect>::empty()
        };
        let guarded = prevent.push(Effect::StopPropagation);
        let armed = PressState { pointer_type: ev.pointer_kind, ..s };
        if s.pressed {
            PressStep { state: armed, effects: guarded, ..spec_unchanged_step(s, entries, next_key) }
        } else {
            let start = spec_start_pointer_gesture(armed, entries, next_key, ev, current_target);
            PressStep { effects: guarded + start.effects, ..start }
        }
    }
}

/// The tail of the pointer-down transition once the event qualifies and
/// no press is in progress: the state records the pointer and target,
/// the target is focused and its text selection suppressed where the
/// options say so, press-start fires, and the three document-level
/// gesture listeners are registered.
pub open spec fn spec_start_pointer_gesture(
    s: PressState,
    entries: Seq<(u64, ListenerEntry)>,
    next_key: u64,
    ev: crate::events::PointerInput,
    current_target: ElementInfo,
) -> PressStep {
    let started = PressState {
        pressed: true,
        is_over_target: true,
        active_pointer_id: Some(ev.pointer_id),
        target: Some(current_target),
        ..s
    };
    let focus = if !s.is_disabled || !s.prevent_focus_on_press {
        seq![Effect::FocusTarget(spec_element_ref_of(current_target))]
    } else {
        Seq::<Effect>::empty()
    };
    let suppress = if !s.allow_text_selection_on_press {
        seq![Effect::DisableTextSelection(current_target.handle)]
    } else {
        Seq::<Effect>::empty()
    };
    let fe = FocusableEvent::Pointer(ev.data, None);
    let (after, emissions) = spec_trigger_press_start(started, fe, ev.pointer_kind);
    let move_entry = ListenerEntry {
        target: ListenerTarget::Document,
        event_type: ListenerEventType::PointerMove,
        capture: false,
    };
    let up_entry = ListenerEntry {
        target: ListenerTarget::Document,
        event_type: ListenerEventType::PointerUp,
        capture: false,
    };
    let cancel_entry = ListenerEntry {
        target: ListenerTarget::Document,
        event_type: ListenerEventType::PointerCancel,
        capture: false,
    };
    let attach = seq![
        Effect::AttachListener {
            key: next_key,
            target: ListenerTarget::Document,
            event_type: ListenerEventType::PointerMove,
            capture: false,
        },
        Effect::AttachListener {
            key: (next_key + 1) as u64,
            target: ListenerTarget::Document,
            event_type: ListenerEventType::PointerUp,
            capture: false,
        },
        Effect::AttachListener {
            key: (next_key + 2) as u64,
            target: ListenerTarget::Document,
            event_type: ListenerEventType::PointerCancel,
            capture: false,
        },
    ];
    PressStep {
        state: after,
        emissions,
        effects: focus + suppress + attach,
        listener_entries: entries.push((next_key, move_entry)).push(
            ((next_key + 1) as u64, up_entry),
        ).push(((next_key + 2) as u64, cancel_entry)),
        next_listener_key: (next_key + 3) as u64,
    }
}

/// The pointer-move transition, document-scoped. Events of a pointer
/// other than the gesture's are ignored. A move into the target fires
/// press-start again; a move out of it fires a non-committing press-end
/// and, when the cancel-on-exit option is set, additionally cancels the
/// gesture then and there: every transient flag is cleared, all gesture
/// listeners are released, and text selection is restored unless the
/// element opted out. A move that stays on one side of the boundary
/// changes nothing.
pub open spec fn spec_on_pointer_move(
    s: PressState,
    entries: Seq<(u64, ListenerEntry)>,
    next_key: u64,
    ev: crate::events::PointerInput,
    target_rect: crate::geometry::Rect,
) -> PressStep {
    if Some(ev.pointer_id) != s.active_pointer_id || s.target is None {
        spec_unchanged_step(s, entries, next_key)
    } else {
        let target = s.target->Some_0;
        let fe = FocusableEvent::Pointer(
            ev.data,
            Some(crate::events::spec_focusable_element(spec_element_ref_of(target))),
        );
        let above = crate::geometry::spec_any_overlap(target_rect, ev.spec_rects());
        if above && !s.is_over_target {
            let (after, emissions) = spec_trigger_press_start(
                PressState { is_over_target: true, ..s },
                fe,
                s.pointer_type,
            );
            PressStep { state: after, emissions, ..spec_unchanged_step(s, entries, next_key) }
        } else if !above && s.is_over_target {
            let (left, emissions) = spec_trigger_press_end(
                PressState { is_over_target: false, ..s },
                fe,
                s.pointer_type,
                false,
            );
            if s.should_cancel_on_pointer_exit {
                let after = PressState {
                    pressed: false,
                    is_over_target: false,
                    active_pointer_id: None,
                    pointer_type: PointerType::Unsupported,
                    ..left
                };
                let restore = if !s.allow_text_selection_on_press {
                    seq![Effect::RestoreTextSelection(target.handle)]
                } else {
                    Seq::<Effect>::empty()
                };
                PressStep {
                    state: after,
                    emissions,
                    effects: spec_detach_effects(entries) + restore,
                    listener_entries: Seq::<(u64, ListenerEntry)>::empty(),
                    next_listener_key: next_key,
                }
            } else {
                PressStep { state: left, emissions, ..spec_unchanged_step(s, entries, next_key) }
            }
        } else {
            spec_unchanged_step(s, entries, next_key)
        }
    }
}

/// The element-scoped pointer-up transition: fires press-up once the
/// release is a primary-button release over the element, unless the
/// recorded pointer kind is virtual (those releases are handled by the
/// click path).
pub open spec fn spec_on_pointer_up(
    s: PressState,
    entries: Seq<(u64, ListenerEntry)>,
    next_key: u64,
    ev: crate::events::PointerInput,
    current_target_rect: crate::geometry::Rect,
    contains_target: bool,
) -> PressStep {
    if !contains_target || s.pointer_type is Virtual {
        spec_unchanged_step(s, entries, next_key)
    } else if ev.button != 0i16 || !crate::geometry::spec_any_overlap(
        current_target_rect,
        ev.spec_rects(),
    ) {
        spec_unchanged_step(s, entries, next_key)
    } else {
        let fe = FocusableEvent::Pointer(ev.data, None);
        PressStep {
            emissions: spec_trigger_press_up(s, fe, PointerType::Mouse),
            ..spec_unchanged_step(s, entries, next_key)
        }
    }
}

/// The document-scoped pointer-up transition, the authoritative gesture
/// terminator. Mismatched pointers and non-primary buttons are ignored;
/// a matching primary-button release always ends the gesture, whether or
/// not a press is still flagged (the pointer that leaves the target has
/// already had its press ended but still owns the gesture). The press
/// emits its end and commit exactly when a start is pending and the
/// release lies over the target; every transient flag is cleared, all
/// gesture listeners are released, and text selection is restored unless
/// the element opted out.
pub open spec fn spec_global_on_pointer_up(
    s: PressState,
    entries: Seq<(u64, ListenerEntry)>,
    next_key: u64,
    ev: crate::events::PointerInput,
    target_rect: crate::geometry::Rect,
) -> PressStep {
    if Some(ev.pointer_id) != s.active_pointer_id || ev.button != 0i16 || s.target is None {
        spec_unchanged_step(s, entries, next_key)
    } else {
        let target = s.target->Some_0;
        let fe = FocusableEvent::Pointer(
            ev.data,
            Some(crate::events::spec_focusable_element(spec_element_ref_of(target))),
        );
        let above = crate::geometry::spec_any_overlap(target_rect, ev.spec_rects());
        let (ended, emissions) = if above {
            spec_trigger_press_end(s, fe, s.pointer_type, true)
        } else if s.is_over_target {
            spec_trigger_press_end(s, fe, s.pointer_type, false)
        } else {
            (s, Seq::<Emission>::empty())
        };
        let cleared = PressState {
            pressed: false,
            is_over_target: false,
            active_pointer_id: None,
            pointer_type: PointerType::Unsupported,
            ..ended
        };
        let restore = if !s.allow_text_selection_on_press {
            seq![Effect::RestoreTextSelection(target.handle)]
        } else {
            Seq::<Effect>::empty()
        };
        PressStep {
            state: cleared,
            emissions,
            effects: spec_detach_effects(entries) + restore,
            listener_entries: Seq::<(u64, ListenerEntry)>::empty(),
            next_listener_key: next_key,
        }
    }
}

/// The cancel transition packaged as a step.
pub open spec fn spec_cancel_step(
    s: PressState,
    entries: Seq<(u64, ListenerEntry)>,
    next_key: u64,
    ev: FocusableEvent,
) -> PressStep {
    let (state, emissions, effects) = spec_cancel(s, entries, ev);
    PressStep {
        state,
        emissions,
        effects,
        listener_entries: if s.pressed {
            Seq::<(u64, ListenerEntry)>::empty()
        } else {
            entries
        },
        next_listener_key: next_key,
    }
}

/// The key-down transition. A qualifying key inside the element
/// conditionally prevents default, stops propagation, and — on the first
/// physical key-down only, never on OS key-repeat or while already
/// pressed — records the target, marks the press, fires press-start with
/// the keyboard pointer kind, and registers the document-scoped key-up
/// listener. Enter on a native anchor link that did not qualify still
/// stops propagation so ancestors do not also handle it.
pub open spec fn spec_on_key_down(
    s: PressState,
    entries: Seq<(u64, ListenerEntry)>,
    next_key: u64,
    ev: crate::events::KeyboardInput,
    current_target: ElementInfo,
    contains_target: bool,
) -> PressStep {
    if crate::element::spec_is_valid_keyboard_event(ev.key, current_target) && contains_target {
        let prevent = if crate::element::spec_should_prevent_default(current_target) {
            seq![Effect::PreventDefault]
        } else {
            Seq::<Effect>::empty()
        };
        let guarded = prevent.push(Effect::StopPropagation);
        if !s.pressed && !ev.repeat {
            let started = PressState { target: Some(current_target), pressed: true, ..s };
            let (after, emissions) = spec_trigger_press_start(
                started,
                FocusableEvent::Keyboard(ev.data, None),
                PointerType::Keyboard,
            );
            let entry = ListenerEntry {
                target: ListenerTarget::Document,
                event_type: ListenerEventType::KeyUp,
                capture: false,
            };
            PressStep {
                state: after,
                emissions,
                effects: guarded.push(
                    Effect::AttachListener {
                        key: next_key,
                        target: ListenerTarget::Document,
                        event_type: ListenerEventType::KeyUp,
                        capture: false,
                    },
                ),
                listener_entries: entries.push((next_key, entry)),
                next_listener_key: (next_key + 1) as u64,
            }
        } else {
            PressStep { effects: guarded, ..spec_unchanged_step(s, entries, next_key) }
        }
    } else if ev.key.key is Enter && crate::element::spec_is_html_anchor_link(current_target) {
        PressStep {
            effects: seq![Effect::StopPropagation],
            ..spec_unchanged_step(s, entries, next_key)
        }
    } else {
        spec_unchanged_step(s, entries, next_key)
    }
}

/// The recorded gesture target as an optional focusable element.
pub open spec fn spec_target_focusable(target: Option<ElementInfo>) -> Option<
    crate::events::FocusableElement,
> {
    match target {
        Some(info) => Some(crate::events::spec_focusable_element(spec_element_ref_of(info))),
        None => None,
    }
}

/// The document-scoped key-up transition, the authoritative keyboard
/// terminator. Ignored while not pressed or for a key that fails the
/// eligibility test against the event's current target. Otherwise it
/// conditionally prevents default, stops propagation, clears the pressed
/// flag, fires press-end committing exactly when the gesture's target
/// still contains the event's target, releases the gesture listeners,
/// and synthesizes a native click on an HTML target with a link role.
pub open spec fn spec_global_on_key_up(
    s: PressState,
    entries: Seq<(u64, ListenerEntry)>,
    next_key: u64,
    ev: crate::events::KeyboardInput,
    current_target: ElementInfo,
    target_contains: bool,
) -> PressStep {
    if !s.pressed || !crate::element::spec_is_valid_keyboard_event(ev.key, current_target) {
        spec_unchanged_step(s, entries, next_key)
    } else {
        let prevent = if crate::element::spec_should_prevent_default(current_target) {
            seq![Effect::PreventDefault]
        } else {
            Seq::<Effect>::empty()
        };
        let guarded = prevent.push(Effect::StopPropagation);
        let fe = FocusableEvent::Keyboard(ev.data, spec_target_focusable(s.target));
        let (after, emissions) = spec_trigger_press_end(
            PressState { pressed: false, ..s },
            fe,
            PointerType::Keyboard,
            target_contains,
        );
        let click = if s.target matches Some(t) && t.is_html && target_contains
            && crate::element::spec_has_link_role(t) {
            seq![Effect::ClickTarget(s.target->Some_0.handle)]
        } else {
            Seq::<Effect>::empty()
        };
        PressStep {
            state: after,
            emissions,
            effects: guarded + spec_detach_effects(entries) + click,
            listener_entries: Seq::<(u64, ListenerEntry)>::empty(),
            next_listener_key: next_key,
        }
    }
}

/// The element-scoped key-up transition: fires press-up, without
/// terminating the gesture, for a qualifying non-repeat key released
/// inside the element.
pub open spec fn spec_on_key_up(
    s: PressState,
    entries: Seq<(u64, ListenerEntry)>,
    next_key: u64,
    ev: crate::events::KeyboardInput,
    current_target: ElementInfo,
    contains_target: bool,
) -> PressStep {
    if !crate::element::spec_is_valid_keyboard_event(ev.key, current_target) || ev.repeat
        || !contains_target {
        spec_unchanged_step(s, entries, next_key)
    } else {
        let fe = FocusableEvent::Keyboard(ev.data, spec_target_focusable(s.target));
        PressStep {
            emissions: spec_trigger_press_up(s, fe, PointerType::Keyboard),
            ..spec_unchanged_step(s, entries, next_key)
        }
    }
}

/// The click transition. Clicks outside the element or with a
/// non-primary button are ignored. Otherwise propagation stops, and a
/// disabled element prevents default. A click that was not already
/// accounted for by a completed pointer or keyboard gesture, and that is
/// classified as virtual (or arrives while the recorded pointer kind is
/// virtual), focuses the target where allowed and synthesizes the full
/// press-start, press-up, press-end(commit) triple with the virtual
/// pointer kind. Either way, the two click-suppression flags are
/// cleared.
pub open spec fn spec_on_click(
    s: PressState,
    entries: Seq<(u64, ListenerEntry)>,
    next_key: u64,
    ev: crate::events::MouseInput,
    current_target: ElementInfo,
    contains_target: bool,
) -> PressStep {
    if !contains_target {
        spec_unchanged_step(s, entries, next_key)
    } else if ev.button != 0i16 {
        spec_unchanged_step(s, entries, next_key)
    } else {
        let guarded = seq![Effect::StopPropagation] + (if s.is_disabled {
            seq![Effect::PreventDefault]
        } else {
            Seq::<Effect>::empty()
        });
        if !s.ignore_click_after_press && !s.ignore_emulated_mouse_events && (s.pointer_type
            is Virtual || crate::virtual_event::spec_is_virtual_click(ev, s.is_android)) {
            let focus = if !s.is_disabled || !s.prevent_focus_on_press {
                seq![Effect::FocusTarget(spec_element_ref_of(current_target))]
            } else {
                Seq::<Effect>::empty()
            };
            let fe = FocusableEvent::Mouse(ev.data, None);
            let (started, start_emissions) = spec_trigger_press_start(s, fe, PointerType::Virtual);
            let up_emissions = spec_trigger_press_up(started, fe, PointerType::Virtual);
            let (ended, end_emissions) = spec_trigger_press_end(
                started,
                fe,
                PointerType::Virtual,
                true,
            );
            PressStep {
                state: PressState {
                    ignore_emulated_mouse_events: false,
                    ignore_click_after_press: false,
                    ..ended
                },
                emissions: start_emissions + up_emissions + end_emissions,
                effects: guarded + focus,
                listener_entries: entries,
                next_listener_key: next_key,
            }
        } else {
            PressStep {
                state: PressState {
                    ignore_emulated_mouse_events: false,
                    ignore_click_after_press: false,
                    ..s
                },
                effects: guarded,
                ..spec_unchanged_step(s, entries, next_key)
            }
        }
    }
}

/// The mouse-down transition: for a primary-button press inside the
/// element it conditionally prevents default and stops propagation, so
/// that touch-emulated mouse events do not fire an extra asynchronous
/// focus; it drives no press state.
pub open spec fn spec_on_mouse_down(
    s: PressState,
    entries: Seq<(u64, ListenerEntry)>,
    next_key: u64,
    ev: crate::events::MouseInput,
    current_target: ElementInfo,
    contains_target: bool,
) -> PressStep {
    if !contains_target || ev.button != 0i16 {
        spec_unchanged_step(s, entries, next_key)
    } else {
        let prevent = if crate::element::spec_should_prevent_default(current_target) {
            seq![Effect::PreventDefault]
        } else {
            Seq::<Effect>::empty()
        };
        PressStep {
            effects: prevent.push(Effect::StopPropagation),
            ..spec_unchanged_step(s, entries, next_key)
        }
    }
}

/// The drag-start transition: a drag beginning inside the element
/// cancels any in-progress press, because not every browser emits
/// pointer-cancel when a drag begins.
pub open spec fn spec_on_drag_start(
    s: PressState,
    entries: Seq<(u64, ListenerEntry)>,
    next_key: u64,
    ev: crate::events::DragInput,
    contains_target: bool,
) -> PressStep {
    if !contains_target {
        spec_unchanged_step(s, entries, next_key)
    } else {
        spec_cancel_step(s, entries, next_key, FocusableEvent::Drag(ev.data, None))
    }
}

/// Builds the detach requests for the given removed registrations.
fn detach_effects(removed: &Vec<(u64, ListenerEntry)>) -> (r: Vec<Effect>)
    ensures
        r@ == spec_detach_effects(removed@),
{
    let mut effects: Vec<Effect> = Vec::new();
    let mut index: usize = 0;
    while index < removed.len()
        invariant
            index <= removed@.len(),
            effects@.len() == index,
            forall|j: int| 0 <= j < index ==> effects@[j] == spec_detach_effects(removed@)[j],
        decreases removed@.len() - index,
    {
        let (key, entry) = removed[index];
        effects.push(
            Effect::DetachListener {
                key,
                target: entry.target,
                event_type: entry.event_type,
                capture: entry.capture,
            },
        );
        index += 1;
    }
    assert(effects@ =~= spec_detach_effects(removed@));
    effects
}

} // verus!
