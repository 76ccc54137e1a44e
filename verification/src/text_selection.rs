//! Text-selection suppression during a press gesture.
//!
//! Safari on iOS starts selecting text on a long press; the only reliable
//! counter-measure is `user-select: none` on the whole page, applied on
//! press start and lifted again after a delay once the press ends. The
//! delay means three states: the default state always transitions to
//! disabled, disabled to restoring, and restoring either back to disabled
//! (a new press arrived first) or to the default (the delayed restoration
//! ran). On every other platform the property is set on the pressed
//! element alone, tracked per element, to avoid page-wide style churn.
//!
//! The suppressor is one shared state container per UI root; the style
//! reads it depends on arrive as arguments and the style writes it
//! decides on leave as [`StyleEffect`] values the adapter applies.

use vstd::prelude::*;
use crate::element::ElementInfo;
use crate::handle_map::HandleMap;

verus! {

/// The page-wide suppression state of the iOS strategy.
#[derive(Clone, Copy, PartialEq, Eq, Structural, Debug)]
pub enum Selection {
    /// Nothing is suppressed.
    Default,
    /// Selection is suppressed page-wide.
    Disabled,
    /// A restoration has been scheduled but has not run yet.
    Restoring,
}

impl Default for Selection {
    /// The initial state: nothing is suppressed.
    fn default() -> (r: Selection)
        ensures
            r == Selection::Default,
    {
        Selection::Default
    }
}

/// One style write the adapter performs for the suppressor.
#[derive(Clone, PartialEq, Eq, Debug)]
pub enum StyleEffect {
    /// Set the document root's `-webkit-user-select` inline value to
    /// "none".
    SetDocumentUserSelectNone,
    /// Restore the document root's `-webkit-user-select` inline value to
    /// the snapshot, or clear it where none was recorded.
    SetDocumentUserSelect(Option<String>),
    /// Set the element's `user-select` inline value to "none".
    SetElementUserSelectNone(u64),
    /// Restore the element's `user-select` inline value.
    SetElementUserSelect(u64, String),
    /// Schedule the delayed page-wide restoration: after a fixed delay,
    /// and once in-flight CSS transitions have settled, the adapter calls
    /// [`TextSelection::finish_restoration`].
    ScheduleRestore,
}

/// The mathematical view of the suppressor state.
pub struct SelectionView {
    pub ios: bool,
    pub selection: Selection,
    pub user_select: Option<String>,
    pub elements: Map<u64, String>,
}

/// The per-root text-selection suppressor.
pub struct TextSelection {
    /// Whether the platform is iOS, chosen once at creation.
    pub ios: bool,
    /// The page-wide suppression state (iOS strategy).
    pub selection: Selection,
    /// The document root's `-webkit-user-select` value recorded before
    /// suppression (iOS strategy).
    pub user_select: Option<String>,
    /// The `user-select` value each suppressed element had before
    /// suppression, by element handle (generic strategy).
    pub elements: HandleMap<String>,
}

impl View for TextSelection {
    type V = SelectionView;

    open spec fn view(&self) -> SelectionView {
        SelectionView {
            ios: self.ios,
            selection: self.selection,
            user_select: self.user_select,
            elements: self.elements@,
        }
    }
}

/// Whether the generic strategy may touch the element: only HTML and SVG
/// elements are eligible; every other input is silently ignored.
pub open spec fn spec_selectable(element: ElementInfo) -> bool {
    element.is_html || element.is_svg
}

/// The suppression transition. On iOS: when the page-wide state is the
/// default, the document's current value is snapshotted and the document
/// is suppressed; the state becomes disabled unconditionally, so a
/// suppress while a restoration is pending revokes it. Elsewhere: an
/// eligible element not yet registered has its current value recorded and
/// its selection suppressed; re-suppression is a no-op that keeps the
/// first recorded value.
pub open spec fn spec_disable_text_selection(
    v: SelectionView,
    element: Option<ElementInfo>,
    element_user_select: String,
    document_user_select: Option<String>,
) -> (SelectionView, Seq<StyleEffect>) {
    if v.ios {
        if v.selection is Default {
            (
                SelectionView {
                    selection: Selection::Disabled,
                    user_select: document_user_select,
                    ..v
                },
                seq![StyleEffect::SetDocumentUserSelectNone],
            )
        } else {
            (SelectionView { selection: Selection::Disabled, ..v }, Seq::<StyleEffect>::empty())
        }
    } else {
        match element {
            None => (v, Seq::<StyleEffect>::empty()),
            Some(el) => {
                if !spec_selectable(el) || v.elements.contains_key(el.handle) {
                    (v, Seq::<StyleEffect>::empty())
                } else {
                    (
                        SelectionView {
                            elements: v.elements.insert(el.handle, element_user_select),
                            ..v
                        },
                        seq![StyleEffect::SetElementUserSelectNone(el.handle)],
                    )
                }
            },
        }
    }
}

/// The restoration-request transition. On iOS: only a disabled state
/// schedules the delayed restoration and becomes restoring; requesting a
/// restore in any other state does nothing. Elsewhere: an eligible
/// registered element has its recorded value restored — where its
/// current value is still "none" — and leaves the registry.
pub open spec fn spec_restore_text_selection(
    v: SelectionView,
    element: ElementInfo,
    element_user_select: String,
) -> (SelectionView, Seq<StyleEffect>) {
    if v.ios {
        if v.selection is Disabled {
            (
                SelectionView { selection: Selection::Restoring, ..v },
                seq![StyleEffect::ScheduleRestore],
            )
        } else {
            (v, Seq::<StyleEffect>::empty())
        }
    } else {
        if !spec_selectable(element) || !v.elements.contains_key(element.handle) {
            (v, Seq::<StyleEffect>::empty())
        } else {
            let restored = SelectionView {
                elements: v.elements.remove(element.handle),
                ..v
            };
            if element_user_select@ == "none"@ {
                (
                    restored,
                    seq![
                        StyleEffect::SetElementUserSelect(
                            element.handle,
                            v.elements[element.handle],
                        ),
                    ],
                )
            } else {
                (restored, Seq::<StyleEffect>::empty())
            }
        }
    }
}

/// The delayed-restoration transition (iOS). The guard re-checks the
/// page-wide state: only a still-restoring state restores the snapshot —
/// where the document's value is still "none" — and returns to the
/// default; a stale callback, overtaken by a new suppression, does
/// nothing.
pub open spec fn spec_finish_restoration(
    v: SelectionView,
    document_user_select_is_none: bool,
) -> (SelectionView, Seq<StyleEffect>) {
    if v.selection is Restoring {
        let fx = if document_user_select_is_none {
            seq![StyleEffect::SetDocumentUserSelect(v.user_select)]
        } else {
            Seq::<StyleEffect>::empty()
        };
        (SelectionView { selection: Selection::Default, user_select: None, ..v }, fx)
    } else {
        (v, Seq::<StyleEffect>::empty())
    }
}

impl TextSelection {
    /// The suppressor is well formed when its element registry is.
    pub open spec fn wf(&self) -> bool {
        self.elements.wf()
    }

    /// A fresh suppressor for a UI root; `ios` selects the strategy.
    pub fn new(ios: bool) -> (r: TextSelection)
        ensures
            r.wf(),
            r@ == (SelectionView {
                ios,
                selection: Selection::Default,
                user_select: None,
                elements: Map::<u64, String>::empty(),
            }),
    {
        TextSelection {
            ios,
            selection: Selection::Default,
            user_select: None,
            elements: HandleMap::new(),
        }
    }

    /// Suppresses text selection for a press on `element`: see
    /// [`spec_disable_text_selection`]. `element_user_select` is the
    /// element's current inline `user-select` value and
    /// `document_user_select` the document root's current inline
    /// `-webkit-user-select` value, as the adapter read them.
    pub fn disable_text_selection(
        &mut self,
        element: Option<&ElementInfo>,
        element_user_select: String,
        document_user_select: Option<String>,
    ) -> (effects: Vec<StyleEffect>)
        requires
            old(self).wf(),
        ensures
            final(self).wf(),
            (final(self)@, effects@) == spec_disable_text_selection(
                old(self)@,
                match element {
                    Some(el) => Some(*el),
                    None => None,
                },
                element_user_select,
                document_user_select,
            ),
    {
        let mut effects: Vec<StyleEffect> = Vec::new();
        if self.ios {
            if matches!(self.selection, Selection::Default) {
                self.user_select = document_user_select;
                effects.push(StyleEffect::SetDocumentUserSelectNone);
            }
            self.selection = Selection::Disabled;
            assert(effects@ =~= spec_disable_text_selection(
                old(self)@,
                match element {
                    Some(el) => Some(*el),
                    None => None,
                },
                element_user_select,
                document_user_select,
            ).1);
            return effects;
        }
        let target = match element {
            Some(el) => el,
            None => {
                assert(effects@ =~= Seq::<StyleEffect>::empty());
                return effects;
            },
        };
        if !target.is_html && !target.is_svg {
            assert(effects@ =~= Seq::<StyleEffect>::empty());
            return effects;
        }
        if self.elements.has(target.handle) {
            assert(effects@ =~= Seq::<StyleEffect>::empty());
            return effects;
        }
        self.elements.set(target.handle, element_user_select);
        effects.push(StyleEffect::SetElementUserSelectNone(target.handle));
        assert(effects@ =~= seq![StyleEffect::SetElementUserSelectNone(target.handle)]);
        effects
    }

    /// Requests restoration of text selection for `element`: see
    /// [`spec_restore_text_selection`]. `element_user_select` is the
    /// element's current inline `user-select` value. Where the returned
    /// effects hold [`StyleEffect::ScheduleRestore`], the adapter calls
    /// [`TextSelection::finish_restoration`] after the delay.
    pub fn restore_text_selection(
        &mut self,
        element: &ElementInfo,
        element_user_select: String,
    ) -> (effects: Vec<StyleEffect>)
        requires
            old(self).wf(),
        ensures
            final(self).wf(),
            (final(self)@, effects@) == spec_restore_text_selection(
                old(self)@,
                *element,
                element_user_select,
            ),
    {
        let mut effects: Vec<StyleEffect> = Vec::new();
        if self.ios {
            if matches!(self.selection, Selection::Disabled) {
                self.selection = Selection::Restoring;
                effects.push(StyleEffect::ScheduleRestore);
                assert(effects@ =~= seq![StyleEffect::ScheduleRestore]);
            } else {
                assert(effects@ =~= Seq::<StyleEffect>::empty());
            }
            return effects;
        }
        if !element.is_html && !element.is_svg {
            assert(effects@ =~= Seq::<StyleEffect>::empty());
            return effects;
        }
        let saved = match self.elements.get(element.handle) {
            Some(saved) => saved.clone(),
            None => {
                assert(effects@ =~= Seq::<StyleEffect>::empty());
                return effects;
            },
        };
        let none_value: String = "none".to_owned();
        if element_user_select == none_value {
            effects.push(StyleEffect::SetElementUserSelect(element.handle, saved));
        }
        self.elements.delete(element.handle);
        assert(effects@ =~= spec_restore_text_selection(old(self)@, *element, element_user_select).1);
        effects
    }

    /// Runs the delayed page-wide restoration when it comes due: see
    /// [`spec_finish_restoration`]. `document_user_select_is_none` says
    /// whether the document root's `-webkit-user-select` inline value
    /// still reads "none".
    pub fn finish_restoration(&mut self, document_user_select_is_none: bool) -> (effects: Vec<
        StyleEffect,
    >)
        requires
            old(self).wf(),
        ensures
            final(self).wf(),
            (final(self)@, effects@) == spec_finish_restoration(
                old(self)@,
                document_user_select_is_none,
            ),
    {
        let mut effects: Vec<StyleEffect> = Vec::new();
        if !matches!(self.selection, Selection::Restoring) {
            assert(effects@ =~= Seq::<StyleEffect>::empty());
            return effects;
        }
        if document_user_select_is_none {
            let snapshot = match &self.user_select {
                Some(value) => Some(value.clone()),
                None => None,
            };
            effects.push(StyleEffect::SetDocumentUserSelect(snapshot));
        }
        self.selection = Selection::Default;
        self.user_select = None;
        assert(effects@ =~= spec_finish_restoration(old(self)@, document_user_select_is_none).1);
        effects
    }
}

/// Whether the adapter should drop the element's `style` attribute after
/// a restoration left it carrying no value.
pub fn should_remove_style_attribute(style_attribute: &Option<String>) -> (r: bool)
    ensures
        r == match *style_attribute {
            Some(ref value) => value@.len() == 0,
            None => true,
        },
{
    match style_attribute {
        Some(value) => value.as_str().is_empty(),
        None => true,
    }
}

/// Re-suppressing a suppressed element keeps the first recorded value:
/// after a suppression records `first` for an eligible, unregistered
/// element, a second suppression with any later value `second` changes
/// nothing, and the registry still maps the element to `first`.
pub proof fn lemma_resuppression_keeps_first_value(
    v: SelectionView,
    element: ElementInfo,
    first: String,
    second: String,
    document_first: Option<String>,
    document_second: Option<String>,
)
    requires
        !v.ios,
        spec_selectable(element),
        !v.elements.contains_key(element.handle),
    ensures
        ({
            let (v1, _) = spec_disable_text_selection(v, Some(element), first, document_first);
            let (v2, fx2) = spec_disable_text_selection(
                v1,
                Some(element),
                second,
                document_second,
            );
            &&& v1.elements[element.handle] == first
            &&& v2 == v1
            &&& fx2 == Seq::<StyleEffect>::empty()
            &&& v2.elements[element.handle] == first
        }),
{
}

/// A page-wide suppression that overtakes a pending restoration wins:
/// after suppress, restore and suppress again, the state is disabled,
/// the document was suppressed exactly once, and the stale scheduled
/// restoration performs no style write and leaves the state disabled.
pub proof fn lemma_stale_restoration_is_inert(
    v: SelectionView,
    element: ElementInfo,
    element_user_select: String,
    document_user_select: Option<String>,
    document_is_none_later: bool,
)
    requires
        v.ios,
        v.selection is Default,
    ensures
        ({
            let (v1, fx1) = spec_disable_text_selection(
                v,
                Some(element),
                element_user_select,
                document_user_select,
            );
            let (v2, fx2) = spec_restore_text_selection(v1, element, element_user_select);
            let (v3, fx3) = spec_disable_text_selection(
                v2,
                Some(element),
                element_user_select,
                document_user_select,
            );
            let (v4, fx4) = spec_finish_restoration(v3, document_is_none_later);
            &&& fx1 == seq![StyleEffect::SetDocumentUserSelectNone]
            &&& fx2 == seq![StyleEffect::ScheduleRestore]
            &&& v3.selection is Disabled
            &&& fx3 == Seq::<StyleEffect>::empty()
            &&& v4 == v3
            &&& fx4 == Seq::<StyleEffect>::empty()
            &&& v4.selection is Disabled
            &&& v4.user_select == document_user_select
        }),
{
}

} // verus!
