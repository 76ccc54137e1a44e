//! Focusing an element without scrolling it into view.
//!
//! Some engines ignore the prevent-scroll focus option, so the capability
//! is probed once per UI root and cached. Where it is missing, the
//! fallback walks the focused element's scrollable ancestors, saves their
//! scroll positions before the focus call, and restores them afterwards.
//! The DOM walk and the focus call live in the adapter; the capability
//! cache, the selection of scrollable ancestors and the restoration plan
//! are verified here.

use vstd::prelude::*;

verus! {

/// The cached outcome of the prevent-scroll capability probe, one per UI
/// root.
pub struct SupportsPreventScroll {
    /// The probe outcome, once one was recorded.
    pub cached: Option<bool>,
}

impl SupportsPreventScroll {
    /// A fresh cache: the capability has not been probed.
    pub fn new() -> (r: SupportsPreventScroll)
        ensures
            r.cached == Option::<bool>::None,
    {
        SupportsPreventScroll { cached: None }
    }

    /// Whether the platform honours the prevent-scroll focus option.
    /// A cached outcome is reused and the probe ignored; otherwise the
    /// probe outcome is recorded, with a failed probe (`None`) counting
    /// as unsupported.
    pub fn supports_prevent_scroll(&mut self, probe: Option<bool>) -> (r: bool)
        ensures
            match old(self).cached {
                Some(cached) => r == cached && final(self).cached == old(self).cached,
                None => r == (probe == Some(true)) && final(self).cached == Some(r),
            },
    {
        match self.cached {
            Some(cached) => cached,
            None => {
                let supported = matches!(probe, Some(true));
                self.cached = Some(supported);
                supported
            },
        }
    }
}

/// What the fallback reads of one ancestor in the chain between the
/// focused element and the root scrolling element.
#[derive(Clone, Copy, PartialEq, Eq, Structural, Debug)]
pub struct AncestorInfo {
    pub handle: u64,
    /// Whether the element is an HTML element.
    pub is_html: bool,
    pub offset_height: i32,
    pub scroll_height: i32,
    pub offset_width: i32,
    pub scroll_width: i32,
    pub scroll_top: i32,
    pub scroll_left: i32,
}

/// One saved scroll position, to be restored after the focus call.
#[derive(Clone, Copy, PartialEq, Eq, Structural, Debug)]
pub struct ScrollableElement {
    pub handle: u64,
    pub scroll_top: i32,
    pub scroll_left: i32,
}

/// An element scrolls when its content exceeds its box on either axis.
pub open spec fn spec_is_scrollable(a: AncestorInfo) -> bool {
    a.offset_height < a.scroll_height || a.offset_width < a.scroll_width
}

/// The saved scroll position of an ancestor.
pub open spec fn spec_scroll_position(a: AncestorInfo) -> ScrollableElement {
    ScrollableElement { handle: a.handle, scroll_top: a.scroll_top, scroll_left: a.scroll_left }
}

/// The scroll positions worth saving in an ancestor chain: those of the
/// scrollable ancestors, in chain order.
pub open spec fn spec_scrollable_positions(ancestors: Seq<AncestorInfo>) -> Seq<ScrollableElement>
    decreases ancestors.len(),
{
    if ancestors.len() == 0 {
        Seq::<ScrollableElement>::empty()
    } else {
        spec_scrollable_positions(ancestors.drop_last()) + (if spec_is_scrollable(
            ancestors.last(),
        ) {
            seq![spec_scroll_position(ancestors.last())]
        } else {
            Seq::<ScrollableElement>::empty()
        })
    }
}

/// Saves the scroll positions the focus call could disturb: each
/// scrollable ancestor of the chain, and the root scrolling element
/// where it is an HTML element (its position is saved whether or not it
/// currently scrolls).
pub fn get_scrollable_elements(ancestors: &Vec<AncestorInfo>, root: &AncestorInfo) -> (r: Vec<
    ScrollableElement,
>)
    ensures
        r@ == spec_scrollable_positions(ancestors@) + (if root.is_html {
            seq![spec_scroll_position(*root)]
        } else {
            Seq::<ScrollableElement>::empty()
        }),
{
    let mut saved: Vec<ScrollableElement> = Vec::new();
    let mut index: usize = 0;
    while index < ancestors.len()
        invariant
            index <= ancestors@.len(),
            saved@ == spec_scrollable_positions(ancestors@.take(index as int)),
        decreases ancestors@.len() - index,
    {
        let ancestor = &ancestors[index];
        if ancestor.offset_height < ancestor.scroll_height
            || ancestor.offset_width < ancestor.scroll_width {
            saved.push(
                ScrollableElement {
                    handle: ancestor.handle,
                    scroll_top: ancestor.scroll_top,
                    scroll_left: ancestor.scroll_left,
                },
            );
        }
        proof {
            assert(ancestors@.take(index as int + 1).drop_last() =~= ancestors@.take(index as int));
            assert(ancestors@.take(index as int + 1).last() == ancestors@[index as int]);
        }
        index += 1;
    }
    proof {
        assert(ancestors@.take(ancestors@.len() as int) =~= ancestors@);
    }
    if root.is_html {
        saved.push(
            ScrollableElement {
                handle: root.handle,
                scroll_top: root.scroll_top,
                scroll_left: root.scroll_left,
            },
        );
    }
    assert(saved@ =~= spec_scrollable_positions(ancestors@) + (if root.is_html {
        seq![spec_scroll_position(*root)]
    } else {
        Seq::<ScrollableElement>::empty()
    }));
    saved
}

/// One scroll write the adapter performs after the focus call.
#[derive(Clone, Copy, PartialEq, Eq, Structural, Debug)]
pub struct ScrollEffect {
    pub handle: u64,
    pub set_scroll_top: i32,
    pub set_scroll_left: i32,
}

/// The scroll write restoring one saved position.
pub open spec fn spec_scroll_effect(e: ScrollableElement) -> ScrollEffect {
    ScrollEffect {
        handle: e.handle,
        set_scroll_top: e.scroll_top,
        set_scroll_left: e.scroll_left,
    }
}

/// Restores every saved scroll position, in order.
pub fn restore_scroll_position(scrollable_elements: &Vec<ScrollableElement>) -> (r: Vec<
    ScrollEffect,
>)
    ensures
        r@ == scrollable_elements@.map_values(|e: ScrollableElement| spec_scroll_effect(e)),
{
    let mut effects: Vec<ScrollEffect> = Vec::new();
    let mut index: usize = 0;
    while index < scrollable_elements.len()
        invariant
            index <= scrollable_elements@.len(),
            effects@.len() == index,
            forall|j: int|
                0 <= j < index ==> effects@[j] == spec_scroll_effect(
                    #[trigger] scrollable_elements@[j],
                ),
        decreases scrollable_elements@.len() - index,
    {
        let element = &scrollable_elements[index];
        effects.push(
            ScrollEffect {
                handle: element.handle,
                set_scroll_top: element.scroll_top,
                set_scroll_left: element.scroll_left,
            },
        );
        index += 1;
    }
    assert(effects@ =~= scrollable_elements@.map_values(
        |e: ScrollableElement| spec_scroll_effect(e),
    ));
    effects
}

/// How the adapter should focus an element without scrolling.
#[derive(Clone, PartialEq, Eq, Debug)]
pub enum FocusPlan {
    /// Call the platform focus with the prevent-scroll option.
    FocusWithPreventScroll,
    /// Call the plain platform focus, then restore the saved scroll
    /// positions.
    FocusThenRestore(Vec<ScrollableElement>),
}

/// Decides how to focus an element without scrolling it into view.
/// `probe` is the capability probe's outcome, consulted only while the
/// cache is empty; `ancestors` and `root` describe the element's
/// ancestor chain as [`get_scrollable_elements`] expects it.
pub fn focus_without_scrolling(
    support: &mut SupportsPreventScroll,
    probe: Option<bool>,
    ancestors: &Vec<AncestorInfo>,
    root: &AncestorInfo,
) -> (r: FocusPlan)
    ensures
        ({
            let supported = match old(support).cached {
                Some(cached) => cached,
                None => probe == Some(true),
            };
            &&& final(support).cached == Some(supported)
            &&& if supported {
                r == FocusPlan::FocusWithPreventScroll
            } else {
                r matches FocusPlan::FocusThenRestore(saved) && saved@ == get_scrollable_plan(
                    ancestors@,
                    *root,
                )
            }
        }),
{
    if support.supports_prevent_scroll(probe) {
        FocusPlan::FocusWithPreventScroll
    } else {
        let saved = get_scrollable_elements(ancestors, root);
        proof {
            assert(saved@ == get_scrollable_plan(ancestors@, *root));
        }
        FocusPlan::FocusThenRestore(saved)
    }
}

/// The scroll positions [`get_scrollable_elements`] saves for this chain.
pub open spec fn get_scrollable_plan(
    ancestors: Seq<AncestorInfo>,
    root: AncestorInfo,
) -> Seq<ScrollableElement> {
    spec_scrollable_positions(ancestors) + (if root.is_html {
        seq![spec_scroll_position(root)]
    } else {
        Seq::<ScrollableElement>::empty()
    })
}

} // verus!
