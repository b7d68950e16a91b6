//! Tooltip: a floating label that is visible while its target has the focus or the mouse
//! cursor over it, or while the caller asks for it.
//!
//! The tooltip is always part of the document. Rendering decides whether it is visible and
//! how it looks; the events of the target move the focus and hover state.

use crate::classes::add_name;
use crate::classes::class_list;
use crate::popper::is_offset_options;
use crate::popper::offset_options;
use crate::popper::style_entries;
use crate::popper::style_with;
use crate::text::attr_text;
use crate::text::clone_attr;
use crate::text::str_eq;
use popper_rs::options::Options;
use popper_rs::state::StylesMap;
use popper_rs::sys::types::Placement as PopperPlacement;
use vstd::prelude::*;
use yew::Classes;

verus! {

/// Distance in pixels between a tooltip and its target.
pub const TOOLTIP_DISTANCE: i32 = 8;

/// Properties of a [`Tooltip`].
#[derive(PartialEq, Debug)]
pub struct TooltipProps {
    /// ID of the tooltip.
    ///
    /// If this is set, the target's `aria-describedby` attribute names the tooltip whenever
    /// it is visible.
    pub id: Option<String>,
    /// Placement of the tooltip.
    pub placement: PopperPlacement,
    /// Use fade transition when showing or hiding the tooltip.
    pub fade: bool,
    /// If `true`, always show the tooltip, regardless of focus state.
    ///
    /// `disabled` overrides this option.
    pub show: bool,
    /// Show the tooltip when the target receives input or keyboard focus.
    pub trigger_on_focus: bool,
    /// Show the tooltip when the target has the mouse cursor hovered over it.
    pub trigger_on_hover: bool,
    /// If `true`, always hide the tooltip. This overrides all other conditions.
    pub disabled: bool,
}

impl Clone for TooltipProps {
    fn clone(&self) -> (props: Self)
        ensures
            props == *self,
    {
        TooltipProps {
            id: clone_attr(&self.id),
            placement: self.placement,
            fade: self.fade,
            show: self.show,
            trigger_on_focus: self.trigger_on_focus,
            trigger_on_hover: self.trigger_on_hover,
            disabled: self.disabled,
        }
    }
}

impl Default for TooltipProps {
    /// A tooltip without an ID, placed automatically, that focus and hover trigger.
    fn default() -> (props: Self)
        ensures
            props.id is None,
            props.placement == PopperPlacement::Auto,
            !props.fade,
            !props.show,
            props.trigger_on_focus,
            props.trigger_on_hover,
            !props.disabled,
    {
        TooltipProps {
            id: None,
            placement: PopperPlacement::Auto,
            fade: false,
            show: false,
            trigger_on_focus: true,
            trigger_on_hover: true,
            disabled: false,
        }
    }
}

/// What a tooltip remembers between renders: whether its target has the focus, and whether
/// the mouse cursor is over it.
#[derive(Clone, Copy, PartialEq, Eq, Structural, Debug)]
pub struct TooltipState {
    /// The target has input or keyboard focus.
    pub focused: bool,
    /// The mouse cursor is over the target.
    pub hovered: bool,
}

impl Default for TooltipState {
    fn default() -> (state: Self)
        ensures
            !state.focused,
            !state.hovered,
    {
        TooltipState { focused: false, hovered: false }
    }
}

impl TooltipState {
    /// The state after an event of type `evt_type` that may show the tooltip.
    pub open spec fn after_show(self, evt_type: Seq<char>) -> TooltipState {
        if evt_type == "mouseenter"@ {
            TooltipState { hovered: true, ..self }
        } else if evt_type == "focusin"@ {
            TooltipState { focused: true, ..self }
        } else {
            self
        }
    }

    /// The state after an event of type `evt_type` that may hide the tooltip.
    pub open spec fn after_hide(self, evt_type: Seq<char>) -> TooltipState {
        if evt_type == "mouseleave"@ {
            TooltipState { hovered: false, ..self }
        } else if evt_type == "focusout"@ {
            TooltipState { focused: false, ..self }
        } else {
            self
        }
    }

    /// Handles an event on the target that may show the tooltip: `mouseenter` sets the hover
    /// state and `focusin` the focus state. Any other event changes nothing.
    pub fn on_show(self, evt_type: &str) -> (next: TooltipState)
        ensures
            next == self.after_show(evt_type@),
    {
        if str_eq(evt_type, "mouseenter") {
            TooltipState { focused: self.focused, hovered: true }
        } else if str_eq(evt_type, "focusin") {
            TooltipState { focused: true, hovered: self.hovered }
        } else {
            self
        }
    }

    /// Handles an event on the target that may hide the tooltip: `mouseleave` clears the
    /// hover state and `focusout` the focus state. Any other event changes nothing.
    pub fn on_hide(self, evt_type: &str) -> (next: TooltipState)
        ensures
            next == self.after_hide(evt_type@),
    {
        if str_eq(evt_type, "mouseleave") {
            TooltipState { focused: self.focused, hovered: false }
        } else if str_eq(evt_type, "focusout") {
            TooltipState { focused: false, hovered: self.hovered }
        } else {
            self
        }
    }
}

impl TooltipProps {
    /// The options for the positioning engine: the tooltip's placement, positioned
    /// absolutely, eight pixels from the target.
    pub fn options(&self) -> (options: Options)
        ensures
            is_offset_options(options, self.placement, TOOLTIP_DISTANCE),
    {
        offset_options(self.placement, TOOLTIP_DISTANCE)
    }

    /// Whether a tooltip with these properties is visible in `state`.
    pub open spec fn shows(&self, state: TooltipState) -> bool {
        !self.disabled && (self.show || (state.focused && self.trigger_on_focus) || (
        state.hovered && self.trigger_on_hover))
    }

    /// The state that a render leaves: a disabled tooltip forgets focus and hover, since a
    /// disabled target fires no event that would clear them.
    pub open spec fn settled(&self, state: TooltipState) -> TooltipState {
        if self.disabled {
            TooltipState { focused: false, hovered: false }
        } else {
            state
        }
    }
}

/// The classes of a tooltip's element.
pub open spec fn tooltip_classes(fade: bool, show: bool) -> Seq<Seq<char>> {
    seq!["tooltip"@, "bs-tooltip-auto"@] + (if fade {
        seq!["fade"@]
    } else {
        Seq::empty()
    }) + (if show {
        seq!["show"@]
    } else {
        Seq::empty()
    })
}

/// One render of a tooltip.
pub struct TooltipView {
    /// The focus and hover state to keep for the next render.
    pub state: TooltipState,
    /// Whether the tooltip is visible.
    pub show: bool,
    /// Whether the positioning engine is to compute the position anew.
    pub update_popper: bool,
    /// The `class` attribute of the tooltip's element.
    pub class: Classes,
    /// The `style` attribute of the tooltip's element.
    pub style: StylesMap,
    /// The `data-show` attribute of the tooltip's element, if it has one.
    pub data_show: Option<String>,
    /// The `id` attribute of the tooltip's element, if it has one.
    pub id: Option<String>,
    /// The `aria-describedby` attribute of the target; `None` removes the attribute.
    pub described_by: Option<String>,
}

/// Renders a tooltip from its properties, the state that the events left, and the style
/// that the positioning engine computed last.
///
/// The tooltip is visible if it is not disabled and either `show` is set, or the target is
/// focused and focus triggers it, or the target is hovered and hover triggers it.
#[allow(non_snake_case)]
pub fn Tooltip(props: &TooltipProps, state: TooltipState, popper_style: &StylesMap) -> (view:
    TooltipView)
    ensures
        view.state == props.settled(state),
        view.show == props.shows(state),
        view.update_popper == view.show,
        class_list(view.class) == tooltip_classes(props.fade, view.show),
        style_entries(view.style) == style_entries(*popper_style).insert(
            "pointer-events"@,
            "none"@,
        ),
        attr_text(view.data_show) == (if view.show {
            Some(Seq::<char>::empty())
        } else {
            None
        }),
        view.id == props.id,
        view.described_by == (if view.show {
            props.id
        } else {
            None
        }),
{
    let next = if props.disabled {
        TooltipState { focused: false, hovered: false }
    } else {
        state
    };
    let show = !props.disabled && (props.show || (state.focused && props.trigger_on_focus) || (
    state.hovered && props.trigger_on_hover));
    let data_show = if show {
        Some(String::new())
    } else {
        None
    };
    let id = clone_attr(&props.id);
    let described_by = if show {
        clone_attr(&props.id)
    } else {
        None
    };

    let mut class = Classes::new();
    proof {
        lemma_tooltip_names();
    }
    add_name(&mut class, "tooltip");
    add_name(&mut class, "bs-tooltip-auto");
    if props.fade {
        add_name(&mut class, "fade");
    }
    if show {
        add_name(&mut class, "show");
    }
    let style = style_with(popper_style, "pointer-events", "none");

    TooltipView {
        state: next,
        show,
        update_popper: show,
        class,
        style,
        data_show,
        id,
        described_by,
    }
}

/// A disabled tooltip is hidden, whatever its other properties and whatever the events
/// left behind; and a render of it forgets focus and hover.
pub proof fn lemma_disabled_is_hidden(props: TooltipProps, state: TooltipState)
    requires
        props.disabled,
    ensures
        !props.shows(state),
        props.settled(state) == (TooltipState { focused: false, hovered: false }),
{
}

/// A render settles the state once: rendering what a render left changes nothing more, and
/// shows what the first render showed.
pub proof fn lemma_settled_is_stable(props: TooltipProps, state: TooltipState)
    ensures
        props.settled(props.settled(state)) == props.settled(state),
        props.shows(props.settled(state)) == props.shows(state),
{
}

/// A tooltip that is not disabled and whose `show` is set is visible in every state.
pub proof fn lemma_show_is_visible(props: TooltipProps, state: TooltipState)
    requires
        props.show,
        !props.disabled,
    ensures
        props.shows(state),
{
}

/// A tooltip that nothing asks for is hidden: `show` is not set, and the target is neither
/// focused nor hovered.
pub proof fn lemma_idle_is_hidden(props: TooltipProps)
    requires
        !props.show,
    ensures
        !props.shows(TooltipState { focused: false, hovered: false }),
{
}

/// The mouse moves the hover state only, and the focus moves the focus state only. Leaving
/// undoes entering.
pub proof fn lemma_events_are_independent(state: TooltipState)
    ensures
        state.after_show("mouseenter"@) == (TooltipState { hovered: true, ..state }),
        state.after_show("focusin"@) == (TooltipState { focused: true, ..state }),
        state.after_hide("mouseleave"@) == (TooltipState { hovered: false, ..state }),
        state.after_hide("focusout"@) == (TooltipState { focused: false, ..state }),
        state.after_show("mouseenter"@).after_hide("mouseleave"@) == (TooltipState {
            hovered: false,
            ..state
        }),
        state.after_show("focusin"@).after_hide("focusout"@) == (TooltipState {
            focused: false,
            ..state
        }),
        state.after_show("mouseleave"@) == state,
        state.after_show("focusout"@) == state,
        state.after_hide("mouseenter"@) == state,
        state.after_hide("focusin"@) == state,
{
    reveal_strlit("mouseenter");
    reveal_strlit("mouseleave");
    reveal_strlit("focusin");
    reveal_strlit("focusout");
    assert("mouseenter"@[5] != "mouseleave"@[5]);
    assert("focusin"@.len() != "focusout"@.len());
    assert("focusin"@.len() != "mouseenter"@.len());
    assert("focusout"@.len() != "mouseenter"@.len());
}

/// The four class names of a tooltip are single names, and no two of them are the same.
proof fn lemma_tooltip_names()
    ensures
        crate::classes::is_single_name("tooltip"@),
        crate::classes::is_single_name("bs-tooltip-auto"@),
        crate::classes::is_single_name("fade"@),
        crate::classes::is_single_name("show"@),
        "tooltip"@ != "bs-tooltip-auto"@,
        "tooltip"@ != "fade"@,
        "tooltip"@ != "show"@,
        "bs-tooltip-auto"@ != "fade"@,
        "bs-tooltip-auto"@ != "show"@,
        "fade"@ != "show"@,
{
    reveal_strlit("tooltip");
    reveal_strlit("bs-tooltip-auto");
    reveal_strlit("fade");
    reveal_strlit("show");
    assert("fade"@[0] != "show"@[0]);
}

} // verus!
