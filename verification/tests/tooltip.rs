use std::collections::HashMap;

use popper_rs::modifier::Modifier;
use popper_rs::modifier::Offset;
use popper_rs::prelude::Placement as PopperPlacement;
use popper_rs::state::StylesMap;
use popper_rs::sys::types::Strategy;
use yew::Classes;
use yew_bootstrap::component::tooltip::TOOLTIP_DISTANCE;
use yew_bootstrap::component::Tooltip;
use yew_bootstrap::component::TooltipProps;
use yew_bootstrap::component::TooltipState;

fn idle() -> TooltipState {
    TooltipState { focused: false, hovered: false }
}

fn both() -> TooltipState {
    TooltipState { focused: true, hovered: true }
}

#[test]
fn tooltip_props_default_to_focus_and_hover_triggers() {
    let props = TooltipProps::default();
    assert_eq!(props.id, None);
    assert_eq!(props.placement, PopperPlacement::Auto);
    assert!(!props.fade);
    assert!(!props.show);
    assert!(props.trigger_on_focus);
    assert!(props.trigger_on_hover);
    assert!(!props.disabled);
}

#[test]
fn tooltip_state_starts_idle() {
    assert_eq!(TooltipState::default(), idle());
}

#[test]
fn tooltip_is_hidden_while_nothing_asks_for_it() {
    let view = Tooltip(&TooltipProps::default(), idle(), &StylesMap::default());
    assert!(!view.show);
    assert!(!view.update_popper);
    assert_eq!(view.data_show, None);
    assert_eq!(view.described_by, None);
    assert_eq!(view.state, idle());
    assert_eq!(view.class.to_string(), "tooltip bs-tooltip-auto");
}

#[test]
fn tooltip_shows_while_the_target_is_hovered() {
    let state = idle().on_show("mouseenter");
    assert_eq!(state, TooltipState { focused: false, hovered: true });
    let view = Tooltip(&TooltipProps::default(), state, &StylesMap::default());
    assert!(view.show);
    assert!(view.update_popper);
    assert_eq!(view.data_show, Some(String::new()));
    assert_eq!(view.state, state);
    assert_eq!(view.class.to_string(), "tooltip bs-tooltip-auto show");

    let state = state.on_hide("mouseleave");
    assert_eq!(state, idle());
    assert!(!Tooltip(&TooltipProps::default(), state, &StylesMap::default()).show);
}

#[test]
fn tooltip_shows_while_the_target_is_focused() {
    let state = idle().on_show("focusin");
    assert_eq!(state, TooltipState { focused: true, hovered: false });
    assert!(Tooltip(&TooltipProps::default(), state, &StylesMap::default()).show);
    let state = state.on_hide("focusout");
    assert_eq!(state, idle());
    assert!(!Tooltip(&TooltipProps::default(), state, &StylesMap::default()).show);
}

#[test]
fn tooltip_stays_while_either_trigger_holds() {
    let state = idle().on_show("focusin").on_show("mouseenter");
    assert_eq!(state, both());
    let state = state.on_hide("mouseleave");
    assert_eq!(state, TooltipState { focused: true, hovered: false });
    assert!(Tooltip(&TooltipProps::default(), state, &StylesMap::default()).show);
    let state = both().on_hide("focusout");
    assert_eq!(state, TooltipState { focused: false, hovered: true });
    assert!(Tooltip(&TooltipProps::default(), state, &StylesMap::default()).show);
}

#[test]
fn tooltip_show_handler_ignores_other_events() {
    for evt_type in ["mouseleave", "focusout", "click", "", "MouseEnter", "FOCUSIN", "mouseenter ", "focus"] {
        assert_eq!(idle().on_show(evt_type), idle());
        assert_eq!(both().on_show(evt_type), both());
    }
}

#[test]
fn tooltip_hide_handler_ignores_other_events() {
    for evt_type in ["mouseenter", "focusin", "click", "", "MouseLeave", "FOCUSOUT", " focusout", "blur"] {
        assert_eq!(both().on_hide(evt_type), both());
        assert_eq!(idle().on_hide(evt_type), idle());
    }
}

#[test]
fn tooltip_events_are_idempotent() {
    let once = idle().on_show("mouseenter");
    assert_eq!(once.on_show("mouseenter"), once);
    let gone = once.on_hide("mouseleave");
    assert_eq!(gone.on_hide("mouseleave"), gone);
}

#[test]
fn tooltip_triggers_can_be_switched_off() {
    let no_focus = TooltipProps { trigger_on_focus: false, ..TooltipProps::default() };
    let no_hover = TooltipProps { trigger_on_hover: false, ..TooltipProps::default() };
    let neither = TooltipProps { trigger_on_focus: false, trigger_on_hover: false, ..TooltipProps::default() };
    let focused = TooltipState { focused: true, hovered: false };
    let hovered = TooltipState { focused: false, hovered: true };
    let style = StylesMap::default();
    assert!(!Tooltip(&no_focus, focused, &style).show);
    assert!(Tooltip(&no_focus, hovered, &style).show);
    assert!(Tooltip(&no_focus, both(), &style).show);
    assert!(Tooltip(&no_hover, focused, &style).show);
    assert!(!Tooltip(&no_hover, hovered, &style).show);
    assert!(Tooltip(&no_hover, both(), &style).show);
    assert!(!Tooltip(&neither, both(), &style).show);
    // The state is kept even where it triggers nothing.
    assert_eq!(Tooltip(&neither, both(), &style).state, both());
}

#[test]
fn tooltip_show_property_shows_it_whatever_the_state() {
    let props = TooltipProps {
        show: true,
        trigger_on_focus: false,
        trigger_on_hover: false,
        ..TooltipProps::default()
    };
    for state in [idle(), both(), TooltipState { focused: true, hovered: false }] {
        let view = Tooltip(&props, state, &StylesMap::default());
        assert!(view.show);
        assert_eq!(view.state, state);
    }
}

#[test]
fn tooltip_disabled_overrides_everything() {
    let props = TooltipProps {
        id: Some("tip".to_string()),
        show: true,
        fade: true,
        disabled: true,
        ..TooltipProps::default()
    };
    let view = Tooltip(&props, both(), &StylesMap::default());
    assert!(!view.show);
    assert!(!view.update_popper);
    assert_eq!(view.data_show, None);
    assert_eq!(view.described_by, None);
    assert_eq!(view.id, Some("tip".to_string()));
    assert_eq!(view.class.to_string(), "tooltip bs-tooltip-auto fade");
    // A disabled target fires no event that would clear these.
    assert_eq!(view.state, idle());
}

#[test]
fn tooltip_enabled_again_starts_hidden() {
    let disabled = TooltipProps { disabled: true, ..TooltipProps::default() };
    let state = Tooltip(&disabled, both(), &StylesMap::default()).state;
    let view = Tooltip(&TooltipProps::default(), state, &StylesMap::default());
    assert!(!view.show);
}

#[test]
fn tooltip_classes_follow_fade_and_visibility() {
    let style = StylesMap::default();
    let plain = TooltipProps::default();
    let fade = TooltipProps { fade: true, ..TooltipProps::default() };
    let shown = TooltipProps { show: true, ..TooltipProps::default() };
    let fade_shown = TooltipProps { fade: true, show: true, ..TooltipProps::default() };
    assert_eq!(Tooltip(&plain, idle(), &style).class, Classes::from("tooltip bs-tooltip-auto"));
    assert_eq!(Tooltip(&fade, idle(), &style).class, Classes::from("tooltip bs-tooltip-auto fade"));
    assert_eq!(Tooltip(&shown, idle(), &style).class, Classes::from("tooltip bs-tooltip-auto show"));
    assert_eq!(
        Tooltip(&fade_shown, idle(), &style).class,
        Classes::from("tooltip bs-tooltip-auto fade show")
    );
    assert_eq!(Tooltip(&fade_shown, idle(), &style).class.to_string(), "tooltip bs-tooltip-auto fade show");
}

#[test]
fn tooltip_names_itself_on_the_target_while_visible() {
    let props = TooltipProps { id: Some("tip-1".to_string()), ..TooltipProps::default() };
    let style = StylesMap::default();
    let hidden = Tooltip(&props, idle(), &style);
    assert_eq!(hidden.id, Some("tip-1".to_string()));
    assert_eq!(hidden.described_by, None);
    let visible = Tooltip(&props, both(), &style);
    assert_eq!(visible.id, Some("tip-1".to_string()));
    assert_eq!(visible.described_by, Some("tip-1".to_string()));
}

#[test]
fn tooltip_without_id_describes_nothing() {
    let props = TooltipProps { show: true, ..TooltipProps::default() };
    let view = Tooltip(&props, idle(), &StylesMap::default());
    assert!(view.show);
    assert_eq!(view.id, None);
    assert_eq!(view.described_by, None);
}

#[test]
fn tooltip_style_never_takes_pointer_events() {
    let view = Tooltip(&TooltipProps::default(), idle(), &StylesMap::default());
    assert_eq!(view.style.len(), 1);
    assert_eq!(view.style.get("pointer-events").map(String::as_str), Some("none"));
}

#[test]
fn tooltip_style_keeps_what_the_engine_computed() {
    let mut computed = HashMap::new();
    computed.insert("position".to_string(), "absolute".to_string());
    computed.insert("inset".to_string(), "0px auto auto 0px".to_string());
    let computed = StylesMap(computed);
    let view = Tooltip(&TooltipProps::default(), idle(), &computed);
    assert_eq!(view.style.len(), 3);
    assert_eq!(view.style.get("position").map(String::as_str), Some("absolute"));
    assert_eq!(view.style.get("inset").map(String::as_str), Some("0px auto auto 0px"));
    assert_eq!(view.style.get("pointer-events").map(String::as_str), Some("none"));
    // The engine's own map is left as it was.
    assert_eq!(computed.len(), 2);
    assert_eq!(computed.get("pointer-events"), None);
}

#[test]
fn tooltip_style_overrides_pointer_events_of_the_engine() {
    let mut computed = HashMap::new();
    computed.insert("pointer-events".to_string(), "auto".to_string());
    let view = Tooltip(&TooltipProps::default(), idle(), &StylesMap(computed));
    assert_eq!(view.style.len(), 1);
    assert_eq!(view.style.get("pointer-events").map(String::as_str), Some("none"));
}

#[test]
fn tooltip_options_keep_eight_pixels_from_the_target() {
    assert_eq!(TOOLTIP_DISTANCE, 8);
    for placement in [PopperPlacement::Auto, PopperPlacement::TopStart, PopperPlacement::RightEnd] {
        let props = TooltipProps { placement, ..TooltipProps::default() };
        let options = props.options();
        assert_eq!(options.placement, placement);
        assert_eq!(options.strategy, Strategy::Absolute);
        assert_eq!(options.modifiers, vec![Modifier::Offset(Offset { skidding: 0, distance: 8 })]);
    }
}

#[test]
fn tooltip_props_clone_equal() {
    let props = TooltipProps {
        id: Some("tip".to_string()),
        placement: PopperPlacement::LeftEnd,
        fade: true,
        show: false,
        trigger_on_focus: false,
        trigger_on_hover: true,
        disabled: true,
    };
    assert_eq!(props.clone(), props);
    assert_ne!(props.clone(), TooltipProps::default());
}
