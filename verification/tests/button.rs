use yew::Classes;
use yew_bootstrap::component::button::ButtonTag;
use yew_bootstrap::component::Button;
use yew_bootstrap::component::ButtonProps;
use yew_bootstrap::component::ButtonSize;

fn primary() -> ButtonProps {
    ButtonProps {
        class: String::new(),
        block: false,
        disabled: false,
        name: String::new(),
        outline: false,
        size: ButtonSize::default(),
        style: "primary".to_string(),
        text: String::new(),
        modal_target: None,
        modal_dismiss: false,
        url: None,
        target: None,
        dropdown: false,
    }
}

#[test]
fn button_size_defaults_to_normal() {
    assert_eq!(ButtonSize::default(), ButtonSize::Normal);
}

#[test]
fn button_plain() {
    let props = ButtonProps { name: "go".to_string(), text: "Go".to_string(), ..primary() };
    let view = Button::create().view(&props);
    assert_eq!(view.tag, ButtonTag::Button);
    assert_eq!(view.class.to_string(), "btn btn-primary");
    assert!(!view.disabled);
    assert_eq!(view.name, "go");
    assert_eq!(view.text, "Go");
    assert_eq!(view.data_bs_toggle, None);
    assert_eq!(view.data_bs_target, None);
    assert_eq!(view.data_bs_dismiss, Some(String::new()));
    assert_eq!(view.href, None);
    assert_eq!(view.target, None);
    assert_eq!(view.aria_expanded, None);
}

#[test]
fn button_color_and_outline() {
    let danger = ButtonProps { style: "danger".to_string(), ..primary() };
    assert_eq!(Button::create().view(&danger).class.to_string(), "btn btn-danger");
    let outline = ButtonProps { style: "danger".to_string(), outline: true, ..primary() };
    assert_eq!(Button::create().view(&outline).class.to_string(), "btn btn-outline-danger");
}

#[test]
fn button_sizes() {
    let large = ButtonProps { size: ButtonSize::Large, ..primary() };
    let small = ButtonProps { size: ButtonSize::Small, ..primary() };
    let normal = ButtonProps { size: ButtonSize::Normal, ..primary() };
    assert_eq!(Button::create().view(&large).class.to_string(), "btn btn-primary btn-lg");
    assert_eq!(Button::create().view(&small).class.to_string(), "btn btn-primary btn-sm");
    assert_eq!(Button::create().view(&normal).class.to_string(), "btn btn-primary");
}

#[test]
fn button_block_and_own_classes_come_in_order() {
    let props = ButtonProps {
        block: true,
        size: ButtonSize::Large,
        outline: true,
        class: "mt-2 me-1".to_string(),
        ..primary()
    };
    let view = Button::create().view(&props);
    assert_eq!(view.class.to_string(), "btn btn-outline-primary btn-lg btn-block mt-2 me-1");
    assert_eq!(view.class, Classes::from("btn btn-outline-primary btn-lg btn-block mt-2 me-1"));
}

#[test]
fn button_class_is_split_at_white_space() {
    let props = ButtonProps { class: "  a\tb \n c  ".to_string(), ..primary() };
    assert_eq!(Button::create().view(&props).class.to_string(), "btn btn-primary a b c");
}

#[test]
fn button_class_that_is_there_is_not_added_again() {
    let props = ButtonProps {
        block: true,
        class: "x btn x btn-block btn-primary y".to_string(),
        ..primary()
    };
    assert_eq!(Button::create().view(&props).class.to_string(), "btn btn-primary btn-block x y");
}

#[test]
fn button_empty_color_leaves_the_prefix() {
    let props = ButtonProps { style: String::new(), ..primary() };
    assert_eq!(Button::create().view(&props).class.to_string(), "btn btn-");
    let props = ButtonProps { style: "a b".to_string(), outline: true, ..primary() };
    assert_eq!(Button::create().view(&props).class.to_string(), "btn btn-outline-a b");
}

#[test]
fn button_opens_a_modal() {
    let props = ButtonProps {
        modal_target: Some("ExampleModal".to_string()),
        modal_dismiss: true,
        url: Some("https://example.org/".to_string()),
        dropdown: true,
        ..primary()
    };
    let view = Button::create().view(&props);
    assert_eq!(view.tag, ButtonTag::Button);
    assert_eq!(view.class.to_string(), "btn btn-primary");
    assert_eq!(view.data_bs_toggle, Some("modal".to_string()));
    assert_eq!(view.data_bs_target, Some("#ExampleModal".to_string()));
    assert_eq!(view.data_bs_dismiss, None);
    assert_eq!(view.href, None);
    assert_eq!(view.target, None);
    assert_eq!(view.aria_expanded, None);
}

#[test]
fn button_dismisses_a_modal() {
    let props = ButtonProps { modal_dismiss: true, ..primary() };
    let view = Button::create().view(&props);
    assert_eq!(view.tag, ButtonTag::Button);
    assert_eq!(view.data_bs_dismiss, Some("modal".to_string()));
    assert_eq!(view.data_bs_toggle, None);
}

#[test]
fn button_with_url_is_a_link() {
    let props = ButtonProps {
        url: Some("https://getbootstrap.com/".to_string()),
        target: Some("_blank".to_string()),
        dropdown: true,
        modal_dismiss: true,
        ..primary()
    };
    let view = Button::create().view(&props);
    assert_eq!(view.tag, ButtonTag::Anchor);
    assert_eq!(view.class.to_string(), "btn btn-primary");
    assert_eq!(view.href, Some("https://getbootstrap.com/".to_string()));
    assert_eq!(view.target, Some("_blank".to_string()));
    assert_eq!(view.data_bs_dismiss, Some("modal".to_string()));
    assert_eq!(view.data_bs_toggle, None);
    assert_eq!(view.aria_expanded, None);
    assert!(!view.disabled);
}

#[test]
fn button_link_without_target() {
    let props = ButtonProps { url: Some("/home".to_string()), ..primary() };
    let view = Button::create().view(&props);
    assert_eq!(view.tag, ButtonTag::Anchor);
    assert_eq!(view.href, Some("/home".to_string()));
    assert_eq!(view.target, None);
    assert_eq!(view.data_bs_dismiss, Some(String::new()));
}

#[test]
fn button_disabled_ignores_its_url() {
    let props = ButtonProps {
        url: Some("https://getbootstrap.com/".to_string()),
        target: Some("_blank".to_string()),
        disabled: true,
        ..primary()
    };
    let view = Button::create().view(&props);
    assert_eq!(view.tag, ButtonTag::Button);
    assert!(view.disabled);
    assert_eq!(view.href, None);
    assert_eq!(view.target, None);
}

#[test]
fn button_disabled_with_url_may_toggle_a_dropdown() {
    let props = ButtonProps {
        url: Some("/home".to_string()),
        disabled: true,
        dropdown: true,
        ..primary()
    };
    let view = Button::create().view(&props);
    assert_eq!(view.tag, ButtonTag::Button);
    assert_eq!(view.class.to_string(), "btn btn-primary dropdown-toggle");
    assert_eq!(view.data_bs_toggle, Some("dropdown".to_string()));
    assert_eq!(view.href, None);
}

#[test]
fn button_toggles_a_dropdown() {
    let props = ButtonProps { dropdown: true, class: "ms-1".to_string(), ..primary() };
    let view = Button::create().view(&props);
    assert_eq!(view.tag, ButtonTag::Button);
    assert_eq!(view.class.to_string(), "btn btn-primary ms-1 dropdown-toggle");
    assert_eq!(view.data_bs_toggle, Some("dropdown".to_string()));
    assert_eq!(view.data_bs_target, None);
    assert_eq!(view.data_bs_dismiss, Some(String::new()));
    assert_eq!(view.aria_expanded, Some("false".to_string()));
}

#[test]
fn button_dropdown_class_of_the_caller_stays_in_place() {
    let props = ButtonProps { dropdown: true, class: "dropdown-toggle ms-1".to_string(), ..primary() };
    let view = Button::create().view(&props);
    assert_eq!(view.class.to_string(), "btn btn-primary dropdown-toggle ms-1");
}

#[test]
fn button_props_clone_equal() {
    let props = ButtonProps {
        class: "a b".to_string(),
        block: true,
        disabled: true,
        name: "n".to_string(),
        outline: true,
        size: ButtonSize::Small,
        style: "dark".to_string(),
        text: "t".to_string(),
        modal_target: Some("m".to_string()),
        modal_dismiss: true,
        url: Some("u".to_string()),
        target: Some("_self".to_string()),
        dropdown: true,
    };
    assert_eq!(props.clone(), props);
    assert_ne!(props.clone(), primary());
}
