//! Button: a `<button>`, or a link that looks like one, which may open or dismiss a modal
//! dialog or toggle a dropdown.

use crate::classes::add_name;
use crate::classes::class_list;
use crate::classes::is_single_name;
use crate::classes::lemma_with_new_keeps_items;
use crate::classes::lemma_with_new_no_duplicates;
use crate::classes::names_in;
use crate::classes::push_class;
use crate::classes::with_name;
use crate::classes::with_new;
use crate::text::attr_text;
use crate::text::clone_attr;
use vstd::prelude::*;
use vstd::string::StringExecFns;
use yew::Classes;

verus! {

/// Size of a button.
#[derive(Clone, Copy, PartialEq, Eq, Structural, Debug)]
pub enum ButtonSize {
    Large,
    Normal,
    Small,
}

impl Default for ButtonSize {
    fn default() -> (size: Self)
        ensures
            size == ButtonSize::Normal,
    {
        ButtonSize::Normal
    }
}

/// Properties of a [`Button`].
#[derive(PartialEq, Debug)]
pub struct ButtonProps {
    /// CSS class
    pub class: String,
    /// Treat button as block that spans the full width of the parent
    pub block: bool,
    /// Status of the button. Disabled buttons cannot be clicked.
    pub disabled: bool,
    /// Name of the component
    pub name: String,
    /// Show button as outlined instead of filled
    pub outline: bool,
    /// Size of the button
    pub size: ButtonSize,
    /// Color of the button, by the name that its classes carry, such as `primary`
    pub style: String,
    /// Text displayed in the button
    pub text: String,
    /// If provided, the button opens the modal dialog with this ID
    pub modal_target: Option<String>,
    /// true if this button dismisses the modal that contains it
    pub modal_dismiss: bool,
    /// URL to direct to when the button is clicked. This turns the button into an `<a>`
    /// element.
    ///
    /// This property is ignored if the button is `disabled`.
    pub url: Option<String>,
    /// Target frame or window ID for the link. Only used if `url` is set and the button is
    /// not `disabled`.
    pub target: Option<String>,
    /// true if this button toggles a dropdown
    pub dropdown: bool,
}

impl Clone for ButtonProps {
    fn clone(&self) -> (props: Self)
        ensures
            props == *self,
    {
        ButtonProps {
            class: self.class.clone(),
            block: self.block,
            disabled: self.disabled,
            name: self.name.clone(),
            outline: self.outline,
            size: self.size,
            style: self.style.clone(),
            text: self.text.clone(),
            modal_target: clone_attr(&self.modal_target),
            modal_dismiss: self.modal_dismiss,
            url: clone_attr(&self.url),
            target: clone_attr(&self.target),
            dropdown: self.dropdown,
        }
    }
}

/// What a button is rendered as.
#[derive(Clone, Copy, PartialEq, Eq, Structural, Debug)]
pub enum ButtonKind {
    /// A button that opens a modal dialog.
    ModalTrigger,
    /// A link.
    Link,
    /// A button that toggles a dropdown.
    DropdownToggle,
    /// A button and nothing more.
    Plain,
}

/// The element that stands for a button.
#[derive(Clone, Copy, PartialEq, Eq, Structural, Debug)]
pub enum ButtonTag {
    /// `<button>`
    Button,
    /// `<a>`
    Anchor,
}

impl ButtonProps {
    /// What the button is rendered as. A modal target comes first; a URL makes a link
    /// unless the button is disabled; then comes the dropdown toggle.
    pub open spec fn kind(&self) -> ButtonKind {
        if self.modal_target is Some {
            ButtonKind::ModalTrigger
        } else if self.url is Some && !self.disabled {
            ButtonKind::Link
        } else if self.dropdown {
            ButtonKind::DropdownToggle
        } else {
            ButtonKind::Plain
        }
    }

    /// The class that gives the button its color.
    pub open spec fn style_class(&self) -> Seq<char> {
        if self.outline {
            "btn-outline-"@ + self.style@
        } else {
            "btn-"@ + self.style@
        }
    }

    /// The classes of the button's element: `btn`, the color, the size unless it is
    /// normal, `btn-block` for a block, the caller's own classes, and `dropdown-toggle` for
    /// a dropdown toggle. A class that is already there is not added again.
    pub open spec fn classes(&self) -> Seq<Seq<char>> {
        let styled = with_new(seq!["btn"@], names_in(self.style_class()));
        let sized = match self.size {
            ButtonSize::Large => with_name(styled, "btn-lg"@),
            ButtonSize::Small => with_name(styled, "btn-sm"@),
            ButtonSize::Normal => styled,
        };
        let blocked = if self.block {
            with_name(sized, "btn-block"@)
        } else {
            sized
        };
        let own = with_new(blocked, names_in(self.class@));
        if self.kind() == ButtonKind::DropdownToggle {
            with_name(own, "dropdown-toggle"@)
        } else {
            own
        }
    }

    /// The `data-bs-toggle` attribute.
    pub open spec fn toggle(&self) -> Option<Seq<char>> {
        match self.kind() {
            ButtonKind::ModalTrigger => Some("modal"@),
            ButtonKind::DropdownToggle => Some("dropdown"@),
            _ => None,
        }
    }

    /// The `data-bs-target` attribute: the modal dialog's ID after a `#`.
    pub open spec fn toggle_target(&self) -> Option<Seq<char>> {
        match self.modal_target {
            Some(id) => Some("#"@ + id@),
            None => None,
        }
    }

    /// The `data-bs-dismiss` attribute. A button that opens a dialog has none; any other
    /// has one, which is empty unless the button dismisses a dialog.
    pub open spec fn dismiss(&self) -> Option<Seq<char>> {
        if self.kind() == ButtonKind::ModalTrigger {
            None
        } else if self.modal_dismiss {
            Some("modal"@)
        } else {
            Some(Seq::empty())
        }
    }
}

/// One render of a button.
pub struct ButtonView {
    /// The element.
    pub tag: ButtonTag,
    /// The `class` attribute.
    pub class: Classes,
    /// The `disabled` attribute.
    pub disabled: bool,
    /// The `name` attribute.
    pub name: String,
    /// The text in the element, before the children.
    pub text: String,
    /// The `data-bs-toggle` attribute, if there is one.
    pub data_bs_toggle: Option<String>,
    /// The `data-bs-target` attribute, if there is one.
    pub data_bs_target: Option<String>,
    /// The `data-bs-dismiss` attribute, if there is one.
    pub data_bs_dismiss: Option<String>,
    /// The `href` attribute, if there is one.
    pub href: Option<String>,
    /// The `target` attribute, if there is one.
    pub target: Option<String>,
    /// The `aria-expanded` attribute, if there is one.
    pub aria_expanded: Option<String>,
}

/// Button with various properties, including support for opening or closing a modal
/// dialog.
pub struct Button {}

impl Button {
    /// A button. It keeps nothing between renders.
    pub fn create() -> Self {
        Button {  }
    }

    /// Renders the button.
    pub fn view(&self, props: &ButtonProps) -> (view: ButtonView)
        ensures
            view.tag == (if props.kind() == ButtonKind::Link {
                ButtonTag::Anchor
            } else {
                ButtonTag::Button
            }),
            class_list(view.class) == props.classes(),
            view.disabled == props.disabled,
            view.name == props.name,
            view.text == props.text,
            attr_text(view.data_bs_toggle) == props.toggle(),
            attr_text(view.data_bs_target) == props.toggle_target(),
            attr_text(view.data_bs_dismiss) == props.dismiss(),
            view.href == (if props.kind() == ButtonKind::Link {
                props.url
            } else {
                None
            }),
            view.target == (if props.kind() == ButtonKind::Link {
                props.target
            } else {
                None
            }),
            attr_text(view.aria_expanded) == (if props.kind() == ButtonKind::DropdownToggle {
                Some("false"@)
            } else {
                None
            }),
    {
        proof {
            lemma_button_names();
        }
        let mut class = Classes::new();
        add_name(&mut class, "btn");
        let mut style_class = if props.outline {
            "btn-outline-".to_owned()
        } else {
            "btn-".to_owned()
        };
        style_class.append(props.style.as_str());
        push_class(&mut class, style_class);
        match props.size {
            ButtonSize::Large => add_name(&mut class, "btn-lg"),
            ButtonSize::Small => add_name(&mut class, "btn-sm"),
            ButtonSize::Normal => (),
        }
        if props.block {
            add_name(&mut class, "btn-block");
        }
        push_class(&mut class, props.class.clone());

        let modal_dismiss = if props.modal_dismiss {
            "modal".to_owned()
        } else {
            String::new()
        };
        let name = props.name.clone();
        let text = props.text.clone();

        if let Some(target) = &props.modal_target {
            let mut data_bs_target = "#".to_owned();
            data_bs_target.append(target.as_str());
            return ButtonView {
                tag: ButtonTag::Button,
                class,
                disabled: props.disabled,
                name,
                text,
                data_bs_toggle: Some("modal".to_owned()),
                data_bs_target: Some(data_bs_target),
                data_bs_dismiss: None,
                href: None,
                target: None,
                aria_expanded: None,
            };
        }
        if !props.disabled {
            if let Some(url) = &props.url {
                return ButtonView {
                    tag: ButtonTag::Anchor,
                    class,
                    disabled: props.disabled,
                    name,
                    text,
                    data_bs_toggle: None,
                    data_bs_target: None,
                    data_bs_dismiss: Some(modal_dismiss),
                    href: Some(url.clone()),
                    target: clone_attr(&props.target),
                    aria_expanded: None,
                };
            }
        }
        if props.dropdown {
            add_name(&mut class, "dropdown-toggle");
            return ButtonView {
                tag: ButtonTag::Button,
                class,
                disabled: props.disabled,
                name,
                text,
                data_bs_toggle: Some("dropdown".to_owned()),
                data_bs_target: None,
                data_bs_dismiss: Some(modal_dismiss),
                href: None,
                target: None,
                aria_expanded: Some("false".to_owned()),
            };
        }
        ButtonView {
            tag: ButtonTag::Button,
            class,
            disabled: props.disabled,
            name,
            text,
            data_bs_toggle: None,
            data_bs_target: None,
            data_bs_dismiss: Some(modal_dismiss),
            href: None,
            target: None,
            aria_expanded: None,
        }
    }
}

/// A disabled button is never a link, and a button with a modal target always opens the
/// dialog.
pub proof fn lemma_kind_priorities(props: ButtonProps)
    ensures
        props.disabled ==> props.kind() != ButtonKind::Link,
        props.modal_target is Some ==> props.kind() == ButtonKind::ModalTrigger,
        props.kind() == ButtonKind::Link ==> props.url is Some,
        props.kind() == ButtonKind::DropdownToggle ==> props.dropdown,
{
}

/// Whatever the properties, `btn` is the first class of a button, and no class is there
/// twice.
pub proof fn lemma_btn_comes_first(props: ButtonProps)
    ensures
        props.classes().len() > 0,
        props.classes()[0] == "btn"@,
        props.classes().no_duplicates(),
{
    let base = seq!["btn"@];
    let styled = with_new(base, names_in(props.style_class()));
    lemma_with_new_keeps_items(base, names_in(props.style_class()));
    lemma_with_new_no_duplicates(base, names_in(props.style_class()));
    assert(styled.subrange(0, 1)[0] == styled[0]);
    let sized = match props.size {
        ButtonSize::Large => with_name(styled, "btn-lg"@),
        ButtonSize::Small => with_name(styled, "btn-sm"@),
        ButtonSize::Normal => styled,
    };
    lemma_with_name_keeps(styled, "btn-lg"@);
    lemma_with_name_keeps(styled, "btn-sm"@);
    let blocked = if props.block {
        with_name(sized, "btn-block"@)
    } else {
        sized
    };
    lemma_with_name_keeps(sized, "btn-block"@);
    let own = with_new(blocked, names_in(props.class@));
    lemma_with_new_keeps_items(blocked, names_in(props.class@));
    lemma_with_new_no_duplicates(blocked, names_in(props.class@));
    assert(own.subrange(0, blocked.len() as int)[0] == own[0]);
    lemma_with_name_keeps(own, "dropdown-toggle"@);
}

/// Adding one name keeps the first name and adds no duplicate.
proof fn lemma_with_name_keeps(items: Seq<Seq<char>>, name: Seq<char>)
    requires
        items.len() > 0,
        items.no_duplicates(),
    ensures
        with_name(items, name).len() > 0,
        with_name(items, name)[0] == items[0],
        with_name(items, name).no_duplicates(),
{
    let one = seq![name];
    assert(one.drop_first().len() == 0);
    reveal_with_fuel(with_new, 2);
    assert(with_new(items, one) == with_name(items, name));
    lemma_with_new_no_duplicates(items, one);
}

/// The fixed class names of a button are single names.
proof fn lemma_button_names()
    ensures
        is_single_name("btn"@),
        is_single_name("btn-lg"@),
        is_single_name("btn-sm"@),
        is_single_name("btn-block"@),
        is_single_name("dropdown-toggle"@),
{
    reveal_strlit("btn");
    reveal_strlit("btn-lg");
    reveal_strlit("btn-sm");
    reveal_strlit("btn-block");
    reveal_strlit("dropdown-toggle");
}

} // verus!
