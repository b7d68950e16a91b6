//! Dropdown menu: a list of items that floats next to its target, takes the keyboard focus
//! while it is open, and asks to be closed when the user leaves it.
//!
//! Rendering decides how the menu looks. The menu counts as open (`shown`) only once the
//! positioning engine has placed it. Focus and keyboard events are answered by a decision:
//! what to ask of the caller, and which item gets the focus next.

use crate::classes::add_name;
use crate::classes::class_list;
use crate::classes::is_single_name;
use crate::popper::is_offset_options;
use crate::popper::offset_options;
use crate::text::attr_text;
use crate::text::eq_ignore_ascii_case;
use crate::text::same_ignoring_ascii_case;
use popper_rs::options::Options;
use popper_rs::sys::types::Placement as PopperPlacement;
use vstd::prelude::*;
use yew::Classes;

verus! {

/// Distance in pixels between a dropdown menu and its target.
pub const DROPDOWN_DISTANCE: i32 = 2;

/// Selector, relative to the menu, of the items that can take the keyboard focus.
pub const FOCUSABLE_ITEMS: &'static str = ":scope .dropdown-item:not(.disabled):not(:disabled)";

/// Why a dropdown menu asks to be closed.
#[derive(Debug, PartialEq, Eq, Structural, Clone, Copy)]
pub enum DropdownCloseRequest {
    /// The user clicked outside the menu.
    Click,
    /// The user pressed the escape key.
    EscapeKey,
    /// The focus left the menu.
    FocusLoss,
}

/// Properties of a [`DropdownMenu`].
#[derive(PartialEq, Debug)]
pub struct DropdownMenuProps {
    /// Placement strategy of the menu.
    pub placement: PopperPlacement,
    /// Whether the caller wants the menu open.
    pub show: bool,
}

impl Clone for DropdownMenuProps {
    fn clone(&self) -> (props: Self)
        ensures
            props == *self,
    {
        DropdownMenuProps { placement: self.placement, show: self.show }
    }
}

impl Default for DropdownMenuProps {
    /// A closed menu below the start of its target.
    fn default() -> (props: Self)
        ensures
            props.placement == PopperPlacement::BottomStart,
            !props.show,
    {
        DropdownMenuProps { placement: PopperPlacement::BottomStart, show: false }
    }
}

impl DropdownMenuProps {
    /// The options for the positioning engine: the menu's placement, positioned absolutely,
    /// two pixels from the target.
    pub fn options(&self) -> (options: Options)
        ensures
            is_offset_options(options, self.placement, DROPDOWN_DISTANCE),
    {
        offset_options(self.placement, DROPDOWN_DISTANCE)
    }
}

/// The classes of a dropdown menu's element.
pub open spec fn dropdown_classes(show: bool) -> Seq<Seq<char>> {
    seq!["dropdown-menu"@] + (if show {
        seq!["show"@]
    } else {
        Seq::empty()
    })
}

/// One render of a dropdown menu.
pub struct DropdownMenuView {
    /// The `class` attribute of the menu's element.
    pub class: Classes,
    /// The `data-show` attribute of the menu's element, if it has one.
    pub data_show: Option<String>,
    /// Whether the menu's element is to take the keyboard focus.
    pub take_focus: bool,
}

/// Renders a dropdown menu from its properties and from whether it is open.
///
/// The menu looks open as soon as the caller wants it open; it takes the focus only once it
/// is open.
#[allow(non_snake_case)]
pub fn DropdownMenu(props: &DropdownMenuProps, shown: bool) -> (view: DropdownMenuView)
    ensures
        class_list(view.class) == dropdown_classes(props.show),
        attr_text(view.data_show) == (if props.show {
            Some(Seq::<char>::empty())
        } else {
            None
        }),
        view.take_focus == shown,
{
    let mut class = Classes::new();
    proof {
        lemma_dropdown_names();
    }
    add_name(&mut class, "dropdown-menu");
    if props.show {
        add_name(&mut class, "show");
    }
    let data_show = if props.show {
        Some(String::new())
    } else {
        None
    };
    DropdownMenuView { class, data_show, take_focus: shown }
}

/// The two class names of a dropdown menu are single names, and they differ.
proof fn lemma_dropdown_names()
    ensures
        is_single_name("dropdown-menu"@),
        is_single_name("show"@),
        "dropdown-menu"@ != "show"@,
{
    reveal_strlit("dropdown-menu");
    reveal_strlit("show");
}

/// What happens around an open or closed menu.
#[derive(Debug, PartialEq, Eq, Structural, Clone, Copy)]
pub enum MenuEvent {
    /// The `show` property, or the positioning engine's instance, changed.
    ShowChanged {
        /// The property's value.
        show: bool,
    },
    /// The positioning engine finished an update that the menu had asked for.
    PositionUpdated,
}

/// What the menu asks of the positioning engine in answer to an event.
#[derive(Debug, PartialEq, Eq, Structural, Clone, Copy)]
pub enum MenuCommand {
    /// Nothing.
    Nothing,
    /// Compute the menu's position anew, and report `MenuEvent::PositionUpdated` afterwards.
    UpdatePosition,
}

/// Whether the menu is open after `event`, given whether it was before.
pub open spec fn shown_after(shown: bool, event: MenuEvent) -> bool {
    match event {
        MenuEvent::ShowChanged { show } => if show {
            shown
        } else {
            false
        },
        MenuEvent::PositionUpdated => true,
    }
}

/// What the menu asks for in answer to `event`.
pub open spec fn command_for(event: MenuEvent) -> MenuCommand {
    match event {
        MenuEvent::ShowChanged { show } => if show {
            MenuCommand::UpdatePosition
        } else {
            MenuCommand::Nothing
        },
        MenuEvent::PositionUpdated => MenuCommand::Nothing,
    }
}

/// Answers an event: a menu that is to open has its position computed first and is open
/// when that is done; a menu that is to close is closed at once.
pub fn menu_step(shown: bool, event: MenuEvent) -> (next: (bool, MenuCommand))
    ensures
        next.0 == shown_after(shown, event),
        next.1 == command_for(event),
{
    match event {
        MenuEvent::ShowChanged { show } => if show {
            (shown, MenuCommand::UpdatePosition)
        } else {
            (false, MenuCommand::Nothing)
        },
        MenuEvent::PositionUpdated => (true, MenuCommand::Nothing),
    }
}

/// Where the focus goes when it leaves an element of the menu.
#[derive(Debug, PartialEq, Eq, Structural, Clone, Copy)]
pub enum FocusTarget {
    /// The event names no element that receives the focus.
    Nothing,
    /// The receiver is not a node of the document.
    NotANode,
    /// The receiver is a node.
    Node {
        /// The node is the menu's own element.
        is_menu: bool,
        /// The menu's element contains the node.
        in_menu: bool,
    },
}

/// Whether the focus leaves the menu when it goes to `related`.
pub open spec fn leaves_menu(related: FocusTarget) -> bool {
    match related {
        FocusTarget::Nothing => true,
        FocusTarget::NotANode => false,
        FocusTarget::Node { is_menu, in_menu } => !is_menu && !in_menu,
    }
}

/// Answers a `focusout` event on the menu: the menu asks to be closed if it is mounted and
/// the focus goes nowhere, or to a node that is neither the menu nor inside it.
pub fn on_focus_out(mounted: bool, related: FocusTarget) -> (request: Option<DropdownCloseRequest>)
    ensures
        request == (if mounted && leaves_menu(related) {
            Some(DropdownCloseRequest::FocusLoss)
        } else {
            None
        }),
{
    if !mounted {
        return None;
    }
    match related {
        FocusTarget::Nothing => Some(DropdownCloseRequest::FocusLoss),
        FocusTarget::NotANode => None,
        FocusTarget::Node { is_menu, in_menu } => if !is_menu && !in_menu {
            Some(DropdownCloseRequest::FocusLoss)
        } else {
            None
        },
    }
}

/// The element on which a key was pressed.
#[derive(Debug, PartialEq, Eq, Structural, Clone, Copy)]
pub enum KeyTarget {
    /// The event names no element, or one that is not an HTML element.
    Unknown,
    /// An input or a text area, which needs the arrow keys for itself.
    TextEntry,
    /// Any other HTML element.
    Element,
}

/// What a key press in the menu leads to.
#[derive(Debug, PartialEq, Eq, Structural, Clone, Copy)]
pub enum KeyAction {
    /// The key is not the menu's business: the event goes on as it would have.
    Ignore,
    /// The event's default action is prevented, and the menu asks to be closed.
    Close(DropdownCloseRequest),
    /// The event's default action is prevented, and the focus goes to the previous item.
    FocusPrevious,
    /// The event's default action is prevented, and the focus goes to the next item.
    FocusNext,
}

impl KeyAction {
    /// Whether the action prevents the default action of the key event.
    pub open spec fn prevents_default(self) -> bool {
        self != KeyAction::Ignore
    }
}

/// Whether `key` names the escape key; the case of ASCII letters does not matter.
pub open spec fn is_escape(key: Seq<char>) -> bool {
    same_ignoring_ascii_case(key, "Escape"@)
}

/// Whether `key` names the up arrow; the case of ASCII letters does not matter.
pub open spec fn is_arrow_up(key: Seq<char>) -> bool {
    same_ignoring_ascii_case(key, "ArrowUp"@)
}

/// Whether `key` names the down arrow; the case of ASCII letters does not matter.
pub open spec fn is_arrow_down(key: Seq<char>) -> bool {
    same_ignoring_ascii_case(key, "ArrowDown"@)
}

/// What pressing `key` on `target` leads to, given whether the menu is open.
pub open spec fn key_action(shown: bool, target: KeyTarget, key: Seq<char>) -> KeyAction {
    if !shown || target == KeyTarget::Unknown {
        KeyAction::Ignore
    } else if is_escape(key) {
        KeyAction::Close(DropdownCloseRequest::EscapeKey)
    } else if target == KeyTarget::TextEntry {
        KeyAction::Ignore
    } else if is_arrow_up(key) {
        KeyAction::FocusPrevious
    } else if is_arrow_down(key) {
        KeyAction::FocusNext
    } else {
        KeyAction::Ignore
    }
}

/// Answers a `keydown` event in the menu.
///
/// A closed menu ignores every key, and so does a menu that cannot tell on which element
/// the key was pressed. The escape key asks to close the menu. The arrow keys move the
/// focus among the items, unless they were pressed in an input or a text area.
pub fn on_key_down(shown: bool, target: KeyTarget, key: &str) -> (action: KeyAction)
    ensures
        action == key_action(shown, target, key@),
{
    if !shown {
        return KeyAction::Ignore;
    }
    let in_text_entry = match target {
        KeyTarget::Unknown => {
            return KeyAction::Ignore;
        },
        KeyTarget::TextEntry => true,
        KeyTarget::Element => false,
    };
    let is_escape = eq_ignore_ascii_case(key, "Escape");
    let is_arrow_up = eq_ignore_ascii_case(key, "ArrowUp");
    let is_arrow_down = eq_ignore_ascii_case(key, "ArrowDown");
    if in_text_entry {
        if !is_escape {
            return KeyAction::Ignore;
        }
    } else {
        if !(is_escape || is_arrow_down || is_arrow_up) {
            return KeyAction::Ignore;
        }
    }
    if is_escape {
        return KeyAction::Close(DropdownCloseRequest::EscapeKey);
    }
    if is_arrow_up {
        KeyAction::FocusPrevious
    } else {
        KeyAction::FocusNext
    }
}

/// The item from which the focus moves: the one that has it, or the first if none has.
pub open spec fn current_item(focused: Option<usize>) -> int {
    match focused {
        Some(position) => position as int,
        None => 0,
    }
}

/// The item that gets the focus when it moves from item `current` of `len` items: the one
/// before or after it, going round at either end.
pub open spec fn focus_after(current: int, len: int, up: bool) -> int {
    if up {
        if current == 0 {
            len - 1
        } else {
            current - 1
        }
    } else {
        if current >= len - 1 {
            0
        } else {
            current + 1
        }
    }
}

/// The item to focus after an arrow key, among `len` items that can take the focus.
/// `focused` is the position of the item on which the key was pressed, if it is one of
/// them; without one the focus moves from the first item.
pub fn next_focus(focused: Option<usize>, len: usize, up: bool) -> (next: usize)
    requires
        len > 0,
    ensures
        next == focus_after(current_item(focused), len as int, up),
        current_item(focused) < len ==> next < len,
{
    let current = match focused {
        Some(position) => position,
        None => 0,
    };
    if up {
        if current == 0 {
            len - 1
        } else {
            current - 1
        }
    } else {
        if current >= len - 1 {
            0
        } else {
            current + 1
        }
    }
}

/// A closed menu ignores every key.
pub proof fn lemma_closed_menu_ignores_keys(target: KeyTarget, key: Seq<char>)
    ensures
        key_action(false, target, key) == KeyAction::Ignore,
{
}

/// The escape key asks to close an open menu, on whatever element it was pressed.
pub proof fn lemma_escape_closes(target: KeyTarget, key: Seq<char>)
    requires
        is_escape(key),
        target != KeyTarget::Unknown,
    ensures
        key_action(true, target, key) == KeyAction::Close(DropdownCloseRequest::EscapeKey),
{
}

/// In an input or a text area every key but escape is left to the element.
pub proof fn lemma_text_entry_keeps_its_keys(shown: bool, key: Seq<char>)
    requires
        !is_escape(key),
    ensures
        key_action(shown, KeyTarget::TextEntry, key) == KeyAction::Ignore,
{
}

/// No key is two of escape, up arrow and down arrow.
pub proof fn lemma_keys_differ(key: Seq<char>)
    ensures
        !(is_escape(key) && is_arrow_up(key)),
        !(is_escape(key) && is_arrow_down(key)),
        !(is_arrow_up(key) && is_arrow_down(key)),
{
    reveal_strlit("Escape");
    reveal_strlit("ArrowUp");
    reveal_strlit("ArrowDown");
}

/// A menu opens only when the positioning engine has placed it, and a menu that is to
/// close is closed at once.
pub proof fn lemma_menu_opens_when_placed(shown: bool, event: MenuEvent)
    ensures
        shown_after(shown, event) && !shown ==> event == MenuEvent::PositionUpdated,
        event == (MenuEvent::ShowChanged { show: false }) ==> !shown_after(shown, event),
        command_for(event) == MenuCommand::UpdatePosition <==> event == (MenuEvent::ShowChanged {
            show: true,
        }),
{
}

/// From an item of the menu the focus goes to an item of the menu: the next or the
/// previous one, counted modulo the number of items.
pub proof fn lemma_focus_goes_round(current: int, len: int)
    requires
        0 <= current < len,
    ensures
        0 <= focus_after(current, len, true) < len,
        0 <= focus_after(current, len, false) < len,
        focus_after(current, len, false) == (current + 1) % len,
        focus_after(current, len, true) == (current + len - 1) % len,
{
    if current + 1 < len {
        vstd::arithmetic::div_mod::lemma_small_mod((current + 1) as nat, len as nat);
    } else {
        vstd::arithmetic::div_mod::lemma_mod_self_0(len);
    }
    if current == 0 {
        vstd::arithmetic::div_mod::lemma_small_mod((len - 1) as nat, len as nat);
    } else {
        vstd::arithmetic::div_mod::lemma_mod_add_multiples_vanish(current - 1, len);
        vstd::arithmetic::div_mod::lemma_small_mod((current - 1) as nat, len as nat);
    }
}

/// The up arrow undoes the down arrow, and the down arrow the up arrow.
pub proof fn lemma_arrows_undo_each_other(current: int, len: int)
    requires
        0 <= current < len,
    ensures
        focus_after(focus_after(current, len, false), len, true) == current,
        focus_after(focus_after(current, len, true), len, false) == current,
{
}

} // verus!
