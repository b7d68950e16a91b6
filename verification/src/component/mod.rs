//! The components: what each renders and how it answers events.

pub mod button;
pub mod dropdown;
pub mod tooltip;

pub use self::button::Button;
pub use self::button::ButtonProps;
pub use self::button::ButtonSize;
pub use self::button::ButtonView;
pub use self::dropdown::DropdownCloseRequest;
pub use self::dropdown::DropdownMenu;
pub use self::dropdown::DropdownMenuProps;
pub use self::dropdown::DropdownMenuView;
pub use self::tooltip::Tooltip;
pub use self::tooltip::TooltipProps;
pub use self::tooltip::TooltipState;
pub use self::tooltip::TooltipView;
