//! Decision logic of Bootstrap's interactive widgets for Yew: what a tooltip, a dropdown
//! menu and a button render, and how they answer focus, hover and keyboard events.

pub mod classes;
pub mod component;
pub mod popper;
pub mod text;
pub mod util;
