//! Where a floating element goes relative to the element it is attached to.

use popper_rs::prelude::Placement as PopperPlacement;
use vstd::prelude::*;
use vstd::std_specs::convert::FromSpecImpl;

verus! {

/// Side of the parent on which a child is placed.
#[derive(PartialEq, Eq, Structural, Clone, Copy, Debug)]
pub enum Placement {
    /// Places the child automatically.
    Auto,
    /// Places the child above the parent.
    Top,
    /// Places the child beneath the parent.
    Bottom,
    /// Places the child to the left of the parent. This is mirrored in RTL.
    Left,
    /// Places the child to the right of the parent. This is mirrored in RTL.
    Right,
}

impl Default for Placement {
    fn default() -> (r: Self)
        ensures
            r == Placement::Auto,
    {
        Placement::Auto
    }
}

impl From<Placement> for PopperPlacement {
    /// The positioning engine's placement of the same name.
    fn from(value: Placement) -> (r: Self) {
        match value {
            Placement::Auto => PopperPlacement::Auto,
            Placement::Bottom => PopperPlacement::Bottom,
            Placement::Left => PopperPlacement::Left,
            Placement::Right => PopperPlacement::Right,
            Placement::Top => PopperPlacement::Top,
        }
    }
}

impl FromSpecImpl<Placement> for PopperPlacement {
    open spec fn obeys_from_spec() -> bool {
        true
    }

    open spec fn from_spec(value: Placement) -> Self {
        match value {
            Placement::Auto => PopperPlacement::Auto,
            Placement::Bottom => PopperPlacement::Bottom,
            Placement::Left => PopperPlacement::Left,
            Placement::Right => PopperPlacement::Right,
            Placement::Top => PopperPlacement::Top,
        }
    }
}

} // verus!
