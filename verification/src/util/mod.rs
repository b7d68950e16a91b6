//! Shared vocabulary of the components.

pub mod placement;

pub use self::placement::Placement;
