//! The positioning engine's configuration and style types, and the options that the
//! components hand to it.

use popper_rs::modifier::Modifier;
use popper_rs::modifier::Offset;
use popper_rs::options::Options;
use popper_rs::state::StylesMap;
use popper_rs::sys::types::Placement as PopperPlacement;
use popper_rs::sys::types::Strategy;
use vstd::prelude::*;

verus! {

/// `popper_rs::sys::types::Placement`, with its variants. Its name is taken by
/// [`crate::util::Placement`], so it goes by `PopperPlacement` here.
#[verifier::external_type_specification]
pub struct ExPopperPlacement(PopperPlacement);

/// `popper_rs::sys::types::Strategy`, with its variants.
#[verifier::external_type_specification]
pub struct ExStrategy(popper_rs::sys::types::Strategy);

/// `popper_rs::modifier::Offset`, with its fields.
#[verifier::external_type_specification]
pub struct ExOffset(popper_rs::modifier::Offset);

/// `popper_rs::modifier::PreventOverflow`, with its field.
#[verifier::external_type_specification]
pub struct ExPreventOverflow(popper_rs::modifier::PreventOverflow);

/// `popper_rs::modifier::SameWidth`.
#[verifier::external_type_specification]
pub struct ExSameWidth(popper_rs::modifier::SameWidth);

/// `popper_rs::modifier::ModifierFn`, a handle to a JavaScript closure: nothing is known of
/// what it holds.
#[verifier::external_type_specification]
#[verifier::external_body]
pub struct ExModifierFn(popper_rs::modifier::ModifierFn);

/// `popper_rs::modifier::Modifier`, with its variants.
#[verifier::external_type_specification]
pub struct ExModifier(popper_rs::modifier::Modifier);

/// `popper_rs::options::Options`, with its fields.
#[verifier::external_type_specification]
pub struct ExOptions(popper_rs::options::Options);

/// `popper_rs::state::StylesMap`, the CSS declarations that the engine computed. Its
/// contents are spoken of through [`style_entries`].
#[verifier::external_type_specification]
#[verifier::external_body]
pub struct ExStylesMap(popper_rs::state::StylesMap);

/// The declarations that a style map holds: property name to value.
pub uninterp spec fn style_entries(styles: StylesMap) -> Map<Seq<char>, Seq<char>>;

/// `StylesMap::extend_with`: a copy of the map in which `key` has the value `value`, whether
/// or not the map had a value for `key` before; every other declaration is as it was.
#[verifier::external_body]
pub(crate) fn style_with(styles: &StylesMap, key: &str, value: &str) -> (r: StylesMap)
    ensures
        style_entries(r) == style_entries(*styles).insert(key@, value@),
{
    styles.extend_with(key, value)
}

/// Whether `options` asks for `placement` with absolute positioning and, as its only
/// modifier, an offset that keeps `distance` pixels between the floating element and its
/// reference and does not shift it along the reference.
pub open spec fn is_offset_options(
    options: Options,
    placement: PopperPlacement,
    distance: i32,
) -> bool {
    &&& options.placement == placement
    &&& options.strategy == Strategy::Absolute
    &&& options.modifiers@ == seq![Modifier::Offset(Offset { skidding: 0, distance })]
}

/// Options for a floating element that sits `distance` pixels from its reference.
pub fn offset_options(placement: PopperPlacement, distance: i32) -> (options: Options)
    ensures
        is_offset_options(options, placement, distance),
{
    let mut modifiers: Vec<Modifier> = Vec::new();
    modifiers.push(Modifier::Offset(Offset { skidding: 0, distance }));
    Options { placement, strategy: Strategy::Absolute, modifiers }
}

} // verus!
