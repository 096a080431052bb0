use vstd::prelude::*;

verus! {

#[verifier::external_type_specification]
#[verifier::external_body]
pub struct ExKeyCode(winit::keyboard::KeyCode);

/// Relies on the derived `Clone` of `winit::keyboard::KeyCode`, a `Copy` enum:
/// the clone is the same key.
pub assume_specification[ <winit::keyboard::KeyCode as Clone>::clone ](k: &winit::keyboard::KeyCode) -> (r: winit::keyboard::KeyCode)
    ensures
        r == *k,
;

/// Relies on the derived `PartialEq` of `winit::keyboard::KeyCode`, a fieldless
/// enum: two codes compare equal exactly when they are the same key.
#[verifier::external_body]
pub(crate) fn same_key(a: &winit::keyboard::KeyCode, b: &winit::keyboard::KeyCode) -> (r: bool)
    ensures
        r == (*a == *b),
{
    *a == *b
}

} // verus!
