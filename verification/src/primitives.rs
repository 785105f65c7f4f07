//! Declarations of the fixed-width blockchain primitives used in
//! signatures and fields.
//!
//! The values are carried through this crate unchanged; nothing of their
//! inner representation is relied on, so the declarations carry no
//! contracts.

use vstd::prelude::*;

verus! {

/// Relies on `primitive_types::H160`, a 160-bit account address, for use
/// in signatures and fields only.
#[verifier::external_type_specification]
#[verifier::external_body]
pub struct ExH160(primitive_types::H160);

/// Relies on `primitive_types::H256`, a 256-bit hash or storage word,
/// for use in signatures and fields only.
#[verifier::external_type_specification]
#[verifier::external_body]
pub struct ExH256(primitive_types::H256);

/// Relies on `primitive_types::U256`, a 256-bit unsigned integer, for
/// use in signatures and fields only.
#[verifier::external_type_specification]
#[verifier::external_body]
pub struct ExU256(primitive_types::U256);

/// Relies on `H160::clone`, which copies the address bytes unchanged.
pub assume_specification[ <primitive_types::H160 as core::clone::Clone>::clone ](
    v: &primitive_types::H160,
) -> (r: primitive_types::H160)
    ensures
        r == *v,
;

/// Relies on `H256::clone`, which copies the hash bytes unchanged.
pub assume_specification[ <primitive_types::H256 as core::clone::Clone>::clone ](
    v: &primitive_types::H256,
) -> (r: primitive_types::H256)
    ensures
        r == *v,
;

/// Relies on `U256::clone`, derived on a `Copy` type: the copy is the
/// same value.
pub assume_specification[ <primitive_types::U256 as core::clone::Clone>::clone ](
    v: &primitive_types::U256,
) -> (r: primitive_types::U256)
    ensures
        r == *v,
;

} // verus!
