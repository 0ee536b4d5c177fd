//! Types and operations of the host engine that the controller carries
//! through its logic without looking inside them.
//!
//! Nothing here is proved. Each item states what the host's code is trusted
//! to do; the rest of the crate is verified against these statements.

use vstd::prelude::*;
use bevy::ecs::entity::Entity;
use bevy::math::Vec3;

verus! {

/// `bevy::ecs::entity::Entity`, the host's handle for an entity. The library
/// stores and copies handles and never reads one.
#[verifier::external_type_specification]
#[verifier::external_body]
pub struct ExEntity(Entity);

/// `bevy::math::Vec3`, the host's vector of three single-precision
/// components. The library reaches its components only through the
/// operations declared below, none of which tells one not-a-number component
/// from another.
#[verifier::external_type_specification]
#[verifier::external_body]
pub struct ExVec3(Vec3);

/// The vector that `Vec3`'s `+` gives for `a + b`. The operator adds the two
/// vectors component by component, so its result depends on the operands
/// alone.
pub uninterp spec fn vec3_sum(a: Vec3, b: Vec3) -> Vec3;

/// The vector that `Vec3`'s unary `-` gives for `-v`. The operator negates
/// every component, so its result depends on the operand alone.
pub uninterp spec fn vec3_negated(v: Vec3) -> Vec3;

/// What `Vec3`'s `==` gives for `v == Vec3::ZERO`: whether each of the three
/// components compares equal to zero.
pub uninterp spec fn vec3_is_zero(v: Vec3) -> bool;

/// `Vec3::ZERO`. Trusted: the constant holds zero in every component, so it
/// compares equal to itself.
#[verifier::external_body]
pub(crate) fn zero() -> (v: Vec3)
    ensures
        vec3_is_zero(v),
{
    Vec3::ZERO
}

/// `Vec3`'s `==`, with `Vec3::ZERO` as the right-hand side. Trusted: the
/// result is the one that `vec3_is_zero` names.
#[verifier::external_body]
pub(crate) fn is_zero(v: Vec3) -> (b: bool)
    ensures
        b == vec3_is_zero(v),
{
    v == Vec3::ZERO
}

/// `Vec3`'s `+`. Trusted: the result is the one that `vec3_sum` names.
#[verifier::external_body]
pub(crate) fn plus(a: Vec3, b: Vec3) -> (v: Vec3)
    ensures
        v == vec3_sum(a, b),
{
    a + b
}

/// `Vec3`'s unary `-`. Trusted: the result is the one that `vec3_negated`
/// names.
#[verifier::external_body]
pub(crate) fn negated(v: Vec3) -> (n: Vec3)
    ensures
        n == vec3_negated(v),
{
    -v
}

} // verus!
