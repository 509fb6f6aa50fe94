//! Identity tokens: one runtime-comparable value per concrete type.
//!
//! Tokens are `std::any::TypeId` values. Two tokens are equal exactly when
//! they were derived from the same concrete type; that is the guarantee of
//! the standard library, and contracts here express "another type" as
//! "a type of another identity".

use crate::abstract_error::AbstractError;
use std::any::TypeId;
use typeable::Typeable;
use vstd::prelude::*;

verus! {

/// `std::any::TypeId`, carried through as an opaque value.
#[verifier::external_type_specification]
#[verifier::external_body]
pub struct ExTypeId(TypeId);

/// What `typeable::Typeable::get_type` returns for the value behind an
/// erased reference: the `TypeId` of that value's concrete type.
pub uninterp spec fn concrete_type(value: &dyn AbstractError) -> TypeId;

/// A value seen through the uniform interface only.
pub open spec fn erased<E: AbstractError>(value: &E) -> &dyn AbstractError {
    value
}

/// The identity that `value` bears once it is erased.
pub open spec fn borne<E: AbstractError>(value: E) -> TypeId {
    concrete_type(erased(&value))
}

/// The identity of the type `E`: the one that its values bear.
pub open spec fn type_identity<E: AbstractError>() -> TypeId {
    borne::<E>(arbitrary())
}

/// `typeable::Typeable::get_type`: the `TypeId` of the value's own type.
/// It is the identity that the value bears once erased, and it depends on
/// the type alone, not on the value.
#[verifier::external_body]
fn type_of_value<E: AbstractError>(value: &E) -> (id: TypeId)
    ensures
        id == concrete_type(erased(value)),
        id == type_identity::<E>(),
{
    Typeable::get_type(value)
}

/// `std::any::TypeId::of`: the `TypeId` of the type `E`, which is the one
/// that every value of `E` bears.
#[verifier::external_body]
fn type_of<E: AbstractError>() -> (id: TypeId)
    ensures
        id == type_identity::<E>(),
        forall|value: E| #[trigger] borne(value) == id,
{
    TypeId::of::<E>()
}

/// `==` on `std::any::TypeId`: true exactly when the two identifiers are
/// the same.
#[verifier::external_body]
fn same_type(left: &TypeId, right: &TypeId) -> (same: bool)
    ensures
        same == (*left == *right),
{
    left == right
}

/// The identity token of one concrete type.
#[derive(Clone, Copy, Debug)]
pub struct Identity {
    id: TypeId,
}

impl Identity {
    /// The type identifier that the token stands for.
    pub closed spec fn token(&self) -> TypeId {
        self.id
    }

    /// The token of the type `E`. No value of `E` is needed, and every
    /// value of `E` bears this token.
    pub fn of<E: AbstractError>() -> (identity: Identity)
        ensures
            identity.token() == type_identity::<E>(),
            forall|value: E| #[trigger] borne(value) == type_identity::<E>(),
    {
        Identity { id: type_of::<E>() }
    }

    /// The token that `value` bears: that of its type.
    pub fn of_value<E: AbstractError>(value: &E) -> (identity: Identity)
        ensures
            identity.token() == type_identity::<E>(),
            identity.token() == borne(*value),
    {
        Identity { id: type_of_value(value) }
    }

    /// Whether two tokens are the token of one and the same type.
    pub fn same(&self, other: &Identity) -> (same: bool)
        ensures
            same == (self.token() == other.token()),
    {
        same_type(&self.id, &other.id)
    }
}

impl PartialEq for Identity {
    /// Whether two tokens are the token of one and the same type.
    fn eq(&self, other: &Identity) -> (same: bool) {
        self.same(other)
    }
}

impl Eq for Identity {

}

impl vstd::std_specs::cmp::PartialEqSpecImpl for Identity {
    open spec fn obeys_eq_spec() -> bool {
        true
    }

    open spec fn eq_spec(&self, other: &Identity) -> bool {
        self.token() == other.token()
    }
}

} // verus!
