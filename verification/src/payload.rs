//! The erased representation of one concrete value.

use crate::abstract_error::AbstractError;
use crate::identity::{concrete_type, erased, type_identity};
use std::any::Any;
use vstd::prelude::*;

verus! {

/// Exclusive ownership of one value whose static type has been forgotten.
///
/// The value lies behind `std::any::Any`, a trait that the verifier does not
/// read, so the whole payload is opaque to it; `content` names what is
/// inside.
#[verifier::external_body]
pub struct Payload {
    inner: Box<dyn Any + Send>,
}

/// The value that the box of a payload owns, seen through the uniform
/// interface.
pub uninterp spec fn content(payload: &Payload) -> &dyn AbstractError;

/// Whether `payload` owns exactly `value`.
pub open spec fn holds<E: AbstractError>(payload: &Payload, value: E) -> bool {
    content(payload) == erased(&value)
}

/// `Box::new`, with the box then held as `Box<dyn Any + Send>`: the payload
/// owns exactly the value that was moved in.
#[verifier::external_body]
pub(crate) fn seal<E: AbstractError>(value: E) -> (payload: Payload)
    ensures
        content(&payload) == erased(&value),
{
    Payload { inner: Box::new(value) }
}

/// `<dyn Any>::downcast_ref`: a reference to the owned value where its
/// concrete type is `E`, nothing where it is of another type. The reference
/// is to the very value that was sealed, so whatever the payload is known to
/// own is what comes back.
#[verifier::external_body]
pub(crate) fn recover<E: AbstractError>(payload: &Payload) -> (value: Option<&E>)
    ensures
        value is Some == (concrete_type(content(payload)) == type_identity::<E>()),
        value is Some ==> content(payload) == erased(value->0),
        forall|owned: E| #[trigger]
            holds(payload, owned) && value is Some ==> *value->0 == owned,
{
    payload.inner.downcast_ref::<E>()
}

} // verus!
