//! The polymorphic error handle.

use crate::abstract_error::AbstractError;
use crate::identity::{borne, concrete_type, type_identity, Identity};
use crate::payload::{content, holds, recover, seal, Payload};
use std::any::TypeId;
use vstd::prelude::*;

verus! {

/// The characters of an optional text.
pub open spec fn text_view(text: Option<String>) -> Option<Seq<char>> {
    match text {
        Some(text) => Some(text@),
        None => None,
    }
}

/// One concrete error of any type, behind a single uniform handle.
///
/// The handle owns the erased value together with the identity token of
/// its concrete type, which is what makes recovering the type safe.
pub struct Error {
    identity: Identity,
    payload: Payload,
    name: String,
    description: Option<String>,
    cause: Option<Box<Error>>,
}

impl Error {
    /// The token kept in the handle is the one that the erased value bears.
    #[verifier::type_invariant]
    spec fn consistent(&self) -> bool {
        self.identity.token() == concrete_type(content(&self.payload))
    }

    /// The identity token of the erased value's concrete type.
    pub closed spec fn identity_spec(&self) -> TypeId {
        self.identity.token()
    }

    /// The erased value that the handle owns.
    pub closed spec fn payload_view(&self) -> Payload {
        self.payload
    }

    /// Whether this handle is the erasure of exactly `value`.
    pub open spec fn erases<E: AbstractError>(&self, value: E) -> bool {
        holds(&self.payload_view(), value)
    }

    /// Whether the erased value was constructed as exactly an `E`: the
    /// handle bears the identity of `E`.
    pub open spec fn wraps<E: AbstractError>(&self) -> bool {
        self.identity_spec() == type_identity::<E>()
    }

    /// The name that the handle reports.
    pub closed spec fn name_view(&self) -> Seq<char> {
        self.name@
    }

    /// The description that the handle reports, if it has one.
    pub closed spec fn description_view(&self) -> Option<Seq<char>> {
        text_view(self.description)
    }

    /// The handle of the error that triggered this one, if one is recorded.
    pub closed spec fn cause_view(&self) -> Option<Error> {
        match self.cause {
            Some(cause) => Some(*cause),
            None => None,
        }
    }

    /// Moves `value` behind a new handle that reports the given name and
    /// description and has no cause.
    pub fn with_parts<E: AbstractError>(
        value: E,
        name: String,
        description: Option<String>,
    ) -> (handle: Error)
        ensures
            handle.erases(value),
            handle.wraps::<E>(),
            handle.name_view() == name@,
            handle.description_view() == text_view(description),
            handle.cause_view() is None,
    {
        let identity = Identity::of_value(&value);
        let payload = seal(value);
        Error { identity, payload, name, description, cause: None }
    }

    /// Moves `value` behind a new handle, which reports the name and the
    /// description that `value` gives of itself and has no cause.
    pub fn wrap<E: AbstractError>(value: E) -> (handle: Error)
        ensures
            handle.erases(value),
            handle.wraps::<E>(),
            exists|label: String|
                call_ensures(E::name, (&value,), label) && handle.name_view() == label@,
            exists|text: Option<String>|
                call_ensures(E::description, (&value,), text) && handle.description_view()
                    == text_view(text),
            handle.cause_view() is None,
    {
        let name = value.name();
        let description = value.description();
        Error::with_parts(value, name, description)
    }

    /// Moves a plain text behind a new handle: the name is the generic
    /// label `Error`, the description is the text, and there is no cause.
    pub fn message(text: String) -> (handle: Error)
        ensures
            handle.erases(text),
            handle.wraps::<String>(),
            handle.name_view() == "Error"@,
            handle.description_view() == Some(text@),
            handle.cause_view() is None,
    {
        let name = text.name();
        let description = text.description();
        Error::with_parts(text, name, description)
    }

    /// The same handle with `cause` recorded as what triggered it.
    pub fn caused_by(self, cause: Error) -> (handle: Error)
        ensures
            handle.cause_view() == Some(cause),
            handle.identity_spec() == self.identity_spec(),
            handle.name_view() == self.name_view(),
            handle.description_view() == self.description_view(),
            handle.payload_view() == self.payload_view(),
    {
        proof {
            use_type_invariant(&self);
        }
        let Error { identity, payload, name, description, cause: _ } = self;
        Error { identity, payload, name, description, cause: Some(Box::new(cause)) }
    }

    /// The name of the erased error.
    pub fn name(&self) -> (label: &str)
        ensures
            label@ == self.name_view(),
    {
        self.name.as_str()
    }

    /// The description of the erased error, if it has one.
    pub fn description(&self) -> (text: Option<&str>)
        ensures
            text is Some == self.description_view() is Some,
            text is Some ==> text->0@ == self.description_view()->0,
    {
        match &self.description {
            Some(text) => Some(text.as_str()),
            None => None,
        }
    }

    /// The error that triggered this one, if one is recorded.
    pub fn cause(&self) -> (cause: Option<&Error>)
        ensures
            cause is Some == self.cause_view() is Some,
            cause is Some ==> *cause->0 == self.cause_view()->0,
    {
        match &self.cause {
            Some(cause) => Some(&**cause),
            None => None,
        }
    }

    /// The identity token of the erased value's concrete type.
    pub fn identity(&self) -> (identity: Identity)
        ensures
            identity.token() == self.identity_spec(),
    {
        self.identity
    }

    /// Is the erased value of type `E`?
    pub fn is<E: AbstractError>(&self) -> (answer: bool)
        ensures
            answer == self.wraps::<E>(),
            forall|value: E| #[trigger] self.erases(value) ==> answer,
    {
        proof {
            use_type_invariant(self);
        }
        let wanted = Identity::of::<E>();
        assert forall|value: E| #[trigger] self.erases(value) implies self.wraps::<E>() by {
            assert(borne(value) == type_identity::<E>());
        }
        self.identity.same(&wanted)
    }

    /// If the erased value is an `E`, a reference to it; nothing otherwise.
    pub fn downcast<E: AbstractError>(&self) -> (found: Option<&E>)
        ensures
            found is Some == self.wraps::<E>(),
            found is Some ==> self.erases(*found->0),
            forall|value: E| #[trigger] self.erases(value) ==> found == Some(&value),
    {
        proof {
            use_type_invariant(self);
        }
        if self.is::<E>() {
            recover(&self.payload)
        } else {
            None
        }
    }
}

/// A handle bears one identity: where it wraps an `A`, it wraps no type
/// whose identity differs from that of `A`.
pub proof fn lemma_other_type_rejected<A: AbstractError, B: AbstractError>(handle: Error)
    requires
        handle.wraps::<A>(),
        type_identity::<A>() != type_identity::<B>(),
    ensures
        !handle.wraps::<B>(),
{
}

/// Two types that one handle wraps have the same identity.
pub proof fn lemma_wrapped_types_share_identity<A: AbstractError, B: AbstractError>(handle: Error)
    requires
        handle.wraps::<A>(),
        handle.wraps::<B>(),
    ensures
        type_identity::<A>() == type_identity::<B>(),
{
}

impl<E: AbstractError> From<E> for Error {
    /// Moves `value` behind a new handle, as `Error::wrap` does.
    fn from(value: E) -> (handle: Error)
        ensures
            handle.erases(value),
            handle.wraps::<E>(),
            exists|label: String|
                call_ensures(E::name, (&value,), label) && handle.name_view() == label@,
            exists|text: Option<String>|
                call_ensures(E::description, (&value,), text) && handle.description_view()
                    == text_view(text),
            handle.cause_view() is None,
    {
        Error::wrap(value)
    }
}

impl<E: AbstractError> vstd::std_specs::convert::FromSpecImpl<E> for Error {
    /// The handle reports what `value` says of itself when it is wrapped,
    /// which no function of `value` alone gives.
    open spec fn obeys_from_spec() -> bool {
        false
    }

    open spec fn from_spec(value: E) -> Error {
        arbitrary()
    }
}

} // verus!
