//! Multi-way matching on the concrete type behind a handle.

use crate::abstract_error::AbstractError;
use crate::error::Error;
use crate::identity::{type_identity, Identity};
use std::any::TypeId;
use vstd::prelude::*;

verus! {

/// `index` is the earliest position of `candidates` that holds `subject`.
pub open spec fn is_first_match(subject: TypeId, candidates: Seq<TypeId>, index: int) -> bool {
    &&& 0 <= index < candidates.len()
    &&& candidates[index] == subject
    &&& forall|earlier: int| 0 <= earlier < index ==> candidates[earlier] != subject
}

/// No position of `candidates` holds `subject`.
pub open spec fn unmatched(subject: TypeId, candidates: Seq<TypeId>) -> bool {
    forall|index: int| 0 <= index < candidates.len() ==> candidates[index] != subject
}

/// The arm that a match selects: the first candidate equal to `subject`,
/// or none where every candidate differs from it.
pub open spec fn selects(subject: TypeId, candidates: Seq<TypeId>, arm: Option<int>) -> bool {
    match arm {
        Some(index) => is_first_match(subject, candidates, index),
        None => unmatched(subject, candidates),
    }
}

/// The tokens of a list of identities, in order.
pub open spec fn tokens(candidates: Seq<Identity>) -> Seq<TypeId> {
    candidates.map_values(|identity: Identity| identity.token())
}

/// A position of a list, as a mathematical integer.
pub open spec fn position(arm: Option<usize>) -> Option<int> {
    match arm {
        Some(index) => Some(index as int),
        None => None,
    }
}

/// The position of the first of `candidates` that is the identity which
/// `subject` bears, or nothing where none is.
pub fn first_match(subject: &Error, candidates: &[Identity]) -> (arm: Option<usize>)
    ensures
        selects(subject.identity_spec(), tokens(candidates@), position(arm)),
{
    let mut index: usize = 0;
    while index < candidates.len()
        invariant
            index <= candidates.len(),
            forall|earlier: int|
                0 <= earlier < index ==> tokens(candidates@)[earlier] != subject.identity_spec(),
        decreases candidates.len() - index,
    {
        if subject.identity().same(&candidates[index]) {
            return Some(index);
        }
        index += 1;
    }
    None
}

/// A selection is unique: no subject and list of candidates select two
/// different outcomes.
pub proof fn lemma_selection_is_unique(
    subject: TypeId,
    candidates: Seq<TypeId>,
    one: Option<int>,
    other: Option<int>,
)
    requires
        selects(subject, candidates, one),
        selects(subject, candidates, other),
    ensures
        one == other,
{
}

/// With two arms of which only the second bears the subject's identity,
/// the second arm is selected, and neither the first arm nor the fall
/// through is.
pub proof fn lemma_second_arm_selected(subject: TypeId, first: TypeId, second: TypeId)
    requires
        first != subject,
        second == subject,
    ensures
        selects(subject, seq![first, second], Some(1)),
        !selects(subject, seq![first, second], Some(0)),
        !selects(subject, seq![first, second], None),
{
    let candidates = seq![first, second];
    assert(candidates[0] == first);
    assert(candidates[1] == second);
}

/// Where the subject's identity is among none of the arms, no arm is
/// selected: the match falls through.
pub proof fn lemma_unhandled_falls_through(subject: TypeId, candidates: Seq<TypeId>)
    requires
        !candidates.contains(subject),
    ensures
        selects(subject, candidates, None),
        forall|index: int| !selects(subject, candidates, Some(index)),
{
    assert forall|index: int| 0 <= index < candidates.len() implies candidates[index]
        != subject by {
        if candidates[index] == subject {
            assert(candidates.contains(subject));
        }
    }
}

/// Where the subject's identity is among the arms, some arm is selected,
/// and the match does not fall through.
pub proof fn lemma_handled_selects_an_arm(subject: TypeId, candidates: Seq<TypeId>)
    requires
        candidates.contains(subject),
    ensures
        exists|index: int| selects(subject, candidates, Some(index)),
        !selects(subject, candidates, None),
    decreases candidates.len(),
{
    let witness = choose|index: int| 0 <= index < candidates.len() && candidates[index] == subject;
    let shorter = candidates.take(witness);
    if shorter.contains(subject) {
        lemma_handled_selects_an_arm(subject, shorter);
        let earlier = choose|index: int| selects(subject, shorter, Some(index));
        assert(is_first_match(subject, shorter, earlier));
        assert(candidates[earlier] == shorter[earlier]);
        assert forall|before: int| 0 <= before < earlier implies candidates[before] != subject by {
            assert(shorter[before] == candidates[before]);
        }
        assert(selects(subject, candidates, Some(earlier)));
    } else {
        assert forall|before: int| 0 <= before < witness implies candidates[before] != subject by {
            if candidates[before] == subject {
                assert(shorter[before] == subject);
                assert(shorter.contains(subject));
            }
        }
        assert(selects(subject, candidates, Some(witness)));
    }
}

/// A selection exists: every subject and list of candidates select an
/// arm or the fall through.
pub proof fn lemma_selection_exists(subject: TypeId, candidates: Seq<TypeId>)
    ensures
        exists|arm: Option<int>| selects(subject, candidates, arm),
{
    if candidates.contains(subject) {
        lemma_handled_selects_an_arm(subject, candidates);
        let index = choose|index: int| selects(subject, candidates, Some(index));
        assert(selects(subject, candidates, Some(index)));
    } else {
        lemma_unhandled_falls_through(subject, candidates);
        assert(selects(subject, candidates, None));
    }
}

/// With an arm for `A` followed by an arm for `B`, a handle that wraps a
/// `B` and no `A` selects the second arm.
pub proof fn lemma_second_type_selected<A: AbstractError, B: AbstractError>(handle: Error)
    requires
        !handle.wraps::<A>(),
        handle.wraps::<B>(),
    ensures
        selects(
            handle.identity_spec(),
            seq![type_identity::<A>(), type_identity::<B>()],
            Some(1),
        ),
{
    lemma_second_arm_selected(
        handle.identity_spec(),
        type_identity::<A>(),
        type_identity::<B>(),
    );
}

/// A match in progress: the arms tried so far against one handle, and the
/// result of the one arm that ran, if any did.
pub struct Matcher<'a, R> {
    subject: &'a Error,
    outcome: Option<R>,
    tried: Ghost<Seq<TypeId>>,
    chosen: Ghost<Option<int>>,
}

impl<'a, R> Matcher<'a, R> {
    /// The recorded arm is the one that the candidates tried so far select,
    /// and a result is present exactly when an arm was selected.
    #[verifier::type_invariant]
    spec fn consistent(&self) -> bool {
        &&& selects(self.subject.identity_spec(), self.tried@, self.chosen@)
        &&& self.outcome is Some == self.chosen@ is Some
    }

    /// The handle under inspection.
    pub closed spec fn subject(&self) -> &Error {
        self.subject
    }

    /// The identities of the arms tried so far, in the order given.
    pub closed spec fn tried(&self) -> Seq<TypeId> {
        self.tried@
    }

    /// The position of the arm whose handler ran, if one has.
    pub closed spec fn chosen(&self) -> Option<int> {
        self.chosen@
    }

    /// The result of the handler that ran, if one has.
    pub closed spec fn outcome(&self) -> Option<R> {
        self.outcome
    }

    /// Tries one more arm: where no earlier arm matched and the erased value
    /// is an `E`, runs `handler` on it and keeps the result.
    pub fn arm<E: AbstractError, F: FnOnce(&'a E) -> R>(self, handler: F) -> (next: Matcher<'a, R>)
        requires
            forall|value: &'a E|
                self.outcome() is None && #[trigger] self.subject().erases(*value)
                    ==> call_requires(handler, (value,)),
        ensures
            next.subject() == self.subject(),
            next.tried() == self.tried().push(type_identity::<E>()),
            selects(next.subject().identity_spec(), next.tried(), next.chosen()),
            next.outcome() is Some == next.chosen() is Some,
            self.outcome() is Some ==> next.outcome() == self.outcome() && next.chosen()
                == self.chosen(),
            self.outcome() is None && !self.subject().wraps::<E>() ==> next.outcome() is None,
            self.outcome() is None && self.subject().wraps::<E>() ==> next.chosen() == Some(
                self.tried().len() as int,
            ),
            forall|value: &'a E|
                self.outcome() is None && #[trigger] self.subject().erases(*value)
                    ==> next.outcome() is Some && call_ensures(
                    handler,
                    (value,),
                    next.outcome()->0,
                ),
    {
        proof {
            use_type_invariant(&self);
        }
        let Matcher { subject, outcome, tried, chosen } = self;
        let ghost position = tried@.len() as int;
        let ghost extended = tried@.push(type_identity::<E>());
        match outcome {
            Some(result) => {
                Matcher { subject, outcome: Some(result), tried: Ghost(extended), chosen }
            },
            None => {
                match subject.downcast::<E>() {
                    Some(value) => {
                        assert(self.subject().erases(*value));
                        let result = handler(value);
                        Matcher {
                            subject,
                            outcome: Some(result),
                            tried: Ghost(extended),
                            chosen: Ghost(Some(position)),
                        }
                    },
                    None => {
                        Matcher { subject, outcome: None, tried: Ghost(extended), chosen }
                    },
                }
            },
        }
    }

    /// Ends the match: the result of the arm that ran, or nothing where no
    /// arm matched.
    pub fn finish(self) -> (outcome: Option<R>)
        ensures
            outcome == self.outcome(),
            outcome is Some == self.chosen() is Some,
            selects(self.subject().identity_spec(), self.tried(), self.chosen()),
    {
        proof {
            use_type_invariant(&self);
        }
        self.outcome
    }
}

/// Starts a match on `subject`, with no arm tried yet.
pub fn match_error<'a, R>(subject: &'a Error) -> (matcher: Matcher<'a, R>)
    ensures
        matcher.subject() == subject,
        matcher.tried() == Seq::<TypeId>::empty(),
        matcher.chosen() is None,
        matcher.outcome() is None,
{
    Matcher { subject, outcome: None, tried: Ghost(Seq::empty()), chosen: Ghost(None) }
}

} // verus!
