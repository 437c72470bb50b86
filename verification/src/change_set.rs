//! The branch context: the sole authority for minting identifiers and for
//! the actor identity under which a branch's writes are recorded.

use vstd::prelude::*;

use crate::vector_clock::VectorClockId;

verus! {

/// How a change set operation can fail.
#[derive(Clone, Copy, PartialEq, Eq, Structural, Debug)]
pub enum ChangeSetError {
    /// The monotonic identifier generator cannot mint a larger identifier
    /// within the current millisecond.
    IdentifierSpaceExhausted,
}

#[verifier::external_type_specification]
#[verifier::external_body]
pub struct ExGenerator(ulid::Generator);

/// Relies on ulid::Generator::new: a fresh monotonic identifier generator.
#[verifier::external_body]
fn new_generator() -> (r: ulid::Generator) {
    ulid::Generator::new()
}

/// Relies on ulid::Generator::generate: a fresh 128-bit identifier minted
/// from the current time and random bits, strictly larger than the previous
/// one; fails when the random bits would overflow. The value depends on time
/// and randomness, so nothing is promised of it.
#[verifier::external_body]
fn generate_identifier(generator: &mut ulid::Generator) -> (r: Result<u128, ChangeSetError>) {
    match generator.generate() {
        Ok(u) => Ok(u.0),
        Err(ulid::MonotonicError::Overflow) => Err(ChangeSetError::IdentifierSpaceExhausted),
    }
}

/// An isolated branch of the graph: issues new identifiers and exposes the
/// actor identity for clock operations. Every mutating node-weight operation
/// takes the change set so the write clock is advanced under the right actor.
pub struct ChangeSet {
    id: u128,
    generator: ulid::Generator,
}

impl ChangeSet {
    /// A new change set with a freshly minted identity.
    pub fn new() -> (r: Result<ChangeSet, ChangeSetError>) {
        let mut generator = new_generator();
        match generate_identifier(&mut generator) {
            Ok(id) => Ok(ChangeSet { id, generator }),
            Err(e) => Err(e),
        }
    }

    pub closed spec fn spec_id(&self) -> u128 {
        self.id
    }

    /// The actor identity this change set attributes writes to.
    pub open spec fn spec_vector_clock_id(&self) -> VectorClockId {
        VectorClockId { value: self.spec_id() }
    }

    /// The identifier of this change set.
    pub fn id(&self) -> (r: u128)
        ensures
            r == self.spec_id(),
    {
        self.id
    }

    /// The actor identity under which this change set's writes are recorded;
    /// stable for the lifetime of the change set.
    pub fn vector_clock_id(&self) -> (r: VectorClockId)
        ensures
            r == self.spec_vector_clock_id(),
    {
        VectorClockId { value: self.id }
    }

    /// Mints a fresh identifier. The change set's own identity, and with it
    /// its actor identity, never changes.
    pub fn generate_ulid(&mut self) -> (r: Result<u128, ChangeSetError>)
        ensures
            final(self).spec_id() == old(self).spec_id(),
    {
        generate_identifier(&mut self.generator)
    }
}

} // verus!
