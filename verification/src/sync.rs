//! How a frame's producer and its consumer keep out of each other's way.

use vstd::prelude::*;

use crate::error::InteropError;
use crate::interop::{ImportedTexture, NativeFrame};

verus! {

/// What orders the producer's writes before the consumer's reads.
#[derive(Clone, Copy, Debug, PartialEq, Eq, Structural)]
#[non_exhaustive]
pub enum SyncMechanism {
    /// Nothing beyond what the producer already waited for.
    Unsynchronized,
    /// A GL flush on the producer's side.
    ImplicitGlFlush,
    /// A semaphore shared between the two APIs.
    ExplicitExternalSemaphore,
}

impl SyncMechanism {
    /// The variant's name.
    pub open spec fn spec_name(self) -> &'static str {
        match self {
            SyncMechanism::Unsynchronized => "None",
            SyncMechanism::ImplicitGlFlush => "ImplicitGlFlush",
            SyncMechanism::ExplicitExternalSemaphore => "ExplicitExternalSemaphore",
        }
    }

    /// The variant's name.
    #[verifier::when_used_as_spec(spec_name)]
    pub fn name(self) -> (r: &'static str)
        ensures
            r == self.name(),
    {
        match self {
            SyncMechanism::Unsynchronized => "None",
            SyncMechanism::ImplicitGlFlush => "ImplicitGlFlush",
            SyncMechanism::ExplicitExternalSemaphore => "ExplicitExternalSemaphore",
        }
    }

    /// Whether this mechanism needs no action on the consumer's side.
    pub open spec fn is_implicit(self) -> bool {
        !(self is ExplicitExternalSemaphore)
    }
}

/// Waits for the producer before an import and readies the consumer after it.
pub trait InteropSynchronizer {
    /// Whether `reply` may be the answer before `frame` is imported.
    spec fn may_complete(
        &self,
        frame: &NativeFrame,
        mechanism: SyncMechanism,
        reply: Result<(), InteropError>,
    ) -> bool;

    /// Whether `reply` may be the answer once `texture` has been imported.
    spec fn may_ready(
        &self,
        texture: &ImportedTexture,
        mechanism: SyncMechanism,
        reply: Result<(), InteropError>,
    ) -> bool;

    /// Called before `frame` is imported.
    fn producer_complete(&self, frame: &NativeFrame, mechanism: SyncMechanism) -> (reply: Result<
        (),
        InteropError,
    >)
        ensures
            self.may_complete(frame, mechanism, reply),
    ;

    /// Called once `texture` has been imported.
    fn consumer_ready(&self, texture: &ImportedTexture, mechanism: SyncMechanism) -> (reply: Result<
        (),
        InteropError,
    >)
        ensures
            self.may_ready(texture, mechanism, reply),
    ;
}

/// Whether `reply` is the answer to `mechanism` of one that takes nothing but
/// implicit mechanisms.
pub open spec fn implicit_only(mechanism: SyncMechanism, reply: Result<(), InteropError>) -> bool {
    if mechanism.is_implicit() {
        reply is Ok
    } else {
        reply == Err::<(), InteropError>(InteropError::UnsupportedSynchronization(mechanism))
    }
}

/// Accepts the mechanisms that need no explicit primitive, and no others.
#[derive(Clone, Copy, Debug)]
pub struct ImplicitOnlySynchronizer;

impl ImplicitOnlySynchronizer {
    /// Succeeds for a mechanism without an explicit primitive, and rejects any other.
    pub fn validate(mechanism: SyncMechanism) -> (r: Result<(), InteropError>)
        ensures
            implicit_only(mechanism, r),
    {
        match mechanism {
            SyncMechanism::Unsynchronized => Ok(()),
            SyncMechanism::ImplicitGlFlush => Ok(()),
            SyncMechanism::ExplicitExternalSemaphore => Err(
                InteropError::UnsupportedSynchronization(mechanism),
            ),
        }
    }
}

impl InteropSynchronizer for ImplicitOnlySynchronizer {
    open spec fn may_complete(
        &self,
        frame: &NativeFrame,
        mechanism: SyncMechanism,
        reply: Result<(), InteropError>,
    ) -> bool {
        implicit_only(mechanism, reply)
    }

    open spec fn may_ready(
        &self,
        texture: &ImportedTexture,
        mechanism: SyncMechanism,
        reply: Result<(), InteropError>,
    ) -> bool {
        implicit_only(mechanism, reply)
    }

    fn producer_complete(&self, _frame: &NativeFrame, mechanism: SyncMechanism) -> (reply: Result<
        (),
        InteropError,
    >) {
        ImplicitOnlySynchronizer::validate(mechanism)
    }

    fn consumer_ready(&self, _texture: &ImportedTexture, mechanism: SyncMechanism) -> (reply: Result<
        (),
        InteropError,
    >) {
        ImplicitOnlySynchronizer::validate(mechanism)
    }
}

/// Accepts every mechanism and does nothing.
#[derive(Clone, Copy, Debug)]
pub struct NoopSynchronizer;

impl InteropSynchronizer for NoopSynchronizer {
    open spec fn may_complete(
        &self,
        frame: &NativeFrame,
        mechanism: SyncMechanism,
        reply: Result<(), InteropError>,
    ) -> bool {
        reply is Ok
    }

    open spec fn may_ready(
        &self,
        texture: &ImportedTexture,
        mechanism: SyncMechanism,
        reply: Result<(), InteropError>,
    ) -> bool {
        reply is Ok
    }

    fn producer_complete(&self, _frame: &NativeFrame, _mechanism: SyncMechanism) -> (reply: Result<
        (),
        InteropError,
    >) {
        Ok(())
    }

    fn consumer_ready(&self, _texture: &ImportedTexture, _mechanism: SyncMechanism) -> (reply: Result<
        (),
        InteropError,
    >) {
        Ok(())
    }
}

/// The implicit synchronizer accepts a frame exactly if no semaphore has to be waited
/// for, and where it refuses, its error names the mechanism.
pub proof fn semaphores_are_refused(mechanism: SyncMechanism, r: Result<(), InteropError>)
    requires
        call_ensures(ImplicitOnlySynchronizer::validate, (mechanism,), r),
    ensures
        r is Ok <==> mechanism == SyncMechanism::Unsynchronized || mechanism
            == SyncMechanism::ImplicitGlFlush,
        r matches Err(error) ==> error == InteropError::UnsupportedSynchronization(
            SyncMechanism::ExplicitExternalSemaphore,
        ),
{
}

/// What the implicit synchronizer answers does not depend on whether it is asked
/// before an import or after it, nor on the frame or the texture; and the one that
/// does nothing accepts all that any other accepts.
pub proof fn synchronizers_look_at_the_mechanism(
    frame: &NativeFrame,
    texture: &ImportedTexture,
    mechanism: SyncMechanism,
    before: Result<(), InteropError>,
    after: Result<(), InteropError>,
)
    requires
        ImplicitOnlySynchronizer.may_complete(frame, mechanism, before),
        ImplicitOnlySynchronizer.may_ready(texture, mechanism, after),
    ensures
        before is Ok <==> !(mechanism is ExplicitExternalSemaphore),
        after is Ok <==> !(mechanism is ExplicitExternalSemaphore),
        NoopSynchronizer.may_complete(frame, mechanism, Ok(())),
        NoopSynchronizer.may_ready(texture, mechanism, Ok(())),
{
}

/// The names that reports show tell the mechanisms apart.
pub proof fn mechanisms_are_told_by_name(mechanism: SyncMechanism)
    ensures
        mechanism.name()@ == "None"@ <==> mechanism is Unsynchronized,
        mechanism.name()@ == "ImplicitGlFlush"@ <==> mechanism is ImplicitGlFlush,
        mechanism.name()@ == "ExplicitExternalSemaphore"@ <==> mechanism
            is ExplicitExternalSemaphore,
{
    reveal_strlit("None");
    reveal_strlit("ImplicitGlFlush");
    reveal_strlit("ExplicitExternalSemaphore");
    assert("None"@.len() == 4 && "ImplicitGlFlush"@.len() == 15);
    assert("ExplicitExternalSemaphore"@.len() == 25);
}

} // verus!
