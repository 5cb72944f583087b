//! The external-resolution predicate adapter.
//!
//! The pipeline asks "is this module external?" with a source specifier, an
//! optional importer and a flag saying whether the specifier is already
//! resolved, and expects a boolean. When the host configured a predicate
//! callback, this adapter carries the question across the boundary and
//! normalizes the answer with the same shape discipline as the plugin hooks
//! — but with a deliberately softer policy for malformed answers: an
//! unrecognized shape decides `false` ("not external") instead of failing,
//! because a missing answer to a boolean gate must not abort the whole
//! build. A failed host call still fails, as with every hook.

use vstd::prelude::*;

use crate::error::{BuildError, HostError};
use crate::handle::CallbackHandle;
use crate::shape::HookPoll;
use crate::util::clone_opt_string;

verus! {

/// What the host predicate returned, tagged by shape.
#[derive(PartialEq, Eq, Debug)]
pub enum RawExternalShape {
    /// A deferred answer: it must be awaited.
    Deferred,
    /// An immediate boolean answer.
    Value(bool),
    /// A shape that is not a boolean answer.
    Unrecognized,
}

/// What a deferred predicate answer settled to.
#[derive(PartialEq, Eq, Debug)]
pub enum RawExternalValue {
    Value(bool),
    Unrecognized,
}

/// The decision an immediate (non-deferred) predicate shape yields: an
/// unrecognized shape is conservatively "not external".
pub open spec fn immediate_decision(shape: RawExternalShape) -> bool
    recommends
        !(shape is Deferred),
{
    match shape {
        RawExternalShape::Value(b) => b,
        _ => false,
    }
}

/// The decision a deferred predicate answer yields once awaited: a settled
/// unrecognized shape is "not external", a failed host call is an error.
pub open spec fn settled_decision(settled: Result<RawExternalValue, HostError>) -> Result<
    bool,
    BuildError,
> {
    match settled {
        Ok(RawExternalValue::Value(b)) => Ok(b),
        Ok(RawExternalValue::Unrecognized) => Ok(false),
        Err(e) => Err(BuildError::External { message: e.message }),
    }
}

/// The combined meaning of the predicate's normalization: the externality
/// decision, given the shape the host returned and — when it was deferred —
/// what it settled to.
pub open spec fn external_decision(
    shape: RawExternalShape,
    settled: Result<RawExternalValue, HostError>,
) -> Result<bool, BuildError> {
    if shape is Deferred {
        settled_decision(settled)
    } else {
        Ok(immediate_decision(shape))
    }
}

/// The adapter around the host-supplied externality predicate. When the
/// host configured none, the pipeline's built-in default decision applies
/// and no adapter exists at all.
#[derive(PartialEq, Eq, Debug)]
pub struct ExternalAdapter {
    pub callback: CallbackHandle,
}

impl ExternalAdapter {
    /// Wraps the handle to the host predicate.
    pub fn new(callback: CallbackHandle) -> (a: Self)
        ensures
            a.callback == callback,
    {
        ExternalAdapter { callback }
    }

    /// Releases the predicate's handle: to be called once the owning build
    /// guarantees no further externality questions; afterwards no decision
    /// may be driven through this adapter.
    pub fn release(&mut self)
        ensures
            final(self).callback.id == old(self).callback.id,
            !final(self).callback.live,
    {
        self.callback.release();
    }

    /// The call one externality question requires: the predicate's handle
    /// and its argument record, `(source, importer, is_resolved)`.
    pub fn decide_request(&self, source: &String, importer: &Option<String>, is_resolved: bool)
        -> (r: (CallbackHandle, (String, Option<String>, bool)))
        requires
            self.callback.live,
        ensures
            r.0 == self.callback,
            r.1.0 == *source,
            r.1.1 == *importer,
            r.1.2 == is_resolved,
    {
        (self.callback, (source.clone(), clone_opt_string(importer), is_resolved))
    }

    /// Normalizes the shape the predicate returned: an immediate answer
    /// decides at once, a deferred one must be awaited.
    pub fn decide_response(&self, shape: RawExternalShape) -> (r: HookPoll<bool>)
        ensures
            shape is Deferred ==> r == HookPoll::<bool>::Pending,
            !(shape is Deferred) ==> r == HookPoll::Ready(immediate_decision(shape)),
    {
        match shape {
            RawExternalShape::Deferred => HookPoll::Pending,
            RawExternalShape::Value(b) => HookPoll::Ready(b),
            RawExternalShape::Unrecognized => HookPoll::Ready(false),
        }
    }

    /// Turns the awaited outcome of a deferred predicate answer into the
    /// externality decision.
    pub fn decide_settled(&self, settled: Result<RawExternalValue, HostError>) -> (r: Result<
        bool,
        BuildError,
    >)
        ensures
            r == settled_decision(settled),
    {
        match settled {
            Ok(RawExternalValue::Value(b)) => Ok(b),
            Ok(RawExternalValue::Unrecognized) => Ok(false),
            Err(e) => Err(BuildError::External { message: e.message }),
        }
    }
}

/// An unrecognized predicate answer never errors and never decides `true`:
/// it always yields `false`, whether it arrived immediately or behind a
/// deferred value. This is the one locally-recovered malformed shape in the
/// bridge; the same shape on a standard hook is an invalid-return error.
pub proof fn lemma_unrecognized_decides_false(settled: Result<RawExternalValue, HostError>)
    ensures
        external_decision(RawExternalShape::Unrecognized, settled) == Ok::<bool, BuildError>(false),
        external_decision(RawExternalShape::Deferred, Ok(RawExternalValue::Unrecognized)) == Ok::<
            bool,
            BuildError,
        >(false),
{
}

/// The predicate's normalization is shape-transparent for recognized
/// answers: a boolean reaches the pipeline unchanged whether the host
/// returned it immediately or behind a deferred value.
pub proof fn lemma_external_shape_transparent(b: bool, settled: Result<RawExternalValue, HostError>)
    ensures
        external_decision(RawExternalShape::Value(b), settled) == Ok::<bool, BuildError>(b),
        external_decision(RawExternalShape::Deferred, Ok(RawExternalValue::Value(b))) == Ok::<
            bool,
            BuildError,
        >(b),
{
}

} // verus!
