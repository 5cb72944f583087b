//! The result-shape normalizer.
//!
//! A host callback may legally answer a value-returning hook in any of three
//! ways: with a deferred value that must be awaited first, with an immediate
//! value, or with nothing meaningful. Anything else is malformed. This module
//! classifies those shapes and resolves them to one native result, so that no
//! per-hook special-casing is needed beyond the hook's value type.
//!
//! Normalization happens in up to two steps, because awaiting a deferred
//! value is a suspension the verified core cannot perform itself:
//! [`normalize_value`] resolves every immediate shape and asks the caller to
//! await a deferred one; [`complete_value`] turns the awaited outcome into
//! the final result. The spec function [`normalized_value`] states the
//! combined meaning of the two steps, and the lemmas below prove the
//! properties the protocol is designed around: a value reaches the pipeline
//! unchanged whatever legal wrapping the host chose, and a malformed shape
//! always fails with an invalid-return error.

use vstd::prelude::*;

use crate::error::{HookFailure, HostError};

verus! {

/// What a host callback returned for one value-returning hook call, tagged
/// by shape.
#[derive(PartialEq, Eq, Debug)]
pub enum RawHostResult<T> {
    /// A deferred value: it must be awaited before the result is known.
    Deferred,
    /// An immediate value, already final.
    Value(T),
    /// The host returned nothing meaningful.
    Absent,
    /// A shape that is not legal for the hook.
    Unrecognized,
}

/// What a host callback returned for one unit hook call. A unit hook has no
/// value to malform: any immediate answer means "done", only a deferred one
/// still has to be awaited.
#[derive(PartialEq, Eq, Debug)]
pub enum RawUnitResult {
    /// A deferred completion: it must be awaited.
    Deferred,
    /// The hook is done.
    Settled,
}

/// One normalization step's outcome: either the final value, or the request
/// to await the deferred value and hand its outcome to the completion step.
#[derive(PartialEq, Eq, Debug)]
pub enum HookPoll<T> {
    Ready(T),
    Pending,
}

/// The result an immediate (non-deferred) shape normalizes to.
pub open spec fn immediate_value<T>(raw: RawHostResult<T>) -> Result<Option<T>, HookFailure>
    recommends
        !(raw is Deferred),
{
    match raw {
        RawHostResult::Deferred => Ok(None),
        RawHostResult::Value(v) => Ok(Some(v)),
        RawHostResult::Absent => Ok(None),
        RawHostResult::Unrecognized => Err(HookFailure::InvalidReturn),
    }
}

/// The result a deferred shape normalizes to, given what the awaited value
/// settled to.
pub open spec fn settled_value<T>(settled: Result<Option<T>, HostError>) -> Result<
    Option<T>,
    HookFailure,
> {
    match settled {
        Ok(v) => Ok(v),
        Err(e) => Err(HookFailure::Host { message: e.message }),
    }
}

/// The combined meaning of normalization: the native result of one hook
/// call, given the shape the host returned and — when that shape was
/// deferred — what the deferred value settled to.
pub open spec fn normalized_value<T>(
    raw: RawHostResult<T>,
    settled: Result<Option<T>, HostError>,
) -> Result<Option<T>, HookFailure> {
    if raw is Deferred {
        settled_value(settled)
    } else {
        immediate_value(raw)
    }
}

/// The immediate encoding of an optional value: the shape a host returns
/// when it hands the value over without any deferred wrapping.
pub open spec fn immediate_shape<T>(v: Option<T>) -> RawHostResult<T> {
    match v {
        Some(x) => RawHostResult::Value(x),
        None => RawHostResult::Absent,
    }
}

/// First normalization step for a value-returning hook: resolves every
/// immediate shape, asks the caller to await a deferred one.
pub fn normalize_value<T>(raw: RawHostResult<T>) -> (r: Result<HookPoll<Option<T>>, HookFailure>)
    ensures
        raw is Deferred ==> r == Ok::<HookPoll<Option<T>>, HookFailure>(HookPoll::Pending),
        !(raw is Deferred) ==> r == (match immediate_value(raw) {
            Ok(v) => Ok::<HookPoll<Option<T>>, HookFailure>(HookPoll::Ready(v)),
            Err(f) => Err(f),
        }),
{
    match raw {
        RawHostResult::Deferred => Ok(HookPoll::Pending),
        RawHostResult::Value(v) => Ok(HookPoll::Ready(Some(v))),
        RawHostResult::Absent => Ok(HookPoll::Ready(None)),
        RawHostResult::Unrecognized => Err(HookFailure::InvalidReturn),
    }
}

/// Second normalization step for a value-returning hook: the deferred value
/// was awaited, and `settled` is its outcome.
pub fn complete_value<T>(settled: Result<Option<T>, HostError>) -> (r: Result<
    Option<T>,
    HookFailure,
>)
    ensures
        r == normalized_value(RawHostResult::<T>::Deferred, settled),
{
    match settled {
        Ok(v) => Ok(v),
        Err(e) => Err(HookFailure::Host { message: e.message }),
    }
}

/// The combined meaning of normalization for a unit hook.
pub open spec fn normalized_unit(
    raw: RawUnitResult,
    settled: Result<(), HostError>,
) -> Result<(), HookFailure> {
    match raw {
        RawUnitResult::Deferred => match settled {
            Ok(u) => Ok(u),
            Err(e) => Err(HookFailure::Host { message: e.message }),
        },
        RawUnitResult::Settled => Ok(()),
    }
}

/// First normalization step for a unit hook: an immediate answer is already
/// done, a deferred one must be awaited.
pub fn normalize_unit(raw: RawUnitResult) -> (r: HookPoll<()>)
    ensures
        raw is Deferred ==> r == HookPoll::<()>::Pending,
        raw is Settled ==> r == HookPoll::Ready(()),
{
    match raw {
        RawUnitResult::Deferred => HookPoll::Pending,
        RawUnitResult::Settled => HookPoll::Ready(()),
    }
}

/// Second normalization step for a unit hook.
pub fn complete_unit(settled: Result<(), HostError>) -> (r: Result<(), HookFailure>)
    ensures
        r == normalized_unit(RawUnitResult::Deferred, settled),
{
    match settled {
        Ok(u) => Ok(u),
        Err(e) => Err(HookFailure::Host { message: e.message }),
    }
}

/// Normalization is shape-transparent: whether the host hands an optional
/// value over immediately or behind a deferred value that settles to it, the
/// pipeline sees the same native value.
pub proof fn lemma_normalization_shape_transparent<T>(
    v: Option<T>,
    settled: Result<Option<T>, HostError>,
)
    ensures
        normalized_value(immediate_shape(v), settled) == Ok::<Option<T>, HookFailure>(v),
        normalized_value(RawHostResult::<T>::Deferred, Ok(v)) == Ok::<Option<T>, HookFailure>(v),
{
}

/// The unit-hook counterpart: a unit hook that settles successfully
/// completes with unit, whether it answered immediately or deferred.
pub proof fn lemma_unit_shape_transparent(settled: Result<(), HostError>)
    ensures
        normalized_unit(RawUnitResult::Settled, settled) == Ok::<(), HookFailure>(()),
        normalized_unit(RawUnitResult::Deferred, Ok(())) == Ok::<(), HookFailure>(()),
{
}

/// A malformed shape for a value-returning hook always normalizes to the
/// invalid-return failure, whatever any deferred value would have settled
/// to.
pub proof fn lemma_malformed_is_invalid_return<T>(settled: Result<Option<T>, HostError>)
    ensures
        normalized_value(RawHostResult::<T>::Unrecognized, settled) == Err::<
            Option<T>,
            HookFailure,
        >(HookFailure::InvalidReturn),
{
}

} // verus!
