//! The result-shape normalizer: every legal shape resolves to the same
//! native value whatever wrapping the host chose, and malformed shapes
//! follow each side's policy.

use rolldown_binding::error::{BuildError, HookFailure, HostError};
use rolldown_binding::external::{ExternalAdapter, RawExternalShape, RawExternalValue};
use rolldown_binding::handle::CallbackHandle;
use rolldown_binding::shape::{
    complete_unit, complete_value, normalize_unit, normalize_value, HookPoll, RawHostResult,
    RawUnitResult,
};

#[test]
fn immediate_value_normalizes_directly() {
    let r = normalize_value::<i32>(RawHostResult::Value(7));
    assert_eq!(r, Ok(HookPoll::Ready(Some(7))));
}

#[test]
fn immediate_absent_normalizes_to_none() {
    let r = normalize_value::<i32>(RawHostResult::Absent);
    assert_eq!(r, Ok(HookPoll::Ready(None)));
}

#[test]
fn deferred_value_must_be_awaited_then_matches_immediate() {
    // the same value, once returned immediately and once behind a
    // deferred answer, reaches the caller identically
    let immediate = normalize_value::<i32>(RawHostResult::Value(41));
    assert_eq!(immediate, Ok(HookPoll::Ready(Some(41))));

    let deferred = normalize_value::<i32>(RawHostResult::Deferred);
    assert_eq!(deferred, Ok(HookPoll::Pending));
    let settled = complete_value::<i32>(Ok(Some(41)));
    assert_eq!(settled, Ok(Some(41)));
}

#[test]
fn deferred_absent_matches_immediate_absent() {
    let immediate = normalize_value::<i32>(RawHostResult::Absent);
    assert_eq!(immediate, Ok(HookPoll::Ready(None)));
    let settled = complete_value::<i32>(Ok(None));
    assert_eq!(settled, Ok(None));
}

#[test]
fn malformed_value_shape_is_invalid_return() {
    let r = normalize_value::<i32>(RawHostResult::Unrecognized);
    assert_eq!(r, Err(HookFailure::InvalidReturn));
}

#[test]
fn failed_await_is_host_failure() {
    let r = complete_value::<i32>(Err(HostError { message: "boom".to_string() }));
    assert_eq!(r, Err(HookFailure::Host { message: "boom".to_string() }));
}

#[test]
fn unit_settled_is_done() {
    assert_eq!(normalize_unit(RawUnitResult::Settled), HookPoll::Ready(()));
}

#[test]
fn unit_deferred_completes_after_await() {
    assert_eq!(normalize_unit(RawUnitResult::Deferred), HookPoll::Pending);
    assert_eq!(complete_unit(Ok(())), Ok(()));
    assert_eq!(
        complete_unit(Err(HostError { message: "rejected".to_string() })),
        Err(HookFailure::Host { message: "rejected".to_string() })
    );
}

#[test]
fn external_unrecognized_shape_decides_false() {
    // the predicate's softer policy, with the scenario's arguments
    let adapter = ExternalAdapter::new(CallbackHandle::new(9));
    let (handle, args) =
        adapter.decide_request(&"pkg".to_string(), &Some("/a.js".to_string()), false);
    assert_eq!(handle.id, 9);
    assert_eq!(args, ("pkg".to_string(), Some("/a.js".to_string()), false));
    let r = adapter.decide_response(RawExternalShape::Unrecognized);
    assert_eq!(r, HookPoll::Ready(false));
}

#[test]
fn external_boolean_passes_through() {
    let adapter = ExternalAdapter::new(CallbackHandle::new(3));
    assert_eq!(adapter.decide_response(RawExternalShape::Value(true)), HookPoll::Ready(true));
    assert_eq!(adapter.decide_response(RawExternalShape::Value(false)), HookPoll::Ready(false));
}

#[test]
fn external_deferred_decides_once_settled() {
    let adapter = ExternalAdapter::new(CallbackHandle::new(3));
    assert_eq!(adapter.decide_response(RawExternalShape::Deferred), HookPoll::Pending);
    assert_eq!(adapter.decide_settled(Ok(RawExternalValue::Value(true))), Ok(true));
    // a deferred answer that settles to an unrecognized shape is still
    // recovered to "not external", never an error
    assert_eq!(adapter.decide_settled(Ok(RawExternalValue::Unrecognized)), Ok(false));
}

#[test]
fn external_release_marks_the_handle() {
    let mut adapter = ExternalAdapter::new(CallbackHandle::new(12));
    assert!(adapter.callback.live);
    adapter.release();
    assert_eq!(adapter.callback.id, 12);
    assert!(!adapter.callback.live);
}

#[test]
fn external_host_failure_is_an_error() {
    let adapter = ExternalAdapter::new(CallbackHandle::new(3));
    let r = adapter.decide_settled(Err(HostError { message: "threw".to_string() }));
    assert_eq!(r, Err(BuildError::External { message: "threw".to_string() }));
}
