//! The finalizer protocol: a marker on a resource that holds its deletion
//! back until the reconciler has released what it owns.
//!
//! A resource without the marker gets it before anything else is done for it.
//! A resource with the marker is reconciled, and once it is being deleted its
//! cleanup runs; only when the cleanup has succeeded is the marker taken off.

use vstd::prelude::*;
use crate::controller::api::Action;
use crate::controller::api::ApiRequest;
use crate::controller::api::ApiRequestView;
use crate::controller::api::ApiResponse;
use crate::controller::api::ApiResponseView;
use crate::controller::api::Error;
use crate::controller::api::FinalizerError;
use crate::controller::api::Kind;
use crate::controller::api::Step;
use crate::controller::api::StepView;
use crate::controller::crd::ObjectMeta;
use crate::controller::crd::ObjectMetaView;

verus! {

/// The two occasions on which a reconciler runs under the protocol.
#[derive(Copy, Clone, Debug, PartialEq, Eq, Structural)]
pub enum Finalizer {
    /// The resource is to be brought to its desired state.
    Apply,
    /// The resource is being deleted: what it owns is to be released.
    Cleanup,
}

/// What the protocol asks for when a pass begins.
#[derive(Copy, Clone, Debug, PartialEq, Eq, Structural)]
pub enum Plan {
    /// The resource lacks the marker and is not being deleted: add it.
    AddFinalizer,
    /// The resource has the marker; the reconciler runs on this occasion.
    /// On `Cleanup` the marker, found at `index`, is removed afterwards.
    Run { event: Finalizer, index: usize },
    /// The resource is being deleted and has no marker: nothing is left to
    /// do.
    Nothing,
}

/// Where a pass under the protocol stands.
#[derive(Copy, Clone, Debug, PartialEq, Eq, Structural)]
pub enum Phase {
    /// No call is pending: the next step begins a pass.
    Start,
    /// The marker was sent to be added.
    AddingFinalizer,
    /// The reconciler is bringing about the desired state.
    Applying,
    /// The cleanup has succeeded with `then`, and the marker was sent to be
    /// removed.
    RemovingFinalizer { then: Action },
}

/// The first position at which `name` stands in `finalizers`.
pub open spec fn first_index(finalizers: Seq<Seq<char>>, name: Seq<char>) -> Option<int>
    decreases finalizers.len(),
{
    if finalizers.len() == 0 {
        None
    } else {
        match first_index(finalizers.drop_last(), name) {
            Some(i) => Some(i),
            None => if finalizers.last() == name {
                Some(finalizers.len() - 1)
            } else {
                None
            },
        }
    }
}

/// `first_index` gives a position that holds `name` and has no `name`
/// before it, and gives none only where `name` does not occur.
pub proof fn lemma_first_index(finalizers: Seq<Seq<char>>, name: Seq<char>)
    ensures
        match first_index(finalizers, name) {
            Some(i) => 0 <= i < finalizers.len() && finalizers[i] == name && forall|j: int|
                0 <= j < i ==> finalizers[j] != name,
            None => forall|j: int| 0 <= j < finalizers.len() ==> finalizers[j] != name,
        },
    decreases finalizers.len(),
{
    if finalizers.len() > 0 {
        lemma_first_index(finalizers.drop_last(), name);
        match first_index(finalizers.drop_last(), name) {
            Some(i) => {
                assert forall|j: int| 0 <= j < i implies finalizers[j] != name by {
                    assert(finalizers.drop_last()[j] == finalizers[j]);
                }
            },
            None => {
                assert forall|j: int| 0 <= j < finalizers.len() - 1 implies finalizers[j]
                    != name by {
                    assert(finalizers.drop_last()[j] == finalizers[j]);
                }
            },
        }
    }
}

/// What the protocol asks for at the beginning of a pass over a resource
/// with this metadata.
pub open spec fn plan_for(metadata: ObjectMetaView, finalizer: Seq<char>) -> Plan {
    match (first_index(metadata.finalizers, finalizer), metadata.deletion_timestamp) {
        (Some(i), None) => Plan::Run { event: Finalizer::Apply, index: i as usize },
        (Some(i), Some(_)) => Plan::Run { event: Finalizer::Cleanup, index: i as usize },
        (None, None) => Plan::AddFinalizer,
        (None, Some(_)) => Plan::Nothing,
    }
}

/// The first position at which `name` stands in `finalizers`, if it stands
/// there at all.
pub fn find_finalizer(finalizers: &Vec<String>, name: &String) -> (found: Option<usize>)
    ensures
        match found {
            Some(i) => first_index(finalizers.deep_view(), name@) == Some(i as int),
            None => first_index(finalizers.deep_view(), name@) is None,
        },
        match found {
            Some(i) => i < finalizers.len() && finalizers[i as int]@ == name@ && forall|j: int|
                0 <= j < i ==> finalizers[j]@ != name@,
            None => forall|j: int| 0 <= j < finalizers.len() ==> finalizers[j]@ != name@,
        },
{
    let found = scan_for_finalizer(finalizers, name);
    proof {
        lemma_first_index(finalizers.deep_view(), name@);
        assert forall|j: int| 0 <= j < finalizers.len() implies #[trigger] finalizers[j]@
            == finalizers.deep_view()[j] by {}
    }
    found
}

/// The first position at which `name` stands in `finalizers`, looked for
/// from the front.
fn scan_for_finalizer(finalizers: &Vec<String>, name: &String) -> (found: Option<usize>)
    ensures
        match found {
            Some(i) => first_index(finalizers.deep_view(), name@) == Some(i as int),
            None => first_index(finalizers.deep_view(), name@) is None,
        },
{
    let ghost all = finalizers.deep_view();
    let mut i: usize = 0;
    while i < finalizers.len()
        invariant
            i <= finalizers.len(),
            all == finalizers.deep_view(),
            first_index(all.take(i as int), name@) is None,
        decreases finalizers.len() - i,
    {
        assert(all.take(i + 1).drop_last() =~= all.take(i as int));
        if finalizers[i] == *name {
            proof {
                lemma_first_index_of_prefix(all, name@, i + 1);
            }
            return Some(i);
        }
        i = i + 1;
    }
    assert(all.take(finalizers.len() as int) =~= all);
    None
}

/// A position found in a prefix is the position found in the whole.
proof fn lemma_first_index_of_prefix(finalizers: Seq<Seq<char>>, name: Seq<char>, n: int)
    requires
        0 <= n <= finalizers.len(),
        first_index(finalizers.take(n), name) is Some,
    ensures
        first_index(finalizers, name) == first_index(finalizers.take(n), name),
    decreases finalizers.len() - n,
{
    if n < finalizers.len() {
        assert(finalizers.take(n + 1).drop_last() =~= finalizers.take(n));
        lemma_first_index_of_prefix(finalizers, name, n + 1);
    } else {
        assert(finalizers.take(n) =~= finalizers);
    }
}

/// What the protocol asks for at the beginning of a pass over a resource
/// with this metadata: the marker added where it is missing, the reconciler
/// run where it is present, nothing where a resource without it is being
/// deleted.
pub fn plan(metadata: &ObjectMeta, finalizer: &String) -> (plan: Plan)
    ensures
        plan == plan_for(metadata@, finalizer@),
{
    let deleting = metadata.deletion_timestamp.is_some();
    match find_finalizer(&metadata.finalizers, finalizer) {
        Some(index) => if deleting {
            Plan::Run { event: Finalizer::Cleanup, index }
        } else {
            Plan::Run { event: Finalizer::Apply, index }
        },
        None => if deleting {
            Plan::Nothing
        } else {
            Plan::AddFinalizer
        },
    }
}

/// The call that adds the marker to a resource, provided that its finalizers
/// still are the ones seen.
pub open spec fn add_request_for(
    kind: Kind,
    metadata: ObjectMetaView,
    finalizer: Seq<char>,
) -> ApiRequestView {
    ApiRequestView::AddFinalizer {
        kind,
        namespace: metadata.namespace,
        name: metadata.name,
        present: metadata.finalizers,
        finalizer,
    }
}

/// The call that removes the marker found at `index`, provided that this
/// position still holds it.
pub open spec fn remove_request_for(
    kind: Kind,
    metadata: ObjectMetaView,
    finalizer: Seq<char>,
    index: usize,
) -> ApiRequestView {
    ApiRequestView::RemoveFinalizer {
        kind,
        namespace: metadata.namespace,
        name: metadata.name,
        index,
        finalizer,
    }
}

/// The call that adds the marker to a resource.
pub fn add_request(kind: Kind, metadata: &ObjectMeta, finalizer: &String) -> (call: ApiRequest)
    ensures
        call@ == add_request_for(kind, metadata@, finalizer@),
{
    let present = metadata.finalizers.clone();
    ApiRequest::AddFinalizer {
        kind,
        namespace: metadata.namespace.clone(),
        name: metadata.name.clone(),
        present,
        finalizer: finalizer.clone(),
    }
}

/// The call that removes the marker found at `index`.
pub fn remove_request(kind: Kind, metadata: &ObjectMeta, finalizer: &String, index: usize) -> (call:
    ApiRequest)
    ensures
        call@ == remove_request_for(kind, metadata@, finalizer@, index),
{
    ApiRequest::RemoveFinalizer {
        kind,
        namespace: metadata.namespace.clone(),
        name: metadata.name.clone(),
        index,
        finalizer: finalizer.clone(),
    }
}

/// How the pass goes on after the cleanup: the marker is removed if the
/// cleanup succeeded, and stays if it failed.
pub open spec fn after_cleanup_for(
    cleanup: Result<Action, Error>,
    removal: ApiRequestView,
) -> (Phase, StepView) {
    match cleanup {
        Ok(then) => (Phase::RemovingFinalizer { then }, StepView::Call(removal)),
        Err(_) => (Phase::Start, StepView::Fail(Error::FinalizerError(FinalizerError::CleanupFailed))),
    }
}

/// How the pass goes on after the cleanup.
pub fn after_cleanup(cleanup: Result<Action, Error>, removal: ApiRequest) -> (next: (Phase, Step))
    ensures
        (next.0, next.1@) == after_cleanup_for(cleanup, removal@),
{
    match cleanup {
        Ok(then) => (Phase::RemovingFinalizer { then }, Step::Call(removal)),
        Err(_) => (Phase::Start, Step::Fail(Error::FinalizerError(FinalizerError::CleanupFailed))),
    }
}

/// How a pass ends when the answer to the call that adds the marker
/// arrives: the change of the resource will bring the next pass about.
pub open spec fn after_adding_for(response: ApiResponseView) -> StepView {
    match response {
        ApiResponseView::Accepted => StepView::Done(Action::AwaitChange),
        _ => StepView::Fail(Error::FinalizerError(FinalizerError::AddFinalizer)),
    }
}

/// How a pass ends when the answer to the call that adds the marker
/// arrives.
pub fn after_adding(response: &ApiResponse) -> (step: Step)
    ensures
        step@ == after_adding_for(response@),
{
    match response {
        ApiResponse::Accepted => Step::Done(Action::await_change()),
        _ => Step::Fail(Error::FinalizerError(FinalizerError::AddFinalizer)),
    }
}

/// How a pass ends when the answer to the call that removes the marker
/// arrives: with what the cleanup asked for.
pub open spec fn after_removing_for(response: ApiResponseView, then: Action) -> StepView {
    match response {
        ApiResponseView::Accepted => StepView::Done(then),
        _ => StepView::Fail(Error::FinalizerError(FinalizerError::RemoveFinalizer)),
    }
}

/// How a pass ends when the answer to the call that removes the marker
/// arrives.
pub fn after_removing(response: &ApiResponse, then: Action) -> (step: Step)
    ensures
        step@ == after_removing_for(response@, then),
{
    match response {
        ApiResponse::Accepted => Step::Done(then),
        _ => Step::Fail(Error::FinalizerError(FinalizerError::RemoveFinalizer)),
    }
}

/// A step of the reconciler as the protocol passes it on: its calls and its
/// success as they are, its failure as a failure to apply.
pub open spec fn applied_for(step: StepView) -> StepView {
    match step {
        StepView::Fail(_) => StepView::Fail(Error::FinalizerError(FinalizerError::ApplyFailed)),
        _ => step,
    }
}

/// The phase that follows a step of the reconciler: it goes on while the
/// reconciler asks for calls.
pub open spec fn phase_after(step: StepView) -> Phase {
    match step {
        StepView::Call(_) => Phase::Applying,
        _ => Phase::Start,
    }
}

/// A step of the reconciler as the protocol passes it on, and the phase
/// that follows it.
pub fn applied(step: Step) -> (next: (Phase, Step))
    ensures
        next.0 == phase_after(step@),
        next.1@ == applied_for(step@),
{
    match step {
        Step::Call(call) => (Phase::Applying, Step::Call(call)),
        Step::Done(action) => (Phase::Start, Step::Done(action)),
        Step::Fail(_) => (Phase::Start, Step::Fail(Error::FinalizerError(FinalizerError::ApplyFailed))),
    }
}

} // verus!
