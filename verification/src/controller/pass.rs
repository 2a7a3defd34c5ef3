//! Whole passes of the reconcilers: the calls that a reconciler makes from
//! the beginning of a pass to its end when the cluster carries out each of
//! them, and what holds of these passes.

use vstd::prelude::*;
use crate::controller::CONTROLLER_NAME;
use crate::controller::REQUEUE_SECONDS;
use crate::controller::api::Action;
use crate::controller::api::ApiRequestView;
use crate::controller::api::ApiResponseView;
use crate::controller::api::Error;
use crate::controller::api::StepView;
use crate::controller::crd::SharedSecretRequestState;
use crate::controller::crd::SharedSecretRequestStatus;
use crate::controller::crd::SharedSecretRequestView;
use crate::controller::crd::SharedSecretState;
use crate::controller::crd::SharedSecretStatus;
use crate::controller::crd::SharedSecretView;
use crate::controller::crd::Timestamp;
use crate::controller::finalizer::first_index;
use crate::controller::request::creating_event;
use crate::controller::request::SHARED_SECRET_REQUEST_FINALIZER;
use crate::controller::request::SharedSecretRequestApplyView;
use crate::controller::request::SharedSecretRequestReconcileView;
use crate::controller::request::updating_event;
use crate::controller::secret::SecretView;
use crate::controller::shared::secret_state;
use crate::controller::shared::SHARED_SECRET_FINALIZER;
use crate::controller::shared::SharedSecretApply;
use crate::controller::shared::SharedSecretReconcile;

verus! {

/// A pass as the cluster sees it: the calls in the order in which they were
/// made, and how the pass ended.
pub struct Pass {
    pub calls: Seq<ApiRequestView>,
    pub end: Result<Action, Error>,
}

impl Pass {
    /// The pass that makes no call and ends with `end`.
    pub open spec fn ended(end: Result<Action, Error>) -> Pass {
        Pass { calls: Seq::empty(), end }
    }

    /// The pass that makes `call` and then goes on as `rest`.
    pub open spec fn after(call: ApiRequestView, rest: Pass) -> Pass {
        Pass { calls: seq![call] + rest.calls, end: rest.end }
    }

    /// Whether a call of the pass creates a secret or merges data into
    /// one.
    pub open spec fn writes_secret(self) -> bool {
        exists|i: int|
            0 <= i < self.calls.len() && ((#[trigger] self.calls[i]) is CreateSecret
                || self.calls[i] is PatchSecretData)
    }

    /// Whether no call of the pass changes what the cluster stores.
    pub open spec fn writes_nothing(self) -> bool {
        forall|i: int| 0 <= i < self.calls.len() ==> !(#[trigger] self.calls[i]).is_write()
    }
}

/// The most calls that a pass over a declaration can still make in `state`.
pub open spec fn shared_secret_calls_left(state: SharedSecretApply) -> nat {
    match state {
        SharedSecretApply::Start => 2,
        SharedSecretApply::GettingSecret => 1,
        SharedSecretApply::WritingStatus => 0,
    }
}

impl SharedSecretView {
    /// What the cluster answers to the call that is pending in `state`, when
    /// the lookup of the declaration's secret gives `found` and the status
    /// is written as asked.
    pub open spec fn answer(state: SharedSecretApply, found: Option<SecretView>) -> ApiResponseView {
        match state {
            SharedSecretApply::Start => ApiResponseView::Begin,
            SharedSecretApply::GettingSecret => ApiResponseView::Secret(found),
            SharedSecretApply::WritingStatus => ApiResponseView::Accepted,
        }
    }

    /// The rest of a pass that stands in `state`.
    pub open spec fn pass_from(self, state: SharedSecretApply, found: Option<SecretView>) -> Pass
        decreases shared_secret_calls_left(state),
    {
        let next = self.apply(state, Self::answer(state, found));
        match next.1 {
            StepView::Call(call) => Pass::after(call, self.pass_from(next.0, found)),
            StepView::Done(action) => Pass::ended(Ok(action)),
            StepView::Fail(error) => Pass::ended(Err(error)),
        }
    }

    /// The pass over the declaration when the lookup of its secret gives
    /// `found`.
    pub open spec fn pass(self, found: Option<SecretView>) -> Pass {
        self.pass_from(SharedSecretApply::Start, found)
    }

    /// The status that the declaration has once the calls of `pass` are
    /// carried out: the one that the pass wrote, or else the one it had.
    pub open spec fn status_after(self, pass: Pass) -> Option<SharedSecretStatus> {
        if pass.calls.len() > 0 {
            match pass.calls.last() {
                ApiRequestView::ApplySharedSecretStatus { status, .. } => Some(status),
                _ => self.status,
            }
        } else {
            self.status
        }
    }

    /// The declaration with another status.
    pub open spec fn with_status(self, status: Option<SharedSecretStatus>) -> SharedSecretView {
        SharedSecretView { status, ..self }
    }
}

/// A pass over a declaration reads the secret that it names and then writes
/// at most the status; it ends by asking to be run again.
pub proof fn lemma_shared_secret_pass(shared_secret: SharedSecretView, found: Option<SecretView>)
    ensures
        ({
            let pass = shared_secret.pass(found);
            let read = ApiRequestView::GetSecret {
                namespace: shared_secret.metadata.namespace,
                name: shared_secret.spec.secret_name,
            };
            &&& pass.end == Ok::<Action, Error>(Action::Requeue { seconds: REQUEUE_SECONDS })
            &&& match shared_secret.update_status(
                SharedSecretStatus { state: secret_state(found) },
            ) {
                Some(write) => pass.calls == seq![read, write],
                None => pass.calls == seq![read],
            }
        }),
{
    reveal_with_fuel(SharedSecretView::pass_from, 3);
}

/// After a pass, the state of a declaration is `Valid` if and only if the
/// secret that it names was found in its namespace with at least one entry.
pub proof fn lemma_valid_iff_secret_has_data(
    shared_secret: SharedSecretView,
    found: Option<SecretView>,
)
    ensures
        shared_secret.status_after(shared_secret.pass(found)) matches Some(status) && (status.state
            == SharedSecretState::Valid <==> (found matches Some(secret) && secret.data matches Some(
            data,
        ) && data.len() >= 1)),
{
    lemma_shared_secret_pass(shared_secret, found);
}

/// A pass over a declaration that an earlier pass has left, the secret
/// being as it was, writes nothing.
pub proof fn lemma_shared_secret_pass_settles(
    shared_secret: SharedSecretView,
    found: Option<SecretView>,
)
    ensures
        shared_secret.with_status(shared_secret.status_after(shared_secret.pass(found))).pass(
            found,
        ).writes_nothing(),
{
    lemma_shared_secret_pass(shared_secret, found);
    let settled = shared_secret.with_status(shared_secret.status_after(shared_secret.pass(found)));
    lemma_shared_secret_pass(settled, found);
}

/// What the cluster holds and gives back during a pass over a request, each
/// call being carried out.
pub struct Answers {
    /// The requested `SharedSecret`, if there is one.
    pub shared_secret: Option<SharedSecretView>,
    /// The secret that it publishes, if there is one.
    pub remote: Option<SecretView>,
    /// The copy in the request's namespace, if there is one.
    pub local: Option<SecretView>,
    /// The copy as the cluster stores it once it was created or had data
    /// merged in.
    pub written: SecretView,
}

/// The most calls that a pass over a request can still make in `state`.
pub open spec fn shared_secret_request_calls_left(state: SharedSecretRequestApplyView) -> nat {
    match state {
        SharedSecretRequestApplyView::Start => 6,
        SharedSecretRequestApplyView::GettingSharedSecret => 5,
        SharedSecretRequestApplyView::GettingRemoteSecret => 4,
        SharedSecretRequestApplyView::GettingLocalSecret { .. } => 3,
        SharedSecretRequestApplyView::CreatingLocalSecret => 2,
        SharedSecretRequestApplyView::UpdatingLocalSecret => 2,
        SharedSecretRequestApplyView::PublishingEvent => 1,
        SharedSecretRequestApplyView::WritingStatus => 0,
    }
}

impl SharedSecretRequestView {
    /// What the cluster answers to the call that is pending in `state`.
    pub open spec fn answer(state: SharedSecretRequestApplyView, answers: Answers) -> ApiResponseView {
        match state {
            SharedSecretRequestApplyView::Start => ApiResponseView::Begin,
            SharedSecretRequestApplyView::GettingSharedSecret => ApiResponseView::SharedSecret(
                answers.shared_secret,
            ),
            SharedSecretRequestApplyView::GettingRemoteSecret => ApiResponseView::Secret(
                answers.remote,
            ),
            SharedSecretRequestApplyView::GettingLocalSecret { .. } => ApiResponseView::Secret(
                answers.local,
            ),
            SharedSecretRequestApplyView::CreatingLocalSecret => ApiResponseView::Written(
                answers.written,
            ),
            SharedSecretRequestApplyView::UpdatingLocalSecret => ApiResponseView::Written(
                answers.written,
            ),
            SharedSecretRequestApplyView::PublishingEvent => ApiResponseView::Accepted,
            SharedSecretRequestApplyView::WritingStatus => ApiResponseView::Accepted,
        }
    }

    /// The rest of a pass that stands in `state`, a status that it writes
    /// being dated `now`.
    pub open spec fn pass_from(
        self,
        state: SharedSecretRequestApplyView,
        answers: Answers,
        now: Timestamp,
    ) -> Pass
        decreases shared_secret_request_calls_left(state),
    {
        let next = self.apply(state, Self::answer(state, answers), now);
        match next.1 {
            StepView::Call(call) => Pass::after(call, self.pass_from(next.0, answers, now)),
            StepView::Done(action) => Pass::ended(Ok(action)),
            StepView::Fail(error) => Pass::ended(Err(error)),
        }
    }

    /// The pass over the request against a cluster that gives `answers`.
    pub open spec fn pass(self, answers: Answers, now: Timestamp) -> Pass {
        self.pass_from(SharedSecretRequestApplyView::Start, answers, now)
    }

    /// The state that a pass reaches against a cluster that gives
    /// `answers`.
    pub open spec fn reached(self, answers: Answers) -> SharedSecretRequestState {
        match answers.shared_secret {
            None => SharedSecretRequestState::SharedSecretMissing,
            Some(shared_secret) => if !(shared_secret.status matches Some(status) && status.state
                == SharedSecretState::Valid) {
                SharedSecretRequestState::SharedSecretInvalid
            } else if answers.remote is None {
                SharedSecretRequestState::SharedSecretInvalid
            } else {
                SharedSecretRequestState::Synchronized
            },
        }
    }

    /// The calls by which a pass reads the cluster: for the requested
    /// `SharedSecret`; if that is valid, for the secret it publishes; if
    /// that exists, for the copy.
    pub open spec fn reads(self, answers: Answers) -> Seq<ApiRequestView> {
        let first = ApiRequestView::GetSharedSecret {
            namespace: self.spec.shared_secret.namespace,
            name: self.spec.shared_secret.name,
        };
        match answers.shared_secret {
            Some(shared_secret) if shared_secret.status matches Some(status) && status.state
                == SharedSecretState::Valid => {
                let second = ApiRequestView::GetSecret {
                    namespace: self.spec.shared_secret.namespace,
                    name: shared_secret.spec.secret_name,
                };
                if answers.remote is Some {
                    seq![
                        first,
                        second,
                        ApiRequestView::GetSecret {
                            namespace: self.metadata.namespace,
                            name: self.local_secret_name(),
                        },
                    ]
                } else {
                    seq![first, second]
                }
            },
            _ => seq![first],
        }
    }

    /// The calls by which a pass that has reached `Synchronized` brings the
    /// copy about: one that creates it where it is missing, one that merges
    /// the published data in where it holds other data, each followed by an
    /// event; none where it holds the published data.
    pub open spec fn copy_calls(self, answers: Answers) -> Seq<ApiRequestView> {
        let data = answers.remote->0.data;
        match answers.local {
            None => seq![
                ApiRequestView::CreateSecret {
                    secret: self.local_secret(data),
                    field_manager: CONTROLLER_NAME@,
                },
                ApiRequestView::PublishEvent {
                    regarding: self.object_ref(),
                    event: creating_event(answers.written),
                },
            ],
            Some(local) => if local.data != data {
                seq![
                    ApiRequestView::PatchSecretData {
                        namespace: self.metadata.namespace,
                        name: self.local_secret_name(),
                        data,
                        field_manager: CONTROLLER_NAME@,
                    },
                    ApiRequestView::PublishEvent {
                        regarding: self.object_ref(),
                        event: updating_event(answers.written),
                    },
                ]
            } else {
                Seq::empty()
            },
        }
    }

    /// The call by which a pass that has reached `state` writes it, if the
    /// stored state is another.
    pub open spec fn status_calls(self, state: SharedSecretRequestState, now: Timestamp) -> Seq<
        ApiRequestView,
    > {
        match self.update_status(SharedSecretRequestStatus { state, last_updated_at: Some(now) }) {
            Some(write) => seq![write],
            None => Seq::empty(),
        }
    }

    /// The status that the request has once the calls of `pass` are carried
    /// out: the one that the pass wrote, or else the one it had.
    pub open spec fn status_after(self, pass: Pass) -> Option<SharedSecretRequestStatus> {
        if pass.calls.len() > 0 {
            match pass.calls.last() {
                ApiRequestView::ApplySharedSecretRequestStatus { status, .. } => Some(status),
                _ => self.status,
            }
        } else {
            self.status
        }
    }

    /// The copy that the cluster holds once the calls of `pass` are carried
    /// out: the one it gave back for the call that wrote it, or else the one
    /// that was there.
    pub open spec fn local_after(answers: Answers, pass: Pass) -> Option<SecretView> {
        if pass.writes_secret() {
            Some(answers.written)
        } else {
            answers.local
        }
    }

    /// The request with another status.
    pub open spec fn with_status(
        self,
        status: Option<SharedSecretRequestStatus>,
    ) -> SharedSecretRequestView {
        SharedSecretRequestView { status, ..self }
    }
}

/// A pass over a request makes its reads, then, where it has reached
/// `Synchronized`, the calls that bring the copy about, then at most the call
/// that writes the state; it ends by asking to be run again.
pub proof fn lemma_shared_secret_request_pass(
    request: SharedSecretRequestView,
    answers: Answers,
    now: Timestamp,
)
    ensures
        ({
            let pass = request.pass(answers, now);
            let reached = request.reached(answers);
            &&& pass.end == Ok::<Action, Error>(Action::Requeue { seconds: REQUEUE_SECONDS })
            &&& pass.calls == request.reads(answers) + (if reached
                == SharedSecretRequestState::Synchronized {
                request.copy_calls(answers)
            } else {
                Seq::empty()
            }) + request.status_calls(reached, now)
        }),
{
    reveal_with_fuel(SharedSecretRequestView::pass_from, 7);
}

/// A pass that does not reach `Synchronized` neither creates a secret nor
/// merges data into one: the copy, if there is one, stays as it is.
pub proof fn lemma_copy_written_only_when_synchronized(
    request: SharedSecretRequestView,
    answers: Answers,
    now: Timestamp,
)
    ensures
        request.pass(answers, now).writes_secret() ==> request.reached(answers)
            == SharedSecretRequestState::Synchronized,
        request.pass(answers, now).writes_secret() <==> request.reached(answers)
            == SharedSecretRequestState::Synchronized && !(answers.local matches Some(local)
            && local.data == answers.remote->0.data),
{
    lemma_shared_secret_request_pass(request, answers, now);
    let pass = request.pass(answers, now);
    if request.reached(answers) == SharedSecretRequestState::Synchronized && !(
    answers.local matches Some(local) && local.data == answers.remote->0.data) {
        assert(pass.calls[3] is CreateSecret || pass.calls[3] is PatchSecretData);
    }
}

/// After a pass, the state of a request is the one that the pass reached.
pub proof fn lemma_status_after_pass(
    request: SharedSecretRequestView,
    answers: Answers,
    now: Timestamp,
)
    ensures
        request.status_after(request.pass(answers, now)) matches Some(status) && status.state
            == request.reached(answers),
{
    lemma_shared_secret_request_pass(request, answers, now);
}

/// A request that a pass leaves `Synchronized` has a copy, and the copy
/// holds the data of the published secret as the pass read it.
///
/// This is stated of a cluster that stores the copy with the data that the
/// pass sent. Where a call merges data into a copy that has a key which the
/// published secret lacks, the key stays, and the copy differs from the
/// published secret although the pass ends in `Synchronized`.
pub proof fn lemma_synchronized_has_copy(
    request: SharedSecretRequestView,
    answers: Answers,
    now: Timestamp,
)
    requires
        request.pass(answers, now).writes_secret() ==> answers.written.data
            == answers.remote->0.data,
    ensures
        (request.status_after(request.pass(answers, now)) matches Some(status) && status.state
            == SharedSecretRequestState::Synchronized) ==> (answers.remote matches Some(remote)
            && SharedSecretRequestView::local_after(answers, request.pass(answers, now)) matches Some(
            local,
        ) && local.data == remote.data),
{
    lemma_status_after_pass(request, answers, now);
    lemma_copy_written_only_when_synchronized(request, answers, now);
}

/// A second pass over a request writes nothing when nothing has changed but
/// what the first pass wrote: no status, no secret, no event.
///
/// This is stated of a cluster that stores the copy with the data that the
/// first pass sent. Where a call merges data into a copy that has a key which
/// the published secret lacks, the key stays, and every later pass merges the
/// data in again.
pub proof fn lemma_second_pass_writes_nothing(
    request: SharedSecretRequestView,
    answers: Answers,
    now: Timestamp,
    again: SecretView,
    later: Timestamp,
)
    requires
        request.pass(answers, now).writes_secret() ==> answers.written.data
            == answers.remote->0.data,
    ensures
        ({
            let first = request.pass(answers, now);
            let settled = request.with_status(request.status_after(first));
            let seen = Answers {
                local: SharedSecretRequestView::local_after(answers, first),
                written: again,
                ..answers
            };
            settled.pass(seen, later).writes_nothing()
        }),
{
    let first = request.pass(answers, now);
    let settled = request.with_status(request.status_after(first));
    let seen = Answers {
        local: SharedSecretRequestView::local_after(answers, first),
        written: again,
        ..answers
    };
    lemma_status_after_pass(request, answers, now);
    lemma_copy_written_only_when_synchronized(request, answers, now);
    lemma_shared_secret_request_pass(settled, seen, later);
}

/// A status is not written a second time: once a request has a status, the
/// call for one with the same state is not made, whenever it is dated.
pub proof fn lemma_request_status_written_once(
    request: SharedSecretRequestView,
    status: SharedSecretRequestStatus,
    again: SharedSecretRequestStatus,
)
    requires
        again.state == status.state,
    ensures
        request.with_status(Some(status)).update_status(again) is None,
{
}

/// A status is not written a second time: once a declaration has a status,
/// the call for one with the same state is not made.
pub proof fn lemma_shared_secret_status_written_once(
    shared_secret: SharedSecretView,
    status: SharedSecretStatus,
    again: SharedSecretStatus,
)
    requires
        again.state == status.state,
    ensures
        shared_secret.with_status(Some(status)).update_status(again) is None,
{
}

/// Nothing is done for a declaration before it has its marker: a pass over
/// one without it adds the marker and awaits the change, or, where the
/// declaration is being deleted, does nothing.
pub proof fn lemma_shared_secret_marker_comes_first(
    shared_secret: SharedSecretView,
    response: ApiResponseView,
)
    requires
        first_index(shared_secret.metadata.finalizers, SHARED_SECRET_FINALIZER@) is None,
    ensures
        match shared_secret.reconcile(SharedSecretReconcile::start(), response).1 {
            StepView::Call(call) => call is AddFinalizer
                && shared_secret.metadata.deletion_timestamp is None,
            StepView::Done(action) => action == Action::AwaitChange
                && shared_secret.metadata.deletion_timestamp is Some,
            StepView::Fail(_) => false,
        },
{
}

/// The marker of a declaration is taken off only at the beginning of a pass
/// over one that is being deleted, and only after its cleanup has succeeded.
pub proof fn lemma_shared_secret_marker_removed_after_cleanup(
    shared_secret: SharedSecretView,
    state: SharedSecretReconcile,
    response: ApiResponseView,
)
    ensures
        (shared_secret.reconcile(state, response).1 matches StepView::Call(call)
            && call is RemoveFinalizer) ==> (state.phase is Start
            && shared_secret.metadata.deletion_timestamp is Some && shared_secret.cleanup() is Ok
            && first_index(shared_secret.metadata.finalizers, SHARED_SECRET_FINALIZER@) is Some),
{
}

/// Nothing is done for a request before it has its marker: a pass over one
/// without it adds the marker and awaits the change, or, where the request is
/// being deleted, does nothing.
pub proof fn lemma_shared_secret_request_marker_comes_first(
    request: SharedSecretRequestView,
    response: ApiResponseView,
    now: Timestamp,
)
    requires
        first_index(request.metadata.finalizers, SHARED_SECRET_REQUEST_FINALIZER@) is None,
    ensures
        match request.reconcile(SharedSecretRequestReconcileView::start(), response, now).1 {
            StepView::Call(call) => call is AddFinalizer
                && request.metadata.deletion_timestamp is None,
            StepView::Done(action) => action == Action::AwaitChange
                && request.metadata.deletion_timestamp is Some,
            StepView::Fail(_) => false,
        },
{
}

/// The marker of a request is taken off only at the beginning of a pass over
/// one that is being deleted, and only after its cleanup has succeeded. No
/// call deletes the copy: it goes with the request that owns it.
pub proof fn lemma_shared_secret_request_marker_removed_after_cleanup(
    request: SharedSecretRequestView,
    state: SharedSecretRequestReconcileView,
    response: ApiResponseView,
    now: Timestamp,
)
    ensures
        (request.reconcile(state, response, now).1 matches StepView::Call(call)
            && call is RemoveFinalizer) ==> (state.phase is Start
            && request.metadata.deletion_timestamp is Some && request.cleanup() is Ok
            && first_index(request.metadata.finalizers, SHARED_SECRET_REQUEST_FINALIZER@) is Some),
{
}

/// A call that fails ends the pass over a declaration at once, with the
/// state back at the start.
pub proof fn lemma_shared_secret_failure_ends_pass(
    shared_secret: SharedSecretView,
    state: SharedSecretApply,
)
    requires
        state != SharedSecretApply::Start,
    ensures
        shared_secret.apply(state, ApiResponseView::Failed) == (
            SharedSecretApply::Start,
            StepView::Fail(Error::KubeError),
        ),
{
}

/// A call that fails ends the pass over a request at once, with the state
/// back at the start.
pub proof fn lemma_shared_secret_request_failure_ends_pass(
    request: SharedSecretRequestView,
    state: SharedSecretRequestApplyView,
    now: Timestamp,
)
    requires
        state != SharedSecretRequestApplyView::Start,
    ensures
        request.apply(state, ApiResponseView::Failed, now) == (
            SharedSecretRequestApplyView::Start,
            StepView::Fail(Error::KubeError),
        ),
{
}

} // verus!
