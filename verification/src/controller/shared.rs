//! The reconciler of `SharedSecret`: it records whether the secret that a
//! declaration names exists and holds data.

use vstd::prelude::*;
use crate::controller::CONTROLLER_NAME;
use crate::controller::REQUEUE_SECONDS;
use crate::controller::api::Action;
use crate::controller::api::ApiRequest;
use crate::controller::api::ApiRequestView;
use crate::controller::api::ApiResponse;
use crate::controller::api::ApiResponseView;
use crate::controller::api::Error;
use crate::controller::api::Kind;
use crate::controller::api::Step;
use crate::controller::api::StepView;
use crate::controller::crd::SharedSecret;
use crate::controller::crd::SharedSecretState;
use crate::controller::crd::SharedSecretStatus;
use crate::controller::crd::SharedSecretView;
use crate::controller::finalizer::add_request;
use crate::controller::finalizer::add_request_for;
use crate::controller::finalizer::after_adding;
use crate::controller::finalizer::after_adding_for;
use crate::controller::finalizer::after_cleanup;
use crate::controller::finalizer::after_cleanup_for;
use crate::controller::finalizer::after_removing;
use crate::controller::finalizer::after_removing_for;
use crate::controller::finalizer::applied;
use crate::controller::finalizer::applied_for;
use crate::controller::finalizer::Finalizer;
use crate::controller::finalizer::Phase;
use crate::controller::finalizer::phase_after;
use crate::controller::finalizer::plan;
use crate::controller::finalizer::Plan;
use crate::controller::finalizer::plan_for;
use crate::controller::finalizer::remove_request;
use crate::controller::finalizer::remove_request_for;
use crate::controller::secret::Secret;
use crate::controller::secret::SecretView;

verus! {

/// The marker that keeps a `SharedSecret` from being deleted before its
/// cleanup has run.
pub const SHARED_SECRET_FINALIZER: &'static str = "sharedsecretctl.klauser.link/shared-secret";

/// The kind under which a `SharedSecret` is stored.
pub const SHARED_SECRET_KIND: &'static str = "SharedSecret";

/// Where a pass over a `SharedSecret` stands: the call whose answer it
/// waits for.
#[derive(Copy, Clone, Debug, PartialEq, Eq, Structural)]
pub enum SharedSecretApply {
    /// No call is pending: the next step begins a pass.
    Start,
    /// The secret that the declaration names was asked for.
    GettingSecret,
    /// The new status was sent.
    WritingStatus,
}

/// The state that a declaration is in when the lookup of its secret gave
/// `found`: `Valid` if and only if the secret exists and has an entry.
pub open spec fn secret_state(found: Option<SecretView>) -> SharedSecretState {
    match found {
        None => SharedSecretState::SecretMissing,
        Some(secret) => match secret.data {
            None => SharedSecretState::SecretInvalid,
            Some(data) => if data.len() == 0 {
                SharedSecretState::SecretInvalid
            } else {
                SharedSecretState::Valid
            },
        },
    }
}

/// The state that a declaration is in when the lookup of its secret gave
/// `found`.
pub fn observed_state(found: &Option<Secret>) -> (state: SharedSecretState)
    ensures
        state == secret_state(found.deep_view()),
        state == SharedSecretState::Valid <==> (found.deep_view() matches Some(secret)
            && secret.data matches Some(data) && data.len() >= 1),
{
    match found {
        None => SharedSecretState::SecretMissing,
        Some(secret) => match &secret.data {
            None => SharedSecretState::SecretInvalid,
            Some(data) => if data.is_empty() {
                SharedSecretState::SecretInvalid
            } else {
                SharedSecretState::Valid
            },
        },
    }
}

impl SharedSecretStatus {
    /// Whether writing `other` over this status would change what is
    /// stored: whether the two differ in their state.
    pub open spec fn spec_update_required(&self, other: &Self) -> bool {
        self.state != other.state
    }

    /// Whether writing `other` over this status would change what is
    /// stored.
    #[verifier::when_used_as_spec(spec_update_required)]
    pub fn update_required(&self, other: &Self) -> (required: bool)
        ensures
            required == self.spec_update_required(other),
    {
        self.state != other.state
    }
}

impl SharedSecretView {
    /// The call that writes `new_status`, or none if the stored status
    /// would not change by it.
    pub open spec fn update_status(self, new_status: SharedSecretStatus) -> Option<ApiRequestView> {
        if self.status matches Some(current) && !current.update_required(&new_status) {
            None
        } else {
            Some(
                ApiRequestView::ApplySharedSecretStatus {
                    namespace: self.metadata.namespace,
                    name: self.metadata.name,
                    status: new_status,
                    field_manager: CONTROLLER_NAME@,
                    force: true,
                },
            )
        }
    }

    /// How a pass ends once `state` has been observed: with the call that
    /// writes it, or at once if it is stored already.
    pub open spec fn settle(self, state: SharedSecretState) -> (SharedSecretApply, StepView) {
        match self.update_status(SharedSecretStatus { state }) {
            Some(call) => (SharedSecretApply::WritingStatus, StepView::Call(call)),
            None => (
                SharedSecretApply::Start,
                StepView::Done(Action::Requeue { seconds: REQUEUE_SECONDS }),
            ),
        }
    }

    /// One step of a pass: what follows when `response` arrives in `state`.
    pub open spec fn apply(self, state: SharedSecretApply, response: ApiResponseView) -> (
        SharedSecretApply,
        StepView,
    ) {
        match state {
            SharedSecretApply::Start => (
                SharedSecretApply::GettingSecret,
                StepView::Call(
                    ApiRequestView::GetSecret {
                        namespace: self.metadata.namespace,
                        name: self.spec.secret_name,
                    },
                ),
            ),
            SharedSecretApply::GettingSecret => match response {
                ApiResponseView::Secret(found) => self.settle(secret_state(found)),
                _ => (SharedSecretApply::Start, StepView::Fail(Error::KubeError)),
            },
            SharedSecretApply::WritingStatus => match response {
                ApiResponseView::Accepted => (
                    SharedSecretApply::Start,
                    StepView::Done(Action::Requeue { seconds: REQUEUE_SECONDS }),
                ),
                _ => (SharedSecretApply::Start, StepView::Fail(Error::KubeError)),
            },
        }
    }

    /// What releasing the resources of a declaration gives: it owns none,
    /// so this succeeds at once.
    pub open spec fn cleanup(self) -> Result<Action, Error> {
        Ok(Action::Requeue { seconds: REQUEUE_SECONDS })
    }
}

impl SharedSecret {
    /// The call that writes `new_status` under this controller's name,
    /// taking the fields over by force; none if the declaration has a
    /// status already and `new_status` does not differ from it.
    pub fn update_status(&self, new_status: SharedSecretStatus) -> (call: Option<ApiRequest>)
        ensures
            call.deep_view() == self@.update_status(new_status),
    {
        if let Some(current) = &self.status {
            if !current.update_required(&new_status) {
                return None;
            }
        }
        Some(
            ApiRequest::ApplySharedSecretStatus {
                namespace: self.metadata.namespace.clone(),
                name: self.metadata.name.clone(),
                status: new_status,
                field_manager: CONTROLLER_NAME.to_owned(),
                force: true,
            },
        )
    }

    /// How a pass ends once `state` has been observed.
    fn settle(&self, state: SharedSecretState) -> (next: (SharedSecretApply, Step))
        ensures
            (next.0, next.1@) == self@.settle(state),
    {
        match self.update_status(SharedSecretStatus { state }) {
            Some(call) => (SharedSecretApply::WritingStatus, Step::Call(call)),
            None => (SharedSecretApply::Start, Step::Done(Action::requeue(REQUEUE_SECONDS))),
        }
    }

    /// One step of a pass that brings the status of the declaration up to
    /// date.
    ///
    /// From `Start` the pass asks for the secret that the declaration names,
    /// in the declaration's namespace, whatever `response` is. The answer
    /// decides the state: `SecretMissing` without a secret, `SecretInvalid`
    /// for one without an entry, `Valid` otherwise. The state is written only
    /// if it differs from the stored one. A pass ends by asking to be run
    /// again after `REQUEUE_SECONDS`, and leaves the state at `Start`. An
    /// answer that does not fit the pending call ends it with `KubeError`.
    pub fn apply(&self, state: SharedSecretApply, response: ApiResponse) -> (next: (
        SharedSecretApply,
        Step,
    ))
        ensures
            (next.0, next.1@) == self@.apply(state, response@),
    {
        match state {
            SharedSecretApply::Start => (
                SharedSecretApply::GettingSecret,
                Step::Call(
                    ApiRequest::GetSecret {
                        namespace: self.metadata.namespace.clone(),
                        name: self.spec.secret_name.clone(),
                    },
                ),
            ),
            SharedSecretApply::GettingSecret => match response {
                ApiResponse::Secret(found) => self.settle(observed_state(&found)),
                _ => (SharedSecretApply::Start, Step::Fail(Error::KubeError)),
            },
            SharedSecretApply::WritingStatus => match response {
                ApiResponse::Accepted => (
                    SharedSecretApply::Start,
                    Step::Done(Action::requeue(REQUEUE_SECONDS)),
                ),
                _ => (SharedSecretApply::Start, Step::Fail(Error::KubeError)),
            },
        }
    }

    /// Releases what the declaration owns before it is deleted: nothing, so
    /// this succeeds at once.
    pub fn cleanup(&self) -> (result: Result<Action, Error>)
        ensures
            result == self@.cleanup(),
    {
        Ok(Action::requeue(REQUEUE_SECONDS))
    }
}

/// Where a pass over a `SharedSecret` under the finalizer protocol stands.
#[derive(Copy, Clone, Debug, PartialEq, Eq, Structural)]
pub struct SharedSecretReconcile {
    pub phase: Phase,
    pub apply: SharedSecretApply,
}

impl SharedSecretReconcile {
    /// The state in which no call is pending.
    pub open spec fn start() -> SharedSecretReconcile {
        SharedSecretReconcile { phase: Phase::Start, apply: SharedSecretApply::Start }
    }

    /// The state in which no call is pending.
    pub fn new() -> (state: SharedSecretReconcile)
        ensures
            state == SharedSecretReconcile::start(),
    {
        SharedSecretReconcile { phase: Phase::Start, apply: SharedSecretApply::Start }
    }
}

impl SharedSecretView {
    /// A step of the reconciler as the protocol passes it on.
    pub open spec fn applying(self, next: (SharedSecretApply, StepView)) -> (
        SharedSecretReconcile,
        StepView,
    ) {
        (SharedSecretReconcile { phase: phase_after(next.1), apply: next.0 }, applied_for(next.1))
    }

    /// One step of a pass under the finalizer protocol: what follows when
    /// `response` arrives in `state`.
    pub open spec fn reconcile(self, state: SharedSecretReconcile, response: ApiResponseView) -> (
        SharedSecretReconcile,
        StepView,
    ) {
        match state.phase {
            Phase::Start => match plan_for(self.metadata, SHARED_SECRET_FINALIZER@) {
                Plan::AddFinalizer => (
                    SharedSecretReconcile {
                        phase: Phase::AddingFinalizer,
                        apply: SharedSecretApply::Start,
                    },
                    StepView::Call(
                        add_request_for(Kind::SharedSecret, self.metadata, SHARED_SECRET_FINALIZER@),
                    ),
                ),
                Plan::Run { event: Finalizer::Apply, index } => self.applying(
                    self.apply(SharedSecretApply::Start, response),
                ),
                Plan::Run { event: Finalizer::Cleanup, index } => {
                    let next = after_cleanup_for(
                        self.cleanup(),
                        remove_request_for(
                            Kind::SharedSecret,
                            self.metadata,
                            SHARED_SECRET_FINALIZER@,
                            index,
                        ),
                    );
                    (SharedSecretReconcile { phase: next.0, apply: SharedSecretApply::Start }, next.1)
                },
                Plan::Nothing => (
                    SharedSecretReconcile::start(),
                    StepView::Done(Action::AwaitChange),
                ),
            },
            Phase::AddingFinalizer => (SharedSecretReconcile::start(), after_adding_for(response)),
            Phase::Applying => self.applying(self.apply(state.apply, response)),
            Phase::RemovingFinalizer { then } => (
                SharedSecretReconcile::start(),
                after_removing_for(response, then),
            ),
        }
    }
}

/// One step of a pass over a `SharedSecret` under the finalizer protocol.
///
/// A pass begins in the state `SharedSecretReconcile::new()`, whatever
/// `response` is, and goes by the declaration's metadata. Without the marker
/// `SHARED_SECRET_FINALIZER`, a declaration that is not being deleted has it
/// added and awaits the change; one that is being deleted is left alone. With
/// the marker, a declaration that is not being deleted is reconciled by
/// `SharedSecret::apply`, a failure of which ends the pass with
/// `ApplyFailed`; one that is being deleted is cleaned up, and only then has
/// the marker removed. Each step hands out the next call or the end of the
/// pass, after which the state is the initial one again.
pub fn reconcile_shared_secret(
    shared_secret: &SharedSecret,
    state: SharedSecretReconcile,
    response: ApiResponse,
) -> (next: (SharedSecretReconcile, Step))
    ensures
        (next.0, next.1@) == shared_secret@.reconcile(state, response@),
{
    match state.phase {
        Phase::Start => {
            let finalizer = SHARED_SECRET_FINALIZER.to_owned();
            match plan(&shared_secret.metadata, &finalizer) {
                Plan::AddFinalizer => (
                    SharedSecretReconcile {
                        phase: Phase::AddingFinalizer,
                        apply: SharedSecretApply::Start,
                    },
                    Step::Call(add_request(Kind::SharedSecret, &shared_secret.metadata, &finalizer)),
                ),
                Plan::Run { event: Finalizer::Apply, index } => {
                    let (apply, step) = shared_secret.apply(SharedSecretApply::Start, response);
                    let (phase, step) = applied(step);
                    (SharedSecretReconcile { phase, apply }, step)
                },
                Plan::Run { event: Finalizer::Cleanup, index } => {
                    let (phase, step) = after_cleanup(
                        shared_secret.cleanup(),
                        remove_request(
                            Kind::SharedSecret,
                            &shared_secret.metadata,
                            &finalizer,
                            index,
                        ),
                    );
                    (SharedSecretReconcile { phase, apply: SharedSecretApply::Start }, step)
                },
                Plan::Nothing => (
                    SharedSecretReconcile::new(),
                    Step::Done(Action::await_change()),
                ),
            }
        },
        Phase::AddingFinalizer => (SharedSecretReconcile::new(), after_adding(&response)),
        Phase::Applying => {
            let (apply, step) = shared_secret.apply(state.apply, response);
            let (phase, step) = applied(step);
            (SharedSecretReconcile { phase, apply }, step)
        },
        Phase::RemovingFinalizer { then } => (
            SharedSecretReconcile::new(),
            after_removing(&response, then),
        ),
    }
}

/// What is to follow a failed pass over a `SharedSecret`: another one after
/// `REQUEUE_SECONDS`, whatever the error.
pub fn shared_secret_error_policy(doc: &SharedSecret, error: &Error) -> (action: Action)
    ensures
        action == (Action::Requeue { seconds: REQUEUE_SECONDS }),
{
    Action::requeue(REQUEUE_SECONDS)
}

} // verus!
