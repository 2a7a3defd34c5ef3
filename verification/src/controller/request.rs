//! The reconciler of `SharedSecretRequest`: it keeps a copy of the requested
//! secret in the request's own namespace and records how far it got.

use vstd::prelude::*;
use crate::controller::API_VERSION;
use crate::controller::CONTROLLER_NAME;
use crate::controller::REQUEUE_SECONDS;
use crate::controller::api::Action;
use crate::controller::api::ApiRequest;
use crate::controller::api::ApiRequestView;
use crate::controller::api::ApiResponse;
use crate::controller::api::ApiResponseView;
use crate::controller::api::Error;
use crate::controller::api::Event;
use crate::controller::api::EventType;
use crate::controller::api::EventView;
use crate::controller::api::Kind;
use crate::controller::api::Step;
use crate::controller::api::StepView;
use crate::controller::clock::now;
use crate::controller::crd::SharedSecretRequest;
use crate::controller::crd::SharedSecretRequestState;
use crate::controller::crd::SharedSecretRequestStatus;
use crate::controller::crd::SharedSecretRequestView;
use crate::controller::crd::SharedSecretState;
use crate::controller::crd::Timestamp;
use crate::controller::finalizer::add_request;
use crate::controller::finalizer::add_request_for;
use crate::controller::finalizer::after_adding;
use crate::controller::finalizer::after_adding_for;
use crate::controller::finalizer::after_cleanup;
use crate::controller::finalizer::after_cleanup_for;
use crate::controller::finalizer::after_removing;
use crate::controller::finalizer::after_removing_for;
use crate::controller::finalizer::applied;
use crate::controller::finalizer::applied_for;
use crate::controller::finalizer::Finalizer;
use crate::controller::finalizer::Phase;
use crate::controller::finalizer::phase_after;
use crate::controller::finalizer::plan;
use crate::controller::finalizer::Plan;
use crate::controller::finalizer::plan_for;
use crate::controller::finalizer::remove_request;
use crate::controller::finalizer::remove_request_for;
use crate::controller::secret::data_clone;
use crate::controller::secret::data_eq;
use crate::controller::secret::ObjectReference;
use crate::controller::secret::ObjectReferenceView;
use crate::controller::secret::OwnerReference;
use crate::controller::secret::OwnerReferenceView;
use crate::controller::secret::Secret;
use crate::controller::secret::SecretData;
use crate::controller::secret::SecretView;

verus! {

/// The marker that keeps a `SharedSecretRequest` from being deleted before
/// its cleanup has run.
pub const SHARED_SECRET_REQUEST_FINALIZER: &'static str =
    "sharedsecretctl.klauser.link/shared-secret-request";

/// The kind under which a `SharedSecretRequest` is stored.
pub const SHARED_SECRET_REQUEST_KIND: &'static str = "SharedSecretRequest";

/// Where a pass over a `SharedSecretRequest` stands: the call whose answer it
/// waits for, and what it has to remember of the answers before.
#[derive(Debug, PartialEq, Eq)]
pub enum SharedSecretRequestApply {
    /// No call is pending: the next step begins a pass.
    Start,
    /// The requested `SharedSecret` was asked for.
    GettingSharedSecret,
    /// The secret that the `SharedSecret` publishes was asked for.
    GettingRemoteSecret,
    /// The copy was asked for; `data` is what the published secret holds.
    GettingLocalSecret { data: Option<SecretData> },
    /// The copy was sent to be created.
    CreatingLocalSecret,
    /// The copy was sent to be brought up to date.
    UpdatingLocalSecret,
    /// The event about the written copy was sent.
    PublishingEvent,
    /// The new status was sent.
    WritingStatus,
}

/// The mathematical view of `SharedSecretRequestApply`, over which contracts are stated.
pub enum SharedSecretRequestApplyView {
    Start,
    GettingSharedSecret,
    GettingRemoteSecret,
    GettingLocalSecret { data: Option<Map<Seq<char>, Seq<u8>>> },
    CreatingLocalSecret,
    UpdatingLocalSecret,
    PublishingEvent,
    WritingStatus,
}

impl View for SharedSecretRequestApply {
    type V = SharedSecretRequestApplyView;

    open spec fn view(&self) -> SharedSecretRequestApplyView {
        match self {
            SharedSecretRequestApply::Start => {
                SharedSecretRequestApplyView::Start
            },
            SharedSecretRequestApply::GettingSharedSecret => {
                SharedSecretRequestApplyView::GettingSharedSecret
            },
            SharedSecretRequestApply::GettingRemoteSecret => {
                SharedSecretRequestApplyView::GettingRemoteSecret
            },
            SharedSecretRequestApply::GettingLocalSecret {
                data,
            } => SharedSecretRequestApplyView::GettingLocalSecret { data: data.deep_view() },
            SharedSecretRequestApply::CreatingLocalSecret => {
                SharedSecretRequestApplyView::CreatingLocalSecret
            },
            SharedSecretRequestApply::UpdatingLocalSecret => {
                SharedSecretRequestApplyView::UpdatingLocalSecret
            },
            SharedSecretRequestApply::PublishingEvent => {
                SharedSecretRequestApplyView::PublishingEvent
            },
            SharedSecretRequestApply::WritingStatus => {
                SharedSecretRequestApplyView::WritingStatus
            },
        }
    }
}

impl Clone for SharedSecretRequestApply {
    fn clone(&self) -> (copy: Self)
        ensures
            copy@ == self@,
    {
        match self {
            SharedSecretRequestApply::Start => {
                SharedSecretRequestApply::Start
            },
            SharedSecretRequestApply::GettingSharedSecret => {
                SharedSecretRequestApply::GettingSharedSecret
            },
            SharedSecretRequestApply::GettingRemoteSecret => {
                SharedSecretRequestApply::GettingRemoteSecret
            },
            SharedSecretRequestApply::GettingLocalSecret {
                data,
            } => SharedSecretRequestApply::GettingLocalSecret { data: data_clone(data) },
            SharedSecretRequestApply::CreatingLocalSecret => {
                SharedSecretRequestApply::CreatingLocalSecret
            },
            SharedSecretRequestApply::UpdatingLocalSecret => {
                SharedSecretRequestApply::UpdatingLocalSecret
            },
            SharedSecretRequestApply::PublishingEvent => {
                SharedSecretRequestApply::PublishingEvent
            },
            SharedSecretRequestApply::WritingStatus => {
                SharedSecretRequestApply::WritingStatus
            },
        }
    }
}

impl SharedSecretRequestStatus {
    /// Whether writing `other` over this status would change what is
    /// stored: whether the two differ in their state. The time of the
    /// last change does not count.
    pub open spec fn spec_update_required(&self, other: &Self) -> bool {
        self.state != other.state
    }

    /// Whether writing `other` over this status would change what is
    /// stored.
    #[verifier::when_used_as_spec(spec_update_required)]
    pub fn update_required(&self, other: &Self) -> (required: bool)
        ensures
            required == self.spec_update_required(other),
    {
        self.state != other.state
    }
}

/// The event that tells of a copy that was created.
pub open spec fn creating_event(created: SecretView) -> EventView {
    EventView {
        type_: EventType::Normal,
        reason: "LocalSecretMissing"@,
        note: None,
        action: "Creating"@,
        secondary: Some(created.object_ref()),
    }
}

/// The event that tells of a copy that was brought up to date.
pub open spec fn updating_event(updated: SecretView) -> EventView {
    EventView {
        type_: EventType::Normal,
        reason: "LocalSecretOutdated"@,
        note: None,
        action: "Updating"@,
        secondary: Some(updated.object_ref()),
    }
}

impl SharedSecretRequestView {
    /// The name of the copy: the one that the request gives, or else the
    /// request's own.
    pub open spec fn local_secret_name(self) -> Seq<char> {
        match self.spec.local_secret_name {
            Some(name) => name,
            None => self.metadata.name,
        }
    }

    /// The reference by which an event points at the request.
    pub open spec fn object_ref(self) -> ObjectReferenceView {
        ObjectReferenceView {
            api_version: API_VERSION@,
            kind: SHARED_SECRET_REQUEST_KIND@,
            namespace: self.metadata.namespace,
            name: self.metadata.name,
            uid: Some(self.metadata.uid),
        }
    }

    /// The reference that makes the request the owner of its copy.
    pub open spec fn owner_reference(self) -> OwnerReferenceView {
        OwnerReferenceView {
            api_version: API_VERSION@,
            kind: SHARED_SECRET_REQUEST_KIND@,
            name: self.metadata.name,
            uid: self.metadata.uid,
        }
    }

    /// The copy as it is created: in the request's namespace, owned by the
    /// request, with the published `data`.
    pub open spec fn local_secret(self, data: Option<Map<Seq<char>, Seq<u8>>>) -> SecretView {
        SecretView {
            namespace: self.metadata.namespace,
            name: self.local_secret_name(),
            uid: None,
            owner_references: seq![self.owner_reference()],
            data,
        }
    }

    /// The call that writes `new_status`, or none if the stored status
    /// would not change by it.
    pub open spec fn update_status(self, new_status: SharedSecretRequestStatus) -> Option<
        ApiRequestView,
    > {
        if self.status matches Some(current) && !current.update_required(&new_status) {
            None
        } else {
            Some(
                ApiRequestView::ApplySharedSecretRequestStatus {
                    namespace: self.metadata.namespace,
                    name: self.metadata.name,
                    status: new_status,
                    field_manager: CONTROLLER_NAME@,
                    force: true,
                },
            )
        }
    }

    /// How a pass ends once `state` has been reached at the time `now`:
    /// with the call that writes it, or at once if it is stored already.
    pub open spec fn settle(self, state: SharedSecretRequestState, now: Timestamp) -> (
        SharedSecretRequestApplyView,
        StepView,
    ) {
        match self.update_status(SharedSecretRequestStatus { state, last_updated_at: Some(now) }) {
            Some(call) => (SharedSecretRequestApplyView::WritingStatus, StepView::Call(call)),
            None => (
                SharedSecretRequestApplyView::Start,
                StepView::Done(Action::Requeue { seconds: REQUEUE_SECONDS }),
            ),
        }
    }

    /// One step of a pass: what follows when `response` arrives in `state`
    /// at the time `now`.
    pub open spec fn apply(
        self,
        state: SharedSecretRequestApplyView,
        response: ApiResponseView,
        now: Timestamp,
    ) -> (SharedSecretRequestApplyView, StepView) {
        let failed = (SharedSecretRequestApplyView::Start, StepView::Fail(Error::KubeError));
        match state {
            SharedSecretRequestApplyView::Start => (
                SharedSecretRequestApplyView::GettingSharedSecret,
                StepView::Call(
                    ApiRequestView::GetSharedSecret {
                        namespace: self.spec.shared_secret.namespace,
                        name: self.spec.shared_secret.name,
                    },
                ),
            ),
            SharedSecretRequestApplyView::GettingSharedSecret => match response {
                ApiResponseView::SharedSecret(None) => self.settle(
                    SharedSecretRequestState::SharedSecretMissing,
                    now,
                ),
                ApiResponseView::SharedSecret(Some(shared_secret)) => if shared_secret.status
                    matches Some(status) && status.state == SharedSecretState::Valid {
                    (
                        SharedSecretRequestApplyView::GettingRemoteSecret,
                        StepView::Call(
                            ApiRequestView::GetSecret {
                                namespace: self.spec.shared_secret.namespace,
                                name: shared_secret.spec.secret_name,
                            },
                        ),
                    )
                } else {
                    self.settle(SharedSecretRequestState::SharedSecretInvalid, now)
                },
                _ => failed,
            },
            SharedSecretRequestApplyView::GettingRemoteSecret => match response {
                ApiResponseView::Secret(None) => self.settle(
                    SharedSecretRequestState::SharedSecretInvalid,
                    now,
                ),
                ApiResponseView::Secret(Some(remote)) => (
                    SharedSecretRequestApplyView::GettingLocalSecret { data: remote.data },
                    StepView::Call(
                        ApiRequestView::GetSecret {
                            namespace: self.metadata.namespace,
                            name: self.local_secret_name(),
                        },
                    ),
                ),
                _ => failed,
            },
            SharedSecretRequestApplyView::GettingLocalSecret { data } => match response {
                ApiResponseView::Secret(None) => (
                    SharedSecretRequestApplyView::CreatingLocalSecret,
                    StepView::Call(
                        ApiRequestView::CreateSecret {
                            secret: self.local_secret(data),
                            field_manager: CONTROLLER_NAME@,
                        },
                    ),
                ),
                ApiResponseView::Secret(Some(local)) => if local.data != data {
                    (
                        SharedSecretRequestApplyView::UpdatingLocalSecret,
                        StepView::Call(
                            ApiRequestView::PatchSecretData {
                                namespace: self.metadata.namespace,
                                name: self.local_secret_name(),
                                data,
                                field_manager: CONTROLLER_NAME@,
                            },
                        ),
                    )
                } else {
                    self.settle(SharedSecretRequestState::Synchronized, now)
                },
                _ => failed,
            },
            SharedSecretRequestApplyView::CreatingLocalSecret => match response {
                ApiResponseView::Written(created) => (
                    SharedSecretRequestApplyView::PublishingEvent,
                    StepView::Call(
                        ApiRequestView::PublishEvent {
                            regarding: self.object_ref(),
                            event: creating_event(created),
                        },
                    ),
                ),
                _ => failed,
            },
            SharedSecretRequestApplyView::UpdatingLocalSecret => match response {
                ApiResponseView::Written(updated) => (
                    SharedSecretRequestApplyView::PublishingEvent,
                    StepView::Call(
                        ApiRequestView::PublishEvent {
                            regarding: self.object_ref(),
                            event: updating_event(updated),
                        },
                    ),
                ),
                _ => failed,
            },
            SharedSecretRequestApplyView::PublishingEvent => match response {
                ApiResponseView::Accepted => self.settle(SharedSecretRequestState::Synchronized, now),
                _ => failed,
            },
            SharedSecretRequestApplyView::WritingStatus => match response {
                ApiResponseView::Accepted => (
                    SharedSecretRequestApplyView::Start,
                    StepView::Done(Action::Requeue { seconds: REQUEUE_SECONDS }),
                ),
                _ => failed,
            },
        }
    }

    /// What releasing the resources of a request gives: the copy goes with
    /// its owner, so nothing is done and the request is looked at again
    /// later.
    pub open spec fn cleanup(self) -> Result<Action, Error> {
        Ok(Action::Requeue { seconds: REQUEUE_SECONDS })
    }
}

impl SharedSecretRequest {
    /// The name of the copy: the one that the request gives, or else the
    /// request's own.
    pub fn local_secret_name(&self) -> (name: String)
        ensures
            name@ == self@.local_secret_name(),
    {
        match &self.spec.local_secret_name {
            Some(name) => name.clone(),
            None => self.metadata.name.clone(),
        }
    }

    /// The reference by which an event points at the request.
    pub fn object_ref(&self) -> (reference: ObjectReference)
        ensures
            reference@ == self@.object_ref(),
    {
        ObjectReference {
            api_version: API_VERSION.to_owned(),
            kind: SHARED_SECRET_REQUEST_KIND.to_owned(),
            namespace: self.metadata.namespace.clone(),
            name: self.metadata.name.clone(),
            uid: Some(self.metadata.uid.clone()),
        }
    }

    /// The reference that makes the request the owner of its copy.
    pub fn owner_reference(&self) -> (owner: OwnerReference)
        ensures
            owner@ == self@.owner_reference(),
    {
        OwnerReference {
            api_version: API_VERSION.to_owned(),
            kind: SHARED_SECRET_REQUEST_KIND.to_owned(),
            name: self.metadata.name.clone(),
            uid: self.metadata.uid.clone(),
        }
    }

    /// The copy as it is created: in the request's namespace, owned by the
    /// request, with the published `data`.
    pub fn local_secret(&self, data: Option<SecretData>) -> (secret: Secret)
        ensures
            secret@ == self@.local_secret(data.deep_view()),
    {
        let mut owner_references: Vec<OwnerReference> = Vec::new();
        owner_references.push(self.owner_reference());
        assert(owner_references.deep_view() =~= seq![self@.owner_reference()]);
        Secret {
            namespace: self.metadata.namespace.clone(),
            name: self.local_secret_name(),
            uid: None,
            owner_references,
            data,
        }
    }

    /// The call that writes `new_status` under this controller's name,
    /// taking the fields over by force; none if the request has a status
    /// already and `new_status` does not differ from it in its state.
    pub fn update_status(&self, new_status: SharedSecretRequestStatus) -> (call: Option<ApiRequest>)
        ensures
            call.deep_view() == self@.update_status(new_status),
    {
        if let Some(current) = &self.status {
            if !current.update_required(&new_status) {
                return None;
            }
        }
        Some(
            ApiRequest::ApplySharedSecretRequestStatus {
                namespace: self.metadata.namespace.clone(),
                name: self.metadata.name.clone(),
                status: new_status,
                field_manager: CONTROLLER_NAME.to_owned(),
                force: true,
            },
        )
    }

    /// How a pass ends once `state` has been reached at the time `now`.
    fn settle(&self, state: SharedSecretRequestState, now: Timestamp) -> (next: (
        SharedSecretRequestApply,
        Step,
    ))
        ensures
            (next.0@, next.1@) == self@.settle(state, now),
    {
        match self.update_status(SharedSecretRequestStatus { state, last_updated_at: Some(now) }) {
            Some(call) => (SharedSecretRequestApply::WritingStatus, Step::Call(call)),
            None => (SharedSecretRequestApply::Start, Step::Done(Action::requeue(REQUEUE_SECONDS))),
        }
    }

    /// One step of a pass that brings the copy and the status of the
    /// request up to date, a status that it writes being dated `now`.
    ///
    /// The pass asks, in this order, for the requested `SharedSecret`, for
    /// the secret that it publishes, and for the copy in the request's own
    /// namespace. Without the `SharedSecret` the state is
    /// `SharedSecretMissing`; with one that is not `Valid`, or without the
    /// published secret, it is `SharedSecretInvalid`; in these cases nothing
    /// is written but the status. A missing copy is created, owned by the
    /// request and with the published data; a copy with other data has the
    /// published data merged in; each of the two is followed by an event. A
    /// copy with the same data is left alone. Then the state is
    /// `Synchronized`. A state is written only if it differs from the stored
    /// one. A pass ends by asking to be run again after `REQUEUE_SECONDS`,
    /// and leaves the state at `Start`. An answer that does not fit the
    /// pending call ends it with `KubeError`.
    pub fn apply_at(
        &self,
        state: SharedSecretRequestApply,
        response: ApiResponse,
        now: Timestamp,
    ) -> (next: (SharedSecretRequestApply, Step))
        ensures
            (next.0@, next.1@) == self@.apply(state@, response@, now),
    {
        match state {
            SharedSecretRequestApply::Start => (
                SharedSecretRequestApply::GettingSharedSecret,
                Step::Call(
                    ApiRequest::GetSharedSecret {
                        namespace: self.spec.shared_secret.namespace.clone(),
                        name: self.spec.shared_secret.name.clone(),
                    },
                ),
            ),
            SharedSecretRequestApply::GettingSharedSecret => match response {
                ApiResponse::SharedSecret(None) => self.settle(
                    SharedSecretRequestState::SharedSecretMissing,
                    now,
                ),
                ApiResponse::SharedSecret(Some(shared_secret)) => {
                    let valid = match &shared_secret.status {
                        Some(status) => status.state == SharedSecretState::Valid,
                        None => false,
                    };
                    if valid {
                        (
                            SharedSecretRequestApply::GettingRemoteSecret,
                            Step::Call(
                                ApiRequest::GetSecret {
                                    namespace: self.spec.shared_secret.namespace.clone(),
                                    name: shared_secret.spec.secret_name,
                                },
                            ),
                        )
                    } else {
                        self.settle(SharedSecretRequestState::SharedSecretInvalid, now)
                    }
                },
                _ => (SharedSecretRequestApply::Start, Step::Fail(Error::KubeError)),
            },
            SharedSecretRequestApply::GettingRemoteSecret => match response {
                ApiResponse::Secret(None) => self.settle(
                    SharedSecretRequestState::SharedSecretInvalid,
                    now,
                ),
                ApiResponse::Secret(Some(remote)) => (
                    SharedSecretRequestApply::GettingLocalSecret { data: remote.data },
                    Step::Call(
                        ApiRequest::GetSecret {
                            namespace: self.metadata.namespace.clone(),
                            name: self.local_secret_name(),
                        },
                    ),
                ),
                _ => (SharedSecretRequestApply::Start, Step::Fail(Error::KubeError)),
            },
            SharedSecretRequestApply::GettingLocalSecret { data } => match response {
                ApiResponse::Secret(None) => (
                    SharedSecretRequestApply::CreatingLocalSecret,
                    Step::Call(
                        ApiRequest::CreateSecret {
                            secret: self.local_secret(data),
                            field_manager: CONTROLLER_NAME.to_owned(),
                        },
                    ),
                ),
                ApiResponse::Secret(Some(local)) => if !data_eq(&local.data, &data) {
                    (
                        SharedSecretRequestApply::UpdatingLocalSecret,
                        Step::Call(
                            ApiRequest::PatchSecretData {
                                namespace: self.metadata.namespace.clone(),
                                name: self.local_secret_name(),
                                data,
                                field_manager: CONTROLLER_NAME.to_owned(),
                            },
                        ),
                    )
                } else {
                    self.settle(SharedSecretRequestState::Synchronized, now)
                },
                _ => (SharedSecretRequestApply::Start, Step::Fail(Error::KubeError)),
            },
            SharedSecretRequestApply::CreatingLocalSecret => match response {
                ApiResponse::Written(created) => (
                    SharedSecretRequestApply::PublishingEvent,
                    Step::Call(
                        ApiRequest::PublishEvent {
                            regarding: self.object_ref(),
                            event: Event {
                                type_: EventType::Normal,
                                reason: "LocalSecretMissing".to_owned(),
                                note: None,
                                action: "Creating".to_owned(),
                                secondary: Some(created.object_ref()),
                            },
                        },
                    ),
                ),
                _ => (SharedSecretRequestApply::Start, Step::Fail(Error::KubeError)),
            },
            SharedSecretRequestApply::UpdatingLocalSecret => match response {
                ApiResponse::Written(updated) => (
                    SharedSecretRequestApply::PublishingEvent,
                    Step::Call(
                        ApiRequest::PublishEvent {
                            regarding: self.object_ref(),
                            event: Event {
                                type_: EventType::Normal,
                                reason: "LocalSecretOutdated".to_owned(),
                                note: None,
                                action: "Updating".to_owned(),
                                secondary: Some(updated.object_ref()),
                            },
                        },
                    ),
                ),
                _ => (SharedSecretRequestApply::Start, Step::Fail(Error::KubeError)),
            },
            SharedSecretRequestApply::PublishingEvent => match response {
                ApiResponse::Accepted => self.settle(SharedSecretRequestState::Synchronized, now),
                _ => (SharedSecretRequestApply::Start, Step::Fail(Error::KubeError)),
            },
            SharedSecretRequestApply::WritingStatus => match response {
                ApiResponse::Accepted => (
                    SharedSecretRequestApply::Start,
                    Step::Done(Action::requeue(REQUEUE_SECONDS)),
                ),
                _ => (SharedSecretRequestApply::Start, Step::Fail(Error::KubeError)),
            },
        }
    }

    /// One step of a pass, as `apply_at` takes it at the time that the
    /// clock shows.
    pub fn apply(&self, state: SharedSecretRequestApply, response: ApiResponse) -> (next: (
        SharedSecretRequestApply,
        Step,
    ))
        ensures
            exists|now: Timestamp| (next.0@, next.1@) == #[trigger] self@.apply(state@, response@, now),
    {
        let now = now();
        self.apply_at(state, response, now)
    }

    /// Releases what the request owns before it is deleted. The copy goes
    /// with its owner, so nothing is done and the request is looked at
    /// again after `REQUEUE_SECONDS`.
    pub fn cleanup(&self) -> (result: Result<Action, Error>)
        ensures
            result == self@.cleanup(),
    {
        Ok(Action::requeue(REQUEUE_SECONDS))
    }
}

/// Where a pass over a `SharedSecretRequest` under the finalizer protocol
/// stands.
#[derive(Debug, PartialEq, Eq)]
pub struct SharedSecretRequestReconcile {
    pub phase: Phase,
    pub apply: SharedSecretRequestApply,
}

/// The mathematical view of `SharedSecretRequestReconcile`, over which contracts are stated.
pub struct SharedSecretRequestReconcileView {
    pub phase: Phase,
    pub apply: SharedSecretRequestApplyView,
}

impl View for SharedSecretRequestReconcile {
    type V = SharedSecretRequestReconcileView;

    open spec fn view(&self) -> SharedSecretRequestReconcileView {
        SharedSecretRequestReconcileView { phase: self.phase, apply: self.apply@ }
    }
}

impl Clone for SharedSecretRequestReconcile {
    fn clone(&self) -> (copy: Self)
        ensures
            copy@ == self@,
    {
        SharedSecretRequestReconcile { phase: self.phase, apply: self.apply.clone() }
    }
}

impl SharedSecretRequestReconcileView {
    /// The state in which no call is pending.
    pub open spec fn start() -> SharedSecretRequestReconcileView {
        SharedSecretRequestReconcileView {
            phase: Phase::Start,
            apply: SharedSecretRequestApplyView::Start,
        }
    }
}

impl SharedSecretRequestReconcile {
    /// The state in which no call is pending.
    pub fn new() -> (state: SharedSecretRequestReconcile)
        ensures
            state@ == SharedSecretRequestReconcileView::start(),
    {
        SharedSecretRequestReconcile { phase: Phase::Start, apply: SharedSecretRequestApply::Start }
    }
}

impl SharedSecretRequestView {
    /// A step of the reconciler as the protocol passes it on.
    pub open spec fn applying(self, next: (SharedSecretRequestApplyView, StepView)) -> (
        SharedSecretRequestReconcileView,
        StepView,
    ) {
        (
            SharedSecretRequestReconcileView { phase: phase_after(next.1), apply: next.0 },
            applied_for(next.1),
        )
    }

    /// One step of a pass under the finalizer protocol: what follows when
    /// `response` arrives in `state` at the time `now`.
    pub open spec fn reconcile(
        self,
        state: SharedSecretRequestReconcileView,
        response: ApiResponseView,
        now: Timestamp,
    ) -> (SharedSecretRequestReconcileView, StepView) {
        match state.phase {
            Phase::Start => match plan_for(self.metadata, SHARED_SECRET_REQUEST_FINALIZER@) {
                Plan::AddFinalizer => (
                    SharedSecretRequestReconcileView {
                        phase: Phase::AddingFinalizer,
                        apply: SharedSecretRequestApplyView::Start,
                    },
                    StepView::Call(
                        add_request_for(
                            Kind::SharedSecretRequest,
                            self.metadata,
                            SHARED_SECRET_REQUEST_FINALIZER@,
                        ),
                    ),
                ),
                Plan::Run { event: Finalizer::Apply, index } => self.applying(
                    self.apply(SharedSecretRequestApplyView::Start, response, now),
                ),
                Plan::Run { event: Finalizer::Cleanup, index } => {
                    let next = after_cleanup_for(
                        self.cleanup(),
                        remove_request_for(
                            Kind::SharedSecretRequest,
                            self.metadata,
                            SHARED_SECRET_REQUEST_FINALIZER@,
                            index,
                        ),
                    );
                    (
                        SharedSecretRequestReconcileView {
                            phase: next.0,
                            apply: SharedSecretRequestApplyView::Start,
                        },
                        next.1,
                    )
                },
                Plan::Nothing => (
                    SharedSecretRequestReconcileView::start(),
                    StepView::Done(Action::AwaitChange),
                ),
            },
            Phase::AddingFinalizer => (
                SharedSecretRequestReconcileView::start(),
                after_adding_for(response),
            ),
            Phase::Applying => self.applying(self.apply(state.apply, response, now)),
            Phase::RemovingFinalizer { then } => (
                SharedSecretRequestReconcileView::start(),
                after_removing_for(response, then),
            ),
        }
    }
}

/// One step of a pass over a `SharedSecretRequest` under the finalizer
/// protocol, a status that it writes being dated `now`.
///
/// A pass begins in the state `SharedSecretRequestReconcile::new()`,
/// whatever `response` is, and goes by the request's metadata. Without the
/// marker `SHARED_SECRET_REQUEST_FINALIZER`, a request that is not being
/// deleted has it added and awaits the change; one that is being deleted is
/// left alone. With the marker, a request that is not being deleted is
/// reconciled by `SharedSecretRequest::apply_at`, a failure of which ends the
/// pass with `ApplyFailed`; one that is being deleted is cleaned up, and only
/// then has the marker removed. Each step hands out the next call or the end
/// of the pass, after which the state is the initial one again.
pub fn reconcile_shared_secret_request_at(
    shared_secret_request: &SharedSecretRequest,
    state: SharedSecretRequestReconcile,
    response: ApiResponse,
    now: Timestamp,
) -> (next: (SharedSecretRequestReconcile, Step))
    ensures
        (next.0@, next.1@) == shared_secret_request@.reconcile(state@, response@, now),
{
    match state.phase {
        Phase::Start => {
            let finalizer = SHARED_SECRET_REQUEST_FINALIZER.to_owned();
            match plan(&shared_secret_request.metadata, &finalizer) {
                Plan::AddFinalizer => (
                    SharedSecretRequestReconcile {
                        phase: Phase::AddingFinalizer,
                        apply: SharedSecretRequestApply::Start,
                    },
                    Step::Call(
                        add_request(
                            Kind::SharedSecretRequest,
                            &shared_secret_request.metadata,
                            &finalizer,
                        ),
                    ),
                ),
                Plan::Run { event: Finalizer::Apply, index } => {
                    let (apply, step) = shared_secret_request.apply_at(
                        SharedSecretRequestApply::Start,
                        response,
                        now,
                    );
                    let (phase, step) = applied(step);
                    (SharedSecretRequestReconcile { phase, apply }, step)
                },
                Plan::Run { event: Finalizer::Cleanup, index } => {
                    let (phase, step) = after_cleanup(
                        shared_secret_request.cleanup(),
                        remove_request(
                            Kind::SharedSecretRequest,
                            &shared_secret_request.metadata,
                            &finalizer,
                            index,
                        ),
                    );
                    (
                        SharedSecretRequestReconcile {
                            phase,
                            apply: SharedSecretRequestApply::Start,
                        },
                        step,
                    )
                },
                Plan::Nothing => (
                    SharedSecretRequestReconcile::new(),
                    Step::Done(Action::await_change()),
                ),
            }
        },
        Phase::AddingFinalizer => (SharedSecretRequestReconcile::new(), after_adding(&response)),
        Phase::Applying => {
            let (apply, step) = shared_secret_request.apply_at(state.apply, response, now);
            let (phase, step) = applied(step);
            (SharedSecretRequestReconcile { phase, apply }, step)
        },
        Phase::RemovingFinalizer { then } => (
            SharedSecretRequestReconcile::new(),
            after_removing(&response, then),
        ),
    }
}

/// One step of a pass over a `SharedSecretRequest` under the finalizer
/// protocol, as `reconcile_shared_secret_request_at` takes it at the time
/// that the clock shows.
pub fn reconcile_shared_secret_request(
    shared_secret_request: &SharedSecretRequest,
    state: SharedSecretRequestReconcile,
    response: ApiResponse,
) -> (next: (SharedSecretRequestReconcile, Step))
    ensures
        exists|now: Timestamp|
            (next.0@, next.1@) == #[trigger] shared_secret_request@.reconcile(
                state@,
                response@,
                now,
            ),
{
    let now = now();
    reconcile_shared_secret_request_at(shared_secret_request, state, response, now)
}

/// What is to follow a failed pass over a `SharedSecretRequest`: another
/// one after `REQUEUE_SECONDS`, whatever the error.
pub fn shared_secret_request_error_policy(doc: &SharedSecretRequest, error: &Error) -> (action:
    Action)
    ensures
        action == (Action::Requeue { seconds: REQUEUE_SECONDS }),
{
    Action::requeue(REQUEUE_SECONDS)
}

} // verus!
