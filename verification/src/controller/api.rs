//! The vocabulary between the reconcilers and the cluster: the calls that a
//! reconciler asks for, the answers it is given, and how a pass ends.

use vstd::prelude::*;
use crate::controller::crd::SharedSecret;
use crate::controller::crd::SharedSecretRequestStatus;
use crate::controller::crd::SharedSecretStatus;
use crate::controller::crd::SharedSecretView;
use crate::controller::secret::data_clone;
use crate::controller::secret::ObjectReference;
use crate::controller::secret::ObjectReferenceView;
use crate::controller::secret::Secret;
use crate::controller::secret::SecretData;
use crate::controller::secret::SecretView;

verus! {

/// What the controller runtime is to do with a resource after a pass.
#[derive(Copy, Clone, Debug, PartialEq, Eq, Structural)]
pub enum Action {
    /// Reconcile again after this many seconds, even if nothing changes.
    Requeue { seconds: u64 },
    /// Reconcile again only when a change is seen.
    AwaitChange,
}

impl Action {
    /// Reconcile again after `seconds`, even if nothing changes.
    pub fn requeue(seconds: u64) -> (action: Action)
        ensures
            action == (Action::Requeue { seconds }),
    {
        Action::Requeue { seconds }
    }

    /// Reconcile again only when a change is seen.
    pub fn await_change() -> (action: Action)
        ensures
            action == Action::AwaitChange,
    {
        Action::AwaitChange
    }
}

/// The step of the finalizer protocol that failed.
#[derive(Copy, Clone, Debug, PartialEq, Eq, Structural)]
pub enum FinalizerError {
    /// The reconciler failed while bringing about the desired state.
    ApplyFailed,
    /// The reconciler failed while releasing what it owns.
    CleanupFailed,
    /// The marker could not be added.
    AddFinalizer,
    /// The marker could not be removed.
    RemoveFinalizer,
}

/// Why a pass ended without an `Action`.
#[derive(Copy, Clone, Debug, PartialEq, Eq, Structural)]
pub enum Error {
    /// A call to the cluster did not give the answer that was asked for.
    KubeError,
    /// A pass under the finalizer protocol failed at the named step.
    FinalizerError(FinalizerError),
}

/// The two kinds of resource that the controller reconciles.
#[derive(Copy, Clone, Debug, PartialEq, Eq, Structural)]
pub enum Kind {
    SharedSecret,
    SharedSecretRequest,
}

/// The severity of an event.
#[derive(Copy, Clone, Debug, PartialEq, Eq, Structural)]
pub enum EventType {
    Normal,
    Warning,
}

/// A notification attached to the resource that caused a side effect.
#[derive(Debug, PartialEq, Eq)]
pub struct Event {
    pub type_: EventType,
    pub reason: String,
    pub note: Option<String>,
    pub action: String,
    pub secondary: Option<ObjectReference>,
}

/// The mathematical view of `Event`, over which contracts are stated.
pub struct EventView {
    pub type_: EventType,
    pub reason: Seq<char>,
    pub note: Option<Seq<char>>,
    pub action: Seq<char>,
    pub secondary: Option<ObjectReferenceView>,
}

impl View for Event {
    type V = EventView;

    open spec fn view(&self) -> EventView {
        EventView {
            type_: self.type_,
            reason: self.reason@,
            note: self.note.deep_view(),
            action: self.action@,
            secondary: self.secondary.deep_view(),
        }
    }
}

impl Clone for Event {
    fn clone(&self) -> (copy: Self)
        ensures
            copy@ == self@,
    {
        Event {
            type_: self.type_,
            reason: self.reason.clone(),
            note: match &self.note {
                Some(note) => Some(note.clone()),
                None => None,
            },
            action: self.action.clone(),
            secondary: match &self.secondary {
                Some(secondary) => Some(secondary.clone()),
                None => None,
            },
        }
    }
}

/// A call to the cluster that a reconciler asks for.
#[allow(inconsistent_fields)]
#[derive(Debug, PartialEq, Eq)]
pub enum ApiRequest {
    /// Read the `SharedSecret` of this name, if there is one.
    GetSharedSecret { namespace: String, name: String },
    /// Read the secret of this name, if there is one.
    GetSecret { namespace: String, name: String },
    /// Create `secret`, the fields of which `field_manager` then owns.
    CreateSecret { secret: Secret, field_manager: String },
    /// Merge `data` into the secret of this name, leaving its other fields.
    PatchSecretData {
        namespace: String,
        name: String,
        data: Option<SecretData>,
        field_manager: String,
    },
    /// Apply `status` to the status of the `SharedSecret` of this name,
    /// with `force` taking its fields over from other managers.
    ApplySharedSecretStatus {
        namespace: String,
        name: String,
        status: SharedSecretStatus,
        field_manager: String,
        force: bool,
    },
    /// Apply `status` to the status of the `SharedSecretRequest` of this
    /// name, with `force` taking its fields over from other managers.
    ApplySharedSecretRequestStatus {
        namespace: String,
        name: String,
        status: SharedSecretRequestStatus,
        field_manager: String,
        force: bool,
    },
    /// Record `event` about the resource `regarding`.
    PublishEvent { regarding: ObjectReference, event: Event },
    /// Append `finalizer` to the finalizers of the resource, provided they
    /// still are `present`.
    AddFinalizer {
        kind: Kind,
        namespace: String,
        name: String,
        present: Vec<String>,
        finalizer: String,
    },
    /// Remove the finalizer at `index` from the resource, provided it still
    /// is `finalizer`.
    RemoveFinalizer { kind: Kind, namespace: String, name: String, index: usize, finalizer: String },
}

/// The mathematical view of `ApiRequest`, over which contracts are stated.
#[allow(inconsistent_fields)]
pub enum ApiRequestView {
    GetSharedSecret { namespace: Seq<char>, name: Seq<char> },
    GetSecret { namespace: Seq<char>, name: Seq<char> },
    CreateSecret { secret: SecretView, field_manager: Seq<char> },
    PatchSecretData {
        namespace: Seq<char>,
        name: Seq<char>,
        data: Option<Map<Seq<char>, Seq<u8>>>,
        field_manager: Seq<char>,
    },
    ApplySharedSecretStatus {
        namespace: Seq<char>,
        name: Seq<char>,
        status: SharedSecretStatus,
        field_manager: Seq<char>,
        force: bool,
    },
    ApplySharedSecretRequestStatus {
        namespace: Seq<char>,
        name: Seq<char>,
        status: SharedSecretRequestStatus,
        field_manager: Seq<char>,
        force: bool,
    },
    PublishEvent { regarding: ObjectReferenceView, event: EventView },
    AddFinalizer {
        kind: Kind,
        namespace: Seq<char>,
        name: Seq<char>,
        present: Seq<Seq<char>>,
        finalizer: Seq<char>,
    },
    RemoveFinalizer {
        kind: Kind,
        namespace: Seq<char>,
        name: Seq<char>,
        index: usize,
        finalizer: Seq<char>,
    },
}

impl View for ApiRequest {
    type V = ApiRequestView;

    open spec fn view(&self) -> ApiRequestView {
        match self {
            ApiRequest::GetSharedSecret { namespace, name } => ApiRequestView::GetSharedSecret {
                namespace: namespace@,
                name: name@,
            },
            ApiRequest::GetSecret { namespace, name } => ApiRequestView::GetSecret {
                namespace: namespace@,
                name: name@,
            },
            ApiRequest::CreateSecret { secret, field_manager } => ApiRequestView::CreateSecret {
                secret: secret@,
                field_manager: field_manager@,
            },
            ApiRequest::PatchSecretData {
                namespace,
                name,
                data,
                field_manager,
            } => ApiRequestView::PatchSecretData {
                namespace: namespace@,
                name: name@,
                data: data.deep_view(),
                field_manager: field_manager@,
            },
            ApiRequest::ApplySharedSecretStatus {
                namespace,
                name,
                status,
                field_manager,
                force,
            } => ApiRequestView::ApplySharedSecretStatus {
                namespace: namespace@,
                name: name@,
                status: *status,
                field_manager: field_manager@,
                force: *force,
            },
            ApiRequest::ApplySharedSecretRequestStatus {
                namespace,
                name,
                status,
                field_manager,
                force,
            } => ApiRequestView::ApplySharedSecretRequestStatus {
                namespace: namespace@,
                name: name@,
                status: *status,
                field_manager: field_manager@,
                force: *force,
            },
            ApiRequest::PublishEvent { regarding, event } => ApiRequestView::PublishEvent {
                regarding: regarding@,
                event: event@,
            },
            ApiRequest::AddFinalizer {
                kind,
                namespace,
                name,
                present,
                finalizer,
            } => ApiRequestView::AddFinalizer {
                kind: *kind,
                namespace: namespace@,
                name: name@,
                present: present.deep_view(),
                finalizer: finalizer@,
            },
            ApiRequest::RemoveFinalizer {
                kind,
                namespace,
                name,
                index,
                finalizer,
            } => ApiRequestView::RemoveFinalizer {
                kind: *kind,
                namespace: namespace@,
                name: name@,
                index: *index,
                finalizer: finalizer@,
            },
        }
    }
}

impl DeepView for ApiRequest {
    type V = ApiRequestView;

    open spec fn deep_view(&self) -> ApiRequestView {
        self@
    }
}

impl Clone for ApiRequest {
    fn clone(&self) -> (copy: Self)
        ensures
            copy@ == self@,
    {
        match self {
            ApiRequest::GetSharedSecret { namespace, name } => ApiRequest::GetSharedSecret {
                namespace: namespace.clone(),
                name: name.clone(),
            },
            ApiRequest::GetSecret { namespace, name } => ApiRequest::GetSecret {
                namespace: namespace.clone(),
                name: name.clone(),
            },
            ApiRequest::CreateSecret { secret, field_manager } => ApiRequest::CreateSecret {
                secret: secret.clone(),
                field_manager: field_manager.clone(),
            },
            ApiRequest::PatchSecretData {
                namespace,
                name,
                data,
                field_manager,
            } => ApiRequest::PatchSecretData {
                namespace: namespace.clone(),
                name: name.clone(),
                data: data_clone(data),
                field_manager: field_manager.clone(),
            },
            ApiRequest::ApplySharedSecretStatus {
                namespace,
                name,
                status,
                field_manager,
                force,
            } => ApiRequest::ApplySharedSecretStatus {
                namespace: namespace.clone(),
                name: name.clone(),
                status: *status,
                field_manager: field_manager.clone(),
                force: *force,
            },
            ApiRequest::ApplySharedSecretRequestStatus {
                namespace,
                name,
                status,
                field_manager,
                force,
            } => ApiRequest::ApplySharedSecretRequestStatus {
                namespace: namespace.clone(),
                name: name.clone(),
                status: *status,
                field_manager: field_manager.clone(),
                force: *force,
            },
            ApiRequest::PublishEvent { regarding, event } => ApiRequest::PublishEvent {
                regarding: regarding.clone(),
                event: event.clone(),
            },
            ApiRequest::AddFinalizer { kind, namespace, name, present, finalizer } => {
                let copied = present.clone();
                ApiRequest::AddFinalizer {
                    kind: *kind,
                    namespace: namespace.clone(),
                    name: name.clone(),
                    present: copied,
                    finalizer: finalizer.clone(),
                }
            },
            ApiRequest::RemoveFinalizer {
                kind,
                namespace,
                name,
                index,
                finalizer,
            } => ApiRequest::RemoveFinalizer {
                kind: *kind,
                namespace: namespace.clone(),
                name: name.clone(),
                index: *index,
                finalizer: finalizer.clone(),
            },
        }
    }
}

impl ApiRequestView {
    /// Whether the call changes what the cluster stores.
    pub open spec fn is_write(self) -> bool {
        !(self is GetSharedSecret || self is GetSecret)
    }
}

impl ApiRequest {
    /// Whether the call changes what the cluster stores.
    pub fn is_write(&self) -> (write: bool)
        ensures
            write == self@.is_write(),
    {
        match self {
            ApiRequest::GetSharedSecret { .. } => false,
            ApiRequest::GetSecret { .. } => false,
            _ => true,
        }
    }
}

/// What a reconciler is handed when it is asked to go on.
#[derive(Debug, PartialEq, Eq)]
pub enum ApiResponse {
    /// Nothing was asked yet: a pass begins.
    Begin,
    /// The answer to `GetSharedSecret`.
    SharedSecret(Option<SharedSecret>),
    /// The answer to `GetSecret`.
    Secret(Option<Secret>),
    /// The answer to `CreateSecret` and `PatchSecretData`: the secret as it
    /// is stored after the call.
    Written(Secret),
    /// The answer to every other call: it was carried out.
    Accepted,
    /// The call failed.
    Failed,
}

/// The mathematical view of `ApiResponse`, over which contracts are stated.
pub enum ApiResponseView {
    Begin,
    SharedSecret(Option<SharedSecretView>),
    Secret(Option<SecretView>),
    Written(SecretView),
    Accepted,
    Failed,
}

impl View for ApiResponse {
    type V = ApiResponseView;

    open spec fn view(&self) -> ApiResponseView {
        match self {
            ApiResponse::Begin => ApiResponseView::Begin,
            ApiResponse::SharedSecret(found) => ApiResponseView::SharedSecret(found.deep_view()),
            ApiResponse::Secret(found) => ApiResponseView::Secret(found.deep_view()),
            ApiResponse::Written(secret) => ApiResponseView::Written(secret@),
            ApiResponse::Accepted => ApiResponseView::Accepted,
            ApiResponse::Failed => ApiResponseView::Failed,
        }
    }
}

impl Clone for ApiResponse {
    fn clone(&self) -> (copy: Self)
        ensures
            copy@ == self@,
    {
        match self {
            ApiResponse::Begin => ApiResponse::Begin,
            ApiResponse::SharedSecret(found) => ApiResponse::SharedSecret(
                match found {
                    Some(shared_secret) => Some(shared_secret.clone()),
                    None => None,
                },
            ),
            ApiResponse::Secret(found) => ApiResponse::Secret(
                match found {
                    Some(secret) => Some(secret.clone()),
                    None => None,
                },
            ),
            ApiResponse::Written(secret) => ApiResponse::Written(secret.clone()),
            ApiResponse::Accepted => ApiResponse::Accepted,
            ApiResponse::Failed => ApiResponse::Failed,
        }
    }
}

/// What a reconciler decides when it is handed an answer.
#[derive(Debug, PartialEq, Eq)]
pub enum Step {
    /// Make this call and hand back its answer.
    Call(ApiRequest),
    /// The pass is over.
    Done(Action),
    /// The pass has failed.
    Fail(Error),
}

/// The mathematical view of `Step`, over which contracts are stated.
pub enum StepView {
    Call(ApiRequestView),
    Done(Action),
    Fail(Error),
}

impl View for Step {
    type V = StepView;

    open spec fn view(&self) -> StepView {
        match self {
            Step::Call(request) => StepView::Call(request@),
            Step::Done(action) => StepView::Done(*action),
            Step::Fail(error) => StepView::Fail(*error),
        }
    }
}

impl Clone for Step {
    fn clone(&self) -> (copy: Self)
        ensures
            copy@ == self@,
    {
        match self {
            Step::Call(request) => Step::Call(request.clone()),
            Step::Done(action) => Step::Done(*action),
            Step::Fail(error) => Step::Fail(*error),
        }
    }
}

} // verus!
