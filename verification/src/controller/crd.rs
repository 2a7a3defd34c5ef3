//! The resources that the controller watches and writes.

use vstd::prelude::*;

verus! {

/// A point in time: whole seconds since the Unix epoch and the nanoseconds
/// after them.
#[derive(Copy, Clone, Debug, PartialEq, Eq, Structural)]
pub struct Timestamp {
    pub seconds: i64,
    pub nanoseconds: u32,
}

/// What every stored resource carries besides its own fields.
#[derive(Debug, PartialEq, Eq)]
pub struct ObjectMeta {
    pub namespace: String,
    pub name: String,
    pub uid: String,
    pub finalizers: Vec<String>,
    pub deletion_timestamp: Option<Timestamp>,
}

/// The mathematical view of `ObjectMeta`, over which contracts are stated.
pub struct ObjectMetaView {
    pub namespace: Seq<char>,
    pub name: Seq<char>,
    pub uid: Seq<char>,
    pub finalizers: Seq<Seq<char>>,
    pub deletion_timestamp: Option<Timestamp>,
}

impl View for ObjectMeta {
    type V = ObjectMetaView;

    open spec fn view(&self) -> ObjectMetaView {
        ObjectMetaView {
            namespace: self.namespace@,
            name: self.name@,
            uid: self.uid@,
            finalizers: self.finalizers.deep_view(),
            deletion_timestamp: self.deletion_timestamp,
        }
    }
}

impl Clone for ObjectMeta {
    fn clone(&self) -> (copy: Self)
        ensures
            copy@ == self@,
    {
        let finalizers = self.finalizers.clone();
        ObjectMeta {
            namespace: self.namespace.clone(),
            name: self.name.clone(),
            uid: self.uid.clone(),
            finalizers,
            deletion_timestamp: self.deletion_timestamp,
        }
    }
}

/// What a `SharedSecret` declares: the secret of its own namespace that it
/// publishes.
#[derive(Debug, PartialEq, Eq)]
pub struct SharedSecretSpec {
    pub secret_name: String,
}

/// The mathematical view of `SharedSecretSpec`, over which contracts are stated.
pub struct SharedSecretSpecView {
    pub secret_name: Seq<char>,
}

impl View for SharedSecretSpec {
    type V = SharedSecretSpecView;

    open spec fn view(&self) -> SharedSecretSpecView {
        SharedSecretSpecView { secret_name: self.secret_name@ }
    }
}

impl Clone for SharedSecretSpec {
    fn clone(&self) -> (copy: Self)
        ensures
            copy@ == self@,
    {
        SharedSecretSpec { secret_name: self.secret_name.clone() }
    }
}

/// How far a `SharedSecret` is from being usable.
#[derive(Copy, Clone, Debug, PartialEq, Eq, Structural)]
pub enum SharedSecretState {
    Uninitialized,
    SecretMissing,
    SecretInvalid,
    Valid,
}

impl Default for SharedSecretState {
    fn default() -> (state: Self)
        ensures
            state == SharedSecretState::Uninitialized,
    {
        SharedSecretState::Uninitialized
    }
}

/// The observed condition of a `SharedSecret`.
#[derive(Copy, Clone, Debug, PartialEq, Eq, Structural)]
pub struct SharedSecretStatus {
    pub state: SharedSecretState,
}

impl Default for SharedSecretStatus {
    fn default() -> (status: Self)
        ensures
            status.state == SharedSecretState::Uninitialized,
    {
        SharedSecretStatus { state: SharedSecretState::Uninitialized }
    }
}

/// A declaration that publishes one secret of its namespace.
#[derive(Debug, PartialEq, Eq)]
pub struct SharedSecret {
    pub metadata: ObjectMeta,
    pub spec: SharedSecretSpec,
    pub status: Option<SharedSecretStatus>,
}

/// The mathematical view of `SharedSecret`, over which contracts are stated.
pub struct SharedSecretView {
    pub metadata: ObjectMetaView,
    pub spec: SharedSecretSpecView,
    pub status: Option<SharedSecretStatus>,
}

impl View for SharedSecret {
    type V = SharedSecretView;

    open spec fn view(&self) -> SharedSecretView {
        SharedSecretView { metadata: self.metadata@, spec: self.spec@, status: self.status }
    }
}

impl DeepView for SharedSecret {
    type V = SharedSecretView;

    open spec fn deep_view(&self) -> SharedSecretView {
        self@
    }
}

impl Clone for SharedSecret {
    fn clone(&self) -> (copy: Self)
        ensures
            copy@ == self@,
    {
        SharedSecret {
            metadata: self.metadata.clone(),
            spec: self.spec.clone(),
            status: self.status,
        }
    }
}

/// The coordinates of the `SharedSecret` that a request asks for.
#[derive(Debug, PartialEq, Eq)]
pub struct SharedSecretReference {
    pub namespace: String,
    pub name: String,
}

/// The mathematical view of `SharedSecretReference`, over which contracts are stated.
pub struct SharedSecretReferenceView {
    pub namespace: Seq<char>,
    pub name: Seq<char>,
}

impl View for SharedSecretReference {
    type V = SharedSecretReferenceView;

    open spec fn view(&self) -> SharedSecretReferenceView {
        SharedSecretReferenceView { namespace: self.namespace@, name: self.name@ }
    }
}

impl Clone for SharedSecretReference {
    fn clone(&self) -> (copy: Self)
        ensures
            copy@ == self@,
    {
        SharedSecretReference { namespace: self.namespace.clone(), name: self.name.clone() }
    }
}

/// What a `SharedSecretRequest` asks for: a `SharedSecret`, and the name
/// under which its secret is to appear in the request's namespace.
#[derive(Debug, PartialEq, Eq)]
pub struct SharedSecretRequestSpec {
    pub shared_secret: SharedSecretReference,
    pub local_secret_name: Option<String>,
}

/// The mathematical view of `SharedSecretRequestSpec`, over which contracts are stated.
pub struct SharedSecretRequestSpecView {
    pub shared_secret: SharedSecretReferenceView,
    pub local_secret_name: Option<Seq<char>>,
}

impl View for SharedSecretRequestSpec {
    type V = SharedSecretRequestSpecView;

    open spec fn view(&self) -> SharedSecretRequestSpecView {
        SharedSecretRequestSpecView {
            shared_secret: self.shared_secret@,
            local_secret_name: self.local_secret_name.deep_view(),
        }
    }
}

impl Clone for SharedSecretRequestSpec {
    fn clone(&self) -> (copy: Self)
        ensures
            copy@ == self@,
    {
        SharedSecretRequestSpec {
            shared_secret: self.shared_secret.clone(),
            local_secret_name: match &self.local_secret_name {
                Some(name) => Some(name.clone()),
                None => None,
            },
        }
    }
}

/// How far a `SharedSecretRequest` is from holding its copy.
#[derive(Copy, Clone, Debug, PartialEq, Eq, Structural)]
pub enum SharedSecretRequestState {
    Uninitialized,
    SharedSecretMissing,
    SharedSecretInvalid,
    Synchronized,
}

impl Default for SharedSecretRequestState {
    fn default() -> (state: Self)
        ensures
            state == SharedSecretRequestState::Uninitialized,
    {
        SharedSecretRequestState::Uninitialized
    }
}

/// The observed condition of a `SharedSecretRequest`, and when it was
/// written.
#[derive(Copy, Clone, Debug, PartialEq, Eq)]
pub struct SharedSecretRequestStatus {
    pub state: SharedSecretRequestState,
    pub last_updated_at: Option<Timestamp>,
}

impl Default for SharedSecretRequestStatus {
    fn default() -> (status: Self)
        ensures
            status.state == SharedSecretRequestState::Uninitialized,
            status.last_updated_at is None,
    {
        SharedSecretRequestStatus {
            state: SharedSecretRequestState::Uninitialized,
            last_updated_at: None,
        }
    }
}

/// A request to have the secret of a `SharedSecret` copied into the
/// request's own namespace.
#[derive(Debug, PartialEq, Eq)]
pub struct SharedSecretRequest {
    pub metadata: ObjectMeta,
    pub spec: SharedSecretRequestSpec,
    pub status: Option<SharedSecretRequestStatus>,
}

/// The mathematical view of `SharedSecretRequest`, over which contracts are stated.
pub struct SharedSecretRequestView {
    pub metadata: ObjectMetaView,
    pub spec: SharedSecretRequestSpecView,
    pub status: Option<SharedSecretRequestStatus>,
}

impl View for SharedSecretRequest {
    type V = SharedSecretRequestView;

    open spec fn view(&self) -> SharedSecretRequestView {
        SharedSecretRequestView { metadata: self.metadata@, spec: self.spec@, status: self.status }
    }
}

impl DeepView for SharedSecretRequest {
    type V = SharedSecretRequestView;

    open spec fn deep_view(&self) -> SharedSecretRequestView {
        self@
    }
}

impl Clone for SharedSecretRequest {
    fn clone(&self) -> (copy: Self)
        ensures
            copy@ == self@,
    {
        SharedSecretRequest {
            metadata: self.metadata.clone(),
            spec: self.spec.clone(),
            status: self.status,
        }
    }
}

} // verus!
