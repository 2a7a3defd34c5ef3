//! The reconciliation engine: the resource types, the two reconcilers, the
//! finalizer protocol around them and the mapping of changes to the requests
//! they concern.

use vstd::prelude::*;
use crate::controller::crd::SharedSecretRequestView;
use crate::controller::crd::SharedSecretView;
use crate::controller::secret::Secret;
use crate::controller::secret::SecretView;

pub mod api;
mod clock;
pub mod crd;
pub mod finalizer;
pub mod pass;
pub mod request;
pub mod secret;
pub mod shared;

pub use crd::ObjectMeta;
pub use crd::SharedSecret;
pub use crd::SharedSecretReference;
pub use crd::SharedSecretRequest;
pub use crd::SharedSecretRequestSpec;
pub use crd::SharedSecretRequestState;
pub use crd::SharedSecretRequestStatus;
pub use crd::SharedSecretSpec;
pub use crd::SharedSecretState;
pub use crd::SharedSecretStatus;
pub use crd::Timestamp;

verus! {

/// The name under which this controller owns fields and reports events.
pub const CONTROLLER_NAME: &'static str = "sharedsecretctl";

/// The group and version under which the controller's resources are stored.
pub const API_VERSION: &'static str = "sharedsecretctl.klauser.link/v1";

/// The seconds after which a resource is reconciled again when nothing
/// changes.
pub const REQUEUE_SECONDS: u64 = 300;

/// The key of a `SharedSecretRequest` that is to be reconciled.
#[derive(Debug, PartialEq, Eq)]
pub struct ObjectRef {
    pub namespace: String,
    pub name: String,
}

/// The mathematical view of `ObjectRef`, over which contracts are stated.
pub struct ObjectRefView {
    pub namespace: Seq<char>,
    pub name: Seq<char>,
}

impl View for ObjectRef {
    type V = ObjectRefView;

    open spec fn view(&self) -> ObjectRefView {
        ObjectRefView { namespace: self.namespace@, name: self.name@ }
    }
}

impl DeepView for ObjectRef {
    type V = ObjectRefView;

    open spec fn deep_view(&self) -> ObjectRefView {
        self@
    }
}

impl Clone for ObjectRef {
    fn clone(&self) -> (copy: Self)
        ensures
            copy@ == self@,
    {
        ObjectRef { namespace: self.namespace.clone(), name: self.name.clone() }
    }
}

impl SharedSecretRequestView {
    /// The key under which the request is reconciled.
    pub open spec fn key(self) -> ObjectRefView {
        ObjectRefView { namespace: self.metadata.namespace, name: self.metadata.name }
    }

    /// Whether the request asks for `shared_secret`: whether it gives both
    /// its namespace and its name.
    pub open spec fn asks_for(self, shared_secret: SharedSecretView) -> bool {
        self.spec.shared_secret.name == shared_secret.metadata.name
            && self.spec.shared_secret.namespace == shared_secret.metadata.namespace
    }
}

impl SharedSecretView {
    /// Whether the declaration publishes `secret`: whether it names it and
    /// lies in its namespace.
    pub open spec fn publishes(self, secret: SecretView) -> bool {
        self.spec.secret_name == secret.name && self.metadata.namespace == secret.namespace
    }
}

/// The mapping that gives the key of a request that asks for
/// `shared_secret`, and nothing for another.
pub open spec fn trigger_for(shared_secret: SharedSecretView) -> spec_fn(
    SharedSecretRequestView,
) -> Option<ObjectRefView> {
    |request: SharedSecretRequestView|
        if request.asks_for(shared_secret) {
            Some(request.key())
        } else {
            None
        }
}

/// The requests that a change of `shared_secret` concerns: the keys of those
/// in `request_store` that ask for it, in the order of the store.
pub open spec fn requests_matching(
    request_store: Seq<SharedSecretRequestView>,
    shared_secret: SharedSecretView,
) -> Seq<ObjectRefView> {
    request_store.filter_map(trigger_for(shared_secret))
}

/// The requests that a change of `secret` concerns: those that ask for a
/// declaration of `shared_store` that publishes it, declaration by
/// declaration in the order of the store.
pub open spec fn requests_concerned(
    shared_store: Seq<SharedSecretView>,
    request_store: Seq<SharedSecretRequestView>,
    secret: SecretView,
) -> Seq<ObjectRefView>
    decreases shared_store.len(),
{
    if shared_store.len() == 0 {
        Seq::empty()
    } else {
        let before = requests_concerned(shared_store.drop_last(), request_store, secret);
        if shared_store.last().publishes(secret) {
            before + requests_matching(request_store, shared_store.last())
        } else {
            before
        }
    }
}

/// Whether `key` is the key of a request of `request_store` that asks for
/// `shared_secret`.
pub open spec fn asked_by(
    request_store: Seq<SharedSecretRequestView>,
    shared_secret: SharedSecretView,
    key: ObjectRefView,
) -> bool {
    exists|i: int|
        0 <= i < request_store.len() && (#[trigger] request_store[i]).asks_for(shared_secret)
            && request_store[i].key() == key
}

/// A change of a declaration triggers exactly the stored requests that ask
/// for it.
pub proof fn lemma_requests_matching(
    request_store: Seq<SharedSecretRequestView>,
    shared_secret: SharedSecretView,
    key: ObjectRefView,
)
    ensures
        requests_matching(request_store, shared_secret).contains(key) <==> asked_by(
            request_store,
            shared_secret,
            key,
        ),
    decreases request_store.len(),
{
    let found = requests_matching(request_store, shared_secret);
    if request_store.len() > 0 {
        let before = request_store.drop_last();
        let found_before = requests_matching(before, shared_secret);
        lemma_requests_matching(before, shared_secret, key);
        if asked_by(request_store, shared_secret, key) {
            let i = choose|i: int|
                0 <= i < request_store.len() && (#[trigger] request_store[i]).asks_for(
                    shared_secret,
                ) && request_store[i].key() == key;
            if i < before.len() {
                assert(before[i] == request_store[i]);
                let at = choose|at: int| 0 <= at < found_before.len() && found_before[at] == key;
                assert(found[at] == key);
            } else {
                assert(found[found.len() - 1] == key);
            }
        }
    }
}

/// A change of a secret triggers exactly the stored requests that ask for a
/// stored declaration which publishes it.
pub proof fn lemma_requests_concerned(
    shared_store: Seq<SharedSecretView>,
    request_store: Seq<SharedSecretRequestView>,
    secret: SecretView,
    key: ObjectRefView,
)
    ensures
        requests_concerned(shared_store, request_store, secret).contains(key) <==> exists|d: int|
            0 <= d < shared_store.len() && (#[trigger] shared_store[d]).publishes(secret)
                && asked_by(request_store, shared_store[d], key),
    decreases shared_store.len(),
{
    let found = requests_concerned(shared_store, request_store, secret);
    if shared_store.len() > 0 {
        let before = shared_store.drop_last();
        let last = shared_store.last();
        let found_before = requests_concerned(before, request_store, secret);
        let found_last = requests_matching(request_store, last);
        lemma_requests_concerned(before, request_store, secret, key);
        lemma_requests_matching(request_store, last, key);
        if exists|d: int|
            0 <= d < shared_store.len() && (#[trigger] shared_store[d]).publishes(secret)
                && asked_by(request_store, shared_store[d], key) {
            let d = choose|d: int|
                0 <= d < shared_store.len() && (#[trigger] shared_store[d]).publishes(secret)
                    && asked_by(request_store, shared_store[d], key);
            if d < before.len() {
                assert(before[d] == shared_store[d]);
                let at = choose|at: int| 0 <= at < found_before.len() && found_before[at] == key;
                assert(found[at] == key);
            } else {
                let at = choose|at: int| 0 <= at < found_last.len() && found_last[at] == key;
                assert(found[found_before.len() + at] == key);
            }
        }
    }
}

impl SharedSecretRequest {
    /// The key under which the request is reconciled.
    pub fn key(&self) -> (key: ObjectRef)
        ensures
            key@ == self@.key(),
    {
        ObjectRef { namespace: self.metadata.namespace.clone(), name: self.metadata.name.clone() }
    }

    /// Whether the request asks for `shared_secret`.
    pub fn asks_for(&self, shared_secret: &SharedSecret) -> (asks: bool)
        ensures
            asks == self@.asks_for(shared_secret@),
    {
        self.spec.shared_secret.name == shared_secret.metadata.name
            && self.spec.shared_secret.namespace == shared_secret.metadata.namespace
    }
}

impl SharedSecret {
    /// Whether the declaration publishes `secret`.
    pub fn publishes(&self, secret: &Secret) -> (publishes: bool)
        ensures
            publishes == self@.publishes(secret@),
    {
        self.spec.secret_name == secret.name && self.metadata.namespace == secret.namespace
    }
}

/// The requests to reconcile when `shared_secret` has changed: every request
/// of `request_store` that asks for it. Nothing is written.
pub fn matching_requests(request_store: &Vec<SharedSecretRequest>, shared_secret: &SharedSecret) -> (
    triggers: Vec<ObjectRef>)
    ensures
        triggers.deep_view() == requests_matching(request_store.deep_view(), shared_secret@),
{
    let mut triggers: Vec<ObjectRef> = Vec::new();
    extend_with_matching(&mut triggers, request_store, shared_secret);
    triggers
}

/// Appends to `triggers` the requests that ask for `shared_secret`.
fn extend_with_matching(
    triggers: &mut Vec<ObjectRef>,
    request_store: &Vec<SharedSecretRequest>,
    shared_secret: &SharedSecret,
)
    ensures
        final(triggers).deep_view() == old(triggers).deep_view() + requests_matching(
            request_store.deep_view(),
            shared_secret@,
        ),
{
    let ghost before = triggers.deep_view();
    let ghost store = request_store.deep_view();
    let ghost select = trigger_for(shared_secret@);
    let mut i: usize = 0;
    while i < request_store.len()
        invariant
            i <= request_store.len(),
            store == request_store.deep_view(),
            select == trigger_for(shared_secret@),
            triggers.deep_view() == before + store.take(i as int).filter_map(select),
        decreases request_store.len() - i,
    {
        let ghost so_far = triggers.deep_view();
        let ghost held = triggers@;
        assert(store.take(i + 1).drop_last() =~= store.take(i as int));
        if request_store[i].asks_for(shared_secret) {
            triggers.push(request_store[i].key());
            assert forall|j: int| 0 <= j < held.len() implies #[trigger] triggers.deep_view()[j]
                == so_far[j] by {}
            assert(triggers.deep_view() =~= so_far.push(request_store@[i as int]@.key()));
        }
        i = i + 1;
    }
    assert(store.take(request_store.len() as int) =~= store);
}

/// The requests to reconcile when `secret` has changed: every request of
/// `request_store` that asks for a declaration of `shared_store` that
/// publishes `secret`. Where no declaration publishes it, there is none.
/// Nothing is written.
pub fn requests_for_secret(
    shared_store: &Vec<SharedSecret>,
    request_store: &Vec<SharedSecretRequest>,
    secret: &Secret,
) -> (triggers: Vec<ObjectRef>)
    ensures
        triggers.deep_view() == requests_concerned(
            shared_store.deep_view(),
            request_store.deep_view(),
            secret@,
        ),
{
    let ghost declared = shared_store.deep_view();
    let mut triggers: Vec<ObjectRef> = Vec::new();
    let mut i: usize = 0;
    while i < shared_store.len()
        invariant
            i <= shared_store.len(),
            declared == shared_store.deep_view(),
            triggers.deep_view() == requests_concerned(
                declared.take(i as int),
                request_store.deep_view(),
                secret@,
            ),
        decreases shared_store.len() - i,
    {
        assert(declared.take(i + 1).drop_last() =~= declared.take(i as int));
        if shared_store[i].publishes(secret) {
            extend_with_matching(&mut triggers, request_store, &shared_store[i]);
        }
        i = i + 1;
    }
    assert(declared.take(shared_store.len() as int) =~= declared);
    triggers
}

} // verus!
