//! The life of one published secret and one request for it, pass by pass.

use controller::controller::api::Action;
use controller::controller::api::ApiRequest;
use controller::controller::api::ApiResponse;
use controller::controller::api::Error;
use controller::controller::api::Event;
use controller::controller::api::EventType;
use controller::controller::api::FinalizerError;
use controller::controller::api::Kind;
use controller::controller::api::Step;
use controller::controller::finalizer::Phase;
use controller::controller::request::reconcile_shared_secret_request_at;
use controller::controller::request::SharedSecretRequestApply;
use controller::controller::request::SharedSecretRequestReconcile;
use controller::controller::secret::ObjectReference;
use controller::controller::secret::OwnerReference;
use controller::controller::secret::Secret;
use controller::controller::secret::SecretData;
use controller::controller::shared::reconcile_shared_secret;
use controller::controller::shared::SharedSecretApply;
use controller::controller::shared::SharedSecretReconcile;
use controller::controller::ObjectMeta;
use controller::controller::SharedSecret;
use controller::controller::SharedSecretReference;
use controller::controller::SharedSecretRequest;
use controller::controller::SharedSecretRequestSpec;
use controller::controller::SharedSecretRequestState;
use controller::controller::SharedSecretRequestStatus;
use controller::controller::SharedSecretSpec;
use controller::controller::SharedSecretState;
use controller::controller::SharedSecretStatus;
use controller::controller::Timestamp;

const SHARED_MARKER: &str = "sharedsecretctl.klauser.link/shared-secret";
const REQUEST_MARKER: &str = "sharedsecretctl.klauser.link/shared-secret-request";

fn noon() -> Timestamp {
    Timestamp { seconds: 1_700_000_000, nanoseconds: 0 }
}

fn evening() -> Timestamp {
    Timestamp { seconds: 1_700_020_000, nanoseconds: 500 }
}

/// The declaration `db` of namespace `team-a`, which names the secret
/// `creds`.
fn db(state: Option<SharedSecretState>) -> SharedSecret {
    SharedSecret {
        metadata: ObjectMeta {
            namespace: "team-a".to_string(),
            name: "db".to_string(),
            uid: "uid-db".to_string(),
            finalizers: vec![SHARED_MARKER.to_string()],
            deletion_timestamp: None,
        },
        spec: SharedSecretSpec { secret_name: "creds".to_string() },
        status: state.map(|state| SharedSecretStatus { state }),
    }
}

/// The request `r1` of namespace `team-b` for `team-a/db`, without a name of
/// its own for the copy.
fn r1(status: Option<SharedSecretRequestStatus>) -> SharedSecretRequest {
    SharedSecretRequest {
        metadata: ObjectMeta {
            namespace: "team-b".to_string(),
            name: "r1".to_string(),
            uid: "uid-r1".to_string(),
            finalizers: vec![REQUEST_MARKER.to_string()],
            deletion_timestamp: None,
        },
        spec: SharedSecretRequestSpec {
            shared_secret: SharedSecretReference {
                namespace: "team-a".to_string(),
                name: "db".to_string(),
            },
            local_secret_name: None,
        },
        status,
    }
}

/// The payload that is written `{"user":"YQ=="}` where bytes are shown in
/// base64: the one byte `a` under the key `user`.
fn user_a() -> SecretData {
    let mut data = SecretData::new();
    data.insert("user".to_string(), b"a".to_vec());
    data
}

fn user_b() -> SecretData {
    let mut data = SecretData::new();
    data.insert("user".to_string(), b"b".to_vec());
    data
}

fn creds(data: SecretData) -> Secret {
    Secret {
        namespace: "team-a".to_string(),
        name: "creds".to_string(),
        uid: Some("uid-creds".to_string()),
        owner_references: vec![],
        data: Some(data),
    }
}

fn owner_r1() -> OwnerReference {
    OwnerReference {
        api_version: "sharedsecretctl.klauser.link/v1".to_string(),
        kind: "SharedSecretRequest".to_string(),
        name: "r1".to_string(),
        uid: "uid-r1".to_string(),
    }
}

/// The copy of `creds` in `team-b` as the cluster stores it.
fn copy(data: SecretData) -> Secret {
    Secret {
        namespace: "team-b".to_string(),
        name: "r1".to_string(),
        uid: Some("uid-copy".to_string()),
        owner_references: vec![owner_r1()],
        data: Some(data),
    }
}

fn regarding_r1() -> ObjectReference {
    ObjectReference {
        api_version: "sharedsecretctl.klauser.link/v1".to_string(),
        kind: "SharedSecretRequest".to_string(),
        namespace: "team-b".to_string(),
        name: "r1".to_string(),
        uid: Some("uid-r1".to_string()),
    }
}

fn copy_reference() -> ObjectReference {
    ObjectReference {
        api_version: "v1".to_string(),
        kind: "Secret".to_string(),
        namespace: "team-b".to_string(),
        name: "r1".to_string(),
        uid: Some("uid-copy".to_string()),
    }
}

fn get_creds() -> Step {
    Step::Call(ApiRequest::GetSecret { namespace: "team-a".to_string(), name: "creds".to_string() })
}

fn write_db(state: SharedSecretState) -> Step {
    Step::Call(ApiRequest::ApplySharedSecretStatus {
        namespace: "team-a".to_string(),
        name: "db".to_string(),
        status: SharedSecretStatus { state },
        field_manager: "sharedsecretctl".to_string(),
        force: true,
    })
}

fn write_r1(state: SharedSecretRequestState, at: Timestamp) -> Step {
    Step::Call(ApiRequest::ApplySharedSecretRequestStatus {
        namespace: "team-b".to_string(),
        name: "r1".to_string(),
        status: SharedSecretRequestStatus { state, last_updated_at: Some(at) },
        field_manager: "sharedsecretctl".to_string(),
        force: true,
    })
}

fn applying(apply: SharedSecretRequestApply) -> SharedSecretRequestReconcile {
    SharedSecretRequestReconcile { phase: Phase::Applying, apply }
}

/// Runs the first three steps of a pass over `request`: the reads of the
/// declaration, of the published secret and of the copy.
fn read_all(
    request: &SharedSecretRequest,
    published: SecretData,
    now: Timestamp,
) -> SharedSecretRequestReconcile {
    let (state, step) = reconcile_shared_secret_request_at(
        request,
        SharedSecretRequestReconcile::new(),
        ApiResponse::Begin,
        now,
    );
    assert_eq!(
        step,
        Step::Call(ApiRequest::GetSharedSecret {
            namespace: "team-a".to_string(),
            name: "db".to_string()
        })
    );
    assert_eq!(state, applying(SharedSecretRequestApply::GettingSharedSecret));
    let (state, step) = reconcile_shared_secret_request_at(
        request,
        state,
        ApiResponse::SharedSecret(Some(db(Some(SharedSecretState::Valid)))),
        now,
    );
    assert_eq!(step, get_creds());
    assert_eq!(state, applying(SharedSecretRequestApply::GettingRemoteSecret));
    let (state, step) = reconcile_shared_secret_request_at(
        request,
        state,
        ApiResponse::Secret(Some(creds(published.clone()))),
        now,
    );
    assert_eq!(
        step,
        Step::Call(ApiRequest::GetSecret {
            namespace: "team-b".to_string(),
            name: "r1".to_string()
        })
    );
    assert_eq!(
        state,
        applying(SharedSecretRequestApply::GettingLocalSecret { data: Some(published) })
    );
    state
}

#[test]
fn declaration_of_a_missing_secret_becomes_secret_missing() {
    let declaration = db(None);
    let (state, step) =
        reconcile_shared_secret(&declaration, SharedSecretReconcile::new(), ApiResponse::Begin);
    assert_eq!(step, get_creds());
    assert_eq!(
        state,
        SharedSecretReconcile { phase: Phase::Applying, apply: SharedSecretApply::GettingSecret }
    );
    let (state, step) = reconcile_shared_secret(&declaration, state, ApiResponse::Secret(None));
    assert_eq!(step, write_db(SharedSecretState::SecretMissing));
    assert_eq!(
        state,
        SharedSecretReconcile { phase: Phase::Applying, apply: SharedSecretApply::WritingStatus }
    );
    let (state, step) = reconcile_shared_secret(&declaration, state, ApiResponse::Accepted);
    assert_eq!(step, Step::Done(Action::Requeue { seconds: 300 }));
    assert_eq!(state, SharedSecretReconcile::new());
}

#[test]
fn declaration_becomes_valid_once_the_secret_has_data() {
    let declaration = db(Some(SharedSecretState::SecretMissing));
    let (state, _) =
        reconcile_shared_secret(&declaration, SharedSecretReconcile::new(), ApiResponse::Begin);
    let (state, step) =
        reconcile_shared_secret(&declaration, state, ApiResponse::Secret(Some(creds(user_a()))));
    assert_eq!(step, write_db(SharedSecretState::Valid));
    let (_, step) = reconcile_shared_secret(&declaration, state, ApiResponse::Accepted);
    assert_eq!(step, Step::Done(Action::Requeue { seconds: 300 }));
}

#[test]
fn request_gets_its_copy_and_becomes_synchronized() {
    let request = r1(None);
    let state = read_all(&request, user_a(), noon());
    let (state, step) =
        reconcile_shared_secret_request_at(&request, state, ApiResponse::Secret(None), noon());
    assert_eq!(
        step,
        Step::Call(ApiRequest::CreateSecret {
            secret: Secret {
                namespace: "team-b".to_string(),
                name: "r1".to_string(),
                uid: None,
                owner_references: vec![owner_r1()],
                data: Some(user_a()),
            },
            field_manager: "sharedsecretctl".to_string(),
        })
    );
    assert_eq!(state, applying(SharedSecretRequestApply::CreatingLocalSecret));
    let (state, step) = reconcile_shared_secret_request_at(
        &request,
        state,
        ApiResponse::Written(copy(user_a())),
        noon(),
    );
    assert_eq!(
        step,
        Step::Call(ApiRequest::PublishEvent {
            regarding: regarding_r1(),
            event: Event {
                type_: EventType::Normal,
                reason: "LocalSecretMissing".to_string(),
                note: None,
                action: "Creating".to_string(),
                secondary: Some(copy_reference()),
            },
        })
    );
    assert_eq!(state, applying(SharedSecretRequestApply::PublishingEvent));
    let (state, step) =
        reconcile_shared_secret_request_at(&request, state, ApiResponse::Accepted, noon());
    assert_eq!(step, write_r1(SharedSecretRequestState::Synchronized, noon()));
    assert_eq!(state, applying(SharedSecretRequestApply::WritingStatus));
    let (state, step) =
        reconcile_shared_secret_request_at(&request, state, ApiResponse::Accepted, noon());
    assert_eq!(step, Step::Done(Action::Requeue { seconds: 300 }));
    assert_eq!(state, SharedSecretRequestReconcile::new());
}

#[test]
fn changed_data_is_merged_into_the_copy() {
    let synchronized = SharedSecretRequestStatus {
        state: SharedSecretRequestState::Synchronized,
        last_updated_at: Some(noon()),
    };
    let request = r1(Some(synchronized));
    let state = read_all(&request, user_b(), evening());
    let (state, step) = reconcile_shared_secret_request_at(
        &request,
        state,
        ApiResponse::Secret(Some(copy(user_a()))),
        evening(),
    );
    assert_eq!(
        step,
        Step::Call(ApiRequest::PatchSecretData {
            namespace: "team-b".to_string(),
            name: "r1".to_string(),
            data: Some(user_b()),
            field_manager: "sharedsecretctl".to_string(),
        })
    );
    assert_eq!(state, applying(SharedSecretRequestApply::UpdatingLocalSecret));
    let (state, step) = reconcile_shared_secret_request_at(
        &request,
        state,
        ApiResponse::Written(copy(user_b())),
        evening(),
    );
    assert_eq!(
        step,
        Step::Call(ApiRequest::PublishEvent {
            regarding: regarding_r1(),
            event: Event {
                type_: EventType::Normal,
                reason: "LocalSecretOutdated".to_string(),
                note: None,
                action: "Updating".to_string(),
                secondary: Some(copy_reference()),
            },
        })
    );
    // The request stays `Synchronized`: its state does not change, so its
    // status and the time in it are left as they are.
    let (state, step) =
        reconcile_shared_secret_request_at(&request, state, ApiResponse::Accepted, evening());
    assert_eq!(step, Step::Done(Action::Requeue { seconds: 300 }));
    assert_eq!(state, SharedSecretRequestReconcile::new());
}

#[test]
fn status_is_dated_anew_when_the_state_changes() {
    let invalid = SharedSecretRequestStatus {
        state: SharedSecretRequestState::SharedSecretInvalid,
        last_updated_at: Some(noon()),
    };
    let request = r1(Some(invalid));
    let state = read_all(&request, user_b(), evening());
    let (state, _) = reconcile_shared_secret_request_at(
        &request,
        state,
        ApiResponse::Secret(Some(copy(user_a()))),
        evening(),
    );
    let (state, _) = reconcile_shared_secret_request_at(
        &request,
        state,
        ApiResponse::Written(copy(user_b())),
        evening(),
    );
    let (_, step) =
        reconcile_shared_secret_request_at(&request, state, ApiResponse::Accepted, evening());
    assert_eq!(step, write_r1(SharedSecretRequestState::Synchronized, evening()));
}

#[test]
fn regressed_declaration_invalidates_the_request_and_leaves_the_copy() {
    let synchronized = SharedSecretRequestStatus {
        state: SharedSecretRequestState::Synchronized,
        last_updated_at: Some(noon()),
    };
    let request = r1(Some(synchronized));
    let (state, step) = reconcile_shared_secret_request_at(
        &request,
        SharedSecretRequestReconcile::new(),
        ApiResponse::Begin,
        evening(),
    );
    assert!(matches!(step, Step::Call(ApiRequest::GetSharedSecret { .. })));
    let (state, step) = reconcile_shared_secret_request_at(
        &request,
        state,
        ApiResponse::SharedSecret(Some(db(Some(SharedSecretState::SecretMissing)))),
        evening(),
    );
    assert_eq!(step, write_r1(SharedSecretRequestState::SharedSecretInvalid, evening()));
    let (state, step) =
        reconcile_shared_secret_request_at(&request, state, ApiResponse::Accepted, evening());
    assert_eq!(step, Step::Done(Action::Requeue { seconds: 300 }));
    assert_eq!(state, SharedSecretRequestReconcile::new());
}

#[test]
fn deleted_request_loses_its_marker_after_cleanup() {
    let mut request = r1(None);
    request.metadata.finalizers = vec!["other/marker".to_string(), REQUEST_MARKER.to_string()];
    request.metadata.deletion_timestamp = Some(noon());
    let (state, step) = reconcile_shared_secret_request_at(
        &request,
        SharedSecretRequestReconcile::new(),
        ApiResponse::Begin,
        evening(),
    );
    assert_eq!(
        step,
        Step::Call(ApiRequest::RemoveFinalizer {
            kind: Kind::SharedSecretRequest,
            namespace: "team-b".to_string(),
            name: "r1".to_string(),
            index: 1,
            finalizer: REQUEST_MARKER.to_string(),
        })
    );
    assert_eq!(
        state,
        SharedSecretRequestReconcile {
            phase: Phase::RemovingFinalizer { then: Action::Requeue { seconds: 300 } },
            apply: SharedSecretRequestApply::Start,
        }
    );
    let (after, step) = reconcile_shared_secret_request_at(
        &request,
        state.clone(),
        ApiResponse::Accepted,
        evening(),
    );
    assert_eq!(step, Step::Done(Action::Requeue { seconds: 300 }));
    assert_eq!(after, SharedSecretRequestReconcile::new());
    let (after, step) =
        reconcile_shared_secret_request_at(&request, state, ApiResponse::Failed, evening());
    assert_eq!(step, Step::Fail(Error::FinalizerError(FinalizerError::RemoveFinalizer)));
    assert_eq!(after, SharedSecretRequestReconcile::new());
}

#[test]
fn deleted_request_without_marker_is_left_alone() {
    let mut request = r1(None);
    request.metadata.finalizers = vec![];
    request.metadata.deletion_timestamp = Some(noon());
    let (state, step) = reconcile_shared_secret_request_at(
        &request,
        SharedSecretRequestReconcile::new(),
        ApiResponse::Begin,
        evening(),
    );
    assert_eq!(step, Step::Done(Action::AwaitChange));
    assert_eq!(state, SharedSecretRequestReconcile::new());
}

/// Runs a whole pass over `request` against a cluster that holds the valid
/// declaration, `published` in the published secret and `local` as the copy,
/// and that stores a written copy as `written`. Gives the calls of the pass.
fn pass(
    request: &SharedSecretRequest,
    published: SecretData,
    local: Option<Secret>,
    written: Secret,
    now: Timestamp,
) -> Vec<ApiRequest> {
    let mut calls = Vec::new();
    let mut state = SharedSecretRequestReconcile::new();
    let mut response = ApiResponse::Begin;
    loop {
        let pending = state.apply.clone();
        let (next, step) = reconcile_shared_secret_request_at(request, state, response, now);
        state = next;
        let call = match step {
            Step::Call(call) => call,
            Step::Done(action) => {
                assert_eq!(action, Action::Requeue { seconds: 300 });
                assert_eq!(state, SharedSecretRequestReconcile::new());
                return calls;
            }
            Step::Fail(error) => panic!("the pass failed with {error:?} after {pending:?}"),
        };
        response = match &call {
            ApiRequest::GetSharedSecret { .. } => {
                ApiResponse::SharedSecret(Some(db(Some(SharedSecretState::Valid))))
            }
            ApiRequest::GetSecret { namespace, .. } if namespace == "team-a" => {
                ApiResponse::Secret(Some(creds(published.clone())))
            }
            ApiRequest::GetSecret { .. } => ApiResponse::Secret(local.clone()),
            ApiRequest::CreateSecret { .. } | ApiRequest::PatchSecretData { .. } => {
                ApiResponse::Written(written.clone())
            }
            _ => ApiResponse::Accepted,
        };
        calls.push(call);
    }
}

fn written_status(calls: &[ApiRequest]) -> Option<SharedSecretRequestStatus> {
    match calls.last() {
        Some(ApiRequest::ApplySharedSecretRequestStatus { status, .. }) => Some(*status),
        _ => None,
    }
}

#[test]
fn pass_after_a_pass_that_created_the_copy_writes_nothing() {
    let mut request = r1(None);
    let first = pass(&request, user_a(), None, copy(user_a()), noon());
    assert_eq!(first.len(), 6);
    assert!(matches!(first[3], ApiRequest::CreateSecret { .. }));
    assert!(matches!(first[4], ApiRequest::PublishEvent { .. }));
    let status = written_status(&first).expect("the first pass writes the status");
    assert_eq!(status.state, SharedSecretRequestState::Synchronized);
    assert_eq!(status.last_updated_at, Some(noon()));

    request.status = Some(status);
    let second = pass(&request, user_a(), Some(copy(user_a())), copy(user_b()), evening());
    assert_eq!(second.len(), 3);
    assert!(second.iter().all(|call| !call.is_write()));
}

#[test]
fn pass_after_a_pass_that_updated_the_copy_writes_nothing() {
    let stale = SharedSecretRequestStatus {
        state: SharedSecretRequestState::SharedSecretInvalid,
        last_updated_at: Some(noon()),
    };
    let mut request = r1(Some(stale));
    let first = pass(&request, user_b(), Some(copy(user_a())), copy(user_b()), evening());
    assert_eq!(first.len(), 6);
    assert!(matches!(first[3], ApiRequest::PatchSecretData { .. }));
    let status = written_status(&first).expect("the first pass writes the status");
    assert_eq!(status.state, SharedSecretRequestState::Synchronized);
    assert_eq!(status.last_updated_at, Some(evening()));

    request.status = Some(status);
    let second = pass(&request, user_b(), Some(copy(user_b())), copy(user_a()), noon());
    assert_eq!(second.len(), 3);
    assert!(second.iter().all(|call| !call.is_write()));
}

#[test]
fn copy_with_a_key_of_its_own_is_merged_into_on_every_pass() {
    let synchronized = SharedSecretRequestStatus {
        state: SharedSecretRequestState::Synchronized,
        last_updated_at: Some(noon()),
    };
    let request = r1(Some(synchronized));
    // A merge takes no key away: the copy keeps `stale` whatever is merged in.
    let mut merged = user_a();
    merged.insert("stale".to_string(), b"x".to_vec());
    for _ in 0..3 {
        let calls =
            pass(&request, user_a(), Some(copy(merged.clone())), copy(merged.clone()), evening());
        assert_eq!(calls.len(), 5);
        assert_eq!(
            calls[3],
            ApiRequest::PatchSecretData {
                namespace: "team-b".to_string(),
                name: "r1".to_string(),
                data: Some(user_a()),
                field_manager: "sharedsecretctl".to_string(),
            }
        );
        assert!(matches!(calls[4], ApiRequest::PublishEvent { .. }));
    }
}
