use vault_firewall::access::{Access, AccessRequest};
use vault_firewall::permissions::{ClientPermissions, Permissions};
use vault_firewall::request::{Location, Procedure, Request, ShRequest, WriteToRemoteVault};

fn envelope(client_path: &[u8], request: Request) -> ShRequest {
    ShRequest { client_path: client_path.to_vec(), request }
}

fn loc(vault: &[u8], record: &[u8]) -> Location {
    Location { vault_path: vault.to_vec(), record_path: record.to_vec() }
}

fn sample_requests() -> Vec<Request> {
    vec![
        Request::CheckVault { vault_path: b"v1".to_vec() },
        Request::CheckRecord { location: loc(b"v1", b"r1") },
        Request::ListIds { vault_path: b"v2".to_vec() },
        Request::WriteToRemoteVault(WriteToRemoteVault {
            location: loc(b"v1", b"r2"),
            payload: vec![1, 2, 3],
            hint: b"hint".to_vec(),
        }),
        Request::RevokeData { location: loc(b"v3", b"r9") },
        Request::ReadFromStore { key: b"k".to_vec() },
        Request::WriteToStore { key: b"k".to_vec(), payload: vec![9], lifetime: Some(1000) },
        Request::DeleteFromStore { key: b"k".to_vec() },
        Request::Procedures {
            procedures: vec![
                Procedure::RevokeData { location: loc(b"v1", b"r1") },
                Procedure::Transform { input: Some(loc(b"v1", b"a")), output: Some(loc(b"v2", b"b")) },
            ],
        },
    ]
}

#[test]
fn allow_none_denies_every_request() {
    for request in sample_requests() {
        let env = envelope(b"alice", request);
        let access = AccessRequest::from_request(&env);
        assert!(!access.check(Permissions::allow_none()));
    }
}

#[test]
fn allow_all_allows_every_request() {
    for request in sample_requests() {
        let env = envelope(b"alice", request);
        let access = AccessRequest::from_request(&env);
        assert!(access.check(Permissions::allow_all()));
    }
}

#[test]
fn exception_overrides_default() {
    // Default Use = false, exception Use = true for vault "v1".
    let cp = ClientPermissions::none().with_vault_access(b"v1".to_vec(), true, false, false);
    let permissions =
        Permissions::allow_none().with_default_permissions(Some(cp));

    let use_v1 = AccessRequest {
        client_path: b"alice".to_vec(),
        locations: vec![Access::Use { vault_path: b"v1".to_vec() }],
    };
    let list_v1 = AccessRequest {
        client_path: b"alice".to_vec(),
        locations: vec![Access::List { vault_path: b"v1".to_vec() }],
    };
    let use_v2 = AccessRequest {
        client_path: b"alice".to_vec(),
        locations: vec![Access::Use { vault_path: b"v2".to_vec() }],
    };
    let list_v2 = AccessRequest {
        client_path: b"alice".to_vec(),
        locations: vec![Access::List { vault_path: b"v2".to_vec() }],
    };
    assert!(use_v1.check(permissions.clone()));
    assert!(list_v1.check(permissions.clone()));
    assert!(!use_v2.check(permissions.clone()));
    assert!(!list_v2.check(permissions));
}

#[test]
fn vault_exception_flags_stay_distinct() {
    // Writing three different flags for one vault path must land each flag
    // in its own exception map; an implementation that piles all three into
    // one map would deny this write.
    let cp = ClientPermissions::none().with_vault_access(b"v".to_vec(), true, true, false);
    let permissions = Permissions::allow_none().with_default_permissions(Some(cp));

    let write_v = AccessRequest {
        client_path: b"alice".to_vec(),
        locations: vec![Access::Write { vault_path: b"v".to_vec() }],
    };
    let use_v = AccessRequest {
        client_path: b"alice".to_vec(),
        locations: vec![Access::Use { vault_path: b"v".to_vec() }],
    };
    let clone_v = AccessRequest {
        client_path: b"alice".to_vec(),
        locations: vec![Access::Clone { vault_path: b"v".to_vec() }],
    };
    assert!(use_v.check(permissions.clone()));
    assert!(write_v.check(permissions.clone()));
    assert!(!clone_v.check(permissions));
}

#[test]
fn client_none_override_denies_despite_allow_all() {
    let permissions = Permissions::allow_all().with_client_permissions(b"bob".to_vec(), None);
    let bob = AccessRequest {
        client_path: b"bob".to_vec(),
        locations: vec![Access::ReadStore],
    };
    let alice = AccessRequest {
        client_path: b"alice".to_vec(),
        locations: vec![Access::ReadStore],
    };
    assert!(!bob.check(permissions.clone()));
    assert!(alice.check(permissions));
}

#[test]
fn multi_location_request_is_a_conjunction() {
    // Use is allowed everywhere, Write nowhere: a batch that needs Use on
    // vault "a" and Write on vault "b" is denied as a whole.
    let cp = ClientPermissions::none().with_default_vault_access(true, false, false);
    let permissions = Permissions::allow_none().with_default_permissions(Some(cp));

    let batch = envelope(
        b"alice",
        Request::Procedures {
            procedures: vec![Procedure::Transform {
                input: Some(loc(b"a", b"r")),
                output: Some(loc(b"b", b"r")),
            }],
        },
    );
    let both = AccessRequest::from_request(&batch);
    assert_eq!(
        both.locations,
        vec![
            Access::Use { vault_path: b"a".to_vec() },
            Access::Write { vault_path: b"b".to_vec() },
        ]
    );
    assert!(!both.check(permissions.clone()));

    let use_only = envelope(
        b"alice",
        Request::Procedures {
            procedures: vec![Procedure::Transform { input: Some(loc(b"a", b"r")), output: None }],
        },
    );
    assert!(AccessRequest::from_request(&use_only).check(permissions));
}

#[test]
fn granted_client_scenario() {
    // Network default denies; one client path is granted everything.
    let permissions = Permissions::allow_none()
        .with_client_permissions(b"alice".to_vec(), Some(ClientPermissions::all()));

    let write_secrets = Request::WriteToRemoteVault(WriteToRemoteVault {
        location: loc(b"secrets", b"r"),
        payload: vec![1],
        hint: b"h".to_vec(),
    });
    let as_alice = AccessRequest::from_request(&envelope(b"alice", write_secrets.clone()));
    let as_bob = AccessRequest::from_request(&envelope(b"bob", write_secrets));
    assert!(as_alice.check(permissions.clone()));
    assert!(!as_bob.check(permissions.clone()));

    let store_write = Request::WriteToStore {
        key: b"k".to_vec(),
        payload: vec![2],
        lifetime: None,
    };
    let store_as_alice = AccessRequest::from_request(&envelope(b"alice", store_write));
    assert!(store_as_alice.check(permissions.clone()));

    // List derives from Use or Write or Clone.
    let list = Request::ListIds { vault_path: b"secrets".to_vec() };
    let list_as_alice = AccessRequest::from_request(&envelope(b"alice", list));
    assert!(list_as_alice.check(permissions));
}

#[test]
fn empty_procedure_batch_is_still_denied_without_policy() {
    // A batch with no procedures needs no capability, yet a client that
    // resolves to no policy at all is denied regardless.
    let batch = envelope(b"alice", Request::Procedures { procedures: vec![] });
    let access = AccessRequest::from_request(&batch);
    assert!(access.locations.is_empty());
    assert!(!access.check(Permissions::allow_none()));
}

#[test]
fn evaluate_envelope_composes_classifier_and_evaluator() {
    let env = envelope(b"alice", Request::ReadFromStore { key: b"k".to_vec() });
    assert!(vault_firewall::firewall::evaluate_envelope(&env, Permissions::allow_all()));
    assert!(!vault_firewall::firewall::evaluate_envelope(&env, Permissions::allow_none()));
    let granted = Permissions::allow_none().with_client_permissions(
        b"alice".to_vec(),
        Some(ClientPermissions::none().with_store_access(true, false)),
    );
    assert!(vault_firewall::firewall::evaluate_envelope(&env, granted.clone()));
    let store_write = envelope(b"alice", Request::DeleteFromStore { key: b"k".to_vec() });
    assert!(!vault_firewall::firewall::evaluate_envelope(&store_write, granted));
}
