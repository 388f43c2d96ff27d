use vault_firewall::access::{Access, AccessRequest};
use vault_firewall::request::{Location, Procedure, Request, ShRequest, WriteToRemoteVault};

fn classify(client_path: &[u8], request: Request) -> AccessRequest {
    AccessRequest::from_request(&ShRequest { client_path: client_path.to_vec(), request })
}

fn loc(vault: &[u8], record: &[u8]) -> Location {
    Location { vault_path: vault.to_vec(), record_path: record.to_vec() }
}

#[test]
fn read_from_store_needs_exactly_read_store() {
    let access = classify(b"alice", Request::ReadFromStore { key: b"some-key".to_vec() });
    assert_eq!(access.client_path, b"alice".to_vec());
    assert_eq!(access.locations, vec![Access::ReadStore]);
}

#[test]
fn store_writes_and_deletes_need_write_store() {
    let write = classify(
        b"c",
        Request::WriteToStore { key: b"k".to_vec(), payload: vec![1], lifetime: None },
    );
    assert_eq!(write.locations, vec![Access::WriteStore]);
    let delete = classify(b"c", Request::DeleteFromStore { key: b"k".to_vec() });
    assert_eq!(delete.locations, vec![Access::WriteStore]);
}

#[test]
fn existence_and_listing_need_list() {
    let check_vault = classify(b"c", Request::CheckVault { vault_path: b"v".to_vec() });
    assert_eq!(check_vault.locations, vec![Access::List { vault_path: b"v".to_vec() }]);
    let check_record = classify(b"c", Request::CheckRecord { location: loc(b"w", b"r") });
    assert_eq!(check_record.locations, vec![Access::List { vault_path: b"w".to_vec() }]);
    let list_ids = classify(b"c", Request::ListIds { vault_path: b"x".to_vec() });
    assert_eq!(list_ids.locations, vec![Access::List { vault_path: b"x".to_vec() }]);
}

#[test]
fn vault_writes_and_revocations_need_write() {
    let write = classify(
        b"c",
        Request::WriteToRemoteVault(WriteToRemoteVault {
            location: loc(b"v", b"r"),
            payload: vec![1, 2],
            hint: b"h".to_vec(),
        }),
    );
    assert_eq!(write.locations, vec![Access::Write { vault_path: b"v".to_vec() }]);
    let revoke = classify(b"c", Request::RevokeData { location: loc(b"u", b"r") });
    assert_eq!(revoke.locations, vec![Access::Write { vault_path: b"u".to_vec() }]);
}

#[test]
fn procedure_batch_decomposes_per_procedure() {
    let access = classify(
        b"c",
        Request::Procedures {
            procedures: vec![
                Procedure::RevokeData { location: loc(b"v1", b"r") },
                Procedure::GarbageCollect { vault_path: b"v2".to_vec() },
                Procedure::Transform {
                    input: Some(loc(b"v3", b"in")),
                    output: Some(loc(b"v4", b"out")),
                },
                Procedure::Transform { input: None, output: Some(loc(b"v5", b"out")) },
                Procedure::Transform { input: Some(loc(b"v6", b"in")), output: None },
            ],
        },
    );
    assert_eq!(
        access.locations,
        vec![
            Access::Write { vault_path: b"v1".to_vec() },
            Access::Write { vault_path: b"v2".to_vec() },
            Access::Use { vault_path: b"v3".to_vec() },
            Access::Write { vault_path: b"v4".to_vec() },
            Access::Write { vault_path: b"v5".to_vec() },
            Access::Use { vault_path: b"v6".to_vec() },
        ]
    );
}

#[test]
fn procedure_without_declared_io_contributes_nothing() {
    // A transform that declares neither input nor output needs no
    // capability entry; only the surrounding policy lookup still applies.
    let access = classify(
        b"c",
        Request::Procedures {
            procedures: vec![Procedure::Transform { input: None, output: None }],
        },
    );
    assert_eq!(access.locations, Vec::<Access>::new());
}
