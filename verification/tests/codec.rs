use vault_firewall::codec::{decode_envelope, encode_envelope};
use vault_firewall::request::{Location, Procedure, Request, ShRequest, WriteToRemoteVault};

fn loc(vault: &[u8], record: &[u8]) -> Location {
    Location { vault_path: vault.to_vec(), record_path: record.to_vec() }
}

fn round_trip(request: Request) {
    let envelope = ShRequest { client_path: b"client".to_vec(), request };
    let bytes = encode_envelope(&envelope);
    let decoded = decode_envelope(&bytes).expect("a fresh encoding must decode");
    assert_eq!(decoded, envelope);
}

#[test]
fn round_trip_check_vault() {
    round_trip(Request::CheckVault { vault_path: b"vault".to_vec() });
}

#[test]
fn round_trip_check_record() {
    round_trip(Request::CheckRecord { location: loc(b"vault", b"record") });
}

#[test]
fn round_trip_list_ids() {
    round_trip(Request::ListIds { vault_path: b"".to_vec() });
}

#[test]
fn round_trip_write_to_remote_vault() {
    round_trip(Request::WriteToRemoteVault(WriteToRemoteVault {
        location: loc(b"vault", b"record"),
        payload: vec![0, 1, 2, 255, 254],
        hint: b"a hint".to_vec(),
    }));
}

#[test]
fn round_trip_revoke_data() {
    round_trip(Request::RevokeData { location: loc(b"v", b"") });
}

#[test]
fn round_trip_read_from_store() {
    round_trip(Request::ReadFromStore { key: b"key".to_vec() });
}

#[test]
fn round_trip_write_to_store() {
    round_trip(Request::WriteToStore {
        key: b"key".to_vec(),
        payload: vec![7; 300],
        lifetime: Some(86_400_000),
    });
    round_trip(Request::WriteToStore { key: b"k".to_vec(), payload: vec![], lifetime: None });
}

#[test]
fn round_trip_delete_from_store() {
    round_trip(Request::DeleteFromStore { key: b"key".to_vec() });
}

#[test]
fn round_trip_procedures() {
    round_trip(Request::Procedures {
        procedures: vec![
            Procedure::RevokeData { location: loc(b"v1", b"r1") },
            Procedure::GarbageCollect { vault_path: b"v2".to_vec() },
            Procedure::Transform { input: Some(loc(b"v3", b"a")), output: Some(loc(b"v4", b"b")) },
            Procedure::Transform { input: None, output: None },
        ],
    });
    round_trip(Request::Procedures { procedures: vec![] });
}

#[test]
fn round_trip_empty_client_path() {
    round_trip_with_client(b"", Request::CheckVault { vault_path: b"v".to_vec() });
}

fn round_trip_with_client(client_path: &[u8], request: Request) {
    let envelope = ShRequest { client_path: client_path.to_vec(), request };
    let bytes = encode_envelope(&envelope);
    assert_eq!(decode_envelope(&bytes), Some(envelope));
}

#[test]
fn encoding_is_deterministic() {
    let envelope = ShRequest {
        client_path: b"c".to_vec(),
        request: Request::ReadFromStore { key: b"k".to_vec() },
    };
    assert_eq!(encode_envelope(&envelope), encode_envelope(&envelope));
}

#[test]
fn truncated_or_garbled_bytes_do_not_decode() {
    assert_eq!(decode_envelope(&Vec::new()), None);

    let envelope = ShRequest {
        client_path: b"client".to_vec(),
        request: Request::CheckVault { vault_path: b"vault".to_vec() },
    };
    let bytes = encode_envelope(&envelope);

    let mut truncated = bytes.clone();
    truncated.pop();
    assert_eq!(decode_envelope(&truncated), None);

    let mut trailing = bytes.clone();
    trailing.push(0);
    assert_eq!(decode_envelope(&trailing), None);

    // An unknown request tag is rejected.
    let mut bad_tag = bytes;
    bad_tag[8 + 6] = 200;
    assert_eq!(decode_envelope(&bad_tag), None);
}
