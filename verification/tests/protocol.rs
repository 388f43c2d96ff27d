use vault_firewall::request::{Location, WriteToRemoteVault, WriteToVault};
use vault_firewall::result::{IdHintPair, ShResult};

#[test]
fn empty_round_trips() {
    assert_eq!(ShResult::from_empty().into_empty(), Ok(()));
}

#[test]
fn bool_round_trips() {
    assert_eq!(ShResult::from_bool(true).into_bool(), Ok(true));
    assert_eq!(ShResult::from_bool(false).into_bool(), Ok(false));
}

#[test]
fn data_round_trips() {
    assert_eq!(
        ShResult::from_data(Some(vec![1, 2, 3])).into_data(),
        Ok(Some(vec![1, 2, 3]))
    );
    assert_eq!(ShResult::from_data(None).into_data(), Ok(None));
}

#[test]
fn write_result_round_trips() {
    assert_eq!(ShResult::from_write_result(Ok(())).into_write_result(), Ok(Ok(())));
    // A remote failure travels inside the matching tag, untouched.
    let remote_failure = ShResult::from_write_result(Err(String::from("record not found")));
    assert_eq!(
        remote_failure.into_write_result(),
        Ok(Err(String::from("record not found")))
    );
}

#[test]
fn list_ids_round_trips() {
    let listing = vec![
        IdHintPair { id: b"id1".to_vec(), hint: b"h1".to_vec() },
        IdHintPair { id: b"id2".to_vec(), hint: b"h2".to_vec() },
    ];
    assert_eq!(ShResult::from_list_ids(listing.clone()).into_list_ids(), Ok(listing));
}

#[test]
fn proc_result_round_trips() {
    let outputs = vec![b"out1".to_vec(), b"out2".to_vec()];
    assert_eq!(
        ShResult::from_proc_result(Ok(outputs.clone())).into_proc_result(),
        Ok(Ok(outputs))
    );
    assert_eq!(
        ShResult::from_proc_result(Err(String::from("procedure failed"))).into_proc_result(),
        Ok(Err(String::from("procedure failed")))
    );
}

#[test]
fn wrong_tag_is_a_local_error_not_a_panic() {
    assert_eq!(ShResult::from_bool(true).into_data(), Err(()));
    assert_eq!(ShResult::from_data(None).into_bool(), Err(()));
    assert_eq!(ShResult::from_empty().into_list_ids(), Err(()));
    assert_eq!(ShResult::from_write_result(Ok(())).into_proc_result(), Err(()));
    assert_eq!(ShResult::from_proc_result(Ok(vec![])).into_write_result(), Err(()));
    assert_eq!(ShResult::from_list_ids(vec![]).into_empty(), Err(()));
}

#[test]
fn remote_and_local_vault_writes_convert_both_ways() {
    let remote = WriteToRemoteVault {
        location: Location { vault_path: b"v".to_vec(), record_path: b"r".to_vec() },
        payload: vec![1, 2, 3],
        hint: b"h".to_vec(),
    };
    let local = WriteToVault::from(remote.clone());
    assert_eq!(local.location, remote.location);
    assert_eq!(local.payload, remote.payload);
    assert_eq!(local.hint, remote.hint);
    let back = WriteToRemoteVault::from(local);
    assert_eq!(back, remote);
}
