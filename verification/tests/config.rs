use vault_firewall::access::{Access, AccessRequest};
use vault_firewall::config::{AddressInfo, ConnectionLimits, NetworkConfig};
use vault_firewall::permissions::{ClientPermissions, Permissions};

#[test]
fn new_config_has_conservative_defaults() {
    let config = NetworkConfig::new(Permissions::allow_none());
    assert_eq!(config.request_timeout(), None);
    assert_eq!(config.connection_timeout(), None);
    assert_eq!(config.connections_limit(), None);
    assert!(!config.mdns_enabled());
    assert!(!config.relay_enabled());
    assert!(config.address_info().is_none());
    assert!(config.peer_permission_entries().is_empty());
}

#[test]
fn builders_set_their_fields() {
    let limits = ConnectionLimits {
        max_pending_incoming: Some(8),
        max_pending_outgoing: None,
        max_established_incoming: Some(64),
        max_established_outgoing: Some(64),
    };
    let config = NetworkConfig::new(Permissions::allow_none())
        .with_request_timeout(10_000)
        .with_connection_timeout(30_000)
        .with_connections_limit(limits)
        .with_mdns_enabled(true)
        .with_relay_enabled(true)
        .with_address_info(AddressInfo { bytes: b"exported".to_vec() });
    assert_eq!(config.request_timeout(), Some(10_000));
    assert_eq!(config.connection_timeout(), Some(30_000));
    assert_eq!(config.connections_limit(), Some(limits));
    assert!(config.mdns_enabled());
    assert!(config.relay_enabled());
    assert_eq!(
        config.address_info().as_ref().map(|a| a.bytes.clone()),
        Some(b"exported".to_vec())
    );
}

#[test]
fn per_peer_permissions_are_kept_by_peer_identity() {
    let open_for_alice = Permissions::allow_none()
        .with_client_permissions(b"alice".to_vec(), Some(ClientPermissions::all()));
    let config = NetworkConfig::new(Permissions::allow_none())
        .with_peer_permissions(b"peer-x".to_vec(), open_for_alice);

    let entries = config.peer_permission_entries();
    assert_eq!(entries.len(), 1);
    assert_eq!(entries[0].0, b"peer-x".to_vec());

    // The stored policy still evaluates as installed.
    let request = AccessRequest {
        client_path: b"alice".to_vec(),
        locations: vec![Access::ReadStore],
    };
    assert!(request.check(entries[0].1.clone()));
    assert!(!request.check(config.default_permissions().clone()));
}
