//! The process-wide network configuration: timeouts, connection limits,
//! discovery toggles, cached addresses, and the permission policies the
//! firewall is built from. Constructed once at node startup and read-only
//! afterwards.

use vstd::prelude::*;

use crate::byte_map::{entries_map, PathMap};
use crate::permissions::{Permissions, PermissionsV};

verus! {

/// Known peer addresses and relays exported from a past run, kept as an
/// opaque blob for the transport to reuse.
#[derive(Debug, Clone, PartialEq)]
pub struct AddressInfo {
    pub bytes: Vec<u8>,
}

impl View for AddressInfo {
    type V = Seq<u8>;

    open spec fn view(&self) -> Seq<u8> {
        self.bytes@
    }
}

/// Limits on simultaneous connections; an unset field means no limit.
#[derive(Debug, Clone, Copy, PartialEq)]
pub struct ConnectionLimits {
    pub max_pending_incoming: Option<u32>,
    pub max_pending_outgoing: Option<u32>,
    pub max_established_incoming: Option<u32>,
    pub max_established_outgoing: Option<u32>,
}

/// The configuration snapshot handed to the network actor at startup.
///
/// Timeouts are in milliseconds; an unset timeout leaves the transport's
/// own default in force.
#[derive(Debug, Clone)]
pub struct NetworkConfig {
    request_timeout: Option<u64>,
    connection_timeout: Option<u64>,
    connections_limit: Option<ConnectionLimits>,
    enable_mdns: bool,
    enable_relay: bool,
    addresses: Option<AddressInfo>,
    peer_permissions: PathMap<Permissions>,
    permissions_default: Permissions,
}

/// The mathematical value of a [`NetworkConfig`].
#[verifier::ext_equal]
pub struct NetworkConfigV {
    pub request_timeout: Option<u64>,
    pub connection_timeout: Option<u64>,
    pub connections_limit: Option<ConnectionLimits>,
    pub enable_mdns: bool,
    pub enable_relay: bool,
    pub addresses: Option<Seq<u8>>,
    pub peer_permissions: Map<Seq<u8>, PermissionsV>,
    pub permissions_default: PermissionsV,
}

impl View for NetworkConfig {
    type V = NetworkConfigV;

    closed spec fn view(&self) -> NetworkConfigV {
        NetworkConfigV {
            request_timeout: self.request_timeout,
            connection_timeout: self.connection_timeout,
            connections_limit: self.connections_limit,
            enable_mdns: self.enable_mdns,
            enable_relay: self.enable_relay,
            addresses: match &self.addresses {
                Some(a) => Some(a@),
                None => None,
            },
            peer_permissions: self.peer_permissions@,
            permissions_default: self.permissions_default@,
        }
    }
}

impl NetworkConfig {
    /// A new configuration with the given default permissions: no
    /// connection limit, no explicit timeouts, mdns and relay disabled,
    /// no cached addresses and no per-peer rules.
    pub fn new(default_permissions: Permissions) -> (r: Self)
        ensures
            r@ == (NetworkConfigV {
                request_timeout: None,
                connection_timeout: None,
                connections_limit: None,
                enable_mdns: false,
                enable_relay: false,
                addresses: None,
                peer_permissions: Map::empty(),
                permissions_default: default_permissions@,
            }),
    {
        NetworkConfig {
            request_timeout: None,
            connection_timeout: None,
            connections_limit: None,
            enable_mdns: false,
            enable_relay: false,
            addresses: None,
            peer_permissions: PathMap::new(),
            permissions_default: default_permissions,
        }
    }

    /// Sets the timeout, in milliseconds, for receiving a response after a
    /// request was sent; it applies to inbound and outbound requests.
    pub fn with_request_timeout(self, t: u64) -> (r: Self)
        ensures
            r@ == (NetworkConfigV { request_timeout: Some(t), ..self@ }),
    {
        let mut s = self;
        s.request_timeout = Some(t);
        s
    }

    /// Sets the limit for simultaneous connections; by default none applies.
    pub fn with_connections_limit(self, limit: ConnectionLimits) -> (r: Self)
        ensures
            r@ == (NetworkConfigV { connections_limit: Some(limit), ..self@ }),
    {
        let mut s = self;
        s.connections_limit = Some(limit);
        s
    }

    /// Sets the timeout, in milliseconds, for an idle connection to a
    /// remote peer.
    pub fn with_connection_timeout(self, t: u64) -> (r: Self)
        ensures
            r@ == (NetworkConfigV { connection_timeout: Some(t), ..self@ }),
    {
        let mut s = self;
        s.connection_timeout = Some(t);
        s
    }

    /// Enables or disables local peer discovery. Enabling it broadcasts
    /// this node's address and id to the local network.
    pub fn with_mdns_enabled(self, is_enabled: bool) -> (r: Self)
        ensures
            r@ == (NetworkConfigV { enable_mdns: is_enabled, ..self@ }),
    {
        let mut s = self;
        s.enable_mdns = is_enabled;
        s
    }

    /// Enables or disables relay functionality; when enabled, other peers
    /// may also use this node as a relay.
    pub fn with_relay_enabled(self, is_enabled: bool) -> (r: Self)
        ensures
            r@ == (NetworkConfigV { enable_relay: is_enabled, ..self@ }),
    {
        let mut s = self;
        s.enable_relay = is_enabled;
        s
    }

    /// Imports known addresses and relays from a past network actor.
    pub fn with_address_info(self, info: AddressInfo) -> (r: Self)
        ensures
            r@ == (NetworkConfigV { addresses: Some(info@), ..self@ }),
    {
        let mut s = self;
        s.addresses = Some(info);
        s
    }

    /// Sets the permissions for one remote peer, keyed by its identity
    /// bytes; peers without an entry get the default permissions.
    pub fn with_peer_permissions(self, peer: Vec<u8>, permissions: Permissions) -> (r: Self)
        ensures
            r@ == (NetworkConfigV {
                peer_permissions: self@.peer_permissions.insert(peer@, permissions@),
                ..self@
            }),
    {
        let mut s = self;
        s.peer_permissions.insert(peer, permissions);
        s
    }

    /// The default permissions, for peers without an explicit rule.
    pub fn default_permissions(&self) -> (r: &Permissions)
        ensures
            r@ == self@.permissions_default,
    {
        &self.permissions_default
    }

    /// The per-peer permission entries, in insertion order; they denote
    /// the per-peer policy map.
    pub fn peer_permission_entries(&self) -> (r: &Vec<(Vec<u8>, Permissions)>)
        ensures
            entries_map(r@) == self@.peer_permissions,
    {
        self.peer_permissions.entries()
    }

    /// The request timeout in milliseconds, if one was set.
    pub fn request_timeout(&self) -> (r: Option<u64>)
        ensures
            r == self@.request_timeout,
    {
        self.request_timeout
    }

    /// The idle-connection timeout in milliseconds, if one was set.
    pub fn connection_timeout(&self) -> (r: Option<u64>)
        ensures
            r == self@.connection_timeout,
    {
        self.connection_timeout
    }

    /// The connection limits, if any were set.
    pub fn connections_limit(&self) -> (r: Option<ConnectionLimits>)
        ensures
            r == self@.connections_limit,
    {
        self.connections_limit
    }

    /// Whether local peer discovery is enabled.
    pub fn mdns_enabled(&self) -> (r: bool)
        ensures
            r == self@.enable_mdns,
    {
        self.enable_mdns
    }

    /// Whether relay functionality is enabled.
    pub fn relay_enabled(&self) -> (r: bool)
        ensures
            r == self@.enable_relay,
    {
        self.enable_relay
    }

    /// The cached address blob, if one was imported.
    pub fn address_info(&self) -> (r: &Option<AddressInfo>)
        ensures
            match r {
                Some(a) => self@.addresses == Some(a@),
                None => self@.addresses is None,
            },
    {
        &self.addresses
    }
}

} // verus!
