//! The permission model: per-client policies with default/exception
//! semantics, the per-peer policy that wraps them, and the firewall
//! evaluator that decides a classified request against a policy.

use vstd::prelude::*;

use crate::access::{Access, AccessRequest, AccessV};
use crate::byte_map::{clone_bytes, PathMap};

verus! {

/// Restricts access to the vaults and store of one client.
///
/// Each of Use/Write/Clone has a default flag and a per-vault-path exception
/// map; a vault path absent from the exception map inherits the default.
/// Store access is a flat flag per direction.
#[derive(Debug, Clone)]
pub struct ClientPermissions {
    use_vault_default: bool,
    use_vault_exceptions: PathMap<bool>,

    write_vault_default: bool,
    write_vault_exceptions: PathMap<bool>,

    clone_vault_default: bool,
    clone_vault_exceptions: PathMap<bool>,

    read_store: bool,
    write_store: bool,
}

/// The mathematical value of a [`ClientPermissions`].
#[verifier::ext_equal]
pub struct ClientPermissionsV {
    pub use_vault_default: bool,
    pub use_vault_exceptions: Map<Seq<u8>, bool>,
    pub write_vault_default: bool,
    pub write_vault_exceptions: Map<Seq<u8>, bool>,
    pub clone_vault_default: bool,
    pub clone_vault_exceptions: Map<Seq<u8>, bool>,
    pub read_store: bool,
    pub write_store: bool,
}

impl View for ClientPermissions {
    type V = ClientPermissionsV;

    closed spec fn view(&self) -> ClientPermissionsV {
        ClientPermissionsV {
            use_vault_default: self.use_vault_default,
            use_vault_exceptions: self.use_vault_exceptions@,
            write_vault_default: self.write_vault_default,
            write_vault_exceptions: self.write_vault_exceptions@,
            clone_vault_default: self.clone_vault_default,
            clone_vault_exceptions: self.clone_vault_exceptions@,
            read_store: self.read_store,
            write_store: self.write_store,
        }
    }
}

impl DeepView for ClientPermissions {
    type V = ClientPermissionsV;

    open spec fn deep_view(&self) -> ClientPermissionsV {
        self.view()
    }
}

/// The all-false client policy.
pub open spec fn client_permissions_none() -> ClientPermissionsV {
    ClientPermissionsV {
        use_vault_default: false,
        use_vault_exceptions: Map::empty(),
        write_vault_default: false,
        write_vault_exceptions: Map::empty(),
        clone_vault_default: false,
        clone_vault_exceptions: Map::empty(),
        read_store: false,
        write_store: false,
    }
}

/// The all-true client policy: every default set, no exceptions.
pub open spec fn client_permissions_all() -> ClientPermissionsV {
    ClientPermissionsV {
        use_vault_default: true,
        use_vault_exceptions: Map::empty(),
        write_vault_default: true,
        write_vault_exceptions: Map::empty(),
        clone_vault_default: true,
        clone_vault_exceptions: Map::empty(),
        read_store: true,
        write_store: true,
    }
}

/// Exception-then-default lookup of one boolean vault flag.
pub open spec fn vault_flag(default: bool, exceptions: Map<Seq<u8>, bool>, vault_path: Seq<u8>) -> bool {
    if exceptions.contains_key(vault_path) {
        exceptions[vault_path]
    } else {
        default
    }
}

/// Whether a client policy grants one capability. `List` is implied by any
/// of Use, Write or Clone on the same vault path.
pub open spec fn client_allows(cp: ClientPermissionsV, a: AccessV) -> bool {
    match a {
        AccessV::Use { vault_path } => vault_flag(
            cp.use_vault_default,
            cp.use_vault_exceptions,
            vault_path,
        ),
        AccessV::Write { vault_path } => vault_flag(
            cp.write_vault_default,
            cp.write_vault_exceptions,
            vault_path,
        ),
        AccessV::Clone { vault_path } => vault_flag(
            cp.clone_vault_default,
            cp.clone_vault_exceptions,
            vault_path,
        ),
        AccessV::List { vault_path } => vault_flag(
            cp.use_vault_default,
            cp.use_vault_exceptions,
            vault_path,
        ) || vault_flag(cp.write_vault_default, cp.write_vault_exceptions, vault_path)
            || vault_flag(cp.clone_vault_default, cp.clone_vault_exceptions, vault_path),
        AccessV::ReadStore => cp.read_store,
        AccessV::WriteStore => cp.write_store,
    }
}

/// Whether a client policy grants every capability of a request.
pub open spec fn client_allows_all(cp: ClientPermissionsV, locations: Seq<AccessV>) -> bool {
    forall|i: int| 0 <= i < locations.len() ==> client_allows(cp, locations[i])
}

impl ClientPermissions {
    /// No access to any structure of the client is permitted.
    pub fn none() -> (r: Self)
        ensures
            r@ == client_permissions_none(),
    {
        ClientPermissions {
            use_vault_default: false,
            use_vault_exceptions: PathMap::new(),
            write_vault_default: false,
            write_vault_exceptions: PathMap::new(),
            clone_vault_default: false,
            clone_vault_exceptions: PathMap::new(),
            read_store: false,
            write_store: false,
        }
    }

    /// Every operation on the client is permitted, including reading,
    /// writing and cloning secrets and reading/writing the store.
    pub fn all() -> (r: Self)
        ensures
            r@ == client_permissions_all(),
    {
        ClientPermissions {
            use_vault_default: true,
            use_vault_exceptions: PathMap::new(),
            write_vault_default: true,
            write_vault_exceptions: PathMap::new(),
            clone_vault_default: true,
            clone_vault_exceptions: PathMap::new(),
            read_store: true,
            write_store: true,
        }
    }

    /// Sets the default flags for accessing vaults in this client.
    pub fn with_default_vault_access(self, use_: bool, write: bool, clone_: bool) -> (r: Self)
        ensures
            r@ == (ClientPermissionsV {
                use_vault_default: use_,
                write_vault_default: write,
                clone_vault_default: clone_,
                ..self@
            }),
    {
        let mut s = self;
        s.use_vault_default = use_;
        s.write_vault_default = write;
        s.clone_vault_default = clone_;
        s
    }

    /// Sets the flags for accessing the vault at `vault_path`.
    ///
    /// Each flag is recorded in the exception map of its own capability:
    /// a Use exception never shadows a Write or Clone one.
    pub fn with_vault_access(self, vault_path: Vec<u8>, use_: bool, write: bool, clone_: bool) -> (r:
        Self)
        ensures
            r@ == (ClientPermissionsV {
                use_vault_exceptions: self@.use_vault_exceptions.insert(vault_path@, use_),
                write_vault_exceptions: self@.write_vault_exceptions.insert(vault_path@, write),
                clone_vault_exceptions: self@.clone_vault_exceptions.insert(vault_path@, clone_),
                ..self@
            }),
    {
        let mut s = self;
        let vp_for_write = clone_bytes(&vault_path);
        let vp_for_clone = clone_bytes(&vault_path);
        s.use_vault_exceptions.insert(vault_path, use_);
        s.write_vault_exceptions.insert(vp_for_write, write);
        s.clone_vault_exceptions.insert(vp_for_clone, clone_);
        s
    }

    /// Sets read and write permissions for the client's store.
    pub fn with_store_access(self, read: bool, write: bool) -> (r: Self)
        ensures
            r@ == (ClientPermissionsV { read_store: read, write_store: write, ..self@ }),
    {
        let mut s = self;
        s.read_store = read;
        s.write_store = write;
        s
    }
}

/// Permissions for one remote peer (or the network-wide default) to operate
/// on the local clients.
///
/// A client path with no entry in `exceptions` falls back to `default`;
/// an entry holding `None` denies that client everything, which is distinct
/// from having no entry at all.
#[derive(Debug, Clone)]
pub struct Permissions {
    default: Option<ClientPermissions>,
    exceptions: PathMap<Option<ClientPermissions>>,
}

/// The mathematical value of a [`Permissions`].
#[verifier::ext_equal]
pub struct PermissionsV {
    pub default: Option<ClientPermissionsV>,
    pub exceptions: Map<Seq<u8>, Option<ClientPermissionsV>>,
}

impl View for Permissions {
    type V = PermissionsV;

    closed spec fn view(&self) -> PermissionsV {
        PermissionsV { default: self.default.deep_view(), exceptions: self.exceptions@ }
    }
}

impl DeepView for Permissions {
    type V = PermissionsV;

    open spec fn deep_view(&self) -> PermissionsV {
        self.view()
    }
}

/// The policy that denies everything: no default, no exceptions.
pub open spec fn permissions_none() -> PermissionsV {
    PermissionsV { default: None, exceptions: Map::empty() }
}

/// The policy that allows everything by default.
pub open spec fn permissions_all() -> PermissionsV {
    PermissionsV { default: Some(client_permissions_all()), exceptions: Map::empty() }
}

/// The client policy in force for `client_path`: its exception entry if one
/// exists, the default otherwise. `None` means the client is denied outright.
pub open spec fn resolved_client(p: PermissionsV, client_path: Seq<u8>) -> Option<
    ClientPermissionsV,
> {
    if p.exceptions.contains_key(client_path) {
        p.exceptions[client_path]
    } else {
        p.default
    }
}

/// The firewall decision: the request is allowed iff a client policy is in
/// force for its client path and that policy grants every capability it
/// needs.
pub open spec fn allows(p: PermissionsV, client_path: Seq<u8>, locations: Seq<AccessV>) -> bool {
    match resolved_client(p, client_path) {
        Some(cp) => client_allows_all(cp, locations),
        None => false,
    }
}

impl Permissions {
    /// No operation is permitted.
    pub fn allow_none() -> (r: Self)
        ensures
            r@ == permissions_none(),
    {
        Permissions { default: None, exceptions: PathMap::new() }
    }

    /// Every operation on every client is permitted, including reading,
    /// writing and cloning secrets and reading/writing the store.
    pub fn allow_all() -> (r: Self)
        ensures
            r@ == permissions_all(),
    {
        Permissions { default: Some(ClientPermissions::all()), exceptions: PathMap::new() }
    }

    /// Sets the default policy for clients without an explicit rule.
    pub fn with_default_permissions(self, permissions: Option<ClientPermissions>) -> (r: Self)
        ensures
            r@ == (PermissionsV { default: permissions.deep_view(), ..self@ }),
    {
        let mut s = self;
        s.default = permissions;
        s
    }

    /// Sets the policy for the client at `client_path`; `None` denies that
    /// client everything.
    pub fn with_client_permissions(
        self,
        client_path: Vec<u8>,
        permissions: Option<ClientPermissions>,
    ) -> (r: Self)
        ensures
            r@ == (PermissionsV {
                exceptions: self@.exceptions.insert(client_path@, permissions.deep_view()),
                ..self@
            }),
    {
        let mut s = self;
        s.exceptions.insert(client_path, permissions);
        s
    }
}

impl AccessRequest {
    /// Evaluates this request against a peer policy: resolves the client
    /// policy by exception-then-default lookup, then requires every needed
    /// capability to be granted.
    pub fn check(&self, permissions: Permissions) -> (r: bool)
        ensures
            r == allows(permissions@, self@.client_path, self@.locations),
    {
        match permissions.exceptions.get(&self.client_path) {
            Some(entry) => match entry {
                Some(p) => self.check_with_permissions(p),
                None => false,
            },
            None => match &permissions.default {
                Some(p) => self.check_with_permissions(p),
                None => false,
            },
        }
    }

    /// Evaluates this request's capability list against one client policy.
    pub fn check_with_permissions(&self, permissions: &ClientPermissions) -> (r: bool)
        ensures
            r == client_allows_all(permissions@, self@.locations),
    {
        let mut i: usize = 0;
        while i < self.locations.len()
            invariant
                i <= self.locations@.len(),
                forall|j: int| 0 <= j < i ==> client_allows(permissions@, self@.locations[j]),
            decreases self.locations@.len() - i,
        {
            let granted = match &self.locations[i] {
                Access::Use { vault_path } => match permissions.use_vault_exceptions.get(
                    vault_path,
                ) {
                    Some(b) => *b,
                    None => permissions.use_vault_default,
                },
                Access::Write { vault_path } => match permissions.write_vault_exceptions.get(
                    vault_path,
                ) {
                    Some(b) => *b,
                    None => permissions.write_vault_default,
                },
                Access::Clone { vault_path } => match permissions.clone_vault_exceptions.get(
                    vault_path,
                ) {
                    Some(b) => *b,
                    None => permissions.clone_vault_default,
                },
                Access::List { vault_path } => {
                    let use_ = match permissions.use_vault_exceptions.get(vault_path) {
                        Some(b) => *b,
                        None => permissions.use_vault_default,
                    };
                    let write = match permissions.write_vault_exceptions.get(vault_path) {
                        Some(b) => *b,
                        None => permissions.write_vault_default,
                    };
                    let clone_ = match permissions.clone_vault_exceptions.get(vault_path) {
                        Some(b) => *b,
                        None => permissions.clone_vault_default,
                    };
                    use_ || write || clone_
                },
                Access::ReadStore => permissions.read_store,
                Access::WriteStore => permissions.write_store,
            };
            if !granted {
                assert(!client_allows(permissions@, self@.locations[i as int]));
                return false;
            }
            i += 1;
        }
        true
    }
}

} // verus!
