//! The capability model: the atomic operations a remote peer can request
//! against a client's data, and the capability set derived for one request.

use vstd::prelude::*;

verus! {

/// An atomic capability. The vault-scoped kinds carry the vault path they
/// apply to; the store kinds are scoped to the whole client.
#[derive(Debug, Clone, PartialEq)]
pub enum Access {
    /// Write to a vault: add, overwrite or revoke records.
    Write { vault_path: Vec<u8> },
    /// Read a vault's secrets out (clone them to the requester).
    Clone { vault_path: Vec<u8> },
    /// Use a vault's secrets inside a procedure without revealing them.
    Use { vault_path: Vec<u8> },
    /// List record ids and hints of a vault, or check that it exists.
    List { vault_path: Vec<u8> },
    /// Read from the client's key-value store.
    ReadStore,
    /// Write to or delete from the client's key-value store.
    WriteStore,
}

/// The mathematical value of an [`Access`].
pub enum AccessV {
    Write { vault_path: Seq<u8> },
    Clone { vault_path: Seq<u8> },
    Use { vault_path: Seq<u8> },
    List { vault_path: Seq<u8> },
    ReadStore,
    WriteStore,
}

impl View for Access {
    type V = AccessV;

    open spec fn view(&self) -> AccessV {
        match self {
            Access::Write { vault_path } => AccessV::Write { vault_path: vault_path@ },
            Access::Clone { vault_path } => AccessV::Clone { vault_path: vault_path@ },
            Access::Use { vault_path } => AccessV::Use { vault_path: vault_path@ },
            Access::List { vault_path } => AccessV::List { vault_path: vault_path@ },
            Access::ReadStore => AccessV::ReadStore,
            Access::WriteStore => AccessV::WriteStore,
        }
    }
}

impl DeepView for Access {
    type V = AccessV;

    open spec fn deep_view(&self) -> AccessV {
        self.view()
    }
}

/// The minimal capability set one inbound envelope requires: the client it
/// is addressed to, and every location it needs to touch.
#[derive(Debug, Clone, PartialEq)]
pub struct AccessRequest {
    pub client_path: Vec<u8>,
    pub locations: Vec<Access>,
}

/// The mathematical value of an [`AccessRequest`].
pub struct AccessRequestV {
    pub client_path: Seq<u8>,
    pub locations: Seq<AccessV>,
}

impl View for AccessRequest {
    type V = AccessRequestV;

    open spec fn view(&self) -> AccessRequestV {
        AccessRequestV {
            client_path: self.client_path@,
            locations: self.locations@.map_values(|a: Access| a@),
        }
    }
}

} // verus!
