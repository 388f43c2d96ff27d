//! The firewall rules, stated and proved once and for all: how the
//! evaluator's decision follows from the permission lookup, and what the
//! two canonical policies decide.

use vstd::prelude::*;

use crate::access::{AccessRequest, AccessV};
use crate::permissions::{
    allows, client_allows, client_allows_all, permissions_all, permissions_none, resolved_client,
    ClientPermissionsV, Permissions, PermissionsV,
};
use crate::request::{required_access, RequestV, ShRequest};

verus! {

/// The firewall's hot path for one inbound envelope: classify the request,
/// then evaluate the derived capability set against the peer's policy. The
/// envelope is allowed iff a client policy resolves for its client path
/// and grants every capability the request requires.
pub fn evaluate_envelope(envelope: &ShRequest, permissions: Permissions) -> (r: bool)
    ensures
        r == allows(permissions@, envelope@.client_path, required_access(envelope@.request)),
{
    let access = AccessRequest::from_request(envelope);
    access.check(permissions)
}

/// The evaluation of a capability list against a policy is exactly this:
/// when the exception-then-default lookup of the client path yields a
/// client policy, the request is allowed iff every one of its capabilities
/// resolves to true under that policy; when it yields none, the request is
/// denied whatever its capabilities are.
pub proof fn lemma_evaluation_characterized(
    p: PermissionsV,
    client_path: Seq<u8>,
    locations: Seq<AccessV>,
)
    ensures
        resolved_client(p, client_path) matches Some(cp) ==> allows(p, client_path, locations)
            == (forall|i: int| 0 <= i < locations.len() ==> client_allows(cp, locations[i])),
        resolved_client(p, client_path) is None ==> !allows(p, client_path, locations),
{
}

/// The deny-everything policy denies every classified request, for every
/// client path and every request.
pub proof fn lemma_allow_none_denies(r: RequestV, client_path: Seq<u8>)
    ensures
        !allows(permissions_none(), client_path, required_access(r)),
{
}

/// The allow-everything policy allows every classified request, for every
/// client path and every request.
pub proof fn lemma_allow_all_allows(r: RequestV, client_path: Seq<u8>)
    ensures
        allows(permissions_all(), client_path, required_access(r)),
{
    let locations = required_access(r);
    assert forall|i: int| 0 <= i < locations.len() implies client_allows(
        crate::permissions::client_permissions_all(),
        locations[i],
    ) by {
        match locations[i] {
            AccessV::Write { vault_path } => {},
            AccessV::Clone { vault_path } => {},
            AccessV::Use { vault_path } => {},
            AccessV::List { vault_path } => {},
            AccessV::ReadStore => {},
            AccessV::WriteStore => {},
        }
    }
}

/// A vault-path exception overrides the default of its own capability: with
/// an exception present the default no longer matters, and without one the
/// default decides.
pub proof fn lemma_exception_overrides_default(cp: ClientPermissionsV, vault_path: Seq<u8>)
    ensures
        cp.use_vault_exceptions.contains_key(vault_path) ==> client_allows(
            cp,
            AccessV::Use { vault_path },
        ) == cp.use_vault_exceptions[vault_path],
        !cp.use_vault_exceptions.contains_key(vault_path) ==> client_allows(
            cp,
            AccessV::Use { vault_path },
        ) == cp.use_vault_default,
        cp.write_vault_exceptions.contains_key(vault_path) ==> client_allows(
            cp,
            AccessV::Write { vault_path },
        ) == cp.write_vault_exceptions[vault_path],
        !cp.write_vault_exceptions.contains_key(vault_path) ==> client_allows(
            cp,
            AccessV::Write { vault_path },
        ) == cp.write_vault_default,
        cp.clone_vault_exceptions.contains_key(vault_path) ==> client_allows(
            cp,
            AccessV::Clone { vault_path },
        ) == cp.clone_vault_exceptions[vault_path],
        !cp.clone_vault_exceptions.contains_key(vault_path) ==> client_allows(
            cp,
            AccessV::Clone { vault_path },
        ) == cp.clone_vault_default,
{
}

/// A client path mapped to `None` among the exceptions is denied outright,
/// whatever the default policy grants and whatever the request asks.
pub proof fn lemma_client_override_denies(
    p: PermissionsV,
    client_path: Seq<u8>,
    locations: Seq<AccessV>,
)
    requires
        p.exceptions.contains_key(client_path),
        p.exceptions[client_path] is None,
    ensures
        !allows(p, client_path, locations),
{
}

/// The decision is a conjunction over the capability list: one denied
/// location denies the whole request, however many others are granted.
pub proof fn lemma_denied_location_denies(
    p: PermissionsV,
    client_path: Seq<u8>,
    locations: Seq<AccessV>,
    i: int,
)
    requires
        0 <= i < locations.len(),
        resolved_client(p, client_path) matches Some(cp) && !client_allows(cp, locations[i]),
    ensures
        !allows(p, client_path, locations),
{
}

/// List access is implied by any finer vault capability: a client policy
/// that grants Use, Write or Clone on a vault path grants List on it.
pub proof fn lemma_list_implied(cp: ClientPermissionsV, vault_path: Seq<u8>)
    requires
        client_allows(cp, AccessV::Use { vault_path }) || client_allows(
            cp,
            AccessV::Write { vault_path },
        ) || client_allows(cp, AccessV::Clone { vault_path }),
    ensures
        client_allows(cp, AccessV::List { vault_path }),
{
}

} // verus!
