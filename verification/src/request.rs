//! The remote-operation envelope: every operation a peer can invoke on a
//! client, and the total classifier that maps each one to the minimal set
//! of capabilities it requires.

use vstd::prelude::*;

use crate::access::{Access, AccessRequest, AccessV};
use crate::byte_map::clone_bytes;

verus! {

/// A record address: the vault that holds the record and the record's own
/// path within it.
#[derive(Debug, Clone, PartialEq)]
pub struct Location {
    pub vault_path: Vec<u8>,
    pub record_path: Vec<u8>,
}

/// The mathematical value of a [`Location`].
pub struct LocationV {
    pub vault_path: Seq<u8>,
    pub record_path: Seq<u8>,
}

impl View for Location {
    type V = LocationV;

    open spec fn view(&self) -> LocationV {
        LocationV { vault_path: self.vault_path@, record_path: self.record_path@ }
    }
}

impl Location {
    /// The path of the vault this location belongs to.
    pub fn vault_path(&self) -> (r: &Vec<u8>)
        ensures
            r@ == self@.vault_path,
    {
        &self.vault_path
    }
}

/// A record hint carried beside a record id when vault contents are listed.
pub type RecordHint = Vec<u8>;

/// A record id as listed to a remote peer.
pub type RecordId = Vec<u8>;

/// A write of one record into a remote client's vault.
#[derive(Debug, Clone, PartialEq)]
pub struct WriteToRemoteVault {
    pub location: Location,
    pub payload: Vec<u8>,
    pub hint: RecordHint,
}

/// The mathematical value of a [`WriteToRemoteVault`].
pub struct WriteToRemoteVaultV {
    pub location: LocationV,
    pub payload: Seq<u8>,
    pub hint: Seq<u8>,
}

impl View for WriteToRemoteVault {
    type V = WriteToRemoteVaultV;

    open spec fn view(&self) -> WriteToRemoteVaultV {
        WriteToRemoteVaultV {
            location: self.location@,
            payload: self.payload@,
            hint: self.hint@,
        }
    }
}

/// The same write as the local storage engine takes it.
#[derive(Debug, Clone, PartialEq)]
pub struct WriteToVault {
    pub location: Location,
    pub payload: Vec<u8>,
    pub hint: RecordHint,
}

/// The mathematical value of a [`WriteToVault`].
pub struct WriteToVaultV {
    pub location: LocationV,
    pub payload: Seq<u8>,
    pub hint: Seq<u8>,
}

impl View for WriteToVault {
    type V = WriteToVaultV;

    open spec fn view(&self) -> WriteToVaultV {
        WriteToVaultV { location: self.location@, payload: self.payload@, hint: self.hint@ }
    }
}

impl From<WriteToRemoteVault> for WriteToVault {
    /// Hands the write over to the local storage engine's message type.
    fn from(t: WriteToRemoteVault) -> (r: WriteToVault) {
        WriteToVault { location: t.location, payload: t.payload, hint: t.hint }
    }
}

impl vstd::std_specs::convert::FromSpecImpl<WriteToRemoteVault> for WriteToVault {
    open spec fn obeys_from_spec() -> bool {
        true
    }

    open spec fn from_spec(t: WriteToRemoteVault) -> WriteToVault {
        WriteToVault { location: t.location, payload: t.payload, hint: t.hint }
    }
}

impl From<WriteToVault> for WriteToRemoteVault {
    /// Wraps a local write for the remote protocol.
    fn from(t: WriteToVault) -> (r: WriteToRemoteVault) {
        WriteToRemoteVault { location: t.location, payload: t.payload, hint: t.hint }
    }
}

impl vstd::std_specs::convert::FromSpecImpl<WriteToVault> for WriteToRemoteVault {
    open spec fn obeys_from_spec() -> bool {
        true
    }

    open spec fn from_spec(t: WriteToVault) -> WriteToRemoteVault {
        WriteToRemoteVault { location: t.location, payload: t.payload, hint: t.hint }
    }
}

/// A cryptographic procedure as the firewall sees it: only the locations it
/// declares matter here, the computation itself is the vault engine's work.
#[derive(Debug, Clone, PartialEq)]
pub enum Procedure {
    /// Revokes the record at `location`.
    RevokeData { location: Location },
    /// Collects revoked records of the vault at `vault_path`.
    GarbageCollect { vault_path: Vec<u8> },
    /// A general transform: uses the declared input secret, if any, and
    /// writes the declared output secret, if any.
    Transform { input: Option<Location>, output: Option<Location> },
}

/// The mathematical value of a [`Procedure`].
pub enum ProcedureV {
    RevokeData { location: LocationV },
    GarbageCollect { vault_path: Seq<u8> },
    Transform { input: Option<LocationV>, output: Option<LocationV> },
}

impl View for Procedure {
    type V = ProcedureV;

    open spec fn view(&self) -> ProcedureV {
        match self {
            Procedure::RevokeData { location } => ProcedureV::RevokeData { location: location@ },
            Procedure::GarbageCollect { vault_path } => ProcedureV::GarbageCollect {
                vault_path: vault_path@,
            },
            Procedure::Transform { input, output } => ProcedureV::Transform {
                input: match input {
                    Some(l) => Some(l@),
                    None => None,
                },
                output: match output {
                    Some(l) => Some(l@),
                    None => None,
                },
            },
        }
    }
}

/// Every operation a remote peer can invoke on a client of this node.
#[derive(Debug, Clone, PartialEq)]
pub enum Request {
    /// Does the vault at `vault_path` exist?
    CheckVault { vault_path: Vec<u8> },
    /// Does the record at `location` exist?
    CheckRecord { location: Location },
    /// List the record ids and hints of the vault at `vault_path`.
    ListIds { vault_path: Vec<u8> },
    /// Write a record into a vault.
    WriteToRemoteVault(WriteToRemoteVault),
    /// Revoke the record at `location`.
    RevokeData { location: Location },
    /// Read the store value under `key`.
    ReadFromStore { key: Vec<u8> },
    /// Write `payload` under `key`, optionally expiring after `lifetime`
    /// milliseconds.
    WriteToStore { key: Vec<u8>, payload: Vec<u8>, lifetime: Option<u64> },
    /// Delete the store value under `key`.
    DeleteFromStore { key: Vec<u8> },
    /// Run a batch of procedures in order.
    Procedures { procedures: Vec<Procedure> },
}

/// The mathematical value of a [`Request`].
pub enum RequestV {
    CheckVault { vault_path: Seq<u8> },
    CheckRecord { location: LocationV },
    ListIds { vault_path: Seq<u8> },
    WriteToRemoteVault(WriteToRemoteVaultV),
    RevokeData { location: LocationV },
    ReadFromStore { key: Seq<u8> },
    WriteToStore { key: Seq<u8>, payload: Seq<u8>, lifetime: Option<u64> },
    DeleteFromStore { key: Seq<u8> },
    Procedures { procedures: Seq<ProcedureV> },
}

impl View for Request {
    type V = RequestV;

    open spec fn view(&self) -> RequestV {
        match self {
            Request::CheckVault { vault_path } => RequestV::CheckVault { vault_path: vault_path@ },
            Request::CheckRecord { location } => RequestV::CheckRecord { location: location@ },
            Request::ListIds { vault_path } => RequestV::ListIds { vault_path: vault_path@ },
            Request::WriteToRemoteVault(w) => RequestV::WriteToRemoteVault(w@),
            Request::RevokeData { location } => RequestV::RevokeData { location: location@ },
            Request::ReadFromStore { key } => RequestV::ReadFromStore { key: key@ },
            Request::WriteToStore { key, payload, lifetime } => RequestV::WriteToStore {
                key: key@,
                payload: payload@,
                lifetime: *lifetime,
            },
            Request::DeleteFromStore { key } => RequestV::DeleteFromStore { key: key@ },
            Request::Procedures { procedures } => RequestV::Procedures {
                procedures: procedures@.map_values(|p: Procedure| p@),
            },
        }
    }
}

/// The envelope one untyped channel carries: the client the request is
/// addressed to, and the typed request itself.
#[derive(Debug, Clone, PartialEq)]
pub struct ShRequest {
    pub client_path: Vec<u8>,
    pub request: Request,
}

/// The mathematical value of a [`ShRequest`].
pub struct ShRequestV {
    pub client_path: Seq<u8>,
    pub request: RequestV,
}

impl View for ShRequest {
    type V = ShRequestV;

    open spec fn view(&self) -> ShRequestV {
        ShRequestV { client_path: self.client_path@, request: self.request@ }
    }
}

/// The capabilities one procedure requires: a data-deleting procedure needs
/// `Write` on its target vault; a transform needs `Use` on its declared
/// input and `Write` on its declared output, and one that declares neither
/// contributes no entry.
pub open spec fn procedure_access(p: ProcedureV) -> Seq<AccessV> {
    match p {
        ProcedureV::RevokeData { location } => seq![
            AccessV::Write { vault_path: location.vault_path },
        ],
        ProcedureV::GarbageCollect { vault_path } => seq![AccessV::Write { vault_path }],
        ProcedureV::Transform { input, output } => {
            let input_part = match input {
                Some(l) => seq![AccessV::Use { vault_path: l.vault_path }],
                None => Seq::<AccessV>::empty(),
            };
            let output_part = match output {
                Some(l) => seq![AccessV::Write { vault_path: l.vault_path }],
                None => Seq::<AccessV>::empty(),
            };
            input_part + output_part
        },
    }
}

/// The capabilities a batch of procedures requires, in batch order.
pub open spec fn procedures_access(ps: Seq<ProcedureV>) -> Seq<AccessV>
    decreases ps.len(),
{
    if ps.len() == 0 {
        Seq::<AccessV>::empty()
    } else {
        procedures_access(ps.drop_last()) + procedure_access(ps.last())
    }
}

/// The minimal capability set a request requires: existence and listing
/// checks need `List`, vault writes and revocations need `Write`, store
/// reads need `ReadStore`, store writes and deletions need `WriteStore`,
/// and a procedure batch needs the union of its procedures' entries.
pub open spec fn required_access(r: RequestV) -> Seq<AccessV> {
    match r {
        RequestV::CheckVault { vault_path } => seq![AccessV::List { vault_path }],
        RequestV::CheckRecord { location } => seq![
            AccessV::List { vault_path: location.vault_path },
        ],
        RequestV::ListIds { vault_path } => seq![AccessV::List { vault_path }],
        RequestV::WriteToRemoteVault(w) => seq![
            AccessV::Write { vault_path: w.location.vault_path },
        ],
        RequestV::RevokeData { location } => seq![
            AccessV::Write { vault_path: location.vault_path },
        ],
        RequestV::ReadFromStore { .. } => seq![AccessV::ReadStore],
        RequestV::WriteToStore { .. } => seq![AccessV::WriteStore],
        RequestV::DeleteFromStore { .. } => seq![AccessV::WriteStore],
        RequestV::Procedures { procedures } => procedures_access(procedures),
    }
}

impl AccessRequest {
    /// Classifies an envelope: derives the minimal capability set its
    /// request requires, tagged with the envelope's client path. Total over
    /// the closed request variants; nothing reaches the storage engine or
    /// the network here.
    pub fn from_request(request: &ShRequest) -> (r: AccessRequest)
        ensures
            r@.client_path == request@.client_path,
            r@.locations == required_access(request@.request),
    {
        let client_path = clone_bytes(&request.client_path);
        let mut locations: Vec<Access> = Vec::new();
        match &request.request {
            Request::CheckVault { vault_path } => {
                locations.push(Access::List { vault_path: clone_bytes(vault_path) });
            },
            Request::CheckRecord { location } => {
                locations.push(Access::List { vault_path: clone_bytes(location.vault_path()) });
            },
            Request::ListIds { vault_path } => {
                locations.push(Access::List { vault_path: clone_bytes(vault_path) });
            },
            Request::WriteToRemoteVault(w) => {
                locations.push(Access::Write { vault_path: clone_bytes(w.location.vault_path()) });
            },
            Request::RevokeData { location } => {
                locations.push(Access::Write { vault_path: clone_bytes(location.vault_path()) });
            },
            Request::ReadFromStore { .. } => {
                locations.push(Access::ReadStore);
            },
            Request::WriteToStore { .. } => {
                locations.push(Access::WriteStore);
            },
            Request::DeleteFromStore { .. } => {
                locations.push(Access::WriteStore);
            },
            Request::Procedures { procedures } => {
                let ghost procs = procedures@.map_values(|p: Procedure| p@);
                let mut i: usize = 0;
                while i < procedures.len()
                    invariant
                        i <= procedures@.len(),
                        procs == procedures@.map_values(|p: Procedure| p@),
                        locations@.map_values(|a: Access| a@) == procedures_access(
                            procs.take(i as int),
                        ),
                    decreases procedures@.len() - i,
                {
                    let ghost before = locations@.map_values(|a: Access| a@);
                    match &procedures[i] {
                        Procedure::RevokeData { location } => {
                            locations.push(
                                Access::Write { vault_path: clone_bytes(location.vault_path()) },
                            );
                        },
                        Procedure::GarbageCollect { vault_path } => {
                            locations.push(Access::Write { vault_path: clone_bytes(vault_path) });
                        },
                        Procedure::Transform { input, output } => {
                            if let Some(l) = input {
                                locations.push(
                                    Access::Use { vault_path: clone_bytes(l.vault_path()) },
                                );
                            }
                            if let Some(l) = output {
                                locations.push(
                                    Access::Write { vault_path: clone_bytes(l.vault_path()) },
                                );
                            }
                        },
                    }
                    proof {
                        assert(locations@.map_values(|a: Access| a@) =~= before + procedure_access(
                            procs[i as int],
                        ));
                        assert(procs.take(i + 1).drop_last() =~= procs.take(i as int));
                        assert(procs.take(i + 1).last() == procs[i as int]);
                    }
                    i += 1;
                }
                proof {
                    assert(procs.take(procedures@.len() as int) =~= procs);
                }
            },
        }
        proof {
            if !(request.request is Procedures) {
                assert(locations@.map_values(|a: Access| a@) =~= required_access(
                    request@.request,
                ));
            }
        }
        AccessRequest { client_path, locations }
    }
}

} // verus!
