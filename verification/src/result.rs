//! The result protocol: one closed envelope mirroring every return shape a
//! remote operation can produce, with lossless conversion to and from each
//! native return type. Converting to the wrong native type reports a local
//! programming error, never a remote failure.

use vstd::prelude::*;

use crate::request::{RecordHint, RecordId};

verus! {

/// A remote record failure, as carried back over the wire.
pub type RemoteRecordError = String;

/// The output of one procedure of a batch.
pub type ProcedureOutput = Vec<u8>;

/// A procedure failure, as carried back over the wire.
pub type ProcedureError = String;

/// One id/hint pair of a vault listing.
#[derive(Debug, Clone, PartialEq)]
pub struct IdHintPair {
    pub id: RecordId,
    pub hint: RecordHint,
}

/// Every return shape a remote operation can produce.
#[derive(Debug, PartialEq)]
pub enum ShResult {
    /// The operation returns nothing.
    Empty,
    /// An optional byte value, as a store read returns it.
    Data(Option<Vec<u8>>),
    /// An existence check's answer.
    Bool(bool),
    /// The outcome of a vault write or revocation.
    WriteRemoteVault(Result<(), RemoteRecordError>),
    /// A vault listing.
    ListIds(Vec<IdHintPair>),
    /// The outcome of a procedure batch.
    Proc(Result<Vec<ProcedureOutput>, ProcedureError>),
}

impl ShResult {
    /// Wraps an empty outcome.
    pub fn from_empty() -> (r: ShResult)
        ensures
            r == ShResult::Empty,
    {
        ShResult::Empty
    }

    /// Unwraps an empty outcome; any other tag is a local error.
    pub fn into_empty(self) -> (r: Result<(), ()>)
        ensures
            r == (match self {
                ShResult::Empty => Ok::<(), ()>(()),
                _ => Err::<(), ()>(()),
            }),
    {
        if let ShResult::Empty = self {
            Ok(())
        } else {
            Err(())
        }
    }

    /// Wraps an optional byte value.
    pub fn from_data(inner: Option<Vec<u8>>) -> (r: ShResult)
        ensures
            r == ShResult::Data(inner),
    {
        ShResult::Data(inner)
    }

    /// Unwraps an optional byte value; any other tag is a local error.
    pub fn into_data(self) -> (r: Result<Option<Vec<u8>>, ()>)
        ensures
            r == (match self {
                ShResult::Data(v) => Ok::<Option<Vec<u8>>, ()>(v),
                _ => Err::<Option<Vec<u8>>, ()>(()),
            }),
    {
        if let ShResult::Data(v) = self {
            Ok(v)
        } else {
            Err(())
        }
    }

    /// Wraps an existence answer.
    pub fn from_bool(inner: bool) -> (r: ShResult)
        ensures
            r == ShResult::Bool(inner),
    {
        ShResult::Bool(inner)
    }

    /// Unwraps an existence answer; any other tag is a local error.
    pub fn into_bool(self) -> (r: Result<bool, ()>)
        ensures
            r == (match self {
                ShResult::Bool(v) => Ok::<bool, ()>(v),
                _ => Err::<bool, ()>(()),
            }),
    {
        if let ShResult::Bool(v) = self {
            Ok(v)
        } else {
            Err(())
        }
    }

    /// Wraps a vault-write outcome.
    pub fn from_write_result(inner: Result<(), RemoteRecordError>) -> (r: ShResult)
        ensures
            r == ShResult::WriteRemoteVault(inner),
    {
        ShResult::WriteRemoteVault(inner)
    }

    /// Unwraps a vault-write outcome; any other tag is a local error. A
    /// failure reported inside the matching tag comes back as `Ok(Err(..))`.
    pub fn into_write_result(self) -> (r: Result<Result<(), RemoteRecordError>, ()>)
        ensures
            r == (match self {
                ShResult::WriteRemoteVault(v) => Ok::<Result<(), RemoteRecordError>, ()>(v),
                _ => Err::<Result<(), RemoteRecordError>, ()>(()),
            }),
    {
        if let ShResult::WriteRemoteVault(v) = self {
            Ok(v)
        } else {
            Err(())
        }
    }

    /// Wraps a vault listing.
    pub fn from_list_ids(inner: Vec<IdHintPair>) -> (r: ShResult)
        ensures
            r == ShResult::ListIds(inner),
    {
        ShResult::ListIds(inner)
    }

    /// Unwraps a vault listing; any other tag is a local error.
    pub fn into_list_ids(self) -> (r: Result<Vec<IdHintPair>, ()>)
        ensures
            r == (match self {
                ShResult::ListIds(v) => Ok::<Vec<IdHintPair>, ()>(v),
                _ => Err::<Vec<IdHintPair>, ()>(()),
            }),
    {
        if let ShResult::ListIds(v) = self {
            Ok(v)
        } else {
            Err(())
        }
    }

    /// Wraps a procedure-batch outcome.
    pub fn from_proc_result(inner: Result<Vec<ProcedureOutput>, ProcedureError>) -> (r: ShResult)
        ensures
            r == ShResult::Proc(inner),
    {
        ShResult::Proc(inner)
    }

    /// Unwraps a procedure-batch outcome; any other tag is a local error. A
    /// failure reported inside the matching tag comes back as `Ok(Err(..))`.
    pub fn into_proc_result(self) -> (r: Result<Result<Vec<ProcedureOutput>, ProcedureError>, ()>)
        ensures
            r == (match self {
                ShResult::Proc(v) => Ok::<Result<Vec<ProcedureOutput>, ProcedureError>, ()>(v),
                _ => Err::<Result<Vec<ProcedureOutput>, ProcedureError>, ()>(()),
            }),
    {
        if let ShResult::Proc(v) = self {
            Ok(v)
        } else {
            Err(())
        }
    }
}

} // verus!
