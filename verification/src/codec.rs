//! The envelope wire format: a length-prefixed little-endian byte encoding
//! of [`ShRequest`], with a verified decoder and a proof that decoding an
//! encoding yields the original envelope.
//!
//! Layout: byte strings are an 8-byte little-endian length followed by the
//! raw bytes; options are a presence byte; enums are a tag byte followed by
//! the variant's fields in order; a procedure batch is its count followed
//! by the procedures in order.

use vstd::prelude::*;

use crate::request::{
    Location, LocationV, Procedure, ProcedureV, Request, RequestV, ShRequest, ShRequestV,
    WriteToRemoteVault, WriteToRemoteVaultV,
};

verus! {

/// 256 to the `k`-th power: the number of values `k` bytes can hold.
pub open spec fn pow256(k: nat) -> nat
    decreases k,
{
    if k == 0 {
        1
    } else {
        256 * pow256((k - 1) as nat)
    }
}

/// The `k`-byte little-endian encoding of `n`.
pub open spec fn le_bytes(n: nat, k: nat) -> Seq<u8>
    decreases k,
{
    if k == 0 {
        Seq::<u8>::empty()
    } else {
        seq![(n % 256) as u8] + le_bytes(n / 256, (k - 1) as nat)
    }
}

/// The value a little-endian byte string denotes.
pub open spec fn le_val(s: Seq<u8>) -> nat
    decreases s.len(),
{
    if s.len() == 0 {
        0
    } else {
        (s[0] + 256 * le_val(s.skip(1))) as nat
    }
}

/// An 8-byte length prefix.
pub open spec fn enc_len(n: nat) -> Seq<u8> {
    le_bytes(n, 8)
}

/// A length-prefixed byte string.
pub open spec fn enc_bytes(b: Seq<u8>) -> Seq<u8> {
    enc_len(b.len()) + b
}

/// An optional 8-byte value behind a presence byte.
pub open spec fn enc_opt_u64(o: Option<u64>) -> Seq<u8> {
    match o {
        None => seq![0u8],
        Some(n) => seq![1u8] + le_bytes(n as nat, 8),
    }
}

/// A location: its vault path, then its record path.
pub open spec fn enc_location(l: LocationV) -> Seq<u8> {
    enc_bytes(l.vault_path) + enc_bytes(l.record_path)
}

/// An optional location behind a presence byte.
pub open spec fn enc_opt_location(o: Option<LocationV>) -> Seq<u8> {
    match o {
        None => seq![0u8],
        Some(l) => seq![1u8] + enc_location(l),
    }
}

/// A procedure: a tag byte, then the variant's fields.
pub open spec fn enc_procedure(p: ProcedureV) -> Seq<u8> {
    match p {
        ProcedureV::RevokeData { location } => seq![1u8] + enc_location(location),
        ProcedureV::GarbageCollect { vault_path } => seq![2u8] + enc_bytes(vault_path),
        ProcedureV::Transform { input, output } => seq![3u8] + enc_opt_location(input)
            + enc_opt_location(output),
    }
}

/// The procedures of a batch, in order.
pub open spec fn enc_procedure_list(ps: Seq<ProcedureV>) -> Seq<u8>
    decreases ps.len(),
{
    if ps.len() == 0 {
        Seq::<u8>::empty()
    } else {
        enc_procedure(ps[0]) + enc_procedure_list(ps.skip(1))
    }
}

/// A procedure batch: its count, then the procedures in order.
pub open spec fn enc_procedures(ps: Seq<ProcedureV>) -> Seq<u8> {
    enc_len(ps.len()) + enc_procedure_list(ps)
}

/// A request: a tag byte, then the variant's fields in order.
pub open spec fn enc_request(r: RequestV) -> Seq<u8> {
    match r {
        RequestV::CheckVault { vault_path } => seq![1u8] + enc_bytes(vault_path),
        RequestV::CheckRecord { location } => seq![2u8] + enc_location(location),
        RequestV::ListIds { vault_path } => seq![3u8] + enc_bytes(vault_path),
        RequestV::WriteToRemoteVault(w) => seq![4u8] + enc_location(w.location) + enc_bytes(
            w.payload,
        ) + enc_bytes(w.hint),
        RequestV::RevokeData { location } => seq![5u8] + enc_location(location),
        RequestV::ReadFromStore { key } => seq![6u8] + enc_bytes(key),
        RequestV::WriteToStore { key, payload, lifetime } => seq![7u8] + enc_bytes(key)
            + enc_bytes(payload) + enc_opt_u64(lifetime),
        RequestV::DeleteFromStore { key } => seq![8u8] + enc_bytes(key),
        RequestV::Procedures { procedures } => seq![9u8] + enc_procedures(procedures),
    }
}

/// An envelope: the client path, then the request.
pub open spec fn enc_envelope(e: ShRequestV) -> Seq<u8> {
    enc_bytes(e.client_path) + enc_request(e.request)
}

/// Reads an 8-byte length prefix.
pub open spec fn dec_len(s: Seq<u8>) -> Option<(nat, Seq<u8>)> {
    if s.len() >= 8 {
        Some((le_val(s.take(8)), s.skip(8)))
    } else {
        None
    }
}

/// Reads a length-prefixed byte string.
pub open spec fn dec_bytes(s: Seq<u8>) -> Option<(Seq<u8>, Seq<u8>)> {
    match dec_len(s) {
        Some((n, rest)) => if rest.len() >= n {
            Some((rest.take(n as int), rest.skip(n as int)))
        } else {
            None
        },
        None => None,
    }
}

/// Reads an optional 8-byte value behind a presence byte.
pub open spec fn dec_opt_u64(s: Seq<u8>) -> Option<(Option<u64>, Seq<u8>)> {
    if s.len() == 0 {
        None
    } else if s[0] == 0 {
        Some((None, s.skip(1)))
    } else if s[0] == 1 {
        match dec_len(s.skip(1)) {
            Some((n, rest)) => Some((Some(n as u64), rest)),
            None => None,
        }
    } else {
        None
    }
}

/// Reads a location.
pub open spec fn dec_location(s: Seq<u8>) -> Option<(LocationV, Seq<u8>)> {
    match dec_bytes(s) {
        Some((vault_path, r1)) => match dec_bytes(r1) {
            Some((record_path, r2)) => Some((LocationV { vault_path, record_path }, r2)),
            None => None,
        },
        None => None,
    }
}

/// Reads an optional location behind a presence byte.
pub open spec fn dec_opt_location(s: Seq<u8>) -> Option<(Option<LocationV>, Seq<u8>)> {
    if s.len() == 0 {
        None
    } else if s[0] == 0 {
        Some((None, s.skip(1)))
    } else if s[0] == 1 {
        match dec_location(s.skip(1)) {
            Some((l, rest)) => Some((Some(l), rest)),
            None => None,
        }
    } else {
        None
    }
}

/// Reads one procedure.
pub open spec fn dec_procedure(s: Seq<u8>) -> Option<(ProcedureV, Seq<u8>)> {
    if s.len() == 0 {
        None
    } else if s[0] == 1 {
        match dec_location(s.skip(1)) {
            Some((location, rest)) => Some((ProcedureV::RevokeData { location }, rest)),
            None => None,
        }
    } else if s[0] == 2 {
        match dec_bytes(s.skip(1)) {
            Some((vault_path, rest)) => Some((ProcedureV::GarbageCollect { vault_path }, rest)),
            None => None,
        }
    } else if s[0] == 3 {
        match dec_opt_location(s.skip(1)) {
            Some((input, r1)) => match dec_opt_location(r1) {
                Some((output, r2)) => Some((ProcedureV::Transform { input, output }, r2)),
                None => None,
            },
            None => None,
        }
    } else {
        None
    }
}

/// Reads `count` procedures in order.
pub open spec fn dec_procedure_list(s: Seq<u8>, count: nat) -> Option<(Seq<ProcedureV>, Seq<u8>)>
    decreases count,
{
    if count == 0 {
        Some((Seq::<ProcedureV>::empty(), s))
    } else {
        match dec_procedure(s) {
            Some((p, r1)) => match dec_procedure_list(r1, (count - 1) as nat) {
                Some((ps, r2)) => Some((seq![p] + ps, r2)),
                None => None,
            },
            None => None,
        }
    }
}

/// Reads a procedure batch.
pub open spec fn dec_procedures(s: Seq<u8>) -> Option<(Seq<ProcedureV>, Seq<u8>)> {
    match dec_len(s) {
        Some((n, rest)) => dec_procedure_list(rest, n),
        None => None,
    }
}

/// Reads a request.
pub open spec fn dec_request(s: Seq<u8>) -> Option<(RequestV, Seq<u8>)> {
    if s.len() == 0 {
        None
    } else {
        let t = s.skip(1);
        if s[0] == 1 {
            match dec_bytes(t) {
                Some((vault_path, rest)) => Some((RequestV::CheckVault { vault_path }, rest)),
                None => None,
            }
        } else if s[0] == 2 {
            match dec_location(t) {
                Some((location, rest)) => Some((RequestV::CheckRecord { location }, rest)),
                None => None,
            }
        } else if s[0] == 3 {
            match dec_bytes(t) {
                Some((vault_path, rest)) => Some((RequestV::ListIds { vault_path }, rest)),
                None => None,
            }
        } else if s[0] == 4 {
            match dec_location(t) {
                Some((location, r1)) => match dec_bytes(r1) {
                    Some((payload, r2)) => match dec_bytes(r2) {
                        Some((hint, r3)) => Some(
                            (
                                RequestV::WriteToRemoteVault(
                                    WriteToRemoteVaultV { location, payload, hint },
                                ),
                                r3,
                            ),
                        ),
                        None => None,
                    },
                    None => None,
                },
                None => None,
            }
        } else if s[0] == 5 {
            match dec_location(t) {
                Some((location, rest)) => Some((RequestV::RevokeData { location }, rest)),
                None => None,
            }
        } else if s[0] == 6 {
            match dec_bytes(t) {
                Some((key, rest)) => Some((RequestV::ReadFromStore { key }, rest)),
                None => None,
            }
        } else if s[0] == 7 {
            match dec_bytes(t) {
                Some((key, r1)) => match dec_bytes(r1) {
                    Some((payload, r2)) => match dec_opt_u64(r2) {
                        Some((lifetime, r3)) => Some(
                            (RequestV::WriteToStore { key, payload, lifetime }, r3),
                        ),
                        None => None,
                    },
                    None => None,
                },
                None => None,
            }
        } else if s[0] == 8 {
            match dec_bytes(t) {
                Some((key, rest)) => Some((RequestV::DeleteFromStore { key }, rest)),
                None => None,
            }
        } else if s[0] == 9 {
            match dec_procedures(t) {
                Some((procedures, rest)) => Some((RequestV::Procedures { procedures }, rest)),
                None => None,
            }
        } else {
            None
        }
    }
}

/// Reads a whole envelope; trailing bytes make the message invalid.
pub open spec fn dec_envelope(s: Seq<u8>) -> Option<ShRequestV> {
    match dec_bytes(s) {
        Some((client_path, r1)) => match dec_request(r1) {
            Some((request, r2)) => if r2.len() == 0 {
                Some(ShRequestV { client_path, request })
            } else {
                None
            },
            None => None,
        },
        None => None,
    }
}

/// Whether a byte string's length fits its 8-byte prefix.
pub open spec fn bytes_wf(b: Seq<u8>) -> bool {
    b.len() < 0x1_0000_0000_0000_0000
}

/// Whether both paths of a location fit their prefixes.
pub open spec fn location_wf(l: LocationV) -> bool {
    bytes_wf(l.vault_path) && bytes_wf(l.record_path)
}

/// Whether a procedure's declared locations fit their prefixes.
pub open spec fn procedure_wf(p: ProcedureV) -> bool {
    match p {
        ProcedureV::RevokeData { location } => location_wf(location),
        ProcedureV::GarbageCollect { vault_path } => bytes_wf(vault_path),
        ProcedureV::Transform { input, output } => (match input {
            Some(l) => location_wf(l),
            None => true,
        }) && (match output {
            Some(l) => location_wf(l),
            None => true,
        }),
    }
}

/// Whether every field of a request fits its length prefix.
pub open spec fn request_wf(r: RequestV) -> bool {
    match r {
        RequestV::CheckVault { vault_path } => bytes_wf(vault_path),
        RequestV::CheckRecord { location } => location_wf(location),
        RequestV::ListIds { vault_path } => bytes_wf(vault_path),
        RequestV::WriteToRemoteVault(w) => location_wf(w.location) && bytes_wf(w.payload)
            && bytes_wf(w.hint),
        RequestV::RevokeData { location } => location_wf(location),
        RequestV::ReadFromStore { key } => bytes_wf(key),
        RequestV::WriteToStore { key, payload, lifetime } => bytes_wf(key) && bytes_wf(payload),
        RequestV::DeleteFromStore { key } => bytes_wf(key),
        RequestV::Procedures { procedures } => procedures.len() < 0x1_0000_0000_0000_0000
            && forall|i: int| 0 <= i < procedures.len() ==> procedure_wf(#[trigger] procedures[i]),
    }
}

/// Whether every field of an envelope fits its length prefix. Every
/// envelope built from executable values is well formed, since no vector
/// outgrows the address space.
pub open spec fn envelope_wf(e: ShRequestV) -> bool {
    bytes_wf(e.client_path) && request_wf(e.request)
}

/// A little-endian string denotes less than 256 to its length.
proof fn lemma_le_val_bound(s: Seq<u8>)
    ensures
        le_val(s) < pow256(s.len()),
    decreases s.len(),
{
    if s.len() > 0 {
        lemma_le_val_bound(s.skip(1));
    }
}

/// Little-endian encoding of `k` bytes is exact below 256^k.
proof fn lemma_le_round_trip(n: nat, k: nat)
    requires
        n < pow256(k),
    ensures
        le_bytes(n, k).len() == k,
        le_val(le_bytes(n, k)) == n,
    decreases k,
{
    if k > 0 {
        let q = n / 256;
        let r = n % 256;
        vstd::arithmetic::div_mod::lemma_fundamental_div_mod(n as int, 256);
        assert(q < pow256((k - 1) as nat)) by (nonlinear_arith)
            requires
                n < 256 * pow256((k - 1) as nat),
                q == n / 256,
        ;
        lemma_le_round_trip(q, (k - 1) as nat);
        let s = le_bytes(n, k);
        assert(s.skip(1) =~= le_bytes(q, (k - 1) as nat));
        assert(s[0] == r as u8);
    }
}

/// Reading a length prefix undoes writing one.
proof fn lemma_dec_len(n: nat, rest: Seq<u8>)
    requires
        n < pow256(8),
    ensures
        dec_len(enc_len(n) + rest) == Some((n, rest)),
{
    lemma_le_round_trip(n, 8);
    let s = enc_len(n) + rest;
    assert(s.take(8) =~= enc_len(n));
    assert(s.skip(8) =~= rest);
}

/// Reading a byte string undoes writing one.
proof fn lemma_dec_bytes(b: Seq<u8>, rest: Seq<u8>)
    requires
        bytes_wf(b),
    ensures
        dec_bytes(enc_bytes(b) + rest) == Some((b, rest)),
{
    lemma_pow256_8();
    let s = enc_bytes(b) + rest;
    assert(s =~= enc_len(b.len()) + (b + rest));
    lemma_dec_len(b.len(), b + rest);
    assert((b + rest).take(b.len() as int) =~= b);
    assert((b + rest).skip(b.len() as int) =~= rest);
}

/// Reading an optional 8-byte value undoes writing one.
proof fn lemma_dec_opt_u64(o: Option<u64>, rest: Seq<u8>)
    ensures
        dec_opt_u64(enc_opt_u64(o) + rest) == Some((o, rest)),
{
    match o {
        None => {
            let s = enc_opt_u64(o) + rest;
            assert(s[0] == 0);
            assert(s.skip(1) =~= rest);
        },
        Some(n) => {
            let s = enc_opt_u64(o) + rest;
            assert(s[0] == 1);
            assert(s.skip(1) =~= le_bytes(n as nat, 8) + rest);
            assert((n as nat) < pow256(8)) by {
                reveal_with_fuel(pow256, 9);
            }
            lemma_dec_len(n as nat, rest);
        },
    }
}

/// Reading a location undoes writing one.
proof fn lemma_dec_location(l: LocationV, rest: Seq<u8>)
    requires
        location_wf(l),
    ensures
        dec_location(enc_location(l) + rest) == Some((l, rest)),
{
    let s = enc_location(l) + rest;
    assert(s =~= enc_bytes(l.vault_path) + (enc_bytes(l.record_path) + rest));
    lemma_dec_bytes(l.vault_path, enc_bytes(l.record_path) + rest);
    lemma_dec_bytes(l.record_path, rest);
}

/// Reading an optional location undoes writing one.
proof fn lemma_dec_opt_location(o: Option<LocationV>, rest: Seq<u8>)
    requires
        o matches Some(l) ==> location_wf(l),
    ensures
        dec_opt_location(enc_opt_location(o) + rest) == Some((o, rest)),
{
    match o {
        None => {
            let s = enc_opt_location(o) + rest;
            assert(s[0] == 0);
            assert(s.skip(1) =~= rest);
        },
        Some(l) => {
            let s = enc_opt_location(o) + rest;
            assert(s[0] == 1);
            assert(s.skip(1) =~= enc_location(l) + rest);
            lemma_dec_location(l, rest);
        },
    }
}

/// Reading a procedure undoes writing one.
proof fn lemma_dec_procedure(p: ProcedureV, rest: Seq<u8>)
    requires
        procedure_wf(p),
    ensures
        dec_procedure(enc_procedure(p) + rest) == Some((p, rest)),
{
    let s = enc_procedure(p) + rest;
    match p {
        ProcedureV::RevokeData { location } => {
            assert(s[0] == 1);
            assert(s.skip(1) =~= enc_location(location) + rest);
            lemma_dec_location(location, rest);
        },
        ProcedureV::GarbageCollect { vault_path } => {
            assert(s[0] == 2);
            assert(s.skip(1) =~= enc_bytes(vault_path) + rest);
            lemma_dec_bytes(vault_path, rest);
        },
        ProcedureV::Transform { input, output } => {
            assert(s[0] == 3);
            assert(s.skip(1) =~= enc_opt_location(input) + (enc_opt_location(output) + rest));
            lemma_dec_opt_location(input, enc_opt_location(output) + rest);
            lemma_dec_opt_location(output, rest);
        },
    }
}

/// Reading a procedure list undoes writing one.
proof fn lemma_dec_procedure_list(ps: Seq<ProcedureV>, rest: Seq<u8>)
    requires
        forall|i: int| 0 <= i < ps.len() ==> procedure_wf(#[trigger] ps[i]),
    ensures
        dec_procedure_list(enc_procedure_list(ps) + rest, ps.len()) == Some((ps, rest)),
    decreases ps.len(),
{
    if ps.len() == 0 {
        assert(enc_procedure_list(ps) + rest =~= rest);
        assert(ps =~= Seq::<ProcedureV>::empty());
    } else {
        let tail = ps.skip(1);
        assert(enc_procedure_list(ps) + rest =~= enc_procedure(ps[0]) + (enc_procedure_list(tail)
            + rest));
        lemma_dec_procedure(ps[0], enc_procedure_list(tail) + rest);
        assert(forall|i: int| 0 <= i < tail.len() ==> procedure_wf(#[trigger] tail[i]));
        lemma_dec_procedure_list(tail, rest);
        assert(seq![ps[0]] + tail =~= ps);
    }
}

/// Reading a procedure batch undoes writing one.
proof fn lemma_dec_procedures(ps: Seq<ProcedureV>, rest: Seq<u8>)
    requires
        ps.len() < 0x1_0000_0000_0000_0000,
        forall|i: int| 0 <= i < ps.len() ==> procedure_wf(#[trigger] ps[i]),
    ensures
        dec_procedures(enc_procedures(ps) + rest) == Some((ps, rest)),
{
    lemma_pow256_8();
    let s = enc_procedures(ps) + rest;
    assert(s =~= enc_len(ps.len()) + (enc_procedure_list(ps) + rest));
    lemma_dec_len(ps.len(), enc_procedure_list(ps) + rest);
    lemma_dec_procedure_list(ps, rest);
}

/// Reading a request with a single byte-string or location payload undoes
/// writing one.
proof fn lemma_dec_request_simple(r: RequestV, rest: Seq<u8>)
    requires
        request_wf(r),
        r is CheckVault || r is CheckRecord || r is ListIds || r is RevokeData
            || r is ReadFromStore || r is DeleteFromStore,
    ensures
        dec_request(enc_request(r) + rest) == Some((r, rest)),
{
    let s = enc_request(r) + rest;
    match r {
        RequestV::CheckVault { vault_path } => {
            assert(s[0] == 1);
            assert(s.skip(1) =~= enc_bytes(vault_path) + rest);
            lemma_dec_bytes(vault_path, rest);
        },
        RequestV::CheckRecord { location } => {
            assert(s[0] == 2);
            assert(s.skip(1) =~= enc_location(location) + rest);
            lemma_dec_location(location, rest);
        },
        RequestV::ListIds { vault_path } => {
            assert(s[0] == 3);
            assert(s.skip(1) =~= enc_bytes(vault_path) + rest);
            lemma_dec_bytes(vault_path, rest);
        },
        RequestV::RevokeData { location } => {
            assert(s[0] == 5);
            assert(s.skip(1) =~= enc_location(location) + rest);
            lemma_dec_location(location, rest);
        },
        RequestV::ReadFromStore { key } => {
            assert(s[0] == 6);
            assert(s.skip(1) =~= enc_bytes(key) + rest);
            lemma_dec_bytes(key, rest);
        },
        RequestV::DeleteFromStore { key } => {
            assert(s[0] == 8);
            assert(s.skip(1) =~= enc_bytes(key) + rest);
            lemma_dec_bytes(key, rest);
        },
        _ => {},
    }
}

/// Reading a vault or store write undoes writing one.
proof fn lemma_dec_request_writes(r: RequestV, rest: Seq<u8>)
    requires
        request_wf(r),
        r is WriteToRemoteVault || r is WriteToStore,
    ensures
        dec_request(enc_request(r) + rest) == Some((r, rest)),
{
    let s = enc_request(r) + rest;
    match r {
        RequestV::WriteToRemoteVault(w) => {
            assert(s[0] == 4);
            assert(s.skip(1) =~= enc_location(w.location) + (enc_bytes(w.payload) + (enc_bytes(
                w.hint,
            ) + rest)));
            lemma_dec_location(w.location, enc_bytes(w.payload) + (enc_bytes(w.hint) + rest));
            lemma_dec_bytes(w.payload, enc_bytes(w.hint) + rest);
            lemma_dec_bytes(w.hint, rest);
        },
        RequestV::WriteToStore { key, payload, lifetime } => {
            assert(s[0] == 7);
            assert(s.skip(1) =~= enc_bytes(key) + (enc_bytes(payload) + (enc_opt_u64(lifetime)
                + rest)));
            lemma_dec_bytes(key, enc_bytes(payload) + (enc_opt_u64(lifetime) + rest));
            lemma_dec_bytes(payload, enc_opt_u64(lifetime) + rest);
            lemma_dec_opt_u64(lifetime, rest);
        },
        _ => {},
    }
}

/// Reading a procedure-batch request undoes writing one.
proof fn lemma_dec_request_procedures(r: RequestV, rest: Seq<u8>)
    requires
        request_wf(r),
        r is Procedures,
    ensures
        dec_request(enc_request(r) + rest) == Some((r, rest)),
{
    let s = enc_request(r) + rest;
    match r {
        RequestV::Procedures { procedures } => {
            assert(s[0] == 9);
            assert(s.skip(1) =~= enc_procedures(procedures) + rest);
            lemma_dec_procedures(procedures, rest);
        },
        _ => {},
    }
}

/// Reading a request undoes writing one.
proof fn lemma_dec_request(r: RequestV, rest: Seq<u8>)
    requires
        request_wf(r),
    ensures
        dec_request(enc_request(r) + rest) == Some((r, rest)),
{
    match r {
        RequestV::WriteToRemoteVault(..) => lemma_dec_request_writes(r, rest),
        RequestV::WriteToStore { .. } => lemma_dec_request_writes(r, rest),
        RequestV::Procedures { .. } => lemma_dec_request_procedures(r, rest),
        _ => lemma_dec_request_simple(r, rest),
    }
}

/// Decoding an encoded envelope yields the original envelope: the wire
/// format loses nothing, for every request variant.
pub proof fn lemma_envelope_round_trip(e: ShRequestV)
    requires
        envelope_wf(e),
    ensures
        dec_envelope(enc_envelope(e)) == Some(e),
{
    let s = enc_envelope(e);
    assert(s =~= enc_bytes(e.client_path) + (enc_request(e.request) + Seq::<u8>::empty()));
    lemma_dec_bytes(e.client_path, enc_request(e.request) + Seq::<u8>::empty());
    lemma_dec_request(e.request, Seq::<u8>::empty());
}


/// The spec value of an optional location.
pub open spec fn opt_location_view(o: Option<Location>) -> Option<LocationV> {
    match o {
        Some(l) => Some(l@),
        None => None,
    }
}

/// 256 to a power grows with the exponent.
proof fn lemma_pow256_mono(a: nat, b: nat)
    requires
        a <= b,
    ensures
        pow256(a) <= pow256(b),
    decreases b,
{
    if a < b {
        lemma_pow256_mono(a, (b - 1) as nat);
    }
}

/// The number of values 8 bytes can hold.
proof fn lemma_pow256_8()
    ensures
        pow256(8) == 0x1_0000_0000_0000_0000,
{
    reveal_with_fuel(pow256, 9);
}

/// Appends the 8-byte little-endian encoding of `n`.
fn push_u64(out: &mut Vec<u8>, n: u64)
    ensures
        final(out)@ == old(out)@ + le_bytes(n as nat, 8),
{
    let ghost orig = out@;
    let mut m: u64 = n;
    let mut k: usize = 0;
    while k < 8
        invariant
            k <= 8,
            out@ + le_bytes(m as nat, (8 - k) as nat) == orig + le_bytes(n as nat, 8),
        decreases 8 - k,
    {
        let ghost out0 = out@;
        let ghost m0 = m as nat;
        out.push((m % 256) as u8);
        m = m / 256;
        proof {
            assert(le_bytes(m0, (8 - k) as nat) == seq![(m0 % 256) as u8] + le_bytes(
                m0 / 256,
                (7 - k) as nat,
            ));
            assert(out@ + le_bytes(m as nat, (7 - k) as nat) =~= out0 + le_bytes(
                m0,
                (8 - k) as nat,
            ));
        }
        k += 1;
    }
    proof {
        assert(out@ + le_bytes(m as nat, 0) =~= out@);
    }
}

/// Appends a length-prefixed byte string.
fn push_bytes(out: &mut Vec<u8>, b: &Vec<u8>)
    ensures
        final(out)@ == old(out)@ + enc_bytes(b@),
{
    let ghost orig = out@;
    push_u64(out, b.len() as u64);
    let ghost prefix = out@;
    let mut i: usize = 0;
    while i < b.len()
        invariant
            i <= b@.len(),
            out@ == prefix + b@.take(i as int),
        decreases b@.len() - i,
    {
        out.push(b[i]);
        proof {
            assert(out@ =~= prefix + b@.take(i + 1));
        }
        i += 1;
    }
    proof {
        assert(b@.take(b@.len() as int) =~= b@);
        assert((orig + le_bytes(b@.len(), 8)) + b@ =~= orig + enc_bytes(b@));
    }
}

/// Appends an optional 8-byte value behind a presence byte.
fn push_opt_u64(out: &mut Vec<u8>, o: &Option<u64>)
    ensures
        final(out)@ == old(out)@ + enc_opt_u64(*o),
{
    let ghost orig = out@;
    match o {
        None => {
            out.push(0);
            proof {
                assert(out@ =~= orig + enc_opt_u64(None));
            }
        },
        Some(n) => {
            out.push(1);
            let ghost mid = out@;
            push_u64(out, *n);
            proof {
                assert(mid =~= orig + seq![1u8]);
                assert(out@ =~= orig + enc_opt_u64(Some(*n)));
            }
        },
    }
}

/// Appends a location.
fn push_location(out: &mut Vec<u8>, l: &Location)
    ensures
        final(out)@ == old(out)@ + enc_location(l@),
{
    let ghost orig = out@;
    push_bytes(out, &l.vault_path);
    push_bytes(out, &l.record_path);
    proof {
        assert(out@ =~= orig + enc_location(l@));
    }
}

/// Appends an optional location behind a presence byte.
fn push_opt_location(out: &mut Vec<u8>, o: &Option<Location>)
    ensures
        final(out)@ == old(out)@ + enc_opt_location(opt_location_view(*o)),
{
    let ghost orig = out@;
    match o {
        None => {
            out.push(0);
            proof {
                assert(out@ =~= orig + enc_opt_location(None));
            }
        },
        Some(l) => {
            out.push(1);
            let ghost mid = out@;
            push_location(out, l);
            proof {
                assert(mid =~= orig + seq![1u8]);
                assert(out@ =~= orig + enc_opt_location(Some(l@)));
            }
        },
    }
}

/// Appends one procedure.
fn push_procedure(out: &mut Vec<u8>, p: &Procedure)
    ensures
        final(out)@ == old(out)@ + enc_procedure(p@),
{
    let ghost orig = out@;
    match p {
        Procedure::RevokeData { location } => {
            out.push(1);
            let ghost mid = out@;
            push_location(out, location);
            proof {
                assert(mid =~= orig + seq![1u8]);
                assert(out@ =~= orig + enc_procedure(p@));
            }
        },
        Procedure::GarbageCollect { vault_path } => {
            out.push(2);
            let ghost mid = out@;
            push_bytes(out, vault_path);
            proof {
                assert(mid =~= orig + seq![2u8]);
                assert(out@ =~= orig + enc_procedure(p@));
            }
        },
        Procedure::Transform { input, output } => {
            out.push(3);
            let ghost mid = out@;
            push_opt_location(out, input);
            push_opt_location(out, output);
            proof {
                assert(mid =~= orig + seq![3u8]);
                assert(out@ =~= orig + enc_procedure(p@));
            }
        },
    }
}

/// A procedure list encoding grows at its end when the list does.
proof fn lemma_enc_procedure_list_snoc(ps: Seq<ProcedureV>)
    requires
        ps.len() > 0,
    ensures
        enc_procedure_list(ps) == enc_procedure_list(ps.drop_last()) + enc_procedure(ps.last()),
    decreases ps.len(),
{
    if ps.len() == 1 {
        assert(ps.skip(1) =~= Seq::<ProcedureV>::empty());
        assert(ps.drop_last() =~= Seq::<ProcedureV>::empty());
        assert(enc_procedure_list(ps) =~= enc_procedure_list(ps.drop_last()) + enc_procedure(
            ps.last(),
        ));
    } else {
        let tail = ps.skip(1);
        lemma_enc_procedure_list_snoc(tail);
        assert(tail.drop_last() =~= ps.drop_last().skip(1));
        assert(tail.last() == ps.last());
        assert(ps.drop_last()[0] == ps[0]);
        assert(enc_procedure_list(ps) =~= enc_procedure_list(ps.drop_last()) + enc_procedure(
            ps.last(),
        ));
    }
}

/// Appends a request: its tag byte, then its fields.
fn push_request(out: &mut Vec<u8>, r: &Request)
    ensures
        final(out)@ == old(out)@ + enc_request(r@),
{
    let ghost orig = out@;
    match r {
        Request::CheckVault { vault_path } => {
            out.push(1);
            let ghost mid = out@;
            push_bytes(out, vault_path);
            proof {
                assert(mid =~= orig + seq![1u8]);
                assert(out@ =~= orig + enc_request(r@));
            }
        },
        Request::CheckRecord { location } => {
            out.push(2);
            let ghost mid = out@;
            push_location(out, location);
            proof {
                assert(mid =~= orig + seq![2u8]);
                assert(out@ =~= orig + enc_request(r@));
            }
        },
        Request::ListIds { vault_path } => {
            out.push(3);
            let ghost mid = out@;
            push_bytes(out, vault_path);
            proof {
                assert(mid =~= orig + seq![3u8]);
                assert(out@ =~= orig + enc_request(r@));
            }
        },
        Request::WriteToRemoteVault(w) => {
            out.push(4);
            let ghost mid = out@;
            push_location(out, &w.location);
            push_bytes(out, &w.payload);
            push_bytes(out, &w.hint);
            proof {
                assert(mid =~= orig + seq![4u8]);
                assert(out@ =~= orig + enc_request(r@));
            }
        },
        Request::RevokeData { location } => {
            out.push(5);
            let ghost mid = out@;
            push_location(out, location);
            proof {
                assert(mid =~= orig + seq![5u8]);
                assert(out@ =~= orig + enc_request(r@));
            }
        },
        Request::ReadFromStore { key } => {
            out.push(6);
            let ghost mid = out@;
            push_bytes(out, key);
            proof {
                assert(mid =~= orig + seq![6u8]);
                assert(out@ =~= orig + enc_request(r@));
            }
        },
        Request::WriteToStore { key, payload, lifetime } => {
            out.push(7);
            let ghost mid = out@;
            push_bytes(out, key);
            push_bytes(out, payload);
            push_opt_u64(out, lifetime);
            proof {
                assert(mid =~= orig + seq![7u8]);
                assert(out@ =~= orig + enc_request(r@));
            }
        },
        Request::DeleteFromStore { key } => {
            out.push(8);
            let ghost mid = out@;
            push_bytes(out, key);
            proof {
                assert(mid =~= orig + seq![8u8]);
                assert(out@ =~= orig + enc_request(r@));
            }
        },
        Request::Procedures { procedures } => {
            let ghost views = procedures@.map_values(|q: Procedure| q@);
            out.push(9);
            let ghost mid = out@;
            push_u64(out, procedures.len() as u64);
            let ghost prefix = out@;
            let mut i: usize = 0;
            while i < procedures.len()
                invariant
                    i <= procedures@.len(),
                    views == procedures@.map_values(|q: Procedure| q@),
                    out@ == prefix + enc_procedure_list(views.take(i as int)),
                decreases procedures@.len() - i,
            {
                let ghost out0 = out@;
                push_procedure(out, &procedures[i]);
                proof {
                    lemma_enc_procedure_list_snoc(views.take(i + 1));
                    assert(views.take(i + 1).drop_last() =~= views.take(i as int));
                    assert(views.take(i + 1).last() == views[i as int]);
                    assert(out@ =~= prefix + enc_procedure_list(views.take(i + 1)));
                }
                i += 1;
            }
            proof {
                assert(views.take(views.len() as int) =~= views);
                assert(mid =~= orig + seq![9u8]);
                assert(prefix =~= orig + seq![9u8] + le_bytes(views.len(), 8));
                assert(out@ =~= orig + enc_request(r@));
            }
        },
    }
}

/// Encodes an envelope into its wire bytes.
pub fn encode_envelope(e: &ShRequest) -> (out: Vec<u8>)
    ensures
        out@ == enc_envelope(e@),
{
    let mut out: Vec<u8> = Vec::new();
    push_bytes(&mut out, &e.client_path);
    push_request(&mut out, &e.request);
    proof {
        assert(out@ =~= enc_envelope(e@));
    }
    out
}

/// Reads an 8-byte length at `pos`.
fn read_u64(s: &Vec<u8>, pos: usize) -> (r: Option<(u64, usize)>)
    requires
        pos <= s@.len(),
    ensures
        match r {
            Some(p) => p.1 == pos + 8 && p.1 <= s@.len() && dec_len(s@.skip(pos as int)) == Some(
                ((p.0 as nat), s@.skip(p.1 as int)),
            ),
            None => dec_len(s@.skip(pos as int)) is None,
        },
{
    if s.len() - pos < 8 {
        return None;
    }
    assert(pos + 8 <= usize::MAX);
    let mut val: u64 = 0;
    let mut k: usize = 8;
    while k > 0
        invariant
            k <= 8,
            pos + 8 <= usize::MAX,
            pos + 8 <= s@.len(),
            val as nat == le_val(s@.subrange(pos + k, pos + 8)),
            (val as nat) < pow256((8 - k) as nat),
        decreases k,
    {
        k = k - 1;
        let b = s[pos + k];
        proof {
            let t = s@.subrange(pos + k, pos + 8);
            assert(t.skip(1) =~= s@.subrange(pos + k + 1, pos + 8));
            assert(t[0] == b);
            lemma_pow256_mono((7 - k) as nat, 7);
            lemma_pow256_8();
            reveal_with_fuel(pow256, 2);
            assert(pow256((8 - k) as nat) == 256 * pow256((7 - k) as nat));
        }
        val = val * 256 + (b as u64);
    }
    proof {
        assert(s@.skip(pos as int).take(8) =~= s@.subrange(pos as int, pos + 8));
        assert(s@.skip(pos as int).skip(8) =~= s@.skip(pos + 8));
    }
    Some((val, pos + 8))
}

/// Reads a length-prefixed byte string at `pos`.
fn read_bytes(s: &Vec<u8>, pos: usize) -> (r: Option<(Vec<u8>, usize)>)
    requires
        pos <= s@.len(),
    ensures
        match r {
            Some(p) => pos <= p.1 <= s@.len() && dec_bytes(s@.skip(pos as int)) == Some(
                (p.0@, s@.skip(p.1 as int)),
            ),
            None => dec_bytes(s@.skip(pos as int)) is None,
        },
{
    let (n, start) = match read_u64(s, pos) {
        Some(p) => p,
        None => {
            return None;
        },
    };
    if ((s.len() - start) as u64) < n {
        proof {
            assert(s@.skip(start as int).len() < n as nat);
        }
        return None;
    }
    let count = n as usize;
    proof {
        assert(count as nat == n as nat);
        assert(start + count <= s@.len());
    }
    assert(start + count <= usize::MAX);
    let mut out: Vec<u8> = Vec::new();
    let mut i: usize = 0;
    while i < count
        invariant
            i <= count,
            start + count <= usize::MAX,
            start + count <= s@.len(),
            out@ == s@.subrange(start as int, start + i),
        decreases count - i,
    {
        out.push(s[start + i]);
        proof {
            assert(out@ =~= s@.subrange(start as int, start + i + 1));
        }
        i += 1;
    }
    proof {
        let rest = s@.skip(start as int);
        assert(rest.take(n as int) =~= s@.subrange(start as int, start + count));
        assert(rest.skip(n as int) =~= s@.skip(start + count));
    }
    Some((out, start + count))
}

/// Reads an optional 8-byte value at `pos`.
fn read_opt_u64(s: &Vec<u8>, pos: usize) -> (r: Option<(Option<u64>, usize)>)
    requires
        pos <= s@.len(),
    ensures
        match r {
            Some(p) => pos <= p.1 <= s@.len() && dec_opt_u64(s@.skip(pos as int)) == Some(
                (p.0, s@.skip(p.1 as int)),
            ),
            None => dec_opt_u64(s@.skip(pos as int)) is None,
        },
{
    if pos == s.len() {
        return None;
    }
    let tag = s[pos];
    proof {
        assert(s@.skip(pos as int)[0] == tag);
        assert(s@.skip(pos as int).skip(1) =~= s@.skip(pos + 1));
    }
    if tag == 0 {
        Some((None, pos + 1))
    } else if tag == 1 {
        match read_u64(s, pos + 1) {
            Some(p) => Some((Some(p.0), p.1)),
            None => None,
        }
    } else {
        None
    }
}

/// Reads a location at `pos`.
fn read_location(s: &Vec<u8>, pos: usize) -> (r: Option<(Location, usize)>)
    requires
        pos <= s@.len(),
    ensures
        match r {
            Some(p) => pos <= p.1 <= s@.len() && dec_location(s@.skip(pos as int)) == Some(
                (p.0@, s@.skip(p.1 as int)),
            ),
            None => dec_location(s@.skip(pos as int)) is None,
        },
{
    let (vault_path, c1) = match read_bytes(s, pos) {
        Some(p) => p,
        None => {
            return None;
        },
    };
    let (record_path, c2) = match read_bytes(s, c1) {
        Some(p) => p,
        None => {
            return None;
        },
    };
    Some((Location { vault_path, record_path }, c2))
}

/// Reads an optional location at `pos`.
fn read_opt_location(s: &Vec<u8>, pos: usize) -> (r: Option<(Option<Location>, usize)>)
    requires
        pos <= s@.len(),
    ensures
        match r {
            Some(p) => pos <= p.1 <= s@.len() && dec_opt_location(s@.skip(pos as int)) == Some(
                (opt_location_view(p.0), s@.skip(p.1 as int)),
            ),
            None => dec_opt_location(s@.skip(pos as int)) is None,
        },
{
    if pos == s.len() {
        return None;
    }
    let tag = s[pos];
    proof {
        assert(s@.skip(pos as int)[0] == tag);
        assert(s@.skip(pos as int).skip(1) =~= s@.skip(pos + 1));
    }
    if tag == 0 {
        Some((None, pos + 1))
    } else if tag == 1 {
        match read_location(s, pos + 1) {
            Some(p) => Some((Some(p.0), p.1)),
            None => None,
        }
    } else {
        None
    }
}

/// Reads one procedure at `pos`.
fn read_procedure(s: &Vec<u8>, pos: usize) -> (r: Option<(Procedure, usize)>)
    requires
        pos <= s@.len(),
    ensures
        match r {
            Some(p) => pos <= p.1 <= s@.len() && dec_procedure(s@.skip(pos as int)) == Some(
                (p.0@, s@.skip(p.1 as int)),
            ),
            None => dec_procedure(s@.skip(pos as int)) is None,
        },
{
    if pos == s.len() {
        return None;
    }
    let tag = s[pos];
    proof {
        assert(s@.skip(pos as int)[0] == tag);
        assert(s@.skip(pos as int).skip(1) =~= s@.skip(pos + 1));
    }
    if tag == 1 {
        match read_location(s, pos + 1) {
            Some(p) => Some((Procedure::RevokeData { location: p.0 }, p.1)),
            None => None,
        }
    } else if tag == 2 {
        match read_bytes(s, pos + 1) {
            Some(p) => Some((Procedure::GarbageCollect { vault_path: p.0 }, p.1)),
            None => None,
        }
    } else if tag == 3 {
        let (input, c1) = match read_opt_location(s, pos + 1) {
            Some(p) => p,
            None => {
                return None;
            },
        };
        let (output, c2) = match read_opt_location(s, c1) {
            Some(p) => p,
            None => {
                return None;
            },
        };
        Some((Procedure::Transform { input, output }, c2))
    } else {
        None
    }
}

/// Reads a procedure batch at `pos`.
fn read_procedures(s: &Vec<u8>, pos: usize) -> (r: Option<(Vec<Procedure>, usize)>)
    requires
        pos <= s@.len(),
    ensures
        match r {
            Some(p) => pos <= p.1 <= s@.len() && dec_procedures(s@.skip(pos as int)) == Some(
                (p.0@.map_values(|q: Procedure| q@), s@.skip(p.1 as int)),
            ),
            None => dec_procedures(s@.skip(pos as int)) is None,
        },
{
    let (n, start) = match read_u64(s, pos) {
        Some(p) => p,
        None => {
            return None;
        },
    };
    let mut out: Vec<Procedure> = Vec::new();
    let mut cur: usize = start;
    let mut remaining: u64 = n;
    proof {
        assert(out@.map_values(|q: Procedure| q@) =~= Seq::<ProcedureV>::empty());
        let d = dec_procedure_list(s@.skip(start as int), n as nat);
        match d {
            Some(pp) => {
                assert(out@.map_values(|q: Procedure| q@) + pp.0 =~= pp.0);
            },
            None => {},
        }
    }
    while remaining > 0
        invariant
            pos <= start <= cur <= s@.len(),
            dec_len(s@.skip(pos as int)) == Some(((n as nat), s@.skip(start as int))),
            dec_procedure_list(s@.skip(start as int), n as nat) == (match dec_procedure_list(
                s@.skip(cur as int),
                remaining as nat,
            ) {
                Some(p) => Some(
                    (out@.map_values(|q: Procedure| q@) + p.0, p.1),
                ),
                None => None::<(Seq<ProcedureV>, Seq<u8>)>,
            }),
        decreases remaining,
    {
        let ghost out_views = out@.map_values(|q: Procedure| q@);
        let (p, c2) = match read_procedure(s, cur) {
            Some(x) => x,
            None => {
                proof {
                    assert(dec_procedure_list(s@.skip(cur as int), remaining as nat) is None);
                    assert(dec_procedure_list(s@.skip(start as int), n as nat) is None);
                    assert(dec_procedures(s@.skip(pos as int)) is None);
                }
                return None;
            },
        };
        proof {
            let inner = dec_procedure_list(s@.skip(c2 as int), (remaining - 1) as nat);
            match inner {
                Some(pp) => {
                    assert(out_views + (seq![p@] + pp.0) =~= (out_views.push(p@)) + pp.0);
                },
                None => {},
            }
        }
        out.push(p);
        proof {
            assert(out@.map_values(|q: Procedure| q@) =~= out_views.push(p@));
        }
        cur = c2;
        remaining = remaining - 1;
    }
    proof {
        let views = out@.map_values(|q: Procedure| q@);
        assert(dec_procedure_list(s@.skip(cur as int), 0) == Some(
            (Seq::<ProcedureV>::empty(), s@.skip(cur as int)),
        ));
        assert(views + Seq::<ProcedureV>::empty() =~= views);
        assert(dec_procedure_list(s@.skip(start as int), n as nat) == Some(
            (views, s@.skip(cur as int)),
        ));
        assert(dec_procedures(s@.skip(pos as int)) == Some((views, s@.skip(cur as int))));
    }
    Some((out, cur))
}

/// Reads a request at `pos`.
fn read_request(s: &Vec<u8>, pos: usize) -> (r: Option<(Request, usize)>)
    requires
        pos <= s@.len(),
    ensures
        match r {
            Some(p) => pos <= p.1 <= s@.len() && dec_request(s@.skip(pos as int)) == Some(
                (p.0@, s@.skip(p.1 as int)),
            ),
            None => dec_request(s@.skip(pos as int)) is None,
        },
{
    if pos == s.len() {
        return None;
    }
    let tag = s[pos];
    proof {
        assert(s@.skip(pos as int)[0] == tag);
        assert(s@.skip(pos as int).skip(1) =~= s@.skip(pos + 1));
    }
    if tag == 1 {
        match read_bytes(s, pos + 1) {
            Some(p) => Some((Request::CheckVault { vault_path: p.0 }, p.1)),
            None => None,
        }
    } else if tag == 2 {
        match read_location(s, pos + 1) {
            Some(p) => Some((Request::CheckRecord { location: p.0 }, p.1)),
            None => None,
        }
    } else if tag == 3 {
        match read_bytes(s, pos + 1) {
            Some(p) => Some((Request::ListIds { vault_path: p.0 }, p.1)),
            None => None,
        }
    } else if tag == 4 {
        let (location, c1) = match read_location(s, pos + 1) {
            Some(p) => p,
            None => {
                return None;
            },
        };
        let (payload, c2) = match read_bytes(s, c1) {
            Some(p) => p,
            None => {
                return None;
            },
        };
        let (hint, c3) = match read_bytes(s, c2) {
            Some(p) => p,
            None => {
                return None;
            },
        };
        Some((Request::WriteToRemoteVault(WriteToRemoteVault { location, payload, hint }), c3))
    } else if tag == 5 {
        match read_location(s, pos + 1) {
            Some(p) => Some((Request::RevokeData { location: p.0 }, p.1)),
            None => None,
        }
    } else if tag == 6 {
        match read_bytes(s, pos + 1) {
            Some(p) => Some((Request::ReadFromStore { key: p.0 }, p.1)),
            None => None,
        }
    } else if tag == 7 {
        let (key, c1) = match read_bytes(s, pos + 1) {
            Some(p) => p,
            None => {
                return None;
            },
        };
        let (payload, c2) = match read_bytes(s, c1) {
            Some(p) => p,
            None => {
                return None;
            },
        };
        let (lifetime, c3) = match read_opt_u64(s, c2) {
            Some(p) => p,
            None => {
                return None;
            },
        };
        Some((Request::WriteToStore { key, payload, lifetime }, c3))
    } else if tag == 8 {
        match read_bytes(s, pos + 1) {
            Some(p) => Some((Request::DeleteFromStore { key: p.0 }, p.1)),
            None => None,
        }
    } else if tag == 9 {
        match read_procedures(s, pos + 1) {
            Some(p) => Some((Request::Procedures { procedures: p.0 }, p.1)),
            None => None,
        }
    } else {
        None
    }
}

/// Decodes an envelope from its wire bytes; `None` means the bytes are not
/// a whole, valid envelope.
pub fn decode_envelope(s: &Vec<u8>) -> (r: Option<ShRequest>)
    ensures
        match r {
            Some(e) => dec_envelope(s@) == Some(e@),
            None => dec_envelope(s@) is None,
        },
{
    proof {
        assert(s@.skip(0) =~= s@);
    }
    let (client_path, c1) = match read_bytes(s, 0) {
        Some(p) => p,
        None => {
            return None;
        },
    };
    let (request, end) = match read_request(s, c1) {
        Some(p) => p,
        None => {
            return None;
        },
    };
    if end != s.len() {
        return None;
    }
    Some(ShRequest { client_path, request })
}

} // verus!
