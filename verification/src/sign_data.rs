//! Notarizing one request: admission by proof of work, the content hash,
//! the signed record of hash and time, and what the store made of it.
//!
//! A request passes through these stages, and any of them may reject it:
//! received, decoded and proof verified (`SignDataReq::verify_pow`, handed
//! the cycle check of the graph), hashed and signed (`notarize`, told what
//! time it is; `sign_data` does all of these in one call), persisted and
//! answered (`SignDataResp::persisted`, told what the store said). The
//! graph, the clock and the store are the caller's.

use vstd::prelude::*;
use vstd::std_specs::convert::FromSpecImpl;
use vstd::string::StringSliceAdditionalSpecFns;
use crate::b64::{base64_decoded, base64_text, decode, encode, DecodeError};
use crate::crypto_sign::{ed25519_signature, KeyPair};
use crate::db_conn::DbConnErr;
use crate::models::{ModelErr, NewSignedData};
use crate::pow_ratelimit::{pow_answer, pow_puzzle, pow_puzzle_of, verify_pow, PowPuzzle, PowVerifErr};

verus! {

/// The BLAKE3 digest of `data`: what `blake3::hash` returns.
pub uninterp spec fn blake3_digest(data: Seq<u8>) -> Seq<u8>;

/// The JSON string literal of `text`, quotes and escapes included: what
/// `serde_json::to_vec` writes for a string.
pub uninterp spec fn json_string(text: Seq<char>) -> Seq<u8>;

#[verifier::external_type_specification]
#[verifier::external_body]
pub struct ExJsonError(serde_json::Error);

/// Calls `blake3::hash`. Trusted: the 32 bytes are the digest of `data`, a
/// function of `data` alone.
#[verifier::external_body]
fn blake3_hash(data: &[u8]) -> (digest: [u8; 32])
    ensures
        digest@ == blake3_digest(data@),
{
    *blake3::hash(data).as_bytes()
}

/// Calls `serde_json::to_vec` on a string. Trusted: it succeeds, and what
/// it writes is the JSON literal of `text`. The crate names two causes of
/// failure, a `Serialize` impl that fails and a map with keys that are no
/// strings; a string has neither, and its escaped text goes into a `Vec`.
#[verifier::external_body]
fn json_to_vec(text: &str) -> (res: Result<Vec<u8>, serde_json::Error>)
    ensures
        res is Ok,
        res->Ok_0@ == json_string(text@),
{
    serde_json::to_vec(text)
}

/// Calls the `Display` impl of `serde_json::Error`. Nothing is claimed of
/// the text.
#[verifier::external_body]
fn json_error_text(e: &serde_json::Error) -> (text: String)
{
    e.to_string()
}

/// Why a request was not notarized.
#[derive(Debug, Clone, PartialEq, Eq)]
pub enum SignDataErr {
    /// No database connection could be had.
    DbConn(DbConnErr),
    /// The store refused the record.
    Model(ModelErr),
    /// The signed fields could not be written as JSON.
    SerializeFieldsSigned(String),
    /// The payload is not base64.
    B64DecodeBody(DecodeError),
    /// The proof of work is not base64.
    B64DecodePowProof(DecodeError),
    /// The proof of work is no whole number of 32-bit words.
    PowProofLength,
    /// The proof of work shows no cycle in the payload's graph.
    PowRejected,
}

/// The kinds of rejection that a caller can tell apart.
#[derive(Debug, Clone, Copy, PartialEq, Eq, Structural)]
pub enum Reason {
    BadEncoding,
    PowFailed,
    AlreadyNotarized,
    Unavailable,
    Internal,
}

impl SignDataErr {
    /// The kind of rejection that this error is.
    pub open spec fn reason_spec(self) -> Reason {
        match self {
            SignDataErr::DbConn(_) => Reason::Unavailable,
            SignDataErr::Model(ModelErr::AlreadyExists(_)) => Reason::AlreadyNotarized,
            SignDataErr::Model(ModelErr::OtherDieselErr(_)) => Reason::Unavailable,
            SignDataErr::SerializeFieldsSigned(_) => Reason::Internal,
            SignDataErr::B64DecodeBody(_) => Reason::BadEncoding,
            SignDataErr::B64DecodePowProof(_) => Reason::BadEncoding,
            SignDataErr::PowProofLength => Reason::BadEncoding,
            SignDataErr::PowRejected => Reason::PowFailed,
        }
    }

    /// The kind of rejection that this error is.
    pub fn reason(&self) -> (r: Reason)
        ensures
            r == self.reason_spec(),
    {
        match self {
            SignDataErr::DbConn(_) => Reason::Unavailable,
            SignDataErr::Model(ModelErr::AlreadyExists(_)) => Reason::AlreadyNotarized,
            SignDataErr::Model(ModelErr::OtherDieselErr(_)) => Reason::Unavailable,
            SignDataErr::SerializeFieldsSigned(_) => Reason::Internal,
            SignDataErr::B64DecodeBody(_) => Reason::BadEncoding,
            SignDataErr::B64DecodePowProof(_) => Reason::BadEncoding,
            SignDataErr::PowProofLength => Reason::BadEncoding,
            SignDataErr::PowRejected => Reason::PowFailed,
        }
    }
}

impl From<PowVerifErr> for SignDataErr {
    fn from(e: PowVerifErr) -> (res: Self) {
        match e {
            PowVerifErr::B64DecodeBody(e) => SignDataErr::B64DecodeBody(e),
            PowVerifErr::B64DecodePowProof(e) => SignDataErr::B64DecodePowProof(e),
            PowVerifErr::Vec8toVec32 => SignDataErr::PowProofLength,
        }
    }
}

impl FromSpecImpl<PowVerifErr> for SignDataErr {
    open spec fn obeys_from_spec() -> bool {
        true
    }

    open spec fn from_spec(e: PowVerifErr) -> Self {
        pow_error(e)
    }
}

/// The request's error for a proof of work that could not be read: each
/// fault of its encoding keeps its own variant, and none of them is taken
/// for a proof that shows no cycle.
pub open spec fn pow_error(e: PowVerifErr) -> SignDataErr {
    match e {
        PowVerifErr::B64DecodeBody(e) => SignDataErr::B64DecodeBody(e),
        PowVerifErr::B64DecodePowProof(e) => SignDataErr::B64DecodePowProof(e),
        PowVerifErr::Vec8toVec32 => SignDataErr::PowProofLength,
    }
}

/// The content hash of the payload that `data_base64` carries: the digest
/// of its bytes, and of nothing else.
pub open spec fn content_hash_of(data_base64: Seq<char>) -> Result<Seq<u8>, SignDataErr> {
    match base64_decoded(data_base64) {
        Ok(bytes) => Ok(blake3_digest(bytes)),
        Err(e) => Err(SignDataErr::B64DecodeBody(e)),
    }
}

/// A request to notarize a payload: the payload and the proof of work, both
/// as base64 text.
#[derive(Debug, Clone, PartialEq, Eq)]
pub struct SignDataReq {
    pub data_base64: String,
    pub pow_proof_base64: String,
}

impl SignDataReq {
    /// The payload.
    pub fn data_bytes(&self) -> (res: Result<Vec<u8>, SignDataErr>)
        ensures
            match base64_decoded(self.data_base64@) {
                Ok(bytes) => res is Ok && res->Ok_0@ == bytes,
                Err(e) => res is Err && res->Err_0 == SignDataErr::B64DecodeBody(e),
            },
    {
        match decode(self.data_base64.as_str()) {
            Ok(bytes) => Ok(bytes),
            Err(e) => Err(SignDataErr::B64DecodeBody(e)),
        }
    }

    /// The content hash of the payload.
    pub fn hash_data(&self) -> (res: Result<[u8; 32], SignDataErr>)
        ensures
            match content_hash_of(self.data_base64@) {
                Ok(hash) => res is Ok && res->Ok_0@ == hash,
                Err(e) => res is Err && res->Err_0 == e,
            },
    {
        let bytes = self.data_bytes()?;
        Ok(blake3_hash(bytes.as_slice()))
    }

    /// Whether the request's proof shows a cycle in the graph of its
    /// payload, by the answer of `cycle_check` for the graph.
    pub fn verify_pow<F: Fn(&PowPuzzle) -> bool>(&self, cycle_check: F) -> (res: Result<bool, SignDataErr>)
        requires
            forall|puzzle: &PowPuzzle| call_requires(cycle_check, (puzzle,)),
        ensures
            match pow_puzzle_of(base64_decoded(self.data_base64@), base64_decoded(self.pow_proof_base64@)) {
                Err(e) => res is Err && res->Err_0 == pow_error(e),
                Ok(_) => res is Ok && pow_answer(
                    cycle_check,
                    base64_decoded(self.data_base64@),
                    base64_decoded(self.pow_proof_base64@),
                    res->Ok_0,
                ),
            },
    {
        match verify_pow(self.data_base64.as_str(), self.pow_proof_base64.as_str(), cycle_check) {
            Ok(pow_ok) => Ok(pow_ok),
            Err(e) => Err(SignDataErr::from(e)),
        }
    }
}

/// The fields that are signed: the content hash as base64 and the time of
/// signing as text.
#[derive(Debug, Clone, PartialEq, Eq)]
pub struct FieldsSigned {
    pub data_hash_base64: String,
    pub timestamp: String,
}

/// The response to a notarized request.
#[derive(Debug, Clone, PartialEq, Eq)]
pub struct SignDataResp {
    pub fields_signed: FieldsSigned,
    pub signature_base64: String,
}

/// The canonical bytes of the signed fields: one JSON object, the hash
/// first, the time second, nothing between the tokens.
pub open spec fn canonical_json(hash_json: Seq<u8>, timestamp_json: Seq<u8>) -> Seq<u8> {
    "{\"data_hash_base64\":".spec_bytes() + hash_json + ",\"timestamp\":".spec_bytes()
        + timestamp_json + "}".spec_bytes()
}

/// The digest that is signed for the fields `hash` and `timestamp`.
pub open spec fn envelope_digest(hash: Seq<char>, timestamp: Seq<char>) -> Seq<u8> {
    blake3_digest(canonical_json(json_string(hash), json_string(timestamp)))
}

fn append(out: &mut Vec<u8>, part: &[u8])
    ensures
        final(out)@ == old(out)@ + part@,
{
    let mut i: usize = 0;
    while i < part.len()
        invariant
            i <= part@.len(),
            out@ == old(out)@ + part@.take(i as int),
        decreases part@.len() - i,
    {
        out.push(part[i]);
        assert(out@ =~= old(out)@ + part@.take(i + 1));
        i = i + 1;
    }
    assert(part@.take(i as int) =~= part@);
}

/// Frames the two JSON literals as the canonical bytes of the signed fields.
pub fn canonical_bytes(hash_json: &[u8], timestamp_json: &[u8]) -> (bytes: Vec<u8>)
    ensures
        bytes@ == canonical_json(hash_json@, timestamp_json@),
{
    let mut bytes: Vec<u8> = Vec::new();
    append(&mut bytes, "{\"data_hash_base64\":".as_bytes());
    append(&mut bytes, hash_json);
    append(&mut bytes, ",\"timestamp\":".as_bytes());
    append(&mut bytes, timestamp_json);
    append(&mut bytes, "}".as_bytes());
    assert(bytes@ =~= canonical_json(hash_json@, timestamp_json@));
    bytes
}

impl FieldsSigned {
    /// The fields to sign for a content hash and a time of signing.
    pub fn new(data_hash: &[u8; 32], timestamp: String) -> (fields: Self)
        ensures
            fields.data_hash_base64@ == base64_text(data_hash@),
            fields.timestamp == timestamp,
    {
        FieldsSigned { data_hash_base64: encode(data_hash.as_slice()), timestamp }
    }

    /// The digest of the canonical bytes of the fields. Two strings are
    /// always written, so it always succeeds.
    pub fn hash(&self) -> (res: Result<[u8; 32], SignDataErr>)
        ensures
            res is Ok,
            res->Ok_0@ == envelope_digest(self.data_hash_base64@, self.timestamp@),
    {
        let hash_json = match json_to_vec(self.data_hash_base64.as_str()) {
            Ok(bytes) => bytes,
            Err(e) => {
                return Err(SignDataErr::SerializeFieldsSigned(json_error_text(&e)));
            },
        };
        let timestamp_json = match json_to_vec(self.timestamp.as_str()) {
            Ok(bytes) => bytes,
            Err(e) => {
                return Err(SignDataErr::SerializeFieldsSigned(json_error_text(&e)));
            },
        };
        let bytes = canonical_bytes(hash_json.as_slice(), timestamp_json.as_slice());
        Ok(blake3_hash(bytes.as_slice()))
    }

    /// The signature of `keypair` on the digest of the fields. Under a key
    /// pair whose halves match it verifies on that digest.
    pub fn sign(&self, keypair: &KeyPair) -> (res: Result<[u8; 64], SignDataErr>)
        ensures
            res is Ok,
            signed_by(keypair, self.data_hash_base64@, self.timestamp@, res->Ok_0@),
    {
        let digest = self.hash()?;
        Ok(keypair.sign(digest.as_slice()))
    }
}

/// `signature` is the one that `keypair` gives the digest of the fields, and
/// it verifies on that digest where the halves of the pair match.
pub open spec fn signed_by(keypair: &KeyPair, hash: Seq<char>, timestamp: Seq<char>, signature: Seq<u8>) -> bool {
    &&& signature.len() == 64
    &&& signature == ed25519_signature(keypair@, envelope_digest(hash, timestamp))
    &&& keypair.consistent() ==> keypair.verifies(envelope_digest(hash, timestamp), signature)
}

/// `resp` notarizes `payload` at `timestamp` under `keypair`: it carries the
/// base64 of the payload's digest, the time as given, and the base64 of the
/// signature on the digest of the two.
pub open spec fn notarizes(resp: SignDataResp, keypair: &KeyPair, payload: Seq<u8>, timestamp: Seq<char>) -> bool {
    let hash = resp.fields_signed.data_hash_base64@;
    let signature = ed25519_signature(keypair@, envelope_digest(hash, timestamp));
    &&& hash == base64_text(blake3_digest(payload))
    &&& resp.fields_signed.timestamp@ == timestamp
    &&& resp.signature_base64@ == base64_text(signature)
    &&& base64_decoded(resp.signature_base64@) is Ok
    &&& base64_decoded(resp.signature_base64@)->Ok_0 == signature
    &&& signed_by(keypair, hash, timestamp, signature)
}

/// Whether a request is admitted, and with which payload: a fault of its
/// encoding comes first, then a proof that shows no cycle.
pub open spec fn admission(
    data: Result<Seq<u8>, DecodeError>,
    proof: Result<Seq<u8>, DecodeError>,
    pow_ok: bool,
) -> Result<Seq<u8>, SignDataErr> {
    match pow_puzzle_of(data, proof) {
        Err(e) => Err(pow_error(e)),
        Ok((payload, _)) => if pow_ok {
            Ok(payload)
        } else {
            Err(SignDataErr::PowRejected)
        },
    }
}

/// What notarizing gives a request whose proof of work was found `pow_ok`:
/// the error of a request that is not admitted, and for every admitted
/// request a response that notarizes its payload.
pub open spec fn notarized(
    sd_req: &SignDataReq,
    pow_ok: bool,
    keypair: &KeyPair,
    timestamp: Seq<char>,
    res: Result<SignDataResp, SignDataErr>,
) -> bool {
    match admission(base64_decoded(sd_req.data_base64@), base64_decoded(sd_req.pow_proof_base64@), pow_ok) {
        Err(e) => res is Err && res->Err_0 == e,
        Ok(payload) => res is Ok && notarizes(res->Ok_0, keypair, payload, timestamp),
    }
}

/// Notarizes a request up to the store: checks its proof of work by
/// `cycle_check`, hashes the payload, binds the hash to `timestamp` and
/// signs the two.
pub fn sign_data<F: Fn(&PowPuzzle) -> bool>(
    sd_req: &SignDataReq,
    cycle_check: F,
    keypair: &KeyPair,
    timestamp: String,
) -> (res: Result<SignDataResp, SignDataErr>)
    requires
        forall|puzzle: &PowPuzzle| call_requires(cycle_check, (puzzle,)),
    ensures
        exists|pow_ok: bool|
            {
                &&& #[trigger] pow_answer(
                    cycle_check,
                    base64_decoded(sd_req.data_base64@),
                    base64_decoded(sd_req.pow_proof_base64@),
                    pow_ok,
                )
                &&& notarized(sd_req, pow_ok, keypair, timestamp@, res)
            },
{
    match sd_req.verify_pow(cycle_check) {
        Ok(pow_ok) => {
            let res = notarize(sd_req, pow_ok, keypair, timestamp);
            assert(pow_answer(
                cycle_check,
                base64_decoded(sd_req.data_base64@),
                base64_decoded(sd_req.pow_proof_base64@),
                pow_ok,
            ));
            res
        },
        Err(e) => {
            assert(pow_answer(
                cycle_check,
                base64_decoded(sd_req.data_base64@),
                base64_decoded(sd_req.pow_proof_base64@),
                false,
            ));
            Err(e)
        },
    }
}

/// Notarizes a request whose proof of work has been checked: `pow_ok` says
/// whether it shows a cycle in the payload's graph. A request that cannot be
/// read is refused for that, whatever `pow_ok` says.
pub fn notarize(sd_req: &SignDataReq, pow_ok: bool, keypair: &KeyPair, timestamp: String) -> (res: Result<
    SignDataResp,
    SignDataErr,
>)
    ensures
        notarized(sd_req, pow_ok, keypair, timestamp@, res),
{
    let puzzle = match pow_puzzle(sd_req.data_base64.as_str(), sd_req.pow_proof_base64.as_str()) {
        Ok(puzzle) => puzzle,
        Err(e) => {
            return Err(SignDataErr::from(e));
        },
    };
    if !pow_ok {
        return Err(SignDataErr::PowRejected);
    }
    let data_hash = blake3_hash(puzzle.data.as_slice());
    let fields_signed = FieldsSigned::new(&data_hash, timestamp);
    let signature = fields_signed.sign(keypair)?;
    let signature_base64 = encode(signature.as_slice());
    Ok(SignDataResp { fields_signed, signature_base64 })
}

impl SignDataResp {
    /// The record to store for this response.
    pub fn new_signed_data(&self) -> (record: NewSignedData)
        ensures
            record.data_hash_b64 == self.fields_signed.data_hash_base64,
            record.created_at == Some(self.fields_signed.timestamp),
    {
        NewSignedData {
            data_hash_b64: self.fields_signed.data_hash_base64.clone(),
            created_at: Some(self.fields_signed.timestamp.clone()),
        }
    }

    /// What the caller gets once the store has answered: the response where
    /// the record was stored, the store's refusal where it was not.
    pub fn persisted(self, stored: Result<(), SignDataErr>) -> (res: Result<SignDataResp, SignDataErr>)
        ensures
            res == match stored {
                Ok(_) => Ok::<SignDataResp, SignDataErr>(self),
                Err(e) => Err::<SignDataResp, SignDataErr>(e),
            },
    {
        match stored {
            Ok(_) => Ok(self),
            Err(e) => Err(e),
        }
    }
}

/// The content hash is a function of the payload alone: two requests that
/// carry the same bytes have the same hash, whatever their proofs and
/// however their base64 is written, at every call.
pub proof fn lemma_content_hash_of_payload_alone(a: SignDataReq, b: SignDataReq)
    requires
        base64_decoded(a.data_base64@) is Ok,
        base64_decoded(a.data_base64@) == base64_decoded(b.data_base64@),
    ensures
        content_hash_of(a.data_base64@) is Ok,
        content_hash_of(a.data_base64@) == content_hash_of(b.data_base64@),
{
}

/// A signature that `FieldsSigned::sign` gave under a key pair whose halves
/// match is one that `KeyPair::verify` accepts on the digest of the fields.
pub proof fn lemma_signature_verifies(keypair: &KeyPair, hash: Seq<char>, timestamp: Seq<char>, signature: Seq<u8>)
    requires
        keypair.consistent(),
        signed_by(keypair, hash, timestamp, signature),
    ensures
        keypair.verifies(envelope_digest(hash, timestamp), signature),
{
}

/// A proof of work whose bytes are no whole number of words is a fault of
/// the request's encoding, whatever the cycle check would say; a proof that
/// reads well and shows no cycle is a failed proof of work. The two never
/// share a reason.
pub proof fn lemma_misaligned_proof_is_bad_encoding(payload: Seq<u8>, proof_bytes: Seq<u8>, pow_ok: bool)
    ensures
        proof_bytes.len() % 4 != 0 ==> {
            &&& admission(Ok(payload), Ok(proof_bytes), pow_ok) is Err
            &&& admission(Ok(payload), Ok(proof_bytes), pow_ok)->Err_0.reason_spec() == Reason::BadEncoding
        },
        proof_bytes.len() % 4 == 0 && !pow_ok ==> {
            &&& admission(Ok(payload), Ok(proof_bytes), pow_ok) is Err
            &&& admission(Ok(payload), Ok(proof_bytes), pow_ok)->Err_0.reason_spec() == Reason::PowFailed
        },
        proof_bytes.len() % 4 == 0 && pow_ok ==> admission(Ok(payload), Ok(proof_bytes), pow_ok) == Ok::<
            Seq<u8>,
            SignDataErr,
        >(payload),
{
}

} // verus!
