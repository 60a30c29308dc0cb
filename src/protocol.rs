//! Proof records and the verifier that decides whether one may be trusted.

use vstd::prelude::*;
use crate::hashing::{digest_hex, digest_text, hash_spec, sha3_256};

verus! {

/// Longest accepted age of a record, in milliseconds (one hour).
pub const MAX_AGE_MS: u64 = 3600000;

/// What a proof record states, as plain values.
pub ghost struct ProofRecord {
    pub model_hash: Seq<char>,
    pub proof_hash: Seq<char>,
    pub input_hash: Seq<char>,
    pub output_hash: Seq<char>,
    pub timestamp: u64,
    pub verified: bool,
}

/// A claim that a model, given an input, produced an output, proven valid by
/// an external process at a given time. Immutable once built.
#[derive(Debug)]
pub struct ProofData {
    model_hash: String,
    proof_hash: String,
    input_hash: String,
    output_hash: String,
    timestamp: u64,
    verified: bool,
}

impl View for ProofData {
    type V = ProofRecord;

    closed spec fn view(&self) -> ProofRecord {
        ProofRecord {
            model_hash: self.model_hash@,
            proof_hash: self.proof_hash@,
            input_hash: self.input_hash@,
            output_hash: self.output_hash@,
            timestamp: self.timestamp,
            verified: self.verified,
        }
    }
}

impl Clone for ProofData {
    fn clone(&self) -> (r: ProofData)
        ensures
            r@ == self@,
    {
        ProofData {
            model_hash: self.model_hash.clone(),
            proof_hash: self.proof_hash.clone(),
            input_hash: self.input_hash.clone(),
            output_hash: self.output_hash.clone(),
            timestamp: self.timestamp,
            verified: self.verified,
        }
    }
}

impl ProofData {
    pub fn new(
        model_hash: String,
        proof_hash: String,
        input_hash: String,
        output_hash: String,
        timestamp: u64,
        verified: bool,
    ) -> (r: ProofData)
        ensures
            r@ == (ProofRecord {
                model_hash: model_hash@,
                proof_hash: proof_hash@,
                input_hash: input_hash@,
                output_hash: output_hash@,
                timestamp,
                verified,
            }),
    {
        ProofData { model_hash, proof_hash, input_hash, output_hash, timestamp, verified }
    }

    pub fn model_hash(&self) -> (r: String)
        ensures
            r@ == self@.model_hash,
    {
        self.model_hash.clone()
    }

    pub fn proof_hash(&self) -> (r: String)
        ensures
            r@ == self@.proof_hash,
    {
        self.proof_hash.clone()
    }

    pub fn input_hash(&self) -> (r: String)
        ensures
            r@ == self@.input_hash,
    {
        self.input_hash.clone()
    }

    pub fn output_hash(&self) -> (r: String)
        ensures
            r@ == self@.output_hash,
    {
        self.output_hash.clone()
    }

    pub fn timestamp(&self) -> (r: u64)
        ensures
            r == self@.timestamp,
    {
        self.timestamp
    }

    pub fn verified(&self) -> (r: bool)
        ensures
            r == self@.verified,
    {
        self.verified
    }
}

/// An encoded record that could not be decoded; `message` says why.
#[derive(Debug)]
pub struct ParseError {
    pub message: String,
}

/// Age of a record at time `now`, saturating at zero for a record from the future.
pub open spec fn age(now: u64, timestamp: u64) -> nat {
    if now >= timestamp {
        (now - timestamp) as nat
    } else {
        0
    }
}

/// The record is young enough at time `now`; the bound is inclusive.
pub open spec fn is_fresh(now: u64, timestamp: u64) -> bool {
    age(now, timestamp) <= MAX_AGE_MS
}

/// The five checks, given the raw digests of the supplied input and output.
pub open spec fn accepts_digests(
    model: Seq<char>,
    rec: ProofRecord,
    input_digest: Seq<u8>,
    output_digest: Seq<u8>,
    now: u64,
) -> bool {
    &&& rec.model_hash == model
    &&& digest_text(input_digest) == rec.input_hash
    &&& digest_text(output_digest) == rec.output_hash
    &&& is_fresh(now, rec.timestamp)
    &&& rec.verified
}

/// A verifier bound to `model` trusts `rec` for these input and output bytes at time `now`.
pub open spec fn accepts(
    model: Seq<char>,
    rec: ProofRecord,
    input: Seq<u8>,
    output: Seq<u8>,
    now: u64,
) -> bool {
    &&& rec.model_hash == model
    &&& hash_spec(input) == rec.input_hash
    &&& hash_spec(output) == rec.output_hash
    &&& is_fresh(now, rec.timestamp)
    &&& rec.verified
}

/// The text that `info` returns for a bound model digest.
pub open spec fn info_text(model: Seq<char>) -> Seq<char> {
    "WASM Verifier for model: "@ + model.subrange(0, 16)
        + "...\nVerifies: Model binding, I/O integrity, Proof validity, Timestamp"@
}

/// Checks proof records against one bound model digest.
#[derive(Debug)]
pub struct WasmVerifier {
    model_hash: String,
}

impl View for WasmVerifier {
    type V = Seq<char>;

    closed spec fn view(&self) -> Seq<char> {
        self.model_hash@
    }
}

impl WasmVerifier {
    /// A verifier bound to the model digest `model_hash`.
    pub fn new(model_hash: String) -> (r: WasmVerifier)
        ensures
            r@ == model_hash@,
    {
        WasmVerifier { model_hash }
    }

    /// Decides trust in `proof_data` given the raw SHA3-256 digests of the
    /// supplied input and output bytes, at time `now` (milliseconds since the
    /// epoch). The checks run in order and stop at the first failure.
    pub fn verify_digests(
        &self,
        proof_data: &ProofData,
        input_digest: &[u8],
        output_digest: &[u8],
        now: u64,
    ) -> (r: bool)
        ensures
            r == accepts_digests(self@, proof_data@, input_digest@, output_digest@, now),
    {
        if proof_data.model_hash != self.model_hash {
            return false;
        }
        let computed_input_hash = digest_hex(input_digest);
        if computed_input_hash != proof_data.input_hash {
            return false;
        }
        let computed_output_hash = digest_hex(output_digest);
        if computed_output_hash != proof_data.output_hash {
            return false;
        }
        let age_ms: u64 = if now >= proof_data.timestamp {
            now - proof_data.timestamp
        } else {
            0
        };
        if age_ms > MAX_AGE_MS {
            return false;
        }
        if !proof_data.verified {
            return false;
        }
        true
    }

    /// Decides trust in `proof_data` for the raw `input_bytes` and
    /// `output_bytes` at time `now` (milliseconds since the epoch): model
    /// binding, input integrity, output integrity, freshness, validity flag.
    pub fn verify(
        &self,
        proof_data: &ProofData,
        input_bytes: &[u8],
        output_bytes: &[u8],
        now: u64,
    ) -> (r: bool)
        ensures
            r == accepts(self@, proof_data@, input_bytes@, output_bytes@, now),
    {
        let input_digest = sha3_256(input_bytes);
        let output_digest = sha3_256(output_bytes);
        self.verify_digests(proof_data, input_digest.as_slice(), output_digest.as_slice(), now)
    }

    /// Verifies the outcome of decoding an encoded record: a decoding failure,
    /// carried as its message, becomes a `ParseError`; a decoded record is
    /// verified as by `verify`.
    pub fn verify_parsed(
        &self,
        parsed: Result<ProofData, String>,
        input_bytes: &[u8],
        output_bytes: &[u8],
        now: u64,
    ) -> (r: Result<bool, ParseError>)
        ensures
            match parsed {
                Ok(p) => r matches Ok(b) && b == accepts(self@, p@, input_bytes@, output_bytes@, now),
                Err(m) => r matches Err(e) && e.message@ == "Failed to parse proof JSON: "@ + m@,
            },
    {
        match parsed {
            Ok(p) => Ok(self.verify(&p, input_bytes, output_bytes, now)),
            Err(m) => {
                let message = String::from_str("Failed to parse proof JSON: ").concat(m.as_str());
                Err(ParseError { message })
            },
        }
    }

    /// A one-line description naming the first sixteen characters of the bound model digest.
    pub fn info(&self) -> (r: String)
        requires
            self@.len() >= 16,
            vstd::utf8::is_ascii_chars(self@),
        ensures
            r@ == info_text(self@),
    {
        let head = self.model_hash.as_str().substring_ascii(0, 16);
        let r = String::from_str("WASM Verifier for model: ").concat(head).concat(
            "...\nVerifies: Model binding, I/O integrity, Proof validity, Timestamp",
        );
        r
    }

    /// The model digest this verifier is bound to.
    pub fn model_hash(&self) -> (r: String)
        ensures
            r@ == self@,
    {
        self.model_hash.clone()
    }
}

} // verus!
