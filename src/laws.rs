//! Properties of digests and of the verification decision, proved once for all inputs.

use vstd::prelude::*;
use crate::hashing::{hex_char, hex_of, hash_spec, lemma_hex_of_len, sha3_256_of};
use crate::protocol::{accepts, ProofRecord, MAX_AGE_MS};

verus! {

proof fn lemma_hex_of_injective(a: Seq<u8>, b: Seq<u8>)
    requires
        hex_of(a) == hex_of(b),
    ensures
        a == b,
    decreases a.len(),
{
    lemma_hex_of_len(a);
    lemma_hex_of_len(b);
    if a.len() > 0 {
        let ha = hex_of(a);
        let hb = hex_of(b);
        let n = ha.len() as int;
        lemma_hex_of_len(a.drop_last());
        lemma_hex_of_len(b.drop_last());
        assert(ha[n - 2] == hex_char((a.last() / 16) as nat));
        assert(hb[n - 2] == hex_char((b.last() / 16) as nat));
        assert(ha[n - 1] == hex_char((a.last() % 16) as nat));
        assert(hb[n - 1] == hex_char((b.last() % 16) as nat));
        assert(a.last() == b.last());
        assert(hex_of(a.drop_last()) =~= ha.subrange(0, n - 2));
        assert(hex_of(b.drop_last()) =~= hb.subrange(0, n - 2));
        lemma_hex_of_injective(a.drop_last(), b.drop_last());
        assert(a =~= a.drop_last().push(a.last()));
        assert(b =~= b.drop_last().push(b.last()));
    }
}

/// Hashing is deterministic: the same bytes always give the same digest text.
pub proof fn hash_is_deterministic(a: Seq<u8>, b: Seq<u8>)
    requires
        a == b,
    ensures
        hash_spec(a) == hash_spec(b),
{
}

/// The digest text tells raw digests apart: whenever two byte sequences have
/// different SHA3-256 digests, their digest texts differ. (That a single-bit
/// change alters the SHA3-256 digest is the hash function's own collision
/// resistance, which is not derived here.)
pub proof fn hash_text_separates_digests(a: Seq<u8>, b: Seq<u8>)
    requires
        sha3_256_of(a) != sha3_256_of(b),
    ensures
        hash_spec(a) != hash_spec(b),
{
    if hash_spec(a) == hash_spec(b) {
        let ta = hash_spec(a);
        let tb = hash_spec(b);
        assert(hex_of(sha3_256_of(a)) =~= ta.subrange(2, ta.len() as int));
        assert(hex_of(sha3_256_of(b)) =~= tb.subrange(2, tb.len() as int));
        lemma_hex_of_injective(sha3_256_of(a), sha3_256_of(b));
    }
}

/// Model binding: a record for another model is never accepted, whatever the
/// other fields hold.
pub proof fn model_binding(model: Seq<char>, rec: ProofRecord, input: Seq<u8>, output: Seq<u8>, now: u64)
    requires
        rec.model_hash != model,
    ensures
        !accepts(model, rec, input, output, now),
{
}

/// Input integrity: once the record's input digest was taken from `original`,
/// input bytes with a different SHA3-256 digest are rejected.
pub proof fn input_integrity(
    model: Seq<char>,
    rec: ProofRecord,
    original: Seq<u8>,
    mutated: Seq<u8>,
    output: Seq<u8>,
    now: u64,
)
    requires
        rec.input_hash == hash_spec(original),
        sha3_256_of(mutated) != sha3_256_of(original),
    ensures
        !accepts(model, rec, mutated, output, now),
{
    hash_text_separates_digests(mutated, original);
}

/// Output integrity: once the record's output digest was taken from
/// `original`, output bytes with a different SHA3-256 digest are rejected.
pub proof fn output_integrity(
    model: Seq<char>,
    rec: ProofRecord,
    input: Seq<u8>,
    original: Seq<u8>,
    mutated: Seq<u8>,
    now: u64,
)
    requires
        rec.output_hash == hash_spec(original),
        sha3_256_of(mutated) != sha3_256_of(original),
    ensures
        !accepts(model, rec, input, mutated, now),
{
    hash_text_separates_digests(mutated, original);
}

/// Freshness boundary: a record that passes every other check is accepted at
/// an age of exactly one hour and rejected one millisecond later.
pub proof fn freshness_boundary(model: Seq<char>, rec: ProofRecord, input: Seq<u8>, output: Seq<u8>, now: u64)
    requires
        rec.model_hash == model,
        rec.input_hash == hash_spec(input),
        rec.output_hash == hash_spec(output),
        rec.verified,
    ensures
        now >= rec.timestamp && now - rec.timestamp == MAX_AGE_MS ==> accepts(model, rec, input, output, now),
        now >= rec.timestamp && now - rec.timestamp == MAX_AGE_MS + 1 ==> !accepts(model, rec, input, output, now),
        now <= rec.timestamp ==> accepts(model, rec, input, output, now),
{
}

/// Validity flag gate: a record whose external validity flag is false is
/// rejected even when every other check passes.
pub proof fn validity_flag_gate(model: Seq<char>, rec: ProofRecord, input: Seq<u8>, output: Seq<u8>, now: u64)
    requires
        !rec.verified,
    ensures
        !accepts(model, rec, input, output, now),
{
}

} // verus!
