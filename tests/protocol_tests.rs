use wasm_verifier::{encode, hash_data, ParseError, ProofData, WasmVerifier};

const HOUR_MS: u64 = 3_600_000;

fn now_ms() -> u64 {
    std::time::SystemTime::now()
        .duration_since(std::time::UNIX_EPOCH)
        .unwrap()
        .as_millis() as u64
}

fn record(model: &str, input: &[u8], output: &[u8], timestamp: u64, verified: bool) -> ProofData {
    ProofData::new(
        model.to_string(),
        "0xproof".to_string(),
        hash_data(input),
        hash_data(output),
        timestamp,
        verified,
    )
}

#[test]
fn test_verifier() {
    let model_hash = "0x1234567890abcdef".to_string();
    let verifier = WasmVerifier::new(model_hash.clone());

    let input_data = b"test input";
    let output_data = b"test output";

    let input_hash = hash_data(input_data);
    let output_hash = hash_data(output_data);

    let now = now_ms();
    let proof = ProofData::new(
        model_hash,
        "0xproof".to_string(),
        input_hash,
        output_hash,
        now,
        true,
    );

    let result = verifier.verify(&proof, input_data, output_data, now);
    assert!(result, "Verification should succeed");
}

#[test]
fn hash_of_empty_input_is_the_sha3_256_vector() {
    assert_eq!(
        hash_data(b""),
        "0xa7ffc6f8bf1ed76651c14756a061d662f580ff4de43b49fa82d80a4b80f8434a"
    );
}

#[test]
fn hash_of_abc_is_the_sha3_256_vector() {
    assert_eq!(
        hash_data(b"abc"),
        "0x3a985da74fe225b2045c172d6bd390bd855f086e3e9d525b46bfe24511431532"
    );
}

#[test]
fn hash_is_deterministic_on_repeat() {
    let data = b"some bytes to hash".to_vec();
    let first = hash_data(&data);
    let second = hash_data(&data);
    assert_eq!(first, second);
    assert_eq!(first.len(), 66);
    assert!(first.starts_with("0x"));
    assert!(first[2..].chars().all(|c| c.is_ascii_hexdigit() && !c.is_ascii_uppercase()));
}

#[test]
fn flipping_any_single_bit_changes_the_hash() {
    let data = b"test input".to_vec();
    let base = hash_data(&data);
    for byte in 0..data.len() {
        for bit in 0..8 {
            let mut flipped = data.clone();
            flipped[byte] ^= 1u8 << bit;
            assert_ne!(hash_data(&flipped), base);
        }
    }
}

#[test]
fn encode_gives_two_lowercase_digits_per_byte() {
    assert_eq!(encode(&[0x00, 0x0f, 0xa5, 0xff, 0x10]), "000fa5ff10");
    assert_eq!(encode(&[]), "");
}

#[test]
fn end_to_end_record_is_accepted() {
    let now = 1_700_000_000_000;
    let verifier = WasmVerifier::new("0xmodel".to_string());
    let proof = record("0xmodel", b"test input", b"test output", now, true);
    assert!(verifier.verify(&proof, b"test input", b"test output", now));
}

#[test]
fn record_for_another_model_is_rejected() {
    let now = 1_700_000_000_000;
    let verifier = WasmVerifier::new(hash_data(b"model one"));
    let proof = record(&hash_data(b"model two"), b"test input", b"test output", now, true);
    assert!(!verifier.verify(&proof, b"test input", b"test output", now));
}

#[test]
fn mutated_input_is_rejected() {
    let now = 1_700_000_000_000;
    let verifier = WasmVerifier::new("0xmodel".to_string());
    let proof = record("0xmodel", b"test input", b"test output", now, true);
    assert!(!verifier.verify(&proof, b"test inpux", b"test output", now));
}

#[test]
fn mutated_output_is_rejected() {
    let now = 1_700_000_000_000;
    let verifier = WasmVerifier::new("0xmodel".to_string());
    let proof = record("0xmodel", b"test input", b"test output", now, true);
    assert!(!verifier.verify(&proof, b"test input", b"test output!", now));
}

#[test]
fn record_exactly_one_hour_old_is_accepted() {
    let ts = 1_700_000_000_000;
    let verifier = WasmVerifier::new("0xmodel".to_string());
    let proof = record("0xmodel", b"in", b"out", ts, true);
    assert!(verifier.verify(&proof, b"in", b"out", ts + HOUR_MS));
}

#[test]
fn record_one_millisecond_past_the_hour_is_rejected() {
    let ts = 1_700_000_000_000;
    let verifier = WasmVerifier::new("0xmodel".to_string());
    let proof = record("0xmodel", b"in", b"out", ts, true);
    assert!(!verifier.verify(&proof, b"in", b"out", ts + HOUR_MS + 1));
}

#[test]
fn record_from_the_future_counts_as_age_zero() {
    let verifier = WasmVerifier::new("0xmodel".to_string());
    let proof = record("0xmodel", b"in", b"out", u64::MAX, true);
    assert!(verifier.verify(&proof, b"in", b"out", 0));
}

#[test]
fn record_not_marked_valid_is_rejected() {
    let now = 1_700_000_000_000;
    let verifier = WasmVerifier::new("0xmodel".to_string());
    let proof = record("0xmodel", b"in", b"out", now, false);
    assert!(!verifier.verify(&proof, b"in", b"out", now));
}

#[test]
fn verify_digests_compares_digest_text() {
    let verifier = WasmVerifier::new("0xm".to_string());
    let zeros = [0u8; 32];
    let mut ones = [0u8; 32];
    ones[31] = 0xab;
    let zero_text = format!("0x{}", "00".repeat(32));
    let ab_text = format!("0x{}ab", "00".repeat(31));
    let proof = ProofData::new("0xm".to_string(), "0xp".to_string(), zero_text, ab_text, 5, true);
    assert!(verifier.verify_digests(&proof, &zeros, &ones, 5));
    assert!(!verifier.verify_digests(&proof, &ones, &ones, 5));
    assert!(!verifier.verify_digests(&proof, &zeros, &zeros, 5));
}

#[test]
fn malformed_encoded_record_is_a_parse_error() {
    let verifier = WasmVerifier::new("0xmodel".to_string());
    let message = serde_json::from_str::<serde_json::Value>("{not json")
        .unwrap_err()
        .to_string();
    let result = verifier.verify_parsed(Err(message.clone()), b"in", b"out", 0);
    match result {
        Err(ParseError { message: m }) => {
            assert_eq!(m, format!("Failed to parse proof JSON: {}", message));
        }
        Ok(_) => panic!("a malformed record must not yield a boolean"),
    }
}

#[test]
fn decoded_record_is_verified() {
    let now = 1_700_000_000_000;
    let verifier = WasmVerifier::new("0xmodel".to_string());
    let good = record("0xmodel", b"in", b"out", now, true);
    let stale = record("0xmodel", b"in", b"out", now, true);
    assert!(verifier.verify_parsed(Ok(good), b"in", b"out", now).unwrap());
    assert!(!verifier.verify_parsed(Ok(stale), b"in", b"out", now + HOUR_MS + 1).unwrap());
}

#[test]
fn info_names_the_model_prefix() {
    let verifier = WasmVerifier::new(hash_data(b"model"));
    let expected = format!(
        "WASM Verifier for model: {}...\nVerifies: Model binding, I/O integrity, Proof validity, Timestamp",
        &hash_data(b"model")[..16]
    );
    assert_eq!(verifier.info(), expected);
    assert_eq!(verifier.model_hash(), hash_data(b"model"));
}

#[test]
fn record_getters_return_the_fields() {
    let proof = ProofData::new(
        "0xa".to_string(),
        "0xb".to_string(),
        "0xc".to_string(),
        "0xd".to_string(),
        42,
        true,
    );
    assert_eq!(proof.model_hash(), "0xa");
    assert_eq!(proof.proof_hash(), "0xb");
    assert_eq!(proof.input_hash(), "0xc");
    assert_eq!(proof.output_hash(), "0xd");
    assert_eq!(proof.timestamp(), 42);
    assert!(proof.verified());
    let copy = proof.clone();
    assert_eq!(copy.model_hash(), "0xa");
}
