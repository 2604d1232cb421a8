use attestation_verification::endorsement::{
    verify_binary_endorsement, verify_endorser_public_key_ecdsa,
};
use attestation_verification::statement::{parse_statement, validate_statement};
use attestation_verification::Error;
use p256::ecdsa::signature::Signer;
use p256::ecdsa::{DerSignature, SigningKey};

// Pretend the tests run at this time: 1 March 2024, 12:00 UTC
const NOW_UTC_MILLIS: i64 = 1709294400000;

// Endorsement statement was invalid on: 28 March 2023, 10:40 UTC
const TOO_EARLY_UTC_MILLIS: i64 = 1680000000000;

// Endorsement statement was invalid on: 26 March 2025, 14:40 UTC
const TOO_LATE_UTC_MILLIS: i64 = 1743000000000;

// Validity window of the test statement: 22 July 2023 to 19 February 2025.
const NOT_BEFORE_UTC_MILLIS: i64 = 1690000000000;
const NOT_AFTER_UTC_MILLIS: i64 = 1740000000000;

struct TestData {
    endorsement: Vec<u8>,
    signature: Vec<u8>,
    log_entry: Vec<u8>,
    endorser_public_key: Vec<u8>,
    rekor_public_key: Vec<u8>,
}

fn field(tag: u8, value: &[u8]) -> Vec<u8> {
    let mut out = vec![tag];
    out.extend_from_slice(&(value.len() as u32).to_be_bytes());
    out.extend_from_slice(value);
    out
}

fn ts_bytes(v: i64) -> [u8; 8] {
    (v as u64).to_be_bytes()
}

fn endorser_signing_key() -> SigningKey {
    SigningKey::from_slice(&[7u8; 32]).expect("couldn't build endorser key")
}

fn log_signing_key() -> SigningKey {
    SigningKey::from_slice(&[9u8; 32]).expect("couldn't build log key")
}

fn make_endorsement() -> Vec<u8> {
    let mut endorsement = Vec::new();
    endorsement.extend_from_slice(&field(1, b"sha256:0123456789abcdef"));
    endorsement.extend_from_slice(&field(2, b"oak_example_app"));
    endorsement.extend_from_slice(&field(3, &ts_bytes(NOT_BEFORE_UTC_MILLIS)));
    endorsement.extend_from_slice(&field(4, &ts_bytes(NOT_AFTER_UTC_MILLIS)));
    endorsement.extend_from_slice(&field(5, &ts_bytes(NOT_BEFORE_UTC_MILLIS + 1000)));
    endorsement.extend_from_slice(&field(6, b"policy-predicate"));
    endorsement
}

fn make_log_entry(log_key: &SigningKey, endorser_public_key: &[u8]) -> Vec<u8> {
    let body = b"logged endorsement record".to_vec();
    let mut signed_content = Vec::new();
    signed_content.extend_from_slice(&(endorser_public_key.len() as u64).to_be_bytes());
    signed_content.extend_from_slice(endorser_public_key);
    signed_content.extend_from_slice(&body);
    let log_signature: DerSignature = log_key.sign(&signed_content);
    let mut log_entry = Vec::new();
    log_entry.extend_from_slice(&field(1, &body));
    log_entry.extend_from_slice(&field(2, log_signature.as_bytes()));
    log_entry.extend_from_slice(&field(3, endorser_public_key));
    log_entry
}

fn load_testdata() -> TestData {
    let endorser_key = endorser_signing_key();
    let endorser_public_key = endorser_key.verifying_key().to_sec1_bytes().to_vec();
    let log_key = log_signing_key();
    let rekor_public_key = log_key.verifying_key().to_sec1_bytes().to_vec();

    let endorsement = make_endorsement();
    let statement_signature: DerSignature = endorser_key.sign(&endorsement);
    let signature = statement_signature.as_bytes().to_vec();
    let log_entry = make_log_entry(&log_key, &endorser_public_key);

    TestData { endorsement, signature, log_entry, endorser_public_key, rekor_public_key }
}

#[test]
fn test_validate_endorsement_statement_success() {
    let testdata = load_testdata();
    let statement =
        parse_statement(&testdata.endorsement).expect("could not parse endorsement statement");
    let result = validate_statement(NOW_UTC_MILLIS, &[], &statement);
    assert!(result.is_ok(), "{:?}", result);
}

#[test]
fn test_validate_endorsement_statement_fails_too_early() {
    let testdata = load_testdata();
    let statement =
        parse_statement(&testdata.endorsement).expect("could not parse endorsement statement");
    let result = validate_statement(TOO_EARLY_UTC_MILLIS, &[], &statement);
    assert!(result.is_err(), "{:?}", result);
}

#[test]
fn test_validate_statement_fails_too_late() {
    let testdata = load_testdata();
    let statement =
        parse_statement(&testdata.endorsement).expect("could not parse endorsement statement");
    let result = validate_statement(TOO_LATE_UTC_MILLIS, &[], &statement);
    assert!(result.is_err(), "{:?}", result);
}

#[test]
fn test_verify_endorser_public_key_ecdsa_success() {
    let testdata = load_testdata();

    let result =
        verify_endorser_public_key_ecdsa(&testdata.log_entry, &testdata.endorser_public_key);
    assert!(result.is_ok(), "{:?}", result);
}

#[test]
fn test_verify_binary_endorsement_success() {
    let testdata = load_testdata();

    let result = verify_binary_endorsement(
        NOW_UTC_MILLIS,
        &testdata.endorsement,
        &testdata.signature,
        &testdata.log_entry,
        &testdata.endorser_public_key,
        &testdata.rekor_public_key,
    );
    assert!(result.is_ok(), "{:?}", result);
}

#[test]
fn test_verify_binary_endorsement_fails_with_empty_signature() {
    let testdata = load_testdata();

    let result = verify_binary_endorsement(
        NOW_UTC_MILLIS,
        &testdata.endorsement,
        &Vec::new(),
        &testdata.log_entry,
        &testdata.endorser_public_key,
        &testdata.rekor_public_key,
    );
    assert!(result.is_err(), "{:?}", result);

    let result = verify_binary_endorsement(
        NOW_UTC_MILLIS,
        &testdata.endorsement,
        &Vec::new(),
        &Vec::new(),
        &testdata.endorser_public_key,
        &Vec::new(),
    );
    assert!(result.is_err(), "{:?}", result);
}

#[test]
fn test_verify_binary_endorsement_fails_with_invalid_signature() {
    let mut testdata = load_testdata();

    testdata.signature[0] ^= 1;

    let result = verify_binary_endorsement(
        NOW_UTC_MILLIS,
        &testdata.endorsement,
        &testdata.signature,
        &testdata.log_entry,
        &testdata.endorser_public_key,
        &testdata.rekor_public_key,
    );
    assert!(result.is_err(), "{:?}", result);

    let result = verify_binary_endorsement(
        NOW_UTC_MILLIS,
        &testdata.endorsement,
        &testdata.signature,
        &Vec::new(),
        &testdata.endorser_public_key,
        &Vec::new(),
    );
    assert!(result.is_err(), "{:?}", result);
}

#[test]
fn test_verify_binary_endorsement_fails_with_empty_endorser_public_key() {
    let testdata = load_testdata();

    let result = verify_binary_endorsement(
        NOW_UTC_MILLIS,
        &testdata.endorsement,
        &testdata.signature,
        &testdata.log_entry,
        &Vec::new(),
        &testdata.rekor_public_key,
    );
    assert!(result.is_err(), "{:?}", result);

    let result = verify_binary_endorsement(
        NOW_UTC_MILLIS,
        &testdata.endorsement,
        &testdata.signature,
        &Vec::new(),
        &Vec::new(),
        &Vec::new(),
    );
    assert!(result.is_err(), "{:?}", result);
}

#[test]
fn test_verify_binary_endorsement_fails_with_invalid_endorser_public_key() {
    let testdata = load_testdata();

    let result = verify_binary_endorsement(
        NOW_UTC_MILLIS,
        &testdata.endorsement,
        &testdata.signature,
        &testdata.log_entry,
        // NB: We use the wrong key deliberately.
        &testdata.rekor_public_key,
        &testdata.rekor_public_key,
    );
    assert!(result.is_err(), "{:?}", result);
}

#[test]
fn test_verify_binary_endorsement_fails_with_invalid_rekor_public_key() {
    let testdata = load_testdata();

    let result = verify_binary_endorsement(
        NOW_UTC_MILLIS,
        &testdata.endorsement,
        &testdata.signature,
        &testdata.log_entry,
        &testdata.endorser_public_key,
        // NB: We use the wrong key deliberately.
        &testdata.endorser_public_key,
    );
    assert!(result.is_err(), "{:?}", result);
}

#[test]
fn test_verify_binary_endorsement_fails_with_rekor_key_but_no_log_entry() {
    let testdata = load_testdata();

    let result = verify_binary_endorsement(
        NOW_UTC_MILLIS,
        &testdata.endorsement,
        &testdata.signature,
        &Vec::new(),
        &testdata.endorser_public_key,
        &testdata.rekor_public_key,
    );
    assert!(result.is_err(), "{:?}", result);
}

#[test]
fn test_verify_binary_endorsement_succeeds_with_no_rekor_key() {
    let testdata = load_testdata();

    let result = verify_binary_endorsement(
        NOW_UTC_MILLIS,
        &testdata.endorsement,
        &testdata.signature,
        &testdata.log_entry,
        &testdata.endorser_public_key,
        &Vec::new(),
    );
    assert!(result.is_ok(), "{:?}", result);

    let result = verify_binary_endorsement(
        NOW_UTC_MILLIS,
        &testdata.endorsement,
        &testdata.signature,
        &Vec::new(),
        &testdata.endorser_public_key,
        &Vec::new(),
    );
    assert!(result.is_ok(), "{:?}", result);
}

#[test]
fn test_verify_binary_endorsement_reports_exact_error_kinds() {
    let testdata = load_testdata();

    // Known-good tuple at a too-early and a too-late instant.
    let result = verify_binary_endorsement(
        TOO_EARLY_UTC_MILLIS,
        &testdata.endorsement,
        &testdata.signature,
        &testdata.log_entry,
        &testdata.endorser_public_key,
        &testdata.rekor_public_key,
    );
    assert_eq!(result, Err(Error::TooEarly));

    let result = verify_binary_endorsement(
        TOO_LATE_UTC_MILLIS,
        &testdata.endorsement,
        &testdata.signature,
        &testdata.log_entry,
        &testdata.endorser_public_key,
        &testdata.rekor_public_key,
    );
    assert_eq!(result, Err(Error::TooLate));

    // Swapping the log's key into the endorser-key argument position makes
    // the statement signature check fail: the key parses but signed nothing.
    let result = verify_binary_endorsement(
        NOW_UTC_MILLIS,
        &testdata.endorsement,
        &testdata.signature,
        &testdata.log_entry,
        &testdata.rekor_public_key,
        &testdata.rekor_public_key,
    );
    assert_eq!(result, Err(Error::InvalidSignature));

    // A log key that is not the log's actual signing key.
    let result = verify_binary_endorsement(
        NOW_UTC_MILLIS,
        &testdata.endorsement,
        &testdata.signature,
        &testdata.log_entry,
        &testdata.endorser_public_key,
        &testdata.endorser_public_key,
    );
    assert_eq!(result, Err(Error::InvalidLogSignature));

    // A requested log check with no entry at all.
    let result = verify_binary_endorsement(
        NOW_UTC_MILLIS,
        &testdata.endorsement,
        &testdata.signature,
        &Vec::new(),
        &testdata.endorser_public_key,
        &testdata.rekor_public_key,
    );
    assert_eq!(result, Err(Error::MissingLogEntry));

    // An empty endorser key is rejected as a key, not as a signature.
    let result = verify_binary_endorsement(
        NOW_UTC_MILLIS,
        &testdata.endorsement,
        &testdata.signature,
        &testdata.log_entry,
        &Vec::new(),
        &testdata.rekor_public_key,
    );
    assert_eq!(result, Err(Error::InvalidKey));

    // An empty signature under a well-formed key.
    let result = verify_binary_endorsement(
        NOW_UTC_MILLIS,
        &testdata.endorsement,
        &Vec::new(),
        &testdata.log_entry,
        &testdata.endorser_public_key,
        &testdata.rekor_public_key,
    );
    assert_eq!(result, Err(Error::InvalidSignature));

    // Unparseable statement bytes under a valid signature over them.
    let endorser_key = endorser_signing_key();
    let garbage = b"not a statement".to_vec();
    let garbage_signature: DerSignature = endorser_key.sign(&garbage);
    let result = verify_binary_endorsement(
        NOW_UTC_MILLIS,
        &garbage,
        garbage_signature.as_bytes(),
        &testdata.log_entry,
        &testdata.endorser_public_key,
        &Vec::new(),
    );
    assert_eq!(result, Err(Error::MalformedStatement));
}

#[test]
fn test_verify_binary_endorsement_fails_with_entry_bound_to_other_key() {
    let testdata = load_testdata();

    // A validly signed log entry that is bound to a different endorser key.
    let other_key = SigningKey::from_slice(&[11u8; 32]).expect("couldn't build other key");
    let other_public_key = other_key.verifying_key().to_sec1_bytes().to_vec();
    let foreign_entry = make_log_entry(&log_signing_key(), &other_public_key);

    let result = verify_binary_endorsement(
        NOW_UTC_MILLIS,
        &testdata.endorsement,
        &testdata.signature,
        &foreign_entry,
        &testdata.endorser_public_key,
        &testdata.rekor_public_key,
    );
    assert_eq!(result, Err(Error::KeyMismatch));

    let result = verify_endorser_public_key_ecdsa(&foreign_entry, &testdata.endorser_public_key);
    assert_eq!(result, Err(Error::KeyMismatch));
}

#[test]
fn test_verify_binary_endorsement_is_idempotent() {
    let testdata = load_testdata();

    let first = verify_binary_endorsement(
        NOW_UTC_MILLIS,
        &testdata.endorsement,
        &testdata.signature,
        &testdata.log_entry,
        &testdata.endorser_public_key,
        &testdata.rekor_public_key,
    );
    let second = verify_binary_endorsement(
        NOW_UTC_MILLIS,
        &testdata.endorsement,
        &testdata.signature,
        &testdata.log_entry,
        &testdata.endorser_public_key,
        &testdata.rekor_public_key,
    );
    assert_eq!(first, second);

    let first = verify_binary_endorsement(
        TOO_EARLY_UTC_MILLIS,
        &testdata.endorsement,
        &testdata.signature,
        &testdata.log_entry,
        &testdata.endorser_public_key,
        &testdata.rekor_public_key,
    );
    let second = verify_binary_endorsement(
        TOO_EARLY_UTC_MILLIS,
        &testdata.endorsement,
        &testdata.signature,
        &testdata.log_entry,
        &testdata.endorser_public_key,
        &testdata.rekor_public_key,
    );
    assert_eq!(first, second);
}
