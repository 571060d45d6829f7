//! Tests of the PEM codec: block extraction, base64 decoding with exact
//! expected values, the single-key invariant, and a round trip through the
//! material rcgen really generates.

use fly::err::ProvisionError;
use fly::issue::issue_authority;
use fly::pem::{b64_decode, load_certs, load_private_key};

fn pem_block(label: &str, payload: &str) -> Vec<u8> {
    format!("-----BEGIN {}-----\n{}\n-----END {}-----\n", label, payload, label).into_bytes()
}

#[test]
fn decodes_exact_bytes() {
    // "AAEC" is the base64 encoding of the bytes 0, 1, 2.
    let input = pem_block("CERTIFICATE", "AAEC");
    let certs = load_certs(&input).expect("no certificate found");
    assert_eq!(certs.len(), 1);
    assert_eq!(certs[0].der, vec![0u8, 1, 2]);
}

#[test]
fn decodes_padding_variants() {
    // One padding byte: "AAE=" encodes the bytes 0, 1.
    let one_pad = pem_block("CERTIFICATE", "AAE=");
    assert_eq!(load_certs(&one_pad).unwrap()[0].der, vec![0u8, 1]);
    // Two padding bytes: "AA==" encodes the single byte 0.
    let two_pad = pem_block("CERTIFICATE", "AA==");
    assert_eq!(load_certs(&two_pad).unwrap()[0].der, vec![0u8]);
}

#[test]
fn base64_alphabet_edges() {
    // "/w==" encodes 255; "+/+/" encodes 251, 255, 191.
    let high = b"/w==".to_vec();
    assert_eq!(b64_decode(&high), Some(vec![255u8]));
    let mixed = b"+/+/".to_vec();
    assert_eq!(b64_decode(&mixed), Some(vec![251u8, 255, 191]));
    // Not a multiple of four, or outside the alphabet: not valid base64.
    assert_eq!(b64_decode(&b"AAA".to_vec()), None);
    assert_eq!(b64_decode(&b"A!==".to_vec()), None);
    // Padding may only close the payload.
    assert_eq!(b64_decode(&b"AA==AAAA".to_vec()), None);
}

#[test]
fn accepts_carriage_returns() {
    let input = b"-----BEGIN CERTIFICATE-----\r\nAAEC\r\n-----END CERTIFICATE-----\r\n".to_vec();
    let certs = load_certs(&input).expect("no certificate found");
    assert_eq!(certs[0].der, vec![0u8, 1, 2]);
}

#[test]
fn joins_payload_lines() {
    let input = b"-----BEGIN CERTIFICATE-----\nAA\nEC\n-----END CERTIFICATE-----\n".to_vec();
    let certs = load_certs(&input).expect("no certificate found");
    assert_eq!(certs[0].der, vec![0u8, 1, 2]);
}

#[test]
fn returns_blocks_in_order() {
    let mut input = pem_block("CERTIFICATE", "AAEC");
    input.extend_from_slice(&pem_block("CERTIFICATE", "AwQF"));
    let certs = load_certs(&input).expect("no certificate found");
    assert_eq!(certs.len(), 2);
    assert_eq!(certs[0].der, vec![0u8, 1, 2]);
    assert_eq!(certs[1].der, vec![3u8, 4, 5]);
}

#[test]
fn no_block_is_a_load_failure() {
    let empty = Vec::new();
    assert!(matches!(load_certs(&empty), Err(ProvisionError::CertificateLoadFailure)));
    let text = b"no markers here\n".to_vec();
    assert!(matches!(load_certs(&text), Err(ProvisionError::CertificateLoadFailure)));
    // A key block is not a certificate block.
    let key_only = pem_block("PRIVATE KEY", "AAEC");
    assert!(matches!(load_certs(&key_only), Err(ProvisionError::CertificateLoadFailure)));
}

#[test]
fn unterminated_block_is_not_parseable() {
    let input = b"-----BEGIN CERTIFICATE-----\nAAEC\n".to_vec();
    assert!(matches!(load_certs(&input), Err(ProvisionError::CertificateLoadFailure)));
}

#[test]
fn invalid_base64_block_is_not_parseable() {
    let input = pem_block("CERTIFICATE", "A?EC");
    assert!(matches!(load_certs(&input), Err(ProvisionError::CertificateLoadFailure)));
}

#[test]
fn single_key_is_loaded() {
    let input = pem_block("PRIVATE KEY", "AAEC");
    let key = load_private_key(&input).expect("no key found");
    assert_eq!(key.der, vec![0u8, 1, 2]);
}

#[test]
fn zero_keys_fail_with_load_failure() {
    let cert_only = pem_block("CERTIFICATE", "AAEC");
    assert!(matches!(load_private_key(&cert_only), Err(ProvisionError::KeyLoadFailure)));
}

#[test]
fn two_keys_fail_with_count_violation() {
    let mut input = pem_block("PRIVATE KEY", "AAEC");
    input.extend_from_slice(&pem_block("PRIVATE KEY", "AwQF"));
    assert!(matches!(load_private_key(&input), Err(ProvisionError::KeyCountViolation)));
}

#[test]
fn loads_generated_material_back() {
    // What rcgen serializes must come back through the codec as exactly one
    // certificate and exactly one key.
    let material = issue_authority("fly ca").expect("generation failed");
    let certs = load_certs(&material.cert_pem).expect("generated certificate did not parse");
    assert_eq!(certs.len(), 1);
    assert!(!certs[0].der.is_empty());
    let key = load_private_key(&material.key_pem).expect("generated key did not parse");
    assert!(!key.der.is_empty());
}

#[test]
fn serial_from_bytes_is_little_endian() {
    let low = vec![1u8, 0, 0, 0, 0, 0, 0, 0];
    assert_eq!(fly::issue::serial_from_bytes(&low), 1u64);
    let high = vec![0u8, 0, 0, 0, 0, 0, 0, 1];
    assert_eq!(fly::issue::serial_from_bytes(&high), 1u64 << 56);
    let mixed = vec![0x21u8, 0x43, 0x65, 0x87, 0xa9, 0xcb, 0xed, 0x0f];
    assert_eq!(fly::issue::serial_from_bytes(&mixed), 0x0fedcba987654321u64);
}
