//! End-to-end scenario: starting from an empty data directory, provision the
//! authority "ca", then the node "node" signed by it, and check the resulting
//! files and the loaded identity pair.

use std::collections::HashMap;

use fly::err::ProvisionError;
use fly::material::CertPair;
use fly::provision::{Action, Event, Provisioner, Role};

fn drive_store(
    p: &mut Provisioner,
    files: &mut HashMap<String, Vec<u8>>,
) -> Result<CertPair, ProvisionError> {
    let mut event = Event::Start;
    loop {
        assert!(p.accepts(&event), "driver handed an event the machine does not expect");
        let action = p.step(event);
        event = match action {
            Action::CheckFiles { cert_path, key_path } => Event::FilesChecked {
                cert_exists: files.contains_key(&cert_path),
                key_exists: files.contains_key(&key_path),
            },
            Action::EnsureDir { .. } => Event::DirReady,
            Action::WriteCertificate { path, bytes } => {
                files.insert(path, bytes);
                Event::Written
            }
            Action::WriteSecretKey { path, bytes } => {
                if files.contains_key(&path) {
                    Event::WriteConflict
                } else {
                    files.insert(path, bytes);
                    Event::Written
                }
            }
            Action::ReadFile { path } => match files.get(&path) {
                Some(bytes) => Event::FileRead { bytes: bytes.clone() },
                None => Event::IoFailed,
            },
            Action::Finish { pair } => return Ok(pair),
            Action::Fail { error } => return Err(error),
        };
    }
}

#[test]
fn empty_directory_to_node_identity() {
    let mut files: HashMap<String, Vec<u8>> = HashMap::new();

    // Authority first.
    let mut ca = Provisioner::new("/data", "ca", Role::Authority);
    let ca_pair = drive_store(&mut ca, &mut files).expect("authority provisioning failed");
    assert!(files.contains_key("/data/fly/ca-cert.pem"));
    assert!(files.contains_key("/data/fly/ca-key.pem"));

    // Then the node, signed by that authority.
    let authority = ca_pair.authority_material();
    let mut node = Provisioner::new("/data", "node", Role::Node { authority });
    let node_pair = drive_store(&mut node, &mut files).expect("node provisioning failed");
    assert!(files.contains_key("/data/fly/node-cert.pem"));
    assert!(files.contains_key("/data/fly/node-key.pem"));

    // The loaded pair holds exactly one certificate and one private key.
    assert_eq!(node_pair.certs.len(), 1);
    assert!(!node_pair.key.der.is_empty());

    // The node certificate's issuer is the authority's subject common name.
    let (_, leaf) = x509_parser::parse_x509_certificate(&node_pair.certs[0].der)
        .expect("node certificate did not parse");
    assert_eq!(leaf.issuer().to_string(), "CN=fly ca");

    // And its signature verifies against the authority's certificate.
    let (_, ca_cert) = x509_parser::parse_x509_certificate(&ca_pair.certs[0].der)
        .expect("authority certificate did not parse");
    leaf.verify_signature(Some(ca_cert.public_key()))
        .expect("node certificate does not chain to the authority");
}
