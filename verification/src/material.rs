//! In-memory identity material: DER-encoded certificates and PKCS#8 private
//! keys, the loaded pair handed to TLS consumers, and the PEM outputs of a
//! fresh generation before they are persisted.

use vstd::prelude::*;

verus! {

/// A single DER-encoded certificate.
#[derive(Debug)]
pub struct Certificate {
    pub der: Vec<u8>,
}

impl View for Certificate {
    type V = Seq<u8>;

    open spec fn view(&self) -> Seq<u8> {
        self.der@
    }
}

impl Clone for Certificate {
    fn clone(&self) -> (c: Self)
        ensures
            c@ == self@,
    {
        Certificate { der: self.der.clone() }
    }
}

/// A single DER-encoded PKCS#8 private key, exclusively owned by its pair.
#[derive(Debug)]
pub struct PrivateKey {
    pub der: Vec<u8>,
}

impl View for PrivateKey {
    type V = Seq<u8>;

    open spec fn view(&self) -> Seq<u8> {
        self.der@
    }
}

impl Clone for PrivateKey {
    fn clone(&self) -> (k: Self)
        ensures
            k@ == self@,
    {
        PrivateKey { der: self.der.clone() }
    }
}

/// A loaded identity: the certificate chain (leaf first; this system issues no
/// intermediates) and the single private key belonging to it.
#[derive(Debug)]
pub struct CertPair {
    pub certs: Vec<Certificate>,
    pub key: PrivateKey,
}

impl CertPair {
    /// Reads a loaded pair as signing-authority material, taking the first
    /// certificate of the chain as the authority's own certificate.
    pub fn authority_material(&self) -> (a: AuthorityMaterial)
        requires
            self.certs@.len() >= 1,
        ensures
            a.root_certificate@ == self.certs@[0]@,
            a.root_key@ == self.key@,
    {
        AuthorityMaterial {
            root_certificate: self.certs[0].clone(),
            root_key: self.key.clone(),
        }
    }
}

/// The material of a certificate authority used to sign leaf certificates:
/// its own self-signed certificate and the matching private key.
///
/// The caller guarantees that `root_key` is the key pair that self-signed
/// `root_certificate`; that correspondence is a cryptographic fact this
/// library does not restate.
#[derive(Debug)]
pub struct AuthorityMaterial {
    pub root_certificate: Certificate,
    pub root_key: PrivateKey,
}

impl Clone for AuthorityMaterial {
    fn clone(&self) -> (a: Self)
        ensures
            a.root_certificate@ == self.root_certificate@,
            a.root_key@ == self.root_key@,
    {
        AuthorityMaterial {
            root_certificate: self.root_certificate.clone(),
            root_key: self.root_key.clone(),
        }
    }
}

/// Freshly generated identity material, PEM-encoded, as it will be written to
/// disk: one certificate and one private key.
#[derive(Debug)]
pub struct PemMaterial {
    pub cert_pem: Vec<u8>,
    pub key_pem: Vec<u8>,
}

impl Clone for PemMaterial {
    fn clone(&self) -> (m: Self)
        ensures
            m.cert_pem@ == self.cert_pem@,
            m.key_pem@ == self.key_pem@,
    {
        PemMaterial { cert_pem: self.cert_pem.clone(), key_pem: self.key_pem.clone() }
    }
}

} // verus!
