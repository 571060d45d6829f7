//! Issuance of identity material: a self-signed root authority certificate,
//! and leaf certificates signed by an authority. Serial numbers are drawn
//! from the system's secure random source for every certificate.

use vstd::prelude::*;

use crate::err::ProvisionError;
use crate::material::{AuthorityMaterial, PemMaterial};
use crate::pem::{cert_ders, key_ders};

verus! {

/// ring's handle to the operating system's secure random source.
#[verifier::external_type_specification]
#[verifier::external_body]
pub struct ExSystemRandom(ring::rand::SystemRandom);

/// Relies on ring::rand::SystemRandom::new: constructs the handle to the
/// system random source. Nothing is claimed of it.
#[verifier::external_body]
fn system_random() -> ring::rand::SystemRandom {
    ring::rand::SystemRandom::new()
}

/// Relies on ring::rand::SecureRandom::fill for SystemRandom: on success the
/// buffer is filled with random bytes; its length is unchanged either way.
/// Nothing is claimed of the bytes themselves.
#[verifier::external_body]
fn fill_random(rng: &ring::rand::SystemRandom, dest: &mut Vec<u8>) -> (r: Result<
    (),
    ProvisionError,
>)
    ensures
        final(dest)@.len() == old(dest)@.len(),
        r is Err ==> r->Err_0 == ProvisionError::RandomSourceFailure,
{
    ring::rand::SecureRandom::fill(rng, dest.as_mut_slice()).map_err(
        |_| ProvisionError::RandomSourceFailure,
    )
}

/// The 64-bit value of eight bytes, least significant byte first.
pub open spec fn serial_of_bytes(b: Seq<u8>) -> u64
    recommends
        b.len() == 8,
{
    (b[0] as u64) | ((b[1] as u64) << 8) | ((b[2] as u64) << 16) | ((b[3] as u64) << 24) | ((
    b[4] as u64) << 32) | ((b[5] as u64) << 40) | ((b[6] as u64) << 48) | ((b[7] as u64) << 56)
}

/// Packs eight bytes into a 64-bit serial value, least significant byte first.
pub fn serial_from_bytes(b: &Vec<u8>) -> (r: u64)
    requires
        b@.len() == 8,
    ensures
        r == serial_of_bytes(b@),
{
    (b[0] as u64) | ((b[1] as u64) << 8) | ((b[2] as u64) << 16) | ((b[3] as u64) << 24) | ((
    b[4] as u64) << 32) | ((b[5] as u64) << 40) | ((b[6] as u64) << 48) | ((b[7] as u64) << 56)
}

/// Draws a fresh 64-bit serial number from the secure random source.
///
/// Fails with `RandomSourceFailure`, and with nothing else, when the source
/// cannot supply entropy. The value itself is random: no call promises any
/// relation to another call's value.
pub fn fresh_serial() -> (r: Result<u64, ProvisionError>)
    ensures
        r is Err ==> r->Err_0 == ProvisionError::RandomSourceFailure,
{
    let rng = system_random();
    let mut bytes: Vec<u8> = Vec::new();
    let mut k: usize = 0;
    while k < 8
        invariant
            k <= 8,
            bytes@.len() == k,
        decreases 8 - k,
    {
        bytes.push(0u8);
        k = k + 1;
    }
    match fill_random(&rng, &mut bytes) {
        Ok(_) => Ok(serial_from_bytes(&bytes)),
        Err(e) => Err(e),
    }
}

/// Relies on rcgen: CertificateParams::default, DistinguishedName::push,
/// SerialNumber::from, KeyPair::generate, CertificateParams::self_signed,
/// Certificate::pem, KeyPair::serialize_pem. Builds a self-signed authority
/// certificate — subject common name as given, basic constraints CA with
/// path length zero, the given serial — over a freshly generated key pair.
/// Each output is one PEM block (standard base64, 64-column lines), so the
/// codec parses the pair back as exactly one certificate and exactly one
/// key. Every rcgen failure is reported as `CertificateBuildFailure`.
#[verifier::external_body]
fn rcgen_self_signed_ca(common_name: &str, serial: u64) -> (r: Result<PemMaterial, ProvisionError>)
    ensures
        r is Ok ==> r->Ok_0.cert_pem@.len() > 0 && r->Ok_0.key_pem@.len() > 0,
        r is Ok ==> cert_ders(r->Ok_0.cert_pem@).len() == 1 && key_ders(r->Ok_0.key_pem@).len()
            == 1,
        r is Err ==> r->Err_0 == ProvisionError::CertificateBuildFailure,
{
    let build = ProvisionError::CertificateBuildFailure;
    let mut params = rcgen::CertificateParams::default();
    params.distinguished_name = rcgen::DistinguishedName::new();
    params.distinguished_name.push(rcgen::DnType::CommonName, common_name);
    params.is_ca = rcgen::IsCa::Ca(rcgen::BasicConstraints::Constrained(0));
    params.serial_number = Some(rcgen::SerialNumber::from(serial));
    let key = rcgen::KeyPair::generate().map_err(|_| build)?;
    let cert = params.self_signed(&key).map_err(|_| build)?;
    Ok(PemMaterial {
        cert_pem: cert.pem().into_bytes(),
        key_pem: key.serialize_pem().into_bytes(),
    })
}

/// Relies on rcgen: KeyPair::try_from on the authority's PKCS#8 DER,
/// Issuer::from_ca_cert_der on the authority's certificate DER,
/// CertificateParams::default, DistinguishedName::push, SerialNumber::from,
/// KeyPair::generate, CertificateParams::signed_by, Certificate::pem,
/// KeyPair::serialize_pem. Builds a leaf certificate — subject common name
/// as given, the given serial, issuer taken from the authority certificate's
/// subject — over a freshly generated key pair, signed with the authority's
/// key. Each output is one PEM block (standard base64, 64-column lines), so
/// the codec parses the pair back as exactly one certificate and exactly one
/// key. Every rcgen failure is reported as `CertificateBuildFailure`.
#[verifier::external_body]
fn rcgen_signed_leaf(
    common_name: &str,
    serial: u64,
    ca_cert_der: &Vec<u8>,
    ca_key_der: &Vec<u8>,
) -> (r: Result<PemMaterial, ProvisionError>)
    ensures
        r is Ok ==> r->Ok_0.cert_pem@.len() > 0 && r->Ok_0.key_pem@.len() > 0,
        r is Ok ==> cert_ders(r->Ok_0.cert_pem@).len() == 1 && key_ders(r->Ok_0.key_pem@).len()
            == 1,
        r is Err ==> r->Err_0 == ProvisionError::CertificateBuildFailure,
{
    let build = ProvisionError::CertificateBuildFailure;
    let ca_key = rcgen::KeyPair::try_from(ca_key_der.as_slice()).map_err(|_| build)?;
    let issuer = rcgen::Issuer::from_ca_cert_der(&ca_cert_der.as_slice().into(), ca_key).map_err(
        |_| build,
    )?;
    let mut params = rcgen::CertificateParams::default();
    params.distinguished_name = rcgen::DistinguishedName::new();
    params.distinguished_name.push(rcgen::DnType::CommonName, common_name);
    params.serial_number = Some(rcgen::SerialNumber::from(serial));
    let key = rcgen::KeyPair::generate().map_err(|_| build)?;
    let cert = params.signed_by(&key, &issuer).map_err(|_| build)?;
    Ok(PemMaterial {
        cert_pem: cert.pem().into_bytes(),
        key_pem: key.serialize_pem().into_bytes(),
    })
}

/// Generates a self-signed root authority: a fresh key pair and a certificate
/// with the given subject common name, `is_ca` set with path length zero, and
/// a fresh random serial.
///
/// The returned material parses back through the codec as exactly one
/// certificate and exactly one private key. Fails with
/// `RandomSourceFailure` exactly when the serial could not be drawn, and
/// with `CertificateBuildFailure` exactly when rcgen could not build or
/// self-sign the certificate; nothing is persisted here.
pub fn issue_authority(common_name: &str) -> (r: Result<PemMaterial, ProvisionError>)
    ensures
        r is Ok ==> r->Ok_0.cert_pem@.len() > 0 && r->Ok_0.key_pem@.len() > 0,
        r is Ok ==> cert_ders(r->Ok_0.cert_pem@).len() == 1 && key_ders(r->Ok_0.key_pem@).len()
            == 1,
        r is Err ==> (r->Err_0 == ProvisionError::RandomSourceFailure || r->Err_0
            == ProvisionError::CertificateBuildFailure),
{
    let serial = match fresh_serial() {
        Ok(s) => s,
        Err(e) => {
            return Err(e);
        },
    };
    rcgen_self_signed_ca(common_name, serial)
}

/// Generates a leaf certificate for the given subject common name, signed by
/// the authority's key, with its own fresh key pair and its own independent
/// random serial. The authority material is never mutated.
///
/// The caller guarantees that `authority.root_key` is the key pair that
/// signed `authority.root_certificate`. Failure modes mirror
/// `issue_authority`'s.
pub fn issue_leaf(common_name: &str, authority: &AuthorityMaterial) -> (r: Result<
    PemMaterial,
    ProvisionError,
>)
    ensures
        r is Ok ==> r->Ok_0.cert_pem@.len() > 0 && r->Ok_0.key_pem@.len() > 0,
        r is Ok ==> cert_ders(r->Ok_0.cert_pem@).len() == 1 && key_ders(r->Ok_0.key_pem@).len()
            == 1,
        r is Err ==> (r->Err_0 == ProvisionError::RandomSourceFailure || r->Err_0
            == ProvisionError::CertificateBuildFailure),
{
    let serial = match fresh_serial() {
        Ok(s) => s,
        Err(e) => {
            return Err(e);
        },
    };
    rcgen_signed_leaf(common_name, serial, &authority.root_certificate.der, &authority.root_key.der)
}

} // verus!
