//! Error taxonomy for the provisioning core. Every failure is surfaced to the
//! caller as one of these typed conditions; none is swallowed or retried.

use vstd::prelude::*;

verus! {

/// The reasons a provisioning step can fail.
#[derive(Clone, Copy, Debug, PartialEq, Eq, Structural)]
pub enum ProvisionError {
    /// Directory or file creation, open, or read failed for a reason not
    /// covered by a more specific variant.
    IoFailure,
    /// Exclusive creation of the key file found it already present: a lost
    /// race or corrupted partial state. Never retried automatically.
    KeyMaterialConflict,
    /// PEM parsing of a certificate file found no parseable certificate block.
    CertificateLoadFailure,
    /// PEM parsing of a key file found no parseable private-key block.
    KeyLoadFailure,
    /// PEM parsing of a key file found more than one private key; the file is
    /// rejected rather than silently taking the first.
    KeyCountViolation,
    /// The secure random generator could not supply entropy for a serial
    /// number.
    RandomSourceFailure,
    /// Certificate parameter construction, self-signing, or signer-based
    /// issuance failed.
    CertificateBuildFailure,
}

impl ProvisionError {
    /// A short stable description, for callers that report the failure.
    pub fn describe(&self) -> (s: &'static str)
        ensures
            s@.len() > 0,
    {
        let s = match self {
            ProvisionError::IoFailure => "i/o failure",
            ProvisionError::KeyMaterialConflict => "key material already present",
            ProvisionError::CertificateLoadFailure => "failed to load certificate",
            ProvisionError::KeyLoadFailure => "failed to load private key",
            ProvisionError::KeyCountViolation => "expected a single private key",
            ProvisionError::RandomSourceFailure => "secure random source failed",
            ProvisionError::CertificateBuildFailure => "certificate build failed",
        };
        proof {
            reveal_strlit("i/o failure");
            reveal_strlit("key material already present");
            reveal_strlit("failed to load certificate");
            reveal_strlit("failed to load private key");
            reveal_strlit("expected a single private key");
            reveal_strlit("secure random source failed");
            reveal_strlit("certificate build failed");
        }
        s
    }
}

} // verus!
