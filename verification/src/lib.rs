//! Node identity provisioning: a local certificate authority, node leaf
//! certificates signed by it, create-once persistence of the key material,
//! and a PEM codec that loads the material back from disk bytes.

pub mod err;
pub mod issue;
pub mod material;
pub mod pem;
pub mod provision;

use vstd::prelude::*;

verus! {

/// True when both halves of an on-disk identity pair are present; a lone
/// certificate or a lone key counts as absent, so that provisioning
/// regenerates both rather than reusing partial material.
pub fn material_exists(cert_exists: bool, key_exists: bool) -> (r: bool)
    ensures
        r == (cert_exists && key_exists),
{
    cert_exists && key_exists
}

} // verus!
