//! The provisioning state machine: given a role (authority, or node signed by
//! an authority), it ensures identity material exists on disk — generating it
//! if absent — and always finishes by reading the files back through the PEM
//! codec, so the returned pair reflects exactly what is on disk.
//!
//! The machine owns every decision; the caller owns the filesystem. Each call
//! to [`Provisioner::step`] consumes one observation ([`Event`]) and returns
//! one instruction ([`Action`]) for the caller to perform:
//!
//! - `CheckFiles` — report whether the two files exist;
//! - `EnsureDir` — create the directory and any missing ancestors;
//! - `WriteCertificate` — create the certificate file (not a secret);
//! - `WriteSecretKey` — create the key file with exclusive-create semantics
//!   (fail if present, never truncate) and owner-only permissions, the sole
//!   path by which private key bytes reach persistent storage;
//! - `ReadFile` — read the file's bytes back;
//! - `Finish` / `Fail` — the outcome.

use vstd::prelude::*;
use vstd::string::StringExecFns;

use crate::err::ProvisionError;
use crate::material::{AuthorityMaterial, CertPair, Certificate, PemMaterial};
use crate::pem::{cert_ders, key_ders, load_certs, load_private_key};
use crate::issue::{issue_authority, issue_leaf};

verus! {

/// The role provisioning is performed for: the root authority itself, or a
/// node whose certificate the given authority signs.
pub enum Role {
    Authority,
    Node { authority: AuthorityMaterial },
}

/// Where the machine stands: which observation it is waiting for.
#[derive(Clone, Copy, Debug, PartialEq, Eq, Structural)]
pub enum Phase {
    /// Waiting for `Start`.
    Begin,
    /// Asked `CheckFiles`; waiting for `FilesChecked`.
    Checking,
    /// Asked `EnsureDir`; waiting for `DirReady`.
    Preparing,
    /// Asked `WriteCertificate`; waiting for `Written`.
    WritingCert,
    /// Asked `WriteSecretKey`; waiting for `Written` or `WriteConflict`.
    WritingKey,
    /// Asked to read the certificate file back; waiting for `FileRead`.
    ReadingCert,
    /// Asked to read the key file back; waiting for `FileRead`.
    ReadingKey,
    /// Finished with a loaded pair.
    Done,
    /// Finished with an error.
    Failed,
}

/// What the caller must do next.
pub enum Action {
    /// Report whether both files exist (`FilesChecked`).
    CheckFiles { cert_path: String, key_path: String },
    /// Create the directory and all missing ancestors (`DirReady`).
    EnsureDir { dir: String },
    /// Create the certificate file with default permissions (`Written`).
    WriteCertificate { path: String, bytes: Vec<u8> },
    /// Create the key file, failing if it already exists, with owner-only
    /// permissions where the platform supports them (`Written` or
    /// `WriteConflict`).
    WriteSecretKey { path: String, bytes: Vec<u8> },
    /// Read the file's bytes (`FileRead`).
    ReadFile { path: String },
    /// Provisioning succeeded with this loaded pair.
    Finish { pair: CertPair },
    /// Provisioning failed; nothing is retried.
    Fail { error: ProvisionError },
}

/// What the caller observed while performing the last action.
pub enum Event {
    /// Begin provisioning.
    Start,
    /// Whether the certificate and the key file exist.
    FilesChecked { cert_exists: bool, key_exists: bool },
    /// The directory exists.
    DirReady,
    /// The file was created and its bytes written.
    Written,
    /// Exclusive creation found the file already present; its bytes were
    /// left untouched.
    WriteConflict,
    /// The file's bytes.
    FileRead { bytes: Vec<u8> },
    /// The action failed for any other reason.
    IoFailed,
}

/// The directory identity material lives in, under the application's data
/// root.
pub open spec fn fly_dir_spec(root: Seq<char>) -> Seq<char> {
    root + "/fly"@
}

/// The deterministic certificate path for a logical name.
pub open spec fn cert_path_spec(root: Seq<char>, name: Seq<char>) -> Seq<char> {
    fly_dir_spec(root) + "/"@ + name + "-cert.pem"@
}

/// The deterministic key path for a logical name.
pub open spec fn key_path_spec(root: Seq<char>, name: Seq<char>) -> Seq<char> {
    fly_dir_spec(root) + "/"@ + name + "-key.pem"@
}

/// The provisioning state machine for one identity.
pub struct Provisioner {
    pub role: Role,
    pub dir: String,
    pub cert_path: String,
    pub key_path: String,
    pub phase: Phase,
    pub generated: Option<PemMaterial>,
    pub loaded_certs: Option<Vec<Certificate>>,
}

/// The machine's internal invariant: the phases that hand out generated or
/// loaded material hold it.
pub open spec fn wf(p: Provisioner) -> bool {
    &&& (p.phase == Phase::WritingCert || p.phase == Phase::WritingKey) ==> (p.generated matches
        Some(m) && well_formed_material(m))
    &&& p.phase == Phase::ReadingKey ==> (p.loaded_certs matches Some(cs) && cs@.len() > 0)
}

/// Generated material the machine is willing to persist: nonempty, and each
/// half parses back as exactly one block of its kind.
pub open spec fn well_formed_material(m: PemMaterial) -> bool {
    &&& m.cert_pem@.len() > 0
    &&& m.key_pem@.len() > 0
    &&& cert_ders(m.cert_pem@).len() == 1
    &&& key_ders(m.key_pem@).len() == 1
}

/// True when the machine, in this phase, can consume this event.
pub open spec fn expects(p: Provisioner, event: Event) -> bool {
    match p.phase {
        Phase::Begin => event matches Event::Start,
        Phase::Checking => event matches Event::FilesChecked { .. },
        Phase::Preparing => (event matches Event::DirReady) || (event matches Event::IoFailed),
        Phase::WritingCert => (event matches Event::Written) || (event matches Event::IoFailed),
        Phase::WritingKey => (event matches Event::Written) || (event matches Event::WriteConflict)
            || (event matches Event::IoFailed),
        Phase::ReadingCert => (event matches Event::FileRead { .. }) || (event
            matches Event::IoFailed),
        Phase::ReadingKey => (event matches Event::FileRead { .. }) || (event
            matches Event::IoFailed),
        Phase::Done => false,
        Phase::Failed => false,
    }
}

/// The machine's configuration never changes across a step.
pub open spec fn same_config(pre: Provisioner, post: Provisioner) -> bool {
    &&& post.role == pre.role
    &&& post.dir@ == pre.dir@
    &&& post.cert_path@ == pre.cert_path@
    &&& post.key_path@ == pre.key_path@
}

/// A failing step: the machine reports the error and halts.
pub open spec fn fail_step(
    pre: Provisioner,
    post: Provisioner,
    action: Action,
    e: ProvisionError,
) -> bool {
    &&& same_config(pre, post)
    &&& post.phase == Phase::Failed
    &&& action matches Action::Fail { error } && error == e
}

/// The transition relation of the provisioning machine: what one step does
/// with each observation, in each phase. The only freedom left open is the
/// content of freshly generated material (it contains random values) and
/// which generation error occurred; everything else is pinned down.
pub open spec fn next(pre: Provisioner, event: Event, post: Provisioner, action: Action) -> bool {
    match (pre.phase, event) {
        (Phase::Begin, Event::Start) => {
            &&& same_config(pre, post)
            &&& post.phase == Phase::Checking
            &&& post.generated == pre.generated
            &&& post.loaded_certs == pre.loaded_certs
            &&& action matches Action::CheckFiles { cert_path, key_path } && cert_path@
                == pre.cert_path@ && key_path@ == pre.key_path@
        },
        (Phase::Checking, Event::FilesChecked { cert_exists, key_exists }) => {
            if cert_exists && key_exists {
                &&& same_config(pre, post)
                &&& post.phase == Phase::ReadingCert
                &&& post.generated == pre.generated
                &&& post.loaded_certs == pre.loaded_certs
                &&& action matches Action::ReadFile { path } && path@ == pre.cert_path@
            } else {
                &&& same_config(pre, post)
                &&& post.phase == Phase::Preparing
                &&& post.generated == pre.generated
                &&& post.loaded_certs == pre.loaded_certs
                &&& action matches Action::EnsureDir { dir } && dir@ == pre.dir@
            }
        },
        (Phase::Preparing, Event::DirReady) => {
            ||| {
                &&& same_config(pre, post)
                &&& post.phase == Phase::WritingCert
                &&& post.loaded_certs == pre.loaded_certs
                &&& post.generated matches Some(m) && well_formed_material(m) && (action
                    matches Action::WriteCertificate { path, bytes } && path@ == pre.cert_path@
                    && bytes@ == m.cert_pem@)
            }
            ||| {
                ||| fail_step(pre, post, action, ProvisionError::RandomSourceFailure)
                ||| fail_step(pre, post, action, ProvisionError::CertificateBuildFailure)
            }
        },
        (Phase::Preparing, Event::IoFailed) => fail_step(
            pre,
            post,
            action,
            ProvisionError::IoFailure,
        ),
        (Phase::WritingCert, Event::Written) => {
            &&& same_config(pre, post)
            &&& post.phase == Phase::WritingKey
            &&& post.generated == pre.generated
            &&& post.loaded_certs == pre.loaded_certs
            &&& action matches Action::WriteSecretKey { path, bytes } && path@ == pre.key_path@
                && bytes@ == pre.generated->0.key_pem@
        },
        (Phase::WritingCert, Event::IoFailed) => fail_step(
            pre,
            post,
            action,
            ProvisionError::IoFailure,
        ),
        (Phase::WritingKey, Event::Written) => {
            &&& same_config(pre, post)
            &&& post.phase == Phase::ReadingCert
            &&& post.generated == pre.generated
            &&& post.loaded_certs == pre.loaded_certs
            &&& action matches Action::ReadFile { path } && path@ == pre.cert_path@
        },
        (Phase::WritingKey, Event::WriteConflict) => fail_step(
            pre,
            post,
            action,
            ProvisionError::KeyMaterialConflict,
        ),
        (Phase::WritingKey, Event::IoFailed) => fail_step(
            pre,
            post,
            action,
            ProvisionError::IoFailure,
        ),
        (Phase::ReadingCert, Event::FileRead { bytes }) => {
            if cert_ders(bytes@).len() == 0 {
                fail_step(pre, post, action, ProvisionError::CertificateLoadFailure)
            } else {
                &&& same_config(pre, post)
                &&& post.phase == Phase::ReadingKey
                &&& post.generated == pre.generated
                &&& post.loaded_certs matches Some(cs) && cs@.map_values(|c: Certificate| c@)
                    == cert_ders(bytes@)
                &&& action matches Action::ReadFile { path } && path@ == pre.key_path@
            }
        },
        (Phase::ReadingCert, Event::IoFailed) => fail_step(
            pre,
            post,
            action,
            ProvisionError::IoFailure,
        ),
        (Phase::ReadingKey, Event::FileRead { bytes }) => {
            if key_ders(bytes@).len() == 0 {
                fail_step(pre, post, action, ProvisionError::KeyLoadFailure)
            } else if key_ders(bytes@).len() >= 2 {
                fail_step(pre, post, action, ProvisionError::KeyCountViolation)
            } else {
                &&& same_config(pre, post)
                &&& post.phase == Phase::Done
                &&& action matches Action::Finish { pair } && pair.certs == pre.loaded_certs->0
                    && pair.key@ == key_ders(bytes@)[0]
            }
        },
        (Phase::ReadingKey, Event::IoFailed) => fail_step(
            pre,
            post,
            action,
            ProvisionError::IoFailure,
        ),
        _ => false,
    }
}

impl Provisioner {
    /// A machine for the identity named `name`, stored under
    /// `<data_root>/fly`, provisioned for `role`.
    pub fn new(data_root: &str, name: &str, role: Role) -> (p: Provisioner)
        ensures
            wf(p),
            p.phase == Phase::Begin,
            p.role == role,
            p.dir@ == fly_dir_spec(data_root@),
            p.cert_path@ == cert_path_spec(data_root@, name@),
            p.key_path@ == key_path_spec(data_root@, name@),
    {
        let mut dir = data_root.to_owned();
        dir.append("/fly");
        let mut cert_path = dir.clone();
        cert_path.append("/");
        cert_path.append(name);
        cert_path.append("-cert.pem");
        let mut key_path = dir.clone();
        key_path.append("/");
        key_path.append(name);
        key_path.append("-key.pem");
        Provisioner {
            role,
            dir,
            cert_path,
            key_path,
            phase: Phase::Begin,
            generated: None,
            loaded_certs: None,
        }
    }

    /// True when the machine, in its current phase, can consume this event:
    /// the caller's runtime mirror of the protocol.
    pub fn accepts(&self, event: &Event) -> (r: bool)
        ensures
            r == expects(*self, *event),
    {
        match self.phase {
            Phase::Begin => matches!(event, Event::Start),
            Phase::Checking => matches!(event, Event::FilesChecked { .. }),
            Phase::Preparing => matches!(event, Event::DirReady | Event::IoFailed),
            Phase::WritingCert => matches!(event, Event::Written | Event::IoFailed),
            Phase::WritingKey => matches!(
                event,
                Event::Written | Event::WriteConflict | Event::IoFailed,
            ),
            Phase::ReadingCert => matches!(event, Event::FileRead { .. } | Event::IoFailed),
            Phase::ReadingKey => matches!(event, Event::FileRead { .. } | Event::IoFailed),
            Phase::Done => false,
            Phase::Failed => false,
        }
    }

    /// The machine's current phase.
    pub fn phase(&self) -> (p: Phase)
        ensures
            p == self.phase,
    {
        self.phase
    }

    /// Consumes one observation and decides the next action, as the
    /// transition relation [`next`] states.
    pub fn step(&mut self, event: Event) -> (action: Action)
        requires
            wf(*old(self)),
            expects(*old(self), event),
        ensures
            wf(*final(self)),
            next(*old(self), event, *final(self), action),
    {
        match self.phase {
            Phase::Begin => {
                self.phase = Phase::Checking;
                Action::CheckFiles {
                    cert_path: self.cert_path.clone(),
                    key_path: self.key_path.clone(),
                }
            },
            Phase::Checking => {
                let (cert_exists, key_exists) = match event {
                    Event::FilesChecked { cert_exists, key_exists } => (cert_exists, key_exists),
                    _ => {
                        proof {
                            assert(false);
                        }
                        (false, false)
                    },
                };
                if cert_exists && key_exists {
                    self.phase = Phase::ReadingCert;
                    Action::ReadFile { path: self.cert_path.clone() }
                } else {
                    self.phase = Phase::Preparing;
                    Action::EnsureDir { dir: self.dir.clone() }
                }
            },
            Phase::Preparing => {
                match event {
                    Event::DirReady => {
                        let issued = match &self.role {
                            Role::Authority => issue_authority("fly ca"),
                            Role::Node { authority } => issue_leaf("fly node", authority),
                        };
                        match issued {
                            Ok(m) => {
                                let bytes = m.cert_pem.clone();
                                let path = self.cert_path.clone();
                                self.generated = Some(m);
                                self.phase = Phase::WritingCert;
                                Action::WriteCertificate { path, bytes }
                            },
                            Err(error) => {
                                self.phase = Phase::Failed;
                                Action::Fail { error }
                            },
                        }
                    },
                    _ => {
                        self.phase = Phase::Failed;
                        Action::Fail { error: ProvisionError::IoFailure }
                    },
                }
            },
            Phase::WritingCert => {
                match event {
                    Event::Written => {
                        let bytes = match &self.generated {
                            Some(m) => m.key_pem.clone(),
                            None => {
                                proof {
                                    assert(false);
                                }
                                Vec::new()
                            },
                        };
                        self.phase = Phase::WritingKey;
                        Action::WriteSecretKey { path: self.key_path.clone(), bytes }
                    },
                    _ => {
                        self.phase = Phase::Failed;
                        Action::Fail { error: ProvisionError::IoFailure }
                    },
                }
            },
            Phase::WritingKey => {
                match event {
                    Event::Written => {
                        self.phase = Phase::ReadingCert;
                        Action::ReadFile { path: self.cert_path.clone() }
                    },
                    Event::WriteConflict => {
                        self.phase = Phase::Failed;
                        Action::Fail { error: ProvisionError::KeyMaterialConflict }
                    },
                    _ => {
                        self.phase = Phase::Failed;
                        Action::Fail { error: ProvisionError::IoFailure }
                    },
                }
            },
            Phase::ReadingCert => {
                match event {
                    Event::FileRead { bytes } => {
                        match load_certs(&bytes) {
                            Ok(cs) => {
                                self.loaded_certs = Some(cs);
                                self.phase = Phase::ReadingKey;
                                Action::ReadFile { path: self.key_path.clone() }
                            },
                            Err(error) => {
                                self.phase = Phase::Failed;
                                Action::Fail { error }
                            },
                        }
                    },
                    _ => {
                        self.phase = Phase::Failed;
                        Action::Fail { error: ProvisionError::IoFailure }
                    },
                }
            },
            Phase::ReadingKey => {
                match event {
                    Event::FileRead { bytes } => {
                        match load_private_key(&bytes) {
                            Ok(key) => {
                                let certs = match self.loaded_certs.take() {
                                    Some(cs) => cs,
                                    None => {
                                        proof {
                                            assert(false);
                                        }
                                        Vec::new()
                                    },
                                };
                                self.phase = Phase::Done;
                                Action::Finish { pair: CertPair { certs, key } }
                            },
                            Err(error) => {
                                self.phase = Phase::Failed;
                                Action::Fail { error }
                            },
                        }
                    },
                    _ => {
                        self.phase = Phase::Failed;
                        Action::Fail { error: ProvisionError::IoFailure }
                    },
                }
            },
            Phase::Done => {
                proof {
                    assert(false);
                }
                Action::Fail { error: ProvisionError::IoFailure }
            },
            Phase::Failed => {
                proof {
                    assert(false);
                }
                Action::Fail { error: ProvisionError::IoFailure }
            },
        }
    }
}

/// The phases in which provisioning only reads: existing material is loaded
/// back, never touched.
pub open spec fn read_only_phase(p: Phase) -> bool {
    ||| p == Phase::ReadingCert
    ||| p == Phase::ReadingKey
    ||| p == Phase::Done
    ||| p == Phase::Failed
}

/// True when the machine has observed complete on-disk material, or is
/// already in a phase that only reads.
pub open spec fn reusing(pre: Provisioner, event: Event) -> bool {
    ||| read_only_phase(pre.phase)
    ||| (pre.phase == Phase::Checking && (event matches Event::FilesChecked {
        cert_exists,
        key_exists,
    } && cert_exists && key_exists))
}

/// Law — idempotent reuse. Once provisioning observes that both files exist
/// (or is past that point), every later step stays in a read-only phase and
/// never emits a directory-creation or file-write action: complete existing
/// material is never regenerated or rewritten, only read back.
pub proof fn lemma_reuse_never_writes(
    pre: Provisioner,
    event: Event,
    post: Provisioner,
    action: Action,
)
    requires
        next(pre, event, post, action),
        reusing(pre, event),
    ensures
        read_only_phase(post.phase),
        !(action matches Action::WriteCertificate { .. }),
        !(action matches Action::WriteSecretKey { .. }),
        !(action matches Action::EnsureDir { .. }),
{
}

/// Law — no partial reuse. When either file is missing — a lone certificate
/// or a lone key — provisioning takes the generation path: partial material
/// is treated as corrupt and is never loaded on its own.
pub proof fn lemma_partial_material_regenerates(
    pre: Provisioner,
    event: Event,
    post: Provisioner,
    action: Action,
)
    requires
        next(pre, event, post, action),
        pre.phase == Phase::Checking,
        event matches Event::FilesChecked { cert_exists, key_exists } && !(cert_exists
            && key_exists),
    ensures
        post.phase == Phase::Preparing,
        action matches Action::EnsureDir { dir } && dir@ == pre.dir@,
{
}

/// Law — exclusivity. When exclusive creation of the key file reports that
/// the file already exists, provisioning fails with `KeyMaterialConflict` and
/// halts: the machine never asks for the existing bytes to be replaced.
pub proof fn lemma_conflict_preserves_existing_key(
    pre: Provisioner,
    post: Provisioner,
    action: Action,
)
    requires
        next(pre, Event::WriteConflict, post, action),
    ensures
        action matches Action::Fail { error } && error == ProvisionError::KeyMaterialConflict,
        post.phase == Phase::Failed,
{
}

} // verus!
