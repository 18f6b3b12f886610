use vstd::prelude::*;
use vstd::string::StringExecFns;

verus! {

/// The failures of the workspace core. Each variant carries what its
/// user-facing message needs; [`WorkspaceError::message`] renders it.
#[derive(Debug)]
pub enum WorkspaceError {
    /// No project configuration file was discovered; the user must run
    /// initialization first.
    ConfigMissing,
    /// The deployer key directory (the carried path) does not exist.
    DeployerDirMissing(String),
    /// The key directory exists but the cluster's key file (the carried
    /// path) does not.
    DeployerKeyMissing(String),
    /// The configuration has no `upgrade_authority_keypair` entry.
    UpgraderNotConfigured,
    /// The reserved cluster variant was asked for a configured endpoint: a
    /// contract violation, distinct from the recoverable errors above.
    UnsupportedCluster,
    /// A wallet alias could not be resolved; carries the alias and the
    /// failure that resolution ran into.
    UnresolvedAlias(String, Box<WorkspaceError>),
}

/// The user-facing message of each error.
pub open spec fn message_spec(e: WorkspaceError) -> Seq<char>
    decreases e,
{
    match e {
        WorkspaceError::ConfigMissing => "Cosmic.toml not found; please run `cosmic init`"@,
        WorkspaceError::DeployerDirMissing(d) => d@
            + " does not exist; you may need to run `cosmic init`"@,
        WorkspaceError::DeployerKeyMissing(p) => "Deployer not found at "@ + p@
            + "; you may need to run `cosmic init`"@,
        WorkspaceError::UpgraderNotConfigured =>
            "upgrade_authority_keypair not found in Cosmic.toml"@,
        WorkspaceError::UnsupportedCluster => "cluster type not supported"@,
        WorkspaceError::UnresolvedAlias(a, cause) => "could not parse alias "@ + a@ + ": "@
            + message_spec(*cause),
    }
}

impl WorkspaceError {
    /// Renders the user-facing message of this error.
    pub fn message(&self) -> (r: String)
        ensures
            r@ == message_spec(*self),
        decreases *self,
    {
        match self {
            WorkspaceError::ConfigMissing => {
                String::from_str("Cosmic.toml not found; please run `cosmic init`")
            },
            WorkspaceError::DeployerDirMissing(d) => {
                d.clone().concat(" does not exist; you may need to run `cosmic init`")
            },
            WorkspaceError::DeployerKeyMissing(p) => {
                String::from_str("Deployer not found at ").concat(p.as_str()).concat(
                    "; you may need to run `cosmic init`",
                )
            },
            WorkspaceError::UpgraderNotConfigured => {
                String::from_str("upgrade_authority_keypair not found in Cosmic.toml")
            },
            WorkspaceError::UnsupportedCluster => String::from_str("cluster type not supported"),
            WorkspaceError::UnresolvedAlias(a, cause) => {
                let rendered = cause.message();
                String::from_str("could not parse alias ").concat(a.as_str()).concat(": ").concat(
                    rendered.as_str(),
                )
            },
        }
    }
}

} // verus!
