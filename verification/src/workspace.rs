use vstd::prelude::*;
use vstd::string::StrSliceExecFns;
use vstd::string::StringExecFns;
use crate::cluster::Cluster;
use crate::cluster::cluster_name;
use crate::cluster::cluster_supported;
use crate::config::Config;
use crate::config::ConfigView;
use crate::config::cluster_url_spec;
use crate::error::WorkspaceError;
use crate::solana_cmd::CommandLine;
use crate::solana_cmd::new_solana_cmd;
use crate::solana_cmd::tool_program;
use crate::strutil::str_eq;

verus! {

/// A loaded project: its root path and the configuration snapshot that
/// discovery produced. Immutable once loaded; `reload` builds a new value.
#[derive(Clone, Debug)]
pub struct Workspace {
    pub path: String,
    pub cfg: Config,
}

/// Mathematical image of [`Workspace`].
pub struct WorkspaceView {
    pub path: Seq<char>,
    pub cfg: ConfigView,
}

impl View for Workspace {
    type V = WorkspaceView;

    open spec fn view(&self) -> WorkspaceView {
        WorkspaceView { path: self.path@, cfg: self.cfg@ }
    }
}

/// The deployer key directory of a project root: `<root>/deployers/`, with
/// a separator inserted only where the root does not already end in one.
pub open spec fn deployer_dir_spec(root: Seq<char>) -> Seq<char> {
    if root.len() == 0 {
        "deployers/"@
    } else if root.last() == '/' {
        root + "deployers/"@
    } else {
        root + "/deployers/"@
    }
}

/// The expected key file of a cluster: `<root>/deployers/<cluster>.json`.
pub open spec fn kp_path_spec(root: Seq<char>, c: Cluster) -> Seq<char> {
    deployer_dir_spec(root) + cluster_name(c) + ".json"@
}

/// The fixed network prefix of a deployer-signed command for `c`:
/// `--url <endpoint> --keypair <key file>`.
pub open spec fn cluster_args_spec(ws: WorkspaceView, c: Cluster) -> Seq<Seq<char>> {
    seq!["--url"@, cluster_url_spec(ws.cfg, c), "--keypair"@, kp_path_spec(ws.path, c)]
}

impl Workspace {
    /// Binds a project root to the configuration that discovery found.
    ///
    /// `discovered` is the result of searching for the project's
    /// configuration file: `None` when no file exists, in which case loading
    /// fails with the remediation message, never with a silent default.
    pub fn load(path: &str, discovered: Option<Config>) -> (r: Result<Workspace, WorkspaceError>)
        ensures
            r is Ok <==> discovered is Some,
            r matches Ok(w) ==> (discovered matches Some(c) && w@.path == path@ && w@.cfg == c@),
            r matches Err(e) ==> e is ConfigMissing,
    {
        match discovered {
            Some(cfg) => Ok(Workspace { path: String::from_str(path), cfg }),
            None => Err(WorkspaceError::ConfigMissing),
        }
    }

    /// Reloads against the original root: same contract as [`Workspace::load`]
    /// with this workspace's path, on a freshly discovered configuration.
    /// Returns a new snapshot; `self` is untouched.
    pub fn reload(&self, discovered: Option<Config>) -> (r: Result<Workspace, WorkspaceError>)
        ensures
            r is Ok <==> discovered is Some,
            r matches Ok(w) ==> (discovered matches Some(c) && w@.path == self@.path && w@.cfg
                == c@),
            r matches Err(e) ==> e is ConfigMissing,
    {
        Workspace::load(self.path.as_str(), discovered)
    }

    /// The deployer key directory, `<root>/deployers/`. Pure derivation: no
    /// filesystem access, cannot fail.
    pub fn deployer_dir(&self) -> (r: String)
        ensures
            r@ == deployer_dir_spec(self@.path),
    {
        let n = self.path.as_str().unicode_len();
        if n == 0 {
            String::from_str("deployers/")
        } else if self.path.as_str().get_char(n - 1) == '/' {
            self.path.clone().concat("deployers/")
        } else {
            self.path.clone().concat("/deployers/")
        }
    }

    /// The expected key-file path of `cluster`,
    /// `<root>/deployers/<cluster>.json`. Pure derivation: does not check
    /// that the file exists.
    pub fn get_deployer_kp_path(&self, cluster: &Cluster) -> (r: String)
        ensures
            r@ == kp_path_spec(self@.path, *cluster),
    {
        let dir = self.deployer_dir();
        dir.concat(cluster.name()).concat(".json")
    }

    /// The same derivation as [`Workspace::get_deployer_kp_path`], but
    /// validated against the caller's filesystem observations: `dir_exists`
    /// reports whether the deployer directory exists and `file_exists`
    /// whether the key file itself does. A missing directory and a missing
    /// file fail with distinct, actionable errors, each naming the exact
    /// missing path.
    pub fn get_deployer_kp_path_if_exists(
        &self,
        cluster: &Cluster,
        dir_exists: bool,
        file_exists: bool,
    ) -> (r: Result<String, WorkspaceError>)
        ensures
            r is Ok <==> dir_exists && file_exists,
            r matches Ok(p) ==> p@ == kp_path_spec(self@.path, *cluster),
            !dir_exists ==> (r matches Err(e) && e matches WorkspaceError::DeployerDirMissing(d)
                && d@ == deployer_dir_spec(self@.path)),
            dir_exists && !file_exists ==> (r matches Err(e) && e matches
                WorkspaceError::DeployerKeyMissing(p) && p@ == kp_path_spec(self@.path, *cluster)),
    {
        let deployer_dir = self.deployer_dir();
        if !dir_exists {
            return Err(WorkspaceError::DeployerDirMissing(deployer_dir));
        }
        let deployer_kp_path = self.get_deployer_kp_path(cluster);
        if !file_exists {
            return Err(WorkspaceError::DeployerKeyMissing(deployer_kp_path));
        }
        Ok(deployer_kp_path)
    }

    /// The configured URL of `cluster`: exactly the string stored under that
    /// variant's key in the loaded configuration. Asking for the reserved
    /// variant is a contract violation and is refused with the error kind
    /// set aside for it.
    pub fn get_cluster_url<'a>(&'a self, cluster: &Cluster) -> (r: Result<&'a str, WorkspaceError>)
        ensures
            r is Ok <==> cluster_supported(*cluster),
            r matches Ok(u) ==> u@ == cluster_url_spec(self@.cfg, *cluster),
            r matches Err(e) ==> e is UnsupportedCluster,
    {
        self.cfg.cluster_url(cluster)
    }

    /// Appends the network arguments for `cluster` to a command being
    /// built: `--url <endpoint> --keypair <key file>`, the key file taken
    /// from [`Workspace::get_deployer_kp_path_if_exists`] with the caller's
    /// filesystem observations. On any failure the command is left
    /// untouched and that lookup's error is propagated unchanged.
    pub fn add_cluster_args(
        &self,
        command: &mut CommandLine,
        cluster: &Cluster,
        dir_exists: bool,
        file_exists: bool,
    ) -> (r: Result<(), WorkspaceError>)
        ensures
            r is Ok <==> dir_exists && file_exists && cluster_supported(*cluster),
            r is Ok ==> (final(command)@.program == old(command)@.program && final(command)@.args
                == old(command)@.args + cluster_args_spec(self@, *cluster)),
            r is Err ==> final(command)@ == old(command)@,
            !dir_exists ==> (r matches Err(e) && e matches WorkspaceError::DeployerDirMissing(d)
                && d@ == deployer_dir_spec(self@.path)),
            dir_exists && !file_exists ==> (r matches Err(e) && e matches
                WorkspaceError::DeployerKeyMissing(p) && p@ == kp_path_spec(self@.path, *cluster)),
            dir_exists && file_exists && !cluster_supported(*cluster) ==> (r matches Err(e)
                && e is UnsupportedCluster),
    {
        let kp_path = match self.get_deployer_kp_path_if_exists(cluster, dir_exists, file_exists) {
            Ok(p) => p,
            Err(e) => {
                return Err(e);
            },
        };
        let url = match self.get_cluster_url(cluster) {
            Ok(u) => u,
            Err(e) => {
                return Err(e);
            },
        };
        command.arg("--url");
        command.arg(url);
        command.arg("--keypair");
        command.arg(kp_path.as_str());
        proof {
            assert(command@.args =~= old(command)@.args + cluster_args_spec(self@, *cluster));
        }
        Ok(())
    }

    /// The build phase of a deployer-signed invocation: a fresh tool
    /// command with the network arguments of `cluster` already applied.
    /// The caller appends its operation-specific arguments and runs it.
    pub fn new_deployer_command(
        &self,
        cluster: &Cluster,
        dir_exists: bool,
        file_exists: bool,
    ) -> (r: Result<CommandLine, WorkspaceError>)
        ensures
            r is Ok <==> dir_exists && file_exists && cluster_supported(*cluster),
            r matches Ok(c) ==> (c@.program == tool_program() && c@.args == cluster_args_spec(
                self@,
                *cluster,
            )),
            !dir_exists ==> (r matches Err(e) && e matches WorkspaceError::DeployerDirMissing(d)
                && d@ == deployer_dir_spec(self@.path)),
            dir_exists && !file_exists ==> (r matches Err(e) && e matches
                WorkspaceError::DeployerKeyMissing(p) && p@ == kp_path_spec(self@.path, *cluster)),
            dir_exists && file_exists && !cluster_supported(*cluster) ==> (r matches Err(e)
                && e is UnsupportedCluster),
    {
        let mut cmd = new_solana_cmd();
        match self.add_cluster_args(&mut cmd, cluster, dir_exists, file_exists) {
            Ok(()) => {
                proof {
                    assert(cmd@.args =~= cluster_args_spec(self@, *cluster));
                }
                Ok(cmd)
            },
            Err(e) => Err(e),
        }
    }

    /// Binds this workspace and one cluster into a command context. Pure,
    /// cannot fail.
    pub fn new_cluster_context<'a, 'b>(&'a self, cluster: &'b Cluster) -> (r: CommandContext<
        'a,
        'b,
    >)
        ensures
            r.workspace == self,
            r.cluster == cluster,
    {
        CommandContext { workspace: self, cluster }
    }

    /// The configured upgrade-authority credential reference; fails naming
    /// the missing configuration key when none is configured.
    pub fn get_upgrader_wallet(&self) -> (r: Result<String, WorkspaceError>)
        ensures
            r is Ok <==> self@.cfg.upgrade_authority_keypair is Some,
            r matches Ok(w) ==> (self@.cfg.upgrade_authority_keypair matches Some(u) && w@ == u),
            r matches Err(e) ==> e is UpgraderNotConfigured,
    {
        match &self.cfg.upgrade_authority_keypair {
            Some(s) => Ok(s.clone()),
            None => Err(WorkspaceError::UpgraderNotConfigured),
        }
    }
}

/// What a wallet alias stands for in a given workspace and cluster:
/// `"deployer"` names the cluster's key file, `"upgrader"` the configured
/// upgrade authority (`None` when there is none to resolve to), and every
/// other string passes through unchanged.
pub open spec fn wallet_alias_spec(ws: WorkspaceView, c: Cluster, alias: Seq<char>) -> Option<
    Seq<char>,
> {
    if alias == "deployer"@ {
        Option::Some(kp_path_spec(ws.path, c))
    } else if alias == "upgrader"@ {
        ws.cfg.upgrade_authority_keypair
    } else {
        Option::Some(alias)
    }
}

/// A transient, non-owning view binding one workspace to one selected
/// cluster. It stores no wallet: every operation takes the wallet
/// explicitly, so different keys can sign against the same cluster. It
/// cannot outlive the workspace it borrows.
pub struct CommandContext<'a, 'b> {
    pub workspace: &'a Workspace,
    pub cluster: &'b Cluster,
}

impl<'a, 'b> CommandContext<'a, 'b> {
    /// Appends this context's network arguments to a command being built:
    /// `--url <endpoint> --keypair <wallet>`, the wallet taken as given.
    /// Fails only if the cluster's URL cannot be resolved, leaving the
    /// command untouched.
    pub fn add_cluster_args(&self, command: &mut CommandLine, wallet: &str) -> (r: Result<
        (),
        WorkspaceError,
    >)
        ensures
            r is Ok <==> cluster_supported(*self.cluster),
            r is Ok ==> (final(command)@.program == old(command)@.program && final(command)@.args
                == old(command)@.args + seq![
                    "--url"@,
                    cluster_url_spec(self.workspace@.cfg, *self.cluster),
                    "--keypair"@,
                    wallet@,
                ]),
            r matches Err(e) ==> (e is UnsupportedCluster && final(command)@ == old(command)@),
    {
        let url = match self.workspace.get_cluster_url(self.cluster) {
            Ok(u) => u,
            Err(e) => {
                return Err(e);
            },
        };
        command.arg("--url");
        command.arg(url);
        command.arg("--keypair");
        command.arg(wallet);
        proof {
            assert(command@.args =~= old(command)@.args + seq![
                "--url"@,
                cluster_url_spec(self.workspace@.cfg, *self.cluster),
                "--keypair"@,
                wallet@,
            ]);
        }
        Ok(())
    }

    /// The expected key-file path of this context's cluster; delegates to
    /// [`Workspace::get_deployer_kp_path`].
    pub fn get_deployer_kp_path(&self) -> (r: String)
        ensures
            r@ == kp_path_spec(self.workspace@.path, *self.cluster),
    {
        self.workspace.get_deployer_kp_path(self.cluster)
    }

    /// Resolves a symbolic wallet alias to a concrete credential string, as
    /// [`wallet_alias_spec`] says: `"deployer"` to this context's key-file
    /// path, `"upgrader"` to the configured upgrade authority, anything else
    /// to itself. A resolution failure is re-wrapped to name the alias that
    /// failed.
    pub fn parse_wallet_alias(&self, alias: &str) -> (r: Result<String, WorkspaceError>)
        ensures
            r is Ok <==> wallet_alias_spec(self.workspace@, *self.cluster, alias@) is Some,
            r matches Ok(w) ==> (wallet_alias_spec(self.workspace@, *self.cluster, alias@)
                matches Some(s) && w@ == s),
            r matches Err(e) ==> (e matches WorkspaceError::UnresolvedAlias(a, cause) && a@
                == alias@ && *cause is UpgraderNotConfigured),
    {
        if str_eq(alias, "deployer") {
            Ok(self.get_deployer_kp_path())
        } else if str_eq(alias, "upgrader") {
            match self.workspace.get_upgrader_wallet() {
                Ok(w) => Ok(w),
                Err(e) => Err(
                    WorkspaceError::UnresolvedAlias(String::from_str(alias), Box::new(e)),
                ),
            }
        } else {
            Ok(String::from_str(alias))
        }
    }

    /// The build phase of an execution against this context: a fresh tool
    /// command carrying `--url <endpoint> --keypair <resolved wallet>`,
    /// where the wallet alias is resolved first. The caller appends its
    /// operation-specific arguments and runs the command. An alias that
    /// cannot be resolved short-circuits before the URL is looked up.
    pub fn wallet_command(&self, wallet: &str) -> (r: Result<CommandLine, WorkspaceError>)
        ensures
            r is Ok <==> (wallet_alias_spec(self.workspace@, *self.cluster, wallet@) is Some
                && cluster_supported(*self.cluster)),
            r matches Ok(c) ==> (wallet_alias_spec(self.workspace@, *self.cluster, wallet@)
                matches Some(w) && c@.program == tool_program() && c@.args == seq![
                    "--url"@,
                    cluster_url_spec(self.workspace@.cfg, *self.cluster),
                    "--keypair"@,
                    w,
                ]),
            wallet_alias_spec(self.workspace@, *self.cluster, wallet@) is None ==> (r matches Err(
                e,
            ) && e matches WorkspaceError::UnresolvedAlias(a, cause) && a@ == wallet@
                && *cause is UpgraderNotConfigured),
            wallet_alias_spec(self.workspace@, *self.cluster, wallet@) is Some
                && !cluster_supported(*self.cluster) ==> (r matches Err(e)
                && e is UnsupportedCluster),
    {
        let resolved = match self.parse_wallet_alias(wallet) {
            Ok(w) => w,
            Err(e) => {
                return Err(e);
            },
        };
        let mut cmd = new_solana_cmd();
        match self.add_cluster_args(&mut cmd, resolved.as_str()) {
            Ok(()) => {
                proof {
                    assert(cmd@.args =~= seq![
                        "--url"@,
                        cluster_url_spec(self.workspace@.cfg, *self.cluster),
                        "--keypair"@,
                        resolved@,
                    ]);
                }
                Ok(cmd)
            },
            Err(e) => Err(e),
        }
    }

    /// The build phase of a flat-argument execution: the command of
    /// [`CommandContext::wallet_command`] with `args` appended in order and
    /// no further building logic.
    pub fn args_command(&self, args: &Vec<String>, wallet: &str) -> (r: Result<
        CommandLine,
        WorkspaceError,
    >)
        ensures
            r is Ok <==> (wallet_alias_spec(self.workspace@, *self.cluster, wallet@) is Some
                && cluster_supported(*self.cluster)),
            r matches Ok(c) ==> (wallet_alias_spec(self.workspace@, *self.cluster, wallet@)
                matches Some(w) && c@.program == tool_program() && c@.args == seq![
                    "--url"@,
                    cluster_url_spec(self.workspace@.cfg, *self.cluster),
                    "--keypair"@,
                    w,
                ] + args.deep_view()),
            wallet_alias_spec(self.workspace@, *self.cluster, wallet@) is None ==> (r matches Err(
                e,
            ) && e matches WorkspaceError::UnresolvedAlias(a, cause) && a@ == wallet@
                && *cause is UpgraderNotConfigured),
            wallet_alias_spec(self.workspace@, *self.cluster, wallet@) is Some
                && !cluster_supported(*self.cluster) ==> (r matches Err(e)
                && e is UnsupportedCluster),
    {
        let mut cmd = match self.wallet_command(wallet) {
            Ok(c) => c,
            Err(e) => {
                return Err(e);
            },
        };
        let ghost prefix = cmd@.args;
        let mut i: usize = 0;
        while i < args.len()
            invariant
                i <= args.len(),
                cmd@.program == tool_program(),
                cmd@.args == prefix + args.deep_view().take(i as int),
            decreases args.len() - i,
        {
            cmd.arg(args[i].as_str());
            proof {
                assert(cmd@.args =~= prefix + args.deep_view().take(i + 1 as int));
            }
            i += 1;
        }
        proof {
            assert(args.deep_view().take(args.len() as int) =~= args.deep_view());
        }
        Ok(cmd)
    }
}

/// Law: resolving the `"deployer"` alias names exactly the key file that
/// the pure path derivation gives for the bound cluster.
pub proof fn lemma_deployer_alias_is_kp_path(ws: WorkspaceView, c: Cluster)
    ensures
        wallet_alias_spec(ws, c, "deployer"@) == Option::Some(kp_path_spec(ws.path, c)),
{
}

/// Law: resolving the `"upgrader"` alias yields exactly the configured
/// upgrade authority — the configured string when one is present, and no
/// resolution at all when the configuration has none.
pub proof fn lemma_upgrader_alias_is_configured_authority(ws: WorkspaceView, c: Cluster)
    ensures
        wallet_alias_spec(ws, c, "upgrader"@) == ws.cfg.upgrade_authority_keypair,
{
    reveal_strlit("deployer");
    reveal_strlit("upgrader");
    assert("upgrader"@[0] == 'u');
    assert("deployer"@[0] == 'd');
    assert("upgrader"@ != "deployer"@);
}

/// Law: every alias other than the two reserved names passes through
/// resolution unchanged.
pub proof fn lemma_other_alias_passes_through(ws: WorkspaceView, c: Cluster, alias: Seq<char>)
    requires
        alias != "deployer"@,
        alias != "upgrader"@,
    ensures
        wallet_alias_spec(ws, c, alias) == Option::Some(alias),
{
}

} // verus!
