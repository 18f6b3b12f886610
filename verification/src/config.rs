use vstd::prelude::*;
use crate::cluster::Cluster;
use crate::cluster::cluster_supported;

verus! {

/// The configured RPC endpoint of each supported cluster.
#[derive(Clone, Debug)]
pub struct RpcEndpoints {
    pub debug: String,
    pub testnet: String,
    pub mainnet: String,
    pub devnet: String,
    pub localnet: String,
}

/// Mathematical image of [`RpcEndpoints`]: one character sequence per
/// supported cluster.
pub struct RpcEndpointsView {
    pub debug: Seq<char>,
    pub testnet: Seq<char>,
    pub mainnet: Seq<char>,
    pub devnet: Seq<char>,
    pub localnet: Seq<char>,
}

impl View for RpcEndpoints {
    type V = RpcEndpointsView;

    open spec fn view(&self) -> RpcEndpointsView {
        RpcEndpointsView {
            debug: self.debug@,
            testnet: self.testnet@,
            mainnet: self.mainnet@,
            devnet: self.devnet@,
            localnet: self.localnet@,
        }
    }
}

/// An immutable snapshot of the project settings: the endpoint of each
/// supported cluster, and the optional upgrade-authority credential
/// reference. Discovery of the on-disk configuration file happens outside
/// this crate; a `Config` is handed in already parsed.
#[derive(Clone, Debug)]
pub struct Config {
    pub rpc_endpoints: RpcEndpoints,
    pub upgrade_authority_keypair: Option<String>,
}

/// Mathematical image of [`Config`].
pub struct ConfigView {
    pub rpc_endpoints: RpcEndpointsView,
    pub upgrade_authority_keypair: Option<Seq<char>>,
}

impl View for Config {
    type V = ConfigView;

    open spec fn view(&self) -> ConfigView {
        ConfigView {
            rpc_endpoints: self.rpc_endpoints@,
            upgrade_authority_keypair: match self.upgrade_authority_keypair {
                Option::Some(s) => Option::Some(s@),
                Option::None => Option::None,
            },
        }
    }
}

/// The endpoint configured for a supported cluster; for the reserved
/// `Custom` variant, the URL it itself carries (lookups never return it).
pub open spec fn cluster_url_spec(cfg: ConfigView, c: Cluster) -> Seq<char> {
    match c {
        Cluster::Debug => cfg.rpc_endpoints.debug,
        Cluster::Testnet => cfg.rpc_endpoints.testnet,
        Cluster::Mainnet => cfg.rpc_endpoints.mainnet,
        Cluster::Devnet => cfg.rpc_endpoints.devnet,
        Cluster::Localnet => cfg.rpc_endpoints.localnet,
        Cluster::Custom(url, _) => url@,
    }
}

impl Config {
    /// Looks up the configured endpoint of `cluster`: exactly the string
    /// stored under that variant's key. The reserved variant has no
    /// configured endpoint and is refused.
    pub fn cluster_url<'a>(&'a self, cluster: &Cluster) -> (r: Result<
        &'a str,
        crate::error::WorkspaceError,
    >)
        ensures
            r is Ok <==> cluster_supported(*cluster),
            r matches Ok(u) ==> u@ == cluster_url_spec(self@, *cluster),
            r matches Err(e) ==> e is UnsupportedCluster,
    {
        match cluster {
            Cluster::Debug => Ok(self.rpc_endpoints.debug.as_str()),
            Cluster::Testnet => Ok(self.rpc_endpoints.testnet.as_str()),
            Cluster::Mainnet => Ok(self.rpc_endpoints.mainnet.as_str()),
            Cluster::Devnet => Ok(self.rpc_endpoints.devnet.as_str()),
            Cluster::Localnet => Ok(self.rpc_endpoints.localnet.as_str()),
            Cluster::Custom(_, _) => Err(crate::error::WorkspaceError::UnsupportedCluster),
        }
    }
}

} // verus!
