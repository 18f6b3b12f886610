use vstd::prelude::*;
use crate::strutil::str_eq;

verus! {

/// A target network for deployment commands.
///
/// Every variant except [`Cluster::Custom`] maps to exactly one configured
/// RPC endpoint. `Custom` is the reserved variant: it carries an RPC URL and
/// a websocket URL of its own and is not supported by the normal
/// configuration lookup.
#[derive(Clone, Debug)]
pub enum Cluster {
    Debug,
    Testnet,
    Mainnet,
    Devnet,
    Localnet,
    /// Reserved: a custom (RPC URL, websocket URL) pair, outside the set of
    /// configured networks.
    Custom(String, String),
}

/// The canonical name of a cluster, as used in key-file names.
pub open spec fn cluster_name(c: Cluster) -> Seq<char> {
    match c {
        Cluster::Debug => "debug"@,
        Cluster::Testnet => "testnet"@,
        Cluster::Mainnet => "mainnet"@,
        Cluster::Devnet => "devnet"@,
        Cluster::Localnet => "localnet"@,
        Cluster::Custom(url, _) => url@,
    }
}

/// Whether configuration lookups support this cluster: all variants but the
/// reserved `Custom` one.
pub open spec fn cluster_supported(c: Cluster) -> bool {
    !(c is Custom)
}

impl Cluster {
    /// The canonical string form of this cluster; names its key file.
    pub fn name(&self) -> (r: &str)
        ensures
            r@ == cluster_name(*self),
    {
        match self {
            Cluster::Debug => "debug",
            Cluster::Testnet => "testnet",
            Cluster::Mainnet => "mainnet",
            Cluster::Devnet => "devnet",
            Cluster::Localnet => "localnet",
            Cluster::Custom(url, _) => url.as_str(),
        }
    }

    /// Whether configuration lookups support this cluster.
    pub fn is_supported(&self) -> (r: bool)
        ensures
            r == cluster_supported(*self),
    {
        match self {
            Cluster::Custom(_, _) => false,
            _ => true,
        }
    }

    /// The cluster whose canonical name is `s`, if any; selection by name
    /// never yields the reserved variant.
    pub fn from_name(s: &str) -> (r: Option<Cluster>)
        ensures
            r == cluster_from_name(s@),
    {
        if str_eq(s, "debug") {
            Some(Cluster::Debug)
        } else if str_eq(s, "testnet") {
            Some(Cluster::Testnet)
        } else if str_eq(s, "mainnet") {
            Some(Cluster::Mainnet)
        } else if str_eq(s, "devnet") {
            Some(Cluster::Devnet)
        } else if str_eq(s, "localnet") {
            Some(Cluster::Localnet)
        } else {
            None
        }
    }
}

/// The cluster a canonical name selects; names outside the five supported
/// ones select nothing.
pub open spec fn cluster_from_name(s: Seq<char>) -> Option<Cluster> {
    if s == "debug"@ {
        Option::Some(Cluster::Debug)
    } else if s == "testnet"@ {
        Option::Some(Cluster::Testnet)
    } else if s == "mainnet"@ {
        Option::Some(Cluster::Mainnet)
    } else if s == "devnet"@ {
        Option::Some(Cluster::Devnet)
    } else if s == "localnet"@ {
        Option::Some(Cluster::Localnet)
    } else {
        Option::None
    }
}

/// Law: the canonical name of every supported cluster selects that cluster
/// back, so names and supported clusters correspond one to one.
pub proof fn lemma_cluster_name_round_trip(c: Cluster)
    requires
        cluster_supported(c),
    ensures
        cluster_from_name(cluster_name(c)) == Option::Some(c),
{
    reveal_strlit("debug");
    reveal_strlit("testnet");
    reveal_strlit("mainnet");
    reveal_strlit("devnet");
    reveal_strlit("localnet");
    assert("debug"@.len() == 5);
    assert("testnet"@.len() == 7);
    assert("mainnet"@.len() == 7);
    assert("devnet"@.len() == 6);
    assert("localnet"@.len() == 8);
    assert("testnet"@[0] == 't' && "mainnet"@[0] == 'm');
}

} // verus!
