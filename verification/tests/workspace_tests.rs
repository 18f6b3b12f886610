use cosmic::cluster::Cluster;
use cosmic::config::{Config, RpcEndpoints};
use cosmic::error::WorkspaceError;
use cosmic::workspace::Workspace;

fn sample_config() -> Config {
    Config {
        rpc_endpoints: RpcEndpoints {
            debug: String::from("https://debug.example"),
            testnet: String::from("https://testnet.example"),
            mainnet: String::from("https://mainnet.example"),
            devnet: String::from("https://api.devnet.example"),
            localnet: String::from("http://127.0.0.1:8899"),
        },
        upgrade_authority_keypair: Some(String::from("upgrade-authority.json")),
    }
}

fn sample_workspace() -> Workspace {
    Workspace::load("myroot", Some(sample_config())).unwrap()
}

#[test]
fn cluster_names_are_canonical() {
    assert_eq!(Cluster::Debug.name(), "debug");
    assert_eq!(Cluster::Testnet.name(), "testnet");
    assert_eq!(Cluster::Mainnet.name(), "mainnet");
    assert_eq!(Cluster::Devnet.name(), "devnet");
    assert_eq!(Cluster::Localnet.name(), "localnet");
    let custom = Cluster::Custom(String::from("http://host:1"), String::from("ws://host:2"));
    assert_eq!(custom.name(), "http://host:1");
}

#[test]
fn cluster_from_name_round_trips() {
    for name in ["debug", "testnet", "mainnet", "devnet", "localnet"] {
        let c = Cluster::from_name(name).unwrap();
        assert_eq!(c.name(), name);
        assert!(c.is_supported());
    }
    assert!(Cluster::from_name("moonnet").is_none());
    assert!(Cluster::from_name("Devnet").is_none());
}

#[test]
fn cluster_url_returns_exact_configured_string() {
    let ws = sample_workspace();
    assert_eq!(ws.get_cluster_url(&Cluster::Debug).unwrap(), "https://debug.example");
    assert_eq!(ws.get_cluster_url(&Cluster::Testnet).unwrap(), "https://testnet.example");
    assert_eq!(ws.get_cluster_url(&Cluster::Mainnet).unwrap(), "https://mainnet.example");
    assert_eq!(ws.get_cluster_url(&Cluster::Devnet).unwrap(), "https://api.devnet.example");
    assert_eq!(ws.get_cluster_url(&Cluster::Localnet).unwrap(), "http://127.0.0.1:8899");
}

#[test]
fn cluster_url_refuses_reserved_variant() {
    let ws = sample_workspace();
    let custom = Cluster::Custom(String::from("http://host:1"), String::from("ws://host:2"));
    match ws.get_cluster_url(&custom) {
        Err(WorkspaceError::UnsupportedCluster) => {}
        other => panic!("expected UnsupportedCluster, got {:?}", other),
    }
    assert_eq!(
        WorkspaceError::UnsupportedCluster.message(),
        "cluster type not supported"
    );
}

#[test]
fn deployer_dir_is_pure_derivation() {
    let ws = sample_workspace();
    assert_eq!(ws.deployer_dir(), "myroot/deployers/");
    let slashed = Workspace::load("myroot/", Some(sample_config())).unwrap();
    assert_eq!(slashed.deployer_dir(), "myroot/deployers/");
    let empty = Workspace::load("", Some(sample_config())).unwrap();
    assert_eq!(empty.deployer_dir(), "deployers/");
}

#[test]
fn deployer_kp_path_is_pure_derivation() {
    let ws = sample_workspace();
    assert_eq!(
        ws.get_deployer_kp_path(&Cluster::Devnet),
        "myroot/deployers/devnet.json"
    );
    assert_eq!(
        ws.get_deployer_kp_path(&Cluster::Mainnet),
        "myroot/deployers/mainnet.json"
    );
    let custom = Cluster::Custom(String::from("http://host:1"), String::from("ws://host:2"));
    assert_eq!(
        ws.get_deployer_kp_path(&custom),
        "myroot/deployers/http://host:1.json"
    );
}

#[test]
fn kp_path_if_exists_succeeds_with_same_path() {
    let ws = sample_workspace();
    let p = ws
        .get_deployer_kp_path_if_exists(&Cluster::Devnet, true, true)
        .unwrap();
    assert_eq!(p, ws.get_deployer_kp_path(&Cluster::Devnet));
}

#[test]
fn kp_path_if_exists_reports_missing_directory() {
    let ws = sample_workspace();
    match ws.get_deployer_kp_path_if_exists(&Cluster::Devnet, false, false) {
        Err(WorkspaceError::DeployerDirMissing(d)) => {
            assert_eq!(d, "myroot/deployers/");
            assert_eq!(
                WorkspaceError::DeployerDirMissing(d).message(),
                "myroot/deployers/ does not exist; you may need to run `cosmic init`"
            );
        }
        other => panic!("expected DeployerDirMissing, got {:?}", other),
    }
}

#[test]
fn kp_path_if_exists_reports_missing_file() {
    let ws = sample_workspace();
    match ws.get_deployer_kp_path_if_exists(&Cluster::Devnet, true, false) {
        Err(WorkspaceError::DeployerKeyMissing(p)) => {
            assert_eq!(p, "myroot/deployers/devnet.json");
            assert_eq!(
                WorkspaceError::DeployerKeyMissing(p).message(),
                "Deployer not found at myroot/deployers/devnet.json; you may need to run `cosmic init`"
            );
        }
        other => panic!("expected DeployerKeyMissing, got {:?}", other),
    }
}

#[test]
fn load_fails_fatally_without_configuration() {
    for path in ["myroot", "", "/somewhere/else"] {
        match Workspace::load(path, None) {
            Err(WorkspaceError::ConfigMissing) => {}
            other => panic!("expected ConfigMissing, got {:?}", other),
        }
    }
    assert_eq!(
        WorkspaceError::ConfigMissing.message(),
        "Cosmic.toml not found; please run `cosmic init`"
    );
}

#[test]
fn load_keeps_path_and_configuration() {
    let ws = sample_workspace();
    assert_eq!(ws.path, "myroot");
    assert_eq!(ws.cfg.rpc_endpoints.devnet, "https://api.devnet.example");
    assert_eq!(
        ws.cfg.upgrade_authority_keypair.as_deref(),
        Some("upgrade-authority.json")
    );
}

#[test]
fn reload_returns_fresh_snapshot_at_same_path() {
    let ws = sample_workspace();
    let mut edited = sample_config();
    edited.rpc_endpoints.devnet = String::from("https://other.devnet.example");
    let reloaded = ws.reload(Some(edited)).unwrap();
    assert_eq!(reloaded.path, "myroot");
    assert_eq!(
        reloaded.cfg.rpc_endpoints.devnet,
        "https://other.devnet.example"
    );
    // the original snapshot is untouched
    assert_eq!(ws.cfg.rpc_endpoints.devnet, "https://api.devnet.example");
    match ws.reload(None) {
        Err(WorkspaceError::ConfigMissing) => {}
        other => panic!("expected ConfigMissing, got {:?}", other),
    }
}

#[test]
fn upgrader_wallet_comes_from_configuration() {
    let ws = sample_workspace();
    assert_eq!(ws.get_upgrader_wallet().unwrap(), "upgrade-authority.json");

    let mut cfg = sample_config();
    cfg.upgrade_authority_keypair = None;
    let bare = Workspace::load("myroot", Some(cfg)).unwrap();
    match bare.get_upgrader_wallet() {
        Err(WorkspaceError::UpgraderNotConfigured) => {}
        other => panic!("expected UpgraderNotConfigured, got {:?}", other),
    }
    assert_eq!(
        WorkspaceError::UpgraderNotConfigured.message(),
        "upgrade_authority_keypair not found in Cosmic.toml"
    );
}

#[test]
fn parse_wallet_alias_deployer_matches_kp_path() {
    let ws = sample_workspace();
    let cluster = Cluster::Devnet;
    let ctx = ws.new_cluster_context(&cluster);
    assert_eq!(
        ctx.parse_wallet_alias("deployer").unwrap(),
        ctx.get_deployer_kp_path()
    );
    assert_eq!(
        ctx.parse_wallet_alias("deployer").unwrap(),
        "myroot/deployers/devnet.json"
    );
}

#[test]
fn parse_wallet_alias_upgrader_uses_configured_authority() {
    let ws = sample_workspace();
    let cluster = Cluster::Devnet;
    let ctx = ws.new_cluster_context(&cluster);
    assert_eq!(
        ctx.parse_wallet_alias("upgrader").unwrap(),
        "upgrade-authority.json"
    );
}

#[test]
fn parse_wallet_alias_upgrader_fails_naming_the_alias() {
    let mut cfg = sample_config();
    cfg.upgrade_authority_keypair = None;
    let ws = Workspace::load("myroot", Some(cfg)).unwrap();
    let cluster = Cluster::Devnet;
    let ctx = ws.new_cluster_context(&cluster);
    match ctx.parse_wallet_alias("upgrader") {
        Err(err @ WorkspaceError::UnresolvedAlias(..)) => {
            assert_eq!(
                err.message(),
                "could not parse alias upgrader: upgrade_authority_keypair not found in Cosmic.toml"
            );
        }
        other => panic!("expected UnresolvedAlias, got {:?}", other),
    }
}

#[test]
fn parse_wallet_alias_passes_other_strings_through() {
    let ws = sample_workspace();
    let cluster = Cluster::Devnet;
    let ctx = ws.new_cluster_context(&cluster);
    for alias in ["some/wallet.json", "Deployer", "UPGRADER", "", "deployer "] {
        assert_eq!(ctx.parse_wallet_alias(alias).unwrap(), alias);
    }
}

#[test]
fn workspace_add_cluster_args_appends_network_prefix() {
    let ws = sample_workspace();
    let mut cmd = cosmic::solana_cmd::new_solana_cmd();
    ws.add_cluster_args(&mut cmd, &Cluster::Devnet, true, true)
        .unwrap();
    assert_eq!(cmd.program, "solana");
    assert_eq!(
        cmd.args,
        vec![
            "--url",
            "https://api.devnet.example",
            "--keypair",
            "myroot/deployers/devnet.json",
        ]
    );
}

#[test]
fn workspace_add_cluster_args_leaves_command_alone_on_failure() {
    let ws = sample_workspace();
    let mut cmd = cosmic::solana_cmd::new_solana_cmd();
    cmd.arg("balance");
    match ws.add_cluster_args(&mut cmd, &Cluster::Devnet, false, false) {
        Err(WorkspaceError::DeployerDirMissing(d)) => assert_eq!(d, "myroot/deployers/"),
        other => panic!("expected DeployerDirMissing, got {:?}", other),
    }
    assert_eq!(cmd.args, vec!["balance"]);
}

#[test]
fn missing_directory_takes_precedence_over_reserved_cluster() {
    let ws = sample_workspace();
    let custom = Cluster::Custom(String::from("http://host:1"), String::from("ws://host:2"));
    match ws.new_deployer_command(&custom, false, false) {
        Err(WorkspaceError::DeployerDirMissing(d)) => assert_eq!(d, "myroot/deployers/"),
        other => panic!("expected DeployerDirMissing, got {:?}", other),
    }
    match ws.new_deployer_command(&custom, true, true) {
        Err(WorkspaceError::UnsupportedCluster) => {}
        other => panic!("expected UnsupportedCluster, got {:?}", other),
    }
}

#[test]
fn new_deployer_command_builds_full_prefix() {
    let ws = sample_workspace();
    let cmd = ws.new_deployer_command(&Cluster::Localnet, true, true).unwrap();
    assert_eq!(cmd.program, "solana");
    assert_eq!(
        cmd.args,
        vec![
            "--url",
            "http://127.0.0.1:8899",
            "--keypair",
            "myroot/deployers/localnet.json",
        ]
    );
}

#[test]
fn context_add_cluster_args_takes_wallet_as_given() {
    let ws = sample_workspace();
    let cluster = Cluster::Testnet;
    let ctx = ws.new_cluster_context(&cluster);
    let mut cmd = cosmic::solana_cmd::new_solana_cmd();
    ctx.add_cluster_args(&mut cmd, "anywhere/key.json").unwrap();
    assert_eq!(
        cmd.args,
        vec![
            "--url",
            "https://testnet.example",
            "--keypair",
            "anywhere/key.json",
        ]
    );
}

#[test]
fn args_command_builds_devnet_balance_invocation() {
    let ws = sample_workspace();
    let cluster = Cluster::Devnet;
    let ctx = ws.new_cluster_context(&cluster);
    let cmd = ctx
        .args_command(&vec![String::from("balance")], "deployer")
        .unwrap();
    assert_eq!(cmd.program, "solana");
    assert_eq!(
        cmd.args,
        vec![
            "--url",
            "https://api.devnet.example",
            "--keypair",
            "myroot/deployers/devnet.json",
            "balance",
        ]
    );
}

#[test]
fn wallet_command_resolves_alias_before_url() {
    let mut cfg = sample_config();
    cfg.upgrade_authority_keypair = None;
    let ws = Workspace::load("myroot", Some(cfg)).unwrap();
    let custom = Cluster::Custom(String::from("http://host:1"), String::from("ws://host:2"));
    let ctx = ws.new_cluster_context(&custom);
    // both the alias and the cluster are bad: the alias failure wins
    match ctx.wallet_command("upgrader") {
        Err(err @ WorkspaceError::UnresolvedAlias(..)) => {
            assert!(err.message().starts_with("could not parse alias upgrader:"));
        }
        other => panic!("expected UnresolvedAlias, got {:?}", other),
    }
    // a resolvable wallet against the reserved cluster is refused
    match ctx.wallet_command("any/key.json") {
        Err(WorkspaceError::UnsupportedCluster) => {}
        other => panic!("expected UnsupportedCluster, got {:?}", other),
    }
}

#[test]
fn wallet_command_builds_prefix_only() {
    let ws = sample_workspace();
    let cluster = Cluster::Mainnet;
    let ctx = ws.new_cluster_context(&cluster);
    let cmd = ctx.wallet_command("upgrader").unwrap();
    assert_eq!(cmd.program, "solana");
    assert_eq!(
        cmd.args,
        vec![
            "--url",
            "https://mainnet.example",
            "--keypair",
            "upgrade-authority.json",
        ]
    );
}
