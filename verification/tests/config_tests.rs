use mwc_swap::config::{
    default_swap_electrumx_addr, ChainTypes, ConfigError, MQSConfig, TorConfig, WalletConfig,
};

#[test]
fn default_wallet_config_listens_locally() {
    let config = WalletConfig::default();
    assert_eq!(config.chain_type, Some(ChainTypes::Mainnet));
    assert_eq!(config.api_listen_addr(), "127.0.0.1:3415");
    assert_eq!(WalletConfig::default_owner_api_listen_port(), 3420);
    assert_eq!(config.owner_api_listen_port(), 3420);
    assert_eq!(config.owner_api_listen_addr(), "127.0.0.1:3420");
    assert_eq!(config.get_data_path(), "wallet_data");
    assert_eq!(config.api_secret_path, Some(".owner_api_secret".to_string()));
    assert_eq!(config.node_api_secret_path, Some(".api_secret".to_string()));
    assert_eq!(config.check_node_api_http_addr, "http://127.0.0.1:3413");
    assert_eq!(config.data_file_dir, ".");
    assert_eq!(config.dark_background_color_scheme, Some(true));
    assert_eq!(
        config.eth_swap_addr,
        Some("0xA21b2c034dF046a3DB790dd20b0C5C0040a74c67".to_string())
    );
}

#[test]
fn configured_values_win_over_defaults() {
    let mut config = WalletConfig::default();
    config.api_listen_interface = "0.0.0.0".to_string();
    config.api_listen_port = 0;
    config.owner_api_listen_port = Some(65_535);
    config.wallet_data_dir = Some("my_data".to_string());
    assert_eq!(config.api_listen_addr(), "0.0.0.0:0");
    assert_eq!(config.owner_api_listen_port(), 65_535);
    assert_eq!(config.owner_api_listen_addr(), "127.0.0.1:65535");
    assert_eq!(config.get_data_path(), "my_data");
    config.owner_api_listen_port = None;
    assert_eq!(config.owner_api_listen_addr(), "127.0.0.1:3420");
}

#[test]
fn default_nodes_of_the_secondary_coins() {
    let nodes = WalletConfig::default().swap_electrumx_addr.unwrap();
    assert_eq!(nodes, default_swap_electrumx_addr());
    assert_eq!(nodes.len(), 24);
    assert_eq!(nodes[0], ("bch_main_1".to_string(), "bch.main1.swap.mwc.mw:18333".to_string()));
    assert_eq!(nodes[4], ("btc_main_1".to_string(), "btc.main1.swap.mwc.mw:18337".to_string()));
    assert_eq!(nodes[7], ("btc_test_2".to_string(), "btc.test2.swap.mwc.mw:18339".to_string()));
    assert_eq!(
        nodes[23],
        ("zcash_test_2".to_string(), "zcash.test1.swap.mwc.mw:18353".to_string())
    );
    for pair in nodes.windows(2) {
        assert!(pair[0].0 < pair[1].0);
    }
}

#[test]
fn default_tor_and_mqs_config() {
    let tor = TorConfig::default();
    assert!(tor.use_tor_listener);
    assert_eq!(tor.socks_proxy_addr, "127.0.0.1:59050");
    assert_eq!(tor.send_config_dir, ".");
    assert!(!tor.socks_running);
    let mqs = MQSConfig::default();
    assert_eq!(mqs.mwcmqs_domain, "mqs.mwc.mw");
    assert_eq!(mqs.mwcmqs_port, 443);
}

#[test]
fn config_errors_have_their_texts() {
    assert_eq!(
        ConfigError::ParseError("a.toml".to_string(), "bad key".to_string()).to_string(),
        "Error parsing configuration file at a.toml, bad key"
    );
    assert_eq!(ConfigError::FileIOError("x".to_string()).to_string(), "Config IO error, x");
    assert_eq!(
        ConfigError::FileNotFoundError("a.toml".to_string()).to_string(),
        "Configuration file not found: a.toml"
    );
    assert_eq!(
        ConfigError::SerializationError("x".to_string()).to_string(),
        "Error serializing configuration, x"
    );
    assert_eq!(
        ConfigError::PathNotFoundError("/tmp/x".to_string()).to_string(),
        "Not found expected path /tmp/x"
    );
    assert_eq!(
        ConfigError::from_io("denied").to_string(),
        "Config IO error, Error loading config file, denied"
    );
}

#[test]
fn default_nodes_stand_under_ascending_keys() {
    let nodes = default_swap_electrumx_addr();
    assert_eq!(nodes.len(), 24);
    for pair in nodes.windows(2) {
        assert!(pair[0].0 < pair[1].0, "{} before {}", pair[0].0, pair[1].0);
    }
    let sorted: std::collections::BTreeMap<String, String> = nodes.iter().cloned().collect();
    assert_eq!(sorted.into_iter().collect::<Vec<_>>(), nodes);
    let copy = WalletConfig::default().clone();
    assert_eq!(copy, WalletConfig::default());
}
