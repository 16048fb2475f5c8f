use floresta_ffi::{
    AssumeUtreexoValue, AssumeValidArg, Config, Network, NodeAssumeUtreexoValue, NodeAssumeValid,
    DEFAULT_DATA_DIR,
};

const GENESIS: &str = "000000000019d6689c085ae165831e934ff763ae46a2a6c172b3f1b60a8ce26f";

fn genesis_bytes_reversed() -> [u8; 32] {
    [
        0x6f, 0xe2, 0x8c, 0x0a, 0xb6, 0xf1, 0xb3, 0x72, 0xc1, 0xa6, 0xa2, 0x46, 0xae, 0x63, 0xf7,
        0x4f, 0x93, 0x1e, 0x83, 0x65, 0xe1, 0x5a, 0x08, 0x9c, 0x68, 0xd6, 0x19, 0x00, 0x00, 0x00,
        0x00, 0x00,
    ]
}

fn genesis_bytes_in_order() -> [u8; 32] {
    let mut b = genesis_bytes_reversed();
    b.reverse();
    b
}

fn base_config() -> Config {
    Config {
        datadir: String::from("/tmp/node"),
        network: Network::Signet,
        disable_dns_seeds: true,
        assume_valid: AssumeValidArg::Hardcoded,
        wallet_xpub: Some(vec![String::from("xpub1"), String::from("xpub2")]),
        wallet_descriptor: None,
        config_file: Some(String::from("/tmp/config.toml")),
        proxy: Some(String::from("127.0.0.1:9050")),
        cfilters: true,
        filters_start_height: Some(-1),
        zmq_address: Some(String::from("tcp://127.0.0.1:29000")),
        connect: vec![],
        json_rpc_address: Some(String::from("127.0.0.1:38332")),
        log_to_stdout: false,
        log_to_file: true,
        assume_utreexo: true,
        debug: false,
        user_agent: String::from("/mandacaru:0.1/"),
        assumeutreexo_value: None,
        electrum_address: Some(String::from("0.0.0.0:50001")),
        enable_electrum_tls: true,
        electrum_address_tls: None,
        tls_key_path: Some(String::from("/tmp/key.pem")),
        tls_cert_path: None,
        generate_cert: true,
        allow_v1_fallback: false,
        backfill: true,
    }
}

#[test]
fn every_plain_field_carries_over() {
    let c = base_config();
    let n = c.clone().into_node_config();
    assert_eq!(n.network, Network::Signet);
    assert_eq!(n.datadir, c.datadir);
    assert_eq!(n.disable_dns_seeds, true);
    assert_eq!(n.wallet_xpub, c.wallet_xpub);
    assert_eq!(n.wallet_descriptor, None);
    assert_eq!(n.config_file, c.config_file);
    assert_eq!(n.proxy, c.proxy);
    assert_eq!(n.cfilters, true);
    assert_eq!(n.filters_start_height, Some(-1));
    assert_eq!(n.json_rpc_address, c.json_rpc_address);
    assert_eq!(n.zmq_address, c.zmq_address);
    assert_eq!(n.log_to_stdout, false);
    assert_eq!(n.log_to_file, true);
    assert_eq!(n.assume_utreexo, true);
    assert_eq!(n.debug, false);
    assert_eq!(n.user_agent, c.user_agent);
    assert_eq!(n.electrum_address, c.electrum_address);
    assert_eq!(n.enable_electrum_tls, true);
    assert_eq!(n.electrum_address_tls, None);
    assert_eq!(n.tls_key_path, c.tls_key_path);
    assert_eq!(n.tls_cert_path, None);
    assert_eq!(n.generate_cert, true);
    assert_eq!(n.allow_v1_fallback, false);
    assert_eq!(n.backfill, true);
    assert_eq!(n.assume_valid, NodeAssumeValid::Hardcoded);
    assert_eq!(n.assumeutreexo_value, None);
}

#[test]
fn no_listed_peer_means_no_peer() {
    let n = base_config().into_node_config();
    assert_eq!(n.connect, None);
}

#[test]
fn only_the_first_listed_peer_is_kept() {
    let mut c = base_config();
    c.connect = vec![String::from("10.0.0.1:8333"), String::from("10.0.0.2:8333")];
    let n = c.into_node_config();
    assert_eq!(n.connect, Some(String::from("10.0.0.1:8333")));
}

#[test]
fn assume_valid_disabled_stays_disabled() {
    let mut c = base_config();
    c.assume_valid = AssumeValidArg::Disabled;
    assert_eq!(c.into_node_config().assume_valid, NodeAssumeValid::Disabled);
}

#[test]
fn assume_valid_user_hash_is_decoded_backwards() {
    let mut c = base_config();
    c.assume_valid = AssumeValidArg::UserInput { block_hash: String::from(GENESIS) };
    assert_eq!(
        c.into_node_config().assume_valid,
        NodeAssumeValid::UserInput(genesis_bytes_reversed())
    );
}

#[test]
fn assume_valid_user_hash_accepts_upper_case() {
    let mut c = base_config();
    c.assume_valid = AssumeValidArg::UserInput { block_hash: GENESIS.to_uppercase() };
    assert_eq!(
        c.into_node_config().assume_valid,
        NodeAssumeValid::UserInput(genesis_bytes_reversed())
    );
}

#[test]
fn assume_valid_malformed_hash_becomes_zero() {
    for bad in [
        String::from("not a hash"),
        String::from(&GENESIS[1..]),
        format!("{}0", GENESIS),
        format!("g{}", &GENESIS[1..]),
        format!("é{}", &GENESIS[2..]),
        String::new(),
    ] {
        let mut c = base_config();
        c.assume_valid = AssumeValidArg::UserInput { block_hash: bad };
        assert_eq!(c.into_node_config().assume_valid, NodeAssumeValid::UserInput([0u8; 32]));
    }
}

#[test]
fn assume_utreexo_value_with_good_roots_is_decoded() {
    let mut c = base_config();
    let mut one = [0u8; 32];
    one[0] = 0x01;
    one[31] = 0xab;
    let one_hex = format!("01{}AB", "0".repeat(60));
    c.assumeutreexo_value = Some(AssumeUtreexoValue {
        block_hash: String::from(GENESIS),
        height: 840_000,
        roots: vec![String::from(GENESIS), one_hex],
        leaves: 123_456_789,
    });
    let n = c.into_node_config();
    assert_eq!(
        n.assumeutreexo_value,
        Some(NodeAssumeUtreexoValue {
            block_hash: genesis_bytes_reversed(),
            height: 840_000,
            roots: vec![genesis_bytes_in_order(), one],
            leaves: 123_456_789,
        })
    );
}

#[test]
fn assume_utreexo_value_without_roots_is_kept() {
    let mut c = base_config();
    c.assumeutreexo_value = Some(AssumeUtreexoValue {
        block_hash: String::from("bad"),
        height: 1,
        roots: vec![],
        leaves: 0,
    });
    let n = c.into_node_config();
    assert_eq!(
        n.assumeutreexo_value,
        Some(NodeAssumeUtreexoValue { block_hash: [0u8; 32], height: 1, roots: vec![], leaves: 0 })
    );
}

#[test]
fn assume_utreexo_value_with_a_bad_root_is_dropped() {
    let mut c = base_config();
    c.assumeutreexo_value = Some(AssumeUtreexoValue {
        block_hash: String::from(GENESIS),
        height: 10,
        roots: vec![String::from(GENESIS), String::from("zz"), String::from(GENESIS)],
        leaves: 3,
    });
    assert_eq!(c.into_node_config().assumeutreexo_value, None);
}

#[test]
fn assume_utreexo_value_with_a_short_last_root_is_dropped() {
    let mut c = base_config();
    c.assumeutreexo_value = Some(AssumeUtreexoValue {
        block_hash: String::from(GENESIS),
        height: 10,
        roots: vec![String::from(GENESIS), String::from(&GENESIS[2..])],
        leaves: 3,
    });
    assert_eq!(c.into_node_config().assumeutreexo_value, None);
}

#[test]
fn default_data_dir_is_the_android_package_dir() {
    assert_eq!(DEFAULT_DATA_DIR, "/data/data/com.github.jvsena42.mandacaru/files");
}
