use sn_node_manager::addresses::{Ipv4Address, SocketAddress};
use sn_node_manager::builders::InstallNodeServiceCtxBuilder;
use sn_node_manager::evm_network::EvmNetworkSelection;
use sn_node_manager::log_format::LogFormat;

fn create_default_builder() -> InstallNodeServiceCtxBuilder {
    InstallNodeServiceCtxBuilder {
        autostart: true,
        bootstrap_peers: vec![],
        data_dir_path: "/data".to_string(),
        env_variables: None,
        evm_network: EvmNetworkSelection::ArbitrumOne,
        genesis: false,
        home_network: false,
        local: false,
        log_dir_path: "/logs".to_string(),
        log_format: None,
        name: "test-node".to_string(),
        max_archived_log_files: None,
        max_log_files: None,
        metrics_port: None,
        node_ip: None,
        node_port: None,
        owner: None,
        rewards_address: "0x03B770D9cD32077cC0bF330c13C114a87643B124".to_string(),
        rpc_socket_addr: SocketAddress {
            ip: Ipv4Address { octet0: 127, octet1: 0, octet2: 0, octet3: 1 },
            port: 8080,
        },
        safenode_path: "/bin/safenode".to_string(),
        service_user: None,
        upnp: false,
    }
}

fn custom_network() -> EvmNetworkSelection {
    EvmNetworkSelection::Custom {
        rpc_url: "http://localhost:8545/".to_string(),
        payment_token_address: "0x5FbDB2315678afecb367f032d93F642f64180aa3".to_string(),
        data_payments_address: "0x8464135c8F25Da09e49BC8782676a84730C318bC".to_string(),
    }
}

fn create_custom_evm_network_builder() -> InstallNodeServiceCtxBuilder {
    let mut builder = create_default_builder();
    builder.evm_network = custom_network();
    builder
}

fn create_builder_with_all_options_enabled() -> InstallNodeServiceCtxBuilder {
    let mut builder = create_default_builder();
    builder.evm_network = custom_network();
    builder.max_archived_log_files = Some(10);
    builder.max_log_files = Some(10);
    builder
}

fn args_of(descriptor: &sn_node_manager::descriptor::ServiceDescriptor) -> Vec<&str> {
    descriptor.args.iter().map(|s| s.as_str()).collect()
}

#[test]
fn build_should_assign_expected_values_when_mandatory_options_are_provided() {
    let builder = create_default_builder();
    let result = builder.build().unwrap();

    assert_eq!(result.label.to_string(), "test-node");
    assert_eq!(result.program, "/bin/safenode".to_string());
    assert!(result.autostart);
    assert_eq!(result.username, None);
    assert_eq!(result.working_directory, None);

    let expected_args = vec![
        "--rpc",
        "127.0.0.1:8080",
        "--root-dir",
        "/data",
        "--log-output-dest",
        "/logs",
        "--rewards-address",
        "0x03B770D9cD32077cC0bF330c13C114a87643B124",
        "evm-arbitrum-one",
    ];
    assert_eq!(args_of(&result), expected_args);
}

#[test]
fn build_should_assign_expected_values_when_a_custom_evm_network_is_provided() {
    let builder = create_custom_evm_network_builder();
    let result = builder.build().unwrap();

    assert_eq!(result.label.to_string(), "test-node");
    assert_eq!(result.program, "/bin/safenode".to_string());
    assert!(result.autostart);
    assert_eq!(result.username, None);
    assert_eq!(result.working_directory, None);

    let expected_args = vec![
        "--rpc",
        "127.0.0.1:8080",
        "--root-dir",
        "/data",
        "--log-output-dest",
        "/logs",
        "--rewards-address",
        "0x03B770D9cD32077cC0bF330c13C114a87643B124",
        "evm-custom",
        "--rpc-url",
        "http://localhost:8545/",
        "--payment-token-address",
        "0x5FbDB2315678afecb367f032d93F642f64180aa3",
        "--data-payments-address",
        "0x8464135c8F25Da09e49BC8782676a84730C318bC",
    ];
    assert_eq!(args_of(&result), expected_args);
}

#[test]
fn build_should_assign_expected_values_when_all_options_are_enabled() {
    let mut builder = create_builder_with_all_options_enabled();
    builder.genesis = true;
    builder.home_network = true;
    builder.local = true;
    builder.log_format = Some(LogFormat::Json);
    builder.upnp = true;
    builder.node_ip = Some(Ipv4Address { octet0: 192, octet1: 168, octet2: 1, octet3: 1 });
    builder.node_port = Some(12345);
    builder.metrics_port = Some(9090);
    builder.owner = Some("test-owner".to_string());
    builder.bootstrap_peers = vec![
        "/ip4/127.0.0.1/tcp/8080".to_string(),
        "/ip4/192.168.1.1/tcp/8081".to_string(),
    ];
    builder.service_user = Some("safenode-user".to_string());

    let result = builder.build().unwrap();

    let expected_args = vec![
        "--rpc",
        "127.0.0.1:8080",
        "--root-dir",
        "/data",
        "--log-output-dest",
        "/logs",
        "--first",
        "--home-network",
        "--local",
        "--log-format",
        "json",
        "--upnp",
        "--ip",
        "192.168.1.1",
        "--port",
        "12345",
        "--metrics-server-port",
        "9090",
        "--owner",
        "test-owner",
        "--max-archived-log-files",
        "10",
        "--max-log-files",
        "10",
        "--peer",
        "/ip4/127.0.0.1/tcp/8080,/ip4/192.168.1.1/tcp/8081",
        "--rewards-address",
        "0x03B770D9cD32077cC0bF330c13C114a87643B124",
        "evm-custom",
        "--rpc-url",
        "http://localhost:8545/",
        "--payment-token-address",
        "0x5FbDB2315678afecb367f032d93F642f64180aa3",
        "--data-payments-address",
        "0x8464135c8F25Da09e49BC8782676a84730C318bC",
    ];
    assert_eq!(args_of(&result), expected_args);
    assert_eq!(result.username, Some("safenode-user".to_string()));
}

#[test]
fn build_should_assign_expected_values_when_environment_variables_are_provided() {
    let mut builder = create_default_builder();
    builder.env_variables = Some(vec![
        ("VAR1".to_string(), "value1".to_string()),
        ("VAR2".to_string(), "value2".to_string()),
    ]);

    let result = builder.build().unwrap();

    assert_eq!(
        result.environment,
        Some(vec![
            ("VAR1".to_string(), "value1".to_string()),
            ("VAR2".to_string(), "value2".to_string()),
        ])
    );
}

#[test]
fn build_twice_gives_byte_identical_descriptors() {
    let first = create_builder_with_all_options_enabled().build().unwrap();
    let second = create_builder_with_all_options_enabled().build().unwrap();
    assert_eq!(first, second);
}

#[test]
fn empty_peer_list_emits_no_peer_flag() {
    let result = create_default_builder().build().unwrap();
    assert!(!result.args.iter().any(|a| a == "--peer"));
}

#[test]
fn single_peer_emits_one_flag_with_bare_value() {
    let mut builder = create_default_builder();
    builder.bootstrap_peers = vec!["/ip4/10.0.0.1/tcp/9000".to_string()];
    let result = builder.build().unwrap();
    let args = args_of(&result);
    let flags: Vec<usize> = args
        .iter()
        .enumerate()
        .filter(|(_, a)| **a == "--peer")
        .map(|(i, _)| i)
        .collect();
    assert_eq!(flags.len(), 1);
    assert_eq!(args[flags[0] + 1], "/ip4/10.0.0.1/tcp/9000");
}

#[test]
fn named_network_emits_exactly_one_trailing_token() {
    let result = create_default_builder().build().unwrap();
    let args = args_of(&result);
    assert_eq!(*args.last().unwrap(), "evm-arbitrum-one");
    assert!(!args.contains(&"--rpc-url"));
    assert!(!args.contains(&"--payment-token-address"));
    assert!(!args.contains(&"--data-payments-address"));
    assert!(!args.contains(&"evm-custom"));
}

#[test]
fn each_named_network_has_its_own_token() {
    let mut builder = create_default_builder();
    builder.evm_network = EvmNetworkSelection::ArbitrumSepolia;
    let result = builder.build().unwrap();
    assert_eq!(result.args.last().unwrap(), "evm-arbitrum-sepolia");
}

#[test]
fn multi_part_label_is_kept_whole() {
    let mut builder = create_default_builder();
    builder.name = "org.example.storage-node".to_string();
    let result = builder.build().unwrap();
    assert_eq!(result.label, "org.example.storage-node".to_string());
}
