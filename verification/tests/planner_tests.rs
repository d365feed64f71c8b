use sn_node_manager::addresses::Ipv4Address;
use sn_node_manager::error::ProvisionError;
use sn_node_manager::evm_network::EvmNetworkSelection;
use sn_node_manager::planner::{
    plan_auditor_service, plan_daemon_service, plan_faucet_service, plan_fleet,
    plan_node_services, AddAuditorServiceOptions, AddDaemonServiceOptions,
    AddFaucetServiceOptions, AddNodeServiceOptions, FleetRequest,
};
use sn_node_manager::port_range::PortRange;

fn node_options() -> AddNodeServiceOptions {
    AddNodeServiceOptions {
        auto_restart: true,
        auto_set_nat_flags: false,
        bootstrap_peers: vec![],
        count: None,
        delete_safenode_src: false,
        enable_metrics_server: false,
        env_variables: None,
        evm_network: EvmNetworkSelection::ArbitrumOne,
        genesis: false,
        home_network: false,
        local: false,
        log_format: None,
        max_archived_log_files: None,
        max_log_files: None,
        metrics_port: None,
        name: "safenode".to_string(),
        node_ip: None,
        node_port: None,
        owner: None,
        rewards_address: "0x03B770D9cD32077cC0bF330c13C114a87643B124".to_string(),
        rpc_address: None,
        rpc_port: Some(PortRange::Single(8080)),
        safenode_src_path: "/tmp/safenode".to_string(),
        safenode_dir_path: "/var/safenode-manager".to_string(),
        service_data_dir_path: "/var/safenode-manager/services".to_string(),
        service_log_dir_path: "/var/log/safenode".to_string(),
        upnp: false,
        user: Some("safe".to_string()),
        user_mode: false,
        version: "0.1.0".to_string(),
    }
}

#[test]
fn single_instance_keeps_the_bare_base_name() {
    let descriptors = plan_node_services(&node_options()).unwrap();
    assert_eq!(descriptors.len(), 1);
    assert_eq!(descriptors[0].label, "safenode".to_string());
    assert_eq!(descriptors[0].program, "/var/safenode-manager/safenode".to_string());
}

#[test]
fn multi_instance_fleet_gets_numbered_distinct_names_and_disjoint_ports() {
    let mut options = node_options();
    options.count = Some(3);
    options.rpc_port = Some(PortRange::Range(13000, 13002));
    options.node_port = Some(PortRange::Range(12000, 12002));
    options.metrics_port = Some(PortRange::Range(14000, 14002));
    let descriptors = plan_node_services(&options).unwrap();
    assert_eq!(descriptors.len(), 3);
    let labels: Vec<&str> = descriptors.iter().map(|d| d.label.as_str()).collect();
    assert_eq!(labels, vec!["safenode1", "safenode2", "safenode3"]);
    for (i, d) in descriptors.iter().enumerate() {
        let args: Vec<&str> = d.args.iter().map(|s| s.as_str()).collect();
        assert_eq!(args[1], format!("127.0.0.1:{}", 13000 + i));
        let port_pos = args.iter().position(|a| *a == "--port").unwrap();
        assert_eq!(args[port_pos + 1], format!("{}", 12000 + i));
        let metrics_pos = args.iter().position(|a| *a == "--metrics-server-port").unwrap();
        assert_eq!(args[metrics_pos + 1], format!("{}", 14000 + i));
        let root_pos = args.iter().position(|a| *a == "--root-dir").unwrap();
        assert_eq!(
            args[root_pos + 1],
            format!("/var/safenode-manager/services/safenode{}", i + 1)
        );
    }
}

#[test]
fn single_port_range_fails_validation_for_two_instances() {
    let mut options = node_options();
    options.count = Some(2);
    options.rpc_port = Some(PortRange::Range(13000, 13001));
    options.node_port = Some(PortRange::Single(12000));
    let result = plan_node_services(&options);
    assert_eq!(
        result.unwrap_err(),
        ProvisionError::CardinalityMismatch { required: 1, declared: 2 }
    );
}

#[test]
fn mismatched_rpc_range_aborts_the_whole_fleet() {
    let mut options = node_options();
    options.count = Some(2);
    options.rpc_port = Some(PortRange::Range(13000, 13002));
    let result = plan_node_services(&options);
    assert_eq!(
        result.unwrap_err(),
        ProvisionError::CardinalityMismatch { required: 3, declared: 2 }
    );
}

#[test]
fn rpc_address_reaches_every_instance() {
    let mut options = node_options();
    options.rpc_address = Some(Ipv4Address { octet0: 10, octet1: 0, octet2: 0, octet3: 7 });
    let descriptors = plan_node_services(&options).unwrap();
    let args: Vec<&str> = descriptors[0].args.iter().map(|s| s.as_str()).collect();
    assert_eq!(args[1], "10.0.0.7:8080");
}

fn faucet_options() -> AddFaucetServiceOptions {
    AddFaucetServiceOptions {
        bootstrap_peers: vec![
            "/ip4/127.0.0.1/tcp/8080".to_string(),
            "/ip4/192.168.1.1/tcp/8081".to_string(),
        ],
        env_variables: None,
        faucet_install_bin_path: "/usr/local/bin/faucet".to_string(),
        faucet_src_bin_path: "/tmp/faucet".to_string(),
        local: false,
        name: "faucet".to_string(),
        service_data_dir_path: "/var/faucet".to_string(),
        service_log_dir_path: "/var/log/faucet".to_string(),
        user: "safe".to_string(),
        version: "0.1.0".to_string(),
    }
}

#[test]
fn faucet_with_two_peers_emits_log_dest_peers_then_server() {
    let descriptor = plan_faucet_service(faucet_options()).unwrap();
    let args: Vec<&str> = descriptor.args.iter().map(|s| s.as_str()).collect();
    assert_eq!(
        args,
        vec![
            "--log-output-dest",
            "/var/log/faucet",
            "--peer",
            "/ip4/127.0.0.1/tcp/8080,/ip4/192.168.1.1/tcp/8081",
            "server",
        ]
    );
    assert!(descriptor.autostart);
    assert_eq!(descriptor.username, Some("safe".to_string()));
}

#[test]
fn faucet_without_peers_omits_the_peer_flag() {
    let mut options = faucet_options();
    options.bootstrap_peers = vec![];
    let descriptor = plan_faucet_service(options).unwrap();
    let args: Vec<&str> = descriptor.args.iter().map(|s| s.as_str()).collect();
    assert_eq!(args, vec!["--log-output-dest", "/var/log/faucet", "server"]);
}

#[test]
fn auditor_emits_beta_encryption_key_when_present() {
    let options = AddAuditorServiceOptions {
        auditor_install_bin_path: "/usr/local/bin/auditor".to_string(),
        auditor_src_bin_path: "/tmp/auditor".to_string(),
        beta_encryption_key: Some("SECRET-REDACTED".to_string()),
        bootstrap_peers: vec!["/ip4/127.0.0.1/tcp/8080".to_string()],
        env_variables: None,
        name: "auditor".to_string(),
        service_log_dir_path: "/var/log/auditor".to_string(),
        user: "safe".to_string(),
        version: "0.1.0".to_string(),
    };
    let descriptor = plan_auditor_service(options).unwrap();
    let args: Vec<&str> = descriptor.args.iter().map(|s| s.as_str()).collect();
    assert_eq!(
        args,
        vec![
            "--log-output-dest",
            "/var/log/auditor",
            "--peer",
            "/ip4/127.0.0.1/tcp/8080",
            "--beta-encryption-key",
            "SECRET-REDACTED",
        ]
    );
}

#[test]
fn daemon_emits_its_fixed_port_and_address() {
    let options = AddDaemonServiceOptions {
        address: Ipv4Address { octet0: 127, octet1: 0, octet2: 0, octet3: 1 },
        env_variables: None,
        daemon_install_bin_path: "/usr/local/bin/daemon".to_string(),
        daemon_src_bin_path: "/tmp/daemon".to_string(),
        name: "daemon".to_string(),
        port: 12500,
        user: "safe".to_string(),
        version: "0.1.0".to_string(),
    };
    let descriptor = plan_daemon_service(options).unwrap();
    let args: Vec<&str> = descriptor.args.iter().map(|s| s.as_str()).collect();
    assert_eq!(args, vec!["--port", "12500", "--address", "127.0.0.1"]);
    assert!(descriptor.autostart);
}

#[test]
fn fleet_dispatch_returns_the_kind_descriptors() {
    let descriptors = plan_fleet(FleetRequest::Node(node_options())).unwrap();
    assert_eq!(descriptors.len(), 1);
    let descriptors = plan_fleet(FleetRequest::Faucet(faucet_options())).unwrap();
    assert_eq!(descriptors.len(), 1);
    assert_eq!(descriptors[0].args.last().unwrap(), "server");
}

#[test]
fn incomplete_custom_network_is_rejected_at_construction() {
    let result = EvmNetworkSelection::custom(
        Some("http://localhost:8545/".to_string()),
        None,
        Some("0x8464135c8F25Da09e49BC8782676a84730C318bC".to_string()),
    );
    assert_eq!(result.unwrap_err(), ProvisionError::IncompleteCustomNetwork);

    let complete = EvmNetworkSelection::custom(
        Some("http://localhost:8545/".to_string()),
        Some("0x5FbDB2315678afecb367f032d93F642f64180aa3".to_string()),
        Some("0x8464135c8F25Da09e49BC8782676a84730C318bC".to_string()),
    );
    assert!(complete.is_ok());
}
