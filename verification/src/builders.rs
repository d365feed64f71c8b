//! Kind builders: pure mappings from one fully-resolved, single-instance
//! configuration to one service descriptor.
//!
//! Each kind owns its argument grammar, and the emission order is part of the
//! contract: the consuming process parses flags left to right. The argument
//! list of each kind is therefore specified as one ordered concatenation of
//! segments, and every builder is proved to produce exactly that list.
//!
//! A builder returns a `Result` because the service identity passes through
//! the service manager's label parser; that parser accepts every string (see
//! `label`), so the contracts prove that building in fact always succeeds.

use vstd::prelude::*;
use crate::addresses::Ipv4Address;
use crate::addresses::SocketAddress;
use crate::descriptor::{DescriptorModel, ServiceDescriptor};
use crate::error::ProvisionError;
use crate::evm_network::{network_args, EvmNetworkModel, EvmNetworkSelection};
use crate::label::qualified_label;
use crate::log_format::LogFormat;
use crate::numerals::{dec_digits, u64_to_decimal};

verus! {

/// A lone flag, present exactly when its condition holds.
pub open spec fn flag_if(cond: bool, flag: Seq<char>) -> Seq<Seq<char>> {
    if cond {
        seq![flag]
    } else {
        Seq::empty()
    }
}

/// A flag/value pair, present exactly when the value is set.
pub open spec fn flag_value_if(value: Option<Seq<char>>, flag: Seq<char>) -> Seq<Seq<char>> {
    match value {
        Some(v) => seq![flag, v],
        None => Seq::empty(),
    }
}

/// The items joined by single commas, in input order.
pub open spec fn comma_join(items: Seq<Seq<char>>) -> Seq<char>
    decreases items.len(),
{
    if items.len() == 0 {
        Seq::empty()
    } else if items.len() == 1 {
        items[0]
    } else {
        comma_join(items.drop_last()) + seq![','] + items.last()
    }
}

/// The bootstrap-peer segment: nothing for an empty peer list, otherwise one
/// peer flag with a single comma-joined value preserving input order.
pub open spec fn peer_args(peers: Seq<Seq<char>>) -> Seq<Seq<char>> {
    if peers.len() == 0 {
        Seq::empty()
    } else {
        seq!["--peer"@, comma_join(peers)]
    }
}

pub open spec fn format_text(value: Option<LogFormat>) -> Option<Seq<char>> {
    match value {
        Some(f) => Some(f.spec_text()),
        None => None,
    }
}

pub open spec fn ip_text(value: Option<Ipv4Address>) -> Option<Seq<char>> {
    match value {
        Some(ip) => Some(ip.spec_text()),
        None => None,
    }
}

pub open spec fn port_text(value: Option<u16>) -> Option<Seq<char>> {
    match value {
        Some(p) => Some(dec_digits(p as nat)),
        None => None,
    }
}

pub open spec fn count_text(value: Option<usize>) -> Option<Seq<char>> {
    match value {
        Some(n) => Some(dec_digits(n as nat)),
        None => None,
    }
}

fn push_str(args: &mut Vec<String>, s: &str)
    ensures
        final(args).deep_view() == old(args).deep_view().push(s@),
{
    args.push(String::from_str(s));
    proof {
        assert(args.deep_view() =~= old(args).deep_view().push(s@));
    }
}

fn push_string(args: &mut Vec<String>, s: String)
    ensures
        final(args).deep_view() == old(args).deep_view().push(s@),
{
    args.push(s);
    proof {
        assert(args.deep_view() =~= old(args).deep_view().push(s@));
    }
}

fn emit_flag_if(args: &mut Vec<String>, cond: bool, flag: &str)
    ensures
        final(args).deep_view() == old(args).deep_view() + flag_if(cond, flag@),
{
    if cond {
        push_str(args, flag);
    }
    proof {
        assert(args.deep_view() =~= old(args).deep_view() + flag_if(cond, flag@));
    }
}

/// Emits one flag with one value.
fn emit_pair(args: &mut Vec<String>, flag: &str, value: String)
    ensures
        final(args).deep_view() == old(args).deep_view() + seq![flag@, value@],
{
    push_str(args, flag);
    push_string(args, value);
    proof {
        assert(args.deep_view() =~= old(args).deep_view() + seq![flag@, value@]);
    }
}

/// Emits a flag/value pair when the value is set, nothing otherwise.
fn emit_opt_string(args: &mut Vec<String>, value: Option<String>, flag: &str)
    ensures
        final(args).deep_view() == old(args).deep_view() + flag_value_if(
            value.deep_view(),
            flag@,
        ),
{
    match value {
        Some(v) => {
            emit_pair(args, flag, v);
        },
        None => {},
    }
    proof {
        assert(args.deep_view() =~= old(args).deep_view() + flag_value_if(
            value.deep_view(),
            flag@,
        ));
    }
}

fn emit_opt_format(args: &mut Vec<String>, value: &Option<LogFormat>, flag: &str)
    ensures
        final(args).deep_view() == old(args).deep_view() + flag_value_if(
            format_text(*value),
            flag@,
        ),
{
    match value {
        Some(f) => {
            let t = String::from_str(f.as_str());
            emit_pair(args, flag, t);
        },
        None => {},
    }
    proof {
        assert(args.deep_view() =~= old(args).deep_view() + flag_value_if(
            format_text(*value),
            flag@,
        ));
    }
}

fn emit_opt_ip(args: &mut Vec<String>, value: &Option<Ipv4Address>, flag: &str)
    ensures
        final(args).deep_view() == old(args).deep_view() + flag_value_if(ip_text(*value), flag@),
{
    match value {
        Some(ip) => {
            let t = ip.to_text();
            emit_pair(args, flag, t);
        },
        None => {},
    }
    proof {
        assert(args.deep_view() =~= old(args).deep_view() + flag_value_if(
            ip_text(*value),
            flag@,
        ));
    }
}

fn emit_opt_port(args: &mut Vec<String>, value: Option<u16>, flag: &str)
    ensures
        final(args).deep_view() == old(args).deep_view() + flag_value_if(port_text(value), flag@),
{
    match value {
        Some(p) => {
            let t = u64_to_decimal(p as u64);
            emit_pair(args, flag, t);
        },
        None => {},
    }
    proof {
        assert(args.deep_view() =~= old(args).deep_view() + flag_value_if(
            port_text(value),
            flag@,
        ));
    }
}

fn emit_opt_count(args: &mut Vec<String>, value: Option<usize>, flag: &str)
    ensures
        final(args).deep_view() == old(args).deep_view() + flag_value_if(count_text(value), flag@),
{
    match value {
        Some(n) => {
            let t = u64_to_decimal(n as u64);
            emit_pair(args, flag, t);
        },
        None => {},
    }
    proof {
        assert(args.deep_view() =~= old(args).deep_view() + flag_value_if(
            count_text(value),
            flag@,
        ));
    }
}

/// One comma-joined value out of the peers, preserving their order.
fn join_with_commas(items: &Vec<String>) -> (r: String)
    ensures
        r@ == comma_join(items.deep_view()),
{
    let mut r = String::new();
    let n = items.len();
    let mut i: usize = 0;
    while i < n
        invariant
            0 <= i <= n,
            n == items@.len(),
            r@ == comma_join(items.deep_view().take(i as int)),
        decreases n - i,
    {
        if i > 0 {
            r.append(",");
        }
        r.append(items[i].as_str());
        proof {
            reveal_strlit(",");
            let ghost dv = items.deep_view();
            assert(dv[i as int] == items@[i as int]@);
            assert(dv.take(i as int + 1).drop_last() =~= dv.take(i as int));
            assert(dv.take(i as int + 1).last() == dv[i as int]);
            assert(r@ =~= comma_join(dv.take(i as int + 1)));
        }
        i += 1;
    }
    proof {
        assert(items.deep_view().take(n as int) =~= items.deep_view());
    }
    r
}

fn emit_peer_args(args: &mut Vec<String>, peers: &Vec<String>)
    ensures
        final(args).deep_view() == old(args).deep_view() + peer_args(peers.deep_view()),
{
    if peers.len() > 0 {
        let joined = join_with_commas(peers);
        push_str(args, "--peer");
        push_string(args, joined);
    }
    proof {
        assert(args.deep_view() =~= old(args).deep_view() + peer_args(peers.deep_view()));
    }
}

fn emit_network_args(args: &mut Vec<String>, network: EvmNetworkSelection)
    ensures
        final(args).deep_view() == old(args).deep_view() + network_args(network@),
{
    match network {
        EvmNetworkSelection::ArbitrumOne => {
            push_str(args, "evm-arbitrum-one");
        },
        EvmNetworkSelection::ArbitrumSepolia => {
            push_str(args, "evm-arbitrum-sepolia");
        },
        EvmNetworkSelection::Custom { rpc_url, payment_token_address, data_payments_address } => {
            push_str(args, "evm-custom");
            push_str(args, "--rpc-url");
            push_string(args, rpc_url);
            push_str(args, "--payment-token-address");
            push_string(args, payment_token_address);
            push_str(args, "--data-payments-address");
            push_string(args, data_payments_address);
        },
    }
    proof {
        assert(args.deep_view() =~= old(args).deep_view() + network_args(network@));
    }
}

/// A fully-resolved, single-instance storage node configuration.
#[derive(Debug, PartialEq, Eq)]
pub struct InstallNodeServiceCtxBuilder {
    pub autostart: bool,
    pub bootstrap_peers: Vec<String>,
    pub data_dir_path: String,
    pub env_variables: Option<Vec<(String, String)>>,
    pub evm_network: EvmNetworkSelection,
    pub genesis: bool,
    pub home_network: bool,
    pub local: bool,
    pub log_dir_path: String,
    pub log_format: Option<LogFormat>,
    pub name: String,
    pub max_archived_log_files: Option<usize>,
    pub max_log_files: Option<usize>,
    pub metrics_port: Option<u16>,
    pub node_ip: Option<Ipv4Address>,
    pub node_port: Option<u16>,
    pub owner: Option<String>,
    pub rewards_address: String,
    pub rpc_socket_addr: SocketAddress,
    pub safenode_path: String,
    pub service_user: Option<String>,
    pub upnp: bool,
}

/// The mathematical value of a node configuration.
#[verifier::ext_equal]
pub struct NodeCtxModel {
    pub autostart: bool,
    pub bootstrap_peers: Seq<Seq<char>>,
    pub data_dir_path: Seq<char>,
    pub env_variables: Option<Seq<(Seq<char>, Seq<char>)>>,
    pub evm_network: EvmNetworkModel,
    pub genesis: bool,
    pub home_network: bool,
    pub local: bool,
    pub log_dir_path: Seq<char>,
    pub log_format: Option<LogFormat>,
    pub name: Seq<char>,
    pub max_archived_log_files: Option<usize>,
    pub max_log_files: Option<usize>,
    pub metrics_port: Option<u16>,
    pub node_ip: Option<Ipv4Address>,
    pub node_port: Option<u16>,
    pub owner: Option<Seq<char>>,
    pub rewards_address: Seq<char>,
    pub rpc_socket_addr: SocketAddress,
    pub safenode_path: Seq<char>,
    pub service_user: Option<Seq<char>>,
    pub upnp: bool,
}

impl View for InstallNodeServiceCtxBuilder {
    type V = NodeCtxModel;

    open spec fn view(&self) -> NodeCtxModel {
        NodeCtxModel {
            autostart: self.autostart,
            bootstrap_peers: self.bootstrap_peers.deep_view(),
            data_dir_path: self.data_dir_path@,
            env_variables: self.env_variables.deep_view(),
            evm_network: self.evm_network@,
            genesis: self.genesis,
            home_network: self.home_network,
            local: self.local,
            log_dir_path: self.log_dir_path@,
            log_format: self.log_format,
            name: self.name@,
            max_archived_log_files: self.max_archived_log_files,
            max_log_files: self.max_log_files,
            metrics_port: self.metrics_port,
            node_ip: self.node_ip,
            node_port: self.node_port,
            owner: self.owner.deep_view(),
            rewards_address: self.rewards_address@,
            rpc_socket_addr: self.rpc_socket_addr,
            safenode_path: self.safenode_path@,
            service_user: self.service_user.deep_view(),
            upnp: self.upnp,
        }
    }
}

/// The mandatory preamble of the node argument list.
pub open spec fn node_base_args(m: NodeCtxModel) -> Seq<Seq<char>> {
    seq![
        "--rpc"@,
        m.rpc_socket_addr.spec_text(),
        "--root-dir"@,
        m.data_dir_path,
        "--log-output-dest"@,
        m.log_dir_path,
    ]
}

/// Everything the node emits before the bootstrap-peer segment.
pub open spec fn node_pre_peer_args(m: NodeCtxModel) -> Seq<Seq<char>> {
    node_base_args(m) + flag_if(m.genesis, "--first"@) + flag_if(m.home_network, "--home-network"@)
        + flag_if(m.local, "--local"@) + flag_value_if(format_text(m.log_format), "--log-format"@)
        + flag_if(m.upnp, "--upnp"@) + flag_value_if(ip_text(m.node_ip), "--ip"@) + flag_value_if(
        port_text(m.node_port),
        "--port"@,
    ) + flag_value_if(port_text(m.metrics_port), "--metrics-server-port"@) + flag_value_if(
        m.owner,
        "--owner"@,
    ) + flag_value_if(count_text(m.max_archived_log_files), "--max-archived-log-files"@)
        + flag_value_if(count_text(m.max_log_files), "--max-log-files"@)
}

/// The full node argument list, in its contractual order.
pub open spec fn node_args(m: NodeCtxModel) -> Seq<Seq<char>> {
    node_pre_peer_args(m) + peer_args(m.bootstrap_peers) + seq![
        "--rewards-address"@,
        m.rewards_address,
    ] + network_args(m.evm_network)
}

/// The descriptor a node configuration builds to.
pub open spec fn node_descriptor(m: NodeCtxModel) -> DescriptorModel {
    DescriptorModel {
        args: node_args(m),
        autostart: m.autostart,
        environment: m.env_variables,
        label: m.name,
        program: m.safenode_path,
        username: m.service_user,
        working_directory: None,
    }
}

impl InstallNodeServiceCtxBuilder {
    /// Builds the node's service descriptor. The argument list is exactly
    /// `node_args` of this configuration; everything else carries over
    /// unchanged, and the working directory stays unset.
    pub fn build(self) -> (r: Result<ServiceDescriptor, ProvisionError>)
        ensures
            r matches Ok(d) && d@ == node_descriptor(self@),
    {
        let ghost m = self@;
        let label = qualified_label(self.name.as_str());
        let mut args: Vec<String> = Vec::new();
        let socket_text = self.rpc_socket_addr.to_text();
        emit_pair(&mut args, "--rpc", socket_text);
        emit_pair(&mut args, "--root-dir", self.data_dir_path);
        emit_pair(&mut args, "--log-output-dest", self.log_dir_path);
        proof {
            assert(args.deep_view() =~= node_base_args(m));
        }
        emit_flag_if(&mut args, self.genesis, "--first");
        emit_flag_if(&mut args, self.home_network, "--home-network");
        emit_flag_if(&mut args, self.local, "--local");
        emit_opt_format(&mut args, &self.log_format, "--log-format");
        emit_flag_if(&mut args, self.upnp, "--upnp");
        emit_opt_ip(&mut args, &self.node_ip, "--ip");
        emit_opt_port(&mut args, self.node_port, "--port");
        emit_opt_port(&mut args, self.metrics_port, "--metrics-server-port");
        emit_opt_string(&mut args, self.owner, "--owner");
        emit_opt_count(&mut args, self.max_archived_log_files, "--max-archived-log-files");
        emit_opt_count(&mut args, self.max_log_files, "--max-log-files");
        proof {
            assert(args.deep_view() == node_pre_peer_args(m));
        }
        emit_peer_args(&mut args, &self.bootstrap_peers);
        emit_pair(&mut args, "--rewards-address", self.rewards_address);
        emit_network_args(&mut args, self.evm_network);
        proof {
            assert(args.deep_view() == node_args(m));
        }
        let d = ServiceDescriptor {
            args,
            autostart: self.autostart,
            environment: self.env_variables,
            label,
            program: self.safenode_path,
            username: self.service_user,
            working_directory: None,
        };
        proof {
            assert(d@ =~= node_descriptor(m));
        }
        Ok(d)
    }
}

/// A fully-resolved auditor configuration.
#[derive(Debug, PartialEq, Eq)]
pub struct InstallAuditorServiceCtxBuilder {
    pub auditor_path: String,
    pub beta_encryption_key: Option<String>,
    pub bootstrap_peers: Vec<String>,
    pub env_variables: Option<Vec<(String, String)>>,
    pub log_dir_path: String,
    pub name: String,
    pub service_user: String,
}

/// The mathematical value of an auditor configuration.
#[verifier::ext_equal]
pub struct AuditorCtxModel {
    pub auditor_path: Seq<char>,
    pub beta_encryption_key: Option<Seq<char>>,
    pub bootstrap_peers: Seq<Seq<char>>,
    pub env_variables: Option<Seq<(Seq<char>, Seq<char>)>>,
    pub log_dir_path: Seq<char>,
    pub name: Seq<char>,
    pub service_user: Seq<char>,
}

impl View for InstallAuditorServiceCtxBuilder {
    type V = AuditorCtxModel;

    open spec fn view(&self) -> AuditorCtxModel {
        AuditorCtxModel {
            auditor_path: self.auditor_path@,
            beta_encryption_key: self.beta_encryption_key.deep_view(),
            bootstrap_peers: self.bootstrap_peers.deep_view(),
            env_variables: self.env_variables.deep_view(),
            log_dir_path: self.log_dir_path@,
            name: self.name@,
            service_user: self.service_user@,
        }
    }
}

/// The full auditor argument list, in its contractual order.
pub open spec fn auditor_args(m: AuditorCtxModel) -> Seq<Seq<char>> {
    seq!["--log-output-dest"@, m.log_dir_path] + peer_args(m.bootstrap_peers) + flag_value_if(
        m.beta_encryption_key,
        "--beta-encryption-key"@,
    )
}

/// The descriptor an auditor configuration builds to: always autostarted,
/// always run as the given user.
pub open spec fn auditor_descriptor(m: AuditorCtxModel) -> DescriptorModel {
    DescriptorModel {
        args: auditor_args(m),
        autostart: true,
        environment: m.env_variables,
        label: m.name,
        program: m.auditor_path,
        username: Some(m.service_user),
        working_directory: None,
    }
}

impl InstallAuditorServiceCtxBuilder {
    /// Builds the auditor's service descriptor.
    pub fn build(self) -> (r: Result<ServiceDescriptor, ProvisionError>)
        ensures
            r matches Ok(d) && d@ == auditor_descriptor(self@),
    {
        let ghost m = self@;
        let label = qualified_label(self.name.as_str());
        let mut args: Vec<String> = Vec::new();
        push_str(&mut args, "--log-output-dest");
        push_string(&mut args, self.log_dir_path);
        proof {
            assert(args.deep_view() =~= seq!["--log-output-dest"@, m.log_dir_path]);
        }
        emit_peer_args(&mut args, &self.bootstrap_peers);
        match self.beta_encryption_key {
            Some(key) => {
                push_str(&mut args, "--beta-encryption-key");
                push_string(&mut args, key);
            },
            None => {},
        }
        proof {
            assert(args.deep_view() =~= auditor_args(m));
        }
        let d = ServiceDescriptor {
            args,
            autostart: true,
            environment: self.env_variables,
            label,
            program: self.auditor_path,
            username: Some(self.service_user),
            working_directory: None,
        };
        proof {
            assert(d@ =~= auditor_descriptor(m));
        }
        Ok(d)
    }
}

/// A fully-resolved faucet configuration. The local flag is carried for the
/// caller's bookkeeping and contributes no argument.
#[derive(Debug, PartialEq, Eq)]
pub struct InstallFaucetServiceCtxBuilder {
    pub bootstrap_peers: Vec<String>,
    pub env_variables: Option<Vec<(String, String)>>,
    pub faucet_path: String,
    pub local: bool,
    pub log_dir_path: String,
    pub name: String,
    pub service_user: String,
}

/// The mathematical value of a faucet configuration.
#[verifier::ext_equal]
pub struct FaucetCtxModel {
    pub bootstrap_peers: Seq<Seq<char>>,
    pub env_variables: Option<Seq<(Seq<char>, Seq<char>)>>,
    pub faucet_path: Seq<char>,
    pub local: bool,
    pub log_dir_path: Seq<char>,
    pub name: Seq<char>,
    pub service_user: Seq<char>,
}

impl View for InstallFaucetServiceCtxBuilder {
    type V = FaucetCtxModel;

    open spec fn view(&self) -> FaucetCtxModel {
        FaucetCtxModel {
            bootstrap_peers: self.bootstrap_peers.deep_view(),
            env_variables: self.env_variables.deep_view(),
            faucet_path: self.faucet_path@,
            local: self.local,
            log_dir_path: self.log_dir_path@,
            name: self.name@,
            service_user: self.service_user@,
        }
    }
}

/// The full faucet argument list: the log destination, the peer segment, then
/// the fixed trailing token that selects server mode.
pub open spec fn faucet_args(m: FaucetCtxModel) -> Seq<Seq<char>> {
    seq!["--log-output-dest"@, m.log_dir_path] + peer_args(m.bootstrap_peers) + seq!["server"@]
}

/// The descriptor a faucet configuration builds to: always autostarted,
/// always run as the given user.
pub open spec fn faucet_descriptor(m: FaucetCtxModel) -> DescriptorModel {
    DescriptorModel {
        args: faucet_args(m),
        autostart: true,
        environment: m.env_variables,
        label: m.name,
        program: m.faucet_path,
        username: Some(m.service_user),
        working_directory: None,
    }
}

impl InstallFaucetServiceCtxBuilder {
    /// Builds the faucet's service descriptor.
    pub fn build(self) -> (r: Result<ServiceDescriptor, ProvisionError>)
        ensures
            r matches Ok(d) && d@ == faucet_descriptor(self@),
    {
        let ghost m = self@;
        let label = qualified_label(self.name.as_str());
        let mut args: Vec<String> = Vec::new();
        push_str(&mut args, "--log-output-dest");
        push_string(&mut args, self.log_dir_path);
        proof {
            assert(args.deep_view() =~= seq!["--log-output-dest"@, m.log_dir_path]);
        }
        emit_peer_args(&mut args, &self.bootstrap_peers);
        push_str(&mut args, "server");
        proof {
            assert(args.deep_view() =~= faucet_args(m));
        }
        let d = ServiceDescriptor {
            args,
            autostart: true,
            environment: self.env_variables,
            label,
            program: self.faucet_path,
            username: Some(self.service_user),
            working_directory: None,
        };
        proof {
            assert(d@ =~= faucet_descriptor(m));
        }
        Ok(d)
    }
}

/// A fully-resolved payment daemon configuration. The daemon's grammar is
/// deliberately minimal: its bound listen port and address, nothing else.
#[derive(Debug, PartialEq, Eq)]
pub struct InstallDaemonServiceCtxBuilder {
    pub address: Ipv4Address,
    pub daemon_path: String,
    pub env_variables: Option<Vec<(String, String)>>,
    pub name: String,
    pub port: u16,
    pub service_user: String,
}

/// The mathematical value of a daemon configuration.
#[verifier::ext_equal]
pub struct DaemonCtxModel {
    pub address: Ipv4Address,
    pub daemon_path: Seq<char>,
    pub env_variables: Option<Seq<(Seq<char>, Seq<char>)>>,
    pub name: Seq<char>,
    pub port: u16,
    pub service_user: Seq<char>,
}

impl View for InstallDaemonServiceCtxBuilder {
    type V = DaemonCtxModel;

    open spec fn view(&self) -> DaemonCtxModel {
        DaemonCtxModel {
            address: self.address,
            daemon_path: self.daemon_path@,
            env_variables: self.env_variables.deep_view(),
            name: self.name@,
            port: self.port,
            service_user: self.service_user@,
        }
    }
}

/// The fixed daemon argument list: the bound port, then the bound address.
pub open spec fn daemon_args(m: DaemonCtxModel) -> Seq<Seq<char>> {
    seq!["--port"@, dec_digits(m.port as nat), "--address"@, m.address.spec_text()]
}

/// The descriptor a daemon configuration builds to: always autostarted,
/// always run as the given user.
pub open spec fn daemon_descriptor(m: DaemonCtxModel) -> DescriptorModel {
    DescriptorModel {
        args: daemon_args(m),
        autostart: true,
        environment: m.env_variables,
        label: m.name,
        program: m.daemon_path,
        username: Some(m.service_user),
        working_directory: None,
    }
}

impl InstallDaemonServiceCtxBuilder {
    /// Builds the daemon's service descriptor.
    pub fn build(self) -> (r: Result<ServiceDescriptor, ProvisionError>)
        ensures
            r matches Ok(d) && d@ == daemon_descriptor(self@),
    {
        let ghost m = self@;
        let label = qualified_label(self.name.as_str());
        let mut args: Vec<String> = Vec::new();
        let port_text = u64_to_decimal(self.port as u64);
        emit_pair(&mut args, "--port", port_text);
        let address_text = self.address.to_text();
        emit_pair(&mut args, "--address", address_text);
        proof {
            assert(args.deep_view() =~= daemon_args(m));
        }
        let d = ServiceDescriptor {
            args,
            autostart: true,
            environment: self.env_variables,
            label,
            program: self.daemon_path,
            username: Some(self.service_user),
            working_directory: None,
        };
        proof {
            assert(d@ =~= daemon_descriptor(m));
        }
        Ok(d)
    }
}

} // verus!
