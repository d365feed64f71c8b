//! The fleet provisioning planner.
//!
//! One fleet request asks for N instances of one service kind. The planner
//! validates every declared port range against N, failing the whole operation
//! on the first mismatch, then derives one identity and one port per role for
//! each instance and hands each resulting configuration to the kind's
//! builder, collecting descriptors in instance-index order. The operation is
//! atomic: either all N descriptors come back or none does.

use vstd::prelude::*;
use crate::addresses::Ipv4Address;
use crate::addresses::SocketAddress;
use crate::builders::{
    auditor_descriptor, daemon_descriptor, faucet_descriptor, node_descriptor, AuditorCtxModel,
    DaemonCtxModel, FaucetCtxModel, InstallAuditorServiceCtxBuilder, InstallDaemonServiceCtxBuilder,
    InstallFaucetServiceCtxBuilder, InstallNodeServiceCtxBuilder, NodeCtxModel,
};
use crate::descriptor::{DescriptorModel, ServiceDescriptor};
use crate::error::ProvisionError;
use crate::evm_network::{EvmNetworkModel, EvmNetworkSelection};
use crate::label::qualified_label;
use crate::log_format::LogFormat;
use crate::numerals::{dec_digits, lemma_dec_digits_injective, u64_to_decimal};
use crate::port_range::PortRange;

verus! {

/// The instance count a request asks for; an absent count means one.
pub open spec fn effective_count(count: Option<u16>) -> u16 {
    if count is Some {
        count->0
    } else {
        1u16
    }
}

/// The identity of instance `i`: the bare base name when one instance is
/// asked for, otherwise the base name followed by the one-based instance
/// number.
pub open spec fn instance_name(base: Seq<char>, count: u16, i: int) -> Seq<char> {
    if count == 1 {
        base
    } else {
        base + dec_digits((i + 1) as nat)
    }
}

/// A directory entry under `base`.
pub open spec fn dir_join(base: Seq<char>, name: Seq<char>) -> Seq<char> {
    base + seq!['/'] + name
}

/// The port instance `i` takes from a range: a single port is shared by every
/// instance, an interval hands out its `i`-th port.
pub open spec fn range_port(range: PortRange, i: int) -> int {
    match range {
        PortRange::Single(p) => p as int,
        PortRange::Range(start, _) => start + i,
    }
}

pub open spec fn opt_range_port(range: Option<PortRange>, i: int) -> Option<u16> {
    match range {
        Some(r) => Some(range_port(r, i) as u16),
        None => None,
    }
}

/// With one instance the identity is the bare base name; with more, distinct
/// instances always get distinct identities.
pub proof fn lemma_instance_identities(base: Seq<char>, count: u16, i: int, j: int)
    requires
        0 <= i < count,
        0 <= j < count,
        i != j,
    ensures
        count == 1 ==> instance_name(base, count, i) == base,
        count > 1 ==> instance_name(base, count, i) != instance_name(base, count, j),
{
    if count > 1 && instance_name(base, count, i) == instance_name(base, count, j) {
        assert((base + dec_digits((i + 1) as nat)).skip(base.len() as int) =~= dec_digits(
            (i + 1) as nat,
        ));
        assert((base + dec_digits((j + 1) as nat)).skip(base.len() as int) =~= dec_digits(
            (j + 1) as nat,
        ));
        lemma_dec_digits_injective((i + 1) as nat, (j + 1) as nat);
    }
}

fn join_dir(base: &String, name: &str) -> (r: String)
    ensures
        r@ == dir_join(base@, name@),
{
    let mut r = base.clone();
    r.append("/");
    r.append(name);
    proof {
        reveal_strlit("/");
        assert(r@ =~= dir_join(base@, name@));
    }
    r
}

fn instance_name_text(base: &String, count: u16, i: u16) -> (r: String)
    requires
        i < count || count == 0,
    ensures
        r@ == instance_name(base@, count, i as int),
{
    if count == 1 {
        base.clone()
    } else {
        let mut r = base.clone();
        let suffix = u64_to_decimal((i as u64) + 1);
        r.append(suffix.as_str());
        r
    }
}

fn clone_strings(items: &Vec<String>) -> (r: Vec<String>)
    ensures
        r.deep_view() == items.deep_view(),
{
    let mut r: Vec<String> = Vec::new();
    let n = items.len();
    let mut i: usize = 0;
    while i < n
        invariant
            0 <= i <= n,
            n == items@.len(),
            r.deep_view() == items.deep_view().take(i as int),
        decreases n - i,
    {
        let ghost prev = r.deep_view();
        let item = &items[i];
        r.push(item.clone());
        proof {
            assert(r.deep_view() =~= prev.push(items.deep_view()[i as int]));
            assert(prev.push(items.deep_view()[i as int]) =~= items.deep_view().take(i as int + 1));
        }
        i += 1;
    }
    proof {
        assert(items.deep_view().take(n as int) =~= items.deep_view());
    }
    r
}

fn clone_env(env: &Option<Vec<(String, String)>>) -> (r: Option<Vec<(String, String)>>)
    ensures
        r.deep_view() == env.deep_view(),
{
    match env {
        None => None,
        Some(pairs) => {
            let mut out: Vec<(String, String)> = Vec::new();
            let n = pairs.len();
            let mut i: usize = 0;
            while i < n
                invariant
                    0 <= i <= n,
                    n == pairs@.len(),
                    out.deep_view() == pairs.deep_view().take(i as int),
                decreases n - i,
            {
                let ghost prev = out.deep_view();
                let pair = &pairs[i];
                let first = pair.0.clone();
                let second = pair.1.clone();
                out.push((first, second));
                proof {
                    assert(out.deep_view() =~= prev.push(pairs.deep_view()[i as int]));
                    assert(prev.push(pairs.deep_view()[i as int]) =~= pairs.deep_view().take(
                        i as int + 1,
                    ));
                }
                i += 1;
            }
            proof {
                assert(pairs.deep_view().take(n as int) =~= pairs.deep_view());
                assert(Some(out).deep_view() =~= env.deep_view());
            }
            Some(out)
        },
    }
}

fn clone_opt_string(value: &Option<String>) -> (r: Option<String>)
    ensures
        r.deep_view() == value.deep_view(),
{
    match value {
        None => None,
        Some(s) => Some(s.clone()),
    }
}

fn clone_network(network: &EvmNetworkSelection) -> (r: EvmNetworkSelection)
    ensures
        r@ == network@,
{
    match network {
        EvmNetworkSelection::ArbitrumOne => EvmNetworkSelection::ArbitrumOne,
        EvmNetworkSelection::ArbitrumSepolia => EvmNetworkSelection::ArbitrumSepolia,
        EvmNetworkSelection::Custom { rpc_url, payment_token_address, data_payments_address } => (
        EvmNetworkSelection::Custom {
            rpc_url: rpc_url.clone(),
            payment_token_address: payment_token_address.clone(),
            data_payments_address: data_payments_address.clone(),
        }),
    }
}

fn port_at(range: &PortRange, i: u16) -> (p: u16)
    requires
        (*range) matches PortRange::Range(start, end) ==> start + i <= end,
    ensures
        p as int == range_port(*range, i as int),
{
    match range {
        PortRange::Single(p) => *p,
        PortRange::Range(start, _) => *start + i,
    }
}

/// A request to provision `count` storage node instances. The port ranges are
/// expected well-formed, as `PortRange::parse` produces them. The paths for
/// the node binary's source and installation, the version, and the
/// installation flags ride along for the surrounding tooling and do not enter
/// the descriptors, except for the directory the node binary is installed
/// into, which determines each instance's program path.
pub struct AddNodeServiceOptions {
    pub auto_restart: bool,
    pub auto_set_nat_flags: bool,
    pub bootstrap_peers: Vec<String>,
    pub count: Option<u16>,
    pub delete_safenode_src: bool,
    pub enable_metrics_server: bool,
    pub env_variables: Option<Vec<(String, String)>>,
    pub evm_network: EvmNetworkSelection,
    pub genesis: bool,
    pub home_network: bool,
    pub local: bool,
    pub log_format: Option<LogFormat>,
    pub max_archived_log_files: Option<usize>,
    pub max_log_files: Option<usize>,
    pub metrics_port: Option<PortRange>,
    pub name: String,
    pub node_ip: Option<Ipv4Address>,
    pub node_port: Option<PortRange>,
    pub owner: Option<String>,
    pub rewards_address: String,
    pub rpc_address: Option<Ipv4Address>,
    pub rpc_port: Option<PortRange>,
    pub safenode_src_path: String,
    pub safenode_dir_path: String,
    pub service_data_dir_path: String,
    pub service_log_dir_path: String,
    pub upnp: bool,
    pub user: Option<String>,
    pub user_mode: bool,
    pub version: String,
}

/// The mathematical value of a node fleet request.
#[verifier::ext_equal]
pub struct NodeOptionsModel {
    pub auto_restart: bool,
    pub auto_set_nat_flags: bool,
    pub bootstrap_peers: Seq<Seq<char>>,
    pub count: Option<u16>,
    pub delete_safenode_src: bool,
    pub enable_metrics_server: bool,
    pub env_variables: Option<Seq<(Seq<char>, Seq<char>)>>,
    pub evm_network: EvmNetworkModel,
    pub genesis: bool,
    pub home_network: bool,
    pub local: bool,
    pub log_format: Option<LogFormat>,
    pub max_archived_log_files: Option<usize>,
    pub max_log_files: Option<usize>,
    pub metrics_port: Option<PortRange>,
    pub name: Seq<char>,
    pub node_ip: Option<Ipv4Address>,
    pub node_port: Option<PortRange>,
    pub owner: Option<Seq<char>>,
    pub rewards_address: Seq<char>,
    pub rpc_address: Option<Ipv4Address>,
    pub rpc_port: Option<PortRange>,
    pub safenode_src_path: Seq<char>,
    pub safenode_dir_path: Seq<char>,
    pub service_data_dir_path: Seq<char>,
    pub service_log_dir_path: Seq<char>,
    pub upnp: bool,
    pub user: Option<Seq<char>>,
    pub user_mode: bool,
    pub version: Seq<char>,
}

impl View for AddNodeServiceOptions {
    type V = NodeOptionsModel;

    open spec fn view(&self) -> NodeOptionsModel {
        NodeOptionsModel {
            auto_restart: self.auto_restart,
            auto_set_nat_flags: self.auto_set_nat_flags,
            bootstrap_peers: self.bootstrap_peers.deep_view(),
            count: self.count,
            delete_safenode_src: self.delete_safenode_src,
            enable_metrics_server: self.enable_metrics_server,
            env_variables: self.env_variables.deep_view(),
            evm_network: self.evm_network@,
            genesis: self.genesis,
            home_network: self.home_network,
            local: self.local,
            log_format: self.log_format,
            max_archived_log_files: self.max_archived_log_files,
            max_log_files: self.max_log_files,
            metrics_port: self.metrics_port,
            name: self.name@,
            node_ip: self.node_ip,
            node_port: self.node_port,
            owner: self.owner.deep_view(),
            rewards_address: self.rewards_address@,
            rpc_address: self.rpc_address,
            rpc_port: self.rpc_port,
            safenode_src_path: self.safenode_src_path@,
            safenode_dir_path: self.safenode_dir_path@,
            service_data_dir_path: self.service_data_dir_path@,
            service_log_dir_path: self.service_log_dir_path@,
            upnp: self.upnp,
            user: self.user.deep_view(),
            user_mode: self.user_mode,
            version: self.version@,
        }
    }
}

/// Every declared range is well-formed, as `PortRange::parse` leaves them.
pub open spec fn node_ranges_wf(m: NodeOptionsModel) -> bool {
    &&& (m.rpc_port matches Some(r) ==> r.wf())
    &&& (m.node_port matches Some(r) ==> r.wf())
    &&& (m.metrics_port matches Some(r) ==> r.wf())
}

/// Every declared range holds exactly one port per requested instance.
pub open spec fn node_ranges_match(m: NodeOptionsModel, count: u16) -> bool {
    &&& (m.rpc_port matches Some(r) ==> r.spec_cardinality() == count)
    &&& (m.node_port matches Some(r) ==> r.spec_cardinality() == count)
    &&& (m.metrics_port matches Some(r) ==> r.spec_cardinality() == count)
}

pub open spec fn mismatch_error(range: PortRange, count: u16) -> ProvisionError {
    ProvisionError::CardinalityMismatch {
        required: range.spec_cardinality() as u32,
        declared: count as u32,
    }
}

/// The error of the first declared range that does not match the count, in
/// the fixed validation order: node rpc, node port, metrics port.
pub open spec fn node_plan_error(m: NodeOptionsModel, count: u16) -> ProvisionError {
    if m.rpc_port is Some && m.rpc_port->0.spec_cardinality() != count {
        mismatch_error(m.rpc_port->0, count)
    } else if m.node_port is Some && m.node_port->0.spec_cardinality() != count {
        mismatch_error(m.node_port->0, count)
    } else {
        mismatch_error(m.metrics_port->0, count)
    }
}

/// The host the rpc service binds: the requested one, or local loopback.
pub open spec fn rpc_host(address: Option<Ipv4Address>) -> Ipv4Address {
    if address is Some {
        address->0
    } else {
        Ipv4Address { octet0: 127, octet1: 0, octet2: 0, octet3: 1 }
    }
}

/// The single-instance node configuration that instance `i` of the request
/// resolves to.
pub open spec fn node_instance_model(m: NodeOptionsModel, count: u16, i: int) -> NodeCtxModel {
    NodeCtxModel {
        autostart: m.auto_restart,
        bootstrap_peers: m.bootstrap_peers,
        data_dir_path: dir_join(m.service_data_dir_path, instance_name(m.name, count, i)),
        env_variables: m.env_variables,
        evm_network: m.evm_network,
        genesis: m.genesis,
        home_network: m.home_network,
        local: m.local,
        log_dir_path: dir_join(m.service_log_dir_path, instance_name(m.name, count, i)),
        log_format: m.log_format,
        name: instance_name(m.name, count, i),
        max_archived_log_files: m.max_archived_log_files,
        max_log_files: m.max_log_files,
        metrics_port: opt_range_port(m.metrics_port, i),
        node_ip: m.node_ip,
        node_port: opt_range_port(m.node_port, i),
        owner: m.owner,
        rewards_address: m.rewards_address,
        rpc_socket_addr: SocketAddress {
            ip: rpc_host(m.rpc_address),
            port: range_port(m.rpc_port->0, i) as u16,
        },
        safenode_path: dir_join(m.safenode_dir_path, "safenode"@),
        service_user: m.user,
        upnp: m.upnp,
    }
}

/// Expands a node fleet request into one descriptor per instance.
///
/// Succeeds exactly when every declared port range matches the requested
/// count; the first mismatch, in the order rpc, node port, metrics port,
/// aborts the whole expansion. On success the `i`-th descriptor is exactly
/// the build of the `i`-th resolved instance configuration.
pub fn plan_node_services(options: &AddNodeServiceOptions) -> (r: Result<
    Vec<ServiceDescriptor>,
    ProvisionError,
>)
    requires
        options@.rpc_port is Some,
        node_ranges_wf(options@),
    ensures
        r is Ok <==> node_ranges_match(options@, effective_count(options@.count)),
        r matches Ok(v) ==> (v@.len() == effective_count(options@.count) && forall|i: int|
            0 <= i < v@.len() ==> v@[i]@ == node_descriptor(
                node_instance_model(options@, effective_count(options@.count), i),
            )),
        r matches Err(e) ==> e == node_plan_error(options@, effective_count(options@.count)),
{
    let ghost m = options@;
    let count: u16 = match options.count {
        Some(c) => c,
        None => 1,
    };
    let rpc_range: &PortRange = match &options.rpc_port {
        Some(range) => range,
        None => {
            proof {
                assert(false);
            }
            return Err(ProvisionError::MalformedRange);
        },
    };
    match rpc_range.validate(count) {
        Ok(()) => {},
        Err(e) => {
            return Err(e);
        },
    }
    match &options.node_port {
        Some(range) => {
            match range.validate(count) {
                Ok(()) => {},
                Err(e) => {
                    return Err(e);
                },
            }
        },
        None => {},
    }
    match &options.metrics_port {
        Some(range) => {
            match range.validate(count) {
                Ok(()) => {},
                Err(e) => {
                    return Err(e);
                },
            }
        },
        None => {},
    }
    let rpc_ip: Ipv4Address = match options.rpc_address {
        Some(ip) => ip,
        None => Ipv4Address { octet0: 127, octet1: 0, octet2: 0, octet3: 1 },
    };
    let program = join_dir(&options.safenode_dir_path, "safenode");
    let mut out: Vec<ServiceDescriptor> = Vec::new();
    let mut i: u16 = 0;
    while i < count
        invariant
            0 <= i <= count,
            m == options@,
            m.rpc_port is Some,
            node_ranges_wf(m),
            node_ranges_match(m, count),
            count == effective_count(m.count),
            rpc_ip == rpc_host(m.rpc_address),
            program@ == dir_join(m.safenode_dir_path, "safenode"@),
            out@.len() == i as int,
            forall|j: int| 0 <= j < i as int ==> out@[j]@ == node_descriptor(
                node_instance_model(m, count, j),
            ),
        decreases count - i,
    {
        let name = instance_name_text(&options.name, count, i);
        let data_dir = join_dir(&options.service_data_dir_path, name.as_str());
        let log_dir = join_dir(&options.service_log_dir_path, name.as_str());
        let rpc_range_loop: &PortRange = match &options.rpc_port {
            Some(range) => range,
            None => {
                proof {
                    assert(false);
                }
                return Err(ProvisionError::MalformedRange);
            },
        };
        let rpc_port_i = port_at(rpc_range_loop, i);
        let node_port_i: Option<u16> = match &options.node_port {
            Some(range) => Some(port_at(range, i)),
            None => None,
        };
        let metrics_port_i: Option<u16> = match &options.metrics_port {
            Some(range) => Some(port_at(range, i)),
            None => None,
        };
        let builder = InstallNodeServiceCtxBuilder {
            autostart: options.auto_restart,
            bootstrap_peers: clone_strings(&options.bootstrap_peers),
            data_dir_path: data_dir,
            env_variables: clone_env(&options.env_variables),
            evm_network: clone_network(&options.evm_network),
            genesis: options.genesis,
            home_network: options.home_network,
            local: options.local,
            log_dir_path: log_dir,
            log_format: options.log_format,
            name,
            max_archived_log_files: options.max_archived_log_files,
            max_log_files: options.max_log_files,
            metrics_port: metrics_port_i,
            node_ip: options.node_ip,
            node_port: node_port_i,
            owner: clone_opt_string(&options.owner),
            rewards_address: options.rewards_address.clone(),
            rpc_socket_addr: SocketAddress { ip: rpc_ip, port: rpc_port_i },
            safenode_path: program.clone(),
            service_user: clone_opt_string(&options.user),
            upnp: options.upnp,
        };
        proof {
            assert(builder@ =~= node_instance_model(m, count, i as int));
        }
        let descriptor = match builder.build() {
            Ok(d) => d,
            Err(_) => {
                proof {
                    assert(false);
                }
                return Err(ProvisionError::MalformedRange);
            },
        };
        out.push(descriptor);
        i += 1;
    }
    Ok(out)
}

/// A request to provision one auditor service. The source binary path and
/// the version ride along for the surrounding tooling; the installed binary
/// path is the program the descriptor runs.
pub struct AddAuditorServiceOptions {
    pub auditor_install_bin_path: String,
    pub auditor_src_bin_path: String,
    pub beta_encryption_key: Option<String>,
    pub bootstrap_peers: Vec<String>,
    pub env_variables: Option<Vec<(String, String)>>,
    pub name: String,
    pub service_log_dir_path: String,
    pub user: String,
    pub version: String,
}

/// The mathematical value of an auditor request.
#[verifier::ext_equal]
pub struct AuditorOptionsModel {
    pub auditor_install_bin_path: Seq<char>,
    pub auditor_src_bin_path: Seq<char>,
    pub beta_encryption_key: Option<Seq<char>>,
    pub bootstrap_peers: Seq<Seq<char>>,
    pub env_variables: Option<Seq<(Seq<char>, Seq<char>)>>,
    pub name: Seq<char>,
    pub service_log_dir_path: Seq<char>,
    pub user: Seq<char>,
    pub version: Seq<char>,
}

impl View for AddAuditorServiceOptions {
    type V = AuditorOptionsModel;

    open spec fn view(&self) -> AuditorOptionsModel {
        AuditorOptionsModel {
            auditor_install_bin_path: self.auditor_install_bin_path@,
            auditor_src_bin_path: self.auditor_src_bin_path@,
            beta_encryption_key: self.beta_encryption_key.deep_view(),
            bootstrap_peers: self.bootstrap_peers.deep_view(),
            env_variables: self.env_variables.deep_view(),
            name: self.name@,
            service_log_dir_path: self.service_log_dir_path@,
            user: self.user@,
            version: self.version@,
        }
    }
}

/// The single auditor configuration a request resolves to.
pub open spec fn auditor_instance_model(m: AuditorOptionsModel) -> AuditorCtxModel {
    AuditorCtxModel {
        auditor_path: m.auditor_install_bin_path,
        beta_encryption_key: m.beta_encryption_key,
        bootstrap_peers: m.bootstrap_peers,
        env_variables: m.env_variables,
        log_dir_path: m.service_log_dir_path,
        name: m.name,
        service_user: m.user,
    }
}

/// Resolves an auditor request and builds its descriptor.
pub fn plan_auditor_service(options: AddAuditorServiceOptions) -> (r: Result<
    ServiceDescriptor,
    ProvisionError,
>)
    ensures
        r matches Ok(d) && d@ == auditor_descriptor(auditor_instance_model(options@)),
{
    let builder = InstallAuditorServiceCtxBuilder {
        auditor_path: options.auditor_install_bin_path,
        beta_encryption_key: options.beta_encryption_key,
        bootstrap_peers: options.bootstrap_peers,
        env_variables: options.env_variables,
        log_dir_path: options.service_log_dir_path,
        name: options.name,
        service_user: options.user,
    };
    builder.build()
}

/// A request to provision one faucet service.
pub struct AddFaucetServiceOptions {
    pub bootstrap_peers: Vec<String>,
    pub env_variables: Option<Vec<(String, String)>>,
    pub faucet_install_bin_path: String,
    pub faucet_src_bin_path: String,
    pub local: bool,
    pub name: String,
    pub service_data_dir_path: String,
    pub service_log_dir_path: String,
    pub user: String,
    pub version: String,
}

/// The mathematical value of a faucet request.
#[verifier::ext_equal]
pub struct FaucetOptionsModel {
    pub bootstrap_peers: Seq<Seq<char>>,
    pub env_variables: Option<Seq<(Seq<char>, Seq<char>)>>,
    pub faucet_install_bin_path: Seq<char>,
    pub faucet_src_bin_path: Seq<char>,
    pub local: bool,
    pub name: Seq<char>,
    pub service_data_dir_path: Seq<char>,
    pub service_log_dir_path: Seq<char>,
    pub user: Seq<char>,
    pub version: Seq<char>,
}

impl View for AddFaucetServiceOptions {
    type V = FaucetOptionsModel;

    open spec fn view(&self) -> FaucetOptionsModel {
        FaucetOptionsModel {
            bootstrap_peers: self.bootstrap_peers.deep_view(),
            env_variables: self.env_variables.deep_view(),
            faucet_install_bin_path: self.faucet_install_bin_path@,
            faucet_src_bin_path: self.faucet_src_bin_path@,
            local: self.local,
            name: self.name@,
            service_data_dir_path: self.service_data_dir_path@,
            service_log_dir_path: self.service_log_dir_path@,
            user: self.user@,
            version: self.version@,
        }
    }
}

/// The single faucet configuration a request resolves to.
pub open spec fn faucet_instance_model(m: FaucetOptionsModel) -> FaucetCtxModel {
    FaucetCtxModel {
        bootstrap_peers: m.bootstrap_peers,
        env_variables: m.env_variables,
        faucet_path: m.faucet_install_bin_path,
        local: m.local,
        log_dir_path: m.service_log_dir_path,
        name: m.name,
        service_user: m.user,
    }
}

/// Resolves a faucet request and builds its descriptor.
pub fn plan_faucet_service(options: AddFaucetServiceOptions) -> (r: Result<
    ServiceDescriptor,
    ProvisionError,
>)
    ensures
        r matches Ok(d) && d@ == faucet_descriptor(faucet_instance_model(options@)),
{
    let builder = InstallFaucetServiceCtxBuilder {
        bootstrap_peers: options.bootstrap_peers,
        env_variables: options.env_variables,
        faucet_path: options.faucet_install_bin_path,
        local: options.local,
        log_dir_path: options.service_log_dir_path,
        name: options.name,
        service_user: options.user,
    };
    builder.build()
}

/// A request to provision one payment daemon service.
pub struct AddDaemonServiceOptions {
    pub address: Ipv4Address,
    pub env_variables: Option<Vec<(String, String)>>,
    pub daemon_install_bin_path: String,
    pub daemon_src_bin_path: String,
    pub name: String,
    pub port: u16,
    pub user: String,
    pub version: String,
}

/// The mathematical value of a daemon request.
#[verifier::ext_equal]
pub struct DaemonOptionsModel {
    pub address: Ipv4Address,
    pub env_variables: Option<Seq<(Seq<char>, Seq<char>)>>,
    pub daemon_install_bin_path: Seq<char>,
    pub daemon_src_bin_path: Seq<char>,
    pub name: Seq<char>,
    pub port: u16,
    pub user: Seq<char>,
    pub version: Seq<char>,
}

impl View for AddDaemonServiceOptions {
    type V = DaemonOptionsModel;

    open spec fn view(&self) -> DaemonOptionsModel {
        DaemonOptionsModel {
            address: self.address,
            env_variables: self.env_variables.deep_view(),
            daemon_install_bin_path: self.daemon_install_bin_path@,
            daemon_src_bin_path: self.daemon_src_bin_path@,
            name: self.name@,
            port: self.port,
            user: self.user@,
            version: self.version@,
        }
    }
}

/// The single daemon configuration a request resolves to.
pub open spec fn daemon_instance_model(m: DaemonOptionsModel) -> DaemonCtxModel {
    DaemonCtxModel {
        address: m.address,
        daemon_path: m.daemon_install_bin_path,
        env_variables: m.env_variables,
        name: m.name,
        port: m.port,
        service_user: m.user,
    }
}

/// Resolves a daemon request and builds its descriptor.
pub fn plan_daemon_service(options: AddDaemonServiceOptions) -> (r: Result<
    ServiceDescriptor,
    ProvisionError,
>)
    ensures
        r matches Ok(d) && d@ == daemon_descriptor(daemon_instance_model(options@)),
{
    let builder = InstallDaemonServiceCtxBuilder {
        address: options.address,
        daemon_path: options.daemon_install_bin_path,
        env_variables: options.env_variables,
        name: options.name,
        port: options.port,
        service_user: options.user,
    };
    builder.build()
}

/// One fleet request: which kind to provision, with that kind's options. The
/// kind set is closed, so dispatch is exhaustive by construction.
pub enum FleetRequest {
    Node(AddNodeServiceOptions),
    Auditor(AddAuditorServiceOptions),
    Faucet(AddFaucetServiceOptions),
    Daemon(AddDaemonServiceOptions),
}

/// Expands one fleet request into its descriptors, in instance-index order.
/// A node request yields one descriptor per requested instance; the other
/// kinds are single-instance. Any error aborts the whole request with no
/// descriptor returned.
pub fn plan_fleet(request: FleetRequest) -> (r: Result<Vec<ServiceDescriptor>, ProvisionError>)
    requires
        request matches FleetRequest::Node(o) ==> o@.rpc_port is Some && node_ranges_wf(o@),
    ensures
        request matches FleetRequest::Node(o) ==> ((r is Ok <==> node_ranges_match(
            o@,
            effective_count(o@.count),
        )) && (r matches Ok(v) ==> (v@.len() == effective_count(o@.count) && forall|i: int|
            0 <= i < v@.len() ==> v@[i]@ == node_descriptor(
                node_instance_model(o@, effective_count(o@.count), i),
            ))) && (r matches Err(e) ==> e == node_plan_error(o@, effective_count(o@.count)))),
        request matches FleetRequest::Auditor(o) ==> (r matches Ok(v) && v@.len() == 1 && v@[0]@
            == auditor_descriptor(auditor_instance_model(o@))),
        request matches FleetRequest::Faucet(o) ==> (r matches Ok(v) && v@.len() == 1 && v@[0]@
            == faucet_descriptor(faucet_instance_model(o@))),
        request matches FleetRequest::Daemon(o) ==> (r matches Ok(v) && v@.len() == 1 && v@[0]@
            == daemon_descriptor(daemon_instance_model(o@))),
{
    match request {
        FleetRequest::Node(options) => plan_node_services(&options),
        FleetRequest::Auditor(options) => {
            match plan_auditor_service(options) {
                Ok(d) => {
                    let mut v: Vec<ServiceDescriptor> = Vec::new();
                    v.push(d);
                    Ok(v)
                },
                Err(e) => Err(e),
            }
        },
        FleetRequest::Faucet(options) => {
            match plan_faucet_service(options) {
                Ok(d) => {
                    let mut v: Vec<ServiceDescriptor> = Vec::new();
                    v.push(d);
                    Ok(v)
                },
                Err(e) => Err(e),
            }
        },
        FleetRequest::Daemon(options) => {
            match plan_daemon_service(options) {
                Ok(d) => {
                    let mut v: Vec<ServiceDescriptor> = Vec::new();
                    v.push(d);
                    Ok(v)
                },
                Err(e) => Err(e),
            }
        },
    }
}

} // verus!
