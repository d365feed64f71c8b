//! Laws of the provisioning engine, stated and proved over the same spec
//! functions the builders' and the planner's contracts use.

use vstd::prelude::*;
use crate::builders::{
    auditor_descriptor, comma_join, daemon_descriptor, faucet_descriptor, node_args,
    node_descriptor, node_pre_peer_args, peer_args, AuditorCtxModel, DaemonCtxModel,
    FaucetCtxModel, NodeCtxModel,
};
use crate::descriptor::DescriptorModel;
use crate::evm_network::{network_args, network_token, EvmNetworkModel};
use crate::planner::{instance_name, lemma_instance_identities, node_instance_model,
    NodeOptionsModel};

verus! {

/// Building the same node configuration twice yields identical descriptors:
/// the descriptor is a function of the configuration alone.
pub proof fn lemma_node_build_deterministic(
    c1: NodeCtxModel,
    c2: NodeCtxModel,
    d1: DescriptorModel,
    d2: DescriptorModel,
)
    requires
        c1 == c2,
        d1 == node_descriptor(c1),
        d2 == node_descriptor(c2),
    ensures
        d1 == d2,
{
}

/// Building the same auditor configuration twice yields identical
/// descriptors.
pub proof fn lemma_auditor_build_deterministic(
    c1: AuditorCtxModel,
    c2: AuditorCtxModel,
    d1: DescriptorModel,
    d2: DescriptorModel,
)
    requires
        c1 == c2,
        d1 == auditor_descriptor(c1),
        d2 == auditor_descriptor(c2),
    ensures
        d1 == d2,
{
}

/// Building the same faucet configuration twice yields identical descriptors.
pub proof fn lemma_faucet_build_deterministic(
    c1: FaucetCtxModel,
    c2: FaucetCtxModel,
    d1: DescriptorModel,
    d2: DescriptorModel,
)
    requires
        c1 == c2,
        d1 == faucet_descriptor(c1),
        d2 == faucet_descriptor(c2),
    ensures
        d1 == d2,
{
}

/// Building the same daemon configuration twice yields identical descriptors.
pub proof fn lemma_daemon_build_deterministic(
    c1: DaemonCtxModel,
    c2: DaemonCtxModel,
    d1: DescriptorModel,
    d2: DescriptorModel,
)
    requires
        c1 == c2,
        d1 == daemon_descriptor(c1),
        d2 == daemon_descriptor(c2),
    ensures
        d1 == d2,
{
}

/// The omission rule: an empty bootstrap-peer list contributes no peer flag
/// to any argument list; a non-empty one contributes exactly one flag with a
/// single comma-joined value whose order is the input order.
pub proof fn lemma_peer_flag_omission(peers: Seq<Seq<char>>)
    ensures
        peers.len() == 0 ==> peer_args(peers) == Seq::<Seq<char>>::empty(),
        peers.len() > 0 ==> peer_args(peers) == seq!["--peer"@, comma_join(peers)],
{
}

/// The comma-joined value preserves input order: joining one more peer
/// appends it, after a comma when anything came before.
pub proof fn lemma_comma_join_order(peers: Seq<Seq<char>>, peer: Seq<char>)
    ensures
        peers.len() == 0 ==> comma_join(peers.push(peer)) == peer,
        peers.len() > 0 ==> comma_join(peers.push(peer)) == comma_join(peers) + seq![','] + peer,
{
    assert(peers.push(peer).drop_last() =~= peers);
    if peers.len() == 0 {
        assert(comma_join(peers.push(peer)) == peers.push(peer)[0]);
    }
}

/// The node argument list splits around the peer segment: what stands before
/// and after it never depends on the peer list.
pub proof fn lemma_node_args_peer_segment(m: NodeCtxModel)
    ensures
        node_args(m) == node_pre_peer_args(m) + peer_args(m.bootstrap_peers) + seq![
            "--rewards-address"@,
            m.rewards_address,
        ] + network_args(m.evm_network),
{
}

/// EVM branching, named side: a named network contributes exactly one
/// trailing token to the node argument list, and no rpc, token or payments
/// flag.
pub proof fn lemma_named_network_trailing_token(m: NodeCtxModel)
    requires
        !(m.evm_network matches EvmNetworkModel::Custom { .. }),
    ensures
        node_args(m) == (node_pre_peer_args(m) + peer_args(m.bootstrap_peers) + seq![
            "--rewards-address"@,
            m.rewards_address,
        ]).push(network_token(m.evm_network)),
        node_args(m).last() == network_token(m.evm_network),
{
    assert(node_args(m) =~= (node_pre_peer_args(m) + peer_args(m.bootstrap_peers) + seq![
        "--rewards-address"@,
        m.rewards_address,
    ]).push(network_token(m.evm_network)));
}

/// EVM branching, custom side: a custom network contributes the custom token
/// followed by exactly its three flag/value pairs, in the fixed order rpc
/// url, payment token address, data payments address.
pub proof fn lemma_custom_network_args(n: EvmNetworkModel)
    requires
        n matches EvmNetworkModel::Custom { .. },
    ensures
        network_args(n) == seq![
            "evm-custom"@,
            "--rpc-url"@,
            n->Custom_rpc_url,
            "--payment-token-address"@,
            n->Custom_payment_token_address,
            "--data-payments-address"@,
            n->Custom_data_payments_address,
        ],
        network_args(n).len() == 7,
{
}

/// Fleet identities: with one requested instance the configuration carries
/// the bare base name; with more, distinct instances always carry distinct
/// names, so no two descriptors of one fleet share a label.
pub proof fn lemma_fleet_identities(m: NodeOptionsModel, count: u16, i: int, j: int)
    requires
        0 <= i < count,
        0 <= j < count,
        i != j,
    ensures
        count == 1 ==> node_instance_model(m, count, i).name == m.name,
        count > 1 ==> node_instance_model(m, count, i).name != node_instance_model(
            m,
            count,
            j,
        ).name,
        count > 1 ==> node_descriptor(node_instance_model(m, count, i)).label != node_descriptor(
            node_instance_model(m, count, j),
        ).label,
{
    lemma_instance_identities(m.name, count, i, j);
}

} // verus!
