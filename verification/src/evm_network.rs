//! Which EVM payment network a node batch settles against.
//!
//! A named network is one canonical trailing token on the command line. A
//! custom network is the custom token followed by three mandatory flag/value
//! pairs; the variant holds all three fields, so a partial custom selection
//! cannot be represented, and the checked constructor rejects one.

use vstd::prelude::*;
use crate::error::ProvisionError;

verus! {

/// A closed set of named public networks, or a custom network given by its
/// endpoint and its two contract addresses. The selection is fleet-level:
/// every instance of one batch shares it.
#[derive(Clone, Debug, PartialEq, Eq)]
pub enum EvmNetworkSelection {
    ArbitrumOne,
    ArbitrumSepolia,
    Custom { rpc_url: String, payment_token_address: String, data_payments_address: String },
}

/// The mathematical value of a network selection.
#[verifier::ext_equal]
pub enum EvmNetworkModel {
    ArbitrumOne,
    ArbitrumSepolia,
    Custom { rpc_url: Seq<char>, payment_token_address: Seq<char>, data_payments_address: Seq<char> },
}

impl View for EvmNetworkSelection {
    type V = EvmNetworkModel;

    open spec fn view(&self) -> EvmNetworkModel {
        match self {
            EvmNetworkSelection::ArbitrumOne => EvmNetworkModel::ArbitrumOne,
            EvmNetworkSelection::ArbitrumSepolia => EvmNetworkModel::ArbitrumSepolia,
            EvmNetworkSelection::Custom { rpc_url, payment_token_address, data_payments_address } => (
            EvmNetworkModel::Custom {
                rpc_url: rpc_url@,
                payment_token_address: payment_token_address@,
                data_payments_address: data_payments_address@,
            }),
        }
    }
}

/// The canonical token of a network selection, emitted as the last
/// positional-style argument.
pub open spec fn network_token(n: EvmNetworkModel) -> Seq<char> {
    match n {
        EvmNetworkModel::ArbitrumOne => "evm-arbitrum-one"@,
        EvmNetworkModel::ArbitrumSepolia => "evm-arbitrum-sepolia"@,
        EvmNetworkModel::Custom { .. } => "evm-custom"@,
    }
}

/// The arguments a network selection contributes: its token alone for a named
/// network; for a custom one, the token and the three flag/value pairs in
/// fixed order.
pub open spec fn network_args(n: EvmNetworkModel) -> Seq<Seq<char>> {
    match n {
        EvmNetworkModel::Custom { rpc_url, payment_token_address, data_payments_address } => seq![
            "evm-custom"@,
            "--rpc-url"@,
            rpc_url,
            "--payment-token-address"@,
            payment_token_address,
            "--data-payments-address"@,
            data_payments_address,
        ],
        _ => seq![network_token(n)],
    }
}

impl EvmNetworkSelection {
    /// Builds a custom selection; each of the three fields is mandatory, and
    /// a missing one fails the construction.
    pub fn custom(
        rpc_url: Option<String>,
        payment_token_address: Option<String>,
        data_payments_address: Option<String>,
    ) -> (r: Result<EvmNetworkSelection, ProvisionError>)
        ensures
            rpc_url is Some && payment_token_address is Some && data_payments_address is Some
                ==> (r matches Ok(n) && n@ == (EvmNetworkModel::Custom {
                rpc_url: rpc_url->0@,
                payment_token_address: payment_token_address->0@,
                data_payments_address: data_payments_address->0@,
            })),
            rpc_url is None || payment_token_address is None || data_payments_address is None
                ==> r == Err::<EvmNetworkSelection, ProvisionError>(
                ProvisionError::IncompleteCustomNetwork,
            ),
    {
        let u = match rpc_url {
            Some(u) => u,
            None => {
                return Err(ProvisionError::IncompleteCustomNetwork);
            },
        };
        let t = match payment_token_address {
            Some(t) => t,
            None => {
                return Err(ProvisionError::IncompleteCustomNetwork);
            },
        };
        let d = match data_payments_address {
            Some(d) => d,
            None => {
                return Err(ProvisionError::IncompleteCustomNetwork);
            },
        };
        Ok(
            EvmNetworkSelection::Custom {
                rpc_url: u,
                payment_token_address: t,
                data_payments_address: d,
            },
        )
    }
}

} // verus!
