//! The providers that can be asked, and those that are asked by default.

use crate::lifecycle::{EthereumNetwork, MAINNET_CHAIN_ID, SEPOLIA_CHAIN_ID};
use vstd::prelude::*;

verus! {

/// A provider of the Ethereum mainnet.
#[derive(Clone, Copy, Debug, PartialEq, Eq, PartialOrd, Ord, Hash, Structural)]
pub enum EthMainnetService {
    Alchemy,
    Ankr,
    PublicNode,
    Cloudflare,
}

/// A provider of the Sepolia test network.
#[derive(Clone, Copy, Debug, PartialEq, Eq, PartialOrd, Ord, Hash, Structural)]
pub enum EthSepoliaService {
    Alchemy,
    Ankr,
    BlockPi,
    PublicNode,
}

/// A JSON-RPC provider.
#[derive(Clone, Copy, Debug, PartialEq, Eq, PartialOrd, Ord, Hash, Structural)]
pub enum RpcService {
    EthMainnet(EthMainnetService),
    EthSepolia(EthSepoliaService),
}

impl RpcService {
    /// The network that the provider serves.
    pub open spec fn network(self) -> EthereumNetwork {
        match self {
            RpcService::EthMainnet(_) => EthereumNetwork(MAINNET_CHAIN_ID),
            RpcService::EthSepolia(_) => EthereumNetwork(SEPOLIA_CHAIN_ID),
        }
    }
}

/// The providers that are asked about `network` where a client names none.
pub open spec fn default_services(network: EthereumNetwork) -> Seq<RpcService> {
    if network.0 == MAINNET_CHAIN_ID {
        seq![
            RpcService::EthMainnet(EthMainnetService::Alchemy),
            RpcService::EthMainnet(EthMainnetService::Ankr),
            RpcService::EthMainnet(EthMainnetService::PublicNode),
            RpcService::EthMainnet(EthMainnetService::Cloudflare),
        ]
    } else if network.0 == SEPOLIA_CHAIN_ID {
        seq![
            RpcService::EthSepolia(EthSepoliaService::Alchemy),
            RpcService::EthSepolia(EthSepoliaService::Ankr),
            RpcService::EthSepolia(EthSepoliaService::BlockPi),
            RpcService::EthSepolia(EthSepoliaService::PublicNode),
        ]
    } else {
        Seq::empty()
    }
}

/// The providers of the Ethereum mainnet that are asked by default.
pub fn mainnet_providers() -> (services: Vec<RpcService>)
    ensures
        services@ == default_services(EthereumNetwork(MAINNET_CHAIN_ID)),
        services@ == seq![
            RpcService::EthMainnet(EthMainnetService::Alchemy),
            RpcService::EthMainnet(EthMainnetService::Ankr),
            RpcService::EthMainnet(EthMainnetService::PublicNode),
            RpcService::EthMainnet(EthMainnetService::Cloudflare),
        ],
{
    vec![
        RpcService::EthMainnet(EthMainnetService::Alchemy),
        RpcService::EthMainnet(EthMainnetService::Ankr),
        RpcService::EthMainnet(EthMainnetService::PublicNode),
        RpcService::EthMainnet(EthMainnetService::Cloudflare),
    ]
}

/// The providers of the Sepolia test network that are asked by default.
pub fn sepolia_providers() -> (services: Vec<RpcService>)
    ensures
        services@ == default_services(EthereumNetwork(SEPOLIA_CHAIN_ID)),
        services@ == seq![
            RpcService::EthSepolia(EthSepoliaService::Alchemy),
            RpcService::EthSepolia(EthSepoliaService::Ankr),
            RpcService::EthSepolia(EthSepoliaService::BlockPi),
            RpcService::EthSepolia(EthSepoliaService::PublicNode),
        ],
{
    vec![
        RpcService::EthSepolia(EthSepoliaService::Alchemy),
        RpcService::EthSepolia(EthSepoliaService::Ankr),
        RpcService::EthSepolia(EthSepoliaService::BlockPi),
        RpcService::EthSepolia(EthSepoliaService::PublicNode),
    ]
}

/// The providers of any other network that are asked by default: none.
pub fn unknown_providers() -> (services: Vec<RpcService>)
    ensures
        services@ == Seq::<RpcService>::empty(),
{
    Vec::new()
}

/// The default providers of a network serve that network, and none of them is
/// listed twice.
pub proof fn law_default_services(network: EthereumNetwork)
    ensures
        default_services(network).no_duplicates(),
        forall|i: int|
            0 <= i < default_services(network).len() ==> (
            #[trigger] default_services(network)[i]).network() == network,
        default_services(network).len() > 0 <==> network.0 == MAINNET_CHAIN_ID || network.0
            == SEPOLIA_CHAIN_ID,
{
}

/// The default providers by name, in the order in which they are asked.
pub proof fn law_default_services_by_name(network: EthereumNetwork)
    ensures
        network.0 == 1 ==> default_services(network) == seq![
            RpcService::EthMainnet(EthMainnetService::Alchemy),
            RpcService::EthMainnet(EthMainnetService::Ankr),
            RpcService::EthMainnet(EthMainnetService::PublicNode),
            RpcService::EthMainnet(EthMainnetService::Cloudflare),
        ],
        network.0 == 11155111 ==> default_services(network) == seq![
            RpcService::EthSepolia(EthSepoliaService::Alchemy),
            RpcService::EthSepolia(EthSepoliaService::Ankr),
            RpcService::EthSepolia(EthSepoliaService::BlockPi),
            RpcService::EthSepolia(EthSepoliaService::PublicNode),
        ],
        network.0 != 1 && network.0 != 11155111 ==> default_services(network).len() == 0,
{
}

/// The providers of either network serve that network.
pub proof fn law_service_network(mainnet: EthMainnetService, sepolia: EthSepoliaService)
    ensures
        RpcService::EthMainnet(mainnet).network().0 == 1,
        RpcService::EthSepolia(sepolia).network().0 == 11155111,
{
}

} // verus!
