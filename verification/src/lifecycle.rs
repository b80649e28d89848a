//! The Ethereum network that a client talks to.

use crate::text::push_decimal;
use vstd::prelude::*;

verus! {

/// The chain id of the Ethereum mainnet.
pub const MAINNET_CHAIN_ID: u64 = 1;

/// The chain id of the Sepolia test network.
pub const SEPOLIA_CHAIN_ID: u64 = 11155111;

/// An EVM network, by its chain id.
#[derive(Clone, Copy, Debug, PartialEq, Eq, Hash, Structural)]
pub struct EthereumNetwork(pub u64);

impl EthereumNetwork {
    /// The Ethereum mainnet.
    pub fn mainnet() -> (network: EthereumNetwork)
        ensures
            network == EthereumNetwork(MAINNET_CHAIN_ID),
            network.0 == 1,
    {
        EthereumNetwork(MAINNET_CHAIN_ID)
    }

    /// The Sepolia test network.
    pub fn sepolia() -> (network: EthereumNetwork)
        ensures
            network == EthereumNetwork(SEPOLIA_CHAIN_ID),
            network.0 == 11155111,
    {
        EthereumNetwork(SEPOLIA_CHAIN_ID)
    }

    /// The chain id of the network.
    pub fn chain_id(&self) -> (id: u64)
        ensures
            id == self.0,
    {
        self.0
    }

    /// The name that the network is shown under.
    pub open spec fn name(self) -> Seq<char> {
        if self.0 == MAINNET_CHAIN_ID {
            "Ethereum Mainnet"@
        } else if self.0 == SEPOLIA_CHAIN_ID {
            "Ethereum Testnet Sepolia"@
        } else {
            "Unknown Network ("@ + crate::text::decimal(self.0 as nat) + ")"@
        }
    }

    /// The network as it is shown to a reader: by its name, or by its chain id
    /// where it has none.
    pub fn display(&self) -> (shown: String)
        ensures
            shown@ == self.name(),
            self.0 == 1 ==> shown@ == "Ethereum Mainnet"@,
            self.0 == 11155111 ==> shown@ == "Ethereum Testnet Sepolia"@,
            self.0 != 1 && self.0 != 11155111 ==> shown@ == "Unknown Network ("@
                + crate::text::decimal(self.0 as nat) + ")"@,
    {
        if self.0 == MAINNET_CHAIN_ID {
            "Ethereum Mainnet".to_owned()
        } else if self.0 == SEPOLIA_CHAIN_ID {
            "Ethereum Testnet Sepolia".to_owned()
        } else {
            let mut shown = "Unknown Network (".to_owned();
            push_decimal(&mut shown, self.0);
            shown.append(")");
            shown
        }
    }
}

impl Default for EthereumNetwork {
    /// The network with chain id zero, which is none of the known ones.
    fn default() -> (network: Self)
        ensures
            network == EthereumNetwork(0),
    {
        EthereumNetwork(0)
    }
}

/// What a client reads of the state of the system that it works for.
#[derive(Clone, Copy, Debug, PartialEq, Eq)]
pub struct State {
    /// The network that the system is connected to.
    pub ethereum_network: EthereumNetwork,
}

impl State {
    /// The network that the system is connected to.
    pub fn ethereum_network(&self) -> (network: EthereumNetwork)
        ensures
            network == self.ethereum_network,
    {
        self.ethereum_network
    }
}

/// Different networks are shown under different names.
pub proof fn law_name_injective(a: EthereumNetwork, b: EthereumNetwork)
    requires
        a.name() == b.name(),
    ensures
        a == b,
{
    reveal_strlit("Ethereum Mainnet");
    reveal_strlit("Ethereum Testnet Sepolia");
    reveal_strlit("Unknown Network (");
    reveal_strlit(")");
    let prefix = "Unknown Network ("@;
    let da = crate::text::decimal(a.0 as nat);
    let db = crate::text::decimal(b.0 as nat);
    assert("Ethereum Mainnet"@[0] == 'E');
    assert("Ethereum Testnet Sepolia"@[0] == 'E');
    assert(prefix[0] == 'U');
    assert((prefix + da + ")"@)[0] == 'U');
    assert((prefix + db + ")"@)[0] == 'U');
    let known_a = a.0 == MAINNET_CHAIN_ID || a.0 == SEPOLIA_CHAIN_ID;
    let known_b = b.0 == MAINNET_CHAIN_ID || b.0 == SEPOLIA_CHAIN_ID;
    if known_a {
        assert(a.name()[0] == 'E');
        assert(known_b);
        assert("Ethereum Mainnet"@.len() < "Ethereum Testnet Sepolia"@.len());
        assert(a.name().len() == b.name().len());
    } else {
        assert(a.name()[0] == 'U');
        assert(!known_b);
        let n = prefix.len() as int;
        assert(a.name().subrange(n, a.name().len() - 1) =~= da);
        assert(b.name().subrange(n, b.name().len() - 1) =~= db);
        crate::text::law_decimal_injective(a.0 as nat, b.0 as nat);
    }
}

/// Mainnet and Sepolia are shown by name, and every other network by its chain
/// id in decimal notation.
pub proof fn law_name(network: EthereumNetwork)
    ensures
        network.0 == 1 ==> network.name() == "Ethereum Mainnet"@,
        network.0 == 11155111 ==> network.name() == "Ethereum Testnet Sepolia"@,
        network.0 != 1 && network.0 != 11155111 ==> network.name() == "Unknown Network ("@
            + crate::text::decimal(network.0 as nat) + ")"@,
{
}

} // verus!
