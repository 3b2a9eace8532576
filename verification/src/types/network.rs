//! The networks that onchain data is read from.

use vstd::prelude::*;

verus! {

/// The networks that onchain data can be read from.
#[derive(Debug, Clone, Copy, PartialEq, Eq, Structural)]
pub enum Network {
    Sepolia,
    /// This is the default.
    Mainnet,
}

impl Network {
    /// The name of the network as the service spells it.
    pub open spec fn name(self) -> Seq<char> {
        match self {
            Network::Sepolia => "sepolia"@,
            Network::Mainnet => "mainnet"@,
        }
    }

    /// Returns the name of the network as the service expects it.
    pub fn as_str(&self) -> (s: &'static str)
        ensures
            s@ == self.name(),
    {
        match self {
            Network::Sepolia => "sepolia",
            Network::Mainnet => "mainnet",
        }
    }
}

impl Default for Network {
    fn default() -> (network: Self)
        ensures
            network == Network::Mainnet,
    {
        Network::Mainnet
    }
}

} // verus!
