//! The network parameter of an address and the encoding constants it fixes.

use vstd::prelude::*;

verus! {

/// The Bitcoin network an address is encoded for.
#[derive(Clone, Copy, Debug, PartialEq, Eq, Structural)]
pub enum Network {
    /// The production network.
    Main,
    /// The public test network.
    Test,
    /// A local regression-test network.
    Reg,
}

/// Version byte that prefixes a public-key hash in a legacy address.
pub open spec fn spec_p2pkh_version(network: Network) -> u8 {
    match network {
        Network::Main => 0x00,
        Network::Test => 0x6f,
        Network::Reg => 0x6f,
    }
}

/// Version byte that prefixes a script hash in a legacy address.
pub open spec fn spec_p2sh_version(network: Network) -> u8 {
    match network {
        Network::Main => 0x05,
        Network::Test => 0xc4,
        Network::Reg => 0xc4,
    }
}

/// Human-readable prefix of segwit addresses on this network.
pub open spec fn spec_hrp(network: Network) -> Seq<char> {
    match network {
        Network::Main => "bc"@,
        Network::Test => "tb"@,
        Network::Reg => "bcrt"@,
    }
}

impl Network {
    /// Version byte for pay-to-public-key-hash addresses.
    pub fn p2pkh_version(self) -> (r: u8)
        ensures
            r == spec_p2pkh_version(self),
    {
        match self {
            Network::Main => 0x00,
            Network::Test => 0x6f,
            Network::Reg => 0x6f,
        }
    }

    /// Version byte for pay-to-script-hash addresses.
    pub fn p2sh_version(self) -> (r: u8)
        ensures
            r == spec_p2sh_version(self),
    {
        match self {
            Network::Main => 0x05,
            Network::Test => 0xc4,
            Network::Reg => 0xc4,
        }
    }

    /// Human-readable prefix for segwit addresses.
    pub fn hrp(self) -> (r: &'static str)
        ensures
            r@ == spec_hrp(self),
    {
        match self {
            Network::Main => "bc",
            Network::Test => "tb",
            Network::Reg => "bcrt",
        }
    }
}

} // verus!
