//! The Zcash networks, their block heights and the constants that belong to them.

use vstd::prelude::*;
use zcash_protocol::consensus::{NetworkConstants, Parameters};

verus! {

/// A Zcash network.
#[derive(Clone, Copy, Debug, PartialEq, Eq, Structural)]
pub enum Network {
    /// The main network.
    Main,
    /// The public test network.
    Test,
    /// A private regression-test network.
    Regtest,
}

/// A block's height above the genesis block.
#[derive(Clone, Copy, Debug, PartialEq, Eq, Structural)]
pub struct BlockHeight(pub u32);

impl BlockHeight {
    /// The height with the given number.
    pub fn from_u32(height: u32) -> (r: Self)
        ensures
            r == BlockHeight(height),
    {
        BlockHeight(height)
    }

    /// The height one above this one, except that the greatest height stays as it is.
    pub fn next(self) -> (r: Self)
        ensures
            r.0 == if self.0 < u32::MAX {
                self.0 + 1
            } else {
                u32::MAX as int
            },
    {
        BlockHeight(self.0.saturating_add(1))
    }

    /// The height one below this one, except that height zero stays as it is.
    pub fn previous(self) -> (r: Self)
        ensures
            r.0 == if self.0 > 0 {
                self.0 - 1
            } else {
                0
            },
    {
        BlockHeight(self.0.saturating_sub(1))
    }
}

impl vstd::std_specs::convert::FromSpecImpl<u32> for BlockHeight {
    open spec fn obeys_from_spec() -> bool {
        true
    }

    open spec fn from_spec(height: u32) -> Self {
        BlockHeight(height)
    }
}

impl From<u32> for BlockHeight {
    fn from(height: u32) -> (r: Self) {
        BlockHeight(height)
    }
}

/// The networks that private information retrieval is offered on.
#[derive(Clone, Copy, Debug, PartialEq, Eq, Structural)]
pub enum PirNetwork {
    Main,
    Test,
}

/// The height at which NU6.3, the upgrade that opens the Ironwood pool, activates.
pub open spec fn ironwood_activation_height(network: PirNetwork) -> Option<BlockHeight> {
    match network {
        PirNetwork::Main => Some(BlockHeight(3_428_143)),
        PirNetwork::Test => Some(BlockHeight(4_134_000)),
    }
}

/// Calls `zcash_protocol::consensus::Parameters::activation_height` for NU6.3.
///
/// Claimed: the result is the height that the crate's table sets for that upgrade on the
/// given network.
#[verifier::external_body]
pub(crate) fn nu6_3_activation_height(network: PirNetwork) -> (height: Option<BlockHeight>)
    ensures
        height == ironwood_activation_height(network),
{
    let params = match network {
        PirNetwork::Main => zcash_protocol::consensus::Network::MainNetwork,
        PirNetwork::Test => zcash_protocol::consensus::Network::TestNetwork,
    };
    params
        .activation_height(zcash_protocol::consensus::NetworkUpgrade::Nu6_3)
        .map(|height| BlockHeight(u32::from(height)))
}

/// The human-readable prefix of Sapling extended full viewing keys on `network`.
pub open spec fn viewing_key_prefix(network: Network) -> Seq<char> {
    match network {
        Network::Main => "zxviews"@,
        Network::Test => "zxviewtestsapling"@,
        Network::Regtest => "zxviewregtestsapling"@,
    }
}

/// The human-readable prefix of Sapling payment addresses on `network`.
pub open spec fn payment_address_prefix(network: Network) -> Seq<char> {
    match network {
        Network::Main => "zs"@,
        Network::Test => "ztestsapling"@,
        Network::Regtest => "zregtestsapling"@,
    }
}

/// Calls `zcash_protocol::consensus::NetworkConstants::hrp_sapling_extended_full_viewing_key`.
///
/// Claimed: the result is the constant that the crate defines for the given network.
#[verifier::external_body]
pub(crate) fn hrp_sapling_extended_full_viewing_key(network: Network) -> (hrp: &'static str)
    ensures
        hrp@ == viewing_key_prefix(network),
{
    match network {
        Network::Main => zcash_protocol::consensus::NetworkType::Main,
        Network::Test => zcash_protocol::consensus::NetworkType::Test,
        Network::Regtest => zcash_protocol::consensus::NetworkType::Regtest,
    }
    .hrp_sapling_extended_full_viewing_key()
}

/// Calls `zcash_protocol::consensus::NetworkConstants::hrp_sapling_payment_address`.
///
/// Claimed: the result is the constant that the crate defines for the given network.
#[verifier::external_body]
pub(crate) fn hrp_sapling_payment_address(network: Network) -> (hrp: &'static str)
    ensures
        hrp@ == payment_address_prefix(network),
{
    match network {
        Network::Main => zcash_protocol::consensus::NetworkType::Main,
        Network::Test => zcash_protocol::consensus::NetworkType::Test,
        Network::Regtest => zcash_protocol::consensus::NetworkType::Regtest,
    }
    .hrp_sapling_payment_address()
}

} // verus!
