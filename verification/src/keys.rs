//! Viewing keys and the addresses derived from them.
//!
//! Key derivation and the string encodings are `zcash_keys`' and `sapling-crypto`'s. Here a
//! Sapling key is its ZIP 32 binary encoding and a unified key is its ZIP 316 string encoding.

use vstd::prelude::*;
use vstd::string::*;
use zcash_keys::keys::{UnifiedAddressRequest, UnifiedFullViewingKey as BackendKey, UnifiedSpendingKey};
use zcash_protocol::consensus::{MAIN_NETWORK, TEST_NETWORK};
use zcash_protocol::local_consensus::LocalNetwork;

use crate::network::Network;
use crate::text;

verus! {

/// A Sapling extended full viewing key.
#[derive(Debug, PartialEq, Eq)]
pub struct ExtendedFullViewingKey {
    /// The key's ZIP 32 binary encoding.
    pub bytes: Vec<u8>,
}

/// A unified full viewing key.
#[derive(Debug, PartialEq, Eq)]
pub struct UnifiedFullViewingKey {
    /// The key's ZIP 316 string encoding on the network in use.
    pub encoding: String,
}

/// The greatest length, in bytes, of a human-readable prefix that `bech32` can write.
pub const MAX_PREFIX_BYTES: usize = 83;

/// Whether a prefix is written as it is: printable ASCII without upper-case letters.
pub open spec fn is_lower_case_prefix(hrp: Seq<char>) -> bool {
    forall|i: int|
        0 <= i < hrp.len() ==> ('!' <= #[trigger] hrp[i] && hrp[i] <= '~' && !('A' <= hrp[i]
            && hrp[i] <= 'Z'))
}

/// Whether a prefix is one that keys are written with and found again by: in lower case, not
/// empty and not too long.
pub open spec fn is_writable_prefix(hrp: Seq<char>) -> bool {
    is_lower_case_prefix(hrp) && 0 < hrp.len() <= MAX_PREFIX_BYTES
}

/// The string that [`encode_extended_full_viewing_key`] writes a key as, if the bytes are one.
pub uninterp spec fn viewing_key_encoding(hrp: Seq<char>, key: Seq<u8>) -> Option<Seq<char>>;

/// Calls `zcash_keys::encoding::encode_extended_full_viewing_key`.
///
/// Claimed: the string depends on the prefix and the key alone, and is named
/// [`viewing_key_encoding`]. There is none if the bytes are not the binary encoding of a key.
#[verifier::external_body]
fn encode_extended_full_viewing_key(hrp: &str, key: &Vec<u8>) -> (text: Option<String>)
    requires
        hrp.spec_bytes().len() <= MAX_PREFIX_BYTES,
    ensures
        match text {
            Some(text) => viewing_key_encoding(hrp@, key@) == Some(text@),
            None => viewing_key_encoding(hrp@, key@) is None,
        },
{
    let key = sapling_crypto::zip32::ExtendedFullViewingKey::read(&key[..]).ok()?;
    Some(zcash_keys::encoding::encode_extended_full_viewing_key(hrp, &key))
}

impl ExtendedFullViewingKey {
    /// The string that the key is written as, if the bytes are those of a key.
    pub fn encode(&self, hrp: &str) -> (text: Option<String>)
        requires
            hrp.spec_bytes().len() <= MAX_PREFIX_BYTES,
        ensures
            match text {
                Some(text) => viewing_key_encoding(hrp@, self.bytes@) == Some(text@),
                None => viewing_key_encoding(hrp@, self.bytes@) is None,
            },
    {
        encode_extended_full_viewing_key(hrp, &self.bytes)
    }
}

/// The key, or the error text, that [`decode_extended_full_viewing_key`] gives for a string.
pub uninterp spec fn viewing_key_decoding(hrp: Seq<char>, text: Seq<char>) -> Result<
    Seq<u8>,
    Seq<char>,
>;

/// The default payment address of the key with the given encoding, if it encodes a key.
pub uninterp spec fn default_payment_address(key: Seq<u8>) -> Option<Seq<u8>>;

/// The string that [`encode_payment_address`] writes an address as, if the bytes are one.
pub uninterp spec fn payment_address_encoding(hrp: Seq<char>, address: Seq<u8>) -> Option<
    Seq<char>,
>;

/// Whether `r` is a key that is written as `vkey` again, and that has the default payment address
/// of every key written as `vkey`, if there is a key that is written so.
pub open spec fn written_keys_are_found(
    hrp: Seq<char>,
    vkey: Seq<char>,
    r: Result<Vec<u8>, String>,
) -> bool {
    forall|written: Seq<u8>|
        is_writable_prefix(hrp) && #[trigger] viewing_key_encoding(hrp, written) == Some(vkey)
            ==> (r matches Ok(key) && viewing_key_encoding(hrp, key@) == Some(vkey)
            && default_payment_address(written) == default_payment_address(key@))
}

/// Calls `zcash_keys::encoding::decode_extended_full_viewing_key`.
///
/// Claimed: the result depends on the prefix and the string alone, and is named
/// [`viewing_key_decoding`]; a key that is decoded has a default payment address, which the
/// crate takes for granted as no key is known that all 2^88 diversifiers are invalid for; a
/// string that is decoded begins with the prefix and the separator `1`; a string that a key was
/// written as with this prefix is decoded, to a key that is written as that string again and
/// has the same default payment address. The key is handed out in its binary encoding, an error
/// as its text.
#[verifier::external_body]
pub(crate) fn decode_extended_full_viewing_key(hrp: &str, vkey: &str) -> (r: Result<
    Vec<u8>,
    String,
>)
    ensures
        match r {
            Ok(key) => viewing_key_decoding(hrp@, vkey@) == Ok::<Seq<u8>, Seq<char>>(key@)
                && default_payment_address(key@) is Some && text::has_prefix(
                vkey@,
                hrp@.push('1'),
            ),
            Err(reason) => viewing_key_decoding(hrp@, vkey@) == Err::<Seq<u8>, Seq<char>>(reason@),
        },
        written_keys_are_found(hrp@, vkey@, r),
{
    let mut bytes: Vec<u8> = vec![];
    match zcash_keys::encoding::decode_extended_full_viewing_key(hrp, vkey) {
        Ok(key) => key.write(&mut bytes).map(|_| bytes).map_err(|e| e.to_string()),
        Err(e) => Err(e.to_string()),
    }
}

/// Calls `sapling_crypto::zip32::ExtendedFullViewingKey::default_address`.
///
/// Claimed: the address depends on the key alone, and is named [`default_payment_address`];
/// it can be written with any prefix that is not too long.
#[verifier::external_body]
pub(crate) fn default_address(key: &Vec<u8>) -> (address: Vec<u8>)
    requires
        default_payment_address(key@) is Some,
    ensures
        default_payment_address(key@) == Some(address@),
        forall|hrp: &str|
            hrp.spec_bytes().len() <= MAX_PREFIX_BYTES ==> (#[trigger] payment_address_encoding(
                hrp@,
                address@,
            )) is Some,
{
    let key = sapling_crypto::zip32::ExtendedFullViewingKey::read(&key[..]).unwrap();
    key.default_address().1.to_bytes().to_vec()
}

/// Calls `zcash_keys::encoding::encode_payment_address`.
///
/// Claimed: the string depends on the prefix and the address alone, and is named
/// [`payment_address_encoding`]; with a lower-case prefix it begins with that prefix and the
/// separator `1`.
#[verifier::external_body]
pub(crate) fn encode_payment_address(hrp: &str, address: &Vec<u8>) -> (text: String)
    requires
        hrp.spec_bytes().len() <= MAX_PREFIX_BYTES,
        payment_address_encoding(hrp@, address@) is Some,
    ensures
        payment_address_encoding(hrp@, address@) == Some(text@),
        is_lower_case_prefix(hrp@) ==> text::has_prefix(text@, hrp@.push('1')),
{
    let bytes: [u8; 43] = address[..].try_into().unwrap();
    let address = sapling_crypto::PaymentAddress::from_bytes(&bytes).unwrap();
    zcash_keys::encoding::encode_payment_address(hrp, &address)
}

/// The canonical encoding of the key, or the error text, that [`decode_unified_key`] gives.
pub uninterp spec fn unified_key_decoding(network: Network, text: Seq<char>) -> Result<
    Seq<char>,
    Seq<char>,
>;

/// Calls `zcash_keys::keys::UnifiedFullViewingKey::decode`.
///
/// Claimed: the result depends on the network and the string alone, and is named
/// [`unified_key_decoding`]. The key is handed out as the string that it is encoded as.
#[verifier::external_body]
pub(crate) fn decode_unified_key(network: Network, vkey: &str) -> (r: Result<String, String>)
    ensures
        match r {
            Ok(key) => unified_key_decoding(network, vkey@) == Ok::<Seq<char>, Seq<char>>(key@),
            Err(reason) => unified_key_decoding(network, vkey@) == Err::<Seq<char>, Seq<char>>(
                reason@,
            ),
        },
{
    let regtest = LocalNetwork { overwinter: None, sapling: None, blossom: None, heartwood: None, canopy: None, nu5: None, nu6: None, nu6_1: None, nu6_2: None, nu6_3: None };
    match network {
        Network::Main => BackendKey::decode(&MAIN_NETWORK, vkey).map(|key| key.encode(&MAIN_NETWORK)),
        Network::Test => BackendKey::decode(&TEST_NETWORK, vkey).map(|key| key.encode(&TEST_NETWORK)),
        Network::Regtest => BackendKey::decode(&regtest, vkey).map(|key| key.encode(&regtest)),
    }
}

/// The default address, or the error text, that [`unified_default_address`] gives for a key.
pub uninterp spec fn unified_key_address(network: Network, key: Seq<char>) -> Result<
    Seq<char>,
    Seq<char>,
>;

/// Calls `zcash_keys::keys::UnifiedFullViewingKey::default_address`, with every kind of
/// receiver allowed.
///
/// Claimed: the result depends on the network and the key alone, and is named
/// [`unified_key_address`]. The address is handed out as the string that it is encoded as.
#[verifier::external_body]
pub(crate) fn unified_default_address(network: Network, key: &str) -> (r: Result<String, String>)
    ensures
        match r {
            Ok(address) => unified_key_address(network, key@) == Ok::<Seq<char>, Seq<char>>(
                address@,
            ),
            Err(reason) => unified_key_address(network, key@) == Err::<Seq<char>, Seq<char>>(
                reason@,
            ),
        },
{
    let regtest = LocalNetwork { overwinter: None, sapling: None, blossom: None, heartwood: None, canopy: None, nu5: None, nu6: None, nu6_1: None, nu6_2: None, nu6_3: None };
    let key = match network {
        Network::Main => BackendKey::decode(&MAIN_NETWORK, key),
        Network::Test => BackendKey::decode(&TEST_NETWORK, key),
        Network::Regtest => BackendKey::decode(&regtest, key),
    };
    let (address, _) = key?.default_address(UnifiedAddressRequest::ALLOW_ALL).map_err(|e| e.to_string())?;
    match network {
        Network::Main => Ok(address.encode(&MAIN_NETWORK)),
        Network::Test => Ok(address.encode(&TEST_NETWORK)),
        Network::Regtest => Ok(address.encode(&regtest)),
    }
}

/// The unified key, or the error text, that [`unified_key_from_sapling`] gives for a key.
pub uninterp spec fn sapling_unified_key(network: Network, key: Seq<u8>) -> Result<
    Seq<char>,
    Seq<char>,
>;

/// Calls `zcash_keys::keys::UnifiedFullViewingKey::from_sapling_extended_full_viewing_key`.
///
/// Claimed: the result depends on the network and the key alone, and is named
/// [`sapling_unified_key`]. The key is handed out as the string that it is encoded as.
#[verifier::external_body]
pub(crate) fn unified_key_from_sapling(network: Network, key: &Vec<u8>) -> (r: Result<
    String,
    String,
>)
    ensures
        match r {
            Ok(unified) => sapling_unified_key(network, key@) == Ok::<Seq<char>, Seq<char>>(
                unified@,
            ),
            Err(reason) => sapling_unified_key(network, key@) == Err::<Seq<char>, Seq<char>>(
                reason@,
            ),
        },
{
    let regtest = LocalNetwork { overwinter: None, sapling: None, blossom: None, heartwood: None, canopy: None, nu5: None, nu6: None, nu6_1: None, nu6_2: None, nu6_3: None };
    let key = sapling_crypto::zip32::ExtendedFullViewingKey::read(&key[..]).map_err(|e| e.to_string())?;
    let key = BackendKey::from_sapling_extended_full_viewing_key(key).map_err(|e| e.to_string())?;
    match network {
        Network::Main => Ok(key.encode(&MAIN_NETWORK)),
        Network::Test => Ok(key.encode(&TEST_NETWORK)),
        Network::Regtest => Ok(key.encode(&regtest)),
    }
}

/// The unified key, or the error text, that [`unified_key_from_seed`] derives.
pub uninterp spec fn seed_unified_key(network: Network, seed: Seq<u8>, account: u32) -> Result<
    Seq<char>,
    Seq<char>,
>;

/// The number of account indices: they fit in 31 bits.
pub const ACCOUNT_INDICES: u32 = 0x8000_0000;

/// The index of an account below a seed.
#[derive(Clone, Copy, Debug, PartialEq, Eq)]
pub struct AccountIndex {
    index: u32,
}

impl AccountIndex {
    /// The index as a number.
    pub closed spec fn index(self) -> u32 {
        self.index
    }

    #[verifier::type_invariant]
    spec fn inv(self) -> bool {
        self.index < ACCOUNT_INDICES
    }

    /// The index with the given number, if there is one.
    pub fn from_u32(index: u32) -> (r: Option<Self>)
        ensures
            r is Some <==> index < ACCOUNT_INDICES,
            r matches Some(account) ==> account.index() == index,
    {
        if index < ACCOUNT_INDICES {
            Some(AccountIndex { index })
        } else {
            None
        }
    }

    /// The index as a number.
    pub fn into_u32(self) -> (r: u32)
        ensures
            r == self.index(),
            r < ACCOUNT_INDICES,
    {
        proof {
            use_type_invariant(&self);
        }
        self.index
    }
}

/// Calls `zcash_keys::keys::UnifiedSpendingKey::from_seed`, and
/// `UnifiedSpendingKey::to_unified_full_viewing_key` on what it derives.
///
/// Claimed: the result depends on the network, the seed and the account alone, and is named
/// [`seed_unified_key`]. The key is handed out as the string that it is encoded as.
#[verifier::external_body]
pub(crate) fn unified_key_from_seed(network: Network, seed: &Vec<u8>, account: u32) -> (r: Result<
    String,
    String,
>)
    requires
        seed@.len() >= 32,
        account < ACCOUNT_INDICES,
    ensures
        match r {
            Ok(key) => seed_unified_key(network, seed@, account) == Ok::<Seq<char>, Seq<char>>(
                key@,
            ),
            Err(reason) => seed_unified_key(network, seed@, account) == Err::<
                Seq<char>,
                Seq<char>,
            >(reason@),
        },
{
    let regtest = LocalNetwork { overwinter: None, sapling: None, blossom: None, heartwood: None, canopy: None, nu5: None, nu6: None, nu6_1: None, nu6_2: None, nu6_3: None };
    let account = zip32::AccountId::try_from(account).unwrap();
    let key = match network {
        Network::Main => UnifiedSpendingKey::from_seed(&MAIN_NETWORK, seed, account),
        Network::Test => UnifiedSpendingKey::from_seed(&TEST_NETWORK, seed, account),
        Network::Regtest => UnifiedSpendingKey::from_seed(&regtest, seed, account),
    };
    let key = key.map_err(|e| e.to_string())?.to_unified_full_viewing_key();
    match network {
        Network::Main => Ok(key.encode(&MAIN_NETWORK)),
        Network::Test => Ok(key.encode(&TEST_NETWORK)),
        Network::Regtest => Ok(key.encode(&regtest)),
    }
}

} // verus!
