//! `z_importviewingkey`: adds an account that watches what a viewing key can see.

use vstd::prelude::*;
use vstd::string::*;

use crate::error;
use crate::error::{LegacyCode, RpcError};
use crate::keys;
use crate::keys::{ExtendedFullViewingKey, UnifiedFullViewingKey};
use crate::network;
use crate::network::{BlockHeight, Network};
use crate::text;

verus! {

/// Parsed `rescan` parameter for key-import RPCs.
#[derive(Clone, Copy, Debug, PartialEq, Eq, Structural)]
pub enum RescanPolicy {
    Yes,
    No,
    WhenKeyIsNew,
}

/// The policy that a `rescan` parameter names, if it names one.
pub open spec fn rescan_policy(rescan: Option<Seq<char>>) -> Option<RescanPolicy> {
    match rescan {
        None => Some(RescanPolicy::WhenKeyIsNew),
        Some(word) => if word == "whenkeyisnew"@ {
            Some(RescanPolicy::WhenKeyIsNew)
        } else if word == "yes"@ {
            Some(RescanPolicy::Yes)
        } else if word == "no"@ {
            Some(RescanPolicy::No)
        } else {
            None
        },
    }
}

/// The error for a `rescan` parameter that names no policy.
pub open spec fn invalid_rescan() -> error::RpcErrorView {
    error::rpc_text(
        LegacyCode::InvalidParameter,
        "Invalid rescan value. Must be \"yes\", \"no\", or \"whenkeyisnew\"."@,
    )
}

/// The error for a start height that is no block's.
pub open spec fn height_out_of_range() -> error::RpcErrorView {
    error::rpc_text(LegacyCode::InvalidParameter, "Block height out of range."@)
}

/// The error for a database that cannot be used.
pub open spec fn database_error(reason: Seq<char>) -> error::RpcErrorView {
    error::rpc_text(LegacyCode::Database, reason)
}

impl RescanPolicy {
    /// Parses the `rescan` parameter string.
    ///
    /// Returns the parsed policy, or an RPC error if the value is invalid.
    pub fn parse(rescan: Option<&str>) -> (r: Result<Self, RpcError>)
        ensures
            match rescan_policy(
                match rescan {
                    Some(word) => Some(word@),
                    None => None,
                },
            ) {
                Some(policy) => r matches Ok(p) && p == policy,
                None => r matches Err(e) && e@ == invalid_rescan(),
            },
    {
        match rescan {
            None => Ok(RescanPolicy::WhenKeyIsNew),
            Some(word) => {
                if text::str_eq(word, "whenkeyisnew") {
                    Ok(RescanPolicy::WhenKeyIsNew)
                } else if text::str_eq(word, "yes") {
                    Ok(RescanPolicy::Yes)
                } else if text::str_eq(word, "no") {
                    Ok(RescanPolicy::No)
                } else {
                    Err(
                        LegacyCode::InvalidParameter.with_text(
                            "Invalid rescan value. Must be \"yes\", \"no\", or \"whenkeyisnew\".",
                        ),
                    )
                }
            },
        }
    }
}

/// The error for a string that is not the viewing key it is taken for.
pub fn invalid_viewing_key(reason: &str) -> (r: RpcError)
    ensures
        r@ == error::rpc_text(LegacyCode::InvalidAddressOrKey, "Invalid viewing key: "@ + reason@),
{
    let mut message = "Invalid viewing key: ".to_owned();
    message.append(reason);
    LegacyCode::InvalidAddressOrKey.with_text(message.as_str())
}

/// Whether `r` is what a Sapling key is decoded to.
pub open spec fn vkey_decodes_to(
    hrp_fvk: Seq<char>,
    hrp_payment_address: Seq<char>,
    vkey: Seq<char>,
    r: Result<(ExtendedFullViewingKey, String), RpcError>,
) -> bool {
    match keys::viewing_key_decoding(hrp_fvk, vkey) {
        Ok(key) => {
            &&& r matches Ok((extfvk, address))
            &&& extfvk.bytes@ == key
            &&& keys::default_payment_address(key) matches Some(payment_address)
            &&& keys::payment_address_encoding(hrp_payment_address, payment_address) == Some(
                address@,
            )
        },
        Err(reason) => r matches Err(e) && e@ == error::rpc_text(
            LegacyCode::InvalidAddressOrKey,
            "Invalid viewing key: "@ + reason,
        ),
    }
}

/// Whether `r` is the key that `vkey` is the written form of: it is written as `vkey` again, and
/// it comes with the default payment address of `key`.
pub open spec fn decodes_back_to(
    hrp_fvk: Seq<char>,
    hrp_payment_address: Seq<char>,
    vkey: Seq<char>,
    key: Seq<u8>,
    r: Result<(ExtendedFullViewingKey, String), RpcError>,
) -> bool {
    &&& r matches Ok((extfvk, address))
    &&& keys::viewing_key_encoding(hrp_fvk, extfvk.bytes@) == Some(vkey)
    &&& keys::default_payment_address(key) matches Some(payment_address)
    &&& keys::payment_address_encoding(hrp_payment_address, payment_address) == Some(address@)
}

/// The same string gives the same key and the same address, however often it is decoded.
pub proof fn decoding_is_repeatable(
    hrp_fvk: Seq<char>,
    hrp_payment_address: Seq<char>,
    vkey: Seq<char>,
    first: Result<(ExtendedFullViewingKey, String), RpcError>,
    second: Result<(ExtendedFullViewingKey, String), RpcError>,
)
    requires
        vkey_decodes_to(hrp_fvk, hrp_payment_address, vkey, first),
        vkey_decodes_to(hrp_fvk, hrp_payment_address, vkey, second),
    ensures
        match (first, second) {
            (Ok((key_a, address_a)), Ok((key_b, address_b))) => key_a.bytes@ == key_b.bytes@
                && address_a@ == address_b@,
            (Err(a), Err(b)) => a@ == b@,
            _ => false,
        },
{
}

/// A string that can be a Sapling key of one network cannot be one of another.
pub proof fn sapling_keys_belong_to_one_network(a: Network, b: Network, vkey: Seq<char>)
    requires
        text::has_prefix(vkey, network::viewing_key_prefix(a).push('1')),
        text::has_prefix(vkey, network::viewing_key_prefix(b).push('1')),
    ensures
        a == b,
{
    reveal_strlit("zxviews");
    reveal_strlit("zxviewtestsapling");
    reveal_strlit("zxviewregtestsapling");
    let prefix_a = network::viewing_key_prefix(a).push('1');
    let prefix_b = network::viewing_key_prefix(b).push('1');
    assert(prefix_a[6] == vkey.subrange(0, prefix_a.len() as int)[6] == vkey[6]);
    assert(prefix_b[6] == vkey.subrange(0, prefix_b.len() as int)[6] == vkey[6]);
}

/// Decodes a Sapling extended full viewing key and derives the default payment address.
///
/// Returns the decoded extended full viewing key and the encoded payment address string. A
/// string that a key was written as gives that key back.
pub fn decode_vkey_and_address(hrp_fvk: &str, hrp_payment_address: &str, vkey: &str) -> (r: Result<
    (ExtendedFullViewingKey, String),
    RpcError,
>)
    requires
        hrp_payment_address.spec_bytes().len() <= keys::MAX_PREFIX_BYTES,
    ensures
        vkey_decodes_to(hrp_fvk@, hrp_payment_address@, vkey@, r),
        r is Ok ==> text::has_prefix(vkey@, hrp_fvk@.push('1')),
        forall|key: Seq<u8>|
            keys::is_writable_prefix(hrp_fvk@) && #[trigger] keys::viewing_key_encoding(
                hrp_fvk@,
                key,
            ) == Some(vkey@) ==> decodes_back_to(hrp_fvk@, hrp_payment_address@, vkey@, key, r),
        r matches Ok((_, address)) ==> (keys::is_lower_case_prefix(hrp_payment_address@)
            ==> text::has_prefix(address@, hrp_payment_address@.push('1'))),
{
    let key = match keys::decode_extended_full_viewing_key(hrp_fvk, vkey) {
        Ok(key) => key,
        Err(reason) => return Err(invalid_viewing_key(reason.as_str())),
    };
    let payment_address = keys::default_address(&key);
    let address = keys::encode_payment_address(hrp_payment_address, &payment_address);
    Ok((ExtendedFullViewingKey { bytes: key }, address))
}

/// Decodes a unified full viewing key and derives its default address.
pub fn decode_unified_vkey_and_address(network: Network, vkey: &str) -> (r: Result<
    (UnifiedFullViewingKey, String),
    RpcError,
>)
    ensures
        match keys::unified_key_decoding(network, vkey@) {
            Ok(key) => match keys::unified_key_address(network, key) {
                Ok(default_address) => r matches Ok((ufvk, address)) && ufvk.encoding@ == key
                    && address@ == default_address,
                Err(reason) => r matches Err(e) && e@ == error::rpc_text(
                    LegacyCode::InvalidAddressOrKey,
                    reason,
                ),
            },
            Err(reason) => r matches Err(e) && e@ == error::rpc_text(
                LegacyCode::InvalidAddressOrKey,
                "Invalid viewing key: "@ + reason,
            ),
        },
{
    let key = match keys::decode_unified_key(network, vkey) {
        Ok(key) => key,
        Err(reason) => return Err(invalid_viewing_key(reason.as_str())),
    };
    let address = keys::unified_default_address(network, key.as_str());
    unified_vkey_with_address(key, address)
}

/// Goes on with a unified key that is decoded and what came of deriving its default address.
pub fn unified_vkey_with_address(key: String, address: Result<String, String>) -> (r: Result<
    (UnifiedFullViewingKey, String),
    RpcError,
>)
    ensures
        match address {
            Ok(derived) => r matches Ok((ufvk, own)) && ufvk.encoding@ == key@ && own@ == derived@,
            Err(reason) => r matches Err(e) && e@ == error::rpc_text(
                LegacyCode::InvalidAddressOrKey,
                reason@,
            ),
        },
{
    match address {
        Ok(address) => Ok((UnifiedFullViewingKey { encoding: key }, address)),
        Err(reason) => Err(LegacyCode::InvalidAddressOrKey.with_text(reason.as_str())),
    }
}

/// The kinds of address that an imported key stands for.
#[derive(Clone, Copy, Debug, PartialEq, Eq, Structural)]
pub enum AddressType {
    Sapling,
    Unified,
}

/// The name of a kind of address.
pub open spec fn type_label(address_type: AddressType) -> Seq<char> {
    match address_type {
        AddressType::Sapling => "sapling"@,
        AddressType::Unified => "unified"@,
    }
}

impl AddressType {
    /// The name of this kind of address.
    pub fn name(self) -> (r: &'static str)
        ensures
            r@ == type_label(self),
    {
        match self {
            AddressType::Sapling => "sapling",
            AddressType::Unified => "unified",
        }
    }
}

/// A key to import.
#[derive(Debug, PartialEq, Eq)]
pub struct ImportKey {
    /// The key.
    pub ufvk: UnifiedFullViewingKey,
    /// The kind of the key's default address.
    pub address_type: AddressType,
    /// The key's default address.
    pub address: String,
}

/// What an [`ImportKey`] says.
pub ghost struct ImportKeyView {
    pub ufvk: Seq<char>,
    pub address_type: AddressType,
    pub address: Seq<char>,
}

impl View for ImportKey {
    type V = ImportKeyView;

    open spec fn view(&self) -> ImportKeyView {
        ImportKeyView {
            ufvk: self.ufvk.encoding@,
            address_type: self.address_type,
            address: self.address@,
        }
    }
}

/// Whether a string is taken for a unified key, not for a Sapling key.
pub open spec fn is_unified(vkey: Seq<char>) -> bool {
    text::has_prefix(vkey, "uview"@)
}

/// The key that a string stands for on `network`, or the error that it is answered with.
pub open spec fn import_key(network: Network, vkey: Seq<char>) -> Result<
    ImportKeyView,
    error::RpcErrorView,
> {
    if is_unified(vkey) {
        match keys::unified_key_decoding(network, vkey) {
            Err(reason) => Err(
                error::rpc_text(
                    LegacyCode::InvalidAddressOrKey,
                    "Invalid viewing key: "@ + reason,
                ),
            ),
            Ok(key) => match keys::unified_key_address(network, key) {
                Err(reason) => Err(error::rpc_text(LegacyCode::InvalidAddressOrKey, reason)),
                Ok(address) => Ok(
                    ImportKeyView { ufvk: key, address_type: AddressType::Unified, address },
                ),
            },
        }
    } else {
        match keys::viewing_key_decoding(network::viewing_key_prefix(network), vkey) {
            Err(reason) => Err(
                error::rpc_text(
                    LegacyCode::InvalidAddressOrKey,
                    "Invalid viewing key: "@ + reason,
                ),
            ),
            Ok(key) => match keys::sapling_unified_key(network, key) {
                Err(reason) => Err(error::rpc_text(LegacyCode::Wallet, reason)),
                Ok(ufvk) => Ok(
                    ImportKeyView {
                        ufvk,
                        address_type: AddressType::Sapling,
                        address: keys::payment_address_encoding(
                            network::payment_address_prefix(network),
                            keys::default_payment_address(key)->0,
                        )->0,
                    },
                ),
            },
        }
    }
}

/// The prefixes of payment addresses are not too long, and are in lower case.
proof fn lemma_payment_address_prefix(network: Network)
    ensures
        vstd::utf8::encode_utf8(network::payment_address_prefix(network)).len()
            <= keys::MAX_PREFIX_BYTES,
        keys::is_lower_case_prefix(network::payment_address_prefix(network)),
{
    reveal_strlit("zs");
    reveal_strlit("ztestsapling");
    reveal_strlit("zregtestsapling");
    vstd::utf8::is_ascii_chars_encode_utf8(network::payment_address_prefix(network));
}

impl ImportKey {
    /// Decodes a viewing key: a unified one if the string begins like one, else a Sapling one.
    ///
    /// A Sapling key is accepted only if it is one of the network's, and it has a Sapling
    /// address of the network.
    pub fn decode(network: Network, vkey: &str) -> (r: Result<Self, RpcError>)
        ensures
            match import_key(network, vkey@) {
                Ok(key) => r matches Ok(decoded) && decoded@ == key,
                Err(error) => r matches Err(e) && e@ == error,
            },
            r matches Ok(decoded) ==> (decoded.address_type == AddressType::Unified <==> is_unified(
                vkey@,
            )),
            r matches Ok(decoded) ==> (decoded.address_type == AddressType::Sapling
                ==> text::has_prefix(
                decoded.address@,
                network::payment_address_prefix(network).push('1'),
            ) && text::has_prefix(vkey@, network::viewing_key_prefix(network).push('1'))),
    {
        if text::starts_with(vkey, "uview") {
            match decode_unified_vkey_and_address(network, vkey) {
                Ok((ufvk, address)) => Ok(
                    ImportKey { ufvk, address_type: AddressType::Unified, address },
                ),
                Err(error) => Err(error),
            }
        } else {
            let hrp_fvk = network::hrp_sapling_extended_full_viewing_key(network);
            let hrp_payment_address = network::hrp_sapling_payment_address(network);
            proof {
                lemma_payment_address_prefix(network);
            }
            match decode_vkey_and_address(hrp_fvk, hrp_payment_address, vkey) {
                Ok((extfvk, address)) => {
                    let unified = keys::unified_key_from_sapling(network, &extfvk.bytes);
                    ImportKey::sapling(address, unified)
                },
                Err(error) => Err(error),
            }
        }
    }

    /// Goes on with a Sapling key that is decoded, its default address, and what came of making
    /// it a unified key.
    pub fn sapling(address: String, unified: Result<String, String>) -> (r: Result<Self, RpcError>)
        ensures
            match unified {
                Ok(encoding) => r matches Ok(key) && key.ufvk.encoding == encoding
                    && key.address_type == AddressType::Sapling && key.address == address,
                Err(reason) => r matches Err(e) && e@ == error::rpc_text(
                    LegacyCode::Wallet,
                    reason@,
                ),
            },
    {
        match unified {
            Ok(encoding) => Ok(
                ImportKey {
                    ufvk: UnifiedFullViewingKey { encoding },
                    address_type: AddressType::Sapling,
                    address,
                },
            ),
            Err(reason) => Err(LegacyCode::Wallet.with_text(reason.as_str())),
        }
    }
}

/// Result of importing a viewing key.
#[derive(Clone, Debug, PartialEq, Eq)]
pub struct ResultType {
    /// The type of the imported address ("sapling" or "unified").
    pub address_type: String,
    /// The default address corresponding to the imported viewing key.
    pub address: String,
}

impl ResultType {
    /// Whether this is the result for `key`.
    pub open spec fn is_for(self, key: ImportKeyView) -> bool {
        self.address_type@ == type_label(key.address_type) && self.address@ == key.address
    }
}

/// What an account of the wallet is for.
#[derive(Clone, Copy, Debug, PartialEq, Eq, Structural)]
pub enum AccountPurpose {
    /// The wallet holds the account's spending key.
    Spending,
    /// The wallet can only see the account's funds.
    ViewOnly,
}

/// An account that is added to the wallet.
#[derive(Debug, PartialEq, Eq)]
pub struct NewAccount {
    /// The account's name.
    pub name: String,
    /// The account's key.
    pub ufvk: UnifiedFullViewingKey,
    /// The height of the account's birthday.
    pub birthday_height: BlockHeight,
    /// What the account is for.
    pub purpose: AccountPurpose,
}

/// The parameters of a call, apart from the key.
#[derive(Clone, Copy, Debug, PartialEq, Eq)]
pub struct ImportRequest {
    /// What to do about the past.
    pub rescan: RescanPolicy,
    /// The height to look for transactions from, if it was given.
    pub start_height: Option<BlockHeight>,
}

/// The start height that a parameter stands for, if it can be a block's height.
pub open spec fn parsed_start_height(start_height: Option<u64>) -> Option<Option<BlockHeight>> {
    match start_height {
        None => Some(None),
        Some(height) => if height <= u32::MAX {
            Some(Some(BlockHeight(height as u32)))
        } else {
            None
        },
    }
}

/// A call whose start height the chain has.
pub struct ImportRange {
    request: ImportRequest,
    chain_tip: Option<BlockHeight>,
}

/// A call that waits for whether the wallet knows the key.
pub struct KeyLookup {
    range: ImportRange,
    key: ImportKey,
}

/// What follows on looking for the key.
pub enum ImportStep {
    /// The key is known; this is the answer.
    Known(ResultType),
    /// The account is added.
    Create(NewAccount, AccountCreation),
}

/// A call that waits until its account is added.
pub struct AccountCreation {
    result: ResultType,
}

/// The height from which transactions are looked for. With a rescan it is the start height, or
/// that of the first block if none is given. Without a rescan it is that of the chain's tip, or
/// of the first block where the tip is not known; a start height is of no account.
pub open spec fn effective_height(
    request: ImportRequest,
    chain_tip: Option<BlockHeight>,
) -> BlockHeight {
    match (request.rescan, request.start_height, chain_tip) {
        (RescanPolicy::No, _, Some(tip)) => tip,
        (RescanPolicy::No, _, None) => BlockHeight(0),
        (_, Some(height), _) => height,
        (_, None, _) => BlockHeight(0),
    }
}

/// Whether the chain has a block at the start height, as far as the tip is known.
pub open spec fn start_is_on_chain(
    start_height: Option<BlockHeight>,
    chain_tip: Option<BlockHeight>,
) -> bool {
    match (start_height, chain_tip) {
        (Some(height), Some(tip)) => height.0 <= tip.0,
        _ => true,
    }
}

/// Transactions are never looked for from above the chain's tip, where the tip is known.
pub proof fn import_starts_on_the_chain(request: ImportRequest, chain_tip: BlockHeight)
    requires
        start_is_on_chain(request.start_height, Some(chain_tip)),
    ensures
        effective_height(request, Some(chain_tip)).0 <= chain_tip.0,
{
}

/// Without a rescan the start height makes no difference.
pub proof fn start_height_counts_only_with_a_rescan(
    first: Option<BlockHeight>,
    second: Option<BlockHeight>,
    chain_tip: Option<BlockHeight>,
)
    ensures
        effective_height(
            ImportRequest { rescan: RescanPolicy::No, start_height: first },
            chain_tip,
        ) == effective_height(
            ImportRequest { rescan: RescanPolicy::No, start_height: second },
            chain_tip,
        ),
{
}

/// An account that is new to the wallet is searched for from the first block on, unless the
/// caller gives a start height or asks for no rescan.
pub proof fn new_keys_are_searched_for_from_the_first_block(
    rescan: Option<Seq<char>>,
    chain_tip: Option<BlockHeight>,
)
    requires
        rescan_policy(rescan) is Some,
        rescan != Some("no"@),
    ensures
        effective_height(
            ImportRequest { rescan: rescan_policy(rescan)->0, start_height: None },
            chain_tip,
        ) == BlockHeight(0),
{
    reveal_strlit("no");
    reveal_strlit("whenkeyisnew");
    reveal_strlit("yes");
}

impl ImportRequest {
    /// Parses the parameters: the rescan policy first, then the start height.
    pub fn parse(rescan: Option<&str>, start_height: Option<u64>) -> (r: Result<Self, RpcError>)
        ensures
            match (
                rescan_policy(
                    match rescan {
                        Some(word) => Some(word@),
                        None => None,
                    },
                ),
                parsed_start_height(start_height),
            ) {
                (None, _) => r matches Err(e) && e@ == invalid_rescan(),
                (Some(_), None) => r matches Err(e) && e@ == height_out_of_range(),
                (Some(policy), Some(height)) => r matches Ok(request) && request == (
                ImportRequest { rescan: policy, start_height: height }),
            },
    {
        let rescan = match RescanPolicy::parse(rescan) {
            Ok(rescan) => rescan,
            Err(error) => return Err(error),
        };
        let start_height = match start_height {
            None => None,
            Some(height) => {
                if height > u32::MAX as u64 {
                    return Err(
                        LegacyCode::InvalidParameter.with_text("Block height out of range."),
                    );
                }
                Some(BlockHeight(height as u32))
            },
        };
        Ok(ImportRequest { rescan, start_height })
    }

    /// The wallet told the chain's tip, as far as it knows it, or why it cannot.
    pub fn chain_tip(self, chain_tip: Result<Option<BlockHeight>, String>) -> (r: Result<
        ImportRange,
        RpcError,
    >)
        ensures
            match chain_tip {
                Ok(tip) => if start_is_on_chain(self.start_height, tip) {
                    r matches Ok(range) && range.request() == self && range.tip() == tip
                } else {
                    r matches Err(e) && e@ == height_out_of_range()
                },
                Err(reason) => r matches Err(e) && e@ == database_error(reason@),
            },
    {
        let chain_tip = match LegacyCode::Database.or_text(chain_tip) {
            Ok(chain_tip) => chain_tip,
            Err(error) => return Err(error),
        };
        if let (Some(height), Some(tip)) = (self.start_height, chain_tip) {
            if height.0 > tip.0 {
                return Err(LegacyCode::InvalidParameter.with_text("Block height out of range."));
            }
        }
        Ok(ImportRange { request: self, chain_tip })
    }
}

impl ImportRange {
    pub closed spec fn request(self) -> ImportRequest {
        self.request
    }

    pub closed spec fn tip(self) -> Option<BlockHeight> {
        self.chain_tip
    }

    #[verifier::type_invariant]
    spec fn inv(self) -> bool {
        start_is_on_chain(self.request.start_height, self.chain_tip)
    }

    /// Decodes the viewing key.
    pub fn decode(self, network: Network, vkey: &str) -> (r: Result<KeyLookup, RpcError>)
        ensures
            match import_key(network, vkey@) {
                Ok(key) => r matches Ok(lookup) && lookup.range() == self && lookup.import_key()@
                    == key,
                Err(error) => r matches Err(e) && e@ == error,
            },
    {
        match ImportKey::decode(network, vkey) {
            Ok(key) => Ok(self.with_key(key)),
            Err(error) => Err(error),
        }
    }

    /// Goes on with a key that is decoded.
    pub fn with_key(self, key: ImportKey) -> (r: KeyLookup)
        ensures
            r.range() == self,
            r.import_key() == key,
    {
        KeyLookup { range: self, key }
    }
}

impl KeyLookup {
    pub closed spec fn range(self) -> ImportRange {
        self.range
    }

    pub closed spec fn import_key(self) -> ImportKey {
        self.key
    }

    /// The key to look for in the wallet.
    pub fn ufvk(&self) -> (r: &UnifiedFullViewingKey)
        ensures
            *r == self.import_key().ufvk,
    {
        &self.key.ufvk
    }

    /// The wallet told what the account with this key is for, if it has one, or why it cannot.
    pub fn found(self, existing: Result<Option<AccountPurpose>, String>) -> (r: Result<
        ImportStep,
        RpcError,
    >)
        ensures
            start_is_on_chain(self.range().request().start_height, self.range().tip()),
            match existing {
                Err(reason) => r matches Err(e) && e@ == database_error(reason@),
                Ok(Some(AccountPurpose::Spending)) => r matches Err(e) && e@ == error::rpc_text(
                    LegacyCode::Wallet,
                    "The wallet already contains the private key for this viewing key (address: "@
                        + self.import_key().address@ + ")"@,
                ),
                Ok(Some(AccountPurpose::ViewOnly)) => r matches Ok(ImportStep::Known(result))
                    && result.is_for(self.import_key()@),
                Ok(None) => {
                    &&& r matches Ok(ImportStep::Create(account, created))
                    &&& created.result().is_for(self.import_key()@)
                    &&& account.name@ == "Imported "@ + type_label(self.import_key().address_type)
                        + " viewing key "@ + self.import_key().address@
                    &&& account.ufvk.encoding@ == self.import_key().ufvk.encoding@
                    &&& account.birthday_height == effective_height(
                        self.range().request(),
                        self.range().tip(),
                    )
                    &&& account.purpose == AccountPurpose::ViewOnly
                },
            },
    {
        proof {
            use_type_invariant(&self.range);
        }
        let KeyLookup { range, key } = self;
        let existing = match LegacyCode::Database.or_text(existing) {
            Ok(existing) => existing,
            Err(error) => return Err(error),
        };
        match existing {
            Some(AccountPurpose::Spending) => {
                let mut message =
                    "The wallet already contains the private key for this viewing key (address: ".to_owned();
                message.append(key.address.as_str());
                message.append(")");
                Err(LegacyCode::Wallet.with_text(message.as_str()))
            },
            Some(AccountPurpose::ViewOnly) => Ok(
                ImportStep::Known(
                    ResultType {
                        address_type: key.address_type.name().to_owned(),
                        address: key.address,
                    },
                ),
            ),
            None => {
                let birthday_height = match range.request.rescan {
                    RescanPolicy::Yes | RescanPolicy::WhenKeyIsNew => {
                        match range.request.start_height {
                            Some(height) => height,
                            None => BlockHeight(0),
                        }
                    },
                    RescanPolicy::No => match range.chain_tip {
                        Some(tip) => tip,
                        None => BlockHeight(0),
                    },
                };
                let mut name = "Imported ".to_owned();
                name.append(key.address_type.name());
                name.append(" viewing key ");
                name.append(key.address.as_str());
                Ok(
                    ImportStep::Create(
                        NewAccount {
                            name,
                            ufvk: key.ufvk,
                            birthday_height,
                            purpose: AccountPurpose::ViewOnly,
                        },
                        AccountCreation {
                            result: ResultType {
                                address_type: key.address_type.name().to_owned(),
                                address: key.address,
                            },
                        },
                    ),
                )
            },
        }
    }
}

impl AccountCreation {
    pub closed spec fn result(self) -> ResultType {
        self.result
    }

    /// The account was added to the wallet, or could not be for the given reason.
    pub fn created(self, created: Result<(), String>) -> (r: Result<ResultType, RpcError>)
        ensures
            match created {
                Ok(_) => r matches Ok(result) && result == self.result(),
                Err(reason) => r matches Err(e) && e@ == database_error(reason@),
            },
    {
        match LegacyCode::Database.or_text(created) {
            Ok(_) => Ok(self.result),
            Err(error) => Err(error),
        }
    }
}

} // verus!
