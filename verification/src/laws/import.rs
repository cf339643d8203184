//! Laws of `z_importviewingkey`.

use vstd::prelude::*;

use crate::error::{LegacyCode, RpcError};
use crate::import_viewing_key::{
    decode_unified_vkey_and_address, decode_vkey_and_address, invalid_viewing_key,
    unified_vkey_with_address, AccountCreation, AccountPurpose, AddressType, ImportKey, ImportRange,
    ImportRequest, ImportStep, KeyLookup, NewAccount, RescanPolicy, ResultType,
};
use crate::keys;
use crate::keys::{AccountIndex, ExtendedFullViewingKey, UnifiedFullViewingKey};
use crate::laws;
use crate::network;
use crate::network::{BlockHeight, Network};

verus! {

/// Whether a string begins with the letters u, v, i, e, w.
pub open spec fn begins_like_a_unified_key(vkey: Seq<char>) -> bool {
    vkey.len() >= 5 && vkey[0] == 'u' && vkey[1] == 'v' && vkey[2] == 'i' && vkey[3] == 'e'
        && vkey[4] == 'w'
}

/// What is known of the beginning of a string is known of its letters.
proof fn lemma_beginning(vkey: Seq<char>)
    ensures
        crate::text::has_prefix(vkey, "uview"@) <==> begins_like_a_unified_key(vkey),
{
    reveal_strlit("uview");
    if begins_like_a_unified_key(vkey) {
        assert(vkey.subrange(0, 5) =~= "uview"@);
    }
    if crate::text::has_prefix(vkey, "uview"@) {
        let head = vkey.subrange(0, 5);
        assert(head == "uview"@);
        assert(head[0] == vkey[0] && head[1] == vkey[1] && head[2] == vkey[2] && head[3] == vkey[3]
            && head[4] == vkey[4]);
    }
}

/// On every network, a string that begins with `uview` is imported as the unified key that it
/// is on that network, with that key's default address; if it is none there, or has no such
/// address, it is refused with the reason.
pub proof fn unified_keys_are_imported_as_such(
    network: Network,
    vkey: &str,
    r: Result<ImportKey, RpcError>,
)
    requires
        begins_like_a_unified_key(vkey@),
        call_ensures(ImportKey::decode, (network, vkey), r),
    ensures
        match keys::unified_key_decoding(network, vkey@) {
            Ok(key) => match keys::unified_key_address(network, key) {
                Ok(address) => r matches Ok(own) && own.ufvk.encoding@ == key && own.address@
                    == address && own.address_type == AddressType::Unified,
                Err(reason) => r matches Err(e) && laws::rpc_says(
                    e,
                    LegacyCode::InvalidAddressOrKey,
                    reason,
                ),
            },
            Err(reason) => r matches Err(e) && laws::rpc_says(
                e,
                LegacyCode::InvalidAddressOrKey,
                "Invalid viewing key: "@ + reason,
            ),
        },
{
    lemma_beginning(vkey@);
}

/// On every network, every other string is imported as the Sapling key that it is on that
/// network, with that key's default address; if it is none there it is refused with the reason.
pub proof fn other_strings_are_imported_as_sapling_keys(
    network: Network,
    vkey: &str,
    r: Result<ImportKey, RpcError>,
)
    requires
        !begins_like_a_unified_key(vkey@),
        call_ensures(ImportKey::decode, (network, vkey), r),
    ensures
        match keys::viewing_key_decoding(network::viewing_key_prefix(network), vkey@) {
            Ok(key) => match keys::sapling_unified_key(network, key) {
                Ok(ufvk) => r matches Ok(own) && own.ufvk.encoding@ == ufvk && own.address_type
                    == AddressType::Sapling && own.address@ == keys::payment_address_encoding(
                    network::payment_address_prefix(network),
                    keys::default_payment_address(key)->0,
                )->0,
                Err(reason) => r matches Err(e) && laws::rpc_says(e, LegacyCode::Wallet, reason),
            },
            Err(reason) => r matches Err(e) && laws::rpc_says(
                e,
                LegacyCode::InvalidAddressOrKey,
                "Invalid viewing key: "@ + reason,
            ),
        },
{
    lemma_beginning(vkey@);
}

/// What a key is taken for depends on its first letters alone, not on the network.
pub proof fn the_kind_of_a_key_does_not_depend_on_the_network(
    network_a: Network,
    network_b: Network,
    vkey: &str,
    a: ImportKey,
    b: ImportKey,
)
    requires
        call_ensures(ImportKey::decode, (network_a, vkey), Ok::<ImportKey, RpcError>(a)),
        call_ensures(ImportKey::decode, (network_b, vkey), Ok::<ImportKey, RpcError>(b)),
    ensures
        a.address_type == b.address_type,
        a.address_type == AddressType::Unified <==> begins_like_a_unified_key(vkey@),
{
    lemma_beginning(vkey@);
}

/// Each network has its own prefixes, and a Sapling key or address of one network cannot be
/// taken for one of another.
pub proof fn prefixes_tell_networks_apart(a: Network, b: Network)
    requires
        a != b,
    ensures
        network::viewing_key_prefix(a) != network::viewing_key_prefix(b),
        network::payment_address_prefix(a) != network::payment_address_prefix(b),
        network::viewing_key_prefix(a) != network::payment_address_prefix(b),
{
    reveal_strlit("zxviews");
    reveal_strlit("zxviewtestsapling");
    reveal_strlit("zxviewregtestsapling");
    reveal_strlit("zs");
    reveal_strlit("ztestsapling");
    reveal_strlit("zregtestsapling");
    assert("zxviews"@.len() == 7);
    assert("zxviewtestsapling"@.len() == 17);
    assert("zxviewregtestsapling"@.len() == 20);
    assert("zs"@.len() == 2);
    assert("ztestsapling"@.len() == 12);
    assert("zregtestsapling"@.len() == 15);
}

/// A decoded Sapling key comes with its own default address.
pub proof fn sapling_keys_come_with_their_address(
    hrp_fvk: &str,
    hrp_payment_address: &str,
    vkey: &str,
    r: Result<(ExtendedFullViewingKey, String), RpcError>,
)
    requires
        call_ensures(decode_vkey_and_address, (hrp_fvk, hrp_payment_address, vkey), r),
    ensures
        r is Ok <==> keys::viewing_key_decoding(hrp_fvk@, vkey@) is Ok,
        r matches Ok((key, address)) ==> keys::viewing_key_decoding(hrp_fvk@, vkey@) == Ok::<
            Seq<u8>,
            Seq<char>,
        >(key.bytes@) && (keys::default_payment_address(key.bytes@) matches Some(own)
            && keys::payment_address_encoding(hrp_payment_address@, own) == Some(address@)),
        keys::viewing_key_decoding(hrp_fvk@, vkey@) matches Err(reason) ==> (r matches Err(e)
            && laws::rpc_says(
            e,
            LegacyCode::InvalidAddressOrKey,
            "Invalid viewing key: "@ + reason,
        )),
{
}

/// A string that a Sapling key was written as is decoded to a key that is written as that
/// string again.
pub proof fn written_sapling_keys_are_read_again(
    hrp_fvk: &str,
    hrp_payment_address: &str,
    key: ExtendedFullViewingKey,
    written: String,
    vkey: &str,
    r: Result<(ExtendedFullViewingKey, String), RpcError>,
    read: ExtendedFullViewingKey,
    again: Option<String>,
)
    requires
        keys::is_writable_prefix(hrp_fvk@),
        call_ensures(ExtendedFullViewingKey::encode, (&key, hrp_fvk), Some(written)),
        vkey@ == written@,
        call_ensures(decode_vkey_and_address, (hrp_fvk, hrp_payment_address, vkey), r),
        r matches Ok((own, _)) ==> own == read,
        call_ensures(ExtendedFullViewingKey::encode, (&read, hrp_fvk), again),
    ensures
        r is Ok,
        again matches Some(text) && text@ == vkey@,
{
}

/// A decoded unified key comes with its own default address, and what cannot be had is what the
/// caller is told.
pub proof fn unified_keys_come_with_their_address(
    network: Network,
    vkey: &str,
    r: Result<(UnifiedFullViewingKey, String), RpcError>,
    key: String,
    derived: Result<String, String>,
    with_address: Result<(UnifiedFullViewingKey, String), RpcError>,
    reason: &str,
    refusal: RpcError,
)
    requires
        call_ensures(decode_unified_vkey_and_address, (network, vkey), r),
        call_ensures(unified_vkey_with_address, (key, derived), with_address),
        call_ensures(invalid_viewing_key, (reason,), refusal),
    ensures
        r matches Ok((own, address)) ==> keys::unified_key_decoding(network, vkey@) == Ok::<
            Seq<char>,
            Seq<char>,
        >(own.encoding@) && keys::unified_key_address(network, own.encoding@) == Ok::<
            Seq<char>,
            Seq<char>,
        >(address@),
        keys::unified_key_decoding(network, vkey@) matches Ok(own) ==> (keys::unified_key_address(
            network,
            own,
        ) is Ok <==> r is Ok),
        keys::unified_key_decoding(network, vkey@) is Err ==> r is Err,
        with_address is Ok <==> derived is Ok,
        with_address matches Ok((own, address)) ==> own.encoding@ == key@ && address@
            == derived->Ok_0@,
        derived matches Err(why) ==> (with_address matches Err(e) && laws::rpc_says(
            e,
            LegacyCode::InvalidAddressOrKey,
            why@,
        )),
        laws::rpc_says(
            refusal,
            LegacyCode::InvalidAddressOrKey,
            "Invalid viewing key: "@ + reason@,
        ),
{
}

/// The words of the `rescan` parameter are different ones.
proof fn lemma_words_differ()
    ensures
        "yes"@ != "no"@,
        "yes"@ != "whenkeyisnew"@,
        "no"@ != "whenkeyisnew"@,
{
    reveal_strlit("yes");
    reveal_strlit("no");
    reveal_strlit("whenkeyisnew");
    assert("yes"@.len() == 3);
    assert("no"@.len() == 2);
    assert("whenkeyisnew"@.len() == 12);
}

/// A `rescan` parameter is one of three words, and the last of them where it is left out.
pub proof fn rescan_is_one_of_three_words(
    rescan: Option<&str>,
    r: Result<RescanPolicy, RpcError>,
)
    requires
        call_ensures(RescanPolicy::parse, (rescan,), r),
    ensures
        r matches Ok(RescanPolicy::Yes) <==> (rescan matches Some(word) && word@ == "yes"@),
        r matches Ok(RescanPolicy::No) <==> (rescan matches Some(word) && word@ == "no"@),
        r matches Ok(RescanPolicy::WhenKeyIsNew) <==> (rescan matches Some(word) ==> word@
            == "whenkeyisnew"@),
        r matches Err(e) ==> laws::rpc_says(
            e,
            LegacyCode::InvalidParameter,
            "Invalid rescan value. Must be \"yes\", \"no\", or \"whenkeyisnew\"."@,
        ),
{
    lemma_words_differ();
}

/// Every start height that a block can have is taken as it is, and no other. A wrong `rescan`
/// parameter is what the caller is told first.
pub proof fn start_heights_are_heights_of_blocks(
    rescan: Option<&str>,
    start_height: Option<u64>,
    policy: Result<RescanPolicy, RpcError>,
    r: Result<ImportRequest, RpcError>,
)
    requires
        call_ensures(RescanPolicy::parse, (rescan,), policy),
        call_ensures(ImportRequest::parse, (rescan, start_height), r),
    ensures
        r is Ok <==> policy is Ok && (start_height matches Some(height) ==> height <= 0xffff_ffff),
        r matches Ok(request) ==> policy == Ok::<RescanPolicy, RpcError>(request.rescan) && (
        request.start_height is Some <==> start_height is Some) && (start_height matches Some(height)
            ==> (request.start_height->0).0 == height),
        policy is Err ==> (r matches Err(e) && laws::rpc_says(
            e,
            LegacyCode::InvalidParameter,
            "Invalid rescan value. Must be \"yes\", \"no\", or \"whenkeyisnew\"."@,
        )),
        policy is Ok && r is Err ==> (r matches Err(e) && laws::rpc_says(
            e,
            LegacyCode::InvalidParameter,
            "Block height out of range."@,
        )),
{
    lemma_words_differ();
}

/// A start height above the chain's tip is refused, every other is taken, and so is any where
/// the tip is not known.
pub proof fn imports_start_on_the_chain(
    request: ImportRequest,
    tip: Result<Option<BlockHeight>, String>,
    r: Result<ImportRange, RpcError>,
)
    requires
        call_ensures(ImportRequest::chain_tip, (request, tip), r),
    ensures
        r is Ok <==> (tip matches Ok(known) && (known is Some && request.start_height is Some
            ==> (request.start_height->0).0 <= (known->0).0)),
        tip is Ok && r is Err ==> (r matches Err(e) && laws::rpc_says(
            e,
            LegacyCode::InvalidParameter,
            "Block height out of range."@,
        )),
        tip matches Err(reason) ==> (r matches Err(e) && laws::rpc_says(
            e,
            LegacyCode::Database,
            reason@,
        )),
{
}

/// A call up to its look for the key in the wallet.
pub ghost struct Import<'a> {
    pub rescan: Option<&'a str>,
    pub start_height: Option<u64>,
    pub request: ImportRequest,
    pub tip: Option<BlockHeight>,
    pub range: ImportRange,
    pub key: ImportKey,
    pub lookup: KeyLookup,
}

impl<'a> Import<'a> {
    /// Whether the calls were made, each with what the one before gave.
    pub open spec fn made(self) -> bool {
        &&& call_ensures(
            ImportRequest::parse,
            (self.rescan, self.start_height),
            Ok::<ImportRequest, RpcError>(self.request),
        )
        &&& call_ensures(
            ImportRequest::chain_tip,
            (self.request, Ok::<Option<BlockHeight>, String>(self.tip)),
            Ok::<ImportRange, RpcError>(self.range),
        )
        &&& call_ensures(ImportRange::with_key, (self.range, self.key), self.lookup)
    }
}

/// A key is looked for as it was decoded.
pub proof fn the_decoded_key_is_looked_for(
    network: Network,
    vkey: &str,
    range: ImportRange,
    decoded: Result<ImportKey, RpcError>,
    r: Result<KeyLookup, RpcError>,
)
    requires
        call_ensures(ImportKey::decode, (network, vkey), decoded),
        call_ensures(ImportRange::decode, (range, network, vkey), r),
    ensures
        r is Ok <==> decoded is Ok,
        r matches Ok(lookup) ==> lookup.import_key()@ == decoded->Ok_0@ && lookup.range() == range
            && forall|ufvk: &UnifiedFullViewingKey| #[trigger]
            call_ensures(KeyLookup::ufvk, (&lookup,), ufvk) ==> ufvk.encoding@
                == decoded->Ok_0.ufvk.encoding@,
        decoded matches Err(e) ==> (r matches Err(f) && f@ == e@),
{
    if let (Ok(lookup), Ok(key)) = (r, decoded) {
        assert(lookup.import_key()@.ufvk == key@.ufvk);
    }
}

/// A key that the wallet can spend with is refused, one that it watches already is answered
/// with its address, and only a key that is new to it adds an account.
pub proof fn accounts_are_added_for_new_keys_alone(
    import: Import,
    existing: Result<Option<AccountPurpose>, String>,
    r: Result<ImportStep, RpcError>,
)
    requires
        import.made(),
        call_ensures(KeyLookup::found, (import.lookup, existing), r),
    ensures
        r matches Ok(ImportStep::Create(_, _)) <==> existing matches Ok(None),
        r matches Ok(ImportStep::Known(_)) <==> existing matches Ok(Some(AccountPurpose::ViewOnly)),
        existing matches Ok(Some(AccountPurpose::Spending)) ==> (r matches Err(e)
            && laws::rpc_says(
            e,
            LegacyCode::Wallet,
            "The wallet already contains the private key for this viewing key (address: "@
                + import.key.address@ + ")"@,
        )),
        existing matches Err(reason) ==> (r matches Err(e) && laws::rpc_says(
            e,
            LegacyCode::Database,
            reason@,
        )),
        r matches Ok(ImportStep::Known(result)) ==> result.address@ == import.key.address@
            && result.address_type@ == (if import.key.address_type == AddressType::Unified {
            "unified"@
        } else {
            "sapling"@
        }),
{
}

/// A new account can only watch. It has the imported key, is named after its address, and looks
/// for transactions from the start height on, or from the first block on if none is given;
/// where no rescan is asked for, from the chain's tip on, if it is known, whatever the start
/// height.
pub proof fn new_accounts_watch_from_their_start(
    import: Import,
    account: NewAccount,
    creation: AccountCreation,
    result: Result<ResultType, RpcError>,
)
    requires
        import.made(),
        call_ensures(
            KeyLookup::found,
            (import.lookup, Ok::<Option<AccountPurpose>, String>(None)),
            Ok::<ImportStep, RpcError>(ImportStep::Create(account, creation)),
        ),
        call_ensures(AccountCreation::created, (creation, Ok::<(), String>(())), result),
    ensures
        account.purpose == AccountPurpose::ViewOnly,
        account.ufvk.encoding@ == import.key.ufvk.encoding@,
        account.name@ == "Imported "@ + (if import.key.address_type == AddressType::Unified {
            "unified"@
        } else {
            "sapling"@
        }) + " viewing key "@ + import.key.address@,
        account.birthday_height.0 == (if import.rescan is Some && import.rescan->0@ == "no"@ {
            if import.tip is Some {
                (import.tip->0).0 as int
            } else {
                0
            }
        } else {
            if import.start_height is Some {
                import.start_height->0 as int
            } else {
                0
            }
        }),
        result matches Ok(own) && own.address@ == import.key.address@ && own.address_type@ == (
        if import.key.address_type == AddressType::Unified {
            "unified"@
        } else {
            "sapling"@
        }),
{
    lemma_words_differ();
}

/// An account that cannot be added ends the call with the reason.
pub proof fn failed_additions_are_answered_with_their_reason(
    creation: AccountCreation,
    reason: String,
    r: Result<ResultType, RpcError>,
)
    requires
        call_ensures(AccountCreation::created, (creation, Err::<(), String>(reason)), r),
    ensures
        r matches Err(e) && laws::rpc_says(e, LegacyCode::Database, reason@),
{
}

/// A Sapling key that cannot be made a unified one ends the call with the reason; one that can
/// keeps its address.
pub proof fn sapling_keys_keep_their_address(
    address: String,
    unified: Result<String, String>,
    r: Result<ImportKey, RpcError>,
)
    requires
        call_ensures(ImportKey::sapling, (address, unified), r),
    ensures
        match unified {
            Ok(encoding) => r matches Ok(key) && key.ufvk.encoding@ == encoding@ && key.address@
                == address@ && key.address_type == AddressType::Sapling,
            Err(reason) => r matches Err(e) && laws::rpc_says(e, LegacyCode::Wallet, reason@),
        },
{
}

/// The kinds of address have the names that callers see.
pub proof fn kinds_of_address_have_their_names(kind: AddressType, name: &'static str)
    requires
        call_ensures(AddressType::name, (kind,), name),
    ensures
        kind == AddressType::Sapling ==> name@ == "sapling"@,
        kind == AddressType::Unified ==> name@ == "unified"@,
{
}

/// Account indices are the numbers below two to the power of 31, each as it is.
pub proof fn account_indices_fit_in_31_bits(index: u32, r: Option<AccountIndex>)
    requires
        call_ensures(AccountIndex::from_u32, (index,), r),
    ensures
        r is Some <==> index <= 0x7fff_ffff,
        r matches Some(account) ==> forall|number: u32| #[trigger]
            call_ensures(AccountIndex::into_u32, (account,), number) ==> number == index,
{
}

} // verus!
