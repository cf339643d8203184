use zallet_core::error::{LegacyCode, Message, RpcError};
use zallet_core::import_viewing_key::{
    decode_unified_vkey_and_address, decode_vkey_and_address,
    invalid_viewing_key, unified_vkey_with_address, AccountPurpose, AddressType, ImportKey,
    ImportRequest, ImportStep, NewAccount, RescanPolicy, ResultType,
};
use zallet_core::keys::{ExtendedFullViewingKey, UnifiedFullViewingKey};
use zallet_core::network::{BlockHeight, Network};
use zcash_keys::encoding::{decode_extended_full_viewing_key, encode_extended_full_viewing_key};
use zcash_protocol::consensus::MAIN_NETWORK;
use zcash_protocol::constants;

/// Derives a test extended full viewing key from seed [0; 32] and encodes it.
fn encoded_mainnet_extfvk() -> String {
    let extsk = sapling_crypto::zip32::ExtendedSpendingKey::master(&[0; 32]);
    #[allow(deprecated)]
    let extfvk = extsk.to_extended_full_viewing_key();
    encode_extended_full_viewing_key(
        constants::mainnet::HRP_SAPLING_EXTENDED_FULL_VIEWING_KEY,
        &extfvk,
    )
}

/// Derives a test extended full viewing key from seed [0; 32] and encodes it for testnet.
fn encoded_testnet_extfvk() -> String {
    let extsk = sapling_crypto::zip32::ExtendedSpendingKey::master(&[0; 32]);
    #[allow(deprecated)]
    let extfvk = extsk.to_extended_full_viewing_key();
    encode_extended_full_viewing_key(
        constants::testnet::HRP_SAPLING_EXTENDED_FULL_VIEWING_KEY,
        &extfvk,
    )
}

fn text_of(error: RpcError) -> (LegacyCode, String) {
    match error.message {
        Message::Text(text) => (error.code, text),
        Message::Localized { id, .. } => panic!("unexpected message {id}"),
    }
}

// -- RescanPolicy::parse tests --

#[test]
fn rescan_none_defaults_to_whenkeyisnew() {
    assert_eq!(
        RescanPolicy::parse(None).unwrap(),
        RescanPolicy::WhenKeyIsNew
    );
}

#[test]
fn rescan_whenkeyisnew() {
    assert_eq!(
        RescanPolicy::parse(Some("whenkeyisnew")).unwrap(),
        RescanPolicy::WhenKeyIsNew
    );
}

#[test]
fn rescan_yes() {
    assert_eq!(RescanPolicy::parse(Some("yes")).unwrap(), RescanPolicy::Yes);
}

#[test]
fn rescan_no() {
    assert_eq!(RescanPolicy::parse(Some("no")).unwrap(), RescanPolicy::No);
}

#[test]
fn rescan_invalid_value() {
    assert!(RescanPolicy::parse(Some("always")).is_err());
    assert!(RescanPolicy::parse(Some("")).is_err());
    assert!(RescanPolicy::parse(Some("true")).is_err());
}

// -- decode_vkey_and_address tests --

#[test]
fn decode_valid_mainnet_vkey() {
    let encoded = encoded_mainnet_extfvk();
    let (_, address) = decode_vkey_and_address(
        constants::mainnet::HRP_SAPLING_EXTENDED_FULL_VIEWING_KEY,
        constants::mainnet::HRP_SAPLING_PAYMENT_ADDRESS,
        &encoded,
    )
    .unwrap();

    // Mainnet Sapling addresses start with "zs1".
    assert!(address.starts_with("zs1"));
}

#[test]
fn decode_valid_testnet_vkey() {
    let encoded = encoded_testnet_extfvk();
    let (_, address) = decode_vkey_and_address(
        constants::testnet::HRP_SAPLING_EXTENDED_FULL_VIEWING_KEY,
        constants::testnet::HRP_SAPLING_PAYMENT_ADDRESS,
        &encoded,
    )
    .unwrap();

    // Testnet Sapling addresses start with "ztestsapling1".
    assert!(address.starts_with("ztestsapling1"));
}

#[test]
fn decode_valid_mainnet_ufvk() {
    let extfvk = decode_extended_full_viewing_key(
        constants::mainnet::HRP_SAPLING_EXTENDED_FULL_VIEWING_KEY,
        &encoded_mainnet_extfvk(),
    )
    .unwrap();
    let encoded =
        zcash_keys::keys::UnifiedFullViewingKey::from_sapling_extended_full_viewing_key(extfvk)
            .unwrap()
            .encode(&MAIN_NETWORK);

    let (_, address) = decode_unified_vkey_and_address(Network::Main, &encoded).unwrap();
    assert!(address.starts_with("u1"));
}

#[test]
fn decode_same_key_produces_same_address_across_calls() {
    let encoded = encoded_mainnet_extfvk();

    let (_, addr1) = decode_vkey_and_address(
        constants::mainnet::HRP_SAPLING_EXTENDED_FULL_VIEWING_KEY,
        constants::mainnet::HRP_SAPLING_PAYMENT_ADDRESS,
        &encoded,
    )
    .unwrap();

    let (_, addr2) = decode_vkey_and_address(
        constants::mainnet::HRP_SAPLING_EXTENDED_FULL_VIEWING_KEY,
        constants::mainnet::HRP_SAPLING_PAYMENT_ADDRESS,
        &encoded,
    )
    .unwrap();

    assert_eq!(addr1, addr2);
}

#[test]
fn decode_roundtrip() {
    let encoded = encoded_mainnet_extfvk();
    let (extfvk, _) = decode_vkey_and_address(
        constants::mainnet::HRP_SAPLING_EXTENDED_FULL_VIEWING_KEY,
        constants::mainnet::HRP_SAPLING_PAYMENT_ADDRESS,
        &encoded,
    )
    .unwrap();

    let re_encoded = encode_extended_full_viewing_key(
        constants::mainnet::HRP_SAPLING_EXTENDED_FULL_VIEWING_KEY,
        &sapling_crypto::zip32::ExtendedFullViewingKey::read(&extfvk.bytes[..]).unwrap(),
    );
    assert_eq!(re_encoded, encoded);
}

#[test]
fn decode_invalid_vkey() {
    let result = decode_vkey_and_address(
        constants::mainnet::HRP_SAPLING_EXTENDED_FULL_VIEWING_KEY,
        constants::mainnet::HRP_SAPLING_PAYMENT_ADDRESS,
        "not-a-valid-key",
    );
    assert!(result.is_err());
}

#[test]
fn decode_wrong_network_vkey() {
    // Testnet viewing key decoded with mainnet HRP should fail.
    let testnet_encoded = encoded_testnet_extfvk();
    let result = decode_vkey_and_address(
        constants::mainnet::HRP_SAPLING_EXTENDED_FULL_VIEWING_KEY,
        constants::mainnet::HRP_SAPLING_PAYMENT_ADDRESS,
        &testnet_encoded,
    );
    assert!(result.is_err());
}

#[test]
fn decode_empty_vkey() {
    let result = decode_vkey_and_address(
        constants::mainnet::HRP_SAPLING_EXTENDED_FULL_VIEWING_KEY,
        constants::mainnet::HRP_SAPLING_PAYMENT_ADDRESS,
        "",
    );
    assert!(result.is_err());
}

#[test]
fn decode_spending_key_rejected_as_viewing_key() {
    // A spending key string should be rejected when decoded as a viewing key,
    // since the HRP will not match.
    let extsk = sapling_crypto::zip32::ExtendedSpendingKey::master(&[0; 32]);
    let spending_key_encoded = zcash_keys::encoding::encode_extended_spending_key(
        constants::mainnet::HRP_SAPLING_EXTENDED_SPENDING_KEY,
        &extsk,
    );

    let result = decode_vkey_and_address(
        constants::mainnet::HRP_SAPLING_EXTENDED_FULL_VIEWING_KEY,
        constants::mainnet::HRP_SAPLING_PAYMENT_ADDRESS,
        &spending_key_encoded,
    );
    assert!(result.is_err());
}

#[test]
fn a_written_key_is_found_again() {
    let hrp = constants::mainnet::HRP_SAPLING_EXTENDED_FULL_VIEWING_KEY;
    let encoded = encoded_mainnet_extfvk();
    let (extfvk, _) = decode_vkey_and_address(
        hrp,
        constants::mainnet::HRP_SAPLING_PAYMENT_ADDRESS,
        &encoded,
    )
    .unwrap();
    assert_eq!(extfvk.encode(hrp), Some(encoded));
    assert_eq!(ExtendedFullViewingKey { bytes: vec![1, 2, 3] }.encode(hrp), None);
}

// -- the whole call --

#[test]
fn the_default_address_is_the_key_s_own() {
    let extsk = sapling_crypto::zip32::ExtendedSpendingKey::master(&[0; 32]);
    let expected = zcash_keys::encoding::encode_payment_address(
        constants::mainnet::HRP_SAPLING_PAYMENT_ADDRESS,
        &extsk.default_address().1,
    );
    let key = ImportKey::decode(Network::Main, &encoded_mainnet_extfvk()).unwrap();
    assert_eq!(key.address, expected);
    assert_eq!(key.address_type, AddressType::Sapling);
    assert!(key.ufvk.encoding.starts_with("uview1"));
}

#[test]
fn keys_are_told_apart_by_their_prefix() {
    let sapling = ImportKey::decode(Network::Test, &encoded_testnet_extfvk()).unwrap();
    assert_eq!(sapling.address_type, AddressType::Sapling);
    let unified = ImportKey::decode(Network::Test, &sapling.ufvk.encoding).unwrap();
    assert_eq!(unified.address_type, AddressType::Unified);
    assert!(unified.address.starts_with("utest1"));
    assert_eq!(unified.ufvk, sapling.ufvk);
}

#[test]
fn keys_of_another_network_are_refused() {
    assert!(ImportKey::decode(Network::Main, &encoded_testnet_extfvk()).is_err());
    assert!(ImportKey::decode(Network::Regtest, &encoded_testnet_extfvk()).is_err());
    let testnet = ImportKey::decode(Network::Test, &encoded_testnet_extfvk()).unwrap();
    assert!(ImportKey::decode(Network::Main, &testnet.ufvk.encoding).is_err());
}

#[test]
fn undecodable_keys_are_answered_with_the_reason() {
    let (code, text) = text_of(ImportKey::decode(Network::Main, "nonsense").unwrap_err());
    assert_eq!(code, LegacyCode::InvalidAddressOrKey);
    assert!(text.starts_with("Invalid viewing key: "));
    let (code, text) = text_of(ImportKey::decode(Network::Main, "uview1nonsense").unwrap_err());
    assert_eq!(code, LegacyCode::InvalidAddressOrKey);
    assert!(text.starts_with("Invalid viewing key: "));
    assert_eq!(
        text_of(invalid_viewing_key("bad checksum")),
        (LegacyCode::InvalidAddressOrKey, "Invalid viewing key: bad checksum".to_string())
    );
}

#[test]
fn keys_that_cannot_be_used_are_answered_with_the_reason() {
    let refused = unified_vkey_with_address("uview1x".to_string(), Err("no receiver".to_string()));
    assert_eq!(
        text_of(refused.unwrap_err()),
        (LegacyCode::InvalidAddressOrKey, "no receiver".to_string())
    );
    let refused = ImportKey::sapling("zs1x".to_string(), Err("not unifiable".to_string()));
    assert_eq!(
        text_of(refused.unwrap_err()),
        (LegacyCode::Wallet, "not unifiable".to_string())
    );
}

#[test]
fn start_heights_are_block_heights() {
    let parse = |height: Option<u64>| ImportRequest::parse(None, height);
    assert_eq!(
        parse(Some(4_294_967_295)).unwrap().start_height,
        Some(BlockHeight(u32::MAX))
    );
    assert_eq!(parse(None).unwrap().start_height, None);
    assert_eq!(parse(Some(0)).unwrap().start_height, Some(BlockHeight(0)));
    assert_eq!(
        text_of(parse(Some(4_294_967_296)).unwrap_err()),
        (LegacyCode::InvalidParameter, "Block height out of range.".to_string())
    );
}

#[test]
fn the_rescan_parameter_is_looked_at_first() {
    let error = ImportRequest::parse(Some("maybe"), Some(u64::MAX)).unwrap_err();
    assert_eq!(
        text_of(error),
        (
            LegacyCode::InvalidParameter,
            "Invalid rescan value. Must be \"yes\", \"no\", or \"whenkeyisnew\".".to_string()
        )
    );
}

#[test]
fn start_heights_above_the_tip_are_refused() {
    let at = |tip: Option<u32>| {
        ImportRequest::parse(None, Some(100))
            .unwrap()
            .chain_tip(Ok(tip.map(BlockHeight)))
            .err()
            .map(text_of)
    };
    assert_eq!(at(None), None);
    assert_eq!(at(Some(100)), None);
    assert_eq!(
        at(Some(99)),
        Some((LegacyCode::InvalidParameter, "Block height out of range.".to_string()))
    );
}

fn found(
    rescan: Option<&str>,
    start_height: Option<u64>,
    tip: Option<u32>,
    existing: Option<AccountPurpose>,
) -> Result<ImportStep, RpcError> {
    let key = ImportKey::sapling("zs1addr".to_string(), Ok("uview1key".to_string())).unwrap();
    let lookup = ImportRequest::parse(rescan, start_height)
        .unwrap()
        .chain_tip(Ok(tip.map(BlockHeight)))
        .ok()
        .unwrap()
        .with_key(key);
    assert_eq!(lookup.ufvk().encoding, "uview1key");
    lookup.found(Ok(existing))
}

fn birthday(rescan: Option<&str>, start_height: Option<u64>, tip: Option<u32>) -> u32 {
    match found(rescan, start_height, tip, None).unwrap_or_else(|_| panic!("the key is new")) {
        ImportStep::Create(account, _) => account.birthday_height.0,
        ImportStep::Known(_) => panic!("the key is new"),
    }
}

fn answer() -> ResultType {
    ResultType { address_type: "sapling".to_string(), address: "zs1addr".to_string() }
}

#[test]
fn new_keys_become_view_only_accounts() {
    let Ok(ImportStep::Create(account, creation)) = found(None, Some(50), Some(100), None) else {
        panic!("the key is new");
    };
    assert_eq!(
        account,
        NewAccount {
            name: "Imported sapling viewing key zs1addr".to_string(),
            ufvk: UnifiedFullViewingKey { encoding: "uview1key".to_string() },
            birthday_height: BlockHeight(50),
            purpose: AccountPurpose::ViewOnly,
        }
    );
    assert_eq!(creation.created(Ok(())), Ok(answer()));
}

#[test]
fn an_unusable_database_ends_the_call() {
    let full = || "disk full".to_string();
    let answered = Some((LegacyCode::Database, full()));
    let request = || ImportRequest::parse(None, None).unwrap();
    assert_eq!(request().chain_tip(Err(full())).err().map(text_of), answered);
    let lookup = || {
        let key = ImportKey::sapling("zs1addr".to_string(), Ok("uview1key".to_string()));
        request().chain_tip(Ok(None)).ok().unwrap().with_key(key.unwrap())
    };
    assert_eq!(lookup().found(Err(full())).err().map(text_of), answered);
    let Ok(ImportStep::Create(_, creation)) = lookup().found(Ok(None)) else {
        panic!("the key is new");
    };
    assert_eq!(creation.created(Err(full())).err().map(text_of), answered);
}

#[test]
fn the_past_is_searched_as_asked() {
    assert_eq!(birthday(None, None, Some(100)), 0);
    assert_eq!(birthday(Some("yes"), None, Some(100)), 0);
    assert_eq!(birthday(Some("no"), None, Some(100)), 100);
    assert_eq!(birthday(Some("no"), None, None), 0);
    assert_eq!(birthday(Some("no"), Some(7), Some(100)), 100);
    assert_eq!(birthday(Some("no"), Some(0), Some(100)), 100);
    assert_eq!(birthday(Some("no"), Some(7), None), 0);
    assert_eq!(birthday(Some("yes"), Some(7), Some(100)), 7);
    assert_eq!(birthday(Some("whenkeyisnew"), Some(7), None), 7);
}

#[test]
fn known_keys_are_not_imported_again() {
    let known = found(Some("yes"), None, Some(100), Some(AccountPurpose::ViewOnly));
    assert!(matches!(known, Ok(ImportStep::Known(result)) if result == answer()));
    let spending = found(None, None, Some(100), Some(AccountPurpose::Spending));
    assert_eq!(
        spending.err().map(text_of),
        Some((
            LegacyCode::Wallet,
            "The wallet already contains the private key for this viewing key (address: zs1addr)"
                .to_string()
        ))
    );
}

#[test]
fn a_string_is_decoded_on_the_way() {
    let range = || ImportRequest::parse(None, None).unwrap().chain_tip(Ok(None)).ok().unwrap();
    let vkey = encoded_mainnet_extfvk();
    let lookup = range().decode(Network::Main, &vkey).ok().unwrap();
    assert_eq!(lookup.ufvk(), &ImportKey::decode(Network::Main, &vkey).unwrap().ufvk);
    assert!(range().decode(Network::Test, &vkey).is_err());
}
