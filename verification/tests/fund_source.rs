use nonempty::NonEmpty;
use zallet_core::error::{LegacyCode, Message};
use zallet_core::fund_source::{FundSource, JsonValue, SourceEntry};
use zallet_core::network::Network;
use zallet_core::transparent::{place, DecodedAddress, Placement, TransparentAddress};
use zcash_client_backend::data_api::wallet::input_selection::{
    CoinbasePolicy, NoteSelection, TransparentSource,
};
use zcash_keys::encoding::AddressCodec;
use zcash_keys::keys::{UnifiedAddressRequest, UnifiedSpendingKey};
use zcash_protocol::consensus::TEST_NETWORK;
use zcash_protocol::ShieldedPool;
use zip32::AccountId;

fn test_params() -> Network {
    Network::Test
}

fn text(s: &str) -> JsonValue {
    JsonValue::String(s.to_string())
}

/// A transparent address of the account derived from `seed`.
fn taddr_from(seed: &[u8; 32], account: u32) -> zcash_transparent::address::TransparentAddress {
    let account = AccountId::try_from(account).unwrap();
    let usk = UnifiedSpendingKey::from_seed(&TEST_NETWORK, seed, account).unwrap();
    let (ua, _) = usk
        .to_unified_full_viewing_key()
        .default_address(UnifiedAddressRequest::ALLOW_ALL)
        .unwrap();
    ua.transparent().copied().unwrap()
}

fn plain(address: &zcash_transparent::address::TransparentAddress) -> TransparentAddress {
    match address {
        zcash_transparent::address::TransparentAddress::PublicKeyHash(h) => {
            TransparentAddress::PublicKeyHash(*h)
        }
        zcash_transparent::address::TransparentAddress::ScriptHash(h) => {
            TransparentAddress::ScriptHash(*h)
        }
    }
}

#[test]
fn parses_the_string_sources() {
    let params = test_params();
    assert_eq!(
        FundSource::parse(&text("orchard"), params).unwrap(),
        FundSource::Orchard,
    );
    assert_eq!(
        FundSource::parse(&text("sapling"), params).unwrap(),
        FundSource::Sapling,
    );
    assert_eq!(
        FundSource::parse(&text("any_transparent"), params).unwrap(),
        FundSource::AnyTransparent,
    );
}

#[test]
fn rejects_an_unknown_source() {
    let params = test_params();
    assert!(FundSource::parse(&text("ironwood"), params).is_err());
    assert!(FundSource::parse(&text("transparent"), params).is_err());
    assert!(FundSource::parse(&JsonValue::Number, params).is_err());
}

#[test]
fn rejects_an_empty_address_array() {
    let params = test_params();
    let empty = JsonValue::Array(vec![]);
    assert!(FundSource::parse(&empty, params).is_err());
}

#[test]
fn rejects_a_non_transparent_address_in_the_array() {
    let params = test_params();
    let seed = [3u8; 32];
    let usk = UnifiedSpendingKey::from_seed(&TEST_NETWORK, &seed, AccountId::ZERO).unwrap();
    let (ua, _) = usk
        .to_unified_full_viewing_key()
        .default_address(UnifiedAddressRequest::ALLOW_ALL)
        .unwrap();

    // A unified address is not a transparent address, even though it has a transparent
    // receiver: the array names the addresses whose UTXOs may be spent, and a UA does not
    // identify one.
    let arr = JsonValue::Array(vec![JsonValue::String(ua.encode(&TEST_NETWORK))]);
    assert!(FundSource::parse(&arr, params).is_err());
}

/// A shielded source must never permit transparent spending, and must permit only the pool
/// it names: the parameter exists to bound where the funds come from.
#[test]
fn shielded_sources_permit_only_their_own_pool() {
    let orchard = FundSource::Orchard.spend_policy();
    assert!(orchard.transparent().is_none());
    assert!(orchard.permits_shielded(ShieldedPool::Orchard));
    // Orchard-receiver funds live in Ironwood once NU6.3 activates.
    assert!(orchard.permits_shielded(ShieldedPool::Ironwood));
    assert!(!orchard.permits_shielded(ShieldedPool::Sapling));

    let sapling = FundSource::Sapling.spend_policy();
    assert!(sapling.transparent().is_none());
    assert!(sapling.permits_shielded(ShieldedPool::Sapling));
    assert!(!sapling.permits_shielded(ShieldedPool::Orchard));
    assert!(!sapling.permits_shielded(ShieldedPool::Ironwood));
}

/// `any_transparent` spends the account's transparent funds and no shielded note. The
/// permitted-pool set being empty says so exhaustively, including for any pool added later.
#[test]
fn any_transparent_permits_transparent_and_no_shielded_pool() {
    let policy = FundSource::AnyTransparent.spend_policy();

    assert!(policy.shielded().is_empty());

    let transparent = policy
        .transparent()
        .expect("transparent spending permitted");
    assert!(matches!(
        transparent.source(),
        TransparentSource::AnyAccountAddr,
    ));
    assert_eq!(transparent.coinbase(), CoinbasePolicy::NonCoinbase);
}

#[test]
fn the_ironwood_source_permits_only_the_ironwood_pool() {
    let ironwood = FundSource::Ironwood.spend_policy();
    assert!(ironwood.transparent().is_none());
    assert!(ironwood.permits_shielded(ShieldedPool::Ironwood));
    assert!(!ironwood.permits_shielded(ShieldedPool::Orchard));
    assert!(!ironwood.permits_shielded(ShieldedPool::Sapling));
}

/// Naming transparent addresses confines selection to exactly those addresses, and to no
/// shielded pool.
#[test]
fn named_transparent_addresses_are_the_only_source() {
    for account in [0u32, 1, 7, (1 << 31) - 1] {
        let taddr = taddr_from(&[9u8; 32], account);
        let source = FundSource::Transparent(NonEmpty::singleton(plain(&taddr)));
        let policy = source.spend_policy();

        assert!(policy.shielded().is_empty());
        let transparent = policy
            .transparent()
            .expect("a transparent source permits transparent spending");
        match transparent.source() {
            TransparentSource::FromAddresses(addrs) => {
                assert_eq!(addrs.iter().copied().collect::<Vec<_>>(), vec![taddr]);
            }
            other => panic!("expected named addresses, got {other:?}"),
        }
        assert_eq!(transparent.coinbase(), CoinbasePolicy::NonCoinbase);
    }
}

/// Duplicate and reordered addresses parse to the same source.
#[test]
fn transparent_addresses_are_canonicalized() {
    let params = test_params();
    let a = taddr_from(&[5u8; 32], 0);
    let b = taddr_from(&[5u8; 32], 1);
    assert!(a != b);

    let encode = |taddr: &zcash_transparent::address::TransparentAddress| {
        JsonValue::String(taddr.encode(&TEST_NETWORK))
    };
    let forwards = JsonValue::Array(vec![encode(&a), encode(&b), encode(&a)]);
    let backwards = JsonValue::Array(vec![encode(&b), encode(&a)]);

    let parsed = FundSource::parse(&forwards, params).expect("valid transparent addresses");
    assert_eq!(
        parsed,
        FundSource::parse(&backwards, params).expect("valid transparent addresses"),
    );
    let mut expected = vec![a, b];
    expected.sort();
    match parsed {
        FundSource::Transparent(list) => assert_eq!(
            list.iter().copied().collect::<Vec<_>>(),
            expected.iter().map(plain).collect::<Vec<_>>(),
        ),
        other => panic!("expected addresses, got {other:?}"),
    }
}

/// A transparent address round-trips through the JSON parameter.
#[test]
fn parses_an_array_of_transparent_addresses() {
    let params = test_params();
    for account in [0u32, 3, 12] {
        let taddr = taddr_from(&[1u8; 32], account);
        let arr = JsonValue::Array(vec![JsonValue::String(taddr.encode(&TEST_NETWORK))]);
        let parsed = FundSource::parse(&arr, params).expect("a valid transparent address");
        assert_eq!(
            parsed,
            FundSource::Transparent(NonEmpty::singleton(plain(&taddr))),
        );
    }
}

#[test]
fn refusals_name_their_cause() {
    let message = |value: JsonValue| {
        let e = FundSource::parse(&value, Network::Main).unwrap_err();
        assert_eq!(e.code, LegacyCode::InvalidParameter);
        e.message
    };
    assert_eq!(
        message(text("ironwood")),
        Message::localized_with("err-fund-source-unknown", "given", "ironwood"),
    );
    assert_eq!(
        message(JsonValue::Bool(true)),
        Message::localized("err-fund-source-not-a-source"),
    );
    assert_eq!(
        message(JsonValue::Array(vec![])),
        Message::localized("err-fund-source-empty-array"),
    );
    assert_eq!(
        message(JsonValue::Array(vec![JsonValue::Null, text("x")])),
        Message::localized("err-fund-source-non-string-entry"),
    );
    assert_eq!(
        message(JsonValue::Array(vec![text("x"), JsonValue::Null])),
        Message::localized_with("err-fund-source-not-transparent", "address", "x"),
    );
}

#[test]
fn a_testnet_address_is_not_a_mainnet_source_but_is_a_regtest_one() {
    let taddr = taddr_from(&[1u8; 32], 0);
    let arr = JsonValue::Array(vec![JsonValue::String(taddr.encode(&TEST_NETWORK))]);
    assert!(FundSource::parse(&arr, Network::Main).is_err());
    assert!(FundSource::parse(&arr, Network::Regtest).is_ok());
}

#[test]
fn decoded_entries_are_listed_in_ascending_order() {
    let p2sh = TransparentAddress::ScriptHash([0; 20]);
    let mut high = [0u8; 20];
    high[19] = 2;
    let p2pkh_high = TransparentAddress::PublicKeyHash(high);
    let p2pkh_low = TransparentAddress::PublicKeyHash([0; 20]);
    let entry = |a: TransparentAddress| SourceEntry::Text {
        text: "t".to_string(),
        decoded: Some(DecodedAddress::Transparent(a)),
    };
    let parsed = FundSource::from_entries(&vec![
        entry(p2sh),
        entry(p2pkh_high),
        entry(p2pkh_low),
        entry(p2sh),
    ])
    .unwrap();
    assert_eq!(
        parsed,
        FundSource::Transparent(NonEmpty::from((p2pkh_low, vec![p2pkh_high, p2sh]))),
    );
    assert_eq!(place(&p2pkh_high, &p2sh), Placement::Before);
    assert_eq!(place(&p2sh, &p2sh), Placement::Same);
    assert_eq!(place(&p2pkh_high, &p2pkh_low), Placement::After);
}

#[test]
fn only_the_transparent_kind_of_address_is_a_source() {
    for decoded in [
        None,
        Some(DecodedAddress::Sapling),
        Some(DecodedAddress::Unified),
        Some(DecodedAddress::Tex),
    ] {
        let entries = vec![SourceEntry::Text {
            text: "z".to_string(),
            decoded,
        }];
        assert_eq!(
            FundSource::from_entries(&entries).unwrap_err().message,
            Message::localized_with("err-fund-source-not-transparent", "address", "z"),
        );
    }
}

#[test]
fn every_source_leaves_out_locked_outputs_and_accumulates_notes() {
    for source in [FundSource::Orchard, FundSource::Sapling, FundSource::AnyTransparent] {
        let policy = source.spend_policy();
        assert!(matches!(
            policy.locked_input_policy(),
            zcash_client_backend::data_api::wallet::input_selection::LockedInputPolicy::Exclude
        ));
        assert_eq!(policy.note_selection(), NoteSelection::Accumulate);
    }
}
