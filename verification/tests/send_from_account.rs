use zallet_core::error::{ErrorKind, LegacyCode, Message, RpcError};
use zallet_core::fund_source::{FundSource, JsonValue};
use zallet_core::import_address::AccountUuid;
use zallet_core::keys::AccountIndex;
use zallet_core::network::{BlockHeight, Network, PirNetwork};
use zallet_core::pir::Pir;
use zallet_core::send_from_account::{
    decode_txid, request_built, seed_failure, should_prepare_pir, Account, AccountSend,
    AnchorStep, BuiltSend, GateStep, GatedSend, KeyDerivation, KeyedSend, NamedSend, PirStep,
    PlannedSend, PreparationStep, ReadySend, SignRequest, SignedSend, SyncStatus,
};
use zcash_encoding::ReverseHex;
use zcash_keys::keys::UnifiedSpendingKey;
use zcash_protocol::consensus::MAIN_NETWORK;

const CATCHING_UP: SyncStatus =
    SyncStatus::CatchingUp { fully_synced: Some(BlockHeight(100)), tip: BlockHeight(200) };

fn account() -> Account {
    Account {
        derivation: Some(KeyDerivation {
            seed_fingerprint: [9; 32],
            account_index: AccountIndex::from_u32(3).unwrap(),
        }),
    }
}

const ACCOUNT: AccountUuid = AccountUuid(5);

fn named() -> NamedSend {
    let (_, send) = request_built(Ok(())).ok().unwrap();
    send.account_named(Ok(ACCOUNT)).ok().unwrap()
}

fn from_account(account: Account) -> AccountSend {
    let named = named();
    assert_eq!(named.account(), ACCOUNT);
    named.account_found(Ok(Some(account))).ok().unwrap()
}

fn send(fund_source: FundSource) -> PlannedSend {
    let funded = from_account(account()).funded(fund_source, Network::Main).ok().unwrap();
    let parsed = Ok((1u8, "FullPrivacy".to_string()));
    let (policy, acknowledged) = funded.privacy_policy(parsed).ok().unwrap();
    assert_eq!(policy, 1);
    let (confirmations, planned) = acknowledged.confirmations(Ok(10u8)).ok().unwrap();
    assert_eq!(confirmations, 10);
    planned
}

fn built(fund_source: FundSource) -> BuiltSend {
    let (proposal, built) = ready(fund_source).built(Ok((4u8, "pczt".to_string()))).ok().unwrap();
    assert_eq!(proposal, 4);
    built
}

fn keyed() -> KeyedSend {
    built(FundSource::Orchard).key_derived(Ok("uview1key".to_string())).ok().unwrap()
}

fn signed() -> SignedSend {
    let proved = keyed().proved(Ok("proved".to_string())).ok().unwrap();
    proved.signed(Ok("signed".to_string())).ok().unwrap()
}

fn failure() -> RpcError {
    LegacyCode::Misc.with_text("outside failure")
}

fn skip(fund_source: FundSource, status: SyncStatus) -> GatedSend {
    match send(fund_source).status(status) {
        PirStep::Skip(next) => next,
        PirStep::AskAnchor(_) => panic!("PIR does not apply"),
    }
}

fn prepared(result: Result<(), String>) -> GatedSend {
    let PirStep::AskAnchor(query) = send(FundSource::Ironwood).status(CATCHING_UP) else {
        panic!("PIR applies");
    };
    let AnchorStep::Prepare(preparation) = query.anchor(Ok(None)).ok().unwrap() else {
        panic!("there are no witnesses");
    };
    let pir = Pir { network: PirNetwork::Main, activation: 100.into() };
    let PreparationStep::Run(_, running) = preparation.start(Some(&pir)) else {
        panic!("PIR is used");
    };
    running.finished(result)
}

fn ready(fund_source: FundSource) -> ReadySend {
    match skip(fund_source, SyncStatus::Synced).status(SyncStatus::Synced) {
        Ok(GateStep::Ready(next)) => next,
        _ => panic!("the wallet is in sync"),
    }
}

fn text_of(error: RpcError) -> (LegacyCode, String) {
    match error.message {
        Message::Text(text) => (error.code, text),
        Message::Localized { id, .. } => (error.code, id.to_string()),
    }
}

#[test]
fn only_catch_up_ironwood_sends_prepare_pir() {
    let catching_up = SyncStatus::CatchingUp {
        fully_synced: Some(100.into()),
        tip: 200.into(),
    };
    assert!(should_prepare_pir(&catching_up, &FundSource::Ironwood));
    assert!(!should_prepare_pir(&catching_up, &FundSource::Sapling));
    assert!(!should_prepare_pir(
        &SyncStatus::Synced,
        &FundSource::Ironwood
    ));
}

#[test]
fn a_wallet_that_recovers_does_not_prepare_pir() {
    assert!(!should_prepare_pir(&SyncStatus::Recovering, &FundSource::Ironwood));
    assert!(!should_prepare_pir(&CATCHING_UP, &FundSource::Orchard));
    assert!(!should_prepare_pir(&CATCHING_UP, &FundSource::AnyTransparent));
}

#[test]
fn unusable_accounts_are_refused() {
    assert!(named().account_found(Ok(Some(account()))).is_ok());
    assert_eq!(
        named().account_found(Ok(None)).err().map(text_of),
        Some((LegacyCode::InvalidParameter, "err-account-not-found".to_string()))
    );
    assert_eq!(
        named().account_found(Err("disk full".to_string())).err().map(text_of),
        Some((LegacyCode::Database, "disk full".to_string()))
    );
    let watched = || from_account(Account { derivation: None });
    let sapling = JsonValue::String("sapling".to_string());
    assert_eq!(
        watched().fund_source(&sapling, Network::Main).err().map(text_of),
        Some((LegacyCode::InvalidAddressOrKey, "err-account-no-payment-source".to_string()))
    );
    let unknown = JsonValue::String("sprout".to_string());
    assert_eq!(
        watched().fund_source(&unknown, Network::Main).err().map(text_of),
        Some((LegacyCode::InvalidParameter, "err-fund-source-unknown".to_string()))
    );
}

#[test]
fn the_parsed_source_is_the_one_that_is_spent_from() {
    let orchard = JsonValue::String("orchard".to_string());
    let funded = from_account(account()).fund_source(&orchard, Network::Main).ok().unwrap();
    let (_, send) = funded.privacy_policy(Ok(((), String::new()))).ok().unwrap();
    let (_, send) = send.confirmations(Ok(())).ok().unwrap();
    let PirStep::Skip(gated) = send.status(CATCHING_UP) else {
        panic!("PIR does not apply");
    };
    let Ok(GateStep::Ready(ready)) = gated.status(SyncStatus::Synced) else {
        panic!("the wallet is in sync");
    };
    let policy = ready.spend_policy();
    assert!(policy.permits_shielded(zcash_protocol::ShieldedPool::Orchard));
    assert!(!policy.permits_shielded(zcash_protocol::ShieldedPool::Sapling));
    assert_eq!(ready.account(), ACCOUNT);
}

#[test]
fn stored_witnesses_are_used_as_they_are() {
    let PirStep::AskAnchor(query) = send(FundSource::Ironwood).status(CATCHING_UP) else {
        panic!("PIR applies");
    };
    let AnchorStep::Skip(gated) = query.anchor(Ok(Some(180.into()))).ok().unwrap() else {
        panic!("there are witnesses");
    };
    let Ok(GateStep::AskAnchor(query)) = gated.status(CATCHING_UP) else {
        panic!("the wallet catches up");
    };
    assert!(query.anchor(Ok(Some(180.into()))).is_ok());
}

#[test]
fn without_pir_an_ironwood_send_waits_for_sync() {
    let disabled = || {
        let PirStep::AskAnchor(query) = send(FundSource::Ironwood).status(CATCHING_UP) else {
            panic!("PIR applies");
        };
        let AnchorStep::Prepare(preparation) = query.anchor(Ok(None)).ok().unwrap() else {
            panic!("there are no witnesses");
        };
        match preparation.start(None) {
            PreparationStep::Failed(gated) => gated,
            PreparationStep::Run(_, _) => panic!("PIR is not used"),
        }
    };
    assert_eq!(
        disabled().status(CATCHING_UP).err().map(text_of),
        Some((LegacyCode::Wallet, "PIR is disabled".to_string()))
    );
    assert!(matches!(disabled().status(SyncStatus::Synced), Ok(GateStep::Ready(_))));
}

#[test]
fn a_failed_preparation_ends_the_send_unless_the_wallet_caught_up() {
    let failed = || prepared(Err("PIR query timed out".to_string()));
    assert_eq!(
        failed().status(CATCHING_UP).err().map(text_of),
        Some((LegacyCode::Wallet, "PIR query timed out".to_string()))
    );
    assert!(matches!(failed().status(SyncStatus::Synced), Ok(GateStep::Ready(_))));
    assert!(matches!(
        failed().status(SyncStatus::Recovering),
        Ok(GateStep::AskAvailability(_))
    ));
}

#[test]
fn an_ironwood_send_needs_witnesses_while_the_wallet_catches_up() {
    let query = || match prepared(Ok(())).status(CATCHING_UP) {
        Ok(GateStep::AskAnchor(query)) => query,
        _ => panic!("the wallet catches up"),
    };
    assert_eq!(
        query().anchor(Ok(None)).err().map(text_of),
        Some((
            LegacyCode::Wallet,
            "PIR witnesses are not available for an Ironwood send".to_string()
        ))
    );
    let ready = query().anchor(Ok(Some(180.into()))).ok().unwrap();
    assert!(ready.spend_policy().permits_shielded(zcash_protocol::ShieldedPool::Ironwood));
}

#[test]
fn other_sends_wait_until_the_funds_are_available() {
    let query = || match skip(FundSource::Sapling, CATCHING_UP).status(CATCHING_UP) {
        Ok(GateStep::AskAvailability(query)) => query,
        _ => panic!("the wallet catches up"),
    };
    assert!(query().availability(Ok(())).is_ok());
    let locked = LegacyCode::Wallet.with_text("syncing");
    assert_eq!(query().availability(Err(locked.clone())).err(), Some(locked));
}

#[test]
fn a_locked_wallet_has_to_be_unlocked() {
    assert_eq!(
        text_of(seed_failure(ErrorKind::Generic, "Wallet is locked")),
        (LegacyCode::WalletUnlockNeeded, "Wallet is locked".to_string())
    );
    assert_eq!(
        text_of(seed_failure(ErrorKind::Init, "Wallet is locked")).0,
        LegacyCode::Database
    );
    assert_eq!(
        text_of(seed_failure(ErrorKind::Generic, "no such seed")),
        (LegacyCode::Database, "no such seed".to_string())
    );
}

#[test]
fn the_viewing_key_is_derived_from_the_seed() {
    let seed = vec![7; 32];
    let expected = UnifiedSpendingKey::from_seed(
        &MAIN_NETWORK,
        &seed,
        zip32::AccountId::try_from(3).unwrap(),
    )
    .unwrap()
    .to_unified_full_viewing_key()
    .encode(&MAIN_NETWORK);
    let derived = |seed: Vec<u8>| {
        let keyed = built(FundSource::Orchard).seed_decrypted(&seed)?;
        let txid = Ok(ReverseHex::encode(&[0x12; 32]));
        let signed = keyed.proved(Ok(String::new()))?.signed(Ok(String::new()))?;
        Ok::<_, RpcError>(signed.extracted(txid)?.viewing_key().encoding.clone())
    };
    assert_eq!(derived(seed), Ok(expected.clone()));
    assert_ne!(derived(vec![8; 32]), Ok(expected));
    assert_eq!(derived(vec![7; 33]).unwrap_err().code, LegacyCode::InvalidAddressOrKey);
    assert_eq!(
        built(FundSource::Orchard).key_derived(Err("bad seed".to_string())).err().map(text_of),
        Some((LegacyCode::InvalidAddressOrKey, "bad seed".to_string()))
    );
}

#[test]
fn account_indices_have_31_bits() {
    assert_eq!(AccountIndex::from_u32(0x7fff_ffff).unwrap().into_u32(), 0x7fff_ffff);
    assert!(AccountIndex::from_u32(0x8000_0000).is_none());
}

#[test]
fn signing_is_strict() {
    let keyed = keyed();
    assert_eq!(keyed.to_prove(), "pczt");
    assert_eq!(
        keyed.proved(Ok("proved".to_string())).ok().unwrap().sign_request(),
        SignRequest {
            pczt: "proved".to_string(),
            privacy_policy: Some("FullPrivacy".to_string()),
            strict: Some(true),
        }
    );
}

#[test]
fn every_failed_step_ends_the_send() {
    let failed = Some(failure());
    assert_eq!(request_built(Err::<(), _>(failure())).err(), failed);
    let (_, requested) = request_built(Ok(())).ok().unwrap();
    assert_eq!(requested.account_named(Err(failure())).err(), failed);
    let funded = || from_account(account()).funded(FundSource::Sapling, Network::Main).ok().unwrap();
    assert_eq!(funded().privacy_policy(Err::<((), _), _>(failure())).err(), failed);
    let (_, acknowledged) = funded().privacy_policy(Ok(((), String::new()))).ok().unwrap();
    assert_eq!(acknowledged.confirmations(Err::<(), _>(failure())).err(), failed);
    assert_eq!(
        ready(FundSource::Sapling).built(Err::<((), _), _>(failure())).err(),
        failed
    );
    let locked = built(FundSource::Sapling).seed_failed(ErrorKind::Generic, "Wallet is locked");
    assert_eq!(locked.code, LegacyCode::WalletUnlockNeeded);
    assert_eq!(keyed().proved(Err(failure())).err(), failed);
    let proved = keyed().proved(Ok(String::new())).ok().unwrap();
    assert_eq!(proved.signed(Err(failure())).err(), failed);
    assert_eq!(signed().extracted(Err(failure())).err(), failed);
}

#[test]
fn unreadable_anchors_end_the_send() {
    let PirStep::AskAnchor(query) = send(FundSource::Ironwood).status(CATCHING_UP) else {
        panic!("PIR applies");
    };
    let unreadable = Some((LegacyCode::Database, "disk full".to_string()));
    assert_eq!(query.anchor(Err("disk full".to_string())).err().map(text_of), unreadable);
    let Ok(GateStep::AskAnchor(query)) = prepared(Ok(())).status(CATCHING_UP) else {
        panic!("the wallet catches up");
    };
    assert_eq!(query.anchor(Err("disk full".to_string())).err().map(text_of), unreadable);
}

#[test]
fn transaction_identifiers_are_shown_in_reverse() {
    let mut txid = [0; 32];
    for (i, byte) in txid.iter_mut().enumerate() {
        *byte = 8 * i as u8 + 5;
    }
    let shown = ReverseHex::encode(&txid);
    assert!(shown.starts_with("fdf5ed"));
    assert_eq!(decode_txid(&shown), Ok(txid));
    assert_eq!(decode_txid(&shown.to_uppercase()), Ok(txid));
}

#[test]
fn other_strings_are_no_transaction_identifiers() {
    let failure = Err(LegacyCode::Misc.with_text("Failed to decode txid"));
    assert_eq!(decode_txid(""), failure);
    assert_eq!(decode_txid(&"a".repeat(63)), failure);
    assert_eq!(decode_txid(&"a".repeat(66)), failure);
    assert_eq!(decode_txid(&"g".repeat(64)), failure);
}

#[test]
fn the_extracted_transaction_alone_is_broadcast() {
    assert_eq!(built(FundSource::Orchard).seed_fingerprint(), [9; 32]);
    let signed_send = signed();
    assert_eq!(signed_send.to_extract(), "signed");
    let shown = ReverseHex::encode(&[0x12; 32]);
    let broadcast = signed_send.extracted(Ok(shown)).ok().unwrap();
    assert_eq!(broadcast.account(), ACCOUNT);
    assert_eq!(broadcast.viewing_key().encoding, "uview1key");
    assert_eq!(*broadcast.transactions(), vec![[0x12; 32]]);
    assert_eq!(
        signed().extracted(Ok("nonsense".to_string())).err(),
        Some(LegacyCode::Misc.with_text("Failed to decode txid"))
    );
}
