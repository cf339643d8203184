use zallet_core::error::{CommandError, ErrorKind, Message};
use zallet_core::import_address::{
    AccountChosen, AccountStep, AccountUuid, ConnectStep, DataStep, ImportAddressCmd,
    ImportData, ImportPlan, ImportedStep, LegacyPoolError, ParseImportError,
    ParsedImport, ResultType, WalletImport,
};
use zallet_core::network::{BlockHeight, Network};
use zallet_core::transparent::TransparentAddress;

const ADDRESS: &str = "t1SRgDBrpcd4LNMUhGbBfh8S8rs7G335v6R";
const PUBKEY: &str = "03b0da749730dc9b4b1f4a14d6902877a92541f5368778853d9c4a0cb7802dcfb2";
const ACCOUNT: AccountUuid = AccountUuid(0x514ab5f4_62bd_4d8c_94b5_23fa8d8d38c2);

fn cmd(data: &str, no_rescan: bool) -> ImportAddressCmd {
    ImportAddressCmd { account: None, data: data.to_string(), no_rescan }
}

fn legacy(
    cmd: ImportAddressCmd,
    found: Result<AccountUuid, LegacyPoolError>,
) -> Result<AccountChosen, CommandError> {
    match cmd.begin() {
        AccountStep::LegacyPool(lookup) => lookup.found(found),
        AccountStep::ByUuid(_) => panic!("no account was given"),
    }
}

fn chosen(data: &str, no_rescan: bool) -> AccountChosen {
    legacy(cmd(data, no_rescan), Ok(ACCOUNT)).ok().unwrap()
}

fn by_uuid(
    cmd: ImportAddressCmd,
    in_wallet: Result<bool, String>,
) -> Result<AccountChosen, CommandError> {
    match (ImportAddressCmd { account: Some(ACCOUNT), ..cmd }).begin() {
        AccountStep::ByUuid(lookup) => {
            assert_eq!(lookup.uuid(), ACCOUNT);
            lookup.found(in_wallet)
        }
        AccountStep::LegacyPool(_) => panic!("an account was given"),
    }
}

fn data_step(data: &str, no_rescan: bool) -> DataStep {
    chosen(data, no_rescan).decode(Network::Main)
}

fn address_plan(no_rescan: bool) -> ImportPlan {
    match data_step(ADDRESS, no_rescan) {
        DataStep::Ready(plan) => plan,
        DataStep::ParseKeyMaterial(_) => panic!("the data is an address"),
    }
}

fn key_plan(parsed: Result<ParsedImport, ParseImportError>) -> Result<ImportPlan, CommandError> {
    match data_step(PUBKEY, true) {
        DataStep::ParseKeyMaterial(next) => {
            assert_eq!(next.to_parse(), PUBKEY);
            next.parsed(parsed)
        }
        DataStep::Ready(_) => panic!("the data is not an address"),
    }
}

fn offline(plan: ImportPlan) -> WalletImport {
    match plan.connect() {
        ConnectStep::Import(import) => import,
        ConnectStep::Connect(_) => panic!("no rescan was asked for"),
    }
}

fn online(plan: ImportPlan) -> WalletImport {
    match plan.connect() {
        ConnectStep::Connect(next) => {
            let (chain, import) = next.connected(Ok("chain")).ok().unwrap();
            assert_eq!(chain, "chain");
            import
        }
        ConnectStep::Import(_) => panic!("a rescan needs the chain"),
    }
}

fn localized(kind: ErrorKind, id: &'static str) -> CommandError {
    CommandError { kind, message: Message::localized(id) }
}

fn result() -> ResultType {
    ResultType { kind: "p2pkh", address: ADDRESS.to_string() }
}

fn text(kind: ErrorKind, text: &str) -> Option<CommandError> {
    Some(CommandError { kind, message: Message::text(text) })
}

fn printed(import: WalletImport) -> ResultType {
    match import.imported(Ok(())).ok().unwrap() {
        ImportedStep::Print(result) => result,
        ImportedStep::Rescan(_) => panic!("no rescan was asked for"),
    }
}

#[test]
fn the_account_is_the_given_one_or_the_legacy_pool_s() {
    assert!(by_uuid(cmd(ADDRESS, true), Ok(true)).is_ok());
    assert_eq!(
        by_uuid(cmd(ADDRESS, true), Ok(false)).err(),
        Some(localized(ErrorKind::Generic, "err-account-not-found"))
    );
    assert_eq!(
        by_uuid(cmd(ADDRESS, true), Err("disk full".to_string())).err(),
        text(ErrorKind::Generic, "disk full")
    );
    let other = AccountUuid(7);
    let DataStep::Ready(plan) = legacy(cmd(ADDRESS, true), Ok(other)).ok().unwrap().decode(Network::Main)
    else {
        panic!("the data is an address");
    };
    assert_eq!(offline(plan).import().0, other);
}

#[test]
fn a_missing_legacy_pool_is_explained() {
    let missing = |error: LegacyPoolError| legacy(cmd(ADDRESS, true), Err(error)).err();
    assert_eq!(
        missing(LegacyPoolError::Disabled),
        Some(localized(ErrorKind::Generic, "err-import-address-legacy-disabled"))
    );
    assert_eq!(
        missing(LegacyPoolError::NotFound("zip32seedfp1abc".to_string())),
        Some(CommandError {
            kind: ErrorKind::Generic,
            message: Message::localized_with(
                "err-import-address-legacy-not-found",
                "seed_fp",
                "zip32seedfp1abc"
            ),
        })
    );
    assert_eq!(
        missing(LegacyPoolError::Db("locked".to_string())),
        text(ErrorKind::Generic, "locked")
    );
}

#[test]
fn failed_calls_end_the_command_with_their_class() {
    let failed = || "outside failure".to_string();
    let ConnectStep::Connect(next) = address_plan(false).connect() else {
        panic!("a rescan needs the chain");
    };
    let unreachable_chain = localized(ErrorKind::Init, "unreachable");
    assert_eq!(
        next.connected(Err::<(), _>(unreachable_chain.clone())).err(),
        Some(unreachable_chain)
    );
    assert_eq!(
        offline(address_plan(true)).imported(Err(failed())).err(),
        text(ErrorKind::Generic, "outside failure")
    );
    let ask = || match online(address_plan(false)).imported(Ok(())).ok().unwrap() {
        ImportedStep::Rescan(ask) => ask,
        ImportedStep::Print(_) => panic!("a rescan was asked for"),
    };
    assert_eq!(
        ask().birthday(Err(failed())).err(),
        text(ErrorKind::Generic, "outside failure")
    );
    let state = || ask().birthday(Ok(5.into())).ok().unwrap();
    assert_eq!(
        state().chain_state(Err::<Option<()>, _>(failed())).err(),
        text(ErrorKind::Chain, "outside failure")
    );
    let (_, rewind) = state().chain_state(Ok(Some(()))).ok().unwrap();
    assert_eq!(
        rewind.rewound(Err(failed())).err(),
        text(ErrorKind::Generic, "outside failure")
    );
}

#[test]
fn key_material_goes_where_the_bare_address_is() {
    let DataStep::Ready(bare) = by_uuid(cmd(ADDRESS, true), Ok(true)).ok().unwrap().decode(Network::Main)
    else {
        panic!("the data is an address");
    };
    let first = offline(bare);
    let account = first.import().0;
    let DataStep::ParseKeyMaterial(next) =
        by_uuid(cmd(PUBKEY, true), Ok(true)).ok().unwrap().decode(Network::Main)
    else {
        panic!("the data is not an address");
    };
    let pubkey = ParsedImport::P2pkh { pubkey: vec![3, 0xb0], result: result() };
    let second = offline(next.parsed(Ok(pubkey.clone())).ok().unwrap());
    assert_eq!(second.import(), (account, &ImportData::KeyMaterial(pubkey)));
    assert_eq!(printed(first), printed(second));
}

#[test]
fn a_bare_address_is_imported_and_printed() {
    let import = offline(address_plan(true));
    let (account, data) = import.import();
    assert_eq!(account, ACCOUNT);
    assert!(matches!(data, ImportData::Address(TransparentAddress::PublicKeyHash(_))));
    let printed = printed(import);
    assert_eq!(printed, result());
    assert_eq!(
        printed.log_line(),
        "Imported watch-only p2pkh address t1SRgDBrpcd4LNMUhGbBfh8S8rs7G335v6R"
    );
}

#[test]
fn an_address_is_written_for_the_network() {
    let lookup = chosen("", true);
    let hash = TransparentAddress::ScriptHash([3; 20]);
    let DataStep::Ready(plan) = lookup.data_decoded(Network::Test, Some(hash)) else {
        panic!("the data is an address");
    };
    let printed = printed(offline(plan));
    assert_eq!(printed.kind, "p2sh");
    assert!(printed.address.starts_with("t2"));
    let again = chosen(&printed.address, true).decode(Network::Test);
    let DataStep::Ready(plan) = again else {
        panic!("the data is an address");
    };
    assert!(matches!(offline(plan).import().1, ImportData::Address(own) if *own == hash));
}

#[test]
fn addresses_of_other_networks_are_no_addresses() {
    let step = chosen(ADDRESS, true).decode(Network::Test);
    assert!(matches!(step, DataStep::ParseKeyMaterial(_)));
}

#[test]
fn key_material_is_imported_with_its_address() {
    let pubkey = ParsedImport::P2pkh { pubkey: vec![3, 0xb0], result: result() };
    let import = offline(key_plan(Ok(pubkey.clone())).ok().unwrap());
    assert_eq!(import.import(), (ACCOUNT, &ImportData::KeyMaterial(pubkey)));
    assert_eq!(printed(import), result());

    let own = ResultType { kind: "p2sh", address: "t3script".to_string() };
    let script = ParsedImport::P2sh { script: vec![0x51], result: own.clone() };
    assert_eq!(printed(offline(key_plan(Ok(script)).ok().unwrap())), own);
}

#[test]
fn data_that_is_no_key_material_is_refused() {
    assert_eq!(
        key_plan(Err(ParseImportError::InvalidHex)).err(),
        Some(localized(ErrorKind::Generic, "err-import-address-unrecognized"))
    );
    assert_eq!(
        key_plan(Err(ParseImportError::NotKeyOrScript)).err(),
        Some(localized(ErrorKind::Generic, "err-import-address-not-key-or-script"))
    );
}

#[test]
fn a_rescan_connects_first_and_rewinds_to_before_the_birthday() {
    let Ok(ImportedStep::Rescan(ask)) = online(address_plan(false)).imported(Ok(())) else {
        panic!("a rescan was asked for");
    };
    assert_eq!(ask.of_account(), ACCOUNT);
    assert_eq!(*ask.imported(), result());
    let state = ask.birthday(Ok(2_999_500.into())).ok().unwrap();
    assert_eq!(state.height(), BlockHeight(2_999_499));
    let (own, rewind) = state.chain_state(Ok(Some("state"))).ok().unwrap();
    assert_eq!(own, "state");
    let (line, printed) = rewind.rewound(Ok(())).ok().unwrap();
    assert_eq!(line, "Rescan queued from height 2999500");
    assert_eq!(printed, result());
}

#[test]
fn a_chain_without_the_state_ends_the_command() {
    let Ok(ImportedStep::Rescan(ask)) = online(address_plan(false)).imported(Ok(())) else {
        panic!("a rescan was asked for");
    };
    let state = ask.birthday(Ok(0.into())).ok().unwrap();
    assert_eq!(state.height(), BlockHeight(0));
    assert_eq!(
        state.chain_state(Ok(None::<()>)).err(),
        Some(localized(ErrorKind::Chain, "err-import-address-no-chain-state"))
    );
}
