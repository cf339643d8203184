//! Laws of `import-address`.

use vstd::prelude::*;

use crate::error::{CommandError, ErrorKind};
use crate::import_address::{
    AccountChosen, AccountStep, AccountUuid, AskBirthday, AskChainState, AwaitChain, ConnectStep,
    DataStep, ImportAddressCmd, ImportData, ImportPlan, ImportedStep, KeyMaterialParse,
    LegacyLookup, LegacyPoolError, ParseImportError, ParsedImport, ResultType, Rewind, UuidLookup,
    WalletImport,
};
use crate::laws;
use crate::network::{BlockHeight, Network};
use crate::text;
use crate::transparent;
use crate::transparent::TransparentAddress;

verus! {

/// How a command came to its account.
pub ghost enum AccountFound {
    Given(UuidLookup),
    Legacy(LegacyLookup),
}

/// A command whose account was found.
pub ghost struct Chosen {
    pub cmd: ImportAddressCmd,
    pub way: AccountFound,
    /// The account that the wallet told, where it was asked for that of the legacy pool.
    pub legacy: AccountUuid,
    pub chosen: AccountChosen,
}

impl Chosen {
    /// Whether the calls were made, each with what the one before gave.
    pub open spec fn made(self) -> bool {
        match self.way {
            AccountFound::Given(lookup) => {
                &&& call_ensures(ImportAddressCmd::begin, (self.cmd,), AccountStep::ByUuid(lookup))
                &&& call_ensures(
                    UuidLookup::found,
                    (lookup, Ok::<bool, String>(true)),
                    Ok::<AccountChosen, CommandError>(self.chosen),
                )
            },
            AccountFound::Legacy(lookup) => {
                &&& call_ensures(
                    ImportAddressCmd::begin,
                    (self.cmd,),
                    AccountStep::LegacyPool(lookup),
                )
                &&& call_ensures(
                    LegacyLookup::found,
                    (lookup, Ok::<AccountUuid, LegacyPoolError>(self.legacy)),
                    Ok::<AccountChosen, CommandError>(self.chosen),
                )
            },
        }
    }

    /// The account that is imported into: the given one, or else that of the legacy pool.
    pub open spec fn account(self) -> AccountUuid {
        match self.cmd.account {
            Some(uuid) => uuid,
            None => self.legacy,
        }
    }
}

/// The account is looked for by its identifier exactly if the operator gave one, and then by
/// that one. An account that the wallet does not have, or cannot look for, ends the command.
pub proof fn the_given_account_is_looked_for(
    cmd: ImportAddressCmd,
    step: AccountStep,
    lookup: UuidLookup,
    in_wallet: Result<bool, String>,
    found: Result<AccountChosen, CommandError>,
)
    requires
        call_ensures(ImportAddressCmd::begin, (cmd,), step),
        call_ensures(UuidLookup::found, (lookup, in_wallet), found),
    ensures
        step is ByUuid <==> cmd.account is Some,
        step matches AccountStep::ByUuid(next) ==> forall|uuid: AccountUuid| #[trigger]
            call_ensures(UuidLookup::uuid, (&next,), uuid) ==> cmd.account == Some(uuid),
        found is Ok <==> in_wallet matches Ok(true),
        in_wallet matches Ok(false) ==> (found matches Err(e) && e.kind == ErrorKind::Generic
            && laws::message_names(e.message, "err-account-not-found"@)),
        in_wallet matches Err(reason) ==> (found matches Err(e) && laws::command_says(
            e,
            ErrorKind::Generic,
            reason@,
        )),
{
}

/// A legacy pool that cannot be found ends the command, and the operator is told why.
pub proof fn a_missing_legacy_pool_is_told(
    lookup: LegacyLookup,
    found: Result<AccountUuid, LegacyPoolError>,
    r: Result<AccountChosen, CommandError>,
)
    requires
        call_ensures(LegacyLookup::found, (lookup, found), r),
    ensures
        r is Ok <==> found is Ok,
        r matches Err(e) ==> e.kind == ErrorKind::Generic,
        found matches Err(LegacyPoolError::Disabled) ==> laws::message_names(
            (r->Err_0).message,
            "err-import-address-legacy-disabled"@,
        ),
        found matches Err(LegacyPoolError::NotFound(seed_fp)) ==> laws::message_names_with(
            (r->Err_0).message,
            "err-import-address-legacy-not-found"@,
            "seed_fp"@,
            seed_fp@,
        ),
        found matches Err(LegacyPoolError::Db(reason)) ==> laws::message_says(
            (r->Err_0).message,
            reason@,
        ),
{
}

/// How the data of a command came to be understood.
pub ghost enum Understood {
    Address,
    KeyMaterial(KeyMaterialParse, ParsedImport),
}

/// A command whose data was understood.
pub ghost struct Planned {
    pub chosen: Chosen,
    pub network: Network,
    pub way: Understood,
    pub plan: ImportPlan,
}

impl Planned {
    /// Whether the calls were made, each with what the one before gave.
    pub open spec fn made(self) -> bool {
        &&& self.chosen.made()
        &&& match self.way {
            Understood::Address => call_ensures(
                AccountChosen::decode,
                (self.chosen.chosen, self.network),
                DataStep::Ready(self.plan),
            ),
            Understood::KeyMaterial(parse, material) => {
                &&& call_ensures(
                    AccountChosen::decode,
                    (self.chosen.chosen, self.network),
                    DataStep::ParseKeyMaterial(parse),
                )
                &&& call_ensures(
                    KeyMaterialParse::parsed,
                    (parse, Ok::<ParsedImport, ParseImportError>(material)),
                    Ok::<ImportPlan, CommandError>(self.plan),
                )
            },
        }
    }
}

/// Data that is a transparent address of the network is imported as that address; all other
/// data is parsed as key material, as it was given.
pub proof fn addresses_are_told_from_key_material(
    chosen: Chosen,
    network: Network,
    step: DataStep,
)
    requires
        chosen.made(),
        call_ensures(AccountChosen::decode, (chosen.chosen, network), step),
    ensures
        step is Ready <==> transparent::transparent_decoding(network, chosen.cmd.data@) is Some,
        step matches DataStep::ParseKeyMaterial(next) ==> forall|data: &str| #[trigger]
            call_ensures(KeyMaterialParse::to_parse, (&next,), data) ==> data@ == chosen.cmd.data@,
{
}

/// Data that is no key material ends the command, and the operator is told why.
pub proof fn wrong_key_material_is_told(
    parse: KeyMaterialParse,
    parsed: Result<ParsedImport, ParseImportError>,
    r: Result<ImportPlan, CommandError>,
)
    requires
        call_ensures(KeyMaterialParse::parsed, (parse, parsed), r),
    ensures
        r is Ok <==> parsed is Ok,
        r matches Err(e) ==> e.kind == ErrorKind::Generic,
        parsed matches Err(ParseImportError::InvalidHex) ==> laws::message_names(
            (r->Err_0).message,
            "err-import-address-unrecognized"@,
        ),
        parsed matches Err(ParseImportError::NotKeyOrScript) ==> laws::message_names(
            (r->Err_0).message,
            "err-import-address-not-key-or-script"@,
        ),
{
}

/// Goes on with what came of decoding, as decoding itself does.
pub proof fn decoded_data_is_imported_as_it_was_decoded(
    chosen: Chosen,
    network: Network,
    decoded: Option<TransparentAddress>,
    step: DataStep,
)
    requires
        chosen.made(),
        call_ensures(AccountChosen::data_decoded, (chosen.chosen, network, decoded), step),
    ensures
        step is Ready <==> decoded is Some,
        step matches DataStep::Ready(plan) ==> plan.data() == ImportData::Address(decoded->0)
            && plan.account() == chosen.account() && plan.network() == network && plan.no_rescan()
            == chosen.cmd.no_rescan,
{
}

/// The chain is connected to exactly if a rescan is wanted, and before the wallet is modified.
/// A chain that cannot be connected to ends the command with its own error.
pub proof fn the_chain_is_connected_to_before_the_wallet_is_modified<C>(
    planned: Planned,
    step: ConnectStep,
    next: AwaitChain,
    chain: Result<C, CommandError>,
    connected: Result<(C, WalletImport), CommandError>,
)
    requires
        planned.made(),
        call_ensures(ImportPlan::connect, (planned.plan,), step),
        call_ensures(AwaitChain::connected::<C>, (next, chain), connected),
    ensures
        step is Connect <==> !planned.chosen.cmd.no_rescan,
        match chain {
            Ok(own) => connected matches Ok((handed_on, _)) && handed_on == own,
            Err(error) => connected == Err::<(C, WalletImport), CommandError>(error),
        },
{
}

/// How a command came to modify the wallet.
pub ghost enum Connected<C> {
    Offline,
    Online(AwaitChain, C),
}

/// A command that modifies the wallet.
pub ghost struct Importing<C> {
    pub planned: Planned,
    pub way: Connected<C>,
    pub import: WalletImport,
}

impl<C> Importing<C> {
    /// Whether the calls were made, each with what the one before gave.
    pub open spec fn made(self) -> bool {
        &&& self.planned.made()
        &&& match self.way {
            Connected::Offline => call_ensures(
                ImportPlan::connect,
                (self.planned.plan,),
                ConnectStep::Import(self.import),
            ),
            Connected::Online(next, chain) => {
                &&& call_ensures(
                    ImportPlan::connect,
                    (self.planned.plan,),
                    ConnectStep::Connect(next),
                )
                &&& call_ensures(
                    AwaitChain::connected::<C>,
                    (next, Ok::<C, CommandError>(chain)),
                    Ok::<(C, WalletImport), CommandError>((chain, self.import)),
                )
            },
        }
    }
}

/// What the operator asked for is what the wallet is told to import: into the given account, or
/// else into that of the legacy pool, the address that the data is, or else the key material
/// that it was parsed to.
pub proof fn what_was_asked_for_is_imported<C>(
    importing: Importing<C>,
    target: (AccountUuid, &ImportData),
)
    requires
        importing.made(),
        call_ensures(WalletImport::import, (&importing.import,), target),
    ensures
        target.0 == importing.planned.chosen.account(),
        match importing.planned.way {
            Understood::Address => transparent::transparent_decoding(
                importing.planned.network,
                importing.planned.chosen.cmd.data@,
            ) matches Some(address) && *target.1 == ImportData::Address(address),
            Understood::KeyMaterial(_, material) => *target.1 == ImportData::KeyMaterial(material),
        },
        importing.way is Online <==> !importing.planned.chosen.cmd.no_rescan,
{
}

/// Earlier transactions are looked for exactly if the operator did not forgo it. What is printed
/// is the address: a bare one as it was given, with its kind, and that of key material as it
/// was parsed. An import that fails ends the command with the reason.
pub proof fn the_imported_address_is_what_is_printed<C>(
    importing: Importing<C>,
    imported: Result<(), String>,
    r: Result<ImportedStep, CommandError>,
)
    requires
        importing.made(),
        call_ensures(WalletImport::imported, (importing.import, imported), r),
    ensures
        r is Ok <==> imported is Ok,
        imported matches Err(reason) ==> (r matches Err(e) && laws::command_says(
            e,
            ErrorKind::Generic,
            reason@,
        )),
        r matches Ok(step) ==> (step is Print <==> importing.planned.chosen.cmd.no_rescan),
        r matches Ok(step) ==> ({
            let result = match step {
                ImportedStep::Print(result) => result,
                ImportedStep::Rescan(next) => next.result(),
            };
            match importing.planned.way {
                Understood::Address => result.address@ == importing.planned.chosen.cmd.data@ && (
                transparent::transparent_decoding(
                    importing.planned.network,
                    importing.planned.chosen.cmd.data@,
                ) matches Some(address) && (address is PublicKeyHash ==> result.kind@ == "p2pkh"@)
                    && (address is ScriptHash ==> result.kind@ == "p2sh"@)),
                Understood::KeyMaterial(_, ParsedImport::P2pkh { pubkey: _, result: own }) =>
                result.address@ == own.address@ && result.kind@ == own.kind@,
                Understood::KeyMaterial(_, ParsedImport::P2sh { script: _, result: own }) =>
                result.address@ == own.address@ && result.kind@ == own.kind@,
            }
        }),
        r matches Ok(ImportedStep::Rescan(next)) ==> forall|account: AccountUuid| #[trigger]
            call_ensures(AskBirthday::of_account, (&next,), account) ==> account
                == importing.planned.chosen.account(),
{
}

/// A rescan from the answer about the account's birthday to its end.
pub ghost struct Rescanning<S> {
    pub ask: AskBirthday,
    pub birthday: BlockHeight,
    pub ask_state: AskChainState,
    pub state: S,
    pub rewind: Rewind,
}

impl<S> Rescanning<S> {
    /// Whether the calls were made, each with what the one before gave.
    pub open spec fn made(self) -> bool {
        &&& call_ensures(
            AskBirthday::birthday,
            (self.ask, Ok::<BlockHeight, String>(self.birthday)),
            Ok::<AskChainState, CommandError>(self.ask_state),
        )
        &&& call_ensures(
            AskChainState::chain_state::<S>,
            (self.ask_state, Ok::<Option<S>, String>(Some(self.state))),
            Ok::<(S, Rewind), CommandError>((self.state, self.rewind)),
        )
    }
}

/// The wallet is rewound to the chain's state just before the account's birthday, so that no
/// block from the birthday on is left out, and the line that is logged names the birthday. The
/// printed address is the imported one.
pub proof fn the_wallet_is_rewound_to_before_the_birthday<S>(
    rescan: Rescanning<S>,
    height: BlockHeight,
    imported: &ResultType,
    line: String,
    printed: ResultType,
)
    requires
        rescan.made(),
        call_ensures(AskChainState::height, (&rescan.ask_state,), height),
        call_ensures(AskBirthday::imported, (&rescan.ask,), imported),
        call_ensures(
            Rewind::rewound,
            (rescan.rewind, Ok::<(), String>(())),
            Ok::<(String, ResultType), CommandError>((line, printed)),
        ),
    ensures
        rescan.birthday.0 > 0 ==> height.0 + 1 == rescan.birthday.0,
        rescan.birthday.0 == 0 ==> height.0 == 0,
        line@ == "Rescan queued from height "@ + text::decimal(rescan.birthday.0 as nat),
        printed == *imported,
{
}

/// A step of a rescan that fails ends the command with the reason: as an error of the chain
/// where the chain failed, or has no such state, and else as a general one.
pub proof fn failed_rescans_are_told<S>(
    ask: AskBirthday,
    birthday: Result<BlockHeight, String>,
    asked: Result<AskChainState, CommandError>,
    ask_state: AskChainState,
    state: Result<Option<S>, String>,
    found: Result<(S, Rewind), CommandError>,
    rewind: Rewind,
    rewound: Result<(), String>,
    ended: Result<(String, ResultType), CommandError>,
)
    requires
        call_ensures(AskBirthday::birthday, (ask, birthday), asked),
        call_ensures(AskChainState::chain_state::<S>, (ask_state, state), found),
        call_ensures(Rewind::rewound, (rewind, rewound), ended),
    ensures
        asked is Ok <==> birthday is Ok,
        birthday matches Err(reason) ==> (asked matches Err(e) && laws::command_says(
            e,
            ErrorKind::Generic,
            reason@,
        )),
        found is Ok <==> state matches Ok(Some(_)),
        state matches Ok(None) ==> (found matches Err(e) && e.kind == ErrorKind::Chain
            && laws::message_names(e.message, "err-import-address-no-chain-state"@)),
        state matches Err(reason) ==> (found matches Err(e) && laws::command_says(
            e,
            ErrorKind::Chain,
            reason@,
        )),
        ended is Ok <==> rewound is Ok,
        rewound matches Err(reason) ==> (ended matches Err(e) && laws::command_says(
            e,
            ErrorKind::Generic,
            reason@,
        )),
{
}

/// The logged line names the kind and the address.
pub proof fn imports_are_logged_with_their_address(result: ResultType, line: String)
    requires
        call_ensures(ResultType::log_line, (&result,), line),
    ensures
        line@ == "Imported watch-only "@ + result.kind@ + " address "@ + result.address@,
{
}

} // verus!
