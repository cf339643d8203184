//! `import-address`: watches a transparent address.
//!
//! The command runs as a chain of states. Each state has one method for what comes back from
//! the wallet or the chain, and that method gives the next state or the error that ends the
//! command. Where the chain is needed it is connected to before the wallet is modified, so
//! that a chain that cannot be reached leaves the wallet as it was.

use vstd::prelude::*;
use vstd::string::*;

use crate::error;
use crate::error::{CommandError, ErrorKind, Message};
use crate::network::{BlockHeight, Network};
use crate::text;
use crate::transparent;
use crate::transparent::TransparentAddress;

verus! {

/// The identifier of an account.
#[derive(Clone, Copy, Debug, PartialEq, Eq, Structural)]
pub struct AccountUuid(pub u128);

/// What the operator asks for.
#[derive(Clone, Debug, PartialEq, Eq)]
pub struct ImportAddressCmd {
    /// The account to import into; the legacy pool's if none is given.
    pub account: Option<AccountUuid>,
    /// An address, or the hexadecimal form of a public key or a redeem script.
    pub data: String,
    /// Whether to import without looking for earlier transactions.
    pub no_rescan: bool,
}

/// Why the account that holds the legacy pool of funds cannot be found.
#[derive(Clone, Debug, PartialEq, Eq)]
pub enum LegacyPoolError {
    /// No legacy pool is configured.
    Disabled,
    /// The wallet has no account for the seed with this fingerprint.
    NotFound(String),
    /// The database cannot be read.
    Db(String),
}

/// Why hexadecimal data is no key material.
#[derive(Clone, Copy, Debug, PartialEq, Eq, Structural)]
pub enum ParseImportError {
    InvalidHex,
    NotKeyOrScript,
}

/// The imported address.
#[derive(Clone, Debug, PartialEq, Eq)]
pub struct ResultType {
    /// The kind of the address: `p2pkh` or `p2sh`.
    pub kind: &'static str,
    /// The address.
    pub address: String,
}

/// Key material, and the address that belongs to it.
#[derive(Clone, Debug, PartialEq, Eq)]
pub enum ParsedImport {
    /// A public key.
    P2pkh { pubkey: Vec<u8>, result: ResultType },
    /// A redeem script.
    P2sh { script: Vec<u8>, result: ResultType },
}

/// What is imported.
#[derive(Clone, Debug, PartialEq, Eq)]
pub enum ImportData {
    /// An address without key material.
    Address(TransparentAddress),
    /// Key material.
    KeyMaterial(ParsedImport),
}

/// The error that a [`LegacyPoolError`] ends the command with.
pub open spec fn legacy_pool_message(error: LegacyPoolError) -> error::MessageView {
    match error {
        LegacyPoolError::Disabled => error::localized("err-import-address-legacy-disabled"@),
        LegacyPoolError::NotFound(seed_fp) => error::localized_with(
            "err-import-address-legacy-not-found"@,
            "seed_fp"@,
            seed_fp@,
        ),
        LegacyPoolError::Db(message) => error::MessageView::Text(message@),
    }
}

/// The error that a [`ParseImportError`] ends the command with.
pub open spec fn parse_import_message(error: ParseImportError) -> error::MessageView {
    match error {
        ParseImportError::InvalidHex => error::localized("err-import-address-unrecognized"@),
        ParseImportError::NotKeyOrScript => error::localized(
            "err-import-address-not-key-or-script"@,
        ),
    }
}

/// The name of an address's kind.
pub open spec fn kind_label(address: TransparentAddress) -> Seq<char> {
    match address {
        TransparentAddress::PublicKeyHash(_) => "p2pkh"@,
        TransparentAddress::ScriptHash(_) => "p2sh"@,
    }
}

/// Whether `result` names the address that `data` is imported as.
pub open spec fn result_of(network: Network, data: ImportData, result: ResultType) -> bool {
    match data {
        ImportData::Address(address) => result.kind@ == kind_label(address) && result.address@
            == transparent::transparent_encoding(network, address),
        ImportData::KeyMaterial(ParsedImport::P2pkh { pubkey, result: own }) => result.kind@
            == own.kind@ && result.address@ == own.address@,
        ImportData::KeyMaterial(ParsedImport::P2sh { script, result: own }) => result.kind@
            == own.kind@ && result.address@ == own.address@,
    }
}

/// A command that asks the wallet for the account with the given identifier.
pub struct UuidLookup {
    cmd: ImportAddressCmd,
    uuid: AccountUuid,
}

/// A command that asks the wallet for the account that holds the legacy pool of funds.
pub struct LegacyLookup {
    cmd: ImportAddressCmd,
}

/// How the account is looked up.
pub enum AccountStep {
    /// By its identifier.
    ByUuid(UuidLookup),
    /// As the one that holds the legacy pool of funds.
    LegacyPool(LegacyLookup),
}

/// A command whose account is found.
pub struct AccountChosen {
    cmd: ImportAddressCmd,
    account: AccountUuid,
}

/// Whether a command that imports into `account` imports into the account that it was given, if
/// it was given one.
pub open spec fn account_fits(cmd: ImportAddressCmd, account: AccountUuid) -> bool {
    cmd.account matches Some(uuid) ==> account == uuid
}

/// A command whose data is not an address: it is parsed as key material.
pub struct KeyMaterialParse {
    data: String,
    account: AccountUuid,
    network: Network,
    no_rescan: bool,
}

/// A command whose data is understood.
pub struct ImportPlan {
    account: AccountUuid,
    network: Network,
    data: ImportData,
    no_rescan: bool,
}

/// What follows on finding the account.
pub enum DataStep {
    /// The data is parsed as key material.
    ParseKeyMaterial(KeyMaterialParse),
    /// The data is an address.
    Ready(ImportPlan),
}

/// A command that connects to the chain.
pub struct AwaitChain {
    plan: ImportPlan,
}

/// A command that modifies the wallet next.
pub struct WalletImport {
    plan: ImportPlan,
    chain_connected: bool,
}

/// What follows on understanding the data.
pub enum ConnectStep {
    /// The chain is connected to.
    Connect(AwaitChain),
    /// The wallet is modified.
    Import(WalletImport),
}

/// A command that has modified the wallet and asks it for the account's birthday.
pub struct AskBirthday {
    account: AccountUuid,
    result: ResultType,
}

/// A command that asks the chain for its state before the account's birthday.
pub struct AskChainState {
    birthday: BlockHeight,
    result: ResultType,
}

/// A command that rewinds the wallet to the chain's state before the account's birthday.
pub struct Rewind {
    birthday: BlockHeight,
    result: ResultType,
}

/// What follows on modifying the wallet.
pub enum ImportedStep {
    /// Earlier transactions are of no interest: the address is printed.
    Print(ResultType),
    /// Earlier transactions are looked for.
    Rescan(AskBirthday),
}

impl ImportAddressCmd {
    /// Says how the account is looked up.
    pub fn begin(self) -> (r: AccountStep)
        ensures
            match self.account {
                Some(uuid) => r matches AccountStep::ByUuid(next) && next.cmd() == self
                    && next.wanted() == uuid,
                None => r matches AccountStep::LegacyPool(next) && next.cmd() == self,
            },
    {
        match self.account {
            Some(uuid) => AccountStep::ByUuid(UuidLookup { cmd: self, uuid }),
            None => AccountStep::LegacyPool(LegacyLookup { cmd: self }),
        }
    }
}

impl UuidLookup {
    pub closed spec fn cmd(self) -> ImportAddressCmd {
        self.cmd
    }

    pub closed spec fn wanted(self) -> AccountUuid {
        self.uuid
    }

    #[verifier::type_invariant]
    spec fn inv(self) -> bool {
        self.cmd.account == Some(self.uuid)
    }

    /// The account to look for.
    pub fn uuid(&self) -> (r: AccountUuid)
        ensures
            r == self.wanted(),
    {
        self.uuid
    }

    /// The wallet told whether it has the account, or why it cannot tell.
    pub fn found(self, in_wallet: Result<bool, String>) -> (r: Result<AccountChosen, CommandError>)
        ensures
            match in_wallet {
                Ok(true) => r matches Ok(next) && next.cmd() == self.cmd() && next.account()
                    == self.wanted() && account_fits(next.cmd(), next.account()),
                Ok(false) => r matches Err(e) && e@ == error::command_error(
                    ErrorKind::Generic,
                    error::localized("err-account-not-found"@),
                ),
                Err(reason) => r matches Err(e) && e@ == error::command_text(
                    ErrorKind::Generic,
                    reason@,
                ),
            },
    {
        proof {
            use_type_invariant(&self);
        }
        match ErrorKind::Generic.or_text(in_wallet) {
            Ok(true) => Ok(AccountChosen { cmd: self.cmd, account: self.uuid }),
            Ok(false) => Err(
                ErrorKind::Generic.context(Message::localized("err-account-not-found")),
            ),
            Err(error) => Err(error),
        }
    }
}

impl LegacyLookup {
    pub closed spec fn cmd(self) -> ImportAddressCmd {
        self.cmd
    }

    #[verifier::type_invariant]
    spec fn inv(self) -> bool {
        self.cmd.account is None
    }

    /// The wallet told the account, or why it cannot be found.
    pub fn found(self, found: Result<AccountUuid, LegacyPoolError>) -> (r: Result<
        AccountChosen,
        CommandError,
    >)
        ensures
            match found {
                Ok(account) => r matches Ok(next) && next.cmd() == self.cmd() && next.account()
                    == account && account_fits(next.cmd(), next.account()),
                Err(error) => r matches Err(e) && e@ == error::command_error(
                    ErrorKind::Generic,
                    legacy_pool_message(error),
                ),
            },
    {
        proof {
            use_type_invariant(&self);
        }
        match found {
            Ok(account) => Ok(AccountChosen { cmd: self.cmd, account }),
            Err(LegacyPoolError::Disabled) => Err(
                ErrorKind::Generic.context(
                    Message::localized("err-import-address-legacy-disabled"),
                ),
            ),
            Err(LegacyPoolError::NotFound(seed_fp)) => Err(
                ErrorKind::Generic.context(
                    Message::localized_with(
                        "err-import-address-legacy-not-found",
                        "seed_fp",
                        seed_fp.as_str(),
                    ),
                ),
            ),
            Err(LegacyPoolError::Db(message)) => Err(
                ErrorKind::Generic.context(Message::Text(message)),
            ),
        }
    }
}

/// Whether `data` is the written form of `address`.
pub open spec fn is_written_form(
    network: Network,
    data: Seq<char>,
    address: TransparentAddress,
) -> bool {
    transparent::transparent_encoding(network, address) == data
}

impl AccountChosen {
    pub closed spec fn cmd(self) -> ImportAddressCmd {
        self.cmd
    }

    pub closed spec fn account(self) -> AccountUuid {
        self.account
    }

    /// A bare transparent address is imported as it is, everything else is parsed as key
    /// material.
    pub fn decode(self, network: Network) -> (r: DataStep)
        ensures
            match transparent::transparent_decoding(network, self.cmd().data@) {
                Some(address) => is_written_form(network, self.cmd().data@, address) && (r matches
                    DataStep::Ready(plan) && plan.account() == self.account() && plan.network()
                    == network && plan.data() == ImportData::Address(address) && plan.no_rescan()
                    == self.cmd().no_rescan),
                None => r matches DataStep::ParseKeyMaterial(next) && next.account()
                    == self.account() && next.network() == network && next.no_rescan()
                    == self.cmd().no_rescan && next.data() == self.cmd().data@,
            },
    {
        let decoded = transparent::decode_transparent(network, self.cmd.data.as_str());
        self.data_decoded(network, decoded)
    }

    /// Goes on with what came of decoding the data as a transparent address.
    pub fn data_decoded(self, network: Network, decoded: Option<TransparentAddress>) -> (r:
        DataStep)
        ensures
            match decoded {
                Some(address) => r matches DataStep::Ready(plan) && plan.account()
                    == self.account() && plan.network() == network && plan.data()
                    == ImportData::Address(address) && plan.no_rescan() == self.cmd().no_rescan,
                None => r matches DataStep::ParseKeyMaterial(next) && next.account()
                    == self.account() && next.network() == network && next.no_rescan()
                    == self.cmd().no_rescan && next.data() == self.cmd().data@,
            },
    {
        match decoded {
            Some(address) => DataStep::Ready(
                ImportPlan {
                    account: self.account,
                    network,
                    data: ImportData::Address(address),
                    no_rescan: self.cmd.no_rescan,
                },
            ),
            None => DataStep::ParseKeyMaterial(
                KeyMaterialParse {
                    data: self.cmd.data,
                    account: self.account,
                    network,
                    no_rescan: self.cmd.no_rescan,
                },
            ),
        }
    }
}

impl KeyMaterialParse {
    pub closed spec fn data(self) -> Seq<char> {
        self.data@
    }

    pub closed spec fn account(self) -> AccountUuid {
        self.account
    }

    pub closed spec fn network(self) -> Network {
        self.network
    }

    pub closed spec fn no_rescan(self) -> bool {
        self.no_rescan
    }

    /// The data to parse as key material.
    pub fn to_parse(&self) -> (r: &str)
        ensures
            r@ == self.data(),
    {
        self.data.as_str()
    }

    /// The data was parsed as key material.
    pub fn parsed(self, parsed: Result<ParsedImport, ParseImportError>) -> (r: Result<
        ImportPlan,
        CommandError,
    >)
        ensures
            match parsed {
                Ok(material) => r matches Ok(plan) && plan.account() == self.account()
                    && plan.network() == self.network() && plan.data()
                    == ImportData::KeyMaterial(material) && plan.no_rescan() == self.no_rescan(),
                Err(error) => r matches Err(e) && e@ == error::command_error(
                    ErrorKind::Generic,
                    parse_import_message(error),
                ),
            },
    {
        match parsed {
            Ok(material) => Ok(
                ImportPlan {
                    account: self.account,
                    network: self.network,
                    data: ImportData::KeyMaterial(material),
                    no_rescan: self.no_rescan,
                },
            ),
            Err(ParseImportError::InvalidHex) => Err(
                ErrorKind::Generic.context(Message::localized("err-import-address-unrecognized")),
            ),
            Err(ParseImportError::NotKeyOrScript) => Err(
                ErrorKind::Generic.context(
                    Message::localized("err-import-address-not-key-or-script"),
                ),
            ),
        }
    }
}

impl ImportPlan {
    pub closed spec fn account(self) -> AccountUuid {
        self.account
    }

    pub closed spec fn network(self) -> Network {
        self.network
    }

    pub closed spec fn data(self) -> ImportData {
        self.data
    }

    pub closed spec fn no_rescan(self) -> bool {
        self.no_rescan
    }

    /// What is imported, and into which account.
    pub open spec fn target(self) -> (AccountUuid, ImportData) {
        (self.account(), self.data())
    }

    /// Connects to the chain first, unless earlier transactions are of no interest.
    pub fn connect(self) -> (r: ConnectStep)
        ensures
            match r {
                ConnectStep::Connect(next) => !self.no_rescan() && next.plan() == self,
                ConnectStep::Import(next) => self.no_rescan() && next.plan() == self
                    && !next.chain_connected(),
            },
    {
        if self.no_rescan {
            ConnectStep::Import(WalletImport { plan: self, chain_connected: false })
        } else {
            ConnectStep::Connect(AwaitChain { plan: self })
        }
    }
}

impl AwaitChain {
    pub closed spec fn plan(self) -> ImportPlan {
        self.plan
    }

    /// The chain is connected, or cannot be for the given reason. It is handed on as it is.
    pub fn connected<C>(self, chain: Result<C, CommandError>) -> (r: Result<
        (C, WalletImport),
        CommandError,
    >)
        ensures
            match chain {
                Ok(chain) => r matches Ok((own, next)) && own == chain && next.plan()
                    == self.plan() && next.chain_connected(),
                Err(error) => r matches Err(e) && e == error,
            },
    {
        match chain {
            Ok(chain) => Ok((chain, WalletImport { plan: self.plan, chain_connected: true })),
            Err(error) => Err(error),
        }
    }
}

impl WalletImport {
    pub closed spec fn plan(self) -> ImportPlan {
        self.plan
    }

    pub closed spec fn chain_connected(self) -> bool {
        self.chain_connected
    }

    #[verifier::type_invariant]
    spec fn inv(self) -> bool {
        self.plan.no_rescan || self.chain_connected
    }

    /// What to import, and into which account. By now the chain is connected, if it is needed.
    pub fn import(&self) -> (r: (AccountUuid, &ImportData))
        ensures
            (r.0, *r.1) == self.plan().target(),
            self.plan().no_rescan() || self.chain_connected(),
    {
        proof {
            use_type_invariant(self);
        }
        (self.plan.account, &self.plan.data)
    }

    /// The data was imported into the wallet, or could not be for the given reason.
    pub fn imported(self, imported: Result<(), String>) -> (r: Result<ImportedStep, CommandError>)
        ensures
            match imported {
                Ok(_) => {
                    &&& r matches Ok(step)
                    &&& step is Rescan <==> self.chain_connected()
                    &&& step matches ImportedStep::Rescan(next) ==> next.account()
                        == self.plan().account()
                    &&& result_of(self.plan().network(), self.plan().data(), step.result())
                    &&& self.plan().data() matches ImportData::Address(address)
                        ==> transparent::transparent_decoding(
                        self.plan().network(),
                        step.result().address@,
                    ) == Some(address)
                },
                Err(reason) => r matches Err(e) && e@ == error::command_text(
                    ErrorKind::Generic,
                    reason@,
                ),
            },
    {
        if let Err(error) = ErrorKind::Generic.or_text(imported) {
            return Err(error);
        }
        let result = match self.plan.data {
            ImportData::Address(address) => ResultType {
                kind: match address {
                    TransparentAddress::PublicKeyHash(_) => "p2pkh",
                    TransparentAddress::ScriptHash(_) => "p2sh",
                },
                address: transparent::encode_transparent(self.plan.network, address),
            },
            ImportData::KeyMaterial(ParsedImport::P2pkh { pubkey: _, result }) => result,
            ImportData::KeyMaterial(ParsedImport::P2sh { script: _, result }) => result,
        };
        if self.chain_connected {
            Ok(ImportedStep::Rescan(AskBirthday { account: self.plan.account, result }))
        } else {
            Ok(ImportedStep::Print(result))
        }
    }
}

impl ImportedStep {
    /// The imported address.
    pub open spec fn result(self) -> ResultType {
        match self {
            ImportedStep::Print(result) => result,
            ImportedStep::Rescan(next) => next.result(),
        }
    }
}

impl ResultType {
    /// The line that is logged for an import.
    pub fn log_line(&self) -> (r: String)
        ensures
            r@ == "Imported watch-only "@ + self.kind@ + " address "@ + self.address@,
    {
        let mut line = "Imported watch-only ".to_owned();
        line.append(self.kind);
        line.append(" address ");
        line.append(self.address.as_str());
        line
    }
}

impl AskBirthday {
    pub closed spec fn account(self) -> AccountUuid {
        self.account
    }

    pub closed spec fn result(self) -> ResultType {
        self.result
    }

    /// The imported address.
    pub fn imported(&self) -> (r: &ResultType)
        ensures
            *r == self.result(),
    {
        &self.result
    }

    /// The account to ask for the birthday of.
    pub fn of_account(&self) -> (r: AccountUuid)
        ensures
            r == self.account(),
    {
        self.account
    }

    /// The wallet told the height of the account's birthday, or why it cannot.
    pub fn birthday(self, birthday: Result<BlockHeight, String>) -> (r: Result<
        AskChainState,
        CommandError,
    >)
        ensures
            match birthday {
                Ok(birthday) => r matches Ok(next) && next.birthday() == birthday && next.result()
                    == self.result(),
                Err(reason) => r matches Err(e) && e@ == error::command_text(
                    ErrorKind::Generic,
                    reason@,
                ),
            },
    {
        match ErrorKind::Generic.or_text(birthday) {
            Ok(birthday) => Ok(AskChainState { birthday, result: self.result }),
            Err(error) => Err(error),
        }
    }
}

impl AskChainState {
    pub closed spec fn birthday(self) -> BlockHeight {
        self.birthday
    }

    pub closed spec fn result(self) -> ResultType {
        self.result
    }

    /// The height to ask the chain for its state at: that of the block before the account's
    /// birthday.
    pub fn height(&self) -> (r: BlockHeight)
        ensures
            self.birthday().0 > 0 ==> r.0 == self.birthday().0 - 1,
            self.birthday().0 == 0 ==> r.0 == 0,
    {
        self.birthday.previous()
    }

    /// The chain told its state at that height, if it has one, or why it cannot. The state is
    /// handed on as it is.
    pub fn chain_state<S>(self, state: Result<Option<S>, String>) -> (r: Result<
        (S, Rewind),
        CommandError,
    >)
        ensures
            match state {
                Ok(Some(state)) => r matches Ok((own, next)) && own == state && next.birthday()
                    == self.birthday() && next.result() == self.result(),
                Ok(None) => r matches Err(e) && e@ == error::command_error(
                    ErrorKind::Chain,
                    error::localized("err-import-address-no-chain-state"@),
                ),
                Err(reason) => r matches Err(e) && e@ == error::command_text(
                    ErrorKind::Chain,
                    reason@,
                ),
            },
    {
        match ErrorKind::Chain.or_text(state) {
            Ok(Some(state)) => Ok(
                (state, Rewind { birthday: self.birthday, result: self.result }),
            ),
            Ok(None) => Err(
                ErrorKind::Chain.context(Message::localized("err-import-address-no-chain-state")),
            ),
            Err(error) => Err(error),
        }
    }
}

impl Rewind {
    pub closed spec fn birthday(self) -> BlockHeight {
        self.birthday
    }

    pub closed spec fn result(self) -> ResultType {
        self.result
    }

    /// The wallet was rewound, or could not be for the given reason: the line to log, and the
    /// address to print.
    pub fn rewound(self, rewound: Result<(), String>) -> (r: Result<
        (String, ResultType),
        CommandError,
    >)
        ensures
            match rewound {
                Ok(_) => r matches Ok((line, result)) && line@ == "Rescan queued from height "@
                    + text::decimal(self.birthday().0 as nat) && result == self.result(),
                Err(reason) => r matches Err(e) && e@ == error::command_text(
                    ErrorKind::Generic,
                    reason@,
                ),
            },
    {
        if let Err(error) = ErrorKind::Generic.or_text(rewound) {
            return Err(error);
        }
        let mut line = "Rescan queued from height ".to_owned();
        text::push_decimal(&mut line, self.birthday.0 as u64);
        Ok((line, self.result))
    }
}

/// A bare address is printed as it was given.
pub proof fn bare_addresses_are_printed_as_given(
    network: Network,
    data: Seq<char>,
    address: TransparentAddress,
    printed: ResultType,
)
    requires
        is_written_form(network, data, address),
        result_of(network, ImportData::Address(address), printed),
    ensures
        printed.address@ == data,
{
}

impl ParsedImport {
    /// The address that belongs to the key material.
    pub open spec fn own_result(self) -> ResultType {
        match self {
            ParsedImport::P2pkh { pubkey, result } => result,
            ParsedImport::P2sh { script, result } => result,
        }
    }
}

/// Whether the address that belongs to the key material is `address`.
pub open spec fn is_material_of(
    network: Network,
    material: ParsedImport,
    address: TransparentAddress,
) -> bool {
    material.own_result().kind@ == kind_label(address) && material.own_result().address@
        == transparent::transparent_encoding(network, address)
}

/// After an address was imported bare, a command that is given the same account and the
/// address's public key or redeem script imports that key material into the account that the
/// address is in, and prints the same address.
pub proof fn key_material_follows_a_bare_address_into_its_account(
    bare: ImportPlan,
    address: TransparentAddress,
    printed: ResultType,
    cmd: ImportAddressCmd,
    upgrade: ImportPlan,
    material: ParsedImport,
    printed_again: ResultType,
)
    requires
        bare.data() == ImportData::Address(address),
        result_of(bare.network(), bare.data(), printed),
        cmd.account == Some(bare.account()),
        account_fits(cmd, upgrade.account()),
        upgrade.network() == bare.network(),
        upgrade.data() == ImportData::KeyMaterial(material),
        is_material_of(bare.network(), material, address),
        result_of(upgrade.network(), upgrade.data(), printed_again),
    ensures
        upgrade.target() == (bare.account(), ImportData::KeyMaterial(material)),
        printed_again.address@ == printed.address@,
        printed_again.kind@ == printed.kind@,
{
}

} // verus!
