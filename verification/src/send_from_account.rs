//! `z_sendfromaccount`: sends funds from an account in one shot.
//!
//! The source of funds is an account together with an explicit, isolating fund source. The
//! call runs as a chain of states. Each state has one method for what comes back from outside,
//! and that method gives the next state or the error that the call is answered with. The last
//! one gives what is broadcast, so nothing is broadcast once a step has failed.

use vstd::prelude::*;
use vstd::string::*;

use crate::error;
use crate::error::{ErrorKind, LegacyCode, Message, RpcError};
use crate::fund_source;
use crate::fund_source::{FundSource, JsonValue};
use crate::import_address::AccountUuid;
use crate::keys;
use crate::keys::{AccountIndex, UnifiedFullViewingKey};
use crate::network::{BlockHeight, Network};
use crate::pir;
use crate::pir::{Pir, PirError, SendPreparation};
use crate::spend_policy;
use crate::text;
use zcash_client_backend::data_api::wallet::input_selection::SpendPolicy;

verus! {

/// How far the wallet's view of the chain can be trusted.
#[derive(Clone, Copy, Debug, PartialEq, Eq)]
pub enum SyncStatus {
    /// The wallet has scanned the chain.
    Synced,
    /// The wallet scans blocks that it has not seen.
    CatchingUp {
        /// The height that the wallet has scanned up to, if it has scanned at all.
        fully_synced: Option<BlockHeight>,
        /// The height of the chain's tip.
        tip: BlockHeight,
    },
    /// The wallet looks for the past of an account.
    Recovering,
}

/// The key that an account's keys are derived from.
#[derive(Clone, Copy, Debug, PartialEq, Eq)]
pub struct KeyDerivation {
    /// The fingerprint of the seed.
    pub seed_fingerprint: [u8; 32],
    /// The account's index below the seed.
    pub account_index: AccountIndex,
}

/// An account of the wallet.
#[derive(Clone, Copy, Debug, PartialEq, Eq)]
pub struct Account {
    /// How the account's keys are derived, if the wallet knows it.
    pub derivation: Option<KeyDerivation>,
}

/// The error for an account that the wallet does not have.
pub open spec fn account_not_found() -> error::RpcErrorView {
    error::rpc_error(LegacyCode::InvalidParameter, error::localized("err-account-not-found"@))
}

/// The error for an account whose keys the wallet cannot derive.
pub open spec fn no_payment_source() -> error::RpcErrorView {
    error::rpc_error(
        LegacyCode::InvalidAddressOrKey,
        error::localized("err-account-no-payment-source"@),
    )
}

/// The error for a database that cannot be read.
pub open spec fn database_error(reason: Seq<char>) -> error::RpcErrorView {
    error::rpc_text(LegacyCode::Database, reason)
}

/// Whether the spends of a wallet with this status, from this source, are prepared with PIR.
pub open spec fn pir_applies(status: SyncStatus, fund_source: FundSource) -> bool {
    status is CatchingUp && fund_source is Ironwood
}

/// Only sends of Ironwood funds while the wallet catches up are prepared with PIR.
pub fn should_prepare_pir(status: &SyncStatus, fund_source: &FundSource) -> (r: bool)
    ensures
        r == pir_applies(*status, *fund_source),
{
    match (status, fund_source) {
        (SyncStatus::CatchingUp { fully_synced: _, tip: _ }, FundSource::Ironwood) => true,
        _ => false,
    }
}

/// A send whose payments are understood.
pub struct RequestedSend {
    _built: (),
}

/// A send whose account is named.
pub struct NamedSend {
    account_id: AccountUuid,
}

/// A send from an account of the wallet.
pub struct AccountSend {
    account_id: AccountUuid,
    account: Account,
}

/// A send whose source of funds is known.
pub struct FundedSend {
    account_id: AccountUuid,
    network: Network,
    fund_source: FundSource,
    derivation: KeyDerivation,
}

/// A send whose caller has acknowledged what it reveals.
pub struct AcknowledgedSend {
    send: FundedSend,
    privacy_policy: String,
}

/// A send whose parameters are all understood.
pub struct PlannedSend {
    send: FundedSend,
    privacy_policy: String,
}

/// A send that asks the wallet for the anchor of the stored witnesses.
pub struct AnchorQuery {
    send: PlannedSend,
}

/// A send for which witnesses are to be prepared.
pub struct PirPreparation {
    send: PlannedSend,
}

/// A send that waits until the witnesses are prepared.
pub struct PirRunning {
    send: PlannedSend,
}

/// A send that may go on if the wallet's status allows it.
pub struct GatedSend {
    send: PlannedSend,
    prepared: Option<Result<(), String>>,
}

/// A send of Ironwood funds, while the wallet catches up, that asks the wallet for the anchor
/// of the stored witnesses.
pub struct FinalAnchorQuery {
    send: PlannedSend,
    status: SyncStatus,
}

/// A send that waits for whether the wallet's funds are available.
pub struct AvailabilityQuery {
    send: PlannedSend,
    status: SyncStatus,
}

/// A send that goes on.
pub struct ReadySend {
    send: PlannedSend,
    status: SyncStatus,
    anchor: Option<BlockHeight>,
}

/// What follows on reading the wallet's status for the first time.
pub enum PirStep {
    /// The wallet is asked for the anchor of the stored witnesses.
    AskAnchor(AnchorQuery),
    /// PIR does not apply.
    Skip(GatedSend),
}

/// What follows on reading the anchor for the first time.
pub enum AnchorStep {
    /// There are no witnesses: they are prepared.
    Prepare(PirPreparation),
    /// There are witnesses already.
    Skip(GatedSend),
}

/// What follows on the need for witnesses.
pub enum PreparationStep {
    /// Witnesses are prepared.
    Run(SendPreparation, PirRunning),
    /// Witnesses cannot be prepared.
    Failed(GatedSend),
}

/// What follows on reading the wallet's status for the second time.
pub enum GateStep {
    /// The wallet is in sync.
    Ready(ReadySend),
    /// The wallet is asked for the anchor of the stored witnesses.
    AskAnchor(FinalAnchorQuery),
    /// The funds are spent only if the wallet says that they are available.
    AskAvailability(AvailabilityQuery),
}

/// The payments were understood, or not for the given reason. They are handed on as they are.
pub fn request_built<R>(built: Result<R, RpcError>) -> (r: Result<(R, RequestedSend), RpcError>)
    ensures
        match built {
            Ok(request) => r matches Ok((own, _)) && own == request,
            Err(error) => r matches Err(e) && e == error,
        },
{
    match built {
        Ok(request) => Ok((request, RequestedSend { _built: () })),
        Err(error) => Err(error),
    }
}

impl RequestedSend {
    /// The account parameter was understood, or not for the given reason.
    pub fn account_named(self, named: Result<AccountUuid, RpcError>) -> (r: Result<
        NamedSend,
        RpcError,
    >)
        ensures
            match named {
                Ok(account_id) => r matches Ok(next) && next.account_id() == account_id,
                Err(error) => r matches Err(e) && e == error,
            },
    {
        match named {
            Ok(account_id) => Ok(NamedSend { account_id }),
            Err(error) => Err(error),
        }
    }
}

impl NamedSend {
    pub closed spec fn account_id(self) -> AccountUuid {
        self.account_id
    }

    /// The account to look for.
    pub fn account(&self) -> (r: AccountUuid)
        ensures
            r == self.account_id(),
    {
        self.account_id
    }

    /// The wallet told whether it has the account, or why it cannot tell.
    pub fn account_found(self, found: Result<Option<Account>, String>) -> (r: Result<
        AccountSend,
        RpcError,
    >)
        ensures
            match found {
                Ok(Some(account)) => r matches Ok(next) && next.account_id() == self.account_id()
                    && next.account() == account,
                Ok(None) => r matches Err(e) && e@ == account_not_found(),
                Err(reason) => r matches Err(e) && e@ == database_error(reason@),
            },
    {
        match found {
            Ok(Some(account)) => Ok(AccountSend { account_id: self.account_id, account }),
            Ok(None) => Err(
                LegacyCode::InvalidParameter.with_message(
                    Message::localized("err-account-not-found"),
                ),
            ),
            Err(reason) => Err(LegacyCode::Database.with_text(reason.as_str())),
        }
    }
}

impl AccountSend {
    pub closed spec fn account_id(self) -> AccountUuid {
        self.account_id
    }

    pub closed spec fn account(self) -> Account {
        self.account
    }

    /// Parses the source of funds; then the account's keys have to be derivable.
    pub fn fund_source(self, value: &JsonValue, network: Network) -> (r: Result<
        FundedSend,
        RpcError,
    >)
        ensures
            match r {
                Ok(send) => fund_source::parses_to(
                    *value,
                    network,
                    Ok::<FundSource, RpcError>(send.fund_source()),
                ) && self.account().derivation == Some(send.derivation()) && send.network()
                    == network && send.account_id() == self.account_id(),
                Err(e) => {
                    ||| fund_source::parses_to(*value, network, Err::<FundSource, RpcError>(e))
                    ||| {
                        &&& self.account().derivation is None
                        &&& e@ == no_payment_source()
                        &&& exists|source: FundSource| #[trigger]
                            fund_source::parses_to(
                                *value,
                                network,
                                Ok::<FundSource, RpcError>(source),
                            )
                    }
                },
            },
    {
        match FundSource::parse(value, network) {
            Ok(fund_source) => self.funded(fund_source, network),
            Err(error) => Err(error),
        }
    }

    /// Goes on with a source of funds that is parsed.
    pub fn funded(self, fund_source: FundSource, network: Network) -> (r: Result<
        FundedSend,
        RpcError,
    >)
        ensures
            match self.account().derivation {
                Some(derivation) => r matches Ok(send) && send.fund_source() == fund_source
                    && send.derivation() == derivation && send.network() == network
                    && send.account_id() == self.account_id(),
                None => r matches Err(e) && e@ == no_payment_source(),
            },
    {
        match self.account.derivation {
            Some(derivation) => Ok(
                FundedSend { account_id: self.account_id, network, fund_source, derivation },
            ),
            None => Err(
                LegacyCode::InvalidAddressOrKey.with_message(
                    Message::localized("err-account-no-payment-source"),
                ),
            ),
        }
    }
}

impl FundedSend {
    pub closed spec fn account_id(self) -> AccountUuid {
        self.account_id
    }

    pub closed spec fn network(self) -> Network {
        self.network
    }

    pub closed spec fn fund_source(self) -> FundSource {
        self.fund_source
    }

    pub closed spec fn derivation(self) -> KeyDerivation {
        self.derivation
    }

    /// The privacy policy was understood, or not for the given reason. It is handed on as it
    /// is; the send keeps its text.
    pub fn privacy_policy<P>(self, parsed: Result<(P, String), RpcError>) -> (r: Result<
        (P, AcknowledgedSend),
        RpcError,
    >)
        ensures
            match parsed {
                Ok((policy, text)) => r matches Ok((own, next)) && own == policy && next.funded()
                    == self && next.policy() == text@,
                Err(error) => r matches Err(e) && e == error,
            },
    {
        match parsed {
            Ok((policy, text)) => Ok((policy, AcknowledgedSend { send: self, privacy_policy: text })),
            Err(error) => Err(error),
        }
    }
}

impl AcknowledgedSend {
    pub closed spec fn funded(self) -> FundedSend {
        self.send
    }

    /// The text of the privacy policy.
    pub closed spec fn policy(self) -> Seq<char> {
        self.privacy_policy@
    }

    /// The number of confirmations was understood, or not for the given reason. What it stands
    /// for is handed on as it is.
    pub fn confirmations<C>(self, parsed: Result<C, RpcError>) -> (r: Result<
        (C, PlannedSend),
        RpcError,
    >)
        ensures
            match parsed {
                Ok(policy) => r matches Ok((own, next)) && own == policy && next.funded()
                    == self.funded() && next.policy() == self.policy(),
                Err(error) => r matches Err(e) && e == error,
            },
    {
        match parsed {
            Ok(policy) => Ok(
                (policy, PlannedSend { send: self.send, privacy_policy: self.privacy_policy }),
            ),
            Err(error) => Err(error),
        }
    }
}

impl PlannedSend {
    pub closed spec fn funded(self) -> FundedSend {
        self.send
    }

    /// The text of the privacy policy.
    pub closed spec fn policy(self) -> Seq<char> {
        self.privacy_policy@
    }

    pub open spec fn fund_source(self) -> FundSource {
        self.funded().fund_source()
    }

    /// The wallet told its status.
    pub fn status(self, status: SyncStatus) -> (r: PirStep)
        ensures
            match r {
                PirStep::AskAnchor(next) => pir_applies(status, self.fund_source()) && next.send()
                    == self,
                PirStep::Skip(next) => !pir_applies(status, self.fund_source()) && next.send()
                    == self && next.prepared() is None,
            },
    {
        if should_prepare_pir(&status, &self.send.fund_source) {
            PirStep::AskAnchor(AnchorQuery { send: self })
        } else {
            PirStep::Skip(GatedSend { send: self, prepared: None })
        }
    }
}

impl AnchorQuery {
    pub closed spec fn send(self) -> PlannedSend {
        self.send
    }

    /// The wallet told the anchor of the stored witnesses, if there are any, or why it cannot
    /// tell.
    pub fn anchor(self, anchor: Result<Option<BlockHeight>, String>) -> (r: Result<
        AnchorStep,
        RpcError,
    >)
        ensures
            match anchor {
                Ok(None) => r matches Ok(AnchorStep::Prepare(next)) && next.send() == self.send(),
                Ok(Some(_)) => r matches Ok(AnchorStep::Skip(next)) && next.send() == self.send()
                    && next.prepared() is None,
                Err(reason) => r matches Err(e) && e@ == database_error(reason@),
            },
    {
        match anchor {
            Ok(None) => Ok(AnchorStep::Prepare(PirPreparation { send: self.send })),
            Ok(Some(_)) => Ok(AnchorStep::Skip(GatedSend { send: self.send, prepared: None })),
            Err(reason) => Err(LegacyCode::Database.with_text(reason.as_str())),
        }
    }
}

impl PirPreparation {
    pub closed spec fn send(self) -> PlannedSend {
        self.send
    }

    /// Starts to prepare the witnesses, if PIR is used.
    pub fn start(self, pir: Option<&Pir>) -> (r: PreparationStep)
        ensures
            match pir {
                Some(pir) => r matches PreparationStep::Run(preparation, next)
                    && preparation.activation() == pir.activation && next.send() == self.send(),
                None => r matches PreparationStep::Failed(next) && next.send() == self.send()
                    && (next.prepared() matches Some(Err(text)) && text@ == pir::error_text(
                    PirError::Disabled,
                )),
            },
    {
        match pir {
            Some(pir) => PreparationStep::Run(
                pir.prepare_witnesses(),
                PirRunning { send: self.send },
            ),
            None => PreparationStep::Failed(
                GatedSend {
                    send: self.send,
                    prepared: Some(Err(PirError::Disabled.text().to_owned())),
                },
            ),
        }
    }
}

impl PirRunning {
    pub closed spec fn send(self) -> PlannedSend {
        self.send
    }

    /// The preparation ended.
    pub fn finished(self, prepared: Result<(), String>) -> (r: GatedSend)
        ensures
            r.send() == self.send(),
            r.prepared() == Some(prepared),
    {
        GatedSend { send: self.send, prepared: Some(prepared) }
    }
}

impl GatedSend {
    pub closed spec fn send(self) -> PlannedSend {
        self.send
    }

    /// What came of preparing the witnesses, if they were prepared.
    pub closed spec fn prepared(self) -> Option<Result<(), String>> {
        self.prepared
    }

    /// The wallet told its status again. A wallet in sync sends whatever came of the witnesses.
    /// One that catches up sends Ironwood funds only if preparing the witnesses did not fail.
    pub fn status(self, status: SyncStatus) -> (r: Result<GateStep, RpcError>)
        ensures
            if status is Synced {
                r matches Ok(GateStep::Ready(next)) && next.send() == self.send() && next.status()
                    == status
            } else if pir_applies(status, self.send().fund_source()) {
                match self.prepared() {
                    Some(Err(reason)) => r matches Err(e) && e@ == error::rpc_text(
                        LegacyCode::Wallet,
                        reason@,
                    ),
                    _ => r matches Ok(GateStep::AskAnchor(next)) && next.send() == self.send()
                        && next.status() == status,
                }
            } else {
                r matches Ok(GateStep::AskAvailability(next)) && next.send() == self.send()
                    && next.status() == status
            },
    {
        if should_prepare_pir(&status, &self.send.send.fund_source) {
            return match self.prepared {
                Some(Err(reason)) => Err(LegacyCode::Wallet.with_text(reason.as_str())),
                _ => Ok(GateStep::AskAnchor(FinalAnchorQuery { send: self.send, status })),
            };
        }
        match status {
            SyncStatus::Synced => Ok(
                GateStep::Ready(ReadySend { send: self.send, status, anchor: None }),
            ),
            _ => Ok(GateStep::AskAvailability(AvailabilityQuery { send: self.send, status })),
        }
    }
}

impl FinalAnchorQuery {
    pub closed spec fn send(self) -> PlannedSend {
        self.send
    }

    /// The wallet's status when it was last told.
    pub closed spec fn status(self) -> SyncStatus {
        self.status
    }

    /// The wallet told the anchor of the stored witnesses, if there are any, or why it cannot
    /// tell: without witnesses the notes cannot be spent yet.
    pub fn anchor(self, anchor: Result<Option<BlockHeight>, String>) -> (r: Result<
        ReadySend,
        RpcError,
    >)
        ensures
            match anchor {
                Ok(Some(height)) => r matches Ok(next) && next.send() == self.send() && next.status()
                    == self.status() && next.anchor() == Some(height),
                Err(reason) => r matches Err(e) && e@ == database_error(reason@),
                Ok(None) => r matches Err(e) && e@ == error::rpc_text(
                    LegacyCode::Wallet,
                    "PIR witnesses are not available for an Ironwood send"@,
                ),
            },
    {
        match anchor {
            Ok(Some(height)) => Ok(
                ReadySend { send: self.send, status: self.status, anchor: Some(height) },
            ),
            Err(reason) => Err(LegacyCode::Database.with_text(reason.as_str())),
            Ok(None) => Err(
                LegacyCode::Wallet.with_text(
                    "PIR witnesses are not available for an Ironwood send",
                ),
            ),
        }
    }
}

impl AvailabilityQuery {
    pub closed spec fn send(self) -> PlannedSend {
        self.send
    }

    /// The wallet's status when it was last told.
    pub closed spec fn status(self) -> SyncStatus {
        self.status
    }

    #[verifier::type_invariant]
    spec fn inv(self) -> bool {
        !pir_applies(self.status, self.send.send.fund_source)
    }

    /// The wallet told whether its funds are available, or why they are not.
    pub fn availability(self, available: Result<(), RpcError>) -> (r: Result<ReadySend, RpcError>)
        ensures
            match available {
                Ok(_) => r matches Ok(next) && next.send() == self.send() && next.status()
                    == self.status() && next.anchor() is None,
                Err(error) => r matches Err(e) && e == error,
            },
    {
        proof {
            use_type_invariant(&self);
        }
        match available {
            Ok(_) => Ok(ReadySend { send: self.send, status: self.status, anchor: None }),
            Err(error) => Err(error),
        }
    }
}

impl ReadySend {
    pub closed spec fn send(self) -> PlannedSend {
        self.send
    }

    /// The wallet's status when it was last told.
    pub closed spec fn status(self) -> SyncStatus {
        self.status
    }

    /// The anchor of the stored witnesses, where the send needs them.
    pub closed spec fn anchor(self) -> Option<BlockHeight> {
        self.anchor
    }

    #[verifier::type_invariant]
    spec fn inv(self) -> bool {
        pir_applies(self.status, self.send.send.fund_source) ==> self.anchor is Some
    }

    /// The policy that the transaction is built under. By now there are stored witnesses, if
    /// the wallet catches up and Ironwood funds are sent.
    pub fn spend_policy(&self) -> (policy: SpendPolicy)
        ensures
            pir_applies(self.status(), self.send().fund_source()) ==> self.anchor() is Some,
            spend_policy::permitted_pools(policy) == self.send().fund_source().pools(),
            spend_policy::permitted_transparent(policy)
                == self.send().fund_source().transparent_rule(),
            spend_policy::leaves_out_locked(policy),
            spend_policy::selects_oldest_first(policy),
    {
        proof {
            use_type_invariant(self);
        }
        self.send.send.fund_source.spend_policy()
    }

    /// The account that the transaction is built for.
    pub fn account(&self) -> (r: AccountUuid)
        ensures
            r == self.send().funded().account_id(),
    {
        self.send.send.account_id
    }

    /// The transaction was built, as a proposal and in its text form, or could not be for the
    /// given reason. The proposal is handed on as it is.
    pub fn built<P>(self, built: Result<(P, String), RpcError>) -> (r: Result<
        (P, BuiltSend),
        RpcError,
    >)
        ensures
            match built {
                Ok((proposal, pczt)) => r matches Ok((own, next)) && own == proposal
                    && next.ready() == self && next.pczt() == pczt@,
                Err(error) => r matches Err(e) && e == error,
            },
    {
        match built {
            Ok((proposal, pczt)) => Ok((proposal, BuiltSend { ready: self, pczt })),
            Err(error) => Err(error),
        }
    }
}

/// A send whose transaction is built: the seed is decrypted.
pub struct BuiltSend {
    ready: ReadySend,
    pczt: String,
}

/// A send whose viewing key is derived: the transaction is proved.
pub struct KeyedSend {
    ready: ReadySend,
    ufvk: UnifiedFullViewingKey,
    pczt: String,
}

/// A send whose transaction is proved: it is signed.
pub struct ProvedSend {
    ready: ReadySend,
    ufvk: UnifiedFullViewingKey,
    pczt: String,
}

/// A send whose transaction is signed: it is extracted.
pub struct SignedSend {
    ready: ReadySend,
    ufvk: UnifiedFullViewingKey,
    pczt: String,
}

/// What is sent to the network.
pub struct Broadcast {
    ready: ReadySend,
    ufvk: UnifiedFullViewingKey,
    txids: Vec<[u8; 32]>,
}

impl BuiltSend {
    pub closed spec fn ready(self) -> ReadySend {
        self.ready
    }

    /// The transaction.
    pub closed spec fn pczt(self) -> Seq<char> {
        self.pczt@
    }

    /// The fingerprint of the seed that the transaction is signed with.
    pub fn seed_fingerprint(&self) -> (r: [u8; 32])
        ensures
            r == self.ready().send().funded().derivation().seed_fingerprint,
    {
        self.ready.send.send.derivation.seed_fingerprint
    }

    /// The seed cannot be decrypted.
    pub fn seed_failed(self, kind: ErrorKind, reason: &str) -> (r: RpcError)
        ensures
            r@ == seed_failure_of(kind, reason@),
    {
        seed_failure(kind, reason)
    }

    /// The seed was decrypted: derives the account's viewing key.
    pub fn seed_decrypted(self, seed: &Vec<u8>) -> (r: Result<KeyedSend, RpcError>)
        requires
            seed@.len() >= 32,
        ensures
            match keys::seed_unified_key(
                self.ready().send().funded().network(),
                seed@,
                self.ready().send().funded().derivation().account_index.index(),
            ) {
                Ok(key) => r matches Ok(next) && next.ready() == self.ready() && next.pczt()
                    == self.pczt() && next.ufvk() == key,
                Err(reason) => r matches Err(e) && e@ == error::rpc_text(
                    LegacyCode::InvalidAddressOrKey,
                    reason,
                ),
            },
    {
        let network = self.ready.send.send.network;
        let account = self.ready.send.send.derivation.account_index.into_u32();
        self.key_derived(keys::unified_key_from_seed(network, seed, account))
    }

    /// Goes on with what came of deriving the account's viewing key.
    pub fn key_derived(self, derived: Result<String, String>) -> (r: Result<KeyedSend, RpcError>)
        ensures
            match derived {
                Ok(key) => r matches Ok(next) && next.ready() == self.ready() && next.pczt()
                    == self.pczt() && next.ufvk() == key@,
                Err(reason) => r matches Err(e) && e@ == error::rpc_text(
                    LegacyCode::InvalidAddressOrKey,
                    reason@,
                ),
            },
    {
        match derived {
            Ok(encoding) => Ok(
                KeyedSend {
                    ready: self.ready,
                    ufvk: UnifiedFullViewingKey { encoding },
                    pczt: self.pczt,
                },
            ),
            Err(reason) => Err(LegacyCode::InvalidAddressOrKey.with_text(reason.as_str())),
        }
    }
}

impl KeyedSend {
    pub closed spec fn ready(self) -> ReadySend {
        self.ready
    }

    /// The account's viewing key.
    pub closed spec fn ufvk(self) -> Seq<char> {
        self.ufvk.encoding@
    }

    /// The transaction.
    pub closed spec fn pczt(self) -> Seq<char> {
        self.pczt@
    }

    /// The transaction to prove.
    pub fn to_prove(&self) -> (r: &str)
        ensures
            r@ == self.pczt(),
    {
        self.pczt.as_str()
    }

    /// The transaction was proved, or could not be for the given reason.
    pub fn proved(self, proved: Result<String, RpcError>) -> (r: Result<ProvedSend, RpcError>)
        ensures
            match proved {
                Ok(pczt) => r matches Ok(next) && next.ready() == self.ready() && next.ufvk()
                    == self.ufvk() && next.pczt() == pczt@,
                Err(error) => r matches Err(e) && e == error,
            },
    {
        match proved {
            Ok(pczt) => Ok(ProvedSend { ready: self.ready, ufvk: self.ufvk, pczt }),
            Err(error) => Err(error),
        }
    }
}

/// What is asked of the signing step.
#[derive(Clone, Debug, PartialEq, Eq)]
pub struct SignRequest {
    /// The transaction.
    pub pczt: String,
    /// The privacy policy that the caller acknowledges.
    pub privacy_policy: Option<String>,
    /// Whether an input that stays unsigned is an error.
    pub strict: Option<bool>,
}

impl ProvedSend {
    pub closed spec fn ready(self) -> ReadySend {
        self.ready
    }

    /// The account's viewing key.
    pub closed spec fn ufvk(self) -> Seq<char> {
        self.ufvk.encoding@
    }

    /// The transaction.
    pub closed spec fn pczt(self) -> Seq<char> {
        self.pczt@
    }

    /// The transaction is signed under the policy that the caller gave. As the wallet made it
    /// from its own account, an input that stays unsigned is an error.
    pub fn sign_request(&self) -> (r: SignRequest)
        ensures
            r.pczt@ == self.pczt(),
            r.privacy_policy matches Some(policy) && policy@ == self.ready().send().policy(),
            r.strict == Some(true),
    {
        SignRequest {
            pczt: self.pczt.clone(),
            privacy_policy: Some(self.ready.send.privacy_policy.clone()),
            strict: Some(true),
        }
    }

    /// The transaction was signed, or could not be for the given reason.
    pub fn signed(self, signed: Result<String, RpcError>) -> (r: Result<SignedSend, RpcError>)
        ensures
            match signed {
                Ok(pczt) => r matches Ok(next) && next.ready() == self.ready() && next.ufvk()
                    == self.ufvk() && next.pczt() == pczt@,
                Err(error) => r matches Err(e) && e == error,
            },
    {
        match signed {
            Ok(pczt) => Ok(SignedSend { ready: self.ready, ufvk: self.ufvk, pczt }),
            Err(error) => Err(error),
        }
    }
}

impl SignedSend {
    pub closed spec fn ready(self) -> ReadySend {
        self.ready
    }

    /// The account's viewing key.
    pub closed spec fn ufvk(self) -> Seq<char> {
        self.ufvk.encoding@
    }

    /// The transaction.
    pub closed spec fn pczt(self) -> Seq<char> {
        self.pczt@
    }

    /// The transaction to extract.
    pub fn to_extract(&self) -> (r: &str)
        ensures
            r@ == self.pczt(),
    {
        self.pczt.as_str()
    }

    /// The transaction was extracted and recorded in the wallet, under the given identifier, or
    /// could not be for the given reason. It alone is sent.
    pub fn extracted(self, txid: Result<String, RpcError>) -> (r: Result<Broadcast, RpcError>)
        ensures
            match txid {
                Ok(text) => if is_txid_text(text@) {
                    r matches Ok(broadcast) && broadcast.ready() == self.ready()
                        && broadcast.ufvk() == self.ufvk() && broadcast.txids().len() == 1
                        && broadcast.txids()[0]@ == txid_bytes(text@)
                } else {
                    r matches Err(e) && e@ == error::rpc_text(
                        LegacyCode::Misc,
                        "Failed to decode txid"@,
                    )
                },
                Err(error) => r matches Err(e) && e == error,
            },
    {
        match txid {
            Ok(text) => match decode_txid(text.as_str()) {
                Ok(txid) => Ok(
                    Broadcast { ready: self.ready, ufvk: self.ufvk, txids: vec![txid] },
                ),
                Err(error) => Err(error),
            },
            Err(error) => Err(error),
        }
    }
}

impl Broadcast {
    /// The send that this is of.
    pub closed spec fn ready(self) -> ReadySend {
        self.ready
    }

    /// The account's viewing key.
    pub closed spec fn ufvk(self) -> Seq<char> {
        self.ufvk.encoding@
    }

    /// The identifiers of the transactions.
    pub closed spec fn txids(self) -> Seq<[u8; 32]> {
        self.txids@
    }

    #[verifier::type_invariant]
    spec fn inv(self) -> bool {
        self.txids@.len() == 1
    }

    /// The account that the funds are sent from.
    pub fn account(&self) -> (r: AccountUuid)
        ensures
            r == self.ready().send().funded().account_id(),
    {
        self.ready.send.send.account_id
    }

    /// The viewing key that the transaction is checked with.
    pub fn viewing_key(&self) -> (r: &UnifiedFullViewingKey)
        ensures
            r.encoding@ == self.ufvk(),
    {
        &self.ufvk
    }

    /// The identifier of the one transaction. Ironwood funds are sent while the wallet catches
    /// up only if there are stored witnesses.
    pub fn transactions(&self) -> (r: &Vec<[u8; 32]>)
        ensures
            r@ == self.txids(),
            r@.len() == 1,
            pir_applies(self.ready().status(), self.ready().send().fund_source())
                ==> self.ready().anchor() is Some,
    {
        proof {
            use_type_invariant(self);
            use_type_invariant(&self.ready);
        }
        &self.txids
    }
}

/// The answer to a send whose seed cannot be decrypted.
pub open spec fn seed_failure_of(kind: ErrorKind, reason: Seq<char>) -> error::RpcErrorView {
    if kind == ErrorKind::Generic && reason == "Wallet is locked"@ {
        error::rpc_text(LegacyCode::WalletUnlockNeeded, reason)
    } else {
        error::rpc_text(LegacyCode::Database, reason)
    }
}

/// The answer to a send whose seed cannot be decrypted: a wallet that is locked has to be
/// unlocked first.
pub fn seed_failure(kind: ErrorKind, reason: &str) -> (r: RpcError)
    ensures
        r@ == seed_failure_of(kind, reason@),
{
    if kind == ErrorKind::Generic && text::str_eq(reason, "Wallet is locked") {
        LegacyCode::WalletUnlockNeeded.with_text(reason)
    } else {
        LegacyCode::Database.with_text(reason)
    }
}

/// The value of a hexadecimal digit.
pub open spec fn hex_value(digit: char) -> Option<u8> {
    if '0' <= digit && digit <= '9' {
        Some((digit as u8 - '0' as u8) as u8)
    } else if 'a' <= digit && digit <= 'f' {
        Some((digit as u8 - 'a' as u8 + 10) as u8)
    } else if 'A' <= digit && digit <= 'F' {
        Some((digit as u8 - 'A' as u8 + 10) as u8)
    } else {
        None
    }
}

/// Whether a string consists of 64 hexadecimal digits.
pub open spec fn is_txid_text(text: Seq<char>) -> bool {
    text.len() == 64 && forall|i: int| 0 <= i < 64 ==> hex_value(#[trigger] text[i]) is Some
}

/// The bytes that 64 hexadecimal digits stand for, last byte first.
pub open spec fn txid_bytes(text: Seq<char>) -> Seq<u8> {
    Seq::new(
        32,
        |i: int|
            (16 * hex_value(text[2 * (31 - i)])->0 + hex_value(text[2 * (31 - i) + 1])->0) as u8,
    )
}

/// Calls `zcash_encoding::ReverseHex::decode`.
///
/// Claimed: 64 hexadecimal digits give the bytes that they stand for, in reverse order;
/// nothing else gives anything.
#[verifier::external_body]
fn reverse_hex_decode(text: &str) -> (bytes: Option<[u8; 32]>)
    ensures
        bytes is Some <==> is_txid_text(text@),
        bytes matches Some(b) ==> b@ == txid_bytes(text@),
{
    zcash_encoding::ReverseHex::decode(text)
}

/// Decodes a transaction identifier from the form that it is shown in.
pub fn decode_txid(text: &str) -> (r: Result<[u8; 32], RpcError>)
    ensures
        if is_txid_text(text@) {
            r matches Ok(txid) && txid@ == txid_bytes(text@)
        } else {
            r matches Err(e) && e@ == error::rpc_text(
                LegacyCode::Misc,
                "Failed to decode txid"@,
            )
        },
{
    match reverse_hex_decode(text) {
        Some(txid) => Ok(txid),
        None => Err(LegacyCode::Misc.with_text("Failed to decode txid")),
    }
}

} // verus!
