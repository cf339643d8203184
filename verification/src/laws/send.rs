//! Laws of `z_sendfromaccount`.

use vstd::prelude::*;

use crate::error::{ErrorKind, LegacyCode, RpcError};
use crate::fund_source;
use crate::fund_source::{FundSource, JsonValue};
use crate::import_address::AccountUuid;
use crate::keys;
use crate::keys::UnifiedFullViewingKey;
use crate::laws;
use crate::network::{BlockHeight, Network};
use crate::pir::{Pir, SendPreparation};
use crate::send_from_account::{
    decode_txid, request_built, seed_failure, should_prepare_pir, Account, AccountSend,
    AcknowledgedSend, AnchorQuery, AnchorStep, AvailabilityQuery, Broadcast, BuiltSend,
    FinalAnchorQuery, FundedSend, GateStep, GatedSend, KeyedSend, NamedSend,
    PirPreparation, PirRunning, PirStep, PlannedSend, PreparationStep, ProvedSend, ReadySend,
    RequestedSend, SignRequest, SignedSend, SyncStatus,
};
use crate::spend_policy;
use crate::spend_policy::ShieldedPool;
use zcash_client_backend::data_api::wallet::input_selection::SpendPolicy;

verus! {

/// A send whose parameters were understood one after the other.
pub ghost struct Planning<P, C> {
    pub account_id: AccountUuid,
    pub account: Account,
    pub source: FundSource,
    pub network: Network,
    pub policy: P,
    pub policy_text: String,
    pub confirmations: C,
    pub requested: RequestedSend,
    pub named: NamedSend,
    pub found: AccountSend,
    pub funded: FundedSend,
    pub acknowledged: AcknowledgedSend,
    pub planned: PlannedSend,
}

impl<P, C> Planning<P, C> {
    /// Whether the calls were made, each with what the one before gave.
    pub open spec fn made(self) -> bool {
        &&& call_ensures(
            RequestedSend::account_named,
            (self.requested, Ok::<AccountUuid, RpcError>(self.account_id)),
            Ok::<NamedSend, RpcError>(self.named),
        )
        &&& call_ensures(
            NamedSend::account_found,
            (self.named, Ok::<Option<Account>, String>(Some(self.account))),
            Ok::<AccountSend, RpcError>(self.found),
        )
        &&& call_ensures(
            AccountSend::funded,
            (self.found, self.source, self.network),
            Ok::<FundedSend, RpcError>(self.funded),
        )
        &&& call_ensures(
            FundedSend::privacy_policy::<P>,
            (self.funded, Ok::<(P, String), RpcError>((self.policy, self.policy_text))),
            Ok::<(P, AcknowledgedSend), RpcError>((self.policy, self.acknowledged)),
        )
        &&& call_ensures(
            AcknowledgedSend::confirmations::<C>,
            (self.acknowledged, Ok::<C, RpcError>(self.confirmations)),
            Ok::<(C, PlannedSend), RpcError>((self.confirmations, self.planned)),
        )
    }
}

/// Ironwood funds are sent with PIR while the wallet catches up, however far it is behind;
/// other funds are not, and neither is anything in another status.
pub proof fn only_catch_up_ironwood_sends_are_prepared(
    status: SyncStatus,
    source: FundSource,
    prepared: bool,
)
    requires
        call_ensures(should_prepare_pir, (&status, &source), prepared),
    ensures
        prepared <==> (status matches SyncStatus::CatchingUp { fully_synced: _, tip: _ })
            && source == FundSource::Ironwood,
{
}

/// How far the wallet is behind makes no difference to whether a send is prepared.
pub proof fn the_distance_to_the_tip_does_not_matter(
    synced_a: Option<BlockHeight>,
    tip_a: BlockHeight,
    synced_b: Option<BlockHeight>,
    tip_b: BlockHeight,
    source: FundSource,
    prepared_a: bool,
    prepared_b: bool,
)
    requires
        call_ensures(
            should_prepare_pir,
            (&SyncStatus::CatchingUp { fully_synced: synced_a, tip: tip_a }, &source),
            prepared_a,
        ),
        call_ensures(
            should_prepare_pir,
            (&SyncStatus::CatchingUp { fully_synced: synced_b, tip: tip_b }, &source),
            prepared_b,
        ),
    ensures
        prepared_a == prepared_b,
{
}

/// A send of Ironwood funds by a wallet that catches up asks for the anchor of the stored
/// witnesses, at any heights.
pub proof fn ironwood_sends_ask_for_witnesses_while_catching_up<P, C>(
    send: Planning<P, C>,
    fully_synced: Option<BlockHeight>,
    tip: BlockHeight,
    step: PirStep,
)
    requires
        send.made(),
        send.source == FundSource::Ironwood,
        call_ensures(
            PlannedSend::status,
            (send.planned, SyncStatus::CatchingUp { fully_synced, tip }),
            step,
        ),
    ensures
        step is AskAnchor,
{
}

/// A send of other funds asks for no witnesses, and neither does a send by a wallet that does
/// not catch up. Nothing is known of witnesses then.
pub proof fn other_sends_ask_for_no_witnesses<P, C>(
    send: Planning<P, C>,
    status: SyncStatus,
    step: PirStep,
)
    requires
        send.made(),
        send.source != FundSource::Ironwood || status == SyncStatus::Synced || status
            == SyncStatus::Recovering,
        call_ensures(PlannedSend::status, (send.planned, status), step),
    ensures
        step matches PirStep::Skip(gated) && gated.prepared() is None,
{
}

/// Witnesses are prepared exactly if there are none, and a database that cannot tell ends the
/// send.
pub proof fn witnesses_are_prepared_if_there_are_none(
    query: AnchorQuery,
    anchor: Result<Option<BlockHeight>, String>,
    step: Result<AnchorStep, RpcError>,
)
    requires
        call_ensures(AnchorQuery::anchor, (query, anchor), step),
    ensures
        anchor matches Ok(None) <==> step matches Ok(AnchorStep::Prepare(_)),
        anchor matches Ok(Some(_)) <==> step matches Ok(AnchorStep::Skip(_)),
        anchor matches Err(reason) ==> (step matches Err(e) && laws::rpc_says(
            e,
            LegacyCode::Database,
            reason@,
        )),
        step matches Ok(AnchorStep::Skip(gated)) ==> gated.prepared() is None,
{
}

/// The ways by which a send comes to its second look at the wallet's status.
pub ghost enum Route {
    /// PIR does not apply.
    NotNeeded,
    /// There were witnesses already.
    Stored { query: AnchorQuery, anchor: BlockHeight },
    /// PIR is not used.
    Disabled { query: AnchorQuery, preparation: PirPreparation },
    /// Witnesses were prepared, with the given outcome.
    Prepared {
        query: AnchorQuery,
        preparation: PirPreparation,
        pir: Pir,
        work: SendPreparation,
        running: PirRunning,
        outcome: Result<(), String>,
    },
}

impl Route {
    /// Whether the send came this way from `planned` to `gated`, the wallet's status having
    /// been `first`.
    pub open spec fn leads(self, planned: PlannedSend, first: SyncStatus, gated: GatedSend) -> bool {
        match self {
            Route::NotNeeded => call_ensures(
                PlannedSend::status,
                (planned, first),
                PirStep::Skip(gated),
            ),
            Route::Stored { query, anchor } => {
                &&& call_ensures(PlannedSend::status, (planned, first), PirStep::AskAnchor(query))
                &&& call_ensures(
                    AnchorQuery::anchor,
                    (query, Ok::<Option<BlockHeight>, String>(Some(anchor))),
                    Ok::<AnchorStep, RpcError>(AnchorStep::Skip(gated)),
                )
            },
            Route::Disabled { query, preparation } => {
                &&& call_ensures(PlannedSend::status, (planned, first), PirStep::AskAnchor(query))
                &&& call_ensures(
                    AnchorQuery::anchor,
                    (query, Ok::<Option<BlockHeight>, String>(None)),
                    Ok::<AnchorStep, RpcError>(AnchorStep::Prepare(preparation)),
                )
                &&& call_ensures(
                    PirPreparation::start,
                    (preparation, None::<&Pir>),
                    PreparationStep::Failed(gated),
                )
            },
            Route::Prepared { query, preparation, pir, work, running, outcome } => {
                &&& call_ensures(PlannedSend::status, (planned, first), PirStep::AskAnchor(query))
                &&& call_ensures(
                    AnchorQuery::anchor,
                    (query, Ok::<Option<BlockHeight>, String>(None)),
                    Ok::<AnchorStep, RpcError>(AnchorStep::Prepare(preparation)),
                )
                &&& call_ensures(
                    PirPreparation::start,
                    (preparation, Some(&pir)),
                    PreparationStep::Run(work, running),
                )
                &&& call_ensures(PirRunning::finished, (running, outcome), gated)
            },
        }
    }

    /// The reason why there are no witnesses, if preparing them failed.
    pub open spec fn failure(self) -> Option<Seq<char>> {
        match self {
            Route::NotNeeded => None,
            Route::Stored { query, anchor } => None,
            Route::Disabled { query, preparation } => Some("PIR is disabled"@),
            Route::Prepared { query, preparation, pir, work, running, outcome } => match outcome {
                Ok(_) => None,
                Err(reason) => Some(reason@),
            },
        }
    }
}

/// Whichever way it came, a send goes on at once if the wallet is in sync. While the wallet
/// catches up, at any heights, a send of Ironwood funds is asked for the anchor of its
/// witnesses, or ends with the reason why there are none; it never goes on as other sends do.
/// Every other send goes on only if the wallet says that its funds are available.
pub proof fn sends_go_on_by_status_and_source<P, C>(
    send: Planning<P, C>,
    first: SyncStatus,
    route: Route,
    gated: GatedSend,
    second: SyncStatus,
    step: Result<GateStep, RpcError>,
)
    requires
        send.made(),
        route.leads(send.planned, first, gated),
        call_ensures(GatedSend::status, (gated, second), step),
    ensures
        second == SyncStatus::Synced <==> step matches Ok(GateStep::Ready(_)),
        (second matches SyncStatus::CatchingUp { fully_synced: _, tip: _ }) && send.source
            == FundSource::Ironwood ==> match route.failure() {
            None => step matches Ok(GateStep::AskAnchor(_)),
            Some(reason) => step matches Err(e) && laws::rpc_says(e, LegacyCode::Wallet, reason),
        },
        second == SyncStatus::Recovering ==> step matches Ok(GateStep::AskAvailability(_)),
        second != SyncStatus::Synced && send.source != FundSource::Ironwood ==> step matches Ok(
            GateStep::AskAvailability(_),
        ),
{
}

/// The ways by which a send goes on after the second look at the wallet's status.
pub ghost enum Passage {
    InSync,
    WithWitnesses { query: FinalAnchorQuery, anchor: BlockHeight },
    Available { question: AvailabilityQuery },
}

impl Passage {
    /// Whether the send passed from `gated` to `ready`, the wallet's status being `status`.
    pub open spec fn leads(self, gated: GatedSend, status: SyncStatus, ready: ReadySend) -> bool {
        match self {
            Passage::InSync => call_ensures(
                GatedSend::status,
                (gated, status),
                Ok::<GateStep, RpcError>(GateStep::Ready(ready)),
            ),
            Passage::WithWitnesses { query, anchor } => {
                &&& call_ensures(
                    GatedSend::status,
                    (gated, status),
                    Ok::<GateStep, RpcError>(GateStep::AskAnchor(query)),
                )
                &&& call_ensures(
                    FinalAnchorQuery::anchor,
                    (query, Ok::<Option<BlockHeight>, String>(Some(anchor))),
                    Ok::<ReadySend, RpcError>(ready),
                )
            },
            Passage::Available { question } => {
                &&& call_ensures(
                    GatedSend::status,
                    (gated, status),
                    Ok::<GateStep, RpcError>(GateStep::AskAvailability(question)),
                )
                &&& call_ensures(
                    AvailabilityQuery::availability,
                    (question, Ok::<(), RpcError>(())),
                    Ok::<ReadySend, RpcError>(ready),
                )
            },
        }
    }
}

/// Ironwood funds of a wallet that catches up are spent only with stored witnesses, at any
/// heights and whichever way the send came; and a send is never built for another account than
/// the one that was named.
pub proof fn catch_up_ironwood_sends_are_built_with_witnesses<P, C>(
    send: Planning<P, C>,
    first: SyncStatus,
    route: Route,
    gated: GatedSend,
    fully_synced: Option<BlockHeight>,
    tip: BlockHeight,
    passage: Passage,
    ready: ReadySend,
    account: AccountUuid,
)
    requires
        send.made(),
        send.source == FundSource::Ironwood,
        route.leads(send.planned, first, gated),
        passage.leads(gated, SyncStatus::CatchingUp { fully_synced, tip }, ready),
        call_ensures(ReadySend::account, (&ready,), account),
    ensures
        passage is WithWitnesses,
        route.failure() is None,
        account == send.account_id,
{
}

/// Without stored witnesses, with a database that cannot tell, or without available funds, a
/// send ends; with them it goes on.
pub proof fn the_last_question_decides(
    anchor_query: FinalAnchorQuery,
    anchor: Result<Option<BlockHeight>, String>,
    witnessed: Result<ReadySend, RpcError>,
    availability_query: AvailabilityQuery,
    available: Result<(), RpcError>,
    admitted: Result<ReadySend, RpcError>,
)
    requires
        call_ensures(FinalAnchorQuery::anchor, (anchor_query, anchor), witnessed),
        call_ensures(AvailabilityQuery::availability, (availability_query, available), admitted),
    ensures
        witnessed is Ok <==> anchor matches Ok(Some(_)),
        anchor matches Ok(None) ==> (witnessed matches Err(e) && laws::rpc_says(
            e,
            LegacyCode::Wallet,
            "PIR witnesses are not available for an Ironwood send"@,
        )),
        anchor matches Err(reason) ==> (witnessed matches Err(e) && laws::rpc_says(
            e,
            LegacyCode::Database,
            reason@,
        )),
        admitted is Ok <==> available is Ok,
        available matches Err(error) ==> admitted == Err::<ReadySend, RpcError>(error),
{
}

/// A transaction is built from the funds that the caller named and from no others, for the
/// account that was named, whichever way the send came.
pub proof fn a_transaction_draws_upon_the_named_source_alone<P, C>(
    send: Planning<P, C>,
    first: SyncStatus,
    route: Route,
    gated: GatedSend,
    second: SyncStatus,
    passage: Passage,
    ready: ReadySend,
    policy: SpendPolicy,
    account: AccountUuid,
)
    requires
        send.made(),
        route.leads(send.planned, first, gated),
        passage.leads(gated, second, ready),
        call_ensures(ReadySend::spend_policy, (&ready,), policy),
        call_ensures(ReadySend::account, (&ready,), account),
    ensures
        account == send.account_id,
        spend_policy::permitted_pools(policy).contains(ShieldedPool::Sapling) <==> send.source
            == FundSource::Sapling,
        spend_policy::permitted_pools(policy).contains(ShieldedPool::Orchard) <==> send.source
            == FundSource::Orchard,
        spend_policy::permitted_pools(policy).contains(ShieldedPool::Ironwood) <==> send.source
            == FundSource::Orchard || send.source == FundSource::Ironwood,
        spend_policy::permitted_transparent(policy) is Some <==> send.source
            == FundSource::AnyTransparent || send.source is Transparent,
        spend_policy::leaves_out_locked(policy),
        spend_policy::selects_oldest_first(policy),
{
}

/// A send names an account that the wallet has, and one whose keys can be derived; the first
/// thing that is wrong is what the caller is told.
pub proof fn sends_are_refused_for_their_own_reasons<R>(
    built: Result<R, RpcError>,
    request: Result<(R, RequestedSend), RpcError>,
    requested: RequestedSend,
    parsed: Result<AccountUuid, RpcError>,
    named: Result<NamedSend, RpcError>,
    lookup: NamedSend,
    found: Result<Option<Account>, String>,
    account: Result<AccountSend, RpcError>,
)
    requires
        call_ensures(request_built::<R>, (built,), request),
        call_ensures(RequestedSend::account_named, (requested, parsed), named),
        call_ensures(NamedSend::account_found, (lookup, found), account),
    ensures
        match built {
            Ok(payments) => request matches Ok((own, _)) && own == payments,
            Err(error) => request == Err::<(R, RequestedSend), RpcError>(error),
        },
        match parsed {
            Ok(id) => named matches Ok(next) && forall|r: AccountUuid| #[trigger]
                call_ensures(NamedSend::account, (&next,), r) ==> r == id,
            Err(error) => named == Err::<NamedSend, RpcError>(error),
        },
        account is Ok <==> found matches Ok(Some(_)),
        found matches Ok(None) ==> (account matches Err(e) && e.code == LegacyCode::InvalidParameter
            && laws::message_names(e.message, "err-account-not-found"@)),
        found matches Err(reason) ==> (account matches Err(e) && laws::rpc_says(
            e,
            LegacyCode::Database,
            reason@,
        )),
{
}

/// The account's keys have to be derivable. The source of funds is parsed first, as it is
/// parsed elsewhere.
pub proof fn accounts_without_keys_send_nothing(
    lookup: NamedSend,
    account: Account,
    found: AccountSend,
    source: FundSource,
    value: JsonValue,
    network: Network,
    funded: Result<FundedSend, RpcError>,
    parsed: Result<FundedSend, RpcError>,
)
    requires
        call_ensures(
            NamedSend::account_found,
            (lookup, Ok::<Option<Account>, String>(Some(account))),
            Ok::<AccountSend, RpcError>(found),
        ),
        call_ensures(AccountSend::funded, (found, source, network), funded),
        call_ensures(AccountSend::fund_source, (found, &value, network), parsed),
    ensures
        funded is Ok <==> account.derivation is Some,
        account.derivation is None ==> (funded matches Err(e) && e.code
            == LegacyCode::InvalidAddressOrKey && laws::message_names(
            e.message,
            "err-account-no-payment-source"@,
        )),
        account.derivation is None ==> parsed is Err,
        parsed matches Ok(next) ==> next.network() == network && account.derivation == Some(
            next.derivation(),
        ),
        (value matches JsonValue::String(text) && text@ == "orchard"@) ==> (parsed matches Ok(next)
            ==> next.fund_source() == FundSource::Orchard) && (parsed is Ok
            <==> account.derivation is Some),
        (value matches JsonValue::String(text) && text@ == "sapling"@) ==> (parsed matches Ok(next)
            ==> next.fund_source() == FundSource::Sapling) && (parsed is Ok
            <==> account.derivation is Some),
        (value matches JsonValue::String(text) && text@ == "any_transparent"@) ==> (
        parsed matches Ok(next) ==> next.fund_source() == FundSource::AnyTransparent) && (
        parsed is Ok <==> account.derivation is Some),
{
    reveal_strlit("orchard");
    reveal_strlit("sapling");
    reveal_strlit("any_transparent");
    assert("orchard"@[0] != "sapling"@[0]);
    assert("orchard"@[0] != "any_transparent"@[0]);
    assert("sapling"@[0] != "any_transparent"@[0]);
}

/// A transaction from its building to its extraction.
pub ghost struct Pipeline<T> {
    pub proposal: T,
    pub built_text: String,
    pub key: String,
    pub proved_text: String,
    pub signed_text: String,
    pub txid_text: String,
    pub built: BuiltSend,
    pub keyed: KeyedSend,
    pub proved: ProvedSend,
    pub signed: SignedSend,
    pub broadcast: Broadcast,
}

impl<T> Pipeline<T> {
    /// Whether the calls were made, from `ready` on, each with what the one before gave.
    pub open spec fn made(self, ready: ReadySend) -> bool {
        &&& call_ensures(
            ReadySend::built::<T>,
            (ready, Ok::<(T, String), RpcError>((self.proposal, self.built_text))),
            Ok::<(T, BuiltSend), RpcError>((self.proposal, self.built)),
        )
        &&& call_ensures(
            BuiltSend::key_derived,
            (self.built, Ok::<String, String>(self.key)),
            Ok::<KeyedSend, RpcError>(self.keyed),
        )
        &&& call_ensures(
            KeyedSend::proved,
            (self.keyed, Ok::<String, RpcError>(self.proved_text)),
            Ok::<ProvedSend, RpcError>(self.proved),
        )
        &&& call_ensures(
            ProvedSend::signed,
            (self.proved, Ok::<String, RpcError>(self.signed_text)),
            Ok::<SignedSend, RpcError>(self.signed),
        )
        &&& call_ensures(
            SignedSend::extracted,
            (self.signed, Ok::<String, RpcError>(self.txid_text)),
            Ok::<Broadcast, RpcError>(self.broadcast),
        )
    }
}

/// Each step works on what the one before gave. The seed is that of the account, the signature
/// is made under the policy that the caller acknowledged and leaves no input unsigned, and the
/// one transaction that is broadcast is the extracted one, checked with the account's key.
pub proof fn what_is_built_is_what_is_broadcast<P, C, T>(
    send: Planning<P, C>,
    first: SyncStatus,
    route: Route,
    gated: GatedSend,
    second: SyncStatus,
    passage: Passage,
    ready: ReadySend,
    work: Pipeline<T>,
    fingerprint: [u8; 32],
    to_prove: &str,
    request: SignRequest,
    to_extract: &str,
    account: AccountUuid,
    key: &UnifiedFullViewingKey,
    transactions: &Vec<[u8; 32]>,
    extracted: &str,
    decoded: Result<[u8; 32], RpcError>,
)
    requires
        send.made(),
        route.leads(send.planned, first, gated),
        passage.leads(gated, second, ready),
        work.made(ready),
        call_ensures(BuiltSend::seed_fingerprint, (&work.built,), fingerprint),
        call_ensures(KeyedSend::to_prove, (&work.keyed,), to_prove),
        call_ensures(ProvedSend::sign_request, (&work.proved,), request),
        call_ensures(SignedSend::to_extract, (&work.signed,), to_extract),
        call_ensures(Broadcast::account, (&work.broadcast,), account),
        call_ensures(Broadcast::viewing_key, (&work.broadcast,), key),
        call_ensures(Broadcast::transactions, (&work.broadcast,), transactions),
        extracted@ == work.txid_text@,
        call_ensures(decode_txid, (extracted,), decoded),
    ensures
        send.account.derivation matches Some(derivation) && derivation.seed_fingerprint
            == fingerprint,
        to_prove@ == work.built_text@,
        request.pczt@ == work.proved_text@,
        request.privacy_policy matches Some(own) && own@ == send.policy_text@,
        request.strict == Some(true),
        to_extract@ == work.signed_text@,
        account == send.account_id,
        key.encoding@ == work.key@,
        transactions@.len() == 1,
        decoded matches Ok(txid) && txid@ == transactions@[0]@,
{
}

/// A step that fails ends the send with the error that it failed with, and nothing is
/// broadcast.
pub proof fn failed_steps_end_the_send<T>(
    ready: ReadySend,
    built: Result<(T, String), RpcError>,
    after_build: Result<(T, BuiltSend), RpcError>,
    unkeyed: BuiltSend,
    derived: Result<String, String>,
    after_key: Result<KeyedSend, RpcError>,
    unproved: KeyedSend,
    proved: Result<String, RpcError>,
    after_proof: Result<ProvedSend, RpcError>,
    unsigned: ProvedSend,
    signed: Result<String, RpcError>,
    after_signature: Result<SignedSend, RpcError>,
    unextracted: SignedSend,
    extracted: Result<String, RpcError>,
    after_extraction: Result<Broadcast, RpcError>,
)
    requires
        call_ensures(ReadySend::built::<T>, (ready, built), after_build),
        call_ensures(BuiltSend::key_derived, (unkeyed, derived), after_key),
        call_ensures(KeyedSend::proved, (unproved, proved), after_proof),
        call_ensures(ProvedSend::signed, (unsigned, signed), after_signature),
        call_ensures(SignedSend::extracted, (unextracted, extracted), after_extraction),
    ensures
        after_build is Ok <==> built is Ok,
        built matches Err(e) ==> after_build == Err::<(T, BuiltSend), RpcError>(e),
        after_key is Ok <==> derived is Ok,
        derived matches Err(reason) ==> (after_key matches Err(e) && laws::rpc_says(
            e,
            LegacyCode::InvalidAddressOrKey,
            reason@,
        )),
        after_proof is Ok <==> proved is Ok,
        proved matches Err(e) ==> after_proof == Err::<ProvedSend, RpcError>(e),
        after_signature is Ok <==> signed is Ok,
        signed matches Err(e) ==> after_signature == Err::<SignedSend, RpcError>(e),
        extracted matches Err(e) ==> after_extraction == Err::<Broadcast, RpcError>(e),
        extracted matches Ok(text) ==> (after_extraction is Ok || (after_extraction matches Err(e)
            && laws::rpc_says(e, LegacyCode::Misc, "Failed to decode txid"@))),
{
}

/// The viewing key is derived from the decrypted seed, on the network of the send and for the
/// account's index.
pub proof fn the_viewing_key_is_the_account_s<P, C, T>(
    send: Planning<P, C>,
    first: SyncStatus,
    route: Route,
    gated: GatedSend,
    second: SyncStatus,
    passage: Passage,
    ready: ReadySend,
    proposal: T,
    built_text: String,
    built: BuiltSend,
    seed: Vec<u8>,
    keyed: Result<KeyedSend, RpcError>,
)
    requires
        send.made(),
        route.leads(send.planned, first, gated),
        passage.leads(gated, second, ready),
        call_ensures(
            ReadySend::built::<T>,
            (ready, Ok::<(T, String), RpcError>((proposal, built_text))),
            Ok::<(T, BuiltSend), RpcError>((proposal, built)),
        ),
        call_ensures(BuiltSend::seed_decrypted, (built, &seed), keyed),
    ensures
        send.account.derivation matches Some(derivation) && match keys::seed_unified_key(
            send.network,
            seed@,
            derivation.account_index.index(),
        ) {
            Ok(key) => keyed matches Ok(next) && next.ufvk() == key && next.ready() == ready
                && forall|to_prove: &str| #[trigger]
                call_ensures(KeyedSend::to_prove, (&next,), to_prove) ==> to_prove@ == built_text@,
            Err(reason) => keyed matches Err(e) && laws::rpc_says(
                e,
                LegacyCode::InvalidAddressOrKey,
                reason,
            ),
        },
{
}

/// Witnesses are prepared by PIR as it runs, from the height on that the Ironwood pool opens at
/// there; without PIR the send learns that it is disabled.
pub proof fn witnesses_are_prepared_by_the_running_pir(
    preparation: PirPreparation,
    pir: Option<&Pir>,
    step: PreparationStep,
)
    requires
        call_ensures(PirPreparation::start, (preparation, pir), step),
    ensures
        step is Run <==> pir is Some,
        step matches PreparationStep::Run(work, _) ==> work.activation() == pir->0.activation,
        step matches PreparationStep::Failed(gated) ==> (gated.prepared() matches Some(Err(reason))
            && reason@ == "PIR is disabled"@),
{
}

/// A privacy policy or a number of confirmations that is not understood ends the send with its
/// own error.
pub proof fn wrong_parameters_end_the_send<P, C>(
    funded: FundedSend,
    policy: Result<(P, String), RpcError>,
    acknowledged: Result<(P, AcknowledgedSend), RpcError>,
    unconfirmed: AcknowledgedSend,
    confirmations: Result<C, RpcError>,
    planned: Result<(C, PlannedSend), RpcError>,
)
    requires
        call_ensures(FundedSend::privacy_policy::<P>, (funded, policy), acknowledged),
        call_ensures(AcknowledgedSend::confirmations::<C>, (unconfirmed, confirmations), planned),
    ensures
        match policy {
            Ok((own, _)) => acknowledged matches Ok((handed_on, _)) && handed_on == own,
            Err(error) => acknowledged == Err::<(P, AcknowledgedSend), RpcError>(error),
        },
        match confirmations {
            Ok(own) => planned matches Ok((handed_on, _)) && handed_on == own,
            Err(error) => planned == Err::<(C, PlannedSend), RpcError>(error),
        },
{
}

/// The source of funds of a send is what the parameter is parsed to: a send is funded exactly if
/// the parameter is understood and the account's keys can be derived. It draws upon the same
/// funds as the parsed source, for the account that was named, and a parameter that is not
/// understood is refused as it is elsewhere.
pub proof fn sends_are_funded_from_the_parsed_source(
    account_id: AccountUuid,
    requested: RequestedSend,
    lookup: NamedSend,
    account: Account,
    found: AccountSend,
    value: JsonValue,
    network: Network,
    parsed: Result<FundSource, RpcError>,
    r: Result<FundedSend, RpcError>,
)
    requires
        call_ensures(
            RequestedSend::account_named,
            (requested, Ok::<AccountUuid, RpcError>(account_id)),
            Ok::<NamedSend, RpcError>(lookup),
        ),
        call_ensures(
            NamedSend::account_found,
            (lookup, Ok::<Option<Account>, String>(Some(account))),
            Ok::<AccountSend, RpcError>(found),
        ),
        call_ensures(FundSource::parse, (&value, network), parsed),
        call_ensures(AccountSend::fund_source, (found, &value, network), r),
    ensures
        r is Ok <==> parsed is Ok && account.derivation is Some,
        r matches Ok(next) ==> next.account_id() == account_id && next.network() == network
            && account.derivation == Some(next.derivation()) && next.fund_source().pools()
            == parsed->Ok_0.pools() && next.fund_source().transparent_rule()
            == parsed->Ok_0.transparent_rule() && (next.fund_source() is Ironwood
            <==> parsed->Ok_0 is Ironwood),
        parsed matches Err(e) ==> (r matches Err(f) && f@ == e@),
        parsed is Ok && r is Err ==> (r matches Err(e) && e.code == LegacyCode::InvalidAddressOrKey
            && laws::message_names(e.message, "err-account-no-payment-source"@)),
{
    if let JsonValue::Array(items) = value {
        let entries = items@.map_values(|item: JsonValue| fund_source::entry_of(network, item));
        let again: Result<FundSource, RpcError> = match r {
            Ok(next) => Ok(next.fund_source()),
            Err(e) => if fund_source::parses_to(value, network, Err::<FundSource, RpcError>(e)) {
                Err(e)
            } else {
                Ok(
                    choose|source: FundSource| #[trigger]
                        fund_source::parses_to(
                            value,
                            network,
                            Ok::<FundSource, RpcError>(source),
                        ),
                )
            },
        };
        fund_source::an_array_has_one_outcome(entries, parsed, again);
        if let (Ok(a), Ok(b)) = (parsed, again) {
            fund_source::arrays_of_the_same_addresses_are_the_same_source(entries, entries, a, b);
        }
    }
}

/// A wallet that is locked is told apart from a database that fails: the caller is asked to
/// unlock it. Either way the caller sees the reason as it was given.
pub proof fn a_locked_wallet_asks_to_be_unlocked(
    kind: ErrorKind,
    reason: &str,
    built: BuiltSend,
    answer: RpcError,
    answer_of_send: RpcError,
)
    requires
        call_ensures(seed_failure, (kind, reason), answer),
        call_ensures(BuiltSend::seed_failed, (built, kind, reason), answer_of_send),
    ensures
        laws::message_says(answer.message, reason@),
        answer.code == LegacyCode::WalletUnlockNeeded <==> kind == ErrorKind::Generic && reason@
            == "Wallet is locked"@,
        answer.code == LegacyCode::WalletUnlockNeeded || answer.code == LegacyCode::Database,
        answer_of_send.code == answer.code,
        laws::message_says(answer_of_send.message, reason@),
{
}

/// The character that a number below sixteen is shown as.
pub open spec fn shown_digit(d: int) -> char {
    "0123456789abcdef"@[d]
}

/// Whether `text` shows `bytes` as transaction identifiers are shown: in hexadecimal, the last
/// byte first.
pub open spec fn shows(text: Seq<char>, bytes: Seq<u8>) -> bool {
    &&& text.len() == 64
    &&& forall|i: int|
        0 <= i < 32 ==> text[62 - 2 * i] == shown_digit((#[trigger] bytes[i]) as int / 16)
            && text[63 - 2 * i] == shown_digit(bytes[i] as int % 16)
}

/// A transaction identifier is read back from the form that it is shown in.
pub proof fn transaction_identifiers_are_read_as_shown(
    bytes: [u8; 32],
    text: &str,
    r: Result<[u8; 32], RpcError>,
)
    requires
        shows(text@, bytes@),
        call_ensures(decode_txid, (text,), r),
    ensures
        r matches Ok(txid) && txid@ == bytes@,
{
    reveal_strlit("0123456789abcdef");
    assert forall|k: int| 0 <= k < 64 implies crate::send_from_account::hex_value(
        #[trigger] text@[k],
    ) is Some by {
        let i = 31 - k / 2;
        let b = bytes@[i];
        assert(0 <= b as int / 16 < 16 && 0 <= b as int % 16 < 16);
        if k % 2 == 0 {
            assert(k == 62 - 2 * i);
        } else {
            assert(k == 63 - 2 * i);
        }
    }
    let read = crate::send_from_account::txid_bytes(text@);
    assert forall|i: int| 0 <= i < 32 implies read[i] == bytes@[i] by {
        let b = bytes@[i];
        let (high, low) = (b as int / 16, b as int % 16);
        assert(0 <= high < 16 && 0 <= low < 16);
        assert(text@[2 * (31 - i)] == shown_digit(high));
        assert(text@[2 * (31 - i) + 1] == shown_digit(low));
        assert(crate::send_from_account::hex_value(shown_digit(high)) == Some(high as u8));
        assert(crate::send_from_account::hex_value(shown_digit(low)) == Some(low as u8));
    }
    assert(read =~= bytes@);
}

/// Nothing but 64 hexadecimal digits is a transaction identifier.
pub proof fn other_strings_are_no_transaction_identifiers(
    text: &str,
    i: int,
    r: Result<[u8; 32], RpcError>,
)
    requires
        text@.len() != 64 || (0 <= i < 64 && !('0' <= text@[i] && text@[i] <= '9') && !('a'
            <= text@[i] && text@[i] <= 'f') && !('A' <= text@[i] && text@[i] <= 'F')),
        call_ensures(decode_txid, (text,), r),
    ensures
        r matches Err(e) && laws::rpc_says(e, LegacyCode::Misc, "Failed to decode txid"@),
{
    if text@.len() == 64 {
        assert(crate::send_from_account::hex_value(text@[i]) is None);
    }
}

} // verus!
