//! Laws of the conversation with a PIR provider.

use vstd::prelude::*;

use crate::network::{BlockHeight, Network, PirNetwork};
use crate::pir;
use crate::pir::{
    client_awaited, first_unchecked_ironwood_height, run, session, within_timeout, AnchorChosen,
    AskedCheck, Check, CheckedNotes, FetchedWitness, Health, HealthyCheck, NoteCheck, Pir,
    PirError, PirNote, PirStart, RunEvent, RunPhase, SendNotes, SendPreparation, SendStep,
    SessionAction, Shortcut, ShortcutNotes, ShortcutScanned, ShortcutSpend, ShortcutStep,
    SpendCheck, SpendStep, WitnessConnect, WitnessFetch, WitnessReplacement, WitnessStep,
};
use crate::spendable_balance;

verus! {

/// The first height that a provider has to know is the first one that the wallet has not
/// scanned and that Ironwood notes can be spent at: there is none below it, and none is left
/// out, but for the height that has no successor.
pub proof fn the_first_unchecked_height_is_the_least_one(
    last_scanned: BlockHeight,
    activation: BlockHeight,
    first: BlockHeight,
    height: u32,
)
    requires
        call_ensures(first_unchecked_ironwood_height, (last_scanned, activation), first),
    ensures
        first.0 >= activation.0,
        height > last_scanned.0 && height >= activation.0 ==> first.0 <= height,
        last_scanned.0 < 0xffff_ffff ==> first.0 > last_scanned.0,
        last_scanned.0 < 0xffff_ffff ==> first.0 == activation.0 || first.0 == last_scanned.0 + 1,
        last_scanned.0 == 0xffff_ffff ==> first.0 == 0xffff_ffff,
{
}

/// A check goes on exactly if the provider answers nullifier queries, whatever it says of
/// witnesses; what it says of them is kept.
pub proof fn checks_need_a_provider_of_nullifiers(
    check: NoteCheck,
    shortcut: Shortcut,
    health: Health,
    r: Result<HealthyCheck, PirError>,
    at_startup: Result<ShortcutNotes, PirError>,
)
    requires
        call_ensures(NoteCheck::health, (check, &health), r),
        call_ensures(Shortcut::health, (shortcut, &health), at_startup),
    ensures
        r is Ok <==> health.nullifier_phase@ == "serving"@,
        r matches Ok(next) ==> (next.witness_serving() <==> health.witness_phase@ == "serving"@),
        r matches Err(error) ==> error == PirError::NullifierNotServing,
        at_startup is Ok <==> health.nullifier_phase@ == "serving"@,
        at_startup matches Ok(next) ==> (next.witness_serving() <==> health.witness_phase@
            == "serving"@) && next.pir_network() == shortcut.pir_network(),
        at_startup matches Err(error) ==> error == PirError::NullifierNotServing,
{
}

/// A note check up to its questions.
pub ghost struct Opening {
    pub notes: Vec<PirNote>,
    pub last_scanned: BlockHeight,
    pub activation: BlockHeight,
    pub check: NoteCheck,
    pub health: Health,
    pub healthy: HealthyCheck,
}

impl Opening {
    /// Whether the calls were made, each with what the one before gave.
    pub open spec fn made(self) -> bool {
        &&& call_ensures(
            NoteCheck::new,
            (self.notes, self.last_scanned, self.activation),
            self.check,
        )
        &&& call_ensures(
            NoteCheck::health,
            (self.check, &self.health),
            Ok::<HealthyCheck, PirError>(self.healthy),
        )
    }
}

/// A check goes on exactly if the provider knows the nullifiers of every block from the first
/// that the wallet cannot judge by itself.
pub proof fn no_unscanned_block_may_be_missing(
    opening: Opening,
    earliest: u64,
    latest: u64,
    r: Result<SpendCheck, PirError>,
    height: u64,
)
    requires
        opening.made(),
        call_ensures(HealthyCheck::spend_connected, (opening.healthy, earliest, latest), r),
    ensures
        r is Ok && opening.last_scanned.0 < height && opening.activation.0 <= height ==> earliest
            <= height,
        opening.last_scanned.0 < 0xffff_ffff ==> (r is Ok <==> earliest <= opening.last_scanned.0
            + 1 || earliest <= opening.activation.0),
        opening.last_scanned.0 == 0xffff_ffff ==> (r is Ok <==> earliest <= 0xffff_ffff),
        r matches Err(error) ==> error == PirError::RetentionTooShort,
{
}

/// A provider that serves one wallet serves every wallet that has scanned further, and a
/// provider that knows more blocks serves every wallet that the other serves.
pub proof fn coverage_is_monotone(
    a: Opening,
    b: Opening,
    earliest_a: u64,
    earliest_b: u64,
    latest_a: u64,
    latest_b: u64,
    r_a: Result<SpendCheck, PirError>,
    r_b: Result<SpendCheck, PirError>,
)
    requires
        a.made(),
        b.made(),
        a.activation == b.activation,
        a.last_scanned.0 <= b.last_scanned.0,
        earliest_b <= earliest_a,
        call_ensures(HealthyCheck::spend_connected, (a.healthy, earliest_a, latest_a), r_a),
        call_ensures(HealthyCheck::spend_connected, (b.healthy, earliest_b, latest_b), r_b),
    ensures
        r_a is Ok ==> r_b is Ok,
{
}

/// The questions of a note check and their answers.
pub ghost struct Questions {
    pub states: Seq<SpendCheck>,
    pub asked: Seq<AskedCheck>,
    pub answers: Seq<bool>,
}

impl Questions {
    /// Whether the questions were asked from `start` on, one after the other, and came to an
    /// end with `check`.
    pub open spec fn made(self, start: SpendCheck, check: Check) -> bool {
        &&& self.asked.len() == self.answers.len()
        &&& self.states.len() == self.answers.len() + 1
        &&& self.states[0] == start
        &&& forall|k: int|
            0 <= k < self.answers.len() ==> call_ensures(
                SpendCheck::next,
                (#[trigger] self.states[k],),
                SpendStep::Ask(self.asked[k]),
            ) && call_ensures(
                AskedCheck::answered,
                (self.asked[k], self.answers[k]),
                self.states[k + 1],
            )
        &&& call_ensures(
            SpendCheck::next,
            (self.states[self.answers.len() as int],),
            SpendStep::Done(check),
        )
    }
}

/// The notes that the answer was `false` for, in their order.
pub open spec fn notes_answered_unspent(notes: Seq<PirNote>, answers: Seq<bool>) -> Seq<PirNote> {
    notes.zip_with(answers).filter(|pair: (PirNote, bool)| !pair.1).map_values(
        |pair: (PirNote, bool)| pair.0,
    )
}

/// The notes that are kept are those that the answer was `false` for.
proof fn lemma_unspent_notes(notes: Seq<PirNote>, answers: Seq<bool>)
    requires
        notes.len() == answers.len(),
    ensures
        pir::unspent_notes(notes, answers) == notes_answered_unspent(notes, answers),
    decreases notes.len(),
{
    reveal(Seq::filter);
    let pairs = notes.zip_with(answers);
    let kept = |pair: (PirNote, bool)| !pair.1;
    if notes.len() > 0 {
        lemma_unspent_notes(notes.drop_last(), answers.drop_last());
        let earlier = notes.drop_last().zip_with(answers.drop_last());
        assert(pairs.drop_last() =~= earlier);
        assert(pairs.last() == (notes.last(), answers.last()));
        if !answers.last() {
            assert(earlier.filter(kept).push(pairs.last()).map_values(
                |pair: (PirNote, bool)| pair.0,
            ) =~= earlier.filter(kept).map_values(|pair: (PirNote, bool)| pair.0).push(
                notes.last(),
            ));
        }
    } else {
        assert(notes_answered_unspent(notes, answers) =~= Seq::empty());
    }
}

/// What a check knows after its first questions.
proof fn lemma_questions(questions: Questions, start: SpendCheck, check: Check, k: int)
    requires
        questions.made(start, check),
        start.replies() == Seq::<bool>::empty(),
        0 <= k <= questions.answers.len(),
    ensures
        questions.states[k].notes() == start.notes(),
        questions.states[k].replies() == questions.answers.take(k),
        questions.states[k].checked_through() == start.checked_through(),
        questions.states[k].witness_serving() == start.witness_serving(),
    decreases k,
{
    if k == 0 {
        assert(questions.answers.take(0) =~= Seq::empty());
    } else {
        lemma_questions(questions, start, check, k - 1);
        let before = questions.states[k - 1];
        assert(questions.answers.take(k) =~= questions.answers.take(k - 1).push(
            questions.answers[k - 1],
        ));
    }
}

/// The provider is asked about each note once, in order, by the note's nullifier. The check
/// keeps exactly the notes that it was told are unspent, and tells how far the provider knows
/// the nullifiers and whether it answers witness queries.
pub proof fn every_note_is_asked_about(
    opening: Opening,
    earliest: u64,
    latest: u64,
    start: SpendCheck,
    questions: Questions,
    check: Check,
)
    requires
        opening.made(),
        call_ensures(
            HealthyCheck::spend_connected,
            (opening.healthy, earliest, latest),
            Ok::<SpendCheck, PirError>(start),
        ),
        questions.made(start, check),
    ensures
        questions.answers.len() == opening.notes@.len(),
        forall|k: int, nullifier: [u8; 32]|
            0 <= k < questions.asked.len() && #[trigger] call_ensures(
                AskedCheck::nullifier,
                (&questions.asked[k],),
                nullifier,
            ) ==> nullifier == opening.notes@[k].nullifier,
        check.notes@ == notes_answered_unspent(opening.notes@, questions.answers),
        check.checked_through == latest,
        check.witness_serving <==> opening.health.witness_phase@ == "serving"@,
{
    let n = questions.answers.len() as int;
    lemma_questions(questions, start, check, n);
    assert(questions.answers.take(n) =~= questions.answers);
    assert forall|k: int, nullifier: [u8; 32]|
        0 <= k < questions.asked.len() && #[trigger] call_ensures(
            AskedCheck::nullifier,
            (&questions.asked[k],),
            nullifier,
        ) implies nullifier == opening.notes@[k].nullifier by {
        lemma_questions(questions, start, check, k);
        let state = questions.states[k];
        assert(state.replies().len() == k);
    }
    assert(questions.answers.len() == opening.notes@.len()) by {
        if n > 0 {
            lemma_questions(questions, start, check, n - 1);
            let state = questions.states[n - 1];
            assert(call_ensures(
                SpendCheck::next,
                (state,),
                SpendStep::Ask(questions.asked[n - 1]),
            ));
        }
    }
    lemma_unspent_notes(opening.notes@, questions.answers);
}

/// A note that is reported spent is never kept, and a note that is not always is.
pub proof fn spent_notes_are_left_out_and_others_kept(
    notes: Seq<PirNote>,
    answers: Seq<bool>,
    note: PirNote,
)
    requires
        notes.len() == answers.len(),
    ensures
        notes_answered_unspent(notes, answers).contains(note) <==> exists|i: int|
            0 <= i < notes.len() && !answers[i] && #[trigger] notes[i] == note,
{
    lemma_unspent_notes(notes, answers);
    let kept = pir::unspent_notes(notes, answers);
    if kept.contains(note) {
        let k = choose|k: int| 0 <= k < kept.len() && kept[k] == note;
        let i = pir::unspent_notes_were_not_reported_spent(notes, answers, k);
        assert(notes[i] == note);
    }
    if exists|i: int| 0 <= i < notes.len() && !answers[i] && #[trigger] notes[i] == note {
        let i = choose|i: int| 0 <= i < notes.len() && !answers[i] && #[trigger] notes[i] == note;
        let k = pir::notes_not_reported_spent_are_kept(notes, answers, i);
        assert(kept[k] == note);
    }
}

/// A balance is made of the notes and the height of the check.
pub proof fn balances_are_made_of_the_check(check: Check, checked: CheckedNotes)
    requires
        call_ensures(Check::into_checked_notes, (check,), checked),
    ensures
        checked.notes@ == check.notes@,
        checked.checked_through == check.checked_through,
{
}

/// Witnesses are needed exactly if a note is unspent, and then the provider has to answer
/// witness queries.
pub proof fn witnesses_are_needed_for_unspent_notes(
    check: Check,
    r: Result<WitnessStep, PirError>,
)
    requires
        call_ensures(Check::witnesses, (check,), r),
    ensures
        check.notes@.len() == 0 <==> r matches Ok(WitnessStep::Done),
        check.notes@.len() > 0 && check.witness_serving <==> r matches Ok(WitnessStep::Connect(_)),
        check.notes@.len() > 0 && !check.witness_serving <==> r is Err,
        r matches Err(error) ==> error == PirError::WitnessNotServing,
        r matches Ok(WitnessStep::Connect(next)) ==> next.notes() == check.notes@
            && next.checked_through() == check.checked_through,
{
}

/// Witnesses are taken for the height that the provider offers, at every height up to that of
/// the last block whose nullifiers it knows, as far as blocks can have such a height; for no
/// other. An offer for a later block is refused before one for a height that no block has.
pub proof fn every_anchor_through_the_checked_height_is_usable(
    check: Check,
    connect: WitnessConnect,
    anchor: u64,
    r: Result<AnchorChosen, PirError>,
)
    requires
        call_ensures(
            Check::witnesses,
            (check,),
            Ok::<WitnessStep, PirError>(WitnessStep::Connect(connect)),
        ),
        call_ensures(WitnessConnect::connected, (connect, anchor), r),
    ensures
        r is Ok <==> anchor <= check.checked_through && anchor <= 0xffff_ffff,
        r matches Err(PirError::NoSharedSnapshot) <==> anchor > check.checked_through,
        r matches Err(PirError::AnchorOutOfRange) <==> 0xffff_ffff < anchor
            <= check.checked_through,
        r matches Ok(next) ==> forall|height: BlockHeight| #[trigger]
            call_ensures(AnchorChosen::height, (&next,), height) ==> height.0 == anchor,
{
}

/// An earlier offer is never refused where a later one is taken.
pub proof fn usable_anchors_have_usable_predecessors(
    connect: WitnessConnect,
    earlier: u64,
    later: u64,
    r_earlier: Result<AnchorChosen, PirError>,
    r_later: Result<AnchorChosen, PirError>,
)
    requires
        earlier <= later,
        call_ensures(WitnessConnect::connected, (connect, earlier), r_earlier),
        call_ensures(WitnessConnect::connected, (connect, later), r_later),
    ensures
        r_later is Ok ==> r_earlier is Ok,
{
}

/// A preparation of witnesses up to the questions for them.
pub ghost struct Anchoring {
    pub check: Check,
    pub connect: WitnessConnect,
    pub anchor: u64,
    pub chosen: AnchorChosen,
}

impl Anchoring {
    /// Whether the calls were made, each with what the one before gave.
    pub open spec fn made(self) -> bool {
        &&& call_ensures(
            Check::witnesses,
            (self.check,),
            Ok::<WitnessStep, PirError>(WitnessStep::Connect(self.connect)),
        )
        &&& call_ensures(
            WitnessConnect::connected,
            (self.connect, self.anchor),
            Ok::<AnchorChosen, PirError>(self.chosen),
        )
    }
}

/// Witnesses are fetched exactly if the chain has the anchor's block and no note is in a later
/// one. A block that the chain does not have is what is told first. The provider is asked for
/// the positions of all notes, in order.
pub proof fn witnesses_are_fetched_for_blocks_of_the_chain(
    anchoring: Anchoring,
    root: Option<[u8; 32]>,
    r: Result<WitnessFetch, PirError>,
)
    requires
        anchoring.made(),
        call_ensures(AnchorChosen::chain_root, (anchoring.chosen, root), r),
    ensures
        r is Ok <==> root is Some && forall|i: int|
            0 <= i < anchoring.check.notes@.len() ==> (
            #[trigger] anchoring.check.notes@[i]).mined_height.0 <= anchoring.anchor,
        r matches Err(error) ==> error == if root is None {
            PirError::AnchorAboveTip
        } else {
            PirError::AnchorPredatesNote
        },
        r matches Ok(next) ==> forall|positions: Vec<u64>| #[trigger]
            call_ensures(WitnessFetch::positions, (&next,), positions) ==> positions@.len()
                == anchoring.check.notes@.len() && forall|i: int|
                0 <= i < positions@.len() ==> #[trigger] positions@[i]
                    == anchoring.check.notes@[i].position,
{
}

/// The witnesses are stored exactly if each that came for a note leads to the chain's own root.
/// What is stored is for the anchor, and holds the hashes that came for each note under that
/// note's identifier and position, for as many notes as witnesses came for.
pub proof fn stored_witnesses_are_those_that_lead_to_the_chain(
    anchoring: Anchoring,
    root: [u8; 32],
    fetch: WitnessFetch,
    fetched: Vec<FetchedWitness>,
    r: Result<WitnessReplacement, PirError>,
)
    requires
        anchoring.made(),
        call_ensures(
            AnchorChosen::chain_root,
            (anchoring.chosen, Some(root)),
            Ok::<WitnessFetch, PirError>(fetch),
        ),
        call_ensures(WitnessFetch::fetched, (fetch, fetched), r),
    ensures
        r is Ok <==> forall|i: int|
            0 <= i < fetched@.len() && i < anchoring.check.notes@.len() ==> (
            #[trigger] fetched@[i]).anchor_root@ == root@,
        r matches Err(error) ==> error == PirError::RootMismatch,
        r matches Ok(stored) ==> {
            &&& stored.anchor_height.0 == anchoring.anchor
            &&& stored.anchor_root == root
            &&& stored.witnesses@.len() == vstd::math::min(
                fetched@.len() as int,
                anchoring.check.notes@.len() as int,
            )
            &&& forall|i: int|
                0 <= i < stored.witnesses@.len() ==> {
                    &&& (#[trigger] stored.witnesses@[i]).note_id
                        == anchoring.check.notes@[i].note_id
                    &&& stored.witnesses@[i].position == anchoring.check.notes@[i].position
                    &&& stored.witnesses@[i].siblings@ == fetched@[i].siblings@
                }
        },
{
    let notes = anchoring.check.notes@;
    if r is Err {
        let i = choose|i: int|
            0 <= i < pir::paired(notes, fetched@) && (#[trigger] fetched@[i]).anchor_root@ != root@;
        assert(fetched@[i].anchor_root@ != root@);
    }
    if let Ok(stored) = r {
        assert forall|i: int| 0 <= i < stored.witnesses@.len() implies {
            &&& (#[trigger] stored.witnesses@[i]).note_id == notes[i].note_id
            &&& stored.witnesses@[i].position == notes[i].position
            &&& stored.witnesses@[i].siblings@ == fetched@[i].siblings@
        } by {
            assert(pir::witnesses_note(stored.witnesses@[i], notes[i], fetched@[i]));
        }
    }
}

/// PIR is off exactly if no peers are configured, it is unusable exactly on private networks,
/// and elsewhere it is asked of the network's own providers, from the height on that the
/// Ironwood pool opens at there.
pub proof fn pir_runs_on_public_networks_with_peers(
    peers: Vec<String>,
    network: Network,
    start: PirStart,
    shortcut: Result<Option<Shortcut>, PirError>,
)
    requires
        call_ensures(Pir::start, (&peers, network), start),
        call_ensures(Shortcut::begin, (&peers, network), shortcut),
    ensures
        start == PirStart::Off <==> peers@.len() == 0,
        start is Unusable <==> peers@.len() > 0 && network == Network::Regtest,
        start matches PirStart::Unusable(warning) ==> warning@ == "PIR does not support regtest"@,
        peers@.len() > 0 && network == Network::Main ==> start == PirStart::On(
            Pir { network: PirNetwork::Main, activation: BlockHeight(3_428_143) },
        ),
        peers@.len() > 0 && network == Network::Test ==> start == PirStart::On(
            Pir { network: PirNetwork::Test, activation: BlockHeight(4_134_000) },
        ),
        shortcut matches Ok(None) <==> peers@.len() == 0,
        shortcut is Err <==> peers@.len() > 0 && network == Network::Regtest,
        shortcut matches Err(error) ==> error == PirError::RegtestUnsupported,
        shortcut matches Ok(Some(next)) ==> forall|of: PirNetwork| #[trigger]
            call_ensures(Shortcut::network, (&next,), of) ==> (of == PirNetwork::Main <==> network
                == Network::Main) && (of == PirNetwork::Test <==> network == Network::Test),
{
}

/// Notes are checked from where PIR runs: they are handed on as they are, with the height that
/// the wallet scanned up to and the one that the Ironwood pool opens at.
pub proof fn checks_are_made_of_the_wallet_s_notes(
    pir: Pir,
    notes: Vec<PirNote>,
    last_scanned: BlockHeight,
    check: NoteCheck,
    fresh: NoteCheck,
)
    requires
        call_ensures(Pir::check_notes, (&pir, notes, last_scanned), check),
        call_ensures(NoteCheck::new, (notes, last_scanned, pir.activation), fresh),
    ensures
        check.notes() == notes@,
        check.last_scanned() == last_scanned,
        check.activation() == pir.activation,
        fresh.notes() == check.notes(),
        fresh.last_scanned() == check.last_scanned(),
        fresh.activation() == check.activation(),
{
}

/// A send prepares witnesses exactly if the wallet has notes, and needs to know how far the
/// wallet scanned.
pub proof fn a_send_checks_all_notes(
    pir: Pir,
    preparation: SendPreparation,
    notes: Vec<PirNote>,
    step: SendStep,
    last_scanned: Option<BlockHeight>,
)
    requires
        call_ensures(Pir::prepare_witnesses, (&pir,), preparation),
        call_ensures(SendPreparation::cleared, (preparation, notes), step),
    ensures
        step is Done <==> notes@.len() == 0,
        step matches SendStep::AskScanned(next) ==> forall|r: Result<NoteCheck, PirError>| #[trigger]
            call_ensures(SendNotes::scanned, (next, last_scanned), r) ==> match last_scanned {
                Some(height) => r matches Ok(check) && check.notes() == notes@
                    && check.last_scanned() == height && check.activation() == pir.activation,
                None => r == Err::<NoteCheck, PirError>(PirError::NothingScanned),
            },
{
}

/// The shortcut at startup up to its questions.
pub ghost struct StartupCheck {
    pub peers: Vec<String>,
    pub network: Network,
    pub shortcut: Shortcut,
    pub health: Health,
    pub ready: ShortcutNotes,
    pub notes: Vec<PirNote>,
    pub loaded: ShortcutScanned,
    pub last_scanned: BlockHeight,
    pub spend: ShortcutSpend,
}

impl StartupCheck {
    /// Whether the calls were made, each with what the one before gave.
    pub open spec fn made(self) -> bool {
        &&& call_ensures(
            Shortcut::begin,
            (&self.peers, self.network),
            Ok::<Option<Shortcut>, PirError>(Some(self.shortcut)),
        )
        &&& call_ensures(
            Shortcut::health,
            (self.shortcut, &self.health),
            Ok::<ShortcutNotes, PirError>(self.ready),
        )
        &&& call_ensures(
            ShortcutNotes::loaded,
            (self.ready, self.notes),
            ShortcutStep::AskScanned(self.loaded),
        )
        &&& call_ensures(
            ShortcutScanned::scanned,
            (self.loaded, Some(self.last_scanned)),
            Ok::<ShortcutSpend, PirError>(self.spend),
        )
    }
}

/// At startup the same is demanded of the provider as later on: it has to know the nullifiers
/// of every block from the first that the wallet cannot judge by itself, on the network that
/// the wallet is on.
pub proof fn startup_demands_what_later_checks_demand(
    startup: StartupCheck,
    pir: Pir,
    opening: Opening,
    earliest: u64,
    latest: u64,
    r: Result<SpendCheck, PirError>,
    later: Result<SpendCheck, PirError>,
)
    requires
        startup.made(),
        call_ensures(Pir::start, (&startup.peers, startup.network), PirStart::On(pir)),
        opening.made(),
        opening.notes == startup.notes,
        opening.last_scanned == startup.last_scanned,
        opening.activation == pir.activation,
        opening.health == startup.health,
        call_ensures(ShortcutSpend::spend_connected, (startup.spend, earliest, latest), r),
        call_ensures(HealthyCheck::spend_connected, (opening.healthy, earliest, latest), later),
    ensures
        r is Ok <==> later is Ok,
        startup.network == Network::Main && startup.last_scanned.0 < 3_428_143 ==> (r is Ok
            <==> earliest <= 3_428_143),
        startup.network == Network::Test && startup.last_scanned.0 < 4_134_000 ==> (r is Ok
            <==> earliest <= 4_134_000),
        r matches Err(error) ==> error == PirError::RetentionTooShort,
        r matches Ok(next) ==> (later matches Ok(other) && next.notes() == other.notes()
            && next.notes() == startup.notes@ && next.replies() == other.replies()
            && next.checked_through() == latest && next.witness_serving()
            == other.witness_serving()),
{
}

/// At startup nothing is asked about a wallet without notes, and nothing can be asked about one
/// that has not scanned. Where it is not known at which height the Ironwood pool opens, there
/// is no shortcut.
pub proof fn startup_needs_notes_a_scan_and_an_activation_height(
    ready: ShortcutNotes,
    notes: Vec<PirNote>,
    step: ShortcutStep,
    loaded: ShortcutScanned,
    last_scanned: Option<BlockHeight>,
    scanned: Result<ShortcutSpend, PirError>,
    spend: ShortcutSpend,
    activation: Option<BlockHeight>,
    earliest: u64,
    latest: u64,
    r: Result<SpendCheck, PirError>,
)
    requires
        call_ensures(ShortcutNotes::loaded, (ready, notes), step),
        call_ensures(ShortcutScanned::scanned, (loaded, last_scanned), scanned),
        call_ensures(
            ShortcutSpend::spend_connected_from,
            (spend, activation, earliest, latest),
            r,
        ),
    ensures
        step is Done <==> notes@.len() == 0,
        scanned is Ok <==> last_scanned is Some,
        scanned matches Err(error) ==> error == PirError::NothingScanned,
        activation is None ==> r == Err::<SpendCheck, PirError>(PirError::NoActivationHeight),
        activation matches Some(height) ==> (spend.last_scanned().0 < 0xffff_ffff ==> (r is Ok
            <==> earliest <= height.0 || earliest <= spend.last_scanned().0 + 1)),
        activation is Some && r is Err ==> r == Err::<SpendCheck, PirError>(
            PirError::RetentionTooShort,
        ),
{
}

/// Work that ends in time gives its own result; work that does not gives an error that says so.
pub proof fn late_work_gives_no_result<T>(
    finished: Option<Result<T, String>>,
    late: PirError,
    shown: &'static str,
    r: Result<T, String>,
    in_query: Result<T, String>,
    at_startup: Result<T, String>,
)
    requires
        call_ensures(PirError::text, (late,), shown),
        call_ensures(within_timeout::<T>, (finished, late), r),
        call_ensures(within_timeout::<T>, (finished, PirError::QueryTimedOut), in_query),
        call_ensures(within_timeout::<T>, (finished, PirError::StartupTimedOut), at_startup),
    ensures
        finished matches Some(result) ==> r == result && in_query == result && at_startup
            == result,
        finished is None ==> (r matches Err(text) && text@ == shown@),
        finished is None ==> (in_query matches Err(text) && text@ == "PIR query timed out"@) && (
        at_startup matches Err(text) && text@ == "PIR startup timed out"@),
{
}

/// A send waits two minutes for its witnesses, and startup as long for the shortcut; a balance
/// is wanted sooner, and networking is started again within seconds.
pub proof fn waits_are_bounded()
    ensures
        pir::SEND_TIMEOUT_SECONDS == 2 * 60,
        pir::PIR_STARTUP_TIMEOUT_SECONDS == 2 * 60,
        spendable_balance::TIMEOUT_SECONDS == 25,
        pir::RETRY_DELAY_SECONDS == 5,
{
}

/// A query waits for a client as long as one can come: it uses the client as soon as there is
/// one, and fails only when networking has stopped.
pub proof fn queries_wait_as_long_as_a_client_can_come(
    published: bool,
    action: SessionAction,
    runs: bool,
    awaited: Result<(), PirError>,
)
    requires
        call_ensures(session, (published,), action),
        call_ensures(client_awaited, (runs,), awaited),
    ensures
        action == SessionAction::Open <==> published,
        action == SessionAction::AwaitClient <==> !published,
        awaited is Ok <==> runs,
        awaited matches Err(error) ==> error == PirError::NetworkingStopped,
{
}

/// Networking serves exactly after a start that succeeded, until it is asked to shut down. A
/// start that failed is followed by a wait, and the wait by another start. A request to shut
/// down is met from every phase, through the node's own shutdown if one runs, and nothing
/// leaves the end.
pub proof fn networking_restarts_until_it_is_shut_down(
    phase: RunPhase,
    event: RunEvent,
    next: RunPhase,
)
    requires
        call_ensures(run, (phase, event), next),
    ensures
        next == RunPhase::Serving <==> phase == RunPhase::Starting && event == RunEvent::Started
            || phase == RunPhase::Serving && event != RunEvent::ShutdownRequested,
        next == RunPhase::Waiting <==> phase == RunPhase::Starting && event
            == RunEvent::StartFailed || phase == RunPhase::Waiting && event
            != RunEvent::ShutdownRequested && event != RunEvent::DelayElapsed,
        next == RunPhase::Starting <==> phase == RunPhase::Waiting && event
            == RunEvent::DelayElapsed || phase == RunPhase::Starting && (event
            == RunEvent::DelayElapsed || event == RunEvent::NodeClosed),
        next == RunPhase::Closing <==> phase == RunPhase::Serving && event
            == RunEvent::ShutdownRequested || phase == RunPhase::Closing && event
            != RunEvent::NodeClosed,
        phase == RunPhase::Stopped ==> next == RunPhase::Stopped,
{
}

} // verus!
