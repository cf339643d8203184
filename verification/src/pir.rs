//! Private information retrieval (PIR) of the spend state and the witnesses of Ironwood notes.
//!
//! A PIR provider tells which of the wallet's notes were spent in blocks that the wallet has
//! not scanned, and hands out Merkle paths for the others, so that they can be spent before
//! the wallet has caught up. The conversation with the provider is a chain of states. Each
//! state has one method for what comes back from outside, and that method gives the next
//! state or the error that ends the conversation.

use vstd::prelude::*;
use vstd::string::*;

use crate::network;
use crate::network::{BlockHeight, Network, PirNetwork};
use crate::text;
use crate::value::Zatoshis;

verus! {

/// How long preparing the witnesses of a send may take, in seconds.
pub const SEND_TIMEOUT_SECONDS: u64 = 120;

/// How long to wait before networking is started again, in seconds.
pub const RETRY_DELAY_SECONDS: u64 = 5;

/// How long the shortcut at startup may take, in seconds.
pub const PIR_STARTUP_TIMEOUT_SECONDS: u64 = 120;

/// Why PIR cannot be used.
#[derive(Clone, Copy, Debug, PartialEq, Eq, Structural)]
pub enum PirError {
    /// No PIR provider is configured.
    Disabled,
    /// There is no PIR on private networks.
    RegtestUnsupported,
    /// The chain has no height at which the Ironwood pool opens.
    NoActivationHeight,
    /// The wallet has not scanned any blocks.
    NothingScanned,
    /// The PIR network was shut down.
    NetworkingStopped,
    /// The provider does not answer nullifier queries.
    NullifierNotServing,
    /// The provider does not know all nullifiers since the wallet's last scanned block.
    RetentionTooShort,
    /// The provider does not answer witness queries.
    WitnessNotServing,
    /// The witnesses are for a later block than the nullifiers.
    NoSharedSnapshot,
    /// The witnesses are for a height that no block can have.
    AnchorOutOfRange,
    /// The witnesses are for a block that the chain does not have.
    AnchorAboveTip,
    /// The witnesses are for a block before one that holds a note of the wallet.
    AnchorPredatesNote,
    /// A witness does not lead to the root of the chain's tree.
    RootMismatch,
    /// The values of the notes add up to more money than can exist.
    BalanceOverflow,
    /// The provider did not answer in time.
    QueryTimedOut,
    /// The shortcut at startup was not completed in time.
    StartupTimedOut,
}

/// The text shown for a [`PirError`].
pub open spec fn error_text(error: PirError) -> Seq<char> {
    match error {
        PirError::Disabled => "PIR is disabled"@,
        PirError::RegtestUnsupported => "PIR does not support regtest"@,
        PirError::NoActivationHeight => "NU6.3 activation height is not configured"@,
        PirError::NothingScanned => "wallet has not scanned any blocks"@,
        PirError::NetworkingStopped => "PIR networking stopped"@,
        PirError::NullifierNotServing => "PIR nullifier provider is not serving"@,
        PirError::RetentionTooShort =>
            "PIR nullifier retention does not cover the unscanned range"@,
        PirError::WitnessNotServing => "PIR witness provider is not serving"@,
        PirError::NoSharedSnapshot => "PIR datasets do not share a usable snapshot"@,
        PirError::AnchorOutOfRange => "PIR anchor height exceeds the Zcash height range"@,
        PirError::AnchorAboveTip => "PIR anchor is above the chain tip"@,
        PirError::AnchorPredatesNote => "PIR anchor predates a wallet note"@,
        PirError::RootMismatch => "PIR witness root does not match the chain"@,
        PirError::BalanceOverflow => "spendable balance overflow"@,
        PirError::QueryTimedOut => "PIR query timed out"@,
        PirError::StartupTimedOut => "PIR startup timed out"@,
    }
}

impl PirError {
    /// The text shown for this error.
    pub fn text(self) -> (r: &'static str)
        ensures
            r@ == error_text(self),
    {
        match self {
            PirError::Disabled => "PIR is disabled",
            PirError::RegtestUnsupported => "PIR does not support regtest",
            PirError::NoActivationHeight => "NU6.3 activation height is not configured",
            PirError::NothingScanned => "wallet has not scanned any blocks",
            PirError::NetworkingStopped => "PIR networking stopped",
            PirError::NullifierNotServing => "PIR nullifier provider is not serving",
            PirError::RetentionTooShort => {
                "PIR nullifier retention does not cover the unscanned range"
            },
            PirError::WitnessNotServing => "PIR witness provider is not serving",
            PirError::NoSharedSnapshot => "PIR datasets do not share a usable snapshot",
            PirError::AnchorOutOfRange => "PIR anchor height exceeds the Zcash height range",
            PirError::AnchorAboveTip => "PIR anchor is above the chain tip",
            PirError::AnchorPredatesNote => "PIR anchor predates a wallet note",
            PirError::RootMismatch => "PIR witness root does not match the chain",
            PirError::BalanceOverflow => "spendable balance overflow",
            PirError::QueryTimedOut => "PIR query timed out",
            PirError::StartupTimedOut => "PIR startup timed out",
        }
    }
}

/// What came of work that had to end in time: its result, or `late` if it did not.
pub fn within_timeout<T>(finished: Option<Result<T, String>>, late: PirError) -> (r: Result<
    T,
    String,
>)
    ensures
        match finished {
            Some(result) => r == result,
            None => r matches Err(text) && text@ == error_text(late),
        },
{
    match finished {
        Some(result) => result,
        None => Err(late.text().to_owned()),
    }
}

/// An Ironwood note of the wallet that it believes to be unspent.
#[derive(Clone, Copy, Debug, PartialEq, Eq)]
pub struct PirNote {
    /// The note's identifier in the wallet database.
    pub note_id: i64,
    /// The position of the note's commitment in the chain's note commitment tree.
    pub position: u64,
    /// What a block reveals when the note is spent.
    pub nullifier: [u8; 32],
    /// The note's value.
    pub value: Zatoshis,
    /// The height of the block that holds the note.
    pub mined_height: BlockHeight,
}

/// What the provider says of its two services.
#[derive(Clone, Debug, PartialEq, Eq)]
pub struct Health {
    /// The phase of the service that answers nullifier queries.
    pub nullifier_phase: String,
    /// The phase of the service that answers witness queries.
    pub witness_phase: String,
}

impl Health {
    /// Whether nullifier queries are answered.
    pub open spec fn nullifier_serving(self) -> bool {
        self.nullifier_phase@ == "serving"@
    }

    /// Whether witness queries are answered.
    pub open spec fn witness_serving(self) -> bool {
        self.witness_phase@ == "serving"@
    }
}

/// The first height whose spends the wallet cannot know of by itself: the one after the last
/// that it scanned, or the one at which the Ironwood pool opens if that is later.
pub open spec fn first_unchecked(last_scanned: BlockHeight, activation: BlockHeight) -> u32 {
    if last_scanned.0 < activation.0 {
        activation.0
    } else if last_scanned.0 < u32::MAX {
        (last_scanned.0 + 1) as u32
    } else {
        u32::MAX
    }
}

/// The first height whose Ironwood spends the wallet cannot know of by itself.
pub fn first_unchecked_ironwood_height(
    last_scanned: BlockHeight,
    activation: BlockHeight,
) -> (r: BlockHeight)
    ensures
        r == BlockHeight(first_unchecked(last_scanned, activation)),
{
    let next = last_scanned.next();
    if next.0 > activation.0 {
        next
    } else {
        activation
    }
}

/// Every height that is open to Ironwood spends is either scanned by the wallet or not below
/// the height from which the provider has to know all nullifiers.
pub proof fn no_ironwood_height_is_left_unchecked(
    last_scanned: BlockHeight,
    activation: BlockHeight,
    height: BlockHeight,
)
    requires
        height.0 >= activation.0,
    ensures
        height.0 <= last_scanned.0 || first_unchecked(last_scanned, activation) <= height.0,
{
}

/// The notes that were not reported spent, in their order.
pub open spec fn unspent_notes(notes: Seq<PirNote>, spent: Seq<bool>) -> Seq<PirNote>
    decreases notes.len(),
{
    if notes.len() == 0 || spent.len() != notes.len() {
        Seq::empty()
    } else if spent.last() {
        unspent_notes(notes.drop_last(), spent.drop_last())
    } else {
        unspent_notes(notes.drop_last(), spent.drop_last()).push(notes.last())
    }
}

/// Only notes of the wallet are found unspent, and only those not reported spent.
pub proof fn unspent_notes_were_not_reported_spent(
    notes: Seq<PirNote>,
    spent: Seq<bool>,
    k: int,
) -> (i: int)
    requires
        spent.len() == notes.len(),
        0 <= k < unspent_notes(notes, spent).len(),
    ensures
        0 <= i < notes.len(),
        !spent[i],
        unspent_notes(notes, spent)[k] == notes[i],
    decreases notes.len(),
{
    let earlier = unspent_notes(notes.drop_last(), spent.drop_last());
    if k < earlier.len() {
        unspent_notes_were_not_reported_spent(notes.drop_last(), spent.drop_last(), k)
    } else {
        notes.len() - 1
    }
}

/// Every note of the wallet that was not reported spent is found unspent.
pub proof fn notes_not_reported_spent_are_kept(
    notes: Seq<PirNote>,
    spent: Seq<bool>,
    i: int,
) -> (k: int)
    requires
        spent.len() == notes.len(),
        0 <= i < notes.len(),
        !spent[i],
    ensures
        0 <= k < unspent_notes(notes, spent).len(),
        unspent_notes(notes, spent)[k] == notes[i],
    decreases notes.len(),
{
    let earlier = unspent_notes(notes.drop_last(), spent.drop_last());
    if i < notes.len() - 1 {
        notes_not_reported_spent_are_kept(notes.drop_last(), spent.drop_last(), i)
    } else {
        earlier.len() as int
    }
}

/// A note check that waits for the provider's health.
pub struct NoteCheck {
    notes: Vec<PirNote>,
    last_scanned: BlockHeight,
    activation: BlockHeight,
}

/// A note check on a provider that answers nullifier queries.
pub struct HealthyCheck {
    notes: Vec<PirNote>,
    last_scanned: BlockHeight,
    activation: BlockHeight,
    witness_serving: bool,
}

/// A note check that asks the provider about one note after the other.
pub struct SpendCheck {
    notes: Vec<PirNote>,
    asked: usize,
    unspent: Vec<PirNote>,
    replies: Ghost<Seq<bool>>,
    checked_through: u64,
    witness_serving: bool,
}

/// A note check that waits for the answer about one note.
pub struct AskedCheck {
    check: SpendCheck,
    note: PirNote,
}

/// What a note check does next.
pub enum SpendStep {
    /// The provider is asked whether a note is spent.
    Ask(AskedCheck),
    /// The provider was asked about all notes.
    Done(Check),
}

/// The result of a note check.
#[derive(Clone, Debug, PartialEq, Eq)]
pub struct Check {
    /// The notes that were not reported spent.
    pub notes: Vec<PirNote>,
    /// The height of the last block whose nullifiers the provider knows.
    pub checked_through: u64,
    /// Whether the provider answers witness queries.
    pub witness_serving: bool,
}

/// The part of a note check that a balance is made of.
#[derive(Clone, Debug, PartialEq, Eq)]
pub struct CheckedNotes {
    /// The notes that were not reported spent.
    pub notes: Vec<PirNote>,
    /// The height of the last block whose nullifiers the provider knows.
    pub checked_through: u64,
}

impl NoteCheck {
    pub closed spec fn notes(self) -> Seq<PirNote> {
        self.notes@
    }

    pub closed spec fn last_scanned(self) -> BlockHeight {
        self.last_scanned
    }

    pub closed spec fn activation(self) -> BlockHeight {
        self.activation
    }

    /// Starts to check `notes`, which the wallet knew when it had scanned up to
    /// `last_scanned`, on a network where the Ironwood pool opens at `activation`.
    pub fn new(notes: Vec<PirNote>, last_scanned: BlockHeight, activation: BlockHeight) -> (r: Self)
        ensures
            r.notes() == notes@,
            r.last_scanned() == last_scanned,
            r.activation() == activation,
    {
        NoteCheck { notes, last_scanned, activation }
    }

    /// The provider told its health: go on if it answers nullifier queries.
    pub fn health(self, health: &Health) -> (r: Result<HealthyCheck, PirError>)
        ensures
            r is Ok <==> health.nullifier_serving(),
            match r {
                Ok(next) => next.notes() == self.notes() && next.last_scanned()
                    == self.last_scanned() && next.activation() == self.activation()
                    && next.witness_serving() == health.witness_serving(),
                Err(error) => error == PirError::NullifierNotServing,
            },
    {
        let serving = nullifier_serving(health);
        match serving {
            Ok(witness_serving) => Ok(
                HealthyCheck {
                    notes: self.notes,
                    last_scanned: self.last_scanned,
                    activation: self.activation,
                    witness_serving,
                },
            ),
            Err(error) => Err(error),
        }
    }
}

/// Refuses a provider that does not answer nullifier queries; otherwise says whether it
/// answers witness queries.
fn nullifier_serving(health: &Health) -> (r: Result<bool, PirError>)
    ensures
        r is Ok <==> health.nullifier_serving(),
        match r {
            Ok(witness_serving) => witness_serving == health.witness_serving(),
            Err(error) => error == PirError::NullifierNotServing,
        },
{
    if !text::str_eq(health.nullifier_phase.as_str(), "serving") {
        return Err(PirError::NullifierNotServing);
    }
    Ok(text::str_eq(health.witness_phase.as_str(), "serving"))
}

impl HealthyCheck {
    pub closed spec fn notes(self) -> Seq<PirNote> {
        self.notes@
    }

    pub closed spec fn last_scanned(self) -> BlockHeight {
        self.last_scanned
    }

    pub closed spec fn activation(self) -> BlockHeight {
        self.activation
    }

    pub closed spec fn witness_serving(self) -> bool {
        self.witness_serving
    }

    /// The provider told which heights it knows the nullifiers of, from `earliest` through
    /// `latest`: go on if no height is missing after those that the wallet scanned.
    pub fn spend_connected(self, earliest: u64, latest: u64) -> (r: Result<SpendCheck, PirError>)
        ensures
            r is Ok <==> earliest <= first_unchecked(self.last_scanned(), self.activation()),
            match r {
                Ok(next) => next.notes() == self.notes() && next.replies() == Seq::<bool>::empty()
                    && next.checked_through() == latest && next.witness_serving()
                    == self.witness_serving(),
                Err(error) => error == PirError::RetentionTooShort,
            },
    {
        let needed = first_unchecked_ironwood_height(self.last_scanned, self.activation);
        if earliest > needed.0 as u64 {
            return Err(PirError::RetentionTooShort);
        }
        Ok(SpendCheck::begin(self.notes, latest, self.witness_serving))
    }
}

impl SpendCheck {
    /// All notes to ask about.
    pub closed spec fn notes(self) -> Seq<PirNote> {
        self.notes@
    }

    /// The answers so far: whether each of the first notes is spent.
    pub closed spec fn replies(self) -> Seq<bool> {
        self.replies@
    }

    pub closed spec fn checked_through(self) -> u64 {
        self.checked_through
    }

    pub closed spec fn witness_serving(self) -> bool {
        self.witness_serving
    }

    #[verifier::type_invariant]
    spec fn inv(self) -> bool {
        &&& self.asked <= self.notes@.len()
        &&& self.replies@.len() == self.asked
        &&& self.unspent@ == unspent_notes(self.notes@.take(self.asked as int), self.replies@)
    }

    fn begin(notes: Vec<PirNote>, checked_through: u64, witness_serving: bool) -> (r: Self)
        ensures
            r.notes() == notes@,
            r.replies() == Seq::<bool>::empty(),
            r.checked_through() == checked_through,
            r.witness_serving() == witness_serving,
    {
        SpendCheck {
            notes,
            asked: 0,
            unspent: Vec::new(),
            replies: Ghost(Seq::empty()),
            checked_through,
            witness_serving,
        }
    }

    /// Asks about the next note, or ends the check if there is none.
    pub fn next(self) -> (r: SpendStep)
        ensures
            self.replies().len() <= self.notes().len(),
            r is Ask <==> self.replies().len() < self.notes().len(),
            match r {
                SpendStep::Ask(asked) => asked.check() == self && asked.note()
                    == self.notes()[self.replies().len() as int],
                SpendStep::Done(check) => check.notes@ == unspent_notes(
                    self.notes(),
                    self.replies(),
                ) && check.checked_through == self.checked_through() && check.witness_serving
                    == self.witness_serving(),
            },
    {
        proof {
            use_type_invariant(&self);
        }
        if self.asked < self.notes.len() {
            let note = self.notes[self.asked];
            SpendStep::Ask(AskedCheck { check: self, note })
        } else {
            assert(self.notes@.take(self.asked as int) =~= self.notes@);
            SpendStep::Done(
                Check {
                    notes: self.unspent,
                    checked_through: self.checked_through,
                    witness_serving: self.witness_serving,
                },
            )
        }
    }
}

impl AskedCheck {
    pub closed spec fn check(self) -> SpendCheck {
        self.check
    }

    /// The note asked about.
    pub closed spec fn note(self) -> PirNote {
        self.note
    }

    #[verifier::type_invariant]
    spec fn inv(self) -> bool {
        &&& self.check.asked < self.check.notes@.len()
        &&& self.check.replies@.len() == self.check.asked
        &&& self.note == self.check.notes@[self.check.asked as int]
    }

    /// The nullifier to ask about.
    pub fn nullifier(&self) -> (r: [u8; 32])
        ensures
            r == self.note().nullifier,
    {
        self.note.nullifier
    }

    /// The provider answered whether the note is spent.
    pub fn answered(self, spent: bool) -> (r: SpendCheck)
        ensures
            r.notes() == self.check().notes(),
            r.replies() == self.check().replies().push(spent),
            r.checked_through() == self.check().checked_through(),
            r.witness_serving() == self.check().witness_serving(),
    {
        proof {
            use_type_invariant(&self);
            use_type_invariant(&self.check);
        }
        let note = self.note;
        let check = self.check;
        let ghost before = check.notes@.take(check.asked as int);
        let ghost after = check.notes@.take(check.asked as int + 1);
        let mut unspent = check.unspent;
        if !spent {
            unspent.push(note);
        }
        proof {
            assert(check.asked < check.notes.len());
            assert(after.drop_last() =~= before);
            assert(after.last() == note);
            assert(check.replies@.push(spent).drop_last() =~= check.replies@);
        }
        SpendCheck {
            notes: check.notes,
            asked: check.asked + 1,
            unspent,
            replies: Ghost(check.replies@.push(spent)),
            checked_through: check.checked_through,
            witness_serving: check.witness_serving,
        }
    }
}

/// A witness as the provider hands it out.
#[derive(Clone, Debug, PartialEq, Eq)]
pub struct FetchedWitness {
    /// The sibling hashes on the path from the note's leaf to the root.
    pub siblings: Vec<[u8; 32]>,
    /// The root that the provider's tree has.
    pub anchor_root: [u8; 32],
}

/// A witness as the wallet stores it.
#[derive(Clone, Debug, PartialEq, Eq)]
pub struct PirWitness {
    /// The identifier of the note in the wallet database.
    pub note_id: i64,
    /// The position of the note's commitment in the chain's note commitment tree.
    pub position: u64,
    /// The sibling hashes on the path from the note's leaf to the root.
    pub siblings: Vec<[u8; 32]>,
}

/// The witnesses that replace those stored in the wallet.
#[derive(Clone, Debug, PartialEq, Eq)]
pub struct WitnessReplacement {
    /// The height of the block that the witnesses are for.
    pub anchor_height: BlockHeight,
    /// The root of the chain's Ironwood tree after that block.
    pub anchor_root: [u8; 32],
    /// The witnesses.
    pub witnesses: Vec<PirWitness>,
}

/// The block that witnesses are for, if the provider offers them for the height `anchor` and
/// knows the nullifiers through `checked_through`.
pub open spec fn usable_anchor(checked_through: u64, anchor: u64) -> Result<BlockHeight, PirError> {
    if checked_through < anchor {
        Err(PirError::NoSharedSnapshot)
    } else if anchor > u32::MAX {
        Err(PirError::AnchorOutOfRange)
    } else {
        Ok(BlockHeight(anchor as u32))
    }
}

/// The root that the witnesses of `notes` have to lead to, if the chain's tree has the root
/// `root` at the height `anchor` and no note is in a later block.
pub open spec fn expected_root(
    notes: Seq<PirNote>,
    anchor: BlockHeight,
    root: Option<[u8; 32]>,
) -> Result<[u8; 32], PirError> {
    match root {
        None => Err(PirError::AnchorAboveTip),
        Some(root) => if exists|i: int|
            0 <= i < notes.len() && (#[trigger] notes[i]).mined_height.0 > anchor.0 {
            Err(PirError::AnchorPredatesNote)
        } else {
            Ok(root)
        },
    }
}

/// The number of notes that a witness came for.
pub open spec fn paired(notes: Seq<PirNote>, fetched: Seq<FetchedWitness>) -> nat {
    if notes.len() <= fetched.len() {
        notes.len()
    } else {
        fetched.len()
    }
}

/// Whether `stored` is the witness `fetched` of the note `note`.
pub open spec fn witnesses_note(
    stored: PirWitness,
    note: PirNote,
    fetched: FetchedWitness,
) -> bool {
    stored.note_id == note.note_id && stored.position == note.position && stored.siblings@
        == fetched.siblings@
}

impl WitnessReplacement {
    /// Whether the witnesses are those in `fetched`, each with the note in `notes` that it
    /// came for.
    pub open spec fn witnesses_of(self, notes: Seq<PirNote>, fetched: Seq<FetchedWitness>) -> bool {
        &&& self.witnesses@.len() == paired(notes, fetched)
        &&& forall|i: int|
            0 <= i < self.witnesses@.len() ==> witnesses_note(
                #[trigger] self.witnesses@[i],
                notes[i],
                fetched[i],
            )
    }
}

/// Whether a witness that came for a note leads elsewhere than to `root`.
pub open spec fn root_mismatch(
    notes: Seq<PirNote>,
    root: [u8; 32],
    fetched: Seq<FetchedWitness>,
) -> bool {
    exists|i: int|
        0 <= i < paired(notes, fetched) && (#[trigger] fetched[i]).anchor_root@ != root@
}

/// The work that a note check leaves.
pub enum WitnessStep {
    /// No note is unspent, so no witness is needed.
    Done,
    /// The provider is asked for the height of its witnesses.
    Connect(WitnessConnect),
}

/// A preparation of witnesses that waits for the height that the provider offers them for.
pub struct WitnessConnect {
    notes: Vec<PirNote>,
    checked_through: u64,
}

/// A preparation of witnesses that waits for the root of the chain's Ironwood tree.
pub struct AnchorChosen {
    notes: Vec<PirNote>,
    anchor_height: BlockHeight,
    checked_through: Ghost<u64>,
}

/// A preparation of witnesses that waits for the witnesses.
pub struct WitnessFetch {
    notes: Vec<PirNote>,
    anchor_height: BlockHeight,
    anchor_root: [u8; 32],
    checked_through: Ghost<u64>,
}

impl Check {
    /// Goes on to the witnesses of the unspent notes.
    pub fn witnesses(self) -> (r: Result<WitnessStep, PirError>)
        ensures
            match r {
                Ok(WitnessStep::Done) => self.notes@.len() == 0,
                Ok(WitnessStep::Connect(next)) => self.notes@.len() > 0 && self.witness_serving
                    && next.notes() == self.notes@ && next.checked_through()
                    == self.checked_through,
                Err(error) => self.notes@.len() > 0 && !self.witness_serving && error
                    == PirError::WitnessNotServing,
            },
    {
        if self.notes.len() == 0 {
            return Ok(WitnessStep::Done);
        }
        if !self.witness_serving {
            return Err(PirError::WitnessNotServing);
        }
        Ok(
            WitnessStep::Connect(
                WitnessConnect { notes: self.notes, checked_through: self.checked_through },
            ),
        )
    }

    /// The part of the result that a balance is made of.
    pub fn into_checked_notes(self) -> (r: CheckedNotes)
        ensures
            r.notes == self.notes,
            r.checked_through == self.checked_through,
    {
        CheckedNotes { notes: self.notes, checked_through: self.checked_through }
    }
}

impl WitnessConnect {
    pub closed spec fn notes(self) -> Seq<PirNote> {
        self.notes@
    }

    pub closed spec fn checked_through(self) -> u64 {
        self.checked_through
    }

    /// The provider offers witnesses for the height `anchor`.
    pub fn connected(self, anchor: u64) -> (r: Result<AnchorChosen, PirError>)
        ensures
            match usable_anchor(self.checked_through(), anchor) {
                Ok(height) => r matches Ok(next) && next.notes() == self.notes()
                    && next.anchor_height() == height && next.checked_through()
                    == self.checked_through(),
                Err(error) => r matches Err(e) && e == error,
            },
    {
        if self.checked_through < anchor {
            return Err(PirError::NoSharedSnapshot);
        }
        if anchor > u32::MAX as u64 {
            return Err(PirError::AnchorOutOfRange);
        }
        Ok(
            AnchorChosen {
                notes: self.notes,
                anchor_height: BlockHeight(anchor as u32),
                checked_through: Ghost(self.checked_through),
            },
        )
    }
}

impl AnchorChosen {
    pub closed spec fn notes(self) -> Seq<PirNote> {
        self.notes@
    }

    pub closed spec fn anchor_height(self) -> BlockHeight {
        self.anchor_height
    }

    /// The height of the last block whose nullifiers were looked at.
    pub closed spec fn checked_through(self) -> u64 {
        self.checked_through@
    }

    #[verifier::type_invariant]
    spec fn inv(self) -> bool {
        self.anchor_height.0 <= self.checked_through@
    }

    /// The height to ask the chain for the root at.
    pub fn height(&self) -> (r: BlockHeight)
        ensures
            r == self.anchor_height(),
    {
        self.anchor_height
    }

    /// The chain told the root of its Ironwood tree, or that it has no such block.
    pub fn chain_root(self, root: Option<[u8; 32]>) -> (r: Result<WitnessFetch, PirError>)
        ensures
            match expected_root(self.notes(), self.anchor_height(), root) {
                Ok(root) => r matches Ok(next) && next.notes() == self.notes()
                    && next.anchor_height() == self.anchor_height() && next.anchor_root() == root
                    && next.checked_through() == self.checked_through(),
                Err(error) => r matches Err(e) && e == error,
            },
    {
        let anchor_root = match root {
            Some(root) => root,
            None => return Err(PirError::AnchorAboveTip),
        };
        let mut i: usize = 0;
        while i < self.notes.len()
            invariant
                i <= self.notes@.len(),
                forall|j: int|
                    0 <= j < i ==> (#[trigger] self.notes@[j]).mined_height.0
                        <= self.anchor_height.0,
                root == Some(anchor_root),
            decreases self.notes@.len() - i,
        {
            if self.notes[i].mined_height.0 > self.anchor_height.0 {
                assert(self.notes@[i as int].mined_height.0 > self.anchor_height.0);
                return Err(PirError::AnchorPredatesNote);
            }
            i = i + 1;
        }
        proof {
            use_type_invariant(&self);
        }
        Ok(
            WitnessFetch {
                notes: self.notes,
                anchor_height: self.anchor_height,
                anchor_root,
                checked_through: self.checked_through,
            },
        )
    }
}

impl WitnessFetch {
    pub closed spec fn notes(self) -> Seq<PirNote> {
        self.notes@
    }

    pub closed spec fn anchor_height(self) -> BlockHeight {
        self.anchor_height
    }

    /// The height of the last block whose nullifiers were looked at.
    pub closed spec fn checked_through(self) -> u64 {
        self.checked_through@
    }

    #[verifier::type_invariant]
    spec fn inv(self) -> bool {
        &&& self.anchor_height.0 <= self.checked_through@
        &&& forall|i: int|
            0 <= i < self.notes@.len() ==> (#[trigger] self.notes@[i]).mined_height.0
                <= self.anchor_height.0
    }

    pub closed spec fn anchor_root(self) -> [u8; 32] {
        self.anchor_root
    }

    /// The positions to ask the provider for witnesses at.
    pub fn positions(&self) -> (r: Vec<u64>)
        ensures
            r@ == self.notes().map_values(|note: PirNote| note.position),
    {
        let mut positions: Vec<u64> = Vec::new();
        let mut i: usize = 0;
        while i < self.notes.len()
            invariant
                i <= self.notes@.len(),
                positions@ == self.notes@.take(i as int).map_values(|note: PirNote| note.position),
            decreases self.notes@.len() - i,
        {
            positions.push(self.notes[i].position);
            i = i + 1;
        }
        assert(self.notes@.take(i as int) =~= self.notes@);
        positions
    }

    /// The provider handed out witnesses, in the order of the positions: those that came are
    /// stored if all of them lead to the chain's root. No note is from after the anchor, and
    /// nullifiers were looked at through the anchor at least.
    pub fn fetched(self, fetched: Vec<FetchedWitness>) -> (r: Result<WitnessReplacement, PirError>)
        ensures
            self.anchor_height().0 <= self.checked_through(),
            forall|i: int|
                0 <= i < self.notes().len() ==> (#[trigger] self.notes()[i]).mined_height.0
                    <= self.anchor_height().0,
            r is Err <==> root_mismatch(self.notes(), self.anchor_root(), fetched@),
            match r {
                Ok(replacement) => replacement.anchor_height == self.anchor_height()
                    && replacement.anchor_root == self.anchor_root() && replacement.witnesses_of(
                    self.notes(),
                    fetched@,
                ),
                Err(error) => error == PirError::RootMismatch,
            },
    {
        proof {
            use_type_invariant(&self);
        }
        let mut witnesses: Vec<PirWitness> = Vec::new();
        let mut i: usize = 0;
        while i < self.notes.len() && i < fetched.len()
            invariant
                self.inv(),
                i <= paired(self.notes@, fetched@),
                witnesses@.len() == i,
                forall|j: int|
                    0 <= j < i ==> (#[trigger] fetched@[j]).anchor_root@ == self.anchor_root@,
                forall|j: int|
                    0 <= j < i ==> witnesses_note(
                        #[trigger] witnesses@[j],
                        self.notes@[j],
                        fetched@[j],
                    ),
            decreases self.notes@.len() - i,
        {
            if !bytes_eq(&fetched[i].anchor_root, &self.anchor_root) {
                assert(fetched@[i as int].anchor_root@ != self.anchor_root@);
                return Err(PirError::RootMismatch);
            }
            let note = self.notes[i];
            witnesses.push(
                PirWitness {
                    note_id: note.note_id,
                    position: note.position,
                    siblings: copy_hashes(&fetched[i].siblings),
                },
            );
            i = i + 1;
        }
        Ok(
            WitnessReplacement {
                anchor_height: self.anchor_height,
                anchor_root: self.anchor_root,
                witnesses,
            },
        )
    }
}

/// Whether two hashes are the same.
fn bytes_eq(a: &[u8; 32], b: &[u8; 32]) -> (equal: bool)
    ensures
        equal == (a@ == b@),
{
    let mut i: usize = 0;
    while i < 32
        invariant
            i <= 32,
            a@.len() == 32,
            b@.len() == 32,
            forall|j: int| 0 <= j < i ==> a@[j] == b@[j],
        decreases 32 - i,
    {
        if a[i] != b[i] {
            assert(a@[i as int] != b@[i as int]);
            return false;
        }
        i = i + 1;
    }
    assert(a@ =~= b@);
    true
}

/// A copy of a list of hashes.
fn copy_hashes(hashes: &Vec<[u8; 32]>) -> (copy: Vec<[u8; 32]>)
    ensures
        copy@ == hashes@,
{
    let mut copy: Vec<[u8; 32]> = Vec::new();
    let mut i: usize = 0;
    while i < hashes.len()
        invariant
            i <= hashes@.len(),
            copy@ == hashes@.take(i as int),
        decreases hashes@.len() - i,
    {
        copy.push(hashes[i]);
        i = i + 1;
    }
    assert(hashes@.take(i as int) =~= hashes@);
    copy
}

/// What is stored as a witness belongs to a note of the wallet that was not reported spent
/// through a height that is not below the anchor. The note's block is not after the anchor,
/// and the witness leads to the root that the chain itself has at the anchor.
pub proof fn stored_witnesses_are_for_unspent_notes_on_the_chain(
    notes: Seq<PirNote>,
    spent: Seq<bool>,
    checked_through: u64,
    anchor: u64,
    chain_root: Option<[u8; 32]>,
    fetched: Seq<FetchedWitness>,
    replacement: WitnessReplacement,
    i: int,
)
    requires
        spent.len() == notes.len(),
        usable_anchor(checked_through, anchor) == Ok::<BlockHeight, PirError>(
            replacement.anchor_height,
        ),
        expected_root(unspent_notes(notes, spent), replacement.anchor_height, chain_root) == Ok::<
            [u8; 32],
            PirError,
        >(replacement.anchor_root),
        !root_mismatch(unspent_notes(notes, spent), replacement.anchor_root, fetched),
        replacement.witnesses_of(unspent_notes(notes, spent), fetched),
        0 <= i < replacement.witnesses@.len(),
    ensures
        exists|k: int|
            0 <= k < notes.len() && !spent[k] && witnesses_note(
                replacement.witnesses@[i],
                #[trigger] notes[k],
                fetched[i],
            ) && notes[k].mined_height.0 <= replacement.anchor_height.0,
        replacement.anchor_height.0 == anchor <= checked_through,
        chain_root == Some(replacement.anchor_root),
        fetched[i].anchor_root@ == replacement.anchor_root@,
{
    let unspent = unspent_notes(notes, spent);
    let k = unspent_notes_were_not_reported_spent(notes, spent, i);
    assert(witnesses_note(replacement.witnesses@[i], notes[k], fetched[i]));
    assert(unspent[i].mined_height.0 <= replacement.anchor_height.0);
}

/// The network to ask PIR providers of, if there are any for `network`.
pub open spec fn pir_network(network: Network) -> Option<PirNetwork> {
    match network {
        Network::Main => Some(PirNetwork::Main),
        Network::Test => Some(PirNetwork::Test),
        Network::Regtest => None,
    }
}

/// The network to ask PIR providers of, if there are any for `network`.
fn pir_network_of(network: Network) -> (r: Option<PirNetwork>)
    ensures
        r == pir_network(network),
{
    match network {
        Network::Main => Some(PirNetwork::Main),
        Network::Test => Some(PirNetwork::Test),
        Network::Regtest => None,
    }
}

/// The use of PIR while the wallet runs.
#[derive(Clone, Copy, Debug, PartialEq, Eq)]
pub struct Pir {
    /// The network to ask providers of.
    pub network: PirNetwork,
    /// The height at which the Ironwood pool opens.
    pub activation: BlockHeight,
}

/// Whether PIR is used.
#[derive(Clone, Copy, Debug, PartialEq, Eq)]
pub enum PirStart {
    /// No peers are configured.
    Off,
    /// PIR is configured but cannot be used; the operator is warned.
    Unusable(&'static str),
    /// PIR networking is started.
    On(Pir),
}

/// What [`Pir::start`] decides for the configured peers and network.
pub open spec fn starts_as(peers: nat, network: Network, r: PirStart) -> bool {
    if peers == 0 {
        r == PirStart::Off
    } else {
        match pir_network(network) {
            None => r matches PirStart::Unusable(warning) && warning@
                == "PIR does not support regtest"@,
            Some(pir) => match network::ironwood_activation_height(pir) {
                None => r matches PirStart::Unusable(warning) && warning@
                    == "PIR requires a configured NU6.3 activation height"@,
                Some(activation) => r == PirStart::On(Pir { network: pir, activation }),
            },
        }
    }
}

/// The first step of preparing witnesses for a send: the stored ones are cleared and the
/// notes are loaded.
pub struct SendPreparation {
    activation: BlockHeight,
}

/// The second step of preparing witnesses for a send: the wallet is asked how far it scanned.
pub struct SendNotes {
    notes: Vec<PirNote>,
    activation: BlockHeight,
}

/// What follows on loading the notes for a send.
pub enum SendStep {
    /// There is no note, so no witness is needed.
    Done,
    /// The wallet is asked how far it scanned.
    AskScanned(SendNotes),
}

impl Pir {
    /// Decides whether PIR is used.
    pub fn start(bootstrap_peers: &Vec<String>, network: Network) -> (r: PirStart)
        ensures
            starts_as(bootstrap_peers@.len(), network, r),
    {
        if bootstrap_peers.len() == 0 {
            return PirStart::Off;
        }
        let network = match pir_network_of(network) {
            Some(network) => network,
            None => return PirStart::Unusable("PIR does not support regtest"),
        };
        let activation = match network::nu6_3_activation_height(network) {
            Some(activation) => activation,
            None => {
                return PirStart::Unusable("PIR requires a configured NU6.3 activation height");
            },
        };
        PirStart::On(Pir { network, activation })
    }

    /// Starts to check `notes`, which the wallet knew when it had scanned up to
    /// `last_scanned`.
    pub fn check_notes(&self, notes: Vec<PirNote>, last_scanned: BlockHeight) -> (r: NoteCheck)
        ensures
            r.notes() == notes@,
            r.last_scanned() == last_scanned,
            r.activation() == self.activation,
    {
        NoteCheck::new(notes, last_scanned, self.activation)
    }

    /// Starts to prepare the witnesses for a send.
    pub fn prepare_witnesses(&self) -> (r: SendPreparation)
        ensures
            r.activation() == self.activation,
    {
        SendPreparation { activation: self.activation }
    }
}

impl SendPreparation {
    pub closed spec fn activation(self) -> BlockHeight {
        self.activation
    }

    /// The stored witnesses were cleared, and `notes` are the wallet's notes.
    pub fn cleared(self, notes: Vec<PirNote>) -> (r: SendStep)
        ensures
            match r {
                SendStep::Done => notes@.len() == 0,
                SendStep::AskScanned(next) => notes@.len() > 0 && next.notes() == notes@
                    && next.activation() == self.activation(),
            },
    {
        if notes.len() == 0 {
            SendStep::Done
        } else {
            SendStep::AskScanned(SendNotes { notes, activation: self.activation })
        }
    }
}

impl SendNotes {
    pub closed spec fn notes(self) -> Seq<PirNote> {
        self.notes@
    }

    pub closed spec fn activation(self) -> BlockHeight {
        self.activation
    }

    /// The wallet told how far it scanned: go on to check the notes.
    pub fn scanned(self, last_scanned: Option<BlockHeight>) -> (r: Result<NoteCheck, PirError>)
        ensures
            match last_scanned {
                Some(height) => r matches Ok(next) && next.notes() == self.notes()
                    && next.last_scanned() == height && next.activation() == self.activation(),
                None => r matches Err(error) && error == PirError::NothingScanned,
            },
    {
        match last_scanned {
            Some(height) => Ok(NoteCheck::new(self.notes, height, self.activation)),
            None => Err(PirError::NothingScanned),
        }
    }
}

/// The shortcut at startup, on a provider network.
pub struct Shortcut {
    network: PirNetwork,
}

/// The shortcut at startup, on a provider that answers nullifier queries: the notes are
/// loaded.
pub struct ShortcutNotes {
    network: PirNetwork,
    witness_serving: bool,
}

/// The shortcut at startup: the wallet is asked how far it scanned.
pub struct ShortcutScanned {
    network: PirNetwork,
    notes: Vec<PirNote>,
    witness_serving: bool,
}

/// The shortcut at startup: the provider is asked which heights it knows the nullifiers of.
pub struct ShortcutSpend {
    network: PirNetwork,
    notes: Vec<PirNote>,
    last_scanned: BlockHeight,
    witness_serving: bool,
}

/// What follows on loading the notes at startup.
pub enum ShortcutStep {
    /// There is no note, so no witness is needed.
    Done,
    /// The wallet is asked how far it scanned.
    AskScanned(ShortcutScanned),
}

impl Shortcut {
    pub closed spec fn pir_network(self) -> PirNetwork {
        self.network
    }

    /// Decides whether the shortcut is tried: not without peers, and in vain where there is
    /// no PIR on the network.
    pub fn begin(bootstrap_peers: &Vec<String>, network: Network) -> (r: Result<
        Option<Self>,
        PirError,
    >)
        ensures
            bootstrap_peers@.len() == 0 ==> r matches Ok(None),
            bootstrap_peers@.len() > 0 ==> match pir_network(network) {
                Some(pir) => r matches Ok(Some(next)) && next.pir_network() == pir,
                None => r matches Err(error) && error == PirError::RegtestUnsupported,
            },
    {
        if bootstrap_peers.len() == 0 {
            return Ok(None);
        }
        match pir_network_of(network) {
            Some(network) => Ok(Some(Shortcut { network })),
            None => Err(PirError::RegtestUnsupported),
        }
    }

    /// The network to ask providers of.
    pub fn network(&self) -> (r: PirNetwork)
        ensures
            r == self.pir_network(),
    {
        self.network
    }

    /// The provider told its health: go on if it answers nullifier queries.
    pub fn health(self, health: &Health) -> (r: Result<ShortcutNotes, PirError>)
        ensures
            r is Ok <==> health.nullifier_serving(),
            match r {
                Ok(next) => next.pir_network() == self.pir_network() && next.witness_serving()
                    == health.witness_serving(),
                Err(error) => error == PirError::NullifierNotServing,
            },
    {
        match nullifier_serving(health) {
            Ok(witness_serving) => Ok(
                ShortcutNotes { network: self.network, witness_serving },
            ),
            Err(error) => Err(error),
        }
    }
}

impl ShortcutNotes {
    pub closed spec fn pir_network(self) -> PirNetwork {
        self.network
    }

    pub closed spec fn witness_serving(self) -> bool {
        self.witness_serving
    }

    /// The wallet told its notes.
    pub fn loaded(self, notes: Vec<PirNote>) -> (r: ShortcutStep)
        ensures
            match r {
                ShortcutStep::Done => notes@.len() == 0,
                ShortcutStep::AskScanned(next) => notes@.len() > 0 && next.notes() == notes@
                    && next.witness_serving() == self.witness_serving() && next.pir_network()
                    == self.pir_network(),
            },
    {
        if notes.len() == 0 {
            ShortcutStep::Done
        } else {
            ShortcutStep::AskScanned(
                ShortcutScanned {
                    network: self.network,
                    notes,
                    witness_serving: self.witness_serving,
                },
            )
        }
    }
}

impl ShortcutScanned {
    pub closed spec fn pir_network(self) -> PirNetwork {
        self.network
    }

    pub closed spec fn notes(self) -> Seq<PirNote> {
        self.notes@
    }

    pub closed spec fn witness_serving(self) -> bool {
        self.witness_serving
    }

    /// The wallet told how far it scanned.
    pub fn scanned(self, last_scanned: Option<BlockHeight>) -> (r: Result<ShortcutSpend, PirError>)
        ensures
            match last_scanned {
                Some(height) => r matches Ok(next) && next.notes() == self.notes()
                    && next.last_scanned() == height && next.witness_serving()
                    == self.witness_serving() && next.pir_network() == self.pir_network(),
                None => r matches Err(error) && error == PirError::NothingScanned,
            },
    {
        match last_scanned {
            Some(last_scanned) => Ok(
                ShortcutSpend {
                    network: self.network,
                    notes: self.notes,
                    last_scanned,
                    witness_serving: self.witness_serving,
                },
            ),
            None => Err(PirError::NothingScanned),
        }
    }
}

impl ShortcutSpend {
    pub closed spec fn pir_network(self) -> PirNetwork {
        self.network
    }

    pub closed spec fn notes(self) -> Seq<PirNote> {
        self.notes@
    }

    pub closed spec fn last_scanned(self) -> BlockHeight {
        self.last_scanned
    }

    pub closed spec fn witness_serving(self) -> bool {
        self.witness_serving
    }

    /// What follows on learning which heights the provider knows the nullifiers of, where the
    /// Ironwood pool opens at `activation`.
    pub open spec fn connects_to(
        self,
        activation: Option<BlockHeight>,
        earliest: u64,
        latest: u64,
        r: Result<SpendCheck, PirError>,
    ) -> bool {
        match activation {
            None => r matches Err(error) && error == PirError::NoActivationHeight,
            Some(height) => if earliest > first_unchecked(self.last_scanned(), height) {
                r matches Err(error) && error == PirError::RetentionTooShort
            } else {
                r matches Ok(next) && next.notes() == self.notes() && next.replies() == Seq::<
                    bool,
                >::empty() && next.checked_through() == latest && next.witness_serving()
                    == self.witness_serving()
            },
        }
    }

    /// The provider told which heights it knows the nullifiers of, from `earliest` through
    /// `latest`: go on if no height is missing after those that the wallet scanned.
    pub fn spend_connected(self, earliest: u64, latest: u64) -> (r: Result<SpendCheck, PirError>)
        ensures
            self.connects_to(
                network::ironwood_activation_height(self.pir_network()),
                earliest,
                latest,
                r,
            ),
    {
        let activation = network::nu6_3_activation_height(self.network);
        self.spend_connected_from(activation, earliest, latest)
    }

    /// Goes on with the height at which the Ironwood pool opens, if it does.
    pub fn spend_connected_from(
        self,
        activation: Option<BlockHeight>,
        earliest: u64,
        latest: u64,
    ) -> (r: Result<SpendCheck, PirError>)
        ensures
            self.connects_to(activation, earliest, latest, r),
    {
        match activation {
            Some(activation) => HealthyCheck {
                notes: self.notes,
                last_scanned: self.last_scanned,
                activation,
                witness_serving: self.witness_serving,
            }.spend_connected(earliest, latest),
            None => Err(PirError::NoActivationHeight),
        }
    }
}

/// What a query does about its client.
#[derive(Clone, Copy, Debug, PartialEq, Eq, Structural)]
pub enum SessionAction {
    /// A session is opened on the client.
    Open,
    /// The query waits until a client is published.
    AwaitClient,
}

/// A query opens a session as soon as networking has published a client, and waits until then.
pub fn session(client_published: bool) -> (r: SessionAction)
    ensures
        r == if client_published {
            SessionAction::Open
        } else {
            SessionAction::AwaitClient
        },
{
    if client_published {
        SessionAction::Open
    } else {
        SessionAction::AwaitClient
    }
}

/// A query that waits for a client looks again when something was published, and fails when
/// networking has stopped and nothing can be published any more.
pub fn client_awaited(networking_runs: bool) -> (r: Result<(), PirError>)
    ensures
        networking_runs ==> r is Ok,
        !networking_runs ==> (r matches Err(error) && error == PirError::NetworkingStopped),
{
    if networking_runs {
        Ok(())
    } else {
        Err(PirError::NetworkingStopped)
    }
}

/// The phases of PIR networking.
#[derive(Clone, Copy, Debug, PartialEq, Eq, Structural)]
pub enum RunPhase {
    /// A node is being started.
    Starting,
    /// The node runs and its client is published.
    Serving,
    /// A node could not be started; the next attempt waits.
    Waiting,
    /// The node is being shut down.
    Closing,
    /// Networking has ended.
    Stopped,
}

/// What happens to PIR networking.
#[derive(Clone, Copy, Debug, PartialEq, Eq, Structural)]
pub enum RunEvent {
    /// The node was started.
    Started,
    /// The node could not be started.
    StartFailed,
    /// The wait of [`RETRY_DELAY_SECONDS`] is over.
    DelayElapsed,
    /// Everybody who could use the client is gone.
    ShutdownRequested,
    /// The node was shut down.
    NodeClosed,
}

/// The phase that follows on `phase` when `event` happens. An event that a phase does not
/// wait for changes nothing.
pub open spec fn next_phase(phase: RunPhase, event: RunEvent) -> RunPhase {
    match (phase, event) {
        (RunPhase::Starting, RunEvent::Started) => RunPhase::Serving,
        (RunPhase::Starting, RunEvent::StartFailed) => RunPhase::Waiting,
        (RunPhase::Starting, RunEvent::ShutdownRequested) => RunPhase::Stopped,
        (RunPhase::Waiting, RunEvent::DelayElapsed) => RunPhase::Starting,
        (RunPhase::Waiting, RunEvent::ShutdownRequested) => RunPhase::Stopped,
        (RunPhase::Serving, RunEvent::ShutdownRequested) => RunPhase::Closing,
        (RunPhase::Closing, RunEvent::NodeClosed) => RunPhase::Stopped,
        _ => phase,
    }
}

/// The phase that follows on `phase` when `event` happens.
pub fn run(phase: RunPhase, event: RunEvent) -> (r: RunPhase)
    ensures
        r == next_phase(phase, event),
{
    match (phase, event) {
        (RunPhase::Starting, RunEvent::Started) => RunPhase::Serving,
        (RunPhase::Starting, RunEvent::StartFailed) => RunPhase::Waiting,
        (RunPhase::Starting, RunEvent::ShutdownRequested) => RunPhase::Stopped,
        (RunPhase::Waiting, RunEvent::DelayElapsed) => RunPhase::Starting,
        (RunPhase::Waiting, RunEvent::ShutdownRequested) => RunPhase::Stopped,
        (RunPhase::Serving, RunEvent::ShutdownRequested) => RunPhase::Closing,
        (RunPhase::Closing, RunEvent::NodeClosed) => RunPhase::Stopped,
        _ => phase,
    }
}

/// A request to shut down ends networking from every phase: at once where no node runs, and
/// where one runs by shutting it down. Networking that has ended stays ended, and a node that
/// serves is never left running.
pub proof fn shutdown_ends_networking(phase: RunPhase, event: RunEvent)
    ensures
        ({
            let asked = next_phase(phase, RunEvent::ShutdownRequested);
            ||| asked == RunPhase::Stopped
            ||| asked == RunPhase::Closing && next_phase(asked, RunEvent::NodeClosed)
                == RunPhase::Stopped
        }),
        next_phase(RunPhase::Stopped, event) == RunPhase::Stopped,
        phase == RunPhase::Serving && next_phase(phase, event) != phase ==> next_phase(phase, event)
            == RunPhase::Closing,
        next_phase(RunPhase::Closing, event) == RunPhase::Closing || event == RunEvent::NodeClosed,
{
}

} // verus!
