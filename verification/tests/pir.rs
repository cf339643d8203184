use zallet_core::network::{BlockHeight, Network, PirNetwork};
use zallet_core::pir::{
    client_awaited, first_unchecked_ironwood_height, run, session, within_timeout, Check,
    CheckedNotes, FetchedWitness, Health, NoteCheck, Pir, PirError, PirNote, PirStart, RunEvent,
    RunPhase, SendStep, SessionAction, Shortcut, ShortcutStep, SpendCheck, SpendStep,
    WitnessReplacement, WitnessStep,
};
use zallet_core::value::Zatoshis;

const ROOT: [u8; 32] = [7; 32];

fn note(note_id: i64, mined_height: u32) -> PirNote {
    PirNote {
        note_id,
        position: 1000 + note_id as u64,
        nullifier: [note_id as u8; 32],
        value: Zatoshis::from_u64(10 * note_id as u64).unwrap(),
        mined_height: mined_height.into(),
    }
}

fn health(nullifier: &str, witness: &str) -> Health {
    Health { nullifier_phase: nullifier.to_string(), witness_phase: witness.to_string() }
}

fn witness(seed: u8, anchor_root: [u8; 32]) -> FetchedWitness {
    FetchedWitness { siblings: vec![[seed; 32], [seed + 1; 32]], anchor_root }
}

fn peers() -> Vec<String> {
    vec!["peer.example:9067".to_string()]
}

/// Answers every question of a note check: the notes in `spent` are spent.
fn answer(mut check: SpendCheck, spent: &[i64]) -> Check {
    loop {
        match check.next() {
            SpendStep::Ask(asked) => {
                let is_spent = spent.iter().any(|id| [*id as u8; 32] == asked.nullifier());
                check = asked.answered(is_spent);
            }
            SpendStep::Done(done) => return done,
        }
    }
}

fn checked(notes: Vec<PirNote>, spent: &[i64], latest: u64, witness_phase: &str) -> Check {
    let check = NoteCheck::new(notes, 150.into(), 100.into())
        .health(&health("serving", witness_phase))
        .ok()
        .unwrap()
        .spend_connected(151, latest)
        .ok()
        .unwrap();
    answer(check, spent)
}

fn witnesses(
    check: Check,
    anchor: u64,
    root: Option<[u8; 32]>,
    fetched: Vec<FetchedWitness>,
) -> Result<Option<WitnessReplacement>, PirError> {
    let connect = match check.witnesses()? {
        WitnessStep::Done => return Ok(None),
        WitnessStep::Connect(connect) => connect,
    };
    let chosen = connect.connected(anchor)?;
    assert_eq!(u64::from(chosen.height().0), anchor);
    chosen.chain_root(root)?.fetched(fetched).map(Some)
}

#[test]
fn pir_coverage_starts_at_ironwood_or_after_the_wallet_tip() {
    let activation = 100.into();
    assert_eq!(
        first_unchecked_ironwood_height(50.into(), activation),
        activation
    );
    assert_eq!(
        first_unchecked_ironwood_height(150.into(), activation),
        151.into()
    );
}

#[test]
fn pir_coverage_at_the_edges() {
    assert_eq!(first_unchecked_ironwood_height(99.into(), 100.into()), 100.into());
    assert_eq!(first_unchecked_ironwood_height(100.into(), 100.into()), 101.into());
    assert_eq!(
        first_unchecked_ironwood_height(u32::MAX.into(), 100.into()),
        BlockHeight(u32::MAX)
    );
}

#[test]
fn pir_is_started_only_with_peers_on_a_public_network() {
    assert_eq!(Pir::start(&vec![], Network::Main), PirStart::Off);
    assert_eq!(Pir::start(&vec![], Network::Regtest), PirStart::Off);
    assert_eq!(
        Pir::start(&peers(), Network::Regtest),
        PirStart::Unusable("PIR does not support regtest")
    );
    assert_eq!(
        Pir::start(&peers(), Network::Main),
        PirStart::On(Pir { network: PirNetwork::Main, activation: BlockHeight(3_428_143) })
    );
    assert_eq!(
        Pir::start(&peers(), Network::Test),
        PirStart::On(Pir { network: PirNetwork::Test, activation: BlockHeight(4_134_000) })
    );
}

#[test]
fn a_provider_that_does_not_serve_nullifiers_is_refused() {
    let check = NoteCheck::new(vec![note(1, 90)], 150.into(), 100.into());
    assert_eq!(
        check.health(&health("syncing", "serving")).err(),
        Some(PirError::NullifierNotServing)
    );
}

#[test]
fn a_provider_that_misses_heights_is_refused() {
    let connect = |earliest: u64| {
        NoteCheck::new(vec![note(1, 90)], 150.into(), 100.into())
            .health(&health("serving", "serving"))
            .ok()
            .unwrap()
            .spend_connected(earliest, 200)
            .err()
    };
    assert_eq!(connect(0), None);
    assert_eq!(connect(151), None);
    assert_eq!(connect(152), Some(PirError::RetentionTooShort));
}

#[test]
fn spent_notes_are_left_out() {
    let notes = vec![note(1, 90), note(2, 91), note(3, 92)];
    let check = checked(notes.clone(), &[2], 200, "serving");
    assert_eq!(check.notes, vec![notes[0], notes[2]]);
    assert_eq!(check.checked_through, 200);
    assert!(check.witness_serving);
    assert_eq!(
        check.into_checked_notes(),
        CheckedNotes { notes: vec![notes[0], notes[2]], checked_through: 200 }
    );
    assert!(!checked(notes, &[], 200, "down").witness_serving);
}

#[test]
fn witnesses_of_unspent_notes_are_stored() {
    let notes = vec![note(1, 90), note(2, 91), note(3, 92)];
    let check = checked(notes, &[1], 200, "serving");
    let fetched = vec![witness(20, ROOT), witness(30, ROOT)];
    let replacement = witnesses(check, 180, Some(ROOT), fetched).unwrap().unwrap();
    assert_eq!(replacement.anchor_height, BlockHeight(180));
    assert_eq!(replacement.anchor_root, ROOT);
    let stored: Vec<_> = replacement
        .witnesses
        .iter()
        .map(|w| (w.note_id, w.position, w.siblings[0][0], w.siblings[1][0]))
        .collect();
    assert_eq!(stored, vec![(2, 1002, 20, 21), (3, 1003, 30, 31)]);
}

#[test]
fn witnesses_are_asked_for_at_the_positions_of_the_notes() {
    let check = checked(vec![note(1, 90), note(2, 91)], &[], 200, "serving");
    let WitnessStep::Connect(connect) = check.witnesses().ok().unwrap() else {
        panic!("there are unspent notes");
    };
    let fetch = connect.connected(200).ok().unwrap().chain_root(Some(ROOT)).ok().unwrap();
    assert_eq!(fetch.positions(), vec![1001, 1002]);
}

#[test]
fn only_as_many_witnesses_are_stored_as_came() {
    let check = checked(vec![note(1, 90), note(2, 91)], &[], 200, "serving");
    let replacement = witnesses(check, 180, Some(ROOT), vec![witness(1, ROOT)]).unwrap().unwrap();
    assert_eq!(replacement.witnesses.len(), 1);
    let check = checked(vec![note(1, 90)], &[], 200, "serving");
    let fetched = vec![witness(1, ROOT), witness(2, [0; 32])];
    let replacement = witnesses(check, 180, Some(ROOT), fetched).unwrap().unwrap();
    assert_eq!(replacement.witnesses.len(), 1);
}

#[test]
fn without_unspent_notes_no_witness_is_needed() {
    let check = checked(vec![note(1, 90)], &[1], 200, "down");
    assert_eq!(witnesses(check, 180, None, vec![]), Ok(None));
}

#[test]
fn unusable_witnesses_are_refused() {
    let check = |phase: &str| checked(vec![note(1, 90)], &[], 5_000_000_000, phase);
    let fetched = || vec![witness(1, ROOT)];
    assert_eq!(
        witnesses(check("down"), 180, Some(ROOT), fetched()),
        Err(PirError::WitnessNotServing)
    );
    assert_eq!(
        witnesses(check("serving"), 5_000_000_001, Some(ROOT), fetched()),
        Err(PirError::NoSharedSnapshot)
    );
    let WitnessStep::Connect(connect) = check("serving").witnesses().ok().unwrap() else {
        panic!("there are unspent notes");
    };
    assert_eq!(connect.connected(4_294_967_296).err(), Some(PirError::AnchorOutOfRange));
    assert_eq!(
        witnesses(check("serving"), 180, None, fetched()),
        Err(PirError::AnchorAboveTip)
    );
    assert_eq!(
        witnesses(check("serving"), 89, Some(ROOT), fetched()),
        Err(PirError::AnchorPredatesNote)
    );
    assert!(witnesses(check("serving"), 90, Some(ROOT), fetched()).is_ok());
    assert_eq!(
        witnesses(check("serving"), 180, Some([8; 32]), fetched()),
        Err(PirError::RootMismatch)
    );
}

#[test]
fn a_send_clears_the_witnesses_and_checks_the_notes() {
    let pir = Pir { network: PirNetwork::Main, activation: 100.into() };
    assert!(matches!(pir.prepare_witnesses().cleared(vec![]), SendStep::Done));
    let ask = || match pir.prepare_witnesses().cleared(vec![note(1, 90)]) {
        SendStep::AskScanned(next) => next,
        SendStep::Done => panic!("there is a note"),
    };
    assert_eq!(ask().scanned(None).err(), Some(PirError::NothingScanned));
    let healthy = ask().scanned(Some(99.into())).ok().unwrap().health(&health("serving", ""));
    assert_eq!(
        healthy.ok().unwrap().spend_connected(101, 200).err(),
        Some(PirError::RetentionTooShort)
    );
}

#[test]
fn the_shortcut_runs_on_public_networks_with_peers() {
    assert!(Shortcut::begin(&vec![], Network::Regtest).ok().unwrap().is_none());
    assert_eq!(
        Shortcut::begin(&peers(), Network::Regtest).err(),
        Some(PirError::RegtestUnsupported)
    );
    let shortcut = Shortcut::begin(&peers(), Network::Test).ok().unwrap().unwrap();
    assert_eq!(shortcut.network(), PirNetwork::Test);
    assert_eq!(
        shortcut.health(&health("", "serving")).err(),
        Some(PirError::NullifierNotServing)
    );
}

#[test]
fn the_shortcut_checks_the_notes_it_loads() {
    let loaded = |notes: Vec<PirNote>| {
        Shortcut::begin(&peers(), Network::Main)
            .ok()
            .unwrap()
            .unwrap()
            .health(&health("serving", "serving"))
            .ok()
            .unwrap()
            .loaded(notes)
    };
    assert!(matches!(loaded(vec![]), ShortcutStep::Done));
    let ask = || match loaded(vec![note(1, 90)]) {
        ShortcutStep::AskScanned(next) => next,
        ShortcutStep::Done => panic!("there is a note"),
    };
    assert_eq!(ask().scanned(None).err(), Some(PirError::NothingScanned));
    let spend = || ask().scanned(Some(150.into())).ok().unwrap();
    assert_eq!(
        spend().spend_connected_from(None, 0, 200).err(),
        Some(PirError::NoActivationHeight)
    );
    assert_eq!(
        spend().spend_connected_from(Some(100.into()), 152, 200).err(),
        Some(PirError::RetentionTooShort)
    );
    let check = answer(spend().spend_connected_from(Some(100.into()), 151, 200).ok().unwrap(), &[]);
    assert_eq!(
        check,
        Check { notes: vec![note(1, 90)], checked_through: 200, witness_serving: true }
    );
    assert!(spend().spend_connected(3_428_143, 4_000_000).is_ok());
    assert_eq!(
        spend().spend_connected(3_428_144, 4_000_000).err(),
        Some(PirError::RetentionTooShort)
    );
}

#[test]
fn late_work_is_an_error() {
    assert_eq!(within_timeout(Some(Ok(3)), PirError::QueryTimedOut), Ok(3));
    assert_eq!(
        within_timeout::<u8>(None, PirError::QueryTimedOut),
        Err("PIR query timed out".to_string())
    );
    assert_eq!(
        within_timeout::<()>(None, PirError::StartupTimedOut),
        Err("PIR startup timed out".to_string())
    );
}

#[test]
fn errors_have_their_texts() {
    assert_eq!(PirError::Disabled.text(), "PIR is disabled");
    assert_eq!(PirError::RegtestUnsupported.text(), "PIR does not support regtest");
    assert_eq!(
        PirError::NoActivationHeight.text(),
        "NU6.3 activation height is not configured"
    );
    assert_eq!(PirError::NothingScanned.text(), "wallet has not scanned any blocks");
    assert_eq!(PirError::NetworkingStopped.text(), "PIR networking stopped");
    assert_eq!(
        PirError::NullifierNotServing.text(),
        "PIR nullifier provider is not serving"
    );
    assert_eq!(
        PirError::RetentionTooShort.text(),
        "PIR nullifier retention does not cover the unscanned range"
    );
    assert_eq!(PirError::WitnessNotServing.text(), "PIR witness provider is not serving");
    assert_eq!(
        PirError::NoSharedSnapshot.text(),
        "PIR datasets do not share a usable snapshot"
    );
    assert_eq!(
        PirError::AnchorOutOfRange.text(),
        "PIR anchor height exceeds the Zcash height range"
    );
    assert_eq!(PirError::AnchorAboveTip.text(), "PIR anchor is above the chain tip");
    assert_eq!(PirError::AnchorPredatesNote.text(), "PIR anchor predates a wallet note");
    assert_eq!(PirError::RootMismatch.text(), "PIR witness root does not match the chain");
    assert_eq!(PirError::BalanceOverflow.text(), "spendable balance overflow");
}

#[test]
fn queries_wait_for_a_client_while_networking_runs() {
    assert_eq!(session(true), SessionAction::Open);
    assert_eq!(session(false), SessionAction::AwaitClient);
    assert_eq!(client_awaited(true), Ok(()));
    assert_eq!(client_awaited(false), Err(PirError::NetworkingStopped));
}

#[test]
fn networking_is_retried_until_shutdown() {
    let waiting = run(RunPhase::Starting, RunEvent::StartFailed);
    assert_eq!(waiting, RunPhase::Waiting);
    let again = run(waiting, RunEvent::DelayElapsed);
    assert_eq!(again, RunPhase::Starting);
    let serving = run(again, RunEvent::Started);
    assert_eq!(serving, RunPhase::Serving);
    let closing = run(serving, RunEvent::ShutdownRequested);
    assert_eq!(closing, RunPhase::Closing);
    assert_eq!(run(closing, RunEvent::NodeClosed), RunPhase::Stopped);
    assert_eq!(run(RunPhase::Starting, RunEvent::ShutdownRequested), RunPhase::Stopped);
    assert_eq!(run(RunPhase::Waiting, RunEvent::ShutdownRequested), RunPhase::Stopped);
    assert_eq!(run(RunPhase::Stopped, RunEvent::Started), RunPhase::Stopped);
}
