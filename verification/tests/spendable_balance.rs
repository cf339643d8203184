use zallet_core::error::{LegacyCode, Message};
use zallet_core::network::PirNetwork;
use zallet_core::pir::{CheckedNotes, Pir, PirError, PirNote};
use zallet_core::spendable_balance::{calculate, failure, BalanceStep, BalanceTotal, ResultType};
use zallet_core::value::{Zatoshis, MAX_MONEY};

fn note(value: u64) -> PirNote {
    PirNote {
        note_id: 1,
        position: 1,
        nullifier: [1; 32],
        value: Zatoshis::from_u64(value).unwrap(),
        mined_height: 90.into(),
    }
}

fn pir() -> Pir {
    Pir { network: PirNetwork::Main, activation: 100.into() }
}

fn total() -> BalanceTotal {
    match calculate(vec![note(1)], Some(100.into()), Some(&pir())) {
        Ok(BalanceStep::Check(_, total)) => total,
        _ => panic!("there is a note to check"),
    }
}

#[test]
fn amounts_are_at_most_all_money() {
    assert_eq!(MAX_MONEY, zcash_protocol::value::MAX_MONEY);
    assert!(Zatoshis::from_u64(MAX_MONEY).is_some());
    assert!(Zatoshis::from_u64(MAX_MONEY + 1).is_none());
    let all = Zatoshis::from_u64(MAX_MONEY).unwrap();
    let one = Zatoshis::from_u64(1).unwrap();
    assert_eq!(all.checked_sum(one), None);
    assert_eq!(all.checked_sum(Zatoshis::zero()), Some(all));
    assert_eq!(one.checked_sum(one).unwrap().into_u64(), 2);
}

#[test]
fn a_wallet_without_notes_has_no_balance() {
    let Ok(BalanceStep::Done(result)) = calculate(vec![], Some(100.into()), None) else {
        panic!("there is nothing to check");
    };
    assert_eq!(
        result,
        ResultType {
            balance: Zatoshis::zero(),
            wallet_scanned_through: Some(100),
            pir_checked_through: None,
        }
    );
    let Ok(BalanceStep::Done(result)) = calculate(vec![], None, None) else {
        panic!("there is nothing to check");
    };
    assert_eq!(result.wallet_scanned_through, None);
}

#[test]
fn a_balance_needs_a_scanned_wallet_and_pir() {
    assert_eq!(
        calculate(vec![note(1)], None, Some(&pir())).err(),
        Some(PirError::NothingScanned)
    );
    assert_eq!(
        calculate(vec![note(1)], None, None).err(),
        Some(PirError::NothingScanned)
    );
    assert_eq!(
        calculate(vec![note(1)], Some(100.into()), None).err(),
        Some(PirError::Disabled)
    );
}

#[test]
fn unspent_notes_are_added_up() {
    let checked = CheckedNotes {
        notes: vec![note(100_000_000), note(20), note(3)],
        checked_through: 200,
    };
    assert_eq!(
        total().checked(&checked),
        Ok(ResultType {
            balance: Zatoshis::from_u64(100_000_023).unwrap(),
            wallet_scanned_through: Some(100),
            pir_checked_through: Some(200),
        })
    );
}

#[test]
fn more_than_all_money_is_an_overflow() {
    let mut checked = CheckedNotes { notes: vec![note(MAX_MONEY), note(0)], checked_through: 200 };
    assert!(total().checked(&checked).is_ok());
    checked.notes.push(note(1));
    assert_eq!(total().checked(&checked), Err(PirError::BalanceOverflow));
}

#[test]
fn failures_are_answered_with_their_reason() {
    let error = failure(PirError::BalanceOverflow.text());
    assert_eq!(error.code, LegacyCode::Misc);
    assert_eq!(error.message, Message::Text("spendable balance overflow".to_string()));
}
