//! Laws of amounts and of `z_getspendablebalance`.

use vstd::prelude::*;

use crate::error::{LegacyCode, RpcError};
use crate::laws;
use crate::network::BlockHeight;
use crate::pir::{Check, CheckedNotes, NoteCheck, Pir, PirError, PirNote};
use crate::spendable_balance;
use crate::spendable_balance::{calculate, failure, BalanceStep, BalanceTotal, ResultType};
use crate::value::Zatoshis;

verus! {

/// Exactly the amounts up to 21 million ZEC can exist, and an amount stays what it was made
/// as.
pub proof fn amounts_are_what_they_were_made_as(amount: u64, made: Option<Zatoshis>)
    requires
        call_ensures(Zatoshis::from_u64, (amount,), made),
    ensures
        made is Some <==> amount <= 21_000_000 * 100_000_000,
        made matches Some(value) ==> value.amount() == amount && forall|number: u64| #[trigger]
            call_ensures(Zatoshis::into_u64, (value,), number) ==> number == amount,
{
}

/// Amounts are added as numbers are, and there is a sum exactly if it can exist.
pub proof fn amounts_add_up(
    amount_a: u64,
    amount_b: u64,
    a: Zatoshis,
    b: Zatoshis,
    zero: Zatoshis,
    sum: Option<Zatoshis>,
    swapped: Option<Zatoshis>,
    unchanged: Option<Zatoshis>,
)
    requires
        call_ensures(Zatoshis::from_u64, (amount_a,), Some(a)),
        call_ensures(Zatoshis::from_u64, (amount_b,), Some(b)),
        call_ensures(Zatoshis::zero, (), zero),
        call_ensures(Zatoshis::checked_sum, (a, b), sum),
        call_ensures(Zatoshis::checked_sum, (b, a), swapped),
        call_ensures(Zatoshis::checked_sum, (a, zero), unchanged),
    ensures
        sum is Some <==> amount_a + amount_b <= 2_100_000_000_000_000,
        sum matches Some(value) ==> value.amount() == amount_a + amount_b,
        swapped is Some <==> sum is Some,
        swapped matches Some(value) ==> value.amount() == amount_a + amount_b,
        unchanged matches Some(value) && value.amount() == amount_a,
{
}

/// The values of notes, added up from the first to the last.
pub open spec fn added_up(notes: Seq<PirNote>) -> int {
    notes.fold_left(0, |sum: int, note: PirNote| sum + note.value.amount())
}

/// What the total of notes is, is what they add up to.
proof fn lemma_total_is_added_up(notes: Seq<PirNote>)
    ensures
        spendable_balance::total_value(notes) == added_up(notes),
    decreases notes.len(),
{
    if notes.len() > 0 {
        lemma_total_is_added_up(notes.drop_last());
    }
}

/// Adding up two lists of notes after another gives the sum of both.
proof fn lemma_added_up_in_parts(a: Seq<PirNote>, b: Seq<PirNote>)
    ensures
        added_up(a + b) == added_up(a) + added_up(b),
    decreases b.len(),
{
    if b.len() == 0 {
        assert(a + b =~= a);
    } else {
        lemma_added_up_in_parts(a, b.drop_last());
        assert((a + b).drop_last() =~= a + b.drop_last());
        assert((a + b).last() == b.last());
    }
}

/// The total of a single note is its value, whatever else is known of the note, and totals of
/// parts add up.
pub proof fn totals_are_made_of_the_notes_values(
    note: PirNote,
    a: Seq<PirNote>,
    b: Seq<PirNote>,
)
    ensures
        spendable_balance::total_value(Seq::empty()) == 0,
        spendable_balance::total_value(seq![note]) == note.value.amount(),
        spendable_balance::total_value(a + b) == spendable_balance::total_value(a)
            + spendable_balance::total_value(b),
{
    assert(seq![note].drop_last() =~= Seq::empty());
    reveal_with_fuel(spendable_balance::total_value, 2);
    lemma_total_is_added_up(a);
    lemma_total_is_added_up(b);
    lemma_total_is_added_up(a + b);
    lemma_added_up_in_parts(a, b);
}

/// The balance is what the values of the unspent notes add up to, every one of them counted in
/// full, wherever it was mined. There is none exactly if that is more money than can exist.
pub proof fn the_balance_is_the_sum_of_the_unspent_notes(
    total: BalanceTotal,
    checked: CheckedNotes,
    r: Result<ResultType, PirError>,
)
    requires
        call_ensures(BalanceTotal::checked, (total, &checked), r),
    ensures
        r is Ok <==> added_up(checked.notes@) <= 2_100_000_000_000_000,
        r matches Ok(result) ==> result.balance.amount() == added_up(checked.notes@),
        r matches Ok(result) ==> result.pir_checked_through == Some(checked.checked_through),
        r matches Err(error) ==> error == PirError::BalanceOverflow,
{
    lemma_total_is_added_up(checked.notes@);
}

/// A single unspent note is worth its value.
pub proof fn a_single_note_is_worth_its_value(
    total: BalanceTotal,
    checked: CheckedNotes,
    note: PirNote,
    amount: u64,
    r: Result<ResultType, PirError>,
)
    requires
        checked.notes@ == seq![note],
        call_ensures(Zatoshis::from_u64, (amount,), Some(note.value)),
        call_ensures(BalanceTotal::checked, (total, &checked), r),
    ensures
        r matches Ok(result) && result.balance.amount() == amount,
{
    totals_are_made_of_the_notes_values(note, seq![], seq![]);
}

/// Balances add up: the balance of two lists of notes together is the sum of their balances,
/// and one list more never makes a balance smaller.
pub proof fn balances_add_up(
    total: BalanceTotal,
    a: CheckedNotes,
    b: CheckedNotes,
    both: CheckedNotes,
    balance_a: Result<ResultType, PirError>,
    balance_b: Result<ResultType, PirError>,
    balance: ResultType,
)
    requires
        both.notes@ == a.notes@ + b.notes@,
        call_ensures(BalanceTotal::checked, (total, &a), balance_a),
        call_ensures(BalanceTotal::checked, (total, &b), balance_b),
        call_ensures(
            BalanceTotal::checked,
            (total, &both),
            Ok::<ResultType, PirError>(balance),
        ),
    ensures
        balance_a matches Ok(x) && balance_b matches Ok(y) && balance.balance.amount()
            == x.balance.amount() + y.balance.amount(),
{
    totals_are_made_of_the_notes_values(arbitrary(), a.notes@, b.notes@);
}

/// Without notes the balance is zero, whether or not PIR is used and the wallet has scanned;
/// nothing was checked then. With notes, the wallet has to have scanned, and PIR has to be
/// used, in this order; then the provider is asked about all of the notes.
pub proof fn notes_are_checked_unless_there_are_none(
    notes: Vec<PirNote>,
    last_scanned: Option<BlockHeight>,
    pir: Option<&Pir>,
    r: Result<BalanceStep, PirError>,
)
    requires
        call_ensures(calculate, (notes, last_scanned, pir), r),
    ensures
        notes@.len() == 0 <==> r matches Ok(BalanceStep::Done(_)),
        r matches Ok(BalanceStep::Done(result)) ==> result.balance.amount() == 0
            && result.pir_checked_through is None && (result.wallet_scanned_through is Some
            <==> last_scanned is Some) && (last_scanned matches Some(height)
            ==> result.wallet_scanned_through == Some(height.0)),
        notes@.len() > 0 && last_scanned is None ==> r == Err::<BalanceStep, PirError>(
            PirError::NothingScanned,
        ),
        notes@.len() > 0 && last_scanned is Some && pir is None ==> r == Err::<
            BalanceStep,
            PirError,
        >(PirError::Disabled),
        notes@.len() > 0 && last_scanned is Some && pir is Some <==> r matches Ok(
            BalanceStep::Check(_, _),
        ),
        r matches Ok(BalanceStep::Check(check, _)) ==> check.notes() == notes@
            && check.last_scanned() == last_scanned->0 && check.activation() == pir->0.activation,
{
}

/// The answer tells how far the wallet had scanned when it loaded the notes, and how far the
/// provider checked them.
pub proof fn the_answer_tells_both_heights(
    notes: Vec<PirNote>,
    height: BlockHeight,
    pir: &Pir,
    check: NoteCheck,
    total: BalanceTotal,
    outcome: Check,
    checked: CheckedNotes,
    result: ResultType,
)
    requires
        call_ensures(
            calculate,
            (notes, Some(height), Some(pir)),
            Ok::<BalanceStep, PirError>(BalanceStep::Check(check, total)),
        ),
        call_ensures(Check::into_checked_notes, (outcome,), checked),
        call_ensures(
            BalanceTotal::checked,
            (total, &checked),
            Ok::<ResultType, PirError>(result),
        ),
    ensures
        result.wallet_scanned_through == Some(height.0),
        result.pir_checked_through == Some(outcome.checked_through),
        result.balance.amount() == added_up(outcome.notes@),
{
    lemma_total_is_added_up(checked.notes@);
}

/// A call that fails is answered with its reason.
pub proof fn failures_are_answered_with_their_reason(reason: &str, r: RpcError)
    requires
        call_ensures(failure, (reason,), r),
    ensures
        laws::rpc_says(r, LegacyCode::Misc, reason@),
{
}

} // verus!
