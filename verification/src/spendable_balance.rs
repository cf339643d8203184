//! `z_getspendablebalance`: the Ironwood funds that can be spent before the wallet has caught
//! up, as a PIR provider reports them.

use vstd::prelude::*;

use crate::error;
use crate::error::{LegacyCode, RpcError};
use crate::network::BlockHeight;
use crate::pir;
use crate::pir::{CheckedNotes, NoteCheck, Pir, PirError, PirNote};
use crate::value::{Zatoshis, MAX_MONEY};

verus! {

/// How long the provider may take to answer, in seconds.
pub const TIMEOUT_SECONDS: u64 = 25;

/// PIR-reported spendable Ironwood balance and the heights used to calculate it.
///
/// The balance is shown to the caller in ZEC; writing it so is left to the server.
#[derive(Clone, Copy, Debug, PartialEq, Eq)]
pub struct ResultType {
    /// Total PIR-reported spendable Ironwood balance.
    pub balance: Zatoshis,
    /// Height through which the wallet had scanned when it loaded the known notes.
    pub wallet_scanned_through: Option<u32>,
    /// Height through which the PIR provider checked the known note nullifiers.
    pub pir_checked_through: Option<u64>,
}

/// The sum of the values of `notes`.
pub open spec fn total_value(notes: Seq<PirNote>) -> nat
    decreases notes.len(),
{
    if notes.len() == 0 {
        0
    } else {
        total_value(notes.drop_last()) + notes.last().value.amount() as nat
    }
}

/// A longer list of notes is worth no less.
proof fn lemma_total_value_grows(notes: Seq<PirNote>, i: int)
    requires
        0 <= i <= notes.len(),
    ensures
        total_value(notes.take(i)) <= total_value(notes),
    decreases notes.len(),
{
    if i < notes.len() {
        lemma_total_value_grows(notes.drop_last(), i);
        assert(notes.drop_last().take(i) =~= notes.take(i));
    } else {
        assert(notes.take(i) =~= notes);
    }
}

/// What follows on loading the wallet's notes.
pub enum BalanceStep {
    /// There is no note; this is the answer.
    Done(ResultType),
    /// The provider is asked which notes are spent.
    Check(NoteCheck, BalanceTotal),
}

/// A balance that waits for the result of the note check.
pub struct BalanceTotal {
    last_scanned: BlockHeight,
}

/// The wallet told its notes and how far it scanned: ask the provider about the notes, if
/// there are any.
pub fn calculate(
    notes: Vec<PirNote>,
    last_scanned: Option<BlockHeight>,
    pir: Option<&Pir>,
) -> (r: Result<BalanceStep, PirError>)
    ensures
        if notes@.len() == 0 {
            r matches Ok(BalanceStep::Done(result)) && result.balance.amount() == 0
                && result.wallet_scanned_through == (match last_scanned {
                Some(height) => Some(height.0),
                None => None,
            }) && result.pir_checked_through is None
        } else {
            match (last_scanned, pir) {
                (None, _) => r matches Err(error) && error == PirError::NothingScanned,
                (Some(_), None) => r matches Err(error) && error == PirError::Disabled,
                (Some(height), Some(pir)) => r matches Ok(BalanceStep::Check(check, total))
                    && check.notes() == notes@ && check.last_scanned() == height
                    && check.activation() == pir.activation && total.last_scanned() == height,
            }
        },
{
    if notes.len() == 0 {
        return Ok(
            BalanceStep::Done(
                ResultType {
                    balance: Zatoshis::zero(),
                    wallet_scanned_through: match last_scanned {
                        Some(height) => Some(height.0),
                        None => None,
                    },
                    pir_checked_through: None,
                },
            ),
        );
    }
    let last_scanned = match last_scanned {
        Some(height) => height,
        None => return Err(PirError::NothingScanned),
    };
    let pir = match pir {
        Some(pir) => pir,
        None => return Err(PirError::Disabled),
    };
    Ok(BalanceStep::Check(pir.check_notes(notes, last_scanned), BalanceTotal { last_scanned }))
}

impl BalanceTotal {
    pub closed spec fn last_scanned(self) -> BlockHeight {
        self.last_scanned
    }

    /// The provider told which notes are unspent: they are added up.
    pub fn checked(self, checked: &CheckedNotes) -> (r: Result<ResultType, PirError>)
        ensures
            r is Ok <==> total_value(checked.notes@) <= MAX_MONEY,
            match r {
                Ok(result) => result.balance.amount() == total_value(checked.notes@)
                    && result.wallet_scanned_through == Some(self.last_scanned().0)
                    && result.pir_checked_through == Some(checked.checked_through),
                Err(error) => error == PirError::BalanceOverflow,
            },
    {
        let mut total = Zatoshis::zero();
        let mut i: usize = 0;
        while i < checked.notes.len()
            invariant
                i <= checked.notes@.len(),
                total.amount() == total_value(checked.notes@.take(i as int)),
            decreases checked.notes@.len() - i,
        {
            proof {
                let longer = checked.notes@.take(i as int + 1);
                assert(longer.drop_last() =~= checked.notes@.take(i as int));
                lemma_total_value_grows(checked.notes@, i as int + 1);
            }
            match total.checked_sum(checked.notes[i].value) {
                Some(sum) => {
                    total = sum;
                },
                None => return Err(PirError::BalanceOverflow),
            }
            i = i + 1;
        }
        proof {
            assert(checked.notes@.take(i as int) =~= checked.notes@);
        }
        let balance = total.into_u64();
        assert(balance == total_value(checked.notes@));
        Ok(
            ResultType {
                balance: total,
                wallet_scanned_through: Some(self.last_scanned.0),
                pir_checked_through: Some(checked.checked_through),
            },
        )
    }
}

/// The answer to a call that failed for the given reason.
pub fn failure(reason: &str) -> (r: RpcError)
    ensures
        r@ == error::rpc_text(LegacyCode::Misc, reason@),
{
    LegacyCode::Misc.with_text(reason)
}

/// The notes found unspent and the notes reported spent together are worth what the wallet's
/// notes are worth: a note counts towards the balance if and only if it was not reported
/// spent.
pub proof fn balance_leaves_out_the_spent_notes(notes: Seq<PirNote>, spent: Seq<bool>)
    requires
        spent.len() == notes.len(),
    ensures
        total_value(pir::unspent_notes(notes, spent)) + total_value(
            pir::unspent_notes(notes, spent.map_values(|s: bool| !s)),
        ) == total_value(notes),
    decreases notes.len(),
{
    let unspent = spent.map_values(|s: bool| !s);
    if notes.len() > 0 {
        let earlier = notes.drop_last();
        balance_leaves_out_the_spent_notes(earlier, spent.drop_last());
        assert(unspent.drop_last() =~= spent.drop_last().map_values(|s: bool| !s));
        let kept = pir::unspent_notes(earlier, spent.drop_last());
        let left_out = pir::unspent_notes(earlier, unspent.drop_last());
        assert(kept.push(notes.last()).drop_last() =~= kept);
        assert(left_out.push(notes.last()).drop_last() =~= left_out);
    }
}

} // verus!
