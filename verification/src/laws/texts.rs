//! Laws of texts, heights and the messages that show them.

use shardtree::error::ShardTreeError;
use vstd::prelude::*;
use vstd::string::*;
use zcash_client_backend::scanning::ScanError;
use zcash_client_sqlite::error::SqliteClientError;
use zcash_client_sqlite::wallet::commitment_tree;

use crate::error::Message;
use crate::keystore_error::KeystoreError;
use crate::laws;
use crate::network::BlockHeight;
use crate::sync_error::{ChainError, SyncError};
use crate::text;
use crate::text::{decimal_string, push_decimal, starts_with, str_eq};

verus! {

/// Two strings are taken for the same exactly if they have the same characters.
pub proof fn strings_are_compared_by_their_characters(a: &str, b: &str, equal: bool)
    requires
        call_ensures(str_eq, (a, b), equal),
    ensures
        equal <==> a@.len() == b@.len() && forall|i: int| 0 <= i < a@.len() ==> a@[i] == b@[i],
{
    if a@.len() == b@.len() && forall|i: int| 0 <= i < a@.len() ==> a@[i] == b@[i] {
        assert(a@ =~= b@);
    }
}

/// A string begins with another exactly if that one is no longer, and each of its characters
/// stands in its place.
pub proof fn beginnings_are_compared_by_their_characters(text: &str, prefix: &str, found: bool)
    requires
        call_ensures(starts_with, (text, prefix), found),
    ensures
        found <==> prefix@.len() <= text@.len() && forall|i: int|
            0 <= i < prefix@.len() ==> text@[i] == prefix@[i],
{
    let n = prefix@.len() as int;
    if n <= text@.len() {
        let head = text@.subrange(0, n);
        assert(forall|i: int| 0 <= i < n ==> head[i] == text@[i]);
        if forall|i: int| 0 <= i < prefix@.len() ==> text@[i] == prefix@[i] {
            assert(head =~= prefix@);
        }
    }
}

/// The number that a string of decimal digits stands for.
pub open spec fn number(digits: Seq<char>) -> int
    decreases digits.len(),
{
    if digits.len() == 0 {
        0
    } else {
        10 * number(digits.drop_last()) + (digits.last() as int - '0' as int)
    }
}

/// A numeral stands for its number, is made of digits alone, and has no leading zero.
pub proof fn numerals_stand_for_their_numbers(n: nat)
    ensures
        number(text::decimal(n)) == n,
        text::decimal(n).len() > 0,
        forall|i: int|
            0 <= i < text::decimal(n).len() ==> '0' <= #[trigger] text::decimal(n)[i]
                && text::decimal(n)[i] <= '9',
        text::decimal(n)[0] == '0' ==> n == 0,
    decreases n,
{
    reveal_with_fuel(number, 2);
    let numeral = text::decimal(n);
    if n < 10 {
        assert(numeral =~= seq![text::digit_char(n)]);
        assert(numeral.drop_last() =~= Seq::empty());
    } else {
        numerals_stand_for_their_numbers(n / 10);
        let earlier = text::decimal(n / 10);
        assert(numeral =~= earlier.push(text::digit_char(n % 10)));
        assert(numeral.drop_last() =~= earlier);
        assert(numeral[0] == earlier[0]);
        assert forall|i: int| 0 <= i < numeral.len() implies '0' <= #[trigger] numeral[i]
            && numeral[i] <= '9' by {
            if i < earlier.len() {
                assert(numeral[i] == earlier[i]);
            }
        }
    }
}

/// The numeral that is written for a number stands for it, and different numbers have different
/// numerals.
pub proof fn written_numerals_stand_for_their_numbers(a: u64, b: u64, x: String, y: String)
    requires
        call_ensures(decimal_string, (a,), x),
        call_ensures(decimal_string, (b,), y),
    ensures
        number(x@) == a,
        x@ == y@ <==> a == b,
{
    numerals_stand_for_their_numbers(a as nat);
    numerals_stand_for_their_numbers(b as nat);
}

/// A numeral is written behind what is there already, which stays as it is.
pub proof fn numerals_are_written_behind(out: &mut String, n: u64)
    requires
        call_ensures(push_decimal, (out, n), ()),
    ensures
        final(out)@.len() > old(out)@.len(),
        final(out)@.take(old(out)@.len() as int) == old(out)@,
        number(final(out)@.skip(old(out)@.len() as int)) == n,
{
    numerals_stand_for_their_numbers(n as nat);
    let before = old(out)@;
    let after = final(out)@;
    assert(after.take(before.len() as int) =~= before);
    assert(after.skip(before.len() as int) =~= text::decimal(n as nat));
}

/// Heights are numbers: one above another is one more, one below is one less, and there is
/// none below zero or above the greatest.
pub proof fn heights_are_counted(
    number: u32,
    height: BlockHeight,
    above: BlockHeight,
    below: BlockHeight,
    back: BlockHeight,
)
    requires
        call_ensures(BlockHeight::from_u32, (number,), height),
        call_ensures(BlockHeight::next, (height,), above),
        call_ensures(BlockHeight::previous, (height,), below),
        call_ensures(BlockHeight::previous, (above,), back),
    ensures
        height.0 == number,
        number < 0xffff_ffff ==> above.0 == number + 1 && back == height,
        number == 0xffff_ffff ==> above == height,
        number > 0 ==> below.0 == number - 1,
        number == 0 ==> below == height,
{
}

/// A key store without recipients is shown with the command that initializes it, for the wallet
/// in question; every other error is shown in one line. An entry that is refused is shown.
pub proof fn key_store_errors_are_shown_with_what_helps(
    error: KeystoreError,
    datadir: &str,
    lines: Vec<Message>,
)
    requires
        call_ensures(KeystoreError::lines, (&error, datadir), lines),
    ensures
        lines@.len() == if error is MissingRecipients {
            2int
        } else {
            1
        },
        match error {
            KeystoreError::MissingRecipients => laws::message_names(
                lines@[0],
                "err-keystore-missing-recipients"@,
            ) && laws::message_names_with(
                lines@[1],
                "rec-keystore-missing-recipients"@,
                "init_cmd"@,
                "zallet -d "@ + datadir@ + " init-wallet-encryption"@,
            ),
            KeystoreError::EmptyRecipients => laws::message_names(
                lines@[0],
                "err-keystore-empty-recipients"@,
            ),
            KeystoreError::RecipientIndirection(entry) => laws::message_names_with(
                lines@[0],
                "err-keystore-recipient-indirection"@,
                "entry"@,
                entry@,
            ),
            KeystoreError::IncorrectPassphrase => laws::message_names(
                lines@[0],
                "err-keystore-incorrect-passphrase"@,
            ),
            KeystoreError::TimeoutTooLarge => laws::message_names(
                lines@[0],
                "err-keystore-timeout-too-large"@,
            ),
        },
{
    let views = lines@.map_values(|message: Message| message@);
    assert(views.len() == lines@.len());
    assert(views[0] == lines@[0]@);
    if error is MissingRecipients {
        assert(views[1] == lines@[1]@);
    }
}

/// A wallet that diverged below its birthday is shown with that height, an error of the chain
/// as it is.
pub proof fn divergence_is_shown_with_the_birthday(
    birthday: BlockHeight,
    chain: ChainError,
    below: String,
    of_chain: String,
)
    requires
        call_ensures(
            SyncError::text,
            (&SyncError::WalletDivergedBelowBirthday { birthday },),
            below,
        ),
        call_ensures(SyncError::text, (&SyncError::Chain(chain),), of_chain),
    ensures
        below@
            == "the wallet's chain history diverges from the best chain below its birthday (height "@
            + text::decimal(birthday.0 as nat) + "); cannot continue syncing"@,
        of_chain@ == chain.debug_text@,
{
}

/// A wallet whose tree diverged is shown with the height where that was seen and the range of
/// heights that it can be rewound to: from its birthday to where it was rolled back to.
pub proof fn tree_divergence_is_shown_with_its_heights(
    observed_at: BlockHeight,
    rolled_back_to: BlockHeight,
    birthday: BlockHeight,
    shown: String,
)
    requires
        call_ensures(
            SyncError::text,
            (&SyncError::WalletTreeDiverged { observed_at, rolled_back_to, birthday },),
            shown,
        ),
    ensures
        shown@
            == "the wallet's note commitment tree diverges from the chain's (first seen at height "@
            + text::decimal(observed_at.0 as nat) + "); rolling back as far as "@ + text::decimal(
            rolled_back_to.0 as nat,
        )
            + " did not resolve it. Rewind the wallet further and let it rescan, with `zallet repair truncate-wallet <height>` for a height between "@
            + text::decimal(birthday.0 as nat) + " and "@ + text::decimal(rolled_back_to.0 as nat),
{
}

/// Errors from outside are shown as they show themselves, whichever way they came, and are kept
/// as they are.
pub proof fn outside_errors_are_shown_as_they_are(
    scan: ScanError,
    tree: ShardTreeError<commitment_tree::Error>,
    database: SqliteClientError,
    from_tree: SyncError,
    from_database: SyncError,
    shown_scan: String,
    shown_tree: String,
    shown_database: String,
    shown_decryptor: String,
)
    requires
        call_ensures(
            <SyncError as From<ShardTreeError<commitment_tree::Error>>>::from,
            (tree,),
            from_tree,
        ),
        call_ensures(<SyncError as From<SqliteClientError>>::from, (database,), from_database),
        call_ensures(SyncError::text, (&SyncError::Scan(scan),), shown_scan),
        call_ensures(SyncError::text, (&from_tree,), shown_tree),
        call_ensures(SyncError::text, (&from_database,), shown_database),
        call_ensures(SyncError::text, (&SyncError::BatchDecryptorUnavailable,), shown_decryptor),
    ensures
        from_tree == SyncError::Tree(Box::new(tree)),
        from_database == SyncError::Other(Box::new(database)),
        to_string_from_display_ensures::<ScanError>(&scan, shown_scan),
        to_string_from_display_ensures::<ShardTreeError<commitment_tree::Error>>(
            &tree,
            shown_tree,
        ),
        to_string_from_display_ensures::<SqliteClientError>(&database, shown_database),
        shown_decryptor@ == "The batch decryptor has shut down"@,
{
}

} // verus!
