//! The errors of wallet synchronization.

use shardtree::error::ShardTreeError;
use vstd::prelude::*;
use vstd::string::*;
use zcash_client_backend::scanning::ScanError;
use zcash_client_sqlite::error::SqliteClientError;
use zcash_client_sqlite::wallet::commitment_tree;

use crate::network::BlockHeight;
use crate::text;

verus! {

/// Declares `zcash_client_backend::scanning::ScanError`.
#[verifier::external_type_specification]
#[verifier::external_body]
pub struct ExScanError(ScanError);

/// Declares `shardtree::error::ShardTreeError`.
#[verifier::external_type_specification]
#[verifier::external_body]
#[verifier::reject_recursive_types(S)]
pub struct ExShardTreeError<S>(ShardTreeError<S>);

/// Declares `zcash_client_sqlite::wallet::commitment_tree::Error`.
#[verifier::external_type_specification]
#[verifier::external_body]
pub struct ExCommitmentTreeError(commitment_tree::Error);

/// Declares `zcash_client_sqlite::error::SqliteClientError`.
#[verifier::external_type_specification]
#[verifier::external_body]
pub struct ExSqliteClientError(SqliteClientError);

/// An error of the chain backend.
#[derive(Debug)]
pub struct ChainError {
    /// The error as it is shown for debugging.
    pub debug_text: String,
}

/// Why synchronization ended.
#[derive(Debug)]
pub enum SyncError {
    BatchDecryptorUnavailable,
    Chain(ChainError),
    Scan(ScanError),
    Tree(Box<ShardTreeError<commitment_tree::Error>>),
    Other(Box<SqliteClientError>),
    /// The wallet's recorded chain history diverges from the backend's best chain below the
    /// wallet's birthday, so no common block can be found to rewind to. Syncing cannot
    /// safely continue.
    WalletDivergedBelowBirthday { birthday: BlockHeight },
    /// The wallet's note commitment tree disagrees with the chain's, and rolling the wallet
    /// back to progressively older checkpoints did not resolve it.
    ///
    /// Automatic recovery is bounded so that a misdiagnosis cannot walk the wallet back to
    /// its birthday one attempt at a time; past that bound it is a judgement call for the
    /// operator, who may know something we do not (a bad validator, a restored backup).
    WalletTreeDiverged {
        /// The wallet tip at which the divergence was first observed.
        observed_at: BlockHeight,
        /// The height the wallet had been rolled back to when recovery gave up.
        rolled_back_to: BlockHeight,
        /// The wallet's birthday, the floor for any manual rewind.
        birthday: BlockHeight,
    },
}

/// What is shown for a wallet that diverged below its birthday.
pub open spec fn diverged_below_birthday_text(birthday: BlockHeight) -> Seq<char> {
    "the wallet's chain history diverges from the best chain below its birthday (height "@
        + text::decimal(birthday.0 as nat) + "); cannot continue syncing"@
}

/// What is shown for a wallet whose note commitment tree diverged.
pub open spec fn tree_diverged_text(
    observed_at: BlockHeight,
    rolled_back_to: BlockHeight,
    birthday: BlockHeight,
) -> Seq<char> {
    "the wallet's note commitment tree diverges from the chain's (first seen at height "@
        + text::decimal(observed_at.0 as nat) + "); rolling back as far as "@ + text::decimal(
        rolled_back_to.0 as nat,
    )
        + " did not resolve it. Rewind the wallet further and let it rescan, with `zallet repair truncate-wallet <height>` for a height between "@
        + text::decimal(birthday.0 as nat) + " and "@ + text::decimal(rolled_back_to.0 as nat)
}

impl SyncError {
    /// Whether `shown` is what is shown for this error.
    pub open spec fn shown_as(self, shown: String) -> bool {
        match self {
            SyncError::BatchDecryptorUnavailable => shown@ == "The batch decryptor has shut down"@,
            SyncError::Chain(e) => shown@ == e.debug_text@,
            SyncError::Scan(e) => to_string_from_display_ensures::<ScanError>(&e, shown),
            SyncError::Tree(e) => to_string_from_display_ensures::<
                ShardTreeError<commitment_tree::Error>,
            >(&*e, shown),
            SyncError::Other(e) => to_string_from_display_ensures::<SqliteClientError>(&*e, shown),
            SyncError::WalletDivergedBelowBirthday { birthday } => shown@
                == diverged_below_birthday_text(birthday),
            SyncError::WalletTreeDiverged { observed_at, rolled_back_to, birthday } => shown@
                == tree_diverged_text(observed_at, rolled_back_to, birthday),
        }
    }

    /// What is shown for this error.
    pub fn text(&self) -> (r: String)
        ensures
            self.shown_as(r),
    {
        match self {
            SyncError::BatchDecryptorUnavailable => "The batch decryptor has shut down".to_owned(),
            SyncError::Chain(e) => e.debug_text.clone(),
            SyncError::Scan(e) => e.to_string(),
            SyncError::Tree(e) => (**e).to_string(),
            SyncError::Other(e) => (**e).to_string(),
            SyncError::WalletDivergedBelowBirthday { birthday } => {
                let mut shown =
                    "the wallet's chain history diverges from the best chain below its birthday (height ".to_owned();
                text::push_decimal(&mut shown, birthday.0 as u64);
                shown.append("); cannot continue syncing");
                shown
            },
            SyncError::WalletTreeDiverged { observed_at, rolled_back_to, birthday } => {
                let mut shown =
                    "the wallet's note commitment tree diverges from the chain's (first seen at height ".to_owned();
                text::push_decimal(&mut shown, observed_at.0 as u64);
                shown.append("); rolling back as far as ");
                text::push_decimal(&mut shown, rolled_back_to.0 as u64);
                shown.append(
                    " did not resolve it. Rewind the wallet further and let it rescan, with `zallet repair truncate-wallet <height>` for a height between ",
                );
                text::push_decimal(&mut shown, birthday.0 as u64);
                shown.append(" and ");
                text::push_decimal(&mut shown, rolled_back_to.0 as u64);
                shown
            },
        }
    }
}

impl vstd::std_specs::convert::FromSpecImpl<ShardTreeError<commitment_tree::Error>> for SyncError {
    open spec fn obeys_from_spec() -> bool {
        true
    }

    open spec fn from_spec(e: ShardTreeError<commitment_tree::Error>) -> Self {
        SyncError::Tree(Box::new(e))
    }
}

impl From<ShardTreeError<commitment_tree::Error>> for SyncError {
    fn from(e: ShardTreeError<commitment_tree::Error>) -> (r: Self) {
        SyncError::Tree(Box::new(e))
    }
}

impl vstd::std_specs::convert::FromSpecImpl<SqliteClientError> for SyncError {
    open spec fn obeys_from_spec() -> bool {
        true
    }

    open spec fn from_spec(e: SqliteClientError) -> Self {
        SyncError::Other(Box::new(e))
    }
}

impl From<SqliteClientError> for SyncError {
    fn from(e: SqliteClientError) -> (r: Self) {
        SyncError::Other(Box::new(e))
    }
}

} // verus!
