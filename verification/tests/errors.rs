use zallet_core::error::Message;
use zallet_core::keystore_error::KeystoreError;
use zallet_core::sync_error::{ChainError, SyncError};
use zcash_client_backend::scanning::ScanError;
use zcash_client_sqlite::error::SqliteClientError;

#[test]
fn keystore_errors_are_shown_line_by_line() {
    assert_eq!(
        KeystoreError::MissingRecipients.lines("/home/user/.zallet"),
        vec![
            Message::localized("err-keystore-missing-recipients"),
            Message::localized_with(
                "rec-keystore-missing-recipients",
                "init_cmd",
                "zallet -d /home/user/.zallet init-wallet-encryption"
            ),
        ]
    );
    assert_eq!(
        KeystoreError::EmptyRecipients.lines(""),
        vec![Message::localized("err-keystore-empty-recipients")]
    );
    assert_eq!(
        KeystoreError::RecipientIndirection("@team".to_string()).lines(""),
        vec![Message::localized_with("err-keystore-recipient-indirection", "entry", "@team")]
    );
    assert_eq!(
        KeystoreError::IncorrectPassphrase.lines(""),
        vec![Message::localized("err-keystore-incorrect-passphrase")]
    );
    assert_eq!(
        KeystoreError::TimeoutTooLarge.lines(""),
        vec![Message::localized("err-keystore-timeout-too-large")]
    );
}

#[test]
fn sync_errors_have_their_texts() {
    assert_eq!(
        SyncError::BatchDecryptorUnavailable.text(),
        "The batch decryptor has shut down"
    );
    let chain = ChainError { debug_text: "Unavailable(\"node\")".to_string() };
    assert_eq!(SyncError::Chain(chain).text(), "Unavailable(\"node\")");
    assert_eq!(
        SyncError::WalletDivergedBelowBirthday { birthday: 419_200.into() }.text(),
        "the wallet's chain history diverges from the best chain below its birthday \
         (height 419200); cannot continue syncing"
    );
    assert_eq!(
        SyncError::WalletTreeDiverged {
            observed_at: 3_000_000.into(),
            rolled_back_to: 2_999_000.into(),
            birthday: 419_200.into(),
        }
        .text(),
        "the wallet's note commitment tree diverges from the chain's (first seen at \
         height 3000000); rolling back as far as 2999000 did not \
         resolve it. Rewind the wallet further and let it rescan, with \
         `zallet repair truncate-wallet <height>` for a height between 419200 \
         and 2999000"
    );
}

#[test]
fn outside_errors_are_shown_as_they_are() {
    let scan = || ScanError::PrevHashMismatch { at_height: 7u32.into() };
    assert_eq!(SyncError::Scan(scan()).text(), scan().to_string());
    let database = SyncError::from(SqliteClientError::CorruptedData("note 7".to_string()));
    assert!(matches!(database, SyncError::Other(_)));
    assert_eq!(
        database.text(),
        SqliteClientError::CorruptedData("note 7".to_string()).to_string()
    );
    let missing = || {
        shardtree::error::ShardTreeError::<
            zcash_client_sqlite::wallet::commitment_tree::Error,
        >::Query(shardtree::error::QueryError::CheckpointPruned)
    };
    let tree = SyncError::from(missing());
    assert!(matches!(tree, SyncError::Tree(_)));
    assert_eq!(tree.text(), missing().to_string());
}
