//! The errors of the key store.

use vstd::prelude::*;
use vstd::string::*;

use crate::error;
use crate::error::Message;

verus! {

/// What is wrong with the key store or with what is asked of it.
#[derive(Clone, Debug, PartialEq, Eq)]
pub enum KeystoreError {
    /// The key store has not been initialized with recipients.
    MissingRecipients,
    /// The recipient set the keystore was asked to initialize with is empty.
    EmptyRecipients,
    /// An age recipients file contained an `@`-prefixed indirection entry, which cannot
    /// be stored as a recipient.
    RecipientIndirection(String),
    /// The provided passphrase did not decrypt the keystore's age identities.
    IncorrectPassphrase,
    /// The requested unlock timeout is large enough that the re-lock deadline would
    /// overflow [`std::time::SystemTime`].
    TimeoutTooLarge,
}

/// The command that initializes the key store of the wallet in `datadir`.
pub open spec fn init_command(datadir: Seq<char>) -> Seq<char> {
    "zallet -d "@ + datadir + " init-wallet-encryption"@
}

impl KeystoreError {
    /// What is shown for this error, line by line, for the wallet in `datadir`.
    pub open spec fn lines_view(self, datadir: Seq<char>) -> Seq<error::MessageView> {
        match self {
            KeystoreError::MissingRecipients => seq![
                error::localized("err-keystore-missing-recipients"@),
                error::localized_with(
                    "rec-keystore-missing-recipients"@,
                    "init_cmd"@,
                    init_command(datadir),
                ),
            ],
            KeystoreError::EmptyRecipients => seq![
                error::localized("err-keystore-empty-recipients"@),
            ],
            KeystoreError::RecipientIndirection(entry) => seq![
                error::localized_with("err-keystore-recipient-indirection"@, "entry"@, entry@),
            ],
            KeystoreError::IncorrectPassphrase => seq![
                error::localized("err-keystore-incorrect-passphrase"@),
            ],
            KeystoreError::TimeoutTooLarge => seq![
                error::localized("err-keystore-timeout-too-large"@),
            ],
        }
    }

    /// What is shown for this error, line by line, for the wallet in `datadir`. The operator is
    /// told how to initialize a key store without recipients.
    pub fn lines(&self, datadir: &str) -> (r: Vec<Message>)
        ensures
            r@.map_values(|message: Message| message@) == self.lines_view(datadir@),
    {
        let mut lines: Vec<Message> = Vec::new();
        match self {
            KeystoreError::MissingRecipients => {
                let mut init_cmd = "zallet -d ".to_owned();
                init_cmd.append(datadir);
                init_cmd.append(" init-wallet-encryption");
                lines.push(Message::localized("err-keystore-missing-recipients"));
                lines.push(
                    Message::localized_with(
                        "rec-keystore-missing-recipients",
                        "init_cmd",
                        init_cmd.as_str(),
                    ),
                );
            },
            KeystoreError::EmptyRecipients => {
                lines.push(Message::localized("err-keystore-empty-recipients"));
            },
            KeystoreError::RecipientIndirection(entry) => {
                lines.push(
                    Message::localized_with(
                        "err-keystore-recipient-indirection",
                        "entry",
                        entry.as_str(),
                    ),
                );
            },
            KeystoreError::IncorrectPassphrase => {
                lines.push(Message::localized("err-keystore-incorrect-passphrase"));
            },
            KeystoreError::TimeoutTooLarge => {
                lines.push(Message::localized("err-keystore-timeout-too-large"));
            },
        }
        proof {
            assert(lines@.map_values(|message: Message| message@) =~= self.lines_view(datadir@));
        }
        lines
    }
}

} // verus!
