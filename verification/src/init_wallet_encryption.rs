//! `init-wallet-encryption`: stores the recipients that the wallet's secrets are encrypted to.

use age::{IdentityFile, NoCallbacks};
use vstd::prelude::*;
use vstd::string::*;

use crate::error;
use crate::error::{CommandError, ErrorKind, Message};

verus! {

/// The identities that have been parsed from an identity file: a list of `age` identities.
#[verifier::external_body]
pub struct Identities {
    pub file: IdentityFile<NoCallbacks>,
}

/// The recipients of the identities, in order, as they are written. There are none to be had
/// if an identity belongs to a plugin, which alone can derive its recipient.
pub uninterp spec fn identity_recipients(identities: Identities) -> Option<Seq<Seq<char>>>;

/// Whether a recipients file can be written: there are identities, none of them a plugin's.
pub open spec fn has_recipients(identities: Identities) -> bool {
    identity_recipients(identities) matches Some(recipients) && recipients.len() > 0
}

/// The given lines, each with a newline behind it.
pub open spec fn lines(recipients: Seq<Seq<char>>) -> Seq<char>
    decreases recipients.len(),
{
    if recipients.len() == 0 {
        Seq::empty()
    } else {
        lines(recipients.drop_last()) + recipients.last() + seq!['\n']
    }
}

/// Calls `age::IdentityFile::write_recipients_file`.
///
/// Claimed: the recipients are written one to a line, in order. Without identities, or with
/// one of a plugin, there is an error. The error's text is in the operator's language, and
/// nothing is claimed of it.
#[verifier::external_body]
fn write_recipients_file(identities: &Identities) -> (r: Result<Vec<u8>, String>)
    ensures
        r is Ok <==> has_recipients(*identities),
        r matches Ok(bytes) ==> bytes@ == vstd::utf8::encode_utf8(
            lines(identity_recipients(*identities)->0),
        ),
{
    let mut recipients: Vec<u8> = vec![];
    match identities.file.write_recipients_file(&mut recipients) {
        Ok(_) => Ok(recipients),
        Err(e) => Err(e.to_string()),
    }
}

/// The error text that [`string_from_utf8`] gives for bytes that are not UTF-8.
pub uninterp spec fn utf8_error_text(bytes: Seq<u8>) -> Seq<char>;

/// Calls `String::from_utf8`.
///
/// Claimed: bytes that are valid UTF-8 give the string that they encode; other bytes give an
/// error, whose text depends on the bytes alone and is named [`utf8_error_text`].
#[verifier::external_body]
fn string_from_utf8(bytes: Vec<u8>) -> (r: Result<String, String>)
    ensures
        r is Ok <==> vstd::utf8::valid_utf8(bytes@),
        match r {
            Ok(text) => text@ == vstd::utf8::decode_utf8(bytes@),
            Err(reason) => reason@ == utf8_error_text(bytes@),
        },
{
    String::from_utf8(bytes).map_err(|e| e.to_string())
}

/// Where the identities come from.
#[derive(Clone, Debug, PartialEq, Eq)]
pub enum IdentitySource {
    /// The key store decrypted them.
    Decrypted,
    /// They are read from the file at this path.
    File(String),
}

/// Chooses where the identities come from: from the key store if it could decrypt them, else
/// from the configured file. The file's path is given twice: as it is, if it is text, and in a
/// form that can be shown.
pub fn identity_source(decrypted: bool, path: Option<&str>, shown_path: &str) -> (r: Result<
    IdentitySource,
    CommandError,
>)
    ensures
        match (decrypted, path) {
            (true, _) => r == Ok::<_, CommandError>(IdentitySource::Decrypted),
            (false, Some(path)) => r matches Ok(IdentitySource::File(file)) && file@ == path@,
            (false, None) => r matches Err(e) && e@ == error::command_error(
                ErrorKind::Init,
                error::localized_with("err-init-path-not-utf8"@, "path"@, shown_path@),
            ),
        },
{
    if decrypted {
        return Ok(IdentitySource::Decrypted);
    }
    match path {
        Some(path) => Ok(IdentitySource::File(path.to_owned())),
        None => Err(
            ErrorKind::Init.context(
                Message::localized_with("err-init-path-not-utf8", "path", shown_path),
            ),
        ),
    }
}

/// The text of the recipients file for the given identities: one line for each recipient.
///
/// Without identities, or with one of a plugin, there is an error, whose text is in the
/// operator's language.
pub fn recipients_text(identities: &Identities) -> (r: Result<String, CommandError>)
    ensures
        r is Ok <==> has_recipients(*identities),
        match r {
            Ok(text) => text@ == lines(identity_recipients(*identities)->0),
            Err(e) => e@.kind == ErrorKind::Generic && e@.message is Text,
        },
{
    proof {
        let written = lines(identity_recipients(*identities)->0);
        vstd::utf8::encode_utf8_valid_utf8(written);
        vstd::utf8::encode_utf8_decode_utf8(written);
    }
    written_text(write_recipients_file(identities))
}

/// Goes on with what came of writing the recipients file: its bytes have to be text.
pub fn written_text(written: Result<Vec<u8>, String>) -> (r: Result<String, CommandError>)
    ensures
        match written {
            Ok(bytes) => if vstd::utf8::valid_utf8(bytes@) {
                r matches Ok(text) && text@ == vstd::utf8::decode_utf8(bytes@)
            } else {
                r matches Err(e) && e@ == error::command_error(
                    ErrorKind::Generic,
                    error::MessageView::Text(utf8_error_text(bytes@)),
                )
            },
            Err(reason) => r matches Err(e) && e@ == error::command_error(
                ErrorKind::Generic,
                error::MessageView::Text(reason@),
            ),
        },
{
    match written {
        Ok(bytes) => match string_from_utf8(bytes) {
            Ok(text) => Ok(text),
            Err(reason) => Err(ErrorKind::Generic.context(Message::Text(reason))),
        },
        Err(reason) => Err(ErrorKind::Generic.context(Message::Text(reason))),
    }
}

/// The identity file was read, or could not be for the given reason.
pub fn identities_read(read: Result<Identities, String>) -> (r: Result<Identities, CommandError>)
    ensures
        match read {
            Ok(identities) => r matches Ok(own) && own == identities,
            Err(reason) => r matches Err(e) && e@ == error::command_text(
                ErrorKind::Generic,
                reason@,
            ),
        },
{
    ErrorKind::Generic.or_text(read)
}

/// The recipients were taken out of the recipients file, or could not be for the given reason:
/// they are the ones to store.
pub fn canonicalized(found: Result<Vec<String>, String>) -> (r: Result<Vec<String>, CommandError>)
    ensures
        match found {
            Ok(recipients) => r matches Ok(own) && own == recipients,
            Err(reason) => r matches Err(e) && e@ == error::command_text(
                ErrorKind::Generic,
                reason@,
            ),
        },
{
    ErrorKind::Generic.or_text(found)
}

} // verus!
