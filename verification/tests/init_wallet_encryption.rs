use zallet_core::error::{CommandError, ErrorKind, Message};
use zallet_core::init_wallet_encryption::{
    canonicalized, identities_read, identity_source, recipients_text, written_text, Identities,
    IdentitySource,
};

fn identities(text: &str) -> Identities {
    Identities { file: age::IdentityFile::from_buffer(text.as_bytes()).unwrap() }
}

#[test]
fn identities_come_from_the_key_store_or_the_file() {
    assert_eq!(
        identity_source(true, Some("id.txt"), "id.txt"),
        Ok(IdentitySource::Decrypted)
    );
    assert_eq!(identity_source(true, None, "?"), Ok(IdentitySource::Decrypted));
    assert_eq!(
        identity_source(false, Some("id.txt"), "id.txt"),
        Ok(IdentitySource::File("id.txt".to_string()))
    );
    assert_eq!(
        identity_source(false, None, "id-\u{fffd}.txt"),
        Err(CommandError {
            kind: ErrorKind::Init,
            message: Message::localized_with("err-init-path-not-utf8", "path", "id-\u{fffd}.txt"),
        })
    );
}

#[test]
fn recipients_are_written_one_to_a_line() {
    let first = age::x25519::Identity::generate();
    let second = age::x25519::Identity::generate();
    let secret = |identity: &age::x25519::Identity| {
        age::secrecy::ExposeSecret::expose_secret(&identity.to_string()).to_string()
    };
    let file = format!("# two identities\n\n{}\n{}\n", secret(&first), secret(&second));
    assert_eq!(
        recipients_text(&identities(&file)),
        Ok(format!("{}\n{}\n", first.to_public(), second.to_public()))
    );
}

#[test]
fn a_file_without_identities_has_no_recipients() {
    let error = recipients_text(&identities("# nothing here\n")).unwrap_err();
    assert_eq!(error.kind, ErrorKind::Generic);
    assert!(matches!(error.message, Message::Text(text) if !text.is_empty()));
}

#[test]
fn what_is_written_has_to_be_text() {
    assert_eq!(written_text(Ok(b"age1\n".to_vec())), Ok("age1\n".to_string()));
    let reason = String::from_utf8(vec![0xff]).unwrap_err().to_string();
    assert_eq!(
        written_text(Ok(vec![0xff])),
        Err(CommandError { kind: ErrorKind::Generic, message: Message::Text(reason) })
    );
    assert_eq!(
        written_text(Err("disk full".to_string())),
        Err(CommandError { kind: ErrorKind::Generic, message: Message::text("disk full") })
    );
}

#[test]
fn failed_calls_have_the_generic_class() {
    let failed = || CommandError { kind: ErrorKind::Generic, message: Message::text("no") };
    assert_eq!(identities_read(Err("no".to_string())).err(), Some(failed()));
    let read = identities_read(Ok(identities("# nothing here\n")));
    assert!(read.is_ok_and(|identities| recipients_text(&identities).is_err()));
    assert_eq!(canonicalized(Err("no".to_string())), Err(failed()));
    assert_eq!(
        canonicalized(Ok(vec!["age1x".to_string()])),
        Ok(vec!["age1x".to_string()])
    );
}
