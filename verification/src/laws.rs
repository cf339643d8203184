//! What the operations of the library are for, stated of their inputs and results.
//!
//! Each law takes calls as they were made: `call_ensures(f, args, r)` says that the call of `f`
//! with the arguments `args` gave `r`. What the law then says follows from the contract of `f`.

use vstd::prelude::*;

use crate::error::{CommandError, ErrorKind, LegacyCode, Message, RpcError};

pub mod addresses;
pub mod balance;
pub mod import;
pub mod logs;
pub mod pir;
pub mod send;
pub mod sources;
pub mod startup;
pub mod texts;

verus! {

/// Whether a message is the given text.
pub open spec fn message_says(message: Message, text: Seq<char>) -> bool {
    message matches Message::Text(own) && own@ == text
}

/// Whether a message is the one with the given identifier in the catalogue, without arguments.
pub open spec fn message_names(message: Message, id: Seq<char>) -> bool {
    message matches Message::Localized { id: own, arg: None } && own@ == id
}

/// Whether a message is the one with the given identifier in the catalogue, with one argument.
pub open spec fn message_names_with(
    message: Message,
    id: Seq<char>,
    name: Seq<char>,
    value: Seq<char>,
) -> bool {
    message matches Message::Localized { id: own, arg: Some(arg) } && own@ == id && arg.name@
        == name && arg.value@ == value
}

/// Whether an answer is the error of the given class with the given text.
pub open spec fn rpc_says(error: RpcError, code: LegacyCode, text: Seq<char>) -> bool {
    error.code == code && message_says(error.message, text)
}

/// Whether a command ends with the error of the given class with the given text.
pub open spec fn command_says(error: CommandError, kind: ErrorKind, text: Seq<char>) -> bool {
    error.kind == kind && message_says(error.message, text)
}

/// An error keeps its class and its text.
pub proof fn errors_keep_their_class_and_text(
    code: LegacyCode,
    kind: ErrorKind,
    text: &str,
    message: Message,
    answer: RpcError,
    answer_with: RpcError,
    ending: CommandError,
)
    requires
        call_ensures(LegacyCode::with_text, (code, text), answer),
        call_ensures(LegacyCode::with_message, (code, message), answer_with),
        call_ensures(ErrorKind::context, (kind, message), ending),
    ensures
        rpc_says(answer, code, text@),
        answer_with.code == code,
        ending.kind == kind,
        forall|own: Seq<char>| #[trigger]
            message_says(message, own) ==> message_says(answer_with.message, own)
                && message_says(ending.message, own),
        forall|id: Seq<char>| #[trigger]
            message_names(message, id) ==> message_names(answer_with.message, id) && message_names(
                ending.message,
                id,
            ),
        forall|id: Seq<char>, name: Seq<char>, value: Seq<char>| #[trigger]
            message_names_with(message, id, name, value) ==> message_names_with(
                answer_with.message,
                id,
                name,
                value,
            ) && message_names_with(ending.message, id, name, value),
{
}

/// A failed call gives an error with its reason, a call that succeeded gives its value.
pub proof fn results_are_handed_on<T>(
    code: LegacyCode,
    kind: ErrorKind,
    result: Result<T, String>,
    answer: Result<T, RpcError>,
    ending: Result<T, CommandError>,
)
    requires
        call_ensures(LegacyCode::or_text::<T>, (code, result), answer),
        call_ensures(ErrorKind::or_text::<T>, (kind, result), ending),
    ensures
        result matches Ok(value) ==> answer == Ok::<T, RpcError>(value) && ending == Ok::<
            T,
            CommandError,
        >(value),
        result matches Err(reason) ==> (answer matches Err(e) && rpc_says(e, code, reason@)) && (
        ending matches Err(e) && command_says(e, kind, reason@)),
{
}

/// A message is what it was made of.
pub proof fn messages_say_what_they_are_made_of(
    text: &str,
    id: &'static str,
    name: &'static str,
    value: &str,
    as_text: Message,
    plain: Message,
    filled: Message,
)
    requires
        call_ensures(Message::text, (text,), as_text),
        call_ensures(Message::localized, (id,), plain),
        call_ensures(Message::localized_with, (id, name, value), filled),
    ensures
        message_says(as_text, text@),
        message_names(plain, id@),
        message_names_with(filled, id@, name@, value@),
{
}

} // verus!
