//! The errors that methods and commands answer with, and the messages they carry.

use vstd::prelude::*;
use vstd::string::*;

verus! {

/// The value filled into a localized message.
#[derive(Clone, Debug, PartialEq, Eq)]
pub struct Argument {
    pub name: &'static str,
    pub value: String,
}

/// A message for the operator or the caller.
#[derive(Clone, Debug, PartialEq, Eq)]
pub enum Message {
    /// A text shown as it is.
    Text(String),
    /// A text looked up in the message catalogue of the operator's language.
    Localized { id: &'static str, arg: Option<Argument> },
}

/// What a [`Message`] says.
pub ghost enum MessageView {
    Text(Seq<char>),
    Localized { id: Seq<char>, arg: Option<(Seq<char>, Seq<char>)> },
}

impl View for Message {
    type V = MessageView;

    open spec fn view(&self) -> MessageView {
        match *self {
            Message::Text(text) => MessageView::Text(text@),
            Message::Localized { id, arg } => MessageView::Localized {
                id: id@,
                arg: match arg {
                    Some(a) => Some((a.name@, a.value@)),
                    None => None,
                },
            },
        }
    }
}

/// A catalogue message without arguments.
pub open spec fn localized(id: Seq<char>) -> MessageView {
    MessageView::Localized { id, arg: None }
}

/// A catalogue message with one argument.
pub open spec fn localized_with(id: Seq<char>, name: Seq<char>, value: Seq<char>) -> MessageView {
    MessageView::Localized { id, arg: Some((name, value)) }
}

impl Message {
    /// A text shown as it is.
    pub fn text(text: &str) -> (r: Self)
        ensures
            r@ == MessageView::Text(text@),
    {
        Message::Text(text.to_owned())
    }

    /// A catalogue message without arguments.
    pub fn localized(id: &'static str) -> (r: Self)
        ensures
            r@ == localized(id@),
    {
        Message::Localized { id, arg: None }
    }

    /// A catalogue message with one argument.
    pub fn localized_with(id: &'static str, name: &'static str, value: &str) -> (r: Self)
        ensures
            r@ == localized_with(id@, name@, value@),
    {
        Message::Localized { id, arg: Some(Argument { name, value: value.to_owned() }) }
    }
}

/// The error classes of the JSON-RPC interface.
#[derive(Clone, Copy, Debug, PartialEq, Eq, Structural)]
pub enum LegacyCode {
    Misc,
    Wallet,
    WalletUnlockNeeded,
    InvalidParameter,
    InvalidAddressOrKey,
    Database,
}

/// An error answered to a JSON-RPC call.
#[derive(Clone, Debug, PartialEq, Eq)]
pub struct RpcError {
    pub code: LegacyCode,
    pub message: Message,
}

/// What an [`RpcError`] says.
pub ghost struct RpcErrorView {
    pub code: LegacyCode,
    pub message: MessageView,
}

impl View for RpcError {
    type V = RpcErrorView;

    open spec fn view(&self) -> RpcErrorView {
        RpcErrorView { code: self.code, message: self.message@ }
    }
}

/// The error of class `code` whose message is `text`.
pub open spec fn rpc_text(code: LegacyCode, text: Seq<char>) -> RpcErrorView {
    RpcErrorView { code, message: MessageView::Text(text) }
}

/// The error of class `code` with the given message.
pub open spec fn rpc_error(code: LegacyCode, message: MessageView) -> RpcErrorView {
    RpcErrorView { code, message }
}

impl LegacyCode {
    /// The error of this class with the given message.
    pub fn with_message(self, message: Message) -> (r: RpcError)
        ensures
            r@ == rpc_error(self, message@),
    {
        RpcError { code: self, message }
    }

    /// The error of this class with the given text.
    pub fn with_text(self, text: &str) -> (r: RpcError)
        ensures
            r@ == rpc_text(self, text@),
    {
        RpcError { code: self, message: Message::text(text) }
    }
}

impl LegacyCode {
    /// The result of a call; where it failed, the error of this class with the reason.
    pub fn or_text<T>(self, result: Result<T, String>) -> (r: Result<T, RpcError>)
        ensures
            match result {
                Ok(value) => r matches Ok(own) && own == value,
                Err(reason) => r matches Err(e) && e@ == rpc_text(self, reason@),
            },
    {
        match result {
            Ok(value) => Ok(value),
            Err(reason) => Err(self.with_text(reason.as_str())),
        }
    }
}

/// The error classes of commands.
#[derive(Clone, Copy, Debug, PartialEq, Eq, Structural)]
pub enum ErrorKind {
    Generic,
    Init,
    Chain,
}

/// The error a command ends with.
#[derive(Clone, Debug, PartialEq, Eq)]
pub struct CommandError {
    pub kind: ErrorKind,
    pub message: Message,
}

/// What a [`CommandError`] says.
pub ghost struct CommandErrorView {
    pub kind: ErrorKind,
    pub message: MessageView,
}

impl View for CommandError {
    type V = CommandErrorView;

    open spec fn view(&self) -> CommandErrorView {
        CommandErrorView { kind: self.kind, message: self.message@ }
    }
}

/// The command error of class `kind` with the given message.
pub open spec fn command_error(kind: ErrorKind, message: MessageView) -> CommandErrorView {
    CommandErrorView { kind, message }
}

/// The command error of class `kind` whose message is `text`.
pub open spec fn command_text(kind: ErrorKind, text: Seq<char>) -> CommandErrorView {
    CommandErrorView { kind, message: MessageView::Text(text) }
}

impl ErrorKind {
    /// The result of a call; where it failed, the error of this class with the reason.
    pub fn or_text<T>(self, result: Result<T, String>) -> (r: Result<T, CommandError>)
        ensures
            match result {
                Ok(value) => r matches Ok(own) && own == value,
                Err(reason) => r matches Err(e) && e@ == command_text(self, reason@),
            },
    {
        match result {
            Ok(value) => Ok(value),
            Err(reason) => Err(self.context(Message::Text(reason))),
        }
    }

    /// The error of this class with the given message.
    pub fn context(self, message: Message) -> (r: CommandError)
        ensures
            r@ == command_error(self, message@),
    {
        CommandError { kind: self, message }
    }
}

} // verus!
