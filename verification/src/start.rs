//! `start`: brings the wallet up, and takes it down with the first task that ends.
//!
//! Startup runs as a chain of states. Each state has one method for the success of what it
//! waits for and one for its failure. A state owns the abort handles (of type `H`) of all tasks
//! spawned so far, and gives them up when startup fails, so that none of them is left running.

use vstd::prelude::*;
use vstd::string::*;

use crate::error;
use crate::error::{CommandError, ErrorKind, Message};
use crate::network::BlockHeight;

verus! {

/// Which of the config options that nothing reads are set.
#[derive(Clone, Copy, Debug, PartialEq, Eq)]
pub struct UnusedOptions {
    /// `builder.spend_zeroconf_change`
    pub spend_zeroconf_change: bool,
    /// `builder.tx_expiry_delta`
    pub tx_expiry_delta: bool,
    /// `external.export_dir`
    pub export_dir: bool,
    /// `external.notify`
    pub notify: bool,
}

/// The warning about an option, if it is set.
pub open spec fn warning_if(set: bool, option: Seq<char>) -> Seq<error::MessageView> {
    if set {
        seq![error::localized_with("warn-config-unused"@, "option"@, option)]
    } else {
        Seq::empty()
    }
}

impl UnusedOptions {
    /// The warnings about the options that are set.
    pub open spec fn warnings_view(self) -> Seq<error::MessageView> {
        warning_if(self.spend_zeroconf_change, "builder.spend_zeroconf_change"@) + warning_if(
            self.tx_expiry_delta,
            "builder.tx_expiry_delta"@,
        ) + warning_if(self.export_dir, "external.export_dir"@) + warning_if(
            self.notify,
            "external.notify"@,
        )
    }

    /// The warnings about the options that are set, in the order that they are given in.
    pub fn warnings(self) -> (r: Vec<Message>)
        ensures
            r@.map_values(|message: Message| message@) == self.warnings_view(),
    {
        let mut warnings: Vec<Message> = Vec::new();
        warn_if(&mut warnings, self.spend_zeroconf_change, "builder.spend_zeroconf_change");
        warn_if(&mut warnings, self.tx_expiry_delta, "builder.tx_expiry_delta");
        warn_if(&mut warnings, self.export_dir, "external.export_dir");
        warn_if(&mut warnings, self.notify, "external.notify");
        warnings
    }
}

/// Adds the warning about an option, if it is set.
fn warn_if(warnings: &mut Vec<Message>, set: bool, option: &str)
    ensures
        final(warnings)@.map_values(|message: Message| message@) == old(warnings)@.map_values(
            |message: Message| message@,
        ) + warning_if(set, option@),
{
    if set {
        warnings.push(Message::localized_with("warn-config-unused", "option", option));
    }
    proof {
        assert(warnings@.map_values(|message: Message| message@) =~= old(warnings)@.map_values(
            |message: Message| message@,
        ) + warning_if(set, option@));
    }
}

/// Owns cancellation for every task spawned by `start`.
#[derive(Debug)]
pub struct StartupTaskOwner<H> {
    abort_handles: Vec<H>,
}

impl<H> StartupTaskOwner<H> {
    /// The handles of all tasks, in the order that they were spawned in.
    pub closed spec fn handles(self) -> Seq<H> {
        self.abort_handles@
    }

    /// Owns the first task.
    pub fn new(first_task: H) -> (r: Self)
        ensures
            r.handles() == seq![first_task],
    {
        let mut abort_handles: Vec<H> = Vec::new();
        abort_handles.push(first_task);
        assert(abort_handles@ =~= seq![first_task]);
        StartupTaskOwner { abort_handles }
    }

    /// Owns one more task.
    pub fn include_task(&mut self, task: H)
        ensures
            final(self).handles() == old(self).handles().push(task),
    {
        self.abort_handles.push(task);
    }

    /// The handles of all tasks.
    pub fn abort_handles(&self) -> (r: &Vec<H>)
        ensures
            r@ == self.handles(),
    {
        &self.abort_handles
    }
}

/// A startup that failed.
#[derive(Debug)]
pub struct StartupFailure<H> {
    /// The owner of the tasks that are cancelled.
    pub cancelled: StartupTaskOwner<H>,
    /// The error that the command ends with.
    pub error: CommandError,
}

/// A startup whose chain backend is built and admitted: the consensus rules of the full node
/// are compared with those of the wallet.
pub struct BackendAdmitted<H> {
    owner: StartupTaskOwner<H>,
}

/// A startup whose full node follows rules that the wallet knows: the wallet database is
/// opened.
pub struct ConsensusCompatible<H> {
    owner: StartupTaskOwner<H>,
    shutdown_height: Option<BlockHeight>,
}

/// A startup whose wallet database is open: the witnesses of the last run are cleared.
pub struct DatabaseOpen<H> {
    owner: StartupTaskOwner<H>,
    shutdown_height: Option<BlockHeight>,
}

/// A startup without witnesses of the last run: the PIR shortcut is tried.
pub struct WitnessesCleared<H> {
    owner: StartupTaskOwner<H>,
    shutdown_height: Option<BlockHeight>,
}

/// A startup that opens the key store and spawns the RPC server.
pub struct WalletReady<H> {
    owner: StartupTaskOwner<H>,
    shutdown_height: Option<BlockHeight>,
}

/// A startup whose RPC server runs: the sync tasks are spawned.
pub struct RpcRunning<H> {
    owner: StartupTaskOwner<H>,
    shutdown_height: Option<BlockHeight>,
}

/// The sync tasks.
#[derive(Clone, Debug, PartialEq, Eq)]
pub struct SyncTasks<H> {
    pub steady_state: H,
    pub recover_history: H,
    pub batch_decryptor: H,
    pub data_requests: H,
}

/// The chain backend was built; its task is the first one.
pub fn backend_admitted<H>(chain_indexer: H) -> (r: BackendAdmitted<H>)
    ensures
        r.tasks() == seq![chain_indexer],
{
    BackendAdmitted { owner: StartupTaskOwner::new(chain_indexer) }
}

impl<H> BackendAdmitted<H> {
    pub closed spec fn tasks(self) -> Seq<H> {
        self.owner.handles()
    }

    /// The full node follows rules that the wallet knows, as far as the given height.
    pub fn compatible(self, shutdown_height: Option<BlockHeight>) -> (r: ConsensusCompatible<H>)
        ensures
            r.tasks() == self.tasks(),
            r.shutdown_height() == shutdown_height,
    {
        ConsensusCompatible { owner: self.owner, shutdown_height }
    }

    /// The full node follows rules that the wallet does not know, or cannot be asked.
    pub fn failed(self, error: CommandError) -> (r: StartupFailure<H>)
        ensures
            r.cancelled.handles() == self.tasks(),
            r.error == error,
    {
        StartupFailure { cancelled: self.owner, error }
    }
}

impl<H> ConsensusCompatible<H> {
    pub closed spec fn tasks(self) -> Seq<H> {
        self.owner.handles()
    }

    pub closed spec fn shutdown_height(self) -> Option<BlockHeight> {
        self.shutdown_height
    }

    /// The wallet database was opened.
    pub fn database_opened(self) -> (r: DatabaseOpen<H>)
        ensures
            r.tasks() == self.tasks(),
            r.shutdown_height() == self.shutdown_height(),
    {
        DatabaseOpen { owner: self.owner, shutdown_height: self.shutdown_height }
    }

    /// The wallet database cannot be opened.
    pub fn failed(self, error: CommandError) -> (r: StartupFailure<H>)
        ensures
            r.cancelled.handles() == self.tasks(),
            r.error == error,
    {
        StartupFailure { cancelled: self.owner, error }
    }
}

impl<H> DatabaseOpen<H> {
    pub closed spec fn tasks(self) -> Seq<H> {
        self.owner.handles()
    }

    pub closed spec fn shutdown_height(self) -> Option<BlockHeight> {
        self.shutdown_height
    }

    /// The witnesses of the last run were cleared, or could not be for the given reason.
    pub fn witnesses_cleared(self, cleared: Result<(), String>) -> (r: Result<
        WitnessesCleared<H>,
        StartupFailure<H>,
    >)
        ensures
            match cleared {
                Ok(_) => r matches Ok(next) && next.tasks() == self.tasks()
                    && next.shutdown_height() == self.shutdown_height(),
                Err(reason) => r matches Err(failure) && failure.cancelled.handles() == self.tasks()
                    && failure.error@ == error::command_error(
                    ErrorKind::Init,
                    error::MessageView::Text("failed to disable stale PIR state: "@ + reason@),
                ),
            },
    {
        match cleared {
            Ok(_) => Ok(
                WitnessesCleared { owner: self.owner, shutdown_height: self.shutdown_height },
            ),
            Err(reason) => {
                let mut message = "failed to disable stale PIR state: ".to_owned();
                message.append(reason.as_str());
                Err(self.failed(ErrorKind::Init.context(Message::Text(message))))
            },
        }
    }

    /// The wallet database cannot be used.
    pub fn failed(self, error: CommandError) -> (r: StartupFailure<H>)
        ensures
            r.cancelled.handles() == self.tasks(),
            r.error == error,
    {
        StartupFailure { cancelled: self.owner, error }
    }
}

impl<H> WitnessesCleared<H> {
    pub closed spec fn tasks(self) -> Seq<H> {
        self.owner.handles()
    }

    pub closed spec fn shutdown_height(self) -> Option<BlockHeight> {
        self.shutdown_height
    }

    /// The PIR shortcut was tried. Whatever came of it, startup goes on; if it failed the
    /// operator is warned.
    pub fn shortcut_tried(self, shortcut: &Result<(), String>) -> (r: (
        WalletReady<H>,
        Option<&'static str>,
    ))
        ensures
            r.0.tasks() == self.tasks(),
            r.0.shutdown_height() == self.shutdown_height(),
            r.1 is Some <==> *shortcut is Err,
            r.1 matches Some(warning) ==> warning@
                == "PIR shortcut unavailable; continuing with ordinary sync"@,
    {
        let warning = match shortcut {
            Ok(_) => None,
            Err(_) => Some("PIR shortcut unavailable; continuing with ordinary sync"),
        };
        (WalletReady { owner: self.owner, shutdown_height: self.shutdown_height }, warning)
    }
}

impl<H> WalletReady<H> {
    pub closed spec fn tasks(self) -> Seq<H> {
        self.owner.handles()
    }

    pub closed spec fn shutdown_height(self) -> Option<BlockHeight> {
        self.shutdown_height
    }

    /// The RPC server was spawned.
    pub fn rpc_spawned(self, rpc: H) -> (r: RpcRunning<H>)
        ensures
            r.tasks() == self.tasks().push(rpc),
            r.shutdown_height() == self.shutdown_height(),
    {
        let mut owner = self.owner;
        owner.include_task(rpc);
        RpcRunning { owner, shutdown_height: self.shutdown_height }
    }

    /// The key store cannot be opened, or the RPC server cannot be spawned.
    pub fn failed(self, error: CommandError) -> (r: StartupFailure<H>)
        ensures
            r.cancelled.handles() == self.tasks(),
            r.error == error,
    {
        StartupFailure { cancelled: self.owner, error }
    }
}

impl<H> RpcRunning<H> {
    pub closed spec fn tasks(self) -> Seq<H> {
        self.owner.handles()
    }

    pub closed spec fn shutdown_height(self) -> Option<BlockHeight> {
        self.shutdown_height
    }

    /// The height at which to shut down, before rules that the wallet does not know apply.
    pub fn shut_down_at(&self) -> (r: Option<BlockHeight>)
        ensures
            r == self.shutdown_height(),
    {
        self.shutdown_height
    }

    /// The sync tasks were spawned: from now on all tasks are supervised.
    pub fn sync_spawned(self, sync: SyncTasks<H>) -> (r: StartupTaskOwner<H>)
        ensures
            r.handles() == self.tasks() + seq![
                sync.steady_state,
                sync.recover_history,
                sync.batch_decryptor,
                sync.data_requests,
            ],
    {
        let ghost tasks = self.tasks();
        let ghost all = sync;
        let mut owner = self.owner;
        owner.include_task(sync.steady_state);
        owner.include_task(sync.recover_history);
        owner.include_task(sync.batch_decryptor);
        owner.include_task(sync.data_requests);
        assert(owner.handles() =~= tasks + seq![
            all.steady_state,
            all.recover_history,
            all.batch_decryptor,
            all.data_requests,
        ]);
        owner
    }

    /// The sync tasks cannot be spawned.
    pub fn failed(self, error: CommandError) -> (r: StartupFailure<H>)
        ensures
            r.cancelled.handles() == self.tasks(),
            r.error == error,
    {
        StartupFailure { cancelled: self.owner, error }
    }
}

/// The supervised tasks. None of them is meant to end.
#[derive(Clone, Copy, Debug, PartialEq, Eq, Structural)]
pub enum Task {
    ChainIndexer,
    Rpc,
    SteadyState,
    RecoverHistory,
    BatchDecryptor,
    DataRequests,
}

/// The line that is logged when a task ends.
pub open spec fn exit_text(task: Task) -> Seq<char> {
    match task {
        Task::ChainIndexer => "Chain indexer task exited"@,
        Task::Rpc => "RPC task exited"@,
        Task::SteadyState => "Wallet steady-state sync task exited"@,
        Task::RecoverHistory => "Wallet recover-history sync task exited"@,
        Task::BatchDecryptor => "Wallet batch decryptor task exited"@,
        Task::DataRequests => "Wallet data-requests sync task exited"@,
    }
}

/// What the wallet panics with when a task panicked.
pub open spec fn panic_text(task: Task) -> Seq<char> {
    match task {
        Task::ChainIndexer => "unexpected panic in the chain indexer task"@,
        Task::Rpc => "unexpected panic in the RPC task"@,
        Task::SteadyState => "unexpected panic in the wallet steady-state sync task"@,
        Task::RecoverHistory => "unexpected panic in the wallet recover-history sync task"@,
        Task::BatchDecryptor => "unexpected panic in the wallet batch decryptor task"@,
        Task::DataRequests => "unexpected panic in the wallet data-requests sync task"@,
    }
}

impl Task {
    /// The line that is logged when the task ends.
    pub fn exit_message(self) -> (r: &'static str)
        ensures
            r@ == exit_text(self),
    {
        match self {
            Task::ChainIndexer => "Chain indexer task exited",
            Task::Rpc => "RPC task exited",
            Task::SteadyState => "Wallet steady-state sync task exited",
            Task::RecoverHistory => "Wallet recover-history sync task exited",
            Task::BatchDecryptor => "Wallet batch decryptor task exited",
            Task::DataRequests => "Wallet data-requests sync task exited",
        }
    }

    /// What the wallet panics with when the task panicked.
    pub fn panic_message(self) -> (r: &'static str)
        ensures
            r@ == panic_text(self),
    {
        match self {
            Task::ChainIndexer => "unexpected panic in the chain indexer task",
            Task::Rpc => "unexpected panic in the RPC task",
            Task::SteadyState => "unexpected panic in the wallet steady-state sync task",
            Task::RecoverHistory => "unexpected panic in the wallet recover-history sync task",
            Task::BatchDecryptor => "unexpected panic in the wallet batch decryptor task",
            Task::DataRequests => "unexpected panic in the wallet data-requests sync task",
        }
    }
}

/// How a supervised task ended.
#[derive(Debug, PartialEq, Eq)]
pub enum TaskExit<E> {
    /// The task returned.
    Returned(Result<(), E>),
    /// The task panicked.
    Panicked,
}

/// What follows on the end of the first task.
#[derive(Debug)]
pub struct Shutdown<H, E> {
    /// The owner of the tasks that are cancelled.
    pub cancelled: StartupTaskOwner<H>,
    /// How the wallet ends.
    pub ending: Ending<E>,
}

/// How the wallet ends.
#[derive(Debug, PartialEq, Eq)]
pub enum Ending<E> {
    /// The line is logged, and the result is that of the command.
    Result { logged: &'static str, result: Result<(), E> },
    /// The wallet panics.
    Panic(&'static str),
}

/// The first of the tasks ended: all tasks are cancelled, and the wallet ends as that task did.
pub fn supervise_zallet_tasks<H, E>(
    owner: StartupTaskOwner<H>,
    first: Task,
    exit: TaskExit<E>,
) -> (r: Shutdown<H, E>)
    ensures
        r.cancelled.handles() == owner.handles(),
        match exit {
            TaskExit::Returned(result) => r.ending matches Ending::Result { logged, result: own }
                && logged@ == exit_text(first) && own == result,
            TaskExit::Panicked => r.ending matches Ending::Panic(message) && message@
                == panic_text(first),
        },
{
    let ending = match exit {
        TaskExit::Returned(result) => Ending::Result { logged: first.exit_message(), result },
        TaskExit::Panicked => Ending::Panic(first.panic_message()),
    };
    Shutdown { cancelled: owner, ending }
}

} // verus!
