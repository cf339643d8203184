use std::sync::mpsc;
use std::time::Duration;

use tokio::runtime::Runtime;
use tokio::task::{AbortHandle, JoinHandle};
use zallet_core::error::{CommandError, ErrorKind, Message};
use zallet_core::start::{
    backend_admitted, supervise_zallet_tasks, Ending, RpcRunning, StartupTaskOwner, SyncTasks,
    Task, TaskExit, UnusedOptions,
};

const SUPERVISED_TASK_FAILURE: &str = "supervised task failed";

struct TaskCancellationProbe(mpsc::Sender<()>);

impl Drop for TaskCancellationProbe {
    fn drop(&mut self) {
        let _ = self.0.send(());
    }
}

/// Spawns a task that never ends, and a receiver that learns of its cancellation.
fn observed_pending_task(runtime: &Runtime) -> (JoinHandle<()>, mpsc::Receiver<()>) {
    let (task_cancelled, task_cancelled_receiver) = mpsc::channel();
    let (task_started, task_started_receiver) = mpsc::channel();
    let task = runtime.spawn(async move {
        let _cancellation_probe = TaskCancellationProbe(task_cancelled);
        let _ = task_started.send(());
        std::future::pending::<()>().await
    });
    task_started_receiver.recv().expect("cancellation-observed task starts");
    (task, task_cancelled_receiver)
}

fn cancel(owner: &StartupTaskOwner<AbortHandle>) {
    for handle in owner.abort_handles() {
        handle.abort();
    }
}

fn assert_task_cancelled(task_cancelled: mpsc::Receiver<()>) {
    task_cancelled
        .recv_timeout(Duration::from_secs(1))
        .expect("pre-supervision task is cancelled");
}

fn error(kind: ErrorKind, text: &str) -> CommandError {
    kind.context(Message::text(text))
}

fn rpc_running() -> RpcRunning<u8> {
    backend_admitted(1)
        .compatible(Some(500.into()))
        .database_opened()
        .witnesses_cleared(Ok(()))
        .ok()
        .unwrap()
        .shortcut_tried(&Ok(()))
        .0
        .rpc_spawned(2)
}

fn sync_tasks() -> SyncTasks<u8> {
    SyncTasks { steady_state: 3, recover_history: 4, batch_decryptor: 5, data_requests: 6 }
}

#[test]
fn a_consensus_rejection_cancels_the_backend_task() {
    let runtime = Runtime::new().unwrap();
    let (chain_task, chain_cancelled) = observed_pending_task(&runtime);

    let failure = backend_admitted(chain_task.abort_handle())
        .failed(error(ErrorKind::Init, "consensus incompatibility"));

    assert_eq!(failure.error, error(ErrorKind::Init, "consensus incompatibility"));
    cancel(&failure.cancelled);
    assert_task_cancelled(chain_cancelled);
}

#[test]
fn wallet_sync_initialization_error_cancels_chain_and_rpc_tasks() {
    let runtime = Runtime::new().unwrap();
    let (chain_task, chain_cancelled) = observed_pending_task(&runtime);
    let (rpc_task, rpc_cancelled) = observed_pending_task(&runtime);

    let mut task_owner = StartupTaskOwner::new(chain_task.abort_handle());
    task_owner.include_task(rpc_task.abort_handle());
    cancel(&task_owner);

    assert_task_cancelled(chain_cancelled);
    assert_task_cancelled(rpc_cancelled);
}

#[test]
fn task_supervision_propagates_the_selected_task_error() {
    let runtime = Runtime::new().unwrap();
    let chain_task = runtime.spawn(async {
        Err::<(), CommandError>(error(ErrorKind::Generic, SUPERVISED_TASK_FAILURE))
    });
    let others: Vec<_> = (0..5).map(|_| observed_pending_task(&runtime)).collect();

    let mut task_owner = StartupTaskOwner::new(chain_task.abort_handle());
    for (task, _) in &others {
        task_owner.include_task(task.abort_handle());
    }
    let exit = TaskExit::Returned(runtime.block_on(chain_task).unwrap());
    let shutdown = supervise_zallet_tasks(task_owner, Task::ChainIndexer, exit);

    assert_eq!(
        shutdown.ending,
        Ending::Result {
            logged: "Chain indexer task exited",
            result: Err(error(ErrorKind::Generic, SUPERVISED_TASK_FAILURE)),
        }
    );
    cancel(&shutdown.cancelled);
    for (_, cancelled) in others {
        assert_task_cancelled(cancelled);
    }
}

#[test]
fn every_task_is_owned_in_the_order_of_spawning() {
    let running = rpc_running();
    assert_eq!(running.shut_down_at(), Some(500.into()));
    let owner = running.sync_spawned(sync_tasks());
    assert_eq!(*owner.abort_handles(), vec![1, 2, 3, 4, 5, 6]);
}

#[test]
fn a_failure_cancels_the_tasks_spawned_so_far() {
    let failed = || error(ErrorKind::Init, "no");
    let compatible = || backend_admitted(1).compatible(None);
    let failure = compatible().failed(failed());
    assert_eq!(*failure.cancelled.abort_handles(), vec![1]);
    assert_eq!(failure.error, failed());
    let failure = compatible().database_opened().failed(failed());
    assert_eq!(*failure.cancelled.abort_handles(), vec![1]);
    let cleared = compatible().database_opened().witnesses_cleared(Ok(())).ok().unwrap();
    let failure = cleared.shortcut_tried(&Ok(())).0.failed(failed());
    assert_eq!(*failure.cancelled.abort_handles(), vec![1]);
    let failure = rpc_running().failed(failed());
    assert_eq!(*failure.cancelled.abort_handles(), vec![1, 2]);
}

#[test]
fn witnesses_that_cannot_be_cleared_end_startup() {
    let open = backend_admitted(1).compatible(None).database_opened();
    let Err(failure) = open.witnesses_cleared(Err("disk full".to_string())) else {
        panic!("stale witnesses are not acceptable");
    };
    assert_eq!(
        failure.error,
        error(ErrorKind::Init, "failed to disable stale PIR state: disk full")
    );
    assert_eq!(*failure.cancelled.abort_handles(), vec![1]);
}

#[test]
fn a_failed_shortcut_does_not_end_startup() {
    let cleared = || {
        backend_admitted(1)
            .compatible(None)
            .database_opened()
            .witnesses_cleared(Ok(()))
            .ok()
            .unwrap()
    };
    assert_eq!(cleared().shortcut_tried(&Ok(())).1, None);
    let (ready, warning) = cleared().shortcut_tried(&Err("PIR startup timed out".to_string()));
    assert_eq!(warning, Some("PIR shortcut unavailable; continuing with ordinary sync"));
    let owner = ready.rpc_spawned(2).sync_spawned(sync_tasks());
    assert_eq!(owner.abort_handles().len(), 6);
}

#[test]
fn the_first_exit_decides_how_the_wallet_ends() {
    let owner = || rpc_running().sync_spawned(sync_tasks());
    let endings = [
        (Task::ChainIndexer, "Chain indexer task exited", "the chain indexer task"),
        (Task::Rpc, "RPC task exited", "the RPC task"),
        (
            Task::SteadyState,
            "Wallet steady-state sync task exited",
            "the wallet steady-state sync task",
        ),
        (
            Task::RecoverHistory,
            "Wallet recover-history sync task exited",
            "the wallet recover-history sync task",
        ),
        (
            Task::BatchDecryptor,
            "Wallet batch decryptor task exited",
            "the wallet batch decryptor task",
        ),
        (
            Task::DataRequests,
            "Wallet data-requests sync task exited",
            "the wallet data-requests sync task",
        ),
    ];
    for (task, logged, name) in endings {
        let ended = supervise_zallet_tasks(owner(), task, TaskExit::<u8>::Returned(Ok(())));
        assert_eq!(ended.ending, Ending::Result { logged, result: Ok(()) });
        assert_eq!(*ended.cancelled.abort_handles(), vec![1, 2, 3, 4, 5, 6]);
        match supervise_zallet_tasks(owner(), task, TaskExit::<u8>::Panicked).ending {
            Ending::Panic(message) => {
                assert_eq!(message, format!("unexpected panic in {name}"));
            }
            Ending::Result { .. } => panic!("the task panicked"),
        }
    }
}

#[test]
fn unused_options_are_warned_about_in_order() {
    let warning =
        |option: &str| Message::localized_with("warn-config-unused", "option", option);
    let none = UnusedOptions {
        spend_zeroconf_change: false,
        tx_expiry_delta: false,
        export_dir: false,
        notify: false,
    };
    assert_eq!(none.warnings(), vec![]);
    let some = UnusedOptions { tx_expiry_delta: true, notify: true, ..none };
    assert_eq!(
        some.warnings(),
        vec![warning("builder.tx_expiry_delta"), warning("external.notify")]
    );
    let all = UnusedOptions { spend_zeroconf_change: true, export_dir: true, ..some };
    assert_eq!(
        all.warnings(),
        vec![
            warning("builder.spend_zeroconf_change"),
            warning("builder.tx_expiry_delta"),
            warning("external.export_dir"),
            warning("external.notify"),
        ]
    );
}

/// A task that is aborted when its handle is dropped.
struct AbortOnDrop(AbortHandle);

impl Drop for AbortOnDrop {
    fn drop(&mut self) {
        self.0.abort();
    }
}

#[test]
fn dropping_the_owner_stops_every_task() {
    let runtime = Runtime::new().unwrap();
    let tasks: Vec<_> = (0..6).map(|_| observed_pending_task(&runtime)).collect();
    let handle = |i: usize| AbortOnDrop(tasks[i].0.abort_handle());
    let owner = backend_admitted(handle(0))
        .compatible(None)
        .database_opened()
        .witnesses_cleared(Ok(()))
        .ok()
        .unwrap()
        .shortcut_tried(&Ok(()))
        .0
        .rpc_spawned(handle(1))
        .sync_spawned(SyncTasks {
            steady_state: handle(2),
            recover_history: handle(3),
            batch_decryptor: handle(4),
            data_requests: handle(5),
        });
    drop(owner);
    for (_, cancelled) in tasks {
        assert_task_cancelled(cancelled);
    }
}
