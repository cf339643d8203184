//! Laws of `start`, `repair check-witnesses` and `init-wallet-encryption`.

use vstd::prelude::*;

use crate::check_witnesses;
use crate::check_witnesses::{
    check_witnesses as decide, ranges_found, ranges_queued, report, HeightRange, RescanStep,
    ScanPriority,
};
use crate::error::{CommandError, ErrorKind, Message};
use crate::init_wallet_encryption;
use crate::init_wallet_encryption::{
    canonicalized, identities_read, identity_source, recipients_text, written_text, Identities,
    IdentitySource,
};
use crate::laws;
use crate::network::BlockHeight;
use crate::start::{
    backend_admitted, supervise_zallet_tasks, BackendAdmitted, ConsensusCompatible, DatabaseOpen,
    Ending, RpcRunning, Shutdown, StartupFailure, StartupTaskOwner, SyncTasks, Task, TaskExit,
    UnusedOptions, WalletReady, WitnessesCleared,
};
use crate::text;

verus! {

/// A startup from its first task to its last.
pub ghost struct Startup<H> {
    pub indexer: H,
    pub rpc: H,
    pub sync: SyncTasks<H>,
    pub shutdown_height: Option<BlockHeight>,
    pub shortcut: Result<(), String>,
    pub warning: Option<&'static str>,
    pub admitted: BackendAdmitted<H>,
    pub compatible: ConsensusCompatible<H>,
    pub open: DatabaseOpen<H>,
    pub cleared: WitnessesCleared<H>,
    pub ready: WalletReady<H>,
    pub running: RpcRunning<H>,
    pub owner: StartupTaskOwner<H>,
}

impl<H> Startup<H> {
    /// Whether the calls were made, each with what the one before gave.
    pub open spec fn made(self) -> bool {
        &&& call_ensures(backend_admitted::<H>, (self.indexer,), self.admitted)
        &&& call_ensures(
            BackendAdmitted::<H>::compatible,
            (self.admitted, self.shutdown_height),
            self.compatible,
        )
        &&& call_ensures(ConsensusCompatible::<H>::database_opened, (self.compatible,), self.open)
        &&& call_ensures(
            DatabaseOpen::<H>::witnesses_cleared,
            (self.open, Ok::<(), String>(())),
            Ok::<WitnessesCleared<H>, StartupFailure<H>>(self.cleared),
        )
        &&& call_ensures(
            WitnessesCleared::<H>::shortcut_tried,
            (self.cleared, &self.shortcut),
            (self.ready, self.warning),
        )
        &&& call_ensures(WalletReady::<H>::rpc_spawned, (self.ready, self.rpc), self.running)
        &&& call_ensures(RpcRunning::<H>::sync_spawned, (self.running, self.sync), self.owner)
    }
}

/// Every task that was spawned is owned in the end, in the order of spawning, and the wallet
/// shuts down at the height that the comparison of consensus rules gave. A shortcut that fails
/// does not end startup; the operator is warned then, and only then.
pub proof fn every_spawned_task_is_owned<H>(
    startup: Startup<H>,
    handles: &Vec<H>,
    shut_down_at: Option<BlockHeight>,
)
    requires
        startup.made(),
        call_ensures(StartupTaskOwner::<H>::abort_handles, (&startup.owner,), handles),
        call_ensures(RpcRunning::<H>::shut_down_at, (&startup.running,), shut_down_at),
    ensures
        handles@.len() == 6,
        handles@[0] == startup.indexer,
        handles@[1] == startup.rpc,
        handles@[2] == startup.sync.steady_state,
        handles@[3] == startup.sync.recover_history,
        handles@[4] == startup.sync.batch_decryptor,
        handles@[5] == startup.sync.data_requests,
        shut_down_at == startup.shutdown_height,
        startup.warning is Some <==> startup.shortcut is Err,
        startup.warning matches Some(text) ==> text@
            == "PIR shortcut unavailable; continuing with ordinary sync"@,
{
}

/// An owner keeps all of its tasks, and owns the next one behind them.
pub proof fn owners_keep_their_tasks<H>(
    first: H,
    new: StartupTaskOwner<H>,
    owner: &mut StartupTaskOwner<H>,
    task: H,
    i: int,
)
    requires
        call_ensures(StartupTaskOwner::<H>::new, (first,), new),
        call_ensures(StartupTaskOwner::<H>::include_task, (owner, task), ()),
    ensures
        new.handles() == seq![first],
        final(owner).handles().len() == old(owner).handles().len() + 1,
        final(owner).handles().last() == task,
        0 <= i < old(owner).handles().len() ==> final(owner).handles()[i]
            == old(owner).handles()[i],
{
}

/// A startup that fails cancels exactly the tasks that were spawned so far, whichever step
/// failed, and ends with the error of that step.
pub proof fn failed_startups_leave_no_task_running<H>(
    startup: Startup<H>,
    error: CommandError,
    reason: String,
    at_consensus: StartupFailure<H>,
    at_database: StartupFailure<H>,
    at_handle: StartupFailure<H>,
    at_witnesses: Result<WitnessesCleared<H>, StartupFailure<H>>,
    at_rpc: StartupFailure<H>,
    at_sync: StartupFailure<H>,
)
    requires
        startup.made(),
        call_ensures(BackendAdmitted::<H>::failed, (startup.admitted, error), at_consensus),
        call_ensures(ConsensusCompatible::<H>::failed, (startup.compatible, error), at_database),
        call_ensures(DatabaseOpen::<H>::failed, (startup.open, error), at_handle),
        call_ensures(
            DatabaseOpen::<H>::witnesses_cleared,
            (startup.open, Err::<(), String>(reason)),
            at_witnesses,
        ),
        call_ensures(WalletReady::<H>::failed, (startup.ready, error), at_rpc),
        call_ensures(RpcRunning::<H>::failed, (startup.running, error), at_sync),
    ensures
        at_consensus.cancelled.handles() == seq![startup.indexer],
        at_database.cancelled.handles() == seq![startup.indexer],
        at_handle.cancelled.handles() == seq![startup.indexer],
        at_rpc.cancelled.handles() == seq![startup.indexer],
        at_sync.cancelled.handles() == seq![startup.indexer, startup.rpc],
        at_consensus.error == error,
        at_database.error == error,
        at_handle.error == error,
        at_rpc.error == error,
        at_sync.error == error,
        at_witnesses matches Err(failure) && failure.cancelled.handles() == seq![startup.indexer]
            && laws::command_says(
            failure.error,
            ErrorKind::Init,
            "failed to disable stale PIR state: "@ + reason@,
        ),
{
    assert(seq![startup.indexer].push(startup.rpc) =~= seq![startup.indexer, startup.rpc]);
}

/// The first task that ends takes all tasks with it, whichever it is, and the wallet ends as
/// that task did: with its result, or in a panic of its own.
pub proof fn the_first_end_is_the_wallet_s<H, E>(
    owner: StartupTaskOwner<H>,
    first: Task,
    exit: TaskExit<E>,
    shutdown: Shutdown<H, E>,
    logged: &'static str,
    panicked: &'static str,
)
    requires
        call_ensures(supervise_zallet_tasks::<H, E>, (owner, first, exit), shutdown),
        call_ensures(Task::exit_message, (first,), logged),
        call_ensures(Task::panic_message, (first,), panicked),
    ensures
        shutdown.cancelled.handles() == owner.handles(),
        match exit {
            TaskExit::Returned(result) => shutdown.ending matches Ending::Result {
                logged: line,
                result: own,
            } && own == result && line@ == logged@,
            TaskExit::Panicked => shutdown.ending matches Ending::Panic(text) && text@ == panicked@,
        },
{
}

/// Whether a message is the warning about the option with the given name.
pub open spec fn warns_about(message: Message, option: Seq<char>) -> bool {
    laws::message_names_with(message, "warn-config-unused"@, "option"@, option)
}

/// One for an option that is set, none for another.
pub open spec fn counted(set: bool) -> int {
    if set {
        1
    } else {
        0
    }
}

/// The operator is warned of each option that is set and of no other, by the option's name and
/// in the order of the options.
pub proof fn set_options_are_warned_about(options: UnusedOptions, warnings: Vec<Message>)
    requires
        call_ensures(UnusedOptions::warnings, (options,), warnings),
    ensures
        ({
            let second = counted(options.spend_zeroconf_change);
            let third = second + counted(options.tx_expiry_delta);
            let fourth = third + counted(options.export_dir);
            &&& warnings@.len() == fourth + counted(options.notify)
            &&& options.spend_zeroconf_change ==> warns_about(
                warnings@[0],
                "builder.spend_zeroconf_change"@,
            )
            &&& options.tx_expiry_delta ==> warns_about(
                warnings@[second],
                "builder.tx_expiry_delta"@,
            )
            &&& options.export_dir ==> warns_about(warnings@[third], "external.export_dir"@)
            &&& options.notify ==> warns_about(warnings@[fourth], "external.notify"@)
        }),
{
    let views = warnings@.map_values(|message: Message| message@);
    let second = counted(options.spend_zeroconf_change);
    let third = second + counted(options.tx_expiry_delta);
    let fourth = third + counted(options.export_dir);
    assert(views.len() == warnings@.len());
    assert(views.len() == fourth + counted(options.notify));
    if options.spend_zeroconf_change {
        assert(views[0] == warnings@[0]@);
    }
    if options.tx_expiry_delta {
        assert(views[second] == warnings@[second]@);
    }
    if options.export_dir {
        assert(views[third] == warnings@[third]@);
    }
    if options.notify {
        assert(views[fourth] == warnings@[fourth]@);
    }
}

/// The wallet is modified exactly if the operator asked to queue the ranges and there are some.
/// Then all of them are queued, in order, as ranges whose scan is no longer trusted.
pub proof fn ranges_are_queued_on_request_alone(
    ranges: Vec<HeightRange>,
    queue_rescan: bool,
    step: RescanStep,
)
    requires
        call_ensures(decide, (ranges, queue_rescan), step),
    ensures
        step is Queue <==> queue_rescan && ranges@.len() > 0,
        step matches RescanStep::Queue { ranges: queued, priority, log_line }
            ==> check_witnesses::nonempty_ranges(queued) == ranges@ && priority
            == ScanPriority::Verify && log_line@ == "Queued "@ + text::decimal(ranges@.len())
            + " range(s) to be rescanned on the next sync"@,
        step matches RescanStep::Report(line) ==> line@ == (if ranges@.len() == 0 {
            "Every spendable note has a witness; nothing to rescan"@
        } else {
            text::decimal(ranges@.len())
                + " range(s) need rescanning; re-run with --queue-rescan to queue them"@
        }),
{
}

/// Every range is printed on a line of its own, in order, by its first height and the height
/// after its last.
pub proof fn every_range_is_printed(ranges: Vec<HeightRange>, lines: Vec<String>, i: int)
    requires
        call_ensures(report, (&ranges,), lines),
    ensures
        lines@.len() == ranges@.len(),
        0 <= i < lines@.len() ==> lines@[i]@ == text::decimal(ranges@[i].start.0 as nat) + ".."@
            + text::decimal(ranges@[i].end.0 as nat),
        0 <= i < lines@.len() ==> forall|line: String| #[trigger]
            call_ensures(HeightRange::text, (ranges@[i],), line) ==> line@ == lines@[i]@,
{
    let shown = lines@.map_values(|line: String| line@);
    let texts = ranges@.map_values(|range: HeightRange| check_witnesses::range_text(range));
    assert(shown.len() == texts.len());
    if 0 <= i < lines@.len() {
        assert(shown[i] == texts[i]);
    }
}

/// Calls of the wallet that fail end the commands with their reason, and what succeeded is
/// handed on as it is.
pub proof fn failed_repairs_are_told(
    found: Result<Vec<HeightRange>, String>,
    ranges: Result<Vec<HeightRange>, CommandError>,
    log_line: String,
    queued: Result<(), String>,
    logged: Result<String, CommandError>,
    read: Result<Identities, String>,
    identities: Result<Identities, CommandError>,
    canonical: Result<Vec<String>, String>,
    recipients: Result<Vec<String>, CommandError>,
)
    requires
        call_ensures(ranges_found, (found,), ranges),
        call_ensures(ranges_queued, (log_line, queued), logged),
        call_ensures(identities_read, (read,), identities),
        call_ensures(canonicalized, (canonical,), recipients),
    ensures
        match found {
            Ok(own) => ranges == Ok::<Vec<HeightRange>, CommandError>(own),
            Err(reason) => ranges matches Err(e) && laws::command_says(
                e,
                ErrorKind::Generic,
                reason@,
            ),
        },
        match queued {
            Ok(_) => logged == Ok::<String, CommandError>(log_line),
            Err(reason) => logged matches Err(e) && laws::command_says(
                e,
                ErrorKind::Generic,
                reason@,
            ),
        },
        match read {
            Ok(own) => identities == Ok::<Identities, CommandError>(own),
            Err(reason) => identities matches Err(e) && laws::command_says(
                e,
                ErrorKind::Generic,
                reason@,
            ),
        },
        match canonical {
            Ok(own) => recipients == Ok::<Vec<String>, CommandError>(own),
            Err(reason) => recipients matches Err(e) && laws::command_says(
                e,
                ErrorKind::Generic,
                reason@,
            ),
        },
{
}

/// Identities that were decrypted are used; the configured file is read exactly if there are
/// none. A path that is no text is refused then, and shown.
pub proof fn decrypted_identities_come_first(
    decrypted: bool,
    path: Option<&str>,
    shown_path: &str,
    r: Result<IdentitySource, CommandError>,
)
    requires
        call_ensures(identity_source, (decrypted, path, shown_path), r),
    ensures
        r matches Ok(IdentitySource::Decrypted) <==> decrypted,
        r matches Ok(IdentitySource::File(_)) <==> !decrypted && path is Some,
        r matches Ok(IdentitySource::File(file)) ==> file@ == path->0@,
        r matches Err(e) ==> e.kind == ErrorKind::Init && laws::message_names_with(
            e.message,
            "err-init-path-not-utf8"@,
            "path"@,
            shown_path@,
        ),
{
}

/// The lines of two lists after another are the lines of both, and one line is its text and a
/// newline.
pub proof fn lines_are_written_one_after_the_other(
    a: Seq<Seq<char>>,
    b: Seq<Seq<char>>,
    line: Seq<char>,
)
    ensures
        init_wallet_encryption::lines(Seq::empty()) == Seq::<char>::empty(),
        init_wallet_encryption::lines(seq![line]) == line.push('\n'),
        init_wallet_encryption::lines(a + b) == init_wallet_encryption::lines(a)
            + init_wallet_encryption::lines(b),
    decreases b.len(),
{
    reveal_with_fuel(init_wallet_encryption::lines, 2);
    assert(seq![line].drop_last() =~= Seq::empty());
    assert(init_wallet_encryption::lines(seq![line]) =~= line.push('\n'));
    if b.len() == 0 {
        assert(a + b =~= a);
        assert(init_wallet_encryption::lines(a) + Seq::<char>::empty()
            =~= init_wallet_encryption::lines(a));
    } else {
        lines_are_written_one_after_the_other(a, b.drop_last(), line);
        assert((a + b).drop_last() =~= a + b.drop_last());
        assert(init_wallet_encryption::lines(a + b) =~= init_wallet_encryption::lines(a)
            + init_wallet_encryption::lines(b));
    }
}

/// There is a recipients file exactly if there are identities and none of them is a plugin's.
/// It holds the recipients, one to a line, in order.
pub proof fn the_recipients_file_lists_all_recipients(
    identities: Identities,
    r: Result<String, CommandError>,
)
    requires
        call_ensures(recipients_text, (&identities,), r),
    ensures
        r is Ok <==> init_wallet_encryption::identity_recipients(identities) is Some && (
        init_wallet_encryption::identity_recipients(identities)->0).len() > 0,
        r matches Ok(text) ==> text@ == init_wallet_encryption::lines(
            init_wallet_encryption::identity_recipients(identities)->0,
        ),
        r matches Err(e) ==> e.kind == ErrorKind::Generic && e.message is Text,
{
}

/// What was written is the file's text exactly if it is valid UTF-8.
pub proof fn written_bytes_have_to_be_text(
    written: Result<Vec<u8>, String>,
    r: Result<String, CommandError>,
)
    requires
        call_ensures(written_text, (written,), r),
    ensures
        r is Ok <==> (written matches Ok(bytes) && vstd::utf8::valid_utf8(bytes@)),
        r matches Ok(text) ==> text@ == vstd::utf8::decode_utf8(written->Ok_0@),
        written matches Err(reason) ==> (r matches Err(e) && laws::command_says(
            e,
            ErrorKind::Generic,
            reason@,
        )),
        r matches Err(e) ==> e.kind == ErrorKind::Generic && e.message is Text,
{
}

} // verus!
