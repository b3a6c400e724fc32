//! The key lifecycle as a mathematical state machine.
//!
//! A session stands at a phase and waits for the answer to one request. Each
//! answer moves it to the next phase or ends it with an outcome. An answer to
//! another request than the pending one leaves the session where it is.

use vstd::prelude::*;
use crate::error::{bare, ErrorKind, ErrorView};
use crate::location::{backup_of, PathsView};

verus! {

/// What a session was begun for.
#[derive(Clone, Copy, Debug, PartialEq, Eq, Structural)]
pub enum Task {
    /// Get the secret, moving a key file into the store or making a fresh
    /// secret where the store has none.
    Initialize,
    /// Make sure that there is a secret, without handing it out.
    Authorize,
    /// Move one key file into the store.
    Migrate,
    /// Find a key file.
    Locate,
    /// Remove a key file that the store has made redundant.
    Cleanup,
    /// Put a file back from its sidecar.
    Recover,
}

/// Where a session stands: the operation whose answer it waits for.
#[derive(Clone, Copy, Debug, PartialEq, Eq, Structural)]
pub enum Phase {
    /// Reading the secret, at the start.
    Fetching,
    /// Looking for a key file at the current place.
    ProbeCurrent,
    /// Looking for a key file at the alternate place.
    ProbeAlternate,
    /// Checking that the key file to migrate is still there.
    MigrateProbe,
    /// Copying the key file to its sidecar.
    MigrateBackup,
    /// Reading the key file.
    MigrateRead,
    /// Writing the secret that was read to the store.
    MigrateStore,
    /// Deleting the key file.
    MigrateRemove,
    /// Deleting the sidecar after a migration that went well.
    MigrateDropBackup,
    /// Looking for the sidecar.
    RecoverProbe,
    /// Copying the sidecar back over the file.
    RecoverRestore,
    /// Deleting the sidecar after the file was put back.
    RecoverDrop,
    /// Making a fresh secret and writing it to the store.
    Generating,
    /// Looking for a redundant key file at the current place.
    SweepCurrent,
    /// Looking for a redundant key file at the alternate place.
    SweepAlternate,
    /// Checking that the redundant key file is still there.
    SweepConfirm,
    /// Deleting the redundant key file.
    SweepRemove,
    /// Reading the secret again, after a migration.
    Refetching,
}

/// What follows once redundant key files are swept away.
#[derive(Clone, Copy, Debug, PartialEq, Eq, Structural)]
pub enum Next {
    /// The session ends.
    Return,
    /// The secret is read again.
    Refetch,
}

/// A session: its task, its phase, and what it carries along.
pub struct SessionView {
    pub task: Task,
    pub phase: Phase,
    /// What follows the sweep.
    pub next: Next,
    /// The two places in which key files are looked for, if there is a data
    /// directory.
    pub paths: Option<PathsView>,
    /// The file that is migrated, put back or swept away.
    pub target: Seq<char>,
    /// The secret that is written to the store or handed out at the end.
    pub secret: Seq<char>,
    /// The failure of a migration, kept while the file is put back.
    pub failure: Option<ErrorView>,
}

/// An operation that a session asks for.
pub enum RequestView {
    /// Read the secret: from the cache or, if that is empty, from the store.
    FetchKey,
    /// Write this secret to the store.
    StoreKey(Seq<char>),
    /// Make a fresh secret and write it to the store.
    GenerateKey,
    /// Say whether a file exists at this path.
    Probe(Seq<char>),
    /// Copy the file at `from` to `to`.
    Copy { from: Seq<char>, to: Seq<char> },
    /// Read the whole file at this path as text.
    ReadFile(Seq<char>),
    /// Delete the file at this path.
    RemoveFile(Seq<char>),
}

/// The answer to a request. A failed file operation answers with its native
/// detail.
pub enum ReplyView {
    Fetched(Result<Seq<char>, ErrorView>),
    Stored(Result<(), ErrorView>),
    Generated(Result<Seq<char>, ErrorView>),
    Probed(bool),
    Copied(Result<(), Seq<char>>),
    FileRead(Result<Seq<char>, Seq<char>>),
    Removed(Result<(), Seq<char>>),
}

/// How a session ended.
pub enum OutcomeView {
    /// The secret.
    Secret(Seq<char>),
    /// Success, with nothing to hand out.
    Done,
    /// The key file that was found, if any.
    Located(Option<Seq<char>>),
    /// The failure.
    Failed(ErrorView),
}

/// A session that waits for an answer, or the outcome of one that ended.
pub enum StepView {
    Pending(SessionView),
    Finished(OutcomeView),
}

/// The current place, or the empty path where there is none.
pub open spec fn current_of(paths: Option<PathsView>) -> Seq<char> {
    match paths {
        Some(paths) => paths.current,
        None => Seq::empty(),
    }
}

/// The alternate place, or the empty path where there is none.
pub open spec fn alternate_of(paths: Option<PathsView>) -> Seq<char> {
    match paths {
        Some(paths) => paths.alternate,
        None => Seq::empty(),
    }
}

/// The request whose answer the session waits for.
pub open spec fn pending(s: SessionView) -> RequestView {
    match s.phase {
        Phase::Fetching | Phase::Refetching => RequestView::FetchKey,
        Phase::Generating => RequestView::GenerateKey,
        Phase::MigrateStore => RequestView::StoreKey(s.secret),
        Phase::ProbeCurrent | Phase::SweepCurrent => RequestView::Probe(current_of(s.paths)),
        Phase::ProbeAlternate | Phase::SweepAlternate => RequestView::Probe(alternate_of(s.paths)),
        Phase::MigrateProbe | Phase::SweepConfirm => RequestView::Probe(s.target),
        Phase::RecoverProbe => RequestView::Probe(backup_of(s.target)),
        Phase::MigrateBackup => RequestView::Copy { from: s.target, to: backup_of(s.target) },
        Phase::RecoverRestore => RequestView::Copy { from: backup_of(s.target), to: s.target },
        Phase::MigrateRead => RequestView::ReadFile(s.target),
        Phase::MigrateRemove | Phase::SweepRemove => RequestView::RemoveFile(s.target),
        Phase::MigrateDropBackup | Phase::RecoverDrop => RequestView::RemoveFile(
            backup_of(s.target),
        ),
    }
}

/// Whether the reply is an answer to the request.
pub open spec fn answers(request: RequestView, reply: ReplyView) -> bool {
    match request {
        RequestView::FetchKey => reply is Fetched,
        RequestView::StoreKey(_) => reply is Stored,
        RequestView::GenerateKey => reply is Generated,
        RequestView::Probe(_) => reply is Probed,
        RequestView::Copy { .. } => reply is Copied,
        RequestView::ReadFile(_) => reply is FileRead,
        RequestView::RemoveFile(_) => reply is Removed,
    }
}

/// Whether the request is for the credential store rather than for a file.
pub open spec fn concerns_store(request: RequestView) -> bool {
    request is FetchKey || request is StoreKey || request is GenerateKey
}

/// A failure to work on a file: what was attempted, then the native detail.
pub open spec fn file_failure(attempt: Seq<char>, detail: Seq<char>) -> ErrorView {
    ErrorView { kind: ErrorKind::FileError, detail: attempt + detail }
}

/// The failure of a recovery that finds no sidecar.
pub open spec fn no_backup() -> ErrorView {
    ErrorView { kind: ErrorKind::MigrationError, detail: "No backup available for recovery"@ }
}

/// The session ends with this failure.
pub open spec fn fail(error: ErrorView) -> StepView {
    StepView::Finished(OutcomeView::Failed(error))
}

/// The session goes on at another phase.
pub open spec fn goto(s: SessionView, phase: Phase) -> StepView {
    StepView::Pending(SessionView { phase, ..s })
}

/// The search for a key file starts, where there is a data directory.
pub open spec fn enter_locate(s: SessionView) -> StepView {
    if s.paths is Some {
        goto(s, Phase::ProbeCurrent)
    } else {
        fail(bare(ErrorKind::AppSupportDirNotFound))
    }
}

/// A key file was found at `path`: the search reports it, the other tasks
/// migrate it.
pub open spec fn located(s: SessionView, path: Seq<char>) -> StepView {
    if s.task == Task::Locate {
        StepView::Finished(OutcomeView::Located(Some(path)))
    } else {
        StepView::Pending(SessionView { phase: Phase::MigrateProbe, target: path, ..s })
    }
}

/// No key file was found: the search reports so, the other tasks make a
/// fresh secret.
pub open spec fn nothing_located(s: SessionView) -> StepView {
    if s.task == Task::Locate {
        StepView::Finished(OutcomeView::Located(None))
    } else {
        goto(s, Phase::Generating)
    }
}

/// A step of the migration failed: the failure is kept and the file is put
/// back from its sidecar.
pub open spec fn recover(s: SessionView, error: ErrorView) -> StepView {
    StepView::Pending(SessionView { phase: Phase::RecoverProbe, failure: Some(error), ..s })
}

/// The recovery is over. Within a migration the failure that began it
/// stands, however the recovery went; on its own the recovery reports its
/// own outcome.
pub open spec fn recovered(s: SessionView, own: OutcomeView) -> StepView {
    match s.failure {
        Some(error) => fail(error),
        None => StepView::Finished(own),
    }
}

/// The sweep starts, where there is a data directory; where there is none
/// it has failed.
pub open spec fn enter_sweep(s: SessionView) -> StepView {
    if s.paths is Some {
        goto(s, Phase::SweepCurrent)
    } else {
        sweep_failed(s, bare(ErrorKind::AppSupportDirNotFound))
    }
}

/// The sweep failed. Initialization goes on regardless, since the secret is
/// safe in the store; the other tasks end with the failure.
pub open spec fn sweep_failed(s: SessionView, error: ErrorView) -> StepView {
    if s.task == Task::Initialize {
        swept(s)
    } else {
        fail(error)
    }
}

/// The sweep is over: the secret is read again, or the session ends, with
/// the secret where the task is to hand it out.
pub open spec fn swept(s: SessionView) -> StepView {
    if s.next == Next::Refetch {
        goto(s, Phase::Refetching)
    } else if s.task == Task::Initialize {
        StepView::Finished(OutcomeView::Secret(s.secret))
    } else {
        StepView::Finished(OutcomeView::Done)
    }
}

/// The migration is over. On its own it ends; within another task the sweep
/// follows, and then the secret is read again.
pub open spec fn migrated(s: SessionView) -> StepView {
    if s.task == Task::Initialize || s.task == Task::Authorize {
        enter_sweep(SessionView { next: Next::Refetch, ..s })
    } else {
        StepView::Finished(OutcomeView::Done)
    }
}

/// The session after the secret was read.
pub open spec fn after_fetch(s: SessionView, read: Result<Seq<char>, ErrorView>) -> StepView {
    match s.phase {
        Phase::Fetching => match read {
            Ok(key) => if s.task == Task::Initialize {
                enter_sweep(SessionView { secret: key, next: Next::Return, ..s })
            } else {
                StepView::Finished(OutcomeView::Done)
            },
            Err(error) => if error.kind == ErrorKind::KeyNotFound {
                enter_locate(s)
            } else {
                fail(error)
            },
        },
        Phase::Refetching => match read {
            Ok(key) => if s.task == Task::Initialize {
                StepView::Finished(OutcomeView::Secret(key))
            } else {
                StepView::Finished(OutcomeView::Done)
            },
            Err(error) => fail(error),
        },
        _ => StepView::Pending(s),
    }
}

/// The session after the secret was written to the store.
pub open spec fn after_store(s: SessionView, written: Result<(), ErrorView>) -> StepView {
    match s.phase {
        Phase::MigrateStore => match written {
            Ok(_) => goto(s, Phase::MigrateRemove),
            Err(error) => recover(s, error),
        },
        _ => StepView::Pending(s),
    }
}

/// The session after a fresh secret was made and written to the store.
pub open spec fn after_generate(s: SessionView, made: Result<Seq<char>, ErrorView>) -> StepView {
    match s.phase {
        Phase::Generating => match made {
            Ok(key) => enter_sweep(SessionView { secret: key, next: Next::Return, ..s }),
            Err(error) => fail(error),
        },
        _ => StepView::Pending(s),
    }
}

/// The session after a file was looked for.
pub open spec fn after_probe(s: SessionView, found: bool) -> StepView {
    match s.phase {
        Phase::ProbeCurrent => if found {
            located(s, current_of(s.paths))
        } else {
            goto(s, Phase::ProbeAlternate)
        },
        Phase::ProbeAlternate => if found {
            located(s, alternate_of(s.paths))
        } else {
            nothing_located(s)
        },
        Phase::MigrateProbe => if found {
            goto(s, Phase::MigrateBackup)
        } else {
            migrated(s)
        },
        Phase::RecoverProbe => if found {
            goto(s, Phase::RecoverRestore)
        } else {
            recovered(s, OutcomeView::Failed(no_backup()))
        },
        Phase::SweepCurrent => if found {
            StepView::Pending(
                SessionView { phase: Phase::SweepConfirm, target: current_of(s.paths), ..s },
            )
        } else {
            goto(s, Phase::SweepAlternate)
        },
        Phase::SweepAlternate => if found {
            StepView::Pending(
                SessionView { phase: Phase::SweepConfirm, target: alternate_of(s.paths), ..s },
            )
        } else {
            swept(s)
        },
        Phase::SweepConfirm => if found {
            goto(s, Phase::SweepRemove)
        } else {
            swept(s)
        },
        _ => StepView::Pending(s),
    }
}

/// The session after a file was copied.
pub open spec fn after_copy(s: SessionView, copied: Result<(), Seq<char>>) -> StepView {
    match s.phase {
        Phase::MigrateBackup => match copied {
            Ok(_) => goto(s, Phase::MigrateRead),
            Err(detail) => fail(file_failure("Failed to create backup: "@, detail)),
        },
        Phase::RecoverRestore => match copied {
            Ok(_) => goto(s, Phase::RecoverDrop),
            Err(detail) => recovered(
                s,
                OutcomeView::Failed(file_failure("Failed to restore from backup: "@, detail)),
            ),
        },
        _ => StepView::Pending(s),
    }
}

/// The session after a file was read.
pub open spec fn after_read(s: SessionView, read: Result<Seq<char>, Seq<char>>) -> StepView {
    match s.phase {
        Phase::MigrateRead => match read {
            Ok(text) => StepView::Pending(
                SessionView { phase: Phase::MigrateStore, secret: text, ..s },
            ),
            Err(detail) => recover(s, file_failure("Failed to read key file: "@, detail)),
        },
        _ => StepView::Pending(s),
    }
}

/// The session after a file was deleted.
pub open spec fn after_remove(s: SessionView, removed: Result<(), Seq<char>>) -> StepView {
    match s.phase {
        Phase::MigrateRemove => match removed {
            Ok(_) => goto(s, Phase::MigrateDropBackup),
            Err(detail) => recover(s, file_failure("Failed to delete key file: "@, detail)),
        },
        Phase::MigrateDropBackup => migrated(s),
        Phase::RecoverDrop => match removed {
            Ok(_) => recovered(s, OutcomeView::Done),
            Err(detail) => recovered(
                s,
                OutcomeView::Failed(file_failure("Failed to clean up backup: "@, detail)),
            ),
        },
        Phase::SweepRemove => match removed {
            Ok(_) => swept(s),
            Err(detail) => sweep_failed(s, file_failure("Failed to delete key file: "@, detail)),
        },
        _ => StepView::Pending(s),
    }
}

/// The session after a reply. A reply that does not answer the pending
/// request leaves the session as it is.
pub open spec fn advance(s: SessionView, reply: ReplyView) -> StepView {
    match reply {
        ReplyView::Fetched(read) => after_fetch(s, read),
        ReplyView::Stored(written) => after_store(s, written),
        ReplyView::Generated(made) => after_generate(s, made),
        ReplyView::Probed(found) => after_probe(s, found),
        ReplyView::Copied(copied) => after_copy(s, copied),
        ReplyView::FileRead(read) => after_read(s, read),
        ReplyView::Removed(removed) => after_remove(s, removed),
    }
}

/// A session at its first phase: nothing is carried yet.
pub open spec fn fresh(task: Task, phase: Phase, paths: Option<PathsView>, target: Seq<char>)
    -> SessionView {
    SessionView {
        task,
        phase,
        next: Next::Return,
        paths,
        target,
        secret: Seq::empty(),
        failure: None,
    }
}

/// Initialization begins by reading the secret.
pub open spec fn begin_initialize(paths: Option<PathsView>) -> StepView {
    StepView::Pending(fresh(Task::Initialize, Phase::Fetching, paths, Seq::empty()))
}

/// Authorization begins by reading the secret.
pub open spec fn begin_authorize(paths: Option<PathsView>) -> StepView {
    StepView::Pending(fresh(Task::Authorize, Phase::Fetching, paths, Seq::empty()))
}

/// A migration begins by checking that the key file is there.
pub open spec fn begin_migrate(path: Seq<char>) -> StepView {
    StepView::Pending(fresh(Task::Migrate, Phase::MigrateProbe, None, path))
}

/// A search begins at the current place, where there is a data directory.
pub open spec fn begin_locate(paths: Option<PathsView>) -> StepView {
    enter_locate(fresh(Task::Locate, Phase::ProbeCurrent, paths, Seq::empty()))
}

/// A sweep begins at the current place, where there is a data directory.
pub open spec fn begin_cleanup(paths: Option<PathsView>) -> StepView {
    enter_sweep(fresh(Task::Cleanup, Phase::SweepCurrent, paths, Seq::empty()))
}

/// A recovery begins by looking for the sidecar.
pub open spec fn begin_recover(path: Seq<char>) -> StepView {
    StepView::Pending(fresh(Task::Recover, Phase::RecoverProbe, None, path))
}

/// An upper bound on the requests that a session at this phase still makes.
pub open spec fn rank(phase: Phase) -> nat {
    match phase {
        Phase::Fetching => 14,
        Phase::ProbeCurrent => 13,
        Phase::ProbeAlternate => 12,
        Phase::MigrateProbe => 11,
        Phase::MigrateBackup => 10,
        Phase::MigrateRead => 9,
        Phase::MigrateStore => 8,
        Phase::MigrateRemove => 7,
        Phase::MigrateDropBackup => 6,
        Phase::Generating => 6,
        Phase::SweepCurrent => 5,
        Phase::SweepAlternate => 4,
        Phase::SweepConfirm => 3,
        Phase::SweepRemove => 2,
        Phase::RecoverProbe => 3,
        Phase::RecoverRestore => 2,
        Phase::RecoverDrop => 1,
        Phase::Refetching => 1,
    }
}

/// An upper bound on the requests that are still to come.
pub open spec fn remaining(step: StepView) -> nat {
    match step {
        StepView::Pending(s) => rank(s.phase),
        StepView::Finished(_) => 0,
    }
}

/// Every answer to the pending request takes the session nearer to its end.
pub proof fn lemma_answer_makes_progress(s: SessionView, reply: ReplyView)
    requires
        answers(pending(s), reply),
    ensures
        remaining(advance(s, reply)) < rank(s.phase),
{
}

/// A reply that does not answer the pending request changes nothing.
pub proof fn lemma_stray_reply_is_ignored(s: SessionView, reply: ReplyView)
    requires
        !answers(pending(s), reply),
    ensures
        advance(s, reply) == StepView::Pending(s),
{
}

/// The session is past its look at the secret and only sweeps redundant
/// key files away before it ends.
pub open spec fn only_sweeps(step: StepView) -> bool {
    match step {
        StepView::Finished(_) => true,
        StepView::Pending(s) => s.next == Next::Return && (s.phase == Phase::SweepCurrent
            || s.phase == Phase::SweepAlternate || s.phase == Phase::SweepConfirm || s.phase
            == Phase::SweepRemove),
    }
}

/// An initialization that finds the secret at its first look writes nothing
/// to the store: it goes on to the sweep, and from there no reply, good or
/// bad, brings it back to the store.
pub proof fn lemma_found_secret_is_never_rewritten(
    paths: Option<PathsView>,
    key: Seq<char>,
    s: SessionView,
    reply: ReplyView,
)
    ensures
        only_sweeps(after_fetch(begin_initialize(paths)->Pending_0, Ok(key))),
        only_sweeps(StepView::Pending(s)) ==> !concerns_store(pending(s)) && only_sweeps(
            advance(s, reply),
        ),
{
}

/// The session is putting a file back after the migration failed with
/// `failure`.
pub open spec fn recovers_from(step: StepView, failure: ErrorView) -> bool {
    step matches StepView::Pending(s) && s.failure == Some(failure) && (s.phase
        == Phase::RecoverProbe || s.phase == Phase::RecoverRestore || s.phase
        == Phase::RecoverDrop)
}

/// A failure of the migration after the sidecar was made always starts the
/// recovery, with the failure kept: a file that cannot be read or deleted
/// with what was attempted and the native detail, a refused write with the
/// failure of the store.
pub proof fn lemma_failed_step_starts_recovery(s: SessionView, detail: Seq<char>, refusal: ErrorView)
    ensures
        s.phase == Phase::MigrateRead ==> recovers_from(
            advance(s, ReplyView::FileRead(Err(detail))),
            file_failure("Failed to read key file: "@, detail),
        ),
        s.phase == Phase::MigrateStore ==> recovers_from(
            advance(s, ReplyView::Stored(Err(refusal))),
            refusal,
        ),
        s.phase == Phase::MigrateRemove ==> recovers_from(
            advance(s, ReplyView::Removed(Err(detail))),
            file_failure("Failed to delete key file: "@, detail),
        ),
{
}

/// However the recovery goes, the session ends with the failure that
/// started it: a failed recovery does not take its place.
pub proof fn lemma_recovery_keeps_the_failure(s: SessionView, reply: ReplyView, failure: ErrorView)
    requires
        recovers_from(StepView::Pending(s), failure),
    ensures
        recovers_from(advance(s, reply), failure) || advance(s, reply) == fail(failure),
{
}

} // verus!
