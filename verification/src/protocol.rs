//! The key lifecycle as it runs: sessions, requests and replies in
//! executable form, each with its mathematical value.

use vstd::prelude::*;
use vstd::string::*;
use crate::error::{ErrorKind, ErrorView, KeychainError};
use crate::location::{backup_path, paths_view, KeyFilePaths};
use crate::model;
use crate::model::{Next, OutcomeView, Phase, ReplyView, RequestView, SessionView, StepView, Task};
use crate::text::text_of;

verus! {

/// A session: its task, its phase, and what it carries along. It may carry
/// the secret, so it has no printed form.
pub struct Session {
    pub task: Task,
    pub phase: Phase,
    pub next: Next,
    pub paths: Option<KeyFilePaths>,
    pub target: String,
    pub secret: String,
    pub failure: Option<KeychainError>,
}

/// An operation that a session asks for.
pub enum Request {
    FetchKey,
    StoreKey(String),
    GenerateKey,
    Probe(String),
    Copy { from: String, to: String },
    ReadFile(String),
    RemoveFile(String),
}

/// The answer to a request.
pub enum Reply {
    Fetched(Result<String, KeychainError>),
    Stored(Result<(), KeychainError>),
    Generated(Result<String, KeychainError>),
    Probed(bool),
    Copied(Result<(), String>),
    FileRead(Result<String, String>),
    Removed(Result<(), String>),
}

/// How a session ended.
pub enum Outcome {
    Secret(String),
    Done,
    Located(Option<String>),
    Failed(KeychainError),
}

/// A session that waits for an answer, or the outcome of one that ended.
pub enum Step {
    Pending(Session),
    Finished(Outcome),
}

/// The value of an optional failure.
pub open spec fn failure_view(failure: Option<KeychainError>) -> Option<ErrorView> {
    match failure {
        Some(error) => Some(error@),
        None => None,
    }
}

/// The value of a secret or the failure to get one.
pub open spec fn key_result_view(result: Result<String, KeychainError>) -> Result<
    Seq<char>,
    ErrorView,
> {
    match result {
        Ok(text) => Ok(text@),
        Err(error) => Err(error@),
    }
}

/// The value of a success or a failure of the store.
pub open spec fn unit_result_view(result: Result<(), KeychainError>) -> Result<(), ErrorView> {
    match result {
        Ok(_) => Ok(()),
        Err(error) => Err(error@),
    }
}

/// The value of a file's text or the detail of a failure to read it.
pub open spec fn text_result_view(result: Result<String, String>) -> Result<Seq<char>, Seq<char>> {
    match result {
        Ok(text) => Ok(text@),
        Err(detail) => Err(detail@),
    }
}

/// The value of a success or the detail of a failed file operation.
pub open spec fn file_result_view(result: Result<(), String>) -> Result<(), Seq<char>> {
    match result {
        Ok(_) => Ok(()),
        Err(detail) => Err(detail@),
    }
}

impl View for Session {
    type V = SessionView;

    open spec fn view(&self) -> SessionView {
        SessionView {
            task: self.task,
            phase: self.phase,
            next: self.next,
            paths: paths_view(self.paths),
            target: self.target@,
            secret: self.secret@,
            failure: failure_view(self.failure),
        }
    }
}

impl View for Request {
    type V = RequestView;

    open spec fn view(&self) -> RequestView {
        match self {
            Request::FetchKey => RequestView::FetchKey,
            Request::StoreKey(secret) => RequestView::StoreKey(secret@),
            Request::GenerateKey => RequestView::GenerateKey,
            Request::Probe(path) => RequestView::Probe(path@),
            Request::Copy { from, to } => RequestView::Copy { from: from@, to: to@ },
            Request::ReadFile(path) => RequestView::ReadFile(path@),
            Request::RemoveFile(path) => RequestView::RemoveFile(path@),
        }
    }
}

impl View for Reply {
    type V = ReplyView;

    open spec fn view(&self) -> ReplyView {
        match self {
            Reply::Fetched(read) => ReplyView::Fetched(key_result_view(*read)),
            Reply::Stored(written) => ReplyView::Stored(unit_result_view(*written)),
            Reply::Generated(made) => ReplyView::Generated(key_result_view(*made)),
            Reply::Probed(found) => ReplyView::Probed(*found),
            Reply::Copied(copied) => ReplyView::Copied(file_result_view(*copied)),
            Reply::FileRead(read) => ReplyView::FileRead(text_result_view(*read)),
            Reply::Removed(removed) => ReplyView::Removed(file_result_view(*removed)),
        }
    }
}

impl View for Outcome {
    type V = OutcomeView;

    open spec fn view(&self) -> OutcomeView {
        match self {
            Outcome::Secret(secret) => OutcomeView::Secret(secret@),
            Outcome::Done => OutcomeView::Done,
            Outcome::Located(path) => OutcomeView::Located(text_of(*path)),
            Outcome::Failed(error) => OutcomeView::Failed(error@),
        }
    }
}

impl View for Step {
    type V = StepView;

    open spec fn view(&self) -> StepView {
        match self {
            Step::Pending(session) => StepView::Pending(session@),
            Step::Finished(outcome) => StepView::Finished(outcome@),
        }
    }
}

/// A failure to work on a file: what was attempted, then the native detail.
fn file_failure(attempt: &str, detail: String) -> (error: KeychainError)
    ensures
        error@ == model::file_failure(attempt@, detail@),
{
    KeychainError::FileError(String::from_str(attempt).concat(detail.as_str()))
}

/// The failure of a recovery that finds no sidecar.
fn no_backup() -> (error: KeychainError)
    ensures
        error@ == model::no_backup(),
{
    KeychainError::MigrationError(String::from_str("No backup available for recovery"))
}

/// The session ends with this failure.
fn fail(error: KeychainError) -> (step: Step)
    ensures
        step@ == model::fail(error@),
{
    Step::Finished(Outcome::Failed(error))
}

/// The session goes on at another phase.
fn goto(session: Session, phase: Phase) -> (step: Step)
    ensures
        step@ == model::goto(session@, phase),
{
    let mut session = session;
    session.phase = phase;
    Step::Pending(session)
}

/// The current place, or the empty path where there is none.
fn current_place(paths: &Option<KeyFilePaths>) -> (path: String)
    ensures
        path@ == model::current_of(paths_view(*paths)),
{
    match paths {
        Some(paths) => paths.current.clone(),
        None => String::new(),
    }
}

/// The alternate place, or the empty path where there is none.
fn alternate_place(paths: &Option<KeyFilePaths>) -> (path: String)
    ensures
        path@ == model::alternate_of(paths_view(*paths)),
{
    match paths {
        Some(paths) => paths.alternate.clone(),
        None => String::new(),
    }
}

/// The search for a key file starts, where there is a data directory.
fn enter_locate(session: Session) -> (step: Step)
    ensures
        step@ == model::enter_locate(session@),
{
    if session.paths.is_some() {
        goto(session, Phase::ProbeCurrent)
    } else {
        fail(KeychainError::AppSupportDirNotFound)
    }
}

/// A key file was found at `path`.
fn located(session: Session, path: String) -> (step: Step)
    ensures
        step@ == model::located(session@, path@),
{
    if session.task == Task::Locate {
        Step::Finished(Outcome::Located(Some(path)))
    } else {
        let mut session = session;
        session.phase = Phase::MigrateProbe;
        session.target = path;
        Step::Pending(session)
    }
}

/// No key file was found.
fn nothing_located(session: Session) -> (step: Step)
    ensures
        step@ == model::nothing_located(session@),
{
    if session.task == Task::Locate {
        Step::Finished(Outcome::Located(None))
    } else {
        goto(session, Phase::Generating)
    }
}

/// A step of the migration failed: the file is put back from its sidecar.
fn recover(session: Session, error: KeychainError) -> (step: Step)
    ensures
        step@ == model::recover(session@, error@),
{
    let mut session = session;
    session.phase = Phase::RecoverProbe;
    session.failure = Some(error);
    Step::Pending(session)
}

/// The recovery is over.
fn recovered(session: Session, own: Outcome) -> (step: Step)
    ensures
        step@ == model::recovered(session@, own@),
{
    match session.failure {
        Some(error) => fail(error),
        None => Step::Finished(own),
    }
}

/// The sweep is over.
fn swept(session: Session) -> (step: Step)
    ensures
        step@ == model::swept(session@),
{
    if session.next == Next::Refetch {
        goto(session, Phase::Refetching)
    } else if session.task == Task::Initialize {
        Step::Finished(Outcome::Secret(session.secret))
    } else {
        Step::Finished(Outcome::Done)
    }
}

/// The sweep failed.
fn sweep_failed(session: Session, error: KeychainError) -> (step: Step)
    ensures
        step@ == model::sweep_failed(session@, error@),
{
    if session.task == Task::Initialize {
        swept(session)
    } else {
        fail(error)
    }
}

/// The sweep starts, where there is a data directory.
fn enter_sweep(session: Session) -> (step: Step)
    ensures
        step@ == model::enter_sweep(session@),
{
    if session.paths.is_some() {
        goto(session, Phase::SweepCurrent)
    } else {
        sweep_failed(session, KeychainError::AppSupportDirNotFound)
    }
}

/// The migration is over.
fn migrated(session: Session) -> (step: Step)
    ensures
        step@ == model::migrated(session@),
{
    if session.task == Task::Initialize || session.task == Task::Authorize {
        let mut session = session;
        session.next = Next::Refetch;
        enter_sweep(session)
    } else {
        Step::Finished(Outcome::Done)
    }
}

/// The sweep that follows once the secret is known.
fn sweep_with_secret(session: Session, key: String) -> (step: Step)
    ensures
        step@ == model::enter_sweep(
            SessionView { secret: key@, next: Next::Return, ..session@ },
        ),
{
    let mut session = session;
    session.secret = key;
    session.next = Next::Return;
    enter_sweep(session)
}

/// The session after the secret was read.
fn after_fetch(session: Session, read: Result<String, KeychainError>) -> (step: Step)
    ensures
        step@ == model::after_fetch(session@, key_result_view(read)),
{
    match session.phase {
        Phase::Fetching => match read {
            Ok(key) => {
                if session.task == Task::Initialize {
                    sweep_with_secret(session, key)
                } else {
                    Step::Finished(Outcome::Done)
                }
            },
            Err(error) => {
                if error.kind() == ErrorKind::KeyNotFound {
                    enter_locate(session)
                } else {
                    fail(error)
                }
            },
        },
        Phase::Refetching => match read {
            Ok(key) => {
                if session.task == Task::Initialize {
                    Step::Finished(Outcome::Secret(key))
                } else {
                    Step::Finished(Outcome::Done)
                }
            },
            Err(error) => fail(error),
        },
        _ => Step::Pending(session),
    }
}

/// The session after the secret was written to the store.
fn after_store(session: Session, written: Result<(), KeychainError>) -> (step: Step)
    ensures
        step@ == model::after_store(session@, unit_result_view(written)),
{
    match session.phase {
        Phase::MigrateStore => match written {
            Ok(_) => goto(session, Phase::MigrateRemove),
            Err(error) => recover(session, error),
        },
        _ => Step::Pending(session),
    }
}

/// The session after a fresh secret was made and written to the store.
fn after_generate(session: Session, made: Result<String, KeychainError>) -> (step: Step)
    ensures
        step@ == model::after_generate(session@, key_result_view(made)),
{
    match session.phase {
        Phase::Generating => match made {
            Ok(key) => sweep_with_secret(session, key),
            Err(error) => fail(error),
        },
        _ => Step::Pending(session),
    }
}

/// The sweep has found a redundant key file at `path`.
fn sweep_found(session: Session, path: String) -> (step: Step)
    ensures
        step@ == StepView::Pending(
            SessionView { phase: Phase::SweepConfirm, target: path@, ..session@ },
        ),
{
    let mut session = session;
    session.phase = Phase::SweepConfirm;
    session.target = path;
    Step::Pending(session)
}

/// The session after a file was looked for.
fn after_probe(session: Session, found: bool) -> (step: Step)
    ensures
        step@ == model::after_probe(session@, found),
{
    match session.phase {
        Phase::ProbeCurrent => {
            if found {
                let path = current_place(&session.paths);
                located(session, path)
            } else {
                goto(session, Phase::ProbeAlternate)
            }
        },
        Phase::ProbeAlternate => {
            if found {
                let path = alternate_place(&session.paths);
                located(session, path)
            } else {
                nothing_located(session)
            }
        },
        Phase::MigrateProbe => {
            if found {
                goto(session, Phase::MigrateBackup)
            } else {
                migrated(session)
            }
        },
        Phase::RecoverProbe => {
            if found {
                goto(session, Phase::RecoverRestore)
            } else {
                recovered(session, Outcome::Failed(no_backup()))
            }
        },
        Phase::SweepCurrent => {
            if found {
                let path = current_place(&session.paths);
                sweep_found(session, path)
            } else {
                goto(session, Phase::SweepAlternate)
            }
        },
        Phase::SweepAlternate => {
            if found {
                let path = alternate_place(&session.paths);
                sweep_found(session, path)
            } else {
                swept(session)
            }
        },
        Phase::SweepConfirm => {
            if found {
                goto(session, Phase::SweepRemove)
            } else {
                swept(session)
            }
        },
        _ => Step::Pending(session),
    }
}

/// The session after a file was copied.
fn after_copy(session: Session, copied: Result<(), String>) -> (step: Step)
    ensures
        step@ == model::after_copy(session@, file_result_view(copied)),
{
    match session.phase {
        Phase::MigrateBackup => match copied {
            Ok(_) => goto(session, Phase::MigrateRead),
            Err(detail) => fail(file_failure("Failed to create backup: ", detail)),
        },
        Phase::RecoverRestore => match copied {
            Ok(_) => goto(session, Phase::RecoverDrop),
            Err(detail) => {
                let own = Outcome::Failed(file_failure("Failed to restore from backup: ", detail));
                recovered(session, own)
            },
        },
        _ => Step::Pending(session),
    }
}

/// The session after a file was read.
fn after_read(session: Session, read: Result<String, String>) -> (step: Step)
    ensures
        step@ == model::after_read(session@, text_result_view(read)),
{
    match session.phase {
        Phase::MigrateRead => match read {
            Ok(text) => {
                let mut session = session;
                session.phase = Phase::MigrateStore;
                session.secret = text;
                Step::Pending(session)
            },
            Err(detail) => {
                let error = file_failure("Failed to read key file: ", detail);
                recover(session, error)
            },
        },
        _ => Step::Pending(session),
    }
}

/// The session after a file was deleted.
fn after_remove(session: Session, removed: Result<(), String>) -> (step: Step)
    ensures
        step@ == model::after_remove(session@, file_result_view(removed)),
{
    match session.phase {
        Phase::MigrateRemove => match removed {
            Ok(_) => goto(session, Phase::MigrateDropBackup),
            Err(detail) => {
                let error = file_failure("Failed to delete key file: ", detail);
                recover(session, error)
            },
        },
        Phase::MigrateDropBackup => migrated(session),
        Phase::RecoverDrop => match removed {
            Ok(_) => recovered(session, Outcome::Done),
            Err(detail) => {
                let own = Outcome::Failed(file_failure("Failed to clean up backup: ", detail));
                recovered(session, own)
            },
        },
        Phase::SweepRemove => match removed {
            Ok(_) => swept(session),
            Err(detail) => {
                let error = file_failure("Failed to delete key file: ", detail);
                sweep_failed(session, error)
            },
        },
        _ => Step::Pending(session),
    }
}

/// A session at its first phase.
fn fresh(task: Task, phase: Phase, paths: Option<KeyFilePaths>, target: String) -> (session:
    Session)
    ensures
        session@ == model::fresh(task, phase, paths_view(paths), target@),
{
    Session {
        task,
        phase,
        next: Next::Return,
        paths,
        target,
        secret: String::new(),
        failure: None,
    }
}

impl Session {
    /// The request whose answer this session waits for.
    pub fn request(&self) -> (request: Request)
        ensures
            request@ == model::pending(self@),
    {
        match self.phase {
            Phase::Fetching | Phase::Refetching => Request::FetchKey,
            Phase::Generating => Request::GenerateKey,
            Phase::MigrateStore => Request::StoreKey(self.secret.clone()),
            Phase::ProbeCurrent | Phase::SweepCurrent => Request::Probe(current_place(&self.paths)),
            Phase::ProbeAlternate | Phase::SweepAlternate => Request::Probe(
                alternate_place(&self.paths),
            ),
            Phase::MigrateProbe | Phase::SweepConfirm => Request::Probe(self.target.clone()),
            Phase::RecoverProbe => Request::Probe(backup_path(self.target.as_str())),
            Phase::MigrateBackup => Request::Copy {
                from: self.target.clone(),
                to: backup_path(self.target.as_str()),
            },
            Phase::RecoverRestore => Request::Copy {
                from: backup_path(self.target.as_str()),
                to: self.target.clone(),
            },
            Phase::MigrateRead => Request::ReadFile(self.target.clone()),
            Phase::MigrateRemove | Phase::SweepRemove => Request::RemoveFile(self.target.clone()),
            Phase::MigrateDropBackup | Phase::RecoverDrop => Request::RemoveFile(
                backup_path(self.target.as_str()),
            ),
        }
    }

    /// Moves the session on by one reply. A reply that does not answer the
    /// pending request leaves the session as it is.
    pub fn advance(self, reply: Reply) -> (step: Step)
        ensures
            step@ == model::advance(self@, reply@),
    {
        match reply {
            Reply::Fetched(read) => after_fetch(self, read),
            Reply::Stored(written) => after_store(self, written),
            Reply::Generated(made) => after_generate(self, made),
            Reply::Probed(found) => after_probe(self, found),
            Reply::Copied(copied) => after_copy(self, copied),
            Reply::FileRead(read) => after_read(self, read),
            Reply::Removed(removed) => after_remove(self, removed),
        }
    }
}

impl Request {
    /// Whether this request is for the credential store rather than for a
    /// file.
    pub fn concerns_store(&self) -> (store: bool)
        ensures
            store == model::concerns_store(self@),
    {
        match self {
            Request::FetchKey | Request::StoreKey(_) | Request::GenerateKey => true,
            _ => false,
        }
    }
}

/// Begins an initialization.
pub fn begin_initialize(paths: Option<KeyFilePaths>) -> (step: Step)
    ensures
        step@ == model::begin_initialize(paths_view(paths)),
{
    Step::Pending(fresh(Task::Initialize, Phase::Fetching, paths, String::new()))
}

/// Begins an authorization.
pub fn begin_authorize(paths: Option<KeyFilePaths>) -> (step: Step)
    ensures
        step@ == model::begin_authorize(paths_view(paths)),
{
    Step::Pending(fresh(Task::Authorize, Phase::Fetching, paths, String::new()))
}

/// Begins the migration of the key file at `path`.
pub fn begin_migrate(path: String) -> (step: Step)
    ensures
        step@ == model::begin_migrate(path@),
{
    Step::Pending(fresh(Task::Migrate, Phase::MigrateProbe, None, path))
}

/// Begins a search for a key file.
pub fn begin_locate(paths: Option<KeyFilePaths>) -> (step: Step)
    ensures
        step@ == model::begin_locate(paths_view(paths)),
{
    enter_locate(fresh(Task::Locate, Phase::ProbeCurrent, paths, String::new()))
}

/// Begins a sweep of redundant key files.
pub fn begin_cleanup(paths: Option<KeyFilePaths>) -> (step: Step)
    ensures
        step@ == model::begin_cleanup(paths_view(paths)),
{
    enter_sweep(fresh(Task::Cleanup, Phase::SweepCurrent, paths, String::new()))
}

/// Begins the recovery of the file at `path` from its sidecar.
pub fn begin_recover(path: String) -> (step: Step)
    ensures
        step@ == model::begin_recover(path@),
{
    Step::Pending(fresh(Task::Recover, Phase::RecoverProbe, None, path))
}

} // verus!
