//! The opening of the encrypted database as it runs: openings, requests and
//! replies in executable form, each with its mathematical value.

use vstd::prelude::*;
use vstd::string::*;
use crate::error::{ErrorArea, ErrorResponse, KeychainError};
use crate::location::{local_data_root, support_dir_in, BuildVariant};
use crate::opening;
use crate::opening::{
    OpenPhase, OpenReplyView, OpenRequestView, OpenStepView, OpeningView, SchemaAnswerView,
    Trouble,
};
use crate::protocol::{file_result_view, key_result_view, unit_result_view};
use crate::text::text_of;

verus! {

/// An opening: its phase and what it carries along. It carries the secret,
/// so it has no printed form.
pub struct Opening {
    pub phase: OpenPhase,
    pub trouble: Trouble,
    pub lenient: bool,
    pub db_exists: bool,
    pub dir: String,
    pub db: String,
    pub sibling_db: String,
    pub key: String,
    pub key_file: String,
}

/// An operation that an opening asks for.
pub enum OpenRequest {
    CreateDir(String),
    Probe(String),
    CopyFile { from: String, to: String },
    Authorize,
    Initialize,
    Connect(String),
    Unlock(String),
    RemoveFile(String),
    LocateKeyFile,
    MigrateKeyFile(String),
    FetchKey,
    QuerySchema,
    CheckTable,
    CreateSchema,
}

/// What the database says of its table of entries.
pub enum SchemaAnswer {
    Present,
    Missing,
    QueryFailed(String),
    RowFailed(String),
}

/// The answer to a request of an opening.
pub enum OpenReply {
    DirCreated(Result<(), String>),
    Probed(bool),
    Copied(Result<(), String>),
    Authorized(Result<(), KeychainError>),
    Keyed(Result<String, KeychainError>),
    Connected(Result<(), String>),
    Unlocked(Result<(), String>),
    Removed,
    KeyFileLocated(Option<String>),
    KeyFileMigrated(bool),
    Fetched(Option<String>),
    SchemaQueried(SchemaAnswer),
    TableChecked(bool),
    SchemaCreated(Result<(), String>),
}

/// An opening that waits for an answer, or how it ended.
pub enum OpenStep {
    Pending(Opening),
    Opened,
    Failed(ErrorResponse),
}

impl View for Opening {
    type V = OpeningView;

    open spec fn view(&self) -> OpeningView {
        OpeningView {
            phase: self.phase,
            trouble: self.trouble,
            lenient: self.lenient,
            db_exists: self.db_exists,
            dir: self.dir@,
            db: self.db@,
            sibling_db: self.sibling_db@,
            key: self.key@,
            key_file: self.key_file@,
        }
    }
}

impl View for OpenRequest {
    type V = OpenRequestView;

    open spec fn view(&self) -> OpenRequestView {
        match self {
            OpenRequest::CreateDir(dir) => OpenRequestView::CreateDir(dir@),
            OpenRequest::Probe(path) => OpenRequestView::Probe(path@),
            OpenRequest::CopyFile { from, to } => OpenRequestView::CopyFile { from: from@, to: to@ },
            OpenRequest::Authorize => OpenRequestView::Authorize,
            OpenRequest::Initialize => OpenRequestView::Initialize,
            OpenRequest::Connect(path) => OpenRequestView::Connect(path@),
            OpenRequest::Unlock(key) => OpenRequestView::Unlock(key@),
            OpenRequest::RemoveFile(path) => OpenRequestView::RemoveFile(path@),
            OpenRequest::LocateKeyFile => OpenRequestView::LocateKeyFile,
            OpenRequest::MigrateKeyFile(path) => OpenRequestView::MigrateKeyFile(path@),
            OpenRequest::FetchKey => OpenRequestView::FetchKey,
            OpenRequest::QuerySchema => OpenRequestView::QuerySchema,
            OpenRequest::CheckTable => OpenRequestView::CheckTable,
            OpenRequest::CreateSchema => OpenRequestView::CreateSchema,
        }
    }
}

impl View for SchemaAnswer {
    type V = SchemaAnswerView;

    open spec fn view(&self) -> SchemaAnswerView {
        match self {
            SchemaAnswer::Present => SchemaAnswerView::Present,
            SchemaAnswer::Missing => SchemaAnswerView::Missing,
            SchemaAnswer::QueryFailed(detail) => SchemaAnswerView::QueryFailed(detail@),
            SchemaAnswer::RowFailed(detail) => SchemaAnswerView::RowFailed(detail@),
        }
    }
}

impl View for OpenReply {
    type V = OpenReplyView;

    open spec fn view(&self) -> OpenReplyView {
        match self {
            OpenReply::DirCreated(made) => OpenReplyView::DirCreated(file_result_view(*made)),
            OpenReply::Probed(found) => OpenReplyView::Probed(*found),
            OpenReply::Copied(copied) => OpenReplyView::Copied(file_result_view(*copied)),
            OpenReply::Authorized(done) => OpenReplyView::Authorized(unit_result_view(*done)),
            OpenReply::Keyed(key) => OpenReplyView::Keyed(key_result_view(*key)),
            OpenReply::Connected(made) => OpenReplyView::Connected(file_result_view(*made)),
            OpenReply::Unlocked(done) => OpenReplyView::Unlocked(file_result_view(*done)),
            OpenReply::Removed => OpenReplyView::Removed,
            OpenReply::KeyFileLocated(path) => OpenReplyView::KeyFileLocated(text_of(*path)),
            OpenReply::KeyFileMigrated(done) => OpenReplyView::KeyFileMigrated(*done),
            OpenReply::Fetched(key) => OpenReplyView::Fetched(text_of(*key)),
            OpenReply::SchemaQueried(answer) => OpenReplyView::SchemaQueried(answer@),
            OpenReply::TableChecked(found) => OpenReplyView::TableChecked(*found),
            OpenReply::SchemaCreated(made) => OpenReplyView::SchemaCreated(file_result_view(*made)),
        }
    }
}

impl View for OpenStep {
    type V = OpenStepView;

    open spec fn view(&self) -> OpenStepView {
        match self {
            OpenStep::Pending(opening) => OpenStepView::Pending(opening@),
            OpenStep::Opened => OpenStepView::Opened,
            OpenStep::Failed(response) => OpenStepView::Failed(response@),
        }
    }
}

/// The opening ends with a failure in the given area.
fn open_fail(area: ErrorArea, attempt: &str, detail: String) -> (step: OpenStep)
    ensures
        step@ == opening::open_fail(area, attempt@, detail@),
{
    OpenStep::Failed(ErrorResponse::new(String::from_str(attempt).concat(detail.as_str()), area))
}

/// The opening ends with a failure of the key lifecycle.
fn keychain_fail(error: KeychainError) -> (step: OpenStep)
    ensures
        step@ == opening::keychain_failure(error@),
{
    OpenStep::Failed(ErrorResponse::from_keychain(&error))
}

/// The opening goes on at another phase.
fn open_goto(opening: Opening, phase: OpenPhase) -> (step: OpenStep)
    ensures
        step@ == opening::open_goto(opening@, phase),
{
    let mut opening = opening;
    opening.phase = phase;
    OpenStep::Pending(opening)
}

/// The last look for a key file that was never migrated begins.
fn rescue(opening: Opening, trouble: Trouble) -> (step: OpenStep)
    ensures
        step@ == opening::rescue(opening@, trouble),
{
    let mut opening = opening;
    opening.phase = OpenPhase::LocatingKeyFile;
    opening.trouble = trouble;
    OpenStep::Pending(opening)
}

/// The database is unlocked.
fn schema_stage(opening: Opening) -> (step: OpenStep)
    ensures
        step@ == opening::schema_stage(opening@),
{
    if opening.db_exists {
        open_goto(opening, OpenPhase::QueryingSchema)
    } else {
        open_goto(opening, OpenPhase::CreatingSchema)
    }
}

/// The opening knows whether there is a database, and authorizes next.
fn with_database(opening: Opening, db_exists: bool, phase: OpenPhase) -> (step: OpenStep)
    ensures
        step@ == OpenStepView::Pending(OpeningView { phase, db_exists, ..opening@ }),
{
    let mut opening = opening;
    opening.phase = phase;
    opening.db_exists = db_exists;
    OpenStep::Pending(opening)
}

/// The opening has a secret to try, and connects next.
fn with_key(opening: Opening, key: String, phase: OpenPhase) -> (step: OpenStep)
    ensures
        step@ == OpenStepView::Pending(OpeningView { phase, key: key@, ..opening@ }),
{
    let mut opening = opening;
    opening.phase = phase;
    opening.key = key;
    OpenStep::Pending(opening)
}

/// The opening after a folder was created.
fn after_dir(opening: Opening, made: Result<(), String>) -> (step: OpenStep)
    requires
        opening.phase == OpenPhase::CreatingDir || opening.phase == OpenPhase::PreparingDir,
    ensures
        step@ == opening::open_advance(opening@, OpenReplyView::DirCreated(file_result_view(made))),
{
    match made {
        Ok(_) => {
            if opening.phase == OpenPhase::CreatingDir {
                open_goto(opening, OpenPhase::ProbingDatabase)
            } else {
                open_goto(opening, OpenPhase::AdoptingSibling)
            }
        },
        Err(detail) => open_fail(ErrorArea::File, "Failed to create database directory: ", detail),
    }
}

/// The opening after a file was looked for.
fn after_probe(opening: Opening, found: bool) -> (step: OpenStep)
    requires
        opening.phase == OpenPhase::ProbingDatabase || opening.phase == OpenPhase::ProbingSibling,
    ensures
        step@ == opening::open_advance(opening@, OpenReplyView::Probed(found)),
{
    if opening.phase == OpenPhase::ProbingDatabase {
        if found {
            with_database(opening, true, OpenPhase::Authorizing)
        } else {
            with_database(opening, false, OpenPhase::ProbingSibling)
        }
    } else if found {
        open_goto(opening, OpenPhase::PreparingDir)
    } else {
        open_goto(opening, OpenPhase::Authorizing)
    }
}

/// The opening after a connection was attempted.
fn after_connect(opening: Opening, made: Result<(), String>) -> (step: OpenStep)
    requires
        opening::open_pending(opening@) is Connect,
    ensures
        step@ == opening::open_advance(opening@, OpenReplyView::Connected(file_result_view(made))),
{
    match opening.phase {
        OpenPhase::Connecting => match made {
            Ok(_) => open_goto(opening, OpenPhase::Unlocking),
            Err(detail) => {
                if opening.lenient {
                    open_goto(opening, OpenPhase::ClearingUnopenable)
                } else {
                    open_fail(ErrorArea::Database, "Failed to open database: ", detail)
                }
            },
        },
        OpenPhase::ConnectingAfresh => match made {
            Ok(_) => open_goto(opening, OpenPhase::Unlocking),
            Err(detail) => open_fail(
                ErrorArea::Database,
                "Failed to create new database after reset: ",
                detail,
            ),
        },
        OpenPhase::Reconnecting => match made {
            Ok(_) => open_goto(opening, OpenPhase::UnlockingAgain),
            Err(detail) => {
                if opening.trouble == Trouble::KeyRejected {
                    open_fail(
                        ErrorArea::Database,
                        "Failed to reopen database after key migration: ",
                        detail,
                    )
                } else {
                    open_goto(opening, OpenPhase::Wiping)
                }
            },
        },
        _ => match made {
            Ok(_) => open_goto(opening, OpenPhase::UnlockingAfterWipe),
            Err(detail) => open_fail(
                ErrorArea::Database,
                "Failed to create new database after reset: ",
                detail,
            ),
        },
    }
}

/// The opening after the secret was given to the connection.
fn after_unlock(opening: Opening, done: Result<(), String>) -> (step: OpenStep)
    requires
        opening::open_pending(opening@) is Unlock,
    ensures
        step@ == opening::open_advance(opening@, OpenReplyView::Unlocked(file_result_view(done))),
{
    match opening.phase {
        OpenPhase::Unlocking => match done {
            Ok(_) => schema_stage(opening),
            Err(detail) => {
                if opening.lenient {
                    rescue(opening, Trouble::KeyRejected)
                } else {
                    open_fail(ErrorArea::Database, "Failed to set database encryption key: ", detail)
                }
            },
        },
        OpenPhase::UnlockingAgain => match done {
            Ok(_) => {
                if opening.trouble == Trouble::KeyRejected {
                    schema_stage(opening)
                } else {
                    open_goto(opening, OpenPhase::CheckingTable)
                }
            },
            Err(_) => open_goto(opening, OpenPhase::Wiping),
        },
        _ => match done {
            Ok(_) => {
                if opening.trouble == Trouble::KeyRejected {
                    schema_stage(opening)
                } else {
                    open_goto(opening, OpenPhase::CreatingSchemaAfterWipe)
                }
            },
            Err(detail) => open_fail(ErrorArea::Database, "Failed to set key after reset: ", detail),
        },
    }
}

/// The opening after the database was asked for its table of entries.
fn after_schema_query(opening: Opening, answer: SchemaAnswer) -> (step: OpenStep)
    requires
        opening.phase == OpenPhase::QueryingSchema,
    ensures
        step@ == opening::open_advance(opening@, OpenReplyView::SchemaQueried(answer@)),
{
    match answer {
        SchemaAnswer::Present => OpenStep::Opened,
        SchemaAnswer::Missing => {
            if opening.lenient {
                rescue(opening, Trouble::SchemaMissing)
            } else {
                let message = String::from_str(
                    "Database exists but schema is missing or corrupt. Please reset or migrate your database.",
                );
                assert(message@ =~= opening::schema_complaint() + Seq::<char>::empty());
                OpenStep::Failed(ErrorResponse::new(message, ErrorArea::Database))
            }
        },
        SchemaAnswer::QueryFailed(detail) => open_fail(
            ErrorArea::Database,
            "Failed to query schema: ",
            detail,
        ),
        SchemaAnswer::RowFailed(detail) => {
            assert(detail@ =~= Seq::<char>::empty() + detail@);
            OpenStep::Failed(ErrorResponse::new(detail, ErrorArea::Database))
        },
    }
}

/// The opening after the table of entries was created.
fn after_schema_created(opening: Opening, made: Result<(), String>) -> (step: OpenStep)
    requires
        opening.phase == OpenPhase::CreatingSchema || opening.phase
            == OpenPhase::CreatingSchemaAfterWipe,
    ensures
        step@ == opening::open_advance(
            opening@,
            OpenReplyView::SchemaCreated(file_result_view(made)),
        ),
{
    match made {
        Ok(_) => OpenStep::Opened,
        Err(detail) => {
            if opening.phase == OpenPhase::CreatingSchema {
                open_fail(ErrorArea::Database, "Failed to create database schema: ", detail)
            } else {
                open_fail(
                    ErrorArea::Database,
                    "Failed to create database schema after reset: ",
                    detail,
                )
            }
        },
    }
}

impl OpenRequest {
    /// Whether the reply is an answer to this request.
    pub fn is_answered_by(&self, reply: &OpenReply) -> (answered: bool)
        ensures
            answered == opening::open_answers(self@, reply@),
    {
        match (self, reply) {
            (OpenRequest::CreateDir(_), OpenReply::DirCreated(_)) => true,
            (OpenRequest::Probe(_), OpenReply::Probed(_)) => true,
            (OpenRequest::CopyFile { .. }, OpenReply::Copied(_)) => true,
            (OpenRequest::Authorize, OpenReply::Authorized(_)) => true,
            (OpenRequest::Initialize, OpenReply::Keyed(_)) => true,
            (OpenRequest::Connect(_), OpenReply::Connected(_)) => true,
            (OpenRequest::Unlock(_), OpenReply::Unlocked(_)) => true,
            (OpenRequest::RemoveFile(_), OpenReply::Removed) => true,
            (OpenRequest::LocateKeyFile, OpenReply::KeyFileLocated(_)) => true,
            (OpenRequest::MigrateKeyFile(_), OpenReply::KeyFileMigrated(_)) => true,
            (OpenRequest::FetchKey, OpenReply::Fetched(_)) => true,
            (OpenRequest::QuerySchema, OpenReply::SchemaQueried(_)) => true,
            (OpenRequest::CheckTable, OpenReply::TableChecked(_)) => true,
            (OpenRequest::CreateSchema, OpenReply::SchemaCreated(_)) => true,
            _ => false,
        }
    }
}

impl Opening {
    /// The request whose answer this opening waits for.
    pub fn request(&self) -> (request: OpenRequest)
        ensures
            request@ == opening::open_pending(self@),
    {
        match self.phase {
            OpenPhase::CreatingDir | OpenPhase::PreparingDir => OpenRequest::CreateDir(
                self.dir.clone(),
            ),
            OpenPhase::ProbingDatabase => OpenRequest::Probe(self.db.clone()),
            OpenPhase::ProbingSibling => OpenRequest::Probe(self.sibling_db.clone()),
            OpenPhase::AdoptingSibling => OpenRequest::CopyFile {
                from: self.sibling_db.clone(),
                to: self.db.clone(),
            },
            OpenPhase::Authorizing => OpenRequest::Authorize,
            OpenPhase::Initializing => OpenRequest::Initialize,
            OpenPhase::Connecting
            | OpenPhase::ConnectingAfresh
            | OpenPhase::Reconnecting
            | OpenPhase::ConnectingAfterWipe => OpenRequest::Connect(self.db.clone()),
            OpenPhase::Unlocking | OpenPhase::UnlockingAgain | OpenPhase::UnlockingAfterWipe =>
                OpenRequest::Unlock(self.key.clone()),
            OpenPhase::ClearingUnopenable | OpenPhase::Wiping => OpenRequest::RemoveFile(
                self.db.clone(),
            ),
            OpenPhase::LocatingKeyFile => OpenRequest::LocateKeyFile,
            OpenPhase::MigratingKeyFile => OpenRequest::MigrateKeyFile(self.key_file.clone()),
            OpenPhase::FetchingKey => OpenRequest::FetchKey,
            OpenPhase::QueryingSchema => OpenRequest::QuerySchema,
            OpenPhase::CheckingTable => OpenRequest::CheckTable,
            OpenPhase::CreatingSchema | OpenPhase::CreatingSchemaAfterWipe =>
                OpenRequest::CreateSchema,
        }
    }

    /// Moves the opening on by one reply. A reply that does not answer the
    /// pending request leaves the opening as it is.
    pub fn advance(self, reply: OpenReply) -> (step: OpenStep)
        ensures
            step@ == opening::open_advance(self@, reply@),
    {
        let request = self.request();
        if !request.is_answered_by(&reply) {
            return OpenStep::Pending(self);
        }
        match reply {
            OpenReply::DirCreated(made) => after_dir(self, made),
            OpenReply::Probed(found) => after_probe(self, found),
            OpenReply::Copied(copied) => match copied {
                Ok(_) => with_database(self, true, OpenPhase::Authorizing),
                Err(detail) => open_fail(
                    ErrorArea::File,
                    "Failed to migrate legacy database: ",
                    detail,
                ),
            },
            OpenReply::Authorized(done) => match done {
                Ok(_) => open_goto(self, OpenPhase::Initializing),
                Err(error) => keychain_fail(error),
            },
            OpenReply::Keyed(key) => match key {
                Ok(key) => with_key(self, key, OpenPhase::Connecting),
                Err(error) => keychain_fail(error),
            },
            OpenReply::Connected(made) => after_connect(self, made),
            OpenReply::Unlocked(done) => after_unlock(self, done),
            OpenReply::Removed => {
                if self.phase == OpenPhase::ClearingUnopenable {
                    open_goto(self, OpenPhase::ConnectingAfresh)
                } else {
                    open_goto(self, OpenPhase::ConnectingAfterWipe)
                }
            },
            OpenReply::KeyFileLocated(path) => match path {
                Some(path) => {
                    let mut opening = self;
                    opening.phase = OpenPhase::MigratingKeyFile;
                    opening.key_file = path;
                    OpenStep::Pending(opening)
                },
                None => open_goto(self, OpenPhase::Wiping),
            },
            OpenReply::KeyFileMigrated(done) => {
                if done {
                    open_goto(self, OpenPhase::FetchingKey)
                } else {
                    open_goto(self, OpenPhase::Wiping)
                }
            },
            OpenReply::Fetched(key) => match key {
                Some(key) => with_key(self, key, OpenPhase::Reconnecting),
                None => open_goto(self, OpenPhase::Wiping),
            },
            OpenReply::SchemaQueried(answer) => after_schema_query(self, answer),
            OpenReply::TableChecked(found) => {
                if found {
                    OpenStep::Opened
                } else {
                    open_goto(self, OpenPhase::Wiping)
                }
            },
            OpenReply::SchemaCreated(made) => after_schema_created(self, made),
        }
    }
}

/// The database file in a data folder.
pub fn database_file(dir: &str) -> (db: String)
    ensures
        db@ == opening::database_in(dir@),
{
    let mut db = String::from_str(dir);
    db.append("/journal.db");
    db
}

/// Whether a build of this variant may wipe a database that no key opens:
/// a development build may, a production build may not.
pub fn lenient_for(variant: BuildVariant) -> (lenient: bool)
    ensures
        lenient == opening::lenient_for(variant),
{
    variant == BuildVariant::Development
}

/// Begins an opening of the database under the given root.
pub fn begin_open(root: Option<String>, variant: BuildVariant, lenient: bool) -> (step: OpenStep)
    ensures
        step@ == opening::begin_open(text_of(root), variant, lenient),
{
    match root {
        Some(root) => {
            let dir = support_dir_in(root.as_str(), variant);
            let db = database_file(dir.as_str());
            let sibling_dir = support_dir_in(root.as_str(), variant.sibling());
            let sibling_db = database_file(sibling_dir.as_str());
            OpenStep::Pending(
                Opening {
                    phase: OpenPhase::CreatingDir,
                    trouble: Trouble::KeyRejected,
                    lenient,
                    db_exists: false,
                    dir,
                    db,
                    sibling_db,
                    key: String::new(),
                    key_file: String::new(),
                },
            )
        },
        None => OpenStep::Failed(
            ErrorResponse::new(
                String::from_str("Could not determine application support directory"),
                ErrorArea::AppSupport,
            ),
        ),
    }
}

/// Begins an opening of the database on this machine, lenient for a
/// development build and strict for a production build. Where the user has
/// a local data directory, the opening is the one under that root.
pub fn begin_open_here(variant: BuildVariant) -> (step: OpenStep)
    ensures
        exists|root: Option<Seq<char>>|
            step@ == opening::begin_open(root, variant, opening::lenient_for(variant)),
{
    let root = local_data_root();
    let ghost root_text = text_of(root);
    let step = begin_open(root, variant, lenient_for(variant));
    assert(step@ == opening::begin_open(root_text, variant, opening::lenient_for(variant)));
    step
}

} // verus!
