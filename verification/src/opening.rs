//! The opening of the encrypted database as a mathematical state machine.
//!
//! The database lies in the data folder of the running build variant and is
//! unlocked with the secret. An opening names the next operation, on a file,
//! on the key lifecycle or on the database, and moves on by its answer. A
//! lenient opening may wipe a database that no key opens, after a last look
//! for a key file that was never migrated; a strict opening never does.

use vstd::prelude::*;
use crate::error::{
    lemma_user_message_never_empty, user_message, ErrorArea, ErrorView, ResponseView,
};
use crate::location::{sibling_of, support_dir_under, BuildVariant};

verus! {

/// Where an opening stands: the operation whose answer it waits for.
#[derive(Clone, Copy, Debug, PartialEq, Eq, Structural)]
pub enum OpenPhase {
    /// Creating the data folder.
    CreatingDir,
    /// Looking for the database.
    ProbingDatabase,
    /// Looking for the database of the sibling build variant.
    ProbingSibling,
    /// Creating the data folder again, before the sibling's database is
    /// copied.
    PreparingDir,
    /// Copying the sibling's database.
    AdoptingSibling,
    /// Making sure that there is a secret.
    Authorizing,
    /// Getting the secret.
    Initializing,
    /// Connecting to the database.
    Connecting,
    /// Deleting a database file that cannot be connected to.
    ClearingUnopenable,
    /// Connecting after that deletion.
    ConnectingAfresh,
    /// Unlocking the database with the secret.
    Unlocking,
    /// Looking for a key file that was never migrated.
    LocatingKeyFile,
    /// Migrating that key file.
    MigratingKeyFile,
    /// Reading the secret after that migration.
    FetchingKey,
    /// Connecting again, to try the migrated secret.
    Reconnecting,
    /// Unlocking with the migrated secret.
    UnlockingAgain,
    /// Checking that the table of entries can be read with the migrated
    /// secret.
    CheckingTable,
    /// Deleting the database file.
    Wiping,
    /// Connecting to the empty database.
    ConnectingAfterWipe,
    /// Putting the empty database under the secret.
    UnlockingAfterWipe,
    /// Creating the table of entries in the empty database.
    CreatingSchemaAfterWipe,
    /// Asking an existing database for its table of entries.
    QueryingSchema,
    /// Creating the table of entries in a new database.
    CreatingSchema,
}

/// What made an opening look for a key file or wipe the database.
#[derive(Clone, Copy, Debug, PartialEq, Eq, Structural)]
pub enum Trouble {
    /// The database did not take the secret.
    KeyRejected,
    /// The database took the secret but shows no table of entries.
    SchemaMissing,
}

/// An opening: its phase and what it carries along.
pub struct OpeningView {
    pub phase: OpenPhase,
    pub trouble: Trouble,
    /// Whether a database that no key opens may be wiped.
    pub lenient: bool,
    /// Whether a database was there, or was copied, before the opening.
    pub db_exists: bool,
    /// The data folder.
    pub dir: Seq<char>,
    /// The database file.
    pub db: Seq<char>,
    /// The database file of the sibling build variant.
    pub sibling_db: Seq<char>,
    /// The secret.
    pub key: Seq<char>,
    /// The key file that was never migrated.
    pub key_file: Seq<char>,
}

/// An operation that an opening asks for.
pub enum OpenRequestView {
    /// Create the folder and what lies above it.
    CreateDir(Seq<char>),
    /// Say whether a file exists at this path.
    Probe(Seq<char>),
    /// Copy the file at `from` to `to`.
    CopyFile { from: Seq<char>, to: Seq<char> },
    /// Run an authorization of the key lifecycle.
    Authorize,
    /// Run an initialization of the key lifecycle.
    Initialize,
    /// Connect to the database at this path, in place of any connection
    /// made before.
    Connect(Seq<char>),
    /// Give the connection this secret as the key of the database.
    Unlock(Seq<char>),
    /// Delete the file at this path; whether that works does not matter.
    RemoveFile(Seq<char>),
    /// Run a search for a key file.
    LocateKeyFile,
    /// Run a migration of the key file at this path.
    MigrateKeyFile(Seq<char>),
    /// Read the secret, from the cache or the store.
    FetchKey,
    /// Ask the database for the name of its table of entries.
    QuerySchema,
    /// Try to read the table of entries.
    CheckTable,
    /// Create the table of entries.
    CreateSchema,
}

/// What the database says of its table of entries.
pub enum SchemaAnswerView {
    /// The table is there.
    Present,
    /// The table is not there, or the question could not even be prepared:
    /// either way the key may be the wrong one.
    Missing,
    /// The question failed when it was run.
    QueryFailed(Seq<char>),
    /// The answer failed when it was read.
    RowFailed(Seq<char>),
}

/// The answer to a request of an opening. A failed operation on a file or
/// on the database answers with its native detail.
pub enum OpenReplyView {
    DirCreated(Result<(), Seq<char>>),
    Probed(bool),
    Copied(Result<(), Seq<char>>),
    Authorized(Result<(), ErrorView>),
    Keyed(Result<Seq<char>, ErrorView>),
    Connected(Result<(), Seq<char>>),
    Unlocked(Result<(), Seq<char>>),
    Removed,
    KeyFileLocated(Option<Seq<char>>),
    KeyFileMigrated(bool),
    Fetched(Option<Seq<char>>),
    SchemaQueried(SchemaAnswerView),
    TableChecked(bool),
    SchemaCreated(Result<(), Seq<char>>),
}

/// An opening that waits for an answer, or how it ended.
pub enum OpenStepView {
    Pending(OpeningView),
    /// The connection made last is open, unlocked and has the table of
    /// entries.
    Opened,
    Failed(ResponseView),
}

/// The database file in a data folder.
pub open spec fn database_in(dir: Seq<char>) -> Seq<char> {
    dir + "/journal.db"@
}

/// The request whose answer the opening waits for.
pub open spec fn open_pending(s: OpeningView) -> OpenRequestView {
    match s.phase {
        OpenPhase::CreatingDir | OpenPhase::PreparingDir => OpenRequestView::CreateDir(s.dir),
        OpenPhase::ProbingDatabase => OpenRequestView::Probe(s.db),
        OpenPhase::ProbingSibling => OpenRequestView::Probe(s.sibling_db),
        OpenPhase::AdoptingSibling => OpenRequestView::CopyFile { from: s.sibling_db, to: s.db },
        OpenPhase::Authorizing => OpenRequestView::Authorize,
        OpenPhase::Initializing => OpenRequestView::Initialize,
        OpenPhase::Connecting | OpenPhase::ConnectingAfresh | OpenPhase::Reconnecting
        | OpenPhase::ConnectingAfterWipe => OpenRequestView::Connect(s.db),
        OpenPhase::Unlocking | OpenPhase::UnlockingAgain | OpenPhase::UnlockingAfterWipe =>
            OpenRequestView::Unlock(s.key),
        OpenPhase::ClearingUnopenable | OpenPhase::Wiping => OpenRequestView::RemoveFile(s.db),
        OpenPhase::LocatingKeyFile => OpenRequestView::LocateKeyFile,
        OpenPhase::MigratingKeyFile => OpenRequestView::MigrateKeyFile(s.key_file),
        OpenPhase::FetchingKey => OpenRequestView::FetchKey,
        OpenPhase::QueryingSchema => OpenRequestView::QuerySchema,
        OpenPhase::CheckingTable => OpenRequestView::CheckTable,
        OpenPhase::CreatingSchema | OpenPhase::CreatingSchemaAfterWipe =>
            OpenRequestView::CreateSchema,
    }
}

/// Whether the reply is an answer to the request.
pub open spec fn open_answers(request: OpenRequestView, reply: OpenReplyView) -> bool {
    match request {
        OpenRequestView::CreateDir(_) => reply is DirCreated,
        OpenRequestView::Probe(_) => reply is Probed,
        OpenRequestView::CopyFile { .. } => reply is Copied,
        OpenRequestView::Authorize => reply is Authorized,
        OpenRequestView::Initialize => reply is Keyed,
        OpenRequestView::Connect(_) => reply is Connected,
        OpenRequestView::Unlock(_) => reply is Unlocked,
        OpenRequestView::RemoveFile(_) => reply is Removed,
        OpenRequestView::LocateKeyFile => reply is KeyFileLocated,
        OpenRequestView::MigrateKeyFile(_) => reply is KeyFileMigrated,
        OpenRequestView::FetchKey => reply is Fetched,
        OpenRequestView::QuerySchema => reply is SchemaQueried,
        OpenRequestView::CheckTable => reply is TableChecked,
        OpenRequestView::CreateSchema => reply is SchemaCreated,
    }
}

/// The opening ends with a failure in the given area: what was attempted,
/// then the native detail.
pub open spec fn open_fail(area: ErrorArea, attempt: Seq<char>, detail: Seq<char>) -> OpenStepView {
    OpenStepView::Failed(ResponseView { message: attempt + detail, area })
}

/// The opening ends with a failure of the key lifecycle: the user is shown
/// the message for its kind, never its native detail.
pub open spec fn keychain_failure(error: ErrorView) -> OpenStepView {
    OpenStepView::Failed(
        ResponseView { message: user_message(error.kind), area: ErrorArea::Keychain },
    )
}

/// The opening goes on at another phase.
pub open spec fn open_goto(s: OpeningView, phase: OpenPhase) -> OpenStepView {
    OpenStepView::Pending(OpeningView { phase, ..s })
}

/// The last look for a key file that was never migrated begins.
pub open spec fn rescue(s: OpeningView, trouble: Trouble) -> OpenStepView {
    OpenStepView::Pending(OpeningView { phase: OpenPhase::LocatingKeyFile, trouble, ..s })
}

/// The database is unlocked: an existing one is asked for its table, a new
/// one gets its table.
pub open spec fn schema_stage(s: OpeningView) -> OpenStepView {
    if s.db_exists {
        open_goto(s, OpenPhase::QueryingSchema)
    } else {
        open_goto(s, OpenPhase::CreatingSchema)
    }
}

/// What is said when an existing database shows no table of entries and
/// may not be wiped.
pub open spec fn schema_complaint() -> Seq<char> {
    "Database exists but schema is missing or corrupt. Please reset or migrate your database."@
}

/// The opening after a reply. A reply that does not answer the pending
/// request leaves the opening as it is.
pub open spec fn open_advance(s: OpeningView, reply: OpenReplyView) -> OpenStepView {
    if !open_answers(open_pending(s), reply) {
        OpenStepView::Pending(s)
    } else {
        match s.phase {
            OpenPhase::CreatingDir => match reply->DirCreated_0 {
                Ok(_) => open_goto(s, OpenPhase::ProbingDatabase),
                Err(detail) => open_fail(
                    ErrorArea::File,
                    "Failed to create database directory: "@,
                    detail,
                ),
            },
            OpenPhase::ProbingDatabase => if reply->Probed_0 {
                OpenStepView::Pending(
                    OpeningView { phase: OpenPhase::Authorizing, db_exists: true, ..s },
                )
            } else {
                OpenStepView::Pending(
                    OpeningView { phase: OpenPhase::ProbingSibling, db_exists: false, ..s },
                )
            },
            OpenPhase::ProbingSibling => if reply->Probed_0 {
                open_goto(s, OpenPhase::PreparingDir)
            } else {
                open_goto(s, OpenPhase::Authorizing)
            },
            OpenPhase::PreparingDir => match reply->DirCreated_0 {
                Ok(_) => open_goto(s, OpenPhase::AdoptingSibling),
                Err(detail) => open_fail(
                    ErrorArea::File,
                    "Failed to create database directory: "@,
                    detail,
                ),
            },
            OpenPhase::AdoptingSibling => match reply->Copied_0 {
                Ok(_) => OpenStepView::Pending(
                    OpeningView { phase: OpenPhase::Authorizing, db_exists: true, ..s },
                ),
                Err(detail) => open_fail(
                    ErrorArea::File,
                    "Failed to migrate legacy database: "@,
                    detail,
                ),
            },
            OpenPhase::Authorizing => match reply->Authorized_0 {
                Ok(_) => open_goto(s, OpenPhase::Initializing),
                Err(error) => keychain_failure(error),
            },
            OpenPhase::Initializing => match reply->Keyed_0 {
                Ok(key) => OpenStepView::Pending(
                    OpeningView { phase: OpenPhase::Connecting, key, ..s },
                ),
                Err(error) => keychain_failure(error),
            },
            OpenPhase::Connecting => match reply->Connected_0 {
                Ok(_) => open_goto(s, OpenPhase::Unlocking),
                Err(detail) => if s.lenient {
                    open_goto(s, OpenPhase::ClearingUnopenable)
                } else {
                    open_fail(ErrorArea::Database, "Failed to open database: "@, detail)
                },
            },
            OpenPhase::ClearingUnopenable => open_goto(s, OpenPhase::ConnectingAfresh),
            OpenPhase::ConnectingAfresh => match reply->Connected_0 {
                Ok(_) => open_goto(s, OpenPhase::Unlocking),
                Err(detail) => open_fail(
                    ErrorArea::Database,
                    "Failed to create new database after reset: "@,
                    detail,
                ),
            },
            OpenPhase::Unlocking => match reply->Unlocked_0 {
                Ok(_) => schema_stage(s),
                Err(detail) => if s.lenient {
                    rescue(s, Trouble::KeyRejected)
                } else {
                    open_fail(
                        ErrorArea::Database,
                        "Failed to set database encryption key: "@,
                        detail,
                    )
                },
            },
            OpenPhase::LocatingKeyFile => match reply->KeyFileLocated_0 {
                Some(path) => OpenStepView::Pending(
                    OpeningView { phase: OpenPhase::MigratingKeyFile, key_file: path, ..s },
                ),
                None => open_goto(s, OpenPhase::Wiping),
            },
            OpenPhase::MigratingKeyFile => if reply->KeyFileMigrated_0 {
                open_goto(s, OpenPhase::FetchingKey)
            } else {
                open_goto(s, OpenPhase::Wiping)
            },
            OpenPhase::FetchingKey => match reply->Fetched_0 {
                Some(key) => OpenStepView::Pending(
                    OpeningView { phase: OpenPhase::Reconnecting, key, ..s },
                ),
                None => open_goto(s, OpenPhase::Wiping),
            },
            OpenPhase::Reconnecting => match reply->Connected_0 {
                Ok(_) => open_goto(s, OpenPhase::UnlockingAgain),
                Err(detail) => if s.trouble == Trouble::KeyRejected {
                    open_fail(
                        ErrorArea::Database,
                        "Failed to reopen database after key migration: "@,
                        detail,
                    )
                } else {
                    open_goto(s, OpenPhase::Wiping)
                },
            },
            OpenPhase::UnlockingAgain => match reply->Unlocked_0 {
                Ok(_) => if s.trouble == Trouble::KeyRejected {
                    schema_stage(s)
                } else {
                    open_goto(s, OpenPhase::CheckingTable)
                },
                Err(_) => open_goto(s, OpenPhase::Wiping),
            },
            OpenPhase::CheckingTable => if reply->TableChecked_0 {
                OpenStepView::Opened
            } else {
                open_goto(s, OpenPhase::Wiping)
            },
            OpenPhase::Wiping => open_goto(s, OpenPhase::ConnectingAfterWipe),
            OpenPhase::ConnectingAfterWipe => match reply->Connected_0 {
                Ok(_) => open_goto(s, OpenPhase::UnlockingAfterWipe),
                Err(detail) => open_fail(
                    ErrorArea::Database,
                    "Failed to create new database after reset: "@,
                    detail,
                ),
            },
            OpenPhase::UnlockingAfterWipe => match reply->Unlocked_0 {
                Ok(_) => if s.trouble == Trouble::KeyRejected {
                    schema_stage(s)
                } else {
                    open_goto(s, OpenPhase::CreatingSchemaAfterWipe)
                },
                Err(detail) => open_fail(
                    ErrorArea::Database,
                    "Failed to set key after reset: "@,
                    detail,
                ),
            },
            OpenPhase::CreatingSchemaAfterWipe => match reply->SchemaCreated_0 {
                Ok(_) => OpenStepView::Opened,
                Err(detail) => open_fail(
                    ErrorArea::Database,
                    "Failed to create database schema after reset: "@,
                    detail,
                ),
            },
            OpenPhase::QueryingSchema => match reply->SchemaQueried_0 {
                SchemaAnswerView::Present => OpenStepView::Opened,
                SchemaAnswerView::Missing => if s.lenient {
                    rescue(s, Trouble::SchemaMissing)
                } else {
                    open_fail(ErrorArea::Database, schema_complaint(), Seq::empty())
                },
                SchemaAnswerView::QueryFailed(detail) => open_fail(
                    ErrorArea::Database,
                    "Failed to query schema: "@,
                    detail,
                ),
                SchemaAnswerView::RowFailed(detail) => open_fail(
                    ErrorArea::Database,
                    Seq::empty(),
                    detail,
                ),
            },
            OpenPhase::CreatingSchema => match reply->SchemaCreated_0 {
                Ok(_) => OpenStepView::Opened,
                Err(detail) => open_fail(
                    ErrorArea::Database,
                    "Failed to create database schema: "@,
                    detail,
                ),
            },
        }
    }
}

/// An opening begins by creating the data folder of the running build
/// variant, where the user has a local data directory.
pub open spec fn begin_open(root: Option<Seq<char>>, variant: BuildVariant, lenient: bool)
    -> OpenStepView {
    match root {
        Some(root) => OpenStepView::Pending(
            OpeningView {
                phase: OpenPhase::CreatingDir,
                trouble: Trouble::KeyRejected,
                lenient,
                db_exists: false,
                dir: support_dir_under(root, variant),
                db: database_in(support_dir_under(root, variant)),
                sibling_db: database_in(support_dir_under(root, sibling_of(variant))),
                key: Seq::empty(),
                key_file: Seq::empty(),
            },
        ),
        None => OpenStepView::Failed(
            ResponseView {
                message: "Could not determine application support directory"@,
                area: ErrorArea::AppSupport,
            },
        ),
    }
}

/// Whether a development build, and no other, may wipe a database that no
/// key opens.
pub open spec fn lenient_for(variant: BuildVariant) -> bool {
    variant == BuildVariant::Development
}

/// An upper bound on the requests that an opening still makes.
pub open spec fn open_rank(s: OpeningView) -> nat {
    let late: bool = s.trouble == Trouble::SchemaMissing;
    match s.phase {
        OpenPhase::CreatingSchema => 1,
        OpenPhase::CreatingSchemaAfterWipe => 2,
        OpenPhase::UnlockingAfterWipe => if late { 3 } else { 13 },
        OpenPhase::ConnectingAfterWipe => if late { 4 } else { 14 },
        OpenPhase::Wiping => if late { 5 } else { 15 },
        OpenPhase::CheckingTable => if late { 6 } else { 16 },
        OpenPhase::UnlockingAgain => if late { 7 } else { 17 },
        OpenPhase::Reconnecting => if late { 8 } else { 18 },
        OpenPhase::FetchingKey => if late { 9 } else { 19 },
        OpenPhase::MigratingKeyFile => if late { 10 } else { 20 },
        OpenPhase::LocatingKeyFile => if late { 11 } else { 21 },
        OpenPhase::QueryingSchema => 12,
        OpenPhase::Unlocking => 22,
        OpenPhase::ConnectingAfresh => 23,
        OpenPhase::ClearingUnopenable => 24,
        OpenPhase::Connecting => 25,
        OpenPhase::Initializing => 26,
        OpenPhase::Authorizing => 27,
        OpenPhase::AdoptingSibling => 28,
        OpenPhase::PreparingDir => 29,
        OpenPhase::ProbingSibling => 30,
        OpenPhase::ProbingDatabase => 31,
        OpenPhase::CreatingDir => 32,
    }
}

/// An upper bound on the requests that are still to come.
pub open spec fn open_remaining(step: OpenStepView) -> nat {
    match step {
        OpenStepView::Pending(s) => open_rank(s),
        _ => 0,
    }
}

/// Every answer to the pending request takes the opening nearer to its end,
/// so every opening ends within 32 requests.
pub proof fn lemma_opening_makes_progress(s: OpeningView, reply: OpenReplyView)
    requires
        open_answers(open_pending(s), reply),
    ensures
        open_remaining(open_advance(s, reply)) < open_rank(s),
        open_rank(s) <= 32,
{
}

/// The opening may never delete a file or touch a key file: it is strict
/// and stands at none of the phases that do so or lead there.
pub open spec fn harmless(step: OpenStepView) -> bool {
    match step {
        OpenStepView::Pending(s) => !s.lenient && s.phase != OpenPhase::ClearingUnopenable
            && s.phase != OpenPhase::ConnectingAfresh && s.phase != OpenPhase::LocatingKeyFile
            && s.phase != OpenPhase::MigratingKeyFile && s.phase != OpenPhase::FetchingKey
            && s.phase != OpenPhase::Reconnecting && s.phase != OpenPhase::UnlockingAgain
            && s.phase != OpenPhase::CheckingTable && s.phase != OpenPhase::Wiping && s.phase
            != OpenPhase::ConnectingAfterWipe && s.phase != OpenPhase::UnlockingAfterWipe
            && s.phase != OpenPhase::CreatingSchemaAfterWipe,
        _ => true,
    }
}

/// A strict opening never deletes a file and never migrates a key file,
/// whatever the answers are: it begins harmless, every reply leaves it
/// harmless, and a harmless opening asks for neither.
pub proof fn lemma_strict_opening_destroys_nothing(
    root: Option<Seq<char>>,
    variant: BuildVariant,
    s: OpeningView,
    reply: OpenReplyView,
)
    ensures
        harmless(begin_open(root, variant, false)),
        harmless(OpenStepView::Pending(s)) ==> harmless(open_advance(s, reply)),
        harmless(OpenStepView::Pending(s)) ==> !(open_pending(s) is RemoveFile) && !(open_pending(
            s,
        ) is MigrateKeyFile),
{
}

/// A lenient opening wipes the database only after it has looked for a key
/// file that was never migrated, or when the file cannot even be connected
/// to: the phases that lead to the deletion.
pub proof fn lemma_wipe_follows_rescue(s: OpeningView, reply: OpenReplyView)
    requires
        open_advance(s, reply) matches OpenStepView::Pending(next) && next.phase
            == OpenPhase::Wiping,
    ensures
        s.phase == OpenPhase::Wiping || s.phase == OpenPhase::LocatingKeyFile || s.phase
            == OpenPhase::MigratingKeyFile || s.phase == OpenPhase::FetchingKey || s.phase
            == OpenPhase::Reconnecting || s.phase == OpenPhase::UnlockingAgain || s.phase
            == OpenPhase::CheckingTable,
{
}

/// A failure of the authorization or of the initialization ends the opening
/// at once, before any connection to the database is asked for. The user is
/// told the message for the kind of the failure, so two failures of one kind
/// read the same whatever native detail they carry.
pub proof fn lemma_keychain_failure_ends_opening(
    s: OpeningView,
    error: ErrorView,
    other: ErrorView,
)
    requires
        error.kind == other.kind,
    ensures
        s.phase == OpenPhase::Authorizing ==> open_advance(
            s,
            OpenReplyView::Authorized(Err(error)),
        ) == keychain_failure(error),
        s.phase == OpenPhase::Initializing ==> open_advance(s, OpenReplyView::Keyed(Err(error)))
            == keychain_failure(error),
        keychain_failure(error) == keychain_failure(other),
        keychain_failure(error)->Failed_0.message.len() > 0,
{
    lemma_user_message_never_empty(error.kind);
}

/// An opening ends well only on the word that the table of entries is
/// there: it was found, it could be read, or it was created.
pub proof fn lemma_opened_has_its_table(s: OpeningView, reply: OpenReplyView)
    requires
        open_advance(s, reply) is Opened,
    ensures
        ({
            ||| reply matches OpenReplyView::SchemaQueried(answer) && answer is Present
            ||| reply matches OpenReplyView::TableChecked(found) && found
            ||| reply matches OpenReplyView::SchemaCreated(made) && made is Ok
        }),
{
}

} // verus!
