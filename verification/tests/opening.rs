use journal_keychain::error::{ErrorArea, KeychainError};
use journal_keychain::location::BuildVariant;
use journal_keychain::opener::{
    begin_open, begin_open_here, database_file, lenient_for, OpenReply, OpenRequest, OpenStep,
    SchemaAnswer,
};
use journal_keychain::opening::{OpenPhase, Trouble};

fn name(request: &OpenRequest) -> String {
    match request {
        OpenRequest::CreateDir(dir) => format!("mkdir {}", dir),
        OpenRequest::Probe(path) => format!("probe {}", path),
        OpenRequest::CopyFile { from, to } => format!("copy {} to {}", from, to),
        OpenRequest::Authorize => "authorize".to_string(),
        OpenRequest::Initialize => "initialize".to_string(),
        OpenRequest::Connect(path) => format!("connect {}", path),
        OpenRequest::Unlock(key) => format!("unlock {}", key),
        OpenRequest::RemoveFile(path) => format!("remove {}", path),
        OpenRequest::LocateKeyFile => "locate key file".to_string(),
        OpenRequest::MigrateKeyFile(path) => format!("migrate {}", path),
        OpenRequest::FetchKey => "fetch key".to_string(),
        OpenRequest::QuerySchema => "query schema".to_string(),
        OpenRequest::CheckTable => "check table".to_string(),
        OpenRequest::CreateSchema => "create schema".to_string(),
    }
}

/// Gives the replies in turn and notes what was asked for.
fn play(first: OpenStep, replies: Vec<OpenReply>) -> (Vec<String>, OpenStep) {
    let mut asked = Vec::new();
    let mut step = first;
    for reply in replies {
        step = match step {
            OpenStep::Pending(opening) => {
                asked.push(name(&opening.request()));
                opening.advance(reply)
            }
            _ => panic!("the opening ended after {:?}", asked),
        };
    }
    (asked, step)
}

fn failure(step: OpenStep) -> (String, ErrorArea) {
    match step {
        OpenStep::Failed(response) => (response.message, response.area),
        OpenStep::Opened => panic!("the opening went well"),
        OpenStep::Pending(opening) => panic!("the opening waits for {}", name(&opening.request())),
    }
}

fn strict() -> OpenStep {
    begin_open(Some("/data".to_string()), BuildVariant::Production, false)
}

fn lenient() -> OpenStep {
    begin_open(Some("/data".to_string()), BuildVariant::Development, true)
}

/// The replies that take an opening with an existing database up to the
/// request to unlock it.
fn up_to_unlock() -> Vec<OpenReply> {
    vec![
        OpenReply::DirCreated(Ok(())),
        OpenReply::Probed(true),
        OpenReply::Authorized(Ok(())),
        OpenReply::Keyed(Ok("k".to_string())),
        OpenReply::Connected(Ok(())),
    ]
}

#[test]
fn new_database_gets_its_schema() {
    let replies = vec![
        OpenReply::DirCreated(Ok(())),
        OpenReply::Probed(false),
        OpenReply::Probed(false),
        OpenReply::Authorized(Ok(())),
        OpenReply::Keyed(Ok("k".to_string())),
        OpenReply::Connected(Ok(())),
        OpenReply::Unlocked(Ok(())),
        OpenReply::SchemaCreated(Ok(())),
    ];
    let (asked, step) = play(strict(), replies);
    assert_eq!(
        asked,
        vec![
            "mkdir /data/Journal",
            "probe /data/Journal/journal.db",
            "probe /data/Journal-dev/journal.db",
            "authorize",
            "initialize",
            "connect /data/Journal/journal.db",
            "unlock k",
            "create schema",
        ]
    );
    assert!(matches!(step, OpenStep::Opened));
}

#[test]
fn database_of_the_sibling_variant_is_adopted() {
    let replies = vec![
        OpenReply::DirCreated(Ok(())),
        OpenReply::Probed(false),
        OpenReply::Probed(true),
        OpenReply::DirCreated(Ok(())),
        OpenReply::Copied(Ok(())),
        OpenReply::Authorized(Ok(())),
        OpenReply::Keyed(Ok("k".to_string())),
        OpenReply::Connected(Ok(())),
        OpenReply::Unlocked(Ok(())),
        OpenReply::SchemaQueried(SchemaAnswer::Present),
    ];
    let (asked, step) = play(lenient(), replies);
    assert_eq!(asked[3], "mkdir /data/Journal-dev");
    assert_eq!(asked[4], "copy /data/Journal/journal.db to /data/Journal-dev/journal.db");
    assert_eq!(asked[9], "query schema");
    assert!(matches!(step, OpenStep::Opened));
}

#[test]
fn existing_database_with_its_table_opens() {
    let mut replies = up_to_unlock();
    replies.push(OpenReply::Unlocked(Ok(())));
    replies.push(OpenReply::SchemaQueried(SchemaAnswer::Present));
    let (_, step) = play(strict(), replies);
    assert!(matches!(step, OpenStep::Opened));
}

#[test]
fn failures_before_the_database_is_touched() {
    let (_, step) = play(strict(), vec![OpenReply::DirCreated(Err("read-only".to_string()))]);
    assert_eq!(
        failure(step),
        ("Failed to create database directory: read-only".to_string(), ErrorArea::File)
    );

    let replies = vec![
        OpenReply::DirCreated(Ok(())),
        OpenReply::Probed(false),
        OpenReply::Probed(true),
        OpenReply::DirCreated(Ok(())),
        OpenReply::Copied(Err("disk full".to_string())),
    ];
    let (_, step) = play(strict(), replies);
    assert_eq!(
        failure(step),
        ("Failed to migrate legacy database: disk full".to_string(), ErrorArea::File)
    );

    let replies = vec![
        OpenReply::DirCreated(Ok(())),
        OpenReply::Probed(true),
        OpenReply::Authorized(Err(KeychainError::KeychainAccessDenied)),
    ];
    let (_, step) = play(strict(), replies);
    assert_eq!(
        failure(step),
        (
            "There was a problem accessing the system keychain. Please ensure you have granted the necessary permissions."
                .to_string(),
            ErrorArea::Keychain
        )
    );

    let replies = vec![
        OpenReply::DirCreated(Ok(())),
        OpenReply::Probed(true),
        OpenReply::Authorized(Ok(())),
        OpenReply::Keyed(Err(KeychainError::FileError("gone".to_string()))),
    ];
    let (asked, step) = play(strict(), replies);
    assert_eq!(
        failure(step),
        (
            "There was a problem accessing the application data. Please ensure you have the necessary permissions."
                .to_string(),
            ErrorArea::Keychain
        )
    );
    assert!(asked.iter().all(|request| !request.starts_with("connect")));

    let step = begin_open(None, BuildVariant::Production, false);
    assert_eq!(
        failure(step),
        ("Could not determine application support directory".to_string(), ErrorArea::AppSupport)
    );
}

#[test]
fn strict_opening_fails_where_a_lenient_one_would_wipe() {
    let mut replies = up_to_unlock();
    replies.pop();
    replies.push(OpenReply::Connected(Err("not a database".to_string())));
    let (_, step) = play(strict(), replies);
    assert_eq!(
        failure(step),
        ("Failed to open database: not a database".to_string(), ErrorArea::Database)
    );

    let mut replies = up_to_unlock();
    replies.push(OpenReply::Unlocked(Err("bad key".to_string())));
    let (_, step) = play(strict(), replies);
    assert_eq!(
        failure(step),
        ("Failed to set database encryption key: bad key".to_string(), ErrorArea::Database)
    );

    let mut replies = up_to_unlock();
    replies.push(OpenReply::Unlocked(Ok(())));
    replies.push(OpenReply::SchemaQueried(SchemaAnswer::Missing));
    let (asked, step) = play(strict(), replies);
    assert_eq!(
        failure(step),
        (
            "Database exists but schema is missing or corrupt. Please reset or migrate your database."
                .to_string(),
            ErrorArea::Database
        )
    );
    assert!(asked.iter().all(|request| !request.starts_with("remove")));
}

#[test]
fn schema_query_failures() {
    let mut replies = up_to_unlock();
    replies.push(OpenReply::Unlocked(Ok(())));
    replies.push(OpenReply::SchemaQueried(SchemaAnswer::QueryFailed("locked".to_string())));
    let (_, step) = play(lenient(), replies);
    assert_eq!(failure(step), ("Failed to query schema: locked".to_string(), ErrorArea::Database));

    let mut replies = up_to_unlock();
    replies.push(OpenReply::Unlocked(Ok(())));
    replies.push(OpenReply::SchemaQueried(SchemaAnswer::RowFailed("file is not a database".to_string())));
    let (_, step) = play(lenient(), replies);
    assert_eq!(failure(step), ("file is not a database".to_string(), ErrorArea::Database));
}

#[test]
fn lenient_opening_clears_a_file_that_cannot_be_connected_to() {
    let mut replies = up_to_unlock();
    replies.pop();
    replies.push(OpenReply::Connected(Err("not a database".to_string())));
    replies.push(OpenReply::Removed);
    replies.push(OpenReply::Connected(Ok(())));
    replies.push(OpenReply::Unlocked(Ok(())));
    replies.push(OpenReply::SchemaQueried(SchemaAnswer::Present));
    let (asked, step) = play(lenient(), replies);
    assert_eq!(asked[5], "remove /data/Journal-dev/journal.db");
    assert_eq!(asked[6], "connect /data/Journal-dev/journal.db");
    assert!(matches!(step, OpenStep::Opened));

    let mut replies = up_to_unlock();
    replies.pop();
    replies.push(OpenReply::Connected(Err("not a database".to_string())));
    replies.push(OpenReply::Removed);
    replies.push(OpenReply::Connected(Err("still not".to_string())));
    let (_, step) = play(lenient(), replies);
    assert_eq!(
        failure(step),
        ("Failed to create new database after reset: still not".to_string(), ErrorArea::Database)
    );
}

#[test]
fn rejected_key_is_rescued_by_a_stray_key_file() {
    let mut replies = up_to_unlock();
    replies.push(OpenReply::Unlocked(Err("bad key".to_string())));
    replies.push(OpenReply::KeyFileLocated(Some("/data/Journal/journal.key".to_string())));
    replies.push(OpenReply::KeyFileMigrated(true));
    replies.push(OpenReply::Fetched(Some("old-key".to_string())));
    replies.push(OpenReply::Connected(Ok(())));
    replies.push(OpenReply::Unlocked(Ok(())));
    replies.push(OpenReply::SchemaQueried(SchemaAnswer::Present));
    let (asked, step) = play(lenient(), replies);
    assert_eq!(
        asked[5..].to_vec(),
        vec![
            "unlock k",
            "locate key file",
            "migrate /data/Journal/journal.key",
            "fetch key",
            "connect /data/Journal-dev/journal.db",
            "unlock old-key",
            "query schema",
        ]
    );
    assert!(matches!(step, OpenStep::Opened));
}

#[test]
fn rejected_key_without_rescue_wipes_the_database() {
    for stop in 0..3 {
        let mut replies = up_to_unlock();
        replies.push(OpenReply::Unlocked(Err("bad key".to_string())));
        match stop {
            0 => replies.push(OpenReply::KeyFileLocated(None)),
            1 => {
                replies.push(OpenReply::KeyFileLocated(Some("/k".to_string())));
                replies.push(OpenReply::KeyFileMigrated(false));
            }
            _ => {
                replies.push(OpenReply::KeyFileLocated(Some("/k".to_string())));
                replies.push(OpenReply::KeyFileMigrated(true));
                replies.push(OpenReply::Fetched(None));
            }
        }
        replies.push(OpenReply::Removed);
        replies.push(OpenReply::Connected(Ok(())));
        replies.push(OpenReply::Unlocked(Ok(())));
        let (asked, step) = play(lenient(), replies);
        assert_eq!(asked[asked.len() - 3], "remove /data/Journal-dev/journal.db");
        // The database existed, so the empty one is asked for its table next.
        match step {
            OpenStep::Pending(opening) => {
                assert_eq!(opening.phase, OpenPhase::QueryingSchema);
                assert_eq!(opening.trouble, Trouble::KeyRejected);
            }
            _ => panic!("the opening ended"),
        }
    }
}

#[test]
fn failed_reconnection_after_key_migration_is_fatal() {
    let mut replies = up_to_unlock();
    replies.push(OpenReply::Unlocked(Err("bad key".to_string())));
    replies.push(OpenReply::KeyFileLocated(Some("/k".to_string())));
    replies.push(OpenReply::KeyFileMigrated(true));
    replies.push(OpenReply::Fetched(Some("old-key".to_string())));
    replies.push(OpenReply::Connected(Err("busy".to_string())));
    let (_, step) = play(lenient(), replies);
    assert_eq!(
        failure(step),
        ("Failed to reopen database after key migration: busy".to_string(), ErrorArea::Database)
    );
}

#[test]
fn missing_schema_is_rescued_by_a_stray_key_file() {
    let mut replies = up_to_unlock();
    replies.push(OpenReply::Unlocked(Ok(())));
    replies.push(OpenReply::SchemaQueried(SchemaAnswer::Missing));
    replies.push(OpenReply::KeyFileLocated(Some("/k".to_string())));
    replies.push(OpenReply::KeyFileMigrated(true));
    replies.push(OpenReply::Fetched(Some("old-key".to_string())));
    replies.push(OpenReply::Connected(Ok(())));
    replies.push(OpenReply::Unlocked(Ok(())));
    replies.push(OpenReply::TableChecked(true));
    let (asked, step) = play(lenient(), replies);
    assert_eq!(asked[asked.len() - 1], "check table");
    assert!(asked.iter().all(|request| !request.starts_with("remove")));
    assert!(matches!(step, OpenStep::Opened));
}

#[test]
fn missing_schema_without_rescue_wipes_and_recreates() {
    let mut replies = up_to_unlock();
    replies.push(OpenReply::Unlocked(Ok(())));
    replies.push(OpenReply::SchemaQueried(SchemaAnswer::Missing));
    replies.push(OpenReply::KeyFileLocated(Some("/k".to_string())));
    replies.push(OpenReply::KeyFileMigrated(true));
    replies.push(OpenReply::Fetched(Some("old-key".to_string())));
    replies.push(OpenReply::Connected(Ok(())));
    replies.push(OpenReply::Unlocked(Ok(())));
    replies.push(OpenReply::TableChecked(false));
    replies.push(OpenReply::Removed);
    replies.push(OpenReply::Connected(Ok(())));
    replies.push(OpenReply::Unlocked(Ok(())));
    replies.push(OpenReply::SchemaCreated(Ok(())));
    let (asked, step) = play(lenient(), replies);
    assert_eq!(
        asked[asked.len() - 4..].to_vec(),
        vec![
            "remove /data/Journal-dev/journal.db",
            "connect /data/Journal-dev/journal.db",
            "unlock old-key",
            "create schema",
        ]
    );
    assert!(matches!(step, OpenStep::Opened));
}

#[test]
fn failures_after_a_wipe() {
    let wipe = || {
        let mut replies = up_to_unlock();
        replies.push(OpenReply::Unlocked(Ok(())));
        replies.push(OpenReply::SchemaQueried(SchemaAnswer::Missing));
        replies.push(OpenReply::KeyFileLocated(None));
        replies.push(OpenReply::Removed);
        replies
    };
    let mut replies = wipe();
    replies.push(OpenReply::Connected(Err("busy".to_string())));
    let (_, step) = play(lenient(), replies);
    assert_eq!(
        failure(step),
        ("Failed to create new database after reset: busy".to_string(), ErrorArea::Database)
    );

    let mut replies = wipe();
    replies.push(OpenReply::Connected(Ok(())));
    replies.push(OpenReply::Unlocked(Err("bad key".to_string())));
    let (_, step) = play(lenient(), replies);
    assert_eq!(
        failure(step),
        ("Failed to set key after reset: bad key".to_string(), ErrorArea::Database)
    );

    let mut replies = wipe();
    replies.push(OpenReply::Connected(Ok(())));
    replies.push(OpenReply::Unlocked(Ok(())));
    replies.push(OpenReply::SchemaCreated(Err("full".to_string())));
    let (_, step) = play(lenient(), replies);
    assert_eq!(
        failure(step),
        ("Failed to create database schema after reset: full".to_string(), ErrorArea::Database)
    );
}

#[test]
fn failed_schema_creation_in_a_new_database() {
    let replies = vec![
        OpenReply::DirCreated(Ok(())),
        OpenReply::Probed(false),
        OpenReply::Probed(false),
        OpenReply::Authorized(Ok(())),
        OpenReply::Keyed(Ok("k".to_string())),
        OpenReply::Connected(Ok(())),
        OpenReply::Unlocked(Ok(())),
        OpenReply::SchemaCreated(Err("full".to_string())),
    ];
    let (_, step) = play(strict(), replies);
    assert_eq!(
        failure(step),
        ("Failed to create database schema: full".to_string(), ErrorArea::Database)
    );
}

#[test]
fn stray_reply_leaves_the_opening_where_it_is() {
    let (asked, step) = play(strict(), vec![OpenReply::Probed(true), OpenReply::Removed]);
    assert_eq!(asked, vec!["mkdir /data/Journal", "mkdir /data/Journal"]);
    match step {
        OpenStep::Pending(opening) => {
            assert_eq!(opening.phase, OpenPhase::CreatingDir);
            assert!(opening.request().is_answered_by(&OpenReply::DirCreated(Ok(()))));
            assert!(!opening.request().is_answered_by(&OpenReply::Copied(Ok(()))));
        }
        _ => panic!("the opening ended"),
    }
}

#[test]
fn only_a_development_build_is_lenient() {
    assert!(lenient_for(BuildVariant::Development));
    assert!(!lenient_for(BuildVariant::Production));
    assert_eq!(database_file("/data/Journal"), "/data/Journal/journal.db");
    match begin_open_here(BuildVariant::Production) {
        OpenStep::Pending(opening) => {
            assert!(!opening.lenient);
            assert!(opening.dir.ends_with("/Journal"));
            assert_eq!(opening.db, format!("{}/journal.db", opening.dir));
            assert!(opening.sibling_db.ends_with("/Journal-dev/journal.db"));
        }
        OpenStep::Failed(response) => assert_eq!(response.area, ErrorArea::AppSupport),
        OpenStep::Opened => panic!("the opening ended before it began"),
    }
}

#[test]
fn keychain_failure_shows_the_user_no_native_detail() {
    let detail = "errSecInteractionNotAllowed -25308 /Users/alice/Library";
    for lenient in [false, true] {
        let authorizing = vec![
            OpenReply::DirCreated(Ok(())),
            OpenReply::Probed(true),
            OpenReply::Authorized(Err(KeychainError::KeychainError(detail.to_string()))),
        ];
        let first = begin_open(Some("/data".to_string()), BuildVariant::Production, lenient);
        let (asked, step) = play(first, authorizing);
        let (message, area) = failure(step);
        assert_eq!(message, KeychainError::KeychainError(String::new()).to_user_message());
        assert!(!message.contains(detail));
        assert_eq!(area, ErrorArea::Keychain);
        assert_eq!(asked.last().map(String::as_str), Some("authorize"));

        let initializing = vec![
            OpenReply::DirCreated(Ok(())),
            OpenReply::Probed(true),
            OpenReply::Authorized(Ok(())),
            OpenReply::Keyed(Err(KeychainError::MigrationError(detail.to_string()))),
        ];
        let first = begin_open(Some("/data".to_string()), BuildVariant::Production, lenient);
        let (asked, step) = play(first, initializing);
        let (message, area) = failure(step);
        assert_eq!(
            message,
            "There was a problem migrating your encryption key. Please try restarting the application."
        );
        assert_eq!(area, ErrorArea::Keychain);
        assert!(asked.iter().all(|request| {
            !request.starts_with("connect") && !request.starts_with("remove")
        }));
    }
}
