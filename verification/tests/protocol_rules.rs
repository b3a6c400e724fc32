use std::collections::HashMap;

use journal_keychain::error::KeychainError;
use journal_keychain::location::{BuildVariant, KeyFilePaths};
use journal_keychain::model::{Phase, Task};
use journal_keychain::protocol::{
    begin_authorize, begin_cleanup, begin_initialize, begin_locate, begin_migrate, begin_recover,
    Outcome, Reply, Request, Step,
};

/// Files, a store and a cache held in memory; the store can be made to
/// refuse reads or writes.
struct Machine {
    files: HashMap<String, String>,
    store: Option<String>,
    cache: Option<String>,
    read_denied: bool,
    write_denied: bool,
    store_writes: usize,
    requests: usize,
}

impl Machine {
    fn new() -> Machine {
        Machine {
            files: HashMap::new(),
            store: None,
            cache: None,
            read_denied: false,
            write_denied: false,
            store_writes: 0,
            requests: 0,
        }
    }

    fn write(&mut self, key: &str) -> Result<(), KeychainError> {
        self.store_writes += 1;
        if self.write_denied {
            return Err(KeychainError::KeychainAccessDenied);
        }
        self.store = Some(key.to_string());
        if self.cache.is_none() {
            self.cache = Some(key.to_string());
        }
        Ok(())
    }

    fn perform(&mut self, request: &Request) -> Reply {
        self.requests += 1;
        match request {
            Request::FetchKey => {
                if let Some(key) = &self.cache {
                    Reply::Fetched(Ok(key.clone()))
                } else if self.read_denied {
                    Reply::Fetched(Err(KeychainError::KeychainAccessDenied))
                } else if let Some(key) = self.store.clone() {
                    self.cache = Some(key.clone());
                    Reply::Fetched(Ok(key))
                } else {
                    Reply::Fetched(Err(KeychainError::KeyNotFound))
                }
            }
            Request::StoreKey(key) => Reply::Stored(self.write(key)),
            Request::GenerateKey => {
                Reply::Generated(self.write("generated-secret").map(|_| "generated-secret".to_string()))
            }
            Request::Probe(path) => Reply::Probed(self.files.contains_key(path)),
            Request::Copy { from, to } => match self.files.get(from).cloned() {
                Some(text) => {
                    self.files.insert(to.clone(), text);
                    Reply::Copied(Ok(()))
                }
                None => Reply::Copied(Err("No such file or directory".to_string())),
            },
            Request::ReadFile(path) => match self.files.get(path) {
                Some(text) => Reply::FileRead(Ok(text.clone())),
                None => Reply::FileRead(Err("No such file or directory".to_string())),
            },
            Request::RemoveFile(path) => match self.files.remove(path) {
                Some(_) => Reply::Removed(Ok(())),
                None => Reply::Removed(Err("No such file or directory".to_string())),
            },
        }
    }

    fn finish(&mut self, first: Step) -> Outcome {
        let mut step = first;
        loop {
            match step {
                Step::Finished(outcome) => return outcome,
                Step::Pending(session) => {
                    let reply = self.perform(&session.request());
                    step = session.advance(reply);
                }
            }
        }
    }
}

fn name(request: &Request) -> String {
    match request {
        Request::FetchKey => "fetch".to_string(),
        Request::StoreKey(key) => format!("store {}", key),
        Request::GenerateKey => "generate".to_string(),
        Request::Probe(path) => format!("probe {}", path),
        Request::Copy { from, to } => format!("copy {} to {}", from, to),
        Request::ReadFile(path) => format!("read {}", path),
        Request::RemoveFile(path) => format!("remove {}", path),
    }
}

const CURRENT: &str = "/data/Journal-dev/journal.key";
const ALTERNATE: &str = "/data/Journal/journal.key";

fn paths() -> Option<KeyFilePaths> {
    Some(KeyFilePaths::under("/data", BuildVariant::Development))
}

#[test]
fn paths_under_a_root_name_both_variants() {
    let paths = KeyFilePaths::under("/data", BuildVariant::Development);
    assert_eq!(paths.current, CURRENT);
    assert_eq!(paths.alternate, ALTERNATE);
    let paths = KeyFilePaths::under("/data", BuildVariant::Production);
    assert_eq!(paths.current, ALTERNATE);
    assert_eq!(paths.alternate, CURRENT);
}

#[test]
fn locate_prefers_the_current_place() {
    let mut machine = Machine::new();
    machine.files.insert(CURRENT.to_string(), "here".to_string());
    machine.files.insert(ALTERNATE.to_string(), "there".to_string());
    match machine.finish(begin_locate(paths())) {
        Outcome::Located(Some(path)) => assert_eq!(path, CURRENT),
        _ => panic!("unexpected outcome"),
    }
    assert_eq!(machine.requests, 1);
}

#[test]
fn locate_falls_back_to_the_alternate_place() {
    let mut machine = Machine::new();
    machine.files.insert(ALTERNATE.to_string(), "there".to_string());
    match machine.finish(begin_locate(paths())) {
        Outcome::Located(Some(path)) => assert_eq!(path, ALTERNATE),
        _ => panic!("unexpected outcome"),
    }
    assert_eq!(machine.requests, 2);
}

#[test]
fn locate_finds_nothing_in_an_empty_directory() {
    let mut machine = Machine::new();
    assert!(matches!(machine.finish(begin_locate(paths())), Outcome::Located(None)));
}

#[test]
fn locate_without_data_directory_fails() {
    assert!(matches!(
        begin_locate(None),
        Step::Finished(Outcome::Failed(KeychainError::AppSupportDirNotFound))
    ));
}

#[test]
fn refused_store_write_restores_the_key_file() {
    let mut machine = Machine::new();
    machine.write_denied = true;
    machine.files.insert(CURRENT.to_string(), "K1".to_string());
    let before = machine.files.clone();
    let outcome = machine.finish(begin_migrate(CURRENT.to_string()));
    assert!(matches!(outcome, Outcome::Failed(KeychainError::KeychainAccessDenied)));
    assert_eq!(machine.files, before);
    assert!(!machine.files.contains_key("/data/Journal-dev/journal.key.backup"));
    assert_eq!(machine.store, None);
}

#[test]
fn migration_asks_for_the_steps_in_order() {
    let mut step = begin_migrate("/k".to_string());
    let replies = vec![
        Reply::Probed(true),
        Reply::Copied(Ok(())),
        Reply::FileRead(Ok("secret".to_string())),
        Reply::Stored(Ok(())),
        Reply::Removed(Ok(())),
        Reply::Removed(Err("busy".to_string())),
    ];
    let mut asked = Vec::new();
    for reply in replies {
        match step {
            Step::Pending(session) => {
                asked.push(name(&session.request()));
                step = session.advance(reply);
            }
            Step::Finished(_) => panic!("ended early"),
        }
    }
    assert_eq!(
        asked,
        vec![
            "probe /k",
            "copy /k to /k.backup",
            "read /k",
            "store secret",
            "remove /k",
            "remove /k.backup",
        ]
    );
    assert!(matches!(step, Step::Finished(Outcome::Done)));
}

#[test]
fn failed_backup_aborts_before_anything_is_touched() {
    let step = begin_migrate("/k".to_string());
    let step = match step {
        Step::Pending(session) => session.advance(Reply::Probed(true)),
        _ => panic!("unexpected step"),
    };
    let step = match step {
        Step::Pending(session) => session.advance(Reply::Copied(Err("disk full".to_string()))),
        _ => panic!("unexpected step"),
    };
    match step {
        Step::Finished(Outcome::Failed(KeychainError::FileError(detail))) => {
            assert_eq!(detail, "Failed to create backup: disk full")
        }
        _ => panic!("unexpected step"),
    }
}

#[test]
fn failed_read_recovers_and_reports_the_read() {
    let step = begin_migrate("/k".to_string());
    let mut step = step;
    let replies = vec![
        Reply::Probed(true),
        Reply::Copied(Ok(())),
        Reply::FileRead(Err("bad sector".to_string())),
        Reply::Probed(true),
        Reply::Copied(Err("restore failed".to_string())),
    ];
    for reply in replies {
        step = match step {
            Step::Pending(session) => session.advance(reply),
            _ => panic!("ended early"),
        };
    }
    match step {
        Step::Finished(Outcome::Failed(KeychainError::FileError(detail))) => {
            assert_eq!(detail, "Failed to read key file: bad sector")
        }
        _ => panic!("unexpected step"),
    }
}

#[test]
fn recovery_without_sidecar_is_a_migration_error() {
    let mut machine = Machine::new();
    match machine.finish(begin_recover("/k".to_string())) {
        Outcome::Failed(KeychainError::MigrationError(detail)) => {
            assert_eq!(detail, "No backup available for recovery")
        }
        _ => panic!("unexpected outcome"),
    }
}

#[test]
fn recovery_puts_the_file_back_and_drops_the_sidecar() {
    let mut machine = Machine::new();
    machine.files.insert("/k.backup".to_string(), "saved".to_string());
    assert!(matches!(machine.finish(begin_recover("/k".to_string())), Outcome::Done));
    assert_eq!(machine.files.get("/k").map(String::as_str), Some("saved"));
    assert!(!machine.files.contains_key("/k.backup"));
}

#[test]
fn recovery_reports_a_failed_restore() {
    let step = match begin_recover("/k".to_string()) {
        Step::Pending(session) => session.advance(Reply::Probed(true)),
        _ => panic!("unexpected step"),
    };
    let step = match step {
        Step::Pending(session) => session.advance(Reply::Copied(Err("read-only".to_string()))),
        _ => panic!("unexpected step"),
    };
    match step {
        Step::Finished(Outcome::Failed(KeychainError::FileError(detail))) => {
            assert_eq!(detail, "Failed to restore from backup: read-only")
        }
        _ => panic!("unexpected step"),
    }
}

#[test]
fn recovery_reports_a_sidecar_that_stays() {
    let mut step = begin_recover("/k".to_string());
    for reply in vec![Reply::Probed(true), Reply::Copied(Ok(())), Reply::Removed(Err("busy".to_string()))] {
        step = match step {
            Step::Pending(session) => session.advance(reply),
            _ => panic!("ended early"),
        };
    }
    match step {
        Step::Finished(Outcome::Failed(KeychainError::FileError(detail))) => {
            assert_eq!(detail, "Failed to clean up backup: busy")
        }
        _ => panic!("unexpected step"),
    }
}

#[test]
fn cleanup_removes_the_key_file_it_finds() {
    let mut machine = Machine::new();
    machine.files.insert(ALTERNATE.to_string(), "stale".to_string());
    assert!(matches!(machine.finish(begin_cleanup(paths())), Outcome::Done));
    assert!(machine.files.is_empty());
}

#[test]
fn cleanup_reports_a_key_file_that_stays() {
    let mut step = begin_cleanup(paths());
    for reply in vec![Reply::Probed(true), Reply::Probed(true), Reply::Removed(Err("busy".to_string()))] {
        step = match step {
            Step::Pending(session) => session.advance(reply),
            _ => panic!("ended early"),
        };
    }
    match step {
        Step::Finished(Outcome::Failed(KeychainError::FileError(detail))) => {
            assert_eq!(detail, "Failed to delete key file: busy")
        }
        _ => panic!("unexpected step"),
    }
}

#[test]
fn initialization_swallows_a_failed_cleanup() {
    let mut step = begin_initialize(paths());
    let replies = vec![
        Reply::Fetched(Ok("kept".to_string())),
        Reply::Probed(true),
        Reply::Probed(true),
        Reply::Removed(Err("busy".to_string())),
    ];
    for reply in replies {
        step = match step {
            Step::Pending(session) => session.advance(reply),
            _ => panic!("ended early"),
        };
    }
    match step {
        Step::Finished(Outcome::Secret(secret)) => assert_eq!(secret, "kept"),
        _ => panic!("unexpected step"),
    }
}

#[test]
fn authorization_reports_a_failed_cleanup() {
    let mut step = begin_authorize(paths());
    let replies = vec![
        Reply::Fetched(Err(KeychainError::KeyNotFound)),
        Reply::Probed(false),
        Reply::Probed(false),
        Reply::Generated(Ok("new".to_string())),
        Reply::Probed(true),
        Reply::Probed(true),
        Reply::Removed(Err("busy".to_string())),
    ];
    for reply in replies {
        step = match step {
            Step::Pending(session) => session.advance(reply),
            _ => panic!("ended early"),
        };
    }
    assert!(matches!(step, Step::Finished(Outcome::Failed(KeychainError::FileError(_)))));
}

#[test]
fn authorization_leaves_a_key_file_alone_when_the_store_has_the_secret() {
    let mut machine = Machine::new();
    machine.store = Some("stored".to_string());
    machine.files.insert(CURRENT.to_string(), "stale".to_string());
    assert!(matches!(machine.finish(begin_authorize(paths())), Outcome::Done));
    assert!(machine.files.contains_key(CURRENT));
    assert_eq!(machine.cache.as_deref(), Some("stored"));
    assert_eq!(machine.requests, 1);
}

#[test]
fn access_denied_fails_initialization_whether_or_not_a_key_file_exists() {
    for with_file in [false, true] {
        let mut machine = Machine::new();
        machine.read_denied = true;
        if with_file {
            machine.files.insert(CURRENT.to_string(), "legacy".to_string());
        }
        match machine.finish(begin_initialize(paths())) {
            Outcome::Failed(error) => {
                assert!(matches!(error, KeychainError::KeychainAccessDenied));
                assert!(error.to_user_message().contains("permissions"));
            }
            _ => panic!("unexpected outcome"),
        }
        assert_eq!(machine.files.contains_key(CURRENT), with_file);
        assert_eq!(machine.requests, 1);
    }
}

#[test]
fn second_initialization_writes_nothing_to_the_store() {
    let mut machine = Machine::new();
    machine.files.insert(CURRENT.to_string(), "K1".to_string());
    let first = match machine.finish(begin_initialize(paths())) {
        Outcome::Secret(secret) => secret,
        _ => panic!("unexpected outcome"),
    };
    assert_eq!(first, "K1");
    assert_eq!(machine.store_writes, 1);
    let second = match machine.finish(begin_initialize(paths())) {
        Outcome::Secret(secret) => secret,
        _ => panic!("unexpected outcome"),
    };
    assert_eq!(second, first);
    assert_eq!(machine.store_writes, 1);
}

#[test]
fn generated_secret_is_handed_out_by_initialization() {
    let mut machine = Machine::new();
    match machine.finish(begin_initialize(paths())) {
        Outcome::Secret(secret) => assert_eq!(secret, "generated-secret"),
        _ => panic!("unexpected outcome"),
    }
    assert_eq!(machine.store.as_deref(), Some("generated-secret"));
}

#[test]
fn refused_generation_fails_initialization() {
    let mut machine = Machine::new();
    machine.write_denied = true;
    assert!(matches!(
        machine.finish(begin_initialize(paths())),
        Outcome::Failed(KeychainError::KeychainAccessDenied)
    ));
}

#[test]
fn initialization_without_data_directory_still_hands_out_a_stored_secret() {
    let mut machine = Machine::new();
    machine.store = Some("stored".to_string());
    match machine.finish(begin_initialize(None)) {
        Outcome::Secret(secret) => assert_eq!(secret, "stored"),
        _ => panic!("unexpected outcome"),
    }
    let mut empty = Machine::new();
    assert!(matches!(
        empty.finish(begin_initialize(None)),
        Outcome::Failed(KeychainError::AppSupportDirNotFound)
    ));
}

#[test]
fn stray_reply_leaves_the_session_where_it_is() {
    let session = match begin_migrate("/k".to_string()) {
        Step::Pending(session) => session,
        _ => panic!("unexpected step"),
    };
    match session.advance(Reply::Stored(Ok(()))) {
        Step::Pending(session) => {
            assert_eq!(session.phase, Phase::MigrateProbe);
            assert_eq!(session.task, Task::Migrate);
            assert!(matches!(session.request(), Request::Probe(path) if path == "/k"));
        }
        _ => panic!("unexpected step"),
    }
}

#[test]
fn every_session_ends_within_fourteen_requests() {
    for with_current in [false, true] {
        for with_alternate in [false, true] {
            for write_denied in [false, true] {
                let mut machine = Machine::new();
                machine.write_denied = write_denied;
                if with_current {
                    machine.files.insert(CURRENT.to_string(), "a".to_string());
                }
                if with_alternate {
                    machine.files.insert(ALTERNATE.to_string(), "b".to_string());
                }
                machine.finish(begin_initialize(paths()));
                assert!(machine.requests <= 14);
            }
        }
    }
}

#[test]
fn store_requests_are_told_from_file_requests() {
    assert!(Request::FetchKey.concerns_store());
    assert!(Request::StoreKey("k".to_string()).concerns_store());
    assert!(Request::GenerateKey.concerns_store());
    assert!(!Request::Probe("/k".to_string()).concerns_store());
    assert!(!Request::ReadFile("/k".to_string()).concerns_store());
    assert!(!Request::RemoveFile("/k".to_string()).concerns_store());
    assert!(!Request::Copy { from: "/a".to_string(), to: "/b".to_string() }.concerns_store());
}
