//! A simulated world for the key lifecycle, and what holds of every session
//! that runs in it.
//!
//! The world is a set of files, some of which cannot be deleted, the slot of
//! the credential store, the cache of the process, and two switches that make
//! the store refuse reads or writes. Each request has one answer in it, so a
//! session runs to its end by itself.

use vstd::prelude::*;
use crate::cache::after_set;
use crate::error::{bare, ErrorKind, ErrorView};
use crate::location::{backup_of, lemma_backup_is_another_path, PathsView};
use crate::manager::serves;
use crate::secret::is_random_identifier;
use crate::store::{is_read_failure, is_write_failure, read_failure, FaultKind, FaultView};
use crate::model::{
    advance, answers, begin_authorize, begin_initialize, begin_locate, begin_migrate,
    concerns_store, fail, file_failure, lemma_answer_makes_progress, pending, rank, remaining,
    Next, OutcomeView, Phase, ReplyView, RequestView, SessionView, StepView, Task,
};

verus! {

/// The simulated world.
pub struct World {
    /// The files that exist, each with its text.
    pub files: Map<Seq<char>, Seq<char>>,
    /// What the slot of the credential store holds.
    pub store: Option<Seq<char>>,
    /// What the cache of the process holds.
    pub cache: Option<Seq<char>>,
    /// The files that cannot be deleted.
    pub stuck: Set<Seq<char>>,
    /// If set, the store answers every read with this failure.
    pub read_fault: Option<ErrorView>,
    /// If set, the store answers every write with this failure.
    pub write_fault: Option<ErrorView>,
    /// The secret that the next generation makes.
    pub fresh: Seq<char>,
}

/// The detail with which a file operation fails on a file that is not there.
pub open spec fn missing() -> Seq<char> {
    "No such file or directory"@
}

/// The detail with which the deletion of a file fails that cannot be deleted.
pub open spec fn refused() -> Seq<char> {
    "Operation not permitted"@
}

/// Reading the secret: the cache answers if it is full; else the store is
/// read, and its secret cached.
pub open spec fn fetch(w: World) -> (World, ReplyView) {
    if w.cache is Some {
        (w, ReplyView::Fetched(Ok(w.cache->0)))
    } else if w.read_fault is Some {
        (w, ReplyView::Fetched(Err(w.read_fault->0)))
    } else if w.store is Some {
        (World { cache: w.store, ..w }, ReplyView::Fetched(Ok(w.store->0)))
    } else {
        (w, ReplyView::Fetched(Err(bare(ErrorKind::KeyNotFound))))
    }
}

/// The world after `key` was written to the store.
pub open spec fn written(w: World, key: Seq<char>) -> World {
    World { store: Some(key), cache: after_set(w.cache, key), ..w }
}

/// The world after a request, and the reply to it.
pub open spec fn answer(w: World, request: RequestView) -> (World, ReplyView) {
    match request {
        RequestView::FetchKey => fetch(w),
        RequestView::StoreKey(key) => if w.write_fault is Some {
            (w, ReplyView::Stored(Err(w.write_fault->0)))
        } else {
            (written(w, key), ReplyView::Stored(Ok(())))
        },
        RequestView::GenerateKey => if w.write_fault is Some {
            (w, ReplyView::Generated(Err(w.write_fault->0)))
        } else {
            (written(w, w.fresh), ReplyView::Generated(Ok(w.fresh)))
        },
        RequestView::Probe(path) => (w, ReplyView::Probed(w.files.dom().contains(path))),
        RequestView::Copy { from, to } => if w.files.dom().contains(from) {
            (World { files: w.files.insert(to, w.files[from]), ..w }, ReplyView::Copied(Ok(())))
        } else {
            (w, ReplyView::Copied(Err(missing())))
        },
        RequestView::ReadFile(path) => if w.files.dom().contains(path) {
            (w, ReplyView::FileRead(Ok(w.files[path])))
        } else {
            (w, ReplyView::FileRead(Err(missing())))
        },
        RequestView::RemoveFile(path) => if !w.files.dom().contains(path) {
            (w, ReplyView::Removed(Err(missing())))
        } else if w.stuck.contains(path) {
            (w, ReplyView::Removed(Err(refused())))
        } else {
            (World { files: w.files.remove(path), ..w }, ReplyView::Removed(Ok(())))
        },
    }
}

/// The world is one that the manager could meet: the failures of its
/// store are failures as the manager classifies them, and its fresh secret
/// is a random identifier.
pub open spec fn believable(w: World) -> bool {
    &&& w.read_fault matches Some(error) ==> is_read_failure(error)
    &&& w.write_fault matches Some(error) ==> is_write_failure(error)
    &&& is_random_identifier(w.fresh)
}

/// What the world answers to a request for the store is an answer
/// that the manager may give, from the same cache and with the same cache
/// left behind.
pub proof fn lemma_world_answers_as_manager(w: World, request: RequestView)
    requires
        believable(w),
        concerns_store(request),
    ensures
        serves(w.cache, request, answer(w, request).1, answer(w, request).0.cache),
{
    let absent = FaultView { kind: FaultKind::NoEntry, message: Seq::empty() };
    assert(read_failure(absent) == bare(ErrorKind::KeyNotFound));
}

/// The session run in the world for at most `fuel` requests.
pub open spec fn run(step: StepView, w: World, fuel: nat) -> (StepView, World)
    decreases fuel,
{
    match step {
        StepView::Finished(_) => (step, w),
        StepView::Pending(s) => if fuel == 0 {
            (step, w)
        } else {
            let (next, reply) = answer(w, pending(s));
            run(advance(s, reply), next, (fuel - 1) as nat)
        },
    }
}

/// The number of writes to the store that the session asks for when run in
/// the world for at most `fuel` requests.
pub open spec fn store_writes(step: StepView, w: World, fuel: nat) -> nat
    decreases fuel,
{
    match step {
        StepView::Finished(_) => 0,
        StepView::Pending(s) => if fuel == 0 {
            0
        } else {
            let (next, reply) = answer(w, pending(s));
            let rest = store_writes(advance(s, reply), next, (fuel - 1) as nat);
            if pending(s) is StoreKey || pending(s) is GenerateKey {
                rest + 1
            } else {
                rest
            }
        },
    }
}

/// The number of requests within which every session ends.
pub open spec fn enough() -> nat {
    14
}

/// The world answers the request that it is given.
pub proof fn lemma_world_answers(w: World, request: RequestView)
    ensures
        answers(request, answer(w, request).1),
{
}

/// A session ends within as many requests as its phase allows, and more
/// requests change nothing.
pub proof fn lemma_run_ends(step: StepView, w: World, fuel: nat)
    requires
        remaining(step) <= fuel,
    ensures
        run(step, w, fuel).0 is Finished,
        run(step, w, fuel) == run(step, w, remaining(step)),
    decreases fuel,
{
    match step {
        StepView::Finished(_) => {},
        StepView::Pending(s) => {
            let (next, reply) = answer(w, pending(s));
            lemma_world_answers(w, pending(s));
            lemma_answer_makes_progress(s, reply);
            let after = advance(s, reply);
            lemma_run_ends(after, next, (fuel - 1) as nat);
            lemma_run_ends(after, next, (rank(s.phase) - 1) as nat);
        },
    }
}

/// Every session ends: no step of a migration and no recovery is left
/// pending, whatever the world holds.
pub proof fn lemma_every_session_ends(step: StepView, w: World)
    ensures
        run(step, w, enough()).0 is Finished,
{
    lemma_run_ends(step, w, enough());
}

/// The end of a session in the world: its outcome and what it leaves.
pub open spec fn end_of(step: StepView, w: World) -> (StepView, World) {
    run(step, w, enough())
}

/// A key file at the current place is the one that a search reports,
/// whether or not there is one at the alternate place too; and the search
/// changes nothing.
pub proof fn lemma_current_place_comes_first(w: World, paths: PathsView)
    requires
        w.files.dom().contains(paths.current),
    ensures
        end_of(begin_locate(Some(paths)), w) == (
            StepView::Finished(OutcomeView::Located(Some(paths.current))),
            w,
        ),
{
    reveal_with_fuel(run, 3);
}

/// What a search reports in general: the current place if a key file is
/// there, else the alternate place if one is there, else nothing.
pub proof fn lemma_search_reports(w: World, paths: PathsView)
    ensures
        end_of(begin_locate(Some(paths)), w) == (
            StepView::Finished(
                OutcomeView::Located(
                    if w.files.dom().contains(paths.current) {
                        Some(paths.current)
                    } else if w.files.dom().contains(paths.alternate) {
                        Some(paths.alternate)
                    } else {
                        None
                    },
                ),
            ),
            w,
        ),
{
    reveal_with_fuel(run, 4);
}

/// A migration in which the store refuses the write ends with the store's
/// failure and leaves everything as it was: the key file is there with its
/// text unchanged, its sidecar is gone, and the store and the cache hold
/// what they held.
pub proof fn lemma_refused_write_leaves_file(w: World, path: Seq<char>, refusal: ErrorView)
    requires
        w.files.dom().contains(path),
        !w.stuck.contains(backup_of(path)),
        w.write_fault == Some(refusal),
    ensures
        ({
            let (end, after) = end_of(begin_migrate(path), w);
            &&& end == fail(refusal)
            &&& after.files.dom().contains(path)
            &&& after.files[path] == w.files[path]
            &&& !after.files.dom().contains(backup_of(path))
            &&& after.files =~= w.files.remove(backup_of(path))
            &&& after.store == w.store
            &&& after.cache == w.cache
        }),
{
    lemma_backup_is_another_path(path);
    reveal_with_fuel(run, 9);
}

/// A migration of a key file that is there succeeds exactly if the store
/// takes the write. After it the store holds the text of the file, the file
/// and its sidecar are gone, and a process that had no secret cached reads
/// that text as its secret.
pub proof fn lemma_migration_moves_secret(w: World, path: Seq<char>)
    requires
        w.files.dom().contains(path),
        !w.stuck.contains(path),
        !w.stuck.contains(backup_of(path)),
    ensures
        ({
            let (end, after) = end_of(begin_migrate(path), w);
            &&& (end == StepView::Finished(OutcomeView::Done)) == (w.write_fault is None)
            &&& w.write_fault is None ==> {
                &&& after.store == Some(w.files[path])
                &&& !after.files.dom().contains(path)
                &&& !after.files.dom().contains(backup_of(path))
                &&& after.files =~= w.files.remove(path).remove(backup_of(path))
                &&& w.cache is None ==> fetch(after).1 == ReplyView::Fetched(Ok(w.files[path]))
            }
        }),
{
    lemma_backup_is_another_path(path);
    reveal_with_fuel(run, 9);
}

/// A migration whose key file cannot be deleted fails, though the store has
/// taken the secret: the file stays with its text unchanged, its sidecar is
/// gone, and the secret is in the store as well.
pub proof fn lemma_stuck_key_file_keeps_both(w: World, path: Seq<char>)
    requires
        w.files.dom().contains(path),
        w.stuck.contains(path),
        !w.stuck.contains(backup_of(path)),
        w.write_fault is None,
    ensures
        ({
            let (end, after) = end_of(begin_migrate(path), w);
            &&& end == fail(file_failure("Failed to delete key file: "@, refused()))
            &&& after.files.dom().contains(path)
            &&& after.files[path] == w.files[path]
            &&& !after.files.dom().contains(backup_of(path))
            &&& after.store == Some(w.files[path])
        }),
{
    lemma_backup_is_another_path(path);
    reveal_with_fuel(run, 9);
}

/// A sidecar that cannot be deleted does not fail a migration: the secret is
/// moved, the key file is gone, and only the sidecar stays behind.
pub proof fn lemma_stuck_sidecar_is_no_failure(w: World, path: Seq<char>)
    requires
        w.files.dom().contains(path),
        !w.stuck.contains(path),
        w.stuck.contains(backup_of(path)),
        w.write_fault is None,
    ensures
        ({
            let (end, after) = end_of(begin_migrate(path), w);
            &&& end == StepView::Finished(OutcomeView::Done)
            &&& after.store == Some(w.files[path])
            &&& !after.files.dom().contains(path)
            &&& after.files.dom().contains(backup_of(path))
        }),
{
    lemma_backup_is_another_path(path);
    reveal_with_fuel(run, 9);
}

/// A migration of a key file that is no longer there succeeds and changes
/// nothing.
pub proof fn lemma_migration_of_nothing(w: World, path: Seq<char>)
    requires
        !w.files.dom().contains(path),
    ensures
        end_of(begin_migrate(path), w) == (StepView::Finished(OutcomeView::Done), w),
{
    reveal_with_fuel(run, 3);
}

/// What holds throughout an initialization, so that the secret it hands out
/// is the cached one: while the sweep runs before the end, the cache holds
/// the secret that is carried; while a key file is looked for or a fresh
/// secret is made, the cache is empty.
pub open spec fn carries_cached_secret(step: StepView, w: World) -> bool {
    match step {
        StepView::Finished(OutcomeView::Secret(key)) => w.cache == Some(key),
        StepView::Finished(_) => true,
        StepView::Pending(s) => s.task == Task::Initialize ==> match s.phase {
            Phase::SweepCurrent | Phase::SweepAlternate | Phase::SweepConfirm | Phase::SweepRemove =>
                s.next == Next::Return ==> w.cache == Some(s.secret),
            Phase::ProbeCurrent | Phase::ProbeAlternate | Phase::Generating => w.cache is None,
            _ => true,
        },
    }
}

/// One request keeps what holds throughout an initialization.
pub proof fn lemma_request_keeps_cached_secret(s: SessionView, w: World)
    requires
        carries_cached_secret(StepView::Pending(s), w),
    ensures
        carries_cached_secret(advance(s, answer(w, pending(s)).1), answer(w, pending(s)).0),
{
}

/// A run keeps what holds throughout an initialization.
pub proof fn lemma_run_keeps_cached_secret(step: StepView, w: World, fuel: nat)
    requires
        carries_cached_secret(step, w),
    ensures
        carries_cached_secret(run(step, w, fuel).0, run(step, w, fuel).1),
    decreases fuel,
{
    match step {
        StepView::Finished(_) => {},
        StepView::Pending(s) => {
            if fuel > 0 {
                lemma_request_keeps_cached_secret(s, w);
                let (next, reply) = answer(w, pending(s));
                lemma_run_keeps_cached_secret(advance(s, reply), next, (fuel - 1) as nat);
            }
        },
    }
}

/// What holds throughout an authorization, so that it leaves a secret in
/// the cache when it ends well: while the sweep runs, the cache is full or
/// the secret is still to be read again; while a file is put back, the
/// failure that began the recovery is kept.
pub open spec fn keeps_secret_at_hand(step: StepView, w: World) -> bool {
    match step {
        StepView::Finished(OutcomeView::Done) => w.cache is Some,
        StepView::Finished(_) => true,
        StepView::Pending(s) => s.task == Task::Authorize && match s.phase {
            Phase::SweepCurrent | Phase::SweepAlternate | Phase::SweepConfirm | Phase::SweepRemove =>
                w.cache is Some || s.next == Next::Refetch,
            Phase::RecoverProbe | Phase::RecoverRestore | Phase::RecoverDrop => s.failure is Some,
            _ => true,
        },
    }
}

/// A run keeps what holds throughout an authorization.
pub proof fn lemma_run_keeps_secret_at_hand(step: StepView, w: World, fuel: nat)
    requires
        keeps_secret_at_hand(step, w),
    ensures
        keeps_secret_at_hand(run(step, w, fuel).0, run(step, w, fuel).1),
    decreases fuel,
{
    match step {
        StepView::Finished(_) => {},
        StepView::Pending(s) => {
            if fuel > 0 {
                let (next, reply) = answer(w, pending(s));
                lemma_run_keeps_secret_at_hand(advance(s, reply), next, (fuel - 1) as nat);
            }
        },
    }
}

/// An initialization that has handed out a secret leaves that secret in the
/// cache.
pub proof fn lemma_initialize_caches(w: World, paths: Option<PathsView>, key: Seq<char>)
    requires
        end_of(begin_initialize(paths), w).0 == StepView::Finished(OutcomeView::Secret(key)),
    ensures
        end_of(begin_initialize(paths), w).1.cache == Some(key),
{
    lemma_run_keeps_cached_secret(begin_initialize(paths), w, enough());
}

/// With a secret in the cache an initialization hands out that secret,
/// whatever the files and the store are like, and asks for no write to the
/// store; the store and the cache stay as they are.
pub proof fn lemma_initialize_from_cache(w: World, paths: Option<PathsView>, key: Seq<char>)
    requires
        w.cache == Some(key),
    ensures
        ({
            let (end, after) = end_of(begin_initialize(paths), w);
            &&& end == StepView::Finished(OutcomeView::Secret(key))
            &&& after.store == w.store
            &&& after.cache == w.cache
            &&& store_writes(begin_initialize(paths), w, enough()) == 0
        }),
{
    reveal_with_fuel(run, 7);
    reveal_with_fuel(store_writes, 7);
}

/// An initialization that has handed out a secret hands out the same secret
/// when it is run again in the world that it left, and this second
/// run asks for no write to the store.
pub proof fn lemma_initialize_is_idempotent(w: World, paths: Option<PathsView>, key: Seq<char>)
    requires
        end_of(begin_initialize(paths), w).0 == StepView::Finished(OutcomeView::Secret(key)),
    ensures
        ({
            let left = end_of(begin_initialize(paths), w).1;
            let (again, after) = end_of(begin_initialize(paths), left);
            &&& again == StepView::Finished(OutcomeView::Secret(key))
            &&& after.store == left.store
            &&& after.cache == left.cache
            &&& store_writes(begin_initialize(paths), left, enough()) == 0
        }),
{
    lemma_initialize_caches(w, paths, key);
    lemma_initialize_from_cache(end_of(begin_initialize(paths), w).1, paths, key);
}

/// Where a key file lies, if it lies at one of the two places.
pub open spec fn key_file_of(w: World, paths: PathsView) -> Seq<char> {
    if w.files.dom().contains(paths.current) {
        paths.current
    } else {
        paths.alternate
    }
}

/// In a fresh world, with nothing in the store, nothing cached and no
/// key file, an initialization hands out the fresh secret and leaves it in
/// the store; no file is touched.
pub proof fn lemma_fresh_world_gets_fresh_secret(w: World, paths: PathsView)
    requires
        w.store is None,
        w.cache is None,
        w.read_fault is None,
        w.write_fault is None,
        !w.files.dom().contains(paths.current),
        !w.files.dom().contains(paths.alternate),
    ensures
        ({
            let (end, after) = end_of(begin_initialize(Some(paths)), w);
            &&& end == StepView::Finished(OutcomeView::Secret(w.fresh))
            &&& after.store == Some(w.fresh)
            &&& after.cache == Some(w.fresh)
            &&& after.files == w.files
        }),
{
    reveal_with_fuel(run, 8);
}

/// With nothing in the store, nothing cached and a key file at one of the
/// two places, an initialization hands out the text of that file and leaves
/// it in the store; the file is gone.
pub proof fn lemma_key_file_becomes_secret(w: World, paths: PathsView)
    requires
        w.store is None,
        w.cache is None,
        w.read_fault is None,
        w.write_fault is None,
        w.files.dom().contains(paths.current) || w.files.dom().contains(paths.alternate),
        !w.stuck.contains(key_file_of(w, paths)),
    ensures
        ({
            let (end, after) = end_of(begin_initialize(Some(paths)), w);
            let file = key_file_of(w, paths);
            &&& end == StepView::Finished(OutcomeView::Secret(w.files[file]))
            &&& after.store == Some(w.files[file])
            &&& !after.files.dom().contains(file)
        }),
{
    lemma_backup_is_another_path(key_file_of(w, paths));
    reveal_with_fuel(run, 15);
}

/// After an initialization that has moved a key file into the store, neither
/// place holds a key file any more, where both can be deleted.
pub proof fn lemma_migration_leaves_no_key_file(w: World, paths: PathsView)
    requires
        w.store is None,
        w.cache is None,
        w.read_fault is None,
        w.write_fault is None,
        w.files.dom().contains(paths.current) || w.files.dom().contains(paths.alternate),
        !w.stuck.contains(paths.current),
        !w.stuck.contains(paths.alternate),
    ensures
        ({
            let after = end_of(begin_initialize(Some(paths)), w).1;
            &&& !after.files.dom().contains(paths.current)
            &&& !after.files.dom().contains(paths.alternate)
        }),
{
    lemma_backup_is_another_path(key_file_of(w, paths));
    reveal_with_fuel(run, 15);
}

/// Where the store refuses the read and nothing is cached, an
/// initialization fails with the store's failure, whether or not a key file
/// exists, and touches nothing.
pub proof fn lemma_refused_read_is_fatal(w: World, paths: Option<PathsView>, refusal: ErrorView)
    requires
        w.cache is None,
        w.read_fault == Some(refusal),
        refusal.kind != ErrorKind::KeyNotFound,
    ensures
        end_of(begin_initialize(paths), w) == (fail(refusal), w),
{
    reveal_with_fuel(run, 2);
}

/// An authorization that finds the secret, in the cache or in the store,
/// ends well after that one look: it asks for no write to the store and
/// leaves every file alone, a key file too.
pub proof fn lemma_authorize_with_secret_touches_nothing(w: World, paths: Option<PathsView>)
    requires
        w.cache is Some || (w.read_fault is None && w.store is Some),
    ensures
        ({
            let (end, after) = end_of(begin_authorize(paths), w);
            &&& end == StepView::Finished(OutcomeView::Done)
            &&& after.files == w.files
            &&& after.store == w.store
            &&& after.cache == if w.cache is Some {
                w.cache
            } else {
                w.store
            }
            &&& store_writes(begin_authorize(paths), w, enough()) == 0
        }),
{
    reveal_with_fuel(run, 3);
    reveal_with_fuel(store_writes, 3);
}

/// An authorization that ends well leaves a secret in the cache.
pub proof fn lemma_authorize_caches(w: World, paths: Option<PathsView>)
    requires
        end_of(begin_authorize(paths), w).0 == StepView::Finished(OutcomeView::Done),
    ensures
        end_of(begin_authorize(paths), w).1.cache is Some,
{
    lemma_run_keeps_secret_at_hand(begin_authorize(paths), w, enough());
}

} // verus!
