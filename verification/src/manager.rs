//! The manager of the secret: the credential store, the cache of this
//! process, and the sessions that it serves.

use vstd::prelude::*;
use vstd::string::*;
use crate::cache::{after_set, KeyCache};
use crate::error::{user_message, ErrorKind, ErrorView, KeychainError};
use crate::location::{
    app_support_dir, key_file_path, key_file_under, local_data_root, paths_view,
    support_dir_under, BuildVariant, KeyFilePaths,
};
use crate::model;
use crate::model::{OutcomeView, ReplyView, RequestView, StepView};
use crate::protocol::{
    begin_authorize, begin_initialize, begin_locate, begin_migrate, key_result_view,
    unit_result_view, Outcome, Reply, Request, Session, Step,
};
use crate::secret::{fresh_secret, is_random_identifier};
use crate::text::text_of;
use crate::store::{is_read_failure, is_write_failure, CredentialStore};

verus! {

/// Reading the secret, from a cache that held `before` and holds `after`.
/// A full cache answers by itself and stays as it is. With an empty cache
/// the store is read: its secret is cached, its failure is classified.
pub open spec fn reads_as(
    before: Option<Seq<char>>,
    read: Result<Seq<char>, ErrorView>,
    after: Option<Seq<char>>,
) -> bool {
    match before {
        Some(held) => read == Ok::<Seq<char>, ErrorView>(held) && after == before,
        None => match read {
            Ok(key) => after == Some(key),
            Err(error) => after is None && is_read_failure(error),
        },
    }
}

/// Writing `key` to the store, with a cache that held `before` and holds
/// `after`. After a write that went well an empty cache holds the key; a
/// failure is classified and leaves the cache as it was.
pub open spec fn writes_as(
    before: Option<Seq<char>>,
    key: Seq<char>,
    written: Result<(), ErrorView>,
    after: Option<Seq<char>>,
) -> bool {
    match written {
        Ok(_) => after == after_set(before, key),
        Err(error) => after == before && is_write_failure(error),
    }
}

/// Making a fresh secret and writing it to the store, with a cache that held
/// `before` and holds `after`. The secret is a random identifier; it is
/// handed out if the write went well, and then an empty cache holds it. A
/// failure is classified and leaves the cache as it was.
pub open spec fn makes_as(
    before: Option<Seq<char>>,
    made: Result<Seq<char>, ErrorView>,
    after: Option<Seq<char>>,
) -> bool {
    match made {
        Ok(key) => is_random_identifier(key) && after == after_set(before, key),
        Err(error) => after == before && is_write_failure(error),
    }
}

/// The reply is what the manager may give to the request, with a cache that
/// held `before` and holds `after`.
pub open spec fn serves(
    before: Option<Seq<char>>,
    request: RequestView,
    reply: ReplyView,
    after: Option<Seq<char>>,
) -> bool {
    match request {
        RequestView::FetchKey => reply matches ReplyView::Fetched(read) && reads_as(
            before,
            read,
            after,
        ),
        RequestView::StoreKey(key) => reply matches ReplyView::Stored(written) && writes_as(
            before,
            key,
            written,
            after,
        ),
        RequestView::GenerateKey => reply matches ReplyView::Generated(made) && makes_as(
            before,
            made,
            after,
        ),
        _ => after == before,
    }
}

/// Whether the step waits for the credential store.
pub open spec fn waits_for_store(step: StepView) -> bool {
    step matches StepView::Pending(s) && model::concerns_store(model::pending(s))
}

/// The step once the store has answered: a step that waits for the store
/// moves on by the reply, any other step stays.
pub open spec fn settle(step: StepView, reply: ReplyView) -> StepView {
    match step {
        StepView::Pending(s) => if model::concerns_store(model::pending(s)) {
            model::advance(s, reply)
        } else {
            step
        },
        StepView::Finished(_) => step,
    }
}

/// The manager of the secret.
pub struct KeychainManager {
    store: CredentialStore,
    cache: KeyCache,
}

impl KeychainManager {
    /// The secret that this process has cached, if any.
    pub closed spec fn cached(&self) -> Option<Seq<char>> {
        self.cache@
    }

    /// A manager over the application's slot of the credential store, with
    /// an empty cache.
    pub fn new() -> (made: Result<Self, KeychainError>)
        ensures
            made matches Ok(manager) ==> manager.cached() is None,
            made matches Err(error) ==> error@.kind == ErrorKind::KeychainError,
    {
        match CredentialStore::open() {
            Ok(store) => Ok(KeychainManager { store, cache: KeyCache::new() }),
            Err(error) => Err(error),
        }
    }

    /// The slot of the credential store that this manager works on.
    pub closed spec fn slot(&self) -> CredentialStore {
        self.store
    }

    /// A manager over a slot that the caller has opened, with an empty cache.
    pub fn with_store(store: CredentialStore) -> (manager: Self)
        ensures
            manager.cached() is None,
            manager.slot() == store,
    {
        KeychainManager { store, cache: KeyCache::new() }
    }

    /// The slot of the credential store, for a look past the cache.
    pub fn store(&self) -> (store: &CredentialStore)
        ensures
            *store == self.slot(),
    {
        &self.store
    }

    /// The data folder of the running build variant on this machine.
    pub fn get_app_support_dir(variant: BuildVariant) -> (dir: Result<String, KeychainError>)
        ensures
            match dir {
                Ok(path) => exists|root: Seq<char>| path@ == support_dir_under(root, variant),
                Err(error) => error@.kind == ErrorKind::AppSupportDirNotFound,
            },
    {
        let root = local_data_root();
        let ghost root_text = text_of(root);
        let dir = app_support_dir(root, variant);
        proof {
            if root_text is Some {
                assert(dir->Ok_0@ == support_dir_under(root_text->0, variant));
            }
        }
        dir
    }

    /// The key file of the running build variant on this machine.
    pub fn get_key_file_path(variant: BuildVariant) -> (file: Result<String, KeychainError>)
        ensures
            match file {
                Ok(path) => exists|root: Seq<char>| path@ == key_file_under(root, variant),
                Err(error) => error@.kind == ErrorKind::AppSupportDirNotFound,
            },
    {
        let root = local_data_root();
        let ghost root_text = text_of(root);
        let file = key_file_path(root, variant);
        proof {
            if root_text is Some {
                assert(file->Ok_0@ == key_file_under(root_text->0, variant));
            }
        }
        file
    }

    /// The secret. A cached secret is handed out without a look at the
    /// store; otherwise the store is read and its secret cached.
    pub fn get_key(&mut self) -> (read: Result<String, KeychainError>)
        ensures
            reads_as(old(self).cached(), key_result_view(read), final(self).cached()),
            final(self).slot() == old(self).slot(),
    {
        match self.cache.get() {
            Some(key) => Ok(key),
            None => match self.store.get() {
                Ok(key) => {
                    self.cache.set_if_absent(key.clone());
                    Ok(key)
                },
                Err(error) => Err(error),
            },
        }
    }

    /// Writes the secret to the store and, if the cache is empty, caches it.
    pub fn store_key(&mut self, key: &str) -> (written: Result<(), KeychainError>)
        ensures
            writes_as(old(self).cached(), key@, unit_result_view(written), final(self).cached()),
            final(self).slot() == old(self).slot(),
    {
        match self.store.set(key) {
            Ok(_) => {
                self.cache.set_if_absent(String::from_str(key));
                Ok(())
            },
            Err(error) => Err(error),
        }
    }

    /// Makes a fresh secret, writes it to the store and hands it out.
    pub fn generate_and_store_new_key(&mut self) -> (made: Result<String, KeychainError>)
        ensures
            makes_as(old(self).cached(), key_result_view(made), final(self).cached()),
            final(self).slot() == old(self).slot(),
    {
        let key = fresh_secret();
        match self.store_key(key.as_str()) {
            Ok(_) => Ok(key),
            Err(error) => Err(error),
        }
    }

    /// Answers a request that concerns the store; a request for a file
    /// operation is not the manager's to answer.
    pub fn answer(&mut self, request: Request) -> (reply: Option<Reply>)
        ensures
            model::concerns_store(request@) == (reply is Some),
            reply matches Some(given) ==> serves(
                old(self).cached(),
                request@,
                given@,
                final(self).cached(),
            ),
            reply is None ==> final(self).cached() == old(self).cached(),
            final(self).slot() == old(self).slot(),
    {
        match request {
            Request::FetchKey => Some(Reply::Fetched(self.get_key())),
            Request::StoreKey(key) => Some(Reply::Stored(self.store_key(key.as_str()))),
            Request::GenerateKey => Some(Reply::Generated(self.generate_and_store_new_key())),
            _ => None,
        }
    }

    /// Takes a step as far as the manager can by itself: where the step
    /// waits for the store, the store is asked and the session moves on.
    /// What comes back is an outcome or a session that waits for a file
    /// operation.
    pub fn serve(&mut self, step: Step) -> (served: Step)
        ensures
            !waits_for_store(served@),
            final(self).slot() == old(self).slot(),
            waits_for_store(step@) ==> exists|reply: ReplyView|
                serves(
                    old(self).cached(),
                    model::pending(step@->Pending_0),
                    reply,
                    final(self).cached(),
                ) && served@ == #[trigger] settle(step@, reply),
            !waits_for_store(step@) ==> served@ == step@ && final(self).cached() == old(
                self,
            ).cached(),
    {
        match step {
            Step::Finished(outcome) => Step::Finished(outcome),
            Step::Pending(session) => {
                let request = session.request();
                match self.answer(request) {
                    Some(reply) => {
                        let ghost given = reply@;
                        let served = session.advance(reply);
                        assert(served@ == settle(step@, given));
                        served
                    },
                    None => Step::Pending(session),
                }
            },
        }
    }

    /// Begins to get the secret, migrating a key file or making a fresh
    /// secret where the store has none. The session is taken up to its first
    /// file operation.
    pub fn initialize_key(&mut self, paths: Option<KeyFilePaths>) -> (step: Step)
        ensures
            !waits_for_store(step@),
            final(self).slot() == old(self).slot(),
            exists|read: Result<Seq<char>, ErrorView>|
                reads_as(old(self).cached(), read, final(self).cached()) && step@
                    == #[trigger] settle(
                    model::begin_initialize(paths_view(paths)),
                    ReplyView::Fetched(read),
                ),
    {
        let ghost begun = model::begin_initialize(paths_view(paths));
        let step = self.serve(begin_initialize(paths));
        proof {
            let reply = choose|reply: ReplyView|
                serves(old(self).cached(), RequestView::FetchKey, reply, self.cached()) && step@
                    == #[trigger] settle(begun, reply);
            assert(step@ == settle(begun, ReplyView::Fetched(reply->Fetched_0)));
        }
        step
    }

    /// Begins to make sure that there is a secret. With a secret in the
    /// cache the session ends at once, and nothing is touched.
    pub fn authorize_keychain(&mut self, paths: Option<KeyFilePaths>) -> (step: Step)
        ensures
            !waits_for_store(step@),
            final(self).slot() == old(self).slot(),
            exists|read: Result<Seq<char>, ErrorView>|
                reads_as(old(self).cached(), read, final(self).cached()) && step@
                    == #[trigger] settle(
                    model::begin_authorize(paths_view(paths)),
                    ReplyView::Fetched(read),
                ),
            old(self).cached() is Some ==> step@ == StepView::Finished(OutcomeView::Done)
                && final(self).cached() == old(self).cached(),
    {
        let ghost begun = model::begin_authorize(paths_view(paths));
        let step = self.serve(begin_authorize(paths));
        proof {
            let reply = choose|reply: ReplyView|
                serves(old(self).cached(), RequestView::FetchKey, reply, self.cached()) && step@
                    == #[trigger] settle(begun, reply);
            assert(step@ == settle(begun, ReplyView::Fetched(reply->Fetched_0)));
        }
        step
    }

    /// Begins the migration of the key file at `path`. Its first operation
    /// is on the file, so the store is not touched yet.
    pub fn migrate_existing_key(&mut self, path: &str) -> (step: Step)
        ensures
            step@ == model::begin_migrate(path@),
            final(self).cached() == old(self).cached(),
            final(self).slot() == old(self).slot(),
    {
        self.serve(begin_migrate(String::from_str(path)))
    }

    /// Begins the search for a key file.
    pub fn detect_existing_key_file(paths: Option<KeyFilePaths>) -> (step: Step)
        ensures
            step@ == model::begin_locate(paths_view(paths)),
    {
        begin_locate(paths)
    }

    /// Takes a session on by the reply to its file operation, and then as
    /// far as the manager can by itself.
    pub fn resume(&mut self, session: Session, reply: Reply) -> (step: Step)
        ensures
            !waits_for_store(step@),
            final(self).slot() == old(self).slot(),
            !waits_for_store(model::advance(session@, reply@)) ==> step@ == model::advance(
                session@,
                reply@,
            ) && final(self).cached() == old(self).cached(),
            waits_for_store(model::advance(session@, reply@)) ==> exists|given: ReplyView|
                serves(
                    old(self).cached(),
                    model::pending(model::advance(session@, reply@)->Pending_0),
                    given,
                    final(self).cached(),
                ) && step@ == #[trigger] settle(model::advance(session@, reply@), given),
    {
        self.serve(session.advance(reply))
    }
}

/// What the user interface is told of a session that has ended: nothing
/// if it ended well, else the message for the user, which keeps the native
/// detail of the failure to itself.
pub fn authorize_keychain_command(outcome: Outcome) -> (told: Result<(), String>)
    ensures
        match outcome@ {
            OutcomeView::Failed(error) => told matches Err(message) && message@ == user_message(
                error.kind,
            ),
            _ => told is Ok,
        },
{
    match outcome {
        Outcome::Failed(error) => Err(error.to_user_message()),
        _ => Ok(()),
    }
}

} // verus!
