//! The secret's slot in the operating system's credential store.

use vstd::prelude::*;
use crate::error::{bare, ErrorKind, ErrorView, KeychainError};
use crate::text::{mentions, mentions_word};

verus! {

/// The service under which the secret is filed.
pub const SERVICE_NAME: &'static str = "com.journal.app";

/// The account under which the secret is filed.
pub const ACCOUNT_NAME: &'static str = "journal_encryption_key";

/// `keyring::Entry`, the handle of one slot of the credential store. Nothing
/// is known of what it holds.
#[verifier::external_type_specification]
#[verifier::external_body]
pub struct ExEntry(keyring::Entry);

/// `keyring::Error`, the failure of a call on the credential store. It is
/// read through [`fault_of`] only.
#[verifier::external_type_specification]
#[verifier::external_body]
pub struct ExStoreError(keyring::Error);

/// How the credential store named a failure.
#[derive(Clone, Copy, Debug, PartialEq, Eq, Structural)]
pub enum FaultKind {
    PlatformFailure,
    NoStorageAccess,
    NoEntry,
    BadEncoding,
    TooLong,
    Invalid,
    Ambiguous,
    Unlisted,
}

/// A failure of the credential store in plain values: how the store named it,
/// and the store's own text for it.
#[derive(Debug)]
pub struct StoreFault {
    pub kind: FaultKind,
    pub message: String,
}

/// The mathematical value of a [`StoreFault`].
pub struct FaultView {
    pub kind: FaultKind,
    pub message: Seq<char>,
}

impl View for StoreFault {
    type V = FaultView;

    open spec fn view(&self) -> FaultView {
        FaultView { kind: self.kind, message: self.message@ }
    }
}

/// The text speaks of a refusal: it mentions "denied", "access" or
/// "permission", in whatever case.
pub open spec fn speaks_of_refusal(message: Seq<char>) -> bool {
    ||| mentions(message, "denied"@)
    ||| mentions(message, "access"@)
    ||| mentions(message, "permission"@)
}

/// The text speaks of a missing entry: it mentions "not found", in whatever
/// case.
pub open spec fn speaks_of_absence(message: Seq<char>) -> bool {
    mentions(message, "not found"@)
}

/// Whether the store has said no more of the failure than its text: a
/// failure of the platform, or one that the store does not list. Only then
/// is the text searched for what the failure is.
pub open spec fn text_decides(kind: FaultKind) -> bool {
    kind == FaultKind::PlatformFailure || kind == FaultKind::Unlisted
}

/// What a failed read of the slot means. The store's own naming decides
/// where it names the failure: a store that cannot be reached is a refusal,
/// a missing entry is a missing entry, and any other named failure keeps the
/// store's text as its detail. Where the store has only its text to give,
/// the text decides, a refusal before a missing entry; a failure that is
/// neither keeps the text as its detail.
pub open spec fn read_failure(fault: FaultView) -> ErrorView {
    if fault.kind == FaultKind::NoStorageAccess {
        bare(ErrorKind::KeychainAccessDenied)
    } else if fault.kind == FaultKind::NoEntry {
        bare(ErrorKind::KeyNotFound)
    } else if text_decides(fault.kind) && speaks_of_refusal(fault.message) {
        bare(ErrorKind::KeychainAccessDenied)
    } else if text_decides(fault.kind) && speaks_of_absence(fault.message) {
        bare(ErrorKind::KeyNotFound)
    } else {
        ErrorView { kind: ErrorKind::KeychainError, detail: fault.message }
    }
}

/// What a failed write of the slot means: a refusal, where the store cannot
/// be reached or where the store has only its text to give and the text
/// speaks of one; else a failure that keeps the store's text as its detail.
/// A write is never answered with a missing entry.
pub open spec fn write_failure(fault: FaultView) -> ErrorView {
    if fault.kind == FaultKind::NoStorageAccess || (text_decides(fault.kind) && speaks_of_refusal(
        fault.message,
    )) {
        bare(ErrorKind::KeychainAccessDenied)
    } else {
        ErrorView { kind: ErrorKind::KeychainError, detail: fault.message }
    }
}

/// The failure is one that a read of the slot can end in.
pub open spec fn is_read_failure(error: ErrorView) -> bool {
    exists|fault: FaultView| error == read_failure(fault)
}

/// The failure is one that a write of the slot can end in.
pub open spec fn is_write_failure(error: ErrorView) -> bool {
    exists|fault: FaultView| error == write_failure(fault)
}

/// A failed read is a refusal, a missing entry, or a failure of the store
/// with its text; the first two carry no detail.
pub proof fn lemma_read_failures(error: ErrorView)
    requires
        is_read_failure(error),
    ensures
        error == bare(ErrorKind::KeychainAccessDenied) || error == bare(ErrorKind::KeyNotFound)
            || error.kind == ErrorKind::KeychainError,
{
}

/// A failure that the store has named, other than a store that cannot be
/// reached or a missing entry, keeps the store's text whatever the text
/// says: the words of the text are not searched.
pub proof fn lemma_named_failure_keeps_its_text(fault: FaultView)
    requires
        !text_decides(fault.kind),
        fault.kind != FaultKind::NoStorageAccess,
    ensures
        fault.kind != FaultKind::NoEntry ==> read_failure(fault) == (ErrorView {
            kind: ErrorKind::KeychainError,
            detail: fault.message,
        }),
        write_failure(fault) == (ErrorView { kind: ErrorKind::KeychainError, detail: fault.message }),
{
}

/// A failed write is a refusal or a failure of the store with its text,
/// never a missing entry.
pub proof fn lemma_write_failures(error: ErrorView)
    requires
        is_write_failure(error),
    ensures
        error == bare(ErrorKind::KeychainAccessDenied) || error.kind == ErrorKind::KeychainError,
{
}

/// Whether the text speaks of a refusal.
pub fn text_speaks_of_refusal(message: &str) -> (found: bool)
    ensures
        found == speaks_of_refusal(message@),
{
    mentions_word(message, "denied") || mentions_word(message, "access") || mentions_word(
        message,
        "permission",
    )
}

/// Classifies a failed read of the slot.
pub fn classify_read(fault: StoreFault) -> (error: KeychainError)
    ensures
        error@ == read_failure(fault@),
{
    match fault.kind {
        FaultKind::NoStorageAccess => KeychainError::KeychainAccessDenied,
        FaultKind::NoEntry => KeychainError::KeyNotFound,
        FaultKind::PlatformFailure | FaultKind::Unlisted => {
            if text_speaks_of_refusal(fault.message.as_str()) {
                KeychainError::KeychainAccessDenied
            } else if mentions_word(fault.message.as_str(), "not found") {
                KeychainError::KeyNotFound
            } else {
                KeychainError::KeychainError(fault.message)
            }
        },
        _ => KeychainError::KeychainError(fault.message),
    }
}

/// Classifies a failed write of the slot.
pub fn classify_write(fault: StoreFault) -> (error: KeychainError)
    ensures
        error@ == write_failure(fault@),
{
    match fault.kind {
        FaultKind::NoStorageAccess => KeychainError::KeychainAccessDenied,
        FaultKind::PlatformFailure | FaultKind::Unlisted => {
            if text_speaks_of_refusal(fault.message.as_str()) {
                KeychainError::KeychainAccessDenied
            } else {
                KeychainError::KeychainError(fault.message)
            }
        },
        _ => KeychainError::KeychainError(fault.message),
    }
}

/// `keyring::Entry::new`: makes the handle of the slot that the service and
/// the account name. Whether it succeeds is the platform's to say, so nothing
/// is claimed of the result. (The call panics only if the crate's own lock
/// was poisoned by an earlier panic.)
pub assume_specification[ keyring::Entry::new ](service: &str, user: &str) -> (entry:
    keyring::Result<keyring::Entry>)
;

/// `keyring::Entry::get_password`: reads the slot. What comes back depends on
/// the credential store at that moment, so nothing is claimed of it.
pub assume_specification[ keyring::Entry::get_password ](entry: &keyring::Entry) -> (password:
    keyring::Result<String>)
;

/// `keyring::Entry::set_password`: writes the slot. Whether the store takes
/// the value is the platform's to say, so nothing is claimed of the result.
pub assume_specification[ keyring::Entry::set_password ](
    entry: &keyring::Entry,
    password: &str,
) -> (written: keyring::Result<()>)
;

/// Tells the variants of `keyring::Error` apart and takes the text that its
/// `Display` gives. Nothing is claimed of either: the verified code works for
/// every kind and every text.
#[verifier::external_body]
fn fault_of(error: &keyring::Error) -> (fault: StoreFault) {
    let kind = match error {
        keyring::Error::PlatformFailure(_) => FaultKind::PlatformFailure,
        keyring::Error::NoStorageAccess(_) => FaultKind::NoStorageAccess,
        keyring::Error::NoEntry => FaultKind::NoEntry,
        keyring::Error::BadEncoding(_) => FaultKind::BadEncoding,
        keyring::Error::TooLong(_, _) => FaultKind::TooLong,
        keyring::Error::Invalid(_, _) => FaultKind::Invalid,
        keyring::Error::Ambiguous(_) => FaultKind::Ambiguous,
        _ => FaultKind::Unlisted,
    };
    StoreFault { kind, message: error.to_string() }
}

/// The secret's slot in the credential store, under the fixed service and
/// account of this application.
pub struct CredentialStore {
    entry: keyring::Entry,
}

impl CredentialStore {
    /// The slot behind a handle that the caller has made.
    pub fn over(entry: keyring::Entry) -> (store: Self)
        ensures
            store.handle() == entry,
    {
        CredentialStore { entry }
    }

    /// The handle of the slot.
    pub fn entry(&self) -> (entry: &keyring::Entry)
        ensures
            *entry == self.handle(),
    {
        &self.entry
    }

    /// The handle of the slot.
    pub closed spec fn handle(&self) -> keyring::Entry {
        self.entry
    }

    /// Opens the slot. A failure keeps the store's text as its detail.
    pub fn open() -> (opened: Result<Self, KeychainError>)
        ensures
            opened matches Err(error) ==> error@.kind == ErrorKind::KeychainError,
    {
        match keyring::Entry::new(SERVICE_NAME, ACCOUNT_NAME) {
            Ok(entry) => Ok(CredentialStore { entry }),
            Err(error) => Err(KeychainError::KeychainError(fault_of(&error).message)),
        }
    }

    /// Reads the secret. A failure is classified by [`read_failure`].
    pub fn get(&self) -> (read: Result<String, KeychainError>)
        ensures
            read matches Err(error) ==> is_read_failure(error@),
    {
        match self.entry.get_password() {
            Ok(secret) => Ok(secret),
            Err(error) => {
                let fault = fault_of(&error);
                assert(read_failure(fault@) == read_failure(fault@));
                Err(classify_read(fault))
            },
        }
    }

    /// Writes the secret. A failure is classified by [`write_failure`].
    pub fn set(&self, secret: &str) -> (written: Result<(), KeychainError>)
        ensures
            written matches Err(error) ==> is_write_failure(error@),
    {
        match self.entry.set_password(secret) {
            Ok(_) => Ok(()),
            Err(error) => {
                let fault = fault_of(&error);
                assert(write_failure(fault@) == write_failure(fault@));
                Err(classify_write(fault))
            },
        }
    }
}

} // verus!
