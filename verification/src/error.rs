//! The closed set of failures, and the messages shown for them.

use vstd::prelude::*;
use vstd::string::*;

verus! {

/// What went wrong, without the detail that came with it.
#[derive(Clone, Copy, Debug, PartialEq, Eq, Structural)]
pub enum ErrorKind {
    KeychainAccess,
    KeyNotFound,
    KeyStorage,
    KeyRetrieval,
    KeyDeletion,
    AuthenticationRequired,
    FileIO,
    MigrationError,
    AppSupportDirNotFound,
    KeyGeneration,
    AuthenticationFailed,
    KeychainAccessDenied,
    KeychainError,
    FileError,
}

/// A failure of the key lifecycle. Variants with a `String` carry the native
/// detail, which is kept for diagnostics and never shown to the user.
#[derive(Debug)]
pub enum KeychainError {
    KeychainAccess(String),
    KeyNotFound,
    KeyStorage(String),
    KeyRetrieval(String),
    KeyDeletion(String),
    AuthenticationRequired,
    FileIO(String),
    MigrationError(String),
    AppSupportDirNotFound,
    KeyGeneration(String),
    AuthenticationFailed,
    KeychainAccessDenied,
    KeychainError(String),
    FileError(String),
}

/// The mathematical value of a [`KeychainError`]: its kind and its detail
/// (empty for the kinds that carry none).
pub struct ErrorView {
    pub kind: ErrorKind,
    pub detail: Seq<char>,
}

impl View for KeychainError {
    type V = ErrorView;

    open spec fn view(&self) -> ErrorView {
        match self {
            KeychainError::KeychainAccess(d) => ErrorView { kind: ErrorKind::KeychainAccess, detail: d@ },
            KeychainError::KeyNotFound => ErrorView { kind: ErrorKind::KeyNotFound, detail: Seq::empty() },
            KeychainError::KeyStorage(d) => ErrorView { kind: ErrorKind::KeyStorage, detail: d@ },
            KeychainError::KeyRetrieval(d) => ErrorView { kind: ErrorKind::KeyRetrieval, detail: d@ },
            KeychainError::KeyDeletion(d) => ErrorView { kind: ErrorKind::KeyDeletion, detail: d@ },
            KeychainError::AuthenticationRequired => ErrorView {
                kind: ErrorKind::AuthenticationRequired,
                detail: Seq::empty(),
            },
            KeychainError::FileIO(d) => ErrorView { kind: ErrorKind::FileIO, detail: d@ },
            KeychainError::MigrationError(d) => ErrorView { kind: ErrorKind::MigrationError, detail: d@ },
            KeychainError::AppSupportDirNotFound => ErrorView {
                kind: ErrorKind::AppSupportDirNotFound,
                detail: Seq::empty(),
            },
            KeychainError::KeyGeneration(d) => ErrorView { kind: ErrorKind::KeyGeneration, detail: d@ },
            KeychainError::AuthenticationFailed => ErrorView {
                kind: ErrorKind::AuthenticationFailed,
                detail: Seq::empty(),
            },
            KeychainError::KeychainAccessDenied => ErrorView {
                kind: ErrorKind::KeychainAccessDenied,
                detail: Seq::empty(),
            },
            KeychainError::KeychainError(d) => ErrorView { kind: ErrorKind::KeychainError, detail: d@ },
            KeychainError::FileError(d) => ErrorView { kind: ErrorKind::FileError, detail: d@ },
        }
    }
}

/// A failure with a kind and no detail.
pub open spec fn bare(kind: ErrorKind) -> ErrorView {
    ErrorView { kind, detail: Seq::empty() }
}

/// The message shown to the user for a failure of the given kind.
pub open spec fn user_message(kind: ErrorKind) -> Seq<char> {
    match kind {
        ErrorKind::AuthenticationFailed =>
            "Unable to access the system keychain. Please check your system permissions."@,
        ErrorKind::KeychainAccessDenied | ErrorKind::KeychainError | ErrorKind::KeyNotFound =>
            "There was a problem accessing the system keychain. Please ensure you have granted the necessary permissions."@,
        ErrorKind::FileError | ErrorKind::AppSupportDirNotFound =>
            "There was a problem accessing the application data. Please ensure you have the necessary permissions."@,
        ErrorKind::MigrationError =>
            "There was a problem migrating your encryption key. Please try restarting the application."@,
        ErrorKind::KeyGeneration =>
            "There was a problem generating a new encryption key. Please try restarting the application."@,
        _ => "An unexpected error occurred. Please try restarting the application."@,
    }
}

/// What stands before the detail in the diagnostic text of a failure, or the
/// whole text for a kind that carries no detail.
pub open spec fn diagnostic_prefix(kind: ErrorKind) -> Seq<char> {
    match kind {
        ErrorKind::KeychainAccess => "Keychain access error: "@,
        ErrorKind::KeyNotFound => "Key not found in keychain"@,
        ErrorKind::KeyStorage => "Failed to store key: "@,
        ErrorKind::KeyRetrieval => "Failed to retrieve key: "@,
        ErrorKind::KeyDeletion => "Failed to delete key: "@,
        ErrorKind::AuthenticationRequired => "Authentication required to access keychain"@,
        ErrorKind::FileIO => "File I/O error: "@,
        ErrorKind::MigrationError => "Migration error: "@,
        ErrorKind::AppSupportDirNotFound => "Application Support directory not found"@,
        ErrorKind::KeyGeneration => "Failed to generate key: "@,
        ErrorKind::AuthenticationFailed => "Authentication failed to access the system keychain"@,
        ErrorKind::KeychainAccessDenied => "Access denied to the system keychain"@,
        ErrorKind::KeychainError => "Keychain error: "@,
        ErrorKind::FileError => "File error: "@,
    }
}

/// The diagnostic text of a failure: what its kind says, then its detail.
pub open spec fn diagnostic_text(error: ErrorView) -> Seq<char> {
    diagnostic_prefix(error.kind) + error.detail
}

/// Every kind of failure has a message for the user, and none is empty.
pub proof fn lemma_user_message_never_empty(kind: ErrorKind)
    ensures
        user_message(kind).len() > 0,
{
    reveal_strlit("Unable to access the system keychain. Please check your system permissions.");
    reveal_strlit(
        "There was a problem accessing the system keychain. Please ensure you have granted the necessary permissions.",
    );
    reveal_strlit(
        "There was a problem accessing the application data. Please ensure you have the necessary permissions.",
    );
    reveal_strlit(
        "There was a problem migrating your encryption key. Please try restarting the application.",
    );
    reveal_strlit(
        "There was a problem generating a new encryption key. Please try restarting the application.",
    );
    reveal_strlit("An unexpected error occurred. Please try restarting the application.");
}

/// The message for the user is settled by the kind of the failure: two
/// failures of one kind read the same to the user, whatever native detail
/// each of them carries.
pub proof fn lemma_user_message_hides_detail(first: KeychainError, second: KeychainError)
    requires
        first@.kind == second@.kind,
    ensures
        user_message(first@.kind) == user_message(second@.kind),
        user_message(first@.kind).len() > 0,
{
    lemma_user_message_never_empty(first@.kind);
}

impl KeychainError {
    /// The kind of this failure.
    pub fn kind(&self) -> (kind: ErrorKind)
        ensures
            kind == self@.kind,
    {
        match self {
            KeychainError::KeychainAccess(_) => ErrorKind::KeychainAccess,
            KeychainError::KeyNotFound => ErrorKind::KeyNotFound,
            KeychainError::KeyStorage(_) => ErrorKind::KeyStorage,
            KeychainError::KeyRetrieval(_) => ErrorKind::KeyRetrieval,
            KeychainError::KeyDeletion(_) => ErrorKind::KeyDeletion,
            KeychainError::AuthenticationRequired => ErrorKind::AuthenticationRequired,
            KeychainError::FileIO(_) => ErrorKind::FileIO,
            KeychainError::MigrationError(_) => ErrorKind::MigrationError,
            KeychainError::AppSupportDirNotFound => ErrorKind::AppSupportDirNotFound,
            KeychainError::KeyGeneration(_) => ErrorKind::KeyGeneration,
            KeychainError::AuthenticationFailed => ErrorKind::AuthenticationFailed,
            KeychainError::KeychainAccessDenied => ErrorKind::KeychainAccessDenied,
            KeychainError::KeychainError(_) => ErrorKind::KeychainError,
            KeychainError::FileError(_) => ErrorKind::FileError,
        }
    }

    /// The message to show to the user. It depends on the kind alone, so the
    /// native detail never reaches the user.
    pub fn to_user_message(&self) -> (message: String)
        ensures
            message@ == user_message(self@.kind),
            message@.len() > 0,
    {
        proof {
            lemma_user_message_never_empty(self@.kind);
        }
        match self {
            KeychainError::AuthenticationFailed => String::from_str(
                "Unable to access the system keychain. Please check your system permissions.",
            ),
            KeychainError::KeychainAccessDenied
            | KeychainError::KeychainError(_)
            | KeychainError::KeyNotFound => String::from_str(
                "There was a problem accessing the system keychain. Please ensure you have granted the necessary permissions.",
            ),
            KeychainError::FileError(_) | KeychainError::AppSupportDirNotFound => String::from_str(
                "There was a problem accessing the application data. Please ensure you have the necessary permissions.",
            ),
            KeychainError::MigrationError(_) => String::from_str(
                "There was a problem migrating your encryption key. Please try restarting the application.",
            ),
            KeychainError::KeyGeneration(_) => String::from_str(
                "There was a problem generating a new encryption key. Please try restarting the application.",
            ),
            _ => String::from_str(
                "An unexpected error occurred. Please try restarting the application.",
            ),
        }
    }

    /// The diagnostic text of this failure, with its native detail. It is
    /// meant for logs, not for the user.
    pub fn describe(&self) -> (text: String)
        ensures
            text@ == diagnostic_text(self@),
    {
        match self {
            KeychainError::KeychainAccess(d) => String::from_str("Keychain access error: ").concat(
                d.as_str(),
            ),
            KeychainError::KeyNotFound => plain("Key not found in keychain"),
            KeychainError::KeyStorage(d) => String::from_str("Failed to store key: ").concat(
                d.as_str(),
            ),
            KeychainError::KeyRetrieval(d) => String::from_str("Failed to retrieve key: ").concat(
                d.as_str(),
            ),
            KeychainError::KeyDeletion(d) => String::from_str("Failed to delete key: ").concat(
                d.as_str(),
            ),
            KeychainError::AuthenticationRequired => plain(
                "Authentication required to access keychain",
            ),
            KeychainError::FileIO(d) => String::from_str("File I/O error: ").concat(d.as_str()),
            KeychainError::MigrationError(d) => String::from_str("Migration error: ").concat(
                d.as_str(),
            ),
            KeychainError::AppSupportDirNotFound => plain("Application Support directory not found"),
            KeychainError::KeyGeneration(d) => String::from_str("Failed to generate key: ").concat(
                d.as_str(),
            ),
            KeychainError::AuthenticationFailed => plain(
                "Authentication failed to access the system keychain",
            ),
            KeychainError::KeychainAccessDenied => plain("Access denied to the system keychain"),
            KeychainError::KeychainError(d) => String::from_str("Keychain error: ").concat(d.as_str()),
            KeychainError::FileError(d) => String::from_str("File error: ").concat(d.as_str()),
        }
    }
}

/// A text with nothing after it.
fn plain(text: &str) -> (owned: String)
    ensures
        owned@ == text@ + Seq::<char>::empty(),
{
    let owned = String::from_str(text);
    assert(text@ + Seq::<char>::empty() =~= text@);
    owned
}

/// The area in which a failure arose, as the user interface is told.
#[derive(Clone, Copy, Debug, PartialEq, Eq, Structural)]
pub enum ErrorArea {
    File,
    AppSupport,
    Keychain,
    Database,
    Unknown,
}

/// The tag by which an area is named.
pub open spec fn area_tag(area: ErrorArea) -> Seq<char> {
    match area {
        ErrorArea::File => "file_error"@,
        ErrorArea::AppSupport => "app_support_error"@,
        ErrorArea::Keychain => "keychain_error"@,
        ErrorArea::Database => "database_error"@,
        ErrorArea::Unknown => "unknown_error"@,
    }
}

impl ErrorArea {
    /// The tag by which this area is named.
    pub fn tag(self) -> (tag: &'static str)
        ensures
            tag@ == area_tag(self),
    {
        match self {
            ErrorArea::File => "file_error",
            ErrorArea::AppSupport => "app_support_error",
            ErrorArea::Keychain => "keychain_error",
            ErrorArea::Database => "database_error",
            ErrorArea::Unknown => "unknown_error",
        }
    }
}

/// What crosses the boundary to the user interface: a message and the area
/// in which the failure arose.
#[derive(Debug)]
pub struct ErrorResponse {
    pub message: String,
    pub area: ErrorArea,
}

/// The mathematical value of an [`ErrorResponse`].
pub struct ResponseView {
    pub message: Seq<char>,
    pub area: ErrorArea,
}

impl View for ErrorResponse {
    type V = ResponseView;

    open spec fn view(&self) -> ResponseView {
        ResponseView { message: self.message@, area: self.area }
    }
}

impl ErrorResponse {
    /// A response with the given message and area.
    pub fn new(message: String, area: ErrorArea) -> (response: Self)
        ensures
            response.message == message,
            response.area == area,
    {
        ErrorResponse { message, area }
    }

    /// The response for a failure of the key lifecycle: the message for the
    /// user, filed under the keychain. The native detail stays out of it.
    pub fn from_keychain(error: &KeychainError) -> (response: Self)
        ensures
            response.message@ == user_message(error@.kind),
            response.area == ErrorArea::Keychain,
    {
        ErrorResponse { message: error.to_user_message(), area: ErrorArea::Keychain }
    }

    /// The tag of the area.
    pub fn error_type(&self) -> (tag: String)
        ensures
            tag@ == area_tag(self.area),
    {
        String::from_str(self.area.tag())
    }

    /// The tag of the area, a colon and a space, then the message.
    pub fn describe(&self) -> (text: String)
        ensures
            text@ == area_tag(self.area) + ": "@ + self.message@,
    {
        let mut text = String::from_str(self.area.tag());
        text.append(": ");
        text.append(self.message.as_str());
        text
    }
}

impl From<String> for ErrorResponse {
    /// A bare message is filed under the unknown area.
    fn from(error: String) -> (response: Self) {
        ErrorResponse { message: error, area: ErrorArea::Unknown }
    }
}

impl vstd::std_specs::convert::FromSpecImpl<String> for ErrorResponse {
    open spec fn obeys_from_spec() -> bool {
        true
    }

    open spec fn from_spec(error: String) -> Self {
        ErrorResponse { message: error, area: ErrorArea::Unknown }
    }
}

} // verus!
