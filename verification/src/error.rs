//! The errors of the storage engine, and how a failure that the backend
//! reports becomes one of them.

use vstd::prelude::*;
use crate::bytes::{copy_text, same_text};

verus! {

/// A failure as the backend reported it: the five-character SQLSTATE class
/// where the server gave one, and the message.
#[derive(Clone, Debug, PartialEq, Eq)]
pub struct BackendError {
    pub code: Option<String>,
    pub message: String,
}

/// What a [`BackendError`] holds.
pub struct BackendErrorView {
    pub code: Option<Seq<char>>,
    pub message: Seq<char>,
}

impl View for BackendError {
    type V = BackendErrorView;

    open spec fn view(&self) -> BackendErrorView {
        BackendErrorView { code: self.code.deep_view(), message: self.message@ }
    }
}

impl DeepView for BackendError {
    type V = BackendErrorView;

    open spec fn deep_view(&self) -> BackendErrorView {
        self@
    }
}

/// What can go wrong in the storage engine.
#[derive(Clone, Debug, PartialEq, Eq)]
pub enum WalletStorageError {
    /// The configuration or the credentials are missing or cannot be read.
    ConfigError,
    /// The wallet does not exist.
    NotFound,
    /// No item, or no tag target, matches.
    ItemNotFound,
    /// An item or a tag to create exists already.
    ItemAlreadyExists,
    /// The wallet to create exists already.
    AlreadyExists,
    /// The backend or the connection failed; the message is the backend's.
    IOError(String),
    /// An invariant of the store does not hold.
    InvalidState(String),
    /// The predicate compiler rejected the search expression.
    QueryError(String),
}

/// What a [`WalletStorageError`] holds.
pub enum WalletStorageErrorView {
    ConfigError,
    NotFound,
    ItemNotFound,
    ItemAlreadyExists,
    AlreadyExists,
    IOError(Seq<char>),
    InvalidState(Seq<char>),
    QueryError(Seq<char>),
}

impl View for WalletStorageError {
    type V = WalletStorageErrorView;

    open spec fn view(&self) -> WalletStorageErrorView {
        match *self {
            WalletStorageError::ConfigError => WalletStorageErrorView::ConfigError,
            WalletStorageError::NotFound => WalletStorageErrorView::NotFound,
            WalletStorageError::ItemNotFound => WalletStorageErrorView::ItemNotFound,
            WalletStorageError::ItemAlreadyExists => WalletStorageErrorView::ItemAlreadyExists,
            WalletStorageError::AlreadyExists => WalletStorageErrorView::AlreadyExists,
            WalletStorageError::IOError(message) => WalletStorageErrorView::IOError(message@),
            WalletStorageError::InvalidState(message) => WalletStorageErrorView::InvalidState(
                message@,
            ),
            WalletStorageError::QueryError(message) => WalletStorageErrorView::QueryError(message@),
        }
    }
}

impl DeepView for WalletStorageError {
    type V = WalletStorageErrorView;

    open spec fn deep_view(&self) -> WalletStorageErrorView {
        self@
    }
}

/// SQLSTATE 23505: a row to insert repeats a unique key.
pub open spec fn unique_violation() -> Seq<char> {
    "23505"@
}

/// SQLSTATE 23000: an integrity constraint is violated.
pub open spec fn integrity_constraint_violation() -> Seq<char> {
    "23000"@
}

/// SQLSTATE 42P04: the database to create exists already.
pub open spec fn duplicate_database() -> Seq<char> {
    "42P04"@
}

/// `postgres::error::SqlState::UNIQUE_VIOLATION.code()`: the client library's
/// code for a unique violation. Its source gives the five characters 23505.
#[verifier::external_body]
fn unique_violation_code() -> (code: String)
    ensures
        code@ == unique_violation(),
{
    postgres::error::SqlState::UNIQUE_VIOLATION.code().to_string()
}

/// `postgres::error::SqlState::INTEGRITY_CONSTRAINT_VIOLATION.code()`: the
/// client library's code for an integrity constraint violation. Its source
/// gives the five characters 23000.
#[verifier::external_body]
fn integrity_constraint_violation_code() -> (code: String)
    ensures
        code@ == integrity_constraint_violation(),
{
    postgres::error::SqlState::INTEGRITY_CONSTRAINT_VIOLATION.code().to_string()
}

/// `postgres::error::SqlState::DUPLICATE_DATABASE.code()`: the client
/// library's code for a database that exists already. Its source gives the
/// five characters 42P04.
#[verifier::external_body]
fn duplicate_database_code() -> (code: String)
    ensures
        code@ == duplicate_database(),
{
    postgres::error::SqlState::DUPLICATE_DATABASE.code().to_string()
}

impl BackendErrorView {
    /// The backend refused a row because it repeats a unique key.
    pub open spec fn is_unique_violation(self) -> bool {
        self.code == Some(unique_violation())
    }

    /// The backend refused a row because it repeats a unique key or breaks
    /// another integrity constraint.
    pub open spec fn is_constraint_violation(self) -> bool {
        self.code == Some(unique_violation()) || self.code == Some(
            integrity_constraint_violation(),
        )
    }

    /// The backend refused to create a database because it exists.
    pub open spec fn is_duplicate_database(self) -> bool {
        self.code == Some(duplicate_database())
    }

    /// The error that an unclassified failure of a storage operation becomes:
    /// `ItemAlreadyExists` for a constraint violation, else `IOError` with the
    /// backend's message.
    pub open spec fn storage_failure(self) -> WalletStorageErrorView {
        if self.is_constraint_violation() {
            WalletStorageErrorView::ItemAlreadyExists
        } else {
            WalletStorageErrorView::IOError("IO error during storage operation: "@ + self.message)
        }
    }

    /// `IOError` with `context` put before the backend's message.
    pub open spec fn io_failure(self, context: Seq<char>) -> WalletStorageErrorView {
        WalletStorageErrorView::IOError(context + self.message)
    }
}

impl BackendError {
    /// A failure without a SQLSTATE: the connection failed, or the client
    /// refused the request.
    pub fn new(code: Option<String>, message: String) -> (error: BackendError)
        ensures
            error@ == (BackendErrorView { code: code.deep_view(), message: message@ }),
    {
        BackendError { code, message }
    }

    fn has_code(&self, expected: &String) -> (same: bool)
        ensures
            same == (self@.code == Some(expected@)),
    {
        match &self.code {
            Some(code) => same_text(code.as_str(), expected.as_str()),
            None => false,
        }
    }

    pub fn is_unique_violation(&self) -> (yes: bool)
        ensures
            yes == self@.is_unique_violation(),
    {
        self.has_code(&unique_violation_code())
    }

    pub fn is_constraint_violation(&self) -> (yes: bool)
        ensures
            yes == self@.is_constraint_violation(),
    {
        self.has_code(&unique_violation_code()) || self.has_code(
            &integrity_constraint_violation_code(),
        )
    }

    pub fn is_duplicate_database(&self) -> (yes: bool)
        ensures
            yes == self@.is_duplicate_database(),
    {
        self.has_code(&duplicate_database_code())
    }

    /// The error that this failure becomes where no rule of an operation
    /// says otherwise.
    pub fn storage_failure(&self) -> (error: WalletStorageError)
        ensures
            error@ == self@.storage_failure(),
    {
        if self.is_constraint_violation() {
            WalletStorageError::ItemAlreadyExists
        } else {
            self.io_failure("IO error during storage operation: ")
        }
    }

    /// `IOError` with `context` put before the backend's message.
    pub fn io_failure(&self, context: &str) -> (error: WalletStorageError)
        ensures
            error@ == self@.io_failure(context@),
    {
        let mut message = copy_text(context);
        message.append(self.message.as_str());
        WalletStorageError::IOError(message)
    }
}

/// A copy of `error`.
pub fn duplicate_error(error: &WalletStorageError) -> (copy: WalletStorageError)
    ensures
        copy@ == error@,
{
    match error {
        WalletStorageError::ConfigError => WalletStorageError::ConfigError,
        WalletStorageError::NotFound => WalletStorageError::NotFound,
        WalletStorageError::ItemNotFound => WalletStorageError::ItemNotFound,
        WalletStorageError::ItemAlreadyExists => WalletStorageError::ItemAlreadyExists,
        WalletStorageError::AlreadyExists => WalletStorageError::AlreadyExists,
        WalletStorageError::IOError(message) => WalletStorageError::IOError(
            copy_text(message.as_str()),
        ),
        WalletStorageError::InvalidState(message) => WalletStorageError::InvalidState(
            copy_text(message.as_str()),
        ),
        WalletStorageError::QueryError(message) => WalletStorageError::QueryError(
            copy_text(message.as_str()),
        ),
    }
}

/// `InvalidState` with the given message.
pub fn invalid_state(message: &str) -> (error: WalletStorageError)
    ensures
        error@ == WalletStorageErrorView::InvalidState(message@),
{
    WalletStorageError::InvalidState(copy_text(message))
}

} // verus!
