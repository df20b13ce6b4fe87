//! Failures of the service and the status that each is reported with.

use vstd::prelude::*;
use vstd::string::StringExecFns;

verus! {

/// The code with which the storage service rejects a write that would
/// repeat a value under a unique index.
pub const DUPLICATE_KEY: i32 = 11000;

/// A failure reported by the storage service, as plain values.
#[derive(Debug, PartialEq, Eq)]
pub struct StorageError {
    /// The server's error code, where the failure carries one.
    pub code: Option<i32>,
    /// The failure in words.
    pub message: String,
}

/// The view of [`StorageError`]: its texts as sequences of characters.
pub struct StorageErrorView {
    pub code: Option<i32>,
    pub message: Seq<char>,
}

impl View for StorageError {
    type V = StorageErrorView;

    open spec fn view(&self) -> StorageErrorView {
        StorageErrorView { code: self.code, message: self.message@ }
    }
}

impl StorageErrorView {
    /// Whether the failure is the rejection of a repeated unique value.
    pub open spec fn is_duplicate_key(self) -> bool {
        self.code == Some(DUPLICATE_KEY)
    }
}

impl StorageError {
    /// Whether the storage service refused a write because it would repeat
    /// a value under a unique index.
    pub fn is_duplicate_key(&self) -> (r: bool)
        ensures
            r == self@.is_duplicate_key(),
    {
        match self.code {
            Some(code) => code == DUPLICATE_KEY,
            None => false,
        }
    }
}

/// Why a request was turned down.
#[derive(Debug, PartialEq, Eq)]
pub enum AppError {
    /// The storage service failed.
    MongoDb(StorageError),
    /// The caller is unknown, or may not do what was asked.
    Auth(String),
    /// What was asked for does not exist.
    NotFound(String),
    /// The request itself is unacceptable.
    BadRequest(String),
}

/// The view of [`AppError`]: its texts as sequences of characters.
pub enum AppErrorView {
    MongoDb(StorageErrorView),
    Auth(Seq<char>),
    NotFound(Seq<char>),
    BadRequest(Seq<char>),
}

impl View for AppError {
    type V = AppErrorView;

    open spec fn view(&self) -> AppErrorView {
        match self {
            AppError::MongoDb(e) => AppErrorView::MongoDb(e@),
            AppError::Auth(m) => AppErrorView::Auth(m@),
            AppError::NotFound(m) => AppErrorView::NotFound(m@),
            AppError::BadRequest(m) => AppErrorView::BadRequest(m@),
        }
    }
}

impl AppErrorView {
    /// The HTTP status that reports the failure.
    pub open spec fn status(self) -> u16 {
        match self {
            AppErrorView::Auth(_) => 401,
            AppErrorView::BadRequest(_) => 400,
            AppErrorView::MongoDb(_) => 500,
            AppErrorView::NotFound(_) => 404,
        }
    }

    /// The short text sent to the caller.
    pub open spec fn message(self) -> Seq<char> {
        match self {
            AppErrorView::Auth(m) => m,
            AppErrorView::BadRequest(m) => m,
            AppErrorView::MongoDb(e) => e.message,
            AppErrorView::NotFound(m) => m,
        }
    }

    /// The words that introduce each kind of failure in its description.
    pub open spec fn prefix(self) -> Seq<char> {
        match self {
            AppErrorView::MongoDb(_) => "MongoDb error: "@,
            AppErrorView::Auth(_) => "Authentication error:"@,
            AppErrorView::NotFound(_) => "Not found :"@,
            AppErrorView::BadRequest(_) => "Bad Request :"@,
        }
    }
}

impl AppError {
    /// The HTTP status that reports the failure.
    pub fn status_code(&self) -> (r: u16)
        ensures
            r == self@.status(),
    {
        match self {
            AppError::Auth(_) => 401,
            AppError::BadRequest(_) => 400,
            AppError::MongoDb(_) => 500,
            AppError::NotFound(_) => 404,
        }
    }

    /// The short text sent to the caller beside the status.
    pub fn message(&self) -> (r: String)
        ensures
            r@ == self@.message(),
    {
        match self {
            AppError::Auth(m) => m.clone(),
            AppError::BadRequest(m) => m.clone(),
            AppError::MongoDb(e) => e.message.clone(),
            AppError::NotFound(m) => m.clone(),
        }
    }

    /// The failure in full: its kind, then its message.
    pub fn describe(&self) -> (r: String)
        ensures
            r@ == self@.prefix() + self@.message(),
    {
        let head = match self {
            AppError::MongoDb(_) => "MongoDb error: ",
            AppError::Auth(_) => "Authentication error:",
            AppError::NotFound(_) => "Not found :",
            AppError::BadRequest(_) => "Bad Request :",
        };
        let tail = self.message();
        String::from_str(head).concat(tail.as_str())
    }
}

impl From<StorageError> for AppError {
    /// A storage failure as the service reports it.
    fn from(e: StorageError) -> (r: AppError) {
        AppError::MongoDb(e)
    }
}

impl vstd::std_specs::convert::FromSpecImpl<StorageError> for AppError {
    open spec fn obeys_from_spec() -> bool {
        true
    }

    open spec fn from_spec(e: StorageError) -> AppError {
        AppError::MongoDb(e)
    }
}

} // verus!
