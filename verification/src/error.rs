//! The kinds of failure that a caller can tell apart.

use vstd::prelude::*;

verus! {

/// Why an operation failed.
#[derive(Clone, Copy, Debug, PartialEq, Eq, Structural)]
pub enum Error {
    /// The backend could not be reached or opened.
    Connection,
    /// The statement lacks a field that the requested kind of SQL needs.
    Render,
    /// The backend rejected or failed the SQL.
    Execution,
    /// A returned row does not have the shape of the requested type.
    Decode,
    /// A query that must return a row returned none.
    NotFound,
    /// The caller broke the contract of an operation.
    Contract,
}

/// What the database driver reported when a call to it failed.
#[derive(Clone, Copy, Debug, PartialEq, Eq, Structural)]
pub enum DriverFailure {
    Configuration,
    InvalidArgument,
    Database,
    Io,
    Tls,
    Protocol,
    RowNotFound,
    TypeNotFound,
    ColumnIndexOutOfBounds,
    ColumnNotFound,
    ColumnDecode,
    Encode,
    Decode,
    AnyDriver,
    PoolTimedOut,
    PoolClosed,
    WorkerCrashed,
    InvalidSavePoint,
    BeginFailed,
    Other,
}

impl DriverFailure {
    /// Whether the backend could not be reached or opened.
    pub open spec fn unreachable(self) -> bool {
        self == DriverFailure::Configuration || self == DriverFailure::Io || self
            == DriverFailure::Tls || self == DriverFailure::PoolClosed
    }

    /// Whether a row came back that does not have the requested shape.
    pub open spec fn misshapen(self) -> bool {
        self == DriverFailure::TypeNotFound || self == DriverFailure::ColumnIndexOutOfBounds
            || self == DriverFailure::ColumnNotFound || self == DriverFailure::ColumnDecode
            || self == DriverFailure::Decode
    }
}

impl Error {
    /// The kind of a failure of the driver while a statement runs: a missing
    /// row is [`Error::NotFound`], a row of the wrong shape
    /// [`Error::Decode`], an unreachable backend [`Error::Connection`], and
    /// all else, a timeout too, [`Error::Execution`].
    pub open spec fn of(failure: DriverFailure) -> Error {
        if failure == DriverFailure::RowNotFound {
            Error::NotFound
        } else if failure.misshapen() {
            Error::Decode
        } else if failure.unreachable() {
            Error::Connection
        } else {
            Error::Execution
        }
    }

    /// The kind of a failure of the driver while a statement runs.
    pub fn from_driver(failure: DriverFailure) -> (out: Error)
        ensures
            out == Error::of(failure),
    {
        match failure {
            DriverFailure::RowNotFound => Error::NotFound,
            DriverFailure::TypeNotFound
            | DriverFailure::ColumnIndexOutOfBounds
            | DriverFailure::ColumnNotFound
            | DriverFailure::ColumnDecode
            | DriverFailure::Decode => Error::Decode,
            DriverFailure::Configuration
            | DriverFailure::Io
            | DriverFailure::Tls
            | DriverFailure::PoolClosed => Error::Connection,
            _ => Error::Execution,
        }
    }
}

} // verus!
