//! The errors of the service and the HTTP status each one is answered with.

use vstd::prelude::*;

verus! {

/// The kind of record a lookup was about.
#[derive(Clone, Copy, Debug, PartialEq, Eq)]
pub enum Resource {
    Channel,
    Thread,
    Issue,
    Artifact,
    User,
}

impl Resource {
    /// The name of the resource, as it appears in error messages.
    pub open spec fn spec_name(self) -> Seq<char> {
        match self {
            Resource::Channel => "channel"@,
            Resource::Thread => "thread"@,
            Resource::Issue => "issue"@,
            Resource::Artifact => "artifact"@,
            Resource::User => "user"@,
        }
    }

    pub fn name(&self) -> (s: &'static str)
        ensures
            s@ == self.spec_name(),
    {
        match self {
            Resource::Channel => "channel",
            Resource::Thread => "thread",
            Resource::Issue => "issue",
            Resource::Artifact => "artifact",
            Resource::User => "user",
        }
    }
}

/// Everything that can go wrong in a request.
#[derive(Clone, Debug, PartialEq, Eq)]
pub enum Error {
    /// No record of that kind has that identifier.
    NotFound { resource: Resource, id: u128 },
    /// The request itself is malformed.
    InvalidInput(String),
    /// The database failed, or holds a row that cannot be read.
    Storage(String),
}

/// An error with its messages taken as character sequences.
pub enum ErrorView {
    NotFound { resource: Resource, id: u128 },
    InvalidInput(Seq<char>),
    Storage(Seq<char>),
}

impl View for Error {
    type V = ErrorView;

    open spec fn view(&self) -> ErrorView {
        match self {
            Error::NotFound { resource, id } => ErrorView::NotFound { resource: *resource, id: *id },
            Error::InvalidInput(m) => ErrorView::InvalidInput(m@),
            Error::Storage(m) => ErrorView::Storage(m@),
        }
    }
}

/// The HTTP status that answers a failed request: 404 for a missing record,
/// 400 for a malformed request, 500 for everything else.
pub open spec fn spec_status_code(e: ErrorView) -> u16 {
    match e {
        ErrorView::NotFound { .. } => 404,
        ErrorView::InvalidInput(_) => 400,
        ErrorView::Storage(_) => 500,
    }
}

impl Error {
    /// The HTTP status that answers a request failing with this error.
    pub fn status_code(&self) -> (code: u16)
        ensures
            code == spec_status_code(self@),
    {
        match self {
            Error::NotFound { .. } => 404,
            Error::InvalidInput(_) => 400,
            Error::Storage(_) => 500,
        }
    }

    /// The error for a record of kind `resource` that has no row under `id`.
    pub fn not_found(resource: Resource, id: u128) -> (e: Error)
        ensures
            e@ == (ErrorView::NotFound { resource, id }),
    {
        Error::NotFound { resource, id }
    }
}

/// Turns a row fetched by identifier into the row itself, or into `NotFound`
/// for `resource` and `id` when the query found none.
pub fn found_or_not_found<R>(row: Option<R>, resource: Resource, id: u128) -> (r: Result<R, Error>)
    ensures
        match row {
            Some(x) => r == Ok::<R, Error>(x),
            None => r matches Err(e) && e@ == (ErrorView::NotFound { resource, id }),
        },
{
    match row {
        Some(x) => Ok(x),
        None => Err(Error::NotFound { resource, id }),
    }
}

} // verus!
