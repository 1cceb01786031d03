//! The decisions the storage layer takes between its queries: whether a user
//! exists, whether a looked-up row was found, and how a read of stored
//! artifact content is answered.

use vstd::prelude::*;
use crate::codec::StoredRecord;
use crate::error::{Error, ErrorView, Resource};

verus! {

/// The answer to a check for user `user_id`, given how many users have that
/// identifier: none is `NotFound`.
pub fn require_user(user_id: u128, count: i64) -> (r: Result<(), Error>)
    ensures
        count == 0 ==> (r matches Err(e) && e@ == (ErrorView::NotFound { resource: Resource::User, id: user_id })),
        count != 0 ==> r is Ok,
{
    if count == 0 {
        Err(Error::NotFound { resource: Resource::User, id: user_id })
    } else {
        Ok(())
    }
}

/// Reads the row found for `id`, or answers `NotFound` for `resource` and `id`
/// when the query found none.
pub fn decode_found<T: StoredRecord>(row: Option<T::Row>, resource: Resource, id: u128) -> (r: Result<T, Error>)
    ensures
        match row {
            None => r matches Err(e) && e@ == (ErrorView::NotFound { resource, id }),
            Some(x) => match r {
                Ok(v) => T::spec_decode(x@) == Ok::<<T as View>::V, ErrorView>(v@),
                Err(e) => T::spec_decode(x@) == Err::<<T as View>::V, ErrorView>(e@),
            },
        },
{
    match row {
        None => Err(Error::NotFound { resource, id }),
        Some(x) => T::from_row(&x),
    }
}

/// The HTTP status of a read of artifact content: 200 with the content when
/// the artifact has some, 204 when it has none.
pub fn content_status(content: &Option<Vec<u8>>) -> (code: u16)
    ensures
        content is Some ==> code == 200,
        content is None ==> code == 204,
{
    match content {
        Some(_) => 200,
        None => 204,
    }
}

} // verus!
