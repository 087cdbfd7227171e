use vstd::prelude::*;

verus! {

/// How a request ends.
#[derive(Clone, Copy, Debug, PartialEq, Eq, Structural)]
pub enum Reply {
    /// The rows were read.
    Listed,
    /// The row was added; the reply carries it.
    Created,
    /// At least one row was changed.
    Updated,
    /// At least one row was removed; the reply is empty.
    Deleted,
    /// The store refused the new row.
    ValidationFailure,
    /// No row was changed or removed.
    NotFound,
    /// The store could not be read.
    StoreUnavailable,
}

impl Reply {
    pub open spec fn status_spec(self) -> u16 {
        match self {
            Reply::Listed => 200,
            Reply::Created => 201,
            Reply::Updated => 200,
            Reply::Deleted => 204,
            Reply::ValidationFailure => 400,
            Reply::NotFound => 404,
            Reply::StoreUnavailable => 503,
        }
    }

    /// The HTTP status code of the reply.
    pub fn status(&self) -> (r: u16)
        ensures
            r == self.status_spec(),
    {
        match self {
            Reply::Listed => 200,
            Reply::Created => 201,
            Reply::Updated => 200,
            Reply::Deleted => 204,
            Reply::ValidationFailure => 400,
            Reply::NotFound => 404,
            Reply::StoreUnavailable => 503,
        }
    }
}

/// The reply to a listing, given whether the store could be read.
pub fn list_reply(read: bool) -> (r: Reply)
    ensures
        r == (if read {
            Reply::Listed
        } else {
            Reply::StoreUnavailable
        }),
{
    if read {
        Reply::Listed
    } else {
        Reply::StoreUnavailable
    }
}

/// The reply to a creation, given whether the store accepted the row.
pub fn create_reply(accepted: bool) -> (r: Reply)
    ensures
        r == (if accepted {
            Reply::Created
        } else {
            Reply::ValidationFailure
        }),
{
    if accepted {
        Reply::Created
    } else {
        Reply::ValidationFailure
    }
}

/// The reply to an update, given the number of rows changed, or `None` where the store
/// refused the statement.
pub fn update_reply(affected: Option<u64>) -> (r: Reply)
    ensures
        r == (match affected {
            Some(n) => if n > 0 {
                Reply::Updated
            } else {
                Reply::NotFound
            },
            None => Reply::NotFound,
        }),
{
    match affected {
        Some(n) => if n > 0 {
            Reply::Updated
        } else {
            Reply::NotFound
        },
        None => Reply::NotFound,
    }
}

pub open spec fn delete_reply_spec(affected: Option<u64>) -> Reply {
    match affected {
        Some(n) => if n > 0 {
            Reply::Deleted
        } else {
            Reply::NotFound
        },
        None => Reply::NotFound,
    }
}

/// The reply to a deletion, given the number of rows removed, or `None` where the store
/// refused the statement.
pub fn delete_reply(affected: Option<u64>) -> (r: Reply)
    ensures
        r == delete_reply_spec(affected),
{
    match affected {
        Some(n) => if n > 0 {
            Reply::Deleted
        } else {
            Reply::NotFound
        },
        None => Reply::NotFound,
    }
}

} // verus!
