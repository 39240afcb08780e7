//! The umbrella error type and how it maps to an HTTP response.
//!
//! Lower-level failures are carried as their diagnostic message text; the
//! mapping to a status code happens here and nowhere else.

use vstd::prelude::*;

use crate::http::Response;

verus! {

/// One case per failure kind.
///
/// `NotFound`: an insert unexpectedly returned no row. `PGError`: a
/// statement or connectivity failure in the store. `PGMError`: a row could
/// not be mapped to the entity. `PoolError`: no connection could be
/// obtained. Each of the last three carries the underlying diagnostic
/// message.
#[derive(Debug)]
pub enum MyError {
    NotFound,
    PGError(String),
    PGMError(String),
    PoolError(String),
}

/// The status code each failure kind maps to: `NotFound` is 404, every
/// pool- or store-level failure is 500.
pub open spec fn status_of(e: MyError) -> int {
    match e {
        MyError::NotFound => 404,
        MyError::PGError(_) => 500,
        MyError::PGMError(_) => 500,
        MyError::PoolError(_) => 500,
    }
}

/// The response body each failure kind carries: a pool failure surfaces its
/// diagnostic message, every other kind an empty body. No field of the
/// configuration (credentials included) flows in here.
pub open spec fn body_of(e: MyError) -> Seq<char> {
    match e {
        MyError::PoolError(m) => m@,
        _ => Seq::<char>::empty(),
    }
}

impl MyError {
    /// The response the service sends for this failure.
    pub fn error_response(&self) -> (r: Response)
        ensures
            r.status as int == status_of(*self),
            r.body@ == body_of(*self),
    {
        match self {
            MyError::NotFound => Response { status: 404, body: String::new() },
            MyError::PoolError(m) => Response { status: 500, body: m.clone() },
            MyError::PGError(_) => Response { status: 500, body: String::new() },
            MyError::PGMError(_) => Response { status: 500, body: String::new() },
        }
    }
}

} // verus!
