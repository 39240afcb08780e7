//! Request handlers: the mapping from request outcomes to HTTP
//! responses, and the per-request decision flow over the store.
//!
//! The surrounding server does the wire work — it parses the body, acquires
//! the pooled connection, runs the statement — and hands the outcomes in as
//! plain values; every decision about them is made here.

use vstd::prelude::*;

use crate::errors::{MyError, body_of, status_of};
use crate::http::Response;
use crate::json::{json_of_user, json_of_users, user_json, users_json};
use crate::models::{NewUser, User, views_of};
use crate::store::{Store, spec_assigned, spec_insert};

verus! {

/// The informational index route: the two routes the service offers.
pub fn index() -> (r: Response)
    ensures
        r.status == 200,
        r.body@ == "GET /users/all\nor\nPOST /users/add"@,
{
    let mut body = String::new();
    body.append("GET /users/all\nor\nPOST /users/add");
    proof {
        assert(body@ =~= "GET /users/all\nor\nPOST /users/add"@);
    }
    Response { status: 200, body }
}

/// A create request whose body does not parse into the create-shape is
/// rejected with 400 and an empty body; nothing is persisted.
pub fn reject_malformed() -> (r: Response)
    ensures
        r.status == 400,
        r.body@ == Seq::<char>::empty(),
{
    Response { status: 400, body: String::new() }
}

/// The decision after an insert statement returns its rows: zero rows is
/// the `NotFound` anomaly (an insert normally returns exactly one row),
/// otherwise the last returned row is the created entity.
pub fn user_from_rows(rows: Vec<User>) -> (r: Result<User, MyError>)
    ensures
        rows@.len() > 0 ==> (r matches Ok(u) && u == rows@.last()),
        rows@.len() == 0 ==> (r matches Err(e) && e == MyError::NotFound),
{
    let mut rs = rows;
    match rs.pop() {
        Some(u) => Ok(u),
        None => Err(MyError::NotFound),
    }
}

/// The response for a finished create: the created entity as JSON on
/// success, the failure's status and body otherwise.
pub fn respond_insert(r: Result<User, MyError>) -> (resp: Response)
    ensures
        r matches Ok(u) ==> resp.status == 200 && resp.body@ == json_of_user(u@),
        r matches Err(e) ==> resp.status as int == status_of(e) && resp.body@ == body_of(e),
{
    match r {
        Ok(u) => {
            let body = user_json(&u);
            Response { status: 200, body }
        },
        Err(e) => e.error_response(),
    }
}

/// The response for a finished list-all: the records as a JSON array (an
/// empty result set is a success, not an error), the failure's status and
/// body otherwise.
pub fn respond_list(r: Result<Vec<User>, MyError>) -> (resp: Response)
    ensures
        r matches Ok(v) ==> resp.status == 200 && resp.body@ == json_of_users(views_of(v@)),
        r matches Err(e) ==> resp.status as int == status_of(e) && resp.body@ == body_of(e),
{
    match r {
        Ok(v) => {
            let body = users_json(&v);
            Response { status: 200, body }
        },
        Err(e) => e.error_response(),
    }
}

/// The whole create flow against the store model: a malformed body (`None`)
/// is rejected with 400 and persists nothing; a pool failure answers 500
/// with the failure's message and persists nothing; otherwise the payload
/// is inserted and the created entity, key included, is returned as JSON
/// with 200.
pub fn add_user(store: &mut Store, pool: Result<(), String>, body: Option<NewUser>) -> (r:
    Response)
    requires
        old(store).wf(),
        old(store)@.next_id < i64::MAX,
    ensures
        final(store).wf(),
        body is None ==> r.status == 400 && final(store)@ == old(store)@,
        body is Some && pool is Err ==> r.status == 500 && final(store)@ == old(store)@,
        pool matches Err(m) ==> (body is Some ==> r.body@ == m@),
        body matches Some(nu) ==> (pool is Ok ==> final(store)@ == spec_insert(old(store)@, nu@)
            && r.status == 200 && r.body@ == json_of_user(spec_assigned(old(store)@, nu@))),
{
    match body {
        None => reject_malformed(),
        Some(nu) => match pool {
            Err(m) => {
                let e = MyError::PoolError(m);
                e.error_response()
            },
            Ok(()) => {
                let u = store.insert_user(nu);
                let jbody = user_json(&u);
                Response { status: 200, body: jbody }
            },
        },
    }
}

/// The whole list-all flow against the store model: a pool failure answers
/// 500 with the failure's message; otherwise every persisted record, in
/// insertion order, as a JSON array with 200. The store is never changed.
pub fn get_users(store: &Store, pool: Result<(), String>) -> (r: Response)
    ensures
        pool is Ok ==> r.status == 200 && r.body@ == json_of_users(store@.users),
        pool matches Err(m) ==> r.status == 500 && r.body@ == m@,
{
    match pool {
        Err(m) => {
            let e = MyError::PoolError(m);
            e.error_response()
        },
        Ok(()) => {
            let v = store.list_users();
            let body = users_json(v);
            Response { status: 200, body }
        },
    }
}

} // verus!
