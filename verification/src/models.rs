//! The persisted entity and its create-shape.
//!
//! A `User` is the output shape (the generated `id` included); a `NewUser`
//! is the input shape used on create. Contracts speak of the mathematical
//! views `UserView` and `NewUserView`, whose text fields are `Seq<char>`.

use vstd::prelude::*;

verus! {

/// The persisted record: a server-generated primary key and four text fields.
pub struct User {
    pub id: i64,
    pub email: String,
    pub first_name: String,
    pub last_name: String,
    pub username: String,
}

/// The create-shape: the four text fields, no `id`.
pub struct NewUser {
    pub email: String,
    pub first_name: String,
    pub last_name: String,
    pub username: String,
}

/// Mathematical view of a `User`.
pub ghost struct UserView {
    pub id: int,
    pub email: Seq<char>,
    pub first_name: Seq<char>,
    pub last_name: Seq<char>,
    pub username: Seq<char>,
}

/// Mathematical view of a `NewUser`.
pub ghost struct NewUserView {
    pub email: Seq<char>,
    pub first_name: Seq<char>,
    pub last_name: Seq<char>,
    pub username: Seq<char>,
}

impl View for User {
    type V = UserView;

    open spec fn view(&self) -> UserView {
        UserView {
            id: self.id as int,
            email: self.email@,
            first_name: self.first_name@,
            last_name: self.last_name@,
            username: self.username@,
        }
    }
}

impl View for NewUser {
    type V = NewUserView;

    open spec fn view(&self) -> NewUserView {
        NewUserView {
            email: self.email@,
            first_name: self.first_name@,
            last_name: self.last_name@,
            username: self.username@,
        }
    }
}

/// The record `uv` is the one the store makes for payload `nv` under key `id`:
/// same four text fields, that key.
pub open spec fn made_from(uv: UserView, nv: NewUserView, id: int) -> bool {
    &&& uv.id == id
    &&& uv.email == nv.email
    &&& uv.first_name == nv.first_name
    &&& uv.last_name == nv.last_name
    &&& uv.username == nv.username
}

/// The views of a sequence of records.
pub open spec fn views_of(us: Seq<User>) -> Seq<UserView> {
    us.map_values(|u: User| u@)
}

/// Explicit field-by-field mapping from one result row, handed over as its
/// five column values, to the entity type.
pub fn user_from_row(
    id: i64,
    email: String,
    first_name: String,
    last_name: String,
    username: String,
) -> (u: User)
    ensures
        u@ == (UserView { id: id as int, email: email@, first_name: first_name@,
            last_name: last_name@, username: username@ }),
{
    User { id, email, first_name, last_name, username }
}

} // verus!
