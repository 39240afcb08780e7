//! The two SQL statements the data layer executes, with the column list
//! inlined. The contracts pin the exact statement text, so the surrounding
//! server runs precisely these statements and nothing else.

use vstd::prelude::*;

verus! {

/// The parameterized insert: the four text fields bound positionally, the
/// full inserted row (generated key included) returned.
pub fn add_user_sql() -> (s: String)
    ensures
        s@ == "INSERT INTO users (email, first_name, last_name, username) VALUES ($1, $2, $3, $4) RETURNING id, email, first_name, last_name, username"@,
{
    let mut s = String::new();
    s.append(
        "INSERT INTO users (email, first_name, last_name, username) VALUES ($1, $2, $3, $4) RETURNING id, email, first_name, last_name, username",
    );
    proof {
        assert(s@
            =~= "INSERT INTO users (email, first_name, last_name, username) VALUES ($1, $2, $3, $4) RETURNING id, email, first_name, last_name, username"@);
    }
    s
}

/// The unfiltered select over the single table, all five columns.
pub fn get_users_sql() -> (s: String)
    ensures
        s@ == "SELECT id, email, first_name, last_name, username FROM users"@,
{
    let mut s = String::new();
    s.append("SELECT id, email, first_name, last_name, username FROM users");
    proof {
        assert(s@ =~= "SELECT id, email, first_name, last_name, username FROM users"@);
    }
    s
}

} // verus!
