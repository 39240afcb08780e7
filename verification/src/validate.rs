//! Shape validation of a create request: the body must carry the four
//! required text fields. The body arrives as the plain key/value pairs its
//! top-level JSON object held, in order; `create_shape_of` says exactly
//! which bodies are accepted and what they mean.

use vstd::prelude::*;

use crate::models::{NewUser, NewUserView};

verus! {

/// The value under `key` in the pairs, first occurrence first; `None` when
/// the key is absent.
pub open spec fn field_of(fs: Seq<(String, String)>, key: Seq<char>) -> Option<Seq<char>>
    decreases fs.len(),
{
    if fs.len() == 0 {
        None::<Seq<char>>
    } else if fs[0].0@ == key {
        Some(fs[0].1@)
    } else {
        field_of(fs.drop_first(), key)
    }
}

/// The create-shape a body means: `Some` exactly when all four required
/// fields are present, carrying their values.
pub open spec fn create_shape_of(fs: Seq<(String, String)>) -> Option<NewUserView> {
    match (field_of(fs, "email"@), field_of(fs, "first_name"@), field_of(fs, "last_name"@),
        field_of(fs, "username"@)) {
        (Some(e), Some(f), Some(l), Some(u)) => Some(
            NewUserView { email: e, first_name: f, last_name: l, username: u },
        ),
        _ => None::<NewUserView>,
    }
}

/// Relies on str's PartialEq: two string slices are equal exactly when
/// their character sequences are.
#[verifier::external_body]
fn str_eq(a: &str, b: &str) -> (r: bool)
    ensures
        r == (a@ == b@),
{
    a == b
}

/// The value under `key`, as `field_of` gives it.
fn lookup_field(fs: &Vec<(String, String)>, key: &str) -> (r: Option<String>)
    ensures
        r matches Some(v) ==> field_of(fs@, key@) == Some(v@),
        r is None ==> field_of(fs@, key@) is None,
{
    let n = fs.len();
    let mut i: usize = 0;
    proof {
        assert(fs@.subrange(0, n as int) =~= fs@);
    }
    while i < n
        invariant
            i <= n,
            n == fs@.len(),
            field_of(fs@, key@) == field_of(fs@.subrange(i as int, n as int), key@),
        decreases n - i,
    {
        proof {
            let rest = fs@.subrange(i as int, n as int);
            assert(rest[0] == fs@[i as int]);
            assert(rest.drop_first() =~= fs@.subrange(i + 1 as int, n as int));
        }
        if str_eq(fs[i].0.as_str(), key) {
            return Some(fs[i].1.clone());
        }
        i = i + 1;
    }
    proof {
        assert(fs@.subrange(n as int, n as int) =~= Seq::<(String, String)>::empty());
    }
    None
}

/// Build the create-shape from a body's key/value pairs: `Some` exactly
/// when every required field is present, and then the fields hold the
/// body's values; `None` rejects the body.
pub fn new_user_of_fields(fields: &Vec<(String, String)>) -> (r: Option<NewUser>)
    ensures
        r matches Some(nu) ==> create_shape_of(fields@) == Some(nu@),
        r is None ==> create_shape_of(fields@) is None,
{
    let e = lookup_field(fields, "email");
    let f = lookup_field(fields, "first_name");
    let l = lookup_field(fields, "last_name");
    let u = lookup_field(fields, "username");
    match (e, f, l, u) {
        (Some(e), Some(f), Some(l), Some(u)) => Some(
            NewUser { email: e, first_name: f, last_name: l, username: u },
        ),
        _ => None,
    }
}

} // verus!
