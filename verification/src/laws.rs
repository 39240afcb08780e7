//! The service-wide laws, proved over the store's mathematical state.

use vstd::prelude::*;

use crate::json::{json_of_users, json_users_inner};
use crate::models::{NewUserView, made_from};
use crate::store::{StoreView, spec_assigned, spec_insert, store_wf};

verus! {

/// Law: a create followed by a list yields exactly the old list plus one
/// new entity whose four text fields equal the payload's and whose key is a
/// positive integer not previously present; no earlier record changes.
pub proof fn law_create_then_list(s: StoreView, nv: NewUserView)
    requires
        store_wf(s),
    ensures
        ({
            let u = spec_assigned(s, nv);
            let s2 = spec_insert(s, nv);
            &&& s2.users == s.users.push(u)
            &&& s2.users.len() == s.users.len() + 1
            &&& made_from(u, nv, u.id)
            &&& u.id >= 1
            &&& forall|i: int|
                0 <= i < s.users.len() ==> #[trigger] s.users[i].id != u.id && s2.users[i]
                    == s.users[i]
            &&& store_wf(s2)
        }),
{
    let u = spec_assigned(s, nv);
    let s2 = spec_insert(s, nv);
    assert forall|i: int| 0 <= i < s.users.len() implies #[trigger] s.users[i].id != u.id
        && s2.users[i] == s.users[i] by {
        assert(s.users[i].id < s.next_id);
    }
    assert forall|i: int, j: int| 0 <= i < j < s2.users.len() implies #[trigger] s2.users[i].id
        < #[trigger] s2.users[j].id by {
        if j < s.users.len() as int {
        } else {
            assert(s2.users[j] == u);
            assert(s2.users[i] == s.users[i]);
        }
    }
}

/// Law: no implicit deduplication — two creates with identical payloads
/// produce two distinct entities under two distinct keys.
pub proof fn law_no_dedup(s: StoreView, nv: NewUserView)
    requires
        store_wf(s),
    ensures
        ({
            let u1 = spec_assigned(s, nv);
            let s1 = spec_insert(s, nv);
            let u2 = spec_assigned(s1, nv);
            let s2 = spec_insert(s1, nv);
            &&& u1.id != u2.id
            &&& s2.users.len() == s.users.len() + 2
            &&& made_from(u1, nv, u1.id)
            &&& made_from(u2, nv, u2.id)
            &&& store_wf(s2)
        }),
{
    law_create_then_list(s, nv);
    law_create_then_list(spec_insert(s, nv), nv);
}

/// The state after creating every payload of `ps`, in order.
pub open spec fn insert_all(s: StoreView, ps: Seq<NewUserView>) -> StoreView
    decreases ps.len(),
{
    if ps.len() == 0 {
        s
    } else {
        insert_all(spec_insert(s, ps[0]), ps.drop_first())
    }
}

/// Law: any number of creates, serialized in any order the server picks,
/// each succeed — none is lost — and the resulting records carry pairwise
/// distinct keys.
pub proof fn law_creates_all_distinct(s: StoreView, ps: Seq<NewUserView>)
    requires
        store_wf(s),
    ensures
        ({
            let s2 = insert_all(s, ps);
            &&& store_wf(s2)
            &&& s2.users.len() == s.users.len() + ps.len()
            &&& forall|i: int, j: int|
                0 <= i < j < s2.users.len() ==> #[trigger] s2.users[i].id
                    != #[trigger] s2.users[j].id
        }),
    decreases ps.len(),
{
    if ps.len() == 0 {
    } else {
        law_create_then_list(s, ps[0]);
        law_creates_all_distinct(spec_insert(s, ps[0]), ps.drop_first());
    }
}

/// Law: list-all on an empty store yields the empty JSON array.
pub proof fn law_empty_list(s: StoreView)
    requires
        s.users.len() == 0,
    ensures
        json_of_users(s.users) == "[]"@,
{
    reveal_strlit("[");
    reveal_strlit("]");
    reveal_strlit("[]");
    assert(json_users_inner(s.users) =~= Seq::<char>::empty());
    assert(json_of_users(s.users) =~= "[]"@);
}

} // verus!
