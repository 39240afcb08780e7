//! A model of the backing store: the single relational table of users,
//! with the two permitted operations, insert-one and list-all.
//!
//! The store assigns each inserted record a fresh positive key and never
//! mutates or deletes an existing record. `StoreView` is the mathematical
//! state; `spec_insert` / `spec_assigned` are the transition the executable
//! `insert_user` is proved to follow.

use vstd::prelude::*;

use crate::models::{NewUser, NewUserView, User, UserView, views_of};

verus! {

/// Mathematical view of the store: the records in insertion order, and the
/// next key it will hand out.
pub ghost struct StoreView {
    pub users: Seq<UserView>,
    pub next_id: int,
}

/// Store invariant: keys are positive, below `next_id`, and strictly
/// increasing in insertion order (hence pairwise distinct).
pub open spec fn store_wf(s: StoreView) -> bool {
    &&& 1 <= s.next_id
    &&& forall|i: int| 0 <= i < s.users.len() ==> 1 <= #[trigger] s.users[i].id < s.next_id
    &&& forall|i: int, j: int| 0 <= i < j < s.users.len()
        ==> #[trigger] s.users[i].id < #[trigger] s.users[j].id
}

/// The record the store makes for payload `nv` in state `s`.
pub open spec fn spec_assigned(s: StoreView, nv: NewUserView) -> UserView {
    UserView {
        id: s.next_id,
        email: nv.email,
        first_name: nv.first_name,
        last_name: nv.last_name,
        username: nv.username,
    }
}

/// The state after inserting payload `nv` in state `s`.
pub open spec fn spec_insert(s: StoreView, nv: NewUserView) -> StoreView {
    StoreView { users: s.users.push(spec_assigned(s, nv)), next_id: s.next_id + 1 }
}

/// The store: records in insertion order plus the next key.
pub struct Store {
    users: Vec<User>,
    next_id: i64,
}

impl View for Store {
    type V = StoreView;

    closed spec fn view(&self) -> StoreView {
        StoreView { users: views_of(self.users@), next_id: self.next_id as int }
    }
}

impl Store {
    /// The invariant, stated over the view.
    pub open spec fn wf(&self) -> bool {
        store_wf(self@)
    }

    /// An empty store; the first key handed out will be 1.
    pub fn new() -> (s: Store)
        ensures
            s@.users =~= Seq::<UserView>::empty(),
            s@.next_id == 1,
            s.wf(),
    {
        let s = Store { users: Vec::new(), next_id: 1 };
        proof {
            assert(s@.users =~= Seq::<UserView>::empty());
        }
        s
    }

    /// Insert-one: persists the payload under a fresh key and returns the
    /// full inserted record, key included.
    pub fn insert_user(&mut self, nu: NewUser) -> (u: User)
        requires
            old(self).wf(),
            old(self)@.next_id < i64::MAX,
        ensures
            final(self).wf(),
            u@ == spec_assigned(old(self)@, nu@),
            final(self)@ =~= spec_insert(old(self)@, nu@),
    {
        let id = self.next_id;
        let u = User {
            id,
            email: nu.email.clone(),
            first_name: nu.first_name.clone(),
            last_name: nu.last_name.clone(),
            username: nu.username.clone(),
        };
        let stored = User {
            id,
            email: nu.email,
            first_name: nu.first_name,
            last_name: nu.last_name,
            username: nu.username,
        };
        self.users.push(stored);
        self.next_id = id + 1;
        proof {
            assert(self@.users =~= old(self)@.users.push(spec_assigned(old(self)@, nu@)));
        }
        u
    }

    /// List-all: every persisted record, in insertion order.
    pub fn list_users(&self) -> (r: &Vec<User>)
        ensures
            views_of(r@) == self@.users,
    {
        &self.users
    }
}

} // verus!
