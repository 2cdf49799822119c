//! Users, and a place to look them up by their number.

use std::collections::HashMap;
use vstd::prelude::*;

verus! {

/// Somebody known to the system by a number.
#[derive(Debug)]
pub struct User {
    pub id: i32,
    pub name: String,
}

impl Clone for User {
    /// A copy with the same number and the same name.
    fn clone(&self) -> (copy: Self)
        ensures
            copy == *self,
    {
        User { id: self.id, name: self.name.clone() }
    }
}

/// A place where users are looked up by their number.
pub trait UserRepo {
    /// The users that this place knows, each under its number.
    spec fn users(&self) -> Map<i32, User>;

    /// The user known under `id`, if there is one.
    fn find_by_id(&self, id: i32) -> (user: Option<User>)
        ensures
            user == if self.users().contains_key(id) {
                Some(self.users()[id])
            } else {
                None
            },
    ;
}

/// A place that keeps its users in memory.
pub struct TestUserRepo {
    pub user_map: HashMap<i32, User>,
}

impl TestUserRepo {
    /// The place that knows the users of `users`, each under its own number.
    /// Of two users with one number the later one stays.
    pub fn new(users: &Vec<User>) -> (repo: TestUserRepo)
        ensures
            repo.users() == known(users@),
    {
        broadcast use vstd::std_specs::hash::group_hash_axioms;

        let mut user_map: HashMap<i32, User> = HashMap::new();
        let mut i: usize = 0;
        assert(users@.take(0) =~= Seq::<User>::empty());
        while i < users.len()
            invariant
                i <= users.len(),
                user_map@ == known(users@.take(i as int)),
            decreases users.len() - i,
        {
            let user = users[i].clone();
            proof {
                let next = users@.take(i + 1);
                assert(next.drop_last() =~= users@.take(i as int));
                assert(next.last() == users@[i as int]);
            }
            user_map.insert(user.id, user);
            i += 1;
        }
        assert(users@.take(users@.len() as int) =~= users@);
        TestUserRepo { user_map }
    }
}

/// The users of `users`, each under its own number; of two with one number
/// the later one.
pub open spec fn known(users: Seq<User>) -> Map<i32, User>
    decreases users.len(),
{
    if users.len() == 0 {
        Map::empty()
    } else {
        known(users.drop_last()).insert(users.last().id, users.last())
    }
}

impl UserRepo for TestUserRepo {
    open spec fn users(&self) -> Map<i32, User> {
        self.user_map@
    }

    fn find_by_id(&self, id: i32) -> (user: Option<User>) {
        broadcast use vstd::std_specs::hash::group_hash_axioms;

        match self.user_map.get(&id) {
            Some(user) => Some(user.clone()),
            None => None,
        }
    }
}

} // verus!
