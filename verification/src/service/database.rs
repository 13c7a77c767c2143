use std::collections::HashMap;
use vstd::prelude::*;
use vstd::std_specs::convert::FromSpecImpl;

use crate::entity::user::{User, UserView};

verus! {

broadcast use vstd::std_specs::hash::group_hash_axioms;

/// The directory that a list of users makes: each user stands under its identifier, and of
/// two users with one identifier the later one stays.
pub open spec fn directory_of(users: Seq<User>) -> Map<u128, UserView>
    decreases users.len(),
{
    if users.len() == 0 {
        Map::empty()
    } else {
        directory_of(users.drop_last()).insert(users.last().id, users.last()@)
    }
}

/// The identity directory: the users of the server by identifier. Nothing changes it once
/// it is made.
pub struct DatabaseUser {
    users: HashMap<u128, User>,
}

impl View for DatabaseUser {
    type V = Map<u128, UserView>;

    closed spec fn view(&self) -> Map<u128, UserView> {
        Map::new(|id: u128| self.users@.contains_key(id), |id: u128| self.users@[id]@)
    }
}

impl DatabaseUser {
    /// The users by identifier.
    pub fn as_ref(&self) -> (users: &HashMap<u128, User>)
        ensures
            forall|id: u128| users@.contains_key(id) <==> self@.contains_key(id),
            forall|id: u128| users@.contains_key(id) ==> users@[id]@ == self@[id],
    {
        &self.users
    }

    /// True when the directory has a user under `id`.
    pub fn contains_key(&self, id: u128) -> (found: bool)
        ensures
            found == self@.contains_key(id),
    {
        self.users.contains_key(&id)
    }

    /// The user under `id`, if the directory has one.
    pub fn get(&self, id: u128) -> (found: Option<&User>)
        ensures
            match found {
                Some(user) => self@.contains_key(id) && self@[id] == user@,
                None => !self@.contains_key(id),
            },
    {
        self.users.get(&id)
    }
}

impl From<Vec<User>> for DatabaseUser {
    /// The directory of the users of a list.
    fn from(value: Vec<User>) -> (directory: Self)
        ensures
            directory@ == directory_of(value@),
    {
        let mut users: HashMap<u128, User> = HashMap::new();
        let mut done: usize = 0;
        while done < value.len()
            invariant
                done <= value.len(),
                Map::new(|id: u128| users@.contains_key(id), |id: u128| users@[id]@)
                    == directory_of(value@.subrange(0, done as int)),
            decreases value.len() - done,
        {
            let user = value[done].clone();
            proof {
                let before = value@.subrange(0, done as int);
                let after = value@.subrange(0, done + 1);
                assert(after.drop_last() == before);
                assert(after.last() == value@[done as int]);
            }
            users.insert(user.id, user);
            done = done + 1;
        }
        assert(value@.subrange(0, done as int) == value@);
        DatabaseUser { users }
    }
}

/// A hash map is not fixed by what it holds, so `from` answers to its own contract and to
/// no spec function.
impl FromSpecImpl<Vec<User>> for DatabaseUser {
    open spec fn obeys_from_spec() -> bool {
        false
    }

    closed spec fn from_spec(value: Vec<User>) -> DatabaseUser {
        arbitrary()
    }
}

} // verus!
