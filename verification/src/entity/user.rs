use vstd::prelude::*;

verus! {

/// One record of the identity directory. The identifier is the 128-bit value of the user's UUID.
#[derive(Debug, PartialEq, Eq)]
pub struct User {
    pub id: u128,
    pub name: String,
    pub email: String,
}

/// What a `User` holds, with its texts as sequences of characters.
pub struct UserView {
    pub id: u128,
    pub name: Seq<char>,
    pub email: Seq<char>,
}

impl View for User {
    type V = UserView;

    open spec fn view(&self) -> UserView {
        UserView { id: self.id, name: self.name@, email: self.email@ }
    }
}

impl Clone for User {
    fn clone(&self) -> (copy: Self)
        ensures
            copy == *self,
    {
        User { id: self.id, name: self.name.clone(), email: self.email.clone() }
    }
}

} // verus!
