//! Users.

use vstd::prelude::*;
use crate::keys::UserKey;

verus! {

/// The mathematical value of a [`User`].
pub ghost struct UserView {
    pub name: Seq<char>,
    pub key: UserKey,
}

/// A user, by name and key.
#[derive(Debug, PartialEq, Eq, Hash)]
pub struct User {
    pub name: String,
    pub key: UserKey,
}

impl View for User {
    type V = UserView;

    open spec fn view(&self) -> UserView {
        UserView {
            name: self.name@,
            key: self.key,
        }
    }
}

impl DeepView for User {
    type V = UserView;

    open spec fn deep_view(&self) -> UserView {
        self@
    }
}

impl Clone for User {
    fn clone(&self) -> (r: Self)
        ensures
            r@ == self@,
    {
        let r = User {
            name: self.name.clone(),
            key: self.key,
        };
        r
    }
}

} // verus!
