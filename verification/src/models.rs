//! The records that storage holds.

use vstd::prelude::*;

pub mod item;

verus! {

/// A stored user account.
#[derive(Debug)]
pub struct User {
    pub id: i32,
    pub display_name: String,
    pub username: String,
    pub password_hash: String,
    pub is_admin: bool,
}

/// What a [`User`] holds, as mathematical values.
pub struct UserView {
    pub id: i32,
    pub display_name: Seq<char>,
    pub username: Seq<char>,
    pub password_hash: Seq<char>,
    pub is_admin: bool,
}

impl View for User {
    type V = UserView;

    open spec fn view(&self) -> UserView {
        UserView {
            id: self.id,
            display_name: self.display_name@,
            username: self.username@,
            password_hash: self.password_hash@,
            is_admin: self.is_admin,
        }
    }
}

impl DeepView for User {
    type V = UserView;

    open spec fn deep_view(&self) -> UserView {
        self@
    }
}

impl Clone for User {
    fn clone(&self) -> (copy: User)
        ensures
            copy@ == self@,
    {
        User {
            id: self.id,
            display_name: self.display_name.clone(),
            username: self.username.clone(),
            password_hash: self.password_hash.clone(),
            is_admin: self.is_admin,
        }
    }
}

/// An account that is about to be stored: a [`User`] without its identifier.
#[derive(Debug)]
pub struct NewUser {
    pub display_name: String,
    pub username: String,
    pub password_hash: String,
    pub is_admin: bool,
}

/// What a [`NewUser`] holds, as mathematical values.
pub struct NewUserView {
    pub display_name: Seq<char>,
    pub username: Seq<char>,
    pub password_hash: Seq<char>,
    pub is_admin: bool,
}

impl View for NewUser {
    type V = NewUserView;

    open spec fn view(&self) -> NewUserView {
        NewUserView {
            display_name: self.display_name@,
            username: self.username@,
            password_hash: self.password_hash@,
            is_admin: self.is_admin,
        }
    }
}

impl DeepView for NewUser {
    type V = NewUserView;

    open spec fn deep_view(&self) -> NewUserView {
        self@
    }
}

} // verus!
