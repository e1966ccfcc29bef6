//! The records that the store keeps of users.

use vstd::prelude::*;

verus! {

/// What a user may do in the marketplace.
#[allow(non_camel_case_types)]
#[derive(Debug, Clone, Copy, PartialEq, Eq, Structural)]
pub enum Role {
    CUSTOMER,
    VENDOR,
}

impl Default for Role {
    fn default() -> (role: Role)
        ensures
            role == Role::CUSTOMER,
    {
        Role::CUSTOMER
    }
}

/// A user as the store holds it. `password` is the hash of the secret, never
/// the secret.
#[derive(Debug, Clone)]
pub struct User {
    pub _key: String,
    pub _rev: String,
    pub _id: String,
    pub first_name: String,
    pub last_name: String,
    pub email: String,
    pub password: String,
    pub role: Role,
}

/// Mathematical value of a [`User`].
pub struct UserView {
    pub key: Seq<char>,
    pub rev: Seq<char>,
    pub id: Seq<char>,
    pub first_name: Seq<char>,
    pub last_name: Seq<char>,
    pub email: Seq<char>,
    pub password: Seq<char>,
    pub role: Role,
}

impl View for User {
    type V = UserView;

    open spec fn view(&self) -> UserView {
        UserView {
            key: self._key@,
            rev: self._rev@,
            id: self._id@,
            first_name: self.first_name@,
            last_name: self.last_name@,
            email: self.email@,
            password: self.password@,
            role: self.role,
        }
    }
}

} // verus!
