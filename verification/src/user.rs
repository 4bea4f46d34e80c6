//! The user record and the payload that creates or replaces one.

use crate::object_id::UserId;
use vstd::prelude::*;

verus! {

/// What a client sends to create a user or to replace one: both fields,
/// always together.
#[derive(Clone, Debug, PartialEq, Eq)]
pub struct UserFields {
    pub user_name: String,
    pub email: String,
}

/// The mathematical value of a [`UserFields`].
#[verifier::ext_equal]
pub struct UserFieldsView {
    pub user_name: Seq<char>,
    pub email: Seq<char>,
}

impl View for UserFields {
    type V = UserFieldsView;

    open spec fn view(&self) -> UserFieldsView {
        UserFieldsView { user_name: self.user_name@, email: self.email@ }
    }
}

/// A stored user.
#[derive(Clone, Debug, PartialEq, Eq)]
pub struct User {
    pub id: UserId,
    pub user_name: String,
    pub email: String,
}

/// The mathematical value of a [`User`]. A stored user's `id` has twelve
/// bytes.
#[verifier::ext_equal]
pub struct UserView {
    pub id: Seq<u8>,
    pub user_name: Seq<char>,
    pub email: Seq<char>,
}

impl View for User {
    type V = UserView;

    open spec fn view(&self) -> UserView {
        UserView { id: self.id@, user_name: self.user_name@, email: self.email@ }
    }
}

/// The user that `fields` make under the identifier `id`.
pub open spec fn user_of(id: Seq<u8>, fields: UserFieldsView) -> UserView {
    UserView { id, user_name: fields.user_name, email: fields.email }
}

} // verus!
