//! Sessions: one per account.

use vstd::prelude::*;
use crate::clock::Timestamp;

verus! {

/// The session of one account: when it last logged in, the session key the
/// identity service last gave for it, and the bearer token that stands for it.
#[derive(Debug, PartialEq, Eq)]
pub struct Model {
    pub id: i32,
    pub user_id: u128,
    pub last_login: Timestamp,
    pub last_session: String,
    pub last_token: u128,
}

/// A session, with its text as a sequence of characters.
pub struct ModelView {
    pub id: i32,
    pub user_id: u128,
    pub last_login: Timestamp,
    pub last_session: Seq<char>,
    pub last_token: u128,
}

impl View for Model {
    type V = ModelView;

    open spec fn view(&self) -> ModelView {
        ModelView {
            id: self.id,
            user_id: self.user_id,
            last_login: self.last_login,
            last_session: self.last_session@,
            last_token: self.last_token,
        }
    }
}

impl DeepView for Model {
    type V = ModelView;

    open spec fn deep_view(&self) -> ModelView {
        self@
    }
}

impl Clone for Model {
    fn clone(&self) -> (copy: Self)
        ensures
            copy@ == self@,
    {
        Model {
            id: self.id,
            user_id: self.user_id,
            last_login: self.last_login,
            last_session: self.last_session.clone(),
            last_token: self.last_token,
        }
    }
}

} // verus!
