//! Accounts.

use vstd::prelude::*;
use crate::entities::active_enums::UserRole;

verus! {

/// One account: its identifier, the external identity it was created for, and
/// its role. The external identity never changes once the account exists.
#[derive(Debug, PartialEq, Eq)]
pub struct Model {
    pub id: u128,
    pub wechat_id: String,
    pub user_role: UserRole,
}

/// An account, with its text as a sequence of characters.
pub struct ModelView {
    pub id: u128,
    pub wechat_id: Seq<char>,
    pub user_role: UserRole,
}

impl View for Model {
    type V = ModelView;

    open spec fn view(&self) -> ModelView {
        ModelView { id: self.id, wechat_id: self.wechat_id@, user_role: self.user_role }
    }
}

impl DeepView for Model {
    type V = ModelView;

    open spec fn deep_view(&self) -> ModelView {
        self@
    }
}

impl Clone for Model {
    fn clone(&self) -> (copy: Self)
        ensures
            copy@ == self@,
    {
        Model { id: self.id, wechat_id: self.wechat_id.clone(), user_role: self.user_role }
    }
}

} // verus!
