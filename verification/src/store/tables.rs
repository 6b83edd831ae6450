//! The content of the three tables as sequences of rows, the constraints the
//! schema puts on it, and what each lookup and each change means.

use vstd::prelude::*;
use crate::clock::Timestamp;
use crate::entities::active_enums::UserRole;
use crate::entities::app_user;
use crate::entities::user_info;
use crate::entities::we_chat_session;

verus! {

/// The rows of the three tables in the order they were stored, and the
/// counters that number new rows.
pub struct Tables {
    pub accounts: Seq<app_user::ModelView>,
    pub sessions: Seq<we_chat_session::ModelView>,
    pub profiles: Seq<user_info::ModelView>,
    /// The identifier the next new account or profile receives.
    pub next_id: u128,
    /// The row number the next new session receives.
    pub next_row: i32,
}

impl Tables {
    /// Tables without rows.
    pub open spec fn empty() -> Tables {
        Tables {
            accounts: Seq::empty(),
            sessions: Seq::empty(),
            profiles: Seq::empty(),
            next_id: 1,
            next_row: 1,
        }
    }

    /// Whether some account has the identifier `id`.
    pub open spec fn has_account(self, id: u128) -> bool {
        exists|i: int| 0 <= i < self.accounts.len() && (#[trigger] self.accounts[i]).id == id
    }

    /// Accounts differ in their identifier and in their external identity, and
    /// every identifier was handed out by the counter.
    pub open spec fn accounts_wf(self) -> bool {
        &&& forall|i: int, j: int|
            0 <= i < j < self.accounts.len() ==> {
                &&& (#[trigger] self.accounts[i]).id != (#[trigger] self.accounts[j]).id
                &&& self.accounts[i].wechat_id != self.accounts[j].wechat_id
            }
        &&& forall|i: int|
            0 <= i < self.accounts.len() ==> (#[trigger] self.accounts[i]).id < self.next_id
    }

    /// Sessions differ in their row number, their account, their session key
    /// and their token; each belongs to an account.
    pub open spec fn sessions_wf(self) -> bool {
        &&& forall|i: int, j: int|
            0 <= i < j < self.sessions.len() ==> {
                &&& (#[trigger] self.sessions[i]).id != (#[trigger] self.sessions[j]).id
                &&& self.sessions[i].user_id != self.sessions[j].user_id
                &&& self.sessions[i].last_token != self.sessions[j].last_token
                &&& self.sessions[i].last_session != self.sessions[j].last_session
            }
        &&& forall|i: int|
            0 <= i < self.sessions.len() ==> {
                &&& (#[trigger] self.sessions[i]).id < self.next_row
                &&& self.has_account(self.sessions[i].user_id)
            }
    }

    /// Profiles differ in their identifier; each was created by an account.
    pub open spec fn profiles_wf(self) -> bool {
        &&& forall|i: int, j: int|
            0 <= i < j < self.profiles.len() ==> (#[trigger] self.profiles[i]).id != (
            #[trigger] self.profiles[j]).id
        &&& forall|i: int|
            0 <= i < self.profiles.len() ==> {
                &&& (#[trigger] self.profiles[i]).id < self.next_id
                &&& self.has_account(self.profiles[i].creator)
            }
    }

    /// The constraints of the schema: unique keys and references that resolve.
    pub open spec fn wf(self) -> bool {
        &&& self.accounts_wf()
        &&& self.sessions_wf()
        &&& self.profiles_wf()
    }

    /// The account with identifier `id`.
    pub open spec fn account_by_id(self, id: u128) -> Option<app_user::ModelView> {
        if exists|i: int| 0 <= i < self.accounts.len() && (#[trigger] self.accounts[i]).id == id {
            Some(
                self.accounts[choose|i: int|
                    0 <= i < self.accounts.len() && (#[trigger] self.accounts[i]).id == id],
            )
        } else {
            None
        }
    }

    /// The account created for the external identity `wechat_id`.
    pub open spec fn account_by_wechat_id(self, wechat_id: Seq<char>) -> Option<
        app_user::ModelView,
    > {
        if exists|i: int|
            0 <= i < self.accounts.len() && (#[trigger] self.accounts[i]).wechat_id == wechat_id {
            Some(
                self.accounts[choose|i: int|
                    0 <= i < self.accounts.len() && (#[trigger] self.accounts[i]).wechat_id
                        == wechat_id],
            )
        } else {
            None
        }
    }

    /// The session that the bearer token `token` stands for.
    pub open spec fn session_by_token(self, token: u128) -> Option<we_chat_session::ModelView> {
        if exists|i: int|
            0 <= i < self.sessions.len() && (#[trigger] self.sessions[i]).last_token == token {
            Some(
                self.sessions[choose|i: int|
                    0 <= i < self.sessions.len() && (#[trigger] self.sessions[i]).last_token
                        == token],
            )
        } else {
            None
        }
    }

    /// The session of the account `user_id`.
    pub open spec fn session_by_user(self, user_id: u128) -> Option<we_chat_session::ModelView> {
        if exists|i: int|
            0 <= i < self.sessions.len() && (#[trigger] self.sessions[i]).user_id == user_id {
            Some(
                self.sessions[choose|i: int|
                    0 <= i < self.sessions.len() && (#[trigger] self.sessions[i]).user_id
                        == user_id],
            )
        } else {
            None
        }
    }

    /// Where the profile `id` stands among the rows, provided `creator` created
    /// it.
    pub open spec fn profile_position(self, id: u128, creator: u128) -> Option<int> {
        if exists|i: int|
            0 <= i < self.profiles.len() && (#[trigger] self.profiles[i]).id == id
                && self.profiles[i].creator == creator {
            Some(
                choose|i: int|
                    0 <= i < self.profiles.len() && (#[trigger] self.profiles[i]).id == id
                        && self.profiles[i].creator == creator,
            )
        } else {
            None
        }
    }

    /// The profile with identifier `id`, provided `creator` created it.
    pub open spec fn profile_owned(self, id: u128, creator: u128) -> Option<user_info::ModelView> {
        match self.profile_position(id, creator) {
            Some(i) => Some(self.profiles[i]),
            None => None,
        }
    }

    /// Where the session with row number `row` stands among the rows.
    pub open spec fn session_position(self, row: i32) -> Option<int> {
        if exists|i: int| 0 <= i < self.sessions.len() && (#[trigger] self.sessions[i]).id == row {
            Some(
                choose|i: int|
                    0 <= i < self.sessions.len() && (#[trigger] self.sessions[i]).id == row,
            )
        } else {
            None
        }
    }

    /// Whether some session holds the session key `key`.
    pub open spec fn session_key_in_use(self, key: Seq<char>) -> bool {
        exists|i: int|
            0 <= i < self.sessions.len() && (#[trigger] self.sessions[i]).last_session == key
    }

    /// The profiles that `creator` created, in the order they were stored.
    pub open spec fn profiles_of(self, creator: u128) -> Seq<user_info::ModelView> {
        self.profiles.filter(|p: user_info::ModelView| p.creator == creator)
    }

    /// Whether a new account for the external identity `wechat_id` can be
    /// stored: an identifier is left, and no account has that identity yet.
    pub open spec fn admits_account(self, wechat_id: Seq<char>) -> bool {
        &&& self.next_id < u128::MAX
        &&& self.account_by_wechat_id(wechat_id) is None
    }

    /// Stores a new account under the next identifier and gives it back; where
    /// the tables do not admit it, nothing changes and nothing is given.
    pub open spec fn insert_account(self, wechat_id: Seq<char>, user_role: UserRole) -> (
        Tables,
        Option<app_user::ModelView>,
    ) {
        if self.admits_account(wechat_id) {
            let row = app_user::ModelView { id: self.next_id, wechat_id, user_role };
            (
                Tables {
                    accounts: self.accounts.push(row),
                    next_id: (self.next_id + 1) as u128,
                    ..self
                },
                Some(row),
            )
        } else {
            (self, None)
        }
    }

    /// Whether a new session can be stored: a row number is left, the account
    /// exists and has no session, and neither the session key nor the token is
    /// in use.
    pub open spec fn admits_session(
        self,
        user_id: u128,
        last_session: Seq<char>,
        last_token: u128,
    ) -> bool {
        &&& self.next_row < i32::MAX
        &&& self.has_account(user_id)
        &&& self.session_by_user(user_id) is None
        &&& self.session_by_token(last_token) is None
        &&& !self.session_key_in_use(last_session)
    }

    /// Stores a new session under the next row number and gives it back; where
    /// the tables do not admit it, nothing changes and nothing is given.
    pub open spec fn insert_session(
        self,
        user_id: u128,
        last_login: Timestamp,
        last_session: Seq<char>,
        last_token: u128,
    ) -> (Tables, Option<we_chat_session::ModelView>) {
        if self.admits_session(user_id, last_session, last_token) {
            let row = we_chat_session::ModelView {
                id: self.next_row,
                user_id,
                last_login,
                last_session,
                last_token,
            };
            (
                Tables {
                    sessions: self.sessions.push(row),
                    next_row: (self.next_row + 1) as i32,
                    ..self
                },
                Some(row),
            )
        } else {
            (self, None)
        }
    }

    /// Whether the session `row` can take the place of the stored session with
    /// the same row number: that session exists, the account of `row` exists,
    /// and no other session has its account, its token or its session key.
    pub open spec fn admits_session_change(self, row: we_chat_session::ModelView) -> bool {
        match self.session_position(row.id) {
            None => false,
            Some(at) => {
                &&& self.has_account(row.user_id)
                &&& forall|k: int|
                    0 <= k < self.sessions.len() && k != at ==> {
                        &&& (#[trigger] self.sessions[k]).user_id != row.user_id
                        &&& self.sessions[k].last_token != row.last_token
                        &&& self.sessions[k].last_session != row.last_session
                    }
            },
        }
    }

    /// Puts `row` in the place of the stored session with the same row number
    /// and gives it back; where the tables do not admit it, nothing changes and
    /// nothing is given.
    pub open spec fn replace_session(self, row: we_chat_session::ModelView) -> (
        Tables,
        Option<we_chat_session::ModelView>,
    ) {
        if self.admits_session_change(row) {
            let at = self.session_position(row.id)->0;
            (Tables { sessions: self.sessions.update(at, row), ..self }, Some(row))
        } else {
            (self, None)
        }
    }

    /// Whether a new profile of `creator` can be stored: an identifier is left
    /// and the account exists.
    pub open spec fn admits_profile(self, creator: u128) -> bool {
        &&& self.next_id < u128::MAX
        &&& self.has_account(creator)
    }

    /// Stores a new profile of `creator` under the next identifier and gives it
    /// back; where the tables do not admit it, nothing changes and nothing is
    /// given.
    pub open spec fn insert_profile(
        self,
        creator: u128,
        id_no: Seq<char>,
        name: Seq<char>,
        phone: Seq<char>,
        address: Seq<char>,
        image: Option<u128>,
    ) -> (Tables, Option<user_info::ModelView>) {
        if self.admits_profile(creator) {
            let row = user_info::ModelView {
                id: self.next_id,
                creator,
                id_no,
                name,
                phone,
                address,
                image,
            };
            (
                Tables {
                    profiles: self.profiles.push(row),
                    next_id: (self.next_id + 1) as u128,
                    ..self
                },
                Some(row),
            )
        } else {
            (self, None)
        }
    }

    /// Where the profile with identifier `id` stands among the rows.
    pub open spec fn profile_row(self, id: u128) -> Option<int> {
        if exists|i: int| 0 <= i < self.profiles.len() && (#[trigger] self.profiles[i]).id == id {
            Some(
                choose|i: int|
                    0 <= i < self.profiles.len() && (#[trigger] self.profiles[i]).id == id,
            )
        } else {
            None
        }
    }

    /// Whether `row` can take the place of the stored profile with the same
    /// identifier: that profile exists, and so does the creator of `row`.
    pub open spec fn admits_profile_change(self, row: user_info::ModelView) -> bool {
        &&& self.profile_row(row.id) is Some
        &&& self.has_account(row.creator)
    }

    /// Puts `row` in the place of the stored profile with the same identifier
    /// and gives it back; where the tables do not admit it, nothing changes and
    /// nothing is given.
    pub open spec fn replace_profile(self, row: user_info::ModelView) -> (
        Tables,
        Option<user_info::ModelView>,
    ) {
        if self.admits_profile_change(row) {
            let at = self.profile_row(row.id)->0;
            (Tables { profiles: self.profiles.update(at, row), ..self }, Some(row))
        } else {
            (self, None)
        }
    }

    /// Removes the profile `id` if `creator` created it, and counts the rows
    /// removed: one, or none where no such profile is stored.
    pub open spec fn delete_profile(self, id: u128, creator: u128) -> (Tables, u64) {
        match self.profile_position(id, creator) {
            Some(at) => (Tables { profiles: self.profiles.remove(at), ..self }, 1),
            None => (self, 0),
        }
    }

    /// A row with the identifier is the account that the lookup gives.
    pub proof fn account_by_id_is(self, i: int)
        requires
            self.wf(),
            0 <= i < self.accounts.len(),
        ensures
            self.account_by_id(self.accounts[i].id) == Some(self.accounts[i]),
    {
        let id = self.accounts[i].id;
        let c = choose|k: int|
            0 <= k < self.accounts.len() && (#[trigger] self.accounts[k]).id == id;
        assert(c == i);
    }

    /// A row with the external identity is the account that the lookup gives.
    pub proof fn account_by_wechat_id_is(self, i: int)
        requires
            self.wf(),
            0 <= i < self.accounts.len(),
        ensures
            self.account_by_wechat_id(self.accounts[i].wechat_id) == Some(self.accounts[i]),
    {
        let wechat_id = self.accounts[i].wechat_id;
        let c = choose|k: int|
            0 <= k < self.accounts.len() && (#[trigger] self.accounts[k]).wechat_id == wechat_id;
        assert(c == i);
    }

    /// A row with the token is the session that the lookup gives.
    pub proof fn session_by_token_is(self, i: int)
        requires
            self.wf(),
            0 <= i < self.sessions.len(),
        ensures
            self.session_by_token(self.sessions[i].last_token) == Some(self.sessions[i]),
    {
        let token = self.sessions[i].last_token;
        let c = choose|k: int|
            0 <= k < self.sessions.len() && (#[trigger] self.sessions[k]).last_token == token;
        assert(c == i);
    }

    /// A row of the account is the session that the lookup gives.
    pub proof fn session_by_user_is(self, i: int)
        requires
            self.wf(),
            0 <= i < self.sessions.len(),
        ensures
            self.session_by_user(self.sessions[i].user_id) == Some(self.sessions[i]),
    {
        let user_id = self.sessions[i].user_id;
        let c = choose|k: int|
            0 <= k < self.sessions.len() && (#[trigger] self.sessions[k]).user_id == user_id;
        assert(c == i);
    }

    /// A row with the identifier and the creator is where the lookup points.
    pub proof fn profile_position_is(self, i: int)
        requires
            self.wf(),
            0 <= i < self.profiles.len(),
        ensures
            self.profile_position(self.profiles[i].id, self.profiles[i].creator) == Some(i),
            self.profile_owned(self.profiles[i].id, self.profiles[i].creator) == Some(
                self.profiles[i],
            ),
    {
        let id = self.profiles[i].id;
        let creator = self.profiles[i].creator;
        let c = choose|k: int|
            0 <= k < self.profiles.len() && (#[trigger] self.profiles[k]).id == id
                && self.profiles[k].creator == creator;
        assert(c == i);
    }

    /// A row with the row number is where the lookup points.
    pub proof fn session_position_is(self, i: int)
        requires
            self.wf(),
            0 <= i < self.sessions.len(),
        ensures
            self.session_position(self.sessions[i].id) == Some(i),
    {
        let row = self.sessions[i].id;
        let c = choose|k: int|
            0 <= k < self.sessions.len() && (#[trigger] self.sessions[k]).id == row;
        assert(c == i);
    }

    /// A row with the identifier is where the lookup points.
    pub proof fn profile_row_is(self, i: int)
        requires
            self.wf(),
            0 <= i < self.profiles.len(),
        ensures
            self.profile_row(self.profiles[i].id) == Some(i),
    {
        let id = self.profiles[i].id;
        let c = choose|k: int|
            0 <= k < self.profiles.len() && (#[trigger] self.profiles[k]).id == id;
        assert(c == i);
    }

    /// Storing an account keeps the constraints.
    pub proof fn insert_account_wf(self, wechat_id: Seq<char>, user_role: UserRole)
        requires
            self.wf(),
        ensures
            self.insert_account(wechat_id, user_role).0.wf(),
    {
        let after = self.insert_account(wechat_id, user_role).0;
        if self.admits_account(wechat_id) {
            assert forall|id: u128| self.has_account(id) implies after.has_account(id) by {
                let i = choose|i: int|
                    0 <= i < self.accounts.len() && (#[trigger] self.accounts[i]).id == id;
                assert(after.accounts[i].id == id);
            }
            assert(after.accounts_wf());
            assert(after.sessions_wf());
            assert(after.profiles_wf());
        }
    }

    /// Storing a session keeps the constraints.
    pub proof fn insert_session_wf(
        self,
        user_id: u128,
        last_login: Timestamp,
        last_session: Seq<char>,
        last_token: u128,
    )
        requires
            self.wf(),
        ensures
            self.insert_session(user_id, last_login, last_session, last_token).0.wf(),
    {
        let after = self.insert_session(user_id, last_login, last_session, last_token).0;
        if self.admits_session(user_id, last_session, last_token) {
            assert forall|id: u128| self.has_account(id) implies after.has_account(id) by {
                let i = choose|i: int|
                    0 <= i < self.accounts.len() && (#[trigger] self.accounts[i]).id == id;
                assert(after.accounts[i].id == id);
            }
            assert(after.sessions_wf());
            assert(after.profiles_wf());
        }
    }

    /// Changing a session keeps the constraints.
    pub proof fn replace_session_wf(self, row: we_chat_session::ModelView)
        requires
            self.wf(),
        ensures
            self.replace_session(row).0.wf(),
    {
        let after = self.replace_session(row).0;
        if self.admits_session_change(row) {
            let at = self.session_position(row.id)->0;
            assert(0 <= at < self.sessions.len() && self.sessions[at].id == row.id);
            assert forall|id: u128| self.has_account(id) implies after.has_account(id) by {
                let i = choose|i: int|
                    0 <= i < self.accounts.len() && (#[trigger] self.accounts[i]).id == id;
                assert(after.accounts[i].id == id);
            }
            assert(after.sessions_wf());
            assert(after.profiles_wf());
        }
    }

    /// Storing a profile keeps the constraints.
    pub proof fn insert_profile_wf(
        self,
        creator: u128,
        id_no: Seq<char>,
        name: Seq<char>,
        phone: Seq<char>,
        address: Seq<char>,
        image: Option<u128>,
    )
        requires
            self.wf(),
        ensures
            self.insert_profile(creator, id_no, name, phone, address, image).0.wf(),
    {
        let after = self.insert_profile(creator, id_no, name, phone, address, image).0;
        if self.admits_profile(creator) {
            assert forall|id: u128| self.has_account(id) implies after.has_account(id) by {
                let i = choose|i: int|
                    0 <= i < self.accounts.len() && (#[trigger] self.accounts[i]).id == id;
                assert(after.accounts[i].id == id);
            }
            assert(after.accounts_wf());
            assert(after.sessions_wf());
            assert(after.profiles_wf());
        }
    }

    /// Changing a profile keeps the constraints.
    pub proof fn replace_profile_wf(self, row: user_info::ModelView)
        requires
            self.wf(),
        ensures
            self.replace_profile(row).0.wf(),
    {
        let after = self.replace_profile(row).0;
        if self.admits_profile_change(row) {
            let at = self.profile_row(row.id)->0;
            assert(0 <= at < self.profiles.len() && self.profiles[at].id == row.id);
            assert forall|id: u128| self.has_account(id) implies after.has_account(id) by {
                let i = choose|i: int|
                    0 <= i < self.accounts.len() && (#[trigger] self.accounts[i]).id == id;
                assert(after.accounts[i].id == id);
            }
            assert(after.sessions_wf());
            assert(after.profiles_wf());
        }
    }

    /// Removing a profile keeps the constraints.
    pub proof fn delete_profile_wf(self, id: u128, creator: u128)
        requires
            self.wf(),
        ensures
            self.delete_profile(id, creator).0.wf(),
    {
        let after = self.delete_profile(id, creator).0;
        if let Some(at) = self.profile_position(id, creator) {
            assert(0 <= at < self.profiles.len());
            assert forall|a: u128| self.has_account(a) implies after.has_account(a) by {
                let i = choose|i: int|
                    0 <= i < self.accounts.len() && (#[trigger] self.accounts[i]).id == a;
                assert(after.accounts[i].id == a);
            }
            assert forall|i: int| 0 <= i < after.profiles.len() implies (
            #[trigger] after.profiles[i]) == self.profiles[if i < at {
                i
            } else {
                i + 1
            }] by {}
            assert(after.sessions_wf());
            assert(after.profiles_wf());
        }
    }
}

/// The part of `rows` that a window of `limit` rows after the first `offset`
/// covers.
pub open spec fn window<T>(rows: Seq<T>, offset: u64, limit: u64) -> Seq<T> {
    let from = if offset <= rows.len() { offset as int } else { rows.len() as int };
    let to = if offset + limit <= rows.len() { offset + limit } else { rows.len() as int };
    rows.subrange(from, to)
}

} // verus!
