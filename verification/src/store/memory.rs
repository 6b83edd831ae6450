//! The tables held in vectors.

use vstd::prelude::*;
use crate::clock::Timestamp;
use crate::entities::active_enums::UserRole;
use crate::entities::app_user;
use crate::entities::user_info;
use crate::entities::we_chat_session;
use crate::store::tables::window;
use crate::store::tables::Tables;

verus! {

/// The tables, held in memory.
pub struct Store {
    accounts: Vec<app_user::Model>,
    sessions: Vec<we_chat_session::Model>,
    profiles: Vec<user_info::Model>,
    next_id: u128,
    next_row: i32,
}

impl View for Store {
    type V = Tables;

    closed spec fn view(&self) -> Tables {
        Tables {
            accounts: self.accounts.deep_view(),
            sessions: self.sessions.deep_view(),
            profiles: self.profiles.deep_view(),
            next_id: self.next_id,
            next_row: self.next_row,
        }
    }
}

impl Store {
    /// Whether the content meets the constraints of the schema.
    pub open spec fn wf(&self) -> bool {
        self@.wf()
    }

    /// A store without rows.
    pub fn new() -> (store: Store)
        ensures
            store@ == Tables::empty(),
            store.wf(),
    {
        let store = Store {
            accounts: Vec::new(),
            sessions: Vec::new(),
            profiles: Vec::new(),
            next_id: 1,
            next_row: 1,
        };
        assert(store.accounts.deep_view() =~= Seq::empty());
        assert(store.sessions.deep_view() =~= Seq::empty());
        assert(store.profiles.deep_view() =~= Seq::empty());
        store
    }

    /// Looks up the account with identifier `id`.
    pub fn find_account_by_id(&self, id: u128) -> (found: Option<app_user::Model>)
        requires
            self.wf(),
        ensures
            found.deep_view() == self@.account_by_id(id),
    {
        let mut i: usize = 0;
        while i < self.accounts.len()
            invariant
                i <= self.accounts.len(),
                self.wf(),
                forall|j: int| 0 <= j < i ==> (#[trigger] self@.accounts[j]).id != id,
            decreases self.accounts.len() - i,
        {
            if self.accounts[i].id == id {
                proof {
                    self@.account_by_id_is(i as int);
                }
                return Some(self.accounts[i].clone());
            }
            i += 1;
        }
        None
    }

    /// Looks up the account created for the external identity `wechat_id`.
    pub fn find_account_by_wechat_id(&self, wechat_id: &String) -> (found: Option<app_user::Model>)
        requires
            self.wf(),
        ensures
            found.deep_view() == self@.account_by_wechat_id(wechat_id@),
    {
        let mut i: usize = 0;
        while i < self.accounts.len()
            invariant
                i <= self.accounts.len(),
                self.wf(),
                forall|j: int|
                    0 <= j < i ==> (#[trigger] self@.accounts[j]).wechat_id != wechat_id@,
            decreases self.accounts.len() - i,
        {
            if self.accounts[i].wechat_id == *wechat_id {
                proof {
                    self@.account_by_wechat_id_is(i as int);
                }
                return Some(self.accounts[i].clone());
            }
            i += 1;
        }
        None
    }

    /// Looks up the session that the bearer token `token` stands for.
    pub fn find_session_by_token(&self, token: u128) -> (found: Option<we_chat_session::Model>)
        requires
            self.wf(),
        ensures
            found.deep_view() == self@.session_by_token(token),
    {
        let mut i: usize = 0;
        while i < self.sessions.len()
            invariant
                i <= self.sessions.len(),
                self.wf(),
                forall|j: int| 0 <= j < i ==> (#[trigger] self@.sessions[j]).last_token != token,
            decreases self.sessions.len() - i,
        {
            if self.sessions[i].last_token == token {
                proof {
                    self@.session_by_token_is(i as int);
                }
                return Some(self.sessions[i].clone());
            }
            i += 1;
        }
        None
    }

    /// Looks up the session of the account `user_id`.
    pub fn find_session_by_user(&self, user_id: u128) -> (found: Option<we_chat_session::Model>)
        requires
            self.wf(),
        ensures
            found.deep_view() == self@.session_by_user(user_id),
    {
        let mut i: usize = 0;
        while i < self.sessions.len()
            invariant
                i <= self.sessions.len(),
                self.wf(),
                forall|j: int| 0 <= j < i ==> (#[trigger] self@.sessions[j]).user_id != user_id,
            decreases self.sessions.len() - i,
        {
            if self.sessions[i].user_id == user_id {
                proof {
                    self@.session_by_user_is(i as int);
                }
                return Some(self.sessions[i].clone());
            }
            i += 1;
        }
        None
    }

    /// Looks up the profile `id` among those that `creator` created.
    pub fn find_profile_owned(&self, id: u128, creator: u128) -> (found: Option<user_info::Model>)
        requires
            self.wf(),
        ensures
            found.deep_view() == self@.profile_owned(id, creator),
    {
        let mut i: usize = 0;
        while i < self.profiles.len()
            invariant
                i <= self.profiles.len(),
                self.wf(),
                forall|j: int|
                    0 <= j < i ==> !((#[trigger] self@.profiles[j]).id == id
                        && self@.profiles[j].creator == creator),
            decreases self.profiles.len() - i,
        {
            if self.profiles[i].id == id && self.profiles[i].creator == creator {
                proof {
                    self@.profile_position_is(i as int);
                }
                return Some(self.profiles[i].clone());
            }
            i += 1;
        }
        None
    }
    /// Whether some session holds the session key `key`.
    pub fn session_key_in_use(&self, key: &String) -> (used: bool)
        ensures
            used == self@.session_key_in_use(key@),
    {
        let mut i: usize = 0;
        while i < self.sessions.len()
            invariant
                i <= self.sessions.len(),
                forall|j: int| 0 <= j < i ==> (#[trigger] self@.sessions[j]).last_session != key@,
            decreases self.sessions.len() - i,
        {
            if self.sessions[i].last_session == *key {
                assert(self@.sessions[i as int].last_session == key@);
                return true;
            }
            i += 1;
        }
        false
    }

    /// Stores a new account for the external identity `wechat_id`.
    pub fn insert_account(&mut self, wechat_id: String, user_role: UserRole) -> (created: Option<
        app_user::Model,
    >)
        requires
            old(self).wf(),
        ensures
            final(self).wf(),
            (final(self)@, created.deep_view()) == old(self)@.insert_account(wechat_id@, user_role),
    {
        if self.next_id == u128::MAX {
            return None;
        }
        if self.find_account_by_wechat_id(&wechat_id).is_some() {
            return None;
        }
        proof {
            self@.insert_account_wf(wechat_id@, user_role);
        }
        let row = app_user::Model { id: self.next_id, wechat_id, user_role };
        let copy = row.clone();
        self.next_id = self.next_id + 1;
        self.accounts.push(row);
        assert(self.accounts.deep_view() =~= old(self).accounts.deep_view().push(row@));
        Some(copy)
    }

    /// Stores a new session for the account `user_id`.
    pub fn insert_session(
        &mut self,
        user_id: u128,
        last_login: Timestamp,
        last_session: String,
        last_token: u128,
    ) -> (created: Option<we_chat_session::Model>)
        requires
            old(self).wf(),
        ensures
            final(self).wf(),
            (final(self)@, created.deep_view()) == old(self)@.insert_session(
                user_id,
                last_login,
                last_session@,
                last_token,
            ),
    {
        if self.next_row == i32::MAX {
            return None;
        }
        if self.find_account_by_id(user_id).is_none() {
            return None;
        }
        if self.find_session_by_user(user_id).is_some() {
            return None;
        }
        if self.find_session_by_token(last_token).is_some() {
            return None;
        }
        if self.session_key_in_use(&last_session) {
            return None;
        }
        proof {
            self@.insert_session_wf(user_id, last_login, last_session@, last_token);
        }
        let row = we_chat_session::Model {
            id: self.next_row,
            user_id,
            last_login,
            last_session,
            last_token,
        };
        let copy = row.clone();
        self.next_row = self.next_row + 1;
        self.sessions.push(row);
        assert(self.sessions.deep_view() =~= old(self).sessions.deep_view().push(row@));
        Some(copy)
    }

    /// Where the session with row number `row` stands.
    fn session_position(&self, row: i32) -> (at: Option<usize>)
        requires
            self.wf(),
        ensures
            at is Some <==> self@.session_position(row) is Some,
            at matches Some(i) ==> self@.session_position(row) == Some(i as int) && i
                < self@.sessions.len() && self@.sessions[i as int].id == row,
    {
        let mut i: usize = 0;
        while i < self.sessions.len()
            invariant
                i <= self.sessions.len(),
                self.wf(),
                forall|j: int| 0 <= j < i ==> (#[trigger] self@.sessions[j]).id != row,
            decreases self.sessions.len() - i,
        {
            if self.sessions[i].id == row {
                proof {
                    self@.session_position_is(i as int);
                }
                return Some(i);
            }
            i += 1;
        }
        None
    }

    /// Puts `row` in the place of the stored session with the same row number.
    pub fn replace_session(&mut self, row: we_chat_session::Model) -> (changed: Option<
        we_chat_session::Model,
    >)
        requires
            old(self).wf(),
        ensures
            final(self).wf(),
            (final(self)@, changed.deep_view()) == old(self)@.replace_session(row@),
    {
        let at = match self.session_position(row.id) {
            Some(at) => at,
            None => {
                return None;
            },
        };
        if self.find_account_by_id(row.user_id).is_none() {
            return None;
        }
        let mut k: usize = 0;
        while k < self.sessions.len()
            invariant
                k <= self.sessions.len(),
                at < self.sessions.len(),
                self.wf(),
                *self == *old(self),
                self@.session_position(row.id) == Some(at as int),
                self@.has_account(row.user_id),
                forall|j: int|
                    0 <= j < k && j != at ==> {
                        &&& (#[trigger] self@.sessions[j]).user_id != row.user_id
                        &&& self@.sessions[j].last_token != row.last_token
                        &&& self@.sessions[j].last_session != row.last_session@
                    },
            decreases self.sessions.len() - k,
        {
            if k != at && (self.sessions[k].user_id == row.user_id || self.sessions[k].last_token
                == row.last_token || self.sessions[k].last_session == row.last_session) {
                assert(!({
                    &&& self@.sessions[k as int].user_id != row.user_id
                    &&& self@.sessions[k as int].last_token != row.last_token
                    &&& self@.sessions[k as int].last_session != row.last_session@
                }));
                return None;
            }
            k += 1;
        }
        proof {
            self@.replace_session_wf(row@);
        }
        let copy = row.clone();
        self.sessions.set(at, row);
        assert(self.sessions.deep_view() =~= old(self).sessions.deep_view().update(
            at as int,
            row@,
        ));
        Some(copy)
    }

    /// The profiles that `creator` created, in the order they were stored,
    /// cut to the window of `limit` rows after the first `offset`.
    pub fn list_profiles(&self, creator: u128, offset: u64, limit: u64) -> (rows: Vec<
        user_info::Model,
    >)
        ensures
            rows.deep_view() == window(self@.profiles_of(creator), offset, limit),
    {
        let ghost owned_by = |p: user_info::ModelView| p.creator == creator;
        let mut owned: Vec<user_info::Model> = Vec::new();
        let mut i: usize = 0;
        while i < self.profiles.len()
            invariant
                i <= self.profiles.len(),
                owned_by == |p: user_info::ModelView| p.creator == creator,
                owned.deep_view() == self.profiles.deep_view().take(i as int).filter(owned_by),
            decreases self.profiles.len() - i,
        {
            let ghost before = owned.deep_view();
            proof {
                self.profiles.deep_view().lemma_take_succ_push(i as int);
                self.profiles.deep_view().take(i as int).lemma_filter_push(
                    self.profiles.deep_view()[i as int],
                    owned_by,
                );
            }
            if self.profiles[i].creator == creator {
                owned.push(self.profiles[i].clone());
                assert(owned.deep_view() =~= before.push(self.profiles.deep_view()[i as int]));
            }
            i += 1;
        }
        proof {
            self.profiles.deep_view().lemma_take_len();
        }
        let end: u128 = offset as u128 + limit as u128;
        let from: usize = if offset as u128 <= owned.len() as u128 {
            offset as usize
        } else {
            owned.len()
        };
        let to: usize = if end <= owned.len() as u128 {
            end as usize
        } else {
            owned.len()
        };
        let mut rows: Vec<user_info::Model> = Vec::new();
        let mut k: usize = from;
        while k < to
            invariant
                from <= k <= to <= owned.len(),
                rows.deep_view() == owned.deep_view().subrange(from as int, k as int),
            decreases to - k,
        {
            let ghost before = rows.deep_view();
            rows.push(owned[k].clone());
            proof {
                assert(rows.deep_view() =~= before.push(owned.deep_view()[k as int]));
                assert(owned.deep_view().subrange(from as int, k + 1)
                    =~= owned.deep_view().subrange(from as int, k as int).push(
                    owned.deep_view()[k as int],
                ));
            }
            k += 1;
        }
        rows
    }

    /// Stores a new profile of `creator`, under an identifier of the store's.
    pub fn insert_profile(
        &mut self,
        creator: u128,
        id_no: String,
        name: String,
        phone: String,
        address: String,
        image: Option<u128>,
    ) -> (created: Option<user_info::Model>)
        requires
            old(self).wf(),
        ensures
            final(self).wf(),
            (final(self)@, created.deep_view()) == old(self)@.insert_profile(
                creator,
                id_no@,
                name@,
                phone@,
                address@,
                image,
            ),
    {
        if self.next_id == u128::MAX {
            return None;
        }
        if self.find_account_by_id(creator).is_none() {
            return None;
        }
        proof {
            self@.insert_profile_wf(creator, id_no@, name@, phone@, address@, image);
        }
        let row = user_info::Model {
            id: self.next_id,
            creator,
            id_no,
            name,
            phone,
            address,
            image,
        };
        let copy = row.clone();
        self.next_id = self.next_id + 1;
        self.profiles.push(row);
        assert(self.profiles.deep_view() =~= old(self).profiles.deep_view().push(row@));
        Some(copy)
    }

    /// Where the profile with identifier `id` stands.
    fn profile_row(&self, id: u128) -> (at: Option<usize>)
        requires
            self.wf(),
        ensures
            at is Some <==> self@.profile_row(id) is Some,
            at matches Some(i) ==> self@.profile_row(id) == Some(i as int) && i
                < self@.profiles.len() && self@.profiles[i as int].id == id,
    {
        let mut i: usize = 0;
        while i < self.profiles.len()
            invariant
                i <= self.profiles.len(),
                self.wf(),
                forall|j: int| 0 <= j < i ==> (#[trigger] self@.profiles[j]).id != id,
            decreases self.profiles.len() - i,
        {
            if self.profiles[i].id == id {
                proof {
                    self@.profile_row_is(i as int);
                }
                return Some(i);
            }
            i += 1;
        }
        None
    }

    /// Puts `row` in the place of the stored profile with the same identifier.
    pub fn replace_profile(&mut self, row: user_info::Model) -> (changed: Option<user_info::Model>)
        requires
            old(self).wf(),
        ensures
            final(self).wf(),
            (final(self)@, changed.deep_view()) == old(self)@.replace_profile(row@),
    {
        let at = match self.profile_row(row.id) {
            Some(at) => at,
            None => {
                return None;
            },
        };
        if self.find_account_by_id(row.creator).is_none() {
            return None;
        }
        proof {
            self@.replace_profile_wf(row@);
        }
        let copy = row.clone();
        self.profiles.set(at, row);
        assert(self.profiles.deep_view() =~= old(self).profiles.deep_view().update(
            at as int,
            row@,
        ));
        Some(copy)
    }

    /// Removes the profile `id` if `creator` created it; gives the number of
    /// rows removed.
    pub fn delete_profile(&mut self, id: u128, creator: u128) -> (removed: u64)
        requires
            old(self).wf(),
        ensures
            final(self).wf(),
            (final(self)@, removed) == old(self)@.delete_profile(id, creator),
    {
        let mut i: usize = 0;
        while i < self.profiles.len()
            invariant
                i <= self.profiles.len(),
                self.wf(),
                *self == *old(self),
                forall|j: int|
                    0 <= j < i ==> !((#[trigger] self@.profiles[j]).id == id
                        && self@.profiles[j].creator == creator),
            decreases self.profiles.len() - i,
        {
            if self.profiles[i].id == id && self.profiles[i].creator == creator {
                proof {
                    self@.profile_position_is(i as int);
                    self@.delete_profile_wf(id, creator);
                }
                self.profiles.remove(i);
                assert(self.profiles.deep_view() =~= old(self).profiles.deep_view().remove(
                    i as int,
                ));
                return 1;
            }
            i += 1;
        }
        0
    }

    /// The number of accounts.
    pub fn account_count(&self) -> (count: usize)
        ensures
            count == self@.accounts.len(),
    {
        self.accounts.len()
    }

    /// The number of sessions.
    pub fn session_count(&self) -> (count: usize)
        ensures
            count == self@.sessions.len(),
    {
        self.sessions.len()
    }

    /// The number of profiles.
    pub fn profile_count(&self) -> (count: usize)
        ensures
            count == self@.profiles.len(),
    {
        self.profiles.len()
    }
}

} // verus!
