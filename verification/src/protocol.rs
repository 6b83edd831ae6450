//! What the service asks of its tables, and what comes back.
//!
//! Each [`Query`] is one of the lookups or changes the service makes; each
//! [`Reply`] is what a database gives for it. A deployment sends the queries to
//! its database; [`Store::answer`] answers them from memory.

use vstd::prelude::*;
use crate::clock::Timestamp;
use crate::entities::active_enums::UserRole;
use crate::entities::app_user;
use crate::entities::user_info;
use crate::entities::we_chat_session;
use crate::store::memory::Store;
use crate::store::tables::window;
use crate::store::tables::Tables;

verus! {

/// One lookup or change.
#[derive(Debug)]
#[allow(inconsistent_fields)]
pub enum Query {
    /// The session that a bearer token stands for.
    SessionByToken { token: u128 },
    /// The account with an identifier.
    AccountById { id: u128 },
    /// The account created for an external identity.
    AccountByWechatId { wechat_id: String },
    /// A new account; the tables give it its identifier.
    InsertAccount { wechat_id: String, user_role: UserRole },
    /// The session of an account.
    SessionByUser { user_id: u128 },
    /// A new session; the tables give it its row number.
    InsertSession { user_id: u128, last_login: Timestamp, last_session: String, last_token: u128 },
    /// A session, in the place of the stored one with the same row number.
    UpdateSession { row: we_chat_session::Model },
    /// The profiles of a creator: `limit` rows after the first `offset`.
    ProfilesByCreator { creator: u128, offset: u64, limit: u64 },
    /// A new profile; the tables give it its identifier.
    InsertProfile {
        creator: u128,
        id_no: String,
        name: String,
        phone: String,
        address: String,
        image: Option<u128>,
    },
    /// The profile with an identifier, if the creator created it.
    ProfileByIdAndCreator { id: u128, creator: u128 },
    /// A profile, in the place of the stored one with the same identifier.
    UpdateProfile { row: user_info::Model },
    /// Removal of the profile with an identifier, if the creator created it.
    DeleteProfile { id: u128, creator: u128 },
}

/// What came back for a query.
#[derive(Debug)]
pub enum Reply {
    /// The account looked up or stored.
    Account(Option<app_user::Model>),
    /// The session looked up, stored or changed.
    Session(Option<we_chat_session::Model>),
    /// The profile looked up, stored or changed.
    Profile(Option<user_info::Model>),
    /// The profiles listed.
    Profiles(Vec<user_info::Model>),
    /// The number of rows removed.
    Deleted(u64),
    /// The database failed or refused the query.
    Failed,
}

/// A query, with its texts as sequences of characters.
#[allow(inconsistent_fields)]
pub enum QueryView {
    SessionByToken { token: u128 },
    AccountById { id: u128 },
    AccountByWechatId { wechat_id: Seq<char> },
    InsertAccount { wechat_id: Seq<char>, user_role: UserRole },
    SessionByUser { user_id: u128 },
    InsertSession {
        user_id: u128,
        last_login: Timestamp,
        last_session: Seq<char>,
        last_token: u128,
    },
    UpdateSession { row: we_chat_session::ModelView },
    ProfilesByCreator { creator: u128, offset: u64, limit: u64 },
    InsertProfile {
        creator: u128,
        id_no: Seq<char>,
        name: Seq<char>,
        phone: Seq<char>,
        address: Seq<char>,
        image: Option<u128>,
    },
    ProfileByIdAndCreator { id: u128, creator: u128 },
    UpdateProfile { row: user_info::ModelView },
    DeleteProfile { id: u128, creator: u128 },
}

impl View for Query {
    type V = QueryView;

    open spec fn view(&self) -> QueryView {
        match *self {
            Query::SessionByToken { token } => QueryView::SessionByToken { token },
            Query::AccountById { id } => QueryView::AccountById { id },
            Query::AccountByWechatId { wechat_id } => QueryView::AccountByWechatId {
                wechat_id: wechat_id@,
            },
            Query::InsertAccount { wechat_id, user_role } => QueryView::InsertAccount {
                wechat_id: wechat_id@,
                user_role,
            },
            Query::SessionByUser { user_id } => QueryView::SessionByUser { user_id },
            Query::InsertSession {
                user_id,
                last_login,
                last_session,
                last_token,
            } => QueryView::InsertSession {
                user_id,
                last_login,
                last_session: last_session@,
                last_token,
            },
            Query::UpdateSession { row } => QueryView::UpdateSession { row: row@ },
            Query::ProfilesByCreator { creator, offset, limit } => QueryView::ProfilesByCreator {
                creator,
                offset,
                limit,
            },
            Query::InsertProfile {
                creator,
                id_no,
                name,
                phone,
                address,
                image,
            } => QueryView::InsertProfile {
                creator,
                id_no: id_no@,
                name: name@,
                phone: phone@,
                address: address@,
                image,
            },
            Query::ProfileByIdAndCreator { id, creator } => QueryView::ProfileByIdAndCreator {
                id,
                creator,
            },
            Query::UpdateProfile { row } => QueryView::UpdateProfile { row: row@ },
            Query::DeleteProfile { id, creator } => QueryView::DeleteProfile { id, creator },
        }
    }
}

/// A reply, with its rows as their views.
pub enum ReplyView {
    Account(Option<app_user::ModelView>),
    Session(Option<we_chat_session::ModelView>),
    Profile(Option<user_info::ModelView>),
    Profiles(Seq<user_info::ModelView>),
    Deleted(u64),
    Failed,
}

impl View for Reply {
    type V = ReplyView;

    open spec fn view(&self) -> ReplyView {
        match *self {
            Reply::Account(found) => ReplyView::Account(found.deep_view()),
            Reply::Session(found) => ReplyView::Session(found.deep_view()),
            Reply::Profile(found) => ReplyView::Profile(found.deep_view()),
            Reply::Profiles(rows) => ReplyView::Profiles(rows.deep_view()),
            Reply::Deleted(count) => ReplyView::Deleted(count),
            Reply::Failed => ReplyView::Failed,
        }
    }
}

/// The reply for a stored or changed account: the row, or a failure where the
/// tables gave none.
pub open spec fn account_written(row: Option<app_user::ModelView>) -> ReplyView {
    match row {
        Some(row) => ReplyView::Account(Some(row)),
        None => ReplyView::Failed,
    }
}

/// The reply for a stored or changed session.
pub open spec fn session_written(row: Option<we_chat_session::ModelView>) -> ReplyView {
    match row {
        Some(row) => ReplyView::Session(Some(row)),
        None => ReplyView::Failed,
    }
}

/// The reply for a stored or changed profile.
pub open spec fn profile_written(row: Option<user_info::ModelView>) -> ReplyView {
    match row {
        Some(row) => ReplyView::Profile(Some(row)),
        None => ReplyView::Failed,
    }
}

impl Tables {
    /// The tables after `query`, and the reply to it. A lookup leaves the
    /// tables as they are. A change that the tables do not admit leaves them as
    /// they are and fails.
    pub open spec fn answer(self, query: QueryView) -> (Tables, ReplyView) {
        match query {
            QueryView::SessionByToken { token } => (
                self,
                ReplyView::Session(self.session_by_token(token)),
            ),
            QueryView::AccountById { id } => (self, ReplyView::Account(self.account_by_id(id))),
            QueryView::AccountByWechatId { wechat_id } => (
                self,
                ReplyView::Account(self.account_by_wechat_id(wechat_id)),
            ),
            QueryView::InsertAccount { wechat_id, user_role } => {
                let (after, row) = self.insert_account(wechat_id, user_role);
                (after, account_written(row))
            },
            QueryView::SessionByUser { user_id } => (
                self,
                ReplyView::Session(self.session_by_user(user_id)),
            ),
            QueryView::InsertSession { user_id, last_login, last_session, last_token } => {
                let (after, row) = self.insert_session(
                    user_id,
                    last_login,
                    last_session,
                    last_token,
                );
                (after, session_written(row))
            },
            QueryView::UpdateSession { row } => {
                let (after, row) = self.replace_session(row);
                (after, session_written(row))
            },
            QueryView::ProfilesByCreator { creator, offset, limit } => (
                self,
                ReplyView::Profiles(window(self.profiles_of(creator), offset, limit)),
            ),
            QueryView::InsertProfile { creator, id_no, name, phone, address, image } => {
                let (after, row) = self.insert_profile(creator, id_no, name, phone, address, image);
                (after, profile_written(row))
            },
            QueryView::ProfileByIdAndCreator { id, creator } => (
                self,
                ReplyView::Profile(self.profile_owned(id, creator)),
            ),
            QueryView::UpdateProfile { row } => {
                let (after, row) = self.replace_profile(row);
                (after, profile_written(row))
            },
            QueryView::DeleteProfile { id, creator } => {
                let (after, count) = self.delete_profile(id, creator);
                (after, ReplyView::Deleted(count))
            },
        }
    }

    /// Answering a query keeps the constraints of the schema.
    pub proof fn answer_wf(self, query: QueryView)
        requires
            self.wf(),
        ensures
            self.answer(query).0.wf(),
    {
        match query {
            QueryView::InsertAccount { wechat_id, user_role } => {
                self.insert_account_wf(wechat_id, user_role);
            },
            QueryView::InsertSession { user_id, last_login, last_session, last_token } => {
                self.insert_session_wf(user_id, last_login, last_session, last_token);
            },
            QueryView::UpdateSession { row } => {
                self.replace_session_wf(row);
            },
            QueryView::InsertProfile { creator, id_no, name, phone, address, image } => {
                self.insert_profile_wf(creator, id_no, name, phone, address, image);
            },
            QueryView::UpdateProfile { row } => {
                self.replace_profile_wf(row);
            },
            QueryView::DeleteProfile { id, creator } => {
                self.delete_profile_wf(id, creator);
            },
            _ => {},
        }
    }
}

impl Store {
    /// Answers `query` from memory.
    pub fn answer(&mut self, query: Query) -> (reply: Reply)
        requires
            old(self).wf(),
        ensures
            final(self).wf(),
            (final(self)@, reply@) == old(self)@.answer(query@),
    {
        match query {
            Query::SessionByToken { token } => Reply::Session(self.find_session_by_token(token)),
            Query::AccountById { id } => Reply::Account(self.find_account_by_id(id)),
            Query::AccountByWechatId { wechat_id } => Reply::Account(
                self.find_account_by_wechat_id(&wechat_id),
            ),
            Query::InsertAccount { wechat_id, user_role } => {
                match self.insert_account(wechat_id, user_role) {
                    Some(row) => Reply::Account(Some(row)),
                    None => Reply::Failed,
                }
            },
            Query::SessionByUser { user_id } => Reply::Session(self.find_session_by_user(user_id)),
            Query::InsertSession { user_id, last_login, last_session, last_token } => {
                match self.insert_session(user_id, last_login, last_session, last_token) {
                    Some(row) => Reply::Session(Some(row)),
                    None => Reply::Failed,
                }
            },
            Query::UpdateSession { row } => {
                match self.replace_session(row) {
                    Some(row) => Reply::Session(Some(row)),
                    None => Reply::Failed,
                }
            },
            Query::ProfilesByCreator { creator, offset, limit } => Reply::Profiles(
                self.list_profiles(creator, offset, limit),
            ),
            Query::InsertProfile { creator, id_no, name, phone, address, image } => {
                match self.insert_profile(creator, id_no, name, phone, address, image) {
                    Some(row) => Reply::Profile(Some(row)),
                    None => Reply::Failed,
                }
            },
            Query::ProfileByIdAndCreator { id, creator } => Reply::Profile(
                self.find_profile_owned(id, creator),
            ),
            Query::UpdateProfile { row } => {
                match self.replace_profile(row) {
                    Some(row) => Reply::Profile(Some(row)),
                    None => Reply::Failed,
                }
            },
            Query::DeleteProfile { id, creator } => Reply::Deleted(
                self.delete_profile(id, creator),
            ),
        }
    }
}

} // verus!
