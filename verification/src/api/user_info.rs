//! Listing, creating, changing and removing the profiles of an account.

use vstd::prelude::*;
use crate::api::authenticated;
use crate::api::outcome_view;
use crate::api::BearerToken;
use crate::clock::Timestamp;
use crate::entities::user_info as user_info_db;
use crate::service::begin_spec;
use crate::service::run;
use crate::service::serve;
use crate::service::served;
use crate::service::Request;
use crate::service::RequestView;
use crate::service::Response;
use crate::service::ResponseView;
use crate::status::Status;
use crate::store::memory::Store;
use crate::store::tables::window;
use crate::store::tables::Tables;

verus! {

/// A profile as the client sends and receives it. On the way in, `id` and
/// `creator` carry no weight: the service sets both.
#[derive(Debug, PartialEq, Eq)]
pub struct UserInfo {
    pub id: Option<u128>,
    pub creator: u128,
    pub id_no: String,
    pub name: String,
    pub phone: String,
    pub address: String,
    pub image: Option<u128>,
}

/// The window of a listing: `count` profiles after the first `start`.
#[derive(Clone, Copy, Debug, PartialEq, Eq, Structural)]
pub struct UserInfoRequest {
    pub start: u64,
    pub count: u64,
}

/// A change to the profile `id`: each field that is present replaces the
/// stored one, each field that is absent leaves it.
#[derive(Debug, PartialEq, Eq)]
pub struct ModifyingUserInfo {
    pub id: u128,
    pub phone: Option<String>,
    pub address: Option<String>,
    pub image: Option<u128>,
}

/// A profile as the client sends and receives it, with its texts as sequences
/// of characters.
pub struct UserInfoView {
    pub id: Option<u128>,
    pub creator: u128,
    pub id_no: Seq<char>,
    pub name: Seq<char>,
    pub phone: Seq<char>,
    pub address: Seq<char>,
    pub image: Option<u128>,
}

/// A change to a profile, with its texts as sequences of characters.
pub struct ModifyingUserInfoView {
    pub id: u128,
    pub phone: Option<Seq<char>>,
    pub address: Option<Seq<char>>,
    pub image: Option<u128>,
}

impl View for UserInfo {
    type V = UserInfoView;

    open spec fn view(&self) -> UserInfoView {
        UserInfoView {
            id: self.id,
            creator: self.creator,
            id_no: self.id_no@,
            name: self.name@,
            phone: self.phone@,
            address: self.address@,
            image: self.image,
        }
    }
}

impl DeepView for UserInfo {
    type V = UserInfoView;

    open spec fn deep_view(&self) -> UserInfoView {
        self@
    }
}

impl View for ModifyingUserInfo {
    type V = ModifyingUserInfoView;

    open spec fn view(&self) -> ModifyingUserInfoView {
        ModifyingUserInfoView {
            id: self.id,
            phone: self.phone.deep_view(),
            address: self.address.deep_view(),
            image: self.image,
        }
    }
}

impl Clone for UserInfo {
    fn clone(&self) -> (copy: Self)
        ensures
            copy@ == self@,
    {
        UserInfo {
            id: self.id,
            creator: self.creator,
            id_no: self.id_no.clone(),
            name: self.name.clone(),
            phone: self.phone.clone(),
            address: self.address.clone(),
            image: self.image,
        }
    }
}

impl UserInfoView {
    /// A stored profile as the client receives it.
    pub open spec fn of(row: user_info_db::ModelView) -> UserInfoView {
        UserInfoView {
            id: Some(row.id),
            creator: row.creator,
            id_no: row.id_no,
            name: row.name,
            phone: row.phone,
            address: row.address,
            image: row.image,
        }
    }

    /// Stored profiles as the client receives them, in the same order.
    pub open spec fn of_all(rows: Seq<user_info_db::ModelView>) -> Seq<UserInfoView> {
        rows.map_values(|row: user_info_db::ModelView| UserInfoView::of(row))
    }
}

impl UserInfo {
    /// Turns a stored profile into what the client receives.
    pub fn from_model(row: user_info_db::Model) -> (info: UserInfo)
        ensures
            info@ == UserInfoView::of(row@),
    {
        UserInfo {
            id: Some(row.id),
            creator: row.creator,
            id_no: row.id_no,
            name: row.name,
            phone: row.phone,
            address: row.address,
            image: row.image,
        }
    }

    /// Turns stored profiles into what the client receives.
    pub fn from_models(rows: Vec<user_info_db::Model>) -> (infos: Vec<UserInfo>)
        ensures
            infos.deep_view() == UserInfoView::of_all(rows.deep_view()),
    {
        let mut infos: Vec<UserInfo> = Vec::new();
        let mut i: usize = 0;
        while i < rows.len()
            invariant
                i <= rows.len(),
                infos.deep_view() == UserInfoView::of_all(rows.deep_view().take(i as int)),
            decreases rows.len() - i,
        {
            let ghost before = infos.deep_view();
            infos.push(UserInfo::from_model(rows[i].clone()));
            proof {
                assert(infos.deep_view() =~= before.push(
                    UserInfoView::of(rows.deep_view()[i as int]),
                ));
                assert(rows.deep_view().take(i + 1) =~= rows.deep_view().take(i as int).push(
                    rows.deep_view()[i as int],
                ));
                assert(UserInfoView::of_all(rows.deep_view().take(i + 1)) =~= UserInfoView::of_all(
                    rows.deep_view().take(i as int),
                ).push(UserInfoView::of(rows.deep_view()[i as int])));
            }
            i += 1;
        }
        proof {
            assert(rows.deep_view().take(rows.len() as int) =~= rows.deep_view());
        }
        infos
    }
}

impl Clone for ModifyingUserInfo {
    fn clone(&self) -> (copy: Self)
        ensures
            copy@ == self@,
    {
        ModifyingUserInfo {
            id: self.id,
            phone: match &self.phone {
                Some(phone) => Some(phone.clone()),
                None => None,
            },
            address: match &self.address {
                Some(address) => Some(address.clone()),
                None => None,
            },
            image: self.image,
        }
    }
}

impl ModifyingUserInfoView {
    /// The stored profile `row` with the change applied: the fields that the
    /// change carries are taken from it, every other field from `row`.
    pub open spec fn applied(self, row: user_info_db::ModelView) -> user_info_db::ModelView {
        user_info_db::ModelView {
            phone: match self.phone {
                Some(phone) => phone,
                None => row.phone,
            },
            address: match self.address {
                Some(address) => address,
                None => row.address,
            },
            image: match self.image {
                Some(image) => Some(image),
                None => row.image,
            },
            ..row
        }
    }
}

impl ModifyingUserInfo {
    /// Applies the change to the stored profile `row`.
    pub fn apply(&self, row: user_info_db::Model) -> (changed: user_info_db::Model)
        ensures
            changed@ == self@.applied(row@),
    {
        user_info_db::Model {
            id: row.id,
            creator: row.creator,
            id_no: row.id_no,
            name: row.name,
            phone: match &self.phone {
                Some(phone) => phone.clone(),
                None => row.phone,
            },
            address: match &self.address {
                Some(address) => address.clone(),
                None => row.address,
            },
            image: match self.image {
                Some(image) => Some(image),
                None => row.image,
            },
        }
    }
}

/// What a listing gives at the time `now`: the profiles that the account
/// behind `token` created, in the order they were stored, cut to the window of
/// `query`; or the status that the authentication fails with.
pub open spec fn listing(
    tables: Tables,
    token: BearerToken,
    query: UserInfoRequest,
    now: Timestamp,
) -> Result<Seq<UserInfoView>, Status> {
    match authenticated(tables, token.token, now) {
        Err(status) => Err(status),
        Ok(user) => Ok(
            UserInfoView::of_all(window(tables.profiles_of(user.id), query.start, query.count)),
        ),
    }
}

/// The outcome of a listing, with the profiles as a sequence.
pub open spec fn listed_view(listed: Result<Vec<UserInfo>, Status>) -> Result<
    Seq<UserInfoView>,
    Status,
> {
    match listed {
        Ok(infos) => Ok(infos.deep_view()),
        Err(status) => Err(status),
    }
}

/// The response that stands for the outcome of a listing.
pub open spec fn listing_response(outcome: Result<Seq<UserInfoView>, Status>) -> ResponseView {
    match outcome {
        Ok(infos) => ResponseView::Profiles(infos),
        Err(status) => ResponseView::Failed(status),
    }
}

/// The course of a listing through its queries ends in what [`listing`] says,
/// and leaves the tables as they are.
pub proof fn listing_served(
    tables: Tables,
    token: BearerToken,
    query: UserInfoRequest,
    now: Timestamp,
    fresh: u128,
)
    ensures
        served(tables, RequestView::QueryUserInfo { token, query }, now, fresh) == (
            tables,
            listing_response(listing(tables, token, query, now)),
        ),
{
    reveal_with_fuel(run, 5);
}

/// Lists the profiles of the account behind `token` at the time `now`.
pub fn query_user_info_at(
    db: &mut Store,
    token: BearerToken,
    query: UserInfoRequest,
    now: Timestamp,
) -> (listed: Result<Vec<UserInfo>, Status>)
    requires
        old(db).wf(),
    ensures
        final(db).wf(),
        final(db)@ == old(db)@,
        listed_view(listed) == listing(old(db)@, token, query, now),
{
    proof {
        listing_served(db@, token, query, now, 0);
    }
    let request = Request::QueryUserInfo { token, query };
    match serve(db, &request, now, 0) {
        Response::Profiles(infos) => Ok(infos),
        Response::Failed(status) => Err(status),
        _ => Err(Status::InternalServerError),
    }
}

/// Lists the profiles of the account behind `token` at the time the system
/// clock shows. The tables stay as they are, and the outcome is that of a
/// listing at some time.
pub fn query_user_info(
    db: &mut Store,
    token: BearerToken,
    query: UserInfoRequest,
) -> (listed: Result<Vec<UserInfo>, Status>)
    requires
        old(db).wf(),
    ensures
        final(db).wf(),
        final(db)@ == old(db)@,
        exists|now: Timestamp| listed_view(listed) == listing(old(db)@, token, query, now),
{
    let now = Timestamp::now();
    query_user_info_at(db, token, query, now)
}

/// What the creation of a profile gives at the time `now`, and the tables
/// after it. The profile is stored for the account behind `token`, whatever
/// `id` and `creator` the client sent, and comes back with the identifier it
/// was stored under. A request that does not authenticate leaves the tables as
/// they are; so does one that the tables do not admit, which is an internal
/// error.
pub open spec fn addition(
    tables: Tables,
    token: BearerToken,
    user_info: UserInfoView,
    now: Timestamp,
) -> (Tables, Result<UserInfoView, Status>) {
    match authenticated(tables, token.token, now) {
        Err(status) => (tables, Err(status)),
        Ok(user) => match tables.insert_profile(
            user.id,
            user_info.id_no,
            user_info.name,
            user_info.phone,
            user_info.address,
            user_info.image,
        ) {
            (after, Some(row)) => (after, Ok(UserInfoView::of(row))),
            (after, None) => (after, Err(Status::InternalServerError)),
        },
    }
}

/// The response that stands for the outcome of a creation.
pub open spec fn addition_response(outcome: Result<UserInfoView, Status>) -> ResponseView {
    match outcome {
        Ok(info) => ResponseView::Profile(info),
        Err(status) => ResponseView::Failed(status),
    }
}

/// The course of a creation through its queries ends in what [`addition`]
/// says.
pub proof fn addition_served(
    tables: Tables,
    token: BearerToken,
    user_info: UserInfoView,
    now: Timestamp,
    fresh: u128,
)
    ensures
        served(tables, RequestView::AddUserInfo { token, user_info }, now, fresh) == (
            addition(tables, token, user_info, now).0,
            addition_response(addition(tables, token, user_info, now).1),
        ),
{
    reveal_with_fuel(run, 5);
}

/// Creates a profile for the account behind `token` at the time `now`.
pub fn add_user_info_at(
    db: &mut Store,
    token: BearerToken,
    user_info: UserInfo,
    now: Timestamp,
) -> (added: Result<UserInfo, Status>)
    requires
        old(db).wf(),
    ensures
        final(db).wf(),
        (final(db)@, outcome_view(added)) == addition(old(db)@, token, user_info@, now),
{
    proof {
        addition_served(db@, token, user_info@, now, 0);
    }
    let request = Request::AddUserInfo { token, user_info };
    match serve(db, &request, now, 0) {
        Response::Profile(info) => Ok(info),
        Response::Failed(status) => Err(status),
        _ => Err(Status::InternalServerError),
    }
}

/// Creates a profile for the account behind `token` at the time the system
/// clock shows. The outcome is that of a creation at some time.
pub fn add_user_info(
    db: &mut Store,
    token: BearerToken,
    user_info: UserInfo,
) -> (added: Result<UserInfo, Status>)
    requires
        old(db).wf(),
    ensures
        final(db).wf(),
        exists|now: Timestamp|
            (final(db)@, outcome_view(added)) == addition(old(db)@, token, user_info@, now),
{
    let now = Timestamp::now();
    add_user_info_at(db, token, user_info, now)
}

/// What a change gives at the time `now`, and the tables after it. The profile
/// must be one that the account behind `token` created; a profile of another
/// account is not found, as one that does not exist. The fields that the
/// change carries replace the stored ones.
pub open spec fn change(
    tables: Tables,
    token: BearerToken,
    user_info: ModifyingUserInfoView,
    now: Timestamp,
) -> (Tables, Result<Status, Status>) {
    match authenticated(tables, token.token, now) {
        Err(status) => (tables, Err(status)),
        Ok(user) => match tables.profile_owned(user_info.id, user.id) {
            None => (tables, Err(Status::NotFound)),
            Some(row) => match tables.replace_profile(user_info.applied(row)) {
                (after, Some(_)) => (after, Ok(Status::Success)),
                (after, None) => (after, Err(Status::InternalServerError)),
            },
        },
    }
}

/// The response that stands for the outcome of a change or a removal.
pub open spec fn plain_response(outcome: Result<Status, Status>) -> ResponseView {
    match outcome {
        Ok(_) => ResponseView::Done,
        Err(status) => ResponseView::Failed(status),
    }
}

/// The course of a change through its queries ends in what [`change`] says.
pub proof fn change_served(
    tables: Tables,
    token: BearerToken,
    user_info: ModifyingUserInfoView,
    now: Timestamp,
    fresh: u128,
)
    ensures
        served(tables, RequestView::SetUserInfo { token, user_info }, now, fresh) == (
            change(tables, token, user_info, now).0,
            plain_response(change(tables, token, user_info, now).1),
        ),
{
    reveal_with_fuel(run, 5);
}

/// Changes a profile of the account behind `token` at the time `now`.
pub fn set_user_info_at(
    db: &mut Store,
    token: BearerToken,
    user_info: ModifyingUserInfo,
    now: Timestamp,
) -> (changed: Result<Status, Status>)
    requires
        old(db).wf(),
    ensures
        final(db).wf(),
        (final(db)@, changed) == change(old(db)@, token, user_info@, now),
{
    proof {
        change_served(db@, token, user_info@, now, 0);
    }
    let request = Request::SetUserInfo { token, user_info };
    match serve(db, &request, now, 0) {
        Response::Done => Ok(Status::Success),
        Response::Failed(status) => Err(status),
        _ => Err(Status::InternalServerError),
    }
}

/// Changes a profile of the account behind `token` at the time the system
/// clock shows. The outcome is that of a change at some time.
pub fn set_user_info(
    db: &mut Store,
    token: BearerToken,
    user_info: ModifyingUserInfo,
) -> (changed: Result<Status, Status>)
    requires
        old(db).wf(),
    ensures
        final(db).wf(),
        exists|now: Timestamp| (final(db)@, changed) == change(old(db)@, token, user_info@, now),
{
    let now = Timestamp::now();
    set_user_info_at(db, token, user_info, now)
}

/// What a removal gives at the time `now`, and the tables after it. The
/// removal covers the profile `user_info_id` only if the account behind
/// `token` created it; where it removes nothing, the profile is not found.
pub open spec fn removal(
    tables: Tables,
    token: BearerToken,
    user_info_id: u128,
    now: Timestamp,
) -> (Tables, Result<Status, Status>) {
    match authenticated(tables, token.token, now) {
        Err(status) => (tables, Err(status)),
        Ok(user) => {
            let (after, count) = tables.delete_profile(user_info_id, user.id);
            if count == 0 {
                (after, Err(Status::NotFound))
            } else {
                (after, Ok(Status::Success))
            }
        },
    }
}

/// The course of a removal through its queries ends in what [`removal`] says.
pub proof fn removal_served(
    tables: Tables,
    token: BearerToken,
    user_info_id: u128,
    now: Timestamp,
    fresh: u128,
)
    ensures
        served(tables, RequestView::DeleteUserInfo { token, user_info_id }, now, fresh) == (
            removal(tables, token, user_info_id, now).0,
            plain_response(removal(tables, token, user_info_id, now).1),
        ),
{
    reveal_with_fuel(run, 5);
}

/// Removes a profile of the account behind `token` at the time `now`.
pub fn delete_user_info_at(
    db: &mut Store,
    token: BearerToken,
    user_info_id: u128,
    now: Timestamp,
) -> (removed: Result<Status, Status>)
    requires
        old(db).wf(),
    ensures
        final(db).wf(),
        (final(db)@, removed) == removal(old(db)@, token, user_info_id, now),
{
    proof {
        removal_served(db@, token, user_info_id, now, 0);
    }
    let request = Request::DeleteUserInfo { token, user_info_id };
    match serve(db, &request, now, 0) {
        Response::Done => Ok(Status::Success),
        Response::Failed(status) => Err(status),
        _ => Err(Status::InternalServerError),
    }
}

/// Removes a profile of the account behind `token` at the time the system
/// clock shows. The outcome is that of a removal at some time.
pub fn delete_user_info(
    db: &mut Store,
    token: BearerToken,
    user_info_id: u128,
) -> (removed: Result<Status, Status>)
    requires
        old(db).wf(),
    ensures
        final(db).wf(),
        exists|now: Timestamp| (final(db)@, removed) == removal(old(db)@, token, user_info_id, now),
{
    let now = Timestamp::now();
    delete_user_info_at(db, token, user_info_id, now)
}

} // verus!
