//! The course of one request, as a sequence of queries.
//!
//! A request starts with [`begin`], which gives the first thing to do. Each
//! reply to a query goes to [`advance`], which gives the next thing to do,
//! until the action is to respond. The functions decide; they neither reach a
//! database nor read a clock. [`serve`] runs a request against the tables in
//! memory.

use vstd::prelude::*;
use crate::api::check_session;
use crate::api::session_check;
use crate::api::user_info::ModifyingUserInfo;
use crate::api::user_info::ModifyingUserInfoView;
use crate::api::user_info::UserInfo;
use crate::api::user_info::UserInfoView;
use crate::api::user_info::UserInfoRequest;
use crate::api::wechat_login::identity;
use crate::api::wechat_login::identity_of;
use crate::api::wechat_login::WeChatLoginAPIResponse;
use crate::api::wechat_login::WeChatLoginAPIResponseView;
use crate::api::wechat_login::WeChatLoginResponse;
use crate::api::BearerToken;
use crate::clock::is_stale;
use crate::clock::stale;
use crate::clock::Timestamp;
use crate::entities::active_enums::UserRole;
use crate::entities::app_user;
use crate::entities::we_chat_session;
use crate::protocol::Query;
use crate::protocol::QueryView;
use crate::protocol::Reply;
use crate::protocol::ReplyView;
use crate::status::Status;
use crate::store::memory::Store;
use crate::store::tables::Tables;

verus! {

/// What a client asks of the service.
#[derive(Debug)]
#[allow(inconsistent_fields)]
pub enum Request {
    /// A login; `upstream` is what the exchange of the client's code with the
    /// identity service gave, `None` where the exchange failed or its answer
    /// could not be read.
    WechatLogin { upstream: Option<WeChatLoginAPIResponse> },
    /// A listing of the profiles of the account behind `token`.
    QueryUserInfo { token: BearerToken, query: UserInfoRequest },
    /// A new profile for the account behind `token`.
    AddUserInfo { token: BearerToken, user_info: UserInfo },
    /// A change to a profile of the account behind `token`.
    SetUserInfo { token: BearerToken, user_info: ModifyingUserInfo },
    /// The removal of a profile of the account behind `token`.
    DeleteUserInfo { token: BearerToken, user_info_id: u128 },
}

/// A request, with its texts as sequences of characters.
#[allow(inconsistent_fields)]
pub enum RequestView {
    WechatLogin { upstream: Option<WeChatLoginAPIResponseView> },
    QueryUserInfo { token: BearerToken, query: UserInfoRequest },
    AddUserInfo { token: BearerToken, user_info: UserInfoView },
    SetUserInfo { token: BearerToken, user_info: ModifyingUserInfoView },
    DeleteUserInfo { token: BearerToken, user_info_id: u128 },
}

impl View for Request {
    type V = RequestView;

    open spec fn view(&self) -> RequestView {
        match *self {
            Request::WechatLogin { upstream } => RequestView::WechatLogin {
                upstream: upstream.deep_view(),
            },
            Request::QueryUserInfo { token, query } => RequestView::QueryUserInfo { token, query },
            Request::AddUserInfo { token, user_info } => RequestView::AddUserInfo {
                token,
                user_info: user_info@,
            },
            Request::SetUserInfo { token, user_info } => RequestView::SetUserInfo {
                token,
                user_info: user_info@,
            },
            Request::DeleteUserInfo { token, user_info_id } => RequestView::DeleteUserInfo {
                token,
                user_info_id,
            },
        }
    }
}

/// What the service answers.
#[derive(Debug)]
pub enum Response {
    /// The bearer token of a login.
    Token(WeChatLoginResponse),
    /// The profiles of a listing.
    Profiles(Vec<UserInfo>),
    /// The profile just created.
    Profile(UserInfo),
    /// Success without content.
    Done,
    /// The status the request failed with.
    Failed(Status),
}

/// A response, with its profiles as their views.
pub enum ResponseView {
    Token(WeChatLoginResponse),
    Profiles(Seq<UserInfoView>),
    Profile(UserInfoView),
    Done,
    Failed(Status),
}

impl View for Response {
    type V = ResponseView;

    open spec fn view(&self) -> ResponseView {
        match *self {
            Response::Token(token) => ResponseView::Token(token),
            Response::Profiles(infos) => ResponseView::Profiles(infos.deep_view()),
            Response::Profile(info) => ResponseView::Profile(info@),
            Response::Done => ResponseView::Done,
            Response::Failed(status) => ResponseView::Failed(status),
        }
    }
}

/// What to do next for a request.
#[derive(Debug)]
pub enum Action {
    /// Send the query and come back with its reply.
    Ask(Query),
    /// Answer the client; the request is over.
    Respond(Response),
}

/// An action, with its query or its response as their views.
pub enum ActionView {
    Ask(QueryView),
    Respond(ResponseView),
}

impl View for Action {
    type V = ActionView;

    open spec fn view(&self) -> ActionView {
        match *self {
            Action::Ask(query) => ActionView::Ask(query@),
            Action::Respond(response) => ActionView::Respond(response@),
        }
    }
}

/// Where a request stands: the reply it waits for.
#[derive(Clone, Copy, Debug, PartialEq, Eq, Structural)]
pub enum Stage {
    /// The session of the bearer token.
    Session,
    /// The account of the session.
    Account,
    /// The profiles of a listing.
    Listing,
    /// The profile just stored.
    Adding,
    /// The profile that a change names.
    Locating,
    /// The profile just changed.
    Updating,
    /// The number of profiles removed.
    Deleting,
    /// The account of the external identity that logs in.
    LoginAccount,
    /// The account just created for the external identity.
    Enrolling,
    /// The session of the account that logs in.
    LoginSession { user_id: u128 },
    /// The session just stored or renewed.
    Issuing,
    /// Nothing: the request is over.
    Finished,
}

/// The end of a request that failed with `status`.
pub open spec fn failed(status: Status) -> (Stage, ActionView) {
    (Stage::Finished, ActionView::Respond(ResponseView::Failed(status)))
}

/// The session `session` after a login at `now` with the session key
/// `session_key`. The login time and the session key are always renewed. The
/// token stays while the session is fresh and is replaced by `fresh` once the
/// session is stale.
pub open spec fn renewed(
    session: we_chat_session::ModelView,
    session_key: Seq<char>,
    now: Timestamp,
    fresh: u128,
) -> we_chat_session::ModelView {
    we_chat_session::ModelView {
        last_login: now,
        last_session: session_key,
        last_token: if is_stale(session.last_login, now) {
            fresh
        } else {
            session.last_token
        },
        ..session
    }
}

/// The first query of a request for the authenticated account `user`.
pub open spec fn first_query(request: RequestView, user: app_user::ModelView) -> (
    Stage,
    ActionView,
) {
    match request {
        RequestView::WechatLogin { .. } => failed(Status::InternalServerError),
        RequestView::QueryUserInfo { query, .. } => (
            Stage::Listing,
            ActionView::Ask(
                QueryView::ProfilesByCreator {
                    creator: user.id,
                    offset: query.start,
                    limit: query.count,
                },
            ),
        ),
        RequestView::AddUserInfo { user_info, .. } => (
            Stage::Adding,
            ActionView::Ask(
                QueryView::InsertProfile {
                    creator: user.id,
                    id_no: user_info.id_no,
                    name: user_info.name,
                    phone: user_info.phone,
                    address: user_info.address,
                    image: user_info.image,
                },
            ),
        ),
        RequestView::SetUserInfo { user_info, .. } => (
            Stage::Locating,
            ActionView::Ask(
                QueryView::ProfileByIdAndCreator { id: user_info.id, creator: user.id },
            ),
        ),
        RequestView::DeleteUserInfo { user_info_id, .. } => (
            Stage::Deleting,
            ActionView::Ask(QueryView::DeleteProfile { id: user_info_id, creator: user.id }),
        ),
    }
}

/// How a request starts. A login whose exchange with the identity service gave
/// no identity is over at once; any other login looks for the account of the
/// identity. Every other request looks for the session of its token.
pub open spec fn begin_spec(request: RequestView) -> (Stage, ActionView) {
    match request {
        RequestView::WechatLogin { upstream } => match identity_of(upstream) {
            Err(status) => failed(status),
            Ok((openid, _)) => (
                Stage::LoginAccount,
                ActionView::Ask(QueryView::AccountByWechatId { wechat_id: openid }),
            ),
        },
        RequestView::QueryUserInfo { token, .. } => (
            Stage::Session,
            ActionView::Ask(QueryView::SessionByToken { token: token.token }),
        ),
        RequestView::AddUserInfo { token, .. } => (
            Stage::Session,
            ActionView::Ask(QueryView::SessionByToken { token: token.token }),
        ),
        RequestView::SetUserInfo { token, .. } => (
            Stage::Session,
            ActionView::Ask(QueryView::SessionByToken { token: token.token }),
        ),
        RequestView::DeleteUserInfo { token, .. } => (
            Stage::Session,
            ActionView::Ask(QueryView::SessionByToken { token: token.token }),
        ),
    }
}

/// How a login goes on once `reply` has come for the query of `stage`. Any
/// reply that the stage does not wait for ends the login as a gateway failure.
pub open spec fn advance_login(
    upstream: Option<WeChatLoginAPIResponseView>,
    stage: Stage,
    reply: ReplyView,
    now: Timestamp,
    fresh: u128,
) -> (Stage, ActionView) {
    match identity_of(upstream) {
        Err(_) => failed(Status::BadGateway),
        Ok((openid, session_key)) => match (stage, reply) {
            (Stage::LoginAccount, ReplyView::Account(Some(user))) => (
                Stage::LoginSession { user_id: user.id },
                ActionView::Ask(QueryView::SessionByUser { user_id: user.id }),
            ),
            (Stage::LoginAccount, ReplyView::Account(None)) => (
                Stage::Enrolling,
                ActionView::Ask(
                    QueryView::InsertAccount { wechat_id: openid, user_role: UserRole::Normal },
                ),
            ),
            (Stage::Enrolling, ReplyView::Account(Some(user))) => (
                Stage::LoginSession { user_id: user.id },
                ActionView::Ask(QueryView::SessionByUser { user_id: user.id }),
            ),
            (Stage::LoginSession { user_id }, ReplyView::Session(None)) => (
                Stage::Issuing,
                ActionView::Ask(
                    QueryView::InsertSession {
                        user_id,
                        last_login: now,
                        last_session: session_key,
                        last_token: fresh,
                    },
                ),
            ),
            (Stage::LoginSession { .. }, ReplyView::Session(Some(session))) => (
                Stage::Issuing,
                ActionView::Ask(
                    QueryView::UpdateSession { row: renewed(session, session_key, now, fresh) },
                ),
            ),
            (Stage::Issuing, ReplyView::Session(Some(session))) => (
                Stage::Finished,
                ActionView::Respond(
                    ResponseView::Token(WeChatLoginResponse { token: session.last_token }),
                ),
            ),
            _ => failed(Status::BadGateway),
        },
    }
}

/// How a request on profiles goes on once `reply` has come for the query of
/// `stage`. A token without a fresh session, and a session without an account,
/// end the request as unauthenticated; a change or a removal that finds no
/// profile of the account ends it as not found; any reply that the stage does
/// not wait for ends it as an internal error.
pub open spec fn advance_profiles(
    request: RequestView,
    stage: Stage,
    reply: ReplyView,
    now: Timestamp,
) -> (Stage, ActionView) {
    match (stage, reply) {
        (Stage::Session, ReplyView::Session(found)) => match session_check(found, now) {
            Ok(session) => (
                Stage::Account,
                ActionView::Ask(QueryView::AccountById { id: session.user_id }),
            ),
            Err(status) => failed(status),
        },
        (Stage::Account, ReplyView::Account(Some(user))) => first_query(request, user),
        (Stage::Account, ReplyView::Account(None)) => failed(Status::Unauthorized),
        (Stage::Listing, ReplyView::Profiles(rows)) => (
            Stage::Finished,
            ActionView::Respond(ResponseView::Profiles(UserInfoView::of_all(rows))),
        ),
        (Stage::Adding, ReplyView::Profile(Some(row))) => (
            Stage::Finished,
            ActionView::Respond(ResponseView::Profile(UserInfoView::of(row))),
        ),
        (Stage::Locating, ReplyView::Profile(Some(row))) => match request {
            RequestView::SetUserInfo { user_info, .. } => (
                Stage::Updating,
                ActionView::Ask(QueryView::UpdateProfile { row: user_info.applied(row) }),
            ),
            _ => failed(Status::InternalServerError),
        },
        (Stage::Locating, ReplyView::Profile(None)) => failed(Status::NotFound),
        (Stage::Updating, ReplyView::Profile(Some(_))) => (
            Stage::Finished,
            ActionView::Respond(ResponseView::Done),
        ),
        (Stage::Deleting, ReplyView::Deleted(count)) => if count == 0 {
            failed(Status::NotFound)
        } else {
            (Stage::Finished, ActionView::Respond(ResponseView::Done))
        },
        _ => failed(Status::InternalServerError),
    }
}

/// How a request goes on once `reply` has come for the query of `stage`, at
/// the time `now`, with `fresh` as the token for a session that needs one.
pub open spec fn advance_spec(
    request: RequestView,
    stage: Stage,
    reply: ReplyView,
    now: Timestamp,
    fresh: u128,
) -> (Stage, ActionView) {
    match request {
        RequestView::WechatLogin { upstream } => advance_login(upstream, stage, reply, now, fresh),
        _ => advance_profiles(request, stage, reply, now),
    }
}

/// Ends a request with the failure `status`.
fn fail(status: Status) -> (step: (Stage, Action))
    ensures
        (step.0, step.1@) == failed(status),
{
    (Stage::Finished, Action::Respond(Response::Failed(status)))
}

/// Renews `session` for a login at `now` with the session key `session_key`.
pub fn renew(
    session: we_chat_session::Model,
    session_key: String,
    now: Timestamp,
    fresh: u128,
) -> (row: we_chat_session::Model)
    ensures
        row@ == renewed(session@, session_key@, now, fresh),
{
    let last_token: u128 = if stale(session.last_login, now) {
        fresh
    } else {
        session.last_token
    };
    we_chat_session::Model {
        id: session.id,
        user_id: session.user_id,
        last_login: now,
        last_session: session_key,
        last_token,
    }
}

/// Starts a request: gives the stage it is in and the first thing to do.
pub fn begin(request: &Request) -> (step: (Stage, Action))
    ensures
        (step.0, step.1@) == begin_spec(request@),
{
    match request {
        Request::WechatLogin { upstream } => match identity(upstream) {
            Err(status) => fail(status),
            Ok((openid, _)) => (
                Stage::LoginAccount,
                Action::Ask(Query::AccountByWechatId { wechat_id: openid }),
            ),
        },
        Request::QueryUserInfo { token, .. } => (
            Stage::Session,
            Action::Ask(Query::SessionByToken { token: token.token }),
        ),
        Request::AddUserInfo { token, .. } => (
            Stage::Session,
            Action::Ask(Query::SessionByToken { token: token.token }),
        ),
        Request::SetUserInfo { token, .. } => (
            Stage::Session,
            Action::Ask(Query::SessionByToken { token: token.token }),
        ),
        Request::DeleteUserInfo { token, .. } => (
            Stage::Session,
            Action::Ask(Query::SessionByToken { token: token.token }),
        ),
    }
}

/// Gives the first query of a request for the authenticated account `user`.
fn ask_first(request: &Request, user: &app_user::Model) -> (step: (Stage, Action))
    ensures
        (step.0, step.1@) == first_query(request@, user@),
{
    match request {
        Request::WechatLogin { .. } => fail(Status::InternalServerError),
        Request::QueryUserInfo { query, .. } => (
            Stage::Listing,
            Action::Ask(
                Query::ProfilesByCreator {
                    creator: user.id,
                    offset: query.start,
                    limit: query.count,
                },
            ),
        ),
        Request::AddUserInfo { user_info, .. } => (
            Stage::Adding,
            Action::Ask(
                Query::InsertProfile {
                    creator: user.id,
                    id_no: user_info.id_no.clone(),
                    name: user_info.name.clone(),
                    phone: user_info.phone.clone(),
                    address: user_info.address.clone(),
                    image: user_info.image,
                },
            ),
        ),
        Request::SetUserInfo { user_info, .. } => (
            Stage::Locating,
            Action::Ask(Query::ProfileByIdAndCreator { id: user_info.id, creator: user.id }),
        ),
        Request::DeleteUserInfo { user_info_id, .. } => (
            Stage::Deleting,
            Action::Ask(Query::DeleteProfile { id: *user_info_id, creator: user.id }),
        ),
    }
}

/// Takes a login one step further.
fn step_login(
    upstream: &Option<WeChatLoginAPIResponse>,
    stage: Stage,
    reply: Reply,
    now: Timestamp,
    fresh: u128,
) -> (step: (Stage, Action))
    ensures
        (step.0, step.1@) == advance_login(upstream.deep_view(), stage, reply@, now, fresh),
{
    let (openid, session_key) = match identity(upstream) {
        Err(_) => {
            return fail(Status::BadGateway);
        },
        Ok(pair) => pair,
    };
    match (stage, reply) {
        (Stage::LoginAccount, Reply::Account(Some(user))) => (
            Stage::LoginSession { user_id: user.id },
            Action::Ask(Query::SessionByUser { user_id: user.id }),
        ),
        (Stage::LoginAccount, Reply::Account(None)) => (
            Stage::Enrolling,
            Action::Ask(Query::InsertAccount { wechat_id: openid, user_role: UserRole::Normal }),
        ),
        (Stage::Enrolling, Reply::Account(Some(user))) => (
            Stage::LoginSession { user_id: user.id },
            Action::Ask(Query::SessionByUser { user_id: user.id }),
        ),
        (Stage::LoginSession { user_id }, Reply::Session(None)) => (
            Stage::Issuing,
            Action::Ask(
                Query::InsertSession {
                    user_id,
                    last_login: now,
                    last_session: session_key,
                    last_token: fresh,
                },
            ),
        ),
        (Stage::LoginSession { .. }, Reply::Session(Some(session))) => (
            Stage::Issuing,
            Action::Ask(Query::UpdateSession { row: renew(session, session_key, now, fresh) }),
        ),
        (Stage::Issuing, Reply::Session(Some(session))) => (
            Stage::Finished,
            Action::Respond(Response::Token(WeChatLoginResponse { token: session.last_token })),
        ),
        _ => fail(Status::BadGateway),
    }
}

/// Takes a request on profiles one step further.
fn step_profiles(
    request: &Request,
    stage: Stage,
    reply: Reply,
    now: Timestamp,
) -> (step: (Stage, Action))
    ensures
        (step.0, step.1@) == advance_profiles(request@, stage, reply@, now),
{
    match (stage, reply) {
        (Stage::Session, Reply::Session(found)) => match check_session(found, now) {
            Ok(session) => (
                Stage::Account,
                Action::Ask(Query::AccountById { id: session.user_id }),
            ),
            Err(status) => fail(status),
        },
        (Stage::Account, Reply::Account(Some(user))) => ask_first(request, &user),
        (Stage::Account, Reply::Account(None)) => fail(Status::Unauthorized),
        (Stage::Listing, Reply::Profiles(rows)) => (
            Stage::Finished,
            Action::Respond(Response::Profiles(UserInfo::from_models(rows))),
        ),
        (Stage::Adding, Reply::Profile(Some(row))) => (
            Stage::Finished,
            Action::Respond(Response::Profile(UserInfo::from_model(row))),
        ),
        (Stage::Locating, Reply::Profile(Some(row))) => match request {
            Request::SetUserInfo { user_info, .. } => (
                Stage::Updating,
                Action::Ask(Query::UpdateProfile { row: user_info.apply(row) }),
            ),
            _ => fail(Status::InternalServerError),
        },
        (Stage::Locating, Reply::Profile(None)) => fail(Status::NotFound),
        (Stage::Updating, Reply::Profile(Some(_))) => (
            Stage::Finished,
            Action::Respond(Response::Done),
        ),
        (Stage::Deleting, Reply::Deleted(count)) => if count == 0 {
            fail(Status::NotFound)
        } else {
            (Stage::Finished, Action::Respond(Response::Done))
        },
        _ => fail(Status::InternalServerError),
    }
}

/// Takes a request one step further: `reply` has come for the query that the
/// stage waits for, the time is `now`, and `fresh` is the token to give a
/// session that needs one. Gives the next stage and the next thing to do.
pub fn advance(
    request: &Request,
    stage: Stage,
    reply: Reply,
    now: Timestamp,
    fresh: u128,
) -> (step: (Stage, Action))
    ensures
        (step.0, step.1@) == advance_spec(request@, stage, reply@, now, fresh),
{
    match request {
        Request::WechatLogin { upstream } => step_login(upstream, stage, reply, now, fresh),
        _ => step_profiles(request, stage, reply, now),
    }
}

/// The number of queries that the longest course of a request takes.
pub const QUERY_BUDGET: u8 = 4;

/// The outcome of a request that stands at `stage` with `action` to do, run
/// against `tables`: each query is answered by the tables and its reply taken
/// one step further, until the action is to respond. A request that would ask
/// more than `budget` queries ends as an internal error.
pub open spec fn run(
    tables: Tables,
    request: RequestView,
    stage: Stage,
    action: ActionView,
    now: Timestamp,
    fresh: u128,
    budget: nat,
) -> (Tables, ResponseView)
    decreases budget,
{
    match action {
        ActionView::Respond(response) => (tables, response),
        ActionView::Ask(query) => if budget == 0 {
            (tables, ResponseView::Failed(Status::InternalServerError))
        } else {
            let (after, reply) = tables.answer(query);
            let (next, action) = advance_spec(request, stage, reply, now, fresh);
            run(after, request, next, action, now, fresh, (budget - 1) as nat)
        },
    }
}

/// The tables after `request`, and the response to it, when the request is run
/// against `tables` at the time `now` with `fresh` as the token for a session
/// that needs one.
pub open spec fn served(tables: Tables, request: RequestView, now: Timestamp, fresh: u128) -> (
    Tables,
    ResponseView,
) {
    let (stage, action) = begin_spec(request);
    run(tables, request, stage, action, now, fresh, QUERY_BUDGET as nat)
}

/// Running a request keeps the constraints of the schema.
pub proof fn run_wf(
    tables: Tables,
    request: RequestView,
    stage: Stage,
    action: ActionView,
    now: Timestamp,
    fresh: u128,
    budget: nat,
)
    requires
        tables.wf(),
    ensures
        run(tables, request, stage, action, now, fresh, budget).0.wf(),
    decreases budget,
{
    if let ActionView::Ask(query) = action {
        if budget != 0 {
            tables.answer_wf(query);
            let (after, reply) = tables.answer(query);
            let (next, action) = advance_spec(request, stage, reply, now, fresh);
            run_wf(after, request, next, action, now, fresh, (budget - 1) as nat);
        }
    }
}

/// Runs `request` against the tables in memory, at the time `now`, with
/// `fresh` as the token for a session that needs one.
pub fn serve(db: &mut Store, request: &Request, now: Timestamp, fresh: u128) -> (response: Response)
    requires
        old(db).wf(),
    ensures
        final(db).wf(),
        (final(db)@, response@) == served(old(db)@, request@, now, fresh),
{
    let ghost start = db@;
    let first = begin(request);
    let mut stage = first.0;
    let mut action = first.1;
    let mut budget: u8 = QUERY_BUDGET;
    loop
        invariant
            db.wf(),
            start == old(db)@,
            run(db@, request@, stage, action@, now, fresh, budget as nat) == served(
                start,
                request@,
                now,
                fresh,
            ),
        decreases budget,
    {
        match action {
            Action::Respond(response) => {
                return response;
            },
            Action::Ask(query) => {
                if budget == 0 {
                    return Response::Failed(Status::InternalServerError);
                }
                let reply = db.answer(query);
                let next = advance(request, stage, reply, now, fresh);
                stage = next.0;
                action = next.1;
                budget = budget - 1;
            },
        }
    }
}

} // verus!
