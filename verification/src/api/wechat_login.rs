//! Logging in with a code of the identity service.

use vstd::prelude::*;
use crate::clock::Timestamp;
use crate::entities::active_enums::UserRole;
use crate::service::renewed;
use crate::service::run;
use crate::service::serve;
use crate::service::served;
use crate::service::Request;
use crate::service::RequestView;
use crate::service::Response;
use crate::service::ResponseView;
use crate::status::Status;
use crate::store::memory::Store;
use crate::store::tables::Tables;

verus! {

/// Where the identity service exchanges a code for an identity.
pub const WECHAT_API: &'static str = "https://api.weixin.qq.com/sns/jscode2session";

/// The credentials of the application at the identity service.
#[derive(Debug, PartialEq, Eq)]
pub struct WeChatConfig {
    pub appid: String,
    pub secret: String,
}

/// What the client sends to log in: the code the identity service gave it.
#[derive(Debug, PartialEq, Eq)]
pub struct WeChatLoginRequest {
    pub wechat_code: String,
}

/// What the identity service answers to a code: an error code with its
/// message, or the external identity with its session key.
#[derive(Debug, PartialEq, Eq)]
pub struct WeChatLoginAPIResponse {
    pub session_key: Option<String>,
    pub unionid: Option<String>,
    pub errmsg: Option<String>,
    pub openid: Option<String>,
    pub errcode: Option<i32>,
}

/// What a login gives the client: the bearer token of its session.
#[derive(Clone, Copy, Debug, PartialEq, Eq, Structural)]
pub struct WeChatLoginResponse {
    pub token: u128,
}

/// The credentials of the application, as sequences of characters.
pub struct WeChatConfigView {
    pub appid: Seq<char>,
    pub secret: Seq<char>,
}

/// What the identity service answers, with its texts as sequences of
/// characters.
pub struct WeChatLoginAPIResponseView {
    pub session_key: Option<Seq<char>>,
    pub unionid: Option<Seq<char>>,
    pub errmsg: Option<Seq<char>>,
    pub openid: Option<Seq<char>>,
    pub errcode: Option<i32>,
}

impl View for WeChatConfig {
    type V = WeChatConfigView;

    open spec fn view(&self) -> WeChatConfigView {
        WeChatConfigView { appid: self.appid@, secret: self.secret@ }
    }
}

impl View for WeChatLoginRequest {
    type V = Seq<char>;

    /// The code, as a sequence of characters.
    open spec fn view(&self) -> Seq<char> {
        self.wechat_code@
    }
}

impl View for WeChatLoginAPIResponse {
    type V = WeChatLoginAPIResponseView;

    open spec fn view(&self) -> WeChatLoginAPIResponseView {
        WeChatLoginAPIResponseView {
            session_key: self.session_key.deep_view(),
            unionid: self.unionid.deep_view(),
            errmsg: self.errmsg.deep_view(),
            openid: self.openid.deep_view(),
            errcode: self.errcode,
        }
    }
}

impl DeepView for WeChatLoginAPIResponse {
    type V = WeChatLoginAPIResponseView;

    open spec fn deep_view(&self) -> WeChatLoginAPIResponseView {
        self@
    }
}

/// The status that stands for an error code of the identity service.
pub open spec fn status_of_errcode(errcode: i32) -> Status {
    if errcode == -1 {
        Status::ServiceUnavailable
    } else if errcode == 40029 {
        Status::BadRequest
    } else if errcode == 40226 {
        Status::Forbidden
    } else if errcode == 45011 {
        Status::TooManyRequests
    } else {
        Status::NotImplemented
    }
}

/// The parameters of the exchange of `request`'s code, by name and in the
/// order they are sent.
pub open spec fn exchange_params(config: WeChatConfigView, wechat_code: Seq<char>) -> Seq<
    (Seq<char>, Seq<char>),
> {
    seq![
        ("appid"@, config.appid),
        ("secret"@, config.secret),
        ("js_code"@, wechat_code),
        ("grant_type"@, "authorization_code"@),
    ]
}

impl WeChatLoginRequest {
    /// The query parameters that exchange the code at the identity service.
    pub fn exchange(&self, config: &WeChatConfig) -> (params: Vec<(String, String)>)
        ensures
            params.deep_view() == exchange_params(config@, self@),
    {
        let mut params: Vec<(String, String)> = Vec::new();
        params.push(("appid".to_owned(), config.appid.clone()));
        params.push(("secret".to_owned(), config.secret.clone()));
        params.push(("js_code".to_owned(), self.wechat_code.clone()));
        params.push(("grant_type".to_owned(), "authorization_code".to_owned()));
        assert(params.deep_view() =~= exchange_params(config@, self@));
        params
    }
}

/// Whether an HTTP status code reports success.
pub open spec fn is_success(http_status: u16) -> bool {
    200 <= http_status <= 299
}

/// What an exchange gave, as a login takes it: the answer that was read, and
/// nothing where the request was not answered (`http_status` is `None`) or
/// the status of the answer does not report success.
pub open spec fn accepted_answer(
    http_status: Option<u16>,
    answer: Option<WeChatLoginAPIResponseView>,
) -> Option<WeChatLoginAPIResponseView> {
    match http_status {
        Some(code) => if is_success(code) {
            answer
        } else {
            None
        },
        None => None,
    }
}

/// Decides what of an exchange a login takes.
pub fn accept_answer(
    http_status: Option<u16>,
    answer: Option<WeChatLoginAPIResponse>,
) -> (upstream: Option<WeChatLoginAPIResponse>)
    ensures
        upstream.deep_view() == accepted_answer(http_status, answer.deep_view()),
{
    match http_status {
        Some(code) => if 200 <= code && code <= 299 {
            answer
        } else {
            None
        },
        None => None,
    }
}

/// What an exchange with the identity service means for a login: the external
/// identity and its session key, or the status the login fails with. `None`
/// stands for an exchange that failed or whose answer could not be read. An
/// answer with a non-zero error code fails with the status of that code; an
/// answer without an error, or with the error code zero, must carry both the
/// external identity and the session key.
pub open spec fn identity_of(upstream: Option<WeChatLoginAPIResponseView>) -> Result<
    (Seq<char>, Seq<char>),
    Status,
> {
    match upstream {
        None => Err(Status::BadGateway),
        Some(answer) => if answer.errcode is Some && answer.errcode->0 != 0 {
            Err(status_of_errcode(answer.errcode->0))
        } else if answer.openid is Some && answer.session_key is Some {
            Ok((answer.openid->0, answer.session_key->0))
        } else {
            Err(Status::BadGateway)
        },
    }
}

/// An identity read, with its texts as sequences of characters.
pub open spec fn identity_view(read: Result<(String, String), Status>) -> Result<
    (Seq<char>, Seq<char>),
    Status,
> {
    match read {
        Ok((openid, session_key)) => Ok((openid@, session_key@)),
        Err(status) => Err(status),
    }
}

/// Reads the external identity and its session key out of an exchange with the
/// identity service.
pub fn identity(upstream: &Option<WeChatLoginAPIResponse>) -> (read: Result<
    (String, String),
    Status,
>)
    ensures
        identity_view(read) == identity_of(upstream.deep_view()),
{
    match upstream {
        None => Err(Status::BadGateway),
        Some(answer) => {
            match answer.errcode {
                Some(code) => {
                    if code != 0 {
                        return Err(errcode_status(code));
                    }
                },
                None => {},
            }
            match (&answer.openid, &answer.session_key) {
                (Some(openid), Some(session_key)) => Ok((openid.clone(), session_key.clone())),
                _ => Err(Status::BadGateway),
            }
        },
    }
}

/// Maps an error code of the identity service to the status the client sees.
pub fn errcode_status(errcode: i32) -> (status: Status)
    ensures
        status == status_of_errcode(errcode),
{
    if errcode == -1 {
        Status::ServiceUnavailable
    } else if errcode == 40029 {
        Status::BadRequest
    } else if errcode == 40226 {
        Status::Forbidden
    } else if errcode == 45011 {
        Status::TooManyRequests
    } else {
        Status::NotImplemented
    }
}

impl Clone for WeChatLoginAPIResponse {
    fn clone(&self) -> (copy: Self)
        ensures
            copy@ == self@,
    {
        WeChatLoginAPIResponse {
            session_key: clone_text(&self.session_key),
            unionid: clone_text(&self.unionid),
            errmsg: clone_text(&self.errmsg),
            openid: clone_text(&self.openid),
            errcode: self.errcode,
        }
    }
}

/// Copies an optional text.
fn clone_text(text: &Option<String>) -> (copy: Option<String>)
    ensures
        copy.deep_view() == text.deep_view(),
{
    match text {
        Some(text) => Some(text.clone()),
        None => None,
    }
}

/// What the issue of a token gives, and the tables after it, for the external
/// identity `openid` with the session key `session_key`, at the time `now`,
/// with `fresh` as the token for a session that needs one.
///
/// The account of the identity is looked up, and created with the role
/// `Normal` where there is none. Its session is looked up, and created with the
/// token `fresh` where there is none; a session that exists is renewed. The
/// token of the session is given. A change that the tables do not admit is a
/// gateway failure; an account created before it stays.
pub open spec fn token_issue(
    tables: Tables,
    openid: Seq<char>,
    session_key: Seq<char>,
    now: Timestamp,
    fresh: u128,
) -> (Tables, Result<u128, Status>) {
    let (enrolled, account) = match tables.account_by_wechat_id(openid) {
        Some(account) => (tables, Some(account)),
        None => tables.insert_account(openid, UserRole::Normal),
    };
    match account {
        None => (enrolled, Err(Status::BadGateway)),
        Some(user) => {
            let (after, session) = match enrolled.session_by_user(user.id) {
                None => enrolled.insert_session(user.id, now, session_key, fresh),
                Some(session) => enrolled.replace_session(
                    renewed(session, session_key, now, fresh),
                ),
            };
            match session {
                Some(session) => (after, Ok(session.last_token)),
                None => (after, Err(Status::BadGateway)),
            }
        },
    }
}

/// What a login gives, and the tables after it: the token that the issue for
/// the identity of the exchange gives, or the status that the exchange fails
/// with.
pub open spec fn login(
    tables: Tables,
    upstream: Option<WeChatLoginAPIResponseView>,
    now: Timestamp,
    fresh: u128,
) -> (Tables, Result<WeChatLoginResponse, Status>) {
    match identity_of(upstream) {
        Err(status) => (tables, Err(status)),
        Ok((openid, session_key)) => match token_issue(tables, openid, session_key, now, fresh) {
            (after, Ok(token)) => (after, Ok(WeChatLoginResponse { token })),
            (after, Err(status)) => (after, Err(status)),
        },
    }
}

/// The response that stands for the outcome of a login.
pub open spec fn login_response(outcome: Result<WeChatLoginResponse, Status>) -> ResponseView {
    match outcome {
        Ok(token) => ResponseView::Token(token),
        Err(status) => ResponseView::Failed(status),
    }
}

/// The course of a login through its queries ends in what [`login`] says.
pub proof fn login_served(
    tables: Tables,
    upstream: Option<WeChatLoginAPIResponseView>,
    now: Timestamp,
    fresh: u128,
)
    ensures
        served(tables, RequestView::WechatLogin { upstream }, now, fresh) == (
            login(tables, upstream, now, fresh).0,
            login_response(login(tables, upstream, now, fresh).1),
        ),
{
    reveal_with_fuel(run, 5);
}

/// Logs in at the time `now`: `upstream` is what the exchange of the client's
/// code with the identity service gave, `fresh` the token for a session that
/// needs one.
pub fn wechat_login_service_at(
    db: &mut Store,
    upstream: Option<WeChatLoginAPIResponse>,
    now: Timestamp,
    fresh: u128,
) -> (logged_in: Result<WeChatLoginResponse, Status>)
    requires
        old(db).wf(),
    ensures
        final(db).wf(),
        (final(db)@, logged_in) == login(old(db)@, upstream.deep_view(), now, fresh),
{
    proof {
        login_served(db@, upstream.deep_view(), now, fresh);
    }
    let request = Request::WechatLogin { upstream };
    match serve(db, &request, now, fresh) {
        Response::Token(token) => Ok(token),
        Response::Failed(status) => Err(status),
        _ => Err(Status::BadGateway),
    }
}

/// Logs in at the time the system clock shows, with a token drawn at random
/// for a session that needs one. The outcome is that of a login at some time
/// with some token; a login whose exchange gave no identity fails with the
/// status of the exchange and leaves the tables as they are.
pub fn wechat_login_service(
    db: &mut Store,
    upstream: Option<WeChatLoginAPIResponse>,
) -> (logged_in: Result<WeChatLoginResponse, Status>)
    requires
        old(db).wf(),
    ensures
        final(db).wf(),
        exists|now: Timestamp, fresh: u128|
            (final(db)@, logged_in) == login(old(db)@, upstream.deep_view(), now, fresh),
        identity_of(upstream.deep_view()) matches Err(status) ==> logged_in == Err::<
            WeChatLoginResponse,
            Status,
        >(status) && final(db)@ == old(db)@,
{
    let now = Timestamp::now();
    let fresh = random_token();
    wechat_login_service_at(db, upstream, now, fresh)
}

/// Issues the token for the identity that `resp` carries, whatever error code
/// it has: an answer that lacks the external identity or the session key is a
/// gateway failure.
pub fn get_token(
    db: &mut Store,
    resp: &WeChatLoginAPIResponse,
    now: Timestamp,
    fresh: u128,
) -> (issued: Result<u128, Status>)
    requires
        old(db).wf(),
    ensures
        final(db).wf(),
        (final(db)@, issued) == (if resp.openid is Some && resp.session_key is Some {
            token_issue(old(db)@, resp.openid->0@, resp.session_key->0@, now, fresh)
        } else {
            (old(db)@, Err::<u128, Status>(Status::BadGateway))
        }),
{
    let upstream = Some(
        WeChatLoginAPIResponse {
            session_key: clone_text(&resp.session_key),
            unionid: None,
            errmsg: None,
            openid: clone_text(&resp.openid),
            errcode: None,
        },
    );
    match wechat_login_service_at(db, upstream, now, fresh) {
        Ok(response) => Ok(response.token),
        Err(status) => Err(status),
    }
}

/// Draws a token with `uuid::Uuid::new_v4`: 122 random bits under the version
/// and variant marks. Nothing is claimed of the value.
#[verifier::external_body]
fn random_token() -> u128 {
    uuid::Uuid::new_v4().as_u128()
}

} // verus!
