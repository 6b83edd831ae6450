//! The endpoints of the service and the check every endpoint but the login
//! starts with.

pub mod user_info;
pub mod wechat_login;

use vstd::prelude::*;
use vstd::string::StrSliceExecFns;
use crate::clock::is_stale;
use crate::clock::stale;
use crate::clock::Timestamp;
use crate::entities::app_user;
use crate::entities::we_chat_session;
use crate::status::Status;
use crate::store::memory::Store;
use crate::store::tables::Tables;

verus! {

/// The credential of a request: the opaque token of a session.
#[derive(Clone, Copy, Debug, PartialEq, Eq, Structural)]
pub struct BearerToken {
    pub token: u128,
}

/// The token that `uuid::Uuid::parse_str` reads from `text`, as the 128-bit
/// number `uuid::Uuid::as_u128` gives for it; `None` where the parser rejects
/// the text.
pub uninterp spec fn uuid_of_text(text: Seq<char>) -> Option<u128>;

/// The scheme that an authorization header starts with, its separating space
/// included.
pub open spec fn bearer_scheme() -> Seq<char> {
    seq!['B', 'e', 'a', 'r', 'e', 'r', ' ']
}

/// What follows the scheme in an authorization header; `None` where the
/// header does not start with the scheme.
pub open spec fn credential_of(header: Seq<char>) -> Option<Seq<char>> {
    if header.len() >= 7 && header.subrange(0, 7) == bearer_scheme() {
        Some(header.subrange(7, header.len() as int))
    } else {
        None
    }
}

/// The credential that a parsed token makes: a token, or no authentication.
pub open spec fn bearer_of_parsed(parsed: Option<u128>) -> Result<BearerToken, Status> {
    match parsed {
        Some(token) => Ok(BearerToken { token }),
        None => Err(Status::Unauthorized),
    }
}

/// The credential that an authorization header carries. A request without the
/// header, a header of another scheme, and a header whose token does not parse
/// are all unauthenticated.
pub open spec fn bearer_of(header: Option<Seq<char>>) -> Result<BearerToken, Status> {
    match header {
        None => Err(Status::Unauthorized),
        Some(header) => match credential_of(header) {
            None => Err(Status::Unauthorized),
            Some(text) => bearer_of_parsed(uuid_of_text(text)),
        },
    }
}

/// An outcome, with what it holds seen as its view.
pub open spec fn outcome_view<T: View>(outcome: Result<T, Status>) -> Result<T::V, Status> {
    match outcome {
        Ok(value) => Ok(value@),
        Err(status) => Err(status),
    }
}

/// What a session lookup means for the request at the time `now`: the session,
/// or no authentication where no session has the token or the session is
/// stale.
pub open spec fn session_check(
    found: Option<we_chat_session::ModelView>,
    now: Timestamp,
) -> Result<we_chat_session::ModelView, Status> {
    match found {
        None => Err(Status::Unauthorized),
        Some(session) => if is_stale(session.last_login, now) {
            Err(Status::Unauthorized)
        } else {
            Ok(session)
        },
    }
}

/// The account that a bearer token resolves to at the time `now`.
pub open spec fn authenticated(tables: Tables, token: u128, now: Timestamp) -> Result<
    app_user::ModelView,
    Status,
> {
    match session_check(tables.session_by_token(token), now) {
        Err(status) => Err(status),
        Ok(session) => match tables.account_by_id(session.user_id) {
            Some(account) => Ok(account),
            None => Err(Status::Unauthorized),
        },
    }
}

impl BearerToken {
    /// Reads the credential from the value of the authorization header, if the
    /// request has one.
    pub fn from_header(header: Option<&str>) -> (credential: Result<BearerToken, Status>)
        ensures
            credential == bearer_of(
                match header {
                    Some(header) => Some(header@),
                    None => None,
                },
            ),
    {
        match header {
            None => Err(Status::Unauthorized),
            Some(header) => match strip_scheme(header) {
                None => Err(Status::Unauthorized),
                Some(text) => BearerToken::from_parsed(parse_uuid(text)),
            },
        }
    }

    /// Makes the credential out of a parsed token.
    pub fn from_parsed(parsed: Option<u128>) -> (credential: Result<BearerToken, Status>)
        ensures
            credential == bearer_of_parsed(parsed),
    {
        match parsed {
            Some(token) => Ok(BearerToken { token }),
            None => Err(Status::Unauthorized),
        }
    }
}

/// Cuts the scheme off the front of an authorization header.
fn strip_scheme(header: &str) -> (rest: Option<&str>)
    ensures
        match rest {
            Some(rest) => credential_of(header@) == Some(rest@),
            None => credential_of(header@) is None,
        },
{
    let length: usize = header.unicode_len();
    if length < 7 {
        return None;
    }
    if header.get_char(0) == 'B' && header.get_char(1) == 'e' && header.get_char(2) == 'a'
        && header.get_char(3) == 'r' && header.get_char(4) == 'e' && header.get_char(5) == 'r'
        && header.get_char(6) == ' ' {
        assert(header@.subrange(0, 7) =~= bearer_scheme());
        Some(header.substring_char(7, length))
    } else {
        assert(header@.subrange(0, 7) != bearer_scheme()) by {
            if header@.subrange(0, 7) == bearer_scheme() {
                assert(forall|i: int| 0 <= i < 7 ==> header@.subrange(0, 7)[i] == header@[i]);
                assert(bearer_scheme()[0] == 'B');
                assert(bearer_scheme()[1] == 'e');
                assert(bearer_scheme()[2] == 'a');
                assert(bearer_scheme()[3] == 'r');
                assert(bearer_scheme()[4] == 'e');
                assert(bearer_scheme()[5] == 'r');
                assert(bearer_scheme()[6] == ' ');
            }
        }
        None
    }
}

/// Parses a token with `uuid::Uuid::parse_str` and gives it as the number
/// `uuid::Uuid::as_u128` makes of it. The parser reads the bytes of its
/// argument and nothing else, so the result is the named function of the text.
#[verifier::external_body]
fn parse_uuid(text: &str) -> (parsed: Option<u128>)
    ensures
        parsed == uuid_of_text(text@),
{
    match uuid::Uuid::parse_str(text) {
        Ok(token) => Some(token.as_u128()),
        Err(_) => None,
    }
}

/// Decides what a session lookup means for the request at the time `now`.
pub fn check_session(
    found: Option<we_chat_session::Model>,
    now: Timestamp,
) -> (checked: Result<we_chat_session::Model, Status>)
    ensures
        outcome_view(checked) == session_check(found.deep_view(), now),
{
    match found {
        None => Err(Status::Unauthorized),
        Some(session) => if stale(session.last_login, now) {
            Err(Status::Unauthorized)
        } else {
            Ok(session)
        },
    }
}

/// Resolves a token to its session at the time `now`.
pub fn validate_token_at(
    db: &Store,
    token: &u128,
    now: Timestamp,
) -> (checked: Result<we_chat_session::Model, Status>)
    requires
        db.wf(),
    ensures
        outcome_view(checked) == session_check(db@.session_by_token(*token), now),
{
    check_session(db.find_session_by_token(*token), now)
}

/// Resolves a token to its account at the time `now`: the account of the
/// session that has the token, provided the session is not stale.
pub fn authenticate(db: &Store, token: BearerToken, now: Timestamp) -> (resolved: Result<
    app_user::Model,
    Status,
>)
    requires
        db.wf(),
    ensures
        outcome_view(resolved) == authenticated(db@, token.token, now),
{
    match validate_token_at(db, &token.token, now) {
        Err(status) => Err(status),
        Ok(session) => match db.find_account_by_id(session.user_id) {
            Some(account) => Ok(account),
            None => Err(Status::Unauthorized),
        },
    }
}

/// Resolves a token to its session at the time the system clock shows. A
/// token that no session has is unauthenticated whatever the clock shows; a
/// session that comes back is the one with the token.
pub fn validate_token(db: &Store, token: &u128) -> (checked: Result<we_chat_session::Model, Status>)
    requires
        db.wf(),
    ensures
        exists|now: Timestamp|
            outcome_view(checked) == session_check(db@.session_by_token(*token), now),
        db@.session_by_token(*token) is None ==> checked == Err::<we_chat_session::Model, Status>(
            Status::Unauthorized,
        ),
        checked matches Ok(session) ==> db@.session_by_token(*token) == Some(session@),
        checked matches Err(status) ==> status == Status::Unauthorized,
{
    let now = Timestamp::now();
    validate_token_at(db, token, now)
}

} // verus!
