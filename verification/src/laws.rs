//! What holds of the service as a whole, over the tables and the outcomes of
//! its requests.

use vstd::prelude::*;
use crate::api::authenticated;
use crate::api::bearer_of;
use crate::api::credential_of;
use crate::api::user_info::addition;
use crate::api::user_info::change;
use crate::api::user_info::listing;
use crate::api::user_info::removal;
use crate::api::user_info::ModifyingUserInfoView;
use crate::api::user_info::UserInfoView;
use crate::api::user_info::UserInfoRequest;
use crate::api::uuid_of_text;
use crate::api::wechat_login::identity_of;
use crate::api::wechat_login::login;
use crate::api::wechat_login::token_issue;
use crate::api::wechat_login::WeChatLoginAPIResponseView;
use crate::api::wechat_login::WeChatLoginResponse;
use crate::api::BearerToken;
use crate::clock::is_stale;
use crate::clock::Timestamp;
use crate::entities::active_enums::UserRole;
use crate::entities::user_info as user_info_db;
use crate::protocol::QueryView;
use crate::protocol::ReplyView;
use crate::service::advance_spec;
use crate::service::begin_spec;
use crate::service::failed;
use crate::service::run;
use crate::service::run_wf;
use crate::service::served;
use crate::service::ActionView;
use crate::service::RequestView;
use crate::service::Stage;
use crate::status::Status;
use crate::store::tables::window;
use crate::store::tables::Tables;

verus! {

/// The first login of a new external identity succeeds exactly when the tables
/// have an identifier and a row number left and neither the token nor the
/// session key is in use. When it succeeds it stores exactly one account, with
/// the identity and the role `Normal`, and exactly one session, of that account
/// and with the token drawn for it, which is the token given; the profiles stay
/// as they are.
pub proof fn first_login_creates_one_account_and_one_session(
    tables: Tables,
    openid: Seq<char>,
    session_key: Seq<char>,
    now: Timestamp,
    fresh: u128,
)
    requires
        tables.wf(),
        tables.account_by_wechat_id(openid) is None,
    ensures
        ({
            let (after, issued) = token_issue(tables, openid, session_key, now, fresh);
            &&& issued is Ok <==> {
                &&& tables.next_id < u128::MAX
                &&& tables.next_row < i32::MAX
                &&& tables.session_by_token(fresh) is None
                &&& !tables.session_key_in_use(session_key)
            }
            &&& issued is Ok ==> {
                &&& issued == Ok::<u128, Status>(fresh)
                &&& after.accounts.len() == tables.accounts.len() + 1
                &&& after.accounts.drop_last() == tables.accounts
                &&& after.accounts.last().wechat_id == openid
                &&& after.accounts.last().user_role == UserRole::Normal
                &&& after.sessions.len() == tables.sessions.len() + 1
                &&& after.sessions.drop_last() == tables.sessions
                &&& after.sessions.last().user_id == after.accounts.last().id
                &&& after.sessions.last().last_token == fresh
                &&& after.sessions.last().last_login == now
                &&& after.sessions.last().last_session == session_key
                &&& after.profiles == tables.profiles
            }
        }),
{
    let (enrolled, account) = tables.insert_account(openid, UserRole::Normal);
    tables.insert_account_wf(openid, UserRole::Normal);
    if account is Some {
        let user = account->0;
        assert(user.id == tables.next_id);
        assert(enrolled.session_by_user(user.id) is None) by {
            if enrolled.session_by_user(user.id) is Some {
                let i = choose|i: int|
                    0 <= i < enrolled.sessions.len() && (#[trigger] enrolled.sessions[i]).user_id
                        == user.id;
                assert(tables.has_account(tables.sessions[i].user_id));
                let j = choose|j: int|
                    0 <= j < tables.accounts.len() && (#[trigger] tables.accounts[j]).id
                        == tables.sessions[i].user_id;
                assert(tables.accounts[j].id < tables.next_id);
            }
        }
        assert(enrolled.has_account(user.id)) by {
            assert(enrolled.accounts[tables.accounts.len() as int].id == user.id);
        }
        assert(enrolled.sessions == tables.sessions);
        let (after, session) = enrolled.insert_session(user.id, now, session_key, fresh);
        if session is Some {
            assert(after.accounts.drop_last() =~= tables.accounts);
            assert(after.sessions.drop_last() =~= tables.sessions);
        }
    }
}

/// A login of an external identity that has an account stores no account and
/// no profile, and keeps the number of sessions unless the account had none.
/// When it succeeds, the token given is the token of the session of that
/// account.
pub proof fn login_of_known_identity_reuses_account(
    tables: Tables,
    openid: Seq<char>,
    session_key: Seq<char>,
    now: Timestamp,
    fresh: u128,
)
    requires
        tables.wf(),
        tables.account_by_wechat_id(openid) is Some,
    ensures
        ({
            let (after, issued) = token_issue(tables, openid, session_key, now, fresh);
            let account = tables.account_by_wechat_id(openid)->0;
            &&& after.wf()
            &&& after.accounts == tables.accounts
            &&& after.profiles == tables.profiles
            &&& after.account_by_wechat_id(openid) == Some(account)
            &&& tables.session_by_user(account.id) is Some ==> after.sessions.len()
                == tables.sessions.len()
            &&& issued matches Ok(token) ==> {
                &&& after.session_by_user(account.id) is Some
                &&& after.session_by_user(account.id)->0.last_token == token
                &&& after.session_by_token(token) == after.session_by_user(account.id)
            }
        }),
{
    let account = tables.account_by_wechat_id(openid)->0;
    let (after, issued) = token_issue(tables, openid, session_key, now, fresh);
    match tables.session_by_user(account.id) {
        None => {
            tables.insert_session_wf(account.id, now, session_key, fresh);
            if issued is Ok {
                let at = tables.sessions.len() as int;
                assert(after.sessions[at].user_id == account.id);
                after.session_by_user_is(at);
                after.session_by_token_is(at);
            }
        },
        Some(session) => {
            let row = crate::service::renewed(session, session_key, now, fresh);
            tables.replace_session_wf(row);
            if issued is Ok {
                let at = tables.session_position(row.id)->0;
                assert(0 <= at < tables.sessions.len() && tables.sessions[at].id == row.id);
                assert(after.sessions[at] == row);
                after.session_by_user_is(at);
                after.session_by_token_is(at);
            }
        },
    }
}

/// After a login that succeeded, a second login of the same external identity
/// stores no account and no session: it works on the account and the session
/// of the first.
pub proof fn second_login_reuses_account(
    tables: Tables,
    openid: Seq<char>,
    first_key: Seq<char>,
    first_now: Timestamp,
    first_fresh: u128,
    second_key: Seq<char>,
    second_now: Timestamp,
    second_fresh: u128,
)
    requires
        tables.wf(),
        token_issue(tables, openid, first_key, first_now, first_fresh).1 is Ok,
    ensures
        ({
            let between = token_issue(tables, openid, first_key, first_now, first_fresh).0;
            let (after, issued) = token_issue(
                between,
                openid,
                second_key,
                second_now,
                second_fresh,
            );
            &&& between.account_by_wechat_id(openid) is Some
            &&& after.accounts == between.accounts
            &&& after.sessions.len() == between.sessions.len()
            &&& after.account_by_wechat_id(openid) == between.account_by_wechat_id(openid)
            &&& issued matches Ok(token) ==> after.session_by_token(token) is Some
                && after.session_by_token(token)->0.user_id == between.account_by_wechat_id(
                openid,
            )->0.id
        }),
{
    let between = token_issue(tables, openid, first_key, first_now, first_fresh).0;
    login_outcome_is_stored(tables, openid, first_key, first_now, first_fresh);
    login_of_known_identity_reuses_account(between, openid, second_key, second_now, second_fresh);
    let account = between.account_by_wechat_id(openid)->0;
    let (after, issued) = token_issue(between, openid, second_key, second_now, second_fresh);
    if issued is Ok {
        let token = issued->Ok_0;
        let i = choose|i: int|
            0 <= i < after.sessions.len() && (#[trigger] after.sessions[i]).user_id == account.id;
        assert(after.sessions[i].user_id == account.id);
    }
}

/// After a login that succeeded, the tables meet their constraints and hold
/// the account of the external identity together with its session.
pub proof fn login_outcome_is_stored(
    tables: Tables,
    openid: Seq<char>,
    session_key: Seq<char>,
    now: Timestamp,
    fresh: u128,
)
    requires
        tables.wf(),
        token_issue(tables, openid, session_key, now, fresh).1 is Ok,
    ensures
        ({
            let (after, issued) = token_issue(tables, openid, session_key, now, fresh);
            &&& after.wf()
            &&& after.account_by_wechat_id(openid) is Some
            &&& after.session_by_user(after.account_by_wechat_id(openid)->0.id) is Some
            &&& after.session_by_token(issued->Ok_0) == after.session_by_user(
                after.account_by_wechat_id(openid)->0.id,
            )
        }),
{
    if tables.account_by_wechat_id(openid) is Some {
        login_of_known_identity_reuses_account(tables, openid, session_key, now, fresh);
    } else {
        first_login_creates_one_account_and_one_session(tables, openid, session_key, now, fresh);
        let (enrolled, account) = tables.insert_account(openid, UserRole::Normal);
        tables.insert_account_wf(openid, UserRole::Normal);
        let user = account->0;
        enrolled.insert_session_wf(user.id, now, session_key, fresh);
        let (after, issued) = token_issue(tables, openid, session_key, now, fresh);
        let a = tables.accounts.len() as int;
        assert(after.accounts[a] == user);
        after.account_by_wechat_id_is(a);
        let s = tables.sessions.len() as int;
        assert(after.sessions[s].user_id == user.id);
        after.session_by_user_is(s);
        after.session_by_token_is(s);
    }
}

/// A request without an authorization header, with a header of another
/// scheme, or with a token that does not parse is unauthenticated; any other
/// carries the token that its header spells.
pub proof fn header_without_token_is_unauthenticated(header: Option<Seq<char>>)
    ensures
        header is None ==> bearer_of(header) == Err::<BearerToken, Status>(Status::Unauthorized),
        header is Some && credential_of(header->0) is None ==> bearer_of(header) == Err::<
            BearerToken,
            Status,
        >(Status::Unauthorized),
        header is Some && credential_of(header->0) is Some && uuid_of_text(
            credential_of(header->0)->0,
        ) is None ==> bearer_of(header) == Err::<BearerToken, Status>(Status::Unauthorized),
        bearer_of(header) matches Ok(credential) ==> header is Some && credential_of(header->0)
            is Some && uuid_of_text(credential_of(header->0)->0) == Some(credential.token),
        bearer_of(header) matches Err(status) ==> status == Status::Unauthorized,
{
}

/// A bearer token resolves to exactly one account, or is unauthenticated.
///
/// It resolves exactly when a session has the token and that session is not
/// stale. Then every session with the token is that session, and every account
/// that the session names is the account given. In every other case the
/// outcome is `Unauthorized`.
pub proof fn token_resolves_to_one_account(tables: Tables, token: u128, now: Timestamp)
    requires
        tables.wf(),
    ensures
        match authenticated(tables, token, now) {
            Ok(account) => {
                &&& tables.session_by_token(token) is Some
                &&& !is_stale(tables.session_by_token(token)->0.last_login, now)
                &&& account.id == tables.session_by_token(token)->0.user_id
                &&& tables.accounts.contains(account)
                &&& forall|k: int|
                    0 <= k < tables.sessions.len() && (#[trigger] tables.sessions[k]).last_token
                        == token ==> tables.sessions[k] == tables.session_by_token(token)->0
                &&& forall|k: int|
                    0 <= k < tables.accounts.len() && (#[trigger] tables.accounts[k]).id
                        == account.id ==> tables.accounts[k] == account
            },
            Err(status) => {
                &&& status == Status::Unauthorized
                &&& forall|k: int|
                    0 <= k < tables.sessions.len() && (#[trigger] tables.sessions[k]).last_token
                        == token ==> is_stale(tables.sessions[k].last_login, now)
            },
        },
{
    assert forall|k: int|
        0 <= k < tables.sessions.len() && (#[trigger] tables.sessions[k]).last_token
            == token implies tables.session_by_token(token) == Some(tables.sessions[k]) by {
        tables.session_by_token_is(k);
    }
    if tables.session_by_token(token) is Some {
        let session = tables.session_by_token(token)->0;
        assert forall|k: int|
            0 <= k < tables.accounts.len() && (#[trigger] tables.accounts[k]).id
                == session.user_id implies tables.account_by_id(session.user_id) == Some(
            tables.accounts[k],
        ) by {
            tables.account_by_id_is(k);
        }
        let s = choose|i: int|
            0 <= i < tables.sessions.len() && (#[trigger] tables.sessions[i]).last_token == token;
        assert(tables.has_account(tables.sessions[s].user_id));
        let a = choose|i: int|
            0 <= i < tables.accounts.len() && (#[trigger] tables.accounts[i]).id == session.user_id;
        assert(tables.accounts[a].id == session.user_id);
    }
}

/// What stands between an account and the profile of another: a change or a
/// removal that names a profile which the authenticated account did not
/// create is not found and leaves the tables as they are, whether the profile
/// exists or not; and a listing holds profiles of the authenticated account
/// only.
pub proof fn foreign_profile_is_not_found(
    tables: Tables,
    token: BearerToken,
    id: u128,
    user_info: ModifyingUserInfoView,
    query: UserInfoRequest,
    now: Timestamp,
)
    requires
        tables.wf(),
        authenticated(tables, token.token, now) is Ok,
        user_info.id == id,
        forall|i: int|
            0 <= i < tables.profiles.len() && (#[trigger] tables.profiles[i]).id == id
                ==> tables.profiles[i].creator != authenticated(tables, token.token, now)->Ok_0.id,
    ensures
        change(tables, token, user_info, now) == (tables, Err::<Status, Status>(Status::NotFound)),
        removal(tables, token, id, now) == (tables, Err::<Status, Status>(Status::NotFound)),
        listing(tables, token, query, now) is Ok,
        forall|k: int|
            0 <= k < listing(tables, token, query, now)->Ok_0.len() ==> {
                &&& (#[trigger] listing(tables, token, query, now)->Ok_0[k]).creator
                    == authenticated(tables, token.token, now)->Ok_0.id
                &&& listing(tables, token, query, now)->Ok_0[k].id != Some(id)
            },
{
    let user = authenticated(tables, token.token, now)->Ok_0;
    let listed = listing(tables, token, query, now)->Ok_0;
    assert forall|k: int| 0 <= k < listed.len() implies (#[trigger] listed[k]).creator == user.id
        && listed[k].id != Some(id) by {
        listed_profile_is_owned(tables, user.id, query, k);
        let row = window(tables.profiles_of(user.id), query.start, query.count)[k];
        let i = choose|i: int| 0 <= i < tables.profiles.len() && tables.profiles[i] == row;
        assert(tables.profiles[i].creator == user.id);
    }
}

/// Each profile of a listing for `creator` is a stored profile of `creator`.
pub proof fn listed_profile_is_owned(tables: Tables, creator: u128, query: UserInfoRequest, k: int)
    requires
        0 <= k < window(tables.profiles_of(creator), query.start, query.count).len(),
    ensures
        ({
            let row = window(tables.profiles_of(creator), query.start, query.count)[k];
            &&& row.creator == creator
            &&& tables.profiles.contains(row)
            &&& UserInfoView::of_all(window(tables.profiles_of(creator), query.start, query.count))[k]
                == UserInfoView::of(row)
        }),
{
    let owned_by = |p: user_info_db::ModelView| p.creator == creator;
    let owned = tables.profiles.filter(owned_by);
    let shown = window(owned, query.start, query.count);
    let from = if query.start <= owned.len() {
        query.start as int
    } else {
        owned.len() as int
    };
    assert(shown[k] == owned[from + k]);
    tables.profiles.lemma_filter_pred(owned_by, from + k);
    assert(owned.contains(owned[from + k]));
    tables.profiles.lemma_filter_contains_rev(owned_by, owned[from + k]);
}

/// A profile created under one authentication is out of reach under another:
/// once the account behind `own` has created a profile, a change or a removal
/// of that profile under the token `other` of another account is not found
/// and leaves the tables as they are, and a listing under `other` does not
/// hold the profile.
pub proof fn profile_of_one_account_is_hidden_from_another(
    tables: Tables,
    own: BearerToken,
    other: BearerToken,
    user_info: UserInfoView,
    change_sent: ModifyingUserInfoView,
    query: UserInfoRequest,
    now: Timestamp,
    later: Timestamp,
)
    requires
        tables.wf(),
        addition(tables, own, user_info, now).1 is Ok,
        authenticated(tables, other.token, later) is Ok,
        authenticated(tables, other.token, later)->Ok_0.id != authenticated(
            tables,
            own.token,
            now,
        )->Ok_0.id,
        addition(tables, own, user_info, now).1->Ok_0.id == Some(change_sent.id),
    ensures
        ({
            let (after, added) = addition(tables, own, user_info, now);
            &&& after.wf()
            &&& change(after, other, change_sent, later) == (
                after,
                Err::<Status, Status>(Status::NotFound),
            )
            &&& removal(after, other, change_sent.id, later) == (
                after,
                Err::<Status, Status>(Status::NotFound),
            )
            &&& listing(after, other, query, later) is Ok
            &&& forall|k: int|
                0 <= k < listing(after, other, query, later)->Ok_0.len() ==> (
                #[trigger] listing(after, other, query, later)->Ok_0[k]).id != Some(change_sent.id)
        }),
{
    let owner = authenticated(tables, own.token, now)->Ok_0;
    let (after, added) = addition(tables, own, user_info, now);
    tables.insert_profile_wf(
        owner.id,
        user_info.id_no,
        user_info.name,
        user_info.phone,
        user_info.address,
        user_info.image,
    );
    assert(after.accounts == tables.accounts);
    assert(after.sessions == tables.sessions);
    assert(authenticated(after, other.token, later) == authenticated(tables, other.token, later));
    let id = change_sent.id;
    let last = tables.profiles.len() as int;
    assert(after.profiles[last].id == id && after.profiles[last].creator == owner.id);
    assert forall|i: int| 0 <= i < after.profiles.len() && (#[trigger] after.profiles[i]).id
        == id implies after.profiles[i].creator != authenticated(
        after,
        other.token,
        later,
    )->Ok_0.id by {
        if i != last {
            assert(after.profiles[i].id != after.profiles[last].id);
        }
    }
    foreign_profile_is_not_found(after, other, id, change_sent, query, later);
}

/// A change touches the fields it carries and nothing else. When it succeeds,
/// one stored profile is replaced: the one it names, which the authenticated
/// account created. Of that profile, each of the phone, the address and the
/// image is the one that the change carries, or the stored one where the
/// change carries none; the identifier, the creator, the identity-document
/// number and the name stay. Every other profile, every account and every
/// session stays as it is.
pub proof fn change_touches_supplied_fields_only(
    tables: Tables,
    token: BearerToken,
    user_info: ModifyingUserInfoView,
    now: Timestamp,
)
    requires
        tables.wf(),
        change(tables, token, user_info, now).1 is Ok,
    ensures
        ({
            let after = change(tables, token, user_info, now).0;
            &&& after.wf()
            &&& after.accounts == tables.accounts
            &&& after.sessions == tables.sessions
            &&& after.profiles.len() == tables.profiles.len()
            &&& exists|at: int|
                {
                    &&& 0 <= at < tables.profiles.len()
                    &&& (#[trigger] tables.profiles[at]).id == user_info.id
                    &&& tables.profiles[at].creator == authenticated(
                        tables,
                        token.token,
                        now,
                    )->Ok_0.id
                    &&& after.profiles == tables.profiles.update(
                        at,
                        user_info.applied(tables.profiles[at]),
                    )
                    &&& after.profiles[at].id == tables.profiles[at].id
                    &&& after.profiles[at].creator == tables.profiles[at].creator
                    &&& after.profiles[at].id_no == tables.profiles[at].id_no
                    &&& after.profiles[at].name == tables.profiles[at].name
                    &&& after.profiles[at].phone == (if user_info.phone is Some {
                        user_info.phone->0
                    } else {
                        tables.profiles[at].phone
                    })
                    &&& after.profiles[at].address == (if user_info.address is Some {
                        user_info.address->0
                    } else {
                        tables.profiles[at].address
                    })
                    &&& after.profiles[at].image == (if user_info.image is Some {
                        user_info.image
                    } else {
                        tables.profiles[at].image
                    })
                    &&& forall|k: int|
                        0 <= k < tables.profiles.len() && k != at ==> after.profiles[k]
                            == tables.profiles[k]
                }
        }),
{
    let user = authenticated(tables, token.token, now)->Ok_0;
    let at = tables.profile_position(user_info.id, user.id)->0;
    assert(0 <= at < tables.profiles.len() && tables.profiles[at].id == user_info.id
        && tables.profiles[at].creator == user.id);
    let row = user_info.applied(tables.profiles[at]);
    tables.profile_row_is(at);
    tables.replace_profile_wf(row);
    let after = change(tables, token, user_info, now).0;
    assert(after.profiles == tables.profiles.update(at, row));
    assert(after.profiles[at] == row);
}

/// A change of a profile that the authenticated account created succeeds: the
/// tables in memory always admit it.
pub proof fn change_of_own_profile_succeeds(
    tables: Tables,
    token: BearerToken,
    user_info: ModifyingUserInfoView,
    now: Timestamp,
)
    requires
        tables.wf(),
        authenticated(tables, token.token, now) is Ok,
        tables.profile_owned(user_info.id, authenticated(tables, token.token, now)->Ok_0.id)
            is Some,
    ensures
        change(tables, token, user_info, now).1 == Ok::<Status, Status>(Status::Success),
{
    let user = authenticated(tables, token.token, now)->Ok_0;
    let at = tables.profile_position(user_info.id, user.id)->0;
    assert(0 <= at < tables.profiles.len() && tables.profiles[at].id == user_info.id
        && tables.profiles[at].creator == user.id);
    tables.profile_row_is(at);
    assert(tables.has_account(tables.profiles[at].creator));
}

/// A login whose exchange carries a non-zero error code fails with the status
/// of that code and leaves the tables as they are; a login whose exchange
/// carries no error code, or the error code zero, together with an identity
/// and a session key, gives a token whenever the tables admit its changes.
pub proof fn login_follows_errcode(
    tables: Tables,
    answer: WeChatLoginAPIResponseView,
    now: Timestamp,
    fresh: u128,
)
    ensures
        answer.errcode is Some && answer.errcode->0 != 0 ==> login(
            tables,
            Some(answer),
            now,
            fresh,
        ) == (
            tables,
            Err::<WeChatLoginResponse, Status>(
                crate::api::wechat_login::status_of_errcode(answer.errcode->0),
            ),
        ),
        (answer.errcode is None || answer.errcode == Some(0i32)) && answer.openid is Some
            && answer.session_key is Some ==> {
            let issued = token_issue(tables, answer.openid->0, answer.session_key->0, now, fresh);
            match issued.1 {
                Ok(token) => login(tables, Some(answer), now, fresh) == (
                    issued.0,
                    Ok::<WeChatLoginResponse, Status>(WeChatLoginResponse { token }),
                ),
                Err(_) => login(tables, Some(answer), now, fresh) == (
                    issued.0,
                    Err::<WeChatLoginResponse, Status>(Status::BadGateway),
                ),
            }
        },
        crate::api::wechat_login::status_of_errcode(45011) == Status::TooManyRequests,
{
}

/// Whatever is asked of the service, the tables meet the constraints of the
/// schema afterwards: an account has at most one session, a token and a
/// session key stand for one session, and every session and every profile
/// belongs to an account that exists.
pub proof fn every_request_keeps_the_constraints(
    tables: Tables,
    request: RequestView,
    now: Timestamp,
    fresh: u128,
)
    requires
        tables.wf(),
    ensures
        ({
            let after = served(tables, request, now, fresh).0;
            &&& after.wf()
            &&& forall|i: int, j: int|
                0 <= i < j < after.sessions.len() ==> {
                    &&& (#[trigger] after.sessions[i]).user_id != (
                    #[trigger] after.sessions[j]).user_id
                    &&& after.sessions[i].last_token != after.sessions[j].last_token
                }
            &&& forall|i: int|
                0 <= i < after.sessions.len() ==> after.has_account(
                    (#[trigger] after.sessions[i]).user_id,
                )
            &&& forall|i: int|
                0 <= i < after.profiles.len() ==> after.has_account(
                    (#[trigger] after.profiles[i]).creator,
                )
        }),
{
    let (stage, action) = begin_spec(request);
    run_wf(tables, request, stage, action, now, fresh, crate::service::QUERY_BUDGET as nat);
}

/// No query takes an account away or changes one: the accounts before it are
/// the first accounts after it.
pub proof fn answer_keeps_accounts(tables: Tables, query: QueryView)
    ensures
        tables.accounts.is_prefix_of(tables.answer(query).0.accounts),
{
    let after = tables.answer(query).0;
    assert(tables.accounts.is_prefix_of(after.accounts));
}

/// The course of a request from any stage on keeps the accounts that exist.
pub proof fn run_keeps_accounts(
    tables: Tables,
    request: RequestView,
    stage: Stage,
    action: ActionView,
    now: Timestamp,
    fresh: u128,
    budget: nat,
)
    ensures
        tables.accounts.is_prefix_of(
            run(tables, request, stage, action, now, fresh, budget).0.accounts,
        ),
    decreases budget,
{
    if let ActionView::Ask(query) = action {
        if budget != 0 {
            answer_keeps_accounts(tables, query);
            let (after, reply) = tables.answer(query);
            let (next, action) = advance_spec(request, stage, reply, now, fresh);
            run_keeps_accounts(after, request, next, action, now, fresh, (budget - 1) as nat);
        }
    }
}

/// An account, once created, stays as it is: whatever is asked of the service,
/// the accounts before the request are the first accounts after it, each with
/// its identifier, its external identity and its role.
pub proof fn accounts_are_never_changed(
    tables: Tables,
    request: RequestView,
    now: Timestamp,
    fresh: u128,
)
    ensures
        tables.accounts.is_prefix_of(served(tables, request, now, fresh).0.accounts),
        forall|i: int|
            0 <= i < tables.accounts.len() ==> served(tables, request, now, fresh).0.accounts[i]
                == #[trigger] tables.accounts[i],
{
    let (stage, action) = begin_spec(request);
    run_keeps_accounts(
        tables,
        request,
        stage,
        action,
        now,
        fresh,
        crate::service::QUERY_BUDGET as nat,
    );
}

/// A request fails closed. When the database fails or refuses a query, a
/// request on profiles ends at once as an internal error and a login as a
/// gateway failure, at whatever stage the request stands.
pub proof fn database_failure_ends_the_request(
    request: RequestView,
    stage: Stage,
    now: Timestamp,
    fresh: u128,
)
    ensures
        advance_spec(request, stage, ReplyView::Failed, now, fresh) == failed(
            if request is WechatLogin {
                Status::BadGateway
            } else {
                Status::InternalServerError
            },
        ),
{
}

} // verus!
