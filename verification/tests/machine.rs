use wechat_backend::api::user_info::ModifyingUserInfo;
use wechat_backend::api::user_info::UserInfo;
use wechat_backend::api::user_info::UserInfoRequest;
use wechat_backend::api::wechat_login::WeChatLoginAPIResponse;
use wechat_backend::api::BearerToken;
use wechat_backend::clock::Timestamp;
use wechat_backend::entities::active_enums::UserRole;
use wechat_backend::entities::app_user;
use wechat_backend::entities::user_info;
use wechat_backend::entities::we_chat_session;
use wechat_backend::protocol::Query;
use wechat_backend::protocol::Reply;
use wechat_backend::service::advance;
use wechat_backend::service::begin;
use wechat_backend::service::renew;
use wechat_backend::service::serve;
use wechat_backend::service::Action;
use wechat_backend::service::Request;
use wechat_backend::service::Response;
use wechat_backend::service::Stage;
use wechat_backend::status::Status;
use wechat_backend::store::memory::Store;

fn at(secs: i64) -> Timestamp {
    Timestamp { secs, nanos: 0 }
}

fn token() -> BearerToken {
    BearerToken { token: 0xa }
}

fn login_request() -> Request {
    Request::WechatLogin {
        upstream: Some(WeChatLoginAPIResponse {
            session_key: Some("key-1".to_string()),
            unionid: None,
            errmsg: None,
            openid: Some("openid-a".to_string()),
            errcode: None,
        }),
    }
}

fn account() -> app_user::Model {
    app_user::Model { id: 11, wechat_id: "openid-a".to_string(), user_role: UserRole::Normal }
}

fn session(last_login: Timestamp) -> we_chat_session::Model {
    we_chat_session::Model {
        id: 4,
        user_id: 11,
        last_login,
        last_session: "key-0".to_string(),
        last_token: 0xa,
    }
}

fn row() -> user_info::Model {
    user_info::Model {
        id: 21,
        creator: 11,
        id_no: "110101".to_string(),
        name: "Li".to_string(),
        phone: "138".to_string(),
        address: "1 Main Street".to_string(),
        image: Some(6),
    }
}

fn asked(step: (Stage, Action)) -> (Stage, Query) {
    match step {
        (stage, Action::Ask(query)) => (stage, query),
        (stage, Action::Respond(response)) => panic!("responded {:?} at {:?}", response, stage),
    }
}

fn responded(step: (Stage, Action)) -> Response {
    match step {
        (Stage::Finished, Action::Respond(response)) => response,
        (stage, action) => panic!("went on with {:?} at {:?}", action, stage),
    }
}

fn failure(step: (Stage, Action)) -> Status {
    match responded(step) {
        Response::Failed(status) => status,
        other => panic!("succeeded with {:?}", other),
    }
}

#[test]
fn every_profile_request_starts_with_the_session_of_its_token() {
    let requests = vec![
        Request::QueryUserInfo { token: token(), query: UserInfoRequest { start: 0, count: 2 } },
        Request::AddUserInfo { token: token(), user_info: UserInfo::from_model(row()) },
        Request::SetUserInfo {
            token: token(),
            user_info: ModifyingUserInfo { id: 21, phone: None, address: None, image: None },
        },
        Request::DeleteUserInfo { token: token(), user_info_id: 21 },
    ];
    for request in requests {
        let (stage, query) = asked(begin(&request));
        assert_eq!(stage, Stage::Session);
        assert!(matches!(query, Query::SessionByToken { token: 0xa }));
        let (stage, query) =
            asked(advance(&request, stage, Reply::Session(Some(session(at(0)))), at(10), 0));
        assert_eq!(stage, Stage::Account);
        assert!(matches!(query, Query::AccountById { id: 11 }));
    }
}

#[test]
fn listing_course() {
    let request =
        Request::QueryUserInfo { token: token(), query: UserInfoRequest { start: 3, count: 9 } };
    let (stage, query) =
        asked(advance(&request, Stage::Account, Reply::Account(Some(account())), at(10), 0));
    assert_eq!(stage, Stage::Listing);
    assert!(matches!(query, Query::ProfilesByCreator { creator: 11, offset: 3, limit: 9 }));
    match responded(advance(&request, stage, Reply::Profiles(vec![row()]), at(10), 0)) {
        Response::Profiles(infos) => assert_eq!(infos, vec![UserInfo::from_model(row())]),
        other => panic!("{:?}", other),
    }
}

#[test]
fn creation_course_sets_the_creator() {
    let sent = UserInfo { id: Some(5), creator: 99, ..UserInfo::from_model(row()) };
    let request = Request::AddUserInfo { token: token(), user_info: sent };
    let (stage, query) =
        asked(advance(&request, Stage::Account, Reply::Account(Some(account())), at(10), 0));
    assert_eq!(stage, Stage::Adding);
    match query {
        Query::InsertProfile { creator, id_no, name, phone, address, image } => {
            assert_eq!(creator, 11);
            assert_eq!(id_no, "110101");
            assert_eq!(name, "Li");
            assert_eq!(phone, "138");
            assert_eq!(address, "1 Main Street");
            assert_eq!(image, Some(6));
        }
        other => panic!("{:?}", other),
    }
    match responded(advance(&request, stage, Reply::Profile(Some(row())), at(10), 0)) {
        Response::Profile(info) => assert_eq!(info, UserInfo::from_model(row())),
        other => panic!("{:?}", other),
    }
}

#[test]
fn change_course_applies_the_supplied_fields() {
    let request = Request::SetUserInfo {
        token: token(),
        user_info: ModifyingUserInfo {
            id: 21,
            phone: Some("139".to_string()),
            address: None,
            image: None,
        },
    };
    let (stage, query) =
        asked(advance(&request, Stage::Account, Reply::Account(Some(account())), at(10), 0));
    assert_eq!(stage, Stage::Locating);
    assert!(matches!(query, Query::ProfileByIdAndCreator { id: 21, creator: 11 }));
    let (stage, query) = asked(advance(&request, stage, Reply::Profile(Some(row())), at(10), 0));
    assert_eq!(stage, Stage::Updating);
    match query {
        Query::UpdateProfile { row: changed } => {
            assert_eq!(changed, user_info::Model { phone: "139".to_string(), ..row() });
        }
        other => panic!("{:?}", other),
    }
    assert!(matches!(
        responded(advance(&request, stage, Reply::Profile(Some(row())), at(10), 0)),
        Response::Done
    ));
    assert_eq!(
        failure(advance(&request, Stage::Locating, Reply::Profile(None), at(10), 0)),
        Status::NotFound
    );
}

#[test]
fn removal_course() {
    let request = Request::DeleteUserInfo { token: token(), user_info_id: 21 };
    let (stage, query) =
        asked(advance(&request, Stage::Account, Reply::Account(Some(account())), at(10), 0));
    assert_eq!(stage, Stage::Deleting);
    assert!(matches!(query, Query::DeleteProfile { id: 21, creator: 11 }));
    assert!(matches!(
        responded(advance(&request, stage, Reply::Deleted(1), at(10), 0)),
        Response::Done
    ));
    assert_eq!(failure(advance(&request, stage, Reply::Deleted(0), at(10), 0)), Status::NotFound);
}

#[test]
fn authentication_failures() {
    let request = Request::DeleteUserInfo { token: token(), user_info_id: 21 };
    assert_eq!(
        failure(advance(&request, Stage::Session, Reply::Session(None), at(10), 0)),
        Status::Unauthorized
    );
    assert_eq!(
        failure(advance(
            &request,
            Stage::Session,
            Reply::Session(Some(session(at(0)))),
            at(21_601),
            0
        )),
        Status::Unauthorized
    );
    assert_eq!(
        failure(advance(&request, Stage::Account, Reply::Account(None), at(10), 0)),
        Status::Unauthorized
    );
}

#[test]
fn database_failure_is_an_internal_error_at_every_stage() {
    let request = Request::SetUserInfo {
        token: token(),
        user_info: ModifyingUserInfo { id: 21, phone: None, address: None, image: None },
    };
    for stage in [
        Stage::Session,
        Stage::Account,
        Stage::Listing,
        Stage::Adding,
        Stage::Locating,
        Stage::Updating,
        Stage::Deleting,
        Stage::Finished,
    ] {
        assert_eq!(
            failure(advance(&request, stage, Reply::Failed, at(10), 0)),
            Status::InternalServerError
        );
    }
    assert_eq!(
        failure(advance(&request, Stage::Session, Reply::Deleted(1), at(10), 0)),
        Status::InternalServerError
    );
    assert_eq!(
        failure(advance(&request, Stage::Updating, Reply::Profile(None), at(10), 0)),
        Status::InternalServerError
    );
    assert_eq!(
        failure(advance(&request, Stage::LoginAccount, Reply::Account(None), at(10), 0)),
        Status::InternalServerError
    );
}

#[test]
fn login_course_for_a_new_identity() {
    let request = login_request();
    let (stage, query) = asked(begin(&request));
    assert_eq!(stage, Stage::LoginAccount);
    match query {
        Query::AccountByWechatId { wechat_id } => assert_eq!(wechat_id, "openid-a"),
        other => panic!("{:?}", other),
    }
    let (stage, query) = asked(advance(&request, stage, Reply::Account(None), at(10), 0xf));
    assert_eq!(stage, Stage::Enrolling);
    match query {
        Query::InsertAccount { wechat_id, user_role } => {
            assert_eq!(wechat_id, "openid-a");
            assert_eq!(user_role, UserRole::Normal);
        }
        other => panic!("{:?}", other),
    }
    let (stage, query) =
        asked(advance(&request, stage, Reply::Account(Some(account())), at(10), 0xf));
    assert_eq!(stage, Stage::LoginSession { user_id: 11 });
    assert!(matches!(query, Query::SessionByUser { user_id: 11 }));
    let (stage, query) = asked(advance(&request, stage, Reply::Session(None), at(10), 0xf));
    assert_eq!(stage, Stage::Issuing);
    match query {
        Query::InsertSession { user_id, last_login, last_session, last_token } => {
            assert_eq!(user_id, 11);
            assert_eq!(last_login, at(10));
            assert_eq!(last_session, "key-1");
            assert_eq!(last_token, 0xf);
        }
        other => panic!("{:?}", other),
    }
    let stored = we_chat_session::Model { last_token: 0xf, ..session(at(10)) };
    match responded(advance(&request, stage, Reply::Session(Some(stored)), at(10), 0xf)) {
        Response::Token(response) => assert_eq!(response.token, 0xf),
        other => panic!("{:?}", other),
    }
}

#[test]
fn login_course_for_a_known_identity() {
    let request = login_request();
    let (stage, query) =
        asked(advance(&request, Stage::LoginAccount, Reply::Account(Some(account())), at(10), 0xf));
    assert_eq!(stage, Stage::LoginSession { user_id: 11 });
    assert!(matches!(query, Query::SessionByUser { user_id: 11 }));
    let (stage, query) =
        asked(advance(&request, stage, Reply::Session(Some(session(at(0)))), at(10), 0xf));
    assert_eq!(stage, Stage::Issuing);
    match query {
        Query::UpdateSession { row } => assert_eq!(
            row,
            we_chat_session::Model {
                id: 4,
                user_id: 11,
                last_login: at(10),
                last_session: "key-1".to_string(),
                last_token: 0xa,
            }
        ),
        other => panic!("{:?}", other),
    }
}

#[test]
fn renewal_replaces_the_token_of_a_stale_session_only() {
    let fresh = renew(session(at(0)), "key-9".to_string(), at(21_600), 0xf);
    assert_eq!(fresh.last_token, 0xa);
    assert_eq!(fresh.last_login, at(21_600));
    assert_eq!(fresh.last_session, "key-9");
    assert_eq!(fresh.id, 4);
    assert_eq!(fresh.user_id, 11);
    let late = renew(session(at(0)), "key-9".to_string(), at(21_601), 0xf);
    assert_eq!(late.last_token, 0xf);
    assert_eq!(late.last_login, at(21_601));
}

#[test]
fn database_failure_in_a_login_is_a_gateway_failure() {
    let request = login_request();
    for stage in [
        Stage::LoginAccount,
        Stage::Enrolling,
        Stage::LoginSession { user_id: 11 },
        Stage::Issuing,
        Stage::Finished,
        Stage::Session,
    ] {
        assert_eq!(
            failure(advance(&request, stage, Reply::Failed, at(10), 0xf)),
            Status::BadGateway
        );
    }
    assert_eq!(
        failure(advance(&request, Stage::Enrolling, Reply::Account(None), at(10), 0xf)),
        Status::BadGateway
    );
    assert_eq!(
        failure(advance(&request, Stage::Issuing, Reply::Session(None), at(10), 0xf)),
        Status::BadGateway
    );
}

#[test]
fn login_without_identity_ends_at_once() {
    assert_eq!(failure(begin(&Request::WechatLogin { upstream: None })), Status::BadGateway);
    let refused = Request::WechatLogin {
        upstream: Some(WeChatLoginAPIResponse {
            session_key: None,
            unionid: None,
            errmsg: None,
            openid: None,
            errcode: Some(40226),
        }),
    };
    assert_eq!(failure(begin(&refused)), Status::Forbidden);
}

#[test]
fn serve_runs_a_request_to_its_response() {
    let mut db = Store::new();
    match serve(&mut db, &login_request(), at(0), 0xa) {
        Response::Token(response) => assert_eq!(response.token, 0xa),
        other => panic!("{:?}", other),
    }
    let add = Request::AddUserInfo { token: token(), user_info: UserInfo::from_model(row()) };
    match serve(&mut db, &add, at(1), 0) {
        Response::Profile(info) => {
            assert_eq!(info.id, Some(2));
            assert_eq!(info.creator, 1);
        }
        other => panic!("{:?}", other),
    }
    let list =
        Request::QueryUserInfo { token: token(), query: UserInfoRequest { start: 0, count: 1 } };
    match serve(&mut db, &list, at(2), 0) {
        Response::Profiles(infos) => assert_eq!(infos.len(), 1),
        other => panic!("{:?}", other),
    }
    let delete = Request::DeleteUserInfo { token: token(), user_info_id: 2 };
    assert!(matches!(serve(&mut db, &delete, at(3), 0), Response::Done));
    assert!(matches!(serve(&mut db, &delete, at(3), 0), Response::Failed(Status::NotFound)));
}
