use wechat_backend::api::wechat_login::accept_answer;
use wechat_backend::api::wechat_login::errcode_status;
use wechat_backend::api::wechat_login::get_token;
use wechat_backend::api::wechat_login::identity;
use wechat_backend::api::wechat_login::wechat_login_service;
use wechat_backend::api::wechat_login::wechat_login_service_at;
use wechat_backend::api::wechat_login::WeChatConfig;
use wechat_backend::api::wechat_login::WeChatLoginAPIResponse;
use wechat_backend::api::wechat_login::WeChatLoginRequest;
use wechat_backend::api::wechat_login::WeChatLoginResponse;
use wechat_backend::api::wechat_login::WECHAT_API;
use wechat_backend::api::user_info::add_user_info_at;
use wechat_backend::api::user_info::delete_user_info_at;
use wechat_backend::api::user_info::UserInfo;
use wechat_backend::api::BearerToken;
use wechat_backend::clock::Timestamp;
use wechat_backend::entities::active_enums::UserRole;
use wechat_backend::status::Status;
use wechat_backend::store::memory::Store;

fn at(secs: i64) -> Timestamp {
    Timestamp { secs, nanos: 0 }
}

fn answer(openid: &str, session_key: &str) -> Option<WeChatLoginAPIResponse> {
    Some(WeChatLoginAPIResponse {
        session_key: Some(session_key.to_string()),
        unionid: None,
        errmsg: None,
        openid: Some(openid.to_string()),
        errcode: None,
    })
}

fn refusal(errcode: i32) -> Option<WeChatLoginAPIResponse> {
    Some(WeChatLoginAPIResponse {
        session_key: None,
        unionid: None,
        errmsg: Some("refused".to_string()),
        openid: None,
        errcode: Some(errcode),
    })
}

#[test]
fn first_login_creates_one_account_and_one_session() {
    let mut db = Store::new();
    let logged_in = wechat_login_service_at(&mut db, answer("openid-a", "key-1"), at(1_000), 77);
    assert_eq!(logged_in, Ok(WeChatLoginResponse { token: 77 }));
    assert_eq!(db.account_count(), 1);
    assert_eq!(db.session_count(), 1);
    assert_eq!(db.profile_count(), 0);
    let account = db.find_account_by_wechat_id(&"openid-a".to_string()).unwrap();
    assert_eq!(account.id, 1);
    assert_eq!(account.wechat_id, "openid-a");
    assert_eq!(account.user_role, UserRole::Normal);
    let session = db.find_session_by_user(account.id).unwrap();
    assert_eq!(session.id, 1);
    assert_eq!(session.user_id, 1);
    assert_eq!(session.last_token, 77);
    assert_eq!(session.last_session, "key-1");
    assert_eq!(session.last_login, at(1_000));
}

#[test]
fn second_login_reuses_the_account() {
    let mut db = Store::new();
    let first = wechat_login_service_at(&mut db, answer("openid-a", "key-1"), at(1_000), 77);
    let second = wechat_login_service_at(&mut db, answer("openid-a", "key-2"), at(2_000), 88);
    assert_eq!(first, Ok(WeChatLoginResponse { token: 77 }));
    assert_eq!(second, Ok(WeChatLoginResponse { token: 77 }));
    assert_eq!(db.account_count(), 1);
    assert_eq!(db.session_count(), 1);
    let session = db.find_session_by_token(77).unwrap();
    assert_eq!(session.user_id, 1);
    assert_eq!(session.last_session, "key-2");
    assert_eq!(session.last_login, at(2_000));
}

#[test]
fn login_of_another_identity_creates_another_account() {
    let mut db = Store::new();
    let first = wechat_login_service_at(&mut db, answer("openid-a", "key-1"), at(1_000), 77);
    let second = wechat_login_service_at(&mut db, answer("openid-b", "key-2"), at(1_000), 88);
    assert_eq!(first, Ok(WeChatLoginResponse { token: 77 }));
    assert_eq!(second, Ok(WeChatLoginResponse { token: 88 }));
    assert_eq!(db.account_count(), 2);
    assert_eq!(db.session_count(), 2);
    assert_eq!(db.find_session_by_token(88).unwrap().user_id, 2);
}

#[test]
fn login_keeps_the_token_of_a_fresh_session() {
    let mut db = Store::new();
    wechat_login_service_at(&mut db, answer("openid-a", "key-1"), at(0), 77).unwrap();
    let six_hours = wechat_login_service_at(&mut db, answer("openid-a", "key-2"), at(21_600), 88);
    assert_eq!(six_hours, Ok(WeChatLoginResponse { token: 77 }));
    assert_eq!(db.find_session_by_token(77).unwrap().last_login, at(21_600));
}

#[test]
fn login_replaces_the_token_of_a_stale_session() {
    let mut db = Store::new();
    wechat_login_service_at(&mut db, answer("openid-a", "key-1"), at(0), 77).unwrap();
    let late = wechat_login_service_at(&mut db, answer("openid-a", "key-2"), at(21_601), 88);
    assert_eq!(late, Ok(WeChatLoginResponse { token: 88 }));
    assert_eq!(db.session_count(), 1);
    assert!(db.find_session_by_token(77).is_none());
    let session = db.find_session_by_token(88).unwrap();
    assert_eq!(session.user_id, 1);
    assert_eq!(session.last_login, at(21_601));
    assert_eq!(session.last_session, "key-2");
}

#[test]
fn login_fails_when_the_token_is_taken() {
    let mut db = Store::new();
    wechat_login_service_at(&mut db, answer("openid-a", "key-1"), at(0), 77).unwrap();
    let clash = wechat_login_service_at(&mut db, answer("openid-b", "key-2"), at(0), 77);
    assert_eq!(clash, Err(Status::BadGateway));
    assert_eq!(db.account_count(), 2);
    assert_eq!(db.session_count(), 1);
    let healed = wechat_login_service_at(&mut db, answer("openid-b", "key-2"), at(0), 78);
    assert_eq!(healed, Ok(WeChatLoginResponse { token: 78 }));
    assert_eq!(db.account_count(), 2);
    assert_eq!(db.session_count(), 2);
}

#[test]
fn login_fails_when_the_session_key_is_taken() {
    let mut db = Store::new();
    wechat_login_service_at(&mut db, answer("openid-a", "key-1"), at(0), 77).unwrap();
    let clash = wechat_login_service_at(&mut db, answer("openid-b", "key-1"), at(0), 78);
    assert_eq!(clash, Err(Status::BadGateway));
    assert_eq!(db.session_count(), 1);
}

#[test]
fn errcode_45011_is_too_many_requests() {
    let mut db = Store::new();
    let refused = wechat_login_service_at(&mut db, refusal(45011), at(0), 77);
    assert_eq!(refused, Err(Status::TooManyRequests));
    assert_eq!(db.account_count(), 0);
    assert_eq!(db.session_count(), 0);
}

#[test]
fn unrecognized_errcode_is_not_implemented() {
    let mut db = Store::new();
    assert_eq!(
        wechat_login_service_at(&mut db, refusal(12345), at(0), 77),
        Err(Status::NotImplemented)
    );
    assert_eq!(errcode_status(1), Status::NotImplemented);
    assert_eq!(errcode_status(i32::MIN), Status::NotImplemented);
    assert_eq!(errcode_status(i32::MAX), Status::NotImplemented);
    assert_eq!(db.account_count(), 0);
}

#[test]
fn known_errcodes_have_their_status() {
    assert_eq!(errcode_status(-1), Status::ServiceUnavailable);
    assert_eq!(errcode_status(40029), Status::BadRequest);
    assert_eq!(errcode_status(40226), Status::Forbidden);
    assert_eq!(errcode_status(45011), Status::TooManyRequests);
    let mut db = Store::new();
    assert_eq!(
        wechat_login_service_at(&mut db, refusal(-1), at(0), 1),
        Err(Status::ServiceUnavailable)
    );
    assert_eq!(wechat_login_service_at(&mut db, refusal(40029), at(0), 1), Err(Status::BadRequest));
    assert_eq!(wechat_login_service_at(&mut db, refusal(40226), at(0), 1), Err(Status::Forbidden));
}

#[test]
fn zero_errcode_yields_a_token() {
    let mut db = Store::new();
    let upstream = Some(WeChatLoginAPIResponse {
        session_key: Some("key-1".to_string()),
        unionid: Some("union".to_string()),
        errmsg: Some("ok".to_string()),
        openid: Some("openid-a".to_string()),
        errcode: Some(0),
    });
    assert_eq!(
        wechat_login_service_at(&mut db, upstream, at(0), 5),
        Ok(WeChatLoginResponse { token: 5 })
    );
    assert_eq!(db.account_count(), 1);
}

#[test]
fn failed_exchange_is_a_gateway_failure() {
    let mut db = Store::new();
    assert_eq!(wechat_login_service_at(&mut db, None, at(0), 5), Err(Status::BadGateway));
    assert_eq!(db.account_count(), 0);
}

#[test]
fn answer_without_identity_is_a_gateway_failure() {
    let mut db = Store::new();
    let no_openid = Some(WeChatLoginAPIResponse {
        session_key: Some("key-1".to_string()),
        unionid: None,
        errmsg: None,
        openid: None,
        errcode: None,
    });
    let no_key = Some(WeChatLoginAPIResponse {
        session_key: None,
        unionid: None,
        errmsg: None,
        openid: Some("openid-a".to_string()),
        errcode: Some(0),
    });
    assert_eq!(wechat_login_service_at(&mut db, no_openid, at(0), 5), Err(Status::BadGateway));
    assert_eq!(wechat_login_service_at(&mut db, no_key, at(0), 5), Err(Status::BadGateway));
    assert_eq!(db.account_count(), 0);
}

#[test]
fn identity_reads_openid_and_session_key() {
    assert_eq!(
        identity(&answer("openid-a", "key-1")),
        Ok(("openid-a".to_string(), "key-1".to_string()))
    );
    assert_eq!(identity(&refusal(40029)), Err(Status::BadRequest));
    assert_eq!(identity(&None), Err(Status::BadGateway));
}

#[test]
fn get_token_issues_for_the_identity_of_the_answer() {
    let mut db = Store::new();
    let resp = answer("openid-a", "key-1").unwrap();
    assert_eq!(get_token(&mut db, &resp, at(0), 9), Ok(9));
    assert_eq!(get_token(&mut db, &resp, at(10), 10), Ok(9));
    assert_eq!(db.account_count(), 1);
    let empty = refusal(45011).unwrap();
    assert_eq!(get_token(&mut db, &empty, at(0), 11), Err(Status::BadGateway));
}

#[test]
fn login_with_the_system_clock_and_a_random_token() {
    let mut db = Store::new();
    let first = wechat_login_service(&mut db, answer("openid-a", "key-1")).unwrap();
    let second = wechat_login_service(&mut db, answer("openid-b", "key-2")).unwrap();
    assert_ne!(first.token, second.token);
    assert_eq!((first.token >> 76) & 0xf, 4);
    assert_eq!((second.token >> 76) & 0xf, 4);
    assert_eq!(db.find_session_by_token(first.token).unwrap().user_id, 1);
    assert_eq!(db.find_session_by_token(second.token).unwrap().user_id, 2);
    let again = wechat_login_service(&mut db, answer("openid-a", "key-3")).unwrap();
    assert_eq!(again.token, first.token);
    assert_eq!(wechat_login_service(&mut db, refusal(45011)), Err(Status::TooManyRequests));
}

#[test]
fn exchange_parameters_in_order() {
    let config = WeChatConfig { appid: "your_appid".to_string(), secret: "your_secret".to_string() };
    let request = WeChatLoginRequest { wechat_code: "code-1".to_string() };
    let params = request.exchange(&config);
    assert_eq!(
        params,
        vec![
            ("appid".to_string(), "your_appid".to_string()),
            ("secret".to_string(), "your_secret".to_string()),
            ("js_code".to_string(), "code-1".to_string()),
            ("grant_type".to_string(), "authorization_code".to_string()),
        ]
    );
    assert_eq!(WECHAT_API, "https://api.weixin.qq.com/sns/jscode2session");
}

#[test]
fn only_a_successful_exchange_is_accepted() {
    assert_eq!(accept_answer(Some(200), answer("a", "k")), answer("a", "k"));
    assert_eq!(accept_answer(Some(299), answer("a", "k")), answer("a", "k"));
    assert_eq!(accept_answer(Some(199), answer("a", "k")), None);
    assert_eq!(accept_answer(Some(300), answer("a", "k")), None);
    assert_eq!(accept_answer(Some(500), answer("a", "k")), None);
    assert_eq!(accept_answer(None, answer("a", "k")), None);
    assert_eq!(accept_answer(Some(200), None), None);
}

#[test]
fn accounts_stay_as_they_are() {
    let mut db = Store::new();
    wechat_login_service_at(&mut db, answer("openid-a", "key-1"), at(0), 77).unwrap();
    let before = db.find_account_by_id(1).unwrap();
    wechat_login_service_at(&mut db, answer("openid-b", "key-2"), at(1), 78).unwrap();
    wechat_login_service_at(&mut db, answer("openid-a", "key-3"), at(30_000), 79).unwrap();
    let info = UserInfo {
        id: None,
        creator: 2,
        id_no: "110101".to_string(),
        name: "Li".to_string(),
        phone: "138".to_string(),
        address: "1 Main Street".to_string(),
        image: None,
    };
    let added = add_user_info_at(&mut db, BearerToken { token: 79 }, info, at(30_001)).unwrap();
    delete_user_info_at(&mut db, BearerToken { token: 79 }, added.id.unwrap(), at(30_002)).unwrap();
    wechat_login_service_at(&mut db, refusal(40029), at(30_003), 80).unwrap_err();
    assert_eq!(db.find_account_by_id(1), Some(before.clone()));
    assert_eq!(db.find_account_by_wechat_id(&"openid-a".to_string()), Some(before));
    assert_eq!(db.account_count(), 2);
    assert_eq!(db.session_count(), 2);
    assert_eq!(db.find_session_by_user(1).unwrap().last_token, 79);
}
