use wechat_backend::api::user_info::add_user_info;
use wechat_backend::api::user_info::add_user_info_at;
use wechat_backend::api::user_info::delete_user_info;
use wechat_backend::api::user_info::delete_user_info_at;
use wechat_backend::api::user_info::query_user_info;
use wechat_backend::api::user_info::query_user_info_at;
use wechat_backend::api::user_info::set_user_info;
use wechat_backend::api::user_info::set_user_info_at;
use wechat_backend::api::user_info::ModifyingUserInfo;
use wechat_backend::api::user_info::UserInfo;
use wechat_backend::api::user_info::UserInfoRequest;
use wechat_backend::api::wechat_login::wechat_login_service;
use wechat_backend::api::wechat_login::wechat_login_service_at;
use wechat_backend::api::wechat_login::WeChatLoginAPIResponse;
use wechat_backend::api::BearerToken;
use wechat_backend::clock::Timestamp;
use wechat_backend::entities::user_info::Model;
use wechat_backend::status::Status;
use wechat_backend::store::memory::Store;

const TOKEN_A: u128 = 0xa;
const TOKEN_B: u128 = 0xb;

fn at(secs: i64) -> Timestamp {
    Timestamp { secs, nanos: 0 }
}

fn login(db: &mut Store, openid: &str, session_key: &str, token: u128) {
    let upstream = Some(WeChatLoginAPIResponse {
        session_key: Some(session_key.to_string()),
        unionid: None,
        errmsg: None,
        openid: Some(openid.to_string()),
        errcode: None,
    });
    wechat_login_service_at(db, upstream, at(0), token).unwrap();
}

fn two_accounts() -> Store {
    let mut db = Store::new();
    login(&mut db, "openid-a", "key-a", TOKEN_A);
    login(&mut db, "openid-b", "key-b", TOKEN_B);
    db
}

fn profile(name: &str) -> UserInfo {
    UserInfo {
        id: None,
        creator: 0,
        id_no: format!("id-{}", name),
        name: name.to_string(),
        phone: format!("phone-{}", name),
        address: format!("address-{}", name),
        image: None,
    }
}

fn a() -> BearerToken {
    BearerToken { token: TOKEN_A }
}

fn b() -> BearerToken {
    BearerToken { token: TOKEN_B }
}

#[test]
fn created_profile_belongs_to_the_authenticated_account() {
    let mut db = two_accounts();
    let sent = UserInfo {
        id: Some(999),
        creator: 2,
        id_no: "110101".to_string(),
        name: "Li".to_string(),
        phone: "13800000000".to_string(),
        address: "1 Main Street".to_string(),
        image: Some(42),
    };
    let added = add_user_info_at(&mut db, a(), sent, at(10)).unwrap();
    assert_eq!(
        added,
        UserInfo {
            id: Some(3),
            creator: 1,
            id_no: "110101".to_string(),
            name: "Li".to_string(),
            phone: "13800000000".to_string(),
            address: "1 Main Street".to_string(),
            image: Some(42),
        }
    );
    assert_eq!(db.profile_count(), 1);
    assert_eq!(
        db.find_profile_owned(3, 1),
        Some(Model {
            id: 3,
            creator: 1,
            id_no: "110101".to_string(),
            name: "Li".to_string(),
            phone: "13800000000".to_string(),
            address: "1 Main Street".to_string(),
            image: Some(42),
        })
    );
    assert_eq!(db.find_profile_owned(3, 2), None);
}

#[test]
fn pagination_returns_the_window_in_insertion_order() {
    let mut db = two_accounts();
    for name in ["one", "two", "three", "four", "five"] {
        add_user_info_at(&mut db, a(), profile(name), at(10)).unwrap();
    }
    let first = query_user_info_at(&mut db, a(), UserInfoRequest { start: 0, count: 2 }, at(20))
        .unwrap();
    let names: Vec<&str> = first.iter().map(|info| info.name.as_str()).collect();
    assert_eq!(names, vec!["one", "two"]);
    assert_eq!(first[0].id, Some(3));
    assert_eq!(first[1].id, Some(4));
    let last = query_user_info_at(&mut db, a(), UserInfoRequest { start: 4, count: 2 }, at(20))
        .unwrap();
    assert_eq!(last.len(), 1);
    assert_eq!(last[0].name, "five");
    assert_eq!(last[0].id, Some(7));
    assert_eq!(last[0].creator, 1);
}

#[test]
fn pagination_at_the_edges() {
    let mut db = two_accounts();
    for name in ["one", "two", "three"] {
        add_user_info_at(&mut db, a(), profile(name), at(10)).unwrap();
    }
    let all = query_user_info_at(&mut db, a(), UserInfoRequest { start: 0, count: 100 }, at(20))
        .unwrap();
    assert_eq!(all.len(), 3);
    let none = query_user_info_at(&mut db, a(), UserInfoRequest { start: 0, count: 0 }, at(20))
        .unwrap();
    assert!(none.is_empty());
    let past = query_user_info_at(&mut db, a(), UserInfoRequest { start: 3, count: 5 }, at(20))
        .unwrap();
    assert!(past.is_empty());
    let far = query_user_info_at(
        &mut db,
        a(),
        UserInfoRequest { start: u64::MAX, count: u64::MAX },
        at(20),
    )
    .unwrap();
    assert!(far.is_empty());
    let wide = query_user_info_at(&mut db, a(), UserInfoRequest { start: 1, count: u64::MAX }, at(20))
        .unwrap();
    let names: Vec<&str> = wide.iter().map(|info| info.name.as_str()).collect();
    assert_eq!(names, vec!["two", "three"]);
}

#[test]
fn listing_holds_own_profiles_only() {
    let mut db = two_accounts();
    add_user_info_at(&mut db, a(), profile("one"), at(10)).unwrap();
    add_user_info_at(&mut db, b(), profile("two"), at(10)).unwrap();
    add_user_info_at(&mut db, a(), profile("three"), at(10)).unwrap();
    let of_a = query_user_info_at(&mut db, a(), UserInfoRequest { start: 0, count: 10 }, at(20))
        .unwrap();
    let of_b = query_user_info_at(&mut db, b(), UserInfoRequest { start: 0, count: 10 }, at(20))
        .unwrap();
    let names_a: Vec<&str> = of_a.iter().map(|info| info.name.as_str()).collect();
    let names_b: Vec<&str> = of_b.iter().map(|info| info.name.as_str()).collect();
    assert_eq!(names_a, vec!["one", "three"]);
    assert_eq!(names_b, vec!["two"]);
    let second = query_user_info_at(&mut db, a(), UserInfoRequest { start: 1, count: 1 }, at(20))
        .unwrap();
    assert_eq!(second.len(), 1);
    assert_eq!(second[0].name, "three");
}

#[test]
fn profile_of_one_account_is_not_found_under_another() {
    let mut db = two_accounts();
    let added = add_user_info_at(&mut db, a(), profile("one"), at(10)).unwrap();
    let id = added.id.unwrap();
    let change = ModifyingUserInfo {
        id,
        phone: Some("stolen".to_string()),
        address: None,
        image: None,
    };
    assert_eq!(set_user_info_at(&mut db, b(), change, at(20)), Err(Status::NotFound));
    assert_eq!(delete_user_info_at(&mut db, b(), id, at(20)), Err(Status::NotFound));
    let seen = query_user_info_at(&mut db, b(), UserInfoRequest { start: 0, count: 10 }, at(20))
        .unwrap();
    assert!(seen.is_empty());
    assert_eq!(db.profile_count(), 1);
    assert_eq!(db.find_profile_owned(id, 1).unwrap().phone, "phone-one");
}

#[test]
fn missing_profile_is_not_found() {
    let mut db = two_accounts();
    let change = ModifyingUserInfo { id: 12345, phone: None, address: None, image: Some(1) };
    assert_eq!(set_user_info_at(&mut db, a(), change, at(20)), Err(Status::NotFound));
    assert_eq!(delete_user_info_at(&mut db, a(), 12345, at(20)), Err(Status::NotFound));
    assert_eq!(db.profile_count(), 0);
}

#[test]
fn partial_update_changes_supplied_fields_only() {
    let mut db = two_accounts();
    let sent = UserInfo { image: Some(5), ..profile("one") };
    let id = add_user_info_at(&mut db, a(), sent, at(10)).unwrap().id.unwrap();
    let other = add_user_info_at(&mut db, a(), profile("two"), at(10)).unwrap().id.unwrap();
    let change = ModifyingUserInfo {
        id,
        phone: Some("13900000000".to_string()),
        address: None,
        image: None,
    };
    assert_eq!(set_user_info_at(&mut db, a(), change, at(20)), Ok(Status::Success));
    assert_eq!(
        db.find_profile_owned(id, 1),
        Some(Model {
            id,
            creator: 1,
            id_no: "id-one".to_string(),
            name: "one".to_string(),
            phone: "13900000000".to_string(),
            address: "address-one".to_string(),
            image: Some(5),
        })
    );
    assert_eq!(db.find_profile_owned(other, 1).unwrap().phone, "phone-two");
    let listed = query_user_info_at(&mut db, a(), UserInfoRequest { start: 0, count: 10 }, at(20))
        .unwrap();
    assert_eq!(listed[0].phone, "13900000000");
    assert_eq!(listed[0].name, "one");
    assert_eq!(listed[1].name, "two");
}

#[test]
fn update_of_address_and_image() {
    let mut db = two_accounts();
    let id = add_user_info_at(&mut db, a(), profile("one"), at(10)).unwrap().id.unwrap();
    let change = ModifyingUserInfo {
        id,
        phone: None,
        address: Some("2 Side Street".to_string()),
        image: Some(8),
    };
    assert_eq!(set_user_info_at(&mut db, a(), change, at(20)), Ok(Status::Success));
    let row = db.find_profile_owned(id, 1).unwrap();
    assert_eq!(row.phone, "phone-one");
    assert_eq!(row.address, "2 Side Street");
    assert_eq!(row.image, Some(8));
    let nothing = ModifyingUserInfo { id, phone: None, address: None, image: None };
    assert_eq!(set_user_info_at(&mut db, a(), nothing.clone(), at(20)), Ok(Status::Success));
    assert_eq!(db.find_profile_owned(id, 1).unwrap(), row);
    assert_eq!(nothing.apply(row.clone()), row);
}

#[test]
fn delete_removes_the_profile_once() {
    let mut db = two_accounts();
    let first = add_user_info_at(&mut db, a(), profile("one"), at(10)).unwrap().id.unwrap();
    let second = add_user_info_at(&mut db, a(), profile("two"), at(10)).unwrap().id.unwrap();
    assert_eq!(delete_user_info_at(&mut db, a(), first, at(20)), Ok(Status::Success));
    assert_eq!(db.profile_count(), 1);
    assert_eq!(delete_user_info_at(&mut db, a(), first, at(20)), Err(Status::NotFound));
    let left = query_user_info_at(&mut db, a(), UserInfoRequest { start: 0, count: 10 }, at(20))
        .unwrap();
    assert_eq!(left.len(), 1);
    assert_eq!(left[0].id, Some(second));
}

#[test]
fn unknown_token_is_unauthorized_everywhere() {
    let mut db = two_accounts();
    let nobody = BearerToken { token: 0xdead };
    let window = UserInfoRequest { start: 0, count: 10 };
    let change = ModifyingUserInfo { id: 3, phone: None, address: None, image: None };
    assert_eq!(query_user_info_at(&mut db, nobody, window, at(1)), Err(Status::Unauthorized));
    assert_eq!(add_user_info_at(&mut db, nobody, profile("x"), at(1)), Err(Status::Unauthorized));
    assert_eq!(set_user_info_at(&mut db, nobody, change, at(1)), Err(Status::Unauthorized));
    assert_eq!(delete_user_info_at(&mut db, nobody, 3, at(1)), Err(Status::Unauthorized));
    assert_eq!(db.profile_count(), 0);
}

#[test]
fn stale_token_is_unauthorized_everywhere() {
    let mut db = two_accounts();
    let id = add_user_info_at(&mut db, a(), profile("one"), at(21_600)).unwrap().id.unwrap();
    let late = Timestamp { secs: 21_600, nanos: 1 };
    let window = UserInfoRequest { start: 0, count: 10 };
    let change = ModifyingUserInfo { id, phone: Some("x".to_string()), address: None, image: None };
    assert_eq!(query_user_info_at(&mut db, a(), window, late), Err(Status::Unauthorized));
    assert_eq!(add_user_info_at(&mut db, a(), profile("x"), late), Err(Status::Unauthorized));
    assert_eq!(set_user_info_at(&mut db, a(), change, late), Err(Status::Unauthorized));
    assert_eq!(delete_user_info_at(&mut db, a(), id, late), Err(Status::Unauthorized));
    assert_eq!(db.profile_count(), 1);
    assert_eq!(db.find_profile_owned(id, 1).unwrap().phone, "phone-one");
    let on_time = query_user_info_at(&mut db, a(), window, at(21_600)).unwrap();
    assert_eq!(on_time.len(), 1);
}

#[test]
fn endpoints_with_the_system_clock() {
    let mut db = Store::new();
    let upstream = Some(WeChatLoginAPIResponse {
        session_key: Some("key-a".to_string()),
        unionid: None,
        errmsg: None,
        openid: Some("openid-a".to_string()),
        errcode: None,
    });
    let token = BearerToken { token: wechat_login_service(&mut db, upstream).unwrap().token };
    let added = add_user_info(&mut db, token, profile("one")).unwrap();
    assert_eq!(added.creator, 1);
    let id = added.id.unwrap();
    let listed = query_user_info(&mut db, token, UserInfoRequest { start: 0, count: 2 }).unwrap();
    assert_eq!(listed, vec![added]);
    let change = ModifyingUserInfo { id, phone: Some("1".to_string()), address: None, image: None };
    assert_eq!(set_user_info(&mut db, token, change), Ok(Status::Success));
    assert_eq!(delete_user_info(&mut db, token, id), Ok(Status::Success));
    assert_eq!(delete_user_info(&mut db, token, id), Err(Status::NotFound));
    let nobody = BearerToken { token: token.token ^ 1 };
    assert_eq!(delete_user_info(&mut db, nobody, id), Err(Status::Unauthorized));
}

#[test]
fn user_info_from_models_keeps_order() {
    let rows = vec![
        Model {
            id: 1,
            creator: 9,
            id_no: "a".to_string(),
            name: "b".to_string(),
            phone: "c".to_string(),
            address: "d".to_string(),
            image: None,
        },
        Model {
            id: 2,
            creator: 9,
            id_no: "e".to_string(),
            name: "f".to_string(),
            phone: "g".to_string(),
            address: "h".to_string(),
            image: Some(3),
        },
    ];
    let infos = UserInfo::from_models(rows.clone());
    assert_eq!(infos.len(), 2);
    assert_eq!(infos[0], UserInfo::from_model(rows[0].clone()));
    assert_eq!(infos[1].id, Some(2));
    assert_eq!(infos[1].image, Some(3));
    assert_eq!(infos[1].name, "f");
}
