use lcsm_slave::auth::{bearer_token, token_expiration, Claims, TOKEN_LIFETIME_SECS};
use lcsm_slave::boundary::{
    instance_key, just_get_error, liveness_status, log_begin, start_refusal_status, STATUS_CONFLICT,
    STATUS_NOT_FOUND, STATUS_OK,
};
use lcsm_slave::entities::{slave, user};
use lcsm_slave::errors::ErrorResponse;
use lcsm_slave::manager::StartError;
use lcsm_slave::pagination::PaginationOptions;
use lcsm_slave::process::ProcessState;
use lcsm_slave::slaves::{present_slave, BirefSlave, SlaveResponse};
use lcsm_slave::users::{
    is_administrator_type, may_ban, may_create_user, new_user_type, role_permission, UserResponse,
};

fn sample_slave() -> slave::Model {
    slave::Model {
        id: 4,
        name: "edge".to_string(),
        description: "rack 2".to_string(),
        slave_token: "agent-token-4".to_string(),
        slave_url: "http://10.0.0.4:3000".to_string(),
    }
}

#[test]
fn into_biref_drops_address_and_token() {
    match SlaveResponse::from(sample_slave()).into_biref() {
        SlaveResponse::Biref(b) => {
            assert_eq!(b.id, 4);
            assert_eq!(b.name, "edge");
            assert_eq!(b.description, "rack 2");
        }
        SlaveResponse::Detailed(_) => panic!("brief form expected"),
    }
}

#[test]
fn into_biref_keeps_a_brief_response() {
    let b = BirefSlave { id: 1, name: "a".to_string(), description: "b".to_string() };
    match SlaveResponse::Biref(b).into_biref() {
        SlaveResponse::Biref(b) => assert_eq!((b.id, b.name.as_str()), (1, "a")),
        SlaveResponse::Detailed(_) => panic!("brief form expected"),
    }
}

#[test]
fn administrators_see_the_whole_slave() {
    assert!(matches!(present_slave(sample_slave(), true), SlaveResponse::Detailed(m) if m.slave_url == "http://10.0.0.4:3000"));
    assert!(matches!(present_slave(sample_slave(), false), SlaveResponse::Biref(_)));
}

#[test]
fn user_response_hides_the_password_hash() {
    let model = user::Model {
        id: 9,
        name: "ann".to_string(),
        email: "ann@example.com".to_string(),
        password_hash: "$2b$12$abc".to_string(),
        user_type: "user".to_string(),
    };
    let r = UserResponse::from(model);
    assert_eq!((r.id, r.name.as_str(), r.email.as_str(), r.user_type.as_str()), (9, "ann", "ann@example.com", "user"));
}

#[test]
fn first_user_is_administrator() {
    assert_eq!(new_user_type(0, Some("user".to_string())), "administrator");
    assert_eq!(new_user_type(0, None), "administrator");
    assert_eq!(new_user_type(3, Some("operator".to_string())), "operator");
    assert_eq!(new_user_type(3, None), "user");
}

#[test]
fn user_creation_rules() {
    assert!(may_create_user(0, false));
    assert!(may_create_user(5, true));
    assert!(!may_create_user(5, false));
}

#[test]
fn nobody_bans_themselves() {
    assert!(!may_ban(7, 7));
    assert!(may_ban(7, 8));
}

#[test]
fn administrator_type_is_exact() {
    assert!(is_administrator_type("administrator"));
    assert!(!is_administrator_type("Administrator"));
    assert!(!is_administrator_type("administrators"));
    assert!(!is_administrator_type(""));
}

#[test]
fn role_decides_for_admins_and_banned_users() {
    assert_eq!(role_permission("administrator", true), Some(true));
    assert_eq!(role_permission("user", true), Some(false));
    assert_eq!(role_permission("user", false), None);
}

#[test]
fn bearer_token_is_taken_after_the_scheme() {
    assert_eq!(bearer_token("Bearer abc.def.ghi").as_deref(), Some("abc.def.ghi"));
    assert_eq!(bearer_token("Bearer ").as_deref(), Some(""));
    assert_eq!(bearer_token("Basic abc"), None);
    assert_eq!(bearer_token("bearer abc"), None);
    assert_eq!(bearer_token("Bearer"), None);
}

#[test]
fn tokens_live_one_week() {
    assert_eq!(TOKEN_LIFETIME_SECS, 7 * 24 * 60 * 60);
    assert_eq!(token_expiration(1_700_000_000), Some(1_700_604_800));
    assert_eq!(token_expiration(u64::MAX), None);
    let claims = Claims::for_user(3, "a@b.c", 100).unwrap();
    assert_eq!((claims.sub.as_str(), claims.id, claims.exp), ("a@b.c", 3, 604_900));
}

#[test]
fn pages_default_and_start_at_one() {
    let none = PaginationOptions { page: None, page_size: None };
    assert_eq!(none.page_request(), Some((0, 10)));
    let third = PaginationOptions { page: Some(3), page_size: Some(25) };
    assert_eq!(third.page_request(), Some((2, 25)));
    let zero = PaginationOptions { page: Some(0), page_size: None };
    assert_eq!(zero.page_request(), None);
}

#[test]
fn error_response_carries_status_and_message() {
    let e = ErrorResponse::new(406, Some("you can't ban yourself".to_string()));
    assert_eq!(e.status_code, 406);
    assert_eq!(e.message.as_deref(), Some("you can't ban yourself"));
}

#[test]
fn process_routes_statuses() {
    assert_eq!(liveness_status(Some(ProcessState::Alive)), STATUS_OK);
    assert_eq!(liveness_status(Some(ProcessState::Dead)), STATUS_NOT_FOUND);
    assert_eq!(liveness_status(None), STATUS_NOT_FOUND);
    assert_eq!(start_refusal_status(StartError::Conflict), STATUS_CONFLICT);
    assert_eq!(instance_key(7), Some(7));
    assert_eq!(instance_key(2_147_483_647), Some(i32::MAX));
    assert_eq!(instance_key(2_147_483_648), None);
    assert_eq!(log_begin::<String>(Ok(12)), 12);
    assert_eq!(log_begin::<String>(Err("gone".to_string())), 0);
}

#[test]
fn just_get_error_picks_the_error() {
    assert_eq!(just_get_error::<String>(Ok(Ok(()))), None);
    assert_eq!(just_get_error::<String>(Ok(Err("task".to_string()))), Some("task".to_string()));
    assert_eq!(just_get_error::<String>(Err("join".to_string())), Some("join".to_string()));
}
