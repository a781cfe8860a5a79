use irssi_v5::access::{check_delete_user, check_max_users, dev_identity, list_contains, max_users_setting, require_admin};
use irssi_v5::auth::User;
use irssi_v5::errors::GatewayError;

fn user(name: &str, admin: bool) -> User {
    User { username: name.to_string(), email: format!("{}@x.org", name), is_admin: admin }
}

#[test]
fn admin_cannot_delete_self() {
    let admin = user("root", true);
    assert_eq!(check_delete_user(&admin, "root"), Err(GatewayError::Internal));
    assert_eq!(check_delete_user(&admin, "other"), Ok(()));
}

#[test]
fn non_admin_gets_forbidden() {
    let plain = user("joe", false);
    assert_eq!(require_admin(&plain), Err(GatewayError::Forbidden));
    assert_eq!(check_delete_user(&plain, "joe"), Err(GatewayError::Forbidden));
    assert_eq!(check_delete_user(&plain, "other"), Err(GatewayError::Forbidden));
    assert_eq!(require_admin(&user("root", true)), Ok(()));
}

#[test]
fn max_users_bounds() {
    assert_eq!(check_max_users(0), Err(GatewayError::Internal));
    assert_eq!(check_max_users(1), Ok(1));
    assert_eq!(check_max_users(1000), Ok(1000));
    assert_eq!(check_max_users(1001), Err(GatewayError::Internal));
}

#[test]
fn max_users_setting_reading() {
    assert_eq!(max_users_setting("50"), 50);
    assert_eq!(max_users_setting("+7"), 7);
    assert_eq!(max_users_setting("4294967295"), 4294967295);
    assert_eq!(max_users_setting("4294967296"), 50);
    assert_eq!(max_users_setting("12a"), 50);
    assert_eq!(max_users_setting(""), 50);
    assert_eq!(max_users_setting("-3"), 50);
}

#[test]
fn dev_identity_fields() {
    let admins = vec!["devuser".to_string()];
    let u = dev_identity("devuser", &admins);
    assert_eq!(u.username, "devuser");
    assert_eq!(u.email, "devuser@dev");
    assert!(u.is_admin);
    assert!(!dev_identity("other", &admins).is_admin);
    assert!(list_contains(&admins, "devuser"));
    assert!(!list_contains(&admins, "DevUser"));
}

#[test]
fn error_status_codes_and_messages() {
    assert_eq!(GatewayError::Unauthorized.status_code(), 401);
    assert_eq!(GatewayError::Forbidden.status_code(), 403);
    for e in [
        GatewayError::PoolExhausted,
        GatewayError::SpawnFailed,
        GatewayError::ReadinessTimeout,
        GatewayError::ProvisionFailed,
        GatewayError::Internal,
    ] {
        assert_eq!(e.status_code(), 500);
        assert_eq!(e.public_message(), "Internal server error");
    }
    assert_eq!(GatewayError::Forbidden.public_message(), "Admin access required");
}
