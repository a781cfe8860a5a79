use irssi_v5::config::{count_digits, flag_setting, trim, jwks_ttl_ms, parse_admin_users, parse_port, parse_unsigned, DEFAULT_JWKS_TTL_MS};

#[test]
fn admin_list_is_trimmed_lowercased_and_filtered() {
    assert_eq!(parse_admin_users(" Alice , ,BOB,"), vec!["alice".to_string(), "bob".to_string()]);
    assert_eq!(parse_admin_users(""), Vec::<String>::new());
    assert_eq!(parse_admin_users("x"), vec!["x".to_string()]);
}

#[test]
fn ttl_setting() {
    assert_eq!(jwks_ttl_ms(None), DEFAULT_JWKS_TTL_MS);
    assert_eq!(DEFAULT_JWKS_TTL_MS, 6 * 3600 * 1000);
    assert_eq!(jwks_ttl_ms(Some("15min")), 900_000);
    assert_eq!(jwks_ttl_ms(Some("2h 30s")), 7_230_000);
    assert_eq!(jwks_ttl_ms(Some("soon")), DEFAULT_JWKS_TTL_MS);
}

#[test]
fn port_settings() {
    assert_eq!(parse_port("3001"), Some(3001));
    assert_eq!(parse_port("65535"), Some(65535));
    assert_eq!(parse_port("65536"), None);
    assert_eq!(parse_port(""), None);
    assert_eq!(parse_port("+"), None);
    assert_eq!(parse_port(" 1"), None);
    assert_eq!(parse_unsigned("0007", 10), Some(7));
}

#[test]
fn flag_settings() {
    assert!(flag_setting("true"));
    assert!(!flag_setting("TRUE"));
    assert!(!flag_setting("false"));
}

#[test]
fn admin_list_trims_unicode_white_space() {
    assert_eq!(parse_admin_users("\u{3000}Alice\u{a0},\t\u{2028}"), vec!["alice".to_string()]);
}

#[test]
fn ttl_setting_with_too_many_digits_is_unreadable() {
    assert_eq!(jwks_ttl_ms(Some("18446744073709551615s 1000000000ns")), DEFAULT_JWKS_TTL_MS);
    assert_eq!(jwks_ttl_ms(Some("584542046090y")), DEFAULT_JWKS_TTL_MS);
    assert_eq!(jwks_ttl_ms(Some("99999999999s")), 99_999_999_999_000);
    assert_eq!(count_digits("a1b22 3"), 4);
}

#[test]
fn trim_strips_white_space_only_at_the_ends() {
    assert_eq!(trim("  a b \t\n"), "a b");
    assert_eq!(trim("\u{3000}\u{a0}x\u{2029}"), "x");
    assert_eq!(trim(" \u{85} "), "");
    assert_eq!(trim("x"), "x");
}
