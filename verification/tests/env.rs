use app_libs::utils::env::{
    get_env, get_env_or_default, get_env_parsed, EnvError, VarError, Vars,
};

fn vars() -> Vars {
    let mut vars = Vars::new();
    vars.set("PORT".to_string(), "8080".to_string());
    vars.set("FLAG".to_string(), "yes".to_string());
    vars.record("BROKEN".to_string(), Err(VarError::NotUnicode));
    vars
}

#[test]
fn get_env_gives_the_value() {
    assert_eq!(get_env(&vars(), "PORT").unwrap(), "8080");
}

#[test]
fn get_env_reports_missing_variable() {
    match get_env(&vars(), "MISSING") {
        Err(EnvError::NotFound { key }) => assert_eq!(key, "MISSING"),
        other => panic!("unexpected {other:?}"),
    }
}

#[test]
fn get_env_reports_invalid_unicode() {
    match get_env(&vars(), "BROKEN") {
        Err(EnvError::InvalidUtf8 { key }) => assert_eq!(key, "BROKEN"),
        other => panic!("unexpected {other:?}"),
    }
}

#[test]
fn last_record_counts() {
    let mut v = vars();
    v.set("PORT".to_string(), "9090".to_string());
    assert_eq!(v.get("PORT"), Ok("9090".to_string()));
    v.record("PORT".to_string(), Err(VarError::NotPresent));
    assert_eq!(v.get("PORT"), Err(VarError::NotPresent));
    assert_eq!(v.get("FLAG"), Ok("yes".to_string()));
}

#[test]
fn get_env_or_default_prefers_the_value() {
    assert_eq!(get_env_or_default(&vars(), "PORT", "1".to_string()), "8080");
    assert_eq!(get_env_or_default(&vars(), "MISSING", "1".to_string()), "1");
    assert_eq!(get_env_or_default(&vars(), "BROKEN", "1".to_string()), "1");
}

#[test]
fn get_env_parsed_parses_the_value() {
    let parsed = get_env_parsed(&vars(), "PORT", |s: &str| s.parse::<u16>().map_err(|e| e.to_string()));
    assert_eq!(parsed.unwrap(), 8080);
}

#[test]
fn get_env_parsed_reports_parse_failure() {
    let parsed = get_env_parsed(&vars(), "FLAG", |s: &str| s.parse::<bool>().map_err(|e| e.to_string()));
    match parsed {
        Err(e @ EnvError::ParseFailed { .. }) => {
            assert_eq!(
                e.message(),
                "Failed to parse environment variable 'FLAG' with value 'yes': provided string was not `true` or `false`"
            );
        }
        other => panic!("unexpected {other:?}"),
    }
}

#[test]
fn get_env_parsed_reports_missing_variable() {
    let parsed = get_env_parsed(&vars(), "MISSING", |s: &str| s.parse::<bool>().map_err(|e| e.to_string()));
    assert!(matches!(parsed, Err(EnvError::NotFound { .. })));
}

#[test]
fn env_error_messages() {
    let e = EnvError::NotFound { key: "A".to_string() };
    assert_eq!(e.message(), "Environment variable not found: 'A'");
    let e = EnvError::InvalidUtf8 { key: "B".to_string() };
    assert_eq!(e.message(), "Environment variable not valid UTF-8: 'B'");
    assert_eq!(e.duplicate().message(), e.message());
}
