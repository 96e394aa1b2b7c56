use athena_shell::config::{check_profile, check_profile_in, ConfigOptions, RetryPolicy, ServiceKind, TimeoutTiers};
use athena_shell::error::ShellError;

#[test]
fn timeout_tiers_from_base() {
    let o = ConfigOptions::default();
    assert_eq!(
        o.timeouts(10),
        Ok(TimeoutTiers { connect_secs: 10, operation_secs: 30, attempt_secs: 90 })
    );
    assert_eq!(
        o.timeouts(1),
        Ok(TimeoutTiers { connect_secs: 1, operation_secs: 3, attempt_secs: 9 })
    );
}

#[test]
fn zero_or_oversized_timeout_is_refused() {
    let o = ConfigOptions::default();
    assert_eq!(o.timeouts(0), Err(ShellError::InvalidTimeout(0)));
    assert_eq!(o.timeouts(u64::MAX / 3), Err(ShellError::InvalidTimeout(u64::MAX / 3)));
    assert!(o.timeouts(u64::MAX / 9).is_ok());
}

#[test]
fn retry_policy_is_fixed() {
    let o = ConfigOptions::default();
    assert_eq!(o.retry_attempts, 5);
    assert_eq!(
        o.retry_policy(),
        RetryPolicy { max_attempts: 5, initial_backoff_secs: 1, max_backoff_secs: 5 }
    );
}

#[test]
fn profile_must_be_a_section() {
    let sections = vec!["default".to_string(), "dev".to_string()];
    assert_eq!(check_profile(&sections, "dev"), Ok(()));
    assert_eq!(
        check_profile(&sections, "prod"),
        Err(ShellError::ProfileNotFound("prod".to_string()))
    );
    assert_eq!(
        check_profile(&Vec::new(), "default"),
        Err(ShellError::ProfileNotFound("default".to_string()))
    );
}

#[test]
fn service_names() {
    assert_eq!(ServiceKind::from_name("athena"), Ok(ServiceKind::Athena));
    assert_eq!(ServiceKind::from_name("Athena"), Ok(ServiceKind::Athena));
    assert_eq!(ServiceKind::from_name("S3"), Ok(ServiceKind::S3));
    assert_eq!(
        ServiceKind::from_name("glue"),
        Err(ShellError::InvalidService("glue".to_string()))
    );
}

#[test]
fn profile_must_be_a_section_of_the_loaded_file() {
    let mut ini = configparser::ini::Ini::new();
    ini.read("[default]\nkey = a\n[dev]\nkey = b\n".to_string()).unwrap();
    assert_eq!(check_profile_in(&ini, "dev"), Ok(()));
    assert_eq!(check_profile_in(&ini, "default"), Ok(()));
    assert_eq!(
        check_profile_in(&ini, "prod"),
        Err(ShellError::ProfileNotFound("prod".to_string()))
    );
}
