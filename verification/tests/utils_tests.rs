use cr_bot::text::u32_to_string;
use cr_bot::utils::{append_with_newline, remote_banner, validate_args, Args, ConfigError, RunPlan};

fn args(owner: Option<&str>, repo: Option<&str>, pr: Option<u32>, local: bool) -> Args {
    Args {
        owner: owner.map(String::from),
        repo: repo.map(String::from),
        pr,
        local,
        details: false,
    }
}

#[test]
fn append_with_newline_is_exact() {
    let mut buf = String::from("head");
    append_with_newline("tail", &mut buf);
    assert_eq!(buf, "head\ntail");
    append_with_newline("", &mut buf);
    assert_eq!(buf, "head\ntail\n");
}

#[test]
fn decimal_rendering_is_exact() {
    assert_eq!(u32_to_string(0), "0");
    assert_eq!(u32_to_string(7), "7");
    assert_eq!(u32_to_string(42), "42");
    assert_eq!(u32_to_string(404), "404");
    assert_eq!(u32_to_string(1024), "1024");
    assert_eq!(u32_to_string(u32::MAX), "4294967295");
}

#[test]
fn local_mode_without_triple_is_accepted() {
    match validate_args(args(None, None, None, true)) {
        Ok(RunPlan::Local { details }) => assert!(!details),
        other => panic!("unexpected plan: {:?}", other.is_ok()),
    }
}

#[test]
fn full_triple_without_local_is_accepted() {
    match validate_args(args(Some("o"), Some("r"), Some(7), false)) {
        Ok(RunPlan::Remote { owner, repo, pr, details }) => {
            assert_eq!(owner, "o");
            assert_eq!(repo, "r");
            assert_eq!(pr, 7);
            assert!(!details);
        }
        _ => panic!("expected the remote plan"),
    }
}

#[test]
fn missing_owner_is_reported_first() {
    match validate_args(args(None, Some("r"), Some(7), false)) {
        Err(ConfigError::MissingOwner) => {}
        _ => panic!("expected the missing-owner error"),
    }
    assert_eq!(
        ConfigError::MissingOwner.message(),
        "Owner argument is missing. Run with --help for usage."
    );
}

#[test]
fn missing_repo_is_reported() {
    match validate_args(args(Some("o"), None, Some(7), false)) {
        Err(ConfigError::MissingRepo) => {}
        _ => panic!("expected the missing-repo error"),
    }
    assert_eq!(
        ConfigError::MissingRepo.message(),
        "Repo argument is missing. Run with --help for usage."
    );
}

#[test]
fn missing_pr_is_reported() {
    match validate_args(args(Some("o"), Some("r"), None, false)) {
        Err(ConfigError::MissingPr) => {}
        _ => panic!("expected the missing-pr error"),
    }
    assert_eq!(
        ConfigError::MissingPr.message(),
        "PR number argument is missing. Run with --help for usage."
    );
}

#[test]
fn local_and_full_triple_is_ambiguous() {
    match validate_args(args(Some("o"), Some("r"), Some(7), true)) {
        Err(ConfigError::AmbiguousMode) => {}
        _ => panic!("expected the ambiguous-mode error"),
    }
    assert!(ConfigError::AmbiguousMode.message().contains("--local"));
}

#[test]
fn details_flag_is_carried_through() {
    let mut a = args(None, None, None, true);
    a.details = true;
    match validate_args(a) {
        Ok(RunPlan::Local { details }) => assert!(details),
        _ => panic!("expected the local plan"),
    }
}

#[test]
fn remote_banner_is_exact() {
    assert_eq!(remote_banner("o", "r", 42), "Analysing PR changes: o/r #42\n");
}
