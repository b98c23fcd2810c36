use cr_bot::pr::{
    bearer_header_value, classify_pr_statuses, files_url, pr_url, render_changed_files, File,
    HostingApiError,
};
use cr_bot::prompt::{assemble_prompt, TaskMode};

fn one_file() -> Vec<File> {
    vec![File {
        filename: String::from("x.go"),
        status: String::from("modified"),
        patch: String::from("@@ ... @@\n-old\n+new\n"),
    }]
}

#[test]
fn scenario_remote_pr_final_message() {
    let files = one_file();
    let diff = render_changed_files(&files);
    assert_eq!(diff, "\nx.go -- modified\n@@ ... @@\n-old\n+new\n");
    let msgs = assemble_prompt(TaskMode::Review, diff);
    assert_eq!(msgs[3].content, "\nx.go -- modified\n@@ ... @@\n-old\n+new\n");
}

#[test]
fn rendering_preserves_file_order() {
    let files = vec![
        File {
            filename: String::from("b.rs"),
            status: String::from("added"),
            patch: String::from("+b\n"),
        },
        File {
            filename: String::from("a.rs"),
            status: String::from("removed"),
            patch: String::from("-a\n"),
        },
    ];
    assert_eq!(
        render_changed_files(&files),
        "\nb.rs -- added\n+b\n\na.rs -- removed\n-a\n"
    );
}

#[test]
fn rendering_no_files_is_empty() {
    assert_eq!(render_changed_files(&Vec::new()), "");
}

#[test]
fn urls_are_exact() {
    assert_eq!(
        pr_url("owner", "repo", 42),
        "https://api.github.com/repos/owner/repo/pulls/42"
    );
    assert_eq!(
        files_url("owner", "repo", 42),
        "https://api.github.com/repos/owner/repo/pulls/42/files"
    );
}

#[test]
fn bearer_value_is_exact() {
    assert_eq!(bearer_header_value("tok123"), "Bearer tok123");
}

#[test]
fn both_statuses_ok_is_success() {
    assert!(classify_pr_statuses(200, 200).is_ok());
}

#[test]
fn not_found_status_hints_at_credential() {
    let err = classify_pr_statuses(200, 404).unwrap_err();
    match &err {
        HostingApiError::BadStatus(s) => assert_eq!(*s, 404),
        other => panic!("unexpected error: {:?}", other),
    }
    let msg = err.message();
    assert!(msg.contains("GH_PR_TOKEN"));
    assert!(msg.contains("404"));
}

#[test]
fn unauthorized_status_hints_at_credential() {
    let err = classify_pr_statuses(401, 200).unwrap_err();
    let msg = err.message();
    assert!(msg.contains("GH_PR_TOKEN"));
    assert_eq!(
        msg,
        "GitHub API request failed with status: 401. \nIf this is a private repo, the 'GH_PR_TOKEN' environment variable must be set."
    );
}

#[test]
fn other_bad_status_has_plain_message() {
    let err = classify_pr_statuses(200, 500).unwrap_err();
    assert_eq!(err.message(), "GitHub API request failed with status: 500.");
}

#[test]
fn auth_status_is_surfaced_over_another_failure() {
    let err = classify_pr_statuses(401, 500).unwrap_err();
    match &err {
        HostingApiError::BadStatus(s) => assert_eq!(*s, 401),
        other => panic!("unexpected error: {:?}", other),
    }
    assert!(err.message().contains("GH_PR_TOKEN"));

    let err = classify_pr_statuses(500, 404).unwrap_err();
    match &err {
        HostingApiError::BadStatus(s) => assert_eq!(*s, 404),
        other => panic!("unexpected error: {:?}", other),
    }
    assert!(err.message().contains("GH_PR_TOKEN"));
}

#[test]
fn files_status_takes_precedence_among_auth_failures() {
    let err = classify_pr_statuses(404, 401).unwrap_err();
    match err {
        HostingApiError::BadStatus(s) => assert_eq!(s, 401),
        other => panic!("unexpected error: {:?}", other),
    }
}

#[test]
fn files_status_takes_precedence_among_other_failures() {
    let err = classify_pr_statuses(500, 502).unwrap_err();
    match err {
        HostingApiError::BadStatus(s) => assert_eq!(s, 502),
        other => panic!("unexpected error: {:?}", other),
    }
}

#[test]
fn decode_error_message_wraps_detail() {
    let err = HostingApiError::Decode(String::from("missing field `title`"));
    assert_eq!(
        err.message(),
        "Failed to decode the GitHub API response: missing field `title`"
    );
}
