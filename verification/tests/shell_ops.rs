use gitgael::github::{
    export_catalog,
    export_markdown,
    github_auth_logout,
    github_auth_start,
    github_auth_status,
    github_fork,
    GitHubClient,
};

#[test]
fn fresh_client_is_unauthenticated() {
    let client = GitHubClient::new();
    assert!(!client.is_authenticated());
    assert_eq!(client.get_username(), None);
}

#[test]
fn auth_start_reports_unavailable() {
    let status = github_auth_start().unwrap();
    assert!(!status.authenticated);
    assert_eq!(status.username, None);
    assert_eq!(status.scopes, None);
}

#[test]
fn auth_status_is_unauthenticated() {
    let status = github_auth_status();
    assert!(!status.authenticated);
    assert_eq!(status.username, None);
}

#[test]
fn auth_logout_succeeds() {
    assert!(github_auth_logout().is_ok());
}

#[test]
fn fork_reports_unavailable() {
    let res = github_fork("https://example.invalid/repo".to_string(), 1).unwrap();
    assert!(!res.success);
    assert_eq!(res.repo_id, None);
    assert!(res.error.is_some());
    assert_eq!(res.fork_url, None);
}

#[test]
fn exports_report_unavailable() {
    let cat = export_catalog().unwrap();
    assert!(!cat.success);
    assert_eq!(cat.path, None);
    assert!(cat.error.is_some());
    let md = export_markdown().unwrap();
    assert!(!md.success);
    assert_eq!(md.path, None);
    assert!(md.error.is_some());
}
