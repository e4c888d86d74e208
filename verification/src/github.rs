//! GitHub client state and the authentication, fork and export operations.
//!
//! None of these flows is available yet: each returns the defined
//! "not yet available" outcome, and the contracts pin that outcome down.

use vstd::prelude::*;
use crate::records::{opt_view, AuthStatus, ExportResult, ForkResult};

verus! {

/// Holds an access token and the account it belongs to, once a login flow
/// exists to fill them in.
pub struct GitHubClient {
    token: Option<String>,
    username: Option<String>,
}

impl GitHubClient {
    pub closed spec fn spec_token(&self) -> Option<Seq<char>> {
        opt_view(self.token)
    }

    pub closed spec fn spec_username(&self) -> Option<Seq<char>> {
        opt_view(self.username)
    }

    /// A fresh client holds no token and no user name.
    pub fn new() -> (r: GitHubClient)
        ensures
            r.spec_token() is None,
            r.spec_username() is None,
    {
        GitHubClient { token: None, username: None }
    }

    /// A client is authenticated exactly when it holds a token.
    pub fn is_authenticated(&self) -> (r: bool)
        ensures
            r == (self.spec_token() is Some),
    {
        self.token.is_some()
    }

    /// Returns the stored user name, if any.
    pub fn get_username(&self) -> (r: Option<&str>)
        ensures
            r is Some <==> self.spec_username() is Some,
            r is Some ==> r->0@ == self.spec_username()->0,
    {
        match &self.username {
            Some(u) => Some(u.as_str()),
            None => None,
        }
    }
}

/// Starting the login flow is not available: the returned status reports an
/// unauthenticated client with no user name and no scopes.
pub fn github_auth_start() -> (r: Result<AuthStatus, String>)
    ensures
        r is Ok,
        !r->Ok_0.authenticated,
        r->Ok_0.username is None,
        r->Ok_0.scopes is None,
{
    Ok(AuthStatus { authenticated: false, username: None, scopes: None })
}

/// Reports the current authentication state; with no login flow it is
/// always unauthenticated.
pub fn github_auth_status() -> (r: AuthStatus)
    ensures
        !r.authenticated,
        r.username is None,
        r.scopes is None,
{
    AuthStatus { authenticated: false, username: None, scopes: None }
}

/// Logging out always succeeds: there is no session to tear down.
pub fn github_auth_logout() -> (r: Result<(), String>)
    ensures
        r is Ok,
{
    Ok(())
}

/// The remote-fork workflow is not available: the result reports failure
/// and carries no new record.
pub fn github_fork(url: String, document_id: i64) -> (r: Result<ForkResult, String>)
    ensures
        r is Ok,
        !r->Ok_0.success,
        r->Ok_0.repo_id is None,
        r->Ok_0.error is Some,
        r->Ok_0.fork_url is None,
{
    Ok(
        ForkResult {
            success: false,
            repo_id: None,
            error: Some("Not yet implemented".to_string()),
            fork_url: None,
        },
    )
}

/// Catalog export is not available: the result reports failure and no path.
pub fn export_catalog() -> (r: Result<ExportResult, String>)
    ensures
        r is Ok,
        !r->Ok_0.success,
        r->Ok_0.path is None,
        r->Ok_0.error is Some,
{
    Ok(ExportResult { success: false, path: None, error: Some("Not yet implemented".to_string()) })
}

/// Markdown export is not available: the result reports failure and no path.
pub fn export_markdown() -> (r: Result<ExportResult, String>)
    ensures
        r is Ok,
        !r->Ok_0.success,
        r->Ok_0.path is None,
        r->Ok_0.error is Some,
{
    Ok(ExportResult { success: false, path: None, error: Some("Not yet implemented".to_string()) })
}

} // verus!
