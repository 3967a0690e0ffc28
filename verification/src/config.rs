//! Startup configuration: the immutable context every operation reads,
//! assembled all-or-nothing from the values of the required environment
//! variables. The caller reads the process environment and hands the raw
//! values in; a missing one yields an error naming its variable.

use vstd::prelude::*;

verus! {

/// Immutable per-process configuration. Built once at startup and never
/// mutated afterwards.
pub struct Context {
    /// Workspace identifier on the hosting service.
    pub workspace: String,
    /// Repository slug on the hosting service.
    pub repo: String,
    /// API token for the hosting service.
    pub hosting_token: String,
    /// Base URL of the issue-tracker host.
    pub tracker_host: String,
    /// Account email shared by both credential pairs.
    pub account_email: String,
    /// API token for the issue tracker.
    pub tracker_token: String,
}

/// A required environment variable was absent; `missing` is its name.
pub struct ConfigError {
    pub missing: String,
}

/// The message printed for a missing environment variable.
pub open spec fn spec_config_error_line(name: Seq<char>) -> Seq<char> {
    "Env "@ + name + " missing"@
}

impl ConfigError {
    /// Human-readable description naming the missing variable.
    pub fn message(&self) -> (r: String)
        ensures
            r@ == spec_config_error_line(self.missing@),
    {
        let mut s = String::from_str("Env ");
        s.append(self.missing.as_str());
        s.append(" missing");
        s
    }
}

/// Which of the two upstream services a request is addressed to; selects
/// the credential pair attached to the request.
pub enum Service {
    Hosting,
    Tracker,
}

impl Context {
    /// The credential pair (login, token) bound to one service: the same
    /// account email for both, with the service's own token.
    pub fn credentials(&self, service: Service) -> (r: (&String, &String))
        ensures
            r.0 == self.account_email,
            service is Hosting ==> r.1 == self.hosting_token,
            service is Tracker ==> r.1 == self.tracker_token,
    {
        match service {
            Service::Hosting => (&self.account_email, &self.hosting_token),
            Service::Tracker => (&self.account_email, &self.tracker_token),
        }
    }
}

/// How a context relates to the six raw environment values it was built
/// from: success copies every value; failure names the first absent
/// variable, in the fixed order below.
pub open spec fn context_assembled(
    r: Result<Context, ConfigError>,
    workspace: Option<String>,
    repo: Option<String>,
    hosting_token: Option<String>,
    tracker_host: Option<String>,
    account_email: Option<String>,
    tracker_token: Option<String>,
) -> bool {
    match r {
        Ok(c) => {
            &&& workspace == Some(c.workspace)
            &&& repo == Some(c.repo)
            &&& hosting_token == Some(c.hosting_token)
            &&& tracker_host == Some(c.tracker_host)
            &&& account_email == Some(c.account_email)
            &&& tracker_token == Some(c.tracker_token)
        },
        Err(e) => {
            if workspace is None {
                e.missing@ == "BB_WORKSPACE"@
            } else if repo is None {
                e.missing@ == "BB_REPO_SLUG"@
            } else if hosting_token is None {
                e.missing@ == "BB_API_TOKEN"@
            } else if tracker_host is None {
                e.missing@ == "JIRA_HOST"@
            } else if account_email is None {
                e.missing@ == "ATLASSIAN_EMAIL"@
            } else if tracker_token is None {
                e.missing@ == "JIRA_API_TOKEN"@
            } else {
                false
            }
        },
    }
}

/// A flag that the legacy invocation (no explicit subcommand, treated as
/// creation mode) requires but did not receive.
pub enum ModeError {
    MissingFrom,
    MissingTo,
}

impl ModeError {
    /// Human-readable description naming the missing flag.
    pub fn message(&self) -> (r: String)
        ensures
            self is MissingFrom ==> r@ == "--from is required for create mode"@,
            self is MissingTo ==> r@ == "--to is required for create mode"@,
    {
        match self {
            ModeError::MissingFrom => String::from_str("--from is required for create mode"),
            ModeError::MissingTo => String::from_str("--to is required for create mode"),
        }
    }
}

/// Validates the legacy invocation: without an explicit subcommand the
/// run defaults to creation mode, which needs both the keyword list and
/// the destination keyword. Returns them, or an error naming the first
/// missing flag, instead of terminating abruptly.
pub fn resolve_create_args(from: Option<Vec<String>>, to: Option<String>) -> (r: Result<
    (Vec<String>, String),
    ModeError,
>)
    ensures
        r is Ok <==> (from is Some && to is Some),
        r matches Ok(p) ==> from == Some(p.0) && to == Some(p.1),
        r matches Err(e) ==> {
            &&& e is MissingFrom <==> from is None
            &&& e is MissingTo <==> (from is Some && to is None)
        },
{
    match (from, to) {
        (Some(f), Some(t)) => Ok((f, t)),
        (None, _) => Err(ModeError::MissingFrom),
        (Some(_), None) => Err(ModeError::MissingTo),
    }
}

/// Assembles the context from the raw environment values, all-or-nothing:
/// a context with every field present, or an error naming the first
/// missing variable. No partial context is ever returned.
pub fn build_context(
    workspace: Option<String>,
    repo: Option<String>,
    hosting_token: Option<String>,
    tracker_host: Option<String>,
    account_email: Option<String>,
    tracker_token: Option<String>,
) -> (r: Result<Context, ConfigError>)
    ensures
        r is Ok <==> {
            &&& workspace is Some
            &&& repo is Some
            &&& hosting_token is Some
            &&& tracker_host is Some
            &&& account_email is Some
            &&& tracker_token is Some
        },
        context_assembled(
            r,
            workspace,
            repo,
            hosting_token,
            tracker_host,
            account_email,
            tracker_token,
        ),
{
    let workspace = match workspace {
        Some(v) => v,
        None => {
            return Err(ConfigError { missing: String::from_str("BB_WORKSPACE") });
        },
    };
    let repo = match repo {
        Some(v) => v,
        None => {
            return Err(ConfigError { missing: String::from_str("BB_REPO_SLUG") });
        },
    };
    let hosting_token = match hosting_token {
        Some(v) => v,
        None => {
            return Err(ConfigError { missing: String::from_str("BB_API_TOKEN") });
        },
    };
    let tracker_host = match tracker_host {
        Some(v) => v,
        None => {
            return Err(ConfigError { missing: String::from_str("JIRA_HOST") });
        },
    };
    let account_email = match account_email {
        Some(v) => v,
        None => {
            return Err(ConfigError { missing: String::from_str("ATLASSIAN_EMAIL") });
        },
    };
    let tracker_token = match tracker_token {
        Some(v) => v,
        None => {
            return Err(ConfigError { missing: String::from_str("JIRA_API_TOKEN") });
        },
    };
    Ok(Context { workspace, repo, hosting_token, tracker_host, account_email, tracker_token })
}

} // verus!
