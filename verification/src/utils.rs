//! Invocation configuration and small text helpers: the parsed command-line
//! arguments, their validation into a run plan, and the newline-prefixed
//! append that the prompt rendering is built from.

use vstd::prelude::*;
use crate::text::{dec_seq, push_dec};

verus! {

/// The invocation parameters, read once at startup and immutable thereafter.
/// `owner`, `repo` and `pr` select a remote pull request; `local` selects the
/// local-diff strategy; `details` selects the implementation-detail task mode
/// instead of code review.
pub struct Args {
    /// The owner of the repo; required if not running locally.
    pub owner: Option<String>,
    /// The repo name; required if not running locally.
    pub repo: Option<String>,
    /// The PR number as an integer; required if not running locally.
    pub pr: Option<u32>,
    /// Run locally inside a git repository, comparing HEAD against a branch
    /// named `main` (which must exist).
    pub local: bool,
    /// Ask for implementation details instead of a code review.
    pub details: bool,
}

/// What a validated invocation asks for: exactly one of the two diff sources.
pub enum RunPlan {
    Local { details: bool },
    Remote { owner: String, repo: String, pr: u32, details: bool },
}

/// Why an invocation was rejected before any work was done.
pub enum ConfigError {
    MissingOwner,
    MissingRepo,
    MissingPr,
    AmbiguousMode,
}

impl ConfigError {
    /// The usage message shown for this rejection.
    pub fn message(&self) -> (r: String)
        ensures
            r@ == self.message_spec(),
    {
        match self {
            ConfigError::MissingOwner => String::from_str(
                "Owner argument is missing. Run with --help for usage.",
            ),
            ConfigError::MissingRepo => String::from_str(
                "Repo argument is missing. Run with --help for usage.",
            ),
            ConfigError::MissingPr => String::from_str(
                "PR number argument is missing. Run with --help for usage.",
            ),
            ConfigError::AmbiguousMode => String::from_str(
                "Choose either --local or the owner, repo and PR arguments, not both. Run with --help for usage.",
            ),
        }
    }

    pub open spec fn message_spec(&self) -> Seq<char> {
        match self {
            ConfigError::MissingOwner => "Owner argument is missing. Run with --help for usage."@,
            ConfigError::MissingRepo => "Repo argument is missing. Run with --help for usage."@,
            ConfigError::MissingPr => "PR number argument is missing. Run with --help for usage."@,
            ConfigError::AmbiguousMode => "Choose either --local or the owner, repo and PR arguments, not both. Run with --help for usage."@,
        }
    }
}

/// A full remote triple was supplied.
pub open spec fn remote_triple_given(args: &Args) -> bool {
    args.owner is Some && args.repo is Some && args.pr is Some
}

/// Validates the invocation: exactly one of local mode or the full remote
/// triple (owner, repo, pr) must be present. Missing remote arguments are
/// reported in the order owner, repo, pr.
pub fn validate_args(args: Args) -> (r: Result<RunPlan, ConfigError>)
    ensures
        (args.local && remote_triple_given(&args)) ==> r matches Err(ConfigError::AmbiguousMode),
        (args.local && !remote_triple_given(&args)) ==> (r matches Ok(RunPlan::Local { details })
            && details == args.details),
        (!args.local && args.owner is None) ==> r matches Err(ConfigError::MissingOwner),
        (!args.local && args.owner is Some && args.repo is None) ==> r matches Err(
            ConfigError::MissingRepo,
        ),
        (!args.local && args.owner is Some && args.repo is Some && args.pr is None) ==> r matches
            Err(ConfigError::MissingPr),
        (!args.local && remote_triple_given(&args)) ==> (args.owner matches Some(o)
            && args.repo matches Some(rp) && args.pr matches Some(n) && r matches Ok(
            RunPlan::Remote { owner, repo, pr, details },
        ) && owner@ == o@ && repo@ == rp@ && pr == n && details == args.details),
{
    let Args { owner, repo, pr, local, details } = args;
    if local {
        match (&owner, &repo, &pr) {
            (Some(_), Some(_), Some(_)) => Err(ConfigError::AmbiguousMode),
            _ => Ok(RunPlan::Local { details }),
        }
    } else {
        match (owner, repo, pr) {
            (None, _, _) => Err(ConfigError::MissingOwner),
            (Some(_), None, _) => Err(ConfigError::MissingRepo),
            (Some(_), Some(_), None) => Err(ConfigError::MissingPr),
            (Some(owner), Some(repo), Some(pr)) => Ok(
                RunPlan::Remote { owner, repo, pr, details },
            ),
        }
    }
}

/// Appends a newline and then `new_str` to `buffer`.
pub fn append_with_newline(new_str: &str, buffer: &mut String)
    ensures
        final(buffer)@ == old(buffer)@ + "\n"@ + new_str@,
{
    buffer.append("\n");
    buffer.append(new_str);
}

/// The banner line printed before a remote pull request is analysed.
pub fn remote_banner(owner: &str, repo: &str, pr: u32) -> (r: String)
    ensures
        r@ == "Analysing PR changes: "@ + owner@ + "/"@ + repo@ + " #"@ + dec_seq(pr as int)
            + "\n"@,
{
    let mut s = String::from_str("Analysing PR changes: ");
    s.append(owner);
    s.append("/");
    s.append(repo);
    s.append(" #");
    push_dec(&mut s, pr);
    s.append("\n");
    s
}

} // verus!
