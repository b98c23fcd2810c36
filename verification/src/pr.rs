//! The remote pull-request side of the Diff Source Adapter: the records a
//! hosting API returns, the exact rendering of a changed-file list into one
//! diff text, the request URLs, and the classification of HTTP outcomes.

use vstd::prelude::*;
use crate::prompt::{prompt_spec, TaskMode};
use crate::text::{dec_seq, is_substring_of, push_dec};
use crate::utils::append_with_newline;

verus! {

/// One changed file of a pull request, as the hosting API reports it:
/// its path, its change status (added, modified, removed, ...) and its
/// unified-diff patch text. Immutable once fetched.
#[derive(Debug)]
pub struct File {
    pub filename: String,
    pub patch: String,
    pub status: String,
}

/// The mathematical value of a [`File`].
pub struct FileView {
    pub filename: Seq<char>,
    pub patch: Seq<char>,
    pub status: Seq<char>,
}

impl View for File {
    type V = FileView;

    open spec fn view(&self) -> FileView {
        FileView { filename: self.filename@, patch: self.patch@, status: self.status@ }
    }
}

/// Pull-request metadata, as the hosting API reports it.
#[derive(Debug)]
pub struct PRInfo {
    pub title: String,
    pub body: String,
}

/// A fetched pull request: its metadata and its changed files, in exactly
/// the order the hosting API returned them.
pub struct PR {
    pub info: PRInfo,
    pub files: Vec<File>,
}

/// The rendering of one changed file: a newline, the "filename -- status"
/// header line, a newline, then the patch text verbatim.
pub open spec fn file_entry_text(f: FileView) -> Seq<char> {
    "\n"@ + f.filename + " -- "@ + f.status + "\n"@ + f.patch
}

/// The rendering of the first `i` files, in input order.
pub open spec fn files_diff_text_upto(files: Seq<FileView>, i: int) -> Seq<char>
    decreases i,
{
    if i <= 0 {
        Seq::empty()
    } else {
        files_diff_text_upto(files, i - 1) + file_entry_text(files[i - 1])
    }
}

/// The diff text of a whole changed-file list: the concatenation of each
/// file's rendering, in input order.
pub open spec fn files_diff_text(files: Seq<FileView>) -> Seq<char> {
    files_diff_text_upto(files, files.len() as int)
}

/// The view of a changed-file list.
pub open spec fn files_view(files: Seq<File>) -> Seq<FileView> {
    files.map_values(|f: File| f@)
}

/// Renders a changed-file list into the single diff text handed to the
/// Prompt Assembler: for each file, in input order, a newline, the
/// "filename -- status" header, a newline, and the patch text. No sorting,
/// no deduplication, no truncation.
pub fn render_changed_files(files: &Vec<File>) -> (r: String)
    ensures
        r@ == files_diff_text(files_view(files@)),
{
    let mut out = String::new();
    let mut i: usize = 0;
    proof {
        assert(out@ =~= files_diff_text_upto(files_view(files@), 0));
    }
    while i < files.len()
        invariant
            i <= files@.len(),
            out@ == files_diff_text_upto(files_view(files@), i as int),
        decreases files@.len() - i,
    {
        let f = &files[i];
        let mut header = String::new();
        header.append(f.filename.as_str());
        header.append(" -- ");
        header.append(f.status.as_str());
        append_with_newline(header.as_str(), &mut out);
        append_with_newline(f.patch.as_str(), &mut out);
        proof {
            assert(out@ =~= files_diff_text_upto(files_view(files@), i as int) + file_entry_text(
                files_view(files@)[i as int],
            ));
        }
        i = i + 1;
    }
    out
}

/// Law: for every changed-file list and task mode, the assembled
/// conversation's final message content is exactly the newline-joined
/// rendering of the files, in input order.
pub proof fn lemma_final_message_preserves_files(mode: TaskMode, files: Seq<FileView>)
    ensures
        prompt_spec(mode, files_diff_text(files))[3].1 == files_diff_text(files),
{
}

/// The metadata URL of a pull request.
pub open spec fn pr_url_spec(owner: Seq<char>, repo: Seq<char>, pr: int) -> Seq<char> {
    "https://api.github.com/repos/"@ + owner + "/"@ + repo + "/pulls/"@ + dec_seq(pr)
}

/// Builds the metadata URL of a pull request.
pub fn pr_url(owner: &str, repo: &str, pr: u32) -> (r: String)
    ensures
        r@ == pr_url_spec(owner@, repo@, pr as int),
{
    let mut s = String::from_str("https://api.github.com/repos/");
    s.append(owner);
    s.append("/");
    s.append(repo);
    s.append("/pulls/");
    push_dec(&mut s, pr);
    s
}

/// Builds the changed-files URL of a pull request.
pub fn files_url(owner: &str, repo: &str, pr: u32) -> (r: String)
    ensures
        r@ == pr_url_spec(owner@, repo@, pr as int) + "/files"@,
{
    let mut s = pr_url(owner, repo, pr);
    s.append("/files");
    s
}

/// The name of the environment variable that supplies the hosting-API
/// bearer token.
pub open spec fn credential_var_name() -> Seq<char> {
    "GH_PR_TOKEN"@
}

/// Builds the Authorization header value for a bearer token.
pub fn bearer_header_value(token: &str) -> (r: String)
    ensures
        r@ == "Bearer "@ + token@,
{
    let mut s = String::from_str("Bearer ");
    s.append(token);
    s
}

/// A failure of the remote-PR strategy.
#[derive(Debug)]
pub enum HostingApiError {
    /// The hosting API answered one of the two requests with a non-200
    /// status; the payload is the failing status code.
    BadStatus(u16),
    /// A response body was not the JSON shape the strategy expects.
    Decode(String),
}

/// The error message surfaced for a non-200 hosting-API status. For 401 and
/// 404 it adds the hint that a private repository needs the credential
/// environment variable.
pub open spec fn hosting_status_message(status: int) -> Seq<char> {
    if status == 404 || status == 401 {
        "GitHub API request failed with status: "@ + dec_seq(status)
            + ". \nIf this is a private repo, the '"@ + credential_var_name()
            + "' environment variable must be set."@
    } else {
        "GitHub API request failed with status: "@ + dec_seq(status) + "."@
    }
}

impl HostingApiError {
    /// The spec-level message of this error.
    pub open spec fn message_spec(&self) -> Seq<char> {
        match self {
            HostingApiError::BadStatus(status) => hosting_status_message(*status as int),
            HostingApiError::Decode(detail) => "Failed to decode the GitHub API response: "@
                + detail@,
        }
    }

    /// The single-line diagnostic for this error.
    pub fn message(&self) -> (r: String)
        ensures
            r@ == self.message_spec(),
    {
        match self {
            HostingApiError::BadStatus(status) => {
                let mut s = String::from_str("GitHub API request failed with status: ");
                push_dec(&mut s, *status as u32);
                if *status == 404 || *status == 401 {
                    s.append(". \nIf this is a private repo, the '");
                    s.append("GH_PR_TOKEN");
                    s.append("' environment variable must be set.");
                } else {
                    s.append(".");
                }
                s
            },
            HostingApiError::Decode(detail) => {
                let mut s = String::from_str("Failed to decode the GitHub API response: ");
                s.append(detail.as_str());
                s
            },
        }
    }
}

/// The status code reported when at least one of the two responses failed.
/// A 401 or 404 from either response wins — the credential hint depends on
/// the surfaced status — with the files response's preferred; otherwise the
/// files response's status when it is the bad one, else the metadata
/// response's.
pub open spec fn failing_status(pr_status: u16, files_status: u16) -> u16 {
    if files_status == 404 || files_status == 401 {
        files_status
    } else if pr_status == 404 || pr_status == 401 {
        pr_status
    } else if files_status != 200 {
        files_status
    } else {
        pr_status
    }
}

/// Classifies the pair of HTTP statuses from the metadata and changed-files
/// requests: success exactly when both are 200, otherwise the failure names
/// the offending status, preferring a 401 or 404 so that the credential hint
/// is never lost to another failure.
pub fn classify_pr_statuses(pr_status: u16, files_status: u16) -> (r: Result<
    (),
    HostingApiError,
>)
    ensures
        r is Ok <==> (pr_status == 200 && files_status == 200),
        !(pr_status == 200 && files_status == 200) ==> (r matches Err(
            HostingApiError::BadStatus(s),
        ) && s == failing_status(pr_status, files_status)),
{
    if pr_status == 200 && files_status == 200 {
        Ok(())
    } else if files_status == 404 || files_status == 401 {
        Err(HostingApiError::BadStatus(files_status))
    } else if pr_status == 404 || pr_status == 401 {
        Err(HostingApiError::BadStatus(pr_status))
    } else if files_status != 200 {
        Err(HostingApiError::BadStatus(files_status))
    } else {
        Err(HostingApiError::BadStatus(pr_status))
    }
}

/// Law: for every hosting-API outcome with HTTP status 404 or 401, the
/// surfaced error message contains the name of the credential environment
/// variable.
pub proof fn lemma_missing_credential_hint(status: u16)
    requires
        status == 404 || status == 401,
    ensures
        is_substring_of(credential_var_name(), hosting_status_message(status as int)),
{
    let head = "GitHub API request failed with status: "@ + dec_seq(status as int)
        + ". \nIf this is a private repo, the '"@;
    let name = credential_var_name();
    let m = hosting_status_message(status as int);
    assert(m.subrange(head.len() as int, head.len() as int + name.len() as int) =~= name);
}

/// Law: whenever either of the two responses carries HTTP status 404 or 401,
/// the run fails and the status it surfaces is a 404 or 401, so the error
/// message contains the name of the credential environment variable.
pub proof fn lemma_missing_credential_hint_for_responses(pr_status: u16, files_status: u16)
    requires
        pr_status == 404 || pr_status == 401 || files_status == 404 || files_status == 401,
    ensures
        !(pr_status == 200 && files_status == 200),
        is_substring_of(
            credential_var_name(),
            hosting_status_message(failing_status(pr_status, files_status) as int),
        ),
{
    lemma_missing_credential_hint(failing_status(pr_status, files_status));
}

} // verus!
