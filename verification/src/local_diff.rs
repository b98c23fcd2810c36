//! The local side of the Diff Source Adapter: it compares the committed tree
//! of the base branch `main` against the committed tree of HEAD in the
//! repository at the current working directory, and renders the result as a
//! unified patch. The version-control engine is an outside capability: each
//! call into it stands behind a trusted declaration, and everything computed
//! from what it hands back — the uncommitted-change warnings and the exact
//! line-prefix rendering — is verified.

use vstd::prelude::*;

verus! {

#[verifier::external_type_specification]
#[verifier::external_body]
pub struct ExRepository(git2::Repository);

#[verifier::external_type_specification]
#[verifier::external_body]
pub struct ExObject<'a>(git2::Object<'a>);

#[verifier::external_type_specification]
#[verifier::external_body]
pub struct ExCommit<'a>(git2::Commit<'a>);

#[verifier::external_type_specification]
#[verifier::external_body]
pub struct ExTree<'a>(git2::Tree<'a>);

#[verifier::external_type_specification]
#[verifier::external_body]
pub struct ExReference<'a>(git2::Reference<'a>);

#[verifier::external_type_specification]
#[verifier::external_body]
pub struct ExDiff<'a>(git2::Diff<'a>);

/// One line of a rendered diff, as the engine reports it: its origin marker
/// (`+`, `-`, a space for context, or another marker for headers) and its
/// content, newline included.
pub struct PatchLine {
    pub origin: char,
    pub content: String,
}

/// The mathematical value of a [`PatchLine`].
pub struct PatchLineView {
    pub origin: char,
    pub content: Seq<char>,
}

impl View for PatchLine {
    type V = PatchLineView;

    open spec fn view(&self) -> PatchLineView {
        PatchLineView { origin: self.origin, content: self.content@ }
    }
}

/// A failure of the local-diff strategy.
#[derive(Debug)]
pub enum RepositoryError {
    /// The working directory is not a valid repository.
    Open(String),
    /// The working-tree status entries could not be read.
    Status(String),
    /// The base reference `main` could not be resolved to a commit.
    ResolveBase(String),
    /// HEAD could not be resolved to a commit.
    ResolveHead(String),
    /// The tree-to-tree diff could not be computed or rendered.
    Diff(String),
}

impl RepositoryError {
    /// The spec-level message of this error.
    pub open spec fn message_spec(&self) -> Seq<char> {
        match self {
            RepositoryError::Open(m) => "Failed to open repository: "@ + m@,
            RepositoryError::Status(m) => "Failed to read repository status: "@ + m@,
            RepositoryError::ResolveBase(m) =>
                "The base reference 'main' could not be resolved: "@ + m@,
            RepositoryError::ResolveHead(m) => "HEAD could not be resolved: "@ + m@,
            RepositoryError::Diff(m) => "Failed to compute the diff: "@ + m@,
        }
    }

    /// The single-line diagnostic for this error.
    pub fn message(&self) -> (r: String)
        ensures
            r@ == self.message_spec(),
    {
        let (head, m): (&str, &String) = match self {
            RepositoryError::Open(m) => ("Failed to open repository: ", m),
            RepositoryError::Status(m) => ("Failed to read repository status: ", m),
            RepositoryError::ResolveBase(m) => (
                "The base reference 'main' could not be resolved: ",
                m,
            ),
            RepositoryError::ResolveHead(m) => ("HEAD could not be resolved: ", m),
            RepositoryError::Diff(m) => ("Failed to compute the diff: ", m),
        };
        let mut s = String::from_str(head);
        s.append(m.as_str());
        s
    }
}

/// What the local-diff strategy yields: the diagnostic warnings about
/// uncommitted changes (they are excluded, because the diff is computed
/// between two committed tree snapshots) and the rendered patch text.
pub struct LocalDiff {
    pub warnings: Vec<String>,
    pub patch: String,
}

/// Relies on git2::Repository::open: opens the repository at `path`. The
/// outcome depends on what is on disk, so nothing is promised of it; a
/// failure is handed back as its message.
#[verifier::external_body]
fn repo_open(path: &str) -> (r: Result<git2::Repository, String>) {
    git2::Repository::open(path).map_err(|e| e.message().to_string())
}

/// Relies on git2::Repository::statuses (ignored files excluded): one
/// (path, status-bits) pair per working-tree status entry, in reported
/// order; bits 0 means unmodified. The outcome depends on what is on disk.
#[verifier::external_body]
fn repo_status_records(repo: &git2::Repository) -> (r: Result<Vec<(String, u32)>, String>) {
    let mut opts = git2::StatusOptions::new();
    opts.include_ignored(false);
    match repo.statuses(Some(&mut opts)) {
        Ok(st) => Ok(
            st.iter().map(|e| (e.path().unwrap_or("").to_string(), e.status().bits())).collect(),
        ),
        Err(e) => Err(e.message().to_string()),
    }
}

/// Relies on git2::Repository::revparse_single: resolves a revision name to
/// an object. The outcome depends on what is on disk.
#[verifier::external_body]
fn repo_revparse_single<'r>(repo: &'r git2::Repository, refname: &str) -> (r: Result<
    git2::Object<'r>,
    String,
>) {
    repo.revparse_single(refname).map_err(|e| e.message().to_string())
}

/// Relies on git2::Object::peel_to_commit: peels an object to the commit it
/// points at, if any.
#[verifier::external_body]
fn object_peel_to_commit<'r>(obj: &git2::Object<'r>) -> (r: Result<git2::Commit<'r>, String>) {
    obj.peel_to_commit().map_err(|e| e.message().to_string())
}

/// Relies on git2::Repository::head: the reference HEAD points at. The
/// outcome depends on what is on disk.
#[verifier::external_body]
fn repo_head<'r>(repo: &'r git2::Repository) -> (r: Result<git2::Reference<'r>, String>) {
    repo.head().map_err(|e| e.message().to_string())
}

/// Relies on git2::Reference::peel_to_commit: peels a reference to the
/// commit it points at, if any.
#[verifier::external_body]
fn reference_peel_to_commit<'r>(rf: &git2::Reference<'r>) -> (r: Result<
    git2::Commit<'r>,
    String,
>) {
    rf.peel_to_commit().map_err(|e| e.message().to_string())
}

/// Relies on git2::Commit::tree: the tree this commit points to.
#[verifier::external_body]
fn commit_tree<'r>(c: &git2::Commit<'r>) -> (r: Result<git2::Tree<'r>, String>) {
    c.tree().map_err(|e| e.message().to_string())
}

/// Relies on git2::Repository::diff_tree_to_tree with default options: the
/// diff from `old` to `new`.
#[verifier::external_body]
fn diff_tree_to_tree<'r>(
    repo: &'r git2::Repository,
    old: &git2::Tree<'r>,
    new: &git2::Tree<'r>,
) -> (r: Result<git2::Diff<'r>, String>) {
    let mut opts = git2::DiffOptions::new();
    repo.diff_tree_to_tree(Some(old), Some(new), Some(&mut opts)).map_err(
        |e| e.message().to_string(),
    )
}

/// Relies on git2::Diff::print with the patch format: one record per printed
/// line, in file and hunk order, carrying the line's origin marker and its
/// content. Content that is not UTF-8 is replaced by the empty string, as
/// the rendering treats it.
#[verifier::external_body]
fn diff_patch_lines(diff: &git2::Diff) -> (r: Result<Vec<PatchLine>, String>) {
    let mut lines: Vec<PatchLine> = Vec::new();
    let res = diff.print(git2::DiffFormat::Patch, |_delta, _hunk, line| {
        let content = std::str::from_utf8(line.content()).unwrap_or("").to_string();
        lines.push(PatchLine { origin: line.origin(), content });
        true
    });
    match res {
        Ok(()) => Ok(lines),
        Err(e) => Err(e.message().to_string()),
    }
}

/// The prefix a rendered line carries: `+` for additions, `-` for deletions,
/// a single space for context lines, and nothing for any other origin
/// (file and hunk headers). This exact rule is load-bearing: the model's
/// instructions assume standard unified-diff syntax.
pub open spec fn origin_prefix(origin: char) -> Seq<char> {
    if origin == '+' {
        "+"@
    } else if origin == '-' {
        "-"@
    } else if origin == ' ' {
        " "@
    } else {
        Seq::empty()
    }
}

/// One rendered line: its prefix, then its content verbatim.
pub open spec fn line_text(l: PatchLineView) -> Seq<char> {
    origin_prefix(l.origin) + l.content
}

/// The rendering of the first `i` lines, in order.
pub open spec fn patch_text_upto(lines: Seq<PatchLineView>, i: int) -> Seq<char>
    decreases i,
{
    if i <= 0 {
        Seq::empty()
    } else {
        patch_text_upto(lines, i - 1) + line_text(lines[i - 1])
    }
}

/// The unified-patch rendering of a whole line sequence: every line's
/// prefixed text concatenated, preserving hunk and file order.
pub open spec fn patch_text(lines: Seq<PatchLineView>) -> Seq<char> {
    patch_text_upto(lines, lines.len() as int)
}

/// The view of a line list.
pub open spec fn lines_view(lines: Seq<PatchLine>) -> Seq<PatchLineView> {
    lines.map_values(|l: PatchLine| l@)
}

/// Renders diff lines as one unified patch text: for every line, in order,
/// `+` for additions, `-` for deletions, a space for context lines, nothing
/// for other origins, then the line's content.
pub fn render_patch(lines: &Vec<PatchLine>) -> (r: String)
    ensures
        r@ == patch_text(lines_view(lines@)),
{
    let mut out = String::new();
    let mut i: usize = 0;
    proof {
        assert(out@ =~= patch_text_upto(lines_view(lines@), 0));
    }
    while i < lines.len()
        invariant
            i <= lines@.len(),
            out@ == patch_text_upto(lines_view(lines@), i as int),
        decreases lines@.len() - i,
    {
        let l = &lines[i];
        if l.origin == '+' {
            out.append("+");
        } else if l.origin == '-' {
            out.append("-");
        } else if l.origin == ' ' {
            out.append(" ");
        }
        out.append(l.content.as_str());
        proof {
            assert(out@ =~= patch_text_upto(lines_view(lines@), i as int) + line_text(
                lines_view(lines@)[i as int],
            ));
        }
        i = i + 1;
    }
    out
}

/// The warning emitted for one uncommitted file.
pub open spec fn warning_line(path: Seq<char>) -> Seq<char> {
    "Warning: uncommitted changes detected in file: "@ + path
}

/// The view of a status-record list.
pub open spec fn records_view(records: Seq<(String, u32)>) -> Seq<(Seq<char>, u32)> {
    records.map_values(|p: (String, u32)| (p.0@, p.1))
}

/// The warnings for the first `i` status records: one line per record whose
/// status bits are not 0 (not unmodified), in order.
pub open spec fn warnings_upto(records: Seq<(Seq<char>, u32)>, i: int) -> Seq<Seq<char>>
    decreases i,
{
    if i <= 0 {
        Seq::empty()
    } else {
        warnings_upto(records, i - 1) + (if records[i - 1].1 != 0 {
            seq![warning_line(records[i - 1].0)]
        } else {
            Seq::<Seq<char>>::empty()
        })
    }
}

/// The diagnostic lines for a whole status-record list: one warning per
/// changed file, in order, and — when there was at least one — a closing
/// line saying that those changes are ignored.
pub open spec fn uncommitted_warnings(records: Seq<(Seq<char>, u32)>) -> Seq<Seq<char>> {
    let base = warnings_upto(records, records.len() as int);
    if exists|j: int| 0 <= j < records.len() && #[trigger] records[j].1 != 0 {
        base + seq!["These changes will be ignored.\n"@]
    } else {
        base
    }
}

/// Builds the uncommitted-change warnings for the given status records: a
/// line naming each file whose status is not unmodified, and a closing
/// notice when any such file exists. The changes themselves are excluded
/// from the comparison, which is purely between two committed trees.
pub fn warnings_for_status(records: &Vec<(String, u32)>) -> (r: Vec<String>)
    ensures
        r@.map_values(|s: String| s@) == uncommitted_warnings(records_view(records@)),
{
    let ghost rs = records_view(records@);
    let mut r: Vec<String> = Vec::new();
    let mut warned = false;
    let mut i: usize = 0;
    proof {
        assert(r@.map_values(|s: String| s@) =~= warnings_upto(rs, 0));
    }
    while i < records.len()
        invariant
            rs == records_view(records@),
            i <= records@.len(),
            r@.map_values(|s: String| s@) == warnings_upto(rs, i as int),
            warned <==> exists|j: int| 0 <= j < i && #[trigger] rs[j].1 != 0,
        decreases records@.len() - i,
    {
        let rec = &records[i];
        if rec.1 != 0 {
            let mut line = String::from_str("Warning: uncommitted changes detected in file: ");
            line.append(rec.0.as_str());
            r.push(line);
            warned = true;
        }
        proof {
            assert(r@.map_values(|s: String| s@) =~= warnings_upto(rs, i + 1));
        }
        i = i + 1;
    }
    if warned {
        r.push(String::from_str("These changes will be ignored.\n"));
    }
    proof {
        assert(r@.map_values(|s: String| s@) =~= uncommitted_warnings(rs));
    }
    r
}

/// The local-diff strategy, run in the repository at `path`: enumerate the
/// working-tree status and warn about uncommitted changes, resolve the base
/// reference `main` and HEAD to commits, diff their trees, and render the
/// result as a unified patch. Every outcome of the version-control engine
/// depends on what is on disk, so what can be promised here is the shape of
/// a success: the warnings are [`uncommitted_warnings`] of some status
/// records. What is built from each value the engine hands back is fixed
/// exactly by [`warnings_for_status`] and [`render_patch`].
pub fn get_git_diff_patch_in(path: &str) -> (r: Result<LocalDiff, RepositoryError>)
    ensures
        r matches Ok(d) ==> exists|recs: Seq<(Seq<char>, u32)>|
            d.warnings@.map_values(|s: String| s@) == uncommitted_warnings(recs),
{
    let repo = match repo_open(path) {
        Ok(repo) => repo,
        Err(m) => {
            return Err(RepositoryError::Open(m));
        },
    };
    let records = match repo_status_records(&repo) {
        Ok(records) => records,
        Err(m) => {
            return Err(RepositoryError::Status(m));
        },
    };
    let warnings = warnings_for_status(&records);
    let base_obj = match repo_revparse_single(&repo, "main") {
        Ok(obj) => obj,
        Err(m) => {
            return Err(RepositoryError::ResolveBase(m));
        },
    };
    let base_commit = match object_peel_to_commit(&base_obj) {
        Ok(c) => c,
        Err(m) => {
            return Err(RepositoryError::ResolveBase(m));
        },
    };
    let base_tree = match commit_tree(&base_commit) {
        Ok(t) => t,
        Err(m) => {
            return Err(RepositoryError::ResolveBase(m));
        },
    };
    let head_ref = match repo_head(&repo) {
        Ok(h) => h,
        Err(m) => {
            return Err(RepositoryError::ResolveHead(m));
        },
    };
    let head_commit = match reference_peel_to_commit(&head_ref) {
        Ok(c) => c,
        Err(m) => {
            return Err(RepositoryError::ResolveHead(m));
        },
    };
    let head_tree = match commit_tree(&head_commit) {
        Ok(t) => t,
        Err(m) => {
            return Err(RepositoryError::ResolveHead(m));
        },
    };
    let diff = match diff_tree_to_tree(&repo, &base_tree, &head_tree) {
        Ok(d) => d,
        Err(m) => {
            return Err(RepositoryError::Diff(m));
        },
    };
    let lines = match diff_patch_lines(&diff) {
        Ok(lines) => lines,
        Err(m) => {
            return Err(RepositoryError::Diff(m));
        },
    };
    let patch = render_patch(&lines);
    Ok(LocalDiff { warnings, patch })
}

/// The local-diff strategy in the repository rooted at the current working
/// directory.
pub fn get_git_diff_patch() -> (r: Result<LocalDiff, RepositoryError>)
    ensures
        r matches Ok(d) ==> exists|recs: Seq<(Seq<char>, u32)>|
            d.warnings@.map_values(|s: String| s@) == uncommitted_warnings(recs),
{
    get_git_diff_patch_in(".")
}

} // verus!
