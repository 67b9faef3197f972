//! The published items and the coordinator that fills and serves them.
//!
//! [`PrHub`] holds one slot per kind of session (the list of pull requests,
//! the lines of a diff, the changed files of a pull request), the lines of
//! the one file that is selected, the shared error slot and the cancel flag.
//! A session is started on the caller's side, runs on a worker that only
//! talks to the tracker, and is finished by handing the worker's outcome back
//! to the hub, which publishes it in one step.

use crate::github::{
    chosen_token, count_comments, count_of, github_token, split_repo, DiffRecord, DiffRecordView,
    FetchError, IssueRecord, IssueRecordView, IssueState,
};
use crate::store::{error_text, ErrorSlot, FetchSlot, SessionState, StoreError};
use crate::text::{
    copy_window, join, join_texts, lemma_split_of_joined, lemma_split_of_plain, lines_of,
    lowercase, split, split_lines, split_text, to_lowercase, views, window,
};
use vstd::prelude::*;

verus! {

/// One pull request of the list.
#[derive(Debug, PartialEq)]
pub struct GhPr {
    /// The repository as `owner/name`; empty where the source knows one
    /// repository only.
    pub repo_name: String,
    pub number: usize,
    pub title: String,
    pub author: String,
    /// `open`, `closed` or `unknown`.
    pub state: String,
    /// The branch; empty until the pull request is fetched in detail.
    pub branch: String,
    pub additions: usize,
    pub deletions: usize,
    /// When the pull request was last updated, as ISO-8601 text.
    pub updated_at: String,
}

/// A [`GhPr`] as a mathematical value.
pub struct GhPrView {
    pub repo_name: Seq<char>,
    pub number: usize,
    pub title: Seq<char>,
    pub author: Seq<char>,
    pub state: Seq<char>,
    pub branch: Seq<char>,
    pub additions: usize,
    pub deletions: usize,
    pub updated_at: Seq<char>,
}

impl View for GhPr {
    type V = GhPrView;

    open spec fn view(&self) -> GhPrView {
        GhPrView {
            repo_name: self.repo_name@,
            number: self.number,
            title: self.title@,
            author: self.author@,
            state: self.state@,
            branch: self.branch@,
            additions: self.additions,
            deletions: self.deletions,
            updated_at: self.updated_at@,
        }
    }
}

impl DeepView for GhPr {
    type V = GhPrView;

    open spec fn deep_view(&self) -> GhPrView {
        self@
    }
}

impl Clone for GhPr {
    fn clone(&self) -> (copy: Self)
        ensures
            copy == *self,
    {
        GhPr {
            repo_name: self.repo_name.clone(),
            number: self.number,
            title: self.title.clone(),
            author: self.author.clone(),
            state: self.state.clone(),
            branch: self.branch.clone(),
            additions: self.additions,
            deletions: self.deletions,
            updated_at: self.updated_at.clone(),
        }
    }
}

/// The repository that an address path names: of the parts of `path` between
/// its `/`, the third and the fourth, with a `/` between them.
pub open spec fn repo_of_path(path: Seq<char>) -> Seq<char> {
    join(window(split(path, '/'), 2, 2), "/"@)
}

/// The address path of a repository, `/repos/` followed by owner and name
/// with a `/` between them, names the repository `owner/name`.
pub proof fn lemma_repo_of_api_path(owner: Seq<char>, name: Seq<char>)
    requires
        !owner.contains('/'),
        !name.contains('/'),
    ensures
        repo_of_path("/repos/"@ + owner + seq!['/'] + name) == owner + seq!['/'] + name,
{
    reveal_strlit("/repos/");
    reveal_strlit("/");
    let repos = seq!['r', 'e', 'p', 'o', 's'];
    let path = "/repos/"@ + owner + seq!['/'] + name;
    let tail = owner + seq!['/'] + name;
    let rest = repos + seq!['/'] + tail;
    assert("/repos/"@ == seq!['/', 'r', 'e', 'p', 'o', 's', '/']);
    assert("/"@ == seq!['/']);
    assert(path == Seq::<char>::empty() + seq!['/'] + rest);
    assert(!repos.contains('/'));
    lemma_split_of_joined(Seq::<char>::empty(), rest, '/');
    lemma_split_of_joined(repos, tail, '/');
    lemma_split_of_joined(owner, name, '/');
    lemma_split_of_plain(Seq::<char>::empty(), '/');
    lemma_split_of_plain(repos, '/');
    lemma_split_of_plain(owner, '/');
    lemma_split_of_plain(name, '/');
    let pieces = split(path, '/');
    assert(pieces == seq![Seq::<char>::empty(), repos, owner, name]);
    let picked = window(pieces, 2, 2);
    assert(picked == seq![owner, name]);
    assert(picked.drop_last() == seq![owner]);
    assert(join(picked.drop_last(), "/"@) == owner);
}

/// The text that stands for a state.
pub open spec fn state_name(state: IssueState) -> Seq<char> {
    match state {
        IssueState::Open => "open"@,
        IssueState::Closed => "closed"@,
        IssueState::Unknown => "unknown"@,
    }
}

/// The pull request that a search result stands for. Branch and line counts
/// are not part of a search result and stay empty.
pub open spec fn pr_of_issue(issue: IssueRecordView) -> GhPrView {
    GhPrView {
        repo_name: repo_of_path(issue.repository_path),
        number: issue.number as usize,
        title: issue.title,
        author: issue.author,
        state: state_name(issue.state),
        branch: Seq::empty(),
        additions: 0,
        deletions: 0,
        updated_at: issue.updated_at,
    }
}

/// The repository that an address path names, as `owner/name`.
pub fn repo_name_from_path(path: &str) -> (repo: String)
    ensures
        repo@ == repo_of_path(path@),
{
    let parts = split_text(path, '/');
    let picked = copy_window(&parts, 2, 2);
    join_texts(&picked, "/")
}

impl GhPr {
    /// The pull request that a search result stands for.
    pub fn from_issue(issue: &IssueRecord) -> (pr: GhPr)
        ensures
            pr@ == pr_of_issue(issue@),
    {
        let state = match issue.state {
            IssueState::Open => String::from_str("open"),
            IssueState::Closed => String::from_str("closed"),
            IssueState::Unknown => String::from_str("unknown"),
        };
        GhPr {
            repo_name: repo_name_from_path(issue.repository_path.as_str()),
            number: issue.number as usize,
            title: issue.title.clone(),
            author: issue.author.clone(),
            state,
            branch: String::new(),
            additions: 0,
            deletions: 0,
            updated_at: issue.updated_at.clone(),
        }
    }

    pub fn repo_name(&self) -> (repo_name: String)
        ensures
            repo_name@ == self@.repo_name,
    {
        self.repo_name.clone()
    }

    pub fn number(&self) -> (number: usize)
        ensures
            number == self@.number,
    {
        self.number
    }

    pub fn title(&self) -> (title: String)
        ensures
            title@ == self@.title,
    {
        self.title.clone()
    }

    pub fn author(&self) -> (author: String)
        ensures
            author@ == self@.author,
    {
        self.author.clone()
    }

    pub fn state(&self) -> (state: String)
        ensures
            state@ == self@.state,
    {
        self.state.clone()
    }

    pub fn branch(&self) -> (branch: String)
        ensures
            branch@ == self@.branch,
    {
        self.branch.clone()
    }

    pub fn additions(&self) -> (additions: usize)
        ensures
            additions == self@.additions,
    {
        self.additions
    }

    pub fn deletions(&self) -> (deletions: usize)
        ensures
            deletions == self@.deletions,
    {
        self.deletions
    }

    pub fn updated_at(&self) -> (updated_at: String)
        ensures
            updated_at@ == self@.updated_at,
    {
        self.updated_at.clone()
    }
}

/// One changed file of a pull request.
#[derive(Debug, PartialEq)]
pub struct GhChangedFile {
    pub filename: String,
    /// The kind of change, in lower case.
    pub status: String,
    pub additions: usize,
    pub deletions: usize,
    /// The patch text; empty where the tracker sent none.
    pub patch: String,
    /// The number of review comments on the file; 0 where they could not be
    /// counted.
    pub review_comments: usize,
}

/// A [`GhChangedFile`] as a mathematical value.
pub struct GhChangedFileView {
    pub filename: Seq<char>,
    pub status: Seq<char>,
    pub additions: usize,
    pub deletions: usize,
    pub patch: Seq<char>,
    pub review_comments: usize,
}

impl View for GhChangedFile {
    type V = GhChangedFileView;

    open spec fn view(&self) -> GhChangedFileView {
        GhChangedFileView {
            filename: self.filename@,
            status: self.status@,
            additions: self.additions,
            deletions: self.deletions,
            patch: self.patch@,
            review_comments: self.review_comments,
        }
    }
}

impl DeepView for GhChangedFile {
    type V = GhChangedFileView;

    open spec fn deep_view(&self) -> GhChangedFileView {
        self@
    }
}

impl Clone for GhChangedFile {
    fn clone(&self) -> (copy: Self)
        ensures
            copy == *self,
    {
        GhChangedFile {
            filename: self.filename.clone(),
            status: self.status.clone(),
            additions: self.additions,
            deletions: self.deletions,
            patch: self.patch.clone(),
            review_comments: self.review_comments,
        }
    }
}

/// The patch text of an entry: what the tracker sent, or nothing.
pub open spec fn patch_text(patch: Option<Seq<char>>) -> Seq<char> {
    match patch {
        Some(text) => text,
        None => Seq::empty(),
    }
}

/// The changed file that is made of an entry's fields and a status that is
/// already in its final spelling. No review comment is counted yet.
pub open spec fn file_of_parts(entry: DiffRecordView, status: Seq<char>) -> GhChangedFileView {
    GhChangedFileView {
        filename: entry.filename,
        status,
        additions: entry.additions as usize,
        deletions: entry.deletions as usize,
        patch: patch_text(entry.patch),
        review_comments: 0,
    }
}

/// The changed file that an entry of the tracker's list stands for: its
/// status in lower case, and no review comment counted yet.
pub open spec fn file_of_entry(entry: DiffRecordView) -> GhChangedFileView {
    file_of_parts(entry, lowercase(entry.status))
}

/// What the request for the review comments of a pull request came back
/// with: the file path of each comment, or the message of the failure.
pub type CommentPaths = Result<Seq<Seq<char>>, Seq<char>>;

/// The number of review comments on `filename`: how many of the comment
/// paths are `filename`; 0 where the request for the comments failed.
pub open spec fn comments_on(comments: CommentPaths, filename: Seq<char>) -> usize {
    match comments {
        Ok(paths) => count_of(paths, filename) as usize,
        Err(_) => 0,
    }
}

/// What a worker or a request came back with, as a mathematical value.
pub open spec fn outcome_view<T: DeepView, E: DeepView>(outcome: Result<T, E>) -> Result<T::V, E::V> {
    match outcome {
        Ok(value) => Ok(value.deep_view()),
        Err(error) => Err(error.deep_view()),
    }
}

/// A changed file with its review comments counted.
pub open spec fn with_comments(
    file: GhChangedFileView,
    comments: CommentPaths,
) -> GhChangedFileView {
    GhChangedFileView { review_comments: comments_on(comments, file.filename), ..file }
}

impl GhChangedFile {
    /// The changed file made of the fields of `entry` and of `status`, which
    /// is taken as it is.
    pub fn from_parts(entry: &DiffRecord, status: String) -> (file: GhChangedFile)
        ensures
            file@ == file_of_parts(entry@, status@),
    {
        let patch = match &entry.patch {
            Some(text) => text.clone(),
            None => String::new(),
        };
        GhChangedFile {
            filename: entry.filename.clone(),
            status,
            additions: entry.additions as usize,
            deletions: entry.deletions as usize,
            patch,
            review_comments: 0,
        }
    }

    /// The changed file that an entry of the tracker's list stands for.
    pub fn from_entry(entry: &DiffRecord) -> (file: GhChangedFile)
        ensures
            file@ == file_of_entry(entry@),
    {
        let status = to_lowercase(entry.status.as_str());
        GhChangedFile::from_parts(entry, status)
    }

    pub fn filename(&self) -> (filename: String)
        ensures
            filename@ == self@.filename,
    {
        self.filename.clone()
    }

    pub fn status(&self) -> (status: String)
        ensures
            status@ == self@.status,
    {
        self.status.clone()
    }

    pub fn additions(&self) -> (additions: usize)
        ensures
            additions == self@.additions,
    {
        self.additions
    }

    pub fn deletions(&self) -> (deletions: usize)
        ensures
            deletions == self@.deletions,
    {
        self.deletions
    }

    pub fn patch(&self) -> (patch: String)
        ensures
            patch@ == self@.patch,
    {
        self.patch.clone()
    }

    pub fn review_comments(&self) -> (review_comments: usize)
        ensures
            review_comments == self@.review_comments,
    {
        self.review_comments
    }
}

/// The pull requests that a merged search result stands for, one for one.
pub open spec fn prs_of_issues(issues: Seq<IssueRecordView>) -> Seq<GhPrView> {
    issues.map_values(|issue: IssueRecordView| pr_of_issue(issue))
}

/// The changed files that the tracker's entries stand for, one for one and
/// in the tracker's order, each with its review comments counted.
pub open spec fn files_of_entries(
    entries: Seq<DiffRecordView>,
    comments: CommentPaths,
) -> Seq<GhChangedFileView> {
    entries.map_values(|entry: DiffRecordView| with_comments(file_of_entry(entry), comments))
}

/// Turns the tracker's entries into changed files and counts the review
/// comments of each. Where the request for the comments failed, every count
/// is 0.
pub fn enrich_files(entries: &Vec<DiffRecord>, comments: &Result<Vec<String>, String>) -> (files:
    Vec<GhChangedFile>)
    ensures
        files.deep_view() == files_of_entries(entries.deep_view(), outcome_view(*comments)),
{
    let mut files: Vec<GhChangedFile> = Vec::new();
    let mut i: usize = 0;
    while i < entries.len()
        invariant
            i <= entries.len(),
            files.deep_view() == files_of_entries(
                entries.deep_view(),
                outcome_view(*comments),
            ).take(i as int),
        decreases entries.len() - i,
    {
        let ghost before = files.deep_view();
        let mut file = GhChangedFile::from_entry(&entries[i]);
        file.review_comments = match comments {
            Ok(paths) => count_comments(paths, &file.filename),
            Err(_) => 0,
        };
        files.push(file);
        proof {
            assert(files.deep_view() == before.push(file@));
        }
        i += 1;
    }
    files
}

/// Turns a merged search result into the list of pull requests.
pub fn convert_issues(issues: &Vec<IssueRecord>) -> (prs: Vec<GhPr>)
    ensures
        prs.deep_view() == prs_of_issues(issues.deep_view()),
{
    let mut prs: Vec<GhPr> = Vec::new();
    let mut i: usize = 0;
    while i < issues.len()
        invariant
            i <= issues.len(),
            prs.deep_view() == prs_of_issues(issues.deep_view()).take(i as int),
        decreases issues.len() - i,
    {
        let ghost before = prs.deep_view();
        let pr = GhPr::from_issue(&issues[i]);
        prs.push(pr);
        proof {
            assert(prs.deep_view() == before.push(pr@));
        }
        i += 1;
    }
    prs
}

/// What a fetch of one pull request is sent out with.
#[derive(Debug, PartialEq)]
pub struct FetchTarget {
    /// The credential.
    pub token: String,
    /// The owner of the repository.
    pub owner: String,
    /// The name of the repository.
    pub repo: String,
    /// The number of the pull request.
    pub number: u64,
}

/// What the hub holds, as a mathematical value.
pub struct HubView {
    pub list_state: SessionState,
    pub prs: Seq<GhPrView>,
    pub diff_state: SessionState,
    pub diff_lines: Seq<Seq<char>>,
    pub files_state: SessionState,
    pub files: Seq<GhChangedFileView>,
    /// The head commit of the pull request whose files were fetched last.
    pub head_sha: Seq<char>,
    /// The patch lines of the file that was selected last.
    pub file_diff_lines: Seq<Seq<char>>,
    /// The one visible failure, if any.
    pub error: Option<Seq<char>>,
    pub cancel: bool,
}

impl HubView {
    /// The hub as it is made: every session idle, nothing stored, no failure,
    /// no cancel request.
    pub open spec fn fresh() -> HubView {
        HubView {
            list_state: SessionState::Idle,
            prs: Seq::empty(),
            diff_state: SessionState::Idle,
            diff_lines: Seq::empty(),
            files_state: SessionState::Idle,
            files: Seq::empty(),
            head_sha: Seq::empty(),
            file_diff_lines: Seq::empty(),
            error: None,
            cancel: false,
        }
    }

    /// Nothing is stored for a session that has not ended: what a reader
    /// finds in a slot was published by a worker whose session is complete.
    pub open spec fn settled(self) -> bool {
        &&& !self.list_state.complete() ==> self.prs.len() == 0
        &&& !self.diff_state.complete() ==> self.diff_lines.len() == 0
        &&& !self.files_state.complete() ==> self.files.len() == 0
    }

    /// A list session starts: its slot is reset, the failure is cleared, and
    /// the session runs.
    pub open spec fn start_list(self) -> HubView {
        HubView { list_state: SessionState::Running, prs: Seq::empty(), error: None, ..self }
    }

    /// A list session ends. Its list is published, or its failure is made
    /// visible; either way the session is complete.
    pub open spec fn finish_list(self, outcome: Result<Seq<GhPrView>, Seq<char>>) -> HubView {
        match outcome {
            Ok(prs) => HubView { list_state: SessionState::CompletedOk, prs, ..self },
            Err(message) => HubView {
                list_state: SessionState::CompletedErr,
                error: Some(message),
                ..self
            },
        }
    }

    /// A diff session starts.
    pub open spec fn start_diff(self) -> HubView {
        HubView { diff_state: SessionState::Running, diff_lines: Seq::empty(), error: None, ..self }
    }

    /// A diff session ends. Its lines are published, or its failure is made
    /// visible; either way the session is complete.
    pub open spec fn finish_diff(self, outcome: Result<Seq<Seq<char>>, Seq<char>>) -> HubView {
        match outcome {
            Ok(lines) => HubView {
                diff_state: SessionState::CompletedOk,
                diff_lines: lines,
                ..self
            },
            Err(message) => HubView {
                diff_state: SessionState::CompletedErr,
                error: Some(message),
                ..self
            },
        }
    }

    /// A changed-files session starts.
    pub open spec fn start_files(self) -> HubView {
        HubView { files_state: SessionState::Running, files: Seq::empty(), error: None, ..self }
    }

    /// A changed-files session ends. Its files are published, and with them
    /// the head commit; or its failure is made visible. Either way the
    /// session is complete.
    pub open spec fn finish_files(
        self,
        outcome: Result<(Seq<GhChangedFileView>, Seq<char>), Seq<char>>,
    ) -> HubView {
        match outcome {
            Ok((files, head_sha)) => HubView {
                files_state: SessionState::CompletedOk,
                files,
                head_sha,
                ..self
            },
            Err(message) => HubView {
                files_state: SessionState::CompletedErr,
                error: Some(message),
                ..self
            },
        }
    }

    /// The file at `index` is selected: its patch lines are stored. An index
    /// past the last file stores no lines.
    pub open spec fn select_file(self, index: nat) -> HubView {
        HubView {
            file_diff_lines: if index < self.files.len() {
                lines_of(self.files[index as int].patch)
            } else {
                Seq::empty()
            },
            ..self
        }
    }

    /// The caller asks for cancellation: the flag is set, and nothing that
    /// runs or is stored is touched.
    pub open spec fn request_cancel(self) -> HubView {
        HubView { cancel: true, ..self }
    }
}

/// What a list worker hands to the hub: the pull requests that its merged
/// search result stands for, or its failure as it is.
pub open spec fn list_result(outcome: Result<Seq<IssueRecordView>, Seq<char>>) -> Result<
    Seq<GhPrView>,
    Seq<char>,
> {
    match outcome {
        Ok(issues) => Ok(prs_of_issues(issues)),
        Err(message) => Err(message),
    }
}

/// What a diff worker hands to the hub: the lines of the diff, or its failure
/// as it is.
pub open spec fn diff_result(outcome: Result<Seq<char>, Seq<char>>) -> Result<
    Seq<Seq<char>>,
    Seq<char>,
> {
    match outcome {
        Ok(text) => Ok(lines_of(text)),
        Err(message) => Err(message),
    }
}

/// What a changed-files worker hands to the hub: the files with their review
/// comments counted and the head commit, or its failure as it is. Whether the
/// review comments could be had changes the counts only.
pub open spec fn files_result(
    outcome: Result<(Seq<DiffRecordView>, Seq<char>), Seq<char>>,
    comments: CommentPaths,
) -> Result<(Seq<GhChangedFileView>, Seq<char>), Seq<char>> {
    match outcome {
        Ok((entries, head_sha)) => Ok((files_of_entries(entries, comments), head_sha)),
        Err(message) => Err(message),
    }
}

/// Makes of the outcome of the searches what a list worker hands to the hub.
pub fn prepare_list(outcome: Result<Vec<IssueRecord>, String>) -> (prepared: Result<
    Vec<GhPr>,
    String,
>)
    ensures
        outcome_view(prepared) == list_result(outcome_view(outcome)),
{
    match outcome {
        Ok(issues) => Ok(convert_issues(&issues)),
        Err(message) => Err(message),
    }
}

/// Makes of the outcome of the diff request what a diff worker hands to the
/// hub: the text is cut into lines.
pub fn prepare_diff(outcome: Result<String, String>) -> (prepared: Result<Vec<String>, String>)
    ensures
        outcome_view(prepared) == diff_result(outcome_view(outcome)),
{
    match outcome {
        Ok(text) => Ok(split_lines(text.as_str())),
        Err(message) => Err(message),
    }
}

/// Makes of the outcome of the file requests what a changed-files worker
/// hands to the hub. `comments` is the reply to the request for the review
/// comments of the pull request: the file path of each comment, or the
/// message of the failure. A failure there is no failure of the session:
/// every file then counts 0 comments. Where the files could not be fetched,
/// `comments` is not looked at.
pub fn prepare_files(
    outcome: Result<(Vec<DiffRecord>, String), String>,
    comments: Result<Vec<String>, String>,
) -> (prepared: Result<(Vec<GhChangedFile>, String), String>)
    ensures
        outcome_view(prepared) == files_result(outcome_view(outcome), outcome_view(comments)),
{
    match outcome {
        Ok((entries, head_sha)) => Ok((enrich_files(&entries, &comments), head_sha)),
        Err(message) => Err(message),
    }
}

/// What a fetch of the pull request `pr_number` of `repo` is sent out with,
/// given the two places that may hold the credential; or why it cannot be
/// sent. The repository identifier is looked at first.
pub open spec fn target_of(
    repo: Seq<char>,
    primary: Option<Seq<char>>,
    fallback: Option<Seq<char>>,
) -> Result<Seq<char>, FetchError> {
    if !repo.contains('/') {
        Err(FetchError::Validation)
    } else {
        match chosen_token(primary, fallback) {
            Some(token) => Ok(token),
            None => Err(FetchError::Configuration),
        }
    }
}

/// Checks what a fetch of one pull request needs before a worker is sent:
/// a repository identifier of the form `owner/name`, and a credential.
pub fn plan_fetch(
    repo: &str,
    pr_number: usize,
    primary: Option<String>,
    fallback: Option<String>,
) -> (plan: Result<FetchTarget, FetchError>)
    ensures
        match plan {
            Ok(target) => {
                &&& target_of(repo@, primary.deep_view(), fallback.deep_view()) == Ok::<
                    Seq<char>,
                    FetchError,
                >(target.token@)
                &&& repo@ == target.owner@ + seq!['/'] + target.repo@
                &&& !target.owner@.contains('/')
                &&& target.number == pr_number
            },
            Err(e) => target_of(repo@, primary.deep_view(), fallback.deep_view()) == Err::<
                Seq<char>,
                FetchError,
            >(e),
        },
{
    match split_repo(repo) {
        Err(e) => Err(e),
        Ok((owner, name)) => {
            proof {
                assert((owner@ + seq!['/'] + name@)[owner@.len() as int] == '/');
            }
            match github_token(primary, fallback) {
                Err(e) => Err(e),
                Ok(token) => Ok(FetchTarget { token, owner, repo: name, number: pr_number as u64 }),
            }
        },
    }
}

/// The coordinator of the fetch sessions and the store of what they found.
#[derive(Debug)]
pub struct PrHub {
    prs: FetchSlot<GhPr>,
    error: ErrorSlot,
    cancel: bool,
    diff_lines: FetchSlot<String>,
    changed_files: FetchSlot<GhChangedFile>,
    head_sha: String,
    file_diff_lines: FetchSlot<String>,
}

impl View for PrHub {
    type V = HubView;

    closed spec fn view(&self) -> HubView {
        HubView {
            list_state: self.prs@.state,
            prs: views(self.prs@.items),
            diff_state: self.diff_lines@.state,
            diff_lines: views(self.diff_lines@.items),
            files_state: self.changed_files@.state,
            files: views(self.changed_files@.items),
            head_sha: self.head_sha@,
            file_diff_lines: views(self.file_diff_lines@.items),
            error: self.error@,
            cancel: self.cancel,
        }
    }
}

impl PrHub {
    /// A hub with every session idle and nothing stored.
    pub fn new() -> (hub: Self)
        ensures
            hub@ == HubView::fresh(),
    {
        let hub = PrHub {
            prs: FetchSlot::new(),
            error: ErrorSlot::new(),
            cancel: false,
            diff_lines: FetchSlot::new(),
            changed_files: FetchSlot::new(),
            head_sha: String::new(),
            file_diff_lines: FetchSlot::new(),
        };
        proof {
            assert(hub@.prs == Seq::<GhPrView>::empty());
            assert(hub@.diff_lines == Seq::<Seq<char>>::empty());
            assert(hub@.files == Seq::<GhChangedFileView>::empty());
            assert(hub@.file_diff_lines == Seq::<Seq<char>>::empty());
        }
        hub
    }

    /// Starts a list session, given the two places that may hold the
    /// credential. Without a credential nothing is started and the hub stays
    /// as it is. With one, the list slot is reset, the failure is cleared,
    /// the session runs, and the credential for the worker is returned.
    pub fn start_fetch(&mut self, primary: Option<String>, fallback: Option<String>) -> (started:
        Result<String, FetchError>)
        ensures
            match started {
                Ok(token) => chosen_token(primary.deep_view(), fallback.deep_view()) == Some(
                    token@,
                ) && final(self)@ == old(self)@.start_list(),
                Err(e) => chosen_token(primary.deep_view(), fallback.deep_view()) is None && e
                    == FetchError::Configuration && final(self)@ == old(self)@,
            },
    {
        match github_token(primary, fallback) {
            Err(e) => Err(e),
            Ok(token) => {
                self.prs.start();
                self.error.clear();
                proof {
                    assert(final(self)@.prs == Seq::<GhPrView>::empty());
                }
                Ok(token)
            },
        }
    }

    /// Ends the list session with what its worker hands over: the list of
    /// pull requests, which is published, or the message of the failure,
    /// which is made visible. Either way the session is complete.
    pub fn complete_fetch(&mut self, outcome: Result<Vec<GhPr>, String>)
        ensures
            final(self)@ == old(self)@.finish_list(outcome_view(outcome)),
    {
        match outcome {
            Ok(prs) => {
                proof {
                    assert(prs.deep_view() == views(prs@));
                }
                self.prs.publish(prs);
            },
            Err(message) => {
                self.error.set(message);
                self.prs.fail();
            },
        }
    }

    /// Whether the list session has ended.
    pub fn fetch_complete(&self) -> (done: bool)
        ensures
            done == self@.list_state.complete(),
            !done ==> self@.prs.len() == 0,
    {
        self.prs.is_complete()
    }

    /// The state of the list session.
    pub fn fetch_state(&self) -> (state: SessionState)
        ensures
            state == self@.list_state,
    {
        self.prs.state()
    }

    /// Asks for cancellation. Workers may look at the flag before they
    /// begin; what runs already is not stopped.
    pub fn cancel_fetch(&mut self)
        ensures
            final(self)@ == old(self)@.request_cancel(),
    {
        self.cancel = true;
    }

    /// Whether cancellation was asked for.
    pub fn cancel_requested(&self) -> (cancel: bool)
        ensures
            cancel == self@.cancel,
    {
        self.cancel
    }

    /// The message of the visible failure; empty where there is none.
    pub fn error(&self) -> (message: String)
        ensures
            message@ == error_text(self@.error),
    {
        self.error.text()
    }

    /// The number of pull requests in the list.
    pub fn pr_count(&self) -> (count: usize)
        ensures
            count == self@.prs.len(),
    {
        self.prs.read_count()
    }

    /// The pull request at `index`; an index past the end of the list is
    /// refused.
    pub fn read_pr(&self, index: usize) -> (found: Result<GhPr, StoreError>)
        ensures
            match found {
                Ok(pr) => index < self@.prs.len() && pr@ == self@.prs[index as int],
                Err(e) => index >= self@.prs.len() && e == StoreError::OutOfRange,
            },
    {
        match self.prs.read_item(index) {
            Ok(pr) => Ok(pr.clone()),
            Err(e) => Err(e),
        }
    }

    /// The pull request at `index`, which is below the length of the list.
    pub fn pr_at(&self, index: usize) -> (pr: GhPr)
        requires
            index < self@.prs.len(),
        ensures
            pr@ == self@.prs[index as int],
    {
        self.prs.items()[index].clone()
    }

    /// Starts a diff session for the pull request `pr_number` of `repo`.
    /// Where the repository identifier or the credential is missing, nothing
    /// is started and the hub stays as it is. Else the diff slot is reset,
    /// the failure is cleared, the session runs, and what the worker needs
    /// is returned.
    pub fn start_diff_fetch(
        &mut self,
        repo: String,
        pr_number: usize,
        primary: Option<String>,
        fallback: Option<String>,
    ) -> (started: Result<FetchTarget, FetchError>)
        ensures
            match started {
                Ok(target) => {
                    &&& target_of(repo@, primary.deep_view(), fallback.deep_view()) == Ok::<
                        Seq<char>,
                        FetchError,
                    >(target.token@)
                    &&& repo@ == target.owner@ + seq!['/'] + target.repo@
                    &&& !target.owner@.contains('/')
                    &&& target.number == pr_number
                    &&& final(self)@ == old(self)@.start_diff()
                },
                Err(e) => target_of(repo@, primary.deep_view(), fallback.deep_view()) == Err::<
                    Seq<char>,
                    FetchError,
                >(e) && final(self)@ == old(self)@,
            },
    {
        match plan_fetch(repo.as_str(), pr_number, primary, fallback) {
            Err(e) => Err(e),
            Ok(target) => {
                self.diff_lines.start();
                self.error.clear();
                proof {
                    assert(final(self)@.diff_lines == Seq::<Seq<char>>::empty());
                }
                Ok(target)
            },
        }
    }

    /// Ends the diff session with what its worker hands over: the lines of
    /// the diff, which are published, or the message of the failure, which
    /// is made visible. Either way the session is complete.
    pub fn complete_diff_fetch(&mut self, outcome: Result<Vec<String>, String>)
        ensures
            final(self)@ == old(self)@.finish_diff(outcome_view(outcome)),
    {
        match outcome {
            Ok(lines) => {
                proof {
                    assert(lines.deep_view() == views(lines@));
                }
                self.diff_lines.publish(lines);
            },
            Err(message) => {
                self.error.set(message);
                self.diff_lines.fail();
            },
        }
    }

    /// Whether the diff session has ended.
    pub fn diff_fetch_complete(&self) -> (done: bool)
        ensures
            done == self@.diff_state.complete(),
            !done ==> self@.diff_lines.len() == 0,
    {
        self.diff_lines.is_complete()
    }

    /// The state of the diff session.
    pub fn diff_fetch_state(&self) -> (state: SessionState)
        ensures
            state == self@.diff_state,
    {
        self.diff_lines.state()
    }

    /// The lines of the diff from `offset` on, at most `count` of them. An
    /// `offset` past the last line gives no lines.
    pub fn diff_lines(&self, offset: usize, count: usize) -> (lines: Vec<String>)
        ensures
            lines.deep_view() == window(self@.diff_lines, offset as nat, count as nat),
    {
        self.diff_lines.read_lines(offset, count)
    }

    /// The number of lines of the diff.
    pub fn diff_line_count(&self) -> (count: usize)
        ensures
            count == self@.diff_lines.len(),
    {
        self.diff_lines.read_count()
    }

    /// Starts a changed-files session for the pull request `pr_number` of
    /// `repo`. Where the repository identifier or the credential is missing,
    /// nothing is started and the hub stays as it is. Else the files slot is
    /// reset, the failure is cleared, the session runs, and what the worker
    /// needs is returned.
    pub fn start_files_fetch(
        &mut self,
        repo: String,
        pr_number: usize,
        primary: Option<String>,
        fallback: Option<String>,
    ) -> (started: Result<FetchTarget, FetchError>)
        ensures
            match started {
                Ok(target) => {
                    &&& target_of(repo@, primary.deep_view(), fallback.deep_view()) == Ok::<
                        Seq<char>,
                        FetchError,
                    >(target.token@)
                    &&& repo@ == target.owner@ + seq!['/'] + target.repo@
                    &&& !target.owner@.contains('/')
                    &&& target.number == pr_number
                    &&& final(self)@ == old(self)@.start_files()
                },
                Err(e) => target_of(repo@, primary.deep_view(), fallback.deep_view()) == Err::<
                    Seq<char>,
                    FetchError,
                >(e) && final(self)@ == old(self)@,
            },
    {
        match plan_fetch(repo.as_str(), pr_number, primary, fallback) {
            Err(e) => Err(e),
            Ok(target) => {
                self.changed_files.start();
                self.error.clear();
                proof {
                    assert(final(self)@.files == Seq::<GhChangedFileView>::empty());
                }
                Ok(target)
            },
        }
    }

    /// Ends the changed-files session with what its worker hands over: the
    /// files and the head commit, which are published, or the message of the
    /// failure, which is made visible. Either way the session is complete.
    pub fn complete_files_fetch(&mut self, outcome: Result<(Vec<GhChangedFile>, String), String>)
        ensures
            final(self)@ == old(self)@.finish_files(outcome_view(outcome)),
    {
        match outcome {
            Ok((files, head_sha)) => {
                proof {
                    assert(files.deep_view() == views(files@));
                }
                self.changed_files.publish(files);
                self.head_sha = head_sha;
            },
            Err(message) => {
                self.error.set(message);
                self.changed_files.fail();
            },
        }
    }

    /// Whether the changed-files session has ended.
    pub fn files_fetch_complete(&self) -> (done: bool)
        ensures
            done == self@.files_state.complete(),
            !done ==> self@.files.len() == 0,
    {
        self.changed_files.is_complete()
    }

    /// The state of the changed-files session.
    pub fn files_fetch_state(&self) -> (state: SessionState)
        ensures
            state == self@.files_state,
    {
        self.changed_files.state()
    }

    /// The number of changed files.
    pub fn file_count(&self) -> (count: usize)
        ensures
            count == self@.files.len(),
    {
        self.changed_files.read_count()
    }

    /// The changed file at `index`; an index past the last file is refused.
    pub fn read_file(&self, index: usize) -> (found: Result<GhChangedFile, StoreError>)
        ensures
            match found {
                Ok(file) => index < self@.files.len() && file@ == self@.files[index as int],
                Err(e) => index >= self@.files.len() && e == StoreError::OutOfRange,
            },
    {
        match self.changed_files.read_item(index) {
            Ok(file) => Ok(file.clone()),
            Err(e) => Err(e),
        }
    }

    /// The changed file at `index`, which is below the number of files.
    pub fn file_at(&self, index: usize) -> (file: GhChangedFile)
        requires
            index < self@.files.len(),
        ensures
            file@ == self@.files[index as int],
    {
        self.changed_files.items()[index].clone()
    }

    /// The head commit of the pull request whose files were published last.
    pub fn head_sha(&self) -> (sha: String)
        ensures
            sha@ == self@.head_sha,
    {
        self.head_sha.clone()
    }

    /// Selects the changed file at `index`: its patch is cut into lines,
    /// which are stored for reading. An index past the last file stores no
    /// lines.
    pub fn set_file_diff(&mut self, index: usize)
        ensures
            final(self)@ == old(self)@.select_file(index as nat),
    {
        let lines = match self.changed_files.read_item(index) {
            Ok(file) => split_lines(file.patch.as_str()),
            Err(_) => Vec::new(),
        };
        proof {
            assert(lines.deep_view() == views(lines@));
            if index >= self@.files.len() {
                assert(lines.deep_view() == Seq::<Seq<char>>::empty());
            }
        }
        self.file_diff_lines.publish(lines);
    }

    /// The patch lines of the selected file from `offset` on, at most `count`
    /// of them. An `offset` past the last line gives no lines.
    pub fn file_diff_lines(&self, offset: usize, count: usize) -> (lines: Vec<String>)
        ensures
            lines.deep_view() == window(self@.file_diff_lines, offset as nat, count as nat),
    {
        self.file_diff_lines.read_lines(offset, count)
    }

    /// The number of patch lines of the selected file.
    pub fn file_diff_line_count(&self) -> (count: usize)
        ensures
            count == self@.file_diff_lines.len(),
    {
        self.file_diff_lines.read_count()
    }
}

/// Every step of the hub keeps it settled: as long as a session is not seen
/// complete, its slot is seen empty.
pub proof fn lemma_hub_steps_keep_settled(
    hub: HubView,
    prs: Result<Seq<GhPrView>, Seq<char>>,
    lines: Result<Seq<Seq<char>>, Seq<char>>,
    files: Result<(Seq<GhChangedFileView>, Seq<char>), Seq<char>>,
    index: nat,
)
    requires
        hub.settled(),
    ensures
        HubView::fresh().settled(),
        hub.start_list().settled(),
        hub.finish_list(prs).settled(),
        hub.start_diff().settled(),
        hub.finish_diff(lines).settled(),
        hub.start_files().settled(),
        hub.finish_files(files).settled(),
        hub.select_file(index).settled(),
        hub.request_cancel().settled(),
{
}

/// Starting a session a second time, with nothing published in between,
/// leaves the hub as the first start left it: the slot empty, the session
/// not complete, no failure visible.
pub proof fn lemma_restart_changes_nothing(hub: HubView)
    ensures
        hub.start_list().start_list() == hub.start_list(),
        hub.start_diff().start_diff() == hub.start_diff(),
        hub.start_files().start_files() == hub.start_files(),
        hub.start_list().prs.len() == 0 && !hub.start_list().list_state.complete(),
        hub.start_diff().diff_lines.len() == 0 && !hub.start_diff().diff_state.complete(),
        hub.start_files().files.len() == 0 && !hub.start_files().files_state.complete(),
        hub.start_list().error is None,
        hub.start_diff().error is None,
        hub.start_files().error is None,
{
}

/// Whoever sees a session complete sees what its worker handed over: the
/// published value where the worker succeeded, the message where it failed
/// (the stored value then stays as it was). The flag is never set before
/// the value.
pub proof fn lemma_completion_shows_outcome(
    hub: HubView,
    prs: Seq<GhPrView>,
    lines: Seq<Seq<char>>,
    files: Seq<GhChangedFileView>,
    head_sha: Seq<char>,
    message: Seq<char>,
)
    ensures
        hub.finish_list(Ok(prs)).list_state.complete(),
        hub.finish_list(Ok(prs)).prs == prs,
        hub.finish_list(Err(message)).list_state.complete(),
        hub.finish_list(Err(message)).error == Some(message),
        hub.finish_list(Err(message)).prs == hub.prs,
        hub.finish_diff(Ok(lines)).diff_state.complete(),
        hub.finish_diff(Ok(lines)).diff_lines == lines,
        hub.finish_diff(Err(message)).diff_state.complete(),
        hub.finish_diff(Err(message)).error == Some(message),
        hub.finish_diff(Err(message)).diff_lines == hub.diff_lines,
        hub.finish_files(Ok((files, head_sha))).files_state.complete(),
        hub.finish_files(Ok((files, head_sha))).files == files,
        hub.finish_files(Ok((files, head_sha))).head_sha == head_sha,
        hub.finish_files(Err(message)).files_state.complete(),
        hub.finish_files(Err(message)).error == Some(message),
        hub.finish_files(Err(message)).files == hub.files,
{
}

/// Sessions of different kinds do not touch each other's slot: where two of
/// them succeed, the order in which they end makes no difference.
pub proof fn lemma_kinds_are_independent(
    hub: HubView,
    prs: Seq<GhPrView>,
    lines: Seq<Seq<char>>,
    files: Seq<GhChangedFileView>,
    head_sha: Seq<char>,
)
    ensures
        hub.finish_list(Ok(prs)).finish_diff(Ok(lines)) == hub.finish_diff(Ok(lines)).finish_list(
            Ok(prs),
        ),
        hub.finish_list(Ok(prs)).finish_files(Ok((files, head_sha))) == hub.finish_files(
            Ok((files, head_sha)),
        ).finish_list(Ok(prs)),
        hub.finish_diff(Ok(lines)).finish_files(Ok((files, head_sha))) == hub.finish_files(
            Ok((files, head_sha)),
        ).finish_diff(Ok(lines)),
        hub.start_list().diff_state == hub.diff_state && hub.start_list().files_state
            == hub.files_state,
        hub.start_diff().list_state == hub.list_state && hub.start_diff().files_state
            == hub.files_state,
        hub.start_files().list_state == hub.list_state && hub.start_files().diff_state
            == hub.diff_state,
{
}

/// Where the files were fetched and the request for the review comments
/// failed, the worker still hands over every file, in the tracker's order,
/// each with 0 review comments; and the session that ends with them ends
/// well, with no failure made visible.
pub proof fn lemma_lost_comments_are_no_failure(
    hub: HubView,
    entries: Seq<DiffRecordView>,
    head_sha: Seq<char>,
    failure: Seq<char>,
)
    ensures
        files_result(Ok((entries, head_sha)), Err(failure)) is Ok,
        ({
            let handed = files_result(Ok((entries, head_sha)), Err(failure));
            let after = hub.finish_files(handed);
            &&& after.files_state == SessionState::CompletedOk
            &&& after.error == hub.error
            &&& after.head_sha == head_sha
            &&& after.files.len() == entries.len()
            &&& forall|i: int|
                0 <= i < entries.len() ==> (#[trigger] after.files[i]).review_comments == 0
                    && after.files[i].filename == entries[i].filename
        }),
{
}

/// A cancel request changes the flag and nothing else: no session changes
/// its state, and nothing stored is touched.
pub proof fn lemma_cancel_is_advisory(hub: HubView)
    ensures
        hub.request_cancel().cancel,
        hub.request_cancel() == (HubView { cancel: true, ..hub }),
        hub.request_cancel().list_state == hub.list_state,
        hub.request_cancel().diff_state == hub.diff_state,
        hub.request_cancel().files_state == hub.files_state,
        hub.request_cancel().request_cancel() == hub.request_cancel(),
{
}

} // verus!
