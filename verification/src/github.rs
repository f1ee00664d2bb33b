//! Activity on GitHub, as the `gh` command line tool reports it.
//!
//! Running the tool and parsing its JSON is the caller's part. What is asked
//! of it, what its answers mean and how they are shown is decided here.
use crate::text::{
    chars_of, decimal, find, find_from, to_decimal, trim, trimmed,
};
use crate::sort::{bytes_less, lemma_lex_strict_weak_order, lex_less, stable_sort, stable_sorted, Ranked};
use regex::Regex;
use vstd::prelude::*;
use vstd::utf8::encode_utf8;

verus! {

/// The kind of an activity.
#[derive(Debug, Clone, Copy, PartialEq, Eq, Structural)]
pub enum GitHubActivityKind {
    Commit,
    PullRequest,
    Review,
    Comment,
}

/// One activity.
#[derive(Debug, Clone, PartialEq, Eq)]
pub struct GitHubActivityItem {
    pub kind: GitHubActivityKind,
    pub title: String,
    pub url: String,
    pub repo: String,
    pub timestamp: String,
    pub number: Option<u64>,
    pub summary: Option<String>,
}

/// The activity of one user on one day.
#[derive(Debug, Clone, PartialEq, Eq)]
pub struct GitHubActivityResponse {
    pub login: String,
    pub date: String,
    pub items: Vec<GitHubActivityItem>,
}

/// An issue or pull request that a search found.
#[derive(Debug, Clone, PartialEq, Eq)]
pub struct SearchIssueItem {
    pub title: String,
    pub html_url: String,
    pub number: u64,
    pub repository_url: String,
    pub updated_at: String,
    pub created_at: String,
    /// Whether the item is a pull request.
    pub pull_request: bool,
}

/// A commit that a search found.
#[derive(Debug, Clone, PartialEq, Eq)]
pub struct SearchCommitItem {
    pub sha: String,
    pub html_url: String,
    pub commit: CommitInfo,
    pub repository: RepositoryInfo,
}

/// What a commit says of itself.
#[derive(Debug, Clone, PartialEq, Eq)]
pub struct CommitInfo {
    pub message: String,
    pub author: Option<CommitAuthor>,
    pub committer: Option<CommitAuthor>,
}

/// Author or committer of a commit.
#[derive(Debug, Clone, PartialEq, Eq)]
pub struct CommitAuthor {
    pub date: Option<String>,
}

/// The repository of a commit.
#[derive(Debug, Clone, PartialEq, Eq)]
pub struct RepositoryInfo {
    pub full_name: String,
}

/// The four searches.
#[derive(Debug, Clone, Copy, PartialEq, Eq, Structural)]
pub enum Search {
    Commits,
    PullRequests,
    Reviews,
    Comments,
}

/// How a run of the tool ended.
#[derive(Debug, Clone, PartialEq, Eq)]
pub enum GhRun {
    /// The tool is not installed.
    NotFound,
    /// The tool could not be started; the cause is given.
    LaunchFailed(String),
    /// The tool ran and failed; what it wrote to its error stream is given.
    Failed(String),
    /// The tool ran and wrote bytes that are no text; the cause is given.
    InvalidUtf8(String),
    /// The tool ran and wrote this.
    Output(String),
}

/// Why the activity could not be had.
#[derive(Debug, Clone, PartialEq, Eq)]
pub enum GitHubError {
    /// A pattern did not compile; the cause is given.
    Pattern(String),
    /// The date is not written as `YYYY-MM-DD`.
    DateFormat,
    /// The login holds more than letters, digits and `-`.
    LoginFormat,
    /// The tool named no login.
    LoginUnavailable,
    /// The tool is not installed.
    CliMissing,
    /// The tool could not be started.
    CliLaunch(String),
    /// The tool failed and said why.
    CliFailed(String),
    /// The tool failed and said nothing.
    CliFailedSilently,
    /// The tool wrote bytes that are no text.
    CliInvalidUtf8(String),
    /// The answer to a search could not be parsed.
    InvalidData(Search, String),
    /// The task that fetches the activity ended abnormally.
    TaskFailed(String),
}

/// Pattern of a date.
pub const DATE_PATTERN: &'static str = r"^\d{4}-\d{2}-\d{2}$";

/// Pattern of a login.
pub const LOGIN_PATTERN: &'static str = r"^[A-Za-z0-9-]+$";

/// What matching `text` against the regular expression `pattern` yields:
/// whether it matches, or nothing if `pattern` is no regular expression.
pub uninterp spec fn regex_verdict(pattern: Seq<char>, text: Seq<char>) -> Option<bool>;

/// Compiles `pattern` with `regex::Regex::new` and asks `Regex::is_match`
/// whether `text` matches. The contract gives the answer its name; of the
/// message that comes with a pattern that does not compile it says nothing.
#[verifier::external_body]
fn regex_is_match(pattern: &str, text: &str) -> (verdict: Result<bool, String>)
    ensures
        match regex_verdict(pattern@, text@) {
            Some(matched) => verdict == Ok::<bool, String>(matched),
            None => verdict is Err,
        },
{
    match Regex::new(pattern) {
        Ok(compiled) => Ok(compiled.is_match(text)),
        Err(error) => Err(error.to_string()),
    }
}

/// The title shown for `value`: trimmed, or `fallback` if nothing is left.
pub open spec fn title_of(value: Seq<char>, fallback: Seq<char>) -> Seq<char> {
    if trimmed(value).len() == 0 {
        fallback
    } else {
        trimmed(value)
    }
}

/// The repository that an API URL names: what stands between the first
/// `/repos/` and the next one, or the end. A URL without `/repos/` stands
/// for itself.
pub open spec fn repo_of(url: Seq<char>) -> Seq<char> {
    let mark = "/repos/"@;
    match find(url, mark, 0) {
        None => url,
        Some(i) => {
            let start = i + mark.len();
            match find(url, mark, start) {
                None => url.subrange(start, url.len() as int),
                Some(j) => url.subrange(start, j),
            }
        },
    }
}

/// The first line of a text, without its line feed.
pub open spec fn first_line(text: Seq<char>) -> Seq<char> {
    match find(text, seq!['\n'], 0) {
        Some(i) => text.subrange(0, i),
        None => text,
    }
}

/// The title of a commit: the first line of its message, trimmed. An empty
/// message has no line and gets a stock title.
pub open spec fn commit_title(message: Seq<char>) -> Seq<char> {
    if message.len() == 0 {
        "Commit"@
    } else {
        trimmed(first_line(message))
    }
}

/// The time of a commit: when it was authored, else when it was committed,
/// else the day that was asked for.
pub open spec fn commit_time(commit: CommitInfo, date: Seq<char>) -> Seq<char> {
    if commit.author is Some && commit.author->Some_0.date is Some {
        commit.author->Some_0.date->Some_0@
    } else if commit.committer is Some && commit.committer->Some_0.date is Some {
        commit.committer->Some_0.date->Some_0@
    } else {
        date
    }
}

/// The first seven characters of a hash.
pub open spec fn short_hash(sha: Seq<char>) -> Seq<char> {
    if sha.len() <= 7 {
        sha
    } else {
        sha.subrange(0, 7)
    }
}

/// What a search asks for.
pub open spec fn query_of(search: Search, login: Seq<char>, date: Seq<char>) -> Seq<char> {
    match search {
        Search::Commits => "author:"@ + login + " author-date:"@ + date,
        Search::PullRequests => "is:pr author:"@ + login + " created:"@ + date,
        Search::Reviews => "is:pr reviewed-by:"@ + login + " updated:"@ + date,
        Search::Comments => "commenter:"@ + login + " updated:"@ + date,
    }
}

impl GitHubError {
    /// The message shown to the user.
    pub fn message(&self) -> (text: String)
        ensures
            text@ == match *self {
                GitHubError::Pattern(cause) => cause@,
                GitHubError::DateFormat => "Date must be in YYYY-MM-DD format"@,
                GitHubError::LoginFormat => "Unexpected GitHub login format"@,
                GitHubError::LoginUnavailable =>
                    "GitHub login not available. Run `gh auth login`."@,
                GitHubError::CliMissing =>
                    "GitHub CLI (gh) not found. Install from https://cli.github.com/"@,
                GitHubError::CliLaunch(cause) => "Failed to run gh: "@ + cause@,
                GitHubError::CliFailed(said) => said@,
                GitHubError::CliFailedSilently => "GitHub CLI request failed"@,
                GitHubError::CliInvalidUtf8(cause) => "GitHub CLI returned invalid UTF-8: "@
                    + cause@,
                GitHubError::InvalidData(Search::Commits, cause) => "Invalid commit data: "@
                    + cause@,
                GitHubError::InvalidData(Search::PullRequests, cause) => "Invalid PR data: "@
                    + cause@,
                GitHubError::InvalidData(Search::Reviews, cause) => "Invalid review data: "@
                    + cause@,
                GitHubError::InvalidData(Search::Comments, cause) => "Invalid comment data: "@
                    + cause@,
                GitHubError::TaskFailed(cause) => "GitHub activity task failed: "@ + cause@,
            },
    {
        match self {
            GitHubError::Pattern(cause) => cause.clone(),
            GitHubError::DateFormat => "Date must be in YYYY-MM-DD format".to_string(),
            GitHubError::LoginFormat => "Unexpected GitHub login format".to_string(),
            GitHubError::LoginUnavailable => {
                "GitHub login not available. Run `gh auth login`.".to_string()
            },
            GitHubError::CliMissing => {
                "GitHub CLI (gh) not found. Install from https://cli.github.com/".to_string()
            },
            GitHubError::CliLaunch(cause) => joined_pair("Failed to run gh: ", cause.as_str()),
            GitHubError::CliFailed(said) => said.clone(),
            GitHubError::CliFailedSilently => "GitHub CLI request failed".to_string(),
            GitHubError::CliInvalidUtf8(cause) => joined_pair(
                "GitHub CLI returned invalid UTF-8: ",
                cause.as_str(),
            ),
            GitHubError::InvalidData(search, cause) => {
                let head = match search {
                    Search::Commits => "Invalid commit data: ",
                    Search::PullRequests => "Invalid PR data: ",
                    Search::Reviews => "Invalid review data: ",
                    Search::Comments => "Invalid comment data: ",
                };
                joined_pair(head, cause.as_str())
            },
            GitHubError::TaskFailed(cause) => joined_pair(
                "GitHub activity task failed: ",
                cause.as_str(),
            ),
        }
    }
}

/// `head` followed by `tail`.
fn joined_pair(head: &str, tail: &str) -> (text: String)
    ensures
        text@ == head@ + tail@,
{
    let mut text = head.to_string();
    text.append(tail);
    text
}

/// Judges what matching a date against [`DATE_PATTERN`] yielded.
pub fn date_verdict(verdict: Result<bool, String>) -> (result: Result<(), GitHubError>)
    ensures
        result == match verdict {
            Ok(true) => Ok::<(), GitHubError>(()),
            Ok(false) => Err::<(), GitHubError>(GitHubError::DateFormat),
            Err(cause) => Err::<(), GitHubError>(GitHubError::Pattern(cause)),
        },
{
    match verdict {
        Ok(true) => Ok(()),
        Ok(false) => Err(GitHubError::DateFormat),
        Err(cause) => Err(GitHubError::Pattern(cause)),
    }
}

/// Judges what matching a login against [`LOGIN_PATTERN`] yielded.
pub fn login_verdict(verdict: Result<bool, String>) -> (result: Result<(), GitHubError>)
    ensures
        result == match verdict {
            Ok(true) => Ok::<(), GitHubError>(()),
            Ok(false) => Err::<(), GitHubError>(GitHubError::LoginFormat),
            Err(cause) => Err::<(), GitHubError>(GitHubError::Pattern(cause)),
        },
{
    match verdict {
        Ok(true) => Ok(()),
        Ok(false) => Err(GitHubError::LoginFormat),
        Err(cause) => Err(GitHubError::Pattern(cause)),
    }
}

/// Accepts a date that matches [`DATE_PATTERN`].
pub fn validate_date(date: &str) -> (result: Result<(), GitHubError>)
    ensures
        match regex_verdict(DATE_PATTERN@, date@) {
            Some(true) => result == Ok::<(), GitHubError>(()),
            Some(false) => result == Err::<(), GitHubError>(GitHubError::DateFormat),
            None => result matches Err(GitHubError::Pattern(_)),
        },
{
    date_verdict(regex_is_match(DATE_PATTERN, date))
}

/// Accepts a login that matches [`LOGIN_PATTERN`].
pub fn validate_login(login: &str) -> (result: Result<(), GitHubError>)
    ensures
        match regex_verdict(LOGIN_PATTERN@, login@) {
            Some(true) => result == Ok::<(), GitHubError>(()),
            Some(false) => result == Err::<(), GitHubError>(GitHubError::LoginFormat),
            None => result matches Err(GitHubError::Pattern(_)),
        },
{
    login_verdict(regex_is_match(LOGIN_PATTERN, login))
}

/// What a run of the tool yields: its output, or why there is none.
pub fn run_gh(run: GhRun) -> (result: Result<String, GitHubError>)
    ensures
        match run {
            GhRun::NotFound => result == Err::<String, GitHubError>(GitHubError::CliMissing),
            GhRun::LaunchFailed(cause) => result == Err::<String, GitHubError>(
                GitHubError::CliLaunch(cause),
            ),
            GhRun::Failed(said) => if trimmed(said@).len() == 0 {
                result == Err::<String, GitHubError>(GitHubError::CliFailedSilently)
            } else {
                result matches Err(GitHubError::CliFailed(shown)) && shown@ == trimmed(said@)
            },
            GhRun::InvalidUtf8(cause) => result == Err::<String, GitHubError>(
                GitHubError::CliInvalidUtf8(cause),
            ),
            GhRun::Output(output) => result == Ok::<String, GitHubError>(output),
        },
{
    match run {
        GhRun::NotFound => Err(GitHubError::CliMissing),
        GhRun::LaunchFailed(cause) => Err(GitHubError::CliLaunch(cause)),
        GhRun::Failed(said) => {
            let shown = trim(said.as_str()).to_string();
            if shown.as_str().is_empty() {
                Err(GitHubError::CliFailedSilently)
            } else {
                Err(GitHubError::CliFailed(shown))
            }
        },
        GhRun::InvalidUtf8(cause) => Err(GitHubError::CliInvalidUtf8(cause)),
        GhRun::Output(output) => Ok(output),
    }
}

/// The login that the tool named: its output, trimmed.
pub fn fetch_login(output: &str) -> (result: Result<String, GitHubError>)
    ensures
        trimmed(output@).len() == 0 ==> result == Err::<String, GitHubError>(
            GitHubError::LoginUnavailable,
        ),
        trimmed(output@).len() > 0 ==> result is Ok && result->Ok_0@ == trimmed(output@),
{
    let login = trim(output).to_string();
    if login.as_str().is_empty() {
        return Err(GitHubError::LoginUnavailable);
    }
    Ok(login)
}

/// The title shown for `value`: trimmed, or `fallback` if nothing is left.
pub fn clean_title(value: String, fallback: &str) -> (title: String)
    ensures
        title@ == title_of(value@, fallback@),
{
    let trimmed = trim(value.as_str());
    if trimmed.is_empty() {
        fallback.to_string()
    } else {
        trimmed.to_string()
    }
}

/// The repository that an API URL names.
pub fn repo_from_api_url(url: &str) -> (repo: String)
    ensures
        repo@ == repo_of(url@),
{
    let text = chars_of(url);
    let mark = chars_of("/repos/");
    let len = text.len();
    match find_from(&text, &mark, 0) {
        None => url.to_string(),
        Some(i) => {
            let start = i + mark.len();
            let end = match find_from(&text, &mark, start) {
                None => len,
                Some(j) => j,
            };
            url.substring_char(start, end).to_string()
        },
    }
}

/// What a search asks for.
pub fn search_query(search: Search, login: &str, date: &str) -> (query: String)
    ensures
        query@ == query_of(search, login@, date@),
{
    let (head, middle) = match search {
        Search::Commits => ("author:", " author-date:"),
        Search::PullRequests => ("is:pr author:", " created:"),
        Search::Reviews => ("is:pr reviewed-by:", " updated:"),
        Search::Comments => ("commenter:", " updated:"),
    };
    let mut query = head.to_string();
    query.append(login);
    query.append(middle);
    query.append(date);
    query
}

/// The activity that a commit stands for. `date` is the day asked for.
pub fn commit_item(item: SearchCommitItem, date: &str) -> (activity: GitHubActivityItem)
    ensures
        activity.kind == GitHubActivityKind::Commit,
        activity.title@ == commit_title(item.commit.message@),
        activity.url == item.html_url,
        activity.repo == item.repository.full_name,
        activity.timestamp@ == commit_time(item.commit, date@),
        activity.number is None,
        activity.summary is Some,
        activity.summary->Some_0@ == short_hash(item.sha@),
{
    let message = chars_of(item.commit.message.as_str());
    let title = if message.len() == 0 {
        "Commit".to_string()
    } else {
        let feed: Vec<char> = vec!['\n'];
        proof {
            assert(feed@ =~= seq!['\n']);
        }
        let end = match find_from(&message, &feed, 0) {
            Some(i) => i,
            None => message.len(),
        };
        proof {
            assert(item.commit.message@.subrange(0, end as int) =~= first_line(
                item.commit.message@,
            ));
        }
        trim(item.commit.message.as_str().substring_char(0, end)).to_string()
    };
    let authored = match &item.commit.author {
        Some(author) => author.date.clone(),
        None => None,
    };
    let committed = match &item.commit.committer {
        Some(committer) => committer.date.clone(),
        None => None,
    };
    let timestamp = match authored {
        Some(time) => time,
        None => match committed {
            Some(time) => time,
            None => date.to_string(),
        },
    };
    let sha = chars_of(item.sha.as_str());
    let summary = if sha.len() <= 7 {
        item.sha.clone()
    } else {
        item.sha.as_str().substring_char(0, 7).to_string()
    };
    GitHubActivityItem {
        kind: GitHubActivityKind::Commit,
        title,
        url: item.html_url,
        repo: item.repository.full_name,
        timestamp,
        number: None,
        summary: Some(summary),
    }
}

/// `#` and the number.
fn number_tag(head: &str, number: u64) -> (tag: String)
    ensures
        tag@ == head@ + decimal(number as nat),
{
    let mut tag = head.to_string();
    tag.append(to_decimal(number as u128).as_str());
    tag
}

/// The activity that a pull request which the user opened stands for.
pub fn pull_request_item(item: SearchIssueItem) -> (activity: GitHubActivityItem)
    ensures
        activity.kind == GitHubActivityKind::PullRequest,
        activity.title@ == title_of(item.title@, "Untitled pull request"@),
        activity.url == item.html_url,
        activity.repo@ == repo_of(item.repository_url@),
        activity.timestamp == item.created_at,
        activity.number == Some(item.number),
        activity.summary is Some,
        activity.summary->Some_0@ == "#"@ + decimal(item.number as nat),
{
    let repo = repo_from_api_url(item.repository_url.as_str());
    GitHubActivityItem {
        kind: GitHubActivityKind::PullRequest,
        title: clean_title(item.title, "Untitled pull request"),
        url: item.html_url,
        repo,
        timestamp: item.created_at,
        number: Some(item.number),
        summary: Some(number_tag("#", item.number)),
    }
}

/// The activity that a pull request which the user reviewed stands for.
pub fn review_item(item: SearchIssueItem) -> (activity: GitHubActivityItem)
    ensures
        activity.kind == GitHubActivityKind::Review,
        activity.title@ == title_of(item.title@, "Untitled review"@),
        activity.url == item.html_url,
        activity.repo@ == repo_of(item.repository_url@),
        activity.timestamp == item.updated_at,
        activity.number == Some(item.number),
        activity.summary is Some,
        activity.summary->Some_0@ == "#"@ + decimal(item.number as nat),
{
    let repo = repo_from_api_url(item.repository_url.as_str());
    GitHubActivityItem {
        kind: GitHubActivityKind::Review,
        title: clean_title(item.title, "Untitled review"),
        url: item.html_url,
        repo,
        timestamp: item.updated_at,
        number: Some(item.number),
        summary: Some(number_tag("#", item.number)),
    }
}

/// The activity that an issue or pull request on which the user commented
/// stands for.
pub fn comment_item(item: SearchIssueItem) -> (activity: GitHubActivityItem)
    ensures
        activity.kind == GitHubActivityKind::Comment,
        activity.title@ == title_of(item.title@, "Untitled comment"@),
        activity.url == item.html_url,
        activity.repo@ == repo_of(item.repository_url@),
        activity.timestamp == item.updated_at,
        activity.number == Some(item.number),
        activity.summary is Some,
        activity.summary->Some_0@ == (if item.pull_request {
            "PR #"@
        } else {
            "Issue #"@
        }) + decimal(item.number as nat),
{
    let repo = repo_from_api_url(item.repository_url.as_str());
    let head = if item.pull_request {
        "PR #"
    } else {
        "Issue #"
    };
    GitHubActivityItem {
        kind: GitHubActivityKind::Comment,
        title: clean_title(item.title, "Untitled comment"),
        url: item.html_url,
        repo,
        timestamp: item.updated_at,
        number: Some(item.number),
        summary: Some(number_tag(head, item.number)),
    }
}

impl Ranked for GitHubActivityItem {
    /// The later activity stands first.
    open spec fn precedes(&self, other: &Self) -> bool {
        lex_less(encode_utf8(other.timestamp@), encode_utf8(self.timestamp@))
    }

    fn comes_before(&self, other: &Self) -> (before: bool) {
        bytes_less(other.timestamp.as_str().as_bytes(), self.timestamp.as_str().as_bytes())
    }

    proof fn lemma_strict_weak_order(a: &Self, b: &Self, c: &Self) {
        lemma_lex_strict_weak_order(
            encode_utf8(c.timestamp@),
            encode_utf8(b.timestamp@),
            encode_utf8(a.timestamp@),
        );
        lemma_lex_strict_weak_order(
            encode_utf8(a.timestamp@),
            encode_utf8(b.timestamp@),
            encode_utf8(c.timestamp@),
        );
        lemma_lex_strict_weak_order(
            encode_utf8(b.timestamp@),
            encode_utf8(a.timestamp@),
            encode_utf8(c.timestamp@),
        );
    }
}

/// The activity of `login` on `date`: commits, pull requests, reviews and
/// comments, the latest first. Activities of the same time stay in that
/// order.
pub fn fetch_activity(
    login: String,
    date: &str,
    commits: Vec<GitHubActivityItem>,
    pull_requests: Vec<GitHubActivityItem>,
    reviews: Vec<GitHubActivityItem>,
    comments: Vec<GitHubActivityItem>,
) -> (response: GitHubActivityResponse)
    ensures
        response.login == login,
        response.date@ == date@,
        response.items@ == stable_sorted(commits@ + pull_requests@ + reviews@ + comments@),
{
    let mut items = commits;
    let mut pull_requests = pull_requests;
    let mut reviews = reviews;
    let mut comments = comments;
    items.append(&mut pull_requests);
    items.append(&mut reviews);
    items.append(&mut comments);
    GitHubActivityResponse { login, date: date.to_string(), items: stable_sort(items) }
}

} // verus!
