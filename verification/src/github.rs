//! GitHub data as the library reads it: releases, pull requests, and
//! repository addresses.

use vstd::prelude::*;
use vstd::string::*;

use crate::text::{
    chars_of, clone_opt_string, clone_strings, concat2, concat3, dec, dec_u64, ends_with,
    extend_chars, extend_str, is_blank, opt_view, split_char, split_on, starts_with,
    strip_prefix_rep, strip_suffix_rep, string_of, trim_end_matches, trim_start_matches, views,
};

verus! {

/// What `chrono::DateTime::<Utc>::from_timestamp(seconds, nanos)` formatted
/// with `%Y-%m-%d` gives: `None` where chrono has no such instant.
pub uninterp spec fn utc_ymd(seconds: i64, nanos: u32) -> Option<Seq<char>>;

/// `chrono::DateTime::<Utc>::from_timestamp` followed by `format("%Y-%m-%d")`:
/// the UTC calendar date of an instant. The contract names the result.
#[verifier::external_body]
fn utc_date_text(seconds: i64, nanos: u32) -> (r: Option<String>)
    ensures
        opt_view(r) == utc_ymd(seconds, nanos),
{
    match chrono::DateTime::<chrono::Utc>::from_timestamp(seconds, nanos) {
        Some(d) => Some(d.format("%Y-%m-%d").to_string()),
        None => None,
    }
}

/// An instant in UTC: seconds since the Unix epoch and the nanoseconds
/// within that second, as `chrono::DateTime<Utc>` holds them.
#[derive(Debug, Clone, Copy, PartialEq, Eq)]
pub struct Timestamp {
    seconds: i64,
    nanos: u32,
}

impl Timestamp {
    #[verifier::type_invariant]
    closed spec fn wf(self) -> bool {
        utc_ymd(self.seconds, self.nanos) is Some
    }

    /// Seconds since the Unix epoch.
    pub closed spec fn secs(self) -> i64 {
        self.seconds
    }

    /// Nanoseconds within the second.
    pub closed spec fn subsec(self) -> u32 {
        self.nanos
    }

    /// The instant, where chrono can represent it.
    pub fn new(seconds: i64, nanos: u32) -> (r: Option<Timestamp>)
        ensures
            r is Some <==> utc_ymd(seconds, nanos) is Some,
            r matches Some(t) ==> t.secs() == seconds && t.subsec() == nanos,
    {
        match utc_date_text(seconds, nanos) {
            Some(_) => Some(Timestamp { seconds, nanos }),
            None => None,
        }
    }

    /// Seconds since the Unix epoch.
    pub fn seconds(&self) -> (r: i64)
        ensures
            r == self.secs(),
    {
        self.seconds
    }

    /// Nanoseconds within the second.
    pub fn nanos(&self) -> (r: u32)
        ensures
            r == self.subsec(),
    {
        self.nanos
    }

    /// The calendar date in UTC, `YYYY-MM-DD` (`format("%Y-%m-%d")`).
    pub fn date_text(&self) -> (r: String)
        ensures
            utc_ymd(self.secs(), self.subsec()) == Some(r@),
    {
        proof {
            use_type_invariant(self);
        }
        match utc_date_text(self.seconds, self.nanos) {
            Some(t) => t,
            None => String::new(),
        }
    }

    /// Whether `self` is strictly before `other`.
    pub fn before(&self, other: &Timestamp) -> (r: bool)
        ensures
            r == ts_lt(*self, *other),
    {
        self.seconds < other.seconds || (self.seconds == other.seconds && self.nanos < other.nanos)
    }
}

/// Instants in time order.
pub open spec fn ts_lt(a: Timestamp, b: Timestamp) -> bool {
    a.secs() < b.secs() || (a.secs() == b.secs() && a.subsec() < b.subsec())
}

/// A GitHub release.
#[derive(Debug, Clone)]
pub struct GitHubRelease {
    pub created_at: Timestamp,
    pub name: Option<String>,
}

/// A merged pull request.
#[derive(Debug)]
pub struct GitHubPullRequest {
    pub title: String,
    pub number: u64,
    pub url: String,
    pub labels: Vec<String>,
    pub author: Option<String>,
    pub merged_at: Timestamp,
}

/// The mathematical value of a [`GitHubPullRequest`].
pub struct PullRequestView {
    pub title: Seq<char>,
    pub number: u64,
    pub url: Seq<char>,
    pub labels: Seq<Seq<char>>,
    pub author: Option<Seq<char>>,
    pub merged_at: Timestamp,
}

impl View for GitHubPullRequest {
    type V = PullRequestView;

    open spec fn view(&self) -> PullRequestView {
        PullRequestView {
            title: self.title@,
            number: self.number,
            url: self.url@,
            labels: views(self.labels@),
            author: opt_view(self.author),
            merged_at: self.merged_at,
        }
    }
}

impl Clone for GitHubPullRequest {
    fn clone(&self) -> (r: Self)
        ensures
            r@ == self@,
    {
        GitHubPullRequest {
            title: self.title.clone(),
            number: self.number,
            url: self.url.clone(),
            labels: clone_strings(&self.labels),
            author: clone_opt_string(&self.author),
            merged_at: self.merged_at,
        }
    }
}

/// The views of a sequence of pull requests.
pub open spec fn prs_view(v: Seq<GitHubPullRequest>) -> Seq<PullRequestView> {
    v.map_values(|p: GitHubPullRequest| p@)
}

/// The options of a pull request to open or update.
#[derive(Debug, Clone)]
pub struct GitHubPullRequestOptions {
    pub title: String,
    pub body: String,
    pub head: String,
    pub base: String,
    pub draft: bool,
}

/// Where an opened or updated pull request can be seen.
#[derive(Debug, Clone, PartialEq, Eq)]
pub struct GitHubPullRequestReference {
    pub url: String,
}

/// Errors of the GitHub service.
#[derive(Debug, Clone, PartialEq, Eq)]
pub enum GitHubError {
    NoReleasesFound { owner: String, repo: String },
    AuthenticationRequired,
    MissingPullRequestUrl { number: u64 },
    MissingPullRequestNodeId { number: u64 },
    GraphQlErrors { action: String, errors: String },
}

/// A pull request merged after `since` (when given) and no later than
/// `until` (when given).
pub open spec fn merged_in_range(
    p: PullRequestView,
    since: Option<Timestamp>,
    until: Option<Timestamp>,
) -> bool {
    (since matches Some(s) ==> ts_lt(s, p.merged_at)) && (until matches Some(u) ==> !ts_lt(
        u,
        p.merged_at,
    ))
}

/// The pull requests merged in the range, in their order.
pub open spec fn prs_in_range(
    prs: Seq<PullRequestView>,
    since: Option<Timestamp>,
    until: Option<Timestamp>,
) -> Seq<PullRequestView> {
    prs.filter(|p: PullRequestView| merged_in_range(p, since, until))
}

/// The pull requests merged after `since` and no later than `until`.
pub fn filter_prs_by_date_range(
    prs: &[GitHubPullRequest],
    since: Option<&Timestamp>,
    until: Option<&Timestamp>,
) -> (r: Vec<GitHubPullRequest>)
    ensures
        prs_view(r@) == prs_in_range(
            prs_view(prs@),
            match since {
                Some(s) => Some(*s),
                None => None,
            },
            match until {
                Some(u) => Some(*u),
                None => None,
            },
        ),
{
    let ghost s = match since {
        Some(s) => Some(*s),
        None => None,
    };
    let ghost u = match until {
        Some(u) => Some(*u),
        None => None,
    };
    let ghost pred = |p: PullRequestView| merged_in_range(p, s, u);
    let mut r: Vec<GitHubPullRequest> = Vec::new();
    let n = prs.len();
    for i in 0..n
        invariant
            n == prs@.len(),
            s == match since {
                Some(s) => Some(*s),
                None => None::<Timestamp>,
            },
            u == match until {
                Some(u) => Some(*u),
                None => None::<Timestamp>,
            },
            pred == (|p: PullRequestView| merged_in_range(p, s, u)),
            prs_view(r@) == prs_view(prs@).take(i as int).filter(pred),
    {
        reveal_with_fuel(Seq::<_>::filter, 1);
        let pr = &prs[i];
        let after_since = match since {
            Some(sd) => sd.before(&pr.merged_at),
            None => true,
        };
        let before_until = match until {
            Some(ud) => !ud.before(&pr.merged_at),
            None => true,
        };
        assert(prs_view(prs@).take(i + 1).drop_last() == prs_view(prs@).take(i as int));
        assert(prs_view(prs@).take(i + 1).last() == pr@);
        if after_since && before_until {
            let c = pr.clone();
            let ghost before = r@;
            r.push(c);
            assert(prs_view(r@) == prs_view(before).push(c@));
        }
    }
    assert(prs_view(prs@).take(n as int) == prs_view(prs@));
    r
}

/// A remote URL that does not name a GitHub repository.
#[derive(Debug, Clone, PartialEq, Eq)]
pub struct InvalidRepositoryUrl {
    pub url: String,
}

impl InvalidRepositoryUrl {
    /// The error's message.
    pub fn to_string(&self) -> (r: String)
        ensures
            r@ == "Invalid GitHub repository URL: "@ + self.url@,
    {
        concat2("Invalid GitHub repository URL: ", self.url.as_str())
    }
}

/// The address with trailing `/` and then trailing `.git` removed.
pub open spec fn repo_url_core(url: Seq<char>) -> Seq<char> {
    strip_suffix_rep(strip_suffix_rep(url, "/"@), ".git"@)
}

/// The part of a GitHub address after its host, or `None` for another host.
pub open spec fn repo_path(url: Seq<char>) -> Option<Seq<char>> {
    let u = repo_url_core(url);
    if starts_with(u, "https://github.com/"@) {
        Some(strip_prefix_rep(u, "https://github.com/"@))
    } else if starts_with(u, "git@github.com:"@) {
        Some(strip_prefix_rep(u, "git@github.com:"@))
    } else {
        None
    }
}

/// The owner and repository that an HTTPS or SSH GitHub address names:
/// exactly two `/`-separated parts after the host.
pub open spec fn github_repo_spec(url: Seq<char>) -> Option<(Seq<char>, Seq<char>)> {
    match repo_path(url) {
        Some(rest) => {
            let parts = split_char(rest, '/');
            if parts.len() == 2 {
                Some((parts[0], parts[1]))
            } else {
                None
            }
        },
        None => None,
    }
}

/// Text without `/`.
pub open spec fn no_slash(s: Seq<char>) -> bool {
    forall|i: int| 0 <= i < s.len() ==> s[i] != '/'
}

/// `OWNER/REPO` splits into the owner and the repository.
proof fn lemma_owner_repo_split(owner: Seq<char>, repo: Seq<char>)
    requires
        no_slash(owner),
        no_slash(repo),
    ensures
        split_char(owner + "/"@ + repo, '/') == seq![owner, repo],
{
    reveal_strlit("/");
    assert(owner + "/"@ + repo =~= owner + seq!['/'] + repo);
    crate::text::lemma_split_from_prefix(owner, '/', repo, seq![]);
    crate::text::lemma_split_from_none(repo, '/', seq![]);
    assert(Seq::<char>::empty() + owner =~= owner);
    assert(Seq::<char>::empty() + repo =~= repo);
}

/// An address made of a host prefix and `OWNER/REPO` keeps its form through
/// the removal of a trailing `/` and `.git`.
proof fn lemma_core_unchanged(prefix: Seq<char>, owner: Seq<char>, repo: Seq<char>)
    requires
        prefix.len() >= 4,
        no_slash(repo),
        repo.len() > 0,
        !ends_with(repo, ".git"@),
    ensures
        repo_url_core(prefix + owner + "/"@ + repo) == prefix + owner + "/"@ + repo,
{
    reveal_strlit("/");
    reveal_strlit(".git");
    let url = prefix + owner + "/"@ + repo;
    let n = url.len() as int;
    assert(url.last() == repo.last());
    assert(repo[repo.len() - 1] != '/');
    if ends_with(url, "/"@) {
        assert(url.subrange(n - 1, n)[0] == url[n - 1]);
    }
    assert(!ends_with(url, "/"@));
    assert(strip_suffix_rep(url, "/"@) == url);
    if ends_with(url, ".git"@) {
        let w = url.subrange(n - 4, n);
        if repo.len() >= 4 {
            assert(repo.subrange(repo.len() - 4, repo.len() as int) =~= w);
        } else {
            let k = 4 - repo.len() - 1;
            assert(w[k] == url[n - repo.len() - 1]);
            assert(url[n - repo.len() - 1] == '/');
            assert(".git"@[k] != '/');
        }
    }
    assert(strip_suffix_rep(url, ".git"@) == url);
}

/// An HTTPS or SSH GitHub address built from an owner and a repository
/// reads back as that owner and repository, for names without `/`, a
/// repository not ending in `.git`, and (for SSH) an owner that does not
/// itself start with the SSH host prefix.
pub proof fn law_github_url_round_trip(owner: Seq<char>, repo: Seq<char>)
    requires
        no_slash(owner),
        no_slash(repo),
        repo.len() > 0,
        !ends_with(repo, ".git"@),
    ensures
        github_repo_spec("https://github.com/"@ + owner + "/"@ + repo) == Some((owner, repo)),
        !starts_with(owner, "git@github.com:"@) ==> github_repo_spec(
            "git@github.com:"@ + owner + "/"@ + repo,
        ) == Some((owner, repo)),
{
    reveal_strlit("/");
    reveal_strlit("https://github.com/");
    reveal_strlit("git@github.com:");
    let https = "https://github.com/"@;
    let ssh = "git@github.com:"@;
    let tail = owner + "/"@ + repo;
    assert(forall|i: int| 0 <= i < tail.len() ==> (tail[i] == '/' <==> i == owner.len()));
    lemma_owner_repo_split(owner, repo);
    let u1 = https + owner + "/"@ + repo;
    lemma_core_unchanged(https, owner, repo);
    assert(u1 =~= https + tail);
    assert(u1.subrange(0, https.len() as int) =~= https);
    assert(u1.skip(https.len() as int) =~= tail);
    if starts_with(tail, https) {
        assert(tail[6] == https[6]);
        assert(tail[7] == https[7]);
    }
    assert(strip_prefix_rep(tail, https) == tail);
    assert(strip_prefix_rep(u1, https) == tail);
    if !starts_with(owner, ssh) {
        let u2 = ssh + owner + "/"@ + repo;
        lemma_core_unchanged(ssh, owner, repo);
        assert(u2 =~= ssh + tail);
        assert(u2[0] == 'g');
        assert(!starts_with(u2, https)) by {
            if starts_with(u2, https) {
                assert(u2.subrange(0, 19)[0] == https[0]);
            }
        }
        assert(u2.subrange(0, ssh.len() as int) =~= ssh);
        assert(u2.skip(ssh.len() as int) =~= tail);
        if starts_with(tail, ssh) {
            if owner.len() >= 15 {
                assert(owner.subrange(0, 15) =~= tail.subrange(0, 15));
            } else {
                assert(tail[owner.len() as int] == '/');
                assert(tail.subrange(0, 15)[owner.len() as int] == ssh[owner.len() as int]);
            }
        }
        assert(strip_prefix_rep(tail, ssh) == tail);
        assert(strip_prefix_rep(u2, ssh) == tail);
    }
}

/// Reads the owner and repository from a GitHub remote address
/// (`https://github.com/OWNER/REPO[.git]` or `git@github.com:OWNER/REPO[.git]`).
pub fn parse_github_repo(repo_url: &str) -> (r: Result<(String, String), InvalidRepositoryUrl>)
    ensures
        match github_repo_spec(repo_url@) {
            Some((o, n)) => r is Ok && r->Ok_0.0@ == o && r->Ok_0.1@ == n,
            None => r is Err && r->Err_0.url@ == repo_url@,
        },
{
    let c = chars_of(repo_url);
    let slash = chars_of("/");
    let dotgit = chars_of(".git");
    let a = trim_end_matches(c.as_slice(), slash.as_slice());
    let u = trim_end_matches(a.as_slice(), dotgit.as_slice());
    let https = chars_of("https://github.com/");
    let ssh = chars_of("git@github.com:");
    let rest = if crate::text::matches_at(u.as_slice(), https.as_slice(), 0) {
        trim_start_matches(u.as_slice(), https.as_slice())
    } else if crate::text::matches_at(u.as_slice(), ssh.as_slice(), 0) {
        trim_start_matches(u.as_slice(), ssh.as_slice())
    } else {
        return Err(InvalidRepositoryUrl { url: String::from_str(repo_url) });
    };
    let parts = split_on(rest.as_slice(), '/');
    if parts.len() != 2 {
        return Err(InvalidRepositoryUrl { url: String::from_str(repo_url) });
    }
    assert(views(parts@)[0] == parts@[0]@ && views(parts@)[1] == parts@[1]@);
    Ok((parts[0].clone(), parts[1].clone()))
}

/// What `git config --get remote.origin.url` printed, trimmed; `None` when
/// nothing is left.
pub fn remote_url_from_output(stdout: &str) -> (r: Option<String>)
    ensures
        crate::text::trim(stdout@).len() == 0 ==> r is None,
        crate::text::trim(stdout@).len() > 0 ==> r is Some && r->Some_0@ == crate::text::trim(
            stdout@,
        ),
{
    let c = chars_of(stdout);
    let t = crate::text::trim_chars(c.as_slice());
    if t.len() == 0 {
        None
    } else {
        Some(string_of(t.as_slice()))
    }
}

/// The message of a GitHub error.
pub open spec fn github_error_text(e: GitHubError) -> Seq<char> {
    match e {
        GitHubError::NoReleasesFound { owner, repo } => "No releases found for "@ + owner@ + "/"@
            + repo@,
        GitHubError::AuthenticationRequired =>
            "GitHub authentication is required; set GITHUB_TOKEN or GH_TOKEN"@,
        GitHubError::MissingPullRequestUrl { number } =>
            "GitHub did not return a browser URL for pull request #"@ + dec(number as nat),
        GitHubError::MissingPullRequestNodeId { number } =>
            "GitHub did not return a node ID for pull request #"@ + dec(number as nat)
            + "; cannot update its draft state"@,
        GitHubError::GraphQlErrors { action, errors } => "Failed to "@ + action@
            + ": GitHub returned GraphQL errors: "@ + errors@,
    }
}

impl GitHubError {
    /// The error's message.
    pub fn to_string(&self) -> (r: String)
        ensures
            r@ == github_error_text(*self),
    {
        match self {
            GitHubError::NoReleasesFound { owner, repo } => {
                let a = concat3("No releases found for ", owner.as_str(), "/");
                concat2(a.as_str(), repo.as_str())
            },
            GitHubError::AuthenticationRequired => String::from_str(
                "GitHub authentication is required; set GITHUB_TOKEN or GH_TOKEN",
            ),
            GitHubError::MissingPullRequestUrl { number } => {
                let mut t = chars_of("GitHub did not return a browser URL for pull request #");
                let d = dec_u64(*number);
                extend_chars(&mut t, d.as_slice());
                string_of(t.as_slice())
            },
            GitHubError::MissingPullRequestNodeId { number } => {
                let mut t = chars_of("GitHub did not return a node ID for pull request #");
                let d = dec_u64(*number);
                extend_chars(&mut t, d.as_slice());
                extend_str(&mut t, "; cannot update its draft state");
                string_of(t.as_slice())
            },
            GitHubError::GraphQlErrors { action, errors } => {
                let a = concat3("Failed to ", action.as_str(), ": GitHub returned GraphQL errors: ");
                concat2(a.as_str(), errors.as_str())
            },
        }
    }
}

/// The token to authenticate with: `GITHUB_TOKEN`, else `GH_TOKEN`, each
/// only when it is not blank.
pub fn select_token(github_token: Option<String>, gh_token: Option<String>) -> (r: Option<String>)
    ensures
        match github_token {
            Some(t) if !is_blank(t@) => r == Some(t),
            _ => match gh_token {
                Some(t) if !is_blank(t@) => r == Some(t),
                _ => r is None,
            },
        },
{
    match github_token {
        Some(t) => {
            if !crate::text::blank(chars_of(t.as_str()).as_slice()) {
                return Some(t);
            }
        },
        None => {},
    }
    match gh_token {
        Some(t) => {
            if !crate::text::blank(chars_of(t.as_str()).as_slice()) {
                return Some(t);
            }
        },
        None => {},
    }
    None
}

/// Operations that change the repository need a token.
pub fn ensure_authenticated(authenticated: bool) -> (r: Result<(), GitHubError>)
    ensures
        authenticated <==> r is Ok,
        !authenticated ==> r->Err_0 == GitHubError::AuthenticationRequired,
{
    if !authenticated {
        return Err(GitHubError::AuthenticationRequired);
    }
    Ok(())
}

/// A pull request as the GitHub API returns it, as far as it is read.
#[derive(Debug)]
pub struct RawPullRequest {
    pub title: Option<String>,
    pub number: u64,
    pub html_url: Option<String>,
    pub labels: Option<Vec<String>>,
    pub author: Option<String>,
    pub merged_at: Option<Timestamp>,
    pub updated_at: Option<Timestamp>,
}

/// The merged pull request that an API pull request is: only one that was
/// merged and has a browser URL; a missing title or label list is empty.
pub open spec fn merged_pr(pr: RawPullRequest) -> Option<PullRequestView> {
    match pr.merged_at {
        Some(m) => match pr.html_url {
            Some(u) => Some(
                PullRequestView {
                    title: match pr.title {
                        Some(t) => t@,
                        None => seq![],
                    },
                    number: pr.number,
                    url: u@,
                    labels: match pr.labels {
                        Some(ls) => views(ls@),
                        None => seq![],
                    },
                    author: opt_view(pr.author),
                    merged_at: m,
                },
            ),
            None => None,
        },
        None => None,
    }
}

/// The merged pull request that an API pull request is, if any.
pub fn gh_pr_to_github_pull_request(pr: RawPullRequest) -> (r: Option<GitHubPullRequest>)
    ensures
        match merged_pr(pr) {
            Some(v) => r is Some && r->Some_0@ == v,
            None => r is None,
        },
{
    let merged_at = match pr.merged_at {
        Some(m) => m,
        None => {
            return None;
        },
    };
    let url = match pr.html_url {
        Some(u) => u,
        None => {
            return None;
        },
    };
    let title = match pr.title {
        Some(t) => t,
        None => String::new(),
    };
    let labels = match pr.labels {
        Some(ls) => ls,
        None => Vec::new(),
    };
    assert(pr.labels is None ==> views(labels@) =~= Seq::<Seq<char>>::empty());
    let r = GitHubPullRequest { title, number: pr.number, url, labels, author: pr.author, merged_at };
    assert(r@ == merged_pr(pr)->Some_0);
    Some(r)
}

/// The pull requests kept from a page of the listing of closed pull
/// requests (most recently updated first), after `acc`, and whether the
/// listing can stop: it stops at the first one last updated no later than
/// `since`; one not merged in the range is left out.
pub open spec fn page_between(
    page: Seq<RawPullRequest>,
    since: Option<Timestamp>,
    until: Option<Timestamp>,
    acc: Seq<PullRequestView>,
) -> (Seq<PullRequestView>, bool)
    decreases page.len(),
{
    if page.len() == 0 {
        (acc, false)
    } else {
        let pr = page[0];
        if since is Some && pr.updated_at is Some && !ts_lt(since->Some_0, pr.updated_at->Some_0) {
            (acc, true)
        } else {
            match merged_pr(pr) {
                Some(p) => if merged_in_range(p, since, until) {
                    page_between(page.drop_first(), since, until, acc.push(p))
                } else {
                    page_between(page.drop_first(), since, until, acc)
                },
                None => page_between(page.drop_first(), since, until, acc),
            }
        }
    }
}

/// Adds the pull requests of one page of the listing of closed pull
/// requests to `acc` (see [`page_between`]) and says whether to stop.
pub fn prs_page_between(
    page: Vec<RawPullRequest>,
    since: Option<&Timestamp>,
    until: Option<&Timestamp>,
    acc: Vec<GitHubPullRequest>,
) -> (r: (Vec<GitHubPullRequest>, bool))
    ensures
        page_between(
            page@,
            match since {
                Some(s) => Some(*s),
                None => None,
            },
            match until {
                Some(u) => Some(*u),
                None => None,
            },
            prs_view(acc@),
        ) == (prs_view(r.0@), r.1),
{
    let ghost sv = match since {
        Some(s) => Some(*s),
        None => None::<Timestamp>,
    };
    let ghost uv = match until {
        Some(u) => Some(*u),
        None => None::<Timestamp>,
    };
    let ghost target = page_between(page@, sv, uv, prs_view(acc@));
    let ghost orig = page@;
    let ghost acc0 = prs_view(acc@);
    let mut rest = page;
    let mut out = acc;
    while rest.len() > 0
        invariant
            orig == page@,
            acc0 == prs_view(acc@),
            target == page_between(orig, sv, uv, acc0),
            target == page_between(rest@, sv, uv, prs_view(out@)),
            sv == match since {
                Some(s) => Some(*s),
                None => None::<Timestamp>,
            },
            uv == match until {
                Some(u) => Some(*u),
                None => None::<Timestamp>,
            },
        decreases rest@.len(),
    {
        let ghost before = rest@;
        let pr = rest.remove(0);
        assert(rest@ == before.drop_first());
        let stop = match (since, &pr.updated_at) {
            (Some(s), Some(u)) => !s.before(u),
            _ => false,
        };
        assert(before.len() > 0 && before[0] == pr);
        assert(stop == (sv is Some && pr.updated_at is Some && !ts_lt(
            sv->Some_0,
            pr.updated_at->Some_0,
        )));
        if stop {
            assert(page_between(before, sv, uv, prs_view(out@)) == (prs_view(out@), true));
            return (out, true);
        }
        match gh_pr_to_github_pull_request(pr) {
            Some(p) => {
                let after_since = match since {
                    Some(sd) => sd.before(&p.merged_at),
                    None => true,
                };
                let before_until = match until {
                    Some(ud) => !ud.before(&p.merged_at),
                    None => true,
                };
                if after_since && before_until {
                    let ghost prev = out@;
                    out.push(p);
                    assert(prs_view(out@) == prs_view(prev).push(p@));
                }
            },
            None => {},
        }
    }
    (out, false)
}

/// The merged pull requests among the API ones, in order.
pub open spec fn merged_prs(page: Seq<RawPullRequest>) -> Seq<PullRequestView>
    decreases page.len(),
{
    if page.len() == 0 {
        seq![]
    } else {
        let prev = merged_prs(page.drop_last());
        match merged_pr(page.last()) {
            Some(p) => prev.push(p),
            None => prev,
        }
    }
}

/// Adds the merged pull requests of one page of the listing to `all` and
/// says whether to stop: when `max` are reached or the page had none.
pub fn prs_page(all: Vec<GitHubPullRequest>, page: Vec<RawPullRequest>, max: usize) -> (r: (
    Vec<GitHubPullRequest>,
    bool,
))
    ensures
        prs_view(r.0@) == prs_view(all@) + merged_prs(page@),
        r.1 == (r.0@.len() >= max || merged_prs(page@).len() == 0),
{
    let ghost start = prs_view(all@);
    let ghost pg = page@;
    let mut out = all;
    let mut page = page;
    let mut found: usize = 0;
    let mut taken: usize = 0;
    let n = page.len();
    while taken < n
        invariant
            n == pg.len(),
            taken <= n,
            page@ == pg.skip(taken as int),
            prs_view(out@) == start + merged_prs(pg.take(taken as int)),
            found == merged_prs(pg.take(taken as int)).len(),
            found <= taken,
        decreases n - taken,
    {
        let ghost before = page@;
        let pr = page.remove(0);
        assert(pr == pg[taken as int]);
        assert(page@ == pg.skip(taken + 1));
        assert(pg.take(taken + 1).drop_last() == pg.take(taken as int));
        assert(pg.take(taken + 1).last() == pg[taken as int]);
        match gh_pr_to_github_pull_request(pr) {
            Some(p) => {
                let ghost prev = out@;
                out.push(p);
                assert(prs_view(out@) == prs_view(prev).push(p@));
                found = found + 1;
            },
            None => {},
        }
        taken = taken + 1;
    }
    assert(pg.take(n as int) == pg);
    let stop = out.len() >= max || found == 0;
    (out, stop)
}

/// The first `max` pull requests (`Vec::truncate`).
pub fn truncate_prs(all: Vec<GitHubPullRequest>, max: usize) -> (r: Vec<GitHubPullRequest>)
    ensures
        r@ == if all@.len() <= max {
            all@
        } else {
            all@.take(max as int)
        },
{
    let mut all = all;
    all.truncate(max);
    all
}

/// A release as the GitHub API returns it, as far as it is read.
#[derive(Debug)]
pub struct RawRelease {
    pub created_at: Option<Timestamp>,
    pub name: Option<String>,
}

/// The latest release: the first one the API lists, which must have a
/// creation time.
pub fn latest_release(first: Option<RawRelease>, owner: &str, repo: &str) -> (r: Result<
    GitHubRelease,
    GitHubError,
>)
    ensures
        match first {
            Some(rel) if rel.created_at is Some => r is Ok && r->Ok_0.created_at
                == rel.created_at->Some_0 && r->Ok_0.name == rel.name,
            _ => r is Err && r->Err_0 is NoReleasesFound && r->Err_0->owner@ == owner@
                && r->Err_0->repo@ == repo@,
        },
{
    match first {
        Some(rel) => match rel.created_at {
            Some(created_at) => {
                return Ok(GitHubRelease { created_at, name: rel.name });
            },
            None => {},
        },
        None => {},
    }
    Err(
        GitHubError::NoReleasesFound {
            owner: String::from_str(owner),
            repo: String::from_str(repo),
        },
    )
}

/// A release placed after those created no later than it (a stable sort
/// by creation time, step by step).
pub open spec fn insert_release(sorted: Seq<GitHubRelease>, r: GitHubRelease) -> Seq<GitHubRelease>
    decreases sorted.len(),
{
    if sorted.len() == 0 {
        seq![r]
    } else if ts_lt(r.created_at, sorted[0].created_at) {
        seq![r] + sorted
    } else {
        seq![sorted[0]] + insert_release(sorted.drop_first(), r)
    }
}

/// The releases that have a creation time, in order of it; releases
/// created at the same time keep their order (`sort_by_key`).
pub open spec fn releases_in_order(raw: Seq<RawRelease>) -> Seq<GitHubRelease>
    decreases raw.len(),
{
    if raw.len() == 0 {
        seq![]
    } else {
        let prev = releases_in_order(raw.drop_last());
        match raw.last().created_at {
            Some(c) => insert_release(prev, GitHubRelease { created_at: c, name: raw.last().name }),
            None => prev,
        }
    }
}

proof fn lemma_insert_release(sorted: Seq<GitHubRelease>, r: GitHubRelease, p: int)
    requires
        0 <= p <= sorted.len(),
        forall|q: int| 0 <= q < p ==> !ts_lt(r.created_at, #[trigger] sorted[q].created_at),
        p < sorted.len() ==> ts_lt(r.created_at, sorted[p].created_at),
    ensures
        insert_release(sorted, r) == sorted.insert(p, r),
    decreases sorted.len(),
{
    if sorted.len() == 0 {
        assert(sorted.insert(p, r) =~= seq![r]);
    } else if p == 0 {
        assert(sorted.insert(0, r) =~= seq![r] + sorted);
    } else {
        let rest = sorted.drop_first();
        assert forall|q: int| 0 <= q < p - 1 implies !ts_lt(r.created_at, #[trigger] rest[q].created_at) by {
            assert(rest[q] == sorted[q + 1]);
        }
        lemma_insert_release(rest, r, p - 1);
        assert(sorted.insert(p, r) =~= seq![sorted[0]] + rest.insert(p - 1, r));
    }
}

/// Releases in ascending order of creation: none comes before an earlier
/// one.
pub open spec fn releases_ascending(s: Seq<GitHubRelease>) -> bool {
    forall|i: int, j: int|
        0 <= i < j < s.len() ==> !ts_lt(#[trigger] s[j].created_at, #[trigger] s[i].created_at)
}

/// Inserting a release keeps a lower bound that it and every release meet.
proof fn lemma_insert_release_bound(sorted: Seq<GitHubRelease>, r: GitHubRelease, lo: Timestamp)
    requires
        !ts_lt(r.created_at, lo),
        forall|m: int| 0 <= m < sorted.len() ==> !ts_lt(#[trigger] sorted[m].created_at, lo),
    ensures
        insert_release(sorted, r).len() == sorted.len() + 1,
        forall|k: int|
            0 <= k < insert_release(sorted, r).len() ==> !ts_lt(
                #[trigger] insert_release(sorted, r)[k].created_at,
                lo,
            ),
    decreases sorted.len(),
{
    if sorted.len() > 0 && !ts_lt(r.created_at, sorted[0].created_at) {
        let rest = sorted.drop_first();
        lemma_insert_release_bound(rest, r, lo);
        let x = insert_release(sorted, r);
        assert forall|k: int| 0 <= k < x.len() implies !ts_lt(#[trigger] x[k].created_at, lo) by {
            if k > 0 {
                assert(x[k] == insert_release(rest, r)[k - 1]);
            }
        }
    } else if sorted.len() > 0 {
        let x = insert_release(sorted, r);
        assert forall|k: int| 0 <= k < x.len() implies !ts_lt(#[trigger] x[k].created_at, lo) by {
            if k > 0 {
                assert(x[k] == sorted[k - 1]);
            }
        }
    }
}

/// Inserting a release into releases in ascending order keeps them so.
proof fn lemma_insert_release_ascending(sorted: Seq<GitHubRelease>, r: GitHubRelease)
    requires
        releases_ascending(sorted),
    ensures
        releases_ascending(insert_release(sorted, r)),
    decreases sorted.len(),
{
    if sorted.len() == 0 {
        return;
    }
    let x = insert_release(sorted, r);
    if ts_lt(r.created_at, sorted[0].created_at) {
        assert forall|i: int, j: int| 0 <= i < j < x.len() implies !ts_lt(
            #[trigger] x[j].created_at,
            #[trigger] x[i].created_at,
        ) by {
            assert(x[j] == sorted[j - 1]);
            if i > 0 {
                assert(x[i] == sorted[i - 1]);
            } else {
                assert(!ts_lt(sorted[j - 1].created_at, sorted[0].created_at));
            }
        }
    } else {
        let rest = sorted.drop_first();
        assert(releases_ascending(rest)) by {
            assert forall|i: int, j: int| 0 <= i < j < rest.len() implies !ts_lt(
                #[trigger] rest[j].created_at,
                #[trigger] rest[i].created_at,
            ) by {
                assert(rest[j] == sorted[j + 1] && rest[i] == sorted[i + 1]);
            }
        }
        lemma_insert_release_ascending(rest, r);
        let lo = sorted[0].created_at;
        assert forall|m: int| 0 <= m < rest.len() implies !ts_lt(#[trigger] rest[m].created_at, lo) by {
            assert(rest[m] == sorted[m + 1]);
        }
        lemma_insert_release_bound(rest, r, lo);
        let y = insert_release(rest, r);
        assert forall|i: int, j: int| 0 <= i < j < x.len() implies !ts_lt(
            #[trigger] x[j].created_at,
            #[trigger] x[i].created_at,
        ) by {
            assert(x[j] == y[j - 1]);
            if i > 0 {
                assert(x[i] == y[i - 1]);
            } else {
                assert(!ts_lt(y[j - 1].created_at, lo));
            }
        }
    }
}

/// The releases come out in ascending order of creation.
pub proof fn law_releases_ascending(raw: Seq<RawRelease>)
    ensures
        releases_ascending(releases_in_order(raw)),
    decreases raw.len(),
{
    if raw.len() > 0 {
        law_releases_ascending(raw.drop_last());
        match raw.last().created_at {
            Some(c) => lemma_insert_release_ascending(
                releases_in_order(raw.drop_last()),
                GitHubRelease { created_at: c, name: raw.last().name },
            ),
            None => {},
        }
    }
}

/// The releases in order of creation (see [`releases_in_order`]).
pub fn sort_releases(raw: Vec<RawRelease>) -> (r: Vec<GitHubRelease>)
    ensures
        r@ == releases_in_order(raw@),
{
    let ghost rv = raw@;
    let n = raw.len();
    let mut raw = raw;
    let mut out: Vec<GitHubRelease> = Vec::new();
    let mut i: usize = 0;
    while i < n
        invariant
            n == rv.len(),
            i <= n,
            raw@ == rv.skip(i as int),
            out@ == releases_in_order(rv.take(i as int)),
        decreases n - i,
    {
        let rel = raw.remove(0);
        assert(rel == rv[i as int]);
        assert(raw@ == rv.skip(i + 1));
        assert(rv.take(i + 1).drop_last() == rv.take(i as int));
        assert(rv.take(i + 1).last() == rv[i as int]);
        match rel.created_at {
            Some(c) => {
                let m = out.len();
                let mut p: usize = 0;
                while p < m
                    invariant
                        m == out@.len(),
                        p <= m,
                        forall|q: int| 0 <= q < p ==> !ts_lt(c, #[trigger] out@[q].created_at),
                    ensures
                        p <= m,
                        forall|q: int| 0 <= q < p ==> !ts_lt(c, #[trigger] out@[q].created_at),
                        p < m ==> ts_lt(c, out@[p as int].created_at),
                    decreases m - p,
                {
                    if c.before(&out[p].created_at) {
                        break;
                    }
                    p = p + 1;
                }
                let r = GitHubRelease { created_at: c, name: rel.name };
                proof {
                    lemma_insert_release(out@, r, p as int);
                }
                out.insert(p, r);
            },
            None => {},
        }
        i = i + 1;
    }
    assert(rv.take(n as int) == rv);
    out
}

/// An open pull request from the release branch, as far as it is read.
#[derive(Debug, Clone)]
pub struct ExistingPullRequest {
    pub number: u64,
    pub draft: Option<bool>,
    pub node_id: Option<String>,
}

/// What to do about the release pull request: open one, or update the
/// existing one (and then change its draft state, when it differs).
#[derive(Debug, Clone, PartialEq, Eq)]
pub enum PullRequestSync {
    Create,
    Update { number: u64, change_draft: bool },
}

/// Opens a pull request when there is none from the branch, else updates
/// it, changing its draft state when it is not the wanted one.
pub fn plan_pull_request_sync(existing: &Option<ExistingPullRequest>, draft: bool) -> (r:
    PullRequestSync)
    ensures
        match existing {
            None => r == PullRequestSync::Create,
            Some(e) => r == (PullRequestSync::Update {
                number: e.number,
                change_draft: e.draft != Some(draft),
            }),
        },
{
    match existing {
        None => PullRequestSync::Create,
        Some(e) => {
            let same = match e.draft {
                Some(d) => d == draft,
                None => false,
            };
            PullRequestSync::Update { number: e.number, change_draft: !same }
        },
    }
}

/// The node whose draft state is changed: it must have been returned.
pub fn draft_node(number: u64, node_id: Option<String>) -> (r: Result<String, GitHubError>)
    ensures
        match node_id {
            Some(n) => r == Ok::<String, GitHubError>(n),
            None => r == Err::<String, GitHubError>(GitHubError::MissingPullRequestNodeId { number }),
        },
{
    match node_id {
        Some(n) => Ok(n),
        None => Err(GitHubError::MissingPullRequestNodeId { number }),
    }
}

/// The GraphQL mutation that converts a pull request to a draft.
pub const CONVERT_PULL_REQUEST_TO_DRAFT: &'static str = "mutation ConvertPullRequestToDraft($pullRequestId: ID!) {convertPullRequestToDraft(input: { pullRequestId: $pullRequestId }) {pullRequest { isDraft }}}";

/// The GraphQL mutation that marks a pull request ready for review.
pub const MARK_PULL_REQUEST_READY_FOR_REVIEW: &'static str = "mutation MarkPullRequestReadyForReview($pullRequestId: ID!) {markPullRequestReadyForReview(input: { pullRequestId: $pullRequestId }) {pullRequest { isDraft }}}";

/// What a draft-state change does, as words for errors, and its mutation.
pub fn draft_mutation(draft: bool) -> (r: (&'static str, &'static str))
    ensures
        draft ==> r.0@ == "convert GitHub pull request to draft"@ && r.1@
            == CONVERT_PULL_REQUEST_TO_DRAFT@,
        !draft ==> r.0@ == "mark GitHub pull request ready for review"@ && r.1@
            == MARK_PULL_REQUEST_READY_FOR_REVIEW@,
{
    if draft {
        ("convert GitHub pull request to draft", CONVERT_PULL_REQUEST_TO_DRAFT)
    } else {
        ("mark GitHub pull request ready for review", MARK_PULL_REQUEST_READY_FOR_REVIEW)
    }
}

/// The outcome of a GraphQL mutation whose response listed `errors` (their
/// JSON text, when the list is not empty).
pub fn graphql_outcome(action: &str, errors: Option<String>) -> (r: Result<(), GitHubError>)
    ensures
        match errors {
            None => r is Ok,
            Some(e) => r is Err && r->Err_0 is GraphQlErrors && r->Err_0->action@ == action@
                && r->Err_0->errors == e,
        },
{
    match errors {
        None => Ok(()),
        Some(e) => Err(GitHubError::GraphQlErrors { action: String::from_str(action), errors: e }),
    }
}

/// The reference to an opened or updated pull request: its browser URL,
/// which must have been returned.
pub fn pull_request_reference(number: u64, html_url: Option<String>) -> (r: Result<
    GitHubPullRequestReference,
    GitHubError,
>)
    ensures
        match html_url {
            Some(u) => r is Ok && r->Ok_0.url == u,
            None => r == Err::<GitHubPullRequestReference, GitHubError>(
                GitHubError::MissingPullRequestUrl { number },
            ),
        },
{
    match html_url {
        Some(url) => Ok(GitHubPullRequestReference { url }),
        None => Err(GitHubError::MissingPullRequestUrl { number }),
    }
}

} // verus!
