//! Hosting providers and the repository URLs that name them.

use vstd::prelude::*;
use crate::error::Failure;
use crate::text::{
    chars_of, lemma_segment_len_bounds, lemma_segment_len_unique, segment_end, segment_len,
    starts_with_at, strip_prefix,
};

verus! {

/// `url` without the `https://` that may stand before the host.
pub open spec fn without_scheme(url: Seq<char>) -> Seq<char> {
    match strip_prefix(url, "https://"@) {
        Some(rest) => rest,
        None => url,
    }
}

/// What a repository URL says of a project on GitHub.
///
/// After an optional `https://` the URL must go on with `github.com/`. What follows is
/// cut at each `/`: the first piece is the user, the second the repository, and any
/// further pieces are ignored. A URL of another host, or one with a single piece,
/// names no project.
pub open spec fn github_repo(url: Seq<char>) -> Option<GithubRepo> {
    match strip_prefix(without_scheme(url), "github.com/"@) {
        None => None,
        Some(path) => {
            let user_len = segment_len(path);
            let rest = path.skip(user_len + 1);
            if user_len == path.len() {
                None
            } else {
                Some(GithubRepo { user: path.take(user_len), repo: rest.take(segment_len(rest)) })
            }
        },
    }
}

/// User and repository of a project on GitHub.
#[derive(Clone, Debug, PartialEq, Eq)]
pub struct GithubData {
    pub user: String,
    pub repo: String,
}

/// The mathematical content of a [`GithubData`].
pub ghost struct GithubRepo {
    pub user: Seq<char>,
    pub repo: Seq<char>,
}

impl View for GithubData {
    type V = GithubRepo;

    open spec fn view(&self) -> GithubRepo {
        GithubRepo { user: self.user@, repo: self.repo@ }
    }
}

/// One of the hosting providers that the dependency-status service knows.
#[derive(Clone, Debug, PartialEq, Eq)]
pub enum HostingProviderData {
    GitHub(GithubData),
    GitLab,
    Bitbucket,
    Codeberg,
    Gitea,
}

/// The mathematical content of a [`HostingProviderData`].
pub ghost enum HostingProvider {
    GitHub(GithubRepo),
    GitLab,
    Bitbucket,
    Codeberg,
    Gitea,
}

impl View for HostingProviderData {
    type V = HostingProvider;

    open spec fn view(&self) -> HostingProvider {
        match self {
            HostingProviderData::GitHub(data) => HostingProvider::GitHub(data@),
            HostingProviderData::GitLab => HostingProvider::GitLab,
            HostingProviderData::Bitbucket => HostingProvider::Bitbucket,
            HostingProviderData::Codeberg => HostingProvider::Codeberg,
            HostingProviderData::Gitea => HostingProvider::Gitea,
        }
    }
}

/// The URL of the project `user`/`repo` on GitHub, written with or without its scheme.
pub open spec fn github_url(with_scheme: bool, user: Seq<char>, repo: Seq<char>) -> Seq<char> {
    let scheme = if with_scheme {
        "https://"@
    } else {
        Seq::<char>::empty()
    };
    scheme + "github.com/"@ + user + seq!['/'] + repo
}

/// A GitHub URL names its first two path pieces as user and repository, whether or not
/// it has a scheme and whatever further pieces come after them.
pub proof fn lemma_github_url_names_first_two_segments(
    with_scheme: bool,
    user: Seq<char>,
    repo: Seq<char>,
    trailing: Seq<char>,
)
    requires
        !user.contains('/'),
        !repo.contains('/'),
        trailing.len() == 0 || trailing[0] == '/',
    ensures
        github_repo(github_url(with_scheme, user, repo) + trailing) == Some(
            GithubRepo { user, repo },
        ),
{
    reveal_strlit("https://");
    reveal_strlit("github.com/");
    let url = github_url(with_scheme, user, repo) + trailing;
    let hosted = "github.com/"@ + user + seq!['/'] + repo + trailing;
    let path = user + seq!['/'] + repo + trailing;
    let rest = repo + trailing;
    if with_scheme {
        assert(url.subrange(0, 8) =~= "https://"@);
        assert(url.skip(8) =~= hosted);
    } else {
        assert(url =~= hosted);
        assert(hosted[0] == 'g');
        if "https://"@.is_prefix_of(url) {
            assert(url.subrange(0, 8)[0] == 'h');
        }
    }
    assert(without_scheme(url) == hosted);
    assert(hosted.subrange(0, 11) =~= "github.com/"@);
    assert(hosted.skip(11) =~= path);
    assert forall|j: int| 0 <= j < user.len() implies path[j] != '/' by {
        assert(path[j] == user[j]);
        assert(user.contains(user[j]));
    }
    lemma_segment_len_unique(path, user.len() as int);
    assert(path.skip(user.len() as int + 1) =~= rest);
    assert forall|j: int| 0 <= j < repo.len() implies rest[j] != '/' by {
        assert(rest[j] == repo[j]);
        assert(repo.contains(repo[j]));
    }
    lemma_segment_len_unique(rest, repo.len() as int);
    assert(path.take(user.len() as int) =~= user);
    assert(rest.take(repo.len() as int) =~= repo);
}

/// Conversely, a URL that names a project has that shape: after the scheme, if there
/// is one, it reads `github.com/<user>/<repo>`, with no `/` inside user or repository,
/// and ends there or goes on with a `/`.
pub proof fn lemma_github_repo_has_url_shape(url: Seq<char>)
    requires
        github_repo(url) is Some,
    ensures
        !github_repo(url)->0.user.contains('/'),
        !github_repo(url)->0.repo.contains('/'),
        exists|trailing: Seq<char>|
            (trailing.len() == 0 || trailing[0] == '/') && without_scheme(url) == #[trigger] (
            github_url(false, github_repo(url)->0.user, github_repo(url)->0.repo) + trailing),
{
    let hosted = without_scheme(url);
    let path = strip_prefix(hosted, "github.com/"@)->0;
    let user = github_repo(url)->0.user;
    let repo = github_repo(url)->0.repo;
    let rest = path.skip(segment_len(path) + 1);
    let trailing = rest.skip(segment_len(rest));
    lemma_segment_len_bounds(path);
    lemma_segment_len_bounds(rest);
    assert(hosted =~= "github.com/"@ + path);
    assert(path =~= user + seq!['/'] + rest);
    assert(rest =~= repo + trailing);
    assert(hosted =~= github_url(false, user, repo) + trailing);
    assert forall|j: int| 0 <= j < user.len() implies user[j] != '/' by {
        assert(user[j] == path[j]);
    }
    assert forall|j: int| 0 <= j < repo.len() implies repo[j] != '/' by {
        assert(repo[j] == rest[j]);
    }
}

impl GithubData {
    /// Reads user and repository out of a GitHub URL, with or without `https://`.
    ///
    /// Fails with [`Failure::InvalidUrl`] exactly where [`github_repo`] finds no project.
    pub fn from_str(orig_s: &str) -> (parsed: Result<GithubData, Failure>)
        ensures
            match parsed {
                Ok(data) => github_repo(orig_s@) == Some(data@),
                Err(e) => e == Failure::InvalidUrl && github_repo(orig_s@) is None,
            },
    {
        let chars = chars_of(orig_s);
        let scheme = chars_of("https://");
        let host = chars_of("github.com/");
        let host_start: usize = if starts_with_at(&chars, 0, &scheme) {
            scheme.len()
        } else {
            0
        };
        assert(chars@.skip(0) == chars@);
        assert(chars@.skip(host_start as int) == without_scheme(orig_s@));
        if !starts_with_at(&chars, host_start, &host) {
            return Err(Failure::InvalidUrl);
        }
        let user_start: usize = host_start + host.len();
        let ghost path = chars@.skip(user_start as int);
        assert(path == without_scheme(orig_s@).skip(host@.len() as int));
        let user_end: usize = segment_end(&chars, user_start);
        if user_end == chars.len() {
            return Err(Failure::InvalidUrl);
        }
        let repo_start: usize = user_end + 1;
        let ghost rest = chars@.skip(repo_start as int);
        assert(rest == path.skip(segment_len(path) + 1));
        let repo_end: usize = segment_end(&chars, repo_start);
        let user = orig_s.substring_char(user_start, user_end).to_owned();
        let repo = orig_s.substring_char(repo_start, repo_end).to_owned();
        assert(user@ == path.take(segment_len(path)));
        assert(repo@ == rest.take(segment_len(rest)));
        Ok(GithubData { user, repo })
    }
}

impl HostingProviderData {
    /// The path component under which the dependency-status service files this provider.
    ///
    /// Only GitHub has one so far, so only a GitHub value may ask.
    pub fn deps_rs_provider_component(&self) -> (component: &'static str)
        requires
            self is GitHub,
        ensures
            component@ == "github"@,
    {
        "github"
    }
}

} // verus!
