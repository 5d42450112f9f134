//! The block of badges: one line of markup for each badge, under one blank line.

use vstd::prelude::*;
use crate::error::Failure;
use crate::hosting::{GithubRepo, HostingProvider, HostingProviderData};

verus! {

/// The badge that shows the crate's latest version in the registry.
pub open spec fn version_badge(name: Seq<char>) -> Seq<char> {
    "[![Crates.io](https://img.shields.io/crates/v/"@ + name + ")](https://crates.io/crates/"@
        + name + ")"@
}

/// The badge that shows how often the crate was downloaded.
pub open spec fn downloads_badge(name: Seq<char>) -> Seq<char> {
    "[![Downloads](https://img.shields.io/crates/d/"@ + name
        + ".svg)](https://crates.io/crates/"@ + name + ")"@
}

/// The badge that links to the crate's documentation.
pub open spec fn documentation_badge(name: Seq<char>) -> Seq<char> {
    "[![Documentation](https://docs.rs/"@ + name + "/badge.svg)](https://docs.rs/"@ + name
        + ")"@
}

/// The badge that shows the crate's license.
pub open spec fn license_badge(name: Seq<char>) -> Seq<char> {
    "[![License](https://img.shields.io/crates/l/"@ + name + ")](https://crates.io/crates/"@
        + name + ")"@
}

/// The path under which the dependency-status service files a repository.
pub open spec fn repository_path(provider: Seq<char>, repo: GithubRepo) -> Seq<char> {
    provider + "/"@ + repo.user + "/"@ + repo.repo
}

/// The badge that shows whether the repository's dependencies are up to date.
pub open spec fn dependency_badge(provider: Seq<char>, repo: GithubRepo) -> Seq<char> {
    "[![Dependency Status](https://deps.rs/repo/"@ + repository_path(provider, repo)
        + "/status.svg)](https://deps.rs/repo/"@ + repository_path(provider, repo) + ")"@
}

/// The badges of a crate, in the order in which they are shown. The dependency badge
/// is the last, and is there only for a crate whose repository is known.
pub open spec fn badge_lines(name: Seq<char>, repo: Option<GithubRepo>) -> Seq<Seq<char>> {
    let always = seq![
        version_badge(name),
        downloads_badge(name),
        documentation_badge(name),
        license_badge(name),
    ];
    match repo {
        None => always,
        Some(repo) => always.push(dependency_badge("github"@, repo)),
    }
}

/// `lines` with one newline between each line and the next, and none at the end.
pub open spec fn joined(lines: Seq<Seq<char>>) -> Seq<char>
    decreases lines.len(),
{
    if lines.len() == 0 {
        Seq::empty()
    } else if lines.len() == 1 {
        lines[0]
    } else {
        joined(lines.drop_last()) + "\n"@ + lines.last()
    }
}

/// The text that is inserted for `lines`: two newlines, which leave one line blank
/// under the heading, and then the lines.
pub open spec fn badge_block(lines: Seq<Seq<char>>) -> Seq<char> {
    "\n\n"@ + joined(lines)
}

/// The block of badges for a crate, or why there is none: a provider other than
/// GitHub has no dependency badge yet, and no block is made rather than a wrong one.
pub open spec fn shields_for(name: Seq<char>, hosting: Option<HostingProvider>) -> Result<
    Seq<char>,
    Failure,
> {
    match hosting {
        None => Ok(badge_block(badge_lines(name, None))),
        Some(HostingProvider::GitHub(repo)) => Ok(badge_block(badge_lines(name, Some(repo)))),
        Some(_) => Err(Failure::UnsupportedProvider),
    }
}

/// Whether `line` is a dependency badge, going by its label.
pub open spec fn is_dependency_badge(line: Seq<char>) -> bool {
    "[![Dependency Status]"@.is_prefix_of(line)
}

/// Whether `needle` stands somewhere in `text`, character for character.
pub open spec fn occurs_in(needle: Seq<char>, text: Seq<char>) -> bool {
    exists|at: int|
        0 <= at && at + needle.len() <= text.len() && #[trigger] text.subrange(
            at,
            at + needle.len(),
        ) == needle
}

/// A crate without a known repository gets exactly four badges: version, downloads,
/// documentation and license, in this order, and none of them is a dependency badge.
pub proof fn lemma_four_badges_without_repository(name: Seq<char>)
    ensures
        badge_lines(name, None) == seq![
            version_badge(name),
            downloads_badge(name),
            documentation_badge(name),
            license_badge(name),
        ],
        forall|i: int|
            0 <= i < 4 ==> !is_dependency_badge(#[trigger] badge_lines(name, None)[i]),
{
    reveal_strlit("[![Dependency Status]");
    reveal_strlit("[![Crates.io](https://img.shields.io/crates/v/");
    reveal_strlit("[![Downloads](https://img.shields.io/crates/d/");
    reveal_strlit("[![Documentation](https://docs.rs/");
    reveal_strlit("[![License](https://img.shields.io/crates/l/");
    let label = "[![Dependency Status]"@;
    let lines = badge_lines(name, None);
    assert(lines[0][3] == 'C');
    assert(lines[1][4] == 'o');
    assert(lines[2][4] == 'o');
    assert(lines[3][3] == 'L');
    assert forall|i: int| 0 <= i < 4 implies !is_dependency_badge(#[trigger] lines[i]) by {
        if is_dependency_badge(lines[i]) {
            let head = lines[i].subrange(0, label.len() as int);
            assert(head[3] == label[3] && head[4] == label[4]);
        }
    }
}

/// A crate with a repository on GitHub gets the same four badges and the dependency
/// badge after them.
pub proof fn lemma_five_badges_with_repository(name: Seq<char>, repo: GithubRepo)
    ensures
        badge_lines(name, Some(repo)) == badge_lines(name, None).push(
            dependency_badge("github"@, repo),
        ),
        badge_lines(name, Some(repo)).len() == 5,
        is_dependency_badge(badge_lines(name, Some(repo))[4]),
{
    reveal_strlit("[![Dependency Status]");
    reveal_strlit("[![Dependency Status](https://deps.rs/repo/");
    let label = "[![Dependency Status]"@;
    let line = dependency_badge("github"@, repo);
    assert(line.subrange(0, label.len() as int) =~= label);
}

/// The dependency badge spells out provider, user and repository as one path.
pub proof fn lemma_dependency_badge_names_repository(provider: Seq<char>, repo: GithubRepo)
    ensures
        occurs_in(repository_path(provider, repo), dependency_badge(provider, repo)),
{
    let before = "[![Dependency Status](https://deps.rs/repo/"@;
    let path = repository_path(provider, repo);
    let line = dependency_badge(provider, repo);
    assert(line.subrange(before.len() as int, (before.len() + path.len()) as int) =~= path);
    assert(occurs_in(path, line));
}

/// Every block of badges opens with one blank line: two newlines, and then the first
/// badge.
pub proof fn lemma_shields_open_with_one_blank_line(
    name: Seq<char>,
    hosting: Option<HostingProvider>,
)
    requires
        shields_for(name, hosting) is Ok,
    ensures
        "\n\n"@.len() == 2,
        "\n\n"@.is_prefix_of(shields_for(name, hosting)->Ok_0),
        shields_for(name, hosting)->Ok_0[2] == '[',
{
    reveal_strlit("\n\n");
    reveal_strlit("[![Crates.io](https://img.shields.io/crates/v/");
    let repo = match hosting {
        Some(HostingProvider::GitHub(repo)) => Some(repo),
        _ => None,
    };
    let lines = badge_lines(name, repo);
    let block = badge_block(lines);
    assert(block == shields_for(name, hosting)->Ok_0);
    assert(block.subrange(0, 2) =~= "\n\n"@);
    assert(lines[0][0] == '[');
    lemma_joined_opens_with_first(lines);
}

/// Joined lines begin with the first line.
pub proof fn lemma_joined_opens_with_first(lines: Seq<Seq<char>>)
    requires
        lines.len() > 0,
    ensures
        lines[0].is_prefix_of(joined(lines)),
    decreases lines.len(),
{
    if lines.len() > 1 {
        lemma_joined_opens_with_first(lines.drop_last());
        assert(lines.drop_last()[0] == lines[0]);
        let shorter = joined(lines.drop_last());
        assert(joined(lines).subrange(0, lines[0].len() as int) =~= shorter.subrange(
            0,
            lines[0].len() as int,
        ));
    } else {
        assert(joined(lines).subrange(0, lines[0].len() as int) =~= lines[0]);
    }
}

/// Writes a badge: `subject` stands twice in it, once in the address of the image and
/// once in the address of the link.
fn write_badge(before: &str, subject: &str, between: &str, after: &str) -> (line: String)
    ensures
        line@ == before@ + subject@ + between@ + subject@ + after@,
{
    let mut line = String::from_str(before);
    line.append(subject);
    line.append(between);
    line.append(subject);
    line.append(after);
    line
}

/// Writes the path under which the dependency-status service files `user`/`repo`.
fn write_repository_path(provider: &str, user: &str, repo: &str) -> (path: String)
    ensures
        path@ == provider@ + "/"@ + user@ + "/"@ + repo@,
{
    let mut path = String::from_str(provider);
    path.append("/");
    path.append(user);
    path.append("/");
    path.append(repo);
    path
}

/// Composes the block of badges for the crate `crate_name`.
///
/// Without hosting data the block holds the four badges that need the name alone. With
/// a repository on GitHub the dependency badge follows them. Any other provider fails
/// with [`Failure::UnsupportedProvider`].
pub fn shields(crate_name: &str, hosting: Option<&HostingProviderData>) -> (block: Result<
    String,
    Failure,
>)
    ensures
        match block {
            Ok(text) => shields_for(crate_name@, hosting_view(hosting)) == Ok::<
                Seq<char>,
                Failure,
            >(text@),
            Err(failure) => shields_for(crate_name@, hosting_view(hosting)) == Err::<
                Seq<char>,
                Failure,
            >(failure),
        },
{
    let mut block = String::from_str("\n\n");
    let version = write_badge(
        "[![Crates.io](https://img.shields.io/crates/v/",
        crate_name,
        ")](https://crates.io/crates/",
        ")",
    );
    let downloads = write_badge(
        "[![Downloads](https://img.shields.io/crates/d/",
        crate_name,
        ".svg)](https://crates.io/crates/",
        ")",
    );
    let documentation = write_badge(
        "[![Documentation](https://docs.rs/",
        crate_name,
        "/badge.svg)](https://docs.rs/",
        ")",
    );
    let license = write_badge(
        "[![License](https://img.shields.io/crates/l/",
        crate_name,
        ")](https://crates.io/crates/",
        ")",
    );
    block.append(version.as_str());
    block.append("\n");
    block.append(downloads.as_str());
    block.append("\n");
    block.append(documentation.as_str());
    block.append("\n");
    block.append(license.as_str());
    proof {
        reveal_with_fuel(joined, 6);
        let lines = badge_lines(crate_name@, None);
        assert(lines.drop_last().drop_last().drop_last() =~= seq![version@]);
        assert(lines.drop_last().drop_last() =~= seq![version@, downloads@]);
        assert(lines.drop_last() =~= seq![version@, downloads@, documentation@]);
        assert(block@ =~= badge_block(lines));
    }
    match hosting {
        None => Ok(block),
        Some(provider) => match provider {
            HostingProviderData::GitHub(data) => {
                let path = write_repository_path(
                    provider.deps_rs_provider_component(),
                    data.user.as_str(),
                    data.repo.as_str(),
                );
                let dependency = write_badge(
                    "[![Dependency Status](https://deps.rs/repo/",
                    path.as_str(),
                    "/status.svg)](https://deps.rs/repo/",
                    ")",
                );
                block.append("\n");
                block.append(dependency.as_str());
                proof {
                    let lines = badge_lines(crate_name@, Some(data@));
                    assert(lines.drop_last() =~= badge_lines(crate_name@, None));
                    assert(block@ =~= badge_block(lines));
                }
                Ok(block)
            },
            _ => Err(Failure::UnsupportedProvider),
        },
    }
}

/// The content of hosting data that may be absent.
pub open spec fn hosting_view(hosting: Option<&HostingProviderData>) -> Option<HostingProvider> {
    match hosting {
        Some(data) => Some(data@),
        None => None,
    }
}

} // verus!
