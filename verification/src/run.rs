//! The whole run: from the texts of manifest and README to the README with badges.

use vstd::prelude::*;
use vstd::utf8::encode_utf8;
use crate::error::Failure;
use crate::hosting::{github_url, lemma_github_url_names_first_two_segments, GithubRepo};
use crate::locator::{
    is_first_heading, lemma_missing_heading_iff_no_heading,
    lemma_subheading_first_is_structure_error, lemma_title_first_gives_its_end, outline_of,
    title_end_in, within_limits, Block, Markup, Outline, Position,
};
use crate::manifest::{entry_at, package_of, toml_document, EntryValue, Manifest, Package};
use crate::readme::{
    can_insert_at, insert_at, lemma_spliced_bytes, lemma_spliced_twice, spliced,
};
use crate::shields::{
    badge_block, badge_lines, dependency_badge, documentation_badge, downloads_badge,
    is_dependency_badge, lemma_dependency_badge_names_repository,
    lemma_five_badges_with_repository, lemma_four_badges_without_repository,
    lemma_shields_open_with_one_blank_line, license_badge, occurs_in, repository_path, shields,
    shields_for, version_badge,
};

verus! {

/// The README with the badges of `package` in it, or why it gets none.
///
/// The block of badges is composed first, then the title is looked for, and last the
/// offset is held against the text: each step can fail, and the first failure is the
/// outcome.
pub open spec fn patched(package: Package, outline: Outline, readme: Seq<char>) -> Result<
    Seq<char>,
    Failure,
> {
    match shields_for(package.crate_name, package.hosting_provider) {
        Err(failure) => Err(failure),
        Ok(block) => match title_end_in(outline) {
            Err(failure) => Err(failure),
            Ok(offset) => if can_insert_at(readme, offset as int) {
                Ok(spliced(readme, offset as int, block))
            } else {
                Err(Failure::InvalidOffset { offset })
            },
        },
    }
}

/// The README with the badges in it, from the texts of manifest and README.
pub open spec fn with_shields(manifest: Seq<char>, readme: Seq<char>) -> Result<
    Seq<char>,
    Failure,
> {
    match package_of(manifest) {
        Err(failure) => Err(failure),
        Ok(package) => patched(package, outline_of(readme), readme),
    }
}

/// Whether `outcome` is `expected`, read through the string's view.
pub open spec fn gives(
    outcome: Result<String, Failure>,
    expected: Result<Seq<char>, Failure>,
) -> bool {
    match outcome {
        Ok(text) => expected == Ok::<Seq<char>, Failure>(text@),
        Err(failure) => expected == Err::<Seq<char>, Failure>(failure),
    }
}

/// Puts the badges for `manifest` into `readme`, whose parse is `markup`.
pub fn patch(manifest: &Manifest, markup: &Markup, readme: &str) -> (outcome: Result<
    String,
    Failure,
>)
    ensures
        gives(outcome, patched(manifest@, markup@, readme@)),
{
    let hosting = manifest.hosting_provider_data.as_ref();
    let block = match shields(manifest.crate_name.as_str(), hosting) {
        Err(failure) => { return Err(failure); },
        Ok(block) => block,
    };
    let offset = match markup.title_end() {
        Err(failure) => { return Err(failure); },
        Ok(offset) => offset,
    };
    if !readme.is_char_boundary(offset) {
        return Err(Failure::InvalidOffset { offset });
    }
    Ok(insert_at(readme, offset, block.as_str()))
}

/// Reads the manifest, finds the title of the README and returns the README with the
/// badges inserted after it. On any failure nothing is returned but the failure.
pub fn add_shields(manifest: &str, readme: &str) -> (outcome: Result<String, Failure>)
    ensures
        gives(outcome, with_shields(manifest@, readme@)),
{
    let manifest = match Manifest::parse(manifest) {
        Err(failure) => { return Err(failure); },
        Ok(manifest) => manifest,
    };
    let markup = Markup::parse(readme);
    patch(&manifest, &markup, readme)
}

/// Whether the text of a manifest holds a `package` section with `name` and
/// `repository` as its two entries.
pub open spec fn manifest_holds(
    manifest: Seq<char>,
    name: EntryValue,
    repository: EntryValue,
) -> bool {
    &&& toml_document(manifest) matches Ok(contents)
    &&& contents.dom().contains(seq!["package"@])
    &&& entry_at(contents, seq!["package"@, "name"@]) == name
    &&& entry_at(contents, seq!["package"@, "repository"@]) == repository
}

/// Every package that a manifest can describe has a block of badges: the reader
/// names no provider but GitHub.
pub proof fn lemma_package_has_shields(manifest: Seq<char>)
    requires
        package_of(manifest) is Ok,
    ensures
        shields_for(
            package_of(manifest)->Ok_0.crate_name,
            package_of(manifest)->Ok_0.hosting_provider,
        ) is Ok,
{
}

/// A manifest with a text name and no repository has exactly the four badges of the
/// name inserted, none of them a dependency badge.
pub proof fn lemma_without_repository_inserts_four_badges(
    manifest: Seq<char>,
    readme: Seq<char>,
    name: Seq<char>,
    offset: usize,
)
    requires
        manifest_holds(manifest, EntryValue::Text(name), EntryValue::Missing),
        title_end_in(outline_of(readme)) == Ok::<usize, Failure>(offset),
        can_insert_at(readme, offset as int),
    ensures
        with_shields(manifest, readme) == Ok::<Seq<char>, Failure>(
            spliced(
                readme,
                offset as int,
                badge_block(
                    seq![
                        version_badge(name),
                        downloads_badge(name),
                        documentation_badge(name),
                        license_badge(name),
                    ],
                ),
            ),
        ),
        !is_dependency_badge(version_badge(name)),
        !is_dependency_badge(downloads_badge(name)),
        !is_dependency_badge(documentation_badge(name)),
        !is_dependency_badge(license_badge(name)),
{
    lemma_four_badges_without_repository(name);
    let lines = badge_lines(name, None);
    assert(!is_dependency_badge(lines[0]));
    assert(!is_dependency_badge(lines[1]));
    assert(!is_dependency_badge(lines[2]));
    assert(!is_dependency_badge(lines[3]));
}

/// A manifest whose repository is a GitHub URL has a fifth badge inserted, the
/// dependency badge, and that badge spells out `github/<user>/<repo>`.
pub proof fn lemma_github_repository_inserts_dependency_badge(
    manifest: Seq<char>,
    readme: Seq<char>,
    name: Seq<char>,
    with_scheme: bool,
    user: Seq<char>,
    repo: Seq<char>,
    trailing: Seq<char>,
    offset: usize,
)
    requires
        manifest_holds(
            manifest,
            EntryValue::Text(name),
            EntryValue::Text(github_url(with_scheme, user, repo) + trailing),
        ),
        !user.contains('/'),
        !repo.contains('/'),
        trailing.len() == 0 || trailing[0] == '/',
        title_end_in(outline_of(readme)) == Ok::<usize, Failure>(offset),
        can_insert_at(readme, offset as int),
    ensures
        with_shields(manifest, readme) == Ok::<Seq<char>, Failure>(
            spliced(
                readme,
                offset as int,
                badge_block(badge_lines(name, Some(GithubRepo { user, repo }))),
            ),
        ),
        badge_lines(name, Some(GithubRepo { user, repo })).len() == 5,
        badge_lines(name, Some(GithubRepo { user, repo }))[4] == dependency_badge(
            "github"@,
            GithubRepo { user, repo },
        ),
        occurs_in(
            "github/"@ + user + "/"@ + repo,
            dependency_badge("github"@, GithubRepo { user, repo }),
        ),
{
    let data = GithubRepo { user, repo };
    lemma_github_url_names_first_two_segments(with_scheme, user, repo, trailing);
    lemma_five_badges_with_repository(name, data);
    lemma_dependency_badge_names_repository("github"@, data);
    reveal_strlit("github/");
    reveal_strlit("github");
    reveal_strlit("/");
    assert("github/"@ =~= "github"@ + "/"@);
    assert(repository_path("github"@, data) =~= "github/"@ + user + "/"@ + repo);
}

/// Where the README is within the limits and its first heading is a title, the
/// outcome is the README with the block put in at the title's end and nothing else
/// changed, and the block opens with one blank line.
pub proof fn lemma_title_first_inserts_at_its_end(
    manifest: Seq<char>,
    readme: Seq<char>,
    blocks: Seq<Block>,
    at: int,
    position: Position,
)
    requires
        package_of(manifest) is Ok,
        outline_of(readme) == Outline::Document(blocks),
        is_first_heading(blocks, at),
        blocks[at] == (Block::Heading { depth: 1, position: Some(position) }),
        can_insert_at(readme, position.end.offset as int),
    ensures
        with_shields(manifest, readme) is Ok,
        ({
            let package = package_of(manifest)->Ok_0;
            let block = shields_for(package.crate_name, package.hosting_provider)->Ok_0;
            let end = position.end.offset as int;
            let bytes = encode_utf8(readme);
            &&& with_shields(manifest, readme)->Ok_0 == spliced(readme, end, block)
            &&& encode_utf8(with_shields(manifest, readme)->Ok_0) == bytes.subrange(0, end)
                + encode_utf8(block) + bytes.subrange(end, bytes.len() as int)
            &&& "\n\n"@.is_prefix_of(block)
            &&& "\n\n"@.len() == 2
            &&& block[2] != '\n'
        }),
{
    let package = package_of(manifest)->Ok_0;
    let block = shields_for(package.crate_name, package.hosting_provider)->Ok_0;
    lemma_package_has_shields(manifest);
    lemma_title_first_gives_its_end(blocks, at, position);
    lemma_spliced_bytes(readme, position.end.offset as int, block);
    lemma_shields_open_with_one_blank_line(package.crate_name, package.hosting_provider);
}

/// Where the README is within the limits and its first heading is no title, the run
/// fails with a structure error that reports the heading, and no README comes out.
pub proof fn lemma_subheading_first_fails(
    manifest: Seq<char>,
    readme: Seq<char>,
    blocks: Seq<Block>,
    at: int,
    depth: u8,
    position: Position,
)
    requires
        package_of(manifest) is Ok,
        outline_of(readme) == Outline::Document(blocks),
        is_first_heading(blocks, at),
        blocks[at] == (Block::Heading { depth, position: Some(position) }),
        depth != 1,
    ensures
        with_shields(manifest, readme) == Err::<Seq<char>, Failure>(
            Failure::Structure { depth, position },
        ),
{
    lemma_package_has_shields(manifest);
    lemma_subheading_first_is_structure_error(blocks, at, depth, position);
}

/// Where the README is within the limits and has no heading among its top-level
/// blocks, the run fails with a missing heading, and no README comes out.
pub proof fn lemma_no_heading_fails(manifest: Seq<char>, readme: Seq<char>, blocks: Seq<Block>)
    requires
        package_of(manifest) is Ok,
        outline_of(readme) == Outline::Document(blocks),
        forall|j: int| 0 <= j < blocks.len() ==> blocks[j] is Other,
    ensures
        with_shields(manifest, readme) == Err::<Seq<char>, Failure>(Failure::MissingHeading),
{
    lemma_package_has_shields(manifest);
    lemma_missing_heading_iff_no_heading(blocks);
}

/// Where the README is over the limits, the run fails without handing it to the markup
/// parser, and no README comes out.
pub proof fn lemma_readme_over_limit_fails(manifest: Seq<char>, readme: Seq<char>)
    requires
        package_of(manifest) is Ok,
        !within_limits(readme),
    ensures
        with_shields(manifest, readme) == Err::<Seq<char>, Failure>(Failure::MarkupOverLimit),
{
    lemma_package_has_shields(manifest);
}

/// A run is not idempotent. A second run on the outcome of the first, where it finds
/// the title ending at the same offset, inserts the block once more: the outcome then
/// holds the block twice in a row and differs from that of the first run.
pub proof fn lemma_second_run_inserts_again(
    manifest: Seq<char>,
    readme: Seq<char>,
    once: Seq<char>,
)
    requires
        with_shields(manifest, readme) == Ok::<Seq<char>, Failure>(once),
        title_end_in(outline_of(once)) == title_end_in(outline_of(readme)),
    ensures
        with_shields(manifest, once) is Ok,
        with_shields(manifest, once)->Ok_0 != once,
        ({
            let package = package_of(manifest)->Ok_0;
            let block = shields_for(package.crate_name, package.hosting_provider)->Ok_0;
            exists|at: int|
                0 <= at <= readme.len() && with_shields(manifest, once)->Ok_0
                    == #[trigger] readme.take(at) + block + block + readme.skip(at)
        }),
{
    let package = package_of(manifest)->Ok_0;
    let block = shields_for(package.crate_name, package.hosting_provider)->Ok_0;
    let offset = title_end_in(outline_of(readme))->Ok_0;
    lemma_spliced_twice(readme, offset as int, block);
    lemma_shields_open_with_one_blank_line(package.crate_name, package.hosting_provider);
}

} // verus!
