use readme_badges::hosting::{GithubData, HostingProviderData};
use readme_badges::Failure;

fn github(user: &str, repo: &str) -> GithubData {
    GithubData { user: user.to_string(), repo: repo.to_string() }
}

#[test]
fn url_with_scheme_gives_user_and_repo() {
    assert_eq!(GithubData::from_str("https://github.com/acme/widget"), Ok(github("acme", "widget")));
}

#[test]
fn url_without_scheme_gives_user_and_repo() {
    assert_eq!(GithubData::from_str("github.com/acme/widget"), Ok(github("acme", "widget")));
}

#[test]
fn url_trailing_segments_are_ignored() {
    assert_eq!(
        GithubData::from_str("https://github.com/acme/widget/tree/main/src"),
        Ok(github("acme", "widget"))
    );
    assert_eq!(GithubData::from_str("github.com/acme/widget/"), Ok(github("acme", "widget")));
}

#[test]
fn url_git_suffix_is_kept_verbatim() {
    assert_eq!(
        GithubData::from_str("https://github.com/acme/widget.git"),
        Ok(github("acme", "widget.git"))
    );
}

#[test]
fn url_segments_may_be_empty() {
    assert_eq!(GithubData::from_str("github.com/acme/"), Ok(github("acme", "")));
    assert_eq!(GithubData::from_str("github.com//"), Ok(github("", "")));
    assert_eq!(GithubData::from_str("github.com//widget"), Ok(github("", "widget")));
}

#[test]
fn url_segments_may_hold_any_characters() {
    assert_eq!(
        GithubData::from_str("https://github.com/zoë/λ-calc?tab=readme#top"),
        Ok(github("zoë", "λ-calc?tab=readme#top"))
    );
}

#[test]
fn url_of_another_host_is_invalid() {
    assert_eq!(GithubData::from_str("https://gitlab.com/acme/widget"), Err(Failure::InvalidUrl));
    assert_eq!(GithubData::from_str("https://example.org/acme/widget"), Err(Failure::InvalidUrl));
    assert_eq!(GithubData::from_str("https://www.github.com/acme/widget"), Err(Failure::InvalidUrl));
    assert_eq!(GithubData::from_str("github.com"), Err(Failure::InvalidUrl));
    assert_eq!(GithubData::from_str(""), Err(Failure::InvalidUrl));
}

#[test]
fn url_with_another_scheme_is_invalid() {
    assert_eq!(GithubData::from_str("http://github.com/acme/widget"), Err(Failure::InvalidUrl));
    assert_eq!(GithubData::from_str("git@github.com:acme/widget"), Err(Failure::InvalidUrl));
    assert_eq!(
        GithubData::from_str("https://https://github.com/acme/widget"),
        Err(Failure::InvalidUrl)
    );
}

#[test]
fn url_with_one_segment_is_invalid() {
    assert_eq!(GithubData::from_str("https://github.com/acme"), Err(Failure::InvalidUrl));
    assert_eq!(GithubData::from_str("https://github.com/"), Err(Failure::InvalidUrl));
    assert_eq!(GithubData::from_str("github.com/"), Err(Failure::InvalidUrl));
}

#[test]
fn url_scheme_is_stripped_once_and_only_at_the_front() {
    assert_eq!(
        GithubData::from_str("github.com/https://github.com/acme"),
        Ok(github("https:", ""))
    );
}

#[test]
fn github_component_is_github() {
    let provider = HostingProviderData::GitHub(github("acme", "widget"));
    assert_eq!(provider.deps_rs_provider_component(), "github");
}
