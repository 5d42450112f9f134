use readme_badges::{
    add_shields, patch, Block, Failure, Field, GithubData, HostingProviderData, Manifest, Markup,
    Point, Position,
};

const MANIFEST: &str = "[package]\nname = \"foo\"\nrepository = \"https://github.com/u/r\"\n";
const BARE_MANIFEST: &str = "[package]\nname = \"foo\"\n";

const FOUR: &str = "\n\n\
[![Crates.io](https://img.shields.io/crates/v/foo)](https://crates.io/crates/foo)\n\
[![Downloads](https://img.shields.io/crates/d/foo.svg)](https://crates.io/crates/foo)\n\
[![Documentation](https://docs.rs/foo/badge.svg)](https://docs.rs/foo)\n\
[![License](https://img.shields.io/crates/l/foo)](https://crates.io/crates/foo)";

const FIFTH: &str = "\n\
[![Dependency Status](https://deps.rs/repo/github/u/r/status.svg)](https://deps.rs/repo/github/u/r)";

fn title(end_offset: usize) -> Block {
    Block::Heading {
        depth: 1,
        position: Some(Position {
            start: Point { line: 1, column: 1, offset: 0 },
            end: Point { line: 1, column: end_offset + 1, offset: end_offset },
        }),
    }
}

fn bare(name: &str) -> Manifest {
    Manifest { crate_name: name.to_string(), hosting_provider_data: None }
}

#[test]
fn end_to_end() {
    let output = add_shields(MANIFEST, "# Title\n\nBody text.").unwrap();
    assert_eq!(
        output,
        "# Title\n\n\
[![Crates.io](https://img.shields.io/crates/v/foo)](https://crates.io/crates/foo)\n\
[![Downloads](https://img.shields.io/crates/d/foo.svg)](https://crates.io/crates/foo)\n\
[![Documentation](https://docs.rs/foo/badge.svg)](https://docs.rs/foo)\n\
[![License](https://img.shields.io/crates/l/foo)](https://crates.io/crates/foo)\n\
[![Dependency Status](https://deps.rs/repo/github/u/r/status.svg)](https://deps.rs/repo/github/u/r)\n\
\nBody text."
    );
}

#[test]
fn without_repository_four_lines_are_inserted() {
    let readme = "# Title\n\nBody text.";
    let output = add_shields(BARE_MANIFEST, readme).unwrap();
    assert_eq!(output, format!("# Title{FOUR}\n\nBody text."));
    assert_eq!(output.lines().count(), readme.lines().count() + 5);
    assert_eq!(output.lines().filter(|line| line.starts_with("[![")).count(), 4);
    assert_eq!(output.lines().filter(|line| line.contains("Dependency Status")).count(), 0);
}

#[test]
fn github_repository_is_named_in_the_dependency_badge() {
    let manifest = "[package]\nname = \"widget\"\nrepository = \"https://github.com/acme/widget\"\n";
    let output = add_shields(manifest, "# Widget\n").unwrap();
    let line = output.lines().find(|line| line.contains("Dependency Status")).unwrap();
    assert!(line.contains("github/acme/widget"));
    assert_eq!(output.lines().filter(|line| line.starts_with("[![")).count(), 5);
}

#[test]
fn output_is_input_with_the_block_after_the_title() {
    for readme in [
        "# Title",
        "# Title\n",
        "# Title\ntext right under it\n",
        "intro\n\n# Title\n\n## Section\n",
        "<!-- note -->\n# Title #\n\n# Second title\n",
        "Title\n=====\nBody\n",
        "# Café ☕\n\nłódź\n",
        "   #   Indented   \n",
        "#\n",
    ] {
        let end = Markup::parse(readme).title_end().unwrap();
        let output = add_shields(MANIFEST, readme).unwrap();
        assert_eq!(output, format!("{}{FOUR}{FIFTH}{}", &readme[..end], &readme[end..]));
    }
}

#[test]
fn block_goes_to_the_end_of_the_title_line() {
    assert_eq!(
        add_shields(BARE_MANIFEST, "intro\n\n# Café ☕\n\n## Section\n").unwrap(),
        format!("intro\n\n# Café ☕{FOUR}\n\n## Section\n")
    );
}

#[test]
fn subheading_first_is_a_structure_error() {
    let position = Position {
        start: Point { line: 1, column: 1, offset: 0 },
        end: Point { line: 1, column: 11, offset: 10 },
    };
    assert_eq!(
        add_shields(MANIFEST, "## Section\n\n# Title\n"),
        Err(Failure::Structure { depth: 2, position })
    );
    let position = Position {
        start: Point { line: 3, column: 1, offset: 6 },
        end: Point { line: 3, column: 12, offset: 17 },
    };
    assert_eq!(
        add_shields(BARE_MANIFEST, "text\n\n###### Deep\n"),
        Err(Failure::Structure { depth: 6, position })
    );
}

#[test]
fn readme_without_heading() {
    assert_eq!(add_shields(MANIFEST, "Just a paragraph.\n"), Err(Failure::MissingHeading));
    assert_eq!(add_shields(MANIFEST, ""), Err(Failure::MissingHeading));
    assert_eq!(add_shields(MANIFEST, "- # in a list\n"), Err(Failure::MissingHeading));
    assert_eq!(add_shields(MANIFEST, "#hashtag\n"), Err(Failure::MissingHeading));
}

#[test]
fn manifest_is_judged_before_the_readme() {
    assert_eq!(add_shields("[package", "no heading"), Err(Failure::ManifestParse));
    assert_eq!(add_shields("", "## Section"), Err(Failure::MissingField(Field::Package)));
    assert_eq!(
        add_shields("[package]\nname = 1", "no heading"),
        Err(Failure::TypeMismatch(Field::Name))
    );
    assert_eq!(
        add_shields("[package]\nname = \"foo\"\nrepository = \"https://codeberg.org/u/r\"", "# Title"),
        Err(Failure::InvalidUrl)
    );
}

#[test]
fn readme_over_the_limits_is_refused() {
    let long = format!("# Title\n\n{}", "a".repeat(500_000));
    assert_eq!(add_shields(MANIFEST, &long), Err(Failure::MarkupOverLimit));
    let nested = format!("# Title\n\n{}", "[".repeat(1_001));
    assert_eq!(add_shields(MANIFEST, &nested), Err(Failure::MarkupOverLimit));
    assert_eq!(add_shields("[package", &nested), Err(Failure::ManifestParse));
}

#[test]
fn readme_with_a_long_flat_list_gets_its_badges() {
    let readme = format!("# Title\n\n{}", "- [item](link), *noted*\n\n".repeat(2_000));
    let output = add_shields(BARE_MANIFEST, &readme).unwrap();
    assert_eq!(output, format!("# Title{FOUR}{}", &readme[7..]));
    let readme = format!("# Title\n\n{}", "- item\n".repeat(1_001));
    let output = add_shields(BARE_MANIFEST, &readme).unwrap();
    assert_eq!(output, format!("# Title{FOUR}{}", &readme[7..]));
}

#[test]
fn second_run_inserts_a_second_block() {
    let readme = "# Title\n\nBody text.";
    let once = add_shields(MANIFEST, readme).unwrap();
    let twice = add_shields(MANIFEST, &once).unwrap();
    assert_ne!(twice, once);
    assert_eq!(twice, format!("# Title{FOUR}{FIFTH}{FOUR}{FIFTH}\n\nBody text."));
}

#[test]
fn patch_with_a_parse_written_by_hand() {
    let markup = Markup::Document(vec![Block::Other, title(3)]);
    assert_eq!(patch(&bare("foo"), &markup, "# A\nrest"), Ok(format!("# A{FOUR}\nrest")));
}

#[test]
fn patch_refuses_an_offset_outside_the_text() {
    let markup = Markup::Document(vec![title(8)]);
    assert_eq!(patch(&bare("foo"), &markup, "# Title"), Err(Failure::InvalidOffset { offset: 8 }));
    let markup = Markup::Document(vec![title(7)]);
    assert_eq!(patch(&bare("foo"), &markup, "# Title"), Ok(format!("# Title{FOUR}")));
}

#[test]
fn patch_refuses_an_offset_inside_a_character() {
    let markup = Markup::Document(vec![title(4)]);
    assert_eq!(patch(&bare("foo"), &markup, "# Añb"), Err(Failure::InvalidOffset { offset: 4 }));
    let markup = Markup::Document(vec![title(5)]);
    assert_eq!(patch(&bare("foo"), &markup, "# Añb"), Ok(format!("# Añ{FOUR}b")));
}

#[test]
fn patch_without_a_document() {
    assert_eq!(patch(&bare("foo"), &Markup::NotADocument, "# Title"), Err(Failure::MarkupParse));
    let rejected = Markup::Rejected("1:1: no".to_string());
    assert_eq!(patch(&bare("foo"), &rejected, "# Title"), Err(Failure::MarkupParse));
    assert_eq!(patch(&bare("foo"), &Markup::OverLimit, "# Title"), Err(Failure::MarkupOverLimit));
}

#[test]
fn patch_fails_for_an_unsupported_provider_before_it_looks_at_the_readme() {
    let manifest = Manifest {
        crate_name: "foo".to_string(),
        hosting_provider_data: Some(HostingProviderData::GitLab),
    };
    assert_eq!(
        patch(&manifest, &Markup::Document(vec![title(7)]), "# Title"),
        Err(Failure::UnsupportedProvider)
    );
    assert_eq!(patch(&manifest, &Markup::OverLimit, ""), Err(Failure::UnsupportedProvider));
    assert_eq!(patch(&manifest, &Markup::Document(vec![]), ""), Err(Failure::UnsupportedProvider));
}

#[test]
fn patch_for_a_github_repository() {
    let manifest = Manifest {
        crate_name: "foo".to_string(),
        hosting_provider_data: Some(HostingProviderData::GitHub(GithubData {
            user: "u".to_string(),
            repo: "r".to_string(),
        })),
    };
    assert_eq!(
        patch(&manifest, &Markup::Document(vec![title(7)]), "# Title\n"),
        Ok(format!("# Title{FOUR}{FIFTH}\n"))
    );
}

#[test]
fn patch_heading_without_position() {
    let markup = Markup::Document(vec![Block::Heading { depth: 1, position: None }]);
    assert_eq!(
        patch(&bare("foo"), &markup, "# Title"),
        Err(Failure::PositionUnavailable { depth: 1 })
    );
}
