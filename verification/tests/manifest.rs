use readme_badges::manifest::{entry, read_document, Entry, Manifest};
use readme_badges::{Failure, Field, GithubData, HostingProviderData};

fn on_github(name: &str, user: &str, repo: &str) -> Manifest {
    Manifest {
        crate_name: name.to_string(),
        hosting_provider_data: Some(HostingProviderData::GitHub(GithubData {
            user: user.to_string(),
            repo: repo.to_string(),
        })),
    }
}

fn without_repository(name: &str) -> Manifest {
    Manifest { crate_name: name.to_string(), hosting_provider_data: None }
}

fn text(value: &str) -> toml::Value {
    toml::Value::String(value.to_string())
}

fn table(entries: Vec<(&str, toml::Value)>) -> toml::Value {
    let mut table = toml::Table::new();
    for (key, value) in entries {
        table.insert(key.to_string(), value);
    }
    toml::Value::Table(table)
}

#[test]
fn manifest_with_name_and_repository() {
    let contents = "[package]\nname = \"foo\"\nversion = \"0.1.0\"\nrepository = \"https://github.com/u/r\"\n";
    assert_eq!(Manifest::parse(contents), Ok(on_github("foo", "u", "r")));
}

#[test]
fn manifest_without_repository_has_no_hosting_data() {
    let contents = "[package]\nname = \"foo\"\nversion = \"0.1.0\"\n";
    assert_eq!(Manifest::parse(contents), Ok(without_repository("foo")));
}

#[test]
fn manifest_written_with_inline_table_or_dotted_keys() {
    assert_eq!(
        Manifest::parse("package = { name = \"foo\", repository = \"github.com/u/r\" }"),
        Ok(on_github("foo", "u", "r"))
    );
    assert_eq!(Manifest::parse("package.name = 'bar'"), Ok(without_repository("bar")));
}

#[test]
fn manifest_name_is_taken_as_written() {
    assert_eq!(Manifest::parse("[package]\nname = \"\""), Ok(without_repository("")));
    assert_eq!(
        Manifest::parse("[package]\nname = \"caf\\u00e9 \\\"x\\\"\""),
        Ok(without_repository("café \"x\""))
    );
}

#[test]
fn manifest_that_is_no_document_fails_to_parse() {
    assert_eq!(Manifest::parse("[package"), Err(Failure::ManifestParse));
    assert_eq!(Manifest::parse("name = "), Err(Failure::ManifestParse));
    assert_eq!(Manifest::parse("[package]\nname = \"a\"\nname = \"b\""), Err(Failure::ManifestParse));
}

#[test]
fn manifest_without_package_section() {
    assert_eq!(Manifest::parse(""), Err(Failure::MissingField(Field::Package)));
    assert_eq!(
        Manifest::parse("[workspace]\nmembers = [\"a\"]\n"),
        Err(Failure::MissingField(Field::Package))
    );
    assert_eq!(Manifest::parse("name = \"foo\""), Err(Failure::MissingField(Field::Package)));
}

#[test]
fn manifest_without_name() {
    assert_eq!(
        Manifest::parse("[package]\nversion = \"0.1.0\"\n"),
        Err(Failure::MissingField(Field::Name))
    );
    assert_eq!(
        Manifest::parse("[package]\nrepository = \"https://github.com/u/r\"\n"),
        Err(Failure::MissingField(Field::Name))
    );
}

#[test]
fn manifest_whose_package_is_no_table_has_no_name() {
    assert_eq!(Manifest::parse("package = \"foo\""), Err(Failure::MissingField(Field::Name)));
    assert_eq!(
        Manifest::parse("package = [{ name = \"foo\" }]"),
        Err(Failure::MissingField(Field::Name))
    );
}

#[test]
fn manifest_name_of_another_type() {
    assert_eq!(Manifest::parse("[package]\nname = 3"), Err(Failure::TypeMismatch(Field::Name)));
    assert_eq!(
        Manifest::parse("[package]\nname = { workspace = true }"),
        Err(Failure::TypeMismatch(Field::Name))
    );
}

#[test]
fn manifest_repository_of_another_type() {
    assert_eq!(
        Manifest::parse("[package]\nname = \"foo\"\nrepository = [\"https://github.com/u/r\"]"),
        Err(Failure::TypeMismatch(Field::Repository))
    );
    assert_eq!(
        Manifest::parse("[package]\nname = \"foo\"\nrepository = false"),
        Err(Failure::TypeMismatch(Field::Repository))
    );
}

#[test]
fn manifest_name_is_judged_before_repository() {
    assert_eq!(
        Manifest::parse("[package]\nname = 3\nrepository = 4"),
        Err(Failure::TypeMismatch(Field::Name))
    );
    assert_eq!(
        Manifest::parse("[package]\nrepository = 4"),
        Err(Failure::MissingField(Field::Name))
    );
    assert_eq!(
        Manifest::parse("[package]\nname = 3\nrepository = \"https://example.org\""),
        Err(Failure::TypeMismatch(Field::Name))
    );
}

#[test]
fn manifest_repository_that_is_no_github_url() {
    assert_eq!(
        Manifest::parse("[package]\nname = \"foo\"\nrepository = \"https://gitlab.com/u/r\""),
        Err(Failure::InvalidUrl)
    );
    assert_eq!(
        Manifest::parse("[package]\nname = \"foo\"\nrepository = \"https://github.com/u\""),
        Err(Failure::InvalidUrl)
    );
    assert_eq!(
        Manifest::parse("[package]\nname = \"foo\"\nrepository = \"\""),
        Err(Failure::InvalidUrl)
    );
}

#[test]
fn document_built_by_hand() {
    let document = table(vec![(
        "package",
        table(vec![("name", text("foo")), ("repository", text("github.com/acme/widget.git"))]),
    )]);
    assert_eq!(Manifest::from_document(&document), Ok(on_github("foo", "acme", "widget.git")));
    assert_eq!(
        Manifest::from_document(&table(vec![])),
        Err(Failure::MissingField(Field::Package))
    );
    assert_eq!(
        Manifest::from_document(&text("package")),
        Err(Failure::MissingField(Field::Package))
    );
    assert_eq!(
        Manifest::from_document(&table(vec![("package", toml::Value::Integer(1))])),
        Err(Failure::MissingField(Field::Name))
    );
}

#[test]
fn entry_tells_text_from_other_values() {
    let package = table(vec![
        ("name", text("foo")),
        ("version", toml::Value::Integer(1)),
        ("authors", toml::Value::Array(vec![text("a")])),
        ("metadata", table(vec![])),
        ("publish", toml::Value::Boolean(false)),
    ]);
    assert_eq!(entry(&package, "name"), Entry::Text("foo".to_string()));
    assert_eq!(entry(&package, "version"), Entry::NotText);
    assert_eq!(entry(&package, "authors"), Entry::NotText);
    assert_eq!(entry(&package, "metadata"), Entry::NotText);
    assert_eq!(entry(&package, "publish"), Entry::NotText);
    assert_eq!(entry(&package, "repository"), Entry::Missing);
    assert_eq!(entry(&package, "Name"), Entry::Missing);
    assert_eq!(entry(&text("foo"), "name"), Entry::Missing);
    assert_eq!(entry(&toml::Value::Array(vec![package]), "name"), Entry::Missing);
}

#[test]
fn entries_decide_the_manifest() {
    let name = || Entry::Text("foo".to_string());
    let url = |s: &str| Entry::Text(s.to_string());
    assert_eq!(Manifest::from_entries(name(), Entry::Missing), Ok(without_repository("foo")));
    assert_eq!(
        Manifest::from_entries(name(), url("https://github.com/u/r")),
        Ok(on_github("foo", "u", "r"))
    );
    assert_eq!(
        Manifest::from_entries(Entry::Missing, url("https://github.com/u/r")),
        Err(Failure::MissingField(Field::Name))
    );
    assert_eq!(
        Manifest::from_entries(Entry::Missing, Entry::Missing),
        Err(Failure::MissingField(Field::Name))
    );
    assert_eq!(
        Manifest::from_entries(Entry::NotText, Entry::Missing),
        Err(Failure::TypeMismatch(Field::Name))
    );
    assert_eq!(
        Manifest::from_entries(Entry::NotText, Entry::NotText),
        Err(Failure::TypeMismatch(Field::Name))
    );
    assert_eq!(
        Manifest::from_entries(name(), Entry::NotText),
        Err(Failure::TypeMismatch(Field::Repository))
    );
    assert_eq!(Manifest::from_entries(name(), url("u/r")), Err(Failure::InvalidUrl));
}

#[test]
fn read_document_gives_the_document() {
    let document = read_document("[package]\nname = \"foo\"\n").unwrap();
    assert_eq!(document, table(vec![("package", table(vec![("name", text("foo"))]))]));
    assert_eq!(read_document(""), Ok(table(vec![])));
}

#[test]
fn read_document_says_what_went_wrong() {
    let words = read_document("[package]\nname = \"a\"\nname = \"b\"").unwrap_err();
    assert_eq!(words, "duplicate key");
    let words = read_document("[package").unwrap_err();
    assert!(!words.is_empty());
    assert_ne!(words, "[package");
}
