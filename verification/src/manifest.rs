//! Reading a package manifest: the crate's name and, if it has one, its repository.
//!
//! The repository is optional. A manifest without one yields a [`Manifest`] without
//! hosting data, and the badge that needs it is then left out.

use vstd::prelude::*;
use crate::error::{Failure, Field};
use crate::hosting::{github_repo, GithubData, HostingProvider, HostingProviderData};

verus! {

/// What a manifest says of its package, as far as badges need it.
#[derive(Clone, Debug, PartialEq, Eq)]
pub struct Manifest {
    pub crate_name: String,
    pub hosting_provider_data: Option<HostingProviderData>,
}

/// The mathematical content of a [`Manifest`].
pub ghost struct Package {
    pub crate_name: Seq<char>,
    pub hosting_provider: Option<HostingProvider>,
}

impl View for Manifest {
    type V = Package;

    open spec fn view(&self) -> Package {
        Package {
            crate_name: self.crate_name@,
            hosting_provider: match self.hosting_provider_data {
                Some(data) => Some(data@),
                None => None,
            },
        }
    }
}

/// What stands under one key of the `package` section.
#[derive(Clone, Debug, PartialEq, Eq)]
pub enum Entry {
    /// Nothing: the key is absent.
    Missing,
    /// A text value.
    Text(String),
    /// A value of another type: a number, a table, a list.
    NotText,
}

/// The mathematical content of an [`Entry`].
pub ghost enum EntryValue {
    Missing,
    Text(Seq<char>),
    NotText,
}

impl View for Entry {
    type V = EntryValue;

    open spec fn view(&self) -> EntryValue {
        match self {
            Entry::Missing => EntryValue::Missing,
            Entry::Text(text) => EntryValue::Text(text@),
            Entry::NotText => EntryValue::NotText,
        }
    }
}

/// The package that a `name` and a `repository` entry describe.
///
/// The name is required and must be text. The repository may be absent; where it is
/// present it must be text and name a project on GitHub. The name is judged first.
pub open spec fn package_of_entries(name: EntryValue, repository: EntryValue) -> Result<
    Package,
    Failure,
> {
    match name {
        EntryValue::Missing => Err(Failure::MissingField(Field::Name)),
        EntryValue::NotText => Err(Failure::TypeMismatch(Field::Name)),
        EntryValue::Text(crate_name) => match repository {
            EntryValue::Missing => Ok(Package { crate_name, hosting_provider: None }),
            EntryValue::NotText => Err(Failure::TypeMismatch(Field::Repository)),
            EntryValue::Text(url) => match github_repo(url) {
                None => Err(Failure::InvalidUrl),
                Some(repo) => Ok(
                    Package { crate_name, hosting_provider: Some(HostingProvider::GitHub(repo)) },
                ),
            },
        },
    }
}

/// Whether `outcome` is `expected`, read through the manifest's view.
pub open spec fn yields(
    outcome: Result<Manifest, Failure>,
    expected: Result<Package, Failure>,
) -> bool {
    match outcome {
        Ok(manifest) => expected == Ok::<Package, Failure>(manifest@),
        Err(failure) => expected == Err::<Package, Failure>(failure),
    }
}

/// What a configuration value holds, as far as the reader looks at it.
///
/// The keys of the map are the paths of keys that lead from the value, through tables
/// nested in it, to a value. The empty path leads to the value itself. Under each path
/// stands the text at its end, or `None` where what stands there is no text.
pub type Contents = Map<Seq<Seq<char>>, Option<Seq<char>>>;

/// The part of `contents` that lies under `key`: the contents of the value that stands
/// under that key.
pub open spec fn below(contents: Contents, key: Seq<char>) -> Contents {
    Map::new(
        |path: Seq<Seq<char>>| contents.dom().contains(seq![key] + path),
        |path: Seq<Seq<char>>| contents[seq![key] + path],
    )
}

/// `toml::Value`, a value of a configuration document. Verus sees nothing inside it;
/// [`toml_contents`] stands for what it holds.
#[verifier::external_type_specification]
#[verifier::external_body]
pub struct ExTomlValue(toml::Value);

/// `toml::de::Error`, the parser's report of a document that is not well formed.
#[verifier::external_type_specification]
#[verifier::external_body]
pub struct ExTomlError(toml::de::Error);

/// The [`Contents`] of a `toml::Value`.
pub uninterp spec fn toml_contents(value: toml::Value) -> Contents;

/// What went wrong according to a `toml::de::Error`: the words that its `message`
/// returns.
pub uninterp spec fn toml_error_message(error: toml::de::Error) -> Seq<char>;

/// The contents of the value that `toml::from_str` reads from a document, or, where it
/// reports an error, what went wrong.
pub uninterp spec fn toml_document(text: Seq<char>) -> Result<Contents, Seq<char>>;

/// Calls `toml::from_str` for a `toml::Value`.
///
/// Trusted: that the parser is a function of the text alone, which [`toml_document`]
/// names, and that it returns on every text. Nothing is claimed of which texts it
/// accepts, nor of what it reads from them.
#[verifier::external_body]
fn parse_document(text: &str) -> (parsed: Result<toml::Value, toml::de::Error>)
    ensures
        match parsed {
            Ok(document) => toml_document(text@) == Ok::<Contents, Seq<char>>(
                toml_contents(document),
            ),
            Err(error) => toml_document(text@) == Err::<Contents, Seq<char>>(
                toml_error_message(error),
            ),
        },
{
    toml::from_str(text)
}

/// Calls `toml::de::Error::message`.
///
/// Trusted: that the words are a function of the error, which [`toml_error_message`]
/// names. Nothing is claimed of what they are.
#[verifier::external_body]
fn error_message<'a>(error: &'a toml::de::Error) -> (words: &'a str)
    ensures
        words@ == toml_error_message(*error),
{
    error.message()
}

/// Calls `toml::Value::get` with a text key.
///
/// Trusted: that a value is found exactly where `key` alone is a path into `value`, so
/// where `value` is a table that holds `key`, and that what the found value holds is
/// what `value` holds under `key`.
#[verifier::external_body]
fn member<'a>(value: &'a toml::Value, key: &str) -> (found: Option<&'a toml::Value>)
    ensures
        match found {
            Some(inner) => {
                &&& toml_contents(*value).dom().contains(seq![key@])
                &&& toml_contents(*inner) == below(toml_contents(*value), key@)
            },
            None => !toml_contents(*value).dom().contains(seq![key@]),
        },
{
    value.get(key)
}

/// Calls `toml::Value::as_str`.
///
/// Trusted: that the text returned is what stands under the empty path of `value`: the
/// value's own text where it is a string, and none where it is anything else.
#[verifier::external_body]
fn text_of<'a>(value: &'a toml::Value) -> (text: Option<&'a str>)
    ensures
        match text {
            Some(chars) => entry_at(toml_contents(*value), Seq::empty()) == EntryValue::Text(
                chars@,
            ),
            None => entry_at(toml_contents(*value), Seq::empty()) == EntryValue::NotText,
        },
{
    value.as_str()
}

/// What stands in `contents` at the end of `path`, judged as an [`Entry`].
pub open spec fn entry_at(contents: Contents, path: Seq<Seq<char>>) -> EntryValue {
    if !contents.dom().contains(path) {
        EntryValue::Missing
    } else {
        match contents[path] {
            Some(text) => EntryValue::Text(text),
            None => EntryValue::NotText,
        }
    }
}

/// The package that a manifest describes, given what the manifest holds: its `package`
/// section is required, and `package.name` and `package.repository` are judged by
/// [`package_of_entries`].
pub open spec fn package_of_contents(contents: Contents) -> Result<Package, Failure> {
    if !contents.dom().contains(seq!["package"@]) {
        Err(Failure::MissingField(Field::Package))
    } else {
        package_of_entries(
            entry_at(contents, seq!["package"@, "name"@]),
            entry_at(contents, seq!["package"@, "repository"@]),
        )
    }
}

/// The package that the text of a manifest describes.
pub open spec fn package_of(text: Seq<char>) -> Result<Package, Failure> {
    match toml_document(text) {
        Err(_) => Err(Failure::ManifestParse),
        Ok(contents) => package_of_contents(contents),
    }
}

/// Parses the text of a manifest. Where the text is no well-formed document, the
/// parser's words on what went wrong are returned.
pub fn read_document(contents: &str) -> (parsed: Result<toml::Value, String>)
    ensures
        match parsed {
            Ok(document) => toml_document(contents@) == Ok::<Contents, Seq<char>>(
                toml_contents(document),
            ),
            Err(words) => toml_document(contents@) == Err::<Contents, Seq<char>>(words@),
        },
{
    match parse_document(contents) {
        Ok(document) => Ok(document),
        Err(error) => Err(error_message(&error).to_owned()),
    }
}

/// Looks `key` up in `table` and says what kind of value stands there.
pub fn entry(table: &toml::Value, key: &str) -> (found: Entry)
    ensures
        found@ == entry_at(toml_contents(*table), seq![key@]),
{
    proof {
        assert(seq![key@] + Seq::<Seq<char>>::empty() =~= seq![key@]);
    }
    match member(table, key) {
        None => Entry::Missing,
        Some(value) => match text_of(value) {
            Some(text) => Entry::Text(text.to_owned()),
            None => Entry::NotText,
        },
    }
}

impl Manifest {
    /// Reads the text of a manifest.
    ///
    /// Fails with [`Failure::ManifestParse`] where the text is no well-formed document,
    /// and otherwise as [`Manifest::from_document`] does. What the parser has to say
    /// against a text is not kept here: [`read_document`] returns it.
    pub fn parse(contents: &str) -> (outcome: Result<Manifest, Failure>)
        ensures
            yields(outcome, package_of(contents@)),
    {
        match read_document(contents) {
            Err(_) => Err(Failure::ManifestParse),
            Ok(document) => Manifest::from_document(&document),
        }
    }

    /// Reads a parsed manifest.
    ///
    /// Fails with [`Failure::MissingField`] where the `package` section or its `name` is
    /// absent, with [`Failure::TypeMismatch`] where `name` or `repository` is no text,
    /// and with [`Failure::InvalidUrl`] where the repository is no GitHub URL.
    pub fn from_document(document: &toml::Value) -> (outcome: Result<Manifest, Failure>)
        ensures
            yields(outcome, package_of_contents(toml_contents(*document))),
    {
        proof {
            assert(seq!["package"@] + seq!["name"@] =~= seq!["package"@, "name"@]);
            assert(seq!["package"@] + seq!["repository"@] =~= seq!["package"@, "repository"@]);
        }
        match member(document, "package") {
            None => Err(Failure::MissingField(Field::Package)),
            Some(package) => {
                let name = entry(package, "name");
                let repository = entry(package, "repository");
                Manifest::from_entries(name, repository)
            },
        }
    }

    /// Builds the manifest data from what stands under `name` and `repository`.
    pub fn from_entries(name: Entry, repository: Entry) -> (outcome: Result<Manifest, Failure>)
        ensures
            yields(outcome, package_of_entries(name@, repository@)),
    {
        let crate_name = match name {
            Entry::Missing => { return Err(Failure::MissingField(Field::Name)); },
            Entry::NotText => { return Err(Failure::TypeMismatch(Field::Name)); },
            Entry::Text(crate_name) => crate_name,
        };
        match repository {
            Entry::Missing => Ok(Manifest { crate_name, hosting_provider_data: None }),
            Entry::NotText => Err(Failure::TypeMismatch(Field::Repository)),
            Entry::Text(url) => match GithubData::from_str(url.as_str()) {
                Err(_) => Err(Failure::InvalidUrl),
                Ok(github_data) => Ok(
                    Manifest {
                        crate_name,
                        hosting_provider_data: Some(HostingProviderData::GitHub(github_data)),
                    },
                ),
            },
        }
    }
}

} // verus!
