//! Status badges for a crate's README.
//!
//! The library reads a package manifest for the crate's name and repository, finds the
//! end of the README's title heading, and inserts a block of badge markup at that
//! place. Every function here is a function of its arguments alone: reading and
//! writing the two files is left to the caller.
//!
//! - [`manifest`] reads name and repository out of the manifest;
//! - [`hosting`] reads user and repository out of a repository URL;
//! - [`locator`] finds the end of the title among the top-level blocks of the README;
//! - [`shields`] composes the block of badges;
//! - [`readme`] inserts a block into a text;
//! - [`run`] puts these together in [`add_shields`], and states what holds of a run;
//! - [`text`] holds what the URL reader needs of sequences of characters;
//! - [`error`] lists the ways a run can fail.
//!
//! The manifest is parsed by the `toml` crate and the README by the `markdown` crate.
//! What these two make of a text is not proved here: the contracts name their results
//! ([`manifest::toml_document`], [`locator::markdown_outline`]) and say exactly what
//! the library does with them. A README is handed to the markup parser only within
//! the limits of [`locator::within_limits`], which bound its length, the prefix of each
//! line and the span marks between two blank lines; one over them fails with
//! [`Failure::MarkupOverLimit`].

pub mod error;
pub mod hosting;
pub mod locator;
pub mod manifest;
pub mod readme;
pub mod run;
pub mod shields;
pub mod text;

pub use error::{Failure, Field};
pub use hosting::{GithubData, HostingProviderData};
pub use locator::{Block, Markup, Point, Position};
pub use manifest::{read_document, Entry, Manifest};
pub use run::{add_shields, patch};
