//! The ways a run can fail.

use vstd::prelude::*;
use crate::locator::Position;

verus! {

/// A field of the manifest that the reader looks for.
#[derive(Clone, Copy, Debug, PartialEq, Eq, Structural)]
pub enum Field {
    /// The `package` section.
    Package,
    /// `package.name`.
    Name,
    /// `package.repository`.
    Repository,
}

/// Why no badges were inserted. Every failure ends the run.
#[derive(Clone, Copy, Debug, PartialEq, Eq, Structural)]
pub enum Failure {
    /// The manifest is not a well-formed configuration document.
    ManifestParse,
    /// A required field of the manifest is absent.
    MissingField(Field),
    /// A field of the manifest is present but is not text.
    TypeMismatch(Field),
    /// The repository is hosted by a provider that is known but not handled.
    UnsupportedProvider,
    /// The repository URL has none of the recognised shapes.
    InvalidUrl,
    /// The README could not be turned into a document tree.
    MarkupParse,
    /// The README is over the limits within which it is handed to the markup parser.
    MarkupOverLimit,
    /// The README has no heading among its top-level blocks.
    MissingHeading,
    /// The first heading of the README is not a title (depth 1).
    Structure { depth: u8, position: Position },
    /// The first heading of the README carries no source position.
    PositionUnavailable { depth: u8 },
    /// The end of the title heading is not a place in the README where text can be inserted.
    InvalidOffset { offset: usize },
}

} // verus!
