//! The ways in which an operation on a scene can fail.

use vstd::prelude::*;
use super::text::{append_nat, nat_text};
use super::{Dimensions, ShapeKind};

verus! {

/// Why an operation was refused. No operation changes anything when it
/// returns one of these.
#[derive(Debug, PartialEq, Eq)]
pub enum SvgError {
    /// A shape was asked for under a name that is no kind of shape.
    InvalidShapeKind { name: String },
    /// A path was to be made from no points at all.
    EmptyPathConstruction,
    /// No shape stands at this index.
    ShapeNotFound { index: usize },
    /// A shape of this kind does not take dimensions of this variant.
    ResizeKindMismatch { kind: ShapeKind, dims: Dimensions },
    /// The path has no point at this index.
    ResizeIndexOutOfRange { index: usize },
    /// No rule is defined for a transform between these coordinate systems.
    UnsupportedCoordinateTransform,
}

impl SvgError {
    /// The message that describes the failure to a person.
    pub open spec fn message_text(self) -> Seq<char> {
        match self {
            SvgError::InvalidShapeKind { name } => "Attampted to draw an unknown shape "@ + name@,
            SvgError::EmptyPathConstruction => "Expected at least one point to create a Path"@,
            SvgError::ShapeNotFound { index } => "No shape found at index "@ + nat_text(
                index as nat,
            ),
            SvgError::ResizeKindMismatch { kind, dims } => "Cannot resize "@ + kind.name_text()
                + " with dimensions "@ + dims.text(),
            SvgError::ResizeIndexOutOfRange { index } =>
                "Cannot resize Path because point does not exist at index "@ + nat_text(
                index as nat,
            ),
            SvgError::UnsupportedCoordinateTransform =>
                "Support for other transformations has not been implemented."@,
        }
    }

    /// The message that describes the failure to a person.
    pub fn message(&self) -> (msg: String)
        ensures
            msg@ == self.message_text(),
    {
        let mut msg = String::new();
        match self {
            SvgError::InvalidShapeKind { name } => {
                msg.append("Attampted to draw an unknown shape ");
                msg.append(name.as_str());
            },
            SvgError::EmptyPathConstruction => {
                msg.append("Expected at least one point to create a Path");
            },
            SvgError::ShapeNotFound { index } => {
                msg.append("No shape found at index ");
                append_nat(&mut msg, *index as u64);
            },
            SvgError::ResizeKindMismatch { kind, dims } => {
                msg.append("Cannot resize ");
                msg.append(kind.name());
                msg.append(" with dimensions ");
                dims.append_to(&mut msg);
            },
            SvgError::ResizeIndexOutOfRange { index } => {
                msg.append("Cannot resize Path because point does not exist at index ");
                append_nat(&mut msg, *index as u64);
            },
            SvgError::UnsupportedCoordinateTransform => {
                msg.append("Support for other transformations has not been implemented.");
            },
        }
        assert(msg@ =~= self.message_text());
        msg
    }
}

} // verus!
