//! Errors of the selection and apply engines.
use vstd::prelude::*;

verus! {

/// Why a command failed.
#[derive(Debug)]
pub enum FerryError {
    /// The start path given with `--path` is not an existing directory.
    NotADirectory { path: String },
    /// Explicit items were given together with `--interactive`.
    ItemsWithInteractive,
    /// Explicit items were given together with `--regex`.
    ItemsWithRegex,
    /// A start path was given without `--regex` or `--interactive`.
    PathWithoutMode,
    /// The regular expression does not compile.
    InvalidPattern { message: String },
    /// A filesystem or terminal operation failed.
    Io { message: String },
    /// A selected path has no final component to name its destination.
    InvalidSource { path: String },
    /// The destination exists and overwriting was not allowed.
    DestinationExists { path: String },
}

impl FerryError {
    /// Errors in the command line itself, found before any work starts.
    pub open spec fn spec_is_validation(&self) -> bool {
        match self {
            FerryError::NotADirectory { .. } => true,
            FerryError::ItemsWithInteractive => true,
            FerryError::ItemsWithRegex => true,
            FerryError::PathWithoutMode => true,
            FerryError::InvalidPattern { .. } => true,
            _ => false,
        }
    }

    #[verifier::when_used_as_spec(spec_is_validation)]
    pub fn is_validation(&self) -> (r: bool)
        ensures
            r == self.spec_is_validation(),
    {
        match self {
            FerryError::NotADirectory { .. } => true,
            FerryError::ItemsWithInteractive => true,
            FerryError::ItemsWithRegex => true,
            FerryError::PathWithoutMode => true,
            FerryError::InvalidPattern { .. } => true,
            _ => false,
        }
    }
}

} // verus!
