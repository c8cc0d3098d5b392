//! The ways in which an import ends without a new profile.

use vstd::prelude::*;

verus! {

/// Why an import was given up. Whatever the reason, the configuration is
/// left as it was.
#[derive(Clone, Copy, Debug, PartialEq, Eq, Structural)]
pub enum ImportError {
    /// The user was asked to select the profile and selected nothing.
    NoPathSelected,
    /// The profile reader found no profile at the path.
    NotAProfile,
    /// The directory chosen in place of the default failed its check.
    OutputDirRejected,
    /// A collaborator failed: the file system, the file picker, the profile
    /// reader or a prompt.
    Io,
}

/// What the user is told when no path was selected.
pub const NO_PATH_SELECTED: &'static str = "Please select a path to a profile.";

/// What the user is told when the path holds no profile.
pub const NOT_A_PROFILE: &'static str = "No profile was found at the given path.";

impl ImportError {
    /// The text of `message`.
    pub open spec fn message_text(self) -> Option<Seq<char>> {
        match self {
            ImportError::NoPathSelected => Some(NO_PATH_SELECTED@),
            ImportError::NotAProfile => Some(NOT_A_PROFILE@),
            ImportError::OutputDirRejected => None,
            ImportError::Io => None,
        }
    }

    /// The message of an error that the import raises itself. There is none
    /// where a collaborator failed: the caller then reports the collaborator's
    /// own error.
    pub fn message(&self) -> (text: Option<String>)
        ensures
            match text {
                Some(text) => self.message_text() == Some(text@),
                None => self.message_text() is None,
            },
    {
        match self {
            ImportError::NoPathSelected => Some(NO_PATH_SELECTED.to_owned()),
            ImportError::NotAProfile => Some(NOT_A_PROFILE.to_owned()),
            ImportError::OutputDirRejected => None,
            ImportError::Io => None,
        }
    }
}

} // verus!
