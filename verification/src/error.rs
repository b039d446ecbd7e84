//! What a builder reports when the value it was asked for breaks a limit of
//! the webhook API.

use vstd::prelude::*;

verus! {

/// Why a `build` was refused.
#[derive(Clone, Copy, Debug, PartialEq, Eq, Structural)]
pub enum ValidationError {
    /// A message carries exactly one of content, file and embeds; `set` of
    /// them were given.
    ContentKinds { set: usize },
    /// More than ten embeds were given; there were `count`.
    TooManyEmbeds { count: usize },
    /// More than a hundred role ids were given; there were `count`.
    TooManyRoles { count: usize },
    /// More than a hundred user ids were given; there were `count`.
    TooManyUsers { count: usize },
    /// The message carries a file and the request names none.
    MissingFileName,
    /// The colour is no 24-bit value, or its hexadecimal text is malformed.
    InvalidColor,
}

impl ValidationError {
    /// The sentence for each error.
    pub open spec fn message_text(self) -> Seq<char> {
        match self {
            ValidationError::ContentKinds { .. } =>
                "exactly one of 'content', 'file' and 'embeds' must be set"@,
            ValidationError::TooManyEmbeds { .. } => "at most 10 embeds may be supplied"@,
            ValidationError::TooManyRoles { .. } => "at most 100 role ids may be supplied"@,
            ValidationError::TooManyUsers { .. } => "at most 100 user ids may be supplied"@,
            ValidationError::MissingFileName => "file name required when uploading a file"@,
            ValidationError::InvalidColor => "the colour is not a 24-bit value"@,
        }
    }

    /// A sentence that says which limit was broken.
    pub fn message(&self) -> (text: &'static str)
        ensures
            text@ == self.message_text(),
    {
        match self {
            ValidationError::ContentKinds { .. } =>
                "exactly one of 'content', 'file' and 'embeds' must be set",
            ValidationError::TooManyEmbeds { .. } => "at most 10 embeds may be supplied",
            ValidationError::TooManyRoles { .. } => "at most 100 role ids may be supplied",
            ValidationError::TooManyUsers { .. } => "at most 100 user ids may be supplied",
            ValidationError::MissingFileName => "file name required when uploading a file",
            ValidationError::InvalidColor => "the colour is not a 24-bit value",
        }
    }
}

} // verus!
