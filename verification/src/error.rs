//! What can go wrong while a manifest is found, read and searched.

use toml::de::Error as ParseError;
use vstd::prelude::*;

verus! {

/// `std::io::Error`, the error of reading a file. It is carried along and
/// never looked into.
#[verifier::external_type_specification]
#[verifier::external_body]
pub struct ExIoError(std::io::Error);

/// An error which occurred while parsing the TOML manifest.
#[derive(Debug)]
pub struct TomlError {
    pub(crate) error: ParseError,
}

impl TomlError {
    /// The parser's own error.
    pub closed spec fn parser_error(&self) -> ParseError {
        self.error
    }

    /// `text` is what the parser's error reads as when it is displayed.
    pub open spec fn reads(&self, text: Seq<char>) -> bool {
        exists|shown: String|
            shown@ == text && #[trigger] vstd::string::to_string_from_display_ensures::<ParseError>(
                &self.parser_error(),
                shown,
            )
    }

    /// What the parser said.
    pub fn message(&self) -> (text: String)
        ensures
            self.reads(text@),
    {
        let text = self.error.to_string();
        assert(self.parser_error() == self.error);
        text
    }

    /// The parser's own error.
    pub fn cause(&self) -> (cause: &ParseError)
        ensures
            *cause == self.parser_error(),
    {
        &self.error
    }
}

/// An error that occurred when getting manifest.
#[derive(Debug)]
#[non_exhaustive]
pub enum Error {
    /// The `CARGO_MANIFEST_DIR` environment variable not found.
    NotFoundManifestDir,
    /// The manifest is invalid for the following reason.
    InvalidManifest(String),
    /// The crate with the specified name not found. This error occurs only
    /// from [`find_crate`](crate::find_crate).
    NotFound,
    /// An error occurred while trying to open or to read the manifest file.
    Io(std::io::Error),
    /// An error occurred while trying to parse the manifest file.
    Toml(TomlError),
}

impl Error {
    /// `text` is the message of this error: a fixed sentence, followed by the
    /// reason where the manifest is invalid, and by what the cause reads as
    /// when it is displayed where the error has a cause.
    pub open spec fn describes(self, text: Seq<char>) -> bool {
        match self {
            Error::NotFoundManifestDir => text
                == "`CARGO_MANIFEST_DIR` environment variable not found"@,
            Error::InvalidManifest(reason) => text == "The manifest is invalid because: "@
                + reason@,
            Error::NotFound => text
                == "the crate with the specified name not found in dependencies"@,
            Error::Io(cause) => exists|shown: String|
                text == "an error occurred while to open or to read: "@ + shown@
                    && #[trigger] vstd::string::to_string_from_display_ensures::<std::io::Error>(
                    &cause,
                    shown,
                ),
            Error::Toml(cause) => exists|shown: Seq<char>|
                text == "an error occurred while parsing the manifest file: "@ + shown
                    && #[trigger] cause.reads(shown),
        }
    }

    /// The error that says why a manifest is invalid.
    pub fn invalid_manifest(reason: &str) -> (error: Error)
        ensures
            error matches Error::InvalidManifest(text) && text@ == reason@,
    {
        Error::InvalidManifest(reason.to_owned())
    }

    /// The message of this error, with that of its cause behind it where it
    /// has one.
    pub fn message(&self) -> (text: String)
        ensures
            self.describes(text@),
    {
        match self {
            Error::NotFoundManifestDir => {
                "`CARGO_MANIFEST_DIR` environment variable not found".to_owned()
            },
            Error::InvalidManifest(reason) => {
                "The manifest is invalid because: ".to_owned().concat(reason.as_str())
            },
            Error::NotFound => {
                "the crate with the specified name not found in dependencies".to_owned()
            },
            Error::Io(cause) => {
                let shown = cause.to_string();
                "an error occurred while to open or to read: ".to_owned().concat(shown.as_str())
            },
            Error::Toml(cause) => {
                let shown = cause.message();
                "an error occurred while parsing the manifest file: ".to_owned().concat(
                    shown.as_str(),
                )
            },
        }
    }
}

impl From<std::io::Error> for Error {
    fn from(e: std::io::Error) -> (error: Error) {
        Error::Io(e)
    }
}

impl vstd::std_specs::convert::FromSpecImpl<std::io::Error> for Error {
    open spec fn obeys_from_spec() -> bool {
        true
    }

    open spec fn from_spec(e: std::io::Error) -> Error {
        Error::Io(e)
    }
}

} // verus!
