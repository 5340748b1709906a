use vstd::prelude::*;
use vstd::string::StringExecFns;

verus! {

/// What can go wrong between the library and the sidebar of Finder.
#[derive(Debug)]
pub enum Error {
    /// A URL could not be turned into a path.
    UrlConversion { url: String },
    /// A path cannot be used: it has to be absolute and has to exist.
    InvalidPath { path: String },
    /// An operation of Core Foundation failed.
    CoreFoundation { kind: CoreFoundationErrorKind },
    /// The system gave no favorites list.
    GetFavoritesList { reason: &'static str },
    /// The system gave no display name for an item.
    GetDisplayName { reason: &'static str },
    /// The system gave no URL for an item.
    GetItemUrl { reason: &'static str },
}

/// In which way an operation of Core Foundation failed.
#[derive(Debug, Clone, Copy, PartialEq, Eq, Structural)]
pub enum CoreFoundationErrorKind {
    /// A reference was null where an object was expected.
    NullPointer,
    /// A reference did not lead to an object of Core Foundation.
    InvalidReference,
    /// A value of Core Foundation could not be converted.
    ConversionFailed,
}

impl CoreFoundationErrorKind {
    /// What the kind reads as.
    pub open spec fn message(self) -> Seq<char> {
        match self {
            CoreFoundationErrorKind::NullPointer => "unexpected null pointer"@,
            CoreFoundationErrorKind::InvalidReference => "invalid Core Foundation reference"@,
            CoreFoundationErrorKind::ConversionFailed => "type conversion failed"@,
        }
    }

    /// The kind in words.
    pub fn to_string(&self) -> (message: String)
        ensures
            message@ == self.message(),
    {
        match self {
            CoreFoundationErrorKind::NullPointer => "unexpected null pointer".to_owned(),
            CoreFoundationErrorKind::InvalidReference => "invalid Core Foundation reference".to_owned(),
            CoreFoundationErrorKind::ConversionFailed => "type conversion failed".to_owned(),
        }
    }
}

/// An error as a mathematical value: its texts are sequences of characters.
pub enum ErrorView {
    UrlConversion { url: Seq<char> },
    InvalidPath { path: Seq<char> },
    CoreFoundation { kind: CoreFoundationErrorKind },
    GetFavoritesList { reason: Seq<char> },
    GetDisplayName { reason: Seq<char> },
    GetItemUrl { reason: Seq<char> },
}

impl View for Error {
    type V = ErrorView;

    open spec fn view(&self) -> ErrorView {
        match *self {
            Error::UrlConversion { url } => ErrorView::UrlConversion { url: url@ },
            Error::InvalidPath { path } => ErrorView::InvalidPath { path: path@ },
            Error::CoreFoundation { kind } => ErrorView::CoreFoundation { kind },
            Error::GetFavoritesList { reason } => ErrorView::GetFavoritesList { reason: reason@ },
            Error::GetDisplayName { reason } => ErrorView::GetDisplayName { reason: reason@ },
            Error::GetItemUrl { reason } => ErrorView::GetItemUrl { reason: reason@ },
        }
    }
}

impl ErrorView {
    /// What the message of each error reads.
    pub open spec fn message(self) -> Seq<char> {
        match self {
            ErrorView::UrlConversion { url } => "Failed to convert URL '"@ + url
                + "' to a valid path"@,
            ErrorView::InvalidPath { path } => "Invalid path '"@ + path
                + "': must be an absolute path that exists"@,
            ErrorView::CoreFoundation { kind } => "Core Foundation operation failed: "@
                + kind.message(),
            ErrorView::GetFavoritesList { reason } => "Failed to get favorites list: "@ + reason,
            ErrorView::GetDisplayName { reason } => "Failed to get display name for item: "@
                + reason,
            ErrorView::GetItemUrl { reason } => "Failed to get URL for item: "@ + reason,
        }
    }
}

impl Error {
    /// The message of the error.
    pub fn to_string(&self) -> (message: String)
        ensures
            message@ == self@.message(),
    {
        match self {
            Error::UrlConversion { url } => "Failed to convert URL '".to_owned().concat(
                url.as_str(),
            ).concat("' to a valid path"),
            Error::InvalidPath { path } => "Invalid path '".to_owned().concat(path.as_str()).concat(
                "': must be an absolute path that exists",
            ),
            Error::CoreFoundation { kind } => {
                let kind = kind.to_string();
                "Core Foundation operation failed: ".to_owned().concat(kind.as_str())
            },
            Error::GetFavoritesList { reason } => "Failed to get favorites list: ".to_owned().concat(
                reason,
            ),
            Error::GetDisplayName { reason } => "Failed to get display name for item: ".to_owned().concat(
                reason,
            ),
            Error::GetItemUrl { reason } => "Failed to get URL for item: ".to_owned().concat(reason),
        }
    }
}

/// What the operations on the sidebar return.
pub type Result<T> = std::result::Result<T, Error>;

} // verus!
