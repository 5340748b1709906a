use vstd::prelude::*;
use vstd::std_specs::convert::FromSpecImpl;
use vstd::string::StringExecFns;

use crate::system::favorites::FavoritesError;

verus! {

/// Why Finder's favorites could not be listed.
#[derive(Debug, Clone, Copy, PartialEq, Eq, Structural)]
pub enum FinderError {
    /// The favorites could not be read from the system.
    AccessError(FavoritesError),
}

impl FinderError {
    /// What the message of each error reads.
    pub open spec fn message(self) -> Seq<char> {
        match self {
            FinderError::AccessError(cause) => "failed to access Finder favorites: "@
                + cause.message(),
        }
    }

    /// The message of the error, which ends in that of its cause.
    pub fn to_string(&self) -> (message: String)
        ensures
            message@ == self.message(),
    {
        match self {
            FinderError::AccessError(cause) => {
                let reason = cause.to_string();
                "failed to access Finder favorites: ".to_owned().concat(reason.as_str())
            },
        }
    }
}

impl From<FavoritesError> for FinderError {
    fn from(cause: FavoritesError) -> (error: Self)
        ensures
            error == FinderError::AccessError(cause),
    {
        FinderError::AccessError(cause)
    }
}

impl FromSpecImpl<FavoritesError> for FinderError {
    open spec fn obeys_from_spec() -> bool {
        true
    }

    open spec fn from_spec(cause: FavoritesError) -> Self {
        FinderError::AccessError(cause)
    }
}

/// What listing Finder's favorites returns.
pub type Result<T> = std::result::Result<T, FinderError>;

} // verus!
