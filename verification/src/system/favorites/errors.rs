use vstd::prelude::*;

verus! {

/// Why the favorites could not be read from the system.
#[derive(Debug, Clone, Copy, PartialEq, Eq, Structural)]
pub enum FavoritesError {
    /// The system gave no favorites list.
    NullListHandle,
    /// The system gave no snapshot of the list.
    NullSnapshotHandle,
    /// The system gave no URL for an item.
    NullUrlHandle,
    /// The system gave no display name for an item.
    NullDisplayNameHandle,
}

impl FavoritesError {
    /// What the message of each error reads.
    pub open spec fn message(self) -> Seq<char> {
        match self {
            FavoritesError::NullListHandle => "failed to create favorites list: null handle"@,
            FavoritesError::NullSnapshotHandle => "failed to create snapshot: null handle"@,
            FavoritesError::NullUrlHandle => "failed to resolve URL: null handle"@,
            FavoritesError::NullDisplayNameHandle => "failed to get display name: null handle"@,
        }
    }

    /// The message of the error.
    pub fn to_string(&self) -> (message: String)
        ensures
            message@ == self.message(),
    {
        match self {
            FavoritesError::NullListHandle => "failed to create favorites list: null handle".to_owned(),
            FavoritesError::NullSnapshotHandle => "failed to create snapshot: null handle".to_owned(),
            FavoritesError::NullUrlHandle => "failed to resolve URL: null handle".to_owned(),
            FavoritesError::NullDisplayNameHandle => "failed to get display name: null handle".to_owned(),
        }
    }
}

/// What the operations on favorites return.
pub type Result<T> = std::result::Result<T, FavoritesError>;

} // verus!
