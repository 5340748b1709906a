use vstd::prelude::*;

use crate::finder::{Result, SidebarItem};

verus! {

/// Access to the favorites of Finder's sidebar.
pub trait FavoritesApi {
    /// The favorites of the sidebar, in the order in which it shows them, or
    /// why they cannot be had.
    #[must_use]
    fn list_items(&self) -> Result<Vec<SidebarItem>>;
}

} // verus!
