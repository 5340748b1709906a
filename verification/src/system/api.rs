use vstd::prelude::*;

use crate::text::text_of;

verus! {

/// The addresses in an array that may be missing.
pub open spec fn entries_of(array: Option<Vec<usize>>) -> Option<Seq<usize>> {
    match array {
        Some(entries) => Some(entries@),
        None => None,
    }
}

/// The four questions that the library asks of the system.
///
/// A reference to an opaque object (the list, an entry) is its address, and
/// null is 0. A reference to an object that is read (the array of a snapshot,
/// a string, a URL) is an `Option` of its contents, and null is `None`.
///
/// Each question comes with a statement of the answers that the system may
/// give to it. Left as it is, the statement allows every answer, and the
/// callers in this library are proved for whatever comes back; a system that
/// is known better may say so. What the callers hand in is fixed: no call is
/// made with a null list or a null entry, and a URL is resolved with no flag
/// set.
pub trait MacOsApi {
    /// Whether `list` may be the answer to the question for the list.
    open spec fn may_give_list(&self, list: usize) -> bool {
        true
    }

    /// Whether `snapshot` may be the answer to the question for the entries
    /// of `list`.
    open spec fn may_give_snapshot(&self, list: usize, snapshot: Option<Seq<usize>>) -> bool {
        true
    }

    /// Whether `name` may be the answer to the question for the display name
    /// of `item`.
    open spec fn may_give_display_name(&self, item: usize, name: Option<Seq<char>>) -> bool {
        true
    }

    /// Whether `url` may be the answer to the question for the URL of `item`.
    open spec fn may_give_resolved_url(&self, item: usize, url: Option<Seq<char>>) -> bool {
        true
    }

    /// Creates the list of favorite items, with the default allocator and no
    /// options. The answer may be null.
    fn ls_shared_file_list_create(&self) -> (list: usize)
        ensures
            self.may_give_list(list),
    ;

    /// Copies the entries that `list` holds at this moment, and writes the
    /// seed of the list, a counter of its changes, to `seed`. The answer may
    /// be null.
    fn ls_shared_file_list_copy_snapshot(&self, list: usize, seed: &mut u32) -> (snapshot:
        Option<Vec<usize>>)
        requires
            list != 0,
        ensures
            self.may_give_snapshot(list, entries_of(snapshot)),
    ;

    /// Copies the display name of the entry `item`. The answer may be null.
    fn ls_shared_file_list_item_copy_display_name(&self, item: usize) -> (name: Option<String>)
        requires
            item != 0,
        ensures
            self.may_give_display_name(item, text_of(name)),
    ;

    /// Copies the URL that the entry `item` resolves to under `flags`, without
    /// asking for the reason of a failure. The answer may be null.
    fn ls_shared_file_list_item_copy_resolved_url(&self, item: usize, flags: u32) -> (url:
        Option<String>)
        requires
            item != 0,
            flags == 0,
        ensures
            self.may_give_resolved_url(item, text_of(url)),
    ;
}

} // verus!
