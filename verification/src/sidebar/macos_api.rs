use vstd::prelude::*;

use crate::text::text_of;

verus! {

/// The four questions that the sidebar asks of the system.
///
/// A reference to an opaque object (the list, an item) is its address, and
/// null is 0. A string or a URL is an `Option` of its text, and null is
/// `None`.
///
/// Each question comes with a statement of the answers that the system may
/// give to it. Left as it is, the statement allows every answer, and the
/// callers in this library are proved for whatever comes back; a system that
/// is known better may say so. What the callers hand in is fixed: no call is
/// made with a null list or a null item.
pub trait MacOsApi {
    /// Whether `list` may be the answer to the question for the list.
    open spec fn may_give_list(&self, list: usize) -> bool {
        true
    }

    /// Whether `items` may be the answer to the question for the items of
    /// `list`.
    open spec fn may_give_snapshot(&self, list: usize, items: Seq<usize>) -> bool {
        true
    }

    /// Whether `name` may be the answer to the question for the display name
    /// of `item`.
    open spec fn may_give_display_name(&self, item: usize, name: Option<Seq<char>>) -> bool {
        true
    }

    /// Whether `url` may be the answer to the question for the URL of `item`.
    open spec fn may_give_url(&self, item: usize, url: Option<Seq<char>>) -> bool {
        true
    }

    /// The favorites list of the system. The answer may be null.
    fn get_favorites_list(&self) -> (list: usize)
        ensures
            self.may_give_list(list),
    ;

    /// The items that `list` holds at this moment, as their addresses in the
    /// order of the sidebar. The seed of the list, a counter of its changes,
    /// is written to `seed`.
    fn get_favorites_snapshot(&self, list: usize, seed: &mut u32) -> (items: Vec<usize>)
        requires
            list != 0,
        ensures
            self.may_give_snapshot(list, items@),
    ;

    /// The display name of `item`. The answer may be null.
    fn get_item_display_name(&self, item: usize) -> (name: Option<String>)
        requires
            item != 0,
        ensures
            self.may_give_display_name(item, text_of(name)),
    ;

    /// The URL that `item` resolves to. The answer may be null.
    fn get_item_url(&self, item: usize) -> (url: Option<String>)
        requires
            item != 0,
        ensures
            self.may_give_url(item, text_of(url)),
    ;
}

} // verus!
