use vstd::prelude::*;
use vstd::std_specs::convert::FromSpecImpl;

use crate::finder::Target;
use crate::system::favorites::item::{classify, target_of};
use crate::system::favorites::{DisplayName, Url};

verus! {

/// The URL of a favorite, with the display name that goes with it.
pub struct TargetUrl(pub Url, pub DisplayName);

impl From<TargetUrl> for Target {
    /// The target of the URL, with the display name for a label.
    fn from(pair: TargetUrl) -> (target: Self)
        ensures
            target@ == target_of(pair.0@, Some(pair.1@)),
    {
        let url = pair.0.to_string();
        let name = pair.1.to_string();
        classify(url.as_str(), Some(name.as_str()))
    }
}

impl FromSpecImpl<TargetUrl> for Target {
    /// The texts of a custom target are made anew, equal to the label and the
    /// cleaned path by their views only: `from` states that itself.
    open spec fn obeys_from_spec() -> bool {
        false
    }

    open spec fn from_spec(pair: TargetUrl) -> Self {
        arbitrary()
    }
}

} // verus!
