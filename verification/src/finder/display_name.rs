use vstd::prelude::*;
use vstd::std_specs::convert::FromSpecImpl;

verus! {

/// Under which name a favorite is shown: AirDrop comes without one.
#[derive(Debug, PartialEq)]
pub enum DisplayName {
    AirDrop,
    Custom(String),
}

impl From<Option<String>> for DisplayName {
    /// A missing name stands for AirDrop; any other name is kept as it is.
    fn from(name: Option<String>) -> (display_name: Self)
        ensures
            display_name == match name {
                Some(text) => DisplayName::Custom(text),
                None => DisplayName::AirDrop,
            },
    {
        match name {
            Some(text) => DisplayName::Custom(text),
            None => DisplayName::AirDrop,
        }
    }
}

impl FromSpecImpl<Option<String>> for DisplayName {
    open spec fn obeys_from_spec() -> bool {
        true
    }

    open spec fn from_spec(name: Option<String>) -> Self {
        match name {
            Some(text) => DisplayName::Custom(text),
            None => DisplayName::AirDrop,
        }
    }
}

} // verus!
