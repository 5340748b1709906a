use vstd::prelude::*;
use vstd::std_specs::convert::{FromSpecImpl, TryFromSpecImpl};

use crate::system::core_foundation::CFRef;
use crate::system::favorites::errors::{FavoritesError, Result};

verus! {

/// The name under which the sidebar shows a favorite.
#[derive(Debug, Clone)]
pub struct DisplayName(CFRef<String>);

impl View for DisplayName {
    type V = Seq<char>;

    /// The text of the name.
    closed spec fn view(&self) -> Seq<char> {
        self.0.object()@
    }
}

impl TryFrom<Option<String>> for DisplayName {
    type Error = FavoritesError;

    /// Takes over the string behind `string_ref`, and refuses the null
    /// reference with `NullDisplayNameHandle`.
    fn try_from(string_ref: Option<String>) -> (name: Result<Self>)
        ensures
            string_ref matches Some(text) ==> (name matches Ok(wrapped) && wrapped@ == text@),
            string_ref is None ==> name == Err::<Self, FavoritesError>(
                FavoritesError::NullDisplayNameHandle,
            ),
    {
        match CFRef::try_from_ref(string_ref) {
            Ok(owned) => Ok(DisplayName(owned)),
            Err(_) => Err(FavoritesError::NullDisplayNameHandle),
        }
    }
}

impl TryFromSpecImpl<Option<String>> for DisplayName {
    open spec fn obeys_try_from_spec() -> bool {
        true
    }

    closed spec fn try_from_spec(string_ref: Option<String>) -> Result<Self> {
        match string_ref {
            Some(text) => Ok(DisplayName(CFRef::owning(text))),
            None => Err(FavoritesError::NullDisplayNameHandle),
        }
    }
}

impl From<&DisplayName> for Option<String> {
    /// A reference to the string of the name, which is never null.
    fn from(display_name: &DisplayName) -> (string_ref: Option<String>)
        ensures
            string_ref matches Some(text) && text@ == display_name@,
    {
        let text: &String = &display_name.0;
        Some(text.clone())
    }
}

impl FromSpecImpl<&DisplayName> for Option<String> {
    open spec fn obeys_from_spec() -> bool {
        true
    }

    closed spec fn from_spec(display_name: &DisplayName) -> Option<String> {
        Some(display_name.0.object())
    }
}

impl DisplayName {
    /// The text of the name.
    pub fn to_string(&self) -> (text: String)
        ensures
            text@ == self@,
    {
        let owned: &String = &self.0;
        owned.clone()
    }
}

} // verus!
