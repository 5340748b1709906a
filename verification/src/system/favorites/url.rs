use vstd::prelude::*;
use vstd::std_specs::convert::{FromSpecImpl, TryFromSpecImpl};

use crate::system::core_foundation::CFRef;
use crate::system::favorites::errors::{FavoritesError, Result};

verus! {

/// The resolved address of what a favorite points at.
#[derive(Debug, Clone)]
pub struct Url(CFRef<String>);

impl View for Url {
    type V = Seq<char>;

    /// The text of the URL.
    closed spec fn view(&self) -> Seq<char> {
        self.0.object()@
    }
}

impl TryFrom<Option<String>> for Url {
    type Error = FavoritesError;

    /// Takes over the URL behind `url_ref`, and refuses the null reference
    /// with `NullUrlHandle`.
    fn try_from(url_ref: Option<String>) -> (name: Result<Self>)
        ensures
            url_ref matches Some(text) ==> (name matches Ok(wrapped) && wrapped@ == text@),
            url_ref is None ==> name == Err::<Self, FavoritesError>(
                FavoritesError::NullUrlHandle,
            ),
    {
        match CFRef::try_from_ref(url_ref) {
            Ok(owned) => Ok(Url(owned)),
            Err(_) => Err(FavoritesError::NullUrlHandle),
        }
    }
}

impl TryFromSpecImpl<Option<String>> for Url {
    open spec fn obeys_try_from_spec() -> bool {
        true
    }

    closed spec fn try_from_spec(url_ref: Option<String>) -> Result<Self> {
        match url_ref {
            Some(text) => Ok(Url(CFRef::owning(text))),
            None => Err(FavoritesError::NullUrlHandle),
        }
    }
}

impl From<&Url> for Option<String> {
    /// A reference to the URL, which is never null.
    fn from(url: &Url) -> (url_ref: Option<String>)
        ensures
            url_ref matches Some(text) && text@ == url@,
    {
        let text: &String = &url.0;
        Some(text.clone())
    }
}

impl FromSpecImpl<&Url> for Option<String> {
    open spec fn obeys_from_spec() -> bool {
        true
    }

    closed spec fn from_spec(url: &Url) -> Option<String> {
        Some(url.0.object())
    }
}

impl Url {
    /// The text of the URL.
    pub fn to_string(&self) -> (text: String)
        ensures
            text@ == self@,
    {
        let owned: &String = &self.0;
        owned.clone()
    }
}

} // verus!
