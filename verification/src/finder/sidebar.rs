use vstd::prelude::*;
use vstd::string::StringExecFns;

verus! {

/// What a favorite of the sidebar points at.
#[derive(Debug, PartialEq)]
pub enum Target {
    AirDrop,
    Recents,
    Applications,
    Downloads,
    Desktop,
    Custom { label: String, path: String },
}

/// A target as a mathematical value: the texts of a custom target are
/// sequences of characters.
pub enum TargetView {
    AirDrop,
    Recents,
    Applications,
    Downloads,
    Desktop,
    Custom { label: Seq<char>, path: Seq<char> },
}

impl View for Target {
    type V = TargetView;

    open spec fn view(&self) -> TargetView {
        match *self {
            Target::AirDrop => TargetView::AirDrop,
            Target::Recents => TargetView::Recents,
            Target::Applications => TargetView::Applications,
            Target::Downloads => TargetView::Downloads,
            Target::Desktop => TargetView::Desktop,
            Target::Custom { label, path } => TargetView::Custom { label: label@, path: path@ },
        }
    }
}

impl TargetView {
    /// How a target reads to a person: the well-known places by a fixed name,
    /// a custom one as its label, an arrow and its path.
    pub open spec fn rendering(self) -> Seq<char> {
        match self {
            TargetView::AirDrop => "AirDrop"@,
            TargetView::Recents => "Recents"@,
            TargetView::Applications => "Applications"@,
            TargetView::Downloads => "~/Downloads"@,
            TargetView::Desktop => "~/Desktop"@,
            TargetView::Custom { label, path } => label + " -> "@ + path,
        }
    }
}

impl Target {
    /// The custom target with the given label and path.
    pub fn custom(label: &str, path: &str) -> (target: Self)
        ensures
            target@ == (TargetView::Custom { label: label@, path: path@ }),
    {
        Target::Custom { label: label.to_owned(), path: path.to_owned() }
    }
}

/// One favorite of the sidebar.
#[derive(Debug, PartialEq)]
pub struct SidebarItem {
    target: Target,
}

impl View for SidebarItem {
    type V = TargetView;

    /// What the favorite points at.
    closed spec fn view(&self) -> TargetView {
        self.target@
    }
}

impl SidebarItem {
    /// The favorite that points at `target`.
    pub fn new(target: Target) -> (item: Self)
        ensures
            item@ == target@,
    {
        SidebarItem { target }
    }

    /// How the favorite reads to a person.
    pub fn to_string(&self) -> (text: String)
        ensures
            text@ == self@.rendering(),
    {
        match &self.target {
            Target::AirDrop => "AirDrop".to_owned(),
            Target::Recents => "Recents".to_owned(),
            Target::Applications => "Applications".to_owned(),
            Target::Downloads => "~/Downloads".to_owned(),
            Target::Desktop => "~/Desktop".to_owned(),
            Target::Custom { label, path } => label.clone().concat(" -> ").concat(path.as_str()),
        }
    }
}

} // verus!
