//! The identifier of a container.

use vstd::prelude::*;
use vstd::std_specs::cmp::PartialEqSpecImpl;
use vstd::std_specs::convert::{FromSpec, FromSpecImpl};

verus! {

/// The identifier that the runtime gave a container. Two identifiers are the
/// same when they hold the same text.
#[derive(Debug, Eq, Hash)]
pub struct ContainerId(String);

impl View for ContainerId {
    type V = Seq<char>;

    closed spec fn view(&self) -> Seq<char> {
        self.0@
    }
}

impl DeepView for ContainerId {
    type V = Seq<char>;

    open spec fn deep_view(&self) -> Seq<char> {
        self@
    }
}

impl ContainerId {
    /// The identifier as text.
    pub fn get(&self) -> (text: &str)
        ensures
            text@ == self@,
    {
        self.0.as_str()
    }
}

impl Clone for ContainerId {
    fn clone(&self) -> (copy: Self)
        ensures
            copy@ == self@,
    {
        ContainerId(self.0.clone())
    }
}

impl PartialEq for ContainerId {
    fn eq(&self, other: &Self) -> (r: bool) {
        self.0 == other.0
    }
}

impl PartialEqSpecImpl for ContainerId {
    open spec fn obeys_eq_spec() -> bool {
        true
    }

    open spec fn eq_spec(&self, other: &Self) -> bool {
        self@ == other@
    }
}

impl From<String> for ContainerId {
    fn from(text: String) -> (id: Self) {
        ContainerId(text)
    }
}

impl FromSpecImpl<String> for ContainerId {
    open spec fn obeys_from_spec() -> bool {
        true
    }

    closed spec fn from_spec(text: String) -> Self {
        ContainerId(text)
    }
}

impl ContainerId {
    /// The identifier made of `text` holds `text`.
    pub broadcast proof fn from_spec_view(text: String)
        ensures
            (#[trigger] <ContainerId as FromSpec<String>>::from_spec(text))@ == text@,
    {
    }
}

} // verus!
