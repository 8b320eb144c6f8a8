//! The names under which peers announce themselves.
use vstd::prelude::*;

verus! {

/// The name of a peer: any text, chosen by the peer itself.
#[derive(Debug, PartialEq, Eq, Hash)]
pub struct PeerId(String);

impl View for PeerId {
    type V = Seq<char>;

    closed spec fn view(&self) -> Seq<char> {
        self.0@
    }
}

impl PeerId {
    /// The name as a text.
    pub fn as_str(&self) -> (text: &str)
        ensures
            text@ == self@,
    {
        self.0.as_str()
    }

    /// The name as a text of its own, as it is shown to people.
    pub fn to_string(&self) -> (text: String)
        ensures
            text@ == self@,
    {
        self.0.clone()
    }

    /// Gives the text of the name away.
    pub fn into_string(self) -> (text: String)
        ensures
            text@ == self@,
    {
        self.0
    }
}

impl Clone for PeerId {
    fn clone(&self) -> (copy: PeerId)
        ensures
            copy == *self,
    {
        PeerId(self.0.clone())
    }
}

impl From<&str> for PeerId {
    fn from(value: &str) -> (id: PeerId)
        ensures
            id@ == value@,
    {
        PeerId(value.to_string())
    }
}

/// What `from` gives back is stated by its own postcondition.
impl vstd::std_specs::convert::FromSpecImpl<&str> for PeerId {
    open spec fn obeys_from_spec() -> bool {
        false
    }

    open spec fn from_spec(value: &str) -> PeerId {
        arbitrary()
    }
}

impl From<String> for PeerId {
    fn from(value: String) -> (id: PeerId)
        ensures
            id@ == value@,
    {
        PeerId(value)
    }
}

/// The name is the text itself.
impl vstd::std_specs::convert::FromSpecImpl<String> for PeerId {
    open spec fn obeys_from_spec() -> bool {
        true
    }

    closed spec fn from_spec(value: String) -> PeerId {
        PeerId(value)
    }
}

} // verus!
