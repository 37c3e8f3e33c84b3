//! Identities of the parties that take part in an operation.

use vstd::prelude::*;

verus! {

/// A party identified by the text of its address. Two principals are the
/// same party exactly when their texts are equal.
#[derive(Debug, PartialEq, Eq, Hash)]
pub struct Principal {
    pub key: String,
}

impl View for Principal {
    type V = Seq<char>;

    open spec fn view(&self) -> Seq<char> {
        self.key@
    }
}

impl Principal {
    /// The principal whose address text is `key`.
    pub fn new(key: &str) -> (p: Principal)
        ensures
            p@ == key@,
    {
        Principal { key: key.to_owned() }
    }

    /// Whether both values name the same party.
    pub fn same(&self, other: &Principal) -> (b: bool)
        ensures
            b == (self@ == other@),
    {
        self.key == other.key
    }

    /// The address text.
    pub fn as_str(&self) -> (s: &str)
        ensures
            s@ == self@,
    {
        self.key.as_str()
    }
}

impl Clone for Principal {
    fn clone(&self) -> (p: Principal)
        ensures
            p@ == self@,
    {
        Principal { key: self.key.clone() }
    }
}

} // verus!
