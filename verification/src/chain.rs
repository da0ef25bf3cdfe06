//! The name of a ledger.

use vstd::prelude::*;

verus! {

/// Identifies one ledger by its textual name. The library never looks
/// inside a name: it stores names, hands them on and tells them apart.
#[derive(Debug, PartialEq, Eq, Hash)]
pub struct ChainId {
    pub name: String,
}

impl DeepView for ChainId {
    type V = Seq<char>;

    open spec fn deep_view(&self) -> Seq<char> {
        self.name@
    }
}

impl ChainId {
    /// The ledger called `name`.
    pub fn new(name: String) -> (id: Self)
        ensures
            id.deep_view() == name@,
    {
        ChainId { name }
    }

    /// A second handle on the same ledger.
    pub fn duplicate(&self) -> (id: Self)
        ensures
            id.deep_view() == self.deep_view(),
    {
        ChainId { name: self.name.clone() }
    }

    /// Whether two names denote the same ledger.
    pub fn same(&self, other: &ChainId) -> (res: bool)
        ensures
            res == (self.deep_view() == other.deep_view()),
    {
        self.name == other.name
    }
}

} // verus!
