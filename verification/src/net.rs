//! The network interface that a tunnel's traffic leaves through.

use crate::network_config::str_equal;
use vstd::prelude::*;

verus! {

/// A network interface, by name and index.
#[derive(Clone, Debug)]
pub struct NetworkInterface {
    pub name: String,
    pub index: u32,
}

/// Whether `a` and `b` are the same interface.
pub open spec fn same_interface(a: NetworkInterface, b: NetworkInterface) -> bool {
    a.name@ == b.name@ && a.index == b.index
}

impl NetworkInterface {
    /// Whether `self` and `other` are the same interface.
    pub fn same_as(&self, other: &NetworkInterface) -> (r: bool)
        ensures
            r == same_interface(*self, *other),
    {
        self.index == other.index && str_equal(self.name.as_str(), other.name.as_str())
    }

    /// A copy of this interface.
    pub fn copy(&self) -> (r: NetworkInterface)
        ensures
            same_interface(r, *self),
    {
        NetworkInterface { name: self.name.clone(), index: self.index }
    }
}

} // verus!
