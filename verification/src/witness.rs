//! Witness wrappers for addresses with a proven kind.
//!
//! `UnicastAddr` and `MulticastAddr` wrap an address value and record that it
//! answered yes to the corresponding classification query at construction
//! time. The guarantee is contingent on the trait implementation being
//! stable: the classification of a value must not change while only
//! immutable references to it exist.

use vstd::pervasive::cloned;
use vstd::prelude::*;

verus! {

/// Implemented by types that may not be implemented outside the crates that
/// define the address families themselves.
pub trait Sealed {

}

/// Addresses some of whose values are unicast: identify a single network
/// node.
pub trait UnicastAddress {
    /// Is this a unicast address? Two calls on the same value, with no
    /// mutation in between, must return the same answer.
    fn is_unicast(&self) -> bool;
}

/// Addresses some of whose values are multicast: identify a group of network
/// nodes.
pub trait MulticastAddress {
    /// Is this a multicast address? Two calls on the same value, with no
    /// mutation in between, must return the same answer.
    fn is_multicast(&self) -> bool;
}

/// Addresses some of whose values are broadcast: identify all the nodes in
/// some region of a network.
pub trait BroadcastAddress {
    /// Is this a broadcast address?
    fn is_broadcast(&self) -> bool;
}

/// An address that answered yes to [`UnicastAddress::is_unicast`] when it
/// was wrapped.
#[derive(Copy, Clone, Debug, Eq, PartialEq, Hash)]
pub struct UnicastAddr<A: UnicastAddress>(pub A);

impl<A: UnicastAddress> UnicastAddr<A> {
    /// Wraps `addr` when it classifies as unicast, and returns `None`
    /// otherwise.
    pub fn new(addr: A) -> (r: Option<UnicastAddr<A>>)
        ensures
            r matches Some(u) ==> u.0 == addr,
    {
        if !addr.is_unicast() {
            return None;
        }
        Some(UnicastAddr(addr))
    }
}

impl<A: UnicastAddress + Clone> UnicastAddr<A> {
    /// A clone of the wrapped address.
    pub fn get(&self) -> (r: A)
        ensures
            cloned(self.0, r),
    {
        self.0.clone()
    }
}

/// An address that answered yes to [`MulticastAddress::is_multicast`] when
/// it was wrapped.
#[derive(Copy, Clone, Debug, Eq, PartialEq, Hash)]
pub struct MulticastAddr<A: MulticastAddress>(pub A);

impl<A: MulticastAddress> MulticastAddr<A> {
    /// Wraps `addr` when it classifies as multicast, and returns `None`
    /// otherwise.
    pub fn new(addr: A) -> (r: Option<MulticastAddr<A>>)
        ensures
            r matches Some(m) ==> m.0 == addr,
    {
        if !addr.is_multicast() {
            return None;
        }
        Some(MulticastAddr(addr))
    }
}

impl<A: MulticastAddress + Clone> MulticastAddr<A> {
    /// A clone of the wrapped address.
    pub fn get(&self) -> (r: A)
        ensures
            cloned(self.0, r),
    {
        self.0.clone()
    }
}

} // verus!
