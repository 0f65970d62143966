//! The externally mutable endpoint address the poller connects to.

use vstd::prelude::*;

verus! {

/// The remote store's address, set by the operator and read by the poller at
/// the start of every connection attempt, so the bridge can be redirected
/// without a restart. Writes win in the order they land; no format validation
/// is performed here — that is the caller's business, if anyone's. The host
/// that shares one cell between tasks guards it with its own mutual
/// exclusion; this core carries the value.
pub struct TargetAddress {
    address: String,
}

impl View for TargetAddress {
    type V = Seq<char>;

    closed spec fn view(&self) -> Seq<char> {
        self.address@
    }
}

impl TargetAddress {
    /// A fresh cell holding the empty address.
    pub fn new() -> (r: TargetAddress)
        ensures
            r@ == Seq::<char>::empty(),
    {
        TargetAddress { address: String::new() }
    }

    /// Redirects the bridge: the given address is what every later read
    /// returns, until the next write.
    pub fn set(&mut self, address: String)
        ensures
            final(self)@ == address@,
    {
        self.address = address;
    }

    /// The address a connection attempt shall target. The returned string is
    /// the attempt's own copy: a write that lands after this read redirects
    /// later attempts, never one already in flight.
    pub fn get(&self) -> (r: String)
        ensures
            r@ == self@,
    {
        self.address.clone()
    }
}

} // verus!
