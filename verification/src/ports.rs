//! Port selection for new sandbox instances. The operating system proposes a
//! free port; the allocator records every port it has handed out and refuses
//! to hand the same one out twice within this allocator's lifetime, so two
//! instances created in sequence never share a port.
use vstd::prelude::*;

use crate::errors::SandboxError;

verus! {

/// Relies on portpicker::pick_unused_port: asks the operating system for a
/// port that is currently free on both TCP and UDP, or `None` if none was
/// found. The answer depends on the machine's state at call time, so nothing
/// is promised of it.
#[verifier::external_body]
fn pick_unused_port_raw() -> (r: Option<u16>) {
    portpicker::pick_unused_port()
}

/// Selects unused ports for new instances and remembers every port it has
/// issued, so that no port is issued twice.
pub struct PortAllocator {
    issued: Vec<u16>,
}

impl PortAllocator {
    /// The set of ports this allocator has handed out so far.
    pub closed spec fn issued_set(&self) -> Set<u16> {
        self.issued@.to_set()
    }

    /// A fresh allocator that has issued nothing yet.
    pub fn new() -> (r: PortAllocator)
        ensures
            r.issued_set() == Set::<u16>::empty(),
    {
        let r = PortAllocator { issued: Vec::new() };
        proof {
            assert(r.issued_set() =~= Set::<u16>::empty());
        }
        r
    }

    /// Whether `port` was already issued by this allocator.
    fn is_issued(&self, port: u16) -> (r: bool)
        ensures
            r == self.issued_set().contains(port),
    {
        let mut i: usize = 0;
        while i < self.issued.len()
            invariant
                i <= self.issued.len(),
                forall|j: int| 0 <= j < i ==> self.issued@[j] != port,
            decreases self.issued.len() - i,
        {
            if self.issued[i] == port {
                proof {
                    assert(self.issued@.contains(port));
                }
                return true;
            }
            i += 1;
        }
        proof {
            assert(!self.issued@.contains(port));
        }
        false
    }

    /// Decides on a proposed port: a fresh proposal is recorded and issued;
    /// no proposal, or one that was already issued, fails with
    /// `NoPortsAvailable` and leaves the allocator unchanged.
    pub fn accept(&mut self, candidate: Option<u16>) -> (r: Result<u16, SandboxError>)
        ensures
            match r {
                Ok(p) => {
                    &&& candidate == Some(p)
                    &&& !old(self).issued_set().contains(p)
                    &&& final(self).issued_set() == old(self).issued_set().insert(p)
                },
                Err(e) => {
                    &&& e == SandboxError::NoPortsAvailable
                    &&& final(self).issued_set() == old(self).issued_set()
                    &&& (candidate is None || old(self).issued_set().contains(candidate->0))
                },
            },
    {
        match candidate {
            None => Err(SandboxError::NoPortsAvailable),
            Some(p) => {
                if self.is_issued(p) {
                    Err(SandboxError::NoPortsAvailable)
                } else {
                    self.issued.push(p);
                    proof {
                        old(self).issued@.lemma_push_to_set_commute(p);
                        assert(self.issued_set() =~= old(self).issued_set().insert(p));
                    }
                    Ok(p)
                }
            },
        }
    }

    /// Asks the operating system for a free port and issues it if it is
    /// fresh. On success the port was never issued before and is recorded;
    /// on failure nothing changes.
    pub fn allocate(&mut self) -> (r: Result<u16, SandboxError>)
        ensures
            match r {
                Ok(p) => {
                    &&& !old(self).issued_set().contains(p)
                    &&& final(self).issued_set() == old(self).issued_set().insert(p)
                },
                Err(e) => {
                    &&& e == SandboxError::NoPortsAvailable
                    &&& final(self).issued_set() == old(self).issued_set()
                },
            },
    {
        let candidate = pick_unused_port_raw();
        self.accept(candidate)
    }
}

/// Ports issued by two successful allocations in sequence are distinct: the
/// second allocation starts from a record that already holds the first port.
pub proof fn lemma_sequential_ports_distinct(issued: Set<u16>, p1: u16, p2: u16)
    requires
        !issued.contains(p1),
        !issued.insert(p1).contains(p2),
    ensures
        p1 != p2,
{
}

} // verus!
