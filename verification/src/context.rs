//! Per-peer registry of locally registered services, keyed by service name.
//!
//! The registry is filled during the build phase and read by every
//! connection handler afterwards; registering a name that is already taken
//! overwrites the earlier registration (last one wins).

use vstd::prelude::*;

use crate::protocol::ServiceName;

verus! {

/// One registration: a service name and the server that backs it.
pub struct ServiceEntry<S> {
    pub name: ServiceName,
    pub server: S,
}

/// What a sequence of registrations resolves a name to: the most recent
/// entry under that name, if any.
pub open spec fn spec_resolve<S>(entries: Seq<ServiceEntry<S>>, n: Seq<u8>) -> Option<S>
    decreases entries.len(),
{
    if entries.len() == 0 {
        None
    } else if entries.last().name@ == n {
        Some(entries.last().server)
    } else {
        spec_resolve(entries.drop_last(), n)
    }
}

/// The registry shared by all connection handlers of one peer.
pub struct PeerContext<S> {
    services: Vec<ServiceEntry<S>>,
}

impl<S> View for PeerContext<S> {
    type V = Seq<ServiceEntry<S>>;

    closed spec fn view(&self) -> Seq<ServiceEntry<S>> {
        self.services@
    }
}

impl<S> PeerContext<S> {
    /// What this registry resolves a name to.
    pub open spec fn spec_lookup(&self, n: Seq<u8>) -> Option<S> {
        spec_resolve(self@, n)
    }

    /// An empty registry: no name resolves.
    pub fn new() -> (r: PeerContext<S>)
        ensures
            r@.len() == 0,
            forall|n: Seq<u8>| r.spec_lookup(n) is None,
    {
        PeerContext { services: Vec::new() }
    }

    /// Registers a server under a name. A name registered twice resolves
    /// to the later server; every other name resolves as before.
    pub fn register(&mut self, name: ServiceName, server: S)
        requires
            name.wf(),
        ensures
            final(self)@ == old(self)@.push(ServiceEntry { name, server }),
            final(self).spec_lookup(name@) == Some(server),
            forall|n: Seq<u8>| n != name@ ==> final(self).spec_lookup(n) == old(
                self,
            ).spec_lookup(n),
    {
        let entry = ServiceEntry { name, server };
        self.services.push(entry);
        proof {
            assert(self@.drop_last() =~= old(self)@);
        }
    }

    /// Looks a name up, returning a borrow of the most recently registered
    /// server under it; `None` exactly when the name is not registered.
    pub fn lookup(&self, name: &ServiceName) -> (r: Option<&S>)
        ensures
            r matches Some(s) ==> self.spec_lookup(name@) == Some(*s),
            r is None <==> self.spec_lookup(name@) is None,
    {
        let mut idx: usize = self.services.len();
        proof {
            assert(self.services@.take(idx as int) =~= self.services@);
        }
        while idx > 0
            invariant
                idx <= self.services.len(),
                self.spec_lookup(name@) == spec_resolve(
                    self.services@.take(idx as int),
                    name@,
                ),
            decreases idx,
        {
            idx = idx - 1;
            let entry = &self.services[idx];
            if bytes_equal(entry.name.as_bytes().as_slice(), name.as_bytes().as_slice()) {
                proof {
                    assert(self.services@.take(idx as int + 1).last() == self.services@[
                        idx as int]);
                }
                return Some(&entry.server);
            }
            proof {
                assert(self.services@.take(idx as int + 1).drop_last() =~= self.services@.take(
                    idx as int));
            }
        }
        proof {
            assert(self.services@.take(0) =~= Seq::<ServiceEntry<S>>::empty());
        }
        None
    }

    /// How many registrations the registry holds.
    pub fn len(&self) -> (r: usize)
        ensures
            r == self@.len(),
    {
        self.services.len()
    }
}

/// Byte-for-byte equality of two slices.
fn bytes_equal(a: &[u8], b: &[u8]) -> (r: bool)
    ensures
        r == (a@ == b@),
{
    if a.len() != b.len() {
        return false;
    }
    let mut i: usize = 0;
    while i < a.len()
        invariant
            i <= a.len(),
            a@.len() == b@.len(),
            forall|j: int| 0 <= j < i ==> a@[j] == b@[j],
        decreases a.len() - i,
    {
        if a[i] != b[i] {
            return false;
        }
        i = i + 1;
    }
    proof {
        assert(a@ =~= b@);
    }
    true
}

} // verus!
