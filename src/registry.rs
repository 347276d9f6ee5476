//! The decentralized registry: an append-only list of (id, service) entries
//! contributed independently, searched in contribution order.
use crate::service::Service;
use vstd::prelude::*;

verus! {

/// One contributed entry: a service and the id it answers.
pub struct ServiceWrapper {
    /// The service
    pub service: Service,
    /// The id
    pub id: u16,
}

/// Some entry of `entries` answers `id`.
pub open spec fn has_id(entries: Seq<ServiceWrapper>, id: u16) -> bool {
    exists|i: int| 0 <= i < entries.len() && #[trigger] entries[i].id == id
}

/// `i` is the earliest entry of `entries` that answers `id`.
pub open spec fn is_first(entries: Seq<ServiceWrapper>, id: u16, i: int) -> bool {
    &&& 0 <= i < entries.len()
    &&& entries[i].id == id
    &&& forall|j: int| 0 <= j < i ==> #[trigger] entries[j].id != id
}

/// The collected entries, in the order they were contributed.
///
/// Entries are only ever appended. Several entries may share an id: the one
/// contributed first answers it.
pub struct Registry {
    entries: Vec<ServiceWrapper>,
}

impl Registry {
    /// The entries, in contribution order.
    pub closed spec fn view(&self) -> Seq<ServiceWrapper> {
        self.entries@
    }

    /// An empty registry.
    pub fn new() -> (r: Self)
        ensures
            r@ == Seq::<ServiceWrapper>::empty(),
    {
        Registry { entries: Vec::new() }
    }

    /// Contribute one entry; it goes after all earlier ones.
    pub fn submit(&mut self, entry: ServiceWrapper)
        ensures
            final(self)@ == old(self)@.push(entry),
    {
        self.entries.push(entry);
    }

    /// All contributed entries, in contribution order.
    pub fn iter(&self) -> (r: &[ServiceWrapper])
        ensures
            r@ == self@,
    {
        self.entries.as_slice()
    }

    /// The index of the earliest entry that answers `id`, if any does.
    pub fn position(&self, id: u16) -> (r: Option<usize>)
        ensures
            r is Some <==> has_id(self@, id),
            r is Some ==> is_first(self@, id, r->Some_0 as int),
    {
        let mut i: usize = 0;
        while i < self.entries.len()
            invariant
                0 <= i <= self.entries@.len(),
                forall|j: int| 0 <= j < i ==> #[trigger] self.entries@[j].id != id,
            decreases self.entries@.len() - i,
        {
            if self.entries[i].id == id {
                return Some(i);
            }
            i = i + 1;
        }
        None
    }

    /// Call the earliest entry that answers `id` with `args`.
    ///
    /// The id must be one that some entry answers.
    pub fn resolve(&self, id: u16, args: &[usize]) -> (w: isize)
        requires
            has_id(self@, id),
            forall|i: int| is_first(self@, id, i) ==> #[trigger] self@[i].service.accepts(args@),
        ensures
            forall|i: int| is_first(self@, id, i) ==> #[trigger] self@[i].service.yields(args@, w),
    {
        let i = self.position(id).unwrap();
        proof {
            assert forall|k: int| is_first(self@, id, k) implies k == i as int by {
                if k < i as int {
                    assert(self@[k].id != id);
                } else if k > i as int {
                    assert(self@[i as int].id != id);
                }
            }
        }
        self.entries[i].service.handle(args)
    }
}

} // verus!
