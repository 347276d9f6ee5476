//! The runtime registry: a mutable table from ids to services.
use crate::codec::{FromArgs, ToIsize};
use crate::service::{Service, SysCallHandler};
use crate::unifn::UniFn;
use std::collections::BTreeMap;
use vstd::prelude::*;

verus! {

/// A container for Service
///
/// The key is the specific number. Each id holds at most one service; the
/// last registration for an id wins.
pub struct Table {
    map: BTreeMap<usize, Service>,
}

impl Table {
    /// The services of the table, by id.
    pub closed spec fn view(&self) -> Map<usize, Service> {
        self.map@
    }

    /// Create a new Table
    pub fn new() -> (r: Self)
        ensures
            r@ == Map::<usize, Service>::empty(),
    {
        Table { map: BTreeMap::new() }
    }

    /// Register a function
    ///
    /// The handler is wrapped into a service stored under `id`, replacing any
    /// service that was there.
    pub fn register<F, Args, Res>(&mut self, id: usize, func: F) where
        F: UniFn<Args, Res> + 'static,
        Args: FromArgs + 'static,
        Res: ToIsize + 'static,

        ensures
            final(self)@.dom() == old(self)@.dom().insert(id),
            forall|k: usize|
                k != id && old(self)@.contains_key(k) ==> #[trigger] final(self)@[k] == old(
                    self,
                )@[k],
            final(self)@[id].wraps::<F, Args, Res>(func),
    {
        let handler = SysCallHandler::new(func);
        let service = Service::from_handler(handler);
        self.map.insert(id, service);
    }

    /// Remove a function
    pub fn remove(&mut self, id: usize) -> (r: Option<Service>)
        ensures
            final(self)@ == old(self)@.remove(id),
            r is Some <==> old(self)@.contains_key(id),
            r is Some ==> r->Some_0 == old(self)@[id],
    {
        self.map.remove(&id)
    }

    /// call the function
    ///
    /// Gives `None` for an id that holds no service.
    pub fn do_call(&self, id: usize, args: &[usize]) -> (r: Option<isize>)
        requires
            self@.contains_key(id) ==> self@[id].accepts(args@),
        ensures
            r is Some <==> self@.contains_key(id),
            r is Some ==> self@[id].yields(args@, r->Some_0),
    {
        match self.map.get(&id) {
            Some(service) => Some(service.handle(args)),
            None => None,
        }
    }
}

} // verus!
