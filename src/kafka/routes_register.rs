use vstd::prelude::*;

use crate::kafka::table::KeyedTable;

verus! {

/// Handlers keyed by uri. Registering a uri again replaces its handler.
pub struct RouteRegistry<H> {
    routes: KeyedTable<H>,
}

impl<H> RouteRegistry<H> {
    /// The registered handlers, by uri.
    pub closed spec fn view(&self) -> Map<Seq<char>, H> {
        self.routes@
    }

    pub closed spec fn wf(&self) -> bool {
        self.routes.wf()
    }

    /// An empty registry.
    pub fn new() -> (r: Self)
        ensures
            r.wf(),
            r@ == Map::<Seq<char>, H>::empty(),
    {
        RouteRegistry { routes: KeyedTable::new() }
    }

    /// Installs `handler` for `uri`, replacing an earlier one.
    pub fn register(&mut self, uri: &str, handler: H)
        requires
            old(self).wf(),
        ensures
            final(self).wf(),
            final(self)@ == old(self)@.insert(uri@, handler),
    {
        self.routes.insert(uri.to_owned(), handler);
    }

    /// Whether a handler is registered for `uri`.
    pub fn has_handler(&self, uri: &str) -> (r: bool)
        requires
            self.wf(),
        ensures
            r == self@.contains_key(uri@),
    {
        self.routes.contains(uri)
    }

    /// Every registered uri, each once.
    pub fn get_registered_uris(&self) -> (r: Vec<String>)
        requires
            self.wf(),
        ensures
            r@.len() == self@.len(),
            forall|k: Seq<char>| self@.contains_key(k) <==> exists|i: int| 0 <= i < r@.len() && r@[i]@ == k,
    {
        self.routes.names()
    }

    /// The handler registered for `uri`, if any.
    pub fn get_handler(&self, uri: &str) -> (r: Option<&H>)
        requires
            self.wf(),
        ensures
            match r {
                Some(h) => self@.contains_key(uri@) && self@[uri@] == *h,
                None => !self@.contains_key(uri@),
            },
    {
        self.routes.get(uri)
    }
}

} // verus!
