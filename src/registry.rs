use vstd::prelude::*;

use std::collections::HashMap;

use crate::details::{empty_details, DetailsView, ToplevelDetails};
use crate::events::{details_after, ToplevelEvent};

verus! {

broadcast use vstd::std_specs::hash::group_hash_axioms;

/// The table of announced toplevel windows, keyed by protocol object id.
pub struct ToplevelRegistry {
    table: HashMap<u32, ToplevelDetails>,
}

impl View for ToplevelRegistry {
    type V = Map<u32, DetailsView>;

    closed spec fn view(&self) -> Map<u32, DetailsView> {
        self.table@.map_values(|d: ToplevelDetails| d@)
    }
}

impl ToplevelRegistry {
    pub fn new() -> (r: Self)
        ensures
            r@ == Map::<u32, DetailsView>::empty(),
    {
        let r = ToplevelRegistry { table: HashMap::new() };
        assert(r@ =~= Map::<u32, DetailsView>::empty());
        r
    }

    /// Number of windows tracked.
    pub fn len(&self) -> (r: usize)
        ensures
            r == self@.len(),
    {
        assert(self.table@.dom() =~= self@.dom());
        self.table.len()
    }

    pub fn contains(&self, id: u32) -> (r: bool)
        ensures
            r == self@.contains_key(id),
    {
        self.table.contains_key(&id)
    }

    /// A copy of the details of window `id`, if it is tracked.
    pub fn get(&self, id: u32) -> (r: Option<ToplevelDetails>)
        ensures
            match r {
                Some(d) => self@.contains_key(id) && d@ == self@[id],
                None => !self@.contains_key(id),
            },
    {
        match self.table.get(&id) {
            Some(d) => Some(d.snapshot()),
            None => None,
        }
    }

    /// Starts tracking window `id` with empty details.
    pub fn announce(&mut self, id: u32)
        ensures
            final(self)@ == old(self)@.insert(id, empty_details()),
    {
        let d = ToplevelDetails::new();
        self.table.insert(id, d);
        assert(final(self)@ =~= old(self)@.insert(id, empty_details()));
    }

    /// Sets the details of window `id`, tracked or not.
    pub fn replace(&mut self, id: u32, d: ToplevelDetails)
        ensures
            final(self)@ == old(self)@.insert(id, d@),
    {
        self.table.insert(id, d);
        assert(final(self)@ =~= old(self)@.insert(id, d@));
    }

    /// Applies a property event to window `id`; `false` if it is not tracked.
    pub fn update(&mut self, id: u32, ev: ToplevelEvent) -> (r: bool)
        ensures
            r == old(self)@.contains_key(id),
            r ==> final(self)@ == old(self)@.insert(id, details_after(old(self)@[id], ev)),
            !r ==> final(self)@ == old(self)@,
    {
        let mut d = match self.table.get(&id) {
            Some(d) => d.snapshot(),
            None => {
                return false;
            },
        };
        match ev {
            ToplevelEvent::Title(t) => {
                d.title = Some(t);
            },
            ToplevelEvent::AppId(a) => {
                d.app_id = Some(a);
            },
            ToplevelEvent::State(s) => {
                d.state = s;
            },
            _ => {},
        }
        self.table.insert(id, d);
        assert(final(self)@ =~= old(self)@.insert(id, details_after(old(self)@[id], ev)));
        true
    }

    /// Stops tracking window `id`; `false` if it was not tracked.
    pub fn remove(&mut self, id: u32) -> (r: bool)
        ensures
            r == old(self)@.contains_key(id),
            final(self)@ == old(self)@.remove(id),
    {
        let r = self.table.remove(&id).is_some();
        assert(final(self)@ =~= old(self)@.remove(id));
        r
    }
}

} // verus!
