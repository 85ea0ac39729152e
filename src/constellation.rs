use std::collections::HashMap;
use vstd::prelude::*;
use vstd::std_specs::hash::group_hash_axioms;

verus! {

broadcast use group_hash_axioms;

/// A named set of satellites keyed by their integer id. The satellites
/// themselves are opaque here; per-satellite and pairwise work runs over
/// `satellites()`.
pub struct Constellation<S> {
    name: Option<String>,
    satellites: HashMap<i32, S>,
}

impl<S> View for Constellation<S> {
    type V = Map<i32, S>;

    closed spec fn view(&self) -> Map<i32, S> {
        self.satellites@
    }
}

impl<S> Constellation<S> {
    pub closed spec fn spec_name(&self) -> Option<Seq<char>> {
        match self.name {
            Some(n) => Some(n@),
            None => None,
        }
    }

    /// An unnamed constellation without satellites.
    pub fn new() -> (r: Constellation<S>)
        ensures
            r@ == Map::<i32, S>::empty(),
            r.spec_name() is None,
    {
        Constellation { name: None, satellites: HashMap::new() }
    }

    /// Adds `sat` under `satellite_id`, replacing any satellite held there.
    pub fn add(&mut self, satellite_id: i32, sat: S)
        ensures
            final(self)@ == old(self)@.insert(satellite_id, sat),
            final(self).spec_name() == old(self).spec_name(),
    {
        self.satellites.insert(satellite_id, sat);
    }

    /// The satellite held under `satellite_id`, if any.
    pub fn get(&self, satellite_id: i32) -> (r: Option<&S>)
        ensures
            match r {
                Some(s) => self@.contains_key(satellite_id) && *s == self@[satellite_id],
                None => !self@.contains_key(satellite_id),
            },
    {
        self.satellites.get(&satellite_id)
    }

    /// Drops the satellite held under `satellite_id`, if any.
    pub fn remove(&mut self, satellite_id: i32)
        ensures
            final(self)@ == old(self)@.remove(satellite_id),
            final(self).spec_name() == old(self).spec_name(),
    {
        self.satellites.remove(&satellite_id);
    }

    pub fn clear(&mut self)
        ensures
            final(self)@ == Map::<i32, S>::empty(),
            final(self).spec_name() == old(self).spec_name(),
    {
        self.satellites.clear();
    }

    /// Number of satellites held.
    pub fn get_count(&self) -> (r: usize)
        ensures
            r == self@.len(),
    {
        self.satellites.len()
    }

    pub fn get_name(&self) -> (r: Option<String>)
        ensures
            match r {
                Some(n) => self.spec_name() == Some(n@),
                None => self.spec_name() is None,
            },
    {
        match &self.name {
            Some(n) => Some(n.clone()),
            None => None,
        }
    }

    pub fn set_name(&mut self, name: Option<String>)
        ensures
            final(self)@ == old(self)@,
            match name {
                Some(n) => final(self).spec_name() == Some(n@),
                None => final(self).spec_name() is None,
            },
    {
        self.name = name;
    }

    /// The satellites by id, for work over all of them.
    pub fn satellites(&self) -> (r: &HashMap<i32, S>)
        ensures
            r@ == self@,
    {
        &self.satellites
    }
}

} // verus!
