//! The event broadcaster's side of the gateway: the sinks that are connected,
//! and what is pushed to them.

use vstd::prelude::*;
use std::collections::HashMap;
use vstd::std_specs::hash::spec_keys_iter;
use vstd::std_specs::iter::IteratorSpec;

verus! {

broadcast use vstd::std_specs::hash::group_hash_axioms;

/// The sinks that are connected right now, each under the token of its
/// connection.
pub struct SinkSet<H> {
    sinks: HashMap<usize, H>,
}

impl<H> View for SinkSet<H> {
    type V = Map<usize, H>;

    closed spec fn view(&self) -> Map<usize, H> {
        self.sinks@
    }
}

impl<H> SinkSet<H> {
    /// A set with no sink.
    pub fn new() -> (r: SinkSet<H>)
        ensures
            r@ == Map::<usize, H>::empty(),
    {
        SinkSet { sinks: HashMap::new() }
    }

    /// How many sinks are connected.
    pub fn len(&self) -> (n: usize)
        ensures
            n == self@.dom().len(),
            self@.dom().finite(),
    {
        self.sinks.len()
    }

    /// Registers `sink` under `token`; a sink already registered under that
    /// token is replaced.
    pub fn insert(&mut self, token: usize, sink: H)
        ensures
            final(self)@ == old(self)@.insert(token, sink),
    {
        self.sinks.insert(token, sink);
    }

    /// Removes the sink registered under `token`, if there is one, and hands
    /// it out.
    pub fn remove(&mut self, token: usize) -> (r: Option<H>)
        ensures
            final(self)@ == old(self)@.remove(token),
            r == if old(self)@.contains_key(token) {
                Some(old(self)@[token])
            } else {
                None
            },
    {
        self.sinks.remove(&token)
    }

    /// The sink registered under `token`.
    pub fn get(&self, token: usize) -> (r: Option<&H>)
        ensures
            r == if self@.contains_key(token) {
                Some(&self@[token])
            } else {
                None
            },
    {
        self.sinks.get(&token)
    }

    /// The tokens of the connected sinks, each once, in no particular order.
    pub fn tokens(&self) -> (r: Vec<usize>)
        ensures
            r@.no_duplicates(),
            r@.to_set() == self@.dom(),
    {
        let mut out: Vec<usize> = Vec::new();
        let ghost keys = spec_keys_iter(&self.sinks).remaining();
        for token in iter: self.sinks.keys()
            invariant
                iter.seq() == keys,
                out@ =~= keys.take(iter.index() as int).unref(),
        {
            out.push(*token);
        }
        assert(out@ =~= keys.unref());
        out
    }
}

} // verus!
