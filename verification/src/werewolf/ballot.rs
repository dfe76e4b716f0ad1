//! Votes in the order they were first cast, at most one per voter.

use vstd::prelude::*;
use crate::assoc::{find_key, get_key, put, put_key};

verus! {

/// Pairs of a voter and a target; the target `None` is an abstention.
#[derive(Debug, Clone)]
pub struct Ballot {
    pub votes: Vec<(usize, Option<usize>)>,
}

impl Default for Ballot {
    fn default() -> (r: Self)
        ensures
            r.votes@ == Seq::<(usize, Option<usize>)>::empty(),
    {
        Ballot { votes: Vec::new() }
    }
}

impl Ballot {
    /// Casts a vote; a second vote of the same voter replaces the first in its place.
    pub fn cast(&mut self, voter: usize, target: Option<usize>)
        ensures
            final(self).votes@ == put_key(old(self).votes@, voter, target),
    {
        put(&mut self.votes, voter, target);
    }

    /// The vote of a voter; `None` when the voter has not voted.
    pub fn for_voter(&self, voter: usize) -> (r: Option<Option<usize>>)
        ensures
            r == get_key(self.votes@, voter),
    {
        let i: usize = find_key(&self.votes, voter);
        if i < self.votes.len() {
            Some(self.votes[i].1)
        } else {
            None
        }
    }

    /// A copy of the votes.
    pub fn copy_votes(&self) -> (r: Vec<(usize, Option<usize>)>)
        ensures
            r@ == self.votes@,
    {
        let mut r: Vec<(usize, Option<usize>)> = Vec::new();
        let mut i: usize = 0;
        while i < self.votes.len()
            invariant
                i <= self.votes.len(),
                r@ == self.votes@.take(i as int),
            decreases self.votes.len() - i,
        {
            r.push(self.votes[i]);
            i = i + 1;
            assert(r@ =~= self.votes@.take(i as int));
        }
        assert(self.votes@.take(i as int) =~= self.votes@);
        r
    }

    /// Takes all votes back.
    pub fn clear(&mut self)
        ensures
            final(self).votes@ == Seq::<(usize, Option<usize>)>::empty(),
    {
        self.votes.clear();
    }
}

} // verus!
