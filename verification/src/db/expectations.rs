use vstd::prelude::*;

verus! {

/// One method's deterministic script inside a repository test double: it
/// records every call's argument and replays programmed responses in the
/// order they were queued. A call made with no response left is answered
/// with the caller's fallback and still recorded.
pub struct Expectations<A, R> {
    pub calls: Vec<A>,
    pub responses: Vec<R>,
}

impl<A, R> Expectations<A, R> {
    /// The transition one call makes: the argument is appended to the call
    /// record, and the response is the front of the queue, or the fallback
    /// once the queue is empty.
    pub open spec fn scripted(self, pre: Self, arg: A, r: R, fallback: R) -> bool {
        &&& self.calls@ == pre.calls@.push(arg)
        &&& if pre.responses@.len() > 0 {
            r == pre.responses@[0] && self.responses@ == pre.responses@.remove(0)
        } else {
            r == fallback && self.responses == pre.responses
        }
    }

    /// A script with nothing recorded and nothing programmed.
    pub fn new() -> (r: Self)
        ensures
            r.calls@ == Seq::<A>::empty(),
            r.responses@ == Seq::<R>::empty(),
    {
        Expectations { calls: Vec::new(), responses: Vec::new() }
    }

    /// Queue one more response, to answer the call after those already
    /// programmed.
    pub fn expect(&mut self, response: R)
        ensures
            final(self).responses@ == old(self).responses@.push(response),
            final(self).calls == old(self).calls,
    {
        self.responses.push(response);
    }

    /// Make one call: record the argument and hand back the next
    /// programmed response, or `fallback` when none is left.
    pub fn invoke(&mut self, arg: A, fallback: R) -> (r: R)
        ensures
            final(self).scripted(*old(self), arg, r, fallback),
    {
        self.calls.push(arg);
        if self.responses.len() > 0 {
            self.responses.remove(0)
        } else {
            fallback
        }
    }

    /// How many calls have been made so far.
    pub fn times_called(&self) -> (r: usize)
        ensures
            r == self.calls@.len(),
    {
        self.calls.len()
    }
}

} // verus!
