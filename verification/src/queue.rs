//! A bounded first-in first-out queue of encoded frames. One instance
//! carries commands from the session facade to the reactor, another carries
//! received datagrams from the reactor back to the caller. A full queue
//! refuses a new frame instead of blocking or displacing older frames, so
//! backpressure never corrupts what is already queued.

use vstd::prelude::*;

verus! {

/// A bounded queue of raw frames, oldest frame first.
pub struct FrameQueue {
    frames: Vec<Vec<u8>>,
    cap: usize,
}

impl View for FrameQueue {
    type V = Seq<Seq<u8>>;

    /// The queued frames as byte sequences, oldest first.
    closed spec fn view(&self) -> Seq<Seq<u8>> {
        self.frames.deep_view()
    }
}

impl FrameQueue {
    /// The most frames the queue ever holds.
    pub closed spec fn capacity(&self) -> nat {
        self.cap as nat
    }

    /// An empty queue with room for `cap` frames.
    pub fn new(cap: usize) -> (q: FrameQueue)
        ensures
            q@ == Seq::<Seq<u8>>::empty(),
            q.capacity() == cap,
    {
        let q = FrameQueue { frames: Vec::new(), cap };
        assert(q@ =~= Seq::<Seq<u8>>::empty());
        q
    }

    /// How many frames are queued now.
    pub fn len(&self) -> (n: usize)
        ensures
            n == self@.len(),
    {
        self.frames.len()
    }

    /// Whether nothing is queued.
    pub fn is_empty(&self) -> (r: bool)
        ensures
            r == (self@.len() == 0),
    {
        self.frames.len() == 0
    }

    /// Appends `f` when there is room. A full queue refuses the frame and
    /// keeps its contents exactly as they were.
    pub fn push(&mut self, f: Vec<u8>) -> (ok: bool)
        ensures
            final(self).capacity() == old(self).capacity(),
            ok == (old(self)@.len() < old(self).capacity()),
            ok ==> final(self)@ == old(self)@.push(f@),
            !ok ==> final(self)@ == old(self)@,
    {
        if self.frames.len() < self.cap {
            let ghost prev = self@;
            self.frames.push(f);
            assert(self@ =~~= prev.push(f@));
            true
        } else {
            false
        }
    }

    /// Removes and returns the oldest frame, or nothing when the queue is
    /// empty; never waits.
    pub fn pop(&mut self) -> (r: Option<Vec<u8>>)
        ensures
            final(self).capacity() == old(self).capacity(),
            old(self)@.len() == 0 ==> r is None && final(self)@ == old(self)@,
            old(self)@.len() > 0 ==> (r matches Some(f) && f@ == old(self)@[0] && final(self)@
                == old(self)@.drop_first()),
    {
        if self.frames.len() == 0 {
            None
        } else {
            let ghost prev = self@;
            let f = self.frames.remove(0);
            assert(self@ =~~= prev.drop_first());
            Some(f)
        }
    }
}

} // verus!
