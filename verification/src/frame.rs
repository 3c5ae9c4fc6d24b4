//! Fixed-capacity byte buffers that carry one captured payload each.

use vstd::prelude::*;
use vstd::array::array_as_slice;
use vstd::slice::slice_subrange;

verus! {

/// Largest number of bytes one captured event may occupy on the wire, and the
/// capacity of every [`AudioFrame`].
pub const MAX_DATA_SIZE: usize = 1280;

/// A reusable buffer of [`MAX_DATA_SIZE`] bytes with a window `[start, end)` of
/// valid data. The view of a frame is the content of its window.
pub struct AudioFrame {
    data: [u8; MAX_DATA_SIZE],
    start: usize,
    end: usize,
}

impl View for AudioFrame {
    type V = Seq<u8>;

    closed spec fn view(&self) -> Seq<u8> {
        self.data@.subrange(self.start as int, self.end as int)
    }
}

impl AudioFrame {
    #[verifier::type_invariant]
    spec fn window_in_bounds(self) -> bool {
        self.start <= self.end <= MAX_DATA_SIZE
    }

    /// An empty frame.
    pub fn new() -> (frame: Self)
        ensures
            frame@ == Seq::<u8>::empty(),
    {
        let frame = AudioFrame { data: [0u8; MAX_DATA_SIZE], start: 0, end: 0 };
        assert(frame@ =~= Seq::<u8>::empty());
        frame
    }

    /// The bytes of the window.
    pub fn slice(&self) -> (bytes: &[u8])
        ensures
            bytes@ == self@,
    {
        proof {
            use_type_invariant(self);
        }
        slice_subrange(array_as_slice(&self.data), self.start, self.end)
    }

    /// Number of bytes in the window.
    pub fn len(&self) -> (n: usize)
        ensures
            n == self@.len(),
            n <= MAX_DATA_SIZE,
    {
        proof {
            use_type_invariant(self);
        }
        self.end - self.start
    }

    /// Drops the first `num` bytes of the window.
    pub fn remove_start(&mut self, num: usize)
        requires
            num <= old(self)@.len(),
        ensures
            final(self)@ == old(self)@.skip(num as int),
    {
        proof {
            use_type_invariant(&*self);
        }
        self.start = self.start + num;
        assert(self@ =~= old(self)@.skip(num as int));
    }

    /// Drops the last `num` bytes of the window.
    pub fn remove_end(&mut self, num: usize)
        requires
            num <= old(self)@.len(),
        ensures
            final(self)@ == old(self)@.take(old(self)@.len() - num),
    {
        proof {
            use_type_invariant(&*self);
        }
        self.end = self.end - num;
        assert(self@ =~= old(self)@.take(old(self)@.len() - num));
    }

    /// Replaces the window by a copy of `payload`.
    pub fn fill(&mut self, payload: &[u8])
        requires
            payload@.len() <= MAX_DATA_SIZE,
        ensures
            final(self)@ == payload@,
    {
        proof {
            use_type_invariant(&*self);
        }
        self.start = 0;
        self.end = 0;
        let n: usize = payload.len();
        let mut i: usize = 0;
        while i < n
            invariant
                i <= n,
                n == payload@.len(),
                n <= MAX_DATA_SIZE,
                self.start == 0,
                self.end == 0,
                forall|k: int| 0 <= k < i ==> self.data@[k] == payload@[k],
            decreases n - i,
        {
            self.data[i] = payload[i];
            i = i + 1;
        }
        self.end = n;
        assert(self@ =~= payload@);
    }
}

} // verus!
