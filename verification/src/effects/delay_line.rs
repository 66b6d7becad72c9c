//! A delay line: a fixed number of past samples, newest first.

use vstd::prelude::*;

verus! {

/// The history `h` after the sample `v` has entered it: `v` is the newest
/// sample, every other sample is one place older, and the oldest is gone.
pub open spec fn pushed(h: Seq<int>, v: int) -> Seq<int> {
    seq![v] + h.drop_last()
}

/// The number of samples in a line that is asked to hold `len`: at least 1.
pub open spec fn line_size(len: int) -> int {
    if len < 1 {
        1
    } else {
        len
    }
}

/// The age that is read when `age` is asked for in a line of `len`
/// samples: `age` limited to the range from 1 to `len`.
pub open spec fn reach(age: int, len: int) -> int {
    if age < 1 {
        1
    } else if age > len {
        len
    } else {
        age
    }
}

/// A history of `len` samples of silence.
pub open spec fn silence(len: int) -> Seq<int> {
    Seq::new(len as nat, |k: int| 0int)
}

/// A delay line of fixed length, kept in a ring. Its view is the history
/// of the samples written to it: the sample at index 0 is the one written
/// last, the sample at index `k` the one written `k` writes before that.
pub struct DelayLine {
    ring: Vec<i64>,
    next: usize,
}

impl DelayLine {
    #[verifier::type_invariant]
    spec fn inv(&self) -> bool {
        self.next < self.ring@.len()
    }

    /// The place in the ring of the sample written `k` writes before the last.
    spec fn slot(&self, k: int) -> int {
        if k < self.next {
            self.next - 1 - k
        } else {
            self.next - 1 - k + self.ring@.len()
        }
    }
}

impl View for DelayLine {
    type V = Seq<int>;

    closed spec fn view(&self) -> Seq<int> {
        Seq::new(self.ring@.len(), |k: int| self.ring@[self.slot(k)] as int)
    }
}

impl DelayLine {
    /// A delay line of `len` samples of silence; a line cannot be empty, so
    /// a length of 0 counts as 1.
    pub fn new(len: usize) -> (r: DelayLine)
        ensures
            r@ == silence(line_size(len as int)),
    {
        let size: usize = if len == 0 {
            1
        } else {
            len
        };
        let ring: Vec<i64> = vec![0i64; size];
        let r = DelayLine { ring, next: 0 };
        assert(r@ =~= silence(line_size(len as int)));
        r
    }

    /// The number of samples the line holds, which is at least 1.
    pub fn len(&self) -> (n: usize)
        ensures
            n == self@.len(),
            n >= 1,
    {
        proof {
            use_type_invariant(self);
        }
        self.ring.len()
    }

    /// The sample written `age` writes ago; the last one written has age
    /// 1. An age of 0 counts as 1, and an age beyond the line as the age of
    /// the oldest sample.
    pub fn read(&self, age: usize) -> (v: i64)
        ensures
            v == self@[reach(age as int, self@.len() as int) - 1],
    {
        proof {
            use_type_invariant(self);
        }
        let len: usize = self.ring.len();
        let k: usize = if age == 0 {
            0
        } else if age > len {
            len - 1
        } else {
            age - 1
        };
        let slot: usize = if k < self.next {
            self.next - 1 - k
        } else {
            len - 1 - k + self.next
        };
        self.ring[slot]
    }

    /// Writes the sample `v`, which pushes the oldest sample out.
    pub fn write(&mut self, v: i64)
        ensures
            final(self)@ == pushed(old(self)@, v as int),
            final(self)@.len() == old(self)@.len(),
    {
        proof {
            use_type_invariant(&*self);
        }
        let len: usize = self.ring.len();
        let at: usize = self.next;
        self.ring[at] = v;
        self.next = if at + 1 == len {
            0
        } else {
            at + 1
        };
        assert(self@ =~= pushed(old(self)@, v as int));
    }
}

} // verus!
