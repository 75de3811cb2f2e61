//! Fixed-capacity history of the most recent samples.
use vstd::prelude::*;

use vstd::arithmetic::div_mod::lemma_add_mod_noop_right;

use crate::config::HISTORY_LEN;

verus! {

/// The last `HISTORY_LEN` values pushed, oldest first. Once full, each push
/// overwrites the oldest value.
pub struct RingBuffer<T: Copy> {
    samples: Vec<T>,
    write: usize,
    filled: usize,
}

/// The history after pushing `value` onto `history`: the value is appended and,
/// when the buffer was full, the oldest value is dropped.
pub open spec fn pushed<T>(history: Seq<T>, value: T) -> Seq<T> {
    if history.len() < HISTORY_LEN {
        history.push(value)
    } else {
        history.push(value).drop_first()
    }
}

impl<T: Copy> RingBuffer<T> {
    /// Index in `samples` of the oldest value.
    spec fn start(&self) -> int {
        if self.filled < HISTORY_LEN {
            0
        } else {
            self.write as int
        }
    }

    #[verifier::type_invariant]
    spec fn inv(&self) -> bool {
        &&& self.filled <= HISTORY_LEN
        &&& self.samples@.len() == self.filled
        &&& self.write < HISTORY_LEN
        &&& self.filled < HISTORY_LEN ==> self.write == self.filled
    }
}

impl<T: Copy> View for RingBuffer<T> {
    type V = Seq<T>;

    closed spec fn view(&self) -> Seq<T> {
        Seq::new(
            self.filled as nat,
            |i: int| self.samples@[(self.start() + i) % (HISTORY_LEN as int)],
        )
    }
}

impl<T: Copy> RingBuffer<T> {
    pub fn new() -> (r: RingBuffer<T>)
        ensures
            r@ == Seq::<T>::empty(),
    {
        let r = RingBuffer { samples: Vec::new(), write: 0, filled: 0 };
        assert(r@ =~= Seq::<T>::empty());
        r
    }

    /// Number of values held: the number pushed since the last clear, at most
    /// `HISTORY_LEN`.
    pub fn len(&self) -> (r: usize)
        ensures
            r == self@.len(),
            r <= HISTORY_LEN,
    {
        proof {
            use_type_invariant(self);
        }
        self.filled
    }

    /// Empties the history.
    pub fn clear(&mut self)
        ensures
            final(self)@ == Seq::<T>::empty(),
    {
        *self = RingBuffer::new();
    }

    /// Appends `value`, dropping the oldest value when full.
    pub fn push(&mut self, value: T)
        ensures
            final(self)@ == pushed(old(self)@, value),
    {
        proof {
            use_type_invariant(&*self);
        }
        let ghost old_view = self@;
        let ghost w = self.write as int;
        let cap = HISTORY_LEN;
        if self.filled < cap {
            let mut taken = RingBuffer::new();
            std::mem::swap(&mut taken, self);
            let RingBuffer { mut samples, write: _, filled } = taken;
            samples.push(value);
            let filled = filled + 1;
            let write = if filled < cap {
                filled
            } else {
                0
            };
            *self = RingBuffer { samples, write, filled };
            proof {
                assert forall|i: int| 0 <= i < filled implies #[trigger] self@[i] == old_view.push(
                    value,
                )[i] by {
                    assert((self.start() + i) % (cap as int) == i);
                }
                assert(self@ =~= old_view.push(value));
            }
        } else {
            let mut taken = RingBuffer::new();
            std::mem::swap(&mut taken, self);
            let RingBuffer { mut samples, write, filled: _ } = taken;
            samples.set(write, value);
            let next = if write + 1 < cap {
                write + 1
            } else {
                0
            };
            *self = RingBuffer { samples, write: next, filled: cap };
            proof {
                let expect = old_view.push(value).drop_first();
                assert forall|i: int| 0 <= i < cap implies #[trigger] self@[i] == expect[i] by {
                    let c = cap as int;
                    if i < c - 1 {
                        assert((next + i) % c == (w + (i + 1)) % c);
                        assert((next + i) % c != w);
                    } else {
                        assert((next + i) % c == w);
                    }
                }
                assert(self@ =~= expect);
            }
        }
    }

    /// The last `min(n, len)` values, oldest first.
    pub fn last_n(&self, n: usize) -> (r: Vec<T>)
        ensures
            r@ == self@.subrange(
                self@.len() - (if n < self@.len() {
                    n as int
                } else {
                    self@.len() as int
                }),
                self@.len() as int,
            ),
    {
        proof {
            use_type_invariant(self);
        }
        let cap = HISTORY_LEN;
        let count = if n < self.filled {
            n
        } else {
            self.filled
        };
        let start = (self.write + cap - count) % cap;
        let mut r: Vec<T> = Vec::new();
        let mut i: usize = 0;
        let ghost skip = self.filled - count;
        while i < count
            invariant
                i <= count,
                count <= self.filled,
                self.filled <= cap,
                cap == HISTORY_LEN,
                start < cap,
                skip == self.filled - count,
                (self.start() + skip) % (cap as int) == start,
                self.samples@.len() == self.filled,
                self.filled < HISTORY_LEN ==> self.write == self.filled,
                self.write < HISTORY_LEN,
                r@ == self@.subrange(skip as int, skip + i),
            decreases count - i,
        {
            let idx = (start + i) % cap;
            proof {
                let c = cap as int;
                lemma_add_mod_noop_right(i as int, self.start() + skip, c);
                assert((self.start() + (skip + i)) % c == idx);
            }
            r.push(self.samples[idx]);
            i = i + 1;
            assert(r@ =~= self@.subrange(skip as int, skip + i));
        }
        r
    }

    /// All held values, oldest first.
    pub fn samples(&self) -> (r: Vec<T>)
        ensures
            r@ == self@,
    {
        proof {
            use_type_invariant(self);
        }
        let r = self.last_n(self.filled);
        assert(r@ =~= self@);
        r
    }
}

/// The history after pushing every value of `values` in order.
pub open spec fn pushed_all<T>(history: Seq<T>, values: Seq<T>) -> Seq<T>
    decreases values.len(),
{
    if values.len() == 0 {
        history
    } else {
        pushed(pushed_all(history, values.drop_last()), values.last())
    }
}

/// Starting empty, the buffer holds the last `HISTORY_LEN` values pushed (all of
/// them when fewer were pushed), oldest first.
pub proof fn lemma_keeps_last_values<T>(values: Seq<T>)
    ensures
        pushed_all(Seq::<T>::empty(), values) == values.subrange(
            if values.len() > HISTORY_LEN {
                values.len() - HISTORY_LEN
            } else {
                0
            },
            values.len() as int,
        ),
    decreases values.len(),
{
    if values.len() > 0 {
        let prev = values.drop_last();
        lemma_keeps_last_values(prev);
        let n = values.len() as int;
        let lo = if n - 1 > HISTORY_LEN {
            n - 1 - HISTORY_LEN
        } else {
            0
        };
        let h = prev.subrange(lo, n - 1);
        if h.len() < HISTORY_LEN {
            assert(h.push(values.last()) =~= values.subrange(lo, n));
        } else {
            assert(h.push(values.last()).drop_first() =~= values.subrange(lo + 1, n));
        }
    } else {
        assert(values.subrange(0, 0) =~= Seq::<T>::empty());
    }
}

} // verus!
