use vstd::prelude::*;

verus! {

/// A vector with a capacity fixed at construction: it never grows beyond
/// `capacity()` elements, and operations that would need more room either
/// report it or take only what fits.
#[derive(Clone)]
pub struct FixedVec<T> {
    data: Vec<T>,
    cap: usize,
}

impl<T> View for FixedVec<T> {
    type V = Seq<T>;

    /// The elements, in order.
    closed spec fn view(&self) -> Seq<T> {
        self.data@
    }
}

/// `x` is a value that some state of the closure `F` can return.
pub open spec fn produced_by<F: FnMut() -> T, T>(x: T) -> bool {
    exists|g: F| call_ensures(g, (), x)
}

/// `b` is an answer that some state of the closure `F` can give for `x`.
pub open spec fn answered_by<F: FnMut(&T) -> bool, T>(x: &T, b: bool) -> bool {
    exists|g: F| call_ensures(g, (x,), b)
}

/// The elements of `s` whose entry in `keep` is true, in order.
pub open spec fn filter_kept<T>(s: Seq<T>, keep: Seq<bool>) -> Seq<T>
    decreases s.len(),
{
    if s.len() == 0 {
        Seq::empty()
    } else if keep[s.len() - 1] {
        filter_kept(s.drop_last(), keep.drop_last()).push(s.last())
    } else {
        filter_kept(s.drop_last(), keep.drop_last())
    }
}

impl<T> FixedVec<T> {
    /// The elements fit in the capacity.
    pub open spec fn wf(&self) -> bool {
        self@.len() <= self.spec_capacity()
    }

    /// The maximum number of elements.
    pub closed spec fn spec_capacity(&self) -> nat {
        self.cap as nat
    }

    /// Construct a new, empty `FixedVec<T>` with the specified capacity.
    pub fn with_capacity(capacity: usize) -> (v: Self)
        ensures
            v.wf(),
            v@ == Seq::<T>::empty(),
            v.spec_capacity() == capacity,
    {
        FixedVec { data: Vec::with_capacity(capacity), cap: capacity }
    }

    /// Returns the maximum number of elements this fixedvec can store.
    #[inline]
    pub fn capacity(&self) -> (c: usize)
        requires
            self.wf(),
        ensures
            c == self.spec_capacity(),
            self@.len() <= c,
    {
        self.cap
    }

    /// The number of elements.
    #[inline]
    pub fn len(&self) -> (n: usize)
        requires
            self.wf(),
        ensures
            n == self@.len(),
            n <= self.spec_capacity(),
    {
        self.data.len()
    }

    /// Whether there are no elements.
    #[inline]
    pub fn is_empty(&self) -> (b: bool)
        requires
            self.wf(),
        ensures
            b == (self@.len() == 0),
    {
        self.len() == 0
    }

    /// Returns the number of elements that can be inserted before it runs
    /// out of capacity.
    #[inline]
    pub fn available(&self) -> (n: usize)
        requires
            self.wf(),
        ensures
            n == self.spec_capacity() - self@.len(),
    {
        self.capacity() - self.len()
    }

    /// Shortens the vector, keeping the first `len` elements and dropping the
    /// rest. Has no effect if `len` is not smaller than the length.
    pub fn truncate(&mut self, len: usize)
        requires
            old(self).wf(),
        ensures
            final(self).wf(),
            final(self)@ == (if len < old(self)@.len() {
                old(self)@.subrange(0, len as int)
            } else {
                old(self)@
            }),
            final(self).spec_capacity() == old(self).spec_capacity(),
    {
        if len >= self.len() {
            return;
        }
        self.data.truncate(len);
    }

    /// Clears the vector, removing all values.
    #[inline]
    pub fn clear(&mut self)
        ensures
            final(self).wf(),
            final(self)@ == Seq::<T>::empty(),
            final(self).spec_capacity() == old(self).spec_capacity(),
    {
        self.data.clear();
    }

    /// Resizes in place so that the length is `new_len`: extra slots are
    /// filled, in order, with the results of calling `f`; a smaller
    /// `new_len` truncates.
    pub fn resize_with<F: FnMut() -> T>(&mut self, new_len: usize, mut f: F)
        requires
            old(self).wf(),
            new_len <= old(self)@.len() || new_len <= old(self).spec_capacity(),
            forall|g: F| call_requires(g, ()),
        ensures
            final(self).wf(),
            final(self)@.len() == new_len,
            final(self).spec_capacity() == old(self).spec_capacity(),
            forall|i: int|
                0 <= i < new_len && i < old(self)@.len() ==> #[trigger] final(self)@[i] == old(self)@[i],
            forall|i: int|
                old(self)@.len() <= i < new_len ==> produced_by::<F, T>(#[trigger] final(self)@[i]),
    {
        if new_len <= self.len() {
            self.truncate(new_len);
            return;
        }
        let ghost start = self@;
        let mut i = self.len();
        while i < new_len
            invariant
                start.len() <= i <= new_len,
                new_len <= self.cap,
                self.data@.len() == i,
                self.cap == old(self).cap,
                forall|g: F| call_requires(g, ()),
                forall|j: int| 0 <= j < start.len() ==> #[trigger] self.data@[j] == start[j],
                forall|j: int| start.len() <= j < i ==> produced_by::<F, T>(#[trigger] self.data@[j]),
            decreases new_len - i,
        {
            let ghost g0 = f;
            let x = f();
            proof {
                assert(call_ensures(g0, (), x));
                assert(produced_by::<F, T>(x));
            }
            let ghost before = self.data@;
            self.data.push(x);
            proof {
                assert(self.data@[i as int] == x);
                assert forall|j: int| start.len() <= j < i + 1 implies produced_by::<F, T>(
                    #[trigger] self.data@[j],
                ) by {
                    if j < i {
                        assert(self.data@[j] == before[j]);
                    }
                }
            }
            i = i + 1;
        }
    }

    /// The elements as a slice.
    #[inline]
    pub fn as_slice(&self) -> (s: &[T])
        requires
            self.wf(),
        ensures
            s@ == self@,
    {
        self.data.as_slice()
    }

    /// The elements as a mutable slice. Writing through the slice cannot
    /// change its length, so the vector stays within its capacity.
    #[inline]
    pub fn as_mut_slice(&mut self) -> (s: &mut [T])
        requires
            old(self).wf(),
        ensures
            s@ == old(self)@,
            final(self)@ == final(s)@,
            final(self).spec_capacity() == old(self).spec_capacity(),
            final(s)@.len() == s@.len() ==> final(self).wf(),
    {
        self.data.as_mut_slice()
    }

    /// Splits the vector into the storage that holds its elements and its
    /// capacity.
    pub fn into_parts(self) -> (r: (Vec<T>, usize))
        requires
            self.wf(),
        ensures
            r.0@ == self@,
            r.1 == self.spec_capacity(),
    {
        (self.data, self.cap)
    }

    /// Rebuilds a vector from storage and a capacity; `None` when the
    /// elements do not fit in that capacity.
    pub fn from_parts(data: Vec<T>, capacity: usize) -> (r: Option<Self>)
        ensures
            r is Some <==> data@.len() <= capacity,
            r matches Some(v) ==> v.wf() && v@ == data@ && v.spec_capacity() == capacity,
    {
        if data.len() <= capacity {
            Some(FixedVec { data, cap: capacity })
        } else {
            None
        }
    }

    /// Appends an element to the back. If there is no room left it returns
    /// the element back as an error.
    pub fn push(&mut self, value: T) -> (r: Result<(), T>)
        requires
            old(self).wf(),
        ensures
            final(self).wf(),
            final(self).spec_capacity() == old(self).spec_capacity(),
            old(self)@.len() < old(self).spec_capacity() ==> r is Ok && final(self)@ == old(self)@.push(value),
            old(self)@.len() >= old(self).spec_capacity() ==> r == Err::<(), T>(value) && final(self)@ == old(self)@,
    {
        if self.available() == 0 {
            return Err(value);
        }
        self.data.push(value);
        Ok(())
    }

    /// Removes the last element and returns it, or `None` if empty.
    pub fn pop(&mut self) -> (r: Option<T>)
        requires
            old(self).wf(),
        ensures
            final(self).wf(),
            final(self).spec_capacity() == old(self).spec_capacity(),
            old(self)@.len() == 0 ==> r is None && final(self)@ == old(self)@,
            old(self)@.len() > 0 ==> r == Some(old(self)@.last()) && final(self)@ == old(self)@.drop_last(),
    {
        if self.is_empty() {
            return None;
        }
        self.data.pop()
    }

    /// Removes the element at `index` and returns it, replacing it with the
    /// last element.
    pub fn swap_remove(&mut self, index: usize) -> (r: T)
        requires
            old(self).wf(),
            index < old(self)@.len(),
        ensures
            final(self).wf(),
            r == old(self)@[index as int],
            final(self)@ == old(self)@.update(index as int, old(self)@.last()).drop_last(),
            final(self).spec_capacity() == old(self).spec_capacity(),
    {
        self.data.swap_remove(index)
    }

    /// Inserts an element at position `index`, shifting all elements after
    /// it to the right.
    pub fn insert(&mut self, index: usize, element: T)
        requires
            old(self).wf(),
            index <= old(self)@.len(),
            old(self)@.len() < old(self).spec_capacity(),
        ensures
            final(self).wf(),
            final(self)@ == old(self)@.insert(index as int, element),
            final(self).spec_capacity() == old(self).spec_capacity(),
    {
        self.data.insert(index, element);
    }

    /// Removes and returns the element at `index`, shifting all elements
    /// after it to the left.
    pub fn remove(&mut self, index: usize) -> (r: T)
        requires
            old(self).wf(),
            index < old(self)@.len(),
        ensures
            final(self).wf(),
            r == old(self)@[index as int],
            final(self)@ == old(self)@.remove(index as int),
            final(self).spec_capacity() == old(self).spec_capacity(),
    {
        self.data.remove(index)
    }

    /// Retains only the elements for which `f` returns true, visiting each
    /// element exactly once in order and keeping the order of the retained
    /// ones.
    pub fn retain<F: FnMut(&T) -> bool>(&mut self, mut f: F)
        requires
            old(self).wf(),
            forall|g: F, x: &T| call_requires(g, (x,)),
        ensures
            final(self).wf(),
            final(self).spec_capacity() == old(self).spec_capacity(),
            exists|keep: Seq<bool>|
                {
                    &&& keep.len() == old(self)@.len()
                    &&& forall|i: int|
                        0 <= i < keep.len() ==> answered_by::<F, T>(&old(self)@[i], #[trigger] keep[i])
                    &&& final(self)@ == filter_kept(old(self)@, keep)
                },
    {
        let ghost orig = self.data@;
        let mut rest: Vec<T> = Vec::new();
        std::mem::swap(&mut rest, &mut self.data);
        // `pending` holds the unvisited elements, last one first.
        let mut pending: Vec<T> = Vec::new();
        while rest.len() > 0
            invariant
                pending@ == orig.subrange(rest@.len() as int, orig.len() as int).reverse(),
                rest@ == orig.subrange(0, rest@.len() as int),
                rest@.len() <= orig.len(),
            decreases rest@.len(),
        {
            let ghost before = rest@;
            let x = rest.pop().unwrap();
            proof {
                assert(x == before[before.len() - 1]);
                assert(rest@ =~= orig.subrange(0, rest@.len() as int));
                assert(orig.subrange(rest@.len() as int, orig.len() as int) =~= seq![x].add(
                    orig.subrange(rest@.len() as int + 1, orig.len() as int),
                ));
            }
            pending.push(x);
            proof {
                assert(pending@ =~= orig.subrange(rest@.len() as int, orig.len() as int).reverse());
            }
        }
        let ghost mut keep: Seq<bool> = Seq::empty();
        let mut visited: usize = 0;
        while pending.len() > 0
            invariant
                visited + pending@.len() == orig.len(),
                pending@ == orig.subrange(visited as int, orig.len() as int).reverse(),
                keep.len() == visited,
                forall|i: int| 0 <= i < visited ==> answered_by::<F, T>(&orig[i], #[trigger] keep[i]),
                self.data@ == filter_kept(orig.subrange(0, visited as int), keep),
                self.data@.len() <= visited,
                self.cap == old(self).cap,
                orig.len() <= self.cap,
                forall|g: F, x: &T| call_requires(g, (x,)),
            decreases pending@.len(),
        {
            let x = pending.pop().unwrap();
            proof {
                assert(x == orig[visited as int]);
            }
            let ghost g0 = f;
            let b = f(&x);
            proof {
                assert(call_ensures(g0, (&x,), b));
            }
            proof {
                let old_keep = keep;
                keep = keep.push(b);
                assert(orig.subrange(0, visited + 1).drop_last() =~= orig.subrange(
                    0,
                    visited as int,
                ));
                assert(keep.drop_last() =~= old_keep);
                assert(answered_by::<F, T>(&x, b));
                assert forall|i: int| 0 <= i < visited + 1 implies answered_by::<F, T>(
                    &orig[i],
                    #[trigger] keep[i],
                ) by {
                    if i < visited {
                        assert(keep[i] == old_keep[i]);
                    }
                }
                assert(pending@ =~= orig.subrange(visited + 1, orig.len() as int).reverse());
            }
            if b {
                self.data.push(x);
            }
            visited = visited + 1;
        }
        proof {
            assert(orig.subrange(0, orig.len() as int) =~= orig);
        }
    }

    /// Removes the elements at positions `start..end` and hands them out,
    /// in order, through the returned `Drain`.
    pub fn drain(&mut self, start: usize, end: usize) -> (d: Drain<T>)
        requires
            old(self).wf(),
            start <= end <= old(self)@.len(),
        ensures
            final(self).wf(),
            final(self)@ == old(self)@.subrange(0, start as int) + old(self)@.subrange(
                end as int,
                old(self)@.len() as int,
            ),
            final(self).spec_capacity() == old(self).spec_capacity(),
            d@ == old(self)@.subrange(start as int, end as int),
    {
        let mut tail = self.data.split_off(end);
        let mut removed = self.data.split_off(start);
        self.data.append(&mut tail);
        let ghost taken = removed@;
        let mut rev: Vec<T> = Vec::new();
        while removed.len() > 0
            invariant
                rev@ == taken.subrange(removed@.len() as int, taken.len() as int).reverse(),
                removed@ == taken.subrange(0, removed@.len() as int),
                removed@.len() <= taken.len(),
            decreases removed@.len(),
        {
            let ghost before = removed@;
            let x = removed.pop().unwrap();
            proof {
                assert(x == before[before.len() - 1]);
                assert(removed@ =~= taken.subrange(0, removed@.len() as int));
                assert(taken.subrange(removed@.len() as int, taken.len() as int) =~= seq![x].add(
                    taken.subrange(removed@.len() as int + 1, taken.len() as int),
                ));
            }
            rev.push(x);
            proof {
                assert(rev@ =~= taken.subrange(removed@.len() as int, taken.len() as int).reverse());
            }
        }
        proof {
            assert(taken.subrange(0, taken.len() as int) =~= taken);
            assert(rev@.reverse() =~= taken);
        }
        Drain { rev }
    }

    /// Moves as many elements as there is room for from the front of
    /// `other` to the back of `self`.
    pub fn append(&mut self, other: &mut FixedVec<T>)
        requires
            old(self).wf(),
            old(other).wf(),
        ensures
            final(self).wf(),
            final(other).wf(),
            ({
                let amount = if old(self).spec_capacity() - old(self)@.len() < old(other)@.len() {
                    old(self).spec_capacity() - old(self)@.len()
                } else {
                    old(other)@.len() as int
                };
                &&& final(self)@ == old(self)@ + old(other)@.subrange(0, amount)
                &&& final(other)@ == old(other)@.subrange(amount, old(other)@.len() as int)
            }),
            final(self).spec_capacity() == old(self).spec_capacity(),
            final(other).spec_capacity() == old(other).spec_capacity(),
    {
        let avail = self.available();
        let amount = if avail < other.len() {
            avail
        } else {
            other.len()
        };
        let mut rest = other.data.split_off(amount);
        std::mem::swap(&mut rest, &mut other.data);
        self.data.append(&mut rest);
    }

    /// Moves elements out of `source` into the back of `self` until either
    /// runs out.
    pub fn extend(&mut self, source: &mut Drain<T>)
        requires
            old(self).wf(),
        ensures
            final(self).wf(),
            ({
                let amount = if old(self).spec_capacity() - old(self)@.len() < old(source)@.len() {
                    old(self).spec_capacity() - old(self)@.len()
                } else {
                    old(source)@.len() as int
                };
                &&& final(self)@ == old(self)@ + old(source)@.subrange(0, amount)
                &&& final(source)@ == old(source)@.subrange(amount, old(source)@.len() as int)
            }),
            final(self).spec_capacity() == old(self).spec_capacity(),
    {
        let ghost s0 = self@;
        let ghost d0 = source@;
        let ghost amount = if self.cap - s0.len() < d0.len() {
            self.cap - s0.len()
        } else {
            d0.len() as int
        };
        let mut moved: usize = 0;
        while self.available() > 0
            invariant_except_break
                self.cap == old(self).cap,
                moved <= d0.len(),
                s0.len() + moved <= self.cap,
                self.data@ == s0 + d0.subrange(0, moved as int),
                source@ == d0.subrange(moved as int, d0.len() as int),
                source@.len() == d0.len() - moved,
                self.cap - s0.len() >= 0,
                amount == if self.cap - s0.len() < d0.len() {
                    self.cap - s0.len()
                } else {
                    d0.len() as int
                },
            ensures
                self.cap == old(self).cap,
                moved == amount,
                self.data@ == s0 + d0.subrange(0, moved as int),
                source@ == d0.subrange(moved as int, d0.len() as int),
            decreases self.cap - self.data@.len(),
        {
            let item = match source.next() {
                Some(item) => item,
                None => break,
            };
            self.data.push(item);
            moved = moved + 1;
            proof {
                assert(self.data@ =~= s0 + d0.subrange(0, moved as int));
                assert(source@ =~= d0.subrange(moved as int, d0.len() as int));
            }
        }
    }
}

impl<T: Clone> FixedVec<T> {
    /// Resizes in place so that the length is `new_len`, filling extra slots
    /// with clones of `value`; a smaller `new_len` truncates.
    pub fn resize(&mut self, new_len: usize, value: T)
        requires
            old(self).wf(),
            new_len <= old(self)@.len() || new_len <= old(self).spec_capacity(),
        ensures
            final(self).wf(),
            final(self)@.len() == new_len,
            final(self).spec_capacity() == old(self).spec_capacity(),
            forall|i: int|
                0 <= i < new_len && i < old(self)@.len() ==> #[trigger] final(self)@[i] == old(self)@[i],
            forall|i: int|
                old(self)@.len() <= i < new_len ==> cloned::<T>(value, #[trigger] final(self)@[i]),
    {
        if new_len <= self.len() {
            self.truncate(new_len);
            return;
        }
        self.data.resize(new_len, value);
        proof {
            assert forall|i: int| 0 <= i < old(self)@.len() implies #[trigger] self.data@[i] == old(self)@[i] by {
                assert(self.data@.subrange(0, old(self)@.len() as int)[i] == self.data@[i]);
            }
        }
    }

    /// Clones and appends all elements of `other`, which must fit in the
    /// remaining capacity. Returns the number of elements appended.
    pub fn extend_from_slice(&mut self, other: &[T]) -> (n: usize)
        requires
            old(self).wf(),
            other@.len() <= old(self).spec_capacity() - old(self)@.len(),
        ensures
            final(self).wf(),
            n == other@.len(),
            final(self)@.len() == old(self)@.len() + other@.len(),
            final(self).spec_capacity() == old(self).spec_capacity(),
            forall|i: int| 0 <= i < old(self)@.len() ==> #[trigger] final(self)@[i] == old(self)@[i],
            forall|i: int|
                0 <= i < other@.len() ==> cloned::<T>(
                    other@[i],
                    #[trigger] final(self)@[old(self)@.len() + i],
                ),
    {
        self.data.extend_from_slice(other);
        other.len()
    }
}

impl FixedVec<u8> {
    /// Copies as much of `buf` as fits and returns how many bytes were
    /// taken.
    pub fn write(&mut self, buf: &[u8]) -> (n: usize)
        requires
            old(self).wf(),
        ensures
            final(self).wf(),
            n == (if buf@.len() < old(self).spec_capacity() - old(self)@.len() {
                buf@.len() as int
            } else {
                old(self).spec_capacity() - old(self)@.len()
            }),
            final(self)@ == old(self)@ + buf@.subrange(0, n as int),
            final(self).spec_capacity() == old(self).spec_capacity(),
    {
        let remaining = self.available();
        if remaining == 0 {
            proof {
                assert(buf@.subrange(0, 0) =~= Seq::<u8>::empty());
                assert(self@ =~= self@ + buf@.subrange(0, 0));
            }
            return 0;
        }
        let take = if buf.len() < remaining {
            buf.len()
        } else {
            remaining
        };
        let mut i: usize = 0;
        while i < take
            invariant
                i <= take,
                take <= buf@.len(),
                self.cap == old(self).cap,
                old(self)@.len() + take <= self.cap,
                self.data@ == old(self)@ + buf@.subrange(0, i as int),
            decreases take - i,
        {
            self.data.push(buf[i]);
            i = i + 1;
            proof {
                assert(self.data@ =~= old(self)@ + buf@.subrange(0, i as int));
            }
        }
        take
    }

    /// Writes the buffers in order until one of them does not fit whole;
    /// returns the total number of bytes taken.
    pub fn write_vectored(&mut self, bufs: &[&[u8]]) -> (n: usize)
        requires
            old(self).wf(),
        ensures
            final(self).wf(),
            final(self).spec_capacity() == old(self).spec_capacity(),
            n == final(self)@.len() - old(self)@.len(),
            n == (if concat_len(bufs@, bufs@.len() as int) < old(self).spec_capacity() - old(
                self,
            )@.len() {
                concat_len(bufs@, bufs@.len() as int)
            } else {
                old(self).spec_capacity() - old(self)@.len()
            }),
            final(self)@ == old(self)@ + concat_prefix(bufs@, n as int),
    {
        let ghost room = old(self).spec_capacity() - old(self)@.len();
        let ghost all = concat_len(bufs@, bufs@.len() as int);
        let mut total: usize = 0;
        let mut i: usize = 0;
        while i < bufs.len()
            invariant_except_break
                i <= bufs@.len(),
                self@.len() == old(self)@.len() + total,
                self@ == old(self)@ + concat_prefix(bufs@, total as int),
                total == concat_len(bufs@, i as int),
                total <= room,
                room == old(self).spec_capacity() - old(self)@.len(),
                all == concat_len(bufs@, bufs@.len() as int),
                self.spec_capacity() == old(self).spec_capacity(),
                self.wf(),
            ensures
                self.wf(),
                self.spec_capacity() == old(self).spec_capacity(),
                self@.len() == old(self)@.len() + total,
                self@ == old(self)@ + concat_prefix(bufs@, total as int),
                total == (if all < room {
                    all
                } else {
                    room
                }),
            decreases bufs@.len() - i,
        {
            let buf = bufs[i];
            proof {
                assert(self.wf());
                lemma_concat_len_bound(bufs@, i as int);
                lemma_concat_len_mono(bufs@, i + 1, bufs@.len() as int);
            }
            let n = self.write(buf);
            proof {
                lemma_concat_prefix_step(bufs@, i as int, n as int);
            }
            total = total + n;
            if n != buf.len() {
                break;
            }
            i = i + 1;
        }
        total
    }
}

/// Total length of the first `k` buffers.
pub open spec fn concat_len(bufs: Seq<&[u8]>, k: int) -> int
    decreases k,
{
    if k <= 0 {
        0
    } else {
        concat_len(bufs, k - 1) + bufs[k - 1]@.len()
    }
}

/// The first `n` bytes of the concatenation of `bufs`.
pub open spec fn concat_prefix(bufs: Seq<&[u8]>, n: int) -> Seq<u8> {
    concat_all(bufs, bufs.len() as int).subrange(0, n)
}

/// Concatenation of the first `k` buffers.
pub open spec fn concat_all(bufs: Seq<&[u8]>, k: int) -> Seq<u8>
    decreases k,
{
    if k <= 0 {
        Seq::empty()
    } else {
        concat_all(bufs, k - 1) + bufs[k - 1]@
    }
}

proof fn lemma_concat_all_len(bufs: Seq<&[u8]>, k: int)
    requires
        0 <= k <= bufs.len(),
    ensures
        concat_all(bufs, k).len() == concat_len(bufs, k),
    decreases k,
{
    if k > 0 {
        lemma_concat_all_len(bufs, k - 1);
    }
}

proof fn lemma_concat_len_mono(bufs: Seq<&[u8]>, j: int, k: int)
    requires
        0 <= j <= k <= bufs.len(),
    ensures
        concat_len(bufs, j) <= concat_len(bufs, k),
    decreases k - j,
{
    if j < k {
        lemma_concat_len_mono(bufs, j, k - 1);
    }
}

proof fn lemma_concat_all_prefix(bufs: Seq<&[u8]>, j: int, k: int)
    requires
        0 <= j <= k <= bufs.len(),
    ensures
        concat_all(bufs, k).subrange(0, concat_len(bufs, j)) == concat_all(bufs, j),
    decreases k - j,
{
    lemma_concat_all_len(bufs, j);
    lemma_concat_all_len(bufs, k);
    if j == k {
        assert(concat_all(bufs, k).subrange(0, concat_len(bufs, k)) =~= concat_all(bufs, k));
    } else {
        lemma_concat_all_prefix(bufs, j, k - 1);
        lemma_concat_all_len(bufs, k - 1);
        lemma_concat_len_mono(bufs, j, k - 1);
        assert(concat_all(bufs, k).subrange(0, concat_len(bufs, j)) =~= concat_all(
            bufs,
            k - 1,
        ).subrange(0, concat_len(bufs, j)));
    }
}

proof fn lemma_concat_len_bound(bufs: Seq<&[u8]>, i: int)
    requires
        0 <= i < bufs.len(),
    ensures
        concat_len(bufs, i) + bufs[i]@.len() == concat_len(bufs, i + 1),
{
}

proof fn lemma_concat_prefix_step(bufs: Seq<&[u8]>, i: int, n: int)
    requires
        0 <= i < bufs.len(),
        0 <= n <= bufs[i]@.len(),
    ensures
        concat_prefix(bufs, concat_len(bufs, i)) + bufs[i]@.subrange(0, n) == concat_prefix(
            bufs,
            concat_len(bufs, i) + n,
        ),
{
    let len = bufs.len() as int;
    lemma_concat_all_prefix(bufs, i, len);
    lemma_concat_all_prefix(bufs, i + 1, len);
    lemma_concat_all_len(bufs, i);
    lemma_concat_all_len(bufs, i + 1);
    lemma_concat_all_len(bufs, len);
    lemma_concat_len_mono(bufs, i + 1, len);
    let whole = concat_all(bufs, len);
    let upto = concat_len(bufs, i);
    assert(whole.subrange(0, upto + bufs[i]@.len()) == concat_all(bufs, i) + bufs[i]@);
    assert(whole.subrange(0, upto + n) =~= whole.subrange(0, upto + bufs[i]@.len()).subrange(
        0,
        upto + n,
    ));
    assert(whole.subrange(0, upto) + bufs[i]@.subrange(0, n) =~= whole.subrange(0, upto + n));
}

/// The elements taken out of a `FixedVec` by `drain`, handed out in order.
pub struct Drain<T> {
    /// The remaining elements, last one first.
    rev: Vec<T>,
}

impl<T> View for Drain<T> {
    type V = Seq<T>;

    /// The elements not yet handed out, in order.
    closed spec fn view(&self) -> Seq<T> {
        self.rev@.reverse()
    }
}

impl<T> Drain<T> {
    /// The next element, or `None` once all have been handed out.
    pub fn next(&mut self) -> (r: Option<T>)
        ensures
            old(self)@.len() == 0 ==> r is None && final(self)@ == old(self)@,
            old(self)@.len() > 0 ==> r == Some(old(self)@[0]) && final(self)@ == old(self)@.drop_first(),
    {
        let r = self.rev.pop();
        proof {
            if old(self)@.len() > 0 {
                assert(self@ =~= old(self)@.drop_first());
            }
        }
        r
    }
}

/// A `FixedVec` never holds more elements than the capacity it was made
/// with.
pub proof fn law_len_within_capacity<T>(v: FixedVec<T>)
    requires
        v.wf(),
    ensures
        v@.len() <= v.spec_capacity(),
{
}

/// Pushing onto a vector with room and popping right after gives back the
/// pushed element and the vector as it was, capacity included.
pub proof fn law_push_then_pop<T>(
    before: FixedVec<T>,
    mid: FixedVec<T>,
    after: FixedVec<T>,
    value: T,
    pushed: Result<(), T>,
    popped: Option<T>,
)
    requires
        before.wf(),
        before@.len() < before.spec_capacity(),
        mid.wf(),
        mid.spec_capacity() == before.spec_capacity(),
        before@.len() < before.spec_capacity() ==> pushed is Ok && mid@ == before@.push(value),
        after.spec_capacity() == mid.spec_capacity(),
        mid@.len() == 0 ==> popped is None && after@ == mid@,
        mid@.len() > 0 ==> popped == Some(mid@.last()) && after@ == mid@.drop_last(),
    ensures
        pushed is Ok,
        popped == Some(value),
        after@ == before@,
        after.spec_capacity() == before.spec_capacity(),
{
    assert(after@ =~= before@);
}

/// Pushing onto a full vector hands the element back and leaves the vector
/// as it was.
pub proof fn law_push_full<T>(before: FixedVec<T>, after: FixedVec<T>, value: T, pushed: Result<(), T>)
    requires
        before.wf(),
        before@.len() == before.spec_capacity(),
        before@.len() >= before.spec_capacity() ==> pushed == Err::<(), T>(value) && after@ == before@,
    ensures
        pushed == Err::<(), T>(value),
        after@ == before@,
{
}

/// Inserting at `index` and removing at `index` right after gives back the
/// inserted element and the vector as it was.
pub proof fn law_insert_then_remove<T>(
    before: FixedVec<T>,
    mid: FixedVec<T>,
    after: FixedVec<T>,
    index: usize,
    value: T,
    removed: T,
)
    requires
        before.wf(),
        index <= before@.len(),
        before@.len() < before.spec_capacity(),
        mid@ == before@.insert(index as int, value),
        removed == mid@[index as int],
        after@ == mid@.remove(index as int),
    ensures
        removed == value,
        after@ == before@,
{
    assert(after@ =~= before@);
}

/// Removing by swapping keeps the other elements: the removed element is
/// gone, the last one moves into its place, and the length drops by one.
pub proof fn law_swap_remove_keeps_others<T>(
    before: FixedVec<T>,
    after: FixedVec<T>,
    index: usize,
    removed: T,
)
    requires
        before.wf(),
        index < before@.len(),
        removed == before@[index as int],
        after@ == before@.update(index as int, before@.last()).drop_last(),
    ensures
        after@.len() + 1 == before@.len(),
        forall|i: int| 0 <= i < after@.len() && i != index ==> after@[i] == before@[i],
        index < after@.len() ==> after@[index as int] == before@.last(),
        removed == before@[index as int],
{
}

/// However many operations follow `with_capacity(c)`, the vector keeps
/// capacity `c`, never holds more than `c` elements, and so has room for
/// exactly `c - len` more. Each step is what every operation's contract
/// gives: well-formedness and capacity are kept.
pub proof fn law_capacity_over_history<T>(states: Seq<FixedVec<T>>, c: nat)
    requires
        states.len() >= 1,
        states[0].wf(),
        states[0]@.len() == 0,
        states[0].spec_capacity() == c,
        forall|k: int|
            0 <= k < states.len() - 1 ==> (#[trigger] states[k].wf() ==> states[k + 1].wf()
                && states[k + 1].spec_capacity() == states[k].spec_capacity()),
    ensures
        forall|k: int|
            #![trigger states[k]]
            0 <= k < states.len() ==> (states[k].wf() && states[k].spec_capacity() == c
                && states[k]@.len() <= c),
{
    assert forall|k: int|
        #![trigger states[k]]
        0 <= k < states.len() implies (states[k].wf() && states[k].spec_capacity() == c
            && states[k]@.len() <= c) by {
        lemma_history_step(states, c, k);
    }
}

proof fn lemma_history_step<T>(states: Seq<FixedVec<T>>, c: nat, k: int)
    requires
        states.len() >= 1,
        states[0].wf(),
        states[0].spec_capacity() == c,
        forall|k: int|
            0 <= k < states.len() - 1 ==> (#[trigger] states[k].wf() ==> states[k + 1].wf()
                && states[k + 1].spec_capacity() == states[k].spec_capacity()),
        0 <= k < states.len(),
    ensures
        states[k].wf(),
        states[k].spec_capacity() == c,
        states[k]@.len() <= c,
    decreases k,
{
    if k > 0 {
        lemma_history_step(states, c, k - 1);
        assert(states[k - 1].wf());
    }
}

} // verus!
