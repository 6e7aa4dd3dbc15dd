use vstd::prelude::*;

verus! {

/// `mask` is one less than a power of two, and a valid ring mask.
pub open spec fn is_ring_mask(mask: usize) -> bool {
    &&& mask < usize::MAX
    &&& mask & ((mask + 1) as usize) == 0
}

/// Where element `index` of a ring view starting at `offset` lives in the
/// backing storage.
pub open spec fn ring_pos(offset: usize, index: int, mask: usize) -> int {
    (((offset + index) as usize) & mask) as int
}

proof fn lemma_mask_below(x: usize, mask: usize)
    ensures
        x & mask <= mask,
{
    assert(x & mask <= mask) by (bit_vector);
}

proof fn lemma_mask_identity(x: usize, mask: usize)
    requires
        is_ring_mask(mask),
        x <= mask,
    ensures
        x & mask == x,
{
    assert(((mask + 1) as usize) > mask);
    assert(x & mask == x) by (bit_vector)
        requires
            ((mask + 1) as usize) > mask,
            mask & ((mask + 1) as usize) == 0,
            x <= mask,
    ;
}

proof fn lemma_mask_wrap(x: usize, mask: usize)
    requires
        is_ring_mask(mask),
        mask < x,
        x - mask - 1 <= mask,
    ensures
        x & mask == x - mask - 1,
{
    assert(((mask + 1) as usize) > mask);
    assert(x & mask == x - mask - 1) by (bit_vector)
        requires
            ((mask + 1) as usize) > mask,
            mask & ((mask + 1) as usize) == 0,
            mask < x,
            x - mask - 1 <= mask,
    ;
}

proof fn lemma_mask_injective(x: usize, y: usize, mask: usize)
    requires
        is_ring_mask(mask),
        x < y,
        y - x <= mask,
    ensures
        x & mask != y & mask,
{
    assert(((mask + 1) as usize) > mask);
    assert(x & mask != y & mask) by (bit_vector)
        requires
            ((mask + 1) as usize) > mask,
            mask & ((mask + 1) as usize) == 0,
            x < y,
            y - x <= mask,
    ;
}

/// A view of at most a ring's worth of entries never shows a slot twice:
/// distinct entries live in distinct slots of the backing storage, and
/// every entry lives inside it.
pub proof fn law_ring_positions_distinct(offset: usize, mask: usize, i: int, j: int)
    requires
        is_ring_mask(mask),
        0 <= i < j <= mask,
        offset + j <= usize::MAX,
    ensures
        ring_pos(offset, i, mask) != ring_pos(offset, j, mask),
        0 <= ring_pos(offset, i, mask) <= mask,
        0 <= ring_pos(offset, j, mask) <= mask,
{
    lemma_mask_injective((offset + i) as usize, (offset + j) as usize, mask);
    lemma_mask_below((offset + i) as usize, mask);
    lemma_mask_below((offset + j) as usize, mask);
}

/// The entries of a view of `size` slots of `backing` starting at `offset`.
pub open spec fn ring_entries<T>(backing: Seq<T>, offset: usize, size: nat, mask: usize) -> Seq<T> {
    Seq::new(size, |i: int| backing[ring_pos(offset, i, mask)])
}

/// Writing the slot behind entry `index` changes that entry alone.
proof fn lemma_ring_entries_update<T>(backing: Seq<T>, offset: usize, size: nat, mask: usize, index: int)
    requires
        is_ring_mask(mask),
        size <= mask + 1,
        offset + size <= usize::MAX,
        0 <= index < size,
        backing.len() == mask + 1,
    ensures
        forall|x: T| #[trigger] ring_entries(backing.update(ring_pos(offset, index, mask), x), offset, size, mask)
            == ring_entries(backing, offset, size, mask).update(index, x),
{
    assert forall|x: T| #[trigger] ring_entries(backing.update(ring_pos(offset, index, mask), x), offset, size, mask)
        =~= ring_entries(backing, offset, size, mask).update(index, x) by {
        assert forall|i: int| 0 <= i < size && i != index implies ring_pos(offset, i, mask) != ring_pos(offset, index, mask) by {
            if i < index {
                lemma_mask_injective((offset + i) as usize, (offset + index) as usize, mask);
            } else {
                lemma_mask_injective((offset + index) as usize, (offset + i) as usize, mask);
            }
        }
        assert forall|i: int| 0 <= i < size implies 0 <= #[trigger] ring_pos(offset, i, mask) < backing.len() by {
            lemma_mask_below((offset + i) as usize, mask);
        }
    }
}

/// A read-only view of `size` consecutive entries of a ring buffer,
/// starting at `offset` and wrapping around the backing storage.
#[derive(Copy, Clone)]
pub struct RingBuf<'a, T> {
    data: &'a [T],
    offset: usize,
    size: usize,
    mask: usize,
}

impl<'a, T> RingBuf<'a, T> {
    pub closed spec fn wf(&self) -> bool {
        &&& is_ring_mask(self.mask)
        &&& self.data@.len() == self.mask + 1
        &&& self.size <= self.mask + 1
        &&& self.offset + self.size <= usize::MAX
    }

    pub closed spec fn spec_offset(&self) -> usize {
        self.offset
    }

    pub closed spec fn spec_mask(&self) -> usize {
        self.mask
    }

    /// The backing storage.
    pub closed spec fn backing(&self) -> Seq<T> {
        self.data@
    }

    /// The entries of the view, in order.
    pub open spec fn entries(&self) -> Seq<T> {
        ring_entries(self.backing(), self.spec_offset(), self.spec_len(), self.spec_mask())
    }

    pub closed spec fn spec_len(&self) -> nat {
        self.size as nat
    }

    /// A view of `size` entries of `data` starting at `offset`; `mask + 1`
    /// is the size of the ring, a power of two.
    pub fn new(data: &'a [T], offset: usize, size: usize, mask: usize) -> (r: Self)
        requires
            is_ring_mask(mask),
            data@.len() == mask + 1,
            size <= mask + 1,
            offset + size <= usize::MAX,
        ensures
            r.wf(),
            r.backing() == data@,
            r.spec_offset() == offset,
            r.spec_mask() == mask,
            r.spec_len() == size,
    {
        RingBuf { data, offset, size, mask }
    }

    #[inline]
    pub fn len(&self) -> (n: usize)
        ensures
            n == self.spec_len(),
    {
        self.size
    }

    /// The entry `index` steps past the start, whether or not it is within
    /// the view.
    pub fn get_unchecked(&self, index: usize) -> (r: &'a T)
        requires
            self.wf(),
            self.spec_offset() + index <= usize::MAX,
        ensures
            *r == self.backing()[ring_pos(self.spec_offset(), index as int, self.spec_mask())],
    {
        proof {
            lemma_mask_below((self.offset + index) as usize, self.mask);
        }
        &self.data[(self.offset + index) & self.mask]
    }

    /// The entry at `index`, if it is within the view.
    pub fn get(&self, index: usize) -> (r: Option<&'a T>)
        requires
            self.wf(),
        ensures
            index < self.spec_len() ==> r == Some(&self.entries()[index as int]),
            index >= self.spec_len() ==> r is None,
    {
        if index >= self.len() {
            return None;
        }
        Some(self.get_unchecked(index))
    }

    /// The entries as two slices of the backing storage: the part up to the
    /// end of the storage and the part that wrapped around to its start.
    pub fn as_slices(&self) -> (r: (&'a [T], &'a [T]))
        requires
            self.wf(),
            self.spec_offset() <= self.spec_mask(),
        ensures
            r.0@ + r.1@ == self.entries(),
    {
        let end = self.offset + self.size;
        proof {
            if end <= self.mask {
                lemma_mask_identity(end, self.mask);
            } else {
                lemma_mask_wrap(end, self.mask);
            }
        }
        let (s1, s2): (&'a [T], &'a [T]) = if end & self.mask == end {
            (vstd::slice::slice_subrange(self.data, self.offset, end), vstd::slice::slice_subrange(self.data, 0, 0))
        } else {
            (
                vstd::slice::slice_subrange(self.data, self.offset, self.mask + 1),
                vstd::slice::slice_subrange(self.data, 0, end & self.mask),
            )
        };
        proof {
            let e = self.entries();
            assert forall|i: int| 0 <= i < e.len() implies #[trigger] (s1@ + s2@)[i] == e[i] by {
                let x = (self.offset + i) as usize;
                if x <= self.mask {
                    lemma_mask_identity(x, self.mask);
                } else {
                    lemma_mask_wrap(x, self.mask);
                }
            }
            assert(s1@ + s2@ =~= e);
        }
        (s1, s2)
    }

    /// References to the entries, in order.
    pub fn iter(&self) -> (r: Vec<&'a T>)
        requires
            self.wf(),
            self.spec_offset() <= self.spec_mask(),
        ensures
            r@.len() == self.entries().len(),
            forall|i: int| 0 <= i < r@.len() ==> *r@[i] == self.entries()[i],
    {
        let (s1, s2) = self.as_slices();
        let ghost both = s1@ + s2@;
        let mut out: Vec<&'a T> = Vec::new();
        let mut i: usize = 0;
        while i < s1.len()
            invariant
                i <= s1@.len(),
                both == s1@ + s2@,
                out@.len() == i,
                forall|k: int| 0 <= k < i ==> *out@[k] == both[k],
            decreases s1@.len() - i,
        {
            out.push(&s1[i]);
            i = i + 1;
        }
        let mut j: usize = 0;
        while j < s2.len()
            invariant
                j <= s2@.len(),
                both == s1@ + s2@,
                out@.len() == s1@.len() + j,
                forall|k: int| 0 <= k < out@.len() ==> *out@[k] == both[k],
            decreases s2@.len() - j,
        {
            out.push(&s2[j]);
            j = j + 1;
        }
        out
    }
}


/// A mutable view of `size` consecutive entries of a ring buffer, starting
/// at `offset` and wrapping around the backing storage.
pub struct RingBufMut<'a, T> {
    data: &'a mut [T],
    offset: usize,
    size: usize,
    mask: usize,
}

impl<'a, T> RingBufMut<'a, T> {
    pub closed spec fn wf(&self) -> bool {
        &&& is_ring_mask(self.mask)
        &&& self.data@.len() == self.mask + 1
        &&& self.size <= self.mask + 1
        &&& self.offset + self.size <= usize::MAX
    }

    pub closed spec fn spec_offset(&self) -> usize {
        self.offset
    }

    pub closed spec fn spec_mask(&self) -> usize {
        self.mask
    }

    /// The backing storage.
    pub closed spec fn backing(&self) -> Seq<T> {
        self.data@
    }

    pub closed spec fn spec_len(&self) -> nat {
        self.size as nat
    }

    /// The entries of the view, in order.
    pub open spec fn entries(&self) -> Seq<T> {
        ring_entries(self.backing(), self.spec_offset(), self.spec_len(), self.spec_mask())
    }

    /// A view of `size` entries of `data` starting at `offset`; `mask + 1`
    /// is the size of the ring, a power of two.
    pub fn new(data: &'a mut [T], offset: usize, size: usize, mask: usize) -> (r: Self)
        requires
            is_ring_mask(mask),
            old(data)@.len() == mask + 1,
            size <= mask + 1,
            offset + size <= usize::MAX,
        ensures
            r.wf(),
            r.backing() == old(data)@,
            r.spec_offset() == offset,
            r.spec_mask() == mask,
            r.spec_len() == size,
    {
        RingBufMut { data, offset, size, mask }
    }

    #[inline]
    pub fn len(&self) -> (n: usize)
        ensures
            n == self.spec_len(),
    {
        self.size
    }

    /// The entry `index` steps past the start, whether or not it is within
    /// the view.
    pub fn get_unchecked_mut(&mut self, index: usize) -> (r: &mut T)
        requires
            old(self).wf(),
            old(self).spec_offset() + index <= usize::MAX,
        ensures
            *r == old(self).backing()[ring_pos(old(self).spec_offset(), index as int, old(self).spec_mask())],
            final(self).backing() == old(self).backing().update(
                ring_pos(old(self).spec_offset(), index as int, old(self).spec_mask()),
                *final(r),
            ),
            final(self).spec_offset() == old(self).spec_offset(),
            final(self).spec_mask() == old(self).spec_mask(),
            final(self).spec_len() == old(self).spec_len(),
            final(self).wf(),
    {
        proof {
            lemma_mask_below((self.offset + index) as usize, self.mask);
        }
        let pos = (self.offset + index) & self.mask;
        &mut self.data[pos]
    }

    /// The entry at `index`, if it is within the view.
    pub fn get_mut(&mut self, index: usize) -> (r: Option<&mut T>)
        requires
            old(self).wf(),
        ensures
            index >= old(self).spec_len() ==> r is None && *final(self) == *old(self),
            index < old(self).spec_len() ==> (r matches Some(v) && *v == old(self).entries()[index as int]
                && final(self).entries() == old(self).entries().update(index as int, *final(v))),
            final(self).spec_offset() == old(self).spec_offset(),
            final(self).spec_mask() == old(self).spec_mask(),
            final(self).spec_len() == old(self).spec_len(),
            final(self).wf(),
    {
        if index >= self.len() {
            return None;
        }
        proof {
            lemma_ring_entries_update(self.data@, self.offset, self.size as nat, self.mask, index as int);
            assert(self.entries() == ring_entries(self.data@, self.offset, self.size as nat, self.mask));
        }
        Some(self.get_unchecked_mut(index))
    }

    /// A read-only view of the same entries.
    pub fn as_ring_buf(&self) -> (r: RingBuf<'_, T>)
        requires
            self.wf(),
        ensures
            r.wf(),
            r.backing() == self.backing(),
            r.spec_offset() == self.spec_offset(),
            r.spec_mask() == self.spec_mask(),
            r.spec_len() == self.spec_len(),
            r.entries() == self.entries(),
    {
        let r = RingBuf::new(&*self.data, self.offset, self.size, self.mask);
        assert(r.entries() =~= self.entries());
        r
    }
}

} // verus!
