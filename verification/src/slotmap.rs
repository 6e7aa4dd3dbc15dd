use vstd::prelude::*;

verus! {

/// Marks the end of the free list.
pub const SENTINEL: usize = usize::MAX;

/// Number of slots allocated at once; slots never move once allocated.
pub const SLABSIZE: usize = 1024;

/// A slot: either an element or a link to the next free slot.
pub enum Entry<T> {
    Element(T),
    Link(usize),
}

/// Slotmap with stable addresses.
///
/// Slots are allocated in slabs of `SLABSIZE` entries which are never
/// reallocated, so an element keeps its address while others are inserted
/// and removed. Free slots form a singly linked list starting at `head`.
pub struct StableSlotmap<T> {
    slabs: Vec<Vec<Entry<T>>>,
    head: usize,
    size: usize,
    /// The free list, in the order in which it is linked.
    free: Ghost<Seq<usize>>,
}

/// Where slot `i` lives: its slab and its position within the slab.
pub proof fn lemma_slot_position(i: int, n: int)
    requires
        0 <= i < n * (SLABSIZE as int),
    ensures
        0 <= i / (SLABSIZE as int) < n,
        0 <= i % (SLABSIZE as int) < SLABSIZE as int,
{
    assert(0 <= i / 1024 < n && 0 <= i % 1024 < 1024) by (nonlinear_arith)
        requires
            0 <= i < n * 1024,
    ;
}

/// The slots of a freshly appended slab are found in that slab.
pub proof fn lemma_new_slab_position(n: int, k: int)
    requires
        0 <= n,
        0 <= k < SLABSIZE as int,
    ensures
        (n * (SLABSIZE as int) + k) / (SLABSIZE as int) == n,
        (n * (SLABSIZE as int) + k) % (SLABSIZE as int) == k,
{
    assert((n * 1024 + k) / 1024 == n && (n * 1024 + k) % 1024 == k) by (nonlinear_arith)
        requires
            0 <= n,
            0 <= k < 1024,
    ;
}

impl<T> StableSlotmap<T> {
    /// Number of slots allocated so far.
    pub closed spec fn slot_count(&self) -> int {
        self.slabs@.len() * (SLABSIZE as int)
    }

    /// The entry at slot `i`.
    pub closed spec fn slot(&self, i: int) -> Entry<T> {
        self.slabs@[i / (SLABSIZE as int)]@[i % (SLABSIZE as int)]
    }

    pub closed spec fn is_element(&self, i: int) -> bool {
        0 <= i < self.slot_count() && self.slot(i) is Element
    }

    pub closed spec fn element(&self, i: int) -> T {
        match self.slot(i) {
            Entry::Element(v) => v,
            Entry::Link(_) => arbitrary(),
        }
    }

    /// The free slot that follows position `k` of the free list.
    closed spec fn next_free(&self, k: int) -> usize {
        if k + 1 < self.free@.len() {
            self.free@[k + 1]
        } else {
            SENTINEL
        }
    }

    /// Well-formedness: slab shape, the free list links exactly the free
    /// slots, and the element count.
    pub closed spec fn wf(&self) -> bool {
        &&& forall|j: int| 0 <= j < self.slabs@.len() ==> (#[trigger] self.slabs@[j])@.len()
            == SLABSIZE
        &&& self.slot_count() <= SENTINEL
        &&& self.head == (if self.free@.len() == 0 {
            SENTINEL
        } else {
            self.free@[0]
        })
        &&& forall|k: int|
            0 <= k < self.free@.len() ==> (#[trigger] self.free@[k] as int) < self.slot_count()
                && self.slot(self.free@[k] as int) == Entry::<T>::Link(self.next_free(k))
        &&& self.free@.no_duplicates()
        &&& forall|i: int|
            0 <= i < self.slot_count() && (#[trigger] self.slot(i)) is Link ==> self.free@.contains(
                i as usize,
            )
        &&& self.size + self.free@.len() == self.slot_count()
        &&& self@.dom().finite()
        &&& self@.dom().len() == self.size
    }

    /// The index that the next `insert` will hand out, if a free slot exists.
    pub closed spec fn next_index(&self) -> Option<usize> {
        if self.head == SENTINEL {
            None
        } else {
            Some(self.head)
        }
    }
}

impl<T> View for StableSlotmap<T> {
    type V = Map<usize, T>;

    /// The elements, keyed by their index.
    closed spec fn view(&self) -> Map<usize, T> {
        Map::new(|i: usize| self.is_element(i as int), |i: usize| self.element(i as int))
    }
}

/// A fresh slab whose slots link to each other in order, the last one to
/// `head`.
fn create_slab<T>(head: usize, base: usize) -> (slab: Vec<Entry<T>>)
    requires
        base + SLABSIZE <= usize::MAX,
    ensures
        slab@.len() == SLABSIZE,
        forall|k: int| 0 <= k < SLABSIZE - 1 ==> #[trigger] slab@[k] == Entry::<T>::Link(
            (base + k + 1) as usize,
        ),
        slab@[SLABSIZE - 1] == Entry::<T>::Link(head),
{
    let mut slab: Vec<Entry<T>> = Vec::with_capacity(SLABSIZE);
    let mut i: usize = 0;
    while i < SLABSIZE - 1
        invariant
            i <= SLABSIZE - 1,
            base + SLABSIZE <= usize::MAX,
            slab@.len() == i,
            forall|k: int| 0 <= k < i ==> #[trigger] slab@[k] == Entry::<T>::Link(
                (base + k + 1) as usize,
            ),
        decreases SLABSIZE - 1 - i,
    {
        slab.push(Entry::Link(base + i + 1));
        i = i + 1;
    }
    slab.push(Entry::Link(head));
    slab
}

impl<T> StableSlotmap<T> {
    /// Writing one slot leaves every other slot and the slab shape unchanged.
    proof fn lemma_single_slot_changed(a: Self, b: Self, index: int)
        requires
            a.wf(),
            0 <= index < a.slot_count(),
            b.slabs@.len() == a.slabs@.len(),
            forall|j: int|
                0 <= j < a.slabs@.len() && j != index / (SLABSIZE as int) ==> #[trigger] b.slabs@[j]
                    == a.slabs@[j],
            b.slabs@[index / (SLABSIZE as int)]@ == a.slabs@[index / (SLABSIZE as int)]@.update(
                index % (SLABSIZE as int),
                b.slot(index),
            ),
        ensures
            b.slot_count() == a.slot_count(),
            forall|i: int|
                0 <= i < b.slot_count() && i != index ==> #[trigger] b.slot(i) == a.slot(i),
            forall|j: int| 0 <= j < b.slabs@.len() ==> (#[trigger] b.slabs@[j])@.len() == SLABSIZE,
    {
        let n = a.slabs@.len() as int;
        let s = index / 1024;
        let k = index % 1024;
        lemma_slot_position(index, n);
        assert forall|i: int| 0 <= i < b.slot_count() && i != index implies #[trigger] b.slot(i)
            == a.slot(i) by {
            lemma_slot_position(i, n);
            if i / 1024 == s {
                assert(i % 1024 != k) by (nonlinear_arith)
                    requires
                        i / 1024 == index / 1024,
                        i != index,
                        k == index % 1024,
                ;
            }
        }
        assert forall|j: int| 0 <= j < b.slabs@.len() implies (#[trigger] b.slabs@[j])@.len()
            == SLABSIZE by {
            assert(a.slabs@[j]@.len() == SLABSIZE);
        }
    }

    /// Rewriting the element held in slot `index` keeps the slotmap well
    /// formed and updates that key of the view.
    proof fn lemma_element_rewrite(a: Self, index: int)
        requires
            a.wf(),
            0 <= index < a.slot_count(),
        ensures
            forall|b: Self|
                #![trigger b.wf()]
                #![trigger b.view()]
                Self::rewrites_element(a, b, index) ==> b.wf() && b@ == a@.insert(
                    index as usize,
                    b.element(index),
                ),
    {
        assert forall|b: Self| #[trigger] Self::rewrites_element(a, b, index) implies b.wf()
            && b@ == a@.insert(index as usize, b.element(index)) by {
            Self::lemma_single_slot_changed(a, b, index);
            assert(a.slot(index) is Element);
            assert forall|i: int| 0 <= i < b.slot_count() && (#[trigger] b.slot(i)) is Link implies b.free@.contains(
                i as usize,
            ) by {
                assert(i != index);
                assert(a.slot(i) is Link);
            }
            assert forall|q: int| 0 <= q < b.free@.len() implies (#[trigger] b.free@[q] as int)
                < b.slot_count() && b.slot(b.free@[q] as int) == Entry::<T>::Link(b.next_free(q)) by {
                assert(a.slot(a.free@[q] as int) is Link);
                assert(a.free@[q] as int != index);
            }
            assert(b@ =~= a@.insert(index as usize, b.element(index)));
        }
    }

    /// `b` is `a` with a new element in the element slot `index`.
    closed spec fn rewrites_element(a: Self, b: Self, index: int) -> bool {
        &&& a.slot(index) is Element
        &&& b.head == a.head
        &&& b.size == a.size
        &&& b.free == a.free
        &&& b.slabs@.len() == a.slabs@.len()
        &&& forall|j: int|
            0 <= j < a.slabs@.len() && j != index / (SLABSIZE as int) ==> #[trigger] b.slabs@[j]
                == a.slabs@[j]
        &&& b.slot(index) is Element
        &&& b.slabs@[index / (SLABSIZE as int)]@ == a.slabs@[index / (SLABSIZE as int)]@.update(
            index % (SLABSIZE as int),
            b.slot(index),
        )
    }

    /// Freeing the element slot `index` and pushing it on the free list keeps
    /// the slotmap well formed and removes `index` from its view.
    proof fn lemma_remove_wf(mid: Self, new: Self, index: usize)
        requires
            mid.wf(),
            mid.is_element(index as int),
            new.slot_count() == mid.slot_count(),
            forall|i: int|
                0 <= i < new.slot_count() && i != index ==> #[trigger] new.slot(i) == mid.slot(i),
            forall|j: int| 0 <= j < new.slabs@.len() ==> (#[trigger] new.slabs@[j])@.len() == SLABSIZE,
            new.slot(index as int) == Entry::<T>::Link(mid.head),
            new.head == index,
            new.size + 1 == mid.size,
            new.free@ == seq![index].add(mid.free@),
        ensures
            new.wf(),
            new@ == mid@.remove(index),
    {
        assert(!mid.free@.contains(index)) by {
            if mid.free@.contains(index) {
                let q = choose|q: int| 0 <= q < mid.free@.len() && mid.free@[q] == index;
                assert(mid.slot(mid.free@[q] as int) is Link);
            }
        }
        let nf = new.free@;
        assert forall|q: int| 0 <= q < nf.len() implies (#[trigger] nf[q] as int)
            < new.slot_count() && new.slot(nf[q] as int) == Entry::<T>::Link(new.next_free(q)) by {
            if q == 0 {
                assert(nf[0] == index);
            } else {
                assert(nf[q] == mid.free@[q - 1]);
                assert(mid.next_free(q - 1) == new.next_free(q));
            }
        }
        assert forall|a: int, b: int|
            0 <= a < nf.len() && 0 <= b < nf.len() && a != b implies nf[a] != nf[b] by {
            if a > 0 && b > 0 {
                assert(mid.free@[a - 1] != mid.free@[b - 1]);
            } else if a == 0 {
                assert(nf[b] == mid.free@[b - 1]);
            } else {
                assert(nf[a] == mid.free@[a - 1]);
            }
        }
        assert forall|i: int|
            0 <= i < new.slot_count() && (#[trigger] new.slot(i)) is Link implies nf.contains(
            i as usize,
        ) by {
            if i == index {
                assert(nf[0] == index);
            } else {
                assert(mid.slot(i) is Link);
                assert(mid.free@.contains(i as usize));
                let q = choose|q: int| 0 <= q < mid.free@.len() && mid.free@[q] == i as usize;
                assert(nf[q + 1] == i as usize);
            }
        }
        assert(new@ =~= mid@.remove(index));
    }
}

impl<T> StableSlotmap<T> {
    /// An empty slotmap.
    pub fn new() -> (s: Self)
        ensures
            s.wf(),
            s@ == Map::<usize, T>::empty(),
            s@.dom().finite(),
            s.next_index() is None,
            s.slot_count() == 0,
    {
        let s = Self { slabs: Vec::new(), head: SENTINEL, size: 0, free: Ghost(Seq::empty()) };
        assert(s@ =~= Map::<usize, T>::empty());
        s
    }

    /// The number of elements.
    #[inline]
    pub fn len(&self) -> (n: usize)
        requires
            self.wf(),
        ensures
            n == self@.len(),
    {
        self.size
    }

    /// Whether there are no elements.
    #[inline]
    pub fn is_empty(&self) -> (b: bool)
        requires
            self.wf(),
        ensures
            b == (self@.len() == 0),
    {
        self.len() == 0
    }

    /// The slot at `index`, if it has been allocated.
    fn slot_at(&self, index: usize) -> (e: Option<&Entry<T>>)
        requires
            self.wf(),
        ensures
            (index as int) < self.slot_count() ==> e == Some(&self.slot(index as int)),
            (index as int) >= self.slot_count() ==> e is None,
    {
        let s = index / SLABSIZE;
        if s < self.slabs.len() {
            proof {
                assert(index as int / 1024 < self.slabs@.len() ==> (index as int) < self.slot_count())
                    by (nonlinear_arith)
                    requires
                        self.slot_count() == self.slabs@.len() * 1024,
                ;
            }
            Some(&self.slabs[s][index % SLABSIZE])
        } else {
            proof {
                assert(index as int / 1024 >= self.slabs@.len() ==> (index as int)
                    >= self.slot_count()) by (nonlinear_arith)
                    requires
                        self.slot_count() == self.slabs@.len() * 1024,
                ;
            }
            None
        }
    }

    /// Append a slab of free slots and put them at the front of the free
    /// list.
    #[verifier::rlimit(100)]
    #[verifier::spinoff_prover]
    fn expand(&mut self)
        requires
            old(self).wf(),
            old(self).slot_count() + SLABSIZE <= usize::MAX,
        ensures
            final(self).wf(),
            final(self)@ == old(self)@,
            final(self).head != SENTINEL,
            final(self).head == old(self).slot_count(),
            final(self).slot_count() == old(self).slot_count() + SLABSIZE,
            final(self).size == old(self).size,
            final(self).free@.len() >= 2,
            final(self).free@[1] == (old(self).slot_count() + 1) as usize,
    {
        let n = self.slabs.len();
        proof {
            assert(n * 1024 + 1024 <= usize::MAX ==> n * 1024 <= usize::MAX) by (nonlinear_arith);
        }
        let base = n * SLABSIZE;
        let slab = create_slab(self.head, base);
        let ghost old_self = *self;
        let ghost fresh = Seq::new(SLABSIZE as nat, |k: int| (base + k) as usize);
        self.slabs.push(slab);
        self.head = base;
        self.free = Ghost(fresh + old_self.free@);
        proof {
            assert(self.slot_count() == old_self.slot_count() + 1024) by (nonlinear_arith)
                requires
                    self.slot_count() == self.slabs@.len() * 1024,
                    old_self.slot_count() == old_self.slabs@.len() * 1024,
                    self.slabs@.len() == old_self.slabs@.len() + 1,
            ;
            assert forall|i: int| 0 <= i < old_self.slot_count() implies #[trigger] self.slot(i)
                == old_self.slot(i) by {
                lemma_slot_position(i, n as int);
            }
            assert forall|k: int| 0 <= k < 1024 implies #[trigger] self.slot(base + k)
                == slab@[k] by {
                lemma_new_slab_position(n as int, k);
            }
            assert forall|j: int| 0 <= j < self.slabs@.len() implies (#[trigger] self.slabs@[j])@.len()
                == SLABSIZE by {
                if j < n {
                    assert(self.slabs@[j] == old_self.slabs@[j]);
                }
            }
            let nf = self.free@;
            assert forall|k: int| 0 <= k < nf.len() implies (#[trigger] nf[k] as int)
                < self.slot_count() && self.slot(nf[k] as int) == Entry::<T>::Link(
                self.next_free(k),
            ) by {
                if k < 1024 {
                    assert(nf[k] == base + k);
                    if k < 1023 {
                        assert(slab@[k] == Entry::<T>::Link((base + k + 1) as usize));
                    } else {
                        assert(slab@[1023] == Entry::<T>::Link(old_self.head));
                    }
                } else {
                    assert(nf[k] == old_self.free@[k - 1024]);
                    assert(old_self.next_free(k - 1024) == self.next_free(k));
                }
            }
            assert forall|a: int, b: int|
                0 <= a < nf.len() && 0 <= b < nf.len() && a != b implies nf[a] != nf[b] by {
                if a >= 1024 {
                    assert((old_self.free@[a - 1024] as int) < old_self.slot_count());
                }
                if b >= 1024 {
                    assert((old_self.free@[b - 1024] as int) < old_self.slot_count());
                }
            }
            assert forall|i: int|
                0 <= i < self.slot_count() && (#[trigger] self.slot(i)) is Link implies nf.contains(
                i as usize,
            ) by {
                if i < base {
                    assert(old_self.slot(i) is Link);
                    assert(old_self.free@.contains(i as usize));
                    let k = choose|k: int|
                        0 <= k < old_self.free@.len() && old_self.free@[k] == i as usize;
                    assert(nf[k + 1024] == i as usize);
                } else {
                    assert(nf[i - base] == i as usize);
                }
            }
            assert forall|i: int| base <= i < self.slot_count() implies #[trigger] self.slot(i)
                is Link by {
                assert(self.slot(base + (i - base)) == slab@[i - base]);
            }
            assert(self@ =~= old_self@);
        }
    }

    /// Make sure a free slot exists and return it.
    fn next_slot(&mut self) -> (index: usize)
        requires
            old(self).wf(),
            old(self).size + SLABSIZE <= usize::MAX,
        ensures
            final(self).wf(),
            final(self)@ == old(self)@,
            final(self).size == old(self).size,
            index == final(self).head,
            index != SENTINEL,
            old(self).head != SENTINEL ==> index == old(self).head,
            old(self).head != SENTINEL ==> final(self).slot_count() == old(self).slot_count(),
            old(self).head == SENTINEL ==> index == old(self).slot_count()
                && final(self).slot_count() == old(self).slot_count() + SLABSIZE
                && final(self).free@.len() >= 2
                && final(self).free@[1] == (old(self).slot_count() + 1) as usize,
    {
        if self.head == SENTINEL {
            self.expand();
        }
        self.head
    }

    /// Insert `value` into a free slot and return the slot's index.
    #[verifier::rlimit(60)]
    #[verifier::spinoff_prover]
    pub fn insert(&mut self, value: T) -> (index: usize)
        requires
            old(self).wf(),
            old(self)@.len() + SLABSIZE <= usize::MAX,
        ensures
            final(self).wf(),
            !old(self)@.contains_key(index),
            final(self)@ == old(self)@.insert(index, value),
            final(self)@.dom().finite(),
            final(self)@.len() == old(self)@.len() + 1,
            old(self).next_index() is None ==> index == old(self).slot_count()
                && final(self).slot_count() == old(self).slot_count() + SLABSIZE,
            old(self).next_index() is Some ==> final(self).slot_count() == old(self).slot_count(),
            (index as int) < final(self).slot_count(),
            old(self).next_index() matches Some(i) ==> index == i,
            old(self).next_index() is None ==> final(self).next_index() == Some(
                (old(self).slot_count() + 1) as usize,
            ),
    {
        let index = self.next_slot();
        proof {
            assert(self.free@.len() > 0);
            assert(self.free@[0] == index);
        }
        let s = index / SLABSIZE;
        let k = index % SLABSIZE;
        proof {
            lemma_slot_position(index as int, self.slabs@.len() as int);
        }
        let ghost mid = *self;
        let mut entry = Entry::Element(value);
        std::mem::swap(&mut self.slabs[s][k], &mut entry);
        let next = match entry {
            Entry::Link(next) => next,
            Entry::Element(_) => {
                proof {
                    assert(mid.slot(index as int) == Entry::<T>::Link(mid.next_free(0)));
                }
                SENTINEL
            },
        };
        self.head = next;
        self.size = self.size + 1;
        self.free = Ghost(mid.free@.drop_first());
        proof {
            assert(next == mid.next_free(0));
            if old(self).head == SENTINEL {
                assert(mid.free@.len() >= 2);
                assert(next == mid.free@[1]);
            }
            assert(self.slot_count() == mid.slot_count());
            assert forall|i: int| 0 <= i < self.slot_count() && i != index implies #[trigger] self.slot(i)
                == mid.slot(i) by {
                lemma_slot_position(i, self.slabs@.len() as int);
                if i / 1024 == s as int {
                    assert(i % 1024 != k as int) by (nonlinear_arith)
                        requires
                            i / 1024 == index as int / 1024,
                            i != index as int,
                            k as int == index as int % 1024,
                    ;
                }
            }
            assert(self.slot(index as int) == Entry::Element(value));
            assert forall|j: int| 0 <= j < self.slabs@.len() implies (#[trigger] self.slabs@[j])@.len()
                == SLABSIZE by {
                assert(mid.slabs@[j]@.len() == SLABSIZE);
            }
            let nf = self.free@;
            assert forall|q: int| 0 <= q < nf.len() implies (#[trigger] nf[q] as int)
                < self.slot_count() && self.slot(nf[q] as int) == Entry::<T>::Link(
                self.next_free(q),
            ) by {
                assert(nf[q] == mid.free@[q + 1]);
                assert(mid.free@[q + 1] != mid.free@[0]);
                assert(mid.next_free(q + 1) == self.next_free(q));
            }
            assert forall|i: int|
                0 <= i < self.slot_count() && (#[trigger] self.slot(i)) is Link implies nf.contains(
                i as usize,
            ) by {
                assert(i != index);
                assert(mid.slot(i) is Link);
                assert(mid.free@.contains(i as usize));
                let q = choose|q: int| 0 <= q < mid.free@.len() && mid.free@[q] == i as usize;
                assert(q != 0);
                assert(nf[q - 1] == i as usize);
            }
            assert(self@ =~= mid@.insert(index, value));
        }
        index
    }

    /// Remove and return the element at `index`; `None` if there is none.
    #[verifier::rlimit(60)]
    pub fn remove(&mut self, index: usize) -> (r: Option<T>)
        requires
            old(self).wf(),
        ensures
            final(self).wf(),
            r == (if old(self)@.contains_key(index) {
                Some(old(self)@[index])
            } else {
                None
            }),
            final(self)@ == old(self)@.remove(index),
            final(self)@.dom().finite(),
            r is Some ==> final(self)@.len() == old(self)@.len() - 1,
            r is None ==> final(self)@.len() == old(self)@.len(),
            r is Some ==> final(self).next_index() == Some(index),
            r is None ==> final(self).next_index() == old(self).next_index(),
            final(self).slot_count() == old(self).slot_count(),
    {
        let head = self.head;
        let s = index / SLABSIZE;
        if s >= self.slabs.len() {
            proof {
                assert(index as int / 1024 >= self.slabs@.len() ==> (index as int)
                    >= self.slot_count()) by (nonlinear_arith)
                    requires
                        self.slot_count() == self.slabs@.len() * 1024,
                ;
                assert(self@.remove(index) =~= self@);
            }
            return None;
        }
        proof {
            assert(index as int / 1024 < self.slabs@.len() ==> (index as int) < self.slot_count())
                by (nonlinear_arith)
                requires
                    self.slot_count() == self.slabs@.len() * 1024,
            ;
        }
        let k = index % SLABSIZE;
        if let Entry::Link(_) = &self.slabs[s][k] {
            proof {
                assert(self@.remove(index) =~= self@);
            }
            return None;
        }
        let ghost mid = *self;
        proof {
            lemma_slot_position(index as int, self.slabs@.len() as int);
            assert(mid.is_element(index as int));
            assert(mid@.dom().contains(index));
            assert(mid@.dom().len() > 0) by {
                assert(mid@.dom().remove(index).len() + 1 == mid@.dom().len());
            }
        }
        let mut entry = Entry::Link(head);
        std::mem::swap(&mut self.slabs[s][k], &mut entry);
        let value = match entry {
            Entry::Element(v) => v,
            Entry::Link(_) => {
                proof {
                    assert(false);
                }
                return None;
            },
        };
        self.head = index;
        self.size = self.size - 1;
        self.free = Ghost(seq![index].add(mid.free@));
        proof {
            Self::lemma_single_slot_changed(mid, *self, index as int);
            Self::lemma_remove_wf(mid, *self, index);
        }
        Some(value)
    }
}


impl<T> StableSlotmap<T> {
    /// The element at `index`, if there is one.
    pub fn get(&self, index: usize) -> (r: Option<&T>)
        requires
            self.wf(),
        ensures
            r == (if self@.contains_key(index) {
                Some(&self@[index])
            } else {
                None
            }),
    {
        match self.slot_at(index) {
            Some(Entry::Element(v)) => Some(v),
            _ => None,
        }
    }

    /// Mutable access to the element at `index`, if there is one.
    pub fn get_mut(&mut self, index: usize) -> (r: Option<&mut T>)
        requires
            old(self).wf(),
        ensures
            final(self).wf(),
            r is Some <==> old(self)@.contains_key(index),
            r matches Some(v) ==> *v == old(self)@[index] && final(self)@ == old(self)@.insert(
                index,
                *final(v),
            ),
            r is None ==> final(self)@ == old(self)@,
            final(self).slot_count() == old(self).slot_count(),
    {
        let s = index / SLABSIZE;
        if s >= self.slabs.len() {
            proof {
                assert(index as int / 1024 >= self.slabs@.len() ==> (index as int)
                    >= self.slot_count()) by (nonlinear_arith)
                    requires
                        self.slot_count() == self.slabs@.len() * 1024,
                ;
            }
            return None;
        }
        proof {
            assert(index as int / 1024 < self.slabs@.len() ==> (index as int) < self.slot_count())
                by (nonlinear_arith)
                requires
                    self.slot_count() == self.slabs@.len() * 1024,
            ;
        }
        let k = index % SLABSIZE;
        proof {
            Self::lemma_element_rewrite(*self, index as int);
        }
        if let Entry::Link(_) = &self.slabs[s][k] {
            return None;
        }
        match &mut self.slabs[s][k] {
            Entry::Element(v) => Some(v),
            Entry::Link(_) => None,
        }
    }
}


impl<T> StableSlotmap<T> {
    /// The elements held in the first `n` slots, in slot order.
    pub closed spec fn elements_before(&self, n: int) -> Seq<T>
        decreases n,
    {
        if n <= 0 {
            Seq::empty()
        } else if self.slot(n - 1) is Element {
            self.elements_before(n - 1).push(self.element(n - 1))
        } else {
            self.elements_before(n - 1)
        }
    }

    /// How the slots of a well-formed slot map are used: they come in whole
    /// slabs, every element sits in an allocated slot, and a new slab is
    /// added only when every allocated slot holds an element.
    pub proof fn lemma_slots(&self)
        requires
            self.wf(),
        ensures
            self.slot_count() % (SLABSIZE as int) == 0,
            self.slot_count() >= 0,
            self@.len() <= self.slot_count(),
            self.next_index() is None <==> self@.len() == self.slot_count(),
            forall|k: usize| #[trigger] self@.contains_key(k) ==> (k as int) < self.slot_count(),
            self.next_index() matches Some(i) ==> (i as int) < self.slot_count()
                && !self@.contains_key(i),
    {
        assert(self.slot_count() % 1024 == 0 && self.slot_count() >= 0) by (nonlinear_arith)
            requires
                self.slot_count() == self.slabs@.len() * 1024,
        ;
        if self.head != SENTINEL {
            assert(self.free@.len() > 0);
            assert((self.free@[0] as int) < self.slot_count());
        } else {
            if self.free@.len() > 0 {
                assert((self.free@[0] as int) < self.slot_count());
            }
        }
    }

    /// A well-formed slot map holds finitely many elements.
    pub proof fn lemma_view_finite(&self)
        requires
            self.wf(),
        ensures
            self@.dom().finite(),
    {
    }

    /// The indexes of the elements held in the first `n` slots, ascending.
    pub closed spec fn keys_before(&self, n: int) -> Seq<usize>
        decreases n,
    {
        if n <= 0 {
            Seq::empty()
        } else if self.slot(n - 1) is Element {
            self.keys_before(n - 1).push((n - 1) as usize)
        } else {
            self.keys_before(n - 1)
        }
    }

    /// The indexes of all elements, ascending.
    pub closed spec fn live_keys(&self) -> Seq<usize> {
        self.keys_before(self.slot_count())
    }

    #[verifier::spinoff_prover]
    #[verifier::rlimit(50)]
    proof fn lemma_keys_before(&self, n: int)
        requires
            0 <= n <= self.slot_count(),
            self.slot_count() <= usize::MAX,
        ensures
            self.keys_before(n).len() == self.elements_before(n).len(),
            forall|j: int|
                0 <= j < self.keys_before(n).len() ==> (#[trigger] self.keys_before(n)[j] as int)
                    < n && self.is_element(self.keys_before(n)[j] as int)
                    && self.elements_before(n)[j] == self.element(self.keys_before(n)[j] as int),
            forall|j: int, k: int|
                0 <= j < k < self.keys_before(n).len() ==> self.keys_before(n)[j]
                    < self.keys_before(n)[k],
            forall|i: int| 0 <= i < n && #[trigger] self.is_element(i) ==> self.keys_before(n).contains(
                i as usize,
            ),
        decreases n,
    {
        if n > 0 {
            self.lemma_keys_before(n - 1);
            let ks = self.keys_before(n);
            let prev = self.keys_before(n - 1);
            let es = self.elements_before(n);
            let eprev = self.elements_before(n - 1);
            if self.slot(n - 1) is Element {
                assert(ks == prev.push((n - 1) as usize));
                assert(es == eprev.push(self.element(n - 1)));
                assert forall|j: int| 0 <= j < ks.len() implies (#[trigger] ks[j] as int) < n
                    && self.is_element(ks[j] as int) && es[j] == self.element(ks[j] as int) by {
                    if j < prev.len() {
                        assert(ks[j] == prev[j]);
                        assert(es[j] == eprev[j]);
                    }
                }
                assert forall|j: int, k: int| 0 <= j < k < ks.len() implies ks[j] < ks[k] by {
                    if k < prev.len() {
                        assert(ks[j] == prev[j] && ks[k] == prev[k]);
                    } else {
                        assert(ks[j] == prev[j]);
                    }
                }
            } else {
                assert(ks == prev);
                assert(es == eprev);
            }
            assert forall|i: int| 0 <= i < n && #[trigger] self.is_element(i) implies ks.contains(
                i as usize,
            ) by {
                if i < n - 1 {
                    let j = choose|j: int| 0 <= j < prev.len() && prev[j] == i as usize;
                    assert(ks[j] == i as usize);
                } else {
                    assert(ks[ks.len() - 1] == i as usize);
                }
            }
        }
    }

    /// The elements, listed in slot order, are the view's values at its
    /// keys in ascending order, each once.
    pub proof fn lemma_elements_are_view(&self)
        requires
            self.wf(),
        ensures
            self.live_keys().len() == self.elements().len(),
            self.live_keys().len() == self@.len(),
            forall|j: int, k: int|
                0 <= j < k < self.live_keys().len() ==> self.live_keys()[j] < self.live_keys()[k],
            forall|j: int|
                0 <= j < self.live_keys().len() ==> self@.contains_key(
                    #[trigger] self.live_keys()[j],
                ) && self.elements()[j] == self@[self.live_keys()[j]],
            forall|key: usize| #[trigger] self@.contains_key(key) ==> self.live_keys().contains(key),
    {
        let n = self.slot_count();
        self.lemma_keys_before(n);
        let ks = self.live_keys();
        assert(ks.no_duplicates()) by {
            assert forall|j: int, k: int| 0 <= j < ks.len() && 0 <= k < ks.len() && j != k implies ks[j]
                != ks[k] by {
                if j < k {
                    assert(ks[j] < ks[k]);
                } else {
                    assert(ks[k] < ks[j]);
                }
            }
        }
        ks.unique_seq_to_set();
        assert(ks.to_set() =~= self@.dom()) by {
            assert forall|key: usize| ks.to_set().contains(key) implies self@.dom().contains(key) by {
                let j = choose|j: int| 0 <= j < ks.len() && ks[j] == key;
                assert(self.is_element(ks[j] as int));
            }
            assert forall|key: usize| self@.dom().contains(key) implies ks.to_set().contains(key) by {
                assert(self.is_element(key as int));
            }
        }
    }

    /// All elements in slot order.
    pub open spec fn elements(&self) -> Seq<T> {
        self.elements_before(self.slot_count())
    }

    /// The element at `index`, which must be present.
    pub fn index(&self, index: usize) -> (r: &T)
        requires
            self.wf(),
            self@.contains_key(index),
        ensures
            *r == self@[index],
    {
        self.get(index).unwrap()
    }

    /// References to all elements, in slot order.
    #[verifier::rlimit(100)]
    #[verifier::spinoff_prover]
    fn collect_elements(&self) -> (r: Vec<&T>)
        requires
            self.wf(),
        ensures
            r@.len() == self.elements().len(),
            forall|i: int| 0 <= i < r@.len() ==> *r@[i] == self.elements()[i],
    {
        let mut out: Vec<&T> = Vec::new();
        let mut j: usize = 0;
        while j < self.slabs.len()
            invariant
                self.wf(),
                j <= self.slabs@.len(),
                out@.len() == self.elements_before(j * SLABSIZE).len(),
                forall|i: int| 0 <= i < out@.len() ==> *out@[i] == self.elements_before(
                    j * SLABSIZE,
                )[i],
            decreases self.slabs@.len() - j,
        {
            let slab = &self.slabs[j];
            assert(slab@.len() == SLABSIZE);
            let mut k: usize = 0;
            while k < SLABSIZE
                invariant
                    self.wf(),
                    j < self.slabs@.len(),
                    *slab == self.slabs@[j as int],
                    slab@.len() == SLABSIZE,
                    k <= SLABSIZE,
                    out@.len() == self.elements_before(j * SLABSIZE + k).len(),
                    forall|i: int| 0 <= i < out@.len() ==> *out@[i] == self.elements_before(
                        j * SLABSIZE + k,
                    )[i],
                decreases SLABSIZE - k,
            {
                proof {
                    lemma_new_slab_position(j as int, k as int);
                    assert(self.slot(j * SLABSIZE + k) == slab@[k as int]);
                }
                match &slab[k] {
                    Entry::Element(v) => {
                        out.push(v);
                    },
                    Entry::Link(_) => {},
                }
                k = k + 1;
            }
            j = j + 1;
        }
        out
    }

    /// References to all elements, in slot order.
    pub fn iter(&self) -> (r: Vec<&T>)
        requires
            self.wf(),
        ensures
            r@.len() == self.elements().len(),
            forall|i: int| 0 <= i < r@.len() ==> *r@[i] == self.elements()[i],
            r@.len() == self@.len(),
            r@.len() == self.live_keys().len(),
            forall|j: int, k: int|
                0 <= j < k < self.live_keys().len() ==> self.live_keys()[j] < self.live_keys()[k],
            forall|i: int|
                0 <= i < r@.len() ==> self@.contains_key(#[trigger] self.live_keys()[i]) && *r@[i]
                    == self@[self.live_keys()[i]],
            forall|key: usize| #[trigger] self@.contains_key(key) ==> self.live_keys().contains(key),
    {
        let out = self.collect_elements();
        proof {
            self.lemma_elements_are_view();
        }
        out
    }
}

/// An element stays where it was put: after an `insert` the new element is
/// found at the returned index, every element present before is found at
/// its index unchanged, and removing the returned index gives the value
/// back and restores the previous contents.
pub proof fn law_insert_then_remove<T>(
    before: StableSlotmap<T>,
    mid: StableSlotmap<T>,
    after: StableSlotmap<T>,
    index: usize,
    value: T,
    removed: Option<T>,
)
    requires
        before.wf(),
        !before@.contains_key(index),
        mid@ == before@.insert(index, value),
        removed == (if mid@.contains_key(index) {
            Some(mid@[index])
        } else {
            None
        }),
        after@ == mid@.remove(index),
    ensures
        mid@.contains_key(index) && mid@[index] == value,
        forall|j: usize| #[trigger] before@.contains_key(j) ==> j != index && mid@.contains_key(j)
            && mid@[j] == before@[j],
        removed == Some(value),
        after@ == before@,
{
    assert(after@ =~= before@);
}

/// Removing an element frees its slot for the very next insertion: the
/// index handed out by the `insert` that follows a successful `remove` is
/// the removed one.
pub proof fn law_remove_then_insert_reuses<T>(
    before: StableSlotmap<T>,
    mid: StableSlotmap<T>,
    after: StableSlotmap<T>,
    index: usize,
    removed: Option<T>,
    value: T,
    new_index: usize,
)
    requires
        before.wf(),
        before@.contains_key(index),
        removed == (if before@.contains_key(index) {
            Some(before@[index])
        } else {
            None
        }),
        mid@ == before@.remove(index),
        removed is Some ==> mid.next_index() == Some(index),
        !mid@.contains_key(new_index),
        after@ == mid@.insert(new_index, value),
        mid.next_index() matches Some(i) ==> new_index == i,
    ensures
        new_index == index,
        after@ == before@.insert(index, value),
{
    assert(after@ =~= before@.insert(index, value));
}

/// Removing an index that holds no element changes nothing.
pub proof fn law_remove_absent<T>(
    before: StableSlotmap<T>,
    after: StableSlotmap<T>,
    index: usize,
    removed: Option<T>,
)
    requires
        before.wf(),
        !before@.contains_key(index),
        removed == (if before@.contains_key(index) {
            Some(before@[index])
        } else {
            None
        }),
        after@ == before@.remove(index),
    ensures
        removed is None,
        after@ == before@,
{
    assert(after@ =~= before@);
}

/// One call in a history of calls on a slot map: an `insert` of a value
/// together with the index it returned, or a `remove` of an index.
pub enum SlotOp<T> {
    Insert(T, usize),
    Remove(usize),
}

/// The index a call names.
pub open spec fn op_index<T>(op: SlotOp<T>) -> usize {
    match op {
        SlotOp::Insert(_, i) => i,
        SlotOp::Remove(i) => i,
    }
}

/// The contents after the calls `ops`, starting from an empty map.
pub open spec fn replay<T>(ops: Seq<SlotOp<T>>) -> Map<usize, T>
    decreases ops.len(),
{
    if ops.len() == 0 {
        Map::empty()
    } else {
        let m = replay(ops.drop_last());
        match ops.last() {
            SlotOp::Insert(v, i) => m.insert(i, v),
            SlotOp::Remove(i) => m.remove(i),
        }
    }
}

/// The position of the last call in `ops` that names index `i`.
pub open spec fn last_touch<T>(ops: Seq<SlotOp<T>>, i: usize) -> Option<int>
    decreases ops.len(),
{
    if ops.len() == 0 {
        None
    } else if op_index(ops.last()) == i {
        Some(ops.len() - 1)
    } else {
        last_touch(ops.drop_last(), i)
    }
}

proof fn lemma_replay_lookup<T>(ops: Seq<SlotOp<T>>, i: usize)
    ensures
        replay(ops).dom().finite(),
        last_touch(ops, i) matches Some(k) ==> 0 <= k < ops.len() && op_index(ops[k]) == i,
        replay(ops).contains_key(i) <==> (last_touch(ops, i) matches Some(k) && ops[k] is Insert),
        replay(ops).contains_key(i) ==> (last_touch(ops, i) matches Some(k) && ops[k] matches SlotOp::Insert(v, _) && replay(ops)[i] == v),
    decreases ops.len(),
{
    if ops.len() > 0 {
        lemma_replay_lookup(ops.drop_last(), i);
    }
}

/// What a slot map holds after any history of calls, starting from `new()`:
/// index `i` holds `v` exactly when the last call naming `i` was an
/// `insert` of `v` that returned `i`; every other index holds nothing.
/// Each step is what the called function's contract says of it.
pub proof fn law_history<T>(states: Seq<StableSlotmap<T>>, ops: Seq<SlotOp<T>>)
    requires
        states.len() == ops.len() + 1,
        states[0]@ == Map::<usize, T>::empty(),
        forall|k: int|
            0 <= k < ops.len() ==> match #[trigger] ops[k] {
                SlotOp::Insert(v, i) => !states[k]@.contains_key(i) && states[k + 1]@ == states[k]@.insert(i, v),
                SlotOp::Remove(i) => states[k + 1]@ == states[k]@.remove(i),
            },
    ensures
        forall|k: int| 0 <= k <= ops.len() ==> #[trigger] states[k]@ == replay(ops.take(k)),
        forall|i: usize|
            #[trigger] states[ops.len() as int]@.contains_key(i) <==> (last_touch(ops, i) matches Some(k)
                && ops[k] is Insert),
        forall|i: usize|
            #[trigger] states[ops.len() as int]@.contains_key(i) ==> (last_touch(ops, i) matches Some(k)
                && ops[k] matches SlotOp::Insert(v, _) && states[ops.len() as int]@[i] == v),
    decreases ops.len(),
{
    assert forall|k: int| 0 <= k <= ops.len() implies #[trigger] states[k]@ == replay(ops.take(k)) by {
        lemma_history_prefix(states, ops, k);
    }
    assert(ops.take(ops.len() as int) =~= ops);
    assert forall|i: usize| true implies (#[trigger] states[ops.len() as int]@.contains_key(i) <==> (
    last_touch(ops, i) matches Some(k) && ops[k] is Insert)) && (states[ops.len() as int]@.contains_key(i)
        ==> (last_touch(ops, i) matches Some(k) && ops[k] matches SlotOp::Insert(v, _) && states[ops.len() as int]@[i] == v)) by {
        lemma_replay_lookup(ops, i);
    }
}

proof fn lemma_history_prefix<T>(states: Seq<StableSlotmap<T>>, ops: Seq<SlotOp<T>>, k: int)
    requires
        states.len() == ops.len() + 1,
        states[0]@ == Map::<usize, T>::empty(),
        forall|k: int|
            0 <= k < ops.len() ==> match #[trigger] ops[k] {
                SlotOp::Insert(v, i) => !states[k]@.contains_key(i) && states[k + 1]@ == states[k]@.insert(i, v),
                SlotOp::Remove(i) => states[k + 1]@ == states[k]@.remove(i),
            },
        0 <= k <= ops.len(),
    ensures
        states[k]@ == replay(ops.take(k)),
    decreases k,
{
    if k == 0 {
        assert(replay(ops.take(0)) == Map::<usize, T>::empty());
    } else {
        lemma_history_prefix(states, ops, k - 1);
        assert(ops.take(k).drop_last() =~= ops.take(k - 1));
        assert(ops.take(k).last() == ops[k - 1]);
        let _ = ops[k - 1];
    }
}

} // verus!
