use vstd::prelude::*;

verus! {

/// Splits the concatenation of two slices into consecutive chunks of
/// exactly `N` elements.
pub struct DisjointChunksExact<'a, T: Copy, const N: usize> {
    first: &'a [T],
    second: &'a [T],
    /// How many elements of `first` have been handed out or dropped.
    pos_first: usize,
    /// How many elements of `second` have been handed out or dropped.
    pos_second: usize,
}

/// The element of `v` at `i`.
fn element_at<T: Copy>(v: &Vec<T>, i: usize) -> (x: T)
    requires
        i < v@.len(),
    ensures
        x == v@[i as int],
{
    v[i]
}

/// Calls `core::array::from_fn` with `N` and a closure that picks element
/// `i` of `v`, which has exactly `N` elements: the array holds the
/// vector's elements in order.
#[verifier::external_body]
fn array_from_vec<T: Copy, const N: usize>(v: Vec<T>) -> (a: [T; N])
    requires
        v@.len() == N,
    ensures
        a@ == v@,
{
    core::array::from_fn(|i| element_at(&v, i))
}

impl<'a, T: Copy, const N: usize> DisjointChunksExact<'a, T, N> {
    pub closed spec fn wf(&self) -> bool {
        &&& self.pos_first <= self.first@.len()
        &&& self.pos_second <= self.second@.len()
        &&& self.pos_first < self.first@.len() ==> self.pos_second == 0
    }

    /// The elements not yet handed out, in order.
    pub closed spec fn remaining(&self) -> Seq<T> {
        self.first@.subrange(self.pos_first as int, self.first@.len() as int) + self.second@.subrange(
            self.pos_second as int,
            self.second@.len() as int,
        )
    }

    /// Chunks of `a` followed by `b`.
    pub fn new(a: &'a [T], b: &'a [T]) -> (c: Self)
        ensures
            c.wf(),
            c.remaining() == a@ + b@,
    {
        let c = Self { first: a, second: b, pos_first: 0, pos_second: 0 };
        assert(a@.subrange(0, a@.len() as int) =~= a@);
        assert(b@.subrange(0, b@.len() as int) =~= b@);
        c
    }

    /// The next element, which must exist.
    fn take_one(&mut self) -> (x: T)
        requires
            old(self).wf(),
            old(self).remaining().len() > 0,
        ensures
            final(self).wf(),
            x == old(self).remaining()[0],
            final(self).remaining() == old(self).remaining().subrange(
                1,
                old(self).remaining().len() as int,
            ),
    {
        let ghost before = self.remaining();
        if self.pos_first < self.first.len() {
            let x = self.first[self.pos_first];
            self.pos_first = self.pos_first + 1;
            proof {
                assert(self.remaining() =~= before.subrange(1, before.len() as int));
            }
            x
        } else {
            let x = self.second[self.pos_second];
            self.pos_second = self.pos_second + 1;
            proof {
                assert(self.remaining() =~= before.subrange(1, before.len() as int));
            }
            x
        }
    }

    /// The next `N` elements, or `None` (dropping what is left) when fewer
    /// than `N` remain.
    pub fn next(&mut self) -> (r: Option<[T; N]>)
        requires
            old(self).wf(),
        ensures
            final(self).wf(),
            old(self).remaining().len() >= N ==> (r matches Some(chunk) && chunk@ == old(self).remaining().subrange(0, N as int)),
            old(self).remaining().len() >= N ==> final(self).remaining() == old(self).remaining().subrange(N as int, old(self).remaining().len() as int),
            old(self).remaining().len() < N ==> r is None && final(self).remaining().len() == 0,
    {
        let left_first = self.first.len() - self.pos_first;
        let left_second = self.second.len() - self.pos_second;
        if left_first < N && left_second < N - left_first {
            self.pos_first = self.first.len();
            self.pos_second = self.second.len();
            return None;
        }
        let ghost before = self.remaining();
        let mut chunk: Vec<T> = Vec::new();
        let mut k: usize = 0;
        while k < N
            invariant
                k <= N,
                before.len() >= N,
                self.wf(),
                chunk@ == before.subrange(0, k as int),
                self.remaining() == before.subrange(k as int, before.len() as int),
            decreases N - k,
        {
            let x = self.take_one();
            chunk.push(x);
            k = k + 1;
            proof {
                assert(chunk@ =~= before.subrange(0, k as int));
                assert(self.remaining() =~= before.subrange(k as int, before.len() as int));
            }
        }
        Some(array_from_vec(chunk))
    }
}

} // verus!
