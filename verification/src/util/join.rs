use vstd::prelude::*;

verus! {

/// A set of futures whose outputs are collected one at a time, in the order
/// in which the futures finish.
pub struct Join<F> {
    futures: Vec<F>,
    state: Vec<bool>,
}

/// The next output of a `Join`.
pub struct JoinNext<'j, F> {
    join: &'j mut Join<F>,
}

impl<F> Join<F> {
    pub closed spec fn wf(&self) -> bool {
        self.futures@.len() == self.state@.len()
    }

    /// The futures.
    pub closed spec fn spec_futures(&self) -> Seq<F> {
        self.futures@
    }

    /// Which futures have finished.
    pub closed spec fn finished(&self) -> Seq<bool> {
        self.state@
    }

    /// Collects the outputs of `futures`; none has finished yet.
    pub fn new(futures: Vec<F>) -> (j: Self)
        ensures
            j.wf(),
            j.spec_futures() == futures@,
            j.finished() == Seq::new(futures@.len(), |i: int| false),
    {
        let n = futures.len();
        let mut state: Vec<bool> = Vec::new();
        while state.len() < n
            invariant
                state@.len() <= n,
                forall|i: int| 0 <= i < state@.len() ==> state@[i] == false,
            decreases n - state@.len(),
        {
            state.push(false);
        }
        assert(state@ =~= Seq::new(n as nat, |i: int| false));
        Self { futures, state }
    }

    /// A handle that produces the next output.
    pub fn next(&mut self) -> (n: JoinNext<'_, F>)
        ensures
            *n.spec_join() == *old(self),
            *final(self) == *final(n.spec_join()),
    {
        JoinNext { join: self }
    }

    /// The positions of the futures that have not finished, in order.
    pub fn pending(&self) -> (r: Vec<usize>)
        requires
            self.wf(),
        ensures
            forall|k: int|
                0 <= k < r@.len() ==> r@[k] < self.finished().len() && !self.finished()[r@[k] as int],
            forall|i: int|
                0 <= i < self.finished().len() && !self.finished()[i] ==> r@.contains(i as usize),
            forall|a: int, b: int| 0 <= a < b < r@.len() ==> r@[a] < r@[b],
    {
        let mut r: Vec<usize> = Vec::new();
        let mut i: usize = 0;
        while i < self.state.len()
            invariant
                i <= self.state@.len(),
                forall|k: int| 0 <= k < r@.len() ==> r@[k] < i && !self.state@[r@[k] as int],
                forall|j: int| 0 <= j < i && !self.state@[j] ==> r@.contains(j as usize),
                forall|a: int, b: int| 0 <= a < b < r@.len() ==> r@[a] < r@[b],
            decreases self.state@.len() - i,
        {
            if !self.state[i] {
                let ghost before = r@;
                r.push(i);
                proof {
                    assert(r@[r@.len() - 1] == i);
                    assert forall|j: int| 0 <= j < i + 1 && !self.state@[j] implies r@.contains(
                        j as usize,
                    ) by {
                        if j < i {
                            assert(before.contains(j as usize));
                            let k = choose|k: int| 0 <= k < before.len() && before[k] == j as usize;
                            assert(r@[k] == j as usize);
                        }
                    }
                }
            }
            i = i + 1;
        }
        r
    }

    /// Whether every future has finished, so that the next output is none.
    pub fn all_finished(&self) -> (r: bool)
        requires
            self.wf(),
        ensures
            r == (forall|i: int| 0 <= i < self.finished().len() ==> #[trigger] self.finished()[i]),
    {
        let mut i: usize = 0;
        while i < self.state.len()
            invariant
                i <= self.state@.len(),
                forall|k: int| 0 <= k < i ==> #[trigger] self.state@[k],
            decreases self.state@.len() - i,
        {
            if !self.state[i] {
                assert(!self.finished()[i as int]);
                return false;
            }
            i = i + 1;
        }
        true
    }

    /// Records that the future at `index` has finished.
    pub fn mark_finished(&mut self, index: usize)
        requires
            old(self).wf(),
            index < old(self).finished().len(),
        ensures
            final(self).wf(),
            final(self).spec_futures() == old(self).spec_futures(),
            final(self).finished() == old(self).finished().update(index as int, true),
    {
        self.state.set(index, true);
    }

    /// The future at `index`.
    pub fn future_mut(&mut self, index: usize) -> (r: &mut F)
        requires
            old(self).wf(),
            index < old(self).spec_futures().len(),
        ensures
            *r == old(self).spec_futures()[index as int],
            final(self).wf(),
            final(self).spec_futures() == old(self).spec_futures().update(index as int, *final(r)),
            final(self).finished() == old(self).finished(),
    {
        &mut self.futures[index]
    }
}

impl<'j, F> JoinNext<'j, F> {
    pub closed spec fn spec_join(&self) -> &'j mut Join<F> {
        self.join
    }

    /// The `Join` this handle draws from.
    pub fn join(&mut self) -> (r: &mut Join<F>)
        ensures
            *r == *old(self).spec_join(),
            *final(self).spec_join() == *final(r),
    {
        self.join
    }
}

/// A future whose output was taken is not polled again: once it is marked
/// finished, the positions still pending are exactly the other unfinished
/// ones.
pub proof fn law_finished_not_pending<F>(before: Join<F>, after: Join<F>, index: usize, pending: Seq<usize>)
    requires
        before.wf(),
        index < before.finished().len(),
        after.finished() == before.finished().update(index as int, true),
        forall|k: int|
            0 <= k < pending.len() ==> pending[k] < after.finished().len() && !after.finished()[pending[k] as int],
        forall|i: int|
            0 <= i < after.finished().len() && !after.finished()[i] ==> pending.contains(i as usize),
    ensures
        !pending.contains(index),
        forall|i: int|
            0 <= i < before.finished().len() && i != index && !before.finished()[i] ==> pending.contains(i as usize),
{
    if pending.contains(index) {
        let k = choose|k: int| 0 <= k < pending.len() && pending[k] == index;
        assert(!after.finished()[pending[k] as int]);
    }
    assert forall|i: int|
        0 <= i < before.finished().len() && i != index && !before.finished()[i] implies pending.contains(i as usize) by {
        assert(!after.finished()[i]);
    }
}

} // verus!
