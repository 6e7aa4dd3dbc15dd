use vstd::prelude::*;
use crate::slotmap::{StableSlotmap, SLABSIZE};
use crate::uring::cqe::{spec_buf_id, CompletionQueueEvent};
use crate::uring::raw::io_uring_cqe;
use crate::util::dedup::{dedup_from, dedup_partial, empty_table, no_adjacent_duplicates};
use crate::fixedvec::FixedVec;
use crate::error::{new_io_error, IoErrorKind, ProvideBuffersError};

verus! {

/// The task of a completion whose task is already queued to run.
pub const NO_TASK_SENTINEL: usize = usize::MAX;

/// The task of a completion whose future has been dropped.
pub const DEAD_TASK_SENTINEL: usize = usize::MAX - 1;

/// Largest number of buffers handed to the kernel at once; buffer ids are
/// 16 bits wide.
pub const MAX_BUFFERS: usize = 65535;

/// Action performed when a completion must be cleaned up by the executor
/// because the task waiting for it is gone.
#[derive(Copy, Clone, PartialEq, Eq, Structural)]
pub enum CleanupAction {
    NoAction,
    /// Remove this buffer from the pool if the request failed.
    DeleteBufferOnError(usize),
}

/// What is known of one submitted request.
#[derive(Copy, Clone)]
pub struct CompletionEvent {
    /// The completion, once it arrived.
    pub cqe: Option<CompletionQueueEvent>,
    /// The task to wake, or one of the sentinels.
    pub task: usize,
    pub action: CleanupAction,
}

impl CompletionEvent {
    pub fn new(task: usize) -> (ce: Self)
        ensures
            ce.task == task,
            ce.cqe is None,
            ce.action == CleanupAction::NoAction,
    {
        Self { task, cqe: None, action: CleanupAction::NoAction }
    }
}

/// What happens to a dropped completion future.
#[derive(Copy, Clone, PartialEq, Eq, Structural)]
pub enum DropOutcome {
    /// The request had completed; its record is gone.
    Removed,
    /// The request is still in flight; its record is cleaned up when it
    /// completes.
    Abandoned,
    /// The request refers to memory the future owns: it must be cancelled
    /// and waited for.
    MustCancel,
}

/// The bookkeeping of an io_uring executor: the in-flight requests, the
/// buffers handed to the kernel, the tasks woken by completions and the
/// count of queued submissions.
pub struct IOContextState<B> {
    completions: StableSlotmap<CompletionEvent>,
    buffers: StableSlotmap<B>,
    bufsize: usize,
    queued: usize,
}

impl<B> IOContextState<B> {
    pub closed spec fn wf(&self) -> bool {
        &&& self.completions.wf()
        &&& self.buffers.wf()
        &&& self.buffers.slot_count() <= MAX_BUFFERS + 1
        &&& self.bufsize != 0
    }

    /// The in-flight requests by completion id.
    pub closed spec fn completions(&self) -> Map<usize, CompletionEvent> {
        self.completions@
    }

    /// The buffers handed to the kernel, by buffer id.
    pub closed spec fn buffers(&self) -> Map<usize, B> {
        self.buffers@
    }

    pub closed spec fn spec_bufsize(&self) -> usize {
        self.bufsize
    }

    pub closed spec fn spec_queued(&self) -> usize {
        self.queued
    }

    /// A fresh state for buffers of `bufsize` bytes.
    pub fn new(bufsize: usize) -> (s: Self)
        requires
            bufsize != 0,
        ensures
            s.wf(),
            s.completions() == Map::<usize, CompletionEvent>::empty(),
            s.buffers() == Map::<usize, B>::empty(),
            s.spec_bufsize() == bufsize,
            s.spec_queued() == 0,
    {
        IOContextState {
            completions: StableSlotmap::new(),
            buffers: StableSlotmap::new(),
            bufsize,
            queued: 0,
        }
    }

    pub fn buffer_size(&self) -> (r: usize)
        ensures
            r == self.spec_bufsize(),
    {
        self.bufsize
    }

    pub fn buffer_count(&self) -> (r: usize)
        requires
            self.wf(),
        ensures
            r == self.buffers().len(),
            self.buffers().dom().finite(),
    {
        proof {
            self.lemma_maps_finite();
        }
        self.buffers.len()
    }

    /// Whether submissions are queued that the kernel has not been told of.
    pub fn has_queued(&self) -> (r: bool)
        ensures
            r == (self.spec_queued() != 0),
    {
        self.queued != 0
    }

    /// Records that `count` more submissions were queued.
    pub fn add_queued(&mut self, count: usize)
        requires
            old(self).spec_queued() + count <= usize::MAX,
        ensures
            final(self).spec_queued() == old(self).spec_queued() + count,
            final(self).completions() == old(self).completions(),
            final(self).buffers() == old(self).buffers(),
            final(self).spec_bufsize() == old(self).spec_bufsize(),
            final(self).wf() == old(self).wf(),
    {
        self.queued = self.queued + count;
    }

    /// Records that the queued submissions were handed to the kernel.
    pub fn clear_queued(&mut self)
        ensures
            final(self).spec_queued() == 0,
            final(self).completions() == old(self).completions(),
            final(self).buffers() == old(self).buffers(),
            final(self).spec_bufsize() == old(self).spec_bufsize(),
            final(self).wf() == old(self).wf(),
    {
        self.queued = 0;
    }

    /// Starts tracking a new request; returns its completion id.
    pub fn register_completion(&mut self) -> (cqid: usize)
        requires
            old(self).wf(),
            old(self).completions().len() + SLABSIZE <= usize::MAX,
        ensures
            final(self).wf(),
            !old(self).completions().contains_key(cqid),
            final(self).completions() == old(self).completions().insert(
                cqid,
                CompletionEvent { cqe: None, task: NO_TASK_SENTINEL, action: CleanupAction::NoAction },
            ),
            final(self).buffers() == old(self).buffers(),
            final(self).spec_bufsize() == old(self).spec_bufsize(),
            final(self).spec_queued() == old(self).spec_queued(),
    {
        self.completions.insert(CompletionEvent::new(NO_TASK_SENTINEL))
    }

    /// Sets what must be cleaned up if the request `cqid` outlives its
    /// future.
    pub fn set_cleanup(&mut self, cqid: usize, action: CleanupAction)
        requires
            old(self).wf(),
            old(self).completions().contains_key(cqid),
        ensures
            final(self).wf(),
            final(self).completions() == old(self).completions().insert(
                cqid,
                CompletionEvent { action, ..old(self).completions()[cqid] },
            ),
            final(self).buffers() == old(self).buffers(),
            final(self).spec_bufsize() == old(self).spec_bufsize(),
            final(self).spec_queued() == old(self).spec_queued(),
    {
        match self.completions.get_mut(cqid) {
            Some(ce) => {
                ce.action = action;
            },
            None => {},
        }
    }

    /// A poll of the future waiting for `cqid` from `task`: records the task
    /// to wake and returns the completion if it has arrived.
    pub fn poll_completion(&mut self, cqid: usize, task: usize) -> (r: Option<
        CompletionQueueEvent,
    >)
        requires
            old(self).wf(),
            old(self).completions().contains_key(cqid),
        ensures
            final(self).wf(),
            r == old(self).completions()[cqid].cqe,
            final(self).completions() == old(self).completions().insert(
                cqid,
                CompletionEvent { task, ..old(self).completions()[cqid] },
            ),
            final(self).buffers() == old(self).buffers(),
            final(self).spec_bufsize() == old(self).spec_bufsize(),
            final(self).spec_queued() == old(self).spec_queued(),
    {
        match self.completions.get_mut(cqid) {
            Some(ce) => {
                ce.task = task;
                ce.cqe
            },
            None => None,
        }
    }

    /// The future waiting for `cqid` is dropped: forget a completed
    /// request, leave an uncompleted one to be cleaned up when it
    /// completes, or, when the request refers to memory the future owns
    /// (`must_wait`), stop waking anyone for it and ask for a cancellation.
    pub fn drop_completion(&mut self, cqid: usize, must_wait: bool) -> (r: DropOutcome)
        requires
            old(self).wf(),
            old(self).completions().contains_key(cqid),
        ensures
            final(self).wf(),
            final(self).buffers() == old(self).buffers(),
            final(self).spec_bufsize() == old(self).spec_bufsize(),
            final(self).spec_queued() == old(self).spec_queued(),
            old(self).completions()[cqid].cqe is Some ==> r == DropOutcome::Removed
                && final(self).completions() == old(self).completions().remove(cqid),
            old(self).completions()[cqid].cqe is None && !must_wait ==> r == DropOutcome::Abandoned
                && final(self).completions() == old(self).completions().insert(
                cqid,
                CompletionEvent { task: DEAD_TASK_SENTINEL, ..old(self).completions()[cqid] },
            ),
            old(self).completions()[cqid].cqe is None && must_wait ==> r == DropOutcome::MustCancel
                && final(self).completions() == old(self).completions().insert(
                cqid,
                CompletionEvent { task: NO_TASK_SENTINEL, ..old(self).completions()[cqid] },
            ),
    {
        let done = match self.completions.get(cqid) {
            Some(ce) => ce.cqe.is_some(),
            None => false,
        };
        if done {
            self.completions.remove(cqid);
            return DropOutcome::Removed;
        }
        let task = if must_wait {
            NO_TASK_SENTINEL
        } else {
            DEAD_TASK_SENTINEL
        };
        match self.completions.get_mut(cqid) {
            Some(ce) => {
                ce.task = task;
            },
            None => {},
        }
        if must_wait {
            DropOutcome::MustCancel
        } else {
            DropOutcome::Abandoned
        }
    }

    /// Whether a request with id `cqid` is being tracked.
    pub fn has_completion(&self, cqid: usize) -> (r: bool)
        requires
            self.wf(),
        ensures
            r == self.completions().contains_key(cqid),
    {
        self.completions.get(cqid).is_some()
    }

    /// Whether the request `cqid` has completed.
    pub fn is_complete(&self, cqid: usize) -> (r: bool)
        requires
            self.wf(),
        ensures
            r == (self.completions().contains_key(cqid) && self.completions()[cqid].cqe is Some),
    {
        match self.completions.get(cqid) {
            Some(ce) => ce.cqe.is_some(),
            None => false,
        }
    }

    /// Adds a buffer to the pool and returns its id; when the pool is full
    /// the buffer is handed back.
    pub fn insert_buffer(&mut self, buffer: B) -> (r: Result<usize, B>)
        requires
            old(self).wf(),
        ensures
            final(self).wf(),
            old(self).buffers().len() >= MAX_BUFFERS ==> r == Err::<usize, B>(buffer)
                && final(self).buffers() == old(self).buffers(),
            old(self).buffers().len() < MAX_BUFFERS ==> (r matches Ok(id)
                && !old(self).buffers().contains_key(id) && final(self).buffers() == old(
                self,
            ).buffers().insert(id, buffer)),
            old(self).buffers().len() < MAX_BUFFERS ==> final(self).buffers().len() == old(
                self,
            ).buffers().len() + 1,
            r matches Ok(id) ==> id <= MAX_BUFFERS,
            final(self).buffers().dom().finite(),
            final(self).completions() == old(self).completions(),
            final(self).spec_bufsize() == old(self).spec_bufsize(),
            final(self).spec_queued() == old(self).spec_queued(),
    {
        proof {
            self.lemma_maps_finite();
            self.buffers.lemma_slots();
        }
        if self.buffers.len() >= MAX_BUFFERS {
            return Err(buffer);
        }
        let id = self.buffers.insert(buffer);
        proof {
            if old(self).buffers.next_index() is None {
                let c = old(self).buffers.slot_count();
                assert(c <= 64512) by (nonlinear_arith)
                    requires
                        c % 1024 == 0,
                        c < 65535,
                        c >= 0,
                ;
            }
        }
        Ok(id)
    }

    /// Whether the pool holds a buffer with id `id`.
    pub fn has_buffer(&self, id: usize) -> (r: bool)
        requires
            self.wf(),
        ensures
            r == self.buffers().contains_key(id),
    {
        self.buffers.get(id).is_some()
    }

    /// Takes the buffer `id` out of the pool.
    pub fn remove_buffer(&mut self, id: usize) -> (r: Option<B>)
        requires
            old(self).wf(),
        ensures
            final(self).wf(),
            r == (if old(self).buffers().contains_key(id) {
                Some(old(self).buffers()[id])
            } else {
                None
            }),
            final(self).buffers() == old(self).buffers().remove(id),
            final(self).buffers().dom().finite(),
            final(self).buffers().len() == (if old(self).buffers().contains_key(id) {
                old(self).buffers().len() - 1
            } else {
                old(self).buffers().len() as int
            }),
            final(self).completions() == old(self).completions(),
            final(self).spec_bufsize() == old(self).spec_bufsize(),
            final(self).spec_queued() == old(self).spec_queued(),
    {
        proof {
            self.lemma_maps_finite();
        }
        self.buffers.remove(id)
    }

    /// Every buffer id of a well-formed pool fits in the 16 bits that the
    /// kernel reports it in.
    pub proof fn lemma_buffer_ids(&self)
        requires
            self.wf(),
        ensures
            forall|id: usize| #[trigger] self.buffers().contains_key(id) ==> id <= u16::MAX,
    {
        self.buffers.lemma_slots();
    }

    /// A well-formed state tracks finitely many requests and buffers.
    pub proof fn lemma_maps_finite(&self)
        requires
            self.wf(),
        ensures
            self.buffers().dom().finite(),
            self.completions().dom().finite(),
    {
        self.buffers.lemma_view_finite();
        self.completions.lemma_view_finite();
    }
}

impl IOContextState<FixedVec<u8>> {
    /// The outcome of a read into a pool buffer: the failure the
    /// completion reports, or the buffer the kernel filled, taken out of the
    /// pool, with the number of bytes read.
    pub fn take_read_buffer(&mut self, cqe: CompletionQueueEvent) -> (r: Result<
        (FixedVec<u8>, usize),
        std::io::Error,
    >)
        requires
            old(self).wf(),
            cqe@.res != i32::MIN,
            cqe@.res >= 0 ==> (spec_buf_id(cqe@) matches Some(id) && old(self).buffers().contains_key(
                id as usize,
            )),
        ensures
            final(self).wf(),
            final(self).completions() == old(self).completions(),
            final(self).spec_bufsize() == old(self).spec_bufsize(),
            final(self).spec_queued() == old(self).spec_queued(),
            cqe@.res < 0 ==> r is Err && final(self).buffers() == old(self).buffers(),
            cqe@.res >= 0 ==> (spec_buf_id(cqe@) matches Some(id) && r matches Ok((buf, n)) && n
                == cqe@.res && buf == old(self).buffers()[id as usize] && final(self).buffers()
                == old(self).buffers().remove(id as usize)),
    {
        let size = match cqe.result() {
            Ok(n) => n,
            Err(e) => {
                return Err(e);
            },
        };
        let bufid = match cqe.buf_id() {
            Some(id) => id as usize,
            None => {
                return Err(new_io_error(IoErrorKind::Other, "Invalid CQE for read"));
            },
        };
        match self.remove_buffer(bufid) {
            Some(buf) => Ok((buf, size)),
            None => Err(new_io_error(IoErrorKind::Other, "Buffer ID doesn't exist")),
        }
    }

    /// Puts `buffer`, which must have the pool's buffer size, into the pool
    /// for the kernel to fill, and returns its id. When the pool already
    /// holds a buffer for every id it hands the buffer back, untouched,
    /// inside the error.
    ///
    /// The buffer is kept in the pool with its length and contents: the
    /// kernel writes into its storage whatever its length, and emptying it
    /// would not erase its bytes either. So a buffer whose request the
    /// kernel failed comes back, through `remove_buffer`, with the length
    /// and contents it had; one whose request could not even be submitted
    /// is taken back emptied, through `unstage_buffer`.
    pub fn stage_buffer(&mut self, buffer: FixedVec<u8>) -> (r: Result<usize, ProvideBuffersError>)
        requires
            old(self).wf(),
            buffer.wf(),
            buffer.spec_capacity() == old(self).spec_bufsize(),
        ensures
            final(self).wf(),
            final(self).completions() == old(self).completions(),
            final(self).spec_bufsize() == old(self).spec_bufsize(),
            final(self).spec_queued() == old(self).spec_queued(),
            old(self).buffers().len() >= MAX_BUFFERS ==> (r matches Err(e) && e.buffer_spec()
                == buffer && final(self).buffers() == old(self).buffers()),
            old(self).buffers().len() < MAX_BUFFERS ==> (r matches Ok(id)
                && !old(self).buffers().contains_key(id)
                && final(self).buffers() == old(self).buffers().insert(id, buffer)),
            old(self).buffers().len() < MAX_BUFFERS ==> final(self).buffers().len() == old(
                self,
            ).buffers().len() + 1,
            r matches Ok(id) ==> id <= u16::MAX,
            final(self).buffers().dom().finite(),
    {
        proof {
            self.lemma_maps_finite();
        }
        if self.buffers.len() >= MAX_BUFFERS {
            return Err(ProvideBuffersError::new(new_io_error(IoErrorKind::Other, "No more room for buffers"), buffer));
        }
        match self.insert_buffer(buffer) {
            Ok(id) => Ok(id),
            Err(b) => Err(ProvideBuffersError::new(new_io_error(IoErrorKind::Other, "No more room for buffers"), b)),
        }
    }

    /// Takes back, emptied, the buffer `id` whose request could not be
    /// submitted; `None` if the pool holds no such buffer.
    pub fn unstage_buffer(&mut self, id: usize) -> (r: Option<FixedVec<u8>>)
        requires
            old(self).wf(),
        ensures
            final(self).wf(),
            final(self).buffers() == old(self).buffers().remove(id),
            old(self).buffers().contains_key(id) <==> r is Some,
            r matches Some(b) ==> b.wf() && b@ == Seq::<u8>::empty() && b.spec_capacity() == old(
                self,
            ).buffers()[id].spec_capacity(),
            final(self).completions() == old(self).completions(),
            final(self).spec_bufsize() == old(self).spec_bufsize(),
            final(self).spec_queued() == old(self).spec_queued(),
    {
        match self.remove_buffer(id) {
            Some(mut b) => {
                b.clear();
                Some(b)
            },
            None => None,
        }
    }
}

/// Handing a buffer to the pool and taking it back after the request
/// failed gives back the same buffer, with its length and contents, and
/// leaves the pool as it was.
pub proof fn law_staged_buffer_comes_back(
    before: Map<usize, FixedVec<u8>>,
    staged: Map<usize, FixedVec<u8>>,
    after: Map<usize, FixedVec<u8>>,
    id: usize,
    buffer: FixedVec<u8>,
    taken: Option<FixedVec<u8>>,
)
    requires
        !before.contains_key(id),
        staged == before.insert(id, buffer),
        taken == (if staged.contains_key(id) {
            Some(staged[id])
        } else {
            None
        }),
        after == staged.remove(id),
    ensures
        taken == Some(buffer),
        taken matches Some(b) && b@ == buffer@ && b.spec_capacity() == buffer.spec_capacity(),
        after == before,
{
    assert(after =~= before);
}

/// A buffer staged under `id`, which the kernel reports back as the 16-bit
/// id it was handed, is the buffer that a successful read of that
/// completion takes out of the pool, and taking it leaves the pool as it
/// was before the buffer was staged.
pub proof fn law_stage_then_read(
    before: Map<usize, FixedVec<u8>>,
    staged: Map<usize, FixedVec<u8>>,
    after: Map<usize, FixedVec<u8>>,
    id: usize,
    buffer: FixedVec<u8>,
    cqe: io_uring_cqe,
    taken: FixedVec<u8>,
)
    requires
        !before.contains_key(id),
        id <= u16::MAX,
        staged == before.insert(id, buffer),
        spec_buf_id(cqe) == Some(id as u16),
        spec_buf_id(cqe) matches Some(k) && taken == staged[k as usize] && after == staged.remove(
            k as usize,
        ),
    ensures
        taken == buffer,
        after == before,
{
    assert((id as u16) as usize == id) by (bit_vector)
        requires
            id <= 0xffff,
    ;
    assert(after =~= before);
}

/// The task bookkeeping of the executor: the live tasks by id and the ids
/// of the tasks queued to run, in order. The tasks themselves are polled
/// by the caller, which asks for the queue, runs each task it names and
/// reports the ones that finished.
pub struct Scheduler<F> {
    tasks: StableSlotmap<F>,
    runqueue: Vec<usize>,
}

impl<F> Scheduler<F> {
    pub closed spec fn wf(&self) -> bool {
        self.tasks.wf()
    }

    /// The live tasks by id.
    pub closed spec fn tasks(&self) -> Map<usize, F> {
        self.tasks@
    }

    /// The ids queued to run, in order.
    pub closed spec fn runqueue(&self) -> Seq<usize> {
        self.runqueue@
    }

    /// No tasks and nothing queued.
    pub fn new() -> (s: Self)
        ensures
            s.wf(),
            s.tasks() == Map::<usize, F>::empty(),
            s.runqueue() == Seq::<usize>::empty(),
    {
        Scheduler { tasks: StableSlotmap::new(), runqueue: Vec::new() }
    }

    /// Adds a task and queues it to run; returns its id.
    pub fn spawn(&mut self, task: F) -> (id: usize)
        requires
            old(self).wf(),
            old(self).tasks().len() + SLABSIZE <= usize::MAX,
        ensures
            final(self).wf(),
            !old(self).tasks().contains_key(id),
            final(self).tasks() == old(self).tasks().insert(id, task),
            final(self).runqueue() == old(self).runqueue().push(id),
    {
        let id = self.tasks.insert(task);
        self.runqueue.push(id);
        id
    }

    /// Queues the tasks of `woken`, in order, and empties it.
    pub fn queue_woken(&mut self, woken: &mut Vec<usize>)
        requires
            old(self).wf(),
        ensures
            final(self).wf(),
            final(self).tasks() == old(self).tasks(),
            final(self).runqueue() == old(self).runqueue() + old(woken)@,
            final(woken)@ == Seq::<usize>::empty(),
    {
        self.runqueue.append(woken);
    }

    /// Whether no task is queued to run.
    pub fn runqueue_is_empty(&self) -> (r: bool)
        ensures
            r == (self.runqueue().len() == 0),
    {
        self.runqueue.len() == 0
    }

    /// Whether no task is alive.
    pub fn is_empty(&self) -> (r: bool)
        requires
            self.wf(),
        ensures
            r == (self.tasks().len() == 0),
    {
        self.tasks.is_empty()
    }

    /// The number of live tasks.
    pub fn task_count(&self) -> (r: usize)
        requires
            self.wf(),
        ensures
            r == self.tasks().len(),
    {
        self.tasks.len()
    }

    /// Empties the queue and returns the ids to run now, with duplicates
    /// dropped on a best-effort basis: every queued id is still there, no
    /// other is added, and no id follows itself.
    pub fn take_runqueue(&mut self) -> (ids: Vec<usize>)
        requires
            old(self).wf(),
        ensures
            final(self).wf(),
            final(self).tasks() == old(self).tasks(),
            final(self).runqueue() == Seq::<usize>::empty(),
            ids@.to_set() == old(self).runqueue().to_set(),
            ids@.len() <= old(self).runqueue().len(),
            no_adjacent_duplicates(ids@),
            ids@ == dedup_from(old(self).runqueue(), 0, empty_table()),
    {
        dedup_partial(&mut self.runqueue);
        let mut ids: Vec<usize> = Vec::new();
        std::mem::swap(&mut ids, &mut self.runqueue);
        ids
    }

    /// The task `id`, to be polled, if it is still alive.
    pub fn task_mut(&mut self, id: usize) -> (r: Option<&mut F>)
        requires
            old(self).wf(),
        ensures
            final(self).wf(),
            r is Some <==> old(self).tasks().contains_key(id),
            r matches Some(t) ==> *t == old(self).tasks()[id] && final(self).tasks() == old(
                self,
            ).tasks().insert(id, *final(t)),
            r is None ==> final(self).tasks() == old(self).tasks(),
            final(self).runqueue() == old(self).runqueue(),
    {
        self.tasks.get_mut(id)
    }

    /// The task `id` finished: it is removed and returned.
    pub fn finish(&mut self, id: usize) -> (r: Option<F>)
        requires
            old(self).wf(),
        ensures
            final(self).wf(),
            r == (if old(self).tasks().contains_key(id) {
                Some(old(self).tasks()[id])
            } else {
                None
            }),
            final(self).tasks() == old(self).tasks().remove(id),
            final(self).runqueue() == old(self).runqueue(),
    {
        self.tasks.remove(id)
    }
}

/// The completion records and buffer pool after a completion arrives, and
/// the task it wakes, if any: the record of an unknown id is ignored; one
/// whose task is already queued only gets the completion; one whose
/// future is gone is dropped, together with its buffer if the request
/// failed and asked for that; otherwise the task is woken.
pub open spec fn completion_step<B>(
    completions: Map<usize, CompletionEvent>,
    buffers: Map<usize, B>,
    cqe: CompletionQueueEvent,
) -> (Map<usize, CompletionEvent>, Map<usize, B>, Option<usize>) {
    let cqid = cqe@.user_data as usize;
    if !completions.contains_key(cqid) {
        (completions, buffers, None)
    } else {
        let ce = completions[cqid];
        let done = CompletionEvent { cqe: Some(cqe), ..ce };
        if ce.task == NO_TASK_SENTINEL {
            (completions.insert(cqid, done), buffers, None)
        } else if ce.task == DEAD_TASK_SENTINEL {
            let buffers2 = match ce.action {
                CleanupAction::DeleteBufferOnError(bufid) => if cqe@.res < 0 {
                    buffers.remove(bufid)
                } else {
                    buffers
                },
                CleanupAction::NoAction => buffers,
            };
            (completions.remove(cqid), buffers2, None)
        } else {
            (completions.insert(cqid, done), buffers, Some(ce.task))
        }
    }
}

/// The records, pool and woken tasks after the first `n` completions of
/// `cqes`, in order.
pub open spec fn completions_after<B>(
    completions: Map<usize, CompletionEvent>,
    buffers: Map<usize, B>,
    cqes: Seq<CompletionQueueEvent>,
    n: int,
) -> (Map<usize, CompletionEvent>, Map<usize, B>, Seq<usize>)
    decreases n,
{
    if n <= 0 {
        (completions, buffers, Seq::empty())
    } else {
        let (c, b, w) = completions_after(completions, buffers, cqes, n - 1);
        let (c2, b2, t) = completion_step(c, b, cqes[n - 1]);
        (
            c2,
            b2,
            match t {
                Some(task) => w.push(task),
                None => w,
            },
        )
    }
}

impl<B> IOContextState<B> {
    /// Processes the completions `cqes` in order and returns the tasks
    /// they wake, in order.
    pub fn process_cqes(&mut self, cqes: &[CompletionQueueEvent]) -> (woken: Vec<usize>)
        requires
            old(self).wf(),
        ensures
            final(self).wf(),
            ({
                let (c, b, w) = completions_after(
                    old(self).completions(),
                    old(self).buffers(),
                    cqes@,
                    cqes@.len() as int,
                );
                &&& final(self).completions() == c
                &&& final(self).buffers() == b
                &&& woken@ == w
            }),
            final(self).spec_bufsize() == old(self).spec_bufsize(),
            final(self).spec_queued() == old(self).spec_queued(),
    {
        let mut woken: Vec<usize> = Vec::new();
        let mut i: usize = 0;
        while i < cqes.len()
            invariant
                self.wf(),
                i <= cqes@.len(),
                ({
                    let (c, b, w) = completions_after(
                        old(self).completions(),
                        old(self).buffers(),
                        cqes@,
                        i as int,
                    );
                    &&& self.completions() == c
                    &&& self.buffers() == b
                    &&& woken@ == w
                }),
                self.bufsize == old(self).bufsize,
                self.queued == old(self).queued,
            decreases cqes@.len() - i,
        {
            let cqe = cqes[i];
            let cqid = cqe.user_data() as usize;
            let ghost before_c = self.completions();
            let ghost before_b = self.buffers();
            let ghost before_w = woken@;
            match self.completions.get_mut(cqid) {
                Some(ce) => {
                    ce.cqe = Some(cqe);
                    let task = ce.task;
                    if task == NO_TASK_SENTINEL {
                    } else if task == DEAD_TASK_SENTINEL {
                        let ce = self.completions.remove(cqid);
                        match ce {
                            Some(ce) => match ce.action {
                                CleanupAction::NoAction => {},
                                CleanupAction::DeleteBufferOnError(bufid) => {
                                    if cqe.result_raw() < 0 {
                                        self.buffers.remove(bufid);
                                    }
                                },
                            },
                            None => {},
                        }
                    } else {
                        woken.push(task);
                    }
                },
                None => {},
            }
            proof {
                let (c2, b2, t) = completion_step(before_c, before_b, cqes@[i as int]);
                assert(self.completions() == c2);
                assert(self.buffers() == b2);
                assert(woken@ == match t {
                    Some(task) => before_w.push(task),
                    None => before_w,
                });
            }
            i = i + 1;
        }
        woken
    }
}

/// How many completions to wait for when entering the kernel, or `None`
/// when the kernel need not be entered: it is entered when submissions are
/// queued or when there is nothing at all to do, and it waits for one
/// completion only when there is nothing at all to do.
pub fn submit_wait_for(has_queued: bool, runqueue_empty: bool, cq_has_next: bool) -> (r: Option<
    u32,
>)
    ensures
        r is Some <==> (has_queued || (runqueue_empty && !cq_has_next)),
        r matches Some(n) ==> n == (if cq_has_next || !runqueue_empty {
            0u32
        } else {
            1u32
        }),
{
    if has_queued || (runqueue_empty && !cq_has_next) {
        if cq_has_next || !runqueue_empty {
            Some(0)
        } else {
            Some(1)
        }
    } else {
        None
    }
}

/// A completion that arrives for a request whose future still waits is
/// kept in the request's record and wakes the waiting task (unless the
/// task is already queued), so the next poll of that future returns it.
pub proof fn law_completion_reaches_poll<B>(
    completions: Map<usize, CompletionEvent>,
    buffers: Map<usize, B>,
    cqe: CompletionQueueEvent,
)
    requires
        completions.contains_key(cqe@.user_data as usize),
        completions[cqe@.user_data as usize].task != DEAD_TASK_SENTINEL,
    ensures
        ({
            let cqid = cqe@.user_data as usize;
            let (c, b, t) = completion_step(completions, buffers, cqe);
            &&& c.contains_key(cqid)
            &&& c[cqid].cqe == Some(cqe)
            &&& c[cqid].task == completions[cqid].task
            &&& b == buffers
            &&& t == (if completions[cqid].task == NO_TASK_SENTINEL {
                None
            } else {
                Some(completions[cqid].task)
            })
        }),
{
}

/// A future dropped while its request is in flight leaves nothing behind:
/// once the completion arrives the record is gone, no task is woken, the
/// other records are untouched, and a buffer the request handed to the
/// kernel leaves the pool if the request failed.
pub proof fn law_abandoned_completion_is_cleaned_up<B>(
    before: Map<usize, CompletionEvent>,
    dropped: Map<usize, CompletionEvent>,
    buffers: Map<usize, B>,
    cqe: CompletionQueueEvent,
)
    requires
        before.contains_key(cqe@.user_data as usize),
        before[cqe@.user_data as usize].cqe is None,
        dropped == before.insert(
            cqe@.user_data as usize,
            CompletionEvent { task: DEAD_TASK_SENTINEL, ..before[cqe@.user_data as usize] },
        ),
    ensures
        ({
            let cqid = cqe@.user_data as usize;
            let (c, b, t) = completion_step(dropped, buffers, cqe);
            &&& c == before.remove(cqid)
            &&& t is None
            &&& (match before[cqid].action {
                CleanupAction::DeleteBufferOnError(id) => b == (if cqe@.res < 0 {
                    buffers.remove(id)
                } else {
                    buffers
                }),
                CleanupAction::NoAction => b == buffers,
            })
        }),
{
    let cqid = cqe@.user_data as usize;
    let (c, b, t) = completion_step(dropped, buffers, cqe);
    assert(c =~= before.remove(cqid));
}

/// A completion whose id names no record changes nothing and wakes nobody.
pub proof fn law_unknown_completion_ignored<B>(
    completions: Map<usize, CompletionEvent>,
    buffers: Map<usize, B>,
    cqe: CompletionQueueEvent,
)
    requires
        !completions.contains_key(cqe@.user_data as usize),
    ensures
        completion_step(completions, buffers, cqe) == (completions, buffers, Option::<usize>::None),
{
}

/// A batch of one completion does exactly what that completion's step does,
/// and wakes exactly the task the step names.
pub proof fn law_single_completion<B>(
    completions: Map<usize, CompletionEvent>,
    buffers: Map<usize, B>,
    cqe: CompletionQueueEvent,
)
    ensures
        ({
            let (c, b, t) = completion_step(completions, buffers, cqe);
            let (c1, b1, w1) = completions_after(completions, buffers, seq![cqe], 1);
            &&& c1 == c
            &&& b1 == b
            &&& w1 == (match t {
                Some(task) => seq![task],
                None => Seq::<usize>::empty(),
            })
        }),
{
    reveal_with_fuel(completions_after, 2);
    assert(seq![cqe][0] == cqe);
    let (c, b, t) = completion_step(completions, buffers, cqe);
    match t {
        Some(task) => {
            assert(Seq::<usize>::empty().push(task) =~= seq![task]);
        },
        None => {},
    }
}

proof fn lemma_completions_prefix<B>(
    completions: Map<usize, CompletionEvent>,
    buffers: Map<usize, B>,
    s: Seq<CompletionQueueEvent>,
    t: Seq<CompletionQueueEvent>,
    n: int,
)
    requires
        0 <= n <= s.len(),
        n <= t.len(),
        forall|i: int| 0 <= i < n ==> s[i] == t[i],
    ensures
        completions_after(completions, buffers, s, n) == completions_after(
            completions,
            buffers,
            t,
            n,
        ),
    decreases n,
{
    if n > 0 {
        lemma_completions_prefix(completions, buffers, s, t, n - 1);
        assert(s[n - 1] == t[n - 1]);
    }
}

/// Processing a batch of completions is processing its first part and then
/// the rest: the records and pool end the same, and the tasks woken are
/// those the first part wakes followed by those the rest wakes. So every
/// completion wakes its task whatever else arrives in the same batch.
pub proof fn law_batch_splits<B>(
    completions: Map<usize, CompletionEvent>,
    buffers: Map<usize, B>,
    first: Seq<CompletionQueueEvent>,
    rest: Seq<CompletionQueueEvent>,
)
    ensures
        ({
            let (c1, b1, w1) = completions_after(completions, buffers, first, first.len() as int);
            let (c2, b2, w2) = completions_after(c1, b1, rest, rest.len() as int);
            let (c, b, w) = completions_after(
                completions,
                buffers,
                first + rest,
                (first + rest).len() as int,
            );
            &&& c == c2
            &&& b == b2
            &&& w == w1 + w2
        }),
    decreases rest.len(),
{
    let (c1, b1, w1) = completions_after(completions, buffers, first, first.len() as int);
    if rest.len() == 0 {
        assert(first + rest =~= first);
        assert(w1 + Seq::<usize>::empty() =~= w1);
    } else {
        let front = rest.drop_last();
        law_batch_splits(completions, buffers, first, front);
        let all = first + rest;
        let n = all.len() as int;
        lemma_completions_prefix(completions, buffers, all, first + front, n - 1);
        lemma_completions_prefix(c1, b1, rest, front, rest.len() - 1);
        assert(all[n - 1] == rest[rest.len() - 1]);
        let (c2, b2, w2) = completions_after(c1, b1, front, front.len() as int);
        let (cs, bs, t) = completion_step(c2, b2, rest[rest.len() - 1]);
        match t {
            Some(task) => {
                assert((w1 + w2).push(task) =~= w1 + w2.push(task));
            },
            None => {},
        }
    }
}

} // verus!
