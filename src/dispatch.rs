use vstd::prelude::*;
use std::collections::VecDeque;

verus! {

/// What the single worker is doing.
#[derive(Debug, Clone, Copy, PartialEq, Eq, Structural)]
pub enum WorkerPhase {
    /// Waiting for the next task.
    Idle,
    /// Running one task; no other task is started until it is finished.
    Executing,
    /// The queue was closed and drained; the worker has stopped.
    Terminated,
}

/// What the worker is told to do next.
#[derive(Debug)]
pub enum WorkerAction<T> {
    /// The worker runs the task carried here, hands on its reply, then reports
    /// with [`DispatchQueue::finish`].
    Execute(T),
    /// Nothing can be started now: wait for a submission, a close, or the end of
    /// the running task.
    Wait,
    /// The queue is closed and every accepted task has been handed out: stop.
    Stop,
}

/// The abstract state of a dispatch queue.
pub struct DispatchView<T> {
    /// Accepted tasks not yet handed to the worker, oldest first.
    pub pending: Seq<T>,
    pub phase: WorkerPhase,
    /// Whether the queue refuses new submissions.
    pub closed: bool,
    /// Every task ever accepted, in order of arrival.
    pub accepted: Seq<T>,
    /// Every task ever handed to the worker, in the order it was handed out.
    pub dispatched: Seq<T>,
    /// How many handed-out tasks the worker has finished.
    pub finished: nat,
}

/// The queue that funnels submitted tasks, first in first out, to one worker
/// that runs them one at a time.
///
/// Submitting never blocks. The worker asks for work with [`DispatchQueue::next`]
/// and reports the end of each task with [`DispatchQueue::finish`]; closing the
/// queue lets the worker drain what was accepted and then stop.
pub struct DispatchQueue<T> {
    pending: VecDeque<T>,
    phase: WorkerPhase,
    closed: bool,
    accepted: Ghost<Seq<T>>,
    dispatched: Ghost<Seq<T>>,
    finished: Ghost<nat>,
}

impl<T> View for DispatchQueue<T> {
    type V = DispatchView<T>;

    closed spec fn view(&self) -> DispatchView<T> {
        DispatchView {
            pending: self.pending@,
            phase: self.phase,
            closed: self.closed,
            accepted: self.accepted@,
            dispatched: self.dispatched@,
            finished: self.finished@,
        }
    }
}

impl<T> DispatchView<T> {
    /// The bookkeeping that every reachable state satisfies: tasks leave in the
    /// order they arrived, at most one handed-out task is unfinished, and the
    /// worker stops only on a closed, drained queue.
    pub open spec fn wf(self) -> bool {
        &&& self.dispatched + self.pending == self.accepted
        &&& self.finished + (if self.phase == WorkerPhase::Executing { 1int } else { 0int })
            == self.dispatched.len()
        &&& self.phase == WorkerPhase::Terminated ==> self.closed && self.pending.len() == 0
    }

    /// The state after `task` is submitted: an open queue appends it; a closed
    /// one is left as it is.
    pub open spec fn after_submit(self, task: T) -> DispatchView<T> {
        if self.closed {
            self
        } else {
            DispatchView {
                pending: self.pending.push(task),
                accepted: self.accepted.push(task),
                ..self
            }
        }
    }

    /// What the worker is told by [`DispatchQueue::next`] in this state.
    pub open spec fn next_action(self) -> WorkerAction<T> {
        match self.phase {
            WorkerPhase::Idle => if self.pending.len() > 0 {
                WorkerAction::Execute(self.pending[0])
            } else if self.closed {
                WorkerAction::Stop
            } else {
                WorkerAction::Wait
            },
            WorkerPhase::Executing => WorkerAction::Wait,
            WorkerPhase::Terminated => WorkerAction::Stop,
        }
    }

    /// The state after [`DispatchQueue::next`]: an idle worker takes the oldest
    /// pending task, or stops on a closed, drained queue.
    pub open spec fn after_next(self) -> DispatchView<T> {
        match self.phase {
            WorkerPhase::Idle => if self.pending.len() > 0 {
                DispatchView {
                    pending: self.pending.drop_first(),
                    phase: WorkerPhase::Executing,
                    dispatched: self.dispatched.push(self.pending[0]),
                    ..self
                }
            } else if self.closed {
                DispatchView { phase: WorkerPhase::Terminated, ..self }
            } else {
                self
            },
            _ => self,
        }
    }

    /// The state after [`DispatchQueue::finish`]: a running task counts as
    /// finished and the worker is idle again.
    pub open spec fn after_finish(self) -> DispatchView<T> {
        if self.phase == WorkerPhase::Executing {
            DispatchView { phase: WorkerPhase::Idle, finished: self.finished + 1, ..self }
        } else {
            self
        }
    }

    /// The state after [`DispatchQueue::close`].
    pub open spec fn after_close(self) -> DispatchView<T> {
        DispatchView { closed: true, ..self }
    }
}

impl<T> DispatchQueue<T> {
    #[verifier::type_invariant]
    closed spec fn inv(&self) -> bool {
        self@.wf()
    }

    /// An open, empty queue with an idle worker.
    pub fn new() -> (r: DispatchQueue<T>)
        ensures
            r@.wf(),
            r@.pending == Seq::<T>::empty(),
            r@.phase == WorkerPhase::Idle,
            !r@.closed,
            r@.accepted == Seq::<T>::empty(),
            r@.dispatched == Seq::<T>::empty(),
            r@.finished == 0,
    {
        DispatchQueue {
            pending: VecDeque::new(),
            phase: WorkerPhase::Idle,
            closed: false,
            accepted: Ghost(Seq::empty()),
            dispatched: Ghost(Seq::empty()),
            finished: Ghost(0),
        }
    }

    /// Queues `task` behind every task accepted before it. A closed queue hands
    /// the task back unchanged in `Err`.
    pub fn submit(&mut self, task: T) -> (r: Result<(), T>)
        ensures
            final(self)@.wf(),
            final(self)@ == old(self)@.after_submit(task),
            old(self)@.closed ==> r == Err::<(), T>(task),
            !old(self)@.closed ==> r is Ok,
    {
        proof {
            use_type_invariant(&*self);
        }
        if self.closed {
            return Err(task);
        }
        let mut q = DispatchQueue::new();
        std::mem::swap(self, &mut q);
        proof {
            use_type_invariant(&q);
        }
        let DispatchQueue { mut pending, phase, closed, accepted, dispatched, finished } = q;
        pending.push_back(task);
        let ghost accepted = accepted@.push(task);
        proof {
            assert(dispatched@ + pending@ =~= accepted);
        }
        *self = DispatchQueue { pending, phase, closed, accepted: Ghost(accepted), dispatched, finished };
        Ok(())
    }

    /// The worker's next step. An idle worker is handed the oldest pending task
    /// and starts executing it; with nothing pending it waits, or stops once the
    /// queue is closed. A worker that is executing is told to wait, and a stopped
    /// one to stop, without any change.
    pub fn next(&mut self) -> (r: WorkerAction<T>)
        ensures
            final(self)@.wf(),
            final(self)@ == old(self)@.after_next(),
            r == old(self)@.next_action(),
    {
        proof {
            use_type_invariant(&*self);
        }
        match self.phase {
            WorkerPhase::Executing => WorkerAction::Wait,
            WorkerPhase::Terminated => WorkerAction::Stop,
            WorkerPhase::Idle => {
                let mut q = DispatchQueue::new();
                std::mem::swap(self, &mut q);
                proof {
                    use_type_invariant(&q);
                }
                let DispatchQueue { mut pending, phase, closed, accepted, dispatched, finished } = q;
                let ghost before = pending@;
                match pending.pop_front() {
                    Some(task) => {
                        let ghost dispatched = dispatched@.push(task);
                        proof {
                            assert(before =~= seq![task] + before.drop_first());
                            assert(dispatched + pending@ =~= accepted@);
                        }
                        *self = DispatchQueue {
                            pending,
                            phase: WorkerPhase::Executing,
                            closed,
                            accepted,
                            dispatched: Ghost(dispatched),
                            finished,
                        };
                        WorkerAction::Execute(task)
                    },
                    None => {
                        let phase = if closed {
                            WorkerPhase::Terminated
                        } else {
                            WorkerPhase::Idle
                        };
                        *self = DispatchQueue { pending, phase, closed, accepted, dispatched, finished };
                        if closed {
                            WorkerAction::Stop
                        } else {
                            WorkerAction::Wait
                        }
                    },
                }
            },
        }
    }

    /// Reports that the running task's outcome was handed on (or dropped because
    /// its submitter stopped waiting); the worker becomes idle. Without a running
    /// task nothing changes.
    pub fn finish(&mut self)
        ensures
            final(self)@.wf(),
            final(self)@ == old(self)@.after_finish(),
    {
        proof {
            use_type_invariant(&*self);
        }
        if self.phase == WorkerPhase::Executing {
            let mut q = DispatchQueue::new();
            std::mem::swap(self, &mut q);
            proof {
                use_type_invariant(&q);
            }
            let DispatchQueue { pending, phase: _, closed, accepted, dispatched, finished } = q;
            *self = DispatchQueue {
                pending,
                phase: WorkerPhase::Idle,
                closed,
                accepted,
                dispatched,
                finished: Ghost(finished@ + 1),
            };
        }
    }

    /// Refuses every later submission. Tasks already accepted are still handed out.
    pub fn close(&mut self)
        ensures
            final(self)@.wf(),
            final(self)@ == old(self)@.after_close(),
    {
        proof {
            use_type_invariant(&*self);
        }
        self.closed = true;
    }

    /// Whether submissions are refused.
    pub fn is_closed(&self) -> (r: bool)
        ensures
            r == self@.closed,
    {
        self.closed
    }

    /// What the worker is doing.
    pub fn phase(&self) -> (r: WorkerPhase)
        ensures
            r == self@.phase,
    {
        self.phase
    }

    /// How many accepted tasks wait to be handed out.
    pub fn pending_len(&self) -> (r: usize)
        ensures
            r == self@.pending.len(),
    {
        self.pending.len()
    }
}

/// The worker loop run for `n` rounds from state `v`: each round takes the next
/// task and finishes it.
pub open spec fn run_rounds<T>(v: DispatchView<T>, n: nat) -> DispatchView<T>
    decreases n,
{
    if n == 0 {
        v
    } else {
        run_rounds(v.after_next().after_finish(), (n - 1) as nat)
    }
}

/// Every operation on the queue keeps its bookkeeping.
pub proof fn lemma_transitions_keep_wf<T>(v: DispatchView<T>, task: T)
    requires
        v.wf(),
    ensures
        v.after_submit(task).wf(),
        v.after_next().wf(),
        v.after_finish().wf(),
        v.after_close().wf(),
{
    if !v.closed {
        assert(v.dispatched + v.pending.push(task) =~= v.accepted.push(task));
    }
    if v.phase == WorkerPhase::Idle && v.pending.len() > 0 {
        assert(v.dispatched.push(v.pending[0]) + v.pending.drop_first() =~= v.dispatched + v.pending);
    }
}

/// First in, first out: the i-th task handed to the worker is the i-th task
/// accepted, and the tasks still waiting are the later ones, in order of arrival.
pub proof fn lemma_fifo<T>(v: DispatchView<T>)
    requires
        v.wf(),
    ensures
        v.dispatched =~= v.accepted.subrange(0, v.dispatched.len() as int),
        v.pending =~= v.accepted.subrange(v.dispatched.len() as int, v.accepted.len() as int),
{
}

/// Three tasks submitted one after another to an idle, open, empty queue are run
/// in that order, each only after the one before it has finished.
pub proof fn lemma_fifo_three<T>(v: DispatchView<T>, t1: T, t2: T, t3: T)
    requires
        v.wf(),
        !v.closed,
        v.phase == WorkerPhase::Idle,
        v.pending.len() == 0,
    ensures
        ({
            let w = v.after_submit(t1).after_submit(t2).after_submit(t3);
            let w1 = w.after_next();
            let w2 = w1.after_finish().after_next();
            let w3 = w2.after_finish().after_next();
            &&& w.next_action() == WorkerAction::Execute(t1)
            &&& w1.next_action() is Wait
            &&& w1.after_finish().next_action() == WorkerAction::Execute(t2)
            &&& w2.next_action() is Wait
            &&& w2.after_finish().next_action() == WorkerAction::Execute(t3)
            &&& w3.next_action() is Wait
            &&& w3.after_finish().pending.len() == 0
        }),
{
    let w = v.after_submit(t1).after_submit(t2).after_submit(t3);
    assert(w.pending =~= seq![t1, t2, t3]);
    assert(w.after_next().pending =~= seq![t2, t3]);
    assert(w.after_next().after_finish().after_next().pending =~= seq![t3]);
}

/// No two tasks ever run at once: at most one handed-out task is unfinished,
/// exactly when the worker is executing, and while it executes no further task
/// is handed out.
pub proof fn lemma_at_most_one_in_flight<T>(v: DispatchView<T>)
    requires
        v.wf(),
    ensures
        v.finished <= v.dispatched.len() <= v.finished + 1,
        v.dispatched.len() == v.finished + 1 <==> v.phase == WorkerPhase::Executing,
        v.phase == WorkerPhase::Executing ==> v.next_action() is Wait && v.after_next() == v,
{
}

/// Every accepted task is handed out at most once, and a worker stops only after
/// each accepted task was handed out and finished.
pub proof fn lemma_each_task_once<T>(v: DispatchView<T>)
    requires
        v.wf(),
    ensures
        v.dispatched.len() <= v.accepted.len(),
        forall|i: int| 0 <= i < v.dispatched.len() ==> #[trigger] v.dispatched[i] == v.accepted[i],
        v.phase == WorkerPhase::Terminated ==> v.dispatched == v.accepted && v.finished
            == v.accepted.len(),
{
    if v.phase == WorkerPhase::Terminated {
        assert(v.dispatched + v.pending =~= v.dispatched);
    }
}

/// A worker that keeps taking and finishing tasks runs every task waiting in an
/// idle queue: after as many rounds as there are waiting tasks, each has been
/// handed out once, in order, and finished.
pub proof fn lemma_all_pending_run<T>(v: DispatchView<T>)
    requires
        v.wf(),
        v.phase == WorkerPhase::Idle,
    ensures
        ({
            let w = run_rounds(v, v.pending.len());
            &&& w.wf()
            &&& w.phase == WorkerPhase::Idle
            &&& w.pending.len() == 0
            &&& w.dispatched == v.dispatched + v.pending
            &&& w.dispatched == w.accepted
            &&& w.finished == w.accepted.len()
        }),
    decreases v.pending.len(),
{
    if v.pending.len() > 0 {
        let u = v.after_next().after_finish();
        lemma_transitions_keep_wf(v, v.pending[0]);
        lemma_transitions_keep_wf(v.after_next(), v.pending[0]);
        lemma_all_pending_run(u);
        assert(v.dispatched.push(v.pending[0]) + v.pending.drop_first() =~= v.dispatched + v.pending);
        assert(run_rounds(v, v.pending.len()) == run_rounds(u, u.pending.len()));
    } else {
        assert(v.dispatched + v.pending =~= v.dispatched);
    }
}

/// Finishing a task, whether its reply reached the submitter or was dropped
/// because the submitter stopped waiting, lets the worker go on with the next
/// queued task.
pub proof fn lemma_next_after_finish<T>(v: DispatchView<T>)
    requires
        v.wf(),
        v.phase == WorkerPhase::Executing,
        v.pending.len() > 0,
    ensures
        v.after_finish().next_action() == WorkerAction::Execute(v.pending[0]),
        v.after_finish().after_next().pending == v.pending.drop_first(),
{
}

} // verus!
