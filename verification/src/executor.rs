//! The cooperative scheduler: a fixed table of tasks, the queue of those that
//! are ready, and the deadlines of those that sleep.

use vstd::prelude::*;

verus! {

/// The handle by which a suspended task is made ready.
#[derive(Clone, Copy, Debug, PartialEq, Eq, Structural)]
pub struct Waker {
    /// The index of the task in the scheduler's table.
    pub task: usize,
}

/// What a suspendable operation answers when it is polled.
#[derive(Debug)]
pub enum Poll<T> {
    /// The operation has finished with this outcome.
    Ready(T),
    /// The operation is still in flight; the task suspends.
    Pending,
}

/// What the scheduler knows of one slot of its table.
#[derive(Clone, Copy, Debug, PartialEq, Eq, Structural)]
pub enum TaskState {
    /// No task lives in the slot.
    Vacant,
    /// The task waits for a wakeup.
    Suspended,
    /// The task has been woken and waits in the run queue for its poll.
    Ready,
}

/// One slot of the task table.
#[derive(Clone, Copy, Debug)]
pub struct Task {
    pub state: TaskState,
    /// The instant at which the timer wakes the task, if it sleeps on one.
    pub expires_at: Option<u64>,
}

/// What the scheduler loop does next.
#[derive(Clone, Copy, Debug, PartialEq, Eq, Structural)]
pub enum Action {
    /// Some task is ready: run a round.
    Poll,
    /// Nothing is ready: wait in low power for the next interrupt.
    Sleep,
}

/// The mathematical model of an [`Executor`].
pub struct ExecutorView {
    pub tasks: Seq<Task>,
    /// The ready tasks, the one woken first at the front.
    pub queue: Seq<usize>,
    /// The deadline that the alarm comparator was last programmed with.
    pub alarm: Option<u64>,
}

impl ExecutorView {
    /// The queue holds exactly the ready tasks, each once, and only a
    /// suspended task has a deadline.
    pub open spec fn wf(self) -> bool {
        &&& self.tasks.len() <= usize::MAX
        &&& forall|i: int|
            0 <= i < self.queue.len() ==> (#[trigger] self.queue[i]) < self.tasks.len()
                && self.tasks[self.queue[i] as int].state == TaskState::Ready
        &&& forall|t: int|
            0 <= t < self.tasks.len() && (#[trigger] self.tasks[t]).state == TaskState::Ready
                ==> self.queue.contains(t as usize)
        &&& self.queue.no_duplicates()
        &&& forall|t: int|
            0 <= t < self.tasks.len() && (#[trigger] self.tasks[t]).expires_at is Some
                ==> self.tasks[t].state == TaskState::Suspended
    }

    pub open spec fn state_of(self, task: usize) -> TaskState {
        if task < self.tasks.len() {
            self.tasks[task as int].state
        } else {
            TaskState::Vacant
        }
    }

    pub open spec fn is_ready(self, task: usize) -> bool {
        self.state_of(task) == TaskState::Ready
    }

    pub open spec fn is_suspended(self, task: usize) -> bool {
        self.state_of(task) == TaskState::Suspended
    }

    /// A suspended task becomes ready, loses its deadline and joins the back
    /// of the queue; on any other task a wakeup changes nothing.
    pub open spec fn wake(self, task: usize) -> ExecutorView {
        if self.is_suspended(task) {
            ExecutorView {
                tasks: self.tasks.update(
                    task as int,
                    Task { state: TaskState::Ready, expires_at: None },
                ),
                queue: self.queue.push(task),
                alarm: self.alarm,
            }
        } else {
            self
        }
    }

    /// The table with the task in slot `task` made ready and put at the
    /// back of the queue.
    pub open spec fn enqueued(self, task: usize) -> ExecutorView {
        ExecutorView {
            tasks: self.tasks.update(
                task as int,
                Task { state: TaskState::Ready, expires_at: None },
            ),
            queue: self.queue.push(task),
            alarm: self.alarm,
        }
    }

    /// Whether slot `task` is the first vacant one.
    pub open spec fn first_vacant(self, task: usize) -> bool {
        &&& task < self.tasks.len()
        &&& self.tasks[task as int].state == TaskState::Vacant
        &&& forall|t: int| 0 <= t < task ==> (#[trigger] self.tasks[t]).state != TaskState::Vacant
    }

    /// Whether no slot is vacant.
    pub open spec fn full(self) -> bool {
        forall|t: int|
            0 <= t < self.tasks.len() ==> (#[trigger] self.tasks[t]).state != TaskState::Vacant
    }

    /// The table at the start of a round: the queue is handed out, and every
    /// task that was in it counts as suspended while it is polled.
    pub open spec fn dequeued(self) -> ExecutorView {
        ExecutorView {
            tasks: Seq::new(
                self.tasks.len(),
                |t: int|
                    if self.tasks[t].state == TaskState::Ready {
                        Task { state: TaskState::Suspended, expires_at: None }
                    } else {
                        self.tasks[t]
                    },
            ),
            queue: Seq::empty(),
            alarm: self.alarm,
        }
    }

    /// The queue without `task`.
    pub open spec fn queue_without(self, task: usize) -> Seq<usize> {
        if self.queue.contains(task) {
            self.queue.remove(self.queue.index_of(task))
        } else {
            self.queue
        }
    }

    /// The table after the task in slot `task` has finished: the slot is
    /// vacant and the task is in the queue no more.
    pub open spec fn completed(self, task: usize) -> ExecutorView {
        if task < self.tasks.len() {
            ExecutorView {
                tasks: self.tasks.update(
                    task as int,
                    Task { state: TaskState::Vacant, expires_at: None },
                ),
                queue: self.queue_without(task),
                alarm: self.alarm,
            }
        } else {
            self
        }
    }

    /// The table after the task in slot `task` asked to be woken at
    /// `deadline`: a suspended task keeps the earlier of this and the
    /// deadline it had; on any other task nothing changes.
    pub open spec fn sleeping(self, task: usize, deadline: u64) -> ExecutorView {
        if self.is_suspended(task) {
            ExecutorView {
                tasks: self.tasks.update(
                    task as int,
                    Task {
                        state: TaskState::Suspended,
                        expires_at: Some(earlier(self.tasks[task as int].expires_at, deadline)),
                    },
                ),
                ..self
            }
        } else {
            self
        }
    }

    /// Whether `deadline` is the earliest deadline of any task.
    pub open spec fn earliest(self, deadline: u64) -> bool {
        &&& exists|t: int|
            0 <= t < self.tasks.len() && (#[trigger] self.tasks[t]).expires_at == Some(deadline)
        &&& forall|t: int|
            0 <= t < self.tasks.len() ==> ((#[trigger] self.tasks[t]).expires_at matches Some(d)
                ==> deadline <= d)
    }

    /// Whether no task has a deadline.
    pub open spec fn timeless(self) -> bool {
        forall|t: int| 0 <= t < self.tasks.len() ==> (#[trigger] self.tasks[t]).expires_at is None
    }

    /// The table after the timer has woken, in the order of their slots,
    /// those of the first `n` tasks whose deadline is at or before `now`.
    pub open spec fn expired(self, now: u64, n: nat) -> ExecutorView
        decreases n,
    {
        if n == 0 {
            self
        } else {
            let before = self.expired(now, (n - 1) as nat);
            if due(before.tasks[n - 1], now) {
                before.wake((n - 1) as usize)
            } else {
                before
            }
        }
    }

    /// A wakeup of the task in `waker`, if there is one.
    pub open spec fn wake_opt(self, waker: Option<Waker>) -> ExecutorView {
        match waker {
            Some(w) => self.wake(w.task),
            None => self,
        }
    }
}

/// The earlier of `deadline` and the deadline that is `present`, if there is
/// one.
pub open spec fn earlier(present: Option<u64>, deadline: u64) -> u64 {
    match present {
        Some(d) => if d <= deadline {
            d
        } else {
            deadline
        },
        None => deadline,
    }
}

/// Whether the timer has to wake `task` at `now`.
pub open spec fn due(task: Task, now: u64) -> bool {
    task.expires_at matches Some(d) && d <= now
}

/// A task that is not ready can be made ready and queued.
pub proof fn lemma_enqueued_wf(e: ExecutorView, task: usize)
    requires
        e.wf(),
        task < e.tasks.len(),
        e.tasks[task as int].state != TaskState::Ready,
    ensures
        e.enqueued(task).wf(),
{
    let w = e.enqueued(task);
    assert(!e.queue.contains(task));
    assert forall|t: int|
        0 <= t < w.tasks.len() && (#[trigger] w.tasks[t]).state == TaskState::Ready implies w.queue.contains(
        t as usize,
    ) by {
        if t == task as int {
            assert(w.queue[e.queue.len() as int] == task);
        } else {
            assert(e.tasks[t].state == TaskState::Ready);
            let i = choose|i: int| 0 <= i < e.queue.len() && e.queue[i] == t as usize;
            assert(w.queue[i] == t as usize);
        }
    }
    assert forall|i: int, j: int|
        0 <= i < w.queue.len() && 0 <= j < w.queue.len() && i != j implies w.queue[i]
        != w.queue[j] by {
        if i < e.queue.len() && j < e.queue.len() {
        } else if i < e.queue.len() {
            assert(e.queue.contains(e.queue[i]));
        } else {
            assert(e.queue.contains(e.queue[j]));
        }
    }
}

/// A wakeup keeps the table well formed.
pub proof fn lemma_wake_wf(e: ExecutorView, task: usize)
    requires
        e.wf(),
    ensures
        e.wake(task).wf(),
        e.wake(task).tasks.len() == e.tasks.len(),
{
    if e.is_suspended(task) {
        lemma_enqueued_wf(e, task);
    }
}

/// The start of a round leaves a well-formed table in which nothing is
/// ready.
pub proof fn lemma_dequeued_wf(e: ExecutorView)
    requires
        e.wf(),
    ensures
        e.dequeued().wf(),
{
}

/// A finished task leaves a well-formed table.
pub proof fn lemma_completed_wf(e: ExecutorView, task: usize)
    requires
        e.wf(),
    ensures
        e.completed(task).wf(),
{
    if task < e.tasks.len() {
        let c = e.completed(task);
        if e.queue.contains(task) {
            let k = e.queue.index_of(task);
            assert(0 <= k < e.queue.len() && e.queue[k] == task);
            assert forall|i: int| 0 <= i < c.queue.len() implies (#[trigger] c.queue[i])
                < c.tasks.len() && c.tasks[c.queue[i] as int].state == TaskState::Ready
                && c.queue[i] != task by {
                if i < k {
                    assert(c.queue[i] == e.queue[i]);
                } else {
                    assert(c.queue[i] == e.queue[i + 1]);
                }
            }
            assert forall|t: int|
                0 <= t < c.tasks.len() && (#[trigger] c.tasks[t]).state
                    == TaskState::Ready implies c.queue.contains(t as usize) by {
                assert(t != task);
                assert(e.tasks[t].state == TaskState::Ready);
                let i = choose|i: int| 0 <= i < e.queue.len() && e.queue[i] == t as usize;
                if i < k {
                    assert(c.queue[i] == t as usize);
                } else {
                    assert(i != k);
                    assert(c.queue[i - 1] == t as usize);
                }
            }
            assert forall|i: int, j: int|
                0 <= i < c.queue.len() && 0 <= j < c.queue.len() && i != j implies c.queue[i]
                != c.queue[j] by {
                let oi = if i < k {
                    i
                } else {
                    i + 1
                };
                let oj = if j < k {
                    j
                } else {
                    j + 1
                };
                assert(c.queue[i] == e.queue[oi]);
                assert(c.queue[j] == e.queue[oj]);
            }
        } else {
            assert forall|i: int| 0 <= i < c.queue.len() implies (#[trigger] c.queue[i])
                != task by {
                assert(e.queue.contains(e.queue[i]));
            }
            assert forall|t: int|
                0 <= t < c.tasks.len() && (#[trigger] c.tasks[t]).state
                    == TaskState::Ready implies c.queue.contains(t as usize) by {
                assert(e.tasks[t].state == TaskState::Ready);
            }
        }
    }
}

/// What the timer leaves behind: a well-formed table in which none of the
/// first `n` tasks is due at `now`, every task that was not due is as it
/// was, and every task that was due is ready.
pub proof fn lemma_expired(e: ExecutorView, now: u64, n: nat)
    requires
        e.wf(),
        n <= e.tasks.len(),
    ensures
        e.expired(now, n).wf(),
        e.expired(now, n).tasks.len() == e.tasks.len(),
        e.expired(now, n).alarm == e.alarm,
        forall|t: int|
            0 <= t < e.tasks.len() ==> (#[trigger] e.expired(now, n).tasks[t]) == if t < n && due(
                e.tasks[t],
                now,
            ) {
                Task { state: TaskState::Ready, expires_at: None }
            } else {
                e.tasks[t]
            },
    decreases n,
{
    if n > 0 {
        lemma_expired(e, now, (n - 1) as nat);
        let before = e.expired(now, (n - 1) as nat);
        assert(before.tasks[n - 1] == e.tasks[n - 1]);
        lemma_wake_wf(before, (n - 1) as usize);
    }
}

pub struct Executor {
    tasks: Vec<Task>,
    queue: Vec<usize>,
    alarm: Option<u64>,
}

impl View for Executor {
    type V = ExecutorView;

    closed spec fn view(&self) -> ExecutorView {
        ExecutorView { tasks: self.tasks@, queue: self.queue@, alarm: self.alarm }
    }
}

impl Executor {
    pub open spec fn wf(&self) -> bool {
        self@.wf()
    }

    /// A scheduler with room for `capacity` tasks, none of them spawned.
    pub fn new(capacity: usize) -> (executor: Executor)
        ensures
            executor.wf(),
            executor@.tasks.len() == capacity,
            forall|t: int|
                0 <= t < capacity ==> (#[trigger] executor@.tasks[t]).state == TaskState::Vacant,
            executor@.queue.len() == 0,
            executor@.alarm is None,
    {
        let mut tasks: Vec<Task> = Vec::new();
        let mut i: usize = 0;
        while i < capacity
            invariant
                i <= capacity,
                tasks@.len() == i,
                forall|t: int|
                    0 <= t < i ==> (#[trigger] tasks@[t]).state == TaskState::Vacant
                        && tasks@[t].expires_at is None,
            decreases capacity - i,
        {
            tasks.push(Task { state: TaskState::Vacant, expires_at: None });
            i += 1;
        }
        Executor { tasks, queue: Vec::new(), alarm: None }
    }

    /// The number of slots in the task table.
    pub fn capacity(&self) -> (n: usize)
        ensures
            n == self@.tasks.len(),
    {
        self.tasks.len()
    }

    /// The state of the task in slot `task`; a slot outside the table counts
    /// as vacant.
    pub fn state(&self, task: usize) -> (state: TaskState)
        ensures
            state == self@.state_of(task),
    {
        if task < self.tasks.len() {
            self.tasks[task].state
        } else {
            TaskState::Vacant
        }
    }

    /// Invokes `waker`: its task, if suspended, becomes ready.
    pub fn wake(&mut self, waker: Waker)
        requires
            old(self).wf(),
        ensures
            final(self).wf(),
            final(self)@ == old(self)@.wake(waker.task),
    {
        proof {
            lemma_wake_wf(self@, waker.task);
        }
        if waker.task < self.tasks.len() {
            if self.tasks[waker.task].state == TaskState::Suspended {
                self.tasks.set(waker.task, Task { state: TaskState::Ready, expires_at: None });
                self.queue.push(waker.task);
            }
        }
    }

    /// Puts a new task into the first vacant slot, ready for its first
    /// poll, and hands out its waker. Answers `None`, and changes nothing,
    /// when no slot is vacant.
    pub fn spawn(&mut self) -> (waker: Option<Waker>)
        requires
            old(self).wf(),
        ensures
            final(self).wf(),
            match waker {
                Some(w) => old(self)@.first_vacant(w.task) && final(self)@ == old(self)@.enqueued(
                    w.task,
                ),
                None => old(self)@.full() && final(self)@ == old(self)@,
            },
    {
        let mut slot: usize = 0;
        while slot < self.tasks.len()
            invariant
                self.wf(),
                *self == *old(self),
                slot <= self.tasks@.len(),
                forall|t: int| 0 <= t < slot ==> (#[trigger] self@.tasks[t]).state != TaskState::Vacant,
            decreases self.tasks@.len() - slot,
        {
            if self.tasks[slot].state == TaskState::Vacant {
                proof {
                    lemma_enqueued_wf(self@, slot);
                }
                self.tasks.set(slot, Task { state: TaskState::Ready, expires_at: None });
                self.queue.push(slot);
                return Some(Waker { task: slot });
            }
            slot += 1;
        }
        None
    }

    /// Begins a round: hands out the tasks that are ready, the one woken
    /// first at the front. Each of them is to be polled once; while it is
    /// polled it counts as suspended, so that a wakeup during the poll makes
    /// it ready for the next round.
    pub fn take_ready(&mut self) -> (ready: Vec<usize>)
        requires
            old(self).wf(),
        ensures
            final(self).wf(),
            ready@ == old(self)@.queue,
            final(self)@ == old(self)@.dequeued(),
    {
        let mut ready: Vec<usize> = Vec::new();
        core::mem::swap(&mut self.queue, &mut ready);
        let mut i: usize = 0;
        while i < ready.len()
            invariant
                old(self).wf(),
                ready@ == old(self)@.queue,
                i <= ready@.len(),
                self.queue@.len() == 0,
                self.alarm == old(self).alarm,
                self.tasks@.len() == old(self)@.tasks.len(),
                forall|t: int|
                    0 <= t < self.tasks@.len() ==> (#[trigger] self.tasks@[t]) == if ready@.take(
                        i as int,
                    ).contains(t as usize) {
                        Task { state: TaskState::Suspended, expires_at: None }
                    } else {
                        old(self)@.tasks[t]
                    },
            decreases ready@.len() - i,
        {
            let task = ready[i];
            proof {
                let before = ready@.take(i as int);
                let after = ready@.take(i + 1);
                assert(after =~= before.push(task));
                assert forall|t: usize| after.contains(t) <==> before.contains(t) || t == task by {
                    if before.contains(t) {
                        let k = choose|k: int| 0 <= k < before.len() && before[k] == t;
                        assert(after[k] == t);
                    }
                    if t == task {
                        assert(after[i as int] == t);
                    }
                }
            }
            self.tasks.set(task, Task { state: TaskState::Suspended, expires_at: None });
            i += 1;
        }
        proof {
            assert(ready@.take(ready@.len() as int) =~= ready@);
            assert forall|t: int| 0 <= t < self.tasks@.len() implies self.tasks@[t] == old(
                self,
            )@.dequeued().tasks[t] by {
                if old(self)@.tasks[t].state == TaskState::Ready {
                    assert(ready@.contains(t as usize));
                } else if ready@.contains(t as usize) {
                    let k = choose|k: int| 0 <= k < ready@.len() && ready@[k] == t as usize;
                    assert(old(self)@.tasks[ready@[k] as int].state == TaskState::Ready);
                }
            }
            assert(self@.tasks =~= old(self)@.dequeued().tasks);
            assert(self@.queue =~= old(self)@.dequeued().queue);
            lemma_dequeued_wf(old(self)@);
        }
        ready
    }

    /// Notes that the task in slot `task` has finished: the slot is vacant
    /// again, and a wakeup that came while the task was polled is dropped.
    /// On a slot outside the table nothing is done.
    pub fn complete(&mut self, task: usize)
        requires
            old(self).wf(),
        ensures
            final(self).wf(),
            final(self)@ == old(self)@.completed(task),
    {
        if task >= self.tasks.len() {
            return ;
        }
        proof {
            lemma_completed_wf(self@, task);
        }
        self.tasks.set(task, Task { state: TaskState::Vacant, expires_at: None });
        let mut i: usize = 0;
        while i < self.queue.len()
            invariant
                self.queue@ == old(self)@.queue,
                self.alarm == old(self).alarm,
                self.tasks@ == old(self)@.completed(task).tasks,
                task < old(self)@.tasks.len(),
                i <= self.queue@.len(),
                forall|k: int| 0 <= k < i ==> self.queue@[k] != task,
                old(self)@.completed(task).wf(),
                old(self)@.queue.no_duplicates(),
            decreases self.queue@.len() - i,
        {
            if self.queue[i] == task {
                proof {
                    let q = old(self)@.queue;
                    assert(q.contains(task));
                    let k = q.index_of(task);
                    assert(0 <= k < q.len() && q[k] == task);
                    assert(k == i);
                }
                self.queue.remove(i);
                return ;
            }
            i += 1;
        }
        proof {
            let q = old(self)@.queue;
            if q.contains(task) {
                let k = choose|k: int| 0 <= k < q.len() && q[k] == task;
                assert(false);
            }
        }
    }

    /// What the loop does next: a round if some task is ready, and else a
    /// wait in low power for the next interrupt.
    pub fn next_action(&self) -> (action: Action)
        ensures
            action == if self@.queue.len() > 0 {
                Action::Poll
            } else {
                Action::Sleep
            },
    {
        if self.queue.len() > 0 {
            Action::Poll
        } else {
            Action::Sleep
        }
    }

    /// Notes that the task in slot `task`, which is being polled, wants to
    /// be woken at `deadline` at the latest.
    pub fn sleep_until(&mut self, task: usize, deadline: u64)
        requires
            old(self).wf(),
        ensures
            final(self).wf(),
            final(self)@ == old(self)@.sleeping(task, deadline),
    {
        if task < self.tasks.len() {
            let present = self.tasks[task];
            if present.state == TaskState::Suspended {
                let at = match present.expires_at {
                    Some(d) => if d <= deadline {
                        d
                    } else {
                        deadline
                    },
                    None => deadline,
                };
                self.tasks.set(task, Task { state: TaskState::Suspended, expires_at: Some(at) });
            }
        }
    }

    /// The earliest deadline among all tasks that sleep on the timer, or
    /// `None` if none does.
    pub fn next_expiration(&self) -> (next: Option<u64>)
        ensures
            match next {
                Some(deadline) => self@.earliest(deadline),
                None => self@.timeless(),
            },
    {
        let mut next: Option<u64> = None;
        let mut t: usize = 0;
        while t < self.tasks.len()
            invariant
                t <= self.tasks@.len(),
                match next {
                    Some(deadline) => {
                        &&& exists|k: int|
                            0 <= k < t && (#[trigger] self.tasks@[k]).expires_at == Some(deadline)
                        &&& forall|k: int|
                            0 <= k < t ==> ((#[trigger] self.tasks@[k]).expires_at matches Some(d)
                                ==> deadline <= d)
                    },
                    None => forall|k: int|
                        0 <= k < t ==> (#[trigger] self.tasks@[k]).expires_at is None,
                },
            decreases self.tasks@.len() - t,
        {
            match self.tasks[t].expires_at {
                Some(d) => {
                    let better = match next {
                        Some(deadline) => d < deadline,
                        None => true,
                    };
                    if better {
                        next = Some(d);
                    }
                },
                None => {},
            }
            t += 1;
        }
        next
    }

    /// Lets the timer wake every task whose deadline is at or before `now`,
    /// in the order of their slots.
    pub fn expire(&mut self, now: u64)
        requires
            old(self).wf(),
        ensures
            final(self).wf(),
            final(self)@ == old(self)@.expired(now, old(self)@.tasks.len()),
    {
        let mut t: usize = 0;
        while t < self.tasks.len()
            invariant
                old(self).wf(),
                self.wf(),
                t <= self.tasks@.len(),
                self.tasks@.len() == old(self)@.tasks.len(),
                self@ == old(self)@.expired(now, t as nat),
            decreases self.tasks@.len() - t,
        {
            proof {
                lemma_expired(old(self)@, now, t as nat);
            }
            let is_due = match self.tasks[t].expires_at {
                Some(d) => d <= now,
                None => false,
            };
            if is_due {
                self.wake(Waker { task: t });
            }
            t += 1;
            proof {
                lemma_expired(old(self)@, now, t as nat);
            }
        }
    }

    /// Ends a round: the alarm comparator is to be programmed with the
    /// earliest deadline, which is the answer, or left off if no task sleeps
    /// on the timer.
    pub fn program_alarm(&mut self) -> (alarm: Option<u64>)
        requires
            old(self).wf(),
        ensures
            final(self).wf(),
            final(self)@ == (ExecutorView { alarm, ..old(self)@ }),
            match alarm {
                Some(deadline) => old(self)@.earliest(deadline),
                None => old(self)@.timeless(),
            },
    {
        let alarm = self.next_expiration();
        self.alarm = alarm;
        alarm
    }

    /// The deadline that the alarm comparator was last programmed with.
    pub fn alarm(&self) -> (alarm: Option<u64>)
        ensures
            alarm == self@.alarm,
    {
        self.alarm
    }

    /// The deadline of the task in slot `task`, if it sleeps on the timer.
    pub fn deadline(&self, task: usize) -> (deadline: Option<u64>)
        ensures
            deadline == if task < self@.tasks.len() {
                self@.tasks[task as int].expires_at
            } else {
                None
            },
    {
        if task < self.tasks.len() {
            self.tasks[task].expires_at
        } else {
            None
        }
    }
}

/// A task becomes ready only by a wakeup: the steps of the scheduler itself,
/// the start of a round, the end of a task and a request to sleep, make no
/// task ready that was not.
pub proof fn law_ready_only_by_wake(e: ExecutorView, task: usize, other: usize, deadline: u64)
    requires
        e.wf(),
    ensures
        !e.dequeued().is_ready(task),
        e.completed(other).is_ready(task) ==> e.is_ready(task),
        e.sleeping(other, deadline).is_ready(task) ==> e.is_ready(task),
        e.wake(other).is_ready(task) ==> e.is_ready(task) || (other == task && e.is_suspended(
            task,
        )),
{
}

/// A round polls each ready task once: the queue that a round hands out
/// holds every ready task, and none twice; a task woken while the round
/// runs is ready for the next round, at the back of the queue.
pub proof fn law_round_polls_each_once(e: ExecutorView, task: usize)
    requires
        e.wf(),
    ensures
        e.queue.no_duplicates(),
        e.is_ready(task) <==> e.queue.contains(task),
        e.is_ready(task) ==> e.dequeued().wake(task).queue == seq![task],
{
    if e.is_ready(task) {
        assert(e.queue.contains(task));
        assert(e.dequeued().wake(task).queue =~= seq![task]);
    }
    if e.queue.contains(task) {
        let k = choose|k: int| 0 <= k < e.queue.len() && e.queue[k] == task;
        assert(e.tasks[e.queue[k] as int].state == TaskState::Ready);
    }
}

/// After the timer ran at `now`, no task is left with a deadline at or
/// before `now`, every task that was due is ready, and the deadlines that
/// lie ahead are untouched.
pub proof fn law_expire_wakes_the_due(e: ExecutorView, now: u64, task: usize)
    requires
        e.wf(),
        task < e.tasks.len(),
    ensures
        e.expired(now, e.tasks.len()).wf(),
        !due(e.expired(now, e.tasks.len()).tasks[task as int], now),
        due(e.tasks[task as int], now) ==> e.expired(now, e.tasks.len()).is_ready(task),
        !due(e.tasks[task as int], now) ==> e.expired(now, e.tasks.len()).tasks[task as int]
            == e.tasks[task as int],
{
    lemma_expired(e, now, e.tasks.len());
}

} // verus!
