//! The task runtime's logic: runtime metrics, typed channels, and the
//! work-stealing scheduler's state and decisions.
//!
//! The scheduler here is the decision core: which task a worker takes next,
//! what spawning and completing a task do to the queues, the join flags and
//! the metrics. The embedding program runs the worker threads over lock-free
//! queues that follow the poll order stated here, performs the blocking and
//! the backoff, and routes the counters through the metrics; channels are
//! modelled the same way, with the send and receive histories carried
//! alongside the queue.

use vstd::prelude::*;

verus! {

/// Unique identifier assigned to each task at creation time.
#[derive(Debug, Clone, Copy, PartialEq, Eq, Structural)]
pub struct TaskId(pub u64);

impl TaskId {
    pub fn new(raw: u64) -> (r: Self)
        ensures
            r.0 == raw,
    {
        Self(raw)
    }

    pub fn raw(&self) -> (r: u64)
        ensures
            r == self.0,
    {
        self.0
    }
}

/// A task's lifecycle: Ready in a queue, Running on a worker, Completed and
/// released.
#[derive(Debug, Clone, Copy, PartialEq, Eq, Structural)]
pub enum TaskState {
    Ready,
    Running,
    Completed,
}

/// Counters the runtime reports at exit. Deltas saturate at the counter
/// bounds instead of wrapping.
#[derive(Debug)]
pub struct TaskRuntimeMetrics {
    spawned: u64,
    completed: u64,
    waiting: i64,
    channels: u64,
    channel_waiters: i64,
    channel_backlog: i64,
}

/// A point-in-time copy of the counters; negative transients read as zero.
#[derive(Debug, Clone, Copy, PartialEq, Eq, Structural)]
pub struct TaskMetricsSnapshot {
    pub tasks_spawned: u64,
    pub tasks_completed: u64,
    pub tasks_waiting: u64,
    pub channels_registered: u64,
    pub channel_waiters: u64,
    pub channel_backlog: u64,
}

/// Saturating add on a 64-bit counter.
pub open spec fn spec_sat_u64(v: int) -> int {
    if v > u64::MAX { u64::MAX as int } else if v < 0 { 0 } else { v }
}

/// Saturating add on a signed 64-bit counter.
pub open spec fn spec_sat_i64(v: int) -> int {
    if v > i64::MAX { i64::MAX as int } else if v < i64::MIN { i64::MIN as int } else { v }
}

fn sat_add_u64(a: u64, b: u64) -> (r: u64)
    ensures
        r == spec_sat_u64(a + b),
{
    if a <= u64::MAX - b { a + b } else { u64::MAX }
}

fn sat_add_i64(a: i64, b: i64) -> (r: i64)
    ensures
        r == spec_sat_i64(a + b),
{
    if b >= 0 {
        if a <= i64::MAX - b { a + b } else { i64::MAX }
    } else {
        if a >= i64::MIN - b { a + b } else { i64::MIN }
    }
}

impl TaskRuntimeMetrics {
    pub closed spec fn spec_spawned(&self) -> u64 { self.spawned }

    pub closed spec fn spec_completed(&self) -> u64 { self.completed }

    pub closed spec fn spec_waiting(&self) -> i64 { self.waiting }

    pub closed spec fn spec_channels(&self) -> u64 { self.channels }

    pub closed spec fn spec_channel_waiters(&self) -> i64 { self.channel_waiters }

    pub closed spec fn spec_channel_backlog(&self) -> i64 { self.channel_backlog }

    pub fn new() -> (r: Self)
        ensures
            r.spec_spawned() == 0,
            r.spec_completed() == 0,
            r.spec_waiting() == 0,
            r.spec_channels() == 0,
            r.spec_channel_waiters() == 0,
            r.spec_channel_backlog() == 0,
    {
        Self {
            spawned: 0,
            completed: 0,
            waiting: 0,
            channels: 0,
            channel_waiters: 0,
            channel_backlog: 0,
        }
    }

    /// One more task spawned and one more waiting.
    pub fn record_spawn(&mut self)
        ensures
            final(self).spec_spawned() == spec_sat_u64(old(self).spec_spawned() + 1),
            final(self).spec_waiting() == spec_sat_i64(old(self).spec_waiting() + 1),
            final(self).spec_completed() == old(self).spec_completed(),
            final(self).spec_channels() == old(self).spec_channels(),
            final(self).spec_channel_waiters() == old(self).spec_channel_waiters(),
            final(self).spec_channel_backlog() == old(self).spec_channel_backlog(),
    {
        self.spawned = sat_add_u64(self.spawned, 1);
        self.waiting = sat_add_i64(self.waiting, 1);
    }

    /// One more task completed and one fewer waiting.
    pub fn record_completion(&mut self)
        ensures
            final(self).spec_completed() == spec_sat_u64(old(self).spec_completed() + 1),
            final(self).spec_waiting() == spec_sat_i64(old(self).spec_waiting() - 1),
            final(self).spec_spawned() == old(self).spec_spawned(),
            final(self).spec_channels() == old(self).spec_channels(),
            final(self).spec_channel_waiters() == old(self).spec_channel_waiters(),
            final(self).spec_channel_backlog() == old(self).spec_channel_backlog(),
    {
        self.completed = sat_add_u64(self.completed, 1);
        self.waiting = sat_add_i64(self.waiting, -1);
    }

    pub fn record_waiting_delta(&mut self, delta: i64)
        ensures
            final(self).spec_waiting() == spec_sat_i64(old(self).spec_waiting() + delta),
            final(self).spec_spawned() == old(self).spec_spawned(),
            final(self).spec_completed() == old(self).spec_completed(),
            final(self).spec_channels() == old(self).spec_channels(),
            final(self).spec_channel_waiters() == old(self).spec_channel_waiters(),
            final(self).spec_channel_backlog() == old(self).spec_channel_backlog(),
    {
        if delta != 0 {
            self.waiting = sat_add_i64(self.waiting, delta);
        }
    }

    pub fn register_channel(&mut self)
        ensures
            final(self).spec_channels() == spec_sat_u64(old(self).spec_channels() + 1),
            final(self).spec_spawned() == old(self).spec_spawned(),
            final(self).spec_completed() == old(self).spec_completed(),
            final(self).spec_waiting() == old(self).spec_waiting(),
            final(self).spec_channel_waiters() == old(self).spec_channel_waiters(),
            final(self).spec_channel_backlog() == old(self).spec_channel_backlog(),
    {
        self.channels = sat_add_u64(self.channels, 1);
    }

    pub fn record_channel_waiters(&mut self, delta: i64)
        ensures
            final(self).spec_channel_waiters()
                == spec_sat_i64(old(self).spec_channel_waiters() + delta),
            final(self).spec_spawned() == old(self).spec_spawned(),
            final(self).spec_completed() == old(self).spec_completed(),
            final(self).spec_waiting() == old(self).spec_waiting(),
            final(self).spec_channels() == old(self).spec_channels(),
            final(self).spec_channel_backlog() == old(self).spec_channel_backlog(),
    {
        if delta != 0 {
            self.channel_waiters = sat_add_i64(self.channel_waiters, delta);
        }
    }

    pub fn record_channel_backlog(&mut self, delta: i64)
        ensures
            final(self).spec_channel_backlog()
                == spec_sat_i64(old(self).spec_channel_backlog() + delta),
            final(self).spec_spawned() == old(self).spec_spawned(),
            final(self).spec_completed() == old(self).spec_completed(),
            final(self).spec_waiting() == old(self).spec_waiting(),
            final(self).spec_channels() == old(self).spec_channels(),
            final(self).spec_channel_waiters() == old(self).spec_channel_waiters(),
    {
        if delta != 0 {
            self.channel_backlog = sat_add_i64(self.channel_backlog, delta);
        }
    }

    /// Copies the counters out; negative transients clamp to zero.
    pub fn snapshot(&self) -> (r: TaskMetricsSnapshot)
        ensures
            r.tasks_spawned == self.spec_spawned(),
            r.tasks_completed == self.spec_completed(),
            r.tasks_waiting == if self.spec_waiting() >= 0 { self.spec_waiting() as int } else { 0int },
            r.channels_registered == self.spec_channels(),
            r.channel_waiters == if self.spec_channel_waiters() >= 0 {
                self.spec_channel_waiters() as int
            } else {
                0int
            },
            r.channel_backlog == if self.spec_channel_backlog() >= 0 {
                self.spec_channel_backlog() as int
            } else {
                0int
            },
    {
        TaskMetricsSnapshot {
            tasks_spawned: self.spawned,
            tasks_completed: self.completed,
            tasks_waiting: if self.waiting >= 0 { self.waiting as u64 } else { 0 },
            channels_registered: self.channels,
            channel_waiters: if self.channel_waiters >= 0 { self.channel_waiters as u64 } else { 0 },
            channel_backlog: if self.channel_backlog >= 0 { self.channel_backlog as u64 } else { 0 },
        }
    }
}

/// How many worker threads the pool runs.
#[derive(Debug, Clone, Copy, PartialEq, Eq, Structural)]
pub struct SchedulerConfig {
    pub max_workers: usize,
}

impl SchedulerConfig {
    pub fn with_workers(max_workers: usize) -> (r: Self)
        ensures
            r.max_workers == max_workers,
    {
        Self { max_workers }
    }
}

impl Default for SchedulerConfig {
    /// Four workers; the embedding program sizes the pool to the machine's
    /// available parallelism instead when it can read it.
    fn default() -> (r: Self)
        ensures
            r.max_workers == 4,
    {
        Self { max_workers: 4 }
    }
}

/// An unbounded multi-producer multi-consumer FIFO of `T`, with its send and
/// receive histories. Within one channel the receive history is always a
/// prefix of the send history.
pub struct TaskChannel<T> {
    queue: Vec<T>,
    sent: Ghost<Seq<T>>,
    received: Ghost<Seq<T>>,
}

impl<T> TaskChannel<T> {
    /// Everything sent is what was received followed by what is pending, in
    /// order.
    pub closed spec fn wf(&self) -> bool {
        self.sent@ == self.received@ + self.queue@
    }

    pub closed spec fn spec_sent(&self) -> Seq<T> {
        self.sent@
    }

    pub closed spec fn spec_received(&self) -> Seq<T> {
        self.received@
    }

    pub closed spec fn spec_pending(&self) -> Seq<T> {
        self.queue@
    }

    pub fn new() -> (r: Self)
        ensures
            r.wf(),
            r.spec_sent() == Seq::<T>::empty(),
            r.spec_received() == Seq::<T>::empty(),
            r.spec_pending() == Seq::<T>::empty(),
    {
        let r = Self { queue: Vec::new(), sent: Ghost(Seq::empty()), received: Ghost(Seq::empty()) };
        proof {
            assert(r.sent@ =~= r.received@ + r.queue@);
        }
        r
    }

    /// Enqueues a value; sending never blocks.
    pub fn send(&mut self, value: T)
        requires
            old(self).wf(),
        ensures
            final(self).wf(),
            final(self).spec_sent() == old(self).spec_sent().push(value),
            final(self).spec_received() == old(self).spec_received(),
            final(self).spec_pending() == old(self).spec_pending().push(value),
    {
        self.queue.push(value);
        proof {
            self.sent@ = self.sent@.push(value);
            assert(self.sent@ =~= self.received@ + self.queue@);
        }
    }

    /// Takes the value that has waited longest, or reports the channel empty
    /// (in the running system an empty channel with live senders blocks
    /// instead, and `None` means every sender is gone).
    pub fn recv(&mut self) -> (r: Option<T>)
        requires
            old(self).wf(),
        ensures
            final(self).wf(),
            final(self).spec_sent() == old(self).spec_sent(),
            old(self).spec_pending().len() > 0 ==> {
                &&& r matches Some(v) && v == old(self).spec_pending()[0]
                &&& final(self).spec_received()
                    == old(self).spec_received().push(old(self).spec_pending()[0])
                &&& final(self).spec_pending() == old(self).spec_pending().drop_first()
            },
            old(self).spec_pending().len() == 0 ==> {
                &&& r is None
                &&& final(self).spec_received() == old(self).spec_received()
                &&& final(self).spec_pending() == old(self).spec_pending()
            },
    {
        if self.queue.len() > 0 {
            let v = self.queue.remove(0);
            proof {
                self.received@ = self.received@.push(old(self).queue@[0]);
                assert(self.queue@ =~= old(self).queue@.drop_first());
                assert(self.sent@ =~= self.received@ + self.queue@);
            }
            Some(v)
        } else {
            None
        }
    }

    /// Same surface as `recv`, but never blocks in the running system: an
    /// empty channel reports absent at once.
    pub fn try_recv(&mut self) -> (r: Option<T>)
        requires
            old(self).wf(),
        ensures
            final(self).wf(),
            final(self).spec_sent() == old(self).spec_sent(),
            old(self).spec_pending().len() > 0 ==> {
                &&& r matches Some(v) && v == old(self).spec_pending()[0]
                &&& final(self).spec_received()
                    == old(self).spec_received().push(old(self).spec_pending()[0])
                &&& final(self).spec_pending() == old(self).spec_pending().drop_first()
            },
            old(self).spec_pending().len() == 0 ==> {
                &&& r is None
                &&& final(self).spec_received() == old(self).spec_received()
                &&& final(self).spec_pending() == old(self).spec_pending()
            },
    {
        self.recv()
    }

    /// How many values are pending.
    pub fn backlog(&self) -> (r: usize)
        ensures
            r == self.spec_pending().len(),
    {
        self.queue.len()
    }
}

/// Within a single channel, the sequence of receive results is a prefix of
/// the send sequence ordered by send completion.
pub proof fn lemma_channel_fifo<T>(ch: &TaskChannel<T>)
    requires
        ch.wf(),
    ensures
        ch.spec_received().len() <= ch.spec_sent().len(),
        ch.spec_received() == ch.spec_sent().take(ch.spec_received().len() as int),
{
    assert(ch.spec_sent().take(ch.spec_received().len() as int) =~= ch.spec_received());
}

/// The scheduler's state: a shared injector queue, one local deque per
/// worker, the join flags of completed tasks, the metrics, and the shutdown
/// flag. Queues hold task identifiers; the callables they stand for live
/// with the embedding program.
#[derive(Debug)]
pub struct TaskScheduler {
    next_id: u64,
    injector: Vec<u64>,
    workers: Vec<Vec<u64>>,
    finished: Vec<u64>,
    metrics: TaskRuntimeMetrics,
    shutdown: bool,
}

/// What a worker's poll decided.
#[derive(Debug, Clone, Copy, PartialEq, Eq, Structural)]
pub enum WorkerAction {
    /// A task to run, taken out of the worker's own deque.
    RunLocal(u64),
    /// A task to run, taken out of the shared injector queue.
    RunInjected(u64),
    /// A task to run, taken out of the named sibling's deque.
    RunStolen(u64, usize),
    /// Nothing to do: back off, then retry.
    Backoff,
    /// The shutdown flag is set: drain and exit.
    Exit,
}

impl TaskScheduler {
    pub closed spec fn spec_next_id(&self) -> u64 { self.next_id }

    pub closed spec fn spec_injector(&self) -> Seq<u64> { self.injector@ }

    pub closed spec fn spec_workers(&self) -> Seq<Vec<u64>> { self.workers@ }

    pub closed spec fn spec_shutdown(&self) -> bool { self.shutdown }

    pub closed spec fn spec_metrics(&self) -> TaskRuntimeMetrics { self.metrics }

    /// Whether the task's callable has returned and its join state was
    /// signalled.
    pub closed spec fn spec_finished(&self, id: u64) -> bool {
        self.finished@.contains(id)
    }

    /// A fresh pool: one empty deque per worker, nothing queued, nothing
    /// finished.
    pub fn new(config: SchedulerConfig) -> (r: Self)
        ensures
            r.spec_next_id() == 1,
            r.spec_injector().len() == 0,
            r.spec_workers().len() == config.max_workers,
            forall|w: int| 0 <= w < config.max_workers
                ==> (#[trigger] r.spec_workers()[w])@.len() == 0,
            !r.spec_shutdown(),
            r.spec_metrics().spec_spawned() == 0,
            r.spec_metrics().spec_completed() == 0,
            forall|id: u64| !r.spec_finished(id),
    {
        let mut workers: Vec<Vec<u64>> = Vec::new();
        let mut i: usize = 0;
        while i < config.max_workers
            invariant
                i <= config.max_workers,
                workers@.len() == i,
                forall|w: int| 0 <= w < i ==> (#[trigger] workers@[w])@.len() == 0,
            decreases config.max_workers - i,
        {
            workers.push(Vec::new());
            i = i + 1;
        }
        Self {
            next_id: 1,
            injector: Vec::new(),
            workers,
            finished: Vec::new(),
            metrics: TaskRuntimeMetrics::new(),
            shutdown: false,
        }
    }

    /// Submits a task: a fresh monotonic identifier is assigned, the spawn is
    /// counted, and the task joins the back of the injector queue. The
    /// identifier doubles as the join handle.
    pub fn spawn_fn(&mut self, name: Option<String>) -> (r: TaskId)
        requires
            old(self).spec_next_id() < u64::MAX,
        ensures
            r.0 == old(self).spec_next_id(),
            final(self).spec_next_id() == old(self).spec_next_id() + 1,
            final(self).spec_injector() == old(self).spec_injector().push(r.0),
            final(self).spec_workers() == old(self).spec_workers(),
            final(self).spec_shutdown() == old(self).spec_shutdown(),
            final(self).spec_metrics().spec_spawned()
                == spec_sat_u64(old(self).spec_metrics().spec_spawned() + 1),
            final(self).spec_metrics().spec_completed()
                == old(self).spec_metrics().spec_completed(),
            forall|id: u64| final(self).spec_finished(id) == old(self).spec_finished(id),
    {
        let _ = name;
        let id = self.next_id;
        self.next_id = self.next_id + 1;
        self.metrics.record_spawn();
        self.injector.push(id);
        TaskId(id)
    }

    /// One worker's poll, in the loop's order: the shutdown flag first, then
    /// the worker's own deque, then the injector, then the first sibling
    /// with work; with all three empty the worker backs off.
    pub fn worker_poll(&mut self, w: usize) -> (r: WorkerAction)
        requires
            w < old(self).spec_workers().len(),
        ensures
            final(self).spec_workers().len() == old(self).spec_workers().len(),
            final(self).spec_shutdown() == old(self).spec_shutdown(),
            final(self).spec_next_id() == old(self).spec_next_id(),
            final(self).spec_metrics() == old(self).spec_metrics(),
            forall|id: u64| final(self).spec_finished(id) == old(self).spec_finished(id),
            old(self).spec_shutdown() ==> r == WorkerAction::Exit
                && *final(self) == *old(self),
            !old(self).spec_shutdown() && old(self).spec_workers()[w as int]@.len() > 0 ==> {
                &&& r == WorkerAction::RunLocal(old(self).spec_workers()[w as int]@[0])
                &&& final(self).spec_workers()[w as int]@
                    == old(self).spec_workers()[w as int]@.drop_first()
                &&& forall|u: int| 0 <= u < old(self).spec_workers().len() && u != w
                    ==> final(self).spec_workers()[u] == old(self).spec_workers()[u]
                &&& final(self).spec_injector() == old(self).spec_injector()
            },
            !old(self).spec_shutdown() && old(self).spec_workers()[w as int]@.len() == 0
                && old(self).spec_injector().len() > 0 ==> {
                &&& r == WorkerAction::RunInjected(old(self).spec_injector()[0])
                &&& final(self).spec_injector() == old(self).spec_injector().drop_first()
                &&& final(self).spec_workers() == old(self).spec_workers()
            },
            !old(self).spec_shutdown() && old(self).spec_workers()[w as int]@.len() == 0
                && old(self).spec_injector().len() == 0
                && (exists|u: int|
                    0 <= u < old(self).spec_workers().len() && u != w
                    && (#[trigger] old(self).spec_workers()[u])@.len() > 0)
                ==> r is RunStolen,
            r matches WorkerAction::RunStolen(id, v) ==> {
                &&& v < old(self).spec_workers().len()
                &&& v != w
                &&& old(self).spec_workers()[v as int]@.len() > 0
                &&& id == old(self).spec_workers()[v as int]@[0]
                &&& final(self).spec_workers()[v as int]@
                    == old(self).spec_workers()[v as int]@.drop_first()
                &&& forall|u: int| 0 <= u < old(self).spec_workers().len() && u != v
                    ==> final(self).spec_workers()[u] == old(self).spec_workers()[u]
                &&& final(self).spec_injector() == old(self).spec_injector()
            },
            r == WorkerAction::Backoff ==> *final(self) == *old(self)
                && (forall|u: int| 0 <= u < old(self).spec_workers().len() && u != w
                    ==> (#[trigger] old(self).spec_workers()[u])@.len() == 0),
    {
        if self.shutdown {
            return WorkerAction::Exit;
        }
        if self.workers[w].len() > 0 {
            let ghost before = self.workers@;
            let mut deque = self.workers.remove(w);
            let id = deque.remove(0);
            self.workers.insert(w, deque);
            proof {
                assert(self.workers@[w as int]@ =~= before[w as int]@.drop_first());
                assert forall|v: int| 0 <= v < before.len() && v != w
                    implies self.workers@[v] == before[v] by {}
            }
            return WorkerAction::RunLocal(id);
        }
        if self.injector.len() > 0 {
            let id = self.injector.remove(0);
            proof {
                assert(self.injector@ =~= old(self).injector@.drop_first());
            }
            return WorkerAction::RunInjected(id);
        }
        let n = self.workers.len();
        let mut v: usize = 0;
        while v < n
            invariant
                v <= n,
                n == self.workers@.len(),
                w < n,
                *self == *old(self),
                !old(self).shutdown,
                old(self).workers@[w as int]@.len() == 0,
                old(self).injector@.len() == 0,
                forall|u: int| 0 <= u < v && u != w
                    ==> (#[trigger] old(self).workers@[u])@.len() == 0,
            decreases n - v,
        {
            if v != w && self.workers[v].len() > 0 {
                let ghost before = self.workers@;
                let mut deque = self.workers.remove(v);
                let id = deque.remove(0);
                self.workers.insert(v, deque);
                proof {
                    assert(self.workers@[v as int]@ =~= before[v as int]@.drop_first());
                    assert forall|u: int| 0 <= u < before.len() && u != v
                        implies self.workers@[u] == before[u] by {}
                }
                return WorkerAction::RunStolen(id, v);
            }
            v = v + 1;
        }
        WorkerAction::Backoff
    }

    /// A worker ran the task's callable to its end: the join state is
    /// signalled (every joiner may return from here on) and the completion
    /// is counted. The task's storage is released by the caller.
    pub fn run_task(&mut self, id: u64)
        ensures
            final(self).spec_finished(id),
            forall|other: u64| old(self).spec_finished(other) ==> final(self).spec_finished(other),
            final(self).spec_metrics().spec_completed()
                == spec_sat_u64(old(self).spec_metrics().spec_completed() + 1),
            final(self).spec_metrics().spec_spawned()
                == old(self).spec_metrics().spec_spawned(),
            final(self).spec_injector() == old(self).spec_injector(),
            final(self).spec_workers() == old(self).spec_workers(),
            final(self).spec_shutdown() == old(self).spec_shutdown(),
            final(self).spec_next_id() == old(self).spec_next_id(),
    {
        self.finished.push(id);
        self.metrics.record_completion();
        proof {
            assert(self.finished@.last() == id);
            assert(self.finished@.contains(id));
            assert forall|other: u64| old(self).finished@.contains(other)
                implies self.finished@.contains(other) by {
                let i = choose|i: int| 0 <= i < old(self).finished@.len()
                    && old(self).finished@[i] == other;
                assert(self.finished@[i] == other);
            }
        }
    }

    /// A non-blocking read of a task's join flag.
    pub fn is_finished(&self, id: TaskId) -> (r: bool)
        ensures
            r == self.spec_finished(id.0),
    {
        let n = self.finished.len();
        let mut i: usize = 0;
        while i < n
            invariant
                i <= n,
                n == self.finished@.len(),
                forall|k: int| 0 <= k < i ==> self.finished@[k] != id.0,
            decreases n - i,
        {
            if self.finished[i] == id.0 {
                proof {
                    assert(self.finished@.contains(id.0));
                }
                return true;
            }
            i = i + 1;
        }
        proof {
            if self.finished@.contains(id.0) {
                let k = choose|k: int| 0 <= k < self.finished@.len() && self.finished@[k] == id.0;
                assert(false);
            }
        }
        false
    }

    /// Joining a finished task returns at once: once `run_task` has
    /// signalled the join state, a blocked `join` wakes and a later `join`
    /// never blocks.
    pub fn join_ready(&self, id: TaskId) -> (r: bool)
        ensures
            r == self.spec_finished(id.0),
    {
        self.is_finished(id)
    }

    /// Sets the shutdown flag and queues one no-op task per worker so every
    /// worker wakes from its final steal and observes the flag. Later polls
    /// report `Exit`; queued work stays queued.
    pub fn shutdown(&mut self)
        requires
            old(self).spec_next_id() + old(self).spec_workers().len() <= u64::MAX,
        ensures
            final(self).spec_shutdown(),
            !old(self).spec_shutdown() ==> final(self).spec_injector().len()
                == old(self).spec_injector().len() + old(self).spec_workers().len(),
            !old(self).spec_shutdown() ==> final(self).spec_next_id()
                == old(self).spec_next_id() + old(self).spec_workers().len(),
            old(self).spec_shutdown() ==> *final(self) == *old(self),
            final(self).spec_workers() == old(self).spec_workers(),
            forall|id: u64| final(self).spec_finished(id) == old(self).spec_finished(id),
            final(self).spec_metrics() == old(self).spec_metrics(),
    {
        if !self.shutdown {
            self.shutdown = true;
            let n = self.workers.len();
            let mut i: usize = 0;
            while i < n
                invariant
                    i <= n,
                    self.shutdown,
                    self.injector@.len() == old(self).injector@.len() + i,
                    self.workers@ == old(self).workers@,
                    self.next_id == old(self).next_id + i,
                    old(self).next_id + n <= u64::MAX,
                    n == self.workers@.len(),
                    self.finished@ == old(self).finished@,
                    self.metrics == old(self).metrics,
                decreases n - i,
            {
                let id = self.next_id;
                self.next_id = self.next_id + 1;
                self.injector.push(id);
                i = i + 1;
            }
        }
    }

    /// A snapshot of the metrics.
    pub fn metrics(&self) -> (r: TaskMetricsSnapshot)
        ensures
            r.tasks_spawned == self.spec_metrics().spec_spawned(),
            r.tasks_completed == self.spec_metrics().spec_completed(),
    {
        self.metrics.snapshot()
    }
}

} // verus!
