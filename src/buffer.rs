use std::collections::VecDeque;
use vstd::prelude::*;

verus! {

/// Where one background worker of a buffer stands in its loop.
pub enum WorkerPhase<T> {
    /// At the top of its loop, waiting for demand or shutdown.
    Idle,
    /// Has consumed one unit of demand and awaits the outside poll call.
    Polling,
    /// Has a finished outcome that waits for room in the result queue, or for
    /// a consumer to take it over directly.
    Holding(T),
    /// Has seen the shutdown flag and left its loop for good.
    Exited,
}

/// What a worker is told to do after one step of its loop.
#[derive(PartialEq, Eq, Structural, Clone, Copy, Debug)]
pub enum WorkerAction {
    /// Leave the loop: shutdown was requested.
    Exit,
    /// One unit of demand was consumed: call the outside poll function now.
    StartPoll,
    /// The held outcome went into the result queue.
    /// (`Exit` also follows a held outcome dropped on a full queue at shutdown.)
    Pushed,
    /// Nothing to do until the shared state changes.
    Wait,
}

/// What a consumer gets from one attempt to receive.
pub enum Receipt<T> {
    /// The oldest buffered outcome, or one handed over by a worker.
    Item(T),
    /// The queue is empty and no worker is left to fill it: no more results will come.
    Closed,
    /// The queue is empty but workers still run: wait for a change.
    Wait,
}

/// The abstract state of a buffered poller.
pub ghost struct BufferModel<T> {
    /// Completed outcomes not yet delivered, oldest first.
    pub queue: Seq<T>,
    /// How many outcomes the queue may hold.
    pub capacity: nat,
    /// Units of demand that no worker has consumed yet.
    pub demand: nat,
    /// The shutdown flag; it never goes back to false.
    pub shutdown: bool,
    /// The phase of each worker of the pool.
    pub workers: Seq<WorkerPhase<T>>,
    /// How many consumer polls were ever requested.
    pub requested: nat,
    /// How many outside poll calls were ever started.
    pub started: nat,
}

impl<T> BufferModel<T> {
    /// The queue stays within its capacity, every poll requested was either
    /// started or is still outstanding demand, and a worker has exited only
    /// once shutdown was requested.
    pub open spec fn wf(self) -> bool {
        &&& self.queue.len() <= self.capacity
        &&& self.started + self.demand == self.requested
        &&& forall|i: int|
            0 <= i < self.workers.len() && #[trigger] self.workers[i] is Exited ==> self.shutdown
    }

    /// Some worker holds a finished outcome that is not in the queue yet.
    pub open spec fn has_holder(self) -> bool {
        exists|i: int| 0 <= i < self.workers.len() && #[trigger] self.workers[i] is Holding
    }

    /// Worker `i` holds an outcome and no worker before it does.
    pub open spec fn is_first_holder(self, i: int) -> bool {
        &&& 0 <= i < self.workers.len()
        &&& self.workers[i] is Holding
        &&& forall|j: int| 0 <= j < i ==> !(#[trigger] self.workers[j] is Holding)
    }

    /// The first worker that holds an outcome, where there is one.
    pub open spec fn first_holder(self) -> int {
        choose|i: int| self.is_first_holder(i)
    }

    /// The indices of the workers whose outside poll call is in flight.
    pub open spec fn in_flight(self) -> Set<int> {
        Set::new(|i: int| 0 <= i < self.workers.len() && self.workers[i] is Polling)
    }

    /// Every worker has left its loop: nothing can enter the queue any more.
    pub open spec fn closed(self) -> bool {
        forall|i: int| 0 <= i < self.workers.len() ==> #[trigger] self.workers[i] is Exited
    }

    /// A fresh buffer: every worker idle, no demand, nothing buffered.
    pub open spec fn initial(workers: nat, capacity: nat) -> Self {
        BufferModel {
            queue: Seq::empty(),
            capacity,
            demand: 0,
            shutdown: false,
            workers: Seq::new(workers, |i: int| WorkerPhase::Idle),
            requested: 0,
            started: 0,
        }
    }

    /// A consumer asks for one more result.
    pub open spec fn after_request(self) -> Self {
        BufferModel { demand: self.demand + 1, requested: self.requested + 1, ..self }
    }

    /// What worker `w` is told by one step of its loop.
    pub open spec fn step_action(self, w: int) -> WorkerAction {
        match self.workers[w] {
            WorkerPhase::Idle => if self.shutdown {
                WorkerAction::Exit
            } else if self.demand > 0 {
                WorkerAction::StartPoll
            } else {
                WorkerAction::Wait
            },
            WorkerPhase::Polling => WorkerAction::Wait,
            WorkerPhase::Holding(_) => if self.queue.len() < self.capacity {
                WorkerAction::Pushed
            } else if self.shutdown {
                WorkerAction::Exit
            } else {
                WorkerAction::Wait
            },
            WorkerPhase::Exited => WorkerAction::Exit,
        }
    }

    /// The state after one step of worker `w`'s loop.
    pub open spec fn after_step(self, w: int) -> Self {
        match self.workers[w] {
            WorkerPhase::Idle => if self.shutdown {
                BufferModel { workers: self.workers.update(w, WorkerPhase::Exited), ..self }
            } else if self.demand > 0 {
                BufferModel {
                    workers: self.workers.update(w, WorkerPhase::Polling),
                    demand: (self.demand - 1) as nat,
                    started: self.started + 1,
                    ..self
                }
            } else {
                self
            },
            WorkerPhase::Polling => self,
            WorkerPhase::Holding(r) => if self.queue.len() < self.capacity {
                BufferModel {
                    queue: self.queue.push(r),
                    workers: self.workers.update(w, WorkerPhase::Idle),
                    ..self
                }
            } else if self.shutdown {
                BufferModel { workers: self.workers.update(w, WorkerPhase::Exited), ..self }
            } else {
                self
            },
            WorkerPhase::Exited => self,
        }
    }

    /// Worker `w`'s outside poll call settled with `r`: the outcome is kept unless
    /// shutdown was requested meanwhile, in which case it is dropped.
    pub open spec fn after_completion(self, w: int, r: T) -> Self {
        if self.workers[w] is Polling {
            if self.shutdown {
                BufferModel { workers: self.workers.update(w, WorkerPhase::Idle), ..self }
            } else {
                BufferModel { workers: self.workers.update(w, WorkerPhase::Holding(r)), ..self }
            }
        } else {
            self
        }
    }

    /// Shutdown won the race against worker `w`'s poll call: its outcome is given up.
    pub open spec fn after_abandon(self, w: int) -> Self {
        if self.shutdown && self.workers[w] is Polling {
            BufferModel { workers: self.workers.update(w, WorkerPhase::Idle), ..self }
        } else {
            self
        }
    }

    /// What a consumer's attempt to receive yields: the oldest queued outcome;
    /// else, handed over directly, the outcome of the first worker that holds
    /// one; else `Closed` when every worker has exited; else `Wait`.
    pub open spec fn next_receipt(self) -> Receipt<T> {
        if self.queue.len() > 0 {
            Receipt::Item(self.queue[0])
        } else if self.has_holder() {
            Receipt::Item(self.workers[self.first_holder()]->Holding_0)
        } else if self.closed() {
            Receipt::Closed
        } else {
            Receipt::Wait
        }
    }

    /// The state after a consumer's attempt to receive.
    pub open spec fn after_receive(self) -> Self {
        if self.queue.len() > 0 {
            BufferModel { queue: self.queue.drop_first(), ..self }
        } else if self.has_holder() {
            BufferModel {
                workers: self.workers.update(self.first_holder(), WorkerPhase::Idle),
                ..self
            }
        } else {
            self
        }
    }

    /// The state after one step of each of the first `n` workers, in order.
    pub open spec fn after_round(self, n: nat) -> Self
        decreases n,
    {
        if n == 0 {
            self
        } else {
            self.after_round((n - 1) as nat).after_step(n - 1)
        }
    }

    /// The state once shutdown was requested.
    pub open spec fn after_shutdown(self) -> Self {
        BufferModel { shutdown: true, ..self }
    }
}

/// The first holder is the only index that is one.
pub proof fn lemma_first_holder_unique<T>(m: BufferModel<T>, i: int)
    requires
        m.is_first_holder(i),
    ensures
        m.first_holder() == i,
        m.has_holder(),
{
    let k = m.first_holder();
    assert(m.is_first_holder(k));
    if k < i {
        assert(!(m.workers[k] is Holding));
    } else if k > i {
        assert(!(m.workers[i] is Holding));
    }
    assert(m.workers[i] is Holding);
}

/// Where some worker holds an outcome, a first one does, at or before it.
pub proof fn lemma_first_holder_exists<T>(m: BufferModel<T>, k: int)
    requires
        0 <= k < m.workers.len(),
        m.workers[k] is Holding,
    ensures
        m.is_first_holder(m.first_holder()),
        m.first_holder() <= k,
    decreases k,
{
    if exists|j: int| 0 <= j < k && #[trigger] m.workers[j] is Holding {
        let j = choose|j: int| 0 <= j < k && #[trigger] m.workers[j] is Holding;
        lemma_first_holder_exists(m, j);
    } else {
        assert(m.is_first_holder(k));
        lemma_first_holder_unique(m, k);
    }
}

/// The shared state of a demand-gated long-poll buffer: a pool of workers that
/// call an outside poll function only as often as consumers asked for a result,
/// and a bounded queue of finished outcomes.
pub struct LongPollBuffer<T> {
    queue: VecDeque<T>,
    capacity: usize,
    demand: usize,
    shutdown: bool,
    workers: Vec<WorkerPhase<T>>,
    requested: Ghost<nat>,
    started: Ghost<nat>,
}

impl<T> View for LongPollBuffer<T> {
    type V = BufferModel<T>;

    closed spec fn view(&self) -> BufferModel<T> {
        BufferModel {
            queue: self.queue@,
            capacity: self.capacity as nat,
            demand: self.demand as nat,
            shutdown: self.shutdown,
            workers: self.workers@,
            requested: self.requested@,
            started: self.started@,
        }
    }
}

impl<T> LongPollBuffer<T> {
    pub open spec fn wf(&self) -> bool {
        self@.wf()
    }

    /// A buffer with `concurrent_pollers` idle workers and room for
    /// `buffer_size` finished outcomes.
    /// A size of 0 makes each outcome wait for a consumer to take it over
    /// directly.
    pub fn new(concurrent_pollers: usize, buffer_size: usize) -> (r: Self)
        ensures
            r.wf(),
            r@ == BufferModel::<T>::initial(concurrent_pollers as nat, buffer_size as nat),
    {
        let mut workers: Vec<WorkerPhase<T>> = Vec::new();
        let mut i: usize = 0;
        while i < concurrent_pollers
            invariant
                i <= concurrent_pollers,
                workers@ == Seq::new(i as nat, |j: int| WorkerPhase::<T>::Idle),
            decreases concurrent_pollers - i,
        {
            workers.push(WorkerPhase::Idle);
            i = i + 1;
            assert(workers@ =~= Seq::new(i as nat, |j: int| WorkerPhase::<T>::Idle));
        }
        let r = LongPollBuffer {
            queue: VecDeque::new(),
            capacity: buffer_size,
            demand: 0,
            shutdown: false,
            workers,
            requested: Ghost(0),
            started: Ghost(0),
        };
        assert(r@.queue =~= Seq::<T>::empty());
        r
    }

    /// The number of workers in the pool.
    pub fn worker_count(&self) -> (n: usize)
        ensures
            n == self@.workers.len(),
    {
        self.workers.len()
    }

    /// A consumer asks for one more result: one unit of demand is added, the
    /// only way demand ever comes about. Returns false, with nothing changed,
    /// where the counter is already at the largest value it can hold.
    pub fn request_poll(&mut self) -> (added: bool)
        requires
            old(self).wf(),
        ensures
            final(self).wf(),
            added == (old(self)@.demand < usize::MAX),
            added ==> final(self)@ == old(self)@.after_request(),
            !added ==> final(self)@ == old(self)@,
    {
        if self.demand < usize::MAX {
            self.demand = self.demand + 1;
            self.requested = Ghost(self.requested@ + 1);
            true
        } else {
            false
        }
    }

    /// Whether one more unit of demand fits in the counter.
    pub fn has_demand_room(&self) -> (room: bool)
        ensures
            room == (self@.demand < usize::MAX),
    {
        self.demand < usize::MAX
    }

    /// One step of worker `w`'s loop. An idle worker exits once shutdown was
    /// requested, else consumes one unit of demand and is told to poll, else
    /// waits. A worker that holds an outcome pushes it when the queue has room;
    /// on a full queue it waits, unless shutdown was requested: then the
    /// outcome is dropped and the worker exits.
    pub fn worker_step(&mut self, w: usize) -> (action: WorkerAction)
        requires
            old(self).wf(),
            w < old(self)@.workers.len(),
        ensures
            final(self).wf(),
            action == old(self)@.step_action(w as int),
            final(self)@ == old(self)@.after_step(w as int),
    {
        if matches!(self.workers[w], WorkerPhase::Idle) {
            if self.shutdown {
                self.workers.set(w, WorkerPhase::Exited);
                WorkerAction::Exit
            } else if self.demand > 0 {
                self.workers.set(w, WorkerPhase::Polling);
                self.demand = self.demand - 1;
                self.started = Ghost(self.started@ + 1);
                WorkerAction::StartPoll
            } else {
                WorkerAction::Wait
            }
        } else if matches!(self.workers[w], WorkerPhase::Holding(_)) {
            if self.queue.len() < self.capacity {
                let mut taken = WorkerPhase::Idle;
                self.workers.set_and_swap(w, &mut taken);
                match taken {
                    WorkerPhase::Holding(r) => self.queue.push_back(r),
                    _ => {},
                }
                WorkerAction::Pushed
            } else if self.shutdown {
                self.workers.set(w, WorkerPhase::Exited);
                WorkerAction::Exit
            } else {
                WorkerAction::Wait
            }
        } else if matches!(self.workers[w], WorkerPhase::Exited) {
            WorkerAction::Exit
        } else {
            WorkerAction::Wait
        }
    }

    /// Worker `w`'s outside poll call settled with outcome `r`. The worker then
    /// holds it for the queue, unless shutdown was requested meanwhile: then the
    /// outcome is dropped and the worker goes back to the top of its loop.
    /// Returns whether the outcome was kept.
    pub fn complete_poll(&mut self, w: usize, r: T) -> (kept: bool)
        requires
            old(self).wf(),
            w < old(self)@.workers.len(),
        ensures
            final(self).wf(),
            kept == (old(self)@.workers[w as int] is Polling && !old(self)@.shutdown),
            final(self)@ == old(self)@.after_completion(w as int, r),
    {
        if matches!(self.workers[w], WorkerPhase::Polling) {
            if self.shutdown {
                self.workers.set(w, WorkerPhase::Idle);
                false
            } else {
                self.workers.set(w, WorkerPhase::Holding(r));
                true
            }
        } else {
            false
        }
    }

    /// Shutdown was seen before worker `w`'s poll call settled: its outcome is
    /// given up, and the unit of demand it consumed is not given back.
    pub fn abandon_poll(&mut self, w: usize)
        requires
            old(self).wf(),
            w < old(self)@.workers.len(),
        ensures
            final(self).wf(),
            final(self)@ == old(self)@.after_abandon(w as int),
    {
        if self.shutdown && matches!(self.workers[w], WorkerPhase::Polling) {
            self.workers.set(w, WorkerPhase::Idle);
        }
    }

    /// Every worker has left its loop.
    pub fn is_closed(&self) -> (c: bool)
        ensures
            c == self@.closed(),
    {
        let mut i: usize = 0;
        while i < self.workers.len()
            invariant
                i <= self.workers@.len(),
                forall|j: int| 0 <= j < i ==> #[trigger] self.workers@[j] is Exited,
            decreases self.workers@.len() - i,
        {
            if !matches!(self.workers[i], WorkerPhase::Exited) {
                return false;
            }
            i = i + 1;
        }
        true
    }

    /// The first worker that holds an outcome, if any.
    fn find_holder(&self) -> (r: Option<usize>)
        ensures
            match r {
                Some(i) => self@.is_first_holder(i as int),
                None => !self@.has_holder(),
            },
    {
        let mut i: usize = 0;
        while i < self.workers.len()
            invariant
                i <= self.workers@.len(),
                forall|j: int| 0 <= j < i ==> !(#[trigger] self.workers@[j] is Holding),
            decreases self.workers@.len() - i,
        {
            if matches!(self.workers[i], WorkerPhase::Holding(_)) {
                return Some(i);
            }
            i = i + 1;
        }
        None
    }

    /// One attempt of a consumer to receive: the oldest buffered outcome if
    /// there is one; else an outcome handed over by the first worker that
    /// holds one; else `Closed` when no worker is left; else `Wait`.
    pub fn receive(&mut self) -> (r: Receipt<T>)
        requires
            old(self).wf(),
        ensures
            final(self).wf(),
            r == old(self)@.next_receipt(),
            final(self)@ == old(self)@.after_receive(),
    {
        if self.queue.len() > 0 {
            return match self.queue.pop_front() {
                Some(x) => Receipt::Item(x),
                None => Receipt::Wait,
            };
        }
        match self.find_holder() {
            Some(i) => {
                proof {
                    lemma_first_holder_unique(self@, i as int);
                }
                let mut taken = WorkerPhase::Idle;
                self.workers.set_and_swap(i, &mut taken);
                match taken {
                    WorkerPhase::Holding(x) => Receipt::Item(x),
                    _ => Receipt::Wait,
                }
            },
            None => if self.is_closed() {
                Receipt::Closed
            } else {
                Receipt::Wait
            },
        }
    }

    /// Whether an attempt to receive would end at once, with an outcome or
    /// with `Closed`, rather than wait.
    pub fn is_ready(&self) -> (ready: bool)
        ensures
            ready == !(self@.next_receipt() is Wait),
    {
        self.queue.len() > 0 || self.find_holder().is_some() || self.is_closed()
    }

    /// Sets the shutdown flag. Idempotent; does not wait for the workers.
    pub fn notify_shutdown(&mut self)
        requires
            old(self).wf(),
        ensures
            final(self).wf(),
            final(self)@ == old(self)@.after_shutdown(),
    {
        self.shutdown = true;
    }

    /// Whether shutdown was requested.
    pub fn is_shutting_down(&self) -> (s: bool)
        ensures
            s == self@.shutdown,
    {
        self.shutdown
    }
}

} // verus!
