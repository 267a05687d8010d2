//! The coordinator: the controller's central state.

use vstd::prelude::*;
use crate::controller::messages::{
    status_deliveries_view, Connect, ControllerState, CreateWorker, Job, ListenerId, StatusDelivery,
    StatusUpdate, WorkerCommand, WorkerId,
};
use crate::uuid_gen::{generate_uuid, is_hyphenated_v4};

verus! {

/// Mathematical value of a [`Coordinator`].
pub struct CoordinatorView {
    pub listeners: Seq<ListenerId>,
    pub workers: Seq<WorkerId>,
    pub jobs: Seq<Job>,
}

impl CoordinatorView {
    /// Every worker's id is its position: ids are handed out as 0, 1, 2, ...
    pub open spec fn worker_ids_are_positions(self) -> bool {
        forall|i: int| 0 <= i < self.workers.len() ==> self.workers[i] == i
    }

    /// The updates of a state broadcast: the jobs, to every listener once,
    /// in the order they joined.
    pub open spec fn broadcast(self) -> Seq<(ListenerId, Seq<Job>)> {
        self.listeners.map_values(|l: ListenerId| (l, self.jobs))
    }

    /// The state after `listener` joins.
    pub open spec fn after_connect(self, listener: ListenerId) -> CoordinatorView {
        CoordinatorView { listeners: self.listeners.push(listener), ..self }
    }

    /// The state after a worker is created: it gets the next id.
    pub open spec fn after_create_worker(self) -> CoordinatorView {
        CoordinatorView { workers: self.workers.push(self.workers.len() as WorkerId), ..self }
    }
}

/// A worker to start: its id, the job id it works for, and the first
/// command to send it.
#[derive(Debug)]
pub struct WorkerLaunch {
    pub worker: WorkerId,
    pub job_id: String,
    pub command: WorkerCommand,
}

/// The controller's listeners, workers and jobs.
pub struct Coordinator {
    listeners: Vec<ListenerId>,
    workers: Vec<WorkerId>,
    state: ControllerState,
}

impl View for Coordinator {
    type V = CoordinatorView;

    closed spec fn view(&self) -> CoordinatorView {
        CoordinatorView { listeners: self.listeners@, workers: self.workers@, jobs: self.state@ }
    }
}

impl Coordinator {
    #[verifier::type_invariant]
    spec fn ids_are_positions(self) -> bool {
        forall|i: int| 0 <= i < self.workers@.len() ==> self.workers@[i] == i
    }
}

impl Default for Coordinator {
    /// No listeners, no workers, no jobs.
    fn default() -> (c: Coordinator)
        ensures
            c@ == (CoordinatorView { listeners: Seq::empty(), workers: Seq::empty(), jobs: Seq::empty() }),
            c@.worker_ids_are_positions(),
    {
        let c = Coordinator {
            listeners: Vec::new(),
            workers: Vec::new(),
            state: ControllerState { jobs: Vec::new() },
        };
        assert(c@ =~= (CoordinatorView { listeners: Seq::empty(), workers: Seq::empty(), jobs: Seq::empty() }));
        c
    }
}

impl Coordinator {
    /// The updates that send the current state to every listener.
    pub fn send_state_update(&self) -> (out: Vec<StatusDelivery>)
        ensures
            status_deliveries_view(out@) == self@.broadcast(),
    {
        let ghost target = self@.broadcast();
        let mut out: Vec<StatusDelivery> = Vec::new();
        let mut i: usize = 0;
        while i < self.listeners.len()
            invariant
                target == self@.broadcast(),
                i <= self.listeners@.len(),
                status_deliveries_view(out@) == target.take(i as int),
            decreases self.listeners@.len() - i,
        {
            let d = StatusDelivery {
                listener: self.listeners[i],
                update: StatusUpdate { status: self.state.snapshot() },
            };
            let ghost before = out@;
            let ghost entry = (d.listener, d.update.status@);
            assert(entry == target[i as int]);
            out.push(d);
            assert(status_deliveries_view(out@) =~= status_deliveries_view(before).push(entry));
            i = i + 1;
            assert(status_deliveries_view(out@) =~= target.take(i as int));
        }
        assert(target.take(i as int) =~= target);
        out
    }

    /// A listener joins; every listener, the new one included, is sent the
    /// current state.
    pub fn handle_connect(&mut self, msg: Connect) -> (out: Vec<StatusDelivery>)
        ensures
            final(self)@ == old(self)@.after_connect(msg.addr),
            final(self)@.worker_ids_are_positions(),
            status_deliveries_view(out@) == final(self)@.broadcast(),
    {
        proof {
            use_type_invariant(&*self);
        }
        let mut listeners: Vec<ListenerId> = Vec::new();
        std::mem::swap(&mut listeners, &mut self.listeners);
        listeners.push(msg.addr);
        self.listeners = listeners;
        proof {
            use_type_invariant(&*self);
            assert(self@ =~= old(self)@.after_connect(msg.addr));
        }
        self.send_state_update()
    }

    /// Creates a worker: it gets the next id, which no earlier worker has,
    /// and a fresh random job id, and is to be sent `Create`.
    pub fn handle_create_worker(&mut self, _msg: CreateWorker) -> (launch: WorkerLaunch)
        ensures
            final(self)@ == old(self)@.after_create_worker(),
            final(self)@.worker_ids_are_positions(),
            launch.worker == old(self)@.workers.len(),
            !old(self)@.workers.contains(launch.worker),
            is_hyphenated_v4(launch.job_id@),
            launch.command == WorkerCommand::Create,
    {
        proof {
            use_type_invariant(&*self);
        }
        let job_id = generate_uuid();
        let worker: WorkerId = self.workers.len() as WorkerId;
        proof {
            assert(!self.workers@.contains(worker)) by {
                if self.workers@.contains(worker) {
                    let k: int = choose|k: int| 0 <= k < self.workers@.len() && self.workers@[k] == worker;
                    assert(self.workers@[k] == k);
                }
            }
        }
        let mut workers: Vec<WorkerId> = Vec::new();
        std::mem::swap(&mut workers, &mut self.workers);
        workers.push(worker);
        self.workers = workers;
        proof {
            use_type_invariant(&*self);
            assert(self@ =~= old(self)@.after_create_worker());
        }
        WorkerLaunch { worker, job_id, command: WorkerCommand::Create }
    }
}

/// Worker ids are never reused: while ids are positions, they are all
/// different, the next id is new, and creating a worker keeps them
/// positions (for fewer workers than `u64` can number).
pub proof fn lemma_worker_ids_distinct(cv: CoordinatorView)
    requires
        cv.worker_ids_are_positions(),
        cv.workers.len() <= u64::MAX,
    ensures
        cv.workers.no_duplicates(),
        cv.after_create_worker().worker_ids_are_positions(),
        !cv.workers.contains(cv.workers.len() as WorkerId),
{
    assert forall|i: int, j: int| 0 <= i < cv.workers.len() && 0 <= j < cv.workers.len() && i != j implies
        cv.workers[i] != cv.workers[j] by {
        assert(cv.workers[i] == i);
        assert(cv.workers[j] == j);
    }
    if cv.workers.contains(cv.workers.len() as WorkerId) {
        let k: int = choose|k: int| 0 <= k < cv.workers.len() && cv.workers[k] == cv.workers.len() as WorkerId;
        assert(cv.workers[k] == k);
    }
}

/// A listener that joins is sent the controller's state at once, after
/// every earlier listener, and every listener is sent the same jobs.
pub proof fn lemma_joining_listener_hears_state(cv: CoordinatorView, listener: ListenerId)
    ensures
        cv.after_connect(listener).broadcast().len() == cv.listeners.len() + 1,
        cv.after_connect(listener).broadcast().last() == (listener, cv.jobs),
        cv.after_connect(listener).broadcast().drop_last() == cv.broadcast(),
{
    assert(cv.after_connect(listener).broadcast().drop_last() =~= cv.broadcast());
}

/// A state broadcast sends every listener, once and in the order they
/// joined, the controller's jobs; creating a worker adds exactly one id,
/// the number of workers before it, and changes nothing else.
pub proof fn lemma_coordinator_steps(cv: CoordinatorView, listener: ListenerId)
    ensures
        cv.broadcast().len() == cv.listeners.len(),
        forall|i: int| 0 <= i < cv.listeners.len() ==> #[trigger] cv.broadcast()[i] == (cv.listeners[i], cv.jobs),
        cv.after_connect(listener).listeners == cv.listeners.push(listener),
        cv.after_connect(listener).workers == cv.workers,
        cv.after_connect(listener).jobs == cv.jobs,
        cv.workers.len() < 18446744073709551615 ==> cv.after_create_worker().workers.len() == cv.workers.len() + 1,
        cv.workers.len() < 18446744073709551615 ==> cv.after_create_worker().workers.last() == cv.workers.len(),
        cv.after_create_worker().workers.drop_last() == cv.workers,
        cv.after_create_worker().listeners == cv.listeners,
        cv.after_create_worker().jobs == cv.jobs,
{
    assert(cv.after_create_worker().workers.drop_last() =~= cv.workers);
}

} // verus!
