//! Messages of the controller.

use vstd::prelude::*;

verus! {

/// Identifies a connected status listener (a websocket client).
pub type ListenerId = u64;

/// Identifies a worker client; the coordinator numbers them from 0 in the
/// order they are created.
pub type WorkerId = u64;

/// A job of the controller (it holds no data yet).
#[derive(Debug, Clone, Copy, PartialEq, Eq, Structural)]
pub struct Job {}

/// Everything the controller reports to its listeners.
#[derive(Debug)]
pub struct ControllerState {
    pub jobs: Vec<Job>,
}

impl View for ControllerState {
    type V = Seq<Job>;

    open spec fn view(&self) -> Seq<Job> {
        self.jobs@
    }
}

impl ControllerState {
    /// An independent copy of this state.
    pub fn snapshot(&self) -> (copy: ControllerState)
        ensures
            copy@ == self@,
    {
        let mut jobs: Vec<Job> = Vec::new();
        let mut i: usize = 0;
        while i < self.jobs.len()
            invariant
                i <= self.jobs@.len(),
                jobs@ == self.jobs@.take(i as int),
            decreases self.jobs@.len() - i,
        {
            jobs.push(self.jobs[i]);
            i = i + 1;
            assert(jobs@ =~= self.jobs@.take(i as int));
        }
        assert(jobs@ =~= self.jobs@);
        ControllerState { jobs }
    }
}

/// The controller's state, as sent to a listener.
#[derive(Debug)]
pub struct StatusUpdate {
    pub status: ControllerState,
}

/// A command for a worker client.
#[derive(Debug, Clone, Copy, PartialEq, Eq, Structural)]
pub enum WorkerCommand {
    Create,
    Render,
    Halt,
    Destroy,
}

/// A status listener joins.
#[derive(Debug, Clone, Copy, PartialEq, Eq, Structural)]
pub struct Connect {
    pub addr: ListenerId,
}

/// Asks the controller for a new worker.
#[derive(Debug, Clone, Copy, PartialEq, Eq, Structural)]
pub struct CreateWorker {}

/// One status update addressed to one listener.
#[derive(Debug)]
pub struct StatusDelivery {
    pub listener: ListenerId,
    pub update: StatusUpdate,
}

/// Mathematical value of a list of deliveries: who gets which jobs.
pub open spec fn status_deliveries_view(d: Seq<StatusDelivery>) -> Seq<(ListenerId, Seq<Job>)> {
    d.map_values(|x: StatusDelivery| (x.listener, x.update.status@))
}

} // verus!
