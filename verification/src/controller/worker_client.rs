//! The controller's handle on one worker machine.

use vstd::prelude::*;
use crate::controller::messages::WorkerCommand;

verus! {

/// A worker machine working for one job.
pub struct WorkerClient {
    pub job_id: String,
}

impl WorkerClient {
    pub fn new(job_id: String) -> (c: WorkerClient)
        ensures
            c.job_id == job_id,
    {
        WorkerClient { job_id }
    }

    /// Carries out a command. Only `Create` is implemented; it answers
    /// `Ok("Hi")`.
    pub fn handle(&mut self, msg: WorkerCommand) -> (r: Result<String, String>)
        requires
            msg == WorkerCommand::Create,
        ensures
            r is Ok,
            r->Ok_0@ == "Hi"@,
            final(self).job_id == old(self).job_id,
    {
        Ok(String::from_str("Hi"))
    }
}

} // verus!
