//! Messages exchanged inside a worker, and the status it reports.

use vstd::prelude::*;

verus! {

/// Identifies a connected status listener (a websocket client). The
/// process that owns the connections hands out these numbers.
pub type ListenerId = u64;

/// Request to start rendering the frames `frame_start..=frame_end`.
#[derive(Debug, Clone, Copy, PartialEq, Eq, Structural)]
pub struct StartRender {
    pub frame_start: u32,
    pub frame_end: u32,
}

/// A status listener joins.
#[derive(Debug, Clone, Copy, PartialEq, Eq, Structural)]
pub struct WorkerWsConnect {
    pub addr: ListenerId,
}

/// Progress reported by a running Blender process.
#[derive(Debug, Clone, Copy, PartialEq, Eq, Structural)]
pub enum StatusUpdate {
    Started,
    RenderedFrame { frame_number: u32, render_time: u32 },
    Finished,
    /// Nothing new was available when the progress stream was polled.
    NoUpdate,
}

/// Asks for the worker's current status.
#[derive(Debug, Clone, Copy, PartialEq, Eq, Structural)]
pub struct GetStatus {}

/// The progress of the current render job.
#[derive(Debug)]
pub struct JobStatus {
    pub frame_start: u32,
    pub frame_end: u32,
    pub frames_to_render: u32,
    /// Milliseconds spent on each rendered frame, in order of completion.
    pub render_times: Vec<u32>,
}

/// Mathematical value of a [`JobStatus`].
pub struct JobStatusView {
    pub frame_start: u32,
    pub frame_end: u32,
    pub frames_to_render: u32,
    pub render_times: Seq<u32>,
}

impl View for JobStatus {
    type V = JobStatusView;

    open spec fn view(&self) -> JobStatusView {
        JobStatusView {
            frame_start: self.frame_start,
            frame_end: self.frame_end,
            frames_to_render: self.frames_to_render,
            render_times: self.render_times@,
        }
    }
}

impl JobStatus {
    /// An independent copy of this status.
    pub fn snapshot(&self) -> (copy: JobStatus)
        ensures
            copy@ == self@,
    {
        let mut times: Vec<u32> = Vec::new();
        let mut i: usize = 0;
        while i < self.render_times.len()
            invariant
                i <= self.render_times@.len(),
                times@ == self.render_times@.take(i as int),
            decreases self.render_times@.len() - i,
        {
            times.push(self.render_times[i]);
            i = i + 1;
            assert(times@ =~= self.render_times@.take(i as int));
        }
        assert(times@ =~= self.render_times@);
        JobStatus {
            frame_start: self.frame_start,
            frame_end: self.frame_end,
            frames_to_render: self.frames_to_render,
            render_times: times,
        }
    }
}

/// What the worker is doing.
#[derive(Debug)]
pub enum Status {
    Ready,
    Working { job_status: JobStatus },
}

/// Mathematical value of a [`Status`].
pub enum StatusView {
    Ready,
    Working { job_status: JobStatusView },
}

impl View for Status {
    type V = StatusView;

    open spec fn view(&self) -> StatusView {
        match self {
            Status::Ready => StatusView::Ready,
            Status::Working { job_status } => StatusView::Working { job_status: job_status@ },
        }
    }
}

/// A status sent to listeners.
#[derive(Debug)]
pub struct JobStatusUpdate {
    pub status: Status,
}

/// One status update addressed to one listener.
#[derive(Debug)]
pub struct JobStatusDelivery {
    pub listener: ListenerId,
    pub update: JobStatusUpdate,
}

/// Mathematical value of a list of deliveries: who gets which status.
pub open spec fn deliveries_view(d: Seq<JobStatusDelivery>) -> Seq<(ListenerId, StatusView)> {
    d.map_values(|x: JobStatusDelivery| (x.listener, x.update.status@))
}

} // verus!
