//! The worker's state: the current job's progress and who listens to it.

use vstd::prelude::*;
use crate::worker::messages::{
    deliveries_view, GetStatus, JobStatus, JobStatusDelivery, JobStatusUpdate, JobStatusView, ListenerId,
    StartRender, Status, StatusUpdate, StatusView, WorkerWsConnect,
};
use crate::worker::blender::Runner;

verus! {

/// Mathematical value of a [`WorkerState`].
pub struct WorkerStateView {
    pub started: bool,
    pub job_status: Option<JobStatusView>,
    pub listeners: Seq<ListenerId>,
}

/// How many frames `frame_start..=frame_end` holds, when that is a
/// non-empty range whose size fits in a `u32`.
pub open spec fn frames_in_range(frame_start: u32, frame_end: u32) -> Option<u32> {
    if frame_start <= frame_end && frame_end - frame_start + 1 <= u32::MAX {
        Some((frame_end - frame_start + 1) as u32)
    } else {
        None
    }
}

/// Whether a worker in any state can take `update`: `NoUpdate` is never
/// delivered to it, and a rendered frame or the end of a render needs a
/// job.
pub open spec fn accepts_update(job_status: Option<JobStatusView>, update: StatusUpdate) -> bool {
    &&& update !is NoUpdate
    &&& (update is RenderedFrame ==> job_status is Some)
    &&& (update is Finished ==> job_status is Some)
}

impl WorkerStateView {
    /// What `GetStatus` answers.
    pub open spec fn status(self) -> StatusView {
        match self.job_status {
            Some(j) => StatusView::Working { job_status: j },
            None => StatusView::Ready,
        }
    }

    /// The updates sent to listeners: the current job's status to every
    /// listener once, in the order they joined; nothing while idle.
    pub open spec fn broadcast(self) -> Seq<(ListenerId, StatusView)> {
        match self.job_status {
            None => Seq::empty(),
            Some(j) => self.listeners.map_values(
                |l: ListenerId| (l, StatusView::Working { job_status: j }),
            ),
        }
    }

    /// The state after `listener` joins.
    pub open spec fn after_connect(self, listener: ListenerId) -> WorkerStateView {
        WorkerStateView { listeners: self.listeners.push(listener), ..self }
    }

    /// The state after a render of `frame_start..=frame_end` starts: a new
    /// job with no rendered frames.
    pub open spec fn after_start(self, frame_start: u32, frame_end: u32) -> WorkerStateView {
        WorkerStateView {
            job_status: Some(
                JobStatusView {
                    frame_start,
                    frame_end,
                    frames_to_render: frames_in_range(frame_start, frame_end)->0,
                    render_times: Seq::empty(),
                },
            ),
            ..self
        }
    }

    /// The state after a progress update: a rendered frame's time is
    /// appended to the job's render times; other updates change nothing.
    pub open spec fn after_update(self, update: StatusUpdate) -> WorkerStateView {
        match update {
            StatusUpdate::RenderedFrame { frame_number, render_time } => {
                let j = self.job_status->0;
                WorkerStateView {
                    job_status: Some(JobStatusView { render_times: j.render_times.push(render_time), ..j }),
                    ..self
                }
            },
            _ => self,
        }
    }
}

/// The worker: whether it has started, the current job, the listeners.
pub struct WorkerState {
    pub started: bool,
    job_status: Option<JobStatus>,
    listeners: Vec<ListenerId>,
}

impl View for WorkerState {
    type V = WorkerStateView;

    closed spec fn view(&self) -> WorkerStateView {
        WorkerStateView {
            started: self.started,
            job_status: match self.job_status {
                Some(j) => Some(j@),
                None => None,
            },
            listeners: self.listeners@,
        }
    }
}

/// How many frames `frame_start..=frame_end` holds (see [`frames_in_range`]).
pub fn frames_to_render(frame_start: u32, frame_end: u32) -> (n: Option<u32>)
    ensures
        n == frames_in_range(frame_start, frame_end),
{
    if frame_start <= frame_end && frame_end - frame_start < 0xffff_ffff {
        Some(frame_end - frame_start + 1)
    } else {
        None
    }
}

impl WorkerState {
    /// An idle worker with no listeners.
    pub fn new() -> (w: WorkerState)
        ensures
            w@ == WorkerState::idle(),
    {
        WorkerState { started: false, job_status: None, listeners: Vec::new() }
    }

    /// The updates to send so that every listener sees the current job.
    pub fn update_clients(&self) -> (out: Vec<JobStatusDelivery>)
        ensures
            deliveries_view(out@) == self@.broadcast(),
    {
        let mut out: Vec<JobStatusDelivery> = Vec::new();
        match &self.job_status {
            None => {
                assert(deliveries_view(out@) =~= self@.broadcast());
                out
            },
            Some(job) => {
                let ghost target = self@.broadcast();
                let mut i: usize = 0;
                while i < self.listeners.len()
                    invariant
                        self.job_status == Some(*job),
                        target == self@.broadcast(),
                        i <= self.listeners@.len(),
                        deliveries_view(out@) == target.take(i as int),
                    decreases self.listeners@.len() - i,
                {
                    let d = JobStatusDelivery {
                        listener: self.listeners[i],
                        update: JobStatusUpdate { status: Status::Working { job_status: job.snapshot() } },
                    };
                    let ghost before = out@;
                    let ghost entry = (d.listener, d.update.status@);
                    assert(entry == target[i as int]);
                    out.push(d);
                    assert(deliveries_view(out@) =~= deliveries_view(before).push(entry));
                    i = i + 1;
                    assert(deliveries_view(out@) =~= target.take(i as int));
                }
                assert(target.take(i as int) =~= target);
                out
            },
        }
    }

    /// Answers `GetStatus`: the current job's status, or `Ready`.
    pub fn handle_get_status(&self, _msg: GetStatus) -> (s: Status)
        ensures
            s@ == self@.status(),
    {
        match &self.job_status {
            Some(job) => Status::Working { job_status: job.snapshot() },
            None => Status::Ready,
        }
    }

    /// A listener joins; every listener, the new one included, is sent the
    /// current job's status.
    pub fn handle_connect(&mut self, msg: WorkerWsConnect) -> (out: Vec<JobStatusDelivery>)
        ensures
            final(self)@ == old(self)@.after_connect(msg.addr),
            deliveries_view(out@) == final(self)@.broadcast(),
    {
        self.listeners.push(msg.addr);
        self.update_clients()
    }

    /// Starts a job over `frame_start..=frame_end`, replacing any earlier
    /// one; gives the render to run.
    pub fn handle_start_render(&mut self, msg: StartRender) -> (runner: Runner)
        requires
            frames_in_range(msg.frame_start, msg.frame_end) is Some,
        ensures
            final(self)@ == old(self)@.after_start(msg.frame_start, msg.frame_end),
            runner.frame_start == msg.frame_start,
            runner.frame_end == msg.frame_end,
    {
        let frame_start: u32 = msg.frame_start;
        let frame_end: u32 = msg.frame_end;
        let frames_to_render: u32 = frame_end - frame_start + 1;
        self.job_status = Some(JobStatus {
            frame_start,
            frame_end,
            frames_to_render,
            render_times: Vec::new(),
        });
        proof {
            assert(self@.job_status->0.render_times =~= Seq::<u32>::empty());
            assert(self@ =~= old(self)@.after_start(msg.frame_start, msg.frame_end));
        }
        Runner::new(frame_start, frame_end)
    }

    /// Whether [`WorkerState::handle_status_update`] takes `update` now.
    pub fn accepts(&self, update: &StatusUpdate) -> (b: bool)
        ensures
            b == accepts_update(self@.job_status, *update),
    {
        match update {
            StatusUpdate::NoUpdate => false,
            StatusUpdate::RenderedFrame { .. } => self.job_status.is_some(),
            StatusUpdate::Finished => self.job_status.is_some(),
            _ => true,
        }
    }

    /// Takes a progress update; a rendered frame's time is recorded and
    /// every listener is sent the new status.
    pub fn handle_status_update(&mut self, msg: StatusUpdate) -> (out: Vec<JobStatusDelivery>)
        requires
            accepts_update(old(self)@.job_status, msg),
        ensures
            final(self)@ == old(self)@.after_update(msg),
            msg is RenderedFrame ==> deliveries_view(out@) == final(self)@.broadcast(),
            !(msg is RenderedFrame) ==> out@.len() == 0,
    {
        match msg {
            StatusUpdate::RenderedFrame { frame_number, render_time } => {
                let mut job = self.job_status.take().unwrap();
                job.render_times.push(render_time);
                self.job_status = Some(job);
                proof {
                    assert(self@ =~= old(self)@.after_update(msg));
                }
                self.update_clients()
            },
            _ => Vec::new(),
        }
    }
}

/// The render times that a sequence of updates carries, in order.
pub open spec fn render_times_of(updates: Seq<StatusUpdate>) -> Seq<u32>
    decreases updates.len(),
{
    if updates.len() == 0 {
        Seq::empty()
    } else {
        let rest = render_times_of(updates.drop_last());
        match updates.last() {
            StatusUpdate::RenderedFrame { frame_number, render_time } => rest.push(render_time),
            _ => rest,
        }
    }
}

impl WorkerStateView {
    /// The state after a sequence of updates, in order.
    pub open spec fn after_updates(self, updates: Seq<StatusUpdate>) -> WorkerStateView
        decreases updates.len(),
    {
        if updates.len() == 0 {
            self
        } else {
            self.after_updates(updates.drop_last()).after_update(updates.last())
        }
    }
}

proof fn lemma_updates_append_times(st: WorkerStateView, updates: Seq<StatusUpdate>)
    requires
        st.job_status is Some,
    ensures
        st.after_updates(updates).job_status is Some,
        st.after_updates(updates).job_status->0 == (JobStatusView {
            render_times: st.job_status->0.render_times + render_times_of(updates),
            ..st.job_status->0
        }),
        st.after_updates(updates).listeners == st.listeners,
        st.after_updates(updates).started == st.started,
        forall|i: int| 0 <= i < updates.len() && updates[i] !is NoUpdate ==>
            accepts_update(#[trigger] st.after_updates(updates.take(i)).job_status, updates[i]),
    decreases updates.len(),
{
    if updates.len() == 0 {
        assert(st.job_status->0.render_times + render_times_of(updates) =~= st.job_status->0.render_times);
    } else {
        let init = updates.drop_last();
        lemma_updates_append_times(st, init);
        let j = st.job_status->0;
        match updates.last() {
            StatusUpdate::RenderedFrame { frame_number, render_time } => {
                assert(j.render_times + render_times_of(updates) =~= (j.render_times + render_times_of(init)).push(render_time));
            },
            _ => {
                assert(j.render_times + render_times_of(updates) =~= j.render_times + render_times_of(init));
            },
        }
        assert forall|i: int| 0 <= i < updates.len() && updates[i] !is NoUpdate implies
            accepts_update(#[trigger] st.after_updates(updates.take(i)).job_status, updates[i]) by {
            if i < updates.len() - 1 {
                assert(updates.take(i) =~= init.take(i));
                assert(updates[i] == init[i]);
            } else {
                assert(updates.take(i) =~= init);
            }
        }
    }
}

/// A job's progress is the list of its frames' render times in the order
/// they were reported: after a render of `frame_start..=frame_end` starts
/// and progress updates arrive, every update is accepted and the status
/// is `Working` over the same range, with `frame_end - frame_start + 1`
/// frames to render and exactly the reported render times, in order.
pub proof fn lemma_status_reports_render_times(
    st: WorkerStateView,
    frame_start: u32,
    frame_end: u32,
    updates: Seq<StatusUpdate>,
)
    requires
        frames_in_range(frame_start, frame_end) is Some,
        forall|i: int| 0 <= i < updates.len() ==> updates[i] !is NoUpdate,
    ensures
        forall|i: int| 0 <= i < updates.len() ==>
            accepts_update(#[trigger] st.after_start(frame_start, frame_end).after_updates(updates.take(i)).job_status, updates[i]),
        st.after_start(frame_start, frame_end).after_updates(updates).status() == (StatusView::Working {
            job_status: JobStatusView {
                frame_start,
                frame_end,
                frames_to_render: (frame_end - frame_start + 1) as u32,
                render_times: render_times_of(updates),
            },
        }),
        st.after_start(frame_start, frame_end).after_updates(updates).listeners == st.listeners,
{
    let started = st.after_start(frame_start, frame_end);
    lemma_updates_append_times(started, updates);
    assert(Seq::<u32>::empty() + render_times_of(updates) =~= render_times_of(updates));
}

/// A listener that joins while a job runs is sent that job's status at
/// once, after every earlier listener; while idle nobody is sent anything.
pub proof fn lemma_joining_listener_hears_status(st: WorkerStateView, listener: ListenerId)
    ensures
        st.job_status is Some ==> {
            let b = st.after_connect(listener).broadcast();
            &&& b.len() == st.listeners.len() + 1
            &&& b.last() == (listener, st.status())
            &&& b.drop_last() == st.broadcast()
        },
        st.job_status is None ==> st.after_connect(listener).broadcast().len() == 0,
{
    if st.job_status is Some {
        let b = st.after_connect(listener).broadcast();
        assert(b.drop_last() =~= st.broadcast());
    }
}

/// A message the worker state handles.
pub enum WorkerMessage {
    Connect(ListenerId),
    GetStatus,
    StartRender(u32, u32),
    Update(StatusUpdate),
}

impl WorkerStateView {
    /// Whether the worker takes `msg` now (its handler's `requires`).
    pub open spec fn takes(self, msg: WorkerMessage) -> bool {
        match msg {
            WorkerMessage::StartRender(s, e) => frames_in_range(s, e) is Some,
            WorkerMessage::Update(u) => accepts_update(self.job_status, u),
            _ => true,
        }
    }

    /// The state after handling `msg`.
    pub open spec fn after_message(self, msg: WorkerMessage) -> WorkerStateView {
        match msg {
            WorkerMessage::Connect(l) => self.after_connect(l),
            WorkerMessage::GetStatus => self,
            WorkerMessage::StartRender(s, e) => self.after_start(s, e),
            WorkerMessage::Update(u) => self.after_update(u),
        }
    }

    /// The state after `msgs`, in order.
    pub open spec fn after_messages(self, msgs: Seq<WorkerMessage>) -> WorkerStateView
        decreases msgs.len(),
    {
        if msgs.len() == 0 {
            self
        } else {
            self.after_messages(msgs.drop_last()).after_message(msgs.last())
        }
    }

    /// Whether every message of `msgs` is taken when it comes.
    pub open spec fn takes_all(self, msgs: Seq<WorkerMessage>) -> bool {
        forall|i: int| 0 <= i < msgs.len() ==> #[trigger] self.after_messages(msgs.take(i)).takes(msgs[i])
    }
}

/// The listeners that join in `msgs`, in order.
pub open spec fn joined(msgs: Seq<WorkerMessage>) -> Seq<ListenerId>
    decreases msgs.len(),
{
    if msgs.len() == 0 {
        Seq::empty()
    } else {
        match msgs.last() {
            WorkerMessage::Connect(l) => joined(msgs.drop_last()).push(l),
            _ => joined(msgs.drop_last()),
        }
    }
}

/// The last render started in `msgs` and the messages after it:
/// `(frame_start, frame_end, messages since)`, or `None` when no render
/// was started.
pub open spec fn since_last_start(msgs: Seq<WorkerMessage>) -> Option<(u32, u32, Seq<WorkerMessage>)>
    decreases msgs.len(),
{
    if msgs.len() == 0 {
        None
    } else {
        match msgs.last() {
            WorkerMessage::StartRender(s, e) => Some((s, e, Seq::empty())),
            _ => match since_last_start(msgs.drop_last()) {
                Some((s, e, rest)) => Some((s, e, rest.push(msgs.last()))),
                None => None,
            },
        }
    }
}

/// The render times of the rendered-frame updates in `msgs`, in order.
pub open spec fn reported_times(msgs: Seq<WorkerMessage>) -> Seq<u32>
    decreases msgs.len(),
{
    if msgs.len() == 0 {
        Seq::empty()
    } else {
        match msgs.last() {
            WorkerMessage::Update(StatusUpdate::RenderedFrame { frame_number, render_time }) =>
                reported_times(msgs.drop_last()).push(render_time),
            _ => reported_times(msgs.drop_last()),
        }
    }
}

/// The job a worker has after `msgs` from idle: none before the first
/// start; otherwise the last render started, with `frame_end -
/// frame_start + 1` frames and the times reported since, in order.
pub open spec fn job_after(msgs: Seq<WorkerMessage>) -> Option<JobStatusView> {
    match since_last_start(msgs) {
        None => None,
        Some((s, e, rest)) => Some(
            JobStatusView {
                frame_start: s,
                frame_end: e,
                frames_to_render: (e - s + 1) as u32,
                render_times: reported_times(rest),
            },
        ),
    }
}

proof fn lemma_takes_all_prefix(st: WorkerStateView, msgs: Seq<WorkerMessage>, i: int)
    requires
        st.takes_all(msgs),
        0 <= i <= msgs.len(),
    ensures
        st.takes_all(msgs.take(i)),
{
    assert forall|j: int| 0 <= j < msgs.take(i).len() implies #[trigger] st.after_messages(msgs.take(i).take(j)).takes(msgs.take(i)[j]) by {
        assert(msgs.take(i).take(j) =~= msgs.take(j));
        assert(msgs.take(i)[j] == msgs[j]);
        assert(st.after_messages(msgs.take(j)).takes(msgs[j]));
    }
}

proof fn lemma_messages_from_idle(msgs: Seq<WorkerMessage>)
    requires
        WorkerState::idle().takes_all(msgs),
    ensures
        WorkerState::idle().after_messages(msgs) == (WorkerStateView {
            started: false,
            job_status: job_after(msgs),
            listeners: joined(msgs),
        }),
    decreases msgs.len(),
{
    if msgs.len() > 0 {
        let init = msgs.drop_last();
        lemma_takes_all_prefix(WorkerState::idle(), msgs, msgs.len() - 1);
        assert(msgs.take(msgs.len() - 1) =~= init);
        lemma_messages_from_idle(init);
        let last = msgs.last();
        assert(WorkerState::idle().after_messages(msgs.take(msgs.len() - 1)).takes(msgs[msgs.len() - 1]));
        match last {
            WorkerMessage::StartRender(s, e) => {
                assert(reported_times(Seq::<WorkerMessage>::empty()) =~= Seq::<u32>::empty());
            },
            _ => {
                match since_last_start(init) {
                    Some((s, e, rest)) => {
                        assert(rest.push(last).drop_last() =~= rest);
                        assert(rest.push(last).last() == last);
                    },
                    None => {},
                }
            },
        }
    }
}

proof fn lemma_joined_prefix(msgs: Seq<WorkerMessage>, i: int)
    requires
        0 <= i <= msgs.len(),
    ensures
        joined(msgs.take(i)).len() <= joined(msgs).len(),
        joined(msgs.take(i)) == joined(msgs).take(joined(msgs.take(i)).len() as int),
    decreases msgs.len(),
{
    if i == msgs.len() {
        assert(msgs.take(i) =~= msgs);
        assert(joined(msgs).take(joined(msgs).len() as int) =~= joined(msgs));
    } else {
        let init = msgs.drop_last();
        assert(msgs.take(i) =~= init.take(i));
        lemma_joined_prefix(init, i);
        let a = joined(init.take(i));
        match msgs.last() {
            WorkerMessage::Connect(l) => {
                assert(joined(msgs).take(a.len() as int) =~= joined(init).take(a.len() as int));
            },
            _ => {},
        }
    }
}

impl WorkerState {
    /// The state of a new worker.
    pub open spec fn idle() -> WorkerStateView {
        WorkerStateView { started: false, job_status: None, listeners: Seq::empty() }
    }
}

/// What a worker's state is after any run of messages from
/// [`WorkerState::new`], each taken when it comes: it never
/// becomes `started`; its job is the last render started, with
/// `frame_end - frame_start + 1` frames to render and exactly the render
/// times reported since that start, in order (no job before the first
/// start); its listeners are those that joined, in order, so they only
/// grow: after a prefix of the messages they are a prefix of the
/// listeners after all of them.
pub proof fn lemma_worker_state_over_messages(msgs: Seq<WorkerMessage>, i: int)
    requires
        WorkerState::idle().takes_all(msgs),
        0 <= i <= msgs.len(),
    ensures
        !WorkerState::idle().after_messages(msgs).started,
        WorkerState::idle().after_messages(msgs).job_status == job_after(msgs),
        WorkerState::idle().after_messages(msgs).listeners == joined(msgs),
        WorkerState::idle().after_messages(msgs).status() == match job_after(msgs) {
            Some(j) => StatusView::Working { job_status: j },
            None => StatusView::Ready,
        },
        WorkerState::idle().after_messages(msgs.take(i)).listeners.len()
            <= WorkerState::idle().after_messages(msgs).listeners.len(),
        WorkerState::idle().after_messages(msgs.take(i)).listeners
            == WorkerState::idle().after_messages(msgs).listeners.take(
            WorkerState::idle().after_messages(msgs.take(i)).listeners.len() as int,
        ),
{
    lemma_messages_from_idle(msgs);
    lemma_takes_all_prefix(WorkerState::idle(), msgs, i);
    lemma_messages_from_idle(msgs.take(i));
    lemma_joined_prefix(msgs, i);
}

/// A render range is admissible exactly when it is non-empty and its size
/// fits in a `u32`, and then it holds `frame_end - frame_start + 1` frames.
pub proof fn lemma_frames_in_range(frame_start: u32, frame_end: u32)
    ensures
        frames_in_range(frame_start, frame_end) is Some <==> (frame_start <= frame_end
            && frame_end - frame_start < 4294967295),
        frames_in_range(frame_start, frame_end) is Some ==> frames_in_range(frame_start, frame_end)->0
            == frame_end - frame_start + 1,
{
}

/// The worker takes `Started` at any time, every other progress update
/// only while it has a job, and never `NoUpdate`.
pub proof fn lemma_accepted_updates(job_status: Option<JobStatusView>, update: StatusUpdate)
    ensures
        update is Started ==> accepts_update(job_status, update),
        update is NoUpdate ==> !accepts_update(job_status, update),
        (update is RenderedFrame || update is Finished) ==> (accepts_update(job_status, update) <==> job_status is Some),
{
}

/// While a job runs, a broadcast sends every listener, once and in the
/// order they joined, the job as `Working`; while idle it sends nothing.
pub proof fn lemma_broadcast_reaches_each_listener(st: WorkerStateView)
    ensures
        st.job_status is None ==> st.broadcast().len() == 0,
        st.job_status is Some ==> st.broadcast().len() == st.listeners.len(),
        st.job_status is Some ==> forall|i: int| 0 <= i < st.listeners.len() ==> #[trigger] st.broadcast()[i]
            == (st.listeners[i], StatusView::Working { job_status: st.job_status->0 }),
        st.status() == (if st.job_status is Some {
            StatusView::Working { job_status: st.job_status->0 }
        } else {
            StatusView::Ready
        }),
{
}

} // verus!
