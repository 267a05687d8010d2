use ruddy::websocket::WsMessage;
use ruddy::worker::executor::forward_update;
use ruddy::worker::http::status_text;
use ruddy::worker::messages::{GetStatus, JobStatus, StartRender, Status, StatusUpdate, WorkerWsConnect};
use ruddy::worker::worker_state::{frames_to_render, WorkerState};
use ruddy::worker::ws::{worker_ws_action, WorkerWsAction};

fn times(s: &Status) -> Option<(u32, u32, u32, Vec<u32>)> {
    match s {
        Status::Ready => None,
        Status::Working { job_status } => Some((
            job_status.frame_start,
            job_status.frame_end,
            job_status.frames_to_render,
            job_status.render_times.clone(),
        )),
    }
}

#[test]
fn frame_counts() {
    assert_eq!(frames_to_render(0, 3), Some(4));
    assert_eq!(frames_to_render(5, 5), Some(1));
    assert_eq!(frames_to_render(5, 4), None);
    assert_eq!(frames_to_render(0, u32::MAX), None);
    assert_eq!(frames_to_render(1, u32::MAX), Some(u32::MAX));
}

#[test]
fn idle_worker_is_ready_and_tells_nobody() {
    let mut w = WorkerState::new();
    assert!(!w.started);
    assert!(matches!(w.handle_get_status(GetStatus {}), Status::Ready));
    assert!(w.update_clients().is_empty());
    assert!(w.handle_connect(WorkerWsConnect { addr: 7 }).is_empty());
    assert!(!w.accepts(&StatusUpdate::RenderedFrame { frame_number: 0, render_time: 1 }));
    assert!(!w.accepts(&StatusUpdate::NoUpdate));
    assert!(w.accepts(&StatusUpdate::Started));
    assert!(!w.accepts(&StatusUpdate::Finished));
}

#[test]
fn finished_needs_a_job_and_tells_nobody() {
    let mut w = WorkerState::new();
    w.handle_connect(WorkerWsConnect { addr: 1 });
    w.handle_start_render(StartRender { frame_start: 3, frame_end: 4 });
    assert!(w.accepts(&StatusUpdate::Finished));
    assert!(w.handle_status_update(StatusUpdate::Finished).is_empty());
    assert_eq!(times(&w.handle_get_status(GetStatus {})), Some((3, 4, 2, vec![])));
}

#[test]
fn state_over_connects_and_restarts() {
    let mut w = WorkerState::new();
    w.handle_connect(WorkerWsConnect { addr: 4 });
    w.handle_start_render(StartRender { frame_start: 0, frame_end: 9 });
    w.handle_status_update(StatusUpdate::RenderedFrame { frame_number: 0, render_time: 1 });
    w.handle_connect(WorkerWsConnect { addr: 5 });
    w.handle_start_render(StartRender { frame_start: 20, frame_end: 29 });
    w.handle_status_update(StatusUpdate::RenderedFrame { frame_number: 20, render_time: 7 });
    w.handle_status_update(StatusUpdate::Started);
    w.handle_status_update(StatusUpdate::RenderedFrame { frame_number: 21, render_time: 8 });
    let out = w.handle_connect(WorkerWsConnect { addr: 6 });
    assert!(!w.started);
    assert_eq!(out.iter().map(|d| d.listener).collect::<Vec<_>>(), vec![4, 5, 6]);
    assert_eq!(times(&w.handle_get_status(GetStatus {})), Some((20, 29, 10, vec![7, 8])));
}

#[test]
fn job_progress_is_reported_to_every_listener() {
    let mut w = WorkerState::new();
    w.handle_connect(WorkerWsConnect { addr: 1 });
    w.handle_connect(WorkerWsConnect { addr: 2 });
    let runner = w.handle_start_render(StartRender { frame_start: 0, frame_end: 3 });
    assert_eq!((runner.frame_start, runner.frame_end), (0, 3));
    assert_eq!(times(&w.handle_get_status(GetStatus {})), Some((0, 3, 4, vec![])));

    assert!(w.handle_status_update(StatusUpdate::Started).is_empty());
    let out = w.handle_status_update(StatusUpdate::RenderedFrame { frame_number: 0, render_time: 3105 });
    assert_eq!(out.iter().map(|d| d.listener).collect::<Vec<_>>(), vec![1, 2]);
    for d in &out {
        assert_eq!(times(&d.update.status), Some((0, 3, 4, vec![3105])));
    }
    w.handle_status_update(StatusUpdate::RenderedFrame { frame_number: 1, render_time: 3311 });
    assert_eq!(times(&w.handle_get_status(GetStatus {})), Some((0, 3, 4, vec![3105, 3311])));
    assert!(w.handle_status_update(StatusUpdate::Finished).is_empty());

    // A listener that joins now hears the job at once, after the others.
    let out = w.handle_connect(WorkerWsConnect { addr: 9 });
    assert_eq!(out.iter().map(|d| d.listener).collect::<Vec<_>>(), vec![1, 2, 9]);
    assert_eq!(times(&out[2].update.status), Some((0, 3, 4, vec![3105, 3311])));
}

#[test]
fn new_job_replaces_old_one() {
    let mut w = WorkerState::new();
    w.handle_start_render(StartRender { frame_start: 0, frame_end: 1 });
    w.handle_status_update(StatusUpdate::RenderedFrame { frame_number: 0, render_time: 5 });
    w.handle_start_render(StartRender { frame_start: 10, frame_end: 19 });
    assert_eq!(times(&w.handle_get_status(GetStatus {})), Some((10, 19, 10, vec![])));
}

#[test]
fn executor_drops_no_update() {
    assert_eq!(forward_update(StatusUpdate::NoUpdate), None);
    assert_eq!(forward_update(StatusUpdate::Started), Some(StatusUpdate::Started));
    assert_eq!(forward_update(StatusUpdate::Finished), Some(StatusUpdate::Finished));
}

#[test]
fn worker_websocket_answers() {
    assert!(matches!(worker_ws_action(WsMessage::Ping("p".into())), WorkerWsAction::Pong(p) if p == "p"));
    assert!(matches!(worker_ws_action(WsMessage::Binary(vec![1, 2])), WorkerWsAction::Binary(b) if b == vec![1, 2]));
    assert!(matches!(worker_ws_action(WsMessage::Text("hi".into())), WorkerWsAction::LogText(t) if t == "hi"));
    assert!(matches!(worker_ws_action(WsMessage::Close), WorkerWsAction::Ignore));
    assert!(matches!(worker_ws_action(WsMessage::Pong("x".into())), WorkerWsAction::Ignore));
}

#[test]
fn status_page_text() {
    assert_eq!(status_text(&Status::Ready), "Ready!");
    let job = JobStatus { frame_start: 0, frame_end: 3, frames_to_render: 4, render_times: vec![2190] };
    let expected = format!("Working: {:#?}", job);
    assert_eq!(status_text(&Status::Working { job_status: job }), expected);
    assert!(expected.starts_with("Working: JobStatus {"));
}

#[test]
fn snapshot_is_an_equal_copy() {
    let job = JobStatus { frame_start: 2, frame_end: 9, frames_to_render: 8, render_times: vec![1, 2, 3] };
    let copy = job.snapshot();
    assert_eq!(format!("{:?}", copy), format!("{:?}", job));
}
