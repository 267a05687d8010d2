use ruddy::worker::blender::{
    exit_update, frame_number_from_capture, get_arguments, parse_line, render_time_from_captures,
    try_parse_line, Capture, Execution, ParseResult, RenderFailure, RenderProgress, RenderRun, RunPhase, Runner,
};
use ruddy::worker::messages::StatusUpdate;
use std::collections::VecDeque;

#[test]
fn test_blank_line() {
    let line = "\n";
    assert_eq!(parse_line(line), ParseResult::Unrecognized);
}

#[test]
fn test_current_line() {
    let line = "Fra:0 Mem:16.36M (0.00M, Peak 16.37M) | Time:00:00.02 | Mem:0.00M, Peak:0.00M | Scene, RenderLayer | Synchronizing object | Cube\n";
    assert_eq!(parse_line(line), ParseResult::CurrentFrame(0));
}

#[test]
fn test_current_line_alt() {
    let line = "Fra:264 Mem:18.47M (0.00M, Peak 34.43M) | Time:00:00.64 | Remaining:00:01.12 | Mem:1.87M, Peak:2.01M | Scene, RenderLayer | Path Tracing Tile 41/135\n";
    assert_eq!(parse_line(line), ParseResult::CurrentFrame(264));
}

#[test]
fn test_saved_frame_line() {
    let line = "Saved: '/path/to/project/frames/0000.png'\n";
    assert_eq!(parse_line(line), ParseResult::SavedFrame(0));
}

#[test]
fn test_saved_frame_line_alt() {
    let line = "Saved: '/path/to/project/frames/0058.png'\n";
    assert_eq!(parse_line(line), ParseResult::SavedFrame(58));
}

#[test]
fn test_render_time() {
    // 2.19 sec == 2_190 ms
    let line = " Time: 00:02.19 (Saving: 00:00.09)\n";
    assert_eq!(parse_line(line), ParseResult::FrameRenderTime(2_190));
}

#[test]
fn test_render_time_longer() {
    // 8 min, 53.97 sec == 480_000 ms + 53_970 ms == 533_970 ms
    let line = " Time: 08:53.97 (Saving: 00:00.09)\n";
    assert_eq!(parse_line(line), ParseResult::FrameRenderTime(533_970));
}

#[test]
fn render_time_without_leading_space() {
    assert_eq!(parse_line("Time: 01:00.00\n"), ParseResult::FrameRenderTime(60_000));
}

#[test]
fn current_frame_wins_over_later_patterns() {
    // The line also holds a `Time:` field, but the frame pattern is tried first.
    assert_eq!(parse_line("Fra:7 Mem:1M | Time:00:00.02\n"), ParseResult::CurrentFrame(7));
}

#[test]
fn lines_that_say_nothing() {
    assert_eq!(parse_line("Fra: Mem\n"), ParseResult::Unrecognized);
    assert_eq!(parse_line("Blender 2.80 (sub 74)\n"), ParseResult::Unrecognized);
    assert_eq!(parse_line("Saved: nothing\n"), ParseResult::Unrecognized);
}

#[test]
fn try_parse_line_reads_what_parse_line_reads() {
    assert_eq!(try_parse_line("Fra:12 Mem:1M\n"), Some(ParseResult::CurrentFrame(12)));
    assert_eq!(try_parse_line("\n"), Some(ParseResult::Unrecognized));
}

#[test]
fn try_parse_line_refuses_frames_beyond_u32() {
    assert_eq!(try_parse_line("Fra:99999999999 Mem:1M\n"), None);
    assert_eq!(try_parse_line("Saved: '/x/99999999999.png'\n"), None);
}

#[test]
fn frame_number_captures() {
    assert_eq!(frame_number_from_capture(&Capture::Text("0058".to_string())), Some(Some(58)));
    assert_eq!(frame_number_from_capture(&Capture::NoMatch), Some(None));
    assert_eq!(frame_number_from_capture(&Capture::GroupAbsent), None);
    assert_eq!(frame_number_from_capture(&Capture::InvalidPattern), None);
    assert_eq!(frame_number_from_capture(&Capture::Text("4294967296".to_string())), None);
}

#[test]
fn render_time_captures() {
    let t = |s: &str| Capture::Text(s.to_string());
    assert_eq!(render_time_from_captures(&t("08"), &t("53"), &t("97")), Some(Some(533_970)));
    assert_eq!(render_time_from_captures(&t("00"), &t("02"), &t("19")), Some(Some(2_190)));
    assert_eq!(render_time_from_captures(&Capture::NoMatch, &Capture::NoMatch, &Capture::NoMatch), Some(None));
    assert_eq!(render_time_from_captures(&t("01"), &Capture::GroupAbsent, &t("00")), None);
    assert_eq!(render_time_from_captures(&t("x"), &t("00"), &t("00")), None);
    // 71583 minutes are more milliseconds than a u32 holds.
    assert_eq!(render_time_from_captures(&t("71583"), &t("0"), &t("0")), None);
    assert_eq!(render_time_from_captures(&t("71582"), &t("47"), &t("0")), Some(Some(4_294_967_295 - 295)));
}

#[test]
fn render_progress_reports_saved_frame() {
    let mut p = RenderProgress::new();
    assert!(!p.can_observe(&ParseResult::FrameRenderTime(5)));
    assert_eq!(p.observe(ParseResult::CurrentFrame(3)), None);
    assert_eq!(p.observe(ParseResult::SavedFrame(3)), None);
    assert!(p.can_observe(&ParseResult::FrameRenderTime(5)));
    assert_eq!(
        p.observe(ParseResult::FrameRenderTime(2190)),
        Some(StatusUpdate::RenderedFrame { frame_number: 3, render_time: 2190 })
    );
    assert!(!p.can_observe(&ParseResult::FrameRenderTime(5)));
    assert_eq!(p.observe(ParseResult::Unrecognized), None);
}

#[test]
fn exit_codes() {
    assert_eq!(exit_update(Some(0)), Ok(StatusUpdate::Finished));
    assert_eq!(exit_update(Some(2)), Err(RenderFailure::ExitCode(2)));
    assert_eq!(exit_update(None), Err(RenderFailure::Signal));
}

#[test]
fn runner_arguments() {
    let runner = Runner::new(0, 3);
    let options = runner.options();
    assert_eq!(options.input_file, "temp/example.blend");
    assert_eq!(options.output_dir, "temp/frames/");
    assert_eq!(
        get_arguments(&options),
        vec![
            "--background", "temp/example.blend", "--render-output", "temp/frames/",
            "--frame-start", "0", "--frame-end", "3", "--render-anim", "--render-format",
            "PNG", "--use-extension",
        ]
    );
    let big = Runner::new(1200, 4294967295).options();
    let args = get_arguments(&big);
    assert_eq!(args[5], "1200");
    assert_eq!(args[7], "4294967295");
}

#[test]
fn execution_gives_updates_in_order_then_ends() {
    let mut queue: VecDeque<StatusUpdate> = VecDeque::new();
    queue.push_back(StatusUpdate::Started);
    queue.push_back(StatusUpdate::RenderedFrame { frame_number: 0, render_time: 10 });
    queue.push_back(StatusUpdate::Finished);
    queue.push_back(StatusUpdate::Started);
    let mut e = Execution::new();
    assert!(!e.is_finished());
    assert_eq!(e.poll(&mut queue), Some(StatusUpdate::Started));
    assert_eq!(e.poll_busy(), Some(StatusUpdate::NoUpdate));
    assert_eq!(e.poll(&mut queue), Some(StatusUpdate::RenderedFrame { frame_number: 0, render_time: 10 }));
    assert_eq!(e.poll(&mut queue), Some(StatusUpdate::Finished));
    assert!(e.is_finished());
    assert_eq!(e.poll(&mut queue), None);
    assert_eq!(e.poll_busy(), None);
    assert_eq!(queue.len(), 1);
}

#[test]
fn execution_on_empty_queue_and_marked_finished() {
    let mut queue: VecDeque<StatusUpdate> = VecDeque::new();
    let mut e = Execution::new();
    assert_eq!(e.poll(&mut queue), Some(StatusUpdate::NoUpdate));
    queue.push_back(StatusUpdate::Started);
    e.mark_finished();
    assert_eq!(e.poll(&mut queue), None);
    assert_eq!(queue.len(), 1);
}

fn run_over(lines: &[&str], code: Option<i32>) -> (Vec<StatusUpdate>, Result<StatusUpdate, RenderFailure>) {
    let mut run = RenderRun::new();
    assert_eq!(run.phase(), RunPhase::NotStarted);
    let mut pushed = vec![run.begin()];
    assert_eq!(run.phase(), RunPhase::Running);
    for line in lines {
        let result = try_parse_line(line).unwrap();
        assert!(run.can_observe(&result));
        if let Some(u) = run.observe_line(result) {
            pushed.push(u);
        }
    }
    let last = run.finish(code);
    assert_eq!(run.phase(), RunPhase::Ended);
    if let Ok(u) = last {
        pushed.push(u);
    }
    (pushed, last)
}

#[test]
fn run_gives_started_frames_then_finished() {
    let lines = [
        "Fra:1 Mem:16.36M | Scene\n",
        "Saved: 'out/0001.png'\n",
        " Time: 00:02.19 (Saving: 00:00.09)\n",
        "Fra:2 Mem:16.40M | Scene\n",
        "Saved: 'out/0002.png'\n",
        " Time: 08:53.97 (Saving: 00:00.09)\n",
    ];
    let (pushed, last) = run_over(&lines, Some(0));
    assert_eq!(last, Ok(StatusUpdate::Finished));
    assert_eq!(
        pushed,
        vec![
            StatusUpdate::Started,
            StatusUpdate::RenderedFrame { frame_number: 1, render_time: 2190 },
            StatusUpdate::RenderedFrame { frame_number: 2, render_time: 533970 },
            StatusUpdate::Finished,
        ]
    );
}

#[test]
fn failed_run_gives_no_finished() {
    let (pushed, last) = run_over(&["Saved: 'out/0007.png'\n", " Time: 00:01.00\n"], Some(1));
    assert_eq!(last, Err(RenderFailure::ExitCode(1)));
    assert_eq!(
        pushed,
        vec![StatusUpdate::Started, StatusUpdate::RenderedFrame { frame_number: 7, render_time: 1000 }]
    );
}

#[test]
fn run_refuses_time_before_save_and_lines_before_start() {
    let mut run = RenderRun::new();
    assert!(!run.can_observe(&ParseResult::Unrecognized));
    run.begin();
    assert!(!run.can_observe(&ParseResult::FrameRenderTime(10)));
    assert!(run.can_observe(&ParseResult::SavedFrame(1)));
}

#[test]
fn stream_keeps_order_while_producer_pushes() {
    let mut queue: VecDeque<StatusUpdate> = VecDeque::new();
    let mut e = Execution::new();
    let mut delivered = Vec::new();
    let mut poll = |e: &mut Execution, q: &mut VecDeque<StatusUpdate>, d: &mut Vec<StatusUpdate>| {
        let item = e.poll(q);
        if let Some(u) = item {
            if u != StatusUpdate::NoUpdate {
                d.push(u);
            }
        }
        item
    };
    assert_eq!(poll(&mut e, &mut queue, &mut delivered), Some(StatusUpdate::NoUpdate));
    queue.push_back(StatusUpdate::Started);
    queue.push_back(StatusUpdate::RenderedFrame { frame_number: 1, render_time: 5 });
    poll(&mut e, &mut queue, &mut delivered);
    queue.push_back(StatusUpdate::RenderedFrame { frame_number: 2, render_time: 6 });
    poll(&mut e, &mut queue, &mut delivered);
    queue.push_back(StatusUpdate::Finished);
    queue.push_back(StatusUpdate::Started);
    poll(&mut e, &mut queue, &mut delivered);
    poll(&mut e, &mut queue, &mut delivered);
    assert_eq!(poll(&mut e, &mut queue, &mut delivered), None);
    assert_eq!(poll(&mut e, &mut queue, &mut delivered), None);
    assert_eq!(
        delivered,
        vec![
            StatusUpdate::Started,
            StatusUpdate::RenderedFrame { frame_number: 1, render_time: 5 },
            StatusUpdate::RenderedFrame { frame_number: 2, render_time: 6 },
            StatusUpdate::Finished,
        ]
    );
    assert_eq!(queue.len(), 1);
}
