//! Driving Blender: the command line it is started with, the reading of
//! its console output, and the stream of progress updates built from it.

use vstd::prelude::*;
use crate::text::{decimal, decimal_string, lemma_parse_decimal_roundtrip, parse_u32, parse_u32_spec};
use crate::worker::messages::StatusUpdate;
use std::collections::VecDeque;

verus! {

/// Events of a render, as announced to interested parties.
#[derive(Debug, Copy, Clone)]
pub enum CoolRenderUpdate {
    Start,
    RenderedFrame,
    End,
    NoUpdate,
}

/// What one line of Blender's console output says.
#[derive(PartialEq, Eq, Structural, Debug, Clone, Copy)]
pub enum ParseResult {
    /// `Fra:<n> Mem...`: frame `n` is being rendered.
    CurrentFrame(u32),
    /// `Saved: ...<n>.png`: frame `n` was written.
    SavedFrame(u32),
    /// ` Time: MM:SS.cc ...`: the last frame took this many milliseconds.
    FrameRenderTime(u32),
    /// Any other line.
    Unrecognized,
}

// ---------------------------------------------------------------------------
// Regular expressions

/// The outcome of matching a regular expression and reading one capture
/// group.
pub enum Capture {
    /// The pattern is not a valid regular expression.
    InvalidPattern,
    /// The pattern does not match the text.
    NoMatch,
    /// The pattern matches but the group took no part in the match.
    GroupAbsent,
    /// The text of the group.
    Text(String),
}

/// Mathematical value of a [`Capture`].
pub enum CaptureView {
    InvalidPattern,
    NoMatch,
    GroupAbsent,
    Text(Seq<char>),
}

impl View for Capture {
    type V = CaptureView;

    open spec fn view(&self) -> CaptureView {
        match self {
            Capture::InvalidPattern => CaptureView::InvalidPattern,
            Capture::NoMatch => CaptureView::NoMatch,
            Capture::GroupAbsent => CaptureView::GroupAbsent,
            Capture::Text(t) => CaptureView::Text(t@),
        }
    }
}

/// What the `regex` crate gives when `pattern` is compiled and searched
/// for in `text`, reading capture group `group` (leftmost-first match).
pub uninterp spec fn regex_capture(pattern: Seq<char>, text: Seq<char>, group: nat) -> CaptureView;

/// Compiles `pattern` with `regex::Regex::new`, searches `text` with
/// `Regex::captures` and reads group `group` with `Captures::get` and
/// `Match::as_str`. The result is claimed to depend on the three arguments
/// alone, as `regex_capture`; nothing more is stated of the matching.
#[verifier::external_body]
fn capture_group(pattern: &str, text: &str, group: usize) -> (c: Capture)
    ensures
        c@ == regex_capture(pattern@, text@, group as nat),
{
    match ::regex::Regex::new(pattern) {
        Err(_) => Capture::InvalidPattern,
        Ok(re) => match re.captures(text) {
            None => Capture::NoMatch,
            Some(caps) => match caps.get(group) {
                None => Capture::GroupAbsent,
                Some(m) => Capture::Text(m.as_str().to_string()),
            },
        },
    }
}

/// The pattern of a "current frame" line.
pub open spec fn current_frame_pattern() -> Seq<char> {
    "^Fra:([0-9]+) Mem"@
}

/// The pattern of a "saved frame" line.
pub open spec fn saved_frame_pattern() -> Seq<char> {
    "^Saved:.*?([0-9]+).png"@
}

/// The pattern of a "render time" line.
pub open spec fn render_time_pattern() -> Seq<char> {
    "^\\s?Time: ([0-9]{2}):([0-9]{2})\\.([0-9]{2})"@
}

/// How a frame-number capture is read: `Some(None)` when the pattern does
/// not match, `Some(Some(n))` for the frame number `n`, and `None` where
/// reading it fails (a bad pattern, a missing group, or digits that do not
/// fit in a `u32`).
pub open spec fn frame_number_outcome(c: CaptureView) -> Option<Option<u32>> {
    match c {
        CaptureView::InvalidPattern => None,
        CaptureView::NoMatch => Some(None),
        CaptureView::GroupAbsent => None,
        CaptureView::Text(t) => match parse_u32_spec(t) {
            Some(n) => Some(Some(n)),
            None => None,
        },
    }
}

/// Milliseconds of `minutes:seconds.centiseconds`, if they fit in a `u32`.
pub open spec fn render_time_ms(minutes: u32, seconds: u32, centiseconds: u32) -> Option<u32> {
    let total: int = minutes * 60_000 + seconds * 1000 + centiseconds * 10;
    if total <= u32::MAX {
        Some(total as u32)
    } else {
        None
    }
}

/// How the three groups of a render-time match are read: `Some(None)` when
/// the pattern does not match, `Some(Some(ms))` for the time in
/// milliseconds, and `None` where reading fails.
pub open spec fn render_time_outcome(
    minutes: CaptureView,
    seconds: CaptureView,
    centiseconds: CaptureView,
) -> Option<Option<u32>> {
    match minutes {
        CaptureView::InvalidPattern => None,
        CaptureView::NoMatch => Some(None),
        CaptureView::GroupAbsent => None,
        CaptureView::Text(m) => match (seconds, centiseconds) {
            (CaptureView::Text(s), CaptureView::Text(c)) => match (
                parse_u32_spec(m),
                parse_u32_spec(s),
                parse_u32_spec(c),
            ) {
                (Some(mi), Some(se), Some(ce)) => match render_time_ms(mi, se, ce) {
                    Some(ms) => Some(Some(ms)),
                    None => None,
                },
                _ => None,
            },
            _ => None,
        },
    }
}

/// What a line of Blender output says, trying the current-frame, the
/// saved-frame and the render-time patterns in this order; `None` where
/// reading the line fails.
pub open spec fn parse_line_outcome(line: Seq<char>) -> Option<ParseResult> {
    match frame_number_outcome(regex_capture(current_frame_pattern(), line, 1)) {
        None => None,
        Some(Some(n)) => Some(ParseResult::CurrentFrame(n)),
        Some(None) => match frame_number_outcome(regex_capture(saved_frame_pattern(), line, 1)) {
            None => None,
            Some(Some(n)) => Some(ParseResult::SavedFrame(n)),
            Some(None) => match render_time_outcome(
                regex_capture(render_time_pattern(), line, 1),
                regex_capture(render_time_pattern(), line, 2),
                regex_capture(render_time_pattern(), line, 3),
            ) {
                None => None,
                Some(Some(ms)) => Some(ParseResult::FrameRenderTime(ms)),
                Some(None) => Some(ParseResult::Unrecognized),
            },
        },
    }
}

/// Reads a frame number out of a capture (see [`frame_number_outcome`]).
pub fn frame_number_from_capture(c: &Capture) -> (r: Option<Option<u32>>)
    ensures
        r == frame_number_outcome(c@),
{
    match c {
        Capture::InvalidPattern => None,
        Capture::NoMatch => Some(None),
        Capture::GroupAbsent => None,
        Capture::Text(t) => match parse_u32(t.as_str()) {
            Some(n) => Some(Some(n)),
            None => None,
        },
    }
}

/// Reads a render time out of the three captures of a render-time match
/// (see [`render_time_outcome`]).
pub fn render_time_from_captures(
    minutes: &Capture,
    seconds: &Capture,
    centiseconds: &Capture,
) -> (r: Option<Option<u32>>)
    ensures
        r == render_time_outcome(minutes@, seconds@, centiseconds@),
{
    match minutes {
        Capture::InvalidPattern => None,
        Capture::NoMatch => Some(None),
        Capture::GroupAbsent => None,
        Capture::Text(m) => {
            let (s, c) = match (seconds, centiseconds) {
                (Capture::Text(s), Capture::Text(c)) => (s, c),
                _ => { return None; },
            };
            let mi: u32 = match parse_u32(m.as_str()) {
                Some(v) => v,
                None => { return None; },
            };
            let se: u32 = match parse_u32(s.as_str()) {
                Some(v) => v,
                None => { return None; },
            };
            let ce: u32 = match parse_u32(c.as_str()) {
                Some(v) => v,
                None => { return None; },
            };
            if mi > 71582 || se > 4294967 || ce > 429496729 {
                return None;
            }
            let a: u64 = (mi as u64) * 60_000;
            let b: u64 = (se as u64) * 1000;
            let d: u64 = (ce as u64) * 10;
            let total: u64 = a + b + d;
            if total > 0xffff_ffff {
                None
            } else {
                Some(Some(total as u32))
            }
        },
    }
}

/// What a line says, or `None` where the original reading of it would fail.
fn line_outcome(line: &str) -> (r: Option<ParseResult>)
    ensures
        r == parse_line_outcome(line@),
{
    let current = capture_group("^Fra:([0-9]+) Mem", line, 1);
    match frame_number_from_capture(&current) {
        None => { return None; },
        Some(Some(n)) => { return Some(ParseResult::CurrentFrame(n)); },
        Some(None) => {},
    }
    let saved = capture_group("^Saved:.*?([0-9]+).png", line, 1);
    match frame_number_from_capture(&saved) {
        None => { return None; },
        Some(Some(n)) => { return Some(ParseResult::SavedFrame(n)); },
        Some(None) => {},
    }
    let minutes = capture_group("^\\s?Time: ([0-9]{2}):([0-9]{2})\\.([0-9]{2})", line, 1);
    let seconds = capture_group("^\\s?Time: ([0-9]{2}):([0-9]{2})\\.([0-9]{2})", line, 2);
    let centiseconds = capture_group("^\\s?Time: ([0-9]{2}):([0-9]{2})\\.([0-9]{2})", line, 3);
    match render_time_from_captures(&minutes, &seconds, &centiseconds) {
        None => None,
        Some(Some(ms)) => Some(ParseResult::FrameRenderTime(ms)),
        Some(None) => Some(ParseResult::Unrecognized),
    }
}

/// Classifies one line of Blender's console output.
pub fn parse_line(line: &str) -> (r: ParseResult)
    requires
        parse_line_outcome(line@) is Some,
    ensures
        parse_line_outcome(line@) == Some(r),
{
    line_outcome(line).unwrap()
}

/// Classifies one line of Blender's console output, or gives `None` where
/// [`parse_line`] cannot read it (a frame number or time that does not fit
/// in a `u32`).
pub fn try_parse_line(line: &str) -> (r: Option<ParseResult>)
    ensures
        r == parse_line_outcome(line@),
{
    if line_outcome(line).is_some() {
        Some(parse_line(line))
    } else {
        None
    }
}

// ---------------------------------------------------------------------------
// From console lines to progress updates

/// Follows Blender's output line by line: a `Saved:` line names the frame
/// that the next `Time:` line reports on.
pub struct RenderProgress {
    prev_frame: Option<u32>,
}

impl View for RenderProgress {
    type V = Option<u32>;

    /// The frame saved last and not yet reported.
    closed spec fn view(&self) -> Option<u32> {
        self.prev_frame
    }
}

/// Whether [`RenderProgress::observe`] accepts `result` after `pending`:
/// a render time needs a saved frame before it.
pub open spec fn can_observe_spec(pending: Option<u32>, result: ParseResult) -> bool {
    result is FrameRenderTime ==> pending is Some
}

/// The pending frame after `result`.
pub open spec fn pending_after(pending: Option<u32>, result: ParseResult) -> Option<u32> {
    match result {
        ParseResult::SavedFrame(n) => Some(n),
        ParseResult::FrameRenderTime(_) => None,
        _ => pending,
    }
}

/// The update that `result` gives after `pending`.
pub open spec fn update_after(pending: Option<u32>, result: ParseResult) -> Option<StatusUpdate> {
    match result {
        ParseResult::FrameRenderTime(t) => Some(
            StatusUpdate::RenderedFrame { frame_number: pending->0, render_time: t },
        ),
        _ => None,
    }
}

impl RenderProgress {
    /// Nothing saved yet.
    pub fn new() -> (p: RenderProgress)
        ensures
            p@ is None,
    {
        RenderProgress { prev_frame: None }
    }

    /// Whether `result` can be taken now (see [`can_observe_spec`]).
    pub fn can_observe(&self, result: &ParseResult) -> (b: bool)
        ensures
            b == can_observe_spec(self@, *result),
    {
        match result {
            ParseResult::FrameRenderTime(_) => self.prev_frame.is_some(),
            _ => true,
        }
    }

    /// Takes the reading of one line; a render time becomes a
    /// `RenderedFrame` update for the frame saved before it.
    pub fn observe(&mut self, result: ParseResult) -> (u: Option<StatusUpdate>)
        requires
            can_observe_spec(old(self)@, result),
        ensures
            final(self)@ == pending_after(old(self)@, result),
            u == update_after(old(self)@, result),
    {
        match result {
            ParseResult::SavedFrame(n) => {
                self.prev_frame = Some(n);
                None
            },
            ParseResult::FrameRenderTime(t) => {
                let frame_number: u32 = match self.prev_frame {
                    Some(f) => f,
                    None => 0,
                };
                self.prev_frame = None;
                Some(StatusUpdate::RenderedFrame { frame_number, render_time: t })
            },
            _ => None,
        }
    }
}

/// Why a Blender run did not end well.
#[derive(Debug, Clone, Copy, PartialEq, Eq, Structural)]
pub enum RenderFailure {
    /// The process exited with this non-zero code.
    ExitCode(i32),
    /// The process was killed by a signal.
    Signal,
}

/// The last update of a run, from the process's exit code (`None` when it
/// was ended by a signal): `Finished` for code 0, else the failure.
pub open spec fn exit_outcome(code: Option<i32>) -> Result<StatusUpdate, RenderFailure> {
    match code {
        Some(c) => if c == 0 {
            Ok(StatusUpdate::Finished)
        } else {
            Err(RenderFailure::ExitCode(c))
        },
        None => Err(RenderFailure::Signal),
    }
}

/// The last update of a run (see [`exit_outcome`]).
pub fn exit_update(code: Option<i32>) -> (r: Result<StatusUpdate, RenderFailure>)
    ensures
        r == exit_outcome(code),
{
    match code {
        Some(c) => if c == 0 {
            Ok(StatusUpdate::Finished)
        } else {
            Err(RenderFailure::ExitCode(c))
        },
        None => Err(RenderFailure::Signal),
    }
}

// ---------------------------------------------------------------------------
// A whole run: `Started`, the frames, then the exit update

/// Where a run is.
#[derive(Debug, Clone, Copy, PartialEq, Eq, Structural)]
pub enum RunPhase {
    NotStarted,
    Running,
    Ended,
}

/// Mathematical value of a [`RenderRun`]: its phase, the saved frame not
/// yet reported, and every update it has given out, in order.
pub struct RenderRunView {
    pub phase: RunPhase,
    pub pending: Option<u32>,
    pub updates: Seq<StatusUpdate>,
}

impl RenderRunView {
    /// A run that has not started.
    pub open spec fn initial() -> RenderRunView {
        RenderRunView { phase: RunPhase::NotStarted, pending: None, updates: Seq::empty() }
    }

    /// After the process starts: `Started` is given out.
    pub open spec fn after_begin(self) -> RenderRunView {
        RenderRunView { phase: RunPhase::Running, updates: self.updates.push(StatusUpdate::Started), ..self }
    }

    /// After one line of output is read.
    pub open spec fn after_line(self, result: ParseResult) -> RenderRunView {
        RenderRunView {
            pending: pending_after(self.pending, result),
            updates: match update_after(self.pending, result) {
                Some(u) => self.updates.push(u),
                None => self.updates,
            },
            ..self
        }
    }

    /// After the lines `results`, in order.
    pub open spec fn after_lines(self, results: Seq<ParseResult>) -> RenderRunView
        decreases results.len(),
    {
        if results.len() == 0 {
            self
        } else {
            self.after_lines(results.drop_last()).after_line(results.last())
        }
    }

    /// After the process exits: `Finished` is given out for code 0.
    pub open spec fn after_exit(self, code: Option<i32>) -> RenderRunView {
        RenderRunView {
            phase: RunPhase::Ended,
            updates: match exit_outcome(code) {
                Ok(u) => self.updates.push(u),
                Err(_) => self.updates,
            },
            ..self
        }
    }
}

/// The updates of one Blender run, in the order they are given out:
/// `Started` when the process starts, a `RenderedFrame` for each render
/// time read, and `Finished` when the process exits with code 0.
pub struct RenderRun {
    phase: RunPhase,
    progress: RenderProgress,
    updates: Ghost<Seq<StatusUpdate>>,
}

impl View for RenderRun {
    type V = RenderRunView;

    closed spec fn view(&self) -> RenderRunView {
        RenderRunView { phase: self.phase, pending: self.progress@, updates: self.updates@ }
    }
}

impl RenderRun {
    /// A run that has not started.
    pub fn new() -> (r: RenderRun)
        ensures
            r@ == RenderRunView::initial(),
    {
        RenderRun { phase: RunPhase::NotStarted, progress: RenderProgress::new(), updates: Ghost(Seq::empty()) }
    }

    pub fn phase(&self) -> (p: RunPhase)
        ensures
            p == self@.phase,
    {
        self.phase
    }

    /// The process has started: gives `Started`, before any line.
    pub fn begin(&mut self) -> (u: StatusUpdate)
        requires
            old(self)@.phase == RunPhase::NotStarted,
        ensures
            final(self)@ == old(self)@.after_begin(),
            u == StatusUpdate::Started,
    {
        self.phase = RunPhase::Running;
        proof {
            self.updates@ = self.updates@.push(StatusUpdate::Started);
        }
        StatusUpdate::Started
    }

    /// Whether [`RenderRun::observe_line`] takes `result` now.
    pub fn can_observe(&self, result: &ParseResult) -> (b: bool)
        ensures
            b == (self@.phase == RunPhase::Running && can_observe_spec(self@.pending, *result)),
    {
        self.phase == RunPhase::Running && self.progress.can_observe(result)
    }

    /// Takes the reading of one line of output; a render time gives the
    /// `RenderedFrame` update of the frame saved before it.
    pub fn observe_line(&mut self, result: ParseResult) -> (u: Option<StatusUpdate>)
        requires
            old(self)@.phase == RunPhase::Running,
            can_observe_spec(old(self)@.pending, result),
        ensures
            final(self)@ == old(self)@.after_line(result),
            u == update_after(old(self)@.pending, result),
    {
        let u = self.progress.observe(result);
        proof {
            match u {
                Some(x) => { self.updates@ = self.updates@.push(x); },
                None => {},
            }
        }
        u
    }

    /// The process has exited with `code`: gives the last update, after
    /// every other (see [`exit_outcome`]).
    pub fn finish(&mut self, code: Option<i32>) -> (r: Result<StatusUpdate, RenderFailure>)
        requires
            old(self)@.phase == RunPhase::Running,
        ensures
            final(self)@ == old(self)@.after_exit(code),
            r == exit_outcome(code),
    {
        let r = exit_update(code);
        self.phase = RunPhase::Ended;
        proof {
            match r {
                Ok(x) => { self.updates@ = self.updates@.push(x); },
                Err(_) => {},
            }
        }
        r
    }
}

/// The frame saved last among `results` and not yet followed by a render
/// time.
pub open spec fn last_unreported_save(results: Seq<ParseResult>) -> Option<u32>
    decreases results.len(),
{
    if results.len() == 0 {
        None
    } else {
        match results.last() {
            ParseResult::SavedFrame(n) => Some(n),
            ParseResult::FrameRenderTime(_) => None,
            _ => last_unreported_save(results.drop_last()),
        }
    }
}

/// Whether every render time among `results` follows a saved frame that
/// no earlier render time reported.
pub open spec fn times_follow_saves(results: Seq<ParseResult>) -> bool {
    forall|i: int| 0 <= i < results.len() && results[i] is FrameRenderTime ==>
        last_unreported_save(#[trigger] results.take(i)) is Some
}

/// The frame updates that `results` stand for: for each render time `t`,
/// in order, `RenderedFrame { frame_number: f, render_time: t }` where `f`
/// is the frame saved last before it and after the previous render time.
pub open spec fn frame_updates(results: Seq<ParseResult>) -> Seq<StatusUpdate>
    decreases results.len(),
{
    if results.len() == 0 {
        Seq::empty()
    } else {
        let rest = frame_updates(results.drop_last());
        match results.last() {
            ParseResult::FrameRenderTime(t) => rest.push(
                StatusUpdate::RenderedFrame {
                    frame_number: last_unreported_save(results.drop_last())->0,
                    render_time: t,
                },
            ),
            _ => rest,
        }
    }
}

proof fn lemma_run_after_lines(results: Seq<ParseResult>)
    requires
        times_follow_saves(results),
    ensures
        RenderRunView::initial().after_begin().after_lines(results) == (RenderRunView {
            phase: RunPhase::Running,
            pending: last_unreported_save(results),
            updates: seq![StatusUpdate::Started] + frame_updates(results),
        }),
        forall|i: int| 0 <= i < results.len() ==> can_observe_spec(
            #[trigger] RenderRunView::initial().after_begin().after_lines(results.take(i)).pending,
            results[i],
        ),
    decreases results.len(),
{
    let start = RenderRunView::initial().after_begin();
    if results.len() == 0 {
        assert(seq![StatusUpdate::Started] + frame_updates(results) =~= seq![StatusUpdate::Started]);
    } else {
        let init = results.drop_last();
        assert forall|i: int| 0 <= i < init.len() && init[i] is FrameRenderTime implies
            last_unreported_save(#[trigger] init.take(i)) is Some by {
            assert(init.take(i) =~= results.take(i));
            assert(init[i] == results[i]);
        }
        lemma_run_after_lines(init);
        assert(results.take(init.len() as int) =~= init);
        match results.last() {
            ParseResult::FrameRenderTime(t) => {
                assert(seq![StatusUpdate::Started] + frame_updates(results) =~= (seq![StatusUpdate::Started]
                    + frame_updates(init)).push(
                    StatusUpdate::RenderedFrame { frame_number: last_unreported_save(init)->0, render_time: t },
                ));
            },
            _ => {
                assert(seq![StatusUpdate::Started] + frame_updates(results) =~= seq![StatusUpdate::Started]
                    + frame_updates(init));
            },
        }
        assert forall|i: int| 0 <= i < results.len() implies can_observe_spec(
            #[trigger] start.after_lines(results.take(i)).pending,
            results[i],
        ) by {
            if i < init.len() {
                assert(results.take(i) =~= init.take(i));
                assert(results[i] == init[i]);
            } else {
                assert(results.take(i) =~= init);
            }
        }
    }
}

/// A run gives `Started` first, then one `RenderedFrame` per render time
/// read, each for the frame saved before it, in order, and the exit update
/// last (`Finished` for exit code 0, nothing for a failure): when every
/// render time follows a save, every line is taken, and the updates given
/// out are exactly these.
pub proof fn lemma_run_update_order(results: Seq<ParseResult>, code: Option<i32>)
    requires
        times_follow_saves(results),
    ensures
        forall|i: int| 0 <= i < results.len() ==> can_observe_spec(
            #[trigger] RenderRunView::initial().after_begin().after_lines(results.take(i)).pending,
            results[i],
        ),
        RenderRunView::initial().after_begin().after_lines(results).phase == RunPhase::Running,
        code == Some(0i32) ==> RenderRunView::initial().after_begin().after_lines(results).after_exit(code).updates
            == seq![StatusUpdate::Started] + frame_updates(results) + seq![StatusUpdate::Finished],
        code != Some(0i32) ==> RenderRunView::initial().after_begin().after_lines(results).after_exit(code).updates
            == seq![StatusUpdate::Started] + frame_updates(results),
{
    lemma_run_after_lines(results);
    let ran = RenderRunView::initial().after_begin().after_lines(results);
    if code == Some(0i32) {
        assert(ran.after_exit(code).updates =~= seq![StatusUpdate::Started] + frame_updates(results)
            + seq![StatusUpdate::Finished]);
    }
}

// ---------------------------------------------------------------------------
// The Blender command line

/// Where and what Blender renders.
pub struct RunnerOptions {
    pub input_file: String,
    pub output_dir: String,
    pub frame_start: u32,
    pub frame_end: u32,
}

/// A render of the frames `frame_start..=frame_end`.
pub struct Runner {
    pub frame_start: u32,
    pub frame_end: u32,
}

impl Runner {
    pub fn new(frame_start: u32, frame_end: u32) -> (r: Runner)
        ensures
            r.frame_start == frame_start,
            r.frame_end == frame_end,
    {
        Runner { frame_start, frame_end }
    }

    /// The options a run uses: the example project in `temp/`, frames
    /// written to `temp/frames/`.
    pub fn options(&self) -> (o: RunnerOptions)
        ensures
            o.input_file@ == "temp/example.blend"@,
            o.output_dir@ == "temp/frames/"@,
            o.frame_start == self.frame_start,
            o.frame_end == self.frame_end,
    {
        RunnerOptions {
            input_file: String::from_str("temp/example.blend"),
            output_dir: String::from_str("temp/frames/"),
            frame_start: self.frame_start,
            frame_end: self.frame_end,
        }
    }
}

/// The arguments Blender is started with for `o`: a background render of
/// the frame range to PNG files with extensions.
pub open spec fn arguments_spec(o: RunnerOptions) -> Seq<Seq<char>> {
    seq![
        "--background"@,
        o.input_file@,
        "--render-output"@,
        o.output_dir@,
        "--frame-start"@,
        decimal(o.frame_start as nat),
        "--frame-end"@,
        decimal(o.frame_end as nat),
        "--render-anim"@,
        "--render-format"@,
        "PNG"@,
        "--use-extension"@,
    ]
}

/// The command-line arguments for Blender (see [`arguments_spec`]).
pub fn get_arguments(options: &RunnerOptions) -> (args: Vec<String>)
    ensures
        args@.map_values(|a: String| a@) == arguments_spec(*options),
        args@.len() == 12,
        args@[0]@ == "--background"@,
        args@[1]@ == options.input_file@,
        args@[2]@ == "--render-output"@,
        args@[3]@ == options.output_dir@,
        args@[4]@ == "--frame-start"@,
        args@[5]@ == decimal(options.frame_start as nat),
        args@[6]@ == "--frame-end"@,
        args@[7]@ == decimal(options.frame_end as nat),
        args@[8]@ == "--render-anim"@,
        args@[9]@ == "--render-format"@,
        args@[10]@ == "PNG"@,
        args@[11]@ == "--use-extension"@,
{
    let mut args: Vec<String> = Vec::new();
    args.push(String::from_str("--background"));
    args.push(options.input_file.clone());
    args.push(String::from_str("--render-output"));
    args.push(options.output_dir.clone());
    args.push(String::from_str("--frame-start"));
    args.push(decimal_string(options.frame_start as u64));
    args.push(String::from_str("--frame-end"));
    args.push(decimal_string(options.frame_end as u64));
    args.push(String::from_str("--render-anim"));
    args.push(String::from_str("--render-format"));
    args.push(String::from_str("PNG"));
    args.push(String::from_str("--use-extension"));
    assert(args@.map_values(|a: String| a@) =~= arguments_spec(*options));
    proof {
        lemma_arguments_layout(*options);
        assert forall|i: int| 0 <= i < 12 implies args@[i]@ == #[trigger] arguments_spec(*options)[i] by {
            assert(args@.map_values(|a: String| a@)[i] == args@[i]@);
        }
    }
    args
}

// ---------------------------------------------------------------------------
// The stream of progress updates

/// The consumer side of a run's update queue. Updates come out in the
/// order they were queued; after `Finished` the stream ends.
pub struct Execution {
    finished: bool,
}

impl View for Execution {
    type V = bool;

    /// Whether the stream has ended.
    closed spec fn view(&self) -> bool {
        self.finished
    }
}

/// One poll of the stream over `queue`: (ended afterwards, queue
/// afterwards, item given out). An ended stream gives `None` and leaves the
/// queue alone; an empty queue gives `NoUpdate`; otherwise the front of the
/// queue comes out, and `Finished` ends the stream.
pub open spec fn poll_spec(finished: bool, queue: Seq<StatusUpdate>) -> (bool, Seq<StatusUpdate>, Option<StatusUpdate>) {
    if finished {
        (true, queue, None)
    } else if queue.len() == 0 {
        (false, queue, Some(StatusUpdate::NoUpdate))
    } else {
        (queue[0] == StatusUpdate::Finished, queue.drop_first(), Some(queue[0]))
    }
}

impl Execution {
    /// A stream that has not ended.
    pub fn new() -> (e: Execution)
        ensures
            !e@,
    {
        Execution { finished: false }
    }

    /// Ends the stream.
    pub fn mark_finished(&mut self)
        ensures
            final(self)@,
    {
        self.finished = true;
    }

    pub fn is_finished(&self) -> (b: bool)
        ensures
            b == self@,
    {
        self.finished
    }

    /// Polls with the queue in hand (see [`poll_spec`]).
    pub fn poll(&mut self, queue: &mut VecDeque<StatusUpdate>) -> (item: Option<StatusUpdate>)
        ensures
            (final(self)@, final(queue)@, item) == poll_spec(old(self)@, old(queue)@),
    {
        if self.finished {
            return None;
        }
        match queue.pop_front() {
            Some(update) => {
                if let StatusUpdate::Finished = update {
                    self.finished = true;
                }
                Some(update)
            },
            None => Some(StatusUpdate::NoUpdate),
        }
    }

    /// Polls while the queue is held elsewhere: an ended stream gives
    /// `None`, otherwise `NoUpdate`.
    pub fn poll_busy(&self) -> (item: Option<StatusUpdate>)
        ensures
            self@ ==> item is None,
            !self@ ==> item == Some(StatusUpdate::NoUpdate),
    {
        if self.finished {
            None
        } else {
            Some(StatusUpdate::NoUpdate)
        }
    }
}

/// `n` polls of the stream in a row: (ended afterwards, queue afterwards,
/// items given out, in order).
pub open spec fn poll_many(finished: bool, queue: Seq<StatusUpdate>, n: nat) -> (bool, Seq<StatusUpdate>, Seq<Option<StatusUpdate>>)
    decreases n,
{
    if n == 0 {
        (finished, queue, Seq::empty())
    } else {
        let (f, q, item) = poll_spec(finished, queue);
        let (f2, q2, items) = poll_many(f, q, (n - 1) as nat);
        (f2, q2, seq![item] + items)
    }
}

/// Updates come out in the order they were queued: as long as no
/// `Finished` is among them, `k` polls of a live stream give the first `k`
/// queued updates, in order, and leave the rest queued.
pub proof fn lemma_stream_keeps_order(queue: Seq<StatusUpdate>, k: nat)
    requires
        k <= queue.len(),
        forall|i: int| 0 <= i < k ==> queue[i] != StatusUpdate::Finished,
    ensures
        poll_many(false, queue, k) == (false, queue.skip(k as int), queue.take(k as int).map_values(|u: StatusUpdate| Some(u))),
    decreases k,
{
    if k > 0 {
        let rest = queue.drop_first();
        assert forall|i: int| 0 <= i < (k - 1) as nat implies rest[i] != StatusUpdate::Finished by {
            assert(rest[i] == queue[i + 1]);
        }
        lemma_stream_keeps_order(rest, (k - 1) as nat);
        assert(rest.skip(k - 1) =~= queue.skip(k as int));
        assert(seq![Some(queue[0])] + rest.take(k - 1).map_values(|u: StatusUpdate| Some(u))
            =~= queue.take(k as int).map_values(|u: StatusUpdate| Some(u)));
    } else {
        assert(queue.skip(0) =~= queue);
        assert(queue.take(0).map_values(|u: StatusUpdate| Some(u)) =~= Seq::<Option<StatusUpdate>>::empty());
    }
}

/// `Finished` ends the stream: once it has come out, every later poll
/// gives `None` and leaves the queue alone.
pub proof fn lemma_stream_ends_with_finished(queue: Seq<StatusUpdate>, n: nat)
    requires
        queue.len() > 0,
        queue[0] == StatusUpdate::Finished,
    ensures
        poll_spec(false, queue) == (true, queue.drop_first(), Some(StatusUpdate::Finished)),
        poll_many(true, queue.drop_first(), n) == (true, queue.drop_first(), Seq::new(n, |i: int| None::<StatusUpdate>)),
    decreases n,
{
    if n > 0 {
        lemma_stream_ends_with_finished(queue, (n - 1) as nat);
        assert(seq![None::<StatusUpdate>] + Seq::new((n - 1) as nat, |i: int| None::<StatusUpdate>)
            =~= Seq::new(n, |i: int| None::<StatusUpdate>));
    } else {
        assert(Seq::new(0, |i: int| None::<StatusUpdate>) =~= Seq::<Option<StatusUpdate>>::empty());
    }
}

/// A render time is reported for the frame saved just before it: after a
/// `Saved` line for frame `n`, a `Time` line of `t` ms gives
/// `RenderedFrame { frame_number: n, render_time: t }` and clears the
/// pending frame.
pub proof fn lemma_time_reports_saved_frame(pending: Option<u32>, n: u32, t: u32)
    ensures
        can_observe_spec(pending, ParseResult::SavedFrame(n)),
        can_observe_spec(pending_after(pending, ParseResult::SavedFrame(n)), ParseResult::FrameRenderTime(t)),
        update_after(pending_after(pending, ParseResult::SavedFrame(n)), ParseResult::FrameRenderTime(t))
            == Some(StatusUpdate::RenderedFrame { frame_number: n, render_time: t }),
        pending_after(pending_after(pending, ParseResult::SavedFrame(n)), ParseResult::FrameRenderTime(t)) is None,
{
}

/// What happens to a run's update queue: the producer pushes an update,
/// or the consumer polls.
pub enum StreamEvent {
    Push(StatusUpdate),
    Poll,
}

/// The stream after `events`, in order, from `finished` and `queue`:
/// (ended afterwards, queue afterwards, what each poll gave, in order).
pub open spec fn stream_after(finished: bool, queue: Seq<StatusUpdate>, events: Seq<StreamEvent>) -> (bool, Seq<StatusUpdate>, Seq<Option<StatusUpdate>>)
    decreases events.len(),
{
    if events.len() == 0 {
        (finished, queue, Seq::empty())
    } else {
        let (f, q, out) = stream_after(finished, queue, events.drop_last());
        match events.last() {
            StreamEvent::Push(u) => (f, q.push(u), out),
            StreamEvent::Poll => {
                let (f2, q2, item) = poll_spec(f, q);
                (f2, q2, out.push(item))
            },
        }
    }
}

/// The updates pushed among `events`, in order.
pub open spec fn pushed(events: Seq<StreamEvent>) -> Seq<StatusUpdate>
    decreases events.len(),
{
    if events.len() == 0 {
        Seq::empty()
    } else {
        match events.last() {
            StreamEvent::Push(u) => pushed(events.drop_last()).push(u),
            StreamEvent::Poll => pushed(events.drop_last()),
        }
    }
}

/// The updates that polls gave out, leaving out `NoUpdate` and `None`.
pub open spec fn delivered(out: Seq<Option<StatusUpdate>>) -> Seq<StatusUpdate>
    decreases out.len(),
{
    if out.len() == 0 {
        Seq::empty()
    } else {
        match out.last() {
            Some(u) => if u == StatusUpdate::NoUpdate {
                delivered(out.drop_last())
            } else {
                delivered(out.drop_last()).push(u)
            },
            None => delivered(out.drop_last()),
        }
    }
}

/// The stream keeps order while the producer pushes between polls: the
/// updates given out are the first `k` pushed, none lost, repeated or
/// reordered, the rest still queued; no `Finished` comes out before the
/// last of them; the stream has ended exactly when the last one given out
/// is `Finished`, and from then on every poll gives `None`.
pub proof fn lemma_stream_under_pushes(events: Seq<StreamEvent>) -> (k: nat)
    requires
        !pushed(events).contains(StatusUpdate::NoUpdate),
    ensures
        ({
            let (f, q, out) = stream_after(false, Seq::empty(), events);
            let p = pushed(events);
            &&& k <= p.len()
            &&& delivered(out) == p.take(k as int)
            &&& q == p.skip(k as int)
            &&& forall|i: int| 0 <= i < k - 1 ==> p[i] != StatusUpdate::Finished
            &&& f == (k > 0 && p[k - 1] == StatusUpdate::Finished)
        }),
    decreases events.len(),
{
    if events.len() == 0 {
        assert(pushed(events).take(0) =~= Seq::<StatusUpdate>::empty());
        assert(pushed(events).skip(0) =~= Seq::<StatusUpdate>::empty());
        0
    } else {
        let init = events.drop_last();
        let pi = pushed(init);
        assert(!pi.contains(StatusUpdate::NoUpdate)) by {
            if pi.contains(StatusUpdate::NoUpdate) {
                let j = choose|j: int| 0 <= j < pi.len() && pi[j] == StatusUpdate::NoUpdate;
                match events.last() {
                    StreamEvent::Push(u) => { assert(pushed(events)[j] == pi[j]); },
                    StreamEvent::Poll => {},
                }
            }
        }
        let k0 = lemma_stream_under_pushes(init);
        let (f, q, out) = stream_after(false, Seq::empty(), init);
        match events.last() {
            StreamEvent::Push(u) => {
                let p = pi.push(u);
                assert(p.take(k0 as int) =~= pi.take(k0 as int));
                assert(p.skip(k0 as int) =~= pi.skip(k0 as int).push(u));
                assert forall|i: int| 0 <= i < k0 - 1 implies p[i] != StatusUpdate::Finished by {
                    assert(p[i] == pi[i]);
                }
                k0
            },
            StreamEvent::Poll => {
                let (f2, q2, item) = poll_spec(f, q);
                let out2 = out.push(item);
                assert(out2.drop_last() =~= out);
                if f || q.len() == 0 {
                    k0
                } else {
                    let u = q[0];
                    assert(u == pi[k0 as int]);
                    assert(pi.contains(u));
                    assert(u != StatusUpdate::NoUpdate);
                    assert(pi.take(k0 as int + 1) =~= pi.take(k0 as int).push(u));
                    assert(pi.skip(k0 as int + 1) =~= q.drop_first());
                    assert forall|i: int| 0 <= i < k0 implies pi[i] != StatusUpdate::Finished by {
                        if i == k0 - 1 {
                        }
                    }
                    k0 + 1
                }
            },
        }
    }
}

/// A render time weighs minutes, seconds and centiseconds by 60000, 1000
/// and 10 ms: when the three captured fields read as numbers `m`, `s` and
/// `c`, the time is `m * 60000 + s * 1000 + c * 10` ms if that fits in a
/// `u32`, and unreadable otherwise.
pub proof fn lemma_render_time_is_weighted_sum(m: Seq<char>, s: Seq<char>, c: Seq<char>)
    requires
        parse_u32_spec(m) is Some,
        parse_u32_spec(s) is Some,
        parse_u32_spec(c) is Some,
    ensures
        ({
            let total = parse_u32_spec(m)->0 * 60000 + parse_u32_spec(s)->0 * 1000 + parse_u32_spec(c)->0 * 10;
            render_time_outcome(CaptureView::Text(m), CaptureView::Text(s), CaptureView::Text(c))
                == if total <= 4294967295 { Some(Some(total as u32)) } else { None::<Option<u32>> }
        }),
{
}

/// One more centisecond is exactly 10 ms more: reading `m:s.(c+1)` gives
/// the reading of `m:s.c` plus 10, for any numbers whose time fits.
pub proof fn lemma_one_more_centisecond(m: u32, s: u32, c: u32)
    requires
        c < 4294967295,
        m * 60000 + s * 1000 + (c + 1) * 10 <= 4294967295,
    ensures
        render_time_outcome(
            CaptureView::Text(decimal(m as nat)),
            CaptureView::Text(decimal(s as nat)),
            CaptureView::Text(decimal(c as nat)),
        ) is Some,
        render_time_outcome(
            CaptureView::Text(decimal(m as nat)),
            CaptureView::Text(decimal(s as nat)),
            CaptureView::Text(decimal(c as nat + 1)),
        ) == Some(Some((render_time_outcome(
            CaptureView::Text(decimal(m as nat)),
            CaptureView::Text(decimal(s as nat)),
            CaptureView::Text(decimal(c as nat)),
        )->0->0 + 10) as u32)),
{
    lemma_parse_decimal_roundtrip(m);
    lemma_parse_decimal_roundtrip(s);
    lemma_parse_decimal_roundtrip(c);
    lemma_parse_decimal_roundtrip((c + 1) as u32);
    assert((c + 1) as u32 as nat == c as nat + 1);
}

/// A frame number is the number its digits denote, and a missing match is
/// no frame: `n`'s decimal digits read as `n`.
pub proof fn lemma_frame_number_reads_digits(n: u32)
    ensures
        frame_number_outcome(CaptureView::Text(decimal(n as nat))) == Some(Some(n)),
        frame_number_outcome(CaptureView::NoMatch) == Some(None::<u32>),
{
    lemma_parse_decimal_roundtrip(n);
}

/// How a line is classified, in terms of what the three regular
/// expressions capture in it: a `Fra:<n> Mem` match is the current frame
/// `n`; otherwise a `Saved: ...<n>.png` match is the saved frame `n`;
/// otherwise a `Time: MM:SS.cc` match is a render time of
/// `MM * 60000 + SS * 1000 + cc * 10` ms; a line none of them matches says
/// nothing.
pub proof fn lemma_line_classification(line: Seq<char>)
    ensures
        ({
            let cur = regex_capture("^Fra:([0-9]+) Mem"@, line, 1);
            (cur is Text && parse_u32_spec(cur->Text_0) is Some)
                ==> parse_line_outcome(line) == Some(ParseResult::CurrentFrame(parse_u32_spec(cur->Text_0)->0))
        }),
        ({
            let cur = regex_capture("^Fra:([0-9]+) Mem"@, line, 1);
            let saved = regex_capture("^Saved:.*?([0-9]+).png"@, line, 1);
            (cur is NoMatch && saved is Text && parse_u32_spec(saved->Text_0) is Some)
                ==> parse_line_outcome(line) == Some(ParseResult::SavedFrame(parse_u32_spec(saved->Text_0)->0))
        }),
        ({
            let cur = regex_capture("^Fra:([0-9]+) Mem"@, line, 1);
            let saved = regex_capture("^Saved:.*?([0-9]+).png"@, line, 1);
            let mm = regex_capture("^\\s?Time: ([0-9]{2}):([0-9]{2})\\.([0-9]{2})"@, line, 1);
            let ss = regex_capture("^\\s?Time: ([0-9]{2}):([0-9]{2})\\.([0-9]{2})"@, line, 2);
            let cc = regex_capture("^\\s?Time: ([0-9]{2}):([0-9]{2})\\.([0-9]{2})"@, line, 3);
            (cur is NoMatch && saved is NoMatch && mm is Text && ss is Text && cc is Text
                && parse_u32_spec(mm->Text_0) is Some && parse_u32_spec(ss->Text_0) is Some
                && parse_u32_spec(cc->Text_0) is Some
                && parse_u32_spec(mm->Text_0)->0 * 60000 + parse_u32_spec(ss->Text_0)->0 * 1000
                    + parse_u32_spec(cc->Text_0)->0 * 10 <= 4294967295)
                ==> parse_line_outcome(line) == Some(ParseResult::FrameRenderTime(
                    (parse_u32_spec(mm->Text_0)->0 * 60000 + parse_u32_spec(ss->Text_0)->0 * 1000
                        + parse_u32_spec(cc->Text_0)->0 * 10) as u32,
                ))
        }),
        ({
            let cur = regex_capture("^Fra:([0-9]+) Mem"@, line, 1);
            let saved = regex_capture("^Saved:.*?([0-9]+).png"@, line, 1);
            let mm = regex_capture("^\\s?Time: ([0-9]{2}):([0-9]{2})\\.([0-9]{2})"@, line, 1);
            (cur is NoMatch && saved is NoMatch && mm is NoMatch)
                ==> parse_line_outcome(line) == Some(ParseResult::Unrecognized)
        }),
{
}

/// The Blender command line's layout does not depend on the options:
/// twelve arguments, the fixed flags in their places, the input file after
/// `--background`, the output directory after `--render-output`, the first
/// frame's number after `--frame-start` and the last frame's after
/// `--frame-end`.
pub proof fn lemma_arguments_layout(o: RunnerOptions)
    ensures
        arguments_spec(o).len() == 12,
        arguments_spec(o)[0] == "--background"@,
        arguments_spec(o)[1] == o.input_file@,
        arguments_spec(o)[2] == "--render-output"@,
        arguments_spec(o)[3] == o.output_dir@,
        arguments_spec(o)[4] == "--frame-start"@,
        arguments_spec(o)[5] == decimal(o.frame_start as nat),
        arguments_spec(o)[6] == "--frame-end"@,
        arguments_spec(o)[7] == decimal(o.frame_end as nat),
        arguments_spec(o)[8] == "--render-anim"@,
        arguments_spec(o)[9] == "--render-format"@,
        arguments_spec(o)[10] == "PNG"@,
        arguments_spec(o)[11] == "--use-extension"@,
{
}

/// Two option sets give the same flags: only the input file, the output
/// directory and the two frame numbers (at 1, 3, 5 and 7) differ.
pub proof fn lemma_arguments_flags_fixed(a: RunnerOptions, b: RunnerOptions, i: int)
    requires
        0 <= i < 12,
        i != 1 && i != 3 && i != 5 && i != 7,
    ensures
        arguments_spec(a)[i] == arguments_spec(b)[i],
{
    lemma_arguments_layout(a);
    lemma_arguments_layout(b);
}

/// A run ends well exactly on exit code 0: code 0 gives `Finished`, any
/// other code is a failure carrying that code, and no code (a signal) is a
/// signal failure.
pub proof fn lemma_exit_outcomes(code: Option<i32>)
    ensures
        code == Some(0i32) <==> exit_outcome(code) == Ok::<StatusUpdate, RenderFailure>(StatusUpdate::Finished),
        exit_outcome(code) is Ok ==> code == Some(0i32),
        code is Some && code->0 != 0 ==> exit_outcome(code) == Err::<StatusUpdate, RenderFailure>(RenderFailure::ExitCode(code->0)),
        code is None ==> exit_outcome(code) == Err::<StatusUpdate, RenderFailure>(RenderFailure::Signal),
{
}

} // verus!
