//! The render loop's decisions: what an event asks of the rendering
//! backend, when the next frame is drawn, and when the frame rate is
//! reported.

use crate::event::{Event, EventData, Message, Point, Rect};
use crate::timing::{
    spec_due, spec_remaining, spec_wait, due, wait_until, Wait, FRAME_NANOS, REPORT_NANOS,
};
use vstd::prelude::*;

verus! {

/// What one event asks the render loop to do.
#[derive(Clone, Copy, Debug, PartialEq, Eq, Structural)]
pub enum RenderAction {
    Nothing,
    /// Derive the background colour from the cursor position.
    Background(Point),
    /// Fit the surface to the window.
    Resize(Rect),
    /// The payload did not belong to the tag; the event has no effect.
    Unexpected(Message),
}

pub open spec fn spec_render_action(event: Event) -> RenderAction {
    match event.message {
        Message::MouseMove => match event.data {
            EventData::MouseMove(at) => RenderAction::Background(at),
            _ => RenderAction::Unexpected(Message::MouseMove),
        },
        Message::Paint => match event.data {
            EventData::Empty => RenderAction::Nothing,
            _ => RenderAction::Unexpected(Message::Paint),
        },
        Message::Resize => match event.data {
            EventData::Resize(rect) => RenderAction::Resize(rect),
            _ => RenderAction::Unexpected(Message::Resize),
        },
        Message::KeyDown => RenderAction::Nothing,
        Message::KeyUp => RenderAction::Nothing,
    }
}

/// What `event` asks of the render loop.
pub fn render_action(event: Event) -> (action: RenderAction)
    ensures
        action == spec_render_action(event),
{
    match event.message {
        Message::MouseMove => match event.data {
            EventData::MouseMove(at) => RenderAction::Background(at),
            _ => RenderAction::Unexpected(Message::MouseMove),
        },
        Message::Paint => match event.data {
            EventData::Empty => RenderAction::Nothing,
            _ => RenderAction::Unexpected(Message::Paint),
        },
        Message::Resize => match event.data {
            EventData::Resize(rect) => RenderAction::Resize(rect),
            _ => RenderAction::Unexpected(Message::Resize),
        },
        Message::KeyDown | Message::KeyUp => RenderAction::Nothing,
    }
}

/// The actions of `events`, one for each and in the same order.
pub fn render_actions(events: &Vec<Event>) -> (actions: Vec<RenderAction>)
    ensures
        actions@.len() == events@.len(),
        forall|i: int| 0 <= i < events@.len() ==> actions@[i] == spec_render_action(events@[i]),
{
    let mut actions: Vec<RenderAction> = Vec::new();
    let mut i: usize = 0;
    while i < events.len()
        invariant
            i <= events.len(),
            actions@.len() == i,
            forall|j: int| 0 <= j < i ==> actions@[j] == spec_render_action(events@[j]),
        decreases events.len() - i,
    {
        actions.push(render_action(events[i]));
        i += 1;
    }
    actions
}

/// A signed extent as the unsigned number with the same 32 bits.
pub open spec fn spec_extent(from: i32, to: i32) -> u32 {
    let d = to - from;
    if d >= 0 {
        d as u32
    } else {
        (d + 0x1_0000_0000) as u32
    }
}

/// The size to give the surface for the window `rect`: none where the
/// width or the height is zero, in which case the surface keeps its size.
/// An edge that lies before its opposite edge gives an extent that has
/// wrapped round, far above any real size.
pub open spec fn spec_surface_size(rect: Rect) -> Option<(u32, u32)> {
    let w = spec_extent(rect.left, rect.right);
    let h = spec_extent(rect.top, rect.bottom);
    if w > 0 && h > 0 {
        Some((w, h))
    } else {
        None
    }
}

fn extent(from: i32, to: i32) -> (e: u32)
    ensures
        e == spec_extent(from, to),
{
    let d: i64 = to as i64 - from as i64;
    if d >= 0 {
        d as u32
    } else {
        (d + 0x1_0000_0000) as u32
    }
}

/// The size to give the surface for the window `rect`, if it is to change.
pub fn surface_size(rect: Rect) -> (size: Option<(u32, u32)>)
    ensures
        size == spec_surface_size(rect),
{
    let w = extent(rect.left, rect.right);
    let h = extent(rect.top, rect.bottom);
    if w > 0 && h > 0 {
        Some((w, h))
    } else {
        None
    }
}

/// For a rectangle whose edges are in order the surface takes the
/// rectangle's width and height, and keeps its size only where one of
/// them is zero.
pub proof fn law_surface_takes_window_size(rect: Rect)
    requires
        rect.left <= rect.right,
        rect.top <= rect.bottom,
    ensures
        rect.spec_width() > 0 && rect.spec_height() > 0 ==> spec_surface_size(rect) == Some(
            (rect.spec_width() as u32, rect.spec_height() as u32),
        ),
        rect.spec_width() == 0 || rect.spec_height() == 0 ==> spec_surface_size(rect) is None,
{
}

/// What the render loop does at one look at the clock.
#[derive(Clone, Copy, Debug, PartialEq, Eq, Structural)]
pub enum Pace {
    /// Draw a frame now.
    Render,
    /// The next frame is not due: pass the time.
    Hold(Wait),
}

/// The pacer's state as contracts see it.
pub struct PacerState {
    /// The time of the last frame.
    pub last_render: u64,
    /// The time of the last report.
    pub last_report: u64,
    /// The frames drawn since the last report; it stops at the limit of
    /// `u64`.
    pub frames: u64,
}

impl PacerState {
    pub open spec fn spec_start(now: u64) -> PacerState {
        PacerState { last_render: now, last_report: now, frames: 0 }
    }

    pub open spec fn spec_report_due(self, now: u64) -> bool {
        spec_due(self.last_report, REPORT_NANOS, now)
    }

    /// A report that is due yields the frames counted and starts a new
    /// count at `now`.
    pub open spec fn spec_report(self, now: u64) -> (PacerState, Option<u64>) {
        if self.spec_report_due(now) {
            (PacerState { last_report: now, frames: 0, ..self }, Some(self.frames))
        } else {
            (self, None)
        }
    }

    pub open spec fn spec_frame_due(self, now: u64) -> bool {
        spec_due(self.last_render, FRAME_NANOS, now)
    }

    /// A frame that is due is drawn and counted, and `now` becomes the
    /// time of the last frame; else the time that remains is waited.
    pub open spec fn spec_pace(self, now: u64) -> (PacerState, Pace) {
        if self.spec_frame_due(now) {
            (
                PacerState {
                    last_render: now,
                    frames: if self.frames < u64::MAX {
                        (self.frames + 1) as u64
                    } else {
                        u64::MAX
                    },
                    ..self
                },
                Pace::Render,
            )
        } else {
            (self, Pace::Hold(spec_wait(spec_remaining(self.last_render, FRAME_NANOS, now))))
        }
    }
}

/// Keeps the render loop below its greatest frame rate and counts the
/// frames for the periodic report.
pub struct FramePacer {
    last_render: u64,
    last_report: u64,
    frames: u64,
}

impl View for FramePacer {
    type V = PacerState;

    closed spec fn view(&self) -> PacerState {
        PacerState {
            last_render: self.last_render,
            last_report: self.last_report,
            frames: self.frames,
        }
    }
}

impl FramePacer {
    /// A pacer for a loop that has drawn its first frame at `now`; that
    /// frame is not counted.
    pub fn new(now: u64) -> (p: FramePacer)
        ensures
            p@ == PacerState::spec_start(now),
    {
        FramePacer { last_render: now, last_report: now, frames: 0 }
    }

    pub fn last_render(&self) -> (t: u64)
        ensures
            t == self@.last_render,
    {
        self.last_render
    }

    pub fn last_report(&self) -> (t: u64)
        ensures
            t == self@.last_report,
    {
        self.last_report
    }

    pub fn frames(&self) -> (n: u64)
        ensures
            n == self@.frames,
    {
        self.frames
    }

    /// If a report is due at `now`, returns the frames drawn since the
    /// last one and starts a new count.
    pub fn report(&mut self, now: u64) -> (frames: Option<u64>)
        ensures
            (final(self)@, frames) == old(self)@.spec_report(now),
    {
        if due(self.last_report, REPORT_NANOS, now) {
            let frames = self.frames;
            self.frames = 0;
            self.last_report = now;
            Some(frames)
        } else {
            None
        }
    }

    /// Whether to draw a frame at `now`, or how to wait for the next.
    pub fn pace(&mut self, now: u64) -> (pace: Pace)
        ensures
            (final(self)@, pace) == old(self)@.spec_pace(now),
    {
        if due(self.last_render, FRAME_NANOS, now) {
            self.last_render = now;
            if self.frames < u64::MAX {
                self.frames = self.frames + 1;
            }
            Pace::Render
        } else {
            Pace::Hold(wait_until(self.last_render, FRAME_NANOS, now))
        }
    }
}

/// Two frames are never drawn less than the frame time apart: right after
/// a frame no frame is due until the frame time has passed.
pub proof fn law_frames_keep_their_distance(state: PacerState, now: u64, next: u64)
    requires
        state.spec_frame_due(now),
        state.spec_pace(now).0.spec_frame_due(next),
    ensures
        next - now >= FRAME_NANOS,
        state.spec_pace(now).1 == Pace::Render,
{
}

/// A report hands out every frame counted since the last one and starts
/// from zero, so no frame is reported twice.
pub proof fn law_report_resets_count(state: PacerState, now: u64)
    requires
        state.spec_report_due(now),
    ensures
        state.spec_report(now).1 == Some(state.frames),
        state.spec_report(now).0.frames == 0,
        !state.spec_report(now).0.spec_report_due(now),
{
}

} // verus!
