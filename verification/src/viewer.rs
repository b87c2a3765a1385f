//! The decisions of the interactive viewer: what each window or device
//! event does to the mouse capture, the accumulated samples and the
//! preview mode, and what the frame loop must do in answer.
//!
//! While the camera orbits, frames are rendered at `1 / PREVIEW_SCALE` of
//! the resolution and shown enlarged, without accumulating; as soon as the
//! mouse stops (after `FRAMES_AFTER_MOVE` further preview frames) full
//! resolution samples are accumulated again, for as long as the camera
//! stays still (up to `SAMPLE_LIMIT`, the capacity of the sample counter).

use vstd::prelude::*;
use crate::decimal::{decimal, push_decimal};

verus! {

/// Width of the interactive window and of its render target, in pixels.
pub const WIDTH: u32 = 1600;

/// Height of the interactive window and of its render target, in pixels.
pub const HEIGHT: u32 = 900;

/// Maximum ray bounce depth.
pub const MAX_DEPTH: u32 = 50;

/// Resolution divisor of preview frames while the camera moves.
pub const PREVIEW_SCALE: u32 = 2;

/// Extra preview frames shown after the mouse stops.
pub const FRAMES_AFTER_MOVE: u32 = 0;

/// The capacity of the sample counter: accumulation goes on while the camera
/// is still until the count can grow no further in a `u32`.
pub const SAMPLE_LIMIT: u32 = 0xFFFF_FFFF;

/// An event of the window system, reduced to what the viewer decides on.
#[derive(PartialEq, Eq, Structural, Clone, Copy, Debug)]
pub enum ViewerEvent {
    /// The window's close button was pressed.
    CloseRequested,
    /// A keyboard key changed state.
    Key { pressed: bool, escape: bool },
    /// A mouse button changed state.
    MouseButton { left: bool, pressed: bool },
    /// The mouse moved (its delta stays with the caller).
    MouseMotion,
    /// The event queue is drained: time to render the next frame.
    AboutToWait,
    /// Presenting the rendered frame to the window failed.
    PresentFailed,
    /// Any other event.
    Other,
}

/// What the frame loop must do in answer to an event.
#[derive(PartialEq, Eq, Structural, Clone, Copy, Debug)]
pub enum ViewerAction {
    /// Leave the event loop.
    Exit,
    /// Show the mouse cursor (the mouse was released).
    ShowCursor,
    /// Hide the mouse cursor (the mouse was captured).
    HideCursor,
    /// Apply the mouse delta to the orbit camera and clear the accumulated
    /// samples.
    Orbit,
    /// Render a frame at `1 / PREVIEW_SCALE` resolution, enlarge it and
    /// present it, without accumulating it; then set the window title.
    RenderPreview,
    /// Render one full-resolution sample, add it to the accumulated image,
    /// present the average; then set the window title.
    RenderSample,
    /// Nothing to do.
    Nothing,
}

/// The viewer's state.
#[derive(PartialEq, Eq, Structural, Clone, Copy, Debug)]
pub struct Viewer {
    /// The mouse is captured: its motion orbits the camera.
    pub mouse_captured: bool,
    /// Samples per pixel in the accumulated full-resolution image.
    pub sample_count: u32,
    /// The camera moved since the last rendered frame.
    pub camera_moved: bool,
    /// Preview frames still to show although the mouse has stopped.
    pub preview_frames_left: u32,
    /// The frame on screen is a preview.
    pub showing_preview: bool,
}

impl Viewer {
    /// The state after `e` and the action that `e` calls for.
    pub open spec fn next(self, e: ViewerEvent) -> (Viewer, ViewerAction) {
        match e {
            ViewerEvent::CloseRequested => (self, ViewerAction::Exit),
            ViewerEvent::Key { pressed, escape } => {
                if pressed && escape {
                    (Viewer { mouse_captured: false, ..self }, ViewerAction::ShowCursor)
                } else {
                    (self, ViewerAction::Nothing)
                }
            },
            ViewerEvent::MouseButton { left, pressed } => {
                if left && pressed {
                    (Viewer { mouse_captured: true, ..self }, ViewerAction::HideCursor)
                } else {
                    (self, ViewerAction::Nothing)
                }
            },
            ViewerEvent::MouseMotion => {
                if self.mouse_captured {
                    (Viewer { sample_count: 0, camera_moved: true, ..self }, ViewerAction::Orbit)
                } else {
                    (self, ViewerAction::Nothing)
                }
            },
            ViewerEvent::AboutToWait => {
                if self.camera_moved {
                    (
                        Viewer {
                            camera_moved: false,
                            preview_frames_left: FRAMES_AFTER_MOVE,
                            showing_preview: true,
                            ..self
                        },
                        ViewerAction::RenderPreview,
                    )
                } else if self.preview_frames_left > 0 {
                    (
                        Viewer {
                            preview_frames_left: (self.preview_frames_left - 1) as u32,
                            showing_preview: true,
                            ..self
                        },
                        ViewerAction::RenderPreview,
                    )
                } else if self.sample_count < SAMPLE_LIMIT {
                    (
                        Viewer {
                            sample_count: (self.sample_count + 1) as u32,
                            showing_preview: false,
                            ..self
                        },
                        ViewerAction::RenderSample,
                    )
                } else {
                    (self, ViewerAction::Nothing)
                }
            },
            ViewerEvent::PresentFailed => (self, ViewerAction::Exit),
            ViewerEvent::Other => (self, ViewerAction::Nothing),
        }
    }

    /// A fresh viewer: mouse released, no samples accumulated, no preview.
    pub fn new() -> (v: Self)
        ensures
            !v.mouse_captured,
            v.sample_count == 0,
            !v.camera_moved,
            v.preview_frames_left == 0,
            !v.showing_preview,
    {
        Viewer {
            mouse_captured: false,
            sample_count: 0,
            camera_moved: false,
            preview_frames_left: 0,
            showing_preview: false,
        }
    }

    /// Handles one event: updates the state and returns the action the frame
    /// loop must perform.
    pub fn step(&mut self, e: ViewerEvent) -> (a: ViewerAction)
        ensures
            (*final(self), a) == old(self).next(e),
    {
        match e {
            ViewerEvent::CloseRequested => ViewerAction::Exit,
            ViewerEvent::Key { pressed, escape } => {
                if pressed && escape {
                    self.mouse_captured = false;
                    ViewerAction::ShowCursor
                } else {
                    ViewerAction::Nothing
                }
            },
            ViewerEvent::MouseButton { left, pressed } => {
                if left && pressed {
                    self.mouse_captured = true;
                    ViewerAction::HideCursor
                } else {
                    ViewerAction::Nothing
                }
            },
            ViewerEvent::MouseMotion => {
                if self.mouse_captured {
                    self.sample_count = 0;
                    self.camera_moved = true;
                    ViewerAction::Orbit
                } else {
                    ViewerAction::Nothing
                }
            },
            ViewerEvent::AboutToWait => {
                if self.camera_moved {
                    self.camera_moved = false;
                    self.preview_frames_left = FRAMES_AFTER_MOVE;
                    self.showing_preview = true;
                    ViewerAction::RenderPreview
                } else if self.preview_frames_left > 0 {
                    self.preview_frames_left = self.preview_frames_left - 1;
                    self.showing_preview = true;
                    ViewerAction::RenderPreview
                } else if self.sample_count < SAMPLE_LIMIT {
                    self.sample_count = self.sample_count + 1;
                    self.showing_preview = false;
                    ViewerAction::RenderSample
                } else {
                    ViewerAction::Nothing
                }
            },
            ViewerEvent::PresentFailed => ViewerAction::Exit,
            ViewerEvent::Other => ViewerAction::Nothing,
        }
    }

    /// The window title for the current state:
    /// `"Rust Ray Tracer  |  preview 2x  |  {hint}"` while a preview is on
    /// screen, `"Rust Ray Tracer  |  {samples} spp HD  |  {hint}"` otherwise.
    pub fn window_title(&self) -> (s: String)
        ensures
            s@ == title_text(self.showing_preview, self.sample_count as nat, self.mouse_captured),
    {
        let mut s = String::from_str("Rust Ray Tracer  |  ");
        if self.showing_preview {
            s.append("preview ");
            push_decimal(&mut s, PREVIEW_SCALE);
            s.append("x");
        } else {
            push_decimal(&mut s, self.sample_count);
            s.append(" spp HD");
        }
        s.append("  |  ");
        if self.mouse_captured {
            s.append("click ESC to release mouse");
        } else {
            s.append("click to orbit");
        }
        s
    }
}

/// The render-state part of the window title.
pub open spec fn status_text(preview: bool, samples: nat) -> Seq<char> {
    if preview {
        "preview "@ + decimal(PREVIEW_SCALE as nat) + "x"@
    } else {
        decimal(samples) + " spp HD"@
    }
}

/// The window title: the render state and a hint on how to use the mouse.
pub open spec fn title_text(preview: bool, samples: nat, captured: bool) -> Seq<char> {
    "Rust Ray Tracer  |  "@ + status_text(preview, samples) + "  |  "@ + (if captured {
        "click ESC to release mouse"@
    } else {
        "click to orbit"@
    })
}

/// The state after a whole sequence of events, handled in order.
pub open spec fn run(v: Viewer, events: Seq<ViewerEvent>) -> Viewer
    decreases events.len(),
{
    if events.len() == 0 {
        v
    } else {
        run(v.next(events[0]).0, events.drop_first())
    }
}

/// How many of the events are `AboutToWait`.
pub open spec fn wait_count(events: Seq<ViewerEvent>) -> nat
    decreases events.len(),
{
    if events.len() == 0 {
        0
    } else {
        (if events[0] == ViewerEvent::AboutToWait { 1nat } else { 0nat })
            + wait_count(events.drop_first())
    }
}

/// A full-resolution sample is rendered exactly when the event queue drains
/// while the camera is still, no preview frame is pending and the sample
/// counter has room; it adds one sample and puts the HD image on screen.
pub proof fn lemma_sample_adds_one(v: Viewer, e: ViewerEvent)
    ensures
        v.next(e).1 == ViewerAction::RenderSample <==> (e == ViewerEvent::AboutToWait
            && !v.camera_moved && v.preview_frames_left == 0 && v.sample_count < SAMPLE_LIMIT),
        v.next(e).1 == ViewerAction::RenderSample ==> v.next(e).0.sample_count == v.sample_count
            + 1 && !v.next(e).0.showing_preview,
{
}

/// Preview frames are never accumulated: they leave the sample count as it
/// is and put a preview on screen.
pub proof fn lemma_preview_not_accumulated(v: Viewer, e: ViewerEvent)
    ensures
        v.next(e).1 == ViewerAction::RenderPreview ==> v.next(e).0.sample_count == v.sample_count
            && v.next(e).0.showing_preview,
{
}

/// Orbiting the camera with the captured mouse throws the accumulated
/// samples away, and the next frame is a low-resolution preview; no other
/// event lowers the sample count.
pub proof fn lemma_orbit_restarts_with_preview(v: Viewer, e: ViewerEvent)
    ensures
        v.next(e).1 == ViewerAction::Orbit <==> (e == ViewerEvent::MouseMotion && v.mouse_captured),
        v.next(e).1 == ViewerAction::Orbit ==> v.next(e).0.sample_count == 0 && v.next(
            e,
        ).0.next(ViewerEvent::AboutToWait).1 == ViewerAction::RenderPreview,
        v.next(e).1 != ViewerAction::Orbit ==> v.next(e).0.sample_count >= v.sample_count,
{
}

/// The moment the mouse stops, full resolution returns: after an orbit, the
/// next drained event queue shows a preview frame, and (with no further
/// motion and `FRAMES_AFTER_MOVE` extra previews) the one after that
/// renders the first full-resolution sample.
pub proof fn lemma_hd_returns_when_mouse_stops(v: Viewer)
    requires
        v.mouse_captured,
    ensures
        ({
            let moved = v.next(ViewerEvent::MouseMotion).0;
            let shown = moved.next(ViewerEvent::AboutToWait);
            &&& shown.1 == ViewerAction::RenderPreview
            &&& shown.0.next(ViewerEvent::AboutToWait).1 == ViewerAction::RenderSample
            &&& shown.0.next(ViewerEvent::AboutToWait).0.sample_count == 1
        }),
{
}

/// Escape releases the mouse and a left click captures it, whatever the
/// state; no other event changes the capture.
pub proof fn lemma_capture_follows_clicks_and_escape(v: Viewer, e: ViewerEvent)
    ensures
        (e matches ViewerEvent::Key { pressed: true, escape: true }) ==> !v.next(e).0.mouse_captured,
        (e matches ViewerEvent::MouseButton { left: true, pressed: true }) ==> v.next(e).0.mouse_captured,
        !(e matches ViewerEvent::Key { pressed: true, escape: true })
            && !(e matches ViewerEvent::MouseButton { left: true, pressed: true })
            ==> v.next(e).0.mouse_captured == v.mouse_captured,
{
}

/// Which events call for which cursor and preview actions: a pressed
/// Escape always shows the cursor and releases the mouse, a pressed left
/// button always hides it and captures the mouse, and a preview frame is
/// rendered only when the event queue drains while the camera has moved or
/// preview frames are still due.
pub proof fn lemma_actions_by_event(v: Viewer, e: ViewerEvent)
    ensures
        (e matches ViewerEvent::Key { pressed: true, escape: true }) ==> v.next(e).1
            == ViewerAction::ShowCursor && !v.next(e).0.mouse_captured,
        v.next(e).1 == ViewerAction::ShowCursor <==> (e matches ViewerEvent::Key {
            pressed: true,
            escape: true,
        }),
        v.next(e).1 == ViewerAction::HideCursor <==> (e matches ViewerEvent::MouseButton {
            left: true,
            pressed: true,
        }),
        v.next(e).1 == ViewerAction::RenderPreview <==> (e == ViewerEvent::AboutToWait && (
        v.camera_moved || v.preview_frames_left > 0)),
        e != ViewerEvent::AboutToWait ==> v.next(e).0.showing_preview == v.showing_preview,
{
}

/// The hint at the end of the window title depends on the mouse capture
/// alone: it is "click ESC to release mouse" when the mouse is captured and
/// "click to orbit" when it is released, whatever the render state.
pub proof fn lemma_title_hint_follows_capture(preview: bool, samples: nat)
    ensures
        ({
            let t = title_text(preview, samples, true);
            let h = "click ESC to release mouse"@;
            t.len() >= h.len() && t.subrange(t.len() - h.len(), t.len() as int) == h
        }),
        ({
            let t = title_text(preview, samples, false);
            let h = "click to orbit"@;
            t.len() >= h.len() && t.subrange(t.len() - h.len(), t.len() as int) == h
        }),
{
    let a = "Rust Ray Tracer  |  "@ + status_text(preview, samples) + "  |  "@;
    let h1 = "click ESC to release mouse"@;
    let h2 = "click to orbit"@;
    assert((a + h1).subrange(a.len() as int, (a + h1).len() as int) =~= h1);
    assert((a + h2).subrange(a.len() as int, (a + h2).len() as int) =~= h2);
}

/// Motion of a released mouse changes nothing.
pub proof fn lemma_released_mouse_does_not_orbit(v: Viewer)
    requires
        !v.mouse_captured,
    ensures
        v.next(ViewerEvent::MouseMotion) == (v, ViewerAction::Nothing),
{
}

/// Closing the window, and failing to present a frame, end the loop and
/// change nothing else.
pub proof fn lemma_exit_events(v: Viewer, e: ViewerEvent)
    ensures
        v.next(e).1 == ViewerAction::Exit <==> (e == ViewerEvent::CloseRequested
            || e == ViewerEvent::PresentFailed),
        v.next(e).1 == ViewerAction::Exit ==> v.next(e).0 == v,
{
}

/// Only a full sample counter stops accumulation: a still camera with
/// room in the counter always renders another sample on the next drained
/// event queue, and a full counter renders nothing more.
pub proof fn lemma_accumulation_stops_only_when_counter_full(v: Viewer)
    requires
        !v.camera_moved,
        v.preview_frames_left == 0,
    ensures
        v.sample_count < SAMPLE_LIMIT ==> v.next(ViewerEvent::AboutToWait).1
            == ViewerAction::RenderSample,
        v.sample_count == SAMPLE_LIMIT ==> v.next(ViewerEvent::AboutToWait) == (
            v,
            ViewerAction::Nothing,
        ),
{
}

/// The camera stays still through the events: no motion arrives while the
/// mouse is captured (motion of a released mouse does not move it).
pub open spec fn camera_still(v: Viewer, events: Seq<ViewerEvent>) -> bool
    decreases events.len(),
{
    if events.len() == 0 {
        true
    } else {
        &&& !(events[0] == ViewerEvent::MouseMotion && v.mouse_captured)
        &&& camera_still(v.next(events[0]).0, events.drop_first())
    }
}

/// Progressive accumulation: while the camera stays still, every drained
/// event queue adds one sample, so the count after the events is the count
/// before plus the number of `AboutToWait` events (as long as the counter
/// has room for them).
pub proof fn lemma_progressive_accumulation(v: Viewer, events: Seq<ViewerEvent>)
    requires
        !v.camera_moved,
        v.preview_frames_left == 0,
        camera_still(v, events),
    ensures
        run(v, events).sample_count == if v.sample_count + wait_count(events) <= SAMPLE_LIMIT {
            v.sample_count + wait_count(events)
        } else {
            SAMPLE_LIMIT as int
        },
    decreases events.len(),
{
    if events.len() > 0 {
        lemma_progressive_accumulation(v.next(events[0]).0, events.drop_first());
    }
}

} // verus!
