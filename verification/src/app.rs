//! The event-driven core: a frame-controller state machine that reacts to
//! window lifecycle events, and the application that routes pointer input
//! into the pixel buffer.
//!
//! The controller never touches the GPU itself: each handler returns an
//! [`Action`] telling the unverified shell what to perform against the
//! graphics backend (configure the surface, upload and draw, exit).

use vstd::prelude::*;

use crate::physical_to_pixel_pos;
use crate::spec_map;
use crate::spec_write_rgb;
use crate::PixelBuffer;
use crate::Rgba;
use crate::WindowSize;

verus! {

/// The lifecycle of the frame controller: it starts without a graphics
/// backend, becomes ready at the first resume signal, and terminates on a
/// close request.
#[derive(Clone, Copy, PartialEq, Eq, Structural, Debug)]
pub enum Phase {
    Uninitialized,
    Ready,
    Terminated,
}

/// The control state of the render loop: its lifecycle phase, the window's
/// current physical size, the size the surface is configured to, and the
/// clear color each frame starts from.
#[derive(Clone, Copy, PartialEq, Eq, Structural, Debug)]
pub struct FrameController {
    pub phase: Phase,
    pub window_size: WindowSize,
    pub config_size: WindowSize,
    pub clear: Rgba,
}

/// The window events the core consumes. A pointer position arrives already
/// floored to whole device pixels.
#[derive(Clone, Copy, PartialEq, Eq, Structural, Debug)]
pub enum WindowEvent {
    Resized(WindowSize),
    RedrawRequested,
    CloseRequested,
    CursorMoved(u32, u32),
}

/// What the unverified shell must do against the graphics backend after an
/// event is handled.
#[derive(Clone, Copy, PartialEq, Eq, Structural, Debug)]
pub enum Action {
    /// Nothing to perform.
    Nothing,
    /// Reconfigure the surface to the given size, then request a redraw.
    ConfigureSurface(WindowSize),
    /// Request a redraw without reconfiguring (zero-area resize).
    RequestRedraw,
    /// Upload the pixel bytes, draw one frame cleared to the clear color,
    /// present it, and request the next redraw.
    RenderFrame,
    /// Leave the event loop.
    Exit,
}

/// The controller after a resume signal: the one-shot transition out of
/// `Uninitialized` adopts the window's size as surface configuration and
/// the fixed clear color; any later resume changes nothing.
pub open spec fn spec_resumed(c: FrameController, size: WindowSize) -> FrameController {
    if c.phase is Uninitialized {
        FrameController {
            phase: Phase::Ready,
            window_size: size,
            config_size: size,
            clear: Rgba { r: 0, g: 255, b: 0, a: 255 },
        }
    } else {
        c
    }
}

/// The controller after a resize event: the window size always follows the
/// event, the surface configuration only when the new area is non-zero.
pub open spec fn spec_resized(c: FrameController, size: WindowSize) -> FrameController {
    if c.phase is Ready {
        if size.width > 0 && size.height > 0 {
            FrameController { window_size: size, config_size: size, ..c }
        } else {
            FrameController { window_size: size, ..c }
        }
    } else {
        c
    }
}

/// The controller after a close request: a ready controller terminates.
pub open spec fn spec_closed(c: FrameController) -> FrameController {
    if c.phase is Ready {
        FrameController { phase: Phase::Terminated, ..c }
    } else {
        c
    }
}

/// How the controller state steps on one window event. Pointer moves and
/// redraw requests never change it.
pub open spec fn spec_event_controller(c: FrameController, e: WindowEvent) -> FrameController {
    match e {
        WindowEvent::Resized(s) => spec_resized(c, s),
        WindowEvent::CloseRequested => spec_closed(c),
        WindowEvent::RedrawRequested => c,
        WindowEvent::CursorMoved(_, _) => c,
    }
}

/// Which backend action one window event demands. Events reaching a
/// controller that is not `Ready` are dropped.
pub open spec fn spec_event_action(c: FrameController, e: WindowEvent) -> Action {
    if c.phase is Ready {
        match e {
            WindowEvent::Resized(s) => {
                if s.width > 0 && s.height > 0 {
                    Action::ConfigureSurface(s)
                } else {
                    Action::RequestRedraw
                }
            },
            WindowEvent::RedrawRequested => Action::RenderFrame,
            WindowEvent::CloseRequested => Action::Exit,
            WindowEvent::CursorMoved(_, _) => Action::Nothing,
        }
    } else {
        Action::Nothing
    }
}

/// The pixel bytes after one window event: a pointer move over a ready
/// controller paints the covered pixel cyan (alpha kept); every other event
/// leaves the buffer alone. A mapped coordinate on the tolerated right or
/// bottom edge lies outside the grid and paints nothing.
pub open spec fn spec_buffer_after(a: App, e: WindowEvent) -> Seq<u8> {
    match e {
        WindowEvent::CursorMoved(x, y) => {
            if a.controller.phase is Ready {
                match spec_map(x, y, a.controller.window_size, a.pixel_buffer.size) {
                    Option::Some(p) => {
                        if p.x < a.pixel_buffer.size.width && p.y < a.pixel_buffer.size.height {
                            spec_write_rgb(
                                a.pixel_buffer.pixels@,
                                a.pixel_buffer.size,
                                p,
                                0,
                                255,
                                255,
                            )
                        } else {
                            a.pixel_buffer.pixels@
                        }
                    },
                    Option::None => a.pixel_buffer.pixels@,
                }
            } else {
                a.pixel_buffer.pixels@
            }
        },
        _ => a.pixel_buffer.pixels@,
    }
}

/// The application: the pixel buffer being painted, and the frame
/// controller that keeps the surface in step with the window.
pub struct App {
    pub controller: FrameController,
    pub pixel_buffer: PixelBuffer,
}

impl App {
    /// The application invariant: a well-formed buffer with displayable
    /// (non-zero) dimensions.
    pub open spec fn wf(&self) -> bool {
        &&& self.pixel_buffer.wf()
        &&& self.pixel_buffer.size.width > 0
        &&& self.pixel_buffer.size.height > 0
    }

    /// Wraps a freshly filled buffer in an application whose controller has
    /// seen no lifecycle event yet.
    pub fn new(pixel_buffer: PixelBuffer) -> (r: App)
        requires
            pixel_buffer.wf(),
            pixel_buffer.size.width > 0,
            pixel_buffer.size.height > 0,
        ensures
            r.wf(),
            r.controller == (FrameController {
                phase: Phase::Uninitialized,
                window_size: WindowSize { width: 0, height: 0 },
                config_size: WindowSize { width: 0, height: 0 },
                clear: Rgba { r: 0, g: 0, b: 0, a: 0 },
            }),
            r.pixel_buffer == pixel_buffer,
    {
        App {
            controller: FrameController {
                phase: Phase::Uninitialized,
                window_size: WindowSize { width: 0, height: 0 },
                config_size: WindowSize { width: 0, height: 0 },
                clear: Rgba { r: 0, g: 0, b: 0, a: 0 },
            },
            pixel_buffer,
        }
    }

    /// Whether a resume signal must create the graphics backend: true only
    /// before the first resume.
    pub fn needs_backend(&self) -> (r: bool)
        ensures
            r == (self.controller.phase is Uninitialized),
    {
        match self.controller.phase {
            Phase::Uninitialized => true,
            _ => false,
        }
    }

    /// The resume transition. `create` tells the shell to build the one
    /// graphics backend; a resume signal on an already-ready application is
    /// a no-op and never asks for a second backend.
    pub fn resumed(&mut self, size: WindowSize) -> (create: bool)
        requires
            old(self).wf(),
        ensures
            final(self).wf(),
            final(self).controller == spec_resumed(old(self).controller, size),
            final(self).pixel_buffer == old(self).pixel_buffer,
            create == (old(self).controller.phase is Uninitialized),
    {
        match self.controller.phase {
            Phase::Uninitialized => {
                self.controller = FrameController {
                    phase: Phase::Ready,
                    window_size: size,
                    config_size: size,
                    clear: Rgba { r: 0, g: 255, b: 0, a: 255 },
                };
                true
            },
            _ => false,
        }
    }

    /// Dispatches one window event: steps the controller, paints on pointer
    /// moves, and returns the backend action the shell must perform.
    pub fn window_event(&mut self, event: WindowEvent) -> (a: Action)
        requires
            old(self).wf(),
        ensures
            final(self).wf(),
            final(self).controller == spec_event_controller(old(self).controller, event),
            final(self).pixel_buffer.size == old(self).pixel_buffer.size,
            final(self).pixel_buffer.pixels@ == spec_buffer_after(*old(self), event),
            a == spec_event_action(old(self).controller, event),
    {
        match self.controller.phase {
            Phase::Ready => {},
            _ => {
                return Action::Nothing;
            },
        }
        match event {
            WindowEvent::Resized(new_size) => {
                self.controller.window_size = new_size;
                if new_size.width > 0 && new_size.height > 0 {
                    self.controller.config_size = new_size;
                    Action::ConfigureSurface(new_size)
                } else {
                    Action::RequestRedraw
                }
            },
            WindowEvent::RedrawRequested => Action::RenderFrame,
            WindowEvent::CloseRequested => {
                self.controller.phase = Phase::Terminated;
                Action::Exit
            },
            WindowEvent::CursorMoved(x, y) => {
                let m = physical_to_pixel_pos(
                    x,
                    y,
                    self.controller.window_size,
                    self.pixel_buffer.size,
                );
                match m {
                    Option::Some(p) => {
                        let _ = self.pixel_buffer.write_rgb(p, 0, 255, 255);
                    },
                    Option::None => {},
                }
                Action::Nothing
            },
        }
    }
}

/// Resuming twice is the same as resuming once: the second signal finds the
/// controller ready, changes nothing, and — since the controller is no
/// longer uninitialized — never asks for a second graphics backend.
pub proof fn lemma_resumed_idempotent(c: FrameController, s1: WindowSize, s2: WindowSize)
    ensures
        spec_resumed(spec_resumed(c, s1), s2) == spec_resumed(c, s1),
        !(spec_resumed(c, s1).phase is Uninitialized),
{
}

/// A zero-area resize leaves the surface configuration (and the phase)
/// unchanged, and a redraw that follows it still renders.
pub proof fn lemma_zero_resize_keeps_config(c: FrameController, s: WindowSize)
    requires
        s.width == 0 || s.height == 0,
    ensures
        spec_resized(c, s).config_size == c.config_size,
        spec_resized(c, s).phase == c.phase,
        c.phase is Ready ==> spec_event_action(spec_resized(c, s), WindowEvent::RedrawRequested)
            == Action::RenderFrame,
{
}

} // verus!
