//! The render loop, as a machine that is told what happened and answers what
//! to do next.
//!
//! The loop waits on hardware and calls into the rendering engine; none of
//! that can happen here. So the one who runs the loop (the driver) performs
//! each [`Action`] and reports its outcome as an [`Event`], and
//! [`SlintBackend3DS::step`] decides. One iteration of a running loop is:
//!
//! 1. advance the engine's timers and animations by the time since start;
//! 2. ask the engine whether a redraw is needed, and if not go to 5;
//! 3. wait for the display's vertical blank;
//! 4. have the engine redraw into the frame buffer, copy the buffer's bytes
//!    to the display, and present them;
//! 5. poll the input controller for newly pressed buttons;
//! 6. set the quit flag if the quit button is among them;
//! 7. leave the loop if the quit flag is set, else start over.

use vstd::prelude::*;
use crate::color::PremultipliedColor;
use crate::frame_buffer::FrameBuffer;
use crate::frame_buffer::FrameError;
use crate::frame_buffer::Surface;
use crate::pixel::Pixel;
use crate::pixel::PixelEncoding;

verus! {

/// Width of the console's top screen, in pixels.
pub const TOP_DISPLAY_WIDTH: u32 = 400;

/// Height of the console's top screen, in pixels.
pub const TOP_DISPLAY_HEIGHT: u32 = 240;

/// Width of the console's bottom screen, in pixels.
pub const BOTTOM_DISPLAY_WIDTH: u32 = 320;

/// Height of the console's bottom screen, in pixels.
pub const BOTTOM_DISPLAY_HEIGHT: u32 = 240;

/// How the engine turns the image while it renders.
#[derive(Clone, Copy, Debug, PartialEq, Eq, Structural)]
pub enum Rotation {
    NoRotation,
    Rotate90,
    Rotate180,
    Rotate270,
}

/// What the loop is set up with, fixed for its lifetime.
#[derive(Clone, Copy, Debug, PartialEq, Eq, Structural)]
pub struct LoopConfig {
    /// The surface registered with the rendering engine.
    pub surface: Surface,
    /// The rotation the engine applies while rendering.
    pub rotation: Rotation,
    /// The buttons that end the loop, one bit each.
    pub quit_mask: u32,
}

/// The step of a running iteration whose outcome is awaited.
#[derive(Clone, Copy, Debug, PartialEq, Eq, Structural)]
pub enum Stage {
    /// The timers and animations are being advanced.
    Timers,
    /// The engine is being asked whether a redraw is needed.
    RedrawQuery,
    /// The vertical blank is being waited for.
    Vblank,
    /// The engine is redrawing into the frame buffer.
    Redraw,
    /// The frame buffer is being copied out and presented.
    Present,
    /// The input controller is being polled.
    Input,
}

/// Where the loop stands.
#[derive(Clone, Copy, Debug, PartialEq, Eq, Structural)]
pub enum Phase {
    /// The hardware handles are awaited.
    Initializing,
    /// The display is being configured and the surface registered.
    Configuring,
    /// The loop iterates.
    Running(Stage),
    /// The loop has ended, by a quit or by a fatal error.
    Terminated,
}

/// The loop's transient state.
#[derive(Clone, Copy, Debug, PartialEq, Eq, Structural)]
pub struct LoopState {
    /// The clock reading, in milliseconds, from which elapsed time counts.
    pub start_time: u64,
    /// Whether the loop has been asked to end.
    pub quit: bool,
    /// Whether the engine has been given its window.
    pub window_created: bool,
    pub phase: Phase,
}

/// What the driver reports.
#[derive(Clone, Copy, Debug, PartialEq, Eq, Structural)]
pub enum Event {
    /// The attempt to obtain the display and input controllers has ended;
    /// each flag tells whether that controller was obtained.
    HardwareAcquired { display: bool, input: bool },
    /// The display is configured and the surface registered.
    Configured,
    /// The timers and animations have been advanced.
    TimersAdvanced,
    /// The engine has said whether a redraw is needed.
    RedrawNeeded(bool),
    /// The vertical blank has begun.
    VblankReached,
    /// The engine has redrawn into the frame buffer.
    Rendered,
    /// This many bytes were copied to the display and presented.
    Presented { copied: usize },
    /// The input controller was polled; `pressed` holds one bit for each
    /// button pressed since the previous poll.
    InputPolled { pressed: u32 },
}

/// How the display is to be set up.
#[derive(Clone, Copy, Debug, PartialEq, Eq, Structural)]
pub struct DisplaySetup {
    /// The display's native pixel encoding.
    pub encoding: PixelEncoding,
    /// Whether the hardware swaps between two buffers of its own. The loop
    /// presents its own buffer, so this is always off.
    pub double_buffering: bool,
    /// The width to register with the rendering engine.
    pub width: u32,
    /// The height to register with the rendering engine.
    pub height: u32,
}

/// What the driver has to do next.
#[derive(Clone, Copy, Debug, PartialEq, Eq, Structural)]
pub enum Action {
    /// Set the display up and register the surface's size with the engine.
    Configure(DisplaySetup),
    /// Advance the engine's timers and animations to `elapsed` milliseconds
    /// since start.
    AdvanceTimers { elapsed: u64 },
    /// Ask the engine whether a redraw is needed.
    QueryRedraw,
    /// Block until the display signals vertical blank.
    WaitForVblank,
    /// Have the engine redraw into the frame buffer, with this row stride in
    /// pixels and this rotation.
    Redraw { stride: u32, rotation: Rotation },
    /// Copy exactly `len` bytes of the frame buffer to the display and
    /// present them.
    Present { len: usize },
    /// Poll the input controller for newly pressed buttons.
    PollInput,
    /// Return from the loop.
    Exit,
}

/// A fatal error of the backend. None of them is recoverable.
#[derive(Clone, Copy, Debug, PartialEq, Eq, Structural)]
pub enum BackendError {
    /// The display controller could not be obtained.
    DisplayUnavailable,
    /// The input controller could not be obtained.
    InputUnavailable,
    /// The loop was started before the engine was given its window.
    NoWindow,
    /// The frame buffer does not have the surface's dimensions and encoding.
    SurfaceMismatch,
    /// The number of bytes copied to the display is not the frame buffer's
    /// length.
    LengthMismatch,
    /// The driver reported something the loop was not waiting for.
    UnexpectedEvent,
    /// A backend has already been installed.
    AlreadyInitialized,
}

/// The milliseconds elapsed at clock reading `now` since `start_time`; zero
/// for a reading before the start.
pub open spec fn spec_elapsed(start_time: u64, now: u64) -> u64 {
    if now >= start_time {
        (now - start_time) as u64
    } else {
        0
    }
}

/// The row stride, in pixels, of a buffer rendered with the given rotation:
/// a quarter turn swaps the roles of width and height.
pub open spec fn spec_stride(surface: Surface, rotation: Rotation) -> u32 {
    match rotation {
        Rotation::NoRotation => surface.width,
        Rotation::Rotate90 => surface.height,
        Rotation::Rotate180 => surface.width,
        Rotation::Rotate270 => surface.height,
    }
}

/// The set-up that a configuration asks of the display.
pub open spec fn spec_display_setup(config: LoopConfig) -> DisplaySetup {
    DisplaySetup {
        encoding: config.surface.encoding,
        double_buffering: false,
        width: config.surface.width,
        height: config.surface.height,
    }
}

/// Whether one of the quit buttons is among the newly pressed ones.
pub open spec fn spec_quit_pressed(config: LoopConfig, pressed: u32) -> bool {
    pressed & config.quit_mask != 0
}

/// The loop's state after a fatal error.
pub open spec fn spec_failed(state: LoopState) -> LoopState {
    LoopState { phase: Phase::Terminated, ..state }
}

/// The loop's state once it awaits the outcome of `stage`.
pub open spec fn spec_awaiting(state: LoopState, stage: Stage) -> LoopState {
    LoopState { phase: Phase::Running(stage), ..state }
}

/// The loop's decision: the state after `event`, reported at clock reading
/// `now`, and the action it asks for or the error it ends with.
pub open spec fn spec_step(config: LoopConfig, state: LoopState, event: Event, now: u64) -> (
    LoopState,
    Result<Action, BackendError>,
) {
    match (state.phase, event) {
        (Phase::Initializing, Event::HardwareAcquired { display, input }) => {
            if !display {
                (spec_failed(state), Err(BackendError::DisplayUnavailable))
            } else if !input {
                (spec_failed(state), Err(BackendError::InputUnavailable))
            } else if !state.window_created {
                (spec_failed(state), Err(BackendError::NoWindow))
            } else {
                (
                    LoopState { phase: Phase::Configuring, ..state },
                    Ok(Action::Configure(spec_display_setup(config))),
                )
            }
        },
        (Phase::Configuring, Event::Configured) => (
            spec_awaiting(state, Stage::Timers),
            Ok(Action::AdvanceTimers { elapsed: spec_elapsed(state.start_time, now) }),
        ),
        (Phase::Running(Stage::Timers), Event::TimersAdvanced) => (
            spec_awaiting(state, Stage::RedrawQuery),
            Ok(Action::QueryRedraw),
        ),
        (Phase::Running(Stage::RedrawQuery), Event::RedrawNeeded(needed)) => {
            if needed {
                (spec_awaiting(state, Stage::Vblank), Ok(Action::WaitForVblank))
            } else {
                (spec_awaiting(state, Stage::Input), Ok(Action::PollInput))
            }
        },
        (Phase::Running(Stage::Vblank), Event::VblankReached) => (
            spec_awaiting(state, Stage::Redraw),
            Ok(
                Action::Redraw {
                    stride: spec_stride(config.surface, config.rotation),
                    rotation: config.rotation,
                },
            ),
        ),
        (Phase::Running(Stage::Redraw), Event::Rendered) => (
            spec_awaiting(state, Stage::Present),
            Ok(Action::Present { len: config.surface.spec_byte_len() as usize }),
        ),
        (Phase::Running(Stage::Present), Event::Presented { copied }) => {
            if copied == config.surface.spec_byte_len() {
                (spec_awaiting(state, Stage::Input), Ok(Action::PollInput))
            } else {
                (spec_failed(state), Err(BackendError::LengthMismatch))
            }
        },
        (Phase::Running(Stage::Input), Event::InputPolled { pressed }) => {
            if state.quit || spec_quit_pressed(config, pressed) {
                (LoopState { quit: true, phase: Phase::Terminated, ..state }, Ok(Action::Exit))
            } else {
                (
                    spec_awaiting(state, Stage::Timers),
                    Ok(Action::AdvanceTimers { elapsed: spec_elapsed(state.start_time, now) }),
                )
            }
        },
        _ => (spec_failed(state), Err(BackendError::UnexpectedEvent)),
    }
}

/// The state of a loop that has not begun: nothing asked for, no window yet.
pub open spec fn spec_initial_state(start_time: u64) -> LoopState {
    LoopState { start_time, quit: false, window_created: false, phase: Phase::Initializing }
}

impl BackendError {
    /// The diagnostic that describes the error.
    pub open spec fn spec_message(self) -> Seq<char> {
        match self {
            BackendError::DisplayUnavailable => "Couldn't obtain GFX Controller"@,
            BackendError::InputUnavailable => "Couldn't obtain HID Controller"@,
            BackendError::NoWindow => "No window was created before the event loop ran"@,
            BackendError::SurfaceMismatch => "Frame buffer does not match the surface"@,
            BackendError::LengthMismatch => "Copy length is not the frame buffer's length"@,
            BackendError::UnexpectedEvent => "Event does not answer the pending action"@,
            BackendError::AlreadyInitialized => "Slint 3DS backend already initialized."@,
        }
    }

    /// Returns the diagnostic that describes the error.
    pub fn message(&self) -> (text: &'static str)
        ensures
            text@ == self.spec_message(),
    {
        match self {
            BackendError::DisplayUnavailable => "Couldn't obtain GFX Controller",
            BackendError::InputUnavailable => "Couldn't obtain HID Controller",
            BackendError::NoWindow => "No window was created before the event loop ran",
            BackendError::SurfaceMismatch => "Frame buffer does not match the surface",
            BackendError::LengthMismatch => "Copy length is not the frame buffer's length",
            BackendError::UnexpectedEvent => "Event does not answer the pending action",
            BackendError::AlreadyInitialized => "Slint 3DS backend already initialized.",
        }
    }
}

/// The backend: the render loop's state, together with the frame buffer that
/// it alone owns.
pub struct SlintBackend3DS {
    state: LoopState,
    rotation: Rotation,
    quit_mask: u32,
    frame: FrameBuffer,
}

impl SlintBackend3DS {
    /// The loop's state.
    pub closed spec fn spec_state(self) -> LoopState {
        self.state
    }

    /// What the loop was set up with. Its surface is the frame buffer's.
    pub closed spec fn spec_config(self) -> LoopConfig {
        LoopConfig {
            surface: self.frame.spec_surface(),
            rotation: self.rotation,
            quit_mask: self.quit_mask,
        }
    }

    /// The frame buffer.
    pub closed spec fn spec_frame(self) -> FrameBuffer {
        self.frame
    }

    /// Makes a backend that takes `frame` as its own, with elapsed time
    /// counting from `start_time`. Refuses a frame buffer that does not have
    /// the dimensions and the encoding of the configured surface.
    pub fn new(config: LoopConfig, frame: FrameBuffer, start_time: u64) -> (made: Result<
        Self,
        BackendError,
    >)
        ensures
            made is Ok <==> frame.spec_surface() == config.surface,
            made matches Err(error) ==> error == BackendError::SurfaceMismatch,
            made matches Ok(backend) ==> {
                &&& backend.spec_config() == config
                &&& backend.spec_state() == spec_initial_state(start_time)
                &&& backend.spec_frame() == frame
            },
    {
        if !frame.matches(&config.surface) {
            return Err(BackendError::SurfaceMismatch);
        }
        Ok(
            SlintBackend3DS {
                state: LoopState {
                    start_time,
                    quit: false,
                    window_created: false,
                    phase: Phase::Initializing,
                },
                rotation: config.rotation,
                quit_mask: config.quit_mask,
                frame,
            },
        )
    }

    /// Returns the loop's state.
    pub fn state(&self) -> (state: LoopState)
        ensures
            state == self.spec_state(),
    {
        self.state
    }

    /// Returns what the loop was set up with.
    pub fn config(&self) -> (config: LoopConfig)
        ensures
            config == self.spec_config(),
    {
        LoopConfig {
            surface: self.frame.surface(),
            rotation: self.rotation,
            quit_mask: self.quit_mask,
        }
    }

    /// Returns the frame buffer, for reading.
    pub fn frame(&self) -> (frame: &FrameBuffer)
        ensures
            *frame == self.spec_frame(),
    {
        &self.frame
    }

    /// Records that the engine has been given its window. Nothing else
    /// changes.
    pub fn create_window_adapter(&mut self)
        ensures
            final(self).spec_state() == (LoopState {
                window_created: true,
                ..old(self).spec_state()
            }),
            final(self).spec_config() == old(self).spec_config(),
            final(self).spec_frame() == old(self).spec_frame(),
    {
        self.state.window_created = true;
    }

    /// Returns the milliseconds elapsed at clock reading `now` since the
    /// backend's start.
    pub fn duration_since_start(&self, now: u64) -> (elapsed: u64)
        ensures
            elapsed == spec_elapsed(self.spec_state().start_time, now),
    {
        elapsed_between(self.state.start_time, now)
    }

    /// Asks the loop to end. The request is honoured after the next input
    /// poll; until then the iteration under way goes on.
    pub fn request_quit(&mut self)
        ensures
            final(self).spec_state() == (LoopState { quit: true, ..old(self).spec_state() }),
            final(self).spec_config() == old(self).spec_config(),
            final(self).spec_frame() == old(self).spec_frame(),
    {
        self.state.quit = true;
    }

    /// Takes the driver's report of what happened, at clock reading `now`,
    /// and answers what it has to do next. An event that does not answer
    /// the pending action, and any failure it reports, ends the loop with an
    /// error.
    pub fn step(&mut self, event: Event, now: u64) -> (answer: Result<Action, BackendError>)
        ensures
            (final(self).spec_state(), answer) == spec_step(
                old(self).spec_config(),
                old(self).spec_state(),
                event,
                now,
            ),
            final(self).spec_config() == old(self).spec_config(),
            final(self).spec_frame() == old(self).spec_frame(),
    {
        let config: LoopConfig = self.config();
        let len: usize = self.frame.byte_len();
        let (state, answer) = decide(config, len, self.state, event, now);
        self.state = state;
        answer
    }

    /// Writes `pixel` to column `x` of row `y` of the frame buffer.
    pub fn set_pixel(&mut self, x: u32, y: u32, pixel: Pixel) -> (done: Result<(), FrameError>)
        ensures
            final(self).spec_state() == old(self).spec_state(),
            final(self).spec_config() == old(self).spec_config(),
            done == FrameBuffer::spec_set_pixel_outcome(old(self).spec_config().surface, x, y, pixel),
            done is Err ==> final(self).spec_frame()@ == old(self).spec_frame()@,
            done is Ok ==> final(self).spec_frame()@ == FrameBuffer::spec_stored(
                old(self).spec_frame()@,
                old(self).spec_config().surface.spec_offset(x, y),
                pixel,
            ),
            done is Ok ==> final(self).spec_frame().spec_pixels() == old(
                self,
            ).spec_frame().spec_pixels().update(
                old(self).spec_config().surface.spec_index(x, y),
                pixel,
            ),
    {
        self.frame.set_pixel(x, y, pixel)
    }

    /// Composites `color` over the pixel in column `x` of row `y` of the
    /// frame buffer.
    pub fn blend_pixel(&mut self, x: u32, y: u32, color: PremultipliedColor) -> (done: Result<
        (),
        FrameError,
    >)
        ensures
            final(self).spec_state() == old(self).spec_state(),
            final(self).spec_config() == old(self).spec_config(),
            done is Ok <==> old(self).spec_config().surface.spec_contains(x, y),
            done is Err ==> done == Err::<(), FrameError>(FrameError::OutOfBounds),
            done is Err ==> final(self).spec_frame()@ == old(self).spec_frame()@,
            done is Ok ==> final(self).spec_frame()@ == FrameBuffer::spec_stored(
                old(self).spec_frame()@,
                old(self).spec_config().surface.spec_offset(x, y),
                old(self).spec_frame().spec_pixels()[old(self).spec_config().surface.spec_index(
                    x,
                    y,
                )].spec_blend(color),
            ),
            done is Ok ==> final(self).spec_frame().spec_pixels() == old(
                self,
            ).spec_frame().spec_pixels().update(
                old(self).spec_config().surface.spec_index(x, y),
                old(self).spec_frame().spec_pixels()[old(self).spec_config().surface.spec_index(
                    x,
                    y,
                )].spec_blend(color),
            ),
    {
        self.frame.blend_pixel(x, y, color)
    }

    /// Replaces the frame buffer's bytes by `rendered`, the image the engine
    /// has drawn, taken verbatim. Refuses an image whose length is not the
    /// frame buffer's, and then changes nothing.
    pub fn load_frame(&mut self, rendered: &[u8]) -> (done: Result<(), BackendError>)
        ensures
            final(self).spec_state() == old(self).spec_state(),
            final(self).spec_config() == old(self).spec_config(),
            done is Ok <==> rendered@.len() == old(self).spec_config().surface.spec_byte_len(),
            done matches Err(error) ==> error == BackendError::LengthMismatch,
            done is Err ==> final(self).spec_frame()@ == old(self).spec_frame()@,
            done is Ok ==> final(self).spec_frame()@ == rendered@,
    {
        match self.frame.copy_from(rendered) {
            Ok(()) => Ok(()),
            Err(_) => Err(BackendError::LengthMismatch),
        }
    }

    /// Copies the frame buffer's bytes verbatim to the display's memory and
    /// returns their number. Refuses memory whose length is not the frame
    /// buffer's, and then changes nothing.
    pub fn present_to(&self, display: &mut [u8]) -> (copied: Result<usize, BackendError>)
        ensures
            copied is Ok <==> old(display)@.len() == self.spec_config().surface.spec_byte_len(),
            copied matches Err(error) ==> error == BackendError::LengthMismatch && final(display)@
                == old(display)@,
            copied matches Ok(len) ==> len == self.spec_config().surface.spec_byte_len()
                && final(display)@ == self.spec_frame()@,
    {
        match self.frame.copy_to(display) {
            Ok(()) => Ok(self.frame.byte_len()),
            Err(_) => Err(BackendError::LengthMismatch),
        }
    }
}

/// Returns the milliseconds elapsed at clock reading `now` since
/// `start_time`.
pub fn elapsed_between(start_time: u64, now: u64) -> (elapsed: u64)
    ensures
        elapsed == spec_elapsed(start_time, now),
{
    if now >= start_time {
        now - start_time
    } else {
        0
    }
}

/// Returns the row stride, in pixels, of a buffer rendered with the given
/// rotation.
pub fn stride_of(surface: Surface, rotation: Rotation) -> (stride: u32)
    ensures
        stride == spec_stride(surface, rotation),
{
    match rotation {
        Rotation::NoRotation => surface.width,
        Rotation::Rotate90 => surface.height,
        Rotation::Rotate180 => surface.width,
        Rotation::Rotate270 => surface.height,
    }
}

/// Decides one step of the loop. `byte_len` is the frame buffer's length.
fn decide(config: LoopConfig, byte_len: usize, state: LoopState, event: Event, now: u64) -> (out: (
    LoopState,
    Result<Action, BackendError>,
))
    requires
        byte_len == config.surface.spec_byte_len(),
    ensures
        out == spec_step(config, state, event, now),
{
    let failed: LoopState = LoopState { phase: Phase::Terminated, ..state };
    match (state.phase, event) {
        (Phase::Initializing, Event::HardwareAcquired { display, input }) => {
            if !display {
                (failed, Err(BackendError::DisplayUnavailable))
            } else if !input {
                (failed, Err(BackendError::InputUnavailable))
            } else if !state.window_created {
                (failed, Err(BackendError::NoWindow))
            } else {
                (
                    LoopState { phase: Phase::Configuring, ..state },
                    Ok(
                        Action::Configure(
                            DisplaySetup {
                                encoding: config.surface.encoding,
                                double_buffering: false,
                                width: config.surface.width,
                                height: config.surface.height,
                            },
                        ),
                    ),
                )
            }
        },
        (Phase::Configuring, Event::Configured) => (
            LoopState { phase: Phase::Running(Stage::Timers), ..state },
            Ok(Action::AdvanceTimers { elapsed: elapsed_between(state.start_time, now) }),
        ),
        (Phase::Running(Stage::Timers), Event::TimersAdvanced) => (
            LoopState { phase: Phase::Running(Stage::RedrawQuery), ..state },
            Ok(Action::QueryRedraw),
        ),
        (Phase::Running(Stage::RedrawQuery), Event::RedrawNeeded(needed)) => {
            if needed {
                (
                    LoopState { phase: Phase::Running(Stage::Vblank), ..state },
                    Ok(Action::WaitForVblank),
                )
            } else {
                (LoopState { phase: Phase::Running(Stage::Input), ..state }, Ok(Action::PollInput))
            }
        },
        (Phase::Running(Stage::Vblank), Event::VblankReached) => (
            LoopState { phase: Phase::Running(Stage::Redraw), ..state },
            Ok(
                Action::Redraw {
                    stride: stride_of(config.surface, config.rotation),
                    rotation: config.rotation,
                },
            ),
        ),
        (Phase::Running(Stage::Redraw), Event::Rendered) => (
            LoopState { phase: Phase::Running(Stage::Present), ..state },
            Ok(Action::Present { len: byte_len }),
        ),
        (Phase::Running(Stage::Present), Event::Presented { copied }) => {
            if copied == byte_len {
                (LoopState { phase: Phase::Running(Stage::Input), ..state }, Ok(Action::PollInput))
            } else {
                (failed, Err(BackendError::LengthMismatch))
            }
        },
        (Phase::Running(Stage::Input), Event::InputPolled { pressed }) => {
            if state.quit || pressed & config.quit_mask != 0 {
                (LoopState { quit: true, phase: Phase::Terminated, ..state }, Ok(Action::Exit))
            } else {
                (
                    LoopState { phase: Phase::Running(Stage::Timers), ..state },
                    Ok(Action::AdvanceTimers { elapsed: elapsed_between(state.start_time, now) }),
                )
            }
        },
        _ => (failed, Err(BackendError::UnexpectedEvent)),
    }
}

/// Whether the loop awaits the outcome of one of the drawing steps: the
/// vertical-blank wait, the redraw, or the copy to the display.
pub open spec fn spec_is_drawing(phase: Phase) -> bool {
    phase == Phase::Running(Stage::Vblank) || phase == Phase::Running(Stage::Redraw) || phase
        == Phase::Running(Stage::Present)
}

/// Whether an answer asks for one of the drawing steps.
pub open spec fn spec_asks_to_draw(answer: Result<Action, BackendError>) -> bool {
    answer matches Ok(action) && (action is WaitForVblank || action is Redraw || action is Present)
}

/// The loop's state after a series of reports, each with its clock reading.
pub open spec fn spec_run(config: LoopConfig, state: LoopState, reports: Seq<(Event, u64)>) -> LoopState
    decreases reports.len(),
{
    if reports.len() == 0 {
        state
    } else {
        spec_step(
            config,
            spec_run(config, state, reports.drop_last()),
            reports.last().0,
            reports.last().1,
        ).0
    }
}

/// The loop's answer to report number `index` of a series.
pub open spec fn spec_answer(
    config: LoopConfig,
    state: LoopState,
    reports: Seq<(Event, u64)>,
    index: int,
) -> Result<Action, BackendError> {
    spec_step(
        config,
        spec_run(config, state, reports.take(index)),
        reports[index].0,
        reports[index].1,
    ).1
}

/// Elapsed time follows the clock: it never runs backwards, and from the
/// start on it advances exactly as the clock does.
pub proof fn lemma_elapsed_follows_clock(start_time: u64, earlier: u64, later: u64)
    requires
        earlier <= later,
    ensures
        spec_elapsed(start_time, earlier) <= spec_elapsed(start_time, later),
        start_time <= earlier ==> spec_elapsed(start_time, later) - spec_elapsed(
            start_time,
            earlier,
        ) == later - earlier,
{
}

/// The loop ends by a quit only in answer to an input poll: a quit requested
/// earlier waits for that poll, and the iteration under way is completed.
pub proof fn lemma_quit_takes_effect_at_input_poll(
    config: LoopConfig,
    state: LoopState,
    event: Event,
    now: u64,
)
    ensures
        spec_step(config, state, event, now).1 == Ok::<Action, BackendError>(Action::Exit) <==> {
            &&& state.phase == Phase::Running(Stage::Input)
            &&& event matches Event::InputPolled { pressed }
            &&& state.quit || spec_quit_pressed(config, pressed)
        },
{
}

/// A step never moves the start of time, never takes the window back, and
/// never withdraws a quit request.
pub proof fn lemma_step_keeps_requests(config: LoopConfig, state: LoopState, event: Event, now: u64)
    ensures
        spec_step(config, state, event, now).0.start_time == state.start_time,
        spec_step(config, state, event, now).0.window_created == state.window_created,
        state.quit ==> spec_step(config, state, event, now).0.quit,
{
}

/// A loop that has ended stays ended: whatever is reported to it is refused,
/// and nothing changes.
pub proof fn lemma_terminated_is_final(config: LoopConfig, state: LoopState, event: Event, now: u64)
    requires
        state.phase == Phase::Terminated,
    ensures
        spec_step(config, state, event, now) == (
            state,
            Err::<Action, BackendError>(BackendError::UnexpectedEvent),
        ),
{
}

/// When the engine says that no redraw is needed, the loop goes straight to
/// the input poll: it asks neither for the vertical-blank wait nor for the
/// redraw, and nothing but the awaited step changes.
pub proof fn lemma_idle_step_polls_input(config: LoopConfig, state: LoopState, now: u64)
    requires
        state.phase == Phase::Running(Stage::RedrawQuery),
    ensures
        spec_step(config, state, Event::RedrawNeeded(false), now) == (
            spec_awaiting(state, Stage::Input),
            Ok::<Action, BackendError>(Action::PollInput),
        ),
{
}

/// One iteration in which nothing is dirty: the timers are advanced, the
/// engine is asked, the input is polled, and the loop either starts the next
/// iteration or, if a quit was requested or the quit button pressed, ends.
pub proof fn lemma_idle_iteration(
    config: LoopConfig,
    state: LoopState,
    pressed: u32,
    now: u64,
)
    requires
        state.phase == Phase::Running(Stage::Timers),
    ensures
        ({
            let reports = seq![
                (Event::TimersAdvanced, now),
                (Event::RedrawNeeded(false), now),
                (Event::InputPolled { pressed }, now),
            ];
            let quits = state.quit || spec_quit_pressed(config, pressed);
            &&& spec_answer(config, state, reports, 0) == Ok::<Action, BackendError>(
                Action::QueryRedraw,
            )
            &&& spec_answer(config, state, reports, 1) == Ok::<Action, BackendError>(
                Action::PollInput,
            )
            &&& quits ==> spec_answer(config, state, reports, 2) == Ok::<Action, BackendError>(
                Action::Exit,
            ) && spec_run(config, state, reports).phase == Phase::Terminated
            &&& !quits ==> spec_answer(config, state, reports, 2) == Ok::<Action, BackendError>(
                Action::AdvanceTimers { elapsed: spec_elapsed(state.start_time, now) },
            ) && spec_run(config, state, reports) == state
        }),
{
    let reports = seq![
        (Event::TimersAdvanced, now),
        (Event::RedrawNeeded(false), now),
        (Event::InputPolled { pressed }, now),
    ];
    let first = spec_step(config, state, Event::TimersAdvanced, now).0;
    let second = spec_step(config, first, Event::RedrawNeeded(false), now).0;
    let third = spec_step(config, second, Event::InputPolled { pressed }, now).0;
    reveal_with_fuel(spec_run, 4);
    assert(reports.take(0) =~= Seq::<(Event, u64)>::empty());
    assert(reports.take(1) =~= seq![(Event::TimersAdvanced, now)]);
    assert(reports.take(1).drop_last() =~= Seq::<(Event, u64)>::empty());
    assert(reports.take(2) =~= seq![
        (Event::TimersAdvanced, now),
        (Event::RedrawNeeded(false), now),
    ]);
    assert(reports.take(2).drop_last() =~= reports.take(1));
    assert(reports.drop_last() =~= reports.take(2));
    assert(spec_run(config, state, reports.take(0)) == state);
    assert(spec_run(config, state, reports.take(1)) == first);
    assert(spec_run(config, state, reports.take(2)) == second);
    assert(spec_run(config, state, reports) == third);
}

/// While the engine never says that a redraw is needed, the loop never asks
/// for the vertical-blank wait, the redraw or the copy to the display,
/// however long it runs and whatever else is reported to it.
pub proof fn lemma_idle_loop_never_draws(
    config: LoopConfig,
    state: LoopState,
    reports: Seq<(Event, u64)>,
    index: int,
)
    requires
        !spec_is_drawing(state.phase),
        forall|k: int| 0 <= k < reports.len() ==> (#[trigger] reports[k]).0 != Event::RedrawNeeded(true),
        0 <= index < reports.len(),
    ensures
        !spec_asks_to_draw(spec_answer(config, state, reports, index)),
        !spec_is_drawing(spec_run(config, state, reports.take(index + 1)).phase),
{
    lemma_idle_run_stays_idle(config, state, reports.take(index));
    assert(reports.take(index + 1).drop_last() =~= reports.take(index));
    assert(reports.take(index + 1).last() == reports[index]);
}

/// While the engine never says that a redraw is needed, the loop never
/// comes to await a drawing step.
proof fn lemma_idle_run_stays_idle(config: LoopConfig, state: LoopState, reports: Seq<(Event, u64)>)
    requires
        !spec_is_drawing(state.phase),
        forall|k: int| 0 <= k < reports.len() ==> (#[trigger] reports[k]).0 != Event::RedrawNeeded(true),
    ensures
        !spec_is_drawing(spec_run(config, state, reports).phase),
    decreases reports.len(),
{
    if reports.len() > 0 {
        lemma_idle_run_stays_idle(config, state, reports.drop_last());
        assert(reports.last() == reports[reports.len() - 1]);
    }
}

} // verus!
