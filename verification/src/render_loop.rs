//! The render loop as a state machine: one step per frame, from the pending
//! input and a clock reading to the actions of that frame.

use vstd::prelude::*;
use crate::clock::phase_between;
use crate::clock::FrameClock;
use crate::clock::Timestamp;
use crate::clock::NANOS_PER_SEC;
use crate::color::Rgb;
use crate::color::TextureColor;
use crate::input::exit_requested;
use crate::input::poll_input;
use crate::input::InputEvent;
use crate::texture::TEXTURE_SIZE;

verus! {

/// Frames per second that the loop never exceeds.
pub const FRAMES_PER_SECOND: u32 = 60;

/// The pause that ends every frame, in nanoseconds: a sixtieth of a second,
/// rounded down. It is the same after every frame, however long the drawing
/// took.
pub const FRAME_DELAY_NANOS: u32 = NANOS_PER_SEC / FRAMES_PER_SECOND;

/// Where the loop stands.
#[derive(Clone, Copy, Debug, PartialEq, Eq, Structural)]
pub enum LoopState {
    /// Frames are being drawn.
    Running,
    /// The user asked to quit. The loop never leaves this state.
    Terminated,
}

/// A rectangle of the window, from its top-left corner.
#[derive(Clone, Copy, Debug, PartialEq, Eq, Structural)]
pub struct Area {
    pub x: i32,
    pub y: i32,
    pub width: u32,
    pub height: u32,
}

/// One of the textures that live as long as the program.
#[derive(Clone, Copy, Debug, PartialEq, Eq, Structural)]
pub enum TextureId {
    /// The square of the given colour.
    Square(TextureColor),
    /// The picture that fills the window.
    Background,
}

/// One thing for the program to do, in the order given.
#[derive(Clone, Copy, Debug, PartialEq, Eq)]
pub enum Action {
    /// Fill the whole back buffer with one colour.
    Clear { color: Rgb },
    /// Draw all of a texture into `dest`, or stretched over the whole window
    /// where `dest` is `None`.
    Copy { texture: TextureId, dest: Option<Area> },
    /// Show the composed frame.
    Present,
    /// Pause for this many nanoseconds.
    Sleep { nanos: u32 },
}

/// The colour that the back buffer is cleared to: red. It shows only where
/// the background picture leaves the window uncovered.
pub open spec fn clear_color() -> Rgb {
    Rgb { r: 255, g: 0, b: 0 }
}

/// The window's top-left corner, at the square's own size.
pub open spec fn square_area() -> Area {
    Area { x: 0, y: 0, width: TEXTURE_SIZE, height: TEXTURE_SIZE }
}

/// The actions of one frame, in order: clear to red, draw the square of the
/// phase unscaled in the top-left corner, draw the background picture
/// stretched over the whole window, present, pause. The picture comes after
/// the square and so lies over it.
pub open spec fn frame_actions(green: bool) -> Seq<Action> {
    seq![
        Action::Clear { color: clear_color() },
        Action::Copy {
            texture: TextureId::Square(TextureColor::spec_for_phase(green)),
            dest: Some(square_area()),
        },
        Action::Copy { texture: TextureId::Background, dest: None },
        Action::Present,
        Action::Sleep { nanos: FRAME_DELAY_NANOS },
    ]
}

/// The state after a frame whose pending input was `events`: still running
/// only if the loop was running and no event asks to end.
pub open spec fn next_state(state: LoopState, events: Seq<InputEvent>) -> LoopState {
    if state is Running && !exit_requested(events) {
        LoopState::Running
    } else {
        LoopState::Terminated
    }
}

/// What one step asks the program to do: a whole frame while the loop goes
/// on running, nothing otherwise.
pub open spec fn step_actions(
    state: LoopState,
    events: Seq<InputEvent>,
    start: Timestamp,
    now: Option<Timestamp>,
) -> Seq<Action> {
    if next_state(state, events) is Running {
        frame_actions(phase_between(start, now))
    } else {
        Seq::empty()
    }
}

/// The state after a run of frames, given the input that was pending at
/// each of them.
pub open spec fn state_after(state: LoopState, frames: Seq<Seq<InputEvent>>) -> LoopState
    decreases frames.len(),
{
    if frames.len() == 0 {
        state
    } else {
        next_state(state_after(state, frames.drop_last()), frames.last())
    }
}

/// Frames that fit into a span of time when each takes its pause and nothing
/// more.
pub open spec fn frames_within(span_nanos: nat) -> nat {
    span_nanos / (FRAME_DELAY_NANOS as nat)
}

/// The render loop: its state, and the clock that selects the square.
#[derive(Clone, Copy, Debug, PartialEq, Eq, Structural)]
pub struct RenderLoop {
    state: LoopState,
    clock: FrameClock,
}

impl RenderLoop {
    /// Where the loop stands.
    pub closed spec fn spec_state(&self) -> LoopState {
        self.state
    }

    /// The clock that was started with the loop.
    pub closed spec fn spec_clock(&self) -> FrameClock {
        self.clock
    }

    /// A running loop whose clock starts at `start`.
    pub fn new(start: Timestamp) -> (render_loop: RenderLoop)
        ensures
            render_loop.spec_state() is Running,
            render_loop.spec_clock().spec_start() == start,
    {
        RenderLoop { state: LoopState::Running, clock: FrameClock::new(start) }
    }

    /// Where the loop stands.
    #[verifier::when_used_as_spec(spec_state)]
    pub fn state(&self) -> (state: LoopState)
        ensures
            state == self.spec_state(),
    {
        self.state
    }

    /// The clock that was started with the loop.
    #[verifier::when_used_as_spec(spec_clock)]
    pub fn clock(&self) -> (clock: FrameClock)
        ensures
            clock == self.spec_clock(),
    {
        self.clock
    }

    /// Whether another frame is to be started.
    pub fn is_running(&self) -> (running: bool)
        ensures
            running == (self.spec_state() is Running),
    {
        match self.state {
            LoopState::Running => true,
            LoopState::Terminated => false,
        }
    }

    /// One iteration. `events` are all the input events that were pending,
    /// `now` is the clock reading of this frame (`None` where the clock could
    /// not be read).
    ///
    /// Input comes first: where an event asks to end, the loop becomes
    /// terminated and the step asks for nothing, so that nothing more is
    /// drawn or presented. A terminated loop stays so. Otherwise the step
    /// returns the frame's actions, to be carried out in order.
    pub fn step(&mut self, events: &[InputEvent], now: Option<Timestamp>) -> (actions: Vec<Action>)
        ensures
            final(self).spec_state() == next_state(old(self).spec_state(), events@),
            final(self).spec_clock() == old(self).spec_clock(),
            actions@ == step_actions(
                old(self).spec_state(),
                events@,
                old(self).spec_clock().spec_start(),
                now,
            ),
    {
        let terminate = poll_input(events);
        if terminate || !self.is_running() {
            self.state = LoopState::Terminated;
            return Vec::new();
        }
        let green = self.clock.display_phase(now);
        let mut actions: Vec<Action> = Vec::new();
        actions.push(Action::Clear { color: Rgb { r: 255, g: 0, b: 0 } });
        actions.push(
            Action::Copy {
                texture: TextureId::Square(TextureColor::for_phase(green)),
                dest: Some(Area { x: 0, y: 0, width: TEXTURE_SIZE, height: TEXTURE_SIZE }),
            },
        );
        actions.push(Action::Copy { texture: TextureId::Background, dest: None });
        actions.push(Action::Present);
        actions.push(Action::Sleep { nanos: FRAME_DELAY_NANOS });
        assert(actions@ =~= frame_actions(green));
        actions
    }
}

/// Once an event of a frame asks to end, that frame draws and presents
/// nothing and leaves the loop terminated, whatever the state before and
/// whatever the clock shows.
pub proof fn lemma_exit_request_ends_the_loop(
    state: LoopState,
    events: Seq<InputEvent>,
    start: Timestamp,
    now: Option<Timestamp>,
)
    requires
        exit_requested(events),
    ensures
        step_actions(state, events, start, now) == Seq::<Action>::empty(),
        next_state(state, events) is Terminated,
{
}

/// A terminated loop never runs again and never asks for an action.
pub proof fn lemma_terminated_is_final(
    events: Seq<InputEvent>,
    start: Timestamp,
    now: Option<Timestamp>,
)
    ensures
        next_state(LoopState::Terminated, events) is Terminated,
        step_actions(LoopState::Terminated, events, start, now) == Seq::<Action>::empty(),
{
}

/// Over a run of frames: from the frame in which an event asks to end, no
/// frame draws or presents anything, and the loop is terminated after each
/// of them. `frames` holds the input of each frame, `asked` is the frame
/// with the request and `later` is that frame or any one after it.
pub proof fn lemma_no_frame_after_exit_request(
    state: LoopState,
    frames: Seq<Seq<InputEvent>>,
    asked: int,
    later: int,
    start: Timestamp,
    now: Option<Timestamp>,
)
    requires
        0 <= asked <= later < frames.len(),
        exit_requested(frames[asked]),
    ensures
        step_actions(state_after(state, frames.take(later)), frames[later], start, now)
            == Seq::<Action>::empty(),
        state_after(state, frames.take(later + 1)) is Terminated,
    decreases later - asked,
{
    assert(frames.take(later + 1).drop_last() =~= frames.take(later));
    if asked < later {
        lemma_no_frame_after_exit_request(state, frames, asked, later - 1, start, now);
    }
}

/// Every frame ends with the same pause, and sixty pauses are forty
/// nanoseconds short of a second. When nothing else takes time, a span of
/// whole seconds holds sixty frames for each second, and as many more as fit
/// into the forty nanoseconds that every second leaves over. Up to 416 666
/// seconds that is sixty frames a second exactly.
pub proof fn lemma_frame_pacing(seconds: nat, green: bool)
    ensures
        frame_actions(green).last() == (Action::Sleep { nanos: FRAME_DELAY_NANOS }),
        FRAMES_PER_SECOND * FRAME_DELAY_NANOS + 40 == NANOS_PER_SEC,
        frames_within(seconds * (NANOS_PER_SEC as nat)) == FRAMES_PER_SECOND * seconds
            + frames_within(40 * seconds),
        seconds <= 416_666 ==> frames_within(seconds * (NANOS_PER_SEC as nat))
            == FRAMES_PER_SECOND * seconds,
{
}

} // verus!
