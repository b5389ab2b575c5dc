//! The sketch runtime: the configuration builder and the frame-loop harness.

use vstd::prelude::*;

use crate::clock::FrameClock;
use crate::color::Color;
use crate::error::Error;
use crate::handler::Handler;
use crate::handler::NoopHandler;
use crate::renderer::RenderOp;
use crate::renderer::Renderer;

verus! {

/// Largest window dimension the backend accepts; anything above overflows
/// its signed 32-bit sizes.
pub const MAX_DIMENSION: u32 = 2147483647;

/// True of a window dimension the backend can represent.
pub open spec fn valid_dimension(d: u32) -> bool {
    1 <= d <= MAX_DIMENSION
}

/// Where a doodle stands in its lifecycle: built but not yet started,
/// inside the frame loop, or stopped by a quit signal.
#[derive(Clone, Copy, Debug, PartialEq, Eq, Structural)]
pub enum Phase {
    /// The doodle was built and `start` has not run yet.
    Created,
    /// `start` has run and no quit signal has been processed.
    Running,
    /// A quit signal was processed; the frame loop is over.
    Terminated,
}

/// One observable action of the harness itself: the calls it makes on the
/// callbacks, the surface and the clock, in the order it makes them.
#[derive(Clone, Copy, Debug, PartialEq, Eq, Structural)]
pub enum Action {
    /// The setup callback was invoked.
    Setup,
    /// The draw callback was invoked.
    Draw,
    /// The surface was presented by the harness.
    Present,
    /// The clock paced the frame.
    Tick,
}

/// The actions of `count` complete frames: each frame is a draw, a present
/// and a tick, in that order.
pub open spec fn frame_actions(count: nat) -> Seq<Action>
    decreases count,
{
    if count == 0 {
        Seq::empty()
    } else {
        frame_actions((count - 1) as nat) + seq![Action::Draw, Action::Present, Action::Tick]
    }
}

/// The actions of a started doodle that has completed `count` frames: one
/// setup, one present that flushes setup-time drawing, then the frames.
pub open spec fn started_actions(count: nat) -> Seq<Action> {
    seq![Action::Setup, Action::Present] + frame_actions(count)
}

/// How often `action` occurs in `history`.
pub open spec fn action_count(history: Seq<Action>, action: Action) -> nat
    decreases history.len(),
{
    if history.len() == 0 {
        0
    } else {
        action_count(history.drop_last(), action) + if history.last() == action {
            1nat
        } else {
            0nat
        }
    }
}

/// A DoodleBuilder provides a simple api to create a Doodle.
///
/// Every setter stores its value and returns the updated builder; nothing is
/// validated until `build` consumes it.
pub struct DoodleBuilder<'a, T, S, D> {
    /// The window title.
    pub name: &'a str,
    /// The window width in pixels.
    pub width: u32,
    /// The window height in pixels.
    pub height: u32,
    /// The target frame rate of the run loop.
    pub fps: u32,
    /// The initial sketch state.
    pub state: T,
    /// The callback invoked once before the frame loop.
    pub setup: S,
    /// The callback invoked once per frame.
    pub draw: D,
}

impl<'a, T: Default> DoodleBuilder<'a, T, NoopHandler, NoopHandler> {
    /// Creates a DoodleBuilder with the default settings: an 800 by 600
    /// window called "Doodle", 30 frames per second, a default-constructed
    /// state, and callbacks that do nothing.
    pub fn new() -> (r: Self)
        ensures
            r.name@ == "Doodle"@,
            r.width == 800,
            r.height == 600,
            r.fps == 30,
            call_ensures(T::default, (), r.state),
            r.setup == NoopHandler,
            r.draw == NoopHandler,
    {
        DoodleBuilder {
            name: "Doodle",
            state: T::default(),
            fps: 30,
            width: 800,
            height: 600,
            setup: NoopHandler,
            draw: NoopHandler,
        }
    }
}

impl<'a, T, S, D> DoodleBuilder<'a, T, S, D> {
    /// Sets the name of the doodle.
    pub fn name(self, name: &'a str) -> (r: Self)
        ensures
            r == (DoodleBuilder { name, ..self }),
    {
        DoodleBuilder { name, ..self }
    }

    /// Sets the fps of the doodle.
    pub fn fps(self, fps: u32) -> (r: Self)
        ensures
            r == (DoodleBuilder { fps, ..self }),
    {
        DoodleBuilder { fps, ..self }
    }

    /// Sets the width of the doodle.
    pub fn width(self, width: u32) -> (r: Self)
        ensures
            r == (DoodleBuilder { width, ..self }),
    {
        DoodleBuilder { width, ..self }
    }

    /// Sets the height of the doodle.
    pub fn height(self, height: u32) -> (r: Self)
        ensures
            r == (DoodleBuilder { height, ..self }),
    {
        DoodleBuilder { height, ..self }
    }

    /// Sets the object used to store the doodle's state.
    pub fn state(self, state: T) -> (r: Self)
        ensures
            r == (DoodleBuilder { state, ..self }),
    {
        DoodleBuilder { state, ..self }
    }

    /// Sets the callback used to setup the doodle.
    pub fn setup<S2>(self, setup: S2) -> (r: DoodleBuilder<'a, T, S2, D>)
        ensures
            r == (DoodleBuilder {
                name: self.name,
                width: self.width,
                height: self.height,
                fps: self.fps,
                state: self.state,
                setup,
                draw: self.draw,
            }),
    {
        DoodleBuilder {
            name: self.name,
            width: self.width,
            height: self.height,
            fps: self.fps,
            state: self.state,
            setup,
            draw: self.draw,
        }
    }

    /// Sets the callback used to draw each frame of the doodle.
    pub fn draw<D2>(self, draw: D2) -> (r: DoodleBuilder<'a, T, S, D2>)
        ensures
            r == (DoodleBuilder {
                name: self.name,
                width: self.width,
                height: self.height,
                fps: self.fps,
                state: self.state,
                setup: self.setup,
                draw,
            }),
    {
        DoodleBuilder {
            name: self.name,
            width: self.width,
            height: self.height,
            fps: self.fps,
            state: self.state,
            setup: self.setup,
            draw,
        }
    }
}

impl<'a, T, S: Handler<T>, D: Handler<T>> DoodleBuilder<'a, T, S, D> {
    /// Builds the doodle using the settings stored in this DoodleBuilder.
    ///
    /// Both window dimensions must be positive and at most `MAX_DIMENSION`,
    /// or the build fails with a window-build error; the target frame rate
    /// must be positive, or the build fails with a generic error (the
    /// backend's behaviour at rate zero is undefined, so the builder refuses
    /// it).  On success the caller gets a doodle in the `Created` phase,
    /// with a fresh surface, a clock at the configured rate, and an empty
    /// action history; on failure it gets no doodle at all.
    pub fn build(self) -> (r: Result<Doodle<'a, T, S, D>, Error>)
        ensures
            r matches Ok(_) <==> valid_dimension(self.width) && valid_dimension(self.height)
                && 1 <= self.fps,
            !(valid_dimension(self.width) && valid_dimension(self.height)) ==> (r matches Err(e)
                && e matches Error::WindowBuildError(_)),
            valid_dimension(self.width) && valid_dimension(self.height) && self.fps == 0 ==> (
            r matches Err(e) && e matches Error::Error(_)),
            r matches Ok(d) ==> {
                &&& d.spec_name()@ == self.name@
                &&& d.spec_width() == self.width
                &&& d.spec_height() == self.height
                &&& d.spec_fps() == self.fps
                &&& d.spec_clock_rate() == self.fps
                &&& d.spec_state() == self.state
                &&& d.spec_setup() == self.setup
                &&& d.spec_draw() == self.draw
                &&& d.spec_phase() == Phase::Created
                &&& d.history() == Seq::<Action>::empty()
                &&& d.spec_ops() == Seq::<RenderOp>::empty()
                &&& d.spec_draw_color() == (Color { r: 255u8, g: 255u8, b: 255u8, a: 255u8 })
            },
    {
        if self.width == 0 || self.width > MAX_DIMENSION || self.height == 0 || self.height
            > MAX_DIMENSION {
            return Err(
                Error::WindowBuildError(
                    "window dimensions must be positive and fit the backend".to_string(),
                ),
            );
        }
        if self.fps == 0 {
            return Err(Error::Error("target frame rate must be positive".to_string()));
        }
        Ok(
            Doodle {
                name: self.name,
                width: self.width,
                height: self.height,
                fps: self.fps,
                state: self.state,
                setup: self.setup,
                draw: self.draw,
                renderer: Renderer::new(),
                clock: FrameClock::new(self.fps),
                phase: Phase::Created,
                frames: Ghost(0),
            },
        )
    }
}

/// A Doodle is responsible for actually starting the doodle and running the
/// proper callbacks in response to events.
///
/// The only way to create a Doodle is with a DoodleBuilder.  A host layer
/// owns the real window: it reads the window settings from the doodle,
/// drives `start` and then `frame` with the drained quit signals, and
/// replays the commands from `take_ops` on the backend canvas.
pub struct Doodle<'a, T, S, D> {
    name: &'a str,
    width: u32,
    height: u32,
    fps: u32,
    state: T,
    setup: S,
    draw: D,
    renderer: Renderer,
    clock: FrameClock,
    phase: Phase,
    frames: Ghost<nat>,
}

impl<'a, T, S, D> Doodle<'a, T, S, D> {
    /// The configured window title.
    pub closed spec fn spec_name(self) -> &'a str {
        self.name
    }

    /// The configured window width.
    pub closed spec fn spec_width(self) -> u32 {
        self.width
    }

    /// The configured window height.
    pub closed spec fn spec_height(self) -> u32 {
        self.height
    }

    /// The configured target frame rate.
    pub closed spec fn spec_fps(self) -> u32 {
        self.fps
    }

    /// The target rate of the clock that paces the frame loop.
    pub closed spec fn spec_clock_rate(self) -> u32 {
        self.clock.rate()
    }

    /// The sketch state as the callbacks last left it.
    pub closed spec fn spec_state(self) -> T {
        self.state
    }

    /// The setup callback.
    pub closed spec fn spec_setup(self) -> S {
        self.setup
    }

    /// The draw callback.
    pub closed spec fn spec_draw(self) -> D {
        self.draw
    }

    /// Where the doodle stands in its lifecycle.
    pub closed spec fn spec_phase(self) -> Phase {
        self.phase
    }

    /// How many frames the doodle has completed.
    pub closed spec fn spec_frames(self) -> nat {
        self.frames@
    }

    /// The drawing commands recorded on the surface and not yet drained.
    pub closed spec fn spec_ops(self) -> Seq<RenderOp> {
        self.renderer.spec_ops()
    }

    /// The surface's current draw color.
    pub closed spec fn spec_draw_color(self) -> Color {
        self.renderer.spec_draw_color()
    }

    /// Every action the harness has performed so far, in order.
    pub open spec fn history(self) -> Seq<Action> {
        if self.spec_phase() == Phase::Created {
            Seq::empty()
        } else {
            started_actions(self.spec_frames())
        }
    }

    /// The configured window title, for the host to build the window from.
    pub fn name(&self) -> (n: &'a str)
        ensures
            n == self.spec_name(),
    {
        self.name
    }

    /// The configured window width, for the host to build the window from.
    pub fn width(&self) -> (w: u32)
        ensures
            w == self.spec_width(),
    {
        self.width
    }

    /// The configured window height, for the host to build the window from.
    pub fn height(&self) -> (h: u32)
        ensures
            h == self.spec_height(),
    {
        self.height
    }

    /// The configured target frame rate.
    pub fn fps(&self) -> (f: u32)
        ensures
            f == self.spec_fps(),
    {
        self.fps
    }

    /// The sketch state as the callbacks last left it.
    pub fn state(&self) -> (s: &T)
        ensures
            *s == self.spec_state(),
    {
        &self.state
    }

    /// Where the doodle stands in its lifecycle.
    pub fn phase(&self) -> (p: Phase)
        ensures
            p == self.spec_phase(),
    {
        self.phase
    }

    /// Hands the surface's recorded drawing commands to the host and leaves
    /// the record empty; everything else about the doodle is untouched.
    pub fn take_ops(&mut self) -> (ops: Vec<RenderOp>)
        ensures
            ops@ == old(self).spec_ops(),
            final(self).spec_ops() == Seq::<RenderOp>::empty(),
            final(self).spec_draw_color() == old(self).spec_draw_color(),
            final(self).spec_phase() == old(self).spec_phase(),
            final(self).spec_frames() == old(self).spec_frames(),
            final(self).history() == old(self).history(),
            final(self).spec_state() == old(self).spec_state(),
            final(self).spec_setup() == old(self).spec_setup(),
            final(self).spec_draw() == old(self).spec_draw(),
            final(self).spec_name() == old(self).spec_name(),
            final(self).spec_width() == old(self).spec_width(),
            final(self).spec_height() == old(self).spec_height(),
            final(self).spec_fps() == old(self).spec_fps(),
            final(self).spec_clock_rate() == old(self).spec_clock_rate(),
    {
        self.renderer.take_ops()
    }
}

impl<'a, T, S: Handler<T>, D: Handler<T>> Doodle<'a, T, S, D> {
    /// Starts the doodle: invokes the setup callback exactly once with the
    /// state and the surface, then presents the surface, so that setup-time
    /// drawing becomes visible before the first frame is drawn.  Whatever
    /// the setup callback recorded, the surface's command record therefore
    /// ends with the harness's own present.
    pub fn start(&mut self)
        requires
            old(self).spec_phase() == Phase::Created,
        ensures
            final(self).spec_phase() == Phase::Running,
            final(self).history() == seq![Action::Setup, Action::Present],
            exists|ops: Seq<RenderOp>|
                final(self).spec_ops() == #[trigger] ops.push(RenderOp::Present),
            final(self).spec_setup() == old(self).spec_setup(),
            final(self).spec_draw() == old(self).spec_draw(),
            final(self).spec_name() == old(self).spec_name(),
            final(self).spec_width() == old(self).spec_width(),
            final(self).spec_height() == old(self).spec_height(),
            final(self).spec_fps() == old(self).spec_fps(),
            final(self).spec_clock_rate() == old(self).spec_clock_rate(),
    {
        self.setup.handle(&mut self.state, &mut self.renderer);
        self.renderer.present();
        self.phase = Phase::Running;
        proof {
            self.frames@ = 0;
            assert(started_actions(0) =~= seq![Action::Setup, Action::Present]);
        }
    }

    /// Runs one iteration of the main loop, `quit` saying whether a quit
    /// signal was drained from the event source for this iteration.
    ///
    /// On a quit the doodle terminates at once: the draw callback does not
    /// run, nothing is added to the history, and no later iteration can run
    /// a draw either, since a terminated doodle accepts no further frame.
    /// Otherwise the draw callback runs with the state and the surface, the
    /// surface is presented (so the command record ends with the harness's
    /// own present, whatever the callback recorded), and the clock blocks to
    /// pace the frame rate.  Returns whether the doodle is still running.
    pub fn frame(&mut self, quit: bool) -> (running: bool)
        requires
            old(self).spec_phase() == Phase::Running,
        ensures
            running == !quit,
            quit ==> final(self).spec_phase() == Phase::Terminated,
            quit ==> final(self).spec_state() == old(self).spec_state(),
            quit ==> final(self).spec_ops() == old(self).spec_ops(),
            quit ==> final(self).spec_draw_color() == old(self).spec_draw_color(),
            quit ==> final(self).spec_frames() == old(self).spec_frames(),
            !quit ==> final(self).spec_phase() == Phase::Running,
            !quit ==> final(self).spec_frames() == old(self).spec_frames() + 1,
            !quit ==> exists|ops: Seq<RenderOp>|
                final(self).spec_ops() == #[trigger] ops.push(RenderOp::Present),
            final(self).spec_setup() == old(self).spec_setup(),
            final(self).spec_draw() == old(self).spec_draw(),
            final(self).history() == old(self).history() + if quit {
                Seq::<Action>::empty()
            } else {
                seq![Action::Draw, Action::Present, Action::Tick]
            },
            final(self).spec_name() == old(self).spec_name(),
            final(self).spec_width() == old(self).spec_width(),
            final(self).spec_height() == old(self).spec_height(),
            final(self).spec_fps() == old(self).spec_fps(),
            final(self).spec_clock_rate() == old(self).spec_clock_rate(),
    {
        if quit {
            self.phase = Phase::Terminated;
            proof {
                assert(self.history() =~= old(self).history() + Seq::<Action>::empty());
            }
            false
        } else {
            self.draw.handle(&mut self.state, &mut self.renderer);
            self.renderer.present();
            self.clock.tick();
            proof {
                self.frames@ = self.frames@ + 1;
                assert(self.history() =~= old(self).history() + seq![
                    Action::Draw,
                    Action::Present,
                    Action::Tick,
                ]);
            }
            true
        }
    }
}

/// The action that a started doodle's history holds at position `i`: the
/// setup, the present that flushes it, then the repeating draw, present,
/// tick pattern of the frames.
#[verifier::opaque]
pub open spec fn spec_action_at(i: int) -> Action {
    if i == 0 {
        Action::Setup
    } else if i == 1 {
        Action::Present
    } else if (i - 2) % 3 == 0 {
        Action::Draw
    } else if (i - 2) % 3 == 1 {
        Action::Present
    } else {
        Action::Tick
    }
}

/// Law: the history of a started doodle follows the position schema of
/// `spec_action_at`, whatever the number of completed frames.
pub proof fn lemma_history_structure(count: nat)
    ensures
        started_actions(count).len() == 2 + 3 * count,
        forall|i: int|
            0 <= i < 2 + 3 * count ==> #[trigger] started_actions(count)[i] == spec_action_at(i),
    decreases count,
{
    reveal(spec_action_at);
    if count == 0 {
        assert(started_actions(0) =~= seq![Action::Setup, Action::Present]);
    } else {
        let prev: nat = (count - 1) as nat;
        lemma_history_structure(prev);
        let tail = seq![Action::Draw, Action::Present, Action::Tick];
        assert(started_actions(count) =~= started_actions(prev) + tail);
        assert forall|i: int|
            0 <= i < 2 + 3 * count implies #[trigger] started_actions(count)[i] == spec_action_at(
            i,
        ) by {
            if i < 2 + 3 * prev {
                assert(started_actions(count)[i] == started_actions(prev)[i]);
            } else {
                let j = i - (2 + 3 * prev);
                assert(started_actions(count)[i] == tail[j]);
                assert((3 * prev + j) % 3 == j) by (nonlinear_arith)
                    requires
                        0 <= j < 3,
                        prev >= 0,
                ;
                assert(i - 2 == 3 * prev + j);
            }
        }
    }
}

/// Law: for any number of completed frames, the setup callback has run
/// exactly once, at the very start of the run, strictly before every draw.
pub proof fn lemma_setup_once_before_draw(count: nat)
    ensures
        started_actions(count).len() >= 2,
        started_actions(count)[0] == Action::Setup,
        action_count(started_actions(count), Action::Setup) == 1,
        forall|i: int|
            0 < i < started_actions(count).len() ==> #[trigger] started_actions(count)[i]
                != Action::Setup,
        forall|i: int|
            0 <= i < started_actions(count).len() && #[trigger] started_actions(count)[i]
                == Action::Draw ==> 2 <= i,
{
    reveal(spec_action_at);
    lemma_history_structure(count);
    lemma_started_counts(count);
}

/// Law: the surface is presented once before the first draw, and after any
/// draw (`i` being the position of any draw in the history) it is presented
/// exactly once: the action right after the draw is a present, and the one
/// after that is the pacing tick, never a second present.
pub proof fn lemma_present_ordering(count: nat, i: int)
    requires
        0 <= i < started_actions(count).len(),
        started_actions(count)[i] == Action::Draw,
    ensures
        started_actions(count).len() >= 2,
        started_actions(count)[1] == Action::Present,
        2 <= i,
        i + 2 < started_actions(count).len(),
        started_actions(count)[i + 1] == Action::Present,
        started_actions(count)[i + 2] == Action::Tick,
{
    lemma_history_structure(count);
    lemma_schema_prefix();
    lemma_draw_slot(count, i);
}

/// The two actions every started history begins with.
proof fn lemma_schema_prefix()
    ensures
        spec_action_at(0) == Action::Setup,
        spec_action_at(1) == Action::Present,
{
    reveal(spec_action_at);
}

/// What surrounds a draw in the position schema: the present right after it
/// and the tick after that, both still inside the history.
proof fn lemma_draw_slot(count: nat, i: int)
    requires
        0 <= i < 2 + 3 * count,
        spec_action_at(i) == Action::Draw,
    ensures
        2 <= i,
        i + 2 < 2 + 3 * count,
        spec_action_at(i + 1) == Action::Present,
        spec_action_at(i + 2) == Action::Tick,
{
    reveal(spec_action_at);
    let x = i - 2;
    assert(x % 3 == 0);
    assert(x <= 3 * count - 3) by (nonlinear_arith)
        requires
            x % 3 == 0,
            0 <= x < 3 * count,
    ;
    assert((x + 1) % 3 == 1) by (nonlinear_arith)
        requires
            x % 3 == 0,
            x >= 0,
    ;
    assert((x + 2) % 3 == 2) by (nonlinear_arith)
        requires
            x % 3 == 0,
            x >= 0,
    ;
}

/// Law: a doodle that has completed `count` frames has invoked the draw
/// callback exactly `count` times.  A quit iteration completes no frame and
/// appends nothing, and a terminated doodle accepts no further iteration, so
/// no draw ever follows a processed quit signal.
pub proof fn lemma_draw_count(count: nat)
    ensures
        action_count(started_actions(count), Action::Draw) == count,
{
    lemma_started_counts(count);
}

/// Law: whatever a doodle has been through, its recorded history obeys the
/// position schema: nothing before it starts, and afterwards one setup
/// first, a present second, then a draw, a present and a tick per completed
/// frame.
pub proof fn lemma_doodle_history<'a, T, S, D>(d: Doodle<'a, T, S, D>)
    ensures
        d.spec_phase() == Phase::Created ==> d.history().len() == 0,
        d.spec_phase() != Phase::Created ==> d.history().len() == 2 + 3 * d.spec_frames(),
        forall|i: int| 0 <= i < d.history().len() ==> #[trigger] d.history()[i] == spec_action_at(i),
{
    if d.spec_phase() != Phase::Created {
        lemma_history_structure(d.spec_frames());
    }
}

/// Law: a later builder setting overrides an earlier one: only the value
/// stored last is left for `build` to consume.
pub proof fn lemma_setter_overrides<'a, T, S, D>(
    builder: DoodleBuilder<'a, T, S, D>,
    first: u32,
    second: u32,
)
    ensures
        (DoodleBuilder { width: second, ..(DoodleBuilder { width: first, ..builder }) })
            == (DoodleBuilder { width: second, ..builder }),
{
}

/// How often each action occurs in a started history: one setup, and one
/// draw per completed frame.
proof fn lemma_started_counts(count: nat)
    ensures
        action_count(started_actions(count), Action::Setup) == 1,
        action_count(started_actions(count), Action::Draw) == count,
{
    lemma_prefix_counts();
    lemma_frame_counts(count);
    lemma_count_concat(seq![Action::Setup, Action::Present], frame_actions(count), Action::Setup);
    lemma_count_concat(seq![Action::Setup, Action::Present], frame_actions(count), Action::Draw);
}

/// Counting distributes over concatenation.
proof fn lemma_count_concat(a: Seq<Action>, b: Seq<Action>, action: Action)
    ensures
        action_count(a + b, action) == action_count(a, action) + action_count(b, action),
    decreases b.len(),
{
    if b.len() == 0 {
        assert(a + b =~= a);
    } else {
        assert((a + b).drop_last() =~= a + b.drop_last());
        lemma_count_concat(a, b.drop_last(), action);
    }
}

/// The counts of the two-action prefix that `start` performs.
proof fn lemma_prefix_counts()
    ensures
        action_count(seq![Action::Setup, Action::Present], Action::Setup) == 1,
        action_count(seq![Action::Setup, Action::Present], Action::Draw) == 0,
{
    let prefix = seq![Action::Setup, Action::Present];
    assert(action_count(Seq::<Action>::empty(), Action::Setup) == 0);
    assert(action_count(Seq::<Action>::empty(), Action::Draw) == 0);
    assert(prefix.drop_last() =~= seq![Action::Setup]);
    assert(seq![Action::Setup].drop_last() =~= Seq::<Action>::empty());
    assert(action_count(seq![Action::Setup], Action::Setup) == 1);
    assert(action_count(seq![Action::Setup], Action::Draw) == 0);
}

/// The counts of the per-frame triple, and hence of any number of frames.
proof fn lemma_frame_counts(count: nat)
    ensures
        action_count(frame_actions(count), Action::Setup) == 0,
        action_count(frame_actions(count), Action::Draw) == count,
    decreases count,
{
    if count == 0 {
    } else {
        let prev: nat = (count - 1) as nat;
        lemma_frame_counts(prev);
        let tail = seq![Action::Draw, Action::Present, Action::Tick];
        assert(action_count(Seq::<Action>::empty(), Action::Setup) == 0);
        assert(action_count(Seq::<Action>::empty(), Action::Draw) == 0);
        assert(tail.drop_last() =~= seq![Action::Draw, Action::Present]);
        assert(seq![Action::Draw, Action::Present].drop_last() =~= seq![Action::Draw]);
        assert(seq![Action::Draw].drop_last() =~= Seq::<Action>::empty());
        assert(action_count(seq![Action::Draw], Action::Setup) == 0);
        assert(action_count(seq![Action::Draw], Action::Draw) == 1);
        assert(action_count(seq![Action::Draw, Action::Present], Action::Setup) == 0);
        assert(action_count(seq![Action::Draw, Action::Present], Action::Draw) == 1);
        assert(action_count(tail, Action::Setup) == 0);
        assert(action_count(tail, Action::Draw) == 1);
        lemma_count_concat(frame_actions(prev), tail, Action::Setup);
        lemma_count_concat(frame_actions(prev), tail, Action::Draw);
    }
}

} // verus!
