use doodle::{Color, DoodleBuilder, Handler, Phase, RenderOp, Renderer};

/// Records the order in which the harness invokes the callbacks.
#[derive(Default)]
struct CallLog {
    calls: Vec<u8>,
}

const SETUP_CALL: u8 = 0;
const DRAW_CALL: u8 = 1;

struct LogSetup;

impl Handler<CallLog> for LogSetup {
    fn handle(&self, state: &mut CallLog, _renderer: &mut Renderer) {
        state.calls.push(SETUP_CALL);
    }
}

struct LogDraw;

impl Handler<CallLog> for LogDraw {
    fn handle(&self, state: &mut CallLog, _renderer: &mut Renderer) {
        state.calls.push(DRAW_CALL);
    }
}

fn logging_doodle() -> doodle::Doodle<'static, CallLog, LogSetup, LogDraw> {
    DoodleBuilder::new().fps(1000).setup(LogSetup).draw(LogDraw).build().unwrap()
}

#[test]
fn setup_runs_exactly_once_before_the_first_draw() {
    let mut d = logging_doodle();
    d.start();
    for _ in 0..3 {
        assert!(d.frame(false));
    }
    assert_eq!(d.state().calls, vec![SETUP_CALL, DRAW_CALL, DRAW_CALL, DRAW_CALL]);
}

#[test]
fn present_flushes_setup_before_any_draw() {
    let mut d = logging_doodle();
    d.start();
    // Setup drew nothing, so the harness's own present is the only command.
    assert_eq!(d.take_ops(), vec![RenderOp::Present]);
}

#[test]
fn each_frame_ends_with_exactly_one_present() {
    let mut d = DoodleBuilder::new()
        .fps(1000)
        .state(CallLog::default())
        .draw(ClearingDraw)
        .build()
        .unwrap();
    d.start();
    d.take_ops();
    assert!(d.frame(false));
    // The draw callback cleared once; the harness then presented once.
    assert_eq!(d.take_ops(), vec![RenderOp::Clear, RenderOp::Present]);
}

struct ClearingDraw;

impl Handler<CallLog> for ClearingDraw {
    fn handle(&self, _state: &mut CallLog, renderer: &mut Renderer) {
        renderer.clear();
    }
}

struct PresentingDraw;

impl Handler<CallLog> for PresentingDraw {
    fn handle(&self, _state: &mut CallLog, renderer: &mut Renderer) {
        renderer.present();
    }
}

#[test]
fn the_record_always_ends_with_the_harness_present() {
    let mut d = DoodleBuilder::new()
        .fps(1000)
        .state(CallLog::default())
        .draw(PresentingDraw)
        .build()
        .unwrap();
    d.start();
    d.take_ops();
    assert!(d.frame(false));
    // The draw callback presented once itself; the harness still closed the
    // frame with its own present.
    assert_eq!(d.take_ops(), vec![RenderOp::Present, RenderOp::Present]);
}

#[test]
fn quit_stops_the_loop_without_drawing() {
    let mut d = logging_doodle();
    d.start();
    assert!(d.frame(false));
    assert!(!d.frame(true));
    assert_eq!(d.phase(), Phase::Terminated);
    // The quit iteration invoked no draw and recorded no command.
    assert_eq!(d.state().calls, vec![SETUP_CALL, DRAW_CALL]);
    let ops = d.take_ops();
    assert_eq!(ops, vec![RenderOp::Present, RenderOp::Present]);
}

#[test]
fn host_style_loop_draws_until_the_quit_signal() {
    let mut d = logging_doodle();
    let quits = [false, false, true];
    d.start();
    let mut running = true;
    let mut i = 0;
    while running {
        running = d.frame(quits[i]);
        i += 1;
    }
    assert_eq!(d.state().calls, vec![SETUP_CALL, DRAW_CALL, DRAW_CALL]);
    assert_eq!(d.phase(), Phase::Terminated);
}

#[test]
fn quit_before_the_first_frame_draws_nothing() {
    let mut d = logging_doodle();
    d.start();
    assert!(!d.frame(true));
    assert_eq!(d.phase(), Phase::Terminated);
    assert_eq!(d.state().calls, vec![SETUP_CALL]);
}

/// Looks at the surface from inside a callback.
#[derive(Default)]
struct Probe {
    initial: Option<Color>,
    after_set: Option<Color>,
}

struct ProbeSetup;

impl Handler<Probe> for ProbeSetup {
    fn handle(&self, state: &mut Probe, renderer: &mut Renderer) {
        state.initial = Some(renderer.draw_color());
        renderer.set_draw_color(Color::RGB(9, 10, 11));
        state.after_set = Some(renderer.draw_color());
        renderer.clear();
    }
}

#[test]
fn the_surface_tracks_the_draw_color_and_records_commands() {
    let mut d = DoodleBuilder::new().fps(1000).setup(ProbeSetup).build().unwrap();
    d.start();
    assert_eq!(d.state().initial, Some(Color::RGBA(255, 255, 255, 255)));
    assert_eq!(d.state().after_set, Some(Color::RGB(9, 10, 11)));
    assert_eq!(
        d.take_ops(),
        vec![
            RenderOp::SetDrawColor(Color::RGB(9, 10, 11)),
            RenderOp::Clear,
            RenderOp::Present,
        ]
    );
    // Draining leaves the record empty.
    assert_eq!(d.take_ops(), vec![]);
}

/// The state of the grayscale fade sketch: a brightness that climbs to the
/// top of the channel range and then falls back.
#[derive(Default)]
struct FadeState {
    change: i16,
    color: i16,
    flips: u32,
}

struct FadeDraw;

impl Handler<FadeState> for FadeDraw {
    fn handle(&self, state: &mut FadeState, renderer: &mut Renderer) {
        let c = state.color as u8;
        state.color += state.change;
        if state.color > 255 {
            state.color = 255;
            state.change = -1;
            state.flips += 1;
        } else if state.color < 0 {
            state.color = 0;
            state.change = 1;
            state.flips += 1;
        }
        renderer.set_draw_color(Color::RGB(c, c, c));
        renderer.clear();
    }
}

#[test]
fn fade_sketch_reaches_the_top_and_flips_once() {
    let mut d = DoodleBuilder::new()
        .fps(100000)
        .state(FadeState { change: 1, color: 0, flips: 0 })
        .draw(FadeDraw)
        .build()
        .unwrap();
    d.start();
    for _ in 0..256 {
        assert!(d.frame(false));
    }
    assert_eq!(d.state().color, 255);
    assert_eq!(d.state().change, -1);
    assert_eq!(d.state().flips, 1);
}
