use tetra::context::{TetraContext, ContextBuilder, Platform};
use tetra::error::TetraError;
use tetra::event::{Event, Signal};
use tetra::graphics;
use tetra::graphics::Color;
use tetra::input;
use tetra::input::{Key, KeyModifiers};
use tetra::math::Vec2;
use tetra::runtime::{run, run_frame, Directive, Frame, FrameInput, FrameReport, State};
use tetra::window;

const MS: u64 = 1_000_000;

fn context(builder: ContextBuilder) -> TetraContext {
    let platform = Platform {
        physical_width: 640,
        physical_height: 480,
        instance_capacity: 16,
        monitors: Err(String::from("not asked")),
        current_monitor: Err(String::from("not asked")),
    };
    builder.build(Ok(platform)).unwrap()
}

/// A context whose clock ticks every 10 ms.
fn plain() -> TetraContext {
    context(ContextBuilder::new("Runtime", 640, 480).tick_rate(100))
}

fn none() -> KeyModifiers {
    KeyModifiers { ctrl: false, alt: false, shift: false }
}

fn key_down(key: Key, repeat: bool) -> Signal {
    Signal::KeyDown { key, modifiers: none(), repeat }
}

fn failure() -> TetraError {
    TetraError::PlatformError(String::from("the game gave up"))
}

#[derive(Default)]
struct Logger {
    log: Vec<String>,
    fail_in: Option<&'static str>,
    quit_in: Option<&'static str>,
    a_pressed: Vec<bool>,
    enable_repeat_on_event: bool,
}

impl Logger {
    fn after(&mut self, what: &'static str, ctx: &mut TetraContext) -> Result<(), TetraError> {
        if self.quit_in == Some(what) {
            window::quit(ctx);
        }
        if self.fail_in == Some(what) {
            Err(failure())
        } else {
            Ok(())
        }
    }
}

impl State for Logger {
    fn update(&mut self, ctx: &mut TetraContext) -> Result<(), TetraError> {
        self.log.push(String::from("update"));
        self.a_pressed.push(input::is_key_pressed(ctx, Key::A));
        self.after("update", ctx)
    }

    fn draw(&mut self, ctx: &mut TetraContext) -> Result<(), TetraError> {
        self.log.push(String::from("draw"));
        graphics::clear(ctx, Color::black());
        self.after("draw", ctx)
    }

    fn event(&mut self, ctx: &mut TetraContext, event: Event) -> Result<(), TetraError> {
        self.log.push(format!("event {:?}", event));
        if self.enable_repeat_on_event {
            window::set_key_repeat_enabled(ctx, true);
        }
        self.after("event", ctx)
    }
}

struct Idle;

impl State for Idle {}

fn kinds(log: &[String]) -> Vec<&str> {
    log.iter().map(|line| line.split(' ').next().unwrap()).collect()
}

#[test]
fn events_come_before_updates_and_updates_before_the_draw() {
    let mut ctx = plain();
    let mut state = Logger::default();
    let signals = vec![
        key_down(Key::A, false),
        key_down(Key::A, true),
        Signal::MouseMoved { position: Vec2::new(1, 2), delta: Vec2::new(1, 2) },
    ];
    let report = run_frame(&mut ctx, &mut state, &signals, 35 * MS);
    assert_eq!(report, Ok(FrameReport { events: 2, updates: 3, running: true }));
    assert_eq!(
        state.log,
        vec![
            format!("event {:?}", Event::KeyPressed { key: Key::A, modifiers: none(), repeat: false }),
            format!("event {:?}", Event::MouseMoved { position: Vec2::new(1, 2), delta: Vec2::new(1, 2) }),
            String::from("update"),
            String::from("update"),
            String::from("update"),
            String::from("draw"),
        ]
    );
    assert_eq!(ctx.clock.accumulated(), 500_000_000);
}

#[test]
fn a_frame_draws_once_however_many_updates_it_runs() {
    for (elapsed, updates) in [(0, 0), (9 * MS, 0), (10 * MS, 1), (50 * MS, 5), (1_000 * MS, 8)] {
        let mut ctx = plain();
        let mut state = Logger::default();
        let report = run_frame(&mut ctx, &mut state, &vec![], elapsed).unwrap();
        assert_eq!(report.updates, updates);
        assert_eq!(kinds(&state.log).iter().filter(|kind| **kind == "update").count(), updates as usize);
        assert_eq!(kinds(&state.log).iter().filter(|kind| **kind == "draw").count(), 1);
        assert_eq!(state.log.last().unwrap(), "draw");
        assert_eq!(ctx.graphics.commands.len(), 1);
    }
}

#[test]
fn time_is_carried_from_frame_to_frame() {
    let mut ctx = plain();
    let mut state = Logger::default();
    let mut updates = 0;
    for _ in 0..10 {
        updates += run_frame(&mut ctx, &mut state, &vec![], 4 * MS).unwrap().updates;
    }
    assert_eq!(updates, 4);
    assert_eq!(kinds(&state.log).iter().filter(|kind| **kind == "draw").count(), 10);
}

#[test]
fn an_error_in_an_event_ends_the_frame() {
    let mut ctx = plain();
    let mut state = Logger { fail_in: Some("event"), ..Logger::default() };
    let signals = vec![key_down(Key::A, false), key_down(Key::B, false)];
    assert_eq!(run_frame(&mut ctx, &mut state, &signals, 35 * MS), Err(failure()));
    assert_eq!(kinds(&state.log), vec!["event"]);
    // The second signal was not looked at.
    assert!(!input::is_key_down(&ctx, Key::B));
}

#[test]
fn an_error_in_an_update_ends_the_frame() {
    let mut ctx = plain();
    let mut state = Logger { fail_in: Some("update"), ..Logger::default() };
    let signals = vec![key_down(Key::A, false)];
    assert_eq!(run_frame(&mut ctx, &mut state, &signals, 35 * MS), Err(failure()));
    assert_eq!(kinds(&state.log), vec!["event", "update"]);
    assert!(ctx.graphics.commands.is_empty());
}

#[test]
fn an_error_in_the_draw_is_returned() {
    let mut ctx = plain();
    let mut state = Logger { fail_in: Some("draw"), ..Logger::default() };
    assert_eq!(run_frame(&mut ctx, &mut state, &vec![], 10 * MS), Err(failure()));
    assert_eq!(kinds(&state.log), vec!["update", "draw"]);
}

#[test]
fn quitting_lets_the_frame_complete() {
    for quit_in in ["event", "update", "draw"] {
        let mut ctx = plain();
        let mut state = Logger { quit_in: Some(quit_in), ..Logger::default() };
        let signals = vec![key_down(Key::A, false)];
        let report = run_frame(&mut ctx, &mut state, &signals, 20 * MS);
        assert_eq!(report, Ok(FrameReport { events: 1, updates: 2, running: false }));
        assert_eq!(kinds(&state.log), vec!["event", "update", "update", "draw"]);
        assert!(!ctx.running);
    }
}

#[test]
fn a_request_to_close_is_reported_at_the_end_of_the_frame() {
    let mut ctx = plain();
    let mut state = Logger::default();
    let signals = vec![Signal::CloseRequested, key_down(Key::A, false)];
    let report = run_frame(&mut ctx, &mut state, &signals, 10 * MS);
    assert_eq!(report, Ok(FrameReport { events: 1, updates: 1, running: false }));
    assert_eq!(kinds(&state.log), vec!["event", "update", "draw"]);
}

#[test]
fn pressed_marks_are_seen_by_one_update() {
    let mut ctx = plain();
    let mut state = Logger::default();
    let signals = vec![key_down(Key::A, false)];
    run_frame(&mut ctx, &mut state, &signals, 30 * MS).unwrap();
    assert_eq!(state.a_pressed, vec![true, false, false]);
    assert!(input::is_key_down(&ctx, Key::A));
}

#[test]
fn pressed_marks_wait_for_the_next_update() {
    let mut ctx = plain();
    let mut state = Logger::default();
    run_frame(&mut ctx, &mut state, &vec![key_down(Key::A, false)], 5 * MS).unwrap();
    assert!(state.a_pressed.is_empty());
    assert!(input::is_key_pressed(&ctx, Key::A));
    run_frame(&mut ctx, &mut state, &vec![], 5 * MS).unwrap();
    assert_eq!(state.a_pressed, vec![true]);
    assert!(!input::is_key_pressed(&ctx, Key::A));
}

#[test]
fn an_event_is_handled_before_the_next_signal_is_looked_at() {
    let mut ctx = plain();
    let mut state = Logger { enable_repeat_on_event: true, ..Logger::default() };
    let signals = vec![key_down(Key::A, true), key_down(Key::B, false), key_down(Key::B, true)];
    let report = run_frame(&mut ctx, &mut state, &signals, 0).unwrap();
    // The first repeat is passed over; the callback for B switches repeats
    // on, and the repeat that follows is heard.
    assert_eq!(report.events, 2);
    assert_eq!(
        state.log[1],
        format!("event {:?}", Event::KeyPressed { key: Key::B, modifiers: none(), repeat: true })
    );
}

#[test]
fn a_state_that_leaves_everything_out_does_nothing() {
    let mut ctx = plain();
    let signals = vec![key_down(Key::A, false)];
    let report = run_frame(&mut ctx, &mut Idle, &signals, 25 * MS);
    assert_eq!(report, Ok(FrameReport { events: 1, updates: 2, running: true }));
    assert!(ctx.graphics.commands.is_empty());
}

#[test]
fn a_frame_is_stepped_through_one_directive_at_a_time() {
    let mut ctx = plain();
    let signals = vec![key_down(Key::A, true), key_down(Key::B, false)];
    let mut frame = Frame::begin(&mut ctx, &signals, 20 * MS);
    assert!(!frame.is_finished());
    assert_eq!(frame.step(&mut ctx, Ok(())), Directive::Continue);
    assert_eq!(
        frame.step(&mut ctx, Ok(())),
        Directive::Event(Event::KeyPressed { key: Key::B, modifiers: none(), repeat: false })
    );
    assert!(input::is_key_pressed(&ctx, Key::B));
    assert_eq!(frame.step(&mut ctx, Ok(())), Directive::Update);
    // The marks are there for the update, and cleared once it is over.
    assert!(input::is_key_pressed(&ctx, Key::B));
    assert_eq!(frame.step(&mut ctx, Ok(())), Directive::Update);
    assert!(!input::is_key_pressed(&ctx, Key::B));
    assert_eq!(frame.step(&mut ctx, Ok(())), Directive::Draw);
    window::quit(&mut ctx);
    let report = FrameReport { events: 1, updates: 2, running: false };
    assert_eq!(frame.step(&mut ctx, Ok(())), Directive::Finish(report));
    assert!(frame.is_finished());
    assert_eq!(frame.step(&mut ctx, Ok(())), Directive::Finish(report));
    assert_eq!(frame.step(&mut ctx, Err(failure())), Directive::Finish(report));
}

#[test]
fn a_failed_callback_turns_the_next_step_into_the_failure() {
    let mut ctx = plain();
    let signals = vec![key_down(Key::A, false), key_down(Key::B, false)];
    let mut frame = Frame::begin(&mut ctx, &signals, 20 * MS);
    assert!(matches!(frame.step(&mut ctx, Ok(())), Directive::Event(_)));
    assert_eq!(frame.step(&mut ctx, Err(failure())), Directive::Fail(failure()));
    assert!(frame.is_finished());
    assert!(!input::is_key_down(&ctx, Key::B));
}

#[test]
fn run_goes_on_until_the_inputs_end() {
    let mut ctx = plain();
    let mut state = Logger::default();
    let inputs = vec![
        FrameInput { signals: vec![key_down(Key::A, false)], elapsed_ns: 10 * MS },
        FrameInput { signals: vec![], elapsed_ns: 10 * MS },
        FrameInput { signals: vec![], elapsed_ns: 10 * MS },
    ];
    assert_eq!(run(&mut ctx, &mut state, &inputs), Ok(3));
    assert_eq!(kinds(&state.log), vec!["event", "update", "draw", "update", "draw", "update", "draw"]);
    assert!(ctx.running);
}

#[test]
fn run_stops_after_the_frame_in_which_the_game_quit() {
    let mut ctx = context(ContextBuilder::new("Runtime", 640, 480).tick_rate(100).quit_on_escape(true));
    let mut state = Logger::default();
    let inputs = vec![
        FrameInput { signals: vec![], elapsed_ns: 10 * MS },
        FrameInput { signals: vec![key_down(Key::Escape, false)], elapsed_ns: 20 * MS },
        FrameInput { signals: vec![key_down(Key::A, false)], elapsed_ns: 10 * MS },
    ];
    assert_eq!(run(&mut ctx, &mut state, &inputs), Ok(2));
    assert_eq!(kinds(&state.log), vec!["update", "draw", "event", "update", "update", "draw"]);
    assert!(!ctx.running);
}

#[test]
fn run_does_nothing_on_a_context_that_is_not_running() {
    let mut ctx = plain();
    window::quit(&mut ctx);
    let mut state = Logger::default();
    let inputs = vec![FrameInput { signals: vec![key_down(Key::A, false)], elapsed_ns: 10 * MS }];
    assert_eq!(run(&mut ctx, &mut state, &inputs), Ok(0));
    assert!(state.log.is_empty());
    assert_eq!(ctx.clock.accumulated(), 0);
    assert!(!input::is_key_down(&ctx, Key::A));
}

#[test]
fn run_hands_on_the_error_of_a_callback() {
    let mut ctx = plain();
    let mut state = Logger { fail_in: Some("update"), ..Logger::default() };
    let inputs = vec![
        FrameInput { signals: vec![], elapsed_ns: 5 * MS },
        FrameInput { signals: vec![], elapsed_ns: 5 * MS },
        FrameInput { signals: vec![], elapsed_ns: 5 * MS },
    ];
    assert_eq!(run(&mut ctx, &mut state, &inputs), Err(failure()));
    assert_eq!(kinds(&state.log), vec!["draw", "update"]);
}
