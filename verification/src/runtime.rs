//! The frame: what the runtime does between two looks at the running flag.
//!
//! A frame takes the signals that the platform had pending and the real time
//! that passed since the last frame. It delivers the events, runs the updates
//! that are due, and draws once. [`Frame`] decides what comes next, one step
//! at a time, from what the last callback returned; [`run_frame`] makes the
//! calls. The embedding program runs frame after frame while the context is
//! running, and presents what each one has drawn.

use vstd::prelude::*;
use crate::context::TetraContext;
use crate::error::TetraError;
use crate::event::{dispatch, event_of, input_after, running_after, window_after, Event, Signal};
use crate::time::{carry_over, updates_due};

verus! {

/// The application: what it does on an update, on a draw and on an event.
/// What is left out does nothing.
pub trait State: Sized {
    /// Called once for every tick of the clock. Left out, it succeeds and
    /// changes nothing.
    fn update(&mut self, ctx: &mut TetraContext) -> (r: Result<(), TetraError>)
        default_ensures
            r is Ok,
            *final(self) == *old(self),
            *final(ctx) == *old(ctx),
    {
        Ok(())
    }

    /// Called once a frame, after the updates. Left out, it succeeds and
    /// changes nothing.
    fn draw(&mut self, ctx: &mut TetraContext) -> (r: Result<(), TetraError>)
        default_ensures
            r is Ok,
            *final(self) == *old(self),
            *final(ctx) == *old(ctx),
    {
        Ok(())
    }

    /// Called for every event, before the updates of the frame. Left out, it
    /// succeeds and changes nothing.
    fn event(&mut self, ctx: &mut TetraContext, event: Event) -> (r: Result<(), TetraError>)
        default_ensures
            r is Ok,
            *final(self) == *old(self),
            *final(ctx) == *old(ctx),
    {
        Ok(())
    }
}

/// What a frame did.
#[derive(Clone, Copy, Debug, PartialEq, Eq, Structural)]
pub struct FrameReport {
    /// How many events were delivered.
    pub events: usize,
    /// How many updates were run.
    pub updates: u32,
    /// Whether the application goes on.
    pub running: bool,
}

/// What the platform had for one frame.
#[derive(Clone, Debug, PartialEq, Eq)]
pub struct FrameInput {
    /// The pending signals, oldest first.
    pub signals: Vec<Signal>,
    /// The real time since the frame before, in nanoseconds.
    pub elapsed_ns: u64,
}

/// How far a frame has come.
#[derive(Clone, Copy, Debug, PartialEq, Eq, Structural)]
pub enum Phase {
    /// Signals are being dispatched; no update has been asked for.
    Pumping,
    /// The last thing asked for was an update.
    Updating,
    /// The last thing asked for was the draw.
    Drawing,
    /// Nothing is left to do.
    Finished,
}

/// What the driver of a frame is to do next.
#[derive(Clone, Debug, PartialEq, Eq)]
pub enum Directive {
    /// Nothing: a signal was dispatched that the application does not hear of.
    Continue,
    /// Call `State::event` with this event.
    Event(Event),
    /// Call `State::update`.
    Update,
    /// Call `State::draw`.
    Draw,
    /// The frame is complete.
    Finish(FrameReport),
    /// The frame is over: the last callback failed with this error.
    Fail(TetraError),
}

/// The progress of a frame as plain values.
pub ghost struct FrameView {
    /// The signals of the frame, oldest first.
    pub signals: Seq<Signal>,
    /// How many of them have been dispatched.
    pub next_signal: nat,
    /// How many updates the frame owes.
    pub due: nat,
    /// How many updates have been asked for.
    pub updates: nat,
    /// How many events have been handed out.
    pub events: nat,
    pub phase: Phase,
    /// The running flag as it was when the frame was begun or finished.
    pub running: bool,
}

impl FrameView {
    /// What holds of every frame: events come from signals, no more updates
    /// are asked for than are due, updates start only when every signal has
    /// been dispatched, and the draw only when every update has been asked
    /// for.
    pub open spec fn wf(self) -> bool {
        &&& self.events <= self.next_signal <= self.signals.len()
        &&& self.signals.len() <= usize::MAX
        &&& self.updates <= self.due <= u32::MAX
        &&& self.phase == Phase::Pumping ==> self.updates == 0
        &&& self.phase == Phase::Updating ==> self.next_signal == self.signals.len() && self.updates > 0
        &&& self.phase == Phase::Drawing ==> self.next_signal == self.signals.len() && self.updates
            == self.due
    }

    pub open spec fn report(self) -> FrameReport {
        FrameReport { events: self.events as usize, updates: self.updates as u32, running: self.running }
    }

    /// Whether the next step dispatches a signal.
    pub open spec fn has_signal(self) -> bool {
        self.phase == Phase::Pumping && self.next_signal < self.signals.len()
    }

    /// What the next step tells the driver, given what the last callback
    /// returned and the context as it is before the step.
    pub open spec fn directive(self, outcome: Result<(), TetraError>, ctx: TetraContext) -> Directive {
        if self.phase == Phase::Finished {
            Directive::Finish(self.report())
        } else if outcome is Err {
            Directive::Fail(outcome->Err_0)
        } else if self.phase == Phase::Drawing {
            Directive::Finish(FrameReport { running: ctx.running, ..self.report() })
        } else if self.has_signal() {
            match event_of(self.signals[self.next_signal as int], ctx.window.key_repeat_enabled) {
                Some(event) => Directive::Event(event),
                None => Directive::Continue,
            }
        } else if self.updates < self.due {
            Directive::Update
        } else {
            Directive::Draw
        }
    }

    /// The frame after the next step.
    pub open spec fn stepped(self, outcome: Result<(), TetraError>, ctx: TetraContext) -> FrameView {
        if self.phase == Phase::Finished {
            self
        } else if outcome is Err {
            FrameView { phase: Phase::Finished, ..self }
        } else if self.phase == Phase::Drawing {
            FrameView { phase: Phase::Finished, running: ctx.running, ..self }
        } else if self.has_signal() {
            FrameView {
                next_signal: self.next_signal + 1,
                events: if event_of(
                    self.signals[self.next_signal as int],
                    ctx.window.key_repeat_enabled,
                ) is Some {
                    self.events + 1
                } else {
                    self.events
                },
                ..self
            }
        } else if self.updates < self.due {
            FrameView { updates: self.updates + 1, phase: Phase::Updating, ..self }
        } else {
            FrameView { phase: Phase::Drawing, ..self }
        }
    }

    /// Whether the next step takes the context from `before` to `after`: a
    /// dispatched signal leaves its marks, a completed update has the pressed
    /// and released marks cleared, and no other step touches the context.
    pub open spec fn moves(self, outcome: Result<(), TetraError>, before: TetraContext, after: TetraContext) -> bool {
        if self.phase == Phase::Finished || outcome is Err || self.phase == Phase::Drawing {
            after == before
        } else if self.has_signal() {
            let signal = self.signals[self.next_signal as int];
            let key_repeat = before.window.key_repeat_enabled;
            &&& after.input@ == input_after(before.input@, signal, key_repeat)
            &&& after.window == window_after(before.window, signal)
            &&& after.running == running_after(before.running, before.quit_on_escape, signal, key_repeat)
            &&& after.graphics == before.graphics
            &&& after.clock == before.clock
            &&& after.quit_on_escape == before.quit_on_escape
        } else if self.phase == Phase::Updating {
            &&& after.input@ == before.input@.settled()
            &&& after.window == before.window
            &&& after.running == before.running
            &&& after.graphics == before.graphics
            &&& after.clock == before.clock
            &&& after.quit_on_escape == before.quit_on_escape
        } else {
            after == before
        }
    }

    /// A bound on the number of steps that the frame still takes.
    pub open spec fn remaining(self) -> nat {
        match self.phase {
            Phase::Finished => 0,
            Phase::Drawing => 1,
            _ => ((self.signals.len() - self.next_signal) + (self.due - self.updates) + 2) as nat,
        }
    }
}

/// The progress of one frame.
#[derive(Debug)]
pub struct Frame<'a> {
    signals: &'a Vec<Signal>,
    next_signal: usize,
    due: u32,
    updates: u32,
    events: usize,
    phase: Phase,
    running: bool,
}

impl<'a> View for Frame<'a> {
    type V = FrameView;

    closed spec fn view(&self) -> FrameView {
        FrameView {
            signals: self.signals@,
            next_signal: self.next_signal as nat,
            due: self.due as nat,
            updates: self.updates as nat,
            events: self.events as nat,
            phase: self.phase,
            running: self.running,
        }
    }
}

impl<'a> Frame<'a> {
    #[verifier::type_invariant]
    closed spec fn well_formed(&self) -> bool {
        self@.wf()
    }

    /// Begins a frame that has `signals` to dispatch, `elapsed_ns`
    /// nanoseconds after the frame before. The clock is advanced at once:
    /// the updates that the frame owes are fixed here.
    pub fn begin(ctx: &mut TetraContext, signals: &'a Vec<Signal>, elapsed_ns: u64) -> (frame: Frame<'a>)
        ensures
            frame@ == (FrameView {
                signals: signals@,
                next_signal: 0,
                due: updates_due(
                    old(ctx).clock.pending(),
                    elapsed_ns as nat,
                    old(ctx).clock.rate(),
                    old(ctx).clock.limit(),
                ),
                updates: 0,
                events: 0,
                phase: Phase::Pumping,
                running: old(ctx).running,
            }),
            frame@.wf(),
            final(ctx).clock.pending() == carry_over(
                old(ctx).clock.pending(),
                elapsed_ns as nat,
                old(ctx).clock.rate(),
                old(ctx).clock.limit(),
            ),
            final(ctx).clock.rate() == old(ctx).clock.rate(),
            final(ctx).clock.limit() == old(ctx).clock.limit(),
            final(ctx).clock.delta() == elapsed_ns,
            final(ctx).window == old(ctx).window,
            final(ctx).graphics == old(ctx).graphics,
            final(ctx).input == old(ctx).input,
            final(ctx).running == old(ctx).running,
            final(ctx).quit_on_escape == old(ctx).quit_on_escape,
    {
        let due: u32 = ctx.clock.advance(elapsed_ns);
        assert(signals@.len() <= usize::MAX) by {
            let count = signals.len();
        }
        Frame {
            signals,
            next_signal: 0,
            due,
            updates: 0,
            events: 0,
            phase: Phase::Pumping,
            running: ctx.running,
        }
    }

    /// Whether nothing is left to do.
    pub fn is_finished(&self) -> (finished: bool)
        ensures
            finished == (self@.phase == Phase::Finished),
    {
        self.phase == Phase::Finished
    }

    /// Takes what the last callback returned (`Ok` where there was none) and
    /// says what comes next.
    ///
    /// An error ends the frame. Otherwise the signals come first, one to a
    /// step, each dispatched here and handed out if it makes an event. Then
    /// come the updates that are due, the input marks being cleared after
    /// each. Then comes the draw, and after the draw the report.
    pub fn step(&mut self, ctx: &mut TetraContext, outcome: Result<(), TetraError>) -> (directive: Directive)
        ensures
            directive == old(self)@.directive(outcome, *old(ctx)),
            final(self)@ == old(self)@.stepped(outcome, *old(ctx)),
            old(self)@.moves(outcome, *old(ctx), *final(ctx)),
            old(self)@.wf(),
            final(self)@.wf(),
    {
        proof {
            use_type_invariant(&*self);
        }
        if self.phase == Phase::Finished {
            return Directive::Finish(
                FrameReport { events: self.events, updates: self.updates, running: self.running },
            );
        }
        match outcome {
            Ok(_) => {},
            Err(error) => {
                self.phase = Phase::Finished;
                return Directive::Fail(error);
            },
        }
        if self.phase == Phase::Drawing {
            self.running = ctx.running;
            self.phase = Phase::Finished;
            return Directive::Finish(
                FrameReport { events: self.events, updates: self.updates, running: self.running },
            );
        }
        if self.phase == Phase::Pumping && self.next_signal < self.signals.len() {
            let heard = dispatch(ctx, &self.signals[self.next_signal]);
            return match heard {
                Some(event) => {
                    self.next_signal = self.next_signal + 1;
                    self.events = self.events + 1;
                    Directive::Event(event)
                },
                None => {
                    self.next_signal = self.next_signal + 1;
                    Directive::Continue
                },
            };
        }
        if self.phase == Phase::Updating {
            ctx.input.clear();
        }
        if self.updates < self.due {
            *self = Frame { phase: Phase::Updating, updates: self.updates + 1, ..*self };
            Directive::Update
        } else {
            self.phase = Phase::Drawing;
            Directive::Draw
        }
    }
}

/// A step keeps a frame well formed.
pub proof fn lemma_step_keeps_wf(frame: FrameView, outcome: Result<(), TetraError>, ctx: TetraContext)
    requires
        frame.wf(),
    ensures
        frame.stepped(outcome, ctx).wf(),
{
}

/// A frame comes to an end: every step of an unfinished frame brings it
/// closer.
pub proof fn lemma_step_makes_progress(frame: FrameView, outcome: Result<(), TetraError>, ctx: TetraContext)
    requires
        frame.wf(),
        frame.phase != Phase::Finished,
    ensures
        frame.stepped(outcome, ctx).remaining() < frame.remaining(),
{
}

/// The error of a callback ends the frame at once: nothing more is asked
/// for, and the error is handed on as it is.
pub proof fn lemma_error_ends_frame(frame: FrameView, error: TetraError, ctx: TetraContext)
    requires
        frame.phase != Phase::Finished,
    ensures
        frame.directive(Err(error), ctx) == Directive::Fail(error),
        frame.stepped(Err(error), ctx).phase == Phase::Finished,
        frame.moves(Err(error), ctx, ctx),
{
}

/// The order of a frame. An update is asked for only when every signal has
/// been dispatched. The draw is asked for only when, on top of that, every
/// update that is due has been asked for. And the frame is reported complete
/// only after the draw, with exactly the updates that were due.
pub proof fn lemma_frame_order(frame: FrameView, ctx: TetraContext)
    requires
        frame.wf(),
        frame.phase != Phase::Finished,
    ensures
        frame.directive(Ok(()), ctx) is Update ==> frame.next_signal == frame.signals.len()
            && frame.updates < frame.due,
        frame.directive(Ok(()), ctx) is Draw ==> frame.next_signal == frame.signals.len()
            && frame.updates == frame.due && frame.phase != Phase::Drawing,
        frame.directive(Ok(()), ctx) is Finish ==> frame.phase == Phase::Drawing && frame.directive(
            Ok(()),
            ctx,
        )->Finish_0.updates == frame.due,
        frame.stepped(Ok(()), ctx).phase == Phase::Drawing <==> frame.directive(Ok(()), ctx) is Draw,
{
}

/// The frame after `count` steps, each taken after a callback that
/// succeeded, step `i` in the context `contexts[i]`.
pub open spec fn after_steps(frame: FrameView, contexts: Seq<TetraContext>, count: nat) -> FrameView
    decreases count,
{
    if count == 0 {
        frame
    } else {
        after_steps(frame, contexts, (count - 1) as nat).stepped(Ok(()), contexts[count - 1])
    }
}

/// What step `index` of a frame tells the driver, while callbacks succeed.
pub open spec fn directive_at(frame: FrameView, contexts: Seq<TetraContext>, index: nat) -> Directive {
    after_steps(frame, contexts, index).directive(Ok(()), contexts[index as int])
}

/// Whether `frame` has just been begun.
pub open spec fn is_fresh(frame: FrameView) -> bool {
    &&& frame.wf()
    &&& frame.phase == Phase::Pumping
    &&& frame.next_signal == 0
    &&& frame.events == 0
}

/// Where a fresh frame stands after `count` steps.
proof fn lemma_progress(frame: FrameView, contexts: Seq<TetraContext>, count: nat)
    requires
        is_fresh(frame),
    ensures
        ({
            let now = after_steps(frame, contexts, count);
            let signals = frame.signals.len();
            &&& now.wf()
            &&& now.signals == frame.signals
            &&& now.due == frame.due
            &&& count <= signals ==> now.phase == Phase::Pumping && now.next_signal == count
            &&& signals < count <= signals + frame.due ==> now.phase == Phase::Updating && now.updates
                == count - signals
            &&& count == signals + frame.due + 1 ==> now.phase == Phase::Drawing
            &&& count > signals + frame.due + 1 ==> now.phase == Phase::Finished && now.updates
                == frame.due
        }),
    decreases count,
{
    if count > 0 {
        lemma_progress(frame, contexts, (count - 1) as nat);
    }
}

/// The schedule of a frame. While callbacks succeed, whatever they do to the
/// context: the first steps dispatch the signals, one each and in order, and
/// hand out the event of each signal that makes one; the next steps ask for
/// an update, once for every update that is due; the step after those asks
/// for the draw; and the step after the draw reports the frame complete,
/// with every due update run.
pub proof fn lemma_frame_schedule(frame: FrameView, contexts: Seq<TetraContext>, index: nat)
    requires
        is_fresh(frame),
    ensures
        ({
            let directive = directive_at(frame, contexts, index);
            let signals = frame.signals.len();
            &&& index < signals ==> directive == match event_of(
                frame.signals[index as int],
                contexts[index as int].window.key_repeat_enabled,
            ) {
                Some(event) => Directive::Event(event),
                None => Directive::Continue,
            }
            &&& signals <= index < signals + frame.due ==> directive == Directive::Update
            &&& index == signals + frame.due ==> directive == Directive::Draw
            &&& index > signals + frame.due ==> directive is Finish && directive->Finish_0.updates
                == frame.due
        }),
{
    lemma_progress(frame, contexts, index);
}

/// One turn of a frame: a step that asks for something, and the call that
/// it asks for.
pub ghost struct Turn<S> {
    /// The frame before the step.
    pub frame: FrameView,
    /// The context before the step.
    pub ctx: TetraContext,
    /// The state before the call.
    pub state: S,
    /// The context after the step, as the callback finds it.
    pub handed: TetraContext,
    /// The state and the context as the callback leaves them.
    pub state_after: S,
    pub ctx_after: TetraContext,
    /// What the callback returned.
    pub result: Result<(), TetraError>,
}

impl<S> Turn<S> {
    /// What the step of this turn asks for.
    pub open spec fn directive(self) -> Directive {
        self.frame.directive(Ok(()), self.ctx)
    }

    /// Whether the step of this turn is a step of the frame that asks for
    /// something, and takes the context to what the callback is handed. A
    /// step that asks for nothing but to go on is followed by no call.
    pub open spec fn steps(self) -> bool {
        &&& self.frame.wf()
        &&& self.frame.moves(Ok(()), self.ctx, self.handed)
        &&& !(self.directive() is Finish)
        &&& self.directive() is Continue ==> self.idles()
    }

    /// Whether this turn takes up where the turn `before` ended, which
    /// succeeded.
    pub open spec fn follows(self, before: Turn<S>) -> bool {
        &&& before.result is Ok
        &&& self.frame == before.frame.stepped(Ok(()), before.ctx)
        &&& self.ctx == before.ctx_after
        &&& self.state == before.state_after
    }

    /// Whether nothing was called in this turn: the state and the context
    /// are as the step left them.
    pub open spec fn idles(self) -> bool {
        &&& self.result is Ok
        &&& self.state_after == self.state
        &&& self.ctx_after == self.handed
    }

    /// Whether `r` is what the frame returns when this was its last turn:
    /// the error of the callback if it failed, the report of the frame if
    /// the callback was the draw and succeeded.
    pub open spec fn ends_with(self, r: Result<FrameReport, TetraError>) -> bool {
        match self.frame.stepped(Ok(()), self.ctx).directive(self.result, self.ctx_after) {
            Directive::Finish(report) => r == Ok::<FrameReport, TetraError>(report),
            Directive::Fail(error) => r == Err::<FrameReport, TetraError>(error),
            _ => false,
        }
    }
}

/// Whether turn `index` of `turns` takes up where the turn before it ended.
pub open spec fn takes_up<S>(turns: Seq<Turn<S>>, index: int) -> bool {
    turns[index].follows(turns[index - 1])
}

/// Whether `turns` are the turns of a frame that was begun on `state` and
/// `ctx`, with `signals` to dispatch and `elapsed_ns` nanoseconds after the
/// frame before, and that returned `r`. The first turn begins where the fresh
/// frame begins, every other turn takes up where the turn before it ended,
/// in each the frame takes a step that asks for something, and the last
/// turn, the first that failed or else the one of the draw, decides what is
/// returned. What the calls of the turns did is not said here.
pub open spec fn is_frame<S>(
    turns: Seq<Turn<S>>,
    state: S,
    ctx: TetraContext,
    signals: Seq<Signal>,
    elapsed_ns: u64,
    r: Result<FrameReport, TetraError>,
) -> bool {
    &&& turns.len() > 0
    &&& begins(ctx, signals, elapsed_ns, turns[0].frame, turns[0].ctx)
    &&& turns[0].state == state
    &&& forall|i: int| 0 <= i < turns.len() ==> (#[trigger] turns[i]).steps()
    &&& forall|i: int| 0 < i < turns.len() ==> #[trigger] takes_up(turns, i)
    &&& turns.last().ends_with(r)
}

/// The contexts in which the turns take their steps.
pub open spec fn contexts_of<S>(turns: Seq<Turn<S>>) -> Seq<TetraContext> {
    Seq::new(turns.len(), |i: int| turns[i].ctx)
}

/// The frame of every turn is the fresh frame after as many steps.
proof fn lemma_turns_step_along<S>(
    turns: Seq<Turn<S>>,
    state: S,
    ctx: TetraContext,
    signals: Seq<Signal>,
    elapsed_ns: u64,
    r: Result<FrameReport, TetraError>,
    index: int,
)
    requires
        is_frame(turns, state, ctx, signals, elapsed_ns, r),
        0 <= index < turns.len(),
    ensures
        is_fresh(turns[0].frame),
        turns[index].frame == after_steps(turns[0].frame, contexts_of(turns), index as nat),
    decreases index,
{
    assert(turns[0].steps());
    if index > 0 {
        lemma_turns_step_along(turns, state, ctx, signals, elapsed_ns, r, index - 1);
        assert(takes_up(turns, index));
    }
}

/// The turns of a frame keep to the schedule. Turn after turn the signals
/// are dispatched, in order, and the event of each signal that makes one is
/// delivered; then comes one turn for every update that is due; then the
/// turn of the draw, which is the last. A frame that succeeds has all these
/// turns: every signal was dispatched, every due update was run, and the
/// draw was run once. A frame that fails has the turns up to the one that
/// failed.
pub proof fn lemma_turns_keep_to_the_schedule<S>(
    turns: Seq<Turn<S>>,
    state: S,
    ctx: TetraContext,
    signals: Seq<Signal>,
    elapsed_ns: u64,
    r: Result<FrameReport, TetraError>,
    index: int,
)
    requires
        is_frame(turns, state, ctx, signals, elapsed_ns, r),
        0 <= index < turns.len(),
    ensures
        ({
            let due = updates_due(ctx.clock.pending(), elapsed_ns as nat, ctx.clock.rate(), ctx.clock.limit());
            &&& turns.len() <= signals.len() + due + 1
            &&& r is Ok <==> turns.len() == signals.len() + due + 1 && turns.last().result is Ok
            &&& index < signals.len() ==> turns[index].directive() == match event_of(
                signals[index],
                turns[index].ctx.window.key_repeat_enabled,
            ) {
                Some(event) => Directive::Event(event),
                None => Directive::Continue,
            }
            &&& signals.len() <= index < signals.len() + due ==> turns[index].directive()
                == Directive::Update
            &&& index == signals.len() + due ==> turns[index].directive() == Directive::Draw
        }),
{
    let first = turns[0].frame;
    let contexts = contexts_of(turns);
    let last = turns.len() - 1;
    lemma_turns_step_along(turns, state, ctx, signals, elapsed_ns, r, index);
    lemma_turns_step_along(turns, state, ctx, signals, elapsed_ns, r, last);
    lemma_frame_schedule(first, contexts, index as nat);
    lemma_frame_schedule(first, contexts, last as nat);
    lemma_progress(first, contexts, last as nat);
    lemma_progress(first, contexts, (last + 1) as nat);
    assert(turns[index].steps());
    assert(turns[last].steps());
    assert(contexts[index] == turns[index].ctx);
    assert(contexts[last] == turns[last].ctx);
    assert(turns[last].frame.stepped(Ok(()), turns[last].ctx) == after_steps(first, contexts, (last + 1) as nat));
}

/// Whether the call of `turn` was made on `state` and `ctx`: the callback
/// that the step asked for found them as the turn says, and may return what
/// the turn says. The references stand for the state and the context both as
/// the call finds them and as it leaves them.
pub open spec fn calls<S: State>(turn: Turn<S>, state: &mut S, ctx: &mut TetraContext) -> bool {
    &&& mut_ref_current(state) == turn.state
    &&& mut_ref_current(ctx) == turn.handed
    &&& match turn.directive() {
        Directive::Event(event) => call_ensures(S::event, (state, ctx, event), turn.result),
        Directive::Update => call_ensures(S::update, (state, ctx), turn.result),
        Directive::Draw => call_ensures(S::draw, (state, ctx), turn.result),
        _ => false,
    }
}

/// Whether a frame begun on the context `before`, with `signals` to dispatch
/// and `elapsed_ns` nanoseconds after the frame before, is `frame`, and
/// leaves the context as `after`: the clock advanced, nothing else changed.
pub open spec fn begins(
    before: TetraContext,
    signals: Seq<Signal>,
    elapsed_ns: u64,
    frame: FrameView,
    after: TetraContext,
) -> bool {
    &&& frame == (FrameView {
        signals,
        next_signal: 0,
        due: updates_due(
            before.clock.pending(),
            elapsed_ns as nat,
            before.clock.rate(),
            before.clock.limit(),
        ),
        updates: 0,
        events: 0,
        phase: Phase::Pumping,
        running: before.running,
    })
    &&& after.clock.pending() == carry_over(
        before.clock.pending(),
        elapsed_ns as nat,
        before.clock.rate(),
        before.clock.limit(),
    )
    &&& after.clock.rate() == before.clock.rate()
    &&& after.clock.limit() == before.clock.limit()
    &&& after.clock.delta() == elapsed_ns
    &&& after.window == before.window
    &&& after.graphics == before.graphics
    &&& after.input == before.input
    &&& after.running == before.running
    &&& after.quit_on_escape == before.quit_on_escape
}

/// Whether `r` is what one of the callbacks of `S` may return when it is
/// called on the state `state` and the context `ctx`: `update`, `draw`, or
/// `event` with some event. The references stand for the state and the
/// context both as the call finds them and as it leaves them.
pub open spec fn callback_returns<S: State>(state: &mut S, ctx: &mut TetraContext, r: Result<(), TetraError>) -> bool {
    ||| call_ensures(S::update, (state, ctx), r)
    ||| call_ensures(S::draw, (state, ctx), r)
    ||| exists|event: Event| call_ensures(S::event, (state, ctx, event), r)
}

/// Whether `r` is what the draw callback of `S` may return when it is called
/// on the state `state` and the context `ctx`.
pub open spec fn draw_returns<S: State>(state: &mut S, ctx: &mut TetraContext, r: Result<(), TetraError>) -> bool {
    call_ensures(S::draw, (state, ctx), r)
}

/// Runs one frame.
///
/// The signals are dispatched in order, each event being delivered to
/// `state.event` before the next signal is looked at. Then `state.update` is
/// called once for every update that the clock says is due after
/// `elapsed_ns`. Then `state.draw` is called once. The first callback that
/// fails ends the frame, and its error is returned.
///
/// Quitting does not cut a frame short: the running flag is reported at the
/// end, for the caller to stop.
///
/// The frame is a sequence of turns, as `is_frame` says. In each the frame
/// takes a step, and the callback that the step asks for is called on what
/// the step left: what the turn says of the state and the context before and
/// after the call, and of the result, is what that callback may do.
///
/// So a frame that succeeds has ended with a draw that succeeded, and a
/// frame that fails has ended with the callback that failed: the error is
/// the one that the callback returned. Either way the state and the context
/// are as that call left them.
pub fn run_frame<S: State>(ctx: &mut TetraContext, state: &mut S, signals: &Vec<Signal>, elapsed_ns: u64) -> (r:
    Result<FrameReport, TetraError>)
    ensures
        exists|turns: Seq<Turn<S>>|
            {
                &&& is_frame(turns, *old(state), *old(ctx), signals@, elapsed_ns, r)
                &&& forall|i: int|
                    0 <= i < turns.len() && !((#[trigger] turns[i]).directive() is Continue)
                        ==> exists|s: &mut S, c: &mut TetraContext|
                        {
                            &&& #[trigger] calls(turns[i], s, c)
                            &&& mut_ref_future(s) == turns[i].state_after
                            &&& mut_ref_future(c) == turns[i].ctx_after
                        }
                &&& *final(state) == turns.last().state_after
                &&& *final(ctx) == turns.last().ctx_after
            },
        r matches Ok(report) ==> {
            &&& report.updates == updates_due(
                old(ctx).clock.pending(),
                elapsed_ns as nat,
                old(ctx).clock.rate(),
                old(ctx).clock.limit(),
            )
            &&& report.events <= signals@.len()
            &&& report.running == final(ctx).running
        },
        r is Ok ==> exists|s: &mut S, c: &mut TetraContext|
            {
                &&& #[trigger] draw_returns(s, c, Ok(()))
                &&& mut_ref_future(s) == *final(state)
                &&& mut_ref_future(c) == *final(ctx)
            },
        r matches Err(error) ==> exists|s: &mut S, c: &mut TetraContext|
            {
                &&& #[trigger] callback_returns(s, c, Err(error))
                &&& mut_ref_future(s) == *final(state)
                &&& mut_ref_future(c) == *final(ctx)
            },
{
    let mut frame = Frame::begin(ctx, signals, elapsed_ns);
    let ghost due = frame@.due;
    let ghost first_frame = frame@;
    let ghost first_ctx = *ctx;
    let ghost mut turns: Seq<Turn<S>> = Seq::empty();
    let mut outcome: Result<(), TetraError> = Ok(());
    loop
        invariant
            frame@.wf(),
            frame@.phase != Phase::Finished,
            frame@.due == due,
            frame@.signals == signals@,
            due == updates_due(
                old(ctx).clock.pending(),
                elapsed_ns as nat,
                old(ctx).clock.rate(),
                old(ctx).clock.limit(),
            ),
            begins(*old(ctx), signals@, elapsed_ns, first_frame, first_ctx),
            turns.len() == 0 ==> frame@ == first_frame && *ctx == first_ctx && *state == *old(state)
                && outcome is Ok,
            turns.len() > 0 ==> {
                &&& turns[0].frame == first_frame
                &&& turns[0].ctx == first_ctx
                &&& turns[0].state == *old(state)
                &&& frame@ == turns.last().frame.stepped(Ok(()), turns.last().ctx)
                &&& *ctx == turns.last().ctx_after
                &&& *state == turns.last().state_after
                &&& outcome == turns.last().result
            },
            forall|i: int| 0 <= i < turns.len() ==> (#[trigger] turns[i]).steps(),
            forall|i: int| 0 < i < turns.len() ==> #[trigger] takes_up(turns, i),
            forall|i: int|
                0 <= i < turns.len() && !((#[trigger] turns[i]).directive() is Continue)
                    ==> exists|s: &mut S, c: &mut TetraContext|
                    {
                        &&& #[trigger] calls(turns[i], s, c)
                        &&& mut_ref_future(s) == turns[i].state_after
                        &&& mut_ref_future(c) == turns[i].ctx_after
                    },
            frame@.phase == Phase::Drawing ==> exists|s: &mut S, c: &mut TetraContext|
                {
                    &&& #[trigger] draw_returns(s, c, outcome)
                    &&& mut_ref_future(s) == *state
                    &&& mut_ref_future(c) == *ctx
                },
            outcome is Err ==> exists|s: &mut S, c: &mut TetraContext|
                {
                    &&& #[trigger] callback_returns(s, c, outcome)
                    &&& mut_ref_future(s) == *state
                    &&& mut_ref_future(c) == *ctx
                },
        decreases frame@.remaining(),
    {
        proof {
            lemma_step_makes_progress(frame@, outcome, *ctx);
        }
        let ghost before = frame@;
        let ghost ctx_before = *ctx;
        let ghost state_before = *state;
        let ghost given = outcome;
        let directive = frame.step(ctx, outcome);
        let ghost handed = *ctx;
        let ghost asked = directive;
        match directive {
            Directive::Continue => {
                outcome = Ok(());
            },
            Directive::Event(event) => {
                outcome = state.event(ctx, event);
                proof {
                    let (s, c) = choose|s: &mut S, c: &mut TetraContext|
                        {
                            &&& #[trigger] call_ensures(S::event, (s, c, event), outcome)
                            &&& mut_ref_current(s) == state_before
                            &&& mut_ref_current(c) == handed
                            &&& mut_ref_future(s) == *state
                            &&& mut_ref_future(c) == *ctx
                        };
                    assert(callback_returns(s, c, outcome));
                }
            },
            Directive::Update => {
                outcome = state.update(ctx);
                proof {
                    let (s, c) = choose|s: &mut S, c: &mut TetraContext|
                        {
                            &&& #[trigger] call_ensures(S::update, (s, c), outcome)
                            &&& mut_ref_current(s) == state_before
                            &&& mut_ref_current(c) == handed
                            &&& mut_ref_future(s) == *state
                            &&& mut_ref_future(c) == *ctx
                        };
                    assert(callback_returns(s, c, outcome));
                }
            },
            Directive::Draw => {
                outcome = state.draw(ctx);
                proof {
                    let (s, c) = choose|s: &mut S, c: &mut TetraContext|
                        {
                            &&& #[trigger] call_ensures(S::draw, (s, c), outcome)
                            &&& mut_ref_current(s) == state_before
                            &&& mut_ref_current(c) == handed
                            &&& mut_ref_future(s) == *state
                            &&& mut_ref_future(c) == *ctx
                        };
                    assert(draw_returns(s, c, outcome));
                    assert(callback_returns(s, c, outcome));
                }
            },
            Directive::Finish(report) => {
                assert(before.phase == Phase::Drawing);
                assert(given is Ok);
                assert(given->Ok_0 == ());
                assert(given == Ok::<(), TetraError>(()));
                assert(turns.len() > 0);
                assert(turns.last().ends_with(Ok::<FrameReport, TetraError>(report)));
                assert(is_frame(
                    turns,
                    *old(state),
                    *old(ctx),
                    signals@,
                    elapsed_ns,
                    Ok::<FrameReport, TetraError>(report),
                ));
                return Ok(report);
            },
            Directive::Fail(error) => {
                assert(given == Err::<(), TetraError>(error));
                assert(turns.len() > 0);
                assert(turns.last().ends_with(Err::<FrameReport, TetraError>(error)));
                assert(is_frame(
                    turns,
                    *old(state),
                    *old(ctx),
                    signals@,
                    elapsed_ns,
                    Err::<FrameReport, TetraError>(error),
                ));
                return Err(error);
            },
        }
        proof {
            assert(given is Ok);
            assert(given->Ok_0 == ());
            assert(given == Ok::<(), TetraError>(()));
            let turn = Turn {
                frame: before,
                ctx: ctx_before,
                state: state_before,
                handed,
                state_after: *state,
                ctx_after: *ctx,
                result: outcome,
            };
            assert(turn.directive() == asked);
            assert(asked is Continue ==> turn.idles());
            assert(turn.steps());
            let earlier = turns;
            turns = turns.push(turn);
            assert(turns.last() == turn);
            assert forall|i: int| 0 <= i < turns.len() implies (#[trigger] turns[i]).steps() by {
                if i < earlier.len() {
                    assert(turns[i] == earlier[i]);
                }
            }
            assert forall|i: int| 0 < i < turns.len() implies #[trigger] takes_up(turns, i) by {
                if i < earlier.len() {
                    assert(takes_up(earlier, i));
                    assert(turns[i] == earlier[i]);
                    assert(turns[i - 1] == earlier[i - 1]);
                } else {
                    assert(turns[i - 1] == earlier.last());
                }
            }
            assert forall|i: int|
                0 <= i < turns.len() && !((#[trigger] turns[i]).directive() is Continue) implies exists|
                s: &mut S,
                c: &mut TetraContext,
            |
                {
                    &&& #[trigger] calls(turns[i], s, c)
                    &&& mut_ref_future(s) == turns[i].state_after
                    &&& mut_ref_future(c) == turns[i].ctx_after
                } by {
                if i < earlier.len() {
                    assert(turns[i] == earlier[i]);
                } else {
                    assert(turns[i] == turn);
                    if !(asked is Continue) {
                        let (s, c) = choose|s: &mut S, c: &mut TetraContext|
                            {
                                &&& mut_ref_current(s) == state_before
                                &&& mut_ref_current(c) == handed
                                &&& mut_ref_future(s) == *state
                                &&& mut_ref_future(c) == *ctx
                                &&& match asked {
                                    Directive::Event(event) => call_ensures(S::event, (s, c, event), outcome),
                                    Directive::Update => call_ensures(S::update, (s, c), outcome),
                                    Directive::Draw => call_ensures(S::draw, (s, c), outcome),
                                    _ => false,
                                }
                            };
                        assert(calls(turn, s, c));
                    }
                }
            }
        }
    }
}

/// The state on which lap `index` of a run begins that was begun on
/// `state`: what the lap before it left.
pub open spec fn lap_state<S>(laps: Seq<Seq<Turn<S>>>, state: S, index: int) -> S {
    if index == 0 {
        state
    } else {
        laps[index - 1].last().state_after
    }
}

/// The context on which lap `index` of a run begins that was begun on `ctx`:
/// what the lap before it left.
pub open spec fn lap_ctx<S>(laps: Seq<Seq<Turn<S>>>, ctx: TetraContext, index: int) -> TetraContext {
    if index == 0 {
        ctx
    } else {
        laps[index - 1].last().ctx_after
    }
}

/// Whether lap `index` of a run is the frame of input `index`, begun while
/// the context was running, and returned `results[index]`.
pub open spec fn is_lap<S>(
    laps: Seq<Seq<Turn<S>>>,
    results: Seq<Result<FrameReport, TetraError>>,
    state: S,
    ctx: TetraContext,
    inputs: Seq<FrameInput>,
    index: int,
) -> bool {
    &&& lap_ctx(laps, ctx, index).running
    &&& is_frame(
        laps[index],
        lap_state(laps, state, index),
        lap_ctx(laps, ctx, index),
        inputs[index].signals@,
        inputs[index].elapsed_ns,
        results[index],
    )
}

/// Whether `laps` are the frames of a run that was begun on `state` and
/// `ctx` and returned `r`, each given as its turns, and `results` what they
/// returned. Lap after lap is the frame of the next input, begun on what the
/// lap before it left. Every lap but the last succeeded. The run ends with
/// the error of the lap that failed, or else with the number of laps: when
/// the inputs have run out, or the context is no longer running.
pub open spec fn is_run<S>(
    laps: Seq<Seq<Turn<S>>>,
    results: Seq<Result<FrameReport, TetraError>>,
    state: S,
    ctx: TetraContext,
    inputs: Seq<FrameInput>,
    r: Result<usize, TetraError>,
) -> bool {
    &&& laps.len() == results.len()
    &&& laps.len() <= inputs.len()
    &&& forall|k: int| 0 <= k < laps.len() ==> #[trigger] is_lap(laps, results, state, ctx, inputs, k)
    &&& forall|k: int| 0 <= k < laps.len() - 1 ==> (#[trigger] results[k]) is Ok
    &&& if laps.len() > 0 && results.last() is Err {
        r == Err::<usize, TetraError>(results.last()->Err_0)
    } else {
        &&& r == Ok::<usize, TetraError>(laps.len() as usize)
        &&& laps.len() == inputs.len() || !lap_ctx(laps, ctx, laps.len() as int).running
    }
}

/// Whether `laps` are the first `frames` frames of a run that was begun on
/// `state` and `ctx`, and all of them succeeded.
pub open spec fn runs_so_far<S>(
    laps: Seq<Seq<Turn<S>>>,
    results: Seq<Result<FrameReport, TetraError>>,
    state: S,
    ctx: TetraContext,
    inputs: Seq<FrameInput>,
    frames: int,
) -> bool {
    &&& laps.len() == frames
    &&& results.len() == frames
    &&& forall|k: int| 0 <= k < laps.len() ==> #[trigger] is_lap(laps, results, state, ctx, inputs, k)
    &&& forall|k: int| 0 <= k < laps.len() ==> (#[trigger] results[k]) is Ok
}

/// Runs the frames of `inputs` in order, for as long as the context is
/// running, and returns how many were run. The running flag is looked at
/// before every frame, never within one: a context that is not running runs
/// no frame, and one that is running runs the first. The error of a callback
/// ends the run and is returned.
///
/// The run is a sequence of frames, as `is_run` says, and each frame is run
/// as `run_frame` runs it: in each of its turns the callback that the step
/// asks for is called on what the step left.
///
/// So where there is nothing to run, the run succeeds and changes nothing. A
/// run of one frame or more that succeeds has ended with a draw that
/// succeeded, and a run that fails has ended with the callback that failed;
/// the state and the context are as that call left them.
pub fn run<S: State>(ctx: &mut TetraContext, state: &mut S, inputs: &Vec<FrameInput>) -> (r: Result<
    usize,
    TetraError,
>)
    ensures
        exists|laps: Seq<Seq<Turn<S>>>, results: Seq<Result<FrameReport, TetraError>>|
            {
                &&& #[trigger] is_run(laps, results, *old(state), *old(ctx), inputs@, r)
                &&& forall|k: int, i: int|
                    0 <= k < laps.len() && 0 <= i < laps[k].len() && !((#[trigger] laps[k][i]).directive() is Continue)
                        ==> exists|s: &mut S, c: &mut TetraContext|
                        {
                            &&& #[trigger] calls(laps[k][i], s, c)
                            &&& mut_ref_future(s) == laps[k][i].state_after
                            &&& mut_ref_future(c) == laps[k][i].ctx_after
                        }
                &&& *final(state) == lap_state(laps, *old(state), laps.len() as int)
                &&& *final(ctx) == lap_ctx(laps, *old(ctx), laps.len() as int)
            },
        !old(ctx).running || inputs@.len() == 0 ==> r == Ok::<usize, TetraError>(0) && *final(ctx) == *old(
            ctx,
        ) && *final(state) == *old(state),
        r matches Ok(frames) ==> {
            &&& frames <= inputs@.len()
            &&& frames < inputs@.len() ==> !final(ctx).running
            &&& frames == 0 <==> !old(ctx).running || inputs@.len() == 0
        },
        r matches Ok(frames) && frames > 0 ==> exists|s: &mut S, c: &mut TetraContext|
            {
                &&& #[trigger] draw_returns(s, c, Ok(()))
                &&& mut_ref_future(s) == *final(state)
                &&& mut_ref_future(c) == *final(ctx)
            },
        r matches Err(error) ==> exists|s: &mut S, c: &mut TetraContext|
            {
                &&& #[trigger] callback_returns(s, c, Err(error))
                &&& mut_ref_future(s) == *final(state)
                &&& mut_ref_future(c) == *final(ctx)
            },
{
    let mut frames: usize = 0;
    proof {
        assert(runs_so_far(
            Seq::<Seq<Turn<S>>>::empty(),
            Seq::<Result<FrameReport, TetraError>>::empty(),
            *old(state),
            *old(ctx),
            inputs@,
            0,
        ));
    }
    while frames < inputs.len() && ctx.running
        invariant
            0 <= frames <= inputs@.len(),
            frames == 0 ==> *ctx == *old(ctx) && *state == *old(state),
            frames > 0 ==> old(ctx).running,
            frames > 0 ==> exists|s: &mut S, c: &mut TetraContext|
                {
                    &&& #[trigger] draw_returns(s, c, Ok(()))
                    &&& mut_ref_future(s) == *state
                    &&& mut_ref_future(c) == *ctx
                },
            exists|laps: Seq<Seq<Turn<S>>>, results: Seq<Result<FrameReport, TetraError>>|
                {
                    &&& #[trigger] runs_so_far(laps, results, *old(state), *old(ctx), inputs@, frames as int)
                    &&& forall|k: int, i: int|
                        0 <= k < laps.len() && 0 <= i < laps[k].len() && !((#[trigger] laps[k][i]).directive() is Continue)
                            ==> exists|s: &mut S, c: &mut TetraContext|
                            {
                                &&& #[trigger] calls(laps[k][i], s, c)
                                &&& mut_ref_future(s) == laps[k][i].state_after
                                &&& mut_ref_future(c) == laps[k][i].ctx_after
                            }
                    &&& *state == lap_state(laps, *old(state), frames as int)
                    &&& *ctx == lap_ctx(laps, *old(ctx), frames as int)
                },
        decreases inputs@.len() - frames,
    {
        let ghost state_before = *state;
        let ghost ctx_before = *ctx;
        let result = run_frame(ctx, state, &inputs[frames].signals, inputs[frames].elapsed_ns);
        proof {
            let (earlier, earlier_results) = choose|
                laps: Seq<Seq<Turn<S>>>,
                results: Seq<Result<FrameReport, TetraError>>,
            |
                {
                    &&& #[trigger] runs_so_far(laps, results, *old(state), *old(ctx), inputs@, frames as int)
                    &&& forall|k: int, i: int|
                        0 <= k < laps.len() && 0 <= i < laps[k].len() && !((#[trigger] laps[k][i]).directive() is Continue)
                            ==> exists|s: &mut S, c: &mut TetraContext|
                            {
                                &&& #[trigger] calls(laps[k][i], s, c)
                                &&& mut_ref_future(s) == laps[k][i].state_after
                                &&& mut_ref_future(c) == laps[k][i].ctx_after
                            }
                    &&& state_before == lap_state(laps, *old(state), frames as int)
                    &&& ctx_before == lap_ctx(laps, *old(ctx), frames as int)
                };
            let turns = choose|turns: Seq<Turn<S>>|
                {
                    &&& #[trigger] is_frame(
                        turns,
                        state_before,
                        ctx_before,
                        inputs@[frames as int].signals@,
                        inputs@[frames as int].elapsed_ns,
                        result,
                    )
                    &&& forall|i: int|
                        0 <= i < turns.len() && !((#[trigger] turns[i]).directive() is Continue)
                            ==> exists|s: &mut S, c: &mut TetraContext|
                            {
                                &&& #[trigger] calls(turns[i], s, c)
                                &&& mut_ref_future(s) == turns[i].state_after
                                &&& mut_ref_future(c) == turns[i].ctx_after
                            }
                    &&& *state == turns.last().state_after
                    &&& *ctx == turns.last().ctx_after
                };
            let laps = earlier.push(turns);
            let results = earlier_results.push(result);
            assert(laps.last() == turns);
            assert(results.last() == result);
            assert forall|k: int| 0 <= k < laps.len() implies #[trigger] is_lap(
                laps,
                results,
                *old(state),
                *old(ctx),
                inputs@,
                k,
            ) by {
                if k < earlier.len() {
                    assert(is_lap(earlier, earlier_results, *old(state), *old(ctx), inputs@, k));
                    assert(laps[k] == earlier[k]);
                    assert(results[k] == earlier_results[k]);
                    if k > 0 {
                        assert(laps[k - 1] == earlier[k - 1]);
                    }
                } else {
                    if k > 0 {
                        assert(laps[k - 1] == earlier[k - 1]);
                    }
                    assert(laps[k] == turns);
                    assert(results[k] == result);
                }
            }
            assert forall|k: int| 0 <= k < laps.len() - 1 implies (#[trigger] results[k]) is Ok by {
                assert(results[k] == earlier_results[k]);
            }
            assert forall|k: int, i: int|
                0 <= k < laps.len() && 0 <= i < laps[k].len() && !((#[trigger] laps[k][i]).directive() is Continue) implies exists|
                s: &mut S,
                c: &mut TetraContext,
            |
                {
                    &&& #[trigger] calls(laps[k][i], s, c)
                    &&& mut_ref_future(s) == laps[k][i].state_after
                    &&& mut_ref_future(c) == laps[k][i].ctx_after
                } by {
                if k < earlier.len() {
                    assert(laps[k] == earlier[k]);
                    assert(laps[k][i] == earlier[k][i]);
                } else {
                    assert(laps[k] == turns);
                    assert(laps[k][i] == turns[i]);
                }
            }
            assert(*state == lap_state(laps, *old(state), frames + 1));
            assert(*ctx == lap_ctx(laps, *old(ctx), frames + 1));
            if result is Ok {
                assert forall|k: int| 0 <= k < laps.len() implies (#[trigger] results[k]) is Ok by {
                    if k < earlier.len() {
                        assert(results[k] == earlier_results[k]);
                    }
                }
                assert(runs_so_far(laps, results, *old(state), *old(ctx), inputs@, frames + 1));
            } else {
                assert(is_run(
                    laps,
                    results,
                    *old(state),
                    *old(ctx),
                    inputs@,
                    Err::<usize, TetraError>(result->Err_0),
                ));
            }
        }
        match result {
            Ok(_) => {},
            Err(error) => {
                return Err(error);
            },
        }
        frames = frames + 1;
    }
    proof {
        let (laps, results) = choose|
            laps: Seq<Seq<Turn<S>>>,
            results: Seq<Result<FrameReport, TetraError>>,
        |
            {
                &&& #[trigger] runs_so_far(laps, results, *old(state), *old(ctx), inputs@, frames as int)
                &&& forall|k: int, i: int|
                    0 <= k < laps.len() && 0 <= i < laps[k].len() && !((#[trigger] laps[k][i]).directive() is Continue)
                        ==> exists|s: &mut S, c: &mut TetraContext|
                        {
                            &&& #[trigger] calls(laps[k][i], s, c)
                            &&& mut_ref_future(s) == laps[k][i].state_after
                            &&& mut_ref_future(c) == laps[k][i].ctx_after
                        }
                &&& *state == lap_state(laps, *old(state), frames as int)
                &&& *ctx == lap_ctx(laps, *old(ctx), frames as int)
            };
        assert(laps.len() > 0 ==> results.last() is Ok) by {
            if laps.len() > 0 {
                assert(results[laps.len() - 1] is Ok);
            }
        }
        assert(is_run(laps, results, *old(state), *old(ctx), inputs@, Ok::<usize, TetraError>(frames)));
    }
    Ok(frames)
}

} // verus!
