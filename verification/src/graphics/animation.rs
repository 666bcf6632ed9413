//! The animation sequencer: a timer that walks through the frames of a
//! sprite sheet.

use vstd::prelude::*;
use vstd::arithmetic::div_mod::{
    lemma_add_mod_noop_right,
    lemma_fundamental_div_mod,
    lemma_fundamental_div_mod_converse,
    lemma_small_mod,
};
use crate::context::TetraContext;
use crate::graphics::params::DrawParams;
use crate::graphics::{Command, Source, Texture};
use crate::math::Rectangle;

verus! {

/// An animation as plain values.
pub ghost struct AnimationView {
    pub texture: Texture,
    /// The source rectangle of each frame, in the order of showing.
    pub frames: Seq<Rectangle>,
    /// How long each frame is shown, in nanoseconds.
    pub frame_length: nat,
    /// The index of the frame that is showing.
    pub current_frame: nat,
    /// For how long the current frame has been showing, in nanoseconds.
    pub timer: nat,
    /// Whether the first frame follows the last one. If not, the last frame
    /// stays.
    pub repeating: bool,
}

impl AnimationView {
    /// What every animation satisfies: there is a frame, frames take time,
    /// the current frame is one of them and has not outstayed its length.
    pub open spec fn wf(self) -> bool {
        &&& self.frames.len() > 0
        &&& self.frame_length > 0
        &&& self.current_frame < self.frames.len()
        &&& self.timer < self.frame_length
    }

    /// How many frame lengths have passed once `elapsed` is added.
    pub open spec fn steps(self, elapsed: nat) -> nat {
        (self.timer + elapsed) / self.frame_length
    }

    /// The frame that shows after `steps` frame lengths.
    pub open spec fn frame_after(self, steps: nat) -> nat {
        if self.repeating {
            (self.current_frame + steps) % self.frames.len()
        } else if self.current_frame + steps >= self.frames.len() {
            (self.frames.len() - 1) as nat
        } else {
            self.current_frame + steps
        }
    }

    /// The animation after `elapsed` nanoseconds: one frame further for each
    /// whole frame length, the rest of the time stays on the timer.
    pub open spec fn advanced(self, elapsed: nat) -> AnimationView {
        AnimationView {
            current_frame: self.frame_after(self.steps(elapsed)),
            timer: (self.timer + elapsed) % self.frame_length,
            ..self
        }
    }

    /// The animation after `times` advances by `elapsed` each.
    pub open spec fn advanced_times(self, elapsed: nat, times: nat) -> AnimationView
        decreases times,
    {
        if times == 0 {
            self
        } else {
            self.advanced_times(elapsed, (times - 1) as nat).advanced(elapsed)
        }
    }
}

/// Advancing keeps an animation well formed: the frame index never leaves
/// the frames.
pub proof fn lemma_advance_keeps_wf(view: AnimationView, elapsed: nat)
    requires
        view.wf(),
    ensures
        view.advanced(elapsed).wf(),
{
    let total = view.timer + elapsed;
    let length = view.frame_length;
    let count = view.frames.len();
    assert(total % length < length) by (nonlinear_arith)
        requires
            length > 0,
    ;
    let steps = view.steps(elapsed);
    assert((view.current_frame + steps) % count < count) by (nonlinear_arith)
        requires
            count > 0,
    ;
}

/// Time may come in one piece or in two: the animation ends up the same.
/// An advance that spans several frame lengths passes through every frame on
/// the way, none is skipped.
pub proof fn lemma_advance_is_additive(view: AnimationView, first: nat, second: nat)
    requires
        view.wf(),
    ensures
        view.advanced(first).advanced(second) == view.advanced(first + second),
{
    let length = view.frame_length as int;
    let count = view.frames.len() as int;
    let halfway = view.advanced(first);
    let steps_first = view.steps(first) as int;
    let steps_second = halfway.steps(second) as int;
    let rest = halfway.advanced(second).timer as int;
    lemma_advance_keeps_wf(view, first);
    lemma_advance_keeps_wf(halfway, second);
    lemma_fundamental_div_mod((view.timer + first) as int, length);
    lemma_fundamental_div_mod((halfway.timer + second) as int, length);
    assert(view.timer + first == length * steps_first + halfway.timer);
    assert(halfway.timer + second == length * steps_second + rest);
    assert(view.timer + first + second == (steps_first + steps_second) * length + rest) by (nonlinear_arith)
        requires
            view.timer + first == length * steps_first + halfway.timer,
            halfway.timer + second == length * steps_second + rest,
    ;
    lemma_fundamental_div_mod_converse(
        (view.timer + first + second) as int,
        length,
        steps_first + steps_second,
        rest,
    );
    assert(view.steps(first + second) == steps_first + steps_second);
    if view.repeating {
        lemma_add_mod_noop_right(steps_second, view.current_frame + steps_first, count);
        assert((steps_second + (view.current_frame + steps_first) % count) % count == (steps_second + (
        view.current_frame + steps_first)) % count);
    }
}

/// `times` advances by one frame length each move a repeating animation
/// `times` frames on, the first frame following the last, and leave on the
/// timer what was on it. From frame 0 the frames shown are 1, 2, and so on up
/// to the last one, and then 0 again.
pub proof fn lemma_frames_cycle(view: AnimationView, times: nat)
    requires
        view.wf(),
        view.repeating,
    ensures
        view.advanced_times(view.frame_length, times) == (AnimationView {
            current_frame: (view.current_frame + times) % view.frames.len(),
            ..view
        }),
    decreases times,
{
    let length = view.frame_length;
    let count = view.frames.len();
    if times == 0 {
        lemma_small_mod(view.current_frame, count);
    } else {
        let before = view.advanced_times(length, (times - 1) as nat);
        lemma_frames_cycle(view, (times - 1) as nat);
        lemma_fundamental_div_mod_converse((view.timer + length) as int, length as int, 1, view.timer as int);
        assert(before.steps(length) == 1);
        lemma_add_mod_noop_right(1, view.current_frame + times - 1, count as int);
        assert((1 + (view.current_frame + times - 1) % (count as int)) % (count as int) == (1 + (
        view.current_frame + times - 1)) % (count as int));
    }
}

/// A texture, the frames on it, and the timer that picks the frame to show.
#[derive(Debug)]
pub struct Animation {
    texture: Texture,
    frames: Vec<Rectangle>,
    frame_length_ns: u64,
    current_frame: usize,
    timer_ns: u64,
    repeating: bool,
}

impl View for Animation {
    type V = AnimationView;

    closed spec fn view(&self) -> AnimationView {
        AnimationView {
            texture: self.texture,
            frames: self.frames@,
            frame_length: self.frame_length_ns as nat,
            current_frame: self.current_frame as nat,
            timer: self.timer_ns as nat,
            repeating: self.repeating,
        }
    }
}

impl Animation {
    #[verifier::type_invariant]
    closed spec fn well_formed(&self) -> bool {
        self@.wf()
    }

    /// A repeating animation that shows the first of `frames`, if there is
    /// a frame and frames take time. There is no animation without.
    pub fn new(texture: Texture, frames: Vec<Rectangle>, frame_length_ns: u64) -> (made: Option<Animation>)
        ensures
            frames@.len() > 0 && frame_length_ns > 0 ==> (made matches Some(animation) && animation@ == (
            AnimationView {
                texture,
                frames: frames@,
                frame_length: frame_length_ns as nat,
                current_frame: 0,
                timer: 0,
                repeating: true,
            }) && animation@.wf()),
            frames@.len() == 0 || frame_length_ns == 0 ==> made is None,
    {
        if frames.len() == 0 || frame_length_ns == 0 {
            None
        } else {
            Some(Animation { texture, frames, frame_length_ns, current_frame: 0, timer_ns: 0, repeating: true })
        }
    }

    /// The same animation with the given looping policy: repeating, the
    /// first frame follows the last; not repeating, the last frame stays.
    pub fn repeating(self, repeating: bool) -> (animation: Animation)
        ensures
            animation@ == (AnimationView { repeating, ..self@ }),
            animation@.wf(),
    {
        proof {
            use_type_invariant(&self);
        }
        Animation { repeating, ..self }
    }

    /// Lets `elapsed_ns` nanoseconds pass: for every whole frame length on
    /// the timer the animation moves one frame on.
    pub fn advance(&mut self, elapsed_ns: u64)
        ensures
            final(self)@ == old(self)@.advanced(elapsed_ns as nat),
            final(self)@.wf(),
    {
        proof {
            use_type_invariant(&*self);
            lemma_advance_keeps_wf(self@, elapsed_ns as nat);
        }
        let total: u128 = self.timer_ns as u128 + elapsed_ns as u128;
        let length: u128 = self.frame_length_ns as u128;
        let steps: u128 = total / length;
        let rest: u128 = total % length;
        let count: u128 = self.frames.len() as u128;
        let index: u128 = self.current_frame as u128;
        let next: u128 = if self.repeating {
            (index + steps) % count
        } else if index + steps >= count {
            count - 1
        } else {
            index + steps
        };
        self.timer_ns = rest as u64;
        self.current_frame = next as usize;
    }

    pub fn texture(&self) -> (texture: Texture)
        ensures
            texture == self@.texture,
    {
        self.texture
    }

    pub fn frame_count(&self) -> (count: usize)
        ensures
            count == self@.frames.len(),
            count > 0,
    {
        proof {
            use_type_invariant(self);
        }
        self.frames.len()
    }

    pub fn frame_length_ns(&self) -> (length: u64)
        ensures
            length == self@.frame_length,
            length > 0,
    {
        proof {
            use_type_invariant(self);
        }
        self.frame_length_ns
    }

    pub fn is_repeating(&self) -> (repeating: bool)
        ensures
            repeating == self@.repeating,
    {
        self.repeating
    }

    /// The index of the frame that is showing: always one of the frames.
    pub fn current_frame_index(&self) -> (index: usize)
        ensures
            index == self@.current_frame,
            index < self@.frames.len(),
    {
        proof {
            use_type_invariant(self);
        }
        self.current_frame
    }

    /// The source rectangle of the frame that is showing.
    pub fn current_frame(&self) -> (frame: Rectangle)
        ensures
            self@.current_frame < self@.frames.len(),
            frame == self@.frames[self@.current_frame as int],
    {
        proof {
            use_type_invariant(self);
        }
        self.frames[self.current_frame]
    }

    /// Submits a draw of the frame that is showing.
    pub fn draw(&self, ctx: &mut TetraContext, params: DrawParams)
        ensures
            self@.current_frame < self@.frames.len(),
            old(ctx).records(
                *final(ctx),
                Command::Draw(
                    old(ctx).draw_call(
                        Source::Texture {
                            texture: self@.texture.id,
                            region: self@.frames[self@.current_frame as int],
                        },
                        params,
                        1,
                    ),
                ),
            ),
    {
        let frame = self.current_frame();
        self.texture.draw_region(ctx, frame, params);
    }
}

} // verus!
