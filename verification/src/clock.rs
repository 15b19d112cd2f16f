//! The periodic animation driver.
//!
//! The clock is started once and then ticked by the host at a fixed period.
//! Every tick advances the frame index, clears the canvas and draws the new
//! frame. The host schedules the next tick only after the current one has
//! returned, and a tick holds the clock by exclusive reference, so ticks
//! never overlap.

use vstd::prelude::*;
use vstd::arithmetic::div_mod::{lemma_add_mod_noop, lemma_small_mod};
use crate::error::FrameNotFound;
use crate::geometry::Rect;
use crate::loader::Image;
use crate::sheet::{SpriteSheet, frame_name, spec_frame_name, spec_lookup};
use crate::surface::{DrawCommand, Surface};

verus! {

/// Which frame of the sequence is shown, and how many there are.
#[derive(Clone, Copy, Debug, PartialEq, Eq, Structural)]
pub struct AnimationState {
    /// The frame on display, counted from 0; -1 before the first tick.
    pub current_frame_index: i64,
    /// The length of the sequence.
    pub frame_count: u32,
}

impl AnimationState {
    /// The sequence is not empty and the index lies in it, or just before
    /// its start.
    pub open spec fn wf(&self) -> bool {
        &&& self.frame_count >= 1
        &&& -1 <= self.current_frame_index < self.frame_count
    }

    /// The state before the first tick of a sequence of `frame_count`
    /// frames.
    pub open spec fn spec_initial(frame_count: u32) -> AnimationState {
        AnimationState { current_frame_index: -1i64, frame_count }
    }

    /// The state one tick later: the next frame, and the first after the
    /// last.
    pub open spec fn spec_advance(self) -> AnimationState {
        AnimationState {
            current_frame_index: ((self.current_frame_index + 1) % (self.frame_count as int)) as i64,
            frame_count: self.frame_count,
        }
    }

    /// The state `n` ticks later.
    pub open spec fn spec_after_ticks(self, n: nat) -> AnimationState
        decreases n,
    {
        if n == 0 {
            self
        } else {
            self.spec_after_ticks((n - 1) as nat).spec_advance()
        }
    }

    /// The state before the first tick of a sequence of `frame_count`
    /// frames. An empty sequence has no state.
    pub fn new(frame_count: u32) -> (state: Option<AnimationState>)
        ensures
            frame_count == 0 ==> state is None,
            frame_count >= 1 ==> state == Some(Self::spec_initial(frame_count)),
    {
        if frame_count == 0 {
            None
        } else {
            Some(AnimationState { current_frame_index: -1, frame_count })
        }
    }

    /// Moves on to the next frame, and from the last frame to the first.
    pub fn advance(&mut self)
        requires
            old(self).wf(),
        ensures
            *final(self) == old(self).spec_advance(),
            final(self).wf(),
            0 <= final(self).current_frame_index,
    {
        let next: u64 = (self.current_frame_index + 1) as u64;
        let wrapped: u64 = next % (self.frame_count as u64);
        self.current_frame_index = wrapped as i64;
    }
}

/// Ticking keeps a state well formed, and never leaves the sequence.
pub proof fn lemma_ticks_stay_in_sequence(state: AnimationState, n: nat)
    requires
        state.wf(),
    ensures
        state.spec_after_ticks(n).wf(),
        state.spec_after_ticks(n).frame_count == state.frame_count,
        n >= 1 ==> 0 <= state.spec_after_ticks(n).current_frame_index,
    decreases n,
{
    if n > 0 {
        lemma_ticks_stay_in_sequence(state, (n - 1) as nat);
    }
}

/// Frame cycling: `n` ticks after any well-formed state the index has moved
/// on by `n`, around the sequence.
pub proof fn lemma_index_after_ticks(state: AnimationState, n: nat)
    requires
        state.wf(),
    ensures
        state.spec_after_ticks(n).current_frame_index == if n == 0 {
            state.current_frame_index as int
        } else {
            (state.current_frame_index + n) % (state.frame_count as int)
        },
    decreases n,
{
    if n >= 1 {
        let count = state.frame_count as int;
        let before = (n - 1) as nat;
        lemma_index_after_ticks(state, before);
        lemma_ticks_stay_in_sequence(state, before);
        assert(state.spec_after_ticks(n) == state.spec_after_ticks(before).spec_advance());
        if before >= 1 {
            let moved = state.current_frame_index + before;
            lemma_add_mod_noop(moved, 1, count);
            if count > 1 {
                lemma_small_mod(1, count as nat);
            }
        }
    }
}

/// Frame cycling from the start: after `n >= 1` ticks of a clock started at
/// index -1, the frame on display is number `((n - 1) mod frame_count) + 1`,
/// and its name is built from that number.
pub proof fn lemma_frame_cycling(base: Seq<char>, frame_count: u32, n: nat)
    requires
        frame_count >= 1,
        n >= 1,
    ensures
        AnimationState::spec_initial(frame_count).spec_after_ticks(n).current_frame_index == (n
            - 1) % (frame_count as int),
        spec_frame_name(
            base,
            AnimationState::spec_initial(frame_count).spec_after_ticks(n).current_frame_index as nat,
        ) == spec_frame_name(base, ((n - 1) % (frame_count as int)) as nat),
{
    lemma_index_after_ticks(AnimationState::spec_initial(frame_count), n);
}

/// What the clock draws, and where.
#[derive(Debug, PartialEq, Eq)]
pub struct ClockConfig {
    /// The name of the animated sequence, as its frames are named after it.
    pub base_name: String,
    /// The length of the sequence.
    pub frame_count: u32,
    /// The region that every tick clears.
    pub canvas: Rect,
    /// Where every tick draws the frame.
    pub dst_x: u16,
    pub dst_y: u16,
}

impl Clone for ClockConfig {
    fn clone(&self) -> (config: ClockConfig)
        ensures
            config == *self,
    {
        ClockConfig {
            base_name: self.base_name.clone(),
            frame_count: self.frame_count,
            canvas: self.canvas,
            dst_x: self.dst_x,
            dst_y: self.dst_y,
        }
    }
}

/// The clock: idle until started, then running for good.
pub struct AnimationClock {
    running: bool,
    period_ms: u32,
    animation: AnimationState,
    base_name: String,
    canvas: Rect,
    dst_x: u16,
    dst_y: u16,
}

/// What one tick appends to the surface when the frame called `name` is to
/// be drawn from `frames`: the clear, and the blit if the frame is there.
pub open spec fn spec_tick_commands(
    frames: Map<Seq<char>, Rect>,
    image: Image,
    name: Seq<char>,
    canvas: Rect,
    dst_x: u16,
    dst_y: u16,
) -> Seq<DrawCommand> {
    let clear = DrawCommand::ClearRegion { x: canvas.x, y: canvas.y, w: canvas.w, h: canvas.h };
    match spec_lookup(frames, name) {
        Some(src) => seq![
            clear,
            DrawCommand::Blit { image, src, dst_x, dst_y, dst_w: src.w, dst_h: src.h },
        ],
        None => seq![clear],
    }
}

impl AnimationClock {
    /// Whether the clock was started.
    pub closed spec fn is_running(&self) -> bool {
        self.running
    }

    /// The period of the ticks, in milliseconds. It is 0 until the clock is
    /// started.
    pub closed spec fn period(&self) -> u32 {
        self.period_ms
    }

    /// The frame on display.
    pub closed spec fn animation(&self) -> AnimationState {
        self.animation
    }

    /// The name of the animated sequence.
    pub closed spec fn base(&self) -> Seq<char> {
        self.base_name@
    }

    /// The region that every tick clears.
    pub closed spec fn canvas(&self) -> Rect {
        self.canvas
    }

    /// Where every tick draws the frame.
    pub closed spec fn destination(&self) -> (u16, u16) {
        (self.dst_x, self.dst_y)
    }

    /// The clock's animation state is well formed.
    pub open spec fn wf(&self) -> bool {
        self.animation().wf()
    }

    /// What the clock was configured with stays as it is.
    pub open spec fn same_setup(&self, other: &AnimationClock) -> bool {
        &&& self.base() == other.base()
        &&& self.canvas() == other.canvas()
        &&& self.destination() == other.destination()
        &&& self.animation().frame_count == other.animation().frame_count
    }

    /// The name of the frame on display.
    pub open spec fn spec_visible_name(&self) -> Seq<char> {
        spec_frame_name(self.base(), self.animation().current_frame_index as nat)
    }

    /// An idle clock for the sequence that `config` describes, set before
    /// its first frame. An empty sequence has no clock.
    pub fn new(config: ClockConfig) -> (clock: Option<AnimationClock>)
        ensures
            config.frame_count == 0 ==> clock is None,
            config.frame_count >= 1 ==> clock is Some && ({
                let c = clock->0;
                &&& c.wf()
                &&& !c.is_running()
                &&& c.period() == 0
                &&& c.animation() == AnimationState::spec_initial(config.frame_count)
                &&& c.base() == config.base_name@
                &&& c.canvas() == config.canvas
                &&& c.destination() == (config.dst_x, config.dst_y)
            }),
    {
        match AnimationState::new(config.frame_count) {
            None => None,
            Some(animation) => Some(
                AnimationClock {
                    running: false,
                    period_ms: 0,
                    animation,
                    base_name: config.base_name,
                    canvas: config.canvas,
                    dst_x: config.dst_x,
                    dst_y: config.dst_y,
                },
            ),
        }
    }

    /// Starts an idle clock: `true` tells the host to begin ticking every
    /// `period_ms` milliseconds. A clock that runs already stays as it is,
    /// and `false` comes back: nothing is to be scheduled a second time.
    pub fn start(&mut self, period_ms: u32) -> (started: bool)
        ensures
            started == !old(self).is_running(),
            final(self).is_running(),
            final(self).period() == if started {
                period_ms
            } else {
                old(self).period()
            },
            final(self).animation() == old(self).animation(),
            final(self).same_setup(old(self)),
    {
        if self.running {
            false
        } else {
            self.running = true;
            self.period_ms = period_ms;
            true
        }
    }

    /// Whether the clock was started.
    pub fn running(&self) -> (running: bool)
        ensures
            running == self.is_running(),
    {
        self.running
    }

    /// The period of the ticks, in milliseconds.
    pub fn period_ms(&self) -> (period: u32)
        ensures
            period == self.period(),
    {
        self.period_ms
    }

    /// The frame on display.
    pub fn state(&self) -> (state: AnimationState)
        ensures
            state == self.animation(),
    {
        self.animation
    }

    /// The name of the frame on display, and `None` before the first tick.
    pub fn visible_name(&self) -> (name: Option<String>)
        requires
            self.wf(),
        ensures
            self.animation().current_frame_index < 0 ==> name is None,
            self.animation().current_frame_index >= 0 ==> name is Some && name->0@
                == self.spec_visible_name(),
    {
        if self.animation.current_frame_index < 0 {
            None
        } else {
            Some(frame_name(self.base_name.as_str(), self.animation.current_frame_index as u32))
        }
    }

    /// One tick of a running clock: moves on to the next frame, clears the
    /// canvas, looks the new frame up in `sheet` and draws it from `image`
    /// at the clock's destination, in its own size. When the sheet lacks
    /// the frame, the canvas has been cleared, nothing is drawn, and the
    /// error names the frame.
    pub fn tick(&mut self, sheet: &SpriteSheet, image: &Image, surface: &mut Surface) -> (result:
        Result<(), FrameNotFound>)
        requires
            old(self).wf(),
            old(self).is_running(),
        ensures
            final(self).wf(),
            final(self).is_running(),
            final(self).period() == old(self).period(),
            final(self).same_setup(old(self)),
            final(self).animation() == old(self).animation().spec_advance(),
            final(surface)@ == old(surface)@ + spec_tick_commands(
                sheet@,
                *image,
                final(self).spec_visible_name(),
                old(self).canvas(),
                old(self).destination().0,
                old(self).destination().1,
            ),
            match result {
                Ok(()) => spec_lookup(sheet@, final(self).spec_visible_name()) is Some,
                Err(e) => spec_lookup(sheet@, final(self).spec_visible_name()) is None && e.name@
                    == final(self).spec_visible_name(),
            },
    {
        self.animation.advance();
        let name = frame_name(self.base_name.as_str(), self.animation.current_frame_index as u32);
        surface.clear_region(self.canvas.x, self.canvas.y, self.canvas.w, self.canvas.h);
        match sheet.lookup(name.as_str()) {
            Ok(src) => {
                surface.blit(image, src, self.dst_x, self.dst_y, src.w, src.h);
                Ok(())
            },
            Err(e) => Err(e),
        }
    }
}

} // verus!
