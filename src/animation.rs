use vstd::prelude::*;

pub mod basic;
pub mod circuit_pulse;
pub mod dutch_flag;
pub mod growing_trail;
pub mod lightning_sprint;
pub mod overtake;

pub use basic::{FrameColors, SectorFrames, ShowSectors, StaticColor, MAX_FRAMES};
pub use circuit_pulse::CircuitPulse;
pub use dutch_flag::DutchFlag;
pub use growing_trail::GrowingTrail;
pub use lightning_sprint::{LightningSprint, PrecomputedData};
pub use overtake::{update_overtake_duel, OvertakeDuel};

use crate::circuit::{same_layout, sector_table, Circuit};
use crate::geometry::Point;
use crate::led::{blank_frame, Color, Priority};

verus! {

/// One channel scaled by `num / den`, rounded down and capped at 255; zero
/// when `den` is zero.
pub open spec fn scaled_channel(c: u8, num: u64, den: u64) -> u8 {
    if den == 0 {
        0
    } else {
        let v = (c as int) * (num as int) / (den as int);
        if v > 255 {
            255
        } else {
            v as u8
        }
    }
}

/// A colour scaled channel by channel by the brightness `num / den`.
pub open spec fn scaled(color: Color, num: u64, den: u64) -> Color {
    Color(
        scaled_channel(color.0, num, den),
        scaled_channel(color.1, num, den),
        scaled_channel(color.2, num, den),
    )
}

fn scale_channel(c: u8, num: u64, den: u64) -> (r: u8)
    ensures
        r == scaled_channel(c, num, den),
{
    if den == 0 {
        return 0;
    }
    assert((c as u128) * (num as u128) <= 255 * 0xFFFF_FFFF_FFFF_FFFF) by (nonlinear_arith)
        requires
            c <= 255,
            num <= 0xFFFF_FFFF_FFFF_FFFF,
    ;
    let v: u128 = (c as u128) * (num as u128) / (den as u128);
    if v > 255 {
        255
    } else {
        v as u8
    }
}

/// Scales a colour by the brightness `num / den` (a ratio of 1 keeps it).
pub fn scale_color(color: Color, num: u64, den: u64) -> (r: Color)
    ensures
        r == scaled(color, num, den),
{
    Color(
        scale_channel(color.0, num, den),
        scale_channel(color.1, num, den),
        scale_channel(color.2, num, den),
    )
}

/// The most animations a queue holds; further ones are dropped.
pub const QUEUE_CAPACITY: usize = 12;

/// An animation that draws one frame at a time.
///
/// A frame is described over the number `n` of buffer entries, the LED
/// positions, the sector bounds (see `sector_table`), the buffer before the
/// frame and the time since activation. The spec functions with a body
/// describe an animation without state that draws nothing; each animation of
/// this library states its own.
pub trait Animation: Sized {
    /// Whether the animation has run its course.
    spec fn finished(&self) -> bool;

    /// The animation's state after it has drawn the frame for `timestamp`.
    open spec fn after_frame(
        &self,
        n: nat,
        positions: Seq<Point>,
        sectors: Seq<(int, int)>,
        timestamp: u64,
    ) -> Self {
        *self
    }

    /// The buffer after the animation has drawn the frame for `timestamp` over `before`.
    open spec fn frame(
        &self,
        n: nat,
        positions: Seq<Point>,
        sectors: Seq<(int, int)>,
        before: Seq<(Color, Priority)>,
        timestamp: u64,
    ) -> Seq<(Color, Priority)> {
        before
    }

    /// The animation's state after a reset.
    open spec fn reset_state(&self) -> Self {
        *self
    }

    /// The priority the animation uses for simple fills.
    open spec fn nominal_priority(&self) -> Priority {
        Priority::Normal
    }

    /// Draws the frame for `timestamp` microseconds after activation. The
    /// layout and the number of buffer entries stay as they are.
    fn render<const N: usize, C: Circuit<N>>(&mut self, circuit: &mut C, timestamp: u64)
        ensures
            same_layout(*old(circuit), *final(circuit)),
            *final(self) == old(self).after_frame(N as nat, old(circuit).positions(), sector_table(*old(circuit)), timestamp),
            final(circuit).buffer()@ == old(self).frame(N as nat, old(circuit).positions(), sector_table(*old(circuit)), old(circuit).buffer()@, timestamp),
    ;

    /// Returns true once the animation has run its course.
    fn is_finished(&self) -> (r: bool)
        ensures
            r == self.finished(),
    ;

    /// The priority the animation uses for simple fills.
    fn priority(&self) -> (r: Priority)
        ensures
            r == self.nominal_priority(),
    ;

    /// Brings the animation back to its first frame.
    fn reset(&mut self)
        ensures
            *final(self) == old(self).reset_state(),
    ;
}

/// The animations of this library, as one type that a queue can hold.
pub enum Animations {
    Static(StaticColor),
    ShowSectors(ShowSectors),
    SectorFrames(SectorFrames),
    OvertakeDuel(OvertakeDuel),
    LightningSprint(LightningSprint),
    DutchFlag(DutchFlag),
    CircuitPulse(CircuitPulse),
    GrowingTrail(GrowingTrail),
}

impl Animation for Animations {
    open spec fn finished(&self) -> bool {
        match self {
            Animations::Static(a) => a.finished(),
            Animations::ShowSectors(a) => a.finished(),
            Animations::SectorFrames(a) => a.finished(),
            Animations::OvertakeDuel(a) => a.finished(),
            Animations::LightningSprint(a) => a.finished(),
            Animations::DutchFlag(a) => a.finished(),
            Animations::CircuitPulse(a) => a.finished(),
            Animations::GrowingTrail(a) => a.finished(),
        }
    }

    open spec fn after_frame(
        &self,
        n: nat,
        positions: Seq<Point>,
        sectors: Seq<(int, int)>,
        timestamp: u64,
    ) -> Self {
        match self {
            Animations::Static(a) => Animations::Static(a.after_frame(n, positions, sectors, timestamp)),
            Animations::ShowSectors(a) => Animations::ShowSectors(a.after_frame(n, positions, sectors, timestamp)),
            Animations::SectorFrames(a) => Animations::SectorFrames(a.after_frame(n, positions, sectors, timestamp)),
            Animations::OvertakeDuel(a) => Animations::OvertakeDuel(a.after_frame(n, positions, sectors, timestamp)),
            Animations::LightningSprint(a) => Animations::LightningSprint(a.after_frame(n, positions, sectors, timestamp)),
            Animations::DutchFlag(a) => Animations::DutchFlag(a.after_frame(n, positions, sectors, timestamp)),
            Animations::CircuitPulse(a) => Animations::CircuitPulse(a.after_frame(n, positions, sectors, timestamp)),
            Animations::GrowingTrail(a) => Animations::GrowingTrail(a.after_frame(n, positions, sectors, timestamp)),
        }
    }

    open spec fn frame(
        &self,
        n: nat,
        positions: Seq<Point>,
        sectors: Seq<(int, int)>,
        before: Seq<(Color, Priority)>,
        timestamp: u64,
    ) -> Seq<(Color, Priority)> {
        match self {
            Animations::Static(a) => a.frame(n, positions, sectors, before, timestamp),
            Animations::ShowSectors(a) => a.frame(n, positions, sectors, before, timestamp),
            Animations::SectorFrames(a) => a.frame(n, positions, sectors, before, timestamp),
            Animations::OvertakeDuel(a) => a.frame(n, positions, sectors, before, timestamp),
            Animations::LightningSprint(a) => a.frame(n, positions, sectors, before, timestamp),
            Animations::DutchFlag(a) => a.frame(n, positions, sectors, before, timestamp),
            Animations::CircuitPulse(a) => a.frame(n, positions, sectors, before, timestamp),
            Animations::GrowingTrail(a) => a.frame(n, positions, sectors, before, timestamp),
        }
    }

    open spec fn reset_state(&self) -> Self {
        match self {
            Animations::Static(a) => Animations::Static(a.reset_state()),
            Animations::ShowSectors(a) => Animations::ShowSectors(a.reset_state()),
            Animations::SectorFrames(a) => Animations::SectorFrames(a.reset_state()),
            Animations::OvertakeDuel(a) => Animations::OvertakeDuel(a.reset_state()),
            Animations::LightningSprint(a) => Animations::LightningSprint(a.reset_state()),
            Animations::DutchFlag(a) => Animations::DutchFlag(a.reset_state()),
            Animations::CircuitPulse(a) => Animations::CircuitPulse(a.reset_state()),
            Animations::GrowingTrail(a) => Animations::GrowingTrail(a.reset_state()),
        }
    }

    open spec fn nominal_priority(&self) -> Priority {
        match self {
            Animations::Static(a) => a.nominal_priority(),
            Animations::ShowSectors(a) => a.nominal_priority(),
            Animations::SectorFrames(a) => a.nominal_priority(),
            Animations::OvertakeDuel(a) => a.nominal_priority(),
            Animations::LightningSprint(a) => a.nominal_priority(),
            Animations::DutchFlag(a) => a.nominal_priority(),
            Animations::CircuitPulse(a) => a.nominal_priority(),
            Animations::GrowingTrail(a) => a.nominal_priority(),
        }
    }

    fn render<const N: usize, C: Circuit<N>>(&mut self, circuit: &mut C, timestamp: u64) {
        match self {
            Animations::Static(a) => a.render(circuit, timestamp),
            Animations::ShowSectors(a) => a.render(circuit, timestamp),
            Animations::SectorFrames(a) => a.render(circuit, timestamp),
            Animations::OvertakeDuel(a) => a.render(circuit, timestamp),
            Animations::LightningSprint(a) => a.render(circuit, timestamp),
            Animations::DutchFlag(a) => a.render(circuit, timestamp),
            Animations::CircuitPulse(a) => a.render(circuit, timestamp),
            Animations::GrowingTrail(a) => a.render(circuit, timestamp),
        }
    }

    fn is_finished(&self) -> (r: bool) {
        match self {
            Animations::Static(a) => a.is_finished(),
            Animations::ShowSectors(a) => a.is_finished(),
            Animations::SectorFrames(a) => a.is_finished(),
            Animations::OvertakeDuel(a) => a.is_finished(),
            Animations::LightningSprint(a) => a.is_finished(),
            Animations::DutchFlag(a) => a.is_finished(),
            Animations::CircuitPulse(a) => a.is_finished(),
            Animations::GrowingTrail(a) => a.is_finished(),
        }
    }

    fn priority(&self) -> (r: Priority) {
        match self {
            Animations::Static(a) => a.priority(),
            Animations::ShowSectors(a) => a.priority(),
            Animations::SectorFrames(a) => a.priority(),
            Animations::OvertakeDuel(a) => a.priority(),
            Animations::LightningSprint(a) => a.priority(),
            Animations::DutchFlag(a) => a.priority(),
            Animations::CircuitPulse(a) => a.priority(),
            Animations::GrowingTrail(a) => a.priority(),
        }
    }

    fn reset(&mut self) {
        match self {
            Animations::Static(a) => a.reset(),
            Animations::ShowSectors(a) => a.reset(),
            Animations::SectorFrames(a) => a.reset(),
            Animations::OvertakeDuel(a) => a.reset(),
            Animations::LightningSprint(a) => a.reset(),
            Animations::DutchFlag(a) => a.reset(),
            Animations::CircuitPulse(a) => a.reset(),
            Animations::GrowingTrail(a) => a.reset(),
        }
    }
}

/// The index that follows `k` in a queue of `len` animations.
pub open spec fn following(k: nat, len: nat) -> nat {
    if len == 0 {
        k
    } else {
        (k + 1) % len
    }
}

/// The index reached from `k` after `m` advances.
pub open spec fn advanced_by(k: nat, len: nat, m: nat) -> nat
    decreases m,
{
    if m == 0 {
        k
    } else {
        following(advanced_by(k, len, (m - 1) as nat), len)
    }
}

/// After `m` advances from `k` the queue stands at `(k + m) mod len`.
pub proof fn lemma_advanced_by(k: nat, len: nat, m: nat)
    requires
        len > 0,
        k < len,
    ensures
        advanced_by(k, len, m) == (k + m) % len,
    decreases m,
{
    if m > 0 {
        lemma_advanced_by(k, len, (m - 1) as nat);
        let a = (k + m - 1) as nat;
        vstd::arithmetic::div_mod::lemma_add_mod_noop_right(1, a as int, len as int);
    } else {
        vstd::arithmetic::div_mod::lemma_small_mod(k, len);
    }
}

/// Advancing a queue of `len` animations from `k` lands on `(k + 1) mod len`,
/// which differs from `k` when there are at least two animations, and `len`
/// advances bring the queue back to `k`.
pub proof fn lemma_queue_cycle(k: nat, len: nat)
    requires
        len > 0,
        k < len,
    ensures
        following(k, len) == (k + 1) % len,
        len > 1 ==> following(k, len) != k,
        advanced_by(k, len, len) == k,
{
    lemma_advanced_by(k, len, len);
    vstd::arithmetic::div_mod::lemma_mod_self_0(len as int);
    vstd::arithmetic::div_mod::lemma_add_mod_noop(k as int, len as int, len as int);
    vstd::arithmetic::div_mod::lemma_small_mod(k, len);
    if len > 1 && k + 1 < len {
        vstd::arithmetic::div_mod::lemma_small_mod((k + 1) as nat, len);
    }
    if k + 1 == len {
        vstd::arithmetic::div_mod::lemma_mod_self_0(len as int);
    }
}

/// Time from `start` to `now` in microseconds, zero if `now` is earlier.
pub open spec fn since(now: u64, start: u64) -> u64 {
    if now >= start {
        (now - start) as u64
    } else {
        0
    }
}

/// Cycles through a list of animations, moving on when the current one
/// finishes, when it has run longer than the configured maximum, or when
/// asked to.
pub struct AnimationQueue<A> {
    animations: Vec<A>,
    current_index: usize,
    start_time: u64,
    max_duration: u64,
}

impl<A: Animation> AnimationQueue<A> {
    /// The animations, in order.
    pub closed spec fn items(&self) -> Seq<A> {
        self.animations@
    }

    /// Index of the current animation.
    pub closed spec fn index(&self) -> nat {
        self.current_index as nat
    }

    /// When the current animation was activated, in microseconds.
    pub closed spec fn started(&self) -> u64 {
        self.start_time
    }

    /// The longest an animation may stay current, in microseconds.
    pub closed spec fn limit(&self) -> u64 {
        self.max_duration
    }

    /// At most `QUEUE_CAPACITY` animations, and a valid current index (zero
    /// when there are none).
    pub open spec fn wf(&self) -> bool {
        &&& self.items().len() <= QUEUE_CAPACITY
        &&& (self.items().len() > 0 ==> self.index() < self.items().len())
        &&& (self.items().len() == 0 ==> self.index() == 0)
    }

    /// An empty queue whose animations may each run for `max_duration`
    /// microseconds, its clock started at `now`.
    pub fn new(max_duration: u64, now: u64) -> (r: Self)
        ensures
            r.wf(),
            r.items().len() == 0,
            r.index() == 0,
            r.started() == now,
            r.limit() == max_duration,
    {
        AnimationQueue {
            animations: Vec::new(),
            current_index: 0,
            start_time: now,
            max_duration,
        }
    }

    pub fn len(&self) -> (r: usize)
        ensures
            r == self.items().len(),
    {
        self.animations.len()
    }

    pub fn current_index(&self) -> (r: usize)
        ensures
            r == self.index(),
    {
        self.current_index
    }

    pub fn start_time(&self) -> (r: u64)
        ensures
            r == self.started(),
    {
        self.start_time
    }

    /// Appends an animation; once the queue holds `QUEUE_CAPACITY` the
    /// animation is dropped.
    pub fn add_animation(&mut self, animation: A)
        requires
            old(self).wf(),
        ensures
            final(self).wf(),
            old(self).items().len() < QUEUE_CAPACITY ==> final(self).items() == old(
                self,
            ).items().push(animation),
            old(self).items().len() >= QUEUE_CAPACITY ==> final(self).items() == old(
                self,
            ).items(),
            final(self).index() == old(self).index(),
            final(self).started() == old(self).started(),
            final(self).limit() == old(self).limit(),
    {
        if self.animations.len() < QUEUE_CAPACITY {
            self.animations.push(animation);
        }
    }

    /// Makes the following animation current (wrapping round), restarts its
    /// clock at `now` and resets it; the other animations stay as they are.
    /// Does nothing on an empty queue.
    pub fn next_animation(&mut self, now: u64)
        requires
            old(self).wf(),
        ensures
            final(self).wf(),
            final(self).items().len() == old(self).items().len(),
            final(self).limit() == old(self).limit(),
            final(self).index() == following(old(self).index(), old(self).items().len()),
            old(self).items().len() == 0 ==> final(self).started() == old(self).started(),
            old(self).items().len() == 0 ==> final(self).items() == old(self).items(),
            old(self).items().len() > 0 ==> final(self).started() == now,
            old(self).items().len() > 0 ==> final(self).items() == old(self).items().update(final(self).index() as int, old(self).items()[final(self).index() as int].reset_state()),
    {
        if self.animations.len() > 0 {
            self.current_index = (self.current_index + 1) % self.animations.len();
            self.start_time = now;
            let i = self.current_index;
            self.animations[i].reset();
        }
        proof {
            if old(self).items().len() > 0 {
                assert(self.items() =~= old(self).items().update(self.index() as int, old(self).items()[self.index() as int].reset_state()));
            }
        }
    }

    /// Clears the circuit's buffer and draws one frame of the current
    /// animation at time `now`, handing it the time since its activation.
    /// When the current animation has finished, or has been current for
    /// longer than the limit, the queue first moves on (resetting the
    /// following animation and restarting the clock) and draws the first
    /// frame of that one. Returns the time handed to the animation, or
    /// `None` on an empty queue, whose frame stays blank.
    pub fn render<const N: usize, C: Circuit<N>>(&mut self, circuit: &mut C, now: u64) -> (r:
        Option<u64>)
        requires
            old(self).wf(),
        ensures
            final(self).wf(),
            final(self).items().len() == old(self).items().len(),
            final(self).limit() == old(self).limit(),
            final(circuit).positions() == old(circuit).positions(),
            old(self).items().len() == 0 ==> {
                &&& r is None
                &&& *final(self) == *old(self)
                &&& final(circuit).buffer()@ == blank_frame(N as nat)
            },
            old(self).items().len() > 0 ==> {
                let k = old(self).index();
                let due = old(self).items()[k as int].finished() || since(now, old(self).started()) > old(self).limit();
                let j = final(self).index() as int;
                let elapsed = since(now, final(self).started());
                let current = if due { old(self).items()[j].reset_state() } else { old(self).items()[j] };
                &&& due ==> final(self).index() == following(k, old(self).items().len()) && final(self).started() == now
                &&& !due ==> final(self).index() == k && final(self).started() == old(self).started()
                &&& r == Some(elapsed)
                &&& final(self).items() == old(self).items().update(j, current.after_frame(N as nat, old(circuit).positions(), sector_table(*old(circuit)), elapsed))
                &&& final(circuit).buffer()@ == current.frame(N as nat, old(circuit).positions(), sector_table(*old(circuit)), blank_frame(N as nat), elapsed)
            },
    {
        let buffer = circuit.led_buffer();
        buffer.clear();
        if self.animations.len() == 0 {
            return None;
        }
        let i = self.current_index;
        let elapsed = if now >= self.start_time {
            now - self.start_time
        } else {
            0
        };
        if self.animations[i].is_finished() || elapsed > self.max_duration {
            self.next_animation(now);
        }
        let j = self.current_index;
        let elapsed = if now >= self.start_time {
            now - self.start_time
        } else {
            0
        };
        self.animations[j].render(circuit, elapsed);
        Some(elapsed)
    }
}

} // verus!
