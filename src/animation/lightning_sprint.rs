use vstd::prelude::*;

use crate::animation::{scale_color, scaled, Animation};
use crate::circuit::{same_layout, sector_table, Circuit};
use crate::geometry::Point;
use crate::led::{gated, Color, Priority};

verus! {

/// Number of LEDs the bolt runs over.
pub const NUM_LEDS: usize = 216;

/// Number of past head positions kept in the trail.
pub const MAX_TRAIL: usize = 10;

/// Full brightness: intensities are fractions of this, so that `0.8^k`
/// is exact for every `k <= MAX_TRAIL`.
pub const FULL: u64 = 9765625;

/// A lookup table from bolt position to LED index.
pub struct PrecomputedData {
    pub led_indices: [usize; NUM_LEDS],
}

impl PrecomputedData {
    /// The identity mapping.
    pub fn new() -> (r: Self)
        ensures
            forall|i: int| 0 <= i < NUM_LEDS ==> r.led_indices@[i] == i,
    {
        let mut led_indices = [0usize; NUM_LEDS];
        let mut i: usize = 0;
        while i < NUM_LEDS
            invariant
                i <= NUM_LEDS,
                forall|k: int| 0 <= k < i ==> led_indices@[k] == k,
            decreases NUM_LEDS - i,
        {
            led_indices[i] = i;
            i = i + 1;
        }
        PrecomputedData { led_indices }
    }
}

/// A lightning bolt that runs along the LEDs one step a frame, leaving a
/// trail that fades by a factor 0.8 for each frame of age.
pub struct LightningSprint {
    pub current_pos: usize,
    /// Recent head positions, newest first.
    pub trail: [Option<usize>; MAX_TRAIL],
    pub base_color: Color,
}

/// `0.8^age` as a fraction of `FULL`.
pub open spec fn decay(age: nat) -> nat
    decreases age,
{
    if age == 0 {
        FULL as nat
    } else {
        decay((age - 1) as nat) * 4 / 5
    }
}

/// Brightness, as a fraction of `FULL`, that the trail gives LED `i`: the
/// sum of `0.8^(j + 1)` over the slots `j` that hold `i`.
pub open spec fn trail_intensity(t: Seq<Option<usize>>, i: usize) -> nat
    decreases t.len(),
{
    if t.len() == 0 {
        0
    } else {
        trail_intensity(t.drop_last(), i) + if t.last() == Some(i) {
            decay(t.len())
        } else {
            0
        }
    }
}

/// Brightness of LED `i` when the head is at `head`.
pub open spec fn bolt_intensity(t: Seq<Option<usize>>, head: usize, i: usize) -> nat {
    if i == head {
        FULL as nat
    } else {
        trail_intensity(t, i)
    }
}

/// Where the head is, on the bolt's ring.
pub open spec fn bolt_pos(p: usize) -> usize {
    (p % NUM_LEDS) as usize
}

/// The LED after `pos` on the bolt's ring.
pub open spec fn bolt_next(pos: usize) -> usize {
    ((pos + 1) % NUM_LEDS as int) as usize
}

/// The trail after the head leaves `pos`: `pos` first, the oldest slot dropped.
pub open spec fn shifted(t: Seq<Option<usize>>, pos: usize) -> Seq<Option<usize>> {
    seq![Some(pos)] + t.take(MAX_TRAIL - 1)
}

proof fn lemma_decay_bounded(age: nat)
    ensures
        decay(age) <= FULL,
    decreases age,
{
    if age > 0 {
        lemma_decay_bounded((age - 1) as nat);
    }
}

/// `0.8^exp` as a fraction of `FULL`.
fn exp_decay(exp: usize) -> (r: u64)
    ensures
        r == decay(exp as nat),
{
    let mut r: u64 = FULL;
    let mut k: usize = 0;
    while k < exp
        invariant
            k <= exp,
            r == decay(k as nat),
        decreases exp - k,
    {
        proof {
            lemma_decay_bounded(k as nat);
        }
        r = r * 4 / 5;
        k = k + 1;
    }
    r
}

impl LightningSprint {
    pub fn new(base_color: Color) -> (r: Self)
        ensures
            r.current_pos == 0,
            forall|j: int| 0 <= j < MAX_TRAIL ==> r.trail@[j] is None,
            r.base_color == base_color,
    {
        LightningSprint { current_pos: 0, trail: [None; MAX_TRAIL], base_color }
    }

    fn intensity_at(&self, i: usize) -> (r: u64)
        ensures
            r == trail_intensity(self.trail@, i),
    {
        let mut val: u64 = 0;
        let mut j: usize = 0;
        while j < MAX_TRAIL
            invariant
                j <= MAX_TRAIL,
                val == trail_intensity(self.trail@.take(j as int), i),
                val <= j * FULL,
            decreases MAX_TRAIL - j,
        {
            assert(self.trail@.take(j + 1).drop_last() =~= self.trail@.take(j as int));
            if self.trail[j] == Some(i) {
                proof {
                    lemma_decay_bounded((j + 1) as nat);
                }
                val = val + exp_decay(j + 1);
            }
            j = j + 1;
        }
        assert(self.trail@.take(MAX_TRAIL as int) =~= self.trail@);
        val
    }
}

impl Animation for LightningSprint {
    open spec fn finished(&self) -> bool {
        false
    }

    /// The head moves one LED on and its old position enters the trail, the
    /// oldest entry leaving it.
    open spec fn after_frame(
        &self,
        n: nat,
        positions: Seq<Point>,
        sectors: Seq<(int, int)>,
        timestamp: u64,
    ) -> Self {
        let pos = bolt_pos(self.current_pos);
        let t = self.trail@;
        LightningSprint {
            current_pos: bolt_next(pos),
            trail: [Some(pos), t[0], t[1], t[2], t[3], t[4], t[5], t[6], t[7], t[8]],
            base_color: self.base_color,
        }
    }

    /// Every one of the bolt's LEDs is drawn at normal priority with the
    /// brightness that the head and the trail give it.
    open spec fn frame(
        &self,
        n: nat,
        positions: Seq<Point>,
        sectors: Seq<(int, int)>,
        before: Seq<(Color, Priority)>,
        timestamp: u64,
    ) -> Seq<(Color, Priority)> {
        let pos = bolt_pos(self.current_pos);
        let t = shifted(self.trail@, pos);
        Seq::new(
            before.len(),
            |i: int|
                if i < NUM_LEDS {
                    gated(
                        before[i],
                        scaled(self.base_color, bolt_intensity(t, bolt_next(pos), i as usize) as u64, FULL),
                        Priority::Normal,
                    )
                } else {
                    before[i]
                },
        )
    }

    /// The head back at the start and the trail empty.
    open spec fn reset_state(&self) -> Self {
        LightningSprint {
            current_pos: 0,
            trail: [None, None, None, None, None, None, None, None, None, None],
            base_color: self.base_color,
        }
    }

    fn reset(&mut self) {
        self.current_pos = 0;
        self.trail = [None, None, None, None, None, None, None, None, None, None];
    }

    fn render<const N: usize, C: Circuit<N>>(&mut self, circuit: &mut C, timestamp: u64)
    {
        let pos = self.current_pos % NUM_LEDS;
        let next = (pos + 1) % NUM_LEDS;
        self.current_pos = next;
        let ghost old_trail = self.trail@;
        let mut k: usize = MAX_TRAIL - 1;
        while k > 0
            invariant
                k < MAX_TRAIL,
                self.current_pos == next,
                self.base_color == old(self).base_color,
                forall|j: int| 0 <= j <= k ==> self.trail@[j] == old_trail[j],
                forall|j: int| k < j < MAX_TRAIL ==> self.trail@[j] == old_trail[j - 1],
            decreases k,
        {
            self.trail[k] = self.trail[k - 1];
            k = k - 1;
        }
        self.trail[0] = Some(pos);
        assert(self.trail@ =~= shifted(old_trail, pos));
        let ghost before = circuit.buffer()@;
        let ghost start = *circuit;
        let mut i: usize = 0;
        while i < NUM_LEDS
            invariant
                i <= NUM_LEDS,
                self.current_pos == next,
                self.base_color == old(self).base_color,
                self.trail@ == shifted(old_trail, pos),
                same_layout(start, *circuit),
                before == start.buffer()@,
                next < NUM_LEDS,
                forall|m: int|
                    0 <= m < before.len() ==> #[trigger] circuit.buffer()@[m] == if m < i {
                        gated(
                            before[m],
                            scaled(
                                self.base_color,
                                bolt_intensity(self.trail@, next, m as usize) as u64,
                                FULL,
                            ),
                            Priority::Normal,
                        )
                    } else {
                        before[m]
                    },
            decreases NUM_LEDS - i,
        {
            let intensity = if i == next {
                FULL
            } else {
                self.intensity_at(i)
            };
            let scaled_color = scale_color(self.base_color, intensity, FULL);
            circuit.set_led(i, scaled_color, Priority::Normal);
            i = i + 1;
        }
        assert(self.trail =~= old(self).after_frame(
            N as nat,
            start.positions(),
            sector_table(start),
            timestamp,
        ).trail);
        assert(circuit.buffer()@ =~= old(self).frame(
            N as nat,
            start.positions(),
            sector_table(start),
            before,
            timestamp,
        ));
    }

    fn is_finished(&self) -> (r: bool) {
        false
    }

    fn priority(&self) -> (r: Priority)
        ensures
            r == Priority::Normal,
    {
        Priority::Normal
    }
}

} // verus!
