use vstd::prelude::*;

use crate::animation::Animation;
use crate::circuit::{ring_back, ring_forward, same_layout, Circuit};
use crate::geometry::Point;
use crate::led::{filled, written, Color, Priority};

verus! {

/// Length of each comet, head included.
pub const COMET_LEN: usize = 7;

/// Number of frames a flash lasts after an overtake.
pub const FLASH_LEN: u8 = 8;

/// A ring distance under which the chasing token has caught up.
pub const CATCH_DISTANCE: usize = 3;

/// Two comets chasing and overtaking each other around the circuit.
#[derive(Clone, Copy, Debug, PartialEq, Eq, Structural)]
pub struct OvertakeDuel {
    /// Head of comet A.
    pub a_pos: usize,
    /// Head of comet B.
    pub b_pos: usize,
    /// Whether A is the faster token, catching up with B.
    pub a_fast: bool,
    /// Frames drawn since the last reset.
    pub timer: u32,
    /// Frames left of the current flash.
    pub flash_timer: u8,
    /// Number of LEDs the duel was set up for.
    pub led_count: usize,
}

/// Forward distance from `a` to `b` on a ring of `n` LEDs.
pub open spec fn ring_distance(a: int, b: int, n: int) -> int {
    if b >= a {
        b - a
    } else {
        n - a + b
    }
}

/// Both heads lie on a ring of `n` LEDs.
pub open spec fn on_ring(s: OvertakeDuel, n: nat) -> bool {
    n > 0 && s.a_pos < n && s.b_pos < n
}

/// Whether the catch-up role passes from A to B in this frame.
pub open spec fn catches(s: OvertakeDuel, n: nat) -> bool {
    s.a_fast && ring_distance(s.a_pos as int, s.b_pos as int, n as int) < CATCH_DISTANCE
}

/// Whether the catch-up role returns to A in this frame.
pub open spec fn resumes(s: OvertakeDuel, n: nat) -> bool {
    !s.a_fast && ring_distance(s.a_pos as int, s.b_pos as int, n as int) > n / 2
}

/// The faster token moves two LEDs a frame, the other one.
pub open spec fn stepped(s: OvertakeDuel, n: nat) -> OvertakeDuel {
    let (da, db) = if s.a_fast {
        (2int, 1int)
    } else {
        (1int, 2int)
    };
    OvertakeDuel {
        a_pos: ((s.a_pos + da) % (n as int)) as usize,
        b_pos: ((s.b_pos + db) % (n as int)) as usize,
        ..s
    }
}

/// One frame of the duel: count the frame, let the flash run down, swap
/// roles on a catch (starting a flash) or once the tokens are more than half
/// a lap apart again, then move both tokens.
pub open spec fn duel_step(s: OvertakeDuel, n: nat) -> OvertakeDuel {
    let flash = if catches(s, n) {
        FLASH_LEN
    } else if s.flash_timer > 0 {
        (s.flash_timer - 1) as u8
    } else {
        0u8
    };
    let fast = if catches(s, n) {
        false
    } else if resumes(s, n) {
        true
    } else {
        s.a_fast
    };
    stepped(
        OvertakeDuel { timer: s.timer.wrapping_add(1), flash_timer: flash, a_fast: fast, ..s },
        n,
    )
}

/// Colour the whole ring is cleared to before the comets are drawn.
pub open spec fn wake_color() -> Color {
    Color(20, 10, 20)
}

/// Colour of the flash after an overtake.
pub open spec fn flash_color() -> Color {
    Color(255, 255, 80)
}

/// Brightness of the comet segment `i` LEDs behind the head: a byte-capped
/// `200 * (COMET_LEN - i)` over `COMET_LEN`, at least 30.
pub open spec fn fade_of(i: int) -> u8 {
    let raw = (COMET_LEN - i) * 200;
    let capped = if raw > 255 {
        255
    } else {
        raw
    };
    let f = capped / (COMET_LEN as int);
    if f < 30 {
        30
    } else {
        f as u8
    }
}

/// The frame after the first `k` segments of both comets, heads at `a` and
/// `b` on a ring of `n`; at each segment A's LED is drawn before B's.
pub open spec fn comets(s: Seq<(Color, Priority)>, a: int, b: int, n: int, k: nat) -> Seq<
    (Color, Priority),
>
    decreases k,
{
    if k == 0 {
        s
    } else {
        let i = k - 1;
        let f = fade_of(i);
        written(
            written(
                comets(s, a, b, n, (k - 1) as nat),
                (a - i) % n,
                Color(f, f / 8, f / 8),
                Priority::Normal,
            ),
            (b - i) % n,
            Color(f / 8, f / 8, f),
            Priority::Normal,
        )
    }
}

/// The frame after flashing the first `k` LEDs from `a` on.
pub open spec fn flashes(s: Seq<(Color, Priority)>, a: int, n: int, k: nat) -> Seq<
    (Color, Priority),
>
    decreases k,
{
    if k == 0 {
        s
    } else {
        written(flashes(s, a, n, (k - 1) as nat), (a + k - 1) % n, flash_color(), Priority::Normal)
    }
}

/// The frame of a duel in state `d` on `n` LEDs drawn over `s`: the ring
/// in its wake colour, both comets, and the flash while it lasts.
pub open spec fn duel_frame(s: Seq<(Color, Priority)>, d: OvertakeDuel, n: int) -> Seq<
    (Color, Priority),
> {
    let wake = filled(s, 0, n, wake_color(), Priority::Background);
    let drawn = comets(wake, d.a_pos as int, d.b_pos as int, n, COMET_LEN as nat);
    if d.flash_timer > 0 {
        flashes(drawn, d.a_pos as int, n, 4)
    } else {
        drawn
    }
}

/// A duel on `led_count` LEDs at its start: B a third of a lap ahead of A,
/// A chasing, no frame drawn and no flash.
pub open spec fn duel_start(led_count: usize) -> OvertakeDuel {
    OvertakeDuel {
        a_pos: 0,
        b_pos: led_count / 3,
        a_fast: true,
        timer: 0,
        flash_timer: 0,
        led_count,
    }
}

/// A duel whose heads are brought onto a ring of `n` LEDs.
pub open spec fn on_ring_of(s: OvertakeDuel, n: nat) -> OvertakeDuel {
    OvertakeDuel { a_pos: ((s.a_pos as int) % (n as int)) as usize, b_pos: ((s.b_pos as int) % (n as int)) as usize, ..s }
}

impl OvertakeDuel {
    /// A duel on `led_count` LEDs, B a third of a lap ahead of A, A chasing.
    pub fn new(led_count: usize) -> (r: Self)
        ensures
            r == duel_start(led_count),
    {
        OvertakeDuel {
            a_pos: 0,
            b_pos: led_count / 3,
            a_fast: true,
            timer: 0,
            flash_timer: 0,
            led_count,
        }
    }

    /// Moves both tokens by their current speeds around the ring.
    pub fn step_positions(&mut self, led_count: usize)
        requires
            on_ring(*old(self), led_count as nat),
        ensures
            *final(self) == stepped(*old(self), led_count as nat),
            on_ring(*final(self), led_count as nat),
    {
        let (a_speed, b_speed): (usize, usize) = if self.a_fast {
            (2, 1)
        } else {
            (1, 2)
        };
        self.a_pos = ring_forward(self.a_pos, a_speed, led_count);
        self.b_pos = ring_forward(self.b_pos, b_speed, led_count);
    }

    /// Forward distance from `a` to `b` on a ring of `led_count` LEDs.
    pub fn distance(a: usize, b: usize, led_count: usize) -> (r: usize)
        requires
            a < led_count,
            b < led_count,
        ensures
            r == ring_distance(a as int, b as int, led_count as int),
            r < led_count,
    {
        if b >= a {
            b - a
        } else {
            led_count - a + b
        }
    }

    /// Brightness of the comet segment `i` LEDs behind the head.
    fn fade(i: usize) -> (r: u8)
        requires
            i < COMET_LEN,
        ensures
            r == fade_of(i as int),
            30 <= r <= 36,
    {
        let raw: u16 = (COMET_LEN - i) as u16 * 200;
        let capped: u16 = if raw > 255 {
            255
        } else {
            raw
        };
        let f: u16 = capped / COMET_LEN as u16;
        assert(f <= 36) by (nonlinear_arith)
            requires
                capped <= 255,
                f == capped / 7,
        ;
        if f < 30 {
            30
        } else {
            f as u8
        }
    }
}

/// Advances the duel by one frame on a ring of `led_count` LEDs.
pub fn update_overtake_duel(anim: &mut OvertakeDuel, led_count: usize)
    requires
        on_ring(*old(anim), led_count as nat),
    ensures
        *final(anim) == duel_step(*old(anim), led_count as nat),
        on_ring(*final(anim), led_count as nat),
{
    anim.timer = anim.timer.wrapping_add(1);
    if anim.flash_timer > 0 {
        anim.flash_timer = anim.flash_timer - 1;
    }
    let dist = OvertakeDuel::distance(anim.a_pos, anim.b_pos, led_count);
    if dist < CATCH_DISTANCE && anim.a_fast {
        anim.flash_timer = FLASH_LEN;
        anim.a_fast = false;
    } else if dist > led_count / 2 && !anim.a_fast {
        anim.a_fast = true;
    }
    anim.step_positions(led_count);
}

/// A role swap from A to B happens exactly on a catch and starts a flash; B
/// keeps the catch-up role, and no new swap or flash can start, until the
/// tokens are more than half a lap apart.
pub proof fn lemma_swap_once_per_catch(s: OvertakeDuel, n: nat)
    requires
        on_ring(s, n),
    ensures
        ({
            let t = duel_step(s, n);
            let d = ring_distance(s.a_pos as int, s.b_pos as int, n as int);
            &&& (s.a_fast && !t.a_fast) <==> (s.a_fast && d < CATCH_DISTANCE)
            &&& (s.a_fast && !t.a_fast) ==> t.flash_timer == FLASH_LEN
            &&& (!s.a_fast && t.a_fast) <==> (!s.a_fast && d > n / 2)
            &&& (!s.a_fast && d <= n / 2) ==> !t.a_fast && t.flash_timer == (if s.flash_timer
                > 0 {
                s.flash_timer - 1
            } else {
                0
            })
        }),
{
}

impl Animation for OvertakeDuel {
    open spec fn finished(&self) -> bool {
        false
    }

    /// One frame of the duel on the ring of the buffer's `n` entries;
    /// nothing changes when there are none.
    open spec fn after_frame(
        &self,
        n: nat,
        positions: Seq<Point>,
        sectors: Seq<(int, int)>,
        timestamp: u64,
    ) -> Self {
        if n == 0 {
            *self
        } else {
            duel_step(on_ring_of(*self, n), n)
        }
    }

    /// The wake colour, both comets and any flash, after the frame's step.
    open spec fn frame(
        &self,
        n: nat,
        positions: Seq<Point>,
        sectors: Seq<(int, int)>,
        before: Seq<(Color, Priority)>,
        timestamp: u64,
    ) -> Seq<(Color, Priority)> {
        if n == 0 {
            before
        } else {
            duel_frame(before, self.after_frame(n, positions, sectors, timestamp), n as int)
        }
    }

    /// The duel back at its start.
    open spec fn reset_state(&self) -> Self {
        duel_start(self.led_count)
    }

    fn reset(&mut self) {
        self.a_pos = 0;
        self.b_pos = self.led_count / 3;
        self.a_fast = true;
        self.timer = 0;
        self.flash_timer = 0;
    }

    fn render<const N: usize, C: Circuit<N>>(&mut self, circuit: &mut C, _timestamp: u64)
        ensures
            N > 0 ==> *final(self) == duel_step(
                OvertakeDuel { a_pos: old(self).a_pos % N, b_pos: old(self).b_pos % N, ..*old(self) },
                N as nat,
            ),
            N > 0 ==> final(circuit).buffer()@ == duel_frame(old(circuit).buffer()@, *final(self), N as int),
    {
        if N == 0 {
            return ;
        }
        let led_count = N;
        self.a_pos = self.a_pos % led_count;
        self.b_pos = self.b_pos % led_count;
        update_overtake_duel(self, led_count);
        let ghost start = *circuit;
        let ghost before = circuit.buffer()@;
        let mut i: usize = 0;
        while i < led_count
            invariant
                i <= led_count,
                same_layout(start, *circuit),
                before == start.buffer()@,
                circuit.buffer()@ == filled(before, 0, i as int, wake_color(), Priority::Background),
            decreases led_count - i,
        {
            circuit.set_led(i, Color(20, 10, 20), Priority::Background);
            i = i + 1;
            assert(circuit.buffer()@ =~= filled(before, 0, i as int, wake_color(), Priority::Background));
        }
        let ghost wake = circuit.buffer()@;
        let mut i: usize = 0;
        while i < COMET_LEN
            invariant
                i <= COMET_LEN,
                same_layout(start, *circuit),
                on_ring(*self, led_count as nat),
                circuit.buffer()@ == comets(
                    wake,
                    self.a_pos as int,
                    self.b_pos as int,
                    led_count as int,
                    i as nat,
                ),
            decreases COMET_LEN - i,
        {
            let fade = Self::fade(i);
            let a_idx = ring_back(self.a_pos, i, led_count);
            let b_idx = ring_back(self.b_pos, i, led_count);
            circuit.set_led(a_idx, Color(fade, fade / 8, fade / 8), Priority::Normal);
            circuit.set_led(b_idx, Color(fade / 8, fade / 8, fade), Priority::Normal);
            i = i + 1;
        }
        let ghost drawn = circuit.buffer()@;
        if self.flash_timer > 0 {
            let idx = self.a_pos;
            let mut d: usize = 0;
            while d < 4
                invariant
                    same_layout(start, *circuit),
                    on_ring(*self, led_count as nat),
                    idx == self.a_pos,
                    d <= 4,
                    circuit.buffer()@ == flashes(drawn, idx as int, led_count as int, d as nat),
                decreases 4 - d,
            {
                circuit.set_led(ring_forward(idx, d, led_count), Color(255, 255, 80), Priority::Normal);
                d = d + 1;
            }
        }
    }

    fn is_finished(&self) -> (r: bool) {
        false
    }

    fn priority(&self) -> (r: Priority)
        ensures
            r == Priority::Normal,
    {
        Priority::Normal
    }
}

} // verus!
