use vstd::prelude::*;

use crate::animation::{scale_color, scaled, since, Animation};
use crate::circuit::{same_layout, sector_table, Circuit};
use crate::geometry::{
    calculate_center, centroid, distance, layout_radius, max_distance_from_center, Point,
};
use crate::led::{gated, Color, Priority};

verus! {

/// Brightness of an LED on the pulse front.
pub const PULSE_PEAK: u8 = 150;

/// Pulses that sweep outward from the centroid of the layout to twice its
/// radius, then start again from the centre.
pub struct CircuitPulse {
    /// Speed of the front, in hundredths of a layout unit per second.
    pub speed: u32,
    /// Half-width of the pulse, in hundredths of a layout unit.
    pub pulse_width: u32,
    /// Palette, used by LED index in turn.
    pub colors: [Color; 3],
    /// Time between pulses, in microseconds (`None` for a single pulse).
    pub repeat_interval: Option<u64>,
    /// When the current pulse started, once it has.
    pub start_time: Option<u64>,
    /// Whether the front has swept twice the radius.
    pub finished: bool,
}

/// Distance travelled by the front after `elapsed` microseconds.
pub open spec fn travelled(elapsed: u64, speed: u32) -> nat {
    (elapsed as nat) * (speed as nat) / 1_000_000
}

/// Distance of the front from the centre: the travelled distance, wrapped
/// at twice the radius.
pub open spec fn pulse_front(elapsed: u64, speed: u32, radius: nat) -> nat
    recommends
        radius > 0,
{
    travelled(elapsed, speed) % (2 * radius)
}

/// When the current pulse started: the recorded start, or now for the first frame.
pub open spec fn pulse_start(start_time: Option<u64>, now: u64) -> u64 {
    match start_time {
        Some(s) => s,
        None => now,
    }
}

/// Brightness, out of `PULSE_PEAK`, of an LED at `distance` from the centre
/// when the front is at `front`: the square of the falloff
/// `1 - |distance - front| / width`, and zero outside the width.
pub open spec fn pulse_brightness(distance: nat, front: nat, width: nat) -> nat {
    let delta: nat = if distance >= front {
        (distance - front) as nat
    } else {
        (front - distance) as nat
    };
    if width == 0 || delta > width {
        0
    } else {
        let k = width - delta;
        (k * k * (PULSE_PEAK as int) / ((width * width) as int)) as nat
    }
}

/// The entry LED `i` of layout `p` ends with, starting from `e`, when the
/// front is at `front`: lit in its palette colour at the pulse brightness,
/// or left alone where the pulse gives it no light.
pub open spec fn pulse_entry(
    e: (Color, Priority),
    p: Seq<Point>,
    i: int,
    front: nat,
    width: nat,
    colors: Seq<Color>,
) -> (Color, Priority) {
    let b = pulse_brightness(distance(p[i], centroid(p)), front, width);
    if b > 0 {
        gated(e, scaled(colors[i % 3], b as u64, PULSE_PEAK as u64), Priority::Normal)
    } else {
        e
    }
}

impl CircuitPulse {
    pub fn new(speed: u32, pulse_width: u32, colors: [Color; 3], repeat_interval: Option<u64>) -> (r:
        Self)
        ensures
            r.speed == speed,
            r.pulse_width == pulse_width,
            r.colors == colors,
            r.repeat_interval == repeat_interval,
            r.start_time is None,
            !r.finished,
    {
        CircuitPulse { speed, pulse_width, colors, repeat_interval, start_time: None, finished: false }
    }

    /// When the current pulse started: the recorded start, or now for the first frame.
pub open spec fn pulse_start(start_time: Option<u64>, now: u64) -> u64 {
    match start_time {
        Some(s) => s,
        None => now,
    }
}

/// Brightness, out of `PULSE_PEAK`, of an LED at `distance` from the
    /// centre when the front is at `pulse_distance`.
    pub fn calculate_brightness(&self, distance: u64, pulse_distance: u64) -> (r: u8)
        ensures
            r == pulse_brightness(distance as nat, pulse_distance as nat, self.pulse_width as nat),
            r <= PULSE_PEAK,
    {
        let delta: u64 = if distance >= pulse_distance {
            distance - pulse_distance
        } else {
            pulse_distance - distance
        };
        let w = self.pulse_width as u64;
        if w == 0 || delta > w {
            return 0;
        }
        let k: u128 = (w - delta) as u128;
        let wide: u128 = w as u128;
        assert(wide * wide <= 0xFFFF_FFFF * 0xFFFF_FFFF && wide * wide > 0) by (nonlinear_arith)
            requires
                0 < wide <= 0xFFFF_FFFF,
        ;
        assert(k * k <= wide * wide) by (nonlinear_arith)
            requires
                k <= wide,
        ;
        let ww: u128 = wide * wide;
        let b: u128 = k * k * 150 / ww;
        assert(b <= 150) by (nonlinear_arith)
            requires
                k * k <= ww,
                ww > 0,
                b as int == (k * k * 150) as int / (ww as int),
        ;
        b as u8
    }

    fn front_travelled(&self, elapsed: u64) -> (r: u128)
        ensures
            r == travelled(elapsed, self.speed),
    {
        let e: u128 = elapsed as u128;
        let s: u128 = self.speed as u128;
        assert(e * s <= 0xFFFF_FFFF_FFFF_FFFF * 0xFFFF_FFFF) by (nonlinear_arith)
            requires
                e <= 0xFFFF_FFFF_FFFF_FFFF,
                s <= 0xFFFF_FFFF,
        ;
        e * s / 1_000_000
    }
}

/// The front moves back to the centre every `period` microseconds, when the
/// front covers twice the radius in exactly that time.
pub proof fn lemma_front_periodic(elapsed: u64, period: u64, speed: u32, radius: nat)
    requires
        radius > 0,
        elapsed + period <= u64::MAX,
        (period as nat) * (speed as nat) == 2 * radius * 1_000_000,
    ensures
        pulse_front((elapsed + period) as u64, speed, radius) == pulse_front(elapsed, speed, radius),
{
    let e = elapsed as int;
    let p = period as int;
    let s = speed as int;
    assert((e + p) * s == e * s + 2 * radius * 1_000_000) by (nonlinear_arith)
        requires
            p * s == 2 * radius * 1_000_000,
    ;
    vstd::arithmetic::div_mod::lemma_hoist_over_denominator(e * s, 2 * radius as int, 1_000_000);
    vstd::arithmetic::div_mod::lemma_mod_multiples_vanish(1, e * s / 1_000_000, 2 * radius as int);
}

/// A started pulse draws the same frame one period later: when the front
/// covers twice the radius in exactly `period` microseconds, the frames at
/// `start + elapsed` and `start + elapsed + period` are the same.
pub proof fn lemma_frame_periodic(
    pulse: CircuitPulse,
    start: u64,
    elapsed: u64,
    period: u64,
    n: nat,
    positions: Seq<Point>,
    sectors: Seq<(int, int)>,
    before: Seq<(Color, Priority)>,
)
    requires
        pulse.start_time == Some(start),
        layout_radius(positions) > 0,
        start + elapsed + period <= u64::MAX,
        (period as nat) * (pulse.speed as nat) == 2 * layout_radius(positions) * 1_000_000,
    ensures
        pulse.frame(n, positions, sectors, before, (start + elapsed) as u64) == pulse.frame(
            n,
            positions,
            sectors,
            before,
            (start + elapsed + period) as u64,
        ),
{
    lemma_front_periodic(elapsed, period, pulse.speed, layout_radius(positions));
    assert(pulse.frame(n, positions, sectors, before, (start + elapsed) as u64) =~= pulse.frame(
        n,
        positions,
        sectors,
        before,
        (start + elapsed + period) as u64,
    ));
}

/// The pulse is brightest, at `PULSE_PEAK`, exactly on its front, and dark
/// at the pulse width from it on either side.
pub proof fn lemma_peak_on_front(front: nat, width: nat)
    requires
        width > 0,
    ensures
        pulse_brightness(front, front, width) == PULSE_PEAK,
        pulse_brightness(front + width, front, width) == 0,
        front >= width ==> pulse_brightness((front - width) as nat, front, width) == 0,
        forall|d: nat| #[trigger] pulse_brightness(d, front, width) <= PULSE_PEAK,
{
    let ww = (width * width) as int;
    assert(ww > 0 && ww * 150 / ww == 150) by (nonlinear_arith)
        requires
            width > 0,
            ww == width * width,
    ;
    assert(0int * 0 * 150 / ww == 0);
    assert forall|d: nat| #[trigger] pulse_brightness(d, front, width) <= PULSE_PEAK by {
        let delta: int = if d >= front {
            d - front
        } else {
            front - d
        };
        if delta <= width {
            let k = width - delta;
            assert(k * k * 150 / ww <= 150) by (nonlinear_arith)
                requires
                    0 <= k <= width,
                    ww == width * width,
                    ww > 0,
            ;
        }
    }
}

impl Animation for CircuitPulse {
    open spec fn finished(&self) -> bool {
        self.finished
    }

    /// The first frame records its time as the start of the pulse. A single
    /// pulse (no repeat interval) finishes once its front has travelled
    /// further than twice the radius; a repeating pulse never does.
    open spec fn after_frame(
        &self,
        n: nat,
        positions: Seq<Point>,
        sectors: Seq<(int, int)>,
        timestamp: u64,
    ) -> Self {
        let start = pulse_start(self.start_time, timestamp);
        let elapsed = since(timestamp, start);
        CircuitPulse {
            start_time: Some(start),
            finished: self.finished || (self.repeat_interval is None && travelled(
                elapsed,
                self.speed,
            ) > 2 * layout_radius(positions)),
            ..*self
        }
    }

    /// Each LED that the pulse reaches is lit in its palette colour at the
    /// pulse brightness; a layout of radius zero stays dark.
    open spec fn frame(
        &self,
        n: nat,
        positions: Seq<Point>,
        sectors: Seq<(int, int)>,
        before: Seq<(Color, Priority)>,
        timestamp: u64,
    ) -> Seq<(Color, Priority)> {
        let elapsed = since(timestamp, pulse_start(self.start_time, timestamp));
        let radius = layout_radius(positions);
        Seq::new(
            before.len(),
            |i: int|
                if i < positions.len() && radius > 0 {
                    pulse_entry(
                        before[i],
                        positions,
                        i,
                        pulse_front(elapsed, self.speed, radius),
                        self.pulse_width as nat,
                        self.colors@,
                    )
                } else {
                    before[i]
                },
        )
    }

    open spec fn reset_state(&self) -> Self {
        CircuitPulse { start_time: None, finished: false, ..*self }
    }

    fn reset(&mut self) {
        self.start_time = None;
        self.finished = false;
    }

    fn render<const N: usize, C: Circuit<N>>(&mut self, circuit: &mut C, timestamp: u64)
    {
        let positions = circuit.led_positions();
        let n = positions.len();
        let start = match self.start_time {
            Some(s) => s,
            None => timestamp,
        };
        self.start_time = Some(start);
        let elapsed = if timestamp >= start {
            timestamp - start
        } else {
            0
        };
        let center = calculate_center(positions);
        let radius = max_distance_from_center(positions);
        let span: u128 = 2 * (radius as u128);
        let moved = self.front_travelled(elapsed);
        let ghost start_circuit = *circuit;
        let ghost before = circuit.buffer()@;
        let ghost p = circuit.positions();
        if span > 0 {
            let front = (moved % span) as u64;
            let mut i: usize = 0;
            while i < n
                invariant
                    i <= n,
                    same_layout(start_circuit, *circuit),
                    p == start_circuit.positions(),
                    before == start_circuit.buffer()@,
                    n == circuit.positions().len(),
                    center == centroid(circuit.positions()),
                    front as nat == pulse_front(elapsed, self.speed, radius as nat),
                    radius as nat == layout_radius(p),
                    forall|m: int|
                        0 <= m < before.len() ==> #[trigger] circuit.buffer()@[m] == if m < i {
                            pulse_entry(before[m], p, m, front as nat, self.pulse_width as nat, self.colors@)
                        } else {
                            before[m]
                        },
                decreases n - i,
            {
                let pos = circuit.led_positions()[i];
                let d = pos.distance_to(&center);
                let brightness = self.calculate_brightness(d, front);
                if brightness > 0 {
                    let c = scale_color(self.colors[i % 3], brightness as u64, PULSE_PEAK as u64);
                    circuit.set_led(i, c, Priority::Normal);
                }
                i = i + 1;
            }
        }
        if moved > span && self.repeat_interval.is_none() {
            self.finished = true;
        }
        assert(circuit.buffer()@ =~= old(self).frame(
            N as nat,
            p,
            sector_table(start_circuit),
            before,
            timestamp,
        ));
    }

    fn is_finished(&self) -> (r: bool) {
        self.finished
    }

    fn priority(&self) -> (r: Priority)
        ensures
            r == Priority::Normal,
    {
        Priority::Normal
    }
}

} // verus!
