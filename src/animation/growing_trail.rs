use vstd::prelude::*;

use crate::animation::{scale_color, scaled, Animation};
use crate::circuit::{
    lemma_ring_back_value, ring_back, ring_forward, same_layout, sector_table, Circuit,
};
use crate::geometry::Point;
use crate::led::{gated, Color, Priority};

verus! {

/// A head that runs round the circuit three LEDs a frame, followed by a trail
/// that grows with time until it covers every LED, at which point the
/// animation is finished.
pub struct GrowingTrail {
    current_pos: usize,
    trail_length: usize,
    base_color: Color,
    grow_speed: u32,
    finished: bool,
}

/// Trail length after `timestamp` microseconds on `n` LEDs, growing by
/// `grow_speed` thousandths of an LED per second from one LED, at most `n`.
pub open spec fn grown_length(grow_speed: u32, timestamp: u64, n: nat) -> nat {
    let grown = 1 + (grow_speed as nat) * ((timestamp / 1000) as nat) / 1_000_000;
    if grown > n {
        n
    } else {
        grown
    }
}

/// The entry LED `m` ends with, starting from `e`, under a trail of `len`
/// LEDs whose head is at `head` on a ring of `n`: the LED `i` places behind
/// the head gets the colour at brightness `(len - i) / len`.
pub open spec fn trail_entry(
    e: (Color, Priority),
    m: int,
    head: int,
    len: nat,
    n: nat,
    color: Color,
) -> (Color, Priority) {
    let i = (head - m) % (n as int);
    if i < len {
        gated(e, scaled(color, (len - i) as u64, len as u64), Priority::Normal)
    } else {
        e
    }
}

impl GrowingTrail {
    pub closed spec fn head(&self) -> nat {
        self.current_pos as nat
    }

    pub closed spec fn length(&self) -> nat {
        self.trail_length as nat
    }

    pub closed spec fn done(&self) -> bool {
        self.finished
    }

    pub closed spec fn speed(&self) -> u32 {
        self.grow_speed
    }

    pub closed spec fn color(&self) -> Color {
        self.base_color
    }

    /// A trail of one LED at the start of the circuit; it grows by
    /// `grow_speed` thousandths of an LED per second.
    pub fn new(base_color: Color, grow_speed: u32) -> (r: Self)
        ensures
            r.head() == 0,
            r.length() == 1,
            !r.done(),
            r.speed() == grow_speed,
            r.color() == base_color,
    {
        GrowingTrail { current_pos: 0, trail_length: 1, base_color, grow_speed, finished: false }
    }

    pub fn trail_length(&self) -> (r: usize)
        ensures
            r == self.length(),
    {
        self.trail_length
    }

    pub fn current_pos(&self) -> (r: usize)
        ensures
            r == self.head(),
    {
        self.current_pos
    }

    fn grown(&self, timestamp: u64, n: usize) -> (r: usize)
        ensures
            r == grown_length(self.grow_speed, timestamp, n as nat),
    {
        let s: u128 = self.grow_speed as u128;
        let t: u128 = (timestamp / 1000) as u128;
        assert(s * t <= 0xFFFF_FFFF * 0xFFFF_FFFF_FFFF_FFFF) by (nonlinear_arith)
            requires
                s <= 0xFFFF_FFFF,
                t <= 0xFFFF_FFFF_FFFF_FFFF,
        ;
        let g: u128 = s * t / 1_000_000;
        if g >= n as u128 {
            n
        } else {
            (g + 1) as usize
        }
    }
}

/// A trail that reports finished covers the whole circuit, and one that
/// covers the whole circuit after a frame reports finished.
pub open spec fn trail_consistent(done: bool, length: nat, n: nat) -> bool {
    done <==> length >= n
}

/// Finishing follows the trail exactly: after any frame on `n` LEDs, started
/// from a trail that was not finished or already covered the circuit, the
/// trail is finished exactly when its length has reached `n`, never before.
pub proof fn lemma_finishes_when_full(
    done: bool,
    length: nat,
    grow_speed: u32,
    timestamp: u64,
    n: nat,
)
    requires
        n > 0,
        done ==> length >= n,
    ensures
        ({
            let new_length = if length < n {
                grown_length(grow_speed, timestamp, n)
            } else {
                length
            };
            let new_done = done || new_length >= n;
            trail_consistent(new_done, new_length, n)
        }),
{
}

/// Trail length after a frame on `n` LEDs: it grows with time until it
/// covers the circuit, and then stays.
pub open spec fn next_length(length: nat, grow_speed: u32, timestamp: u64, n: nat) -> nat {
    if length < n {
        grown_length(grow_speed, timestamp, n)
    } else {
        length
    }
}

impl Animation for GrowingTrail {
    open spec fn finished(&self) -> bool {
        self.done()
    }

    /// The head moves three LEDs on and the trail grows; the animation is
    /// finished once the trail covers the circuit. Nothing changes on an
    /// empty layout.
    closed spec fn after_frame(
        &self,
        n: nat,
        positions: Seq<Point>,
        sectors: Seq<(int, int)>,
        timestamp: u64,
    ) -> Self {
        let k = positions.len();
        if k == 0 {
            *self
        } else {
            let len = next_length(self.trail_length as nat, self.grow_speed, timestamp, k);
            GrowingTrail {
                current_pos: (((self.current_pos as nat) % k + 3) % k) as usize,
                trail_length: len as usize,
                finished: self.finished || len >= k,
                ..*self
            }
        }
    }

    /// The trail, at most one lap long, is drawn behind the new head,
    /// fading towards its tail.
    open spec fn frame(
        &self,
        n: nat,
        positions: Seq<Point>,
        sectors: Seq<(int, int)>,
        before: Seq<(Color, Priority)>,
        timestamp: u64,
    ) -> Seq<(Color, Priority)> {
        let k = positions.len();
        if k == 0 {
            before
        } else {
            let len = next_length(self.length(), self.speed(), timestamp, k);
            let head = (self.head() % k + 3) % k;
            Seq::new(
                before.len(),
                |m: int|
                    if m < k {
                        trail_entry(before[m], m, head as int, if len > k { k } else { len }, k, self.color())
                    } else {
                        before[m]
                    },
            )
        }
    }

    closed spec fn reset_state(&self) -> Self {
        GrowingTrail { current_pos: 0, trail_length: 1, finished: false, ..*self }
    }

    fn reset(&mut self)
        ensures
            final(self).head() == 0,
            final(self).length() == 1,
            !final(self).done(),
            final(self).speed() == old(self).speed(),
            final(self).color() == old(self).color(),
    {
        self.current_pos = 0;
        self.trail_length = 1;
        self.finished = false;
    }

    fn render<const N: usize, C: Circuit<N>>(&mut self, circuit: &mut C, timestamp: u64)
        ensures
            ({
                let n = old(circuit).positions().len();
                &&& n == 0 ==> *final(self) == *old(self)
                &&& n > 0 ==> {
                    let len = if old(self).length() < n {
                        grown_length(old(self).speed(), timestamp, n)
                    } else {
                        old(self).length()
                    };
                    &&& final(self).head() == (old(self).head() % n + 3) % n
                    &&& final(self).length() == len
                    &&& final(self).done() == (old(self).done() || len >= n)
                    &&& final(self).speed() == old(self).speed()
                    &&& final(self).color() == old(self).color()
                    &&& forall|m: int|
                        0 <= m < old(circuit).buffer()@.len() ==> #[trigger] final(circuit).buffer()@[m]
                            == if m < n {
                            trail_entry(
                                old(circuit).buffer()@[m],
                                m,
                                final(self).head() as int,
                                if len > n {
                                    n
                                } else {
                                    len
                                },
                                n,
                                old(self).color(),
                            )
                        } else {
                            old(circuit).buffer()@[m]
                        }
                }
            }),
    {
        let n = circuit.led_count();
        if n == 0 {
            return ;
        }
        let next = ring_forward(self.current_pos % n, 3, n);
        self.current_pos = next;
        if self.trail_length < n {
            self.trail_length = self.grown(timestamp, n);
        }
        if self.trail_length >= n {
            self.finished = true;
        }
        let len = if self.trail_length > n {
            n
        } else {
            self.trail_length
        };
        let ghost start = *circuit;
        let ghost before = circuit.buffer()@;
        let mut i: usize = 0;
        while i < len
            invariant
                i <= len <= n,
                n == start.positions().len(),
                same_layout(start, *circuit),
                before == start.buffer()@,
                next < n,
                forall|m: int|
                    0 <= m < before.len() ==> #[trigger] circuit.buffer()@[m] == if m < n && (
                    next - m) % (n as int) < i {
                        trail_entry(before[m], m, next as int, len as nat, n as nat, self.base_color)
                    } else {
                        before[m]
                    },
            decreases len - i,
        {
            let color = scale_color(self.base_color, (len - i) as u64, len as u64);
            let q = ring_back(next, i, n);
            proof {
                lemma_ring_back_value(next as int, i as int, n as int);
                assert forall|m: int| 0 <= m < n implies (#[trigger] ((next - m) % (n as int)) == i)
                    == (m == q) by {
                    lemma_ring_back_value(next as int, m, n as int);
                }
            }
            circuit.set_led(q, color, Priority::Normal);
            i = i + 1;
        }
        proof {
            assert forall|m: int| 0 <= m < n implies #[trigger] ((next - m) % (n as int)) < n by {
                lemma_ring_back_value(next as int, m, n as int);
            }
        }
        assert(circuit.buffer()@ =~= old(self).frame(
            N as nat,
            start.positions(),
            sector_table(start),
            before,
            timestamp,
        ));
    }

    fn is_finished(&self) -> (r: bool) {
        self.finished
    }

    fn priority(&self) -> (r: Priority)
        ensures
            r == Priority::Normal,
    {
        Priority::Normal
    }
}

} // verus!
