use vstd::prelude::*;

use crate::geometry::{Point, Sector};
use crate::led::{written, Color, LedStateBuffer, Priority};

verus! {

/// A physical LED layout together with the frame buffer that is drawn on it.
pub trait Circuit<const N: usize> {
    /// Positions of the LEDs, in wiring order.
    spec fn positions(&self) -> Seq<Point>;

    /// First index and one-past-last index of a sector.
    spec fn sector_range(&self, sector: Sector) -> (int, int);

    /// The frame buffer.
    spec fn buffer(&self) -> LedStateBuffer<N>;

    fn led_count(&self) -> (r: usize)
        ensures
            r == self.positions().len(),
    ;

    /// Returns the positions of all LEDs on the circuit.
    fn led_positions(&self) -> (r: &[Point])
        ensures
            r@ == self.positions(),
    ;

    /// Returns the positions of the LEDs of one sector.
    fn sectors(&self, sector: Sector) -> (r: &[Point])
        ensures
            r@ == self.positions().subrange(
                self.sector_range(sector).0,
                self.sector_range(sector).1,
            ),
    ;

    /// Returns the indices of the LEDs of one sector.
    fn sector_indices(&self, sector: Sector) -> (r: core::ops::Range<usize>)
        ensures
            r.start == self.sector_range(sector).0,
            r.end == self.sector_range(sector).1,
            r.start <= r.end <= self.positions().len(),
    ;

    /// Gives access to the frame buffer; the layout stays as it is.
    fn led_buffer(&mut self) -> (r: &mut LedStateBuffer<N>)
        ensures
            *r == old(self).buffer(),
            final(self).buffer() == *final(r),
            final(self).positions() == old(self).positions(),
            forall|s: Sector| #[trigger]
                final(self).sector_range(s) == old(self).sector_range(s),
    ;

    /// Sets one LED's colour, subject to the buffer's priority rule.
    fn set_led(&mut self, index: usize, color: Color, priority: Priority)
        ensures
            final(self).buffer()@ == written(old(self).buffer()@, index as int, color, priority),
            final(self).positions() == old(self).positions(),
            forall|s: Sector| #[trigger]
                final(self).sector_range(s) == old(self).sector_range(s),
    ;
}

/// The index `d` steps after `p` on a ring of `n` LEDs.
pub fn ring_forward(p: usize, d: usize, n: usize) -> (r: usize)
    requires
        p < n,
    ensures
        r == (p + d) % (n as int),
        r < n,
{
    let k = d % n;
    proof {
        vstd::arithmetic::div_mod::lemma_add_mod_noop_right(p as int, d as int, n as int);
    }
    if k < n - p {
        proof {
            vstd::arithmetic::div_mod::lemma_small_mod((p + k) as nat, n as nat);
        }
        p + k
    } else {
        proof {
            vstd::arithmetic::div_mod::lemma_fundamental_div_mod_converse(
                (p + k) as int,
                n as int,
                1,
                (k - (n - p)) as int,
            );
        }
        k - (n - p)
    }
}

/// The index `d` steps before `p` on a ring of `n` LEDs.
pub fn ring_back(p: usize, d: usize, n: usize) -> (r: usize)
    requires
        p < n,
    ensures
        r == (p - d) % (n as int),
        r < n,
{
    let k = d % n;
    proof {
        vstd::arithmetic::div_mod::lemma_sub_mod_noop_right(p as int, d as int, n as int);
    }
    if k <= p {
        proof {
            vstd::arithmetic::div_mod::lemma_small_mod((p - k) as nat, n as nat);
        }
        p - k
    } else {
        proof {
            vstd::arithmetic::div_mod::lemma_fundamental_div_mod_converse(
                (p - k) as int,
                n as int,
                -1,
                (n - (k - p)) as int,
            );
        }
        n - (k - p)
    }
}

/// Stepping back `d < n` places from `p` on a ring of `n` LEDs, written
/// without a remainder.
pub proof fn lemma_ring_back_value(p: int, d: int, n: int)
    requires
        0 <= p < n,
        0 <= d < n,
    ensures
        (p - d) % n == if d <= p {
            p - d
        } else {
            p - d + n
        },
{
    if d <= p {
        vstd::arithmetic::div_mod::lemma_small_mod((p - d) as nat, n as nat);
    } else {
        vstd::arithmetic::div_mod::lemma_fundamental_div_mod_converse(p - d, n, -1, p - d + n);
    }
}

/// The bounds of the three sectors, in order.
pub open spec fn sector_table<const N: usize, C: Circuit<N>>(c: C) -> Seq<(int, int)> {
    seq![c.sector_range(Sector::_1), c.sector_range(Sector::_2), c.sector_range(Sector::_3)]
}

/// What a frame may change of a circuit: the buffer's entries, not the layout
/// nor the number of entries.
pub open spec fn same_layout<const N: usize, C: Circuit<N>>(a: C, b: C) -> bool {
    &&& b.positions() == a.positions()
    &&& forall|s: Sector| #[trigger] b.sector_range(s) == a.sector_range(s)
    &&& b.buffer()@.len() == a.buffer()@.len()
}

} // verus!
