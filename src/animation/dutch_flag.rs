use vstd::prelude::*;

use crate::animation::Animation;
use crate::circuit::{same_layout, sector_table, Circuit};
use crate::geometry::{lemma_within_y_bounds, max_y, min_y, y_range, Point};
use crate::led::{gated, Color, Priority};

verus! {

/// The Dutch flag over the height of the layout: blue in the lowest third,
/// white in the middle third, red in the top third.
#[derive(Clone, Copy, Debug, PartialEq, Eq, Structural)]
pub struct DutchFlag;

/// Colour of an LED `offset` above the lowest LED of a layout `span` high.
pub open spec fn stripe_color(offset: nat, span: nat) -> Color {
    if 3 * offset < span {
        Color(0, 0, 255)
    } else if 3 * offset < 2 * span {
        Color(255, 255, 255)
    } else {
        Color(255, 0, 0)
    }
}

impl DutchFlag {
    pub fn new() -> (r: Self)
        ensures
            r == DutchFlag,
    {
        DutchFlag
    }
}

impl Animation for DutchFlag {
    open spec fn finished(&self) -> bool {
        false
    }

    /// Every LED of the layout gets the stripe of its height, at normal priority.
    open spec fn frame(
        &self,
        n: nat,
        positions: Seq<Point>,
        sectors: Seq<(int, int)>,
        before: Seq<(Color, Priority)>,
        timestamp: u64,
    ) -> Seq<(Color, Priority)> {
        Seq::new(
            before.len(),
            |i: int|
                if i < positions.len() {
                    gated(
                        before[i],
                        stripe_color(
                            (positions[i].y - min_y(positions)) as nat,
                            (max_y(positions) - min_y(positions)) as nat,
                        ),
                        Priority::Normal,
                    )
                } else {
                    before[i]
                },
        )
    }

    fn render<const N: usize, C: Circuit<N>>(&mut self, circuit: &mut C, timestamp: u64)
    {
        let positions = circuit.led_positions();
        let n = positions.len();
        let (y_min, y_max) = y_range(positions);
        let ghost p = positions@;
        let ghost start = *circuit;
        let ghost before = circuit.buffer()@;
        let mut i: usize = 0;
        while i < n
            invariant
                i <= n,
                n == p.len(),
                p == start.positions(),
                y_min == min_y(p),
                y_max == max_y(p),
                same_layout(start, *circuit),
                before == start.buffer()@,
                forall|m: int|
                    0 <= m < before.len() ==> #[trigger] circuit.buffer()@[m] == if m < i {
                        gated(
                            before[m],
                            stripe_color((p[m].y - min_y(p)) as nat, (max_y(p) - min_y(p)) as nat),
                            Priority::Normal,
                        )
                    } else {
                        before[m]
                    },
            decreases n - i,
        {
            let y = circuit.led_positions()[i].y;
            proof {
                lemma_within_y_bounds(p, i as int);
            }
            let offset: u64 = (y - y_min) as u64;
            let span: u64 = (y_max - y_min) as u64;
            let color = if 3 * offset < span {
                Color(0, 0, 255)
            } else if 3 * offset < 2 * span {
                Color(255, 255, 255)
            } else {
                Color(255, 0, 0)
            };
            circuit.set_led(i, color, Priority::Normal);
            i = i + 1;
        }
        assert(circuit.buffer()@ =~= self.frame(N as nat, p, sector_table(start), before, timestamp));
    }

    fn reset(&mut self) {
    }

    fn is_finished(&self) -> (r: bool) {
        false
    }

    fn priority(&self) -> (r: Priority)
        ensures
            r == Priority::Normal,
    {
        Priority::Normal
    }
}

} // verus!
