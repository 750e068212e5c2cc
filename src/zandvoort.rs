use vstd::prelude::*;

use crate::circuit::Circuit;
use crate::geometry::{Point, Sector};
use crate::led::{Color, LedStateBuffer, Priority};

verus! {

/// Number of LEDs on the Zandvoort board.
pub const LED_COUNT: usize = 216;

/// First index of the second sector.
pub const SECTOR_2_START: usize = 77;

/// First index of the third sector.
pub const SECTOR_3_START: usize = 153;

/// LED positions of the Zandvoort circuit in wiring order, in hundredths of
/// a board unit.
pub fn led_positions_sorted() -> (r: Vec<Point>)
    ensures
        r@.len() == LED_COUNT,
{
    let v = vec![
        Point { x: 4400, y: 11730 },
        Point { x: 4530, y: 12040 },
        Point { x: 4670, y: 12340 },
        Point { x: 4791, y: 12647 },
        Point { x: 4920, y: 12950 },
        Point { x: 5050, y: 13250 },
        Point { x: 5181, y: 13542 },
        Point { x: 5310, y: 13860 },
        Point { x: 5430, y: 14160 },
        Point { x: 5544, y: 14467 },
        Point { x: 5660, y: 14768 },
        Point { x: 5771, y: 15057 },
        Point { x: 5881, y: 15365 },
        Point { x: 5990, y: 15680 },
        Point { x: 6091, y: 15970 },
        Point { x: 6212, y: 16274 },
        Point { x: 6360, y: 16574 },
        Point { x: 6628, y: 16814 },
        Point { x: 6971, y: 16896 },
        Point { x: 7314, y: 16837 },
        Point { x: 7567, y: 16576 },
        Point { x: 7601, y: 16276 },
        Point { x: 7570, y: 15980 },
        Point { x: 7503, y: 15676 },
        Point { x: 7385, y: 15377 },
        Point { x: 7251, y: 15092 },
        Point { x: 7138, y: 14790 },
        Point { x: 7045, y: 14492 },
        Point { x: 6944, y: 14189 },
        Point { x: 6845, y: 13887 },
        Point { x: 6757, y: 13583 },
        Point { x: 6690, y: 13280 },
        Point { x: 6663, y: 12982 },
        Point { x: 6662, y: 12696 },
        Point { x: 6671, y: 12397 },
        Point { x: 6590, y: 12080 },
        Point { x: 6390, y: 11780 },
        Point { x: 6081, y: 11598 },
        Point { x: 5788, y: 11494 },
        Point { x: 5489, y: 11385 },
        Point { x: 5201, y: 11272 },
        Point { x: 4958, y: 11104 },
        Point { x: 4813, y: 10800 },
        Point { x: 4851, y: 10468 },
        Point { x: 5079, y: 10213 },
        Point { x: 5418, y: 10158 },
        Point { x: 5720, y: 10224 },
        Point { x: 6033, y: 10317 },
        Point { x: 6325, y: 10425 },
        Point { x: 6623, y: 10535 },
        Point { x: 6920, y: 10630 },
        Point { x: 7210, y: 10718 },
        Point { x: 7508, y: 10785 },
        Point { x: 7805, y: 10818 },
        Point { x: 8094, y: 10819 },
        Point { x: 8398, y: 10822 },
        Point { x: 8702, y: 10820 },
        Point { x: 9030, y: 10800 },
        Point { x: 9334, y: 10743 },
        Point { x: 9624, y: 10664 },
        Point { x: 9905, y: 10591 },
        Point { x: 10198, y: 10529 },
        Point { x: 10490, y: 10491 },
        Point { x: 10790, y: 10480 },
        Point { x: 11090, y: 10480 },
        Point { x: 11398, y: 10527 },
        Point { x: 11696, y: 10648 },
        Point { x: 11990, y: 10780 },
        Point { x: 12294, y: 10967 },
        Point { x: 12592, y: 11160 },
        Point { x: 12880, y: 11331 },
        Point { x: 13177, y: 11479 },
        Point { x: 13487, y: 11591 },
        Point { x: 13788, y: 11671 },
        Point { x: 14090, y: 11700 },
        Point { x: 14390, y: 11710 },
        Point { x: 14690, y: 11724 },
        Point { x: 14990, y: 11724 },
        Point { x: 15290, y: 11724 },
        Point { x: 15596, y: 11725 },
        Point { x: 15900, y: 11700 },
        Point { x: 16194, y: 11661 },
        Point { x: 16503, y: 11585 },
        Point { x: 16790, y: 11470 },
        Point { x: 17068, y: 11322 },
        Point { x: 17330, y: 11140 },
        Point { x: 17571, y: 10929 },
        Point { x: 17790, y: 10680 },
        Point { x: 17890, y: 10370 },
        Point { x: 17890, y: 10080 },
        Point { x: 17847, y: 9781 },
        Point { x: 17748, y: 9485 },
        Point { x: 17570, y: 9192 },
        Point { x: 17358, y: 8900 },
        Point { x: 17173, y: 8623 },
        Point { x: 16991, y: 8307 },
        Point { x: 16835, y: 8025 },
        Point { x: 16675, y: 7726 },
        Point { x: 16528, y: 7428 },
        Point { x: 16398, y: 7116 },
        Point { x: 16262, y: 6805 },
        Point { x: 16124, y: 6505 },
        Point { x: 15966, y: 6221 },
        Point { x: 15710, y: 6023 },
        Point { x: 15403, y: 5933 },
        Point { x: 15095, y: 5915 },
        Point { x: 14797, y: 5935 },
        Point { x: 14512, y: 5961 },
        Point { x: 14208, y: 6025 },
        Point { x: 13908, y: 6135 },
        Point { x: 13632, y: 6264 },
        Point { x: 13364, y: 6417 },
        Point { x: 13098, y: 6570 },
        Point { x: 12866, y: 6741 },
        Point { x: 12661, y: 6986 },
        Point { x: 12610, y: 7328 },
        Point { x: 12713, y: 7643 },
        Point { x: 12936, y: 7902 },
        Point { x: 13253, y: 8043 },
        Point { x: 13561, y: 8090 },
        Point { x: 13867, y: 8119 },
        Point { x: 14175, y: 8153 },
        Point { x: 14486, y: 8210 },
        Point { x: 14791, y: 8303 },
        Point { x: 15095, y: 8420 },
        Point { x: 15390, y: 8580 },
        Point { x: 15593, y: 8818 },
        Point { x: 15699, y: 9141 },
        Point { x: 15677, y: 9471 },
        Point { x: 15515, y: 9773 },
        Point { x: 15210, y: 9919 },
        Point { x: 14890, y: 9980 },
        Point { x: 14590, y: 9980 },
        Point { x: 14290, y: 9980 },
        Point { x: 13990, y: 9980 },
        Point { x: 13690, y: 9980 },
        Point { x: 13390, y: 9980 },
        Point { x: 13090, y: 9980 },
        Point { x: 12790, y: 9980 },
        Point { x: 12490, y: 9980 },
        Point { x: 12190, y: 9980 },
        Point { x: 11895, y: 9960 },
        Point { x: 11593, y: 9924 },
        Point { x: 11287, y: 9889 },
        Point { x: 10985, y: 9838 },
        Point { x: 10690, y: 9780 },
        Point { x: 10377, y: 9693 },
        Point { x: 10076, y: 9610 },
        Point { x: 9781, y: 9520 },
        Point { x: 9475, y: 9414 },
        Point { x: 9158, y: 9309 },
        Point { x: 8862, y: 9188 },
        Point { x: 8580, y: 9052 },
        Point { x: 8310, y: 8910 },
        Point { x: 8020, y: 8750 },
        Point { x: 7720, y: 8600 },
        Point { x: 7400, y: 8470 },
        Point { x: 7076, y: 8474 },
        Point { x: 6810, y: 8653 },
        Point { x: 6589, y: 8886 },
        Point { x: 6270, y: 9010 },
        Point { x: 5959, y: 8930 },
        Point { x: 5751, y: 8688 },
        Point { x: 5700, y: 8390 },
        Point { x: 5726, y: 8088 },
        Point { x: 5764, y: 7783 },
        Point { x: 5802, y: 7479 },
        Point { x: 5851, y: 7175 },
        Point { x: 5919, y: 6888 },
        Point { x: 5978, y: 6584 },
        Point { x: 6020, y: 6280 },
        Point { x: 6070, y: 5982 },
        Point { x: 6118, y: 5685 },
        Point { x: 6170, y: 5380 },
        Point { x: 6210, y: 5077 },
        Point { x: 6240, y: 4779 },
        Point { x: 6264, y: 4483 },
        Point { x: 6280, y: 4178 },
        Point { x: 6230, y: 3860 },
        Point { x: 6010, y: 3610 },
        Point { x: 5710, y: 3470 },
        Point { x: 5410, y: 3414 },
        Point { x: 5110, y: 3400 },
        Point { x: 4830, y: 3390 },
        Point { x: 4520, y: 3390 },
        Point { x: 4210, y: 3400 },
        Point { x: 3907, y: 3446 },
        Point { x: 3610, y: 3519 },
        Point { x: 3293, y: 3651 },
        Point { x: 2990, y: 3810 },
        Point { x: 2715, y: 4014 },
        Point { x: 2477, y: 4270 },
        Point { x: 2290, y: 4560 },
        Point { x: 2181, y: 4872 },
        Point { x: 2120, y: 5170 },
        Point { x: 2104, y: 5466 },
        Point { x: 2109, y: 5778 },
        Point { x: 2147, y: 6068 },
        Point { x: 2210, y: 6370 },
        Point { x: 2300, y: 6681 },
        Point { x: 2410, y: 6982 },
        Point { x: 2530, y: 7290 },
        Point { x: 2660, y: 7590 },
        Point { x: 2780, y: 7890 },
        Point { x: 2901, y: 8187 },
        Point { x: 3030, y: 8478 },
        Point { x: 3161, y: 8782 },
        Point { x: 3290, y: 9090 },
        Point { x: 3420, y: 9390 },
        Point { x: 3541, y: 9680 },
        Point { x: 3671, y: 9987 },
        Point { x: 3801, y: 10282 },
        Point { x: 3920, y: 10581 },
        Point { x: 4044, y: 10866 },
        Point { x: 4161, y: 11162 },
        Point { x: 4280, y: 11430 },
    ];
    v
}

/// The Zandvoort circuit board and its frame buffer.
pub struct Zandvoort<const N: usize> {
    buffer: LedStateBuffer<N>,
    positions: Vec<Point>,
}

/// Sector bounds on a layout of `len` LEDs, cut off at its end.
pub open spec fn zandvoort_sector(sector: Sector, len: int) -> (int, int) {
    let (a, b) = match sector {
        Sector::_1 => (0int, SECTOR_2_START as int),
        Sector::_2 => (SECTOR_2_START as int, SECTOR_3_START as int),
        Sector::_3 => (SECTOR_3_START as int, LED_COUNT as int),
    };
    (if a < len { a } else { len }, if b < len { b } else { len })
}

impl<const N: usize> Zandvoort<N> {
    pub fn new() -> (r: Self)
        ensures
            r.positions().len() == LED_COUNT,
            r.buffer().wf(),
    {
        Zandvoort { buffer: LedStateBuffer::new(), positions: led_positions_sorted() }
    }
}

impl<const N: usize> Circuit<N> for Zandvoort<N> {
    closed spec fn positions(&self) -> Seq<Point> {
        self.positions@
    }

    open spec fn sector_range(&self, sector: Sector) -> (int, int) {
        zandvoort_sector(sector, self.positions().len() as int)
    }

    closed spec fn buffer(&self) -> LedStateBuffer<N> {
        self.buffer
    }

    fn led_count(&self) -> (r: usize) {
        self.positions.len()
    }

    fn led_positions(&self) -> (r: &[Point]) {
        self.positions.as_slice()
    }

    fn sectors(&self, sector: Sector) -> (r: &[Point]) {
        let range = self.sector_indices(sector);
        vstd::slice::slice_subrange(self.positions.as_slice(), range.start, range.end)
    }

    fn sector_indices(&self, sector: Sector) -> (r: core::ops::Range<usize>) {
        let len = self.positions.len();
        let (a, b): (usize, usize) = match sector {
            Sector::_1 => (0, SECTOR_2_START),
            Sector::_2 => (SECTOR_2_START, SECTOR_3_START),
            Sector::_3 => (SECTOR_3_START, LED_COUNT),
        };
        let start = if a < len {
            a
        } else {
            len
        };
        let end = if b < len {
            b
        } else {
            len
        };
        start..end
    }

    fn led_buffer(&mut self) -> (r: &mut LedStateBuffer<N>) {
        &mut self.buffer
    }

    fn set_led(&mut self, index: usize, color: Color, priority: Priority) {
        self.buffer.set_led(index, color, priority);
    }
}

} // verus!
