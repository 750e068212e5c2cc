use vstd::prelude::*;

use crate::animation::{since, Animation};
use crate::circuit::{same_layout, sector_table, Circuit};
use crate::geometry::{Point, Sector};
use crate::led::{filled, gated, Color, Priority};

verus! {

/// The most frames a `SectorFrames` holds.
pub const MAX_FRAMES: usize = 10;

/// One frame of a sector sequence: a colour per sector, as RGB triples.
pub type FrameColors = [(u8, u8, u8); 3];

/// The bounded list that holds the frames.
pub type FrameList = heapless::Vec<FrameColors, 10>;

#[verifier::external_type_specification]
#[verifier::external_body]
#[verifier::reject_recursive_types(T)]
pub struct ExHeaplessVec<T, const N: usize>(heapless::Vec<T, N>);

/// The frames a list holds, in order.
pub uninterp spec fn frame_list(v: FrameList) -> Seq<FrameColors>;

/// Relies on heapless::Vec::new: the new list is empty.
#[verifier::external_body]
fn frames_new() -> (r: FrameList)
    ensures
        frame_list(r) == Seq::<FrameColors>::empty(),
{
    heapless::Vec::new()
}

/// Relies on heapless::Vec's Deref to the slice of its items: the length is
/// the number of items, which never exceeds the capacity.
#[verifier::external_body]
fn frames_len(v: &FrameList) -> (r: usize)
    ensures
        r == frame_list(*v).len(),
        r <= MAX_FRAMES,
{
    v.len()
}

/// What a push returns: the item back when the list was full.
pub type PushOutcome = Result<(), FrameColors>;

/// Relies on heapless::Vec::push: below capacity the item is appended;
/// at capacity it is handed back and the list stays as it was.
#[verifier::external_body]
fn frames_push(v: &mut FrameList, item: FrameColors) -> (r: PushOutcome)
    ensures
        frame_list(*old(v)).len() < MAX_FRAMES ==> r is Ok,
        frame_list(*old(v)).len() < MAX_FRAMES ==> frame_list(*final(v)) == frame_list(*old(v)).push(item),
        frame_list(*old(v)).len() >= MAX_FRAMES ==> r == PushOutcome::Err(item),
        frame_list(*old(v)).len() >= MAX_FRAMES ==> frame_list(*final(v)) == frame_list(*old(v)),
{
    v.push(item)
}

/// Relies on heapless::Vec's Deref to the slice of its items: the item at `i`.
#[verifier::external_body]
fn frames_get(v: &FrameList, i: usize) -> (r: FrameColors)
    requires
        i < frame_list(*v).len(),
    ensures
        r == frame_list(*v)[i as int],
{
    v[i]
}

/// The colours of a frame.
pub open spec fn frame_colors(f: FrameColors) -> Seq<Color> {
    seq![Color(f[0].0, f[0].1, f[0].2), Color(f[1].0, f[1].1, f[1].2), Color(f[2].0, f[2].1, f[2].2)]
}

fn to_color(c: (u8, u8, u8)) -> (r: Color)
    ensures
        r == Color(c.0, c.1, c.2),
{
    Color(c.0, c.1, c.2)
}

fn to_triple(c: Color) -> (r: (u8, u8, u8))
    ensures
        r == (c.0, c.1, c.2),
{
    (c.0, c.1, c.2)
}

/// The frame after filling, in order, each of the three sectors bounded by
/// `sectors` with its colour from `colors`, at background priority.
pub open spec fn sectors_filled(
    before: Seq<(Color, Priority)>,
    sectors: Seq<(int, int)>,
    colors: Seq<Color>,
) -> Seq<(Color, Priority)> {
    let one = filled(before, sectors[0].0, sectors[0].1, colors[0], Priority::Background);
    let two = filled(one, sectors[1].0, sectors[1].1, colors[1], Priority::Background);
    filled(two, sectors[2].0, sectors[2].1, colors[2], Priority::Background)
}

/// Writes `color` at background priority on the LEDs of one sector.
fn fill_sector<const N: usize, C: Circuit<N>>(circuit: &mut C, sector: Sector, color: Color)
    ensures
        same_layout(*old(circuit), *final(circuit)),
        final(circuit).buffer()@ == filled(old(circuit).buffer()@, old(circuit).sector_range(sector).0, old(circuit).sector_range(sector).1, color, Priority::Background),
{
    let range = circuit.sector_indices(sector);
    let ghost start = *circuit;
    let ghost before = circuit.buffer()@;
    let mut led = range.start;
    while led < range.end
        invariant
            range.start <= led <= range.end,
            range.start == start.sector_range(sector).0,
            range.end == start.sector_range(sector).1,
            same_layout(start, *circuit),
            before == start.buffer()@,
            circuit.buffer()@ == filled(
                before,
                range.start as int,
                led as int,
                color,
                Priority::Background,
            ),
        decreases range.end - led,
    {
        circuit.set_led(led, color, Priority::Background);
        led = led + 1;
        assert(circuit.buffer()@ =~= filled(
            before,
            range.start as int,
            led as int,
            color,
            Priority::Background,
        ));
    }
}

/// One colour on every LED, at background priority.
#[derive(Clone, Copy, Debug, PartialEq, Eq, Structural)]
pub struct StaticColor {
    pub color: Color,
}

impl StaticColor {
    pub fn new(color: Color) -> (r: Self)
        ensures
            r.color == color,
    {
        StaticColor { color }
    }
}

impl Animation for StaticColor {
    open spec fn finished(&self) -> bool {
        false
    }

    open spec fn nominal_priority(&self) -> Priority {
        Priority::Background
    }

    /// Every LED of the layout gets the colour, at background priority.
    open spec fn frame(
        &self,
        n: nat,
        positions: Seq<Point>,
        sectors: Seq<(int, int)>,
        before: Seq<(Color, Priority)>,
        timestamp: u64,
    ) -> Seq<(Color, Priority)> {
        Seq::new(
            before.len(),
            |i: int|
                if i < positions.len() {
                    gated(before[i], self.color, Priority::Background)
                } else {
                    before[i]
                },
        )
    }

    fn render<const N: usize, C: Circuit<N>>(&mut self, circuit: &mut C, timestamp: u64) {
        let n = circuit.led_count();
        let ghost start = *circuit;
        let ghost before = circuit.buffer()@;
        let mut i: usize = 0;
        while i < n
            invariant
                i <= n,
                n == start.positions().len(),
                same_layout(start, *circuit),
                before == start.buffer()@,
                forall|m: int|
                    0 <= m < before.len() ==> #[trigger] circuit.buffer()@[m] == if m < i {
                        gated(before[m], self.color, Priority::Background)
                    } else {
                        before[m]
                    },
            decreases n - i,
        {
            circuit.set_led(i, self.color, Priority::Background);
            i = i + 1;
        }
        assert(circuit.buffer()@ =~= self.frame(
            N as nat,
            start.positions(),
            sector_table(start),
            before,
            timestamp,
        ));
    }

    fn reset(&mut self) {
    }

    fn is_finished(&self) -> (r: bool) {
        false
    }

    fn priority(&self) -> (r: Priority)
        ensures
            r == Priority::Background,
    {
        Priority::Background
    }
}

/// A fixed colour per sector, at background priority.
#[derive(Clone, Copy, Debug)]
pub struct ShowSectors {
    pub sectors: [Color; 3],
}

impl ShowSectors {
    pub fn new(sector1: Color, sector2: Color, sector3: Color) -> (r: Self)
        ensures
            r.sectors@ == seq![sector1, sector2, sector3],
    {
        ShowSectors { sectors: [sector1, sector2, sector3] }
    }
}

impl Animation for ShowSectors {
    open spec fn finished(&self) -> bool {
        false
    }

    open spec fn nominal_priority(&self) -> Priority {
        Priority::Background
    }

    /// Each sector in turn gets its colour, at background priority.
    open spec fn frame(
        &self,
        n: nat,
        positions: Seq<Point>,
        sectors: Seq<(int, int)>,
        before: Seq<(Color, Priority)>,
        timestamp: u64,
    ) -> Seq<(Color, Priority)> {
        sectors_filled(before, sectors, self.sectors@)
    }

    fn render<const N: usize, C: Circuit<N>>(&mut self, circuit: &mut C, _timestamp: u64) {
        let ghost start = *circuit;
        assert(sector_table(start)[0] == start.sector_range(Sector::_1));
        assert(sector_table(start)[1] == start.sector_range(Sector::_2));
        assert(sector_table(start)[2] == start.sector_range(Sector::_3));
        fill_sector(circuit, Sector::_1, self.sectors[0]);
        fill_sector(circuit, Sector::_2, self.sectors[1]);
        fill_sector(circuit, Sector::_3, self.sectors[2]);
    }

    fn reset(&mut self) {
    }

    fn is_finished(&self) -> (r: bool) {
        false
    }

    fn priority(&self) -> (r: Priority)
        ensures
            r == Priority::Background,
    {
        Priority::Background
    }
}

/// A cyclic sequence of per-sector colour frames, moving to the next frame
/// once the interval has passed since the last change.
pub struct SectorFrames {
    frames: FrameList,
    current_frame: usize,
    last_update: u64,
    interval: u64,
}

impl SectorFrames {
    pub closed spec fn frames(&self) -> Seq<FrameColors> {
        frame_list(self.frames)
    }

    pub closed spec fn current(&self) -> nat {
        self.current_frame as nat
    }

    pub closed spec fn last_change(&self) -> u64 {
        self.last_update
    }

    pub closed spec fn period(&self) -> u64 {
        self.interval
    }

    /// The current frame is one of the frames, or the first slot of an empty list.
    pub open spec fn wf(&self) -> bool {
        self.current() < self.frames().len() || self.current() == 0
    }

    /// No frames yet; frames change every `interval` microseconds.
    pub fn new(interval: u64) -> (r: Self)
        ensures
            r.wf(),
            r.frames().len() == 0,
            r.current() == 0,
            r.last_change() == 0,
            r.period() == interval,
    {
        SectorFrames { frames: frames_new(), current_frame: 0, last_update: 0, interval }
    }

    /// Appends a frame; the list holds at most `MAX_FRAMES`.
    pub fn add_frame(&mut self, frame: [Color; 3])
        requires
            old(self).wf(),
            old(self).frames().len() < MAX_FRAMES,
        ensures
            final(self).wf(),
            final(self).frames() == old(self).frames().push(
                [
                    (frame[0].0, frame[0].1, frame[0].2),
                    (frame[1].0, frame[1].1, frame[1].2),
                    (frame[2].0, frame[2].1, frame[2].2),
                ],
            ),
            final(self).current() == old(self).current(),
            final(self).last_change() == old(self).last_change(),
            final(self).period() == old(self).period(),
    {
        let item = [to_triple(frame[0]), to_triple(frame[1]), to_triple(frame[2])];
        let _ = frames_push(&mut self.frames, item);
    }

    pub fn current_frame(&self) -> (r: usize)
        ensures
            r == self.current(),
    {
        self.current_frame
    }
}

/// The frame shown: the current one, or the first if the index is out of range.
pub open spec fn shown_frame(frames: Seq<FrameColors>, current: nat) -> nat {
    if current < frames.len() {
        current
    } else {
        0
    }
}

impl Animation for SectorFrames {
    open spec fn finished(&self) -> bool {
        false
    }

    open spec fn nominal_priority(&self) -> Priority {
        Priority::Background
    }

    /// The frame shown is drawn on the sectors; once more than the interval
    /// has passed since the last change, the next frame (wrapping round)
    /// becomes current. Without frames nothing changes.
    closed spec fn after_frame(
        &self,
        n: nat,
        positions: Seq<Point>,
        sectors: Seq<(int, int)>,
        timestamp: u64,
    ) -> Self {
        let len = self.frames().len();
        if len > 0 && since(timestamp, self.last_update) > self.interval {
            SectorFrames {
                current_frame: ((shown_frame(self.frames(), self.current()) + 1) % len) as usize,
                last_update: timestamp,
                ..*self
            }
        } else {
            *self
        }
    }

    open spec fn frame(
        &self,
        n: nat,
        positions: Seq<Point>,
        sectors: Seq<(int, int)>,
        before: Seq<(Color, Priority)>,
        timestamp: u64,
    ) -> Seq<(Color, Priority)> {
        if self.frames().len() == 0 {
            before
        } else {
            sectors_filled(
                before,
                sectors,
                frame_colors(self.frames()[shown_frame(self.frames(), self.current()) as int]),
            )
        }
    }

    closed spec fn reset_state(&self) -> Self {
        SectorFrames { current_frame: 0, last_update: 0, ..*self }
    }

    /// Back to the first frame, with the clock of the last change at zero.
    fn reset(&mut self)
        ensures
            final(self).wf(),
            final(self).current() == 0,
            final(self).last_change() == 0,
            final(self).frames() == old(self).frames(),
            final(self).period() == old(self).period(),
    {
        self.current_frame = 0;
        self.last_update = 0;
    }

    fn render<const N: usize, C: Circuit<N>>(&mut self, circuit: &mut C, timestamp: u64)
        ensures
            final(self).frames() == old(self).frames(),
            final(self).period() == old(self).period(),
            old(self).wf() ==> final(self).wf(),
            old(self).frames().len() == 0 ==> *final(self) == *old(self),
            old(self).wf() && old(self).frames().len() > 0 ==> {
                let due = since(timestamp, old(self).last_change()) > old(self).period();
                &&& due ==> final(self).current() == (old(self).current() + 1) % old(self).frames().len() && final(self).last_change() == timestamp
                &&& !due ==> final(self).current() == old(self).current() && final(self).last_change() == old(self).last_change()
            },
    {
        let n = frames_len(&self.frames);
        if n == 0 {
            return ;
        }
        let ghost start = *circuit;
        let cur = if self.current_frame < n {
            self.current_frame
        } else {
            0
        };
        let frame = frames_get(&self.frames, cur);
        fill_sector(circuit, Sector::_1, to_color(frame[0]));
        fill_sector(circuit, Sector::_2, to_color(frame[1]));
        fill_sector(circuit, Sector::_3, to_color(frame[2]));
        let t_diff = if timestamp >= self.last_update {
            timestamp - self.last_update
        } else {
            0
        };
        if t_diff > self.interval {
            self.last_update = timestamp;
            self.current_frame = (cur + 1) % n;
        }
        assert(sector_table(start)[0] == start.sector_range(Sector::_1));
        assert(sector_table(start)[1] == start.sector_range(Sector::_2));
        assert(sector_table(start)[2] == start.sector_range(Sector::_3));
    }

    fn is_finished(&self) -> (r: bool) {
        false
    }

    fn priority(&self) -> (r: Priority)
        ensures
            r == Priority::Background,
    {
        Priority::Background
    }
}

} // verus!
