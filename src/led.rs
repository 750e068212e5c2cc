use vstd::prelude::*;

verus! {

/// An RGB colour, one byte per channel.
#[derive(Clone, Copy, Debug, PartialEq, Eq, Structural)]
pub struct Color(pub u8, pub u8, pub u8);

/// How strongly an animation claims an LED; a higher priority wins.
#[derive(Clone, Copy, Debug, PartialEq, Eq, Structural, PartialOrd, Ord)]
pub enum Priority {
    Background,
    Normal,
    Warning,
    Critical,
}

impl Priority {
    /// Position of the priority in the order Background < Normal < Warning < Critical.
    pub open spec fn spec_rank(self) -> nat {
        match self {
            Priority::Background => 0,
            Priority::Normal => 1,
            Priority::Warning => 2,
            Priority::Critical => 3,
        }
    }

    pub fn rank(&self) -> (r: u8)
        ensures
            r as nat == self.spec_rank(),
    {
        match self {
            Priority::Background => 0,
            Priority::Normal => 1,
            Priority::Warning => 2,
            Priority::Critical => 3,
        }
    }

    /// Whether a write at priority `self` may replace an entry held at `other`.
    pub fn at_least(&self, other: &Priority) -> (r: bool)
        ensures
            r == (self.spec_rank() >= other.spec_rank()),
    {
        self.rank() >= other.rank()
    }
}

/// The entry every LED holds after a clear: black, at background priority.
pub open spec fn blank_entry() -> (Color, Priority) {
    (Color(0, 0, 0), Priority::Background)
}

/// The entry left by a gated write of `(c, p)` over `e`.
pub open spec fn gated(e: (Color, Priority), c: Color, p: Priority) -> (Color, Priority) {
    if p.spec_rank() >= e.1.spec_rank() {
        (c, p)
    } else {
        e
    }
}

/// The frame after a gated write: the entry at `i` is replaced only when `i`
/// is in range and `p` is not lower than the priority already held there.
pub open spec fn written(s: Seq<(Color, Priority)>, i: int, c: Color, p: Priority) -> Seq<
    (Color, Priority),
> {
    if 0 <= i < s.len() {
        s.update(i, gated(s[i], c, p))
    } else {
        s
    }
}

/// The frame after gated writes of `(c, p)` to every index in `[a, b)`.
pub open spec fn filled(s: Seq<(Color, Priority)>, a: int, b: int, c: Color, p: Priority) -> Seq<
    (Color, Priority),
> {
    Seq::new(s.len(), |m: int| if a <= m < b { gated(s[m], c, p) } else { s[m] })
}

/// A frame in which every one of `n` LEDs is blank.
pub open spec fn blank_frame(n: nat) -> Seq<(Color, Priority)> {
    Seq::new(n, |i: int| blank_entry())
}

/// One (colour, priority) entry per LED, for `N` LEDs.
pub struct LedStateBuffer<const N: usize> {
    states: Vec<(Color, Priority)>,
}

impl<const N: usize> View for LedStateBuffer<N> {
    type V = Seq<(Color, Priority)>;

    closed spec fn view(&self) -> Seq<(Color, Priority)> {
        self.states@
    }
}

impl<const N: usize> LedStateBuffer<N> {
    /// The buffer holds exactly one entry per LED.
    pub open spec fn wf(&self) -> bool {
        self@.len() == N
    }

    fn blank_states() -> (r: Vec<(Color, Priority)>)
        ensures
            r@ == blank_frame(N as nat),
    {
        let mut v: Vec<(Color, Priority)> = Vec::with_capacity(N);
        let mut i: usize = 0;
        while i < N
            invariant
                i <= N,
                v@ == blank_frame(i as nat),
            decreases N - i,
        {
            v.push((Color(0, 0, 0), Priority::Background));
            i = i + 1;
            assert(v@ =~= blank_frame(i as nat));
        }
        v
    }

    /// A buffer of `N` blank entries.
    pub fn new() -> (r: Self)
        ensures
            r.wf(),
            r@ == blank_frame(N as nat),
    {
        LedStateBuffer { states: Self::blank_states() }
    }

    /// Writes `(color, priority)` at `index` unless the index is out of range
    /// or the entry there is held at a higher priority.
    pub fn set_led(&mut self, index: usize, color: Color, priority: Priority)
        ensures
            final(self)@ == written(old(self)@, index as int, color, priority),
    {
        if index >= self.states.len() {
            return ;
        }
        if priority.at_least(&self.states[index].1) {
            self.states.set(index, (color, priority));
        }
    }

    /// Resets every entry to black at background priority.
    pub fn clear(&mut self)
        ensures
            final(self).wf(),
            final(self)@ == blank_frame(N as nat),
    {
        self.states = Self::blank_states();
    }

    /// The entries, in LED order.
    pub fn get_colors(&self) -> (r: &[(Color, Priority)])
        ensures
            r@ == self@,
    {
        self.states.as_slice()
    }
}

/// Of two writes to the same LED, the first taking effect, the second wins
/// exactly when its priority is not lower than the first one's; otherwise the
/// first write stays. No other entry changes.
pub proof fn lemma_second_write<const N: usize>(
    buf: LedStateBuffer<N>,
    i: int,
    c: Color,
    p: Priority,
    c2: Color,
    p2: Priority,
)
    requires
        buf.wf(),
        0 <= i < N,
        buf@[i].1.spec_rank() <= p.spec_rank(),
    ensures
        ({
            let after = written(written(buf@, i, c, p), i, c2, p2);
            &&& after.len() == N
            &&& p2.spec_rank() >= p.spec_rank() ==> after[i] == (c2, p2)
            &&& p2.spec_rank() < p.spec_rank() ==> after[i] == (c, p)
            &&& forall|j: int| 0 <= j < N && j != i ==> #[trigger] after[j] == buf@[j]
        }),
{
}

/// After a clear every entry is black at background priority, whatever the
/// buffer held before.
pub proof fn lemma_clear_blanks_all(n: nat)
    ensures
        blank_frame(n).len() == n,
        forall|j: int| 0 <= j < n ==> #[trigger] blank_frame(n)[j] == blank_entry(),
{
}

} // verus!
