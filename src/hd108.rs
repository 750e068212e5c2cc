use vstd::prelude::*;

verus! {

/// Zero bytes that open every transfer.
pub const PREAMBLE_ZERO_BYTES: usize = 16;

/// Bytes needed to drive `n` LEDs: the preamble, eight bytes per LED, and one
/// more clock bit per LED at the end.
pub open spec fn buffer_size(n: nat) -> nat {
    PREAMBLE_ZERO_BYTES as nat + n * 8 + n / 8
}

/// An LED update: index, red, green, blue.
pub type LedUpdate = (usize, u8, u8, u8);

/// The colour that the first update for LED `i`, from position `j` on, gives it.
pub open spec fn first_color_from(leds: Seq<LedUpdate>, i: nat, j: nat) -> Option<(u8, u8, u8)>
    decreases leds.len() - j,
{
    if j >= leds.len() {
        None
    } else if leds[j as int].0 == i {
        Some((leds[j as int].1, leds[j as int].2, leds[j as int].3))
    } else {
        first_color_from(leds, i, j + 1)
    }
}

/// The colour of the first update for LED `i`, if there is one.
pub open spec fn first_color(leds: Seq<LedUpdate>, i: nat) -> Option<(u8, u8, u8)> {
    first_color_from(leds, i, 0)
}

/// The eight bytes of one LED: start bit and the three current gains (level
/// 2 each), then red, green and blue as 16-bit big-endian values.
pub open spec fn led_frame(red: u16, green: u16, blue: u16) -> Seq<u8> {
    seq![
        0x88u8,
        0x42u8,
        (red / 256) as u8,
        (red % 256) as u8,
        (green / 256) as u8,
        (green % 256) as u8,
        (blue / 256) as u8,
        (blue % 256) as u8,
    ]
}

/// An 8-bit channel widened to 16 bits by repeating it.
pub open spec fn widen(c: u8) -> u16 {
    (c * 257) as u16
}

/// The frame of an LED: its colour widened, or off.
pub open spec fn frame_of(c: Option<(u8, u8, u8)>) -> Seq<u8> {
    match c {
        Some((r, g, b)) => led_frame(widen(r), widen(g), widen(b)),
        None => led_frame(0, 0, 0),
    }
}

/// The whole transfer for `n` LEDs: zeros, then each LED's frame, then zeros.
pub open spec fn strip_bytes(leds: Seq<LedUpdate>, n: nat) -> Seq<u8> {
    Seq::new(
        buffer_size(n),
        |k: int|
            if PREAMBLE_ZERO_BYTES <= k < PREAMBLE_ZERO_BYTES + 8 * n {
                frame_of(first_color(leds, ((k - PREAMBLE_ZERO_BYTES) / 8) as nat))[(k
                    - PREAMBLE_ZERO_BYTES) % 8]
            } else {
                0u8
            },
    )
}

/// Size of the transfer buffer for `N` LEDs.
pub fn required_buffer_size<const N: usize>() -> (r: usize)
    requires
        buffer_size(N as nat) <= usize::MAX,
    ensures
        r == buffer_size(N as nat),
{
    PREAMBLE_ZERO_BYTES + (N * 8) + (N / 8)
}

/// The byte stream for a strip of `N` HD108 LEDs on the bus `SPI`.
pub struct HD108<SPI, const N: usize> {
    spi: SPI,
    buf: Vec<u8>,
}

impl<SPI, const N: usize> HD108<SPI, N> {
    /// The bytes of the next transfer.
    pub closed spec fn frame(&self) -> Seq<u8> {
        self.buf@
    }

    pub closed spec fn bus(&self) -> SPI {
        self.spi
    }

    /// The buffer has exactly the size the strip needs.
    pub open spec fn wf(&self) -> bool {
        self.frame().len() == buffer_size(N as nat)
    }

    /// A driver writing to `spi` through `buf`, which must have the size
    /// the strip needs.
    pub fn new(spi: SPI, buf: Vec<u8>) -> (r: Self)
        requires
            buf@.len() == buffer_size(N as nat),
        ensures
            r.wf(),
            r.frame() == buf@,
            r.bus() == spi,
    {
        HD108 { spi, buf }
    }

    /// The bytes of the next transfer.
    pub fn buffer(&self) -> (r: &[u8])
        ensures
            r@ == self.frame(),
    {
        self.buf.as_slice()
    }

    /// The bus, to send the buffer on.
    pub fn spi_mut(&mut self) -> (r: &mut SPI)
        ensures
            *r == old(self).bus(),
            final(self).bus() == *final(r),
            final(self).frame() == old(self).frame(),
    {
        &mut self.spi
    }

    /// The eight bytes that set one LED to the given 16-bit channels.
    pub fn create_led_frame(red: u16, green: u16, blue: u16) -> (r: [u8; 8])
        ensures
            r@ == led_frame(red, green, blue),
    {
        let start_code: u8 = 1;
        let red_gain: u8 = 2;
        let green_gain: u8 = 2;
        let blue_gain: u8 = 2;
        let current_gain: u16 = (red_gain as u16) * 1024 + (green_gain as u16) * 32
            + blue_gain as u16;
        let first_byte: u8 = start_code * 128 + ((current_gain / 256) % 128) as u8;
        let second_byte: u8 = (current_gain % 256) as u8;
        let r = [
            first_byte,
            second_byte,
            (red / 256) as u8,
            (red % 256) as u8,
            (green / 256) as u8,
            (green % 256) as u8,
            (blue / 256) as u8,
            (blue % 256) as u8,
        ];
        assert(r@ =~= led_frame(red, green, blue));
        r
    }

    fn zero_fill(&mut self)
        requires
            old(self).wf(),
        ensures
            final(self).wf(),
            final(self).bus() == old(self).bus(),
            forall|k: int| 0 <= k < final(self).frame().len() ==> #[trigger] final(self).frame()[k] == 0,
    {
        let n = self.buf.len();
        let mut k: usize = 0;
        while k < n
            invariant
                n == self.buf@.len(),
                self.wf(),
                self.bus() == old(self).bus(),
                k <= n,
                forall|m: int| 0 <= m < k ==> #[trigger] self.buf@[m] == 0,
            decreases n - k,
        {
            self.buf.set(k, 0);
            k = k + 1;
        }
    }

    /// Prepares a transfer that switches every LED off.
    pub fn prepare_off(&mut self)
        requires
            old(self).wf(),
        ensures
            final(self).wf(),
            final(self).bus() == old(self).bus(),
            final(self).frame() == Seq::new(buffer_size(N as nat), |k: int| 0u8),
    {
        self.zero_fill();
        assert(self.frame() =~= Seq::new(buffer_size(N as nat), |k: int| 0u8));
    }

    /// The first update for LED `i`, if any.
    fn find_color(leds: &[LedUpdate], i: usize) -> (r: Option<(u8, u8, u8)>)
        ensures
            r == first_color(leds@, i as nat),
    {
        let mut j: usize = 0;
        while j < leds.len()
            invariant
                j <= leds@.len(),
                first_color_from(leds@, i as nat, 0) == first_color_from(leds@, i as nat, j as nat),
            decreases leds@.len() - j,
        {
            let (led_num, red, green, blue) = leds[j];
            if led_num == i {
                return Some((red, green, blue));
            }
            j = j + 1;
        }
        None
    }

    /// Prepares a transfer that sets each LED to the colour of the first
    /// update that names it, and switches the others off.
    pub fn prepare_leds(&mut self, leds: &[LedUpdate])
        requires
            old(self).wf(),
        ensures
            final(self).wf(),
            final(self).bus() == old(self).bus(),
            final(self).frame() == strip_bytes(leds@, N as nat),
    {
        self.zero_fill();
        let ghost target = strip_bytes(leds@, N as nat);
        let mut i: usize = 0;
        while i < N
            invariant
                self.wf(),
                self.bus() == old(self).bus(),
                i <= N,
                target == strip_bytes(leds@, N as nat),
                forall|m: int|
                    0 <= m < self.frame().len() ==> #[trigger] self.frame()[m] == if m
                        < PREAMBLE_ZERO_BYTES + 8 * i {
                        target[m]
                    } else {
                        0u8
                    },
            decreases N - i,
        {
            let color = Self::find_color(leds, i);
            let frame = match color {
                Some((red, green, blue)) => Self::create_led_frame(
                    (red as u16) * 257,
                    (green as u16) * 257,
                    (blue as u16) * 257,
                ),
                None => Self::create_led_frame(0, 0, 0),
            };
            assert(frame@ == frame_of(first_color(leds@, i as nat)));
            let total = self.buf.len();
            assert(PREAMBLE_ZERO_BYTES + 8 * i + 8 <= total);
            let base = PREAMBLE_ZERO_BYTES + 8 * i;
            let mut k: usize = 0;
            while k < 8
                invariant
                    self.wf(),
                    self.bus() == old(self).bus(),
                    i < N,
                    k <= 8,
                    base == PREAMBLE_ZERO_BYTES + 8 * i,
                    frame@ == frame_of(first_color(leds@, i as nat)),
                    target == strip_bytes(leds@, N as nat),
                    forall|m: int|
                        0 <= m < self.frame().len() ==> #[trigger] self.frame()[m] == if m < base
                            + k {
                            target[m]
                        } else {
                            0u8
                        },
                decreases 8 - k,
            {
                assert((base + k - PREAMBLE_ZERO_BYTES) / 8 == i as int);
                assert((base + k - PREAMBLE_ZERO_BYTES) % 8 == k as int);
                self.buf.set(base + k, frame[k]);
                k = k + 1;
            }
            i = i + 1;
        }
        assert(self.frame() =~= target);
    }
}

} // verus!
