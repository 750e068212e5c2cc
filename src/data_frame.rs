use vstd::prelude::*;

verus! {

/// Number of tracked cars in a telemetry frame.
pub const NUM_DRIVERS: usize = 20;

/// One tracked car: its number and the LED it is nearest to.
#[derive(Clone, Copy, Debug, PartialEq, Eq, Structural, Default)]
pub struct DriverData {
    pub driver_number: u8,
    pub led_num: u8,
}

/// The positions of every tracked car at one instant.
#[derive(Clone, Copy, Debug, PartialEq, Eq, Default)]
pub struct UpdateFrame {
    pub frame: [DriverData; NUM_DRIVERS],
}

/// The car data as byte pairs.
pub type DriverPairs = [(u8, u8); 20];

/// The serialised form of a frame.
pub type FrameBytes = [u8; 40];

#[verifier::external_type_specification]
#[verifier::external_body]
pub struct ExEncodeError(bincode::error::EncodeError);

#[verifier::external_type_specification]
#[verifier::external_body]
pub struct ExDecodeError(bincode::error::DecodeError);

/// What encoding returns: the number of bytes written.
pub type EncodeOutcome = Result<usize, bincode::error::EncodeError>;

/// What decoding returns: the pairs and the number of bytes read.
pub type DecodeOutcome = Result<(DriverPairs, usize), bincode::error::DecodeError>;

/// Relies on bincode::encode_into_slice with the standard configuration set to
/// little endian and fixed-width integers: a `u8` is written as itself, a pair
/// as its two items, an array as its items in order without a length, so the
/// twenty pairs fill exactly the forty bytes.
#[verifier::external_body]
fn encode_pairs(pairs: DriverPairs, dst: &mut FrameBytes) -> (r: EncodeOutcome)
    ensures
        r == EncodeOutcome::Ok(40),
        forall|i: int| 0 <= i < 20 ==> #[trigger] final(dst)@[2 * i] == pairs@[i].0,
        forall|i: int| 0 <= i < 20 ==> #[trigger] final(dst)@[2 * i + 1] == pairs@[i].1,
{
    let config = bincode::config::standard().with_little_endian().with_fixed_int_encoding();
    bincode::encode_into_slice(pairs, &mut dst[..], config)
}

/// Relies on bincode::decode_from_slice with the same configuration: the
/// pairs are read from the first forty bytes in order, and the call fails
/// exactly when fewer bytes are given.
#[verifier::external_body]
fn decode_pairs(buf: &[u8]) -> (r: DecodeOutcome)
    ensures
        r is Ok <==> buf@.len() >= 40,
        r is Ok ==> r->Ok_0.1 == 40,
        r is Ok ==> forall|i: int| 0 <= i < 20 ==> #[trigger] r->Ok_0.0@[i] == (buf@[2 * i], buf@[2 * i + 1]),
{
    let config = bincode::config::standard().with_little_endian().with_fixed_int_encoding();
    bincode::decode_from_slice(buf, config)
}

/// The forty bytes of a frame: for each car in order, its number then its LED.
pub open spec fn frame_bytes(f: UpdateFrame) -> Seq<u8> {
    Seq::new(
        40,
        |k: int|
            if k % 2 == 0 {
                f.frame@[k / 2].driver_number
            } else {
                f.frame@[k / 2].led_num
            },
    )
}

impl UpdateFrame {
    /// Size of a serialised frame in bytes.
    pub const SERIALIZED_SIZE: usize = NUM_DRIVERS * 2;

    /// Serialises the frame: each car's number then its LED, in order.
    pub fn to_bytes(&self) -> (r: Result<FrameBytes, ()>)
        ensures
            r is Ok,
            r is Ok ==> r->Ok_0@ == frame_bytes(*self),
    {
        let mut pairs: DriverPairs = [(0u8, 0u8); 20];
        let mut i: usize = 0;
        while i < NUM_DRIVERS
            invariant
                i <= NUM_DRIVERS,
                forall|k: int|
                    0 <= k < i ==> #[trigger] pairs@[k] == (
                        self.frame@[k].driver_number,
                        self.frame@[k].led_num,
                    ),
            decreases NUM_DRIVERS - i,
        {
            pairs[i] = (self.frame[i].driver_number, self.frame[i].led_num);
            i = i + 1;
        }
        let mut buf: FrameBytes = [0u8; 40];
        let written = encode_pairs(pairs, &mut buf);
        match written {
            Ok(l) => {
                if l == Self::SERIALIZED_SIZE {
                    assert forall|k: int| 0 <= k < 40 implies buf@[k] == frame_bytes(*self)[k] by {
                        let i = k / 2;
                        assert(0 <= i < 20);
                        assert(k == 2 * i || k == 2 * i + 1);
                        assert(buf@[2 * i] == pairs@[i].0 && buf@[2 * i + 1] == pairs@[i].1);
                    }
                    assert(buf@ =~= frame_bytes(*self));
                    Ok(buf)
                } else {
                    Err(())
                }
            },
            Err(_) => Err(()),
        }
    }

    /// Reads a frame from the first forty bytes of `buf`; fails when there
    /// are fewer.
    pub fn try_from_bytes(buf: &[u8]) -> (r: Result<Self, ()>)
        ensures
            r is Ok <==> buf@.len() >= 40,
            r is Ok ==> frame_bytes(r->Ok_0) == buf@.take(40),
    {
        match decode_pairs(buf) {
            Ok((pairs, _n)) => {
                let mut frame = [DriverData { driver_number: 0, led_num: 0 }; NUM_DRIVERS];
                let mut i: usize = 0;
                while i < NUM_DRIVERS
                    invariant
                        i <= NUM_DRIVERS,
                        forall|k: int| 0 <= k < 20 ==> #[trigger] pairs@[k] == (buf@[2 * k], buf@[2 * k + 1]),
                        forall|k: int|
                            0 <= k < i ==> #[trigger] frame@[k] == (DriverData {
                                driver_number: pairs@[k].0,
                                led_num: pairs@[k].1,
                            }),
                    decreases NUM_DRIVERS - i,
                {
                    frame[i] = DriverData { driver_number: pairs[i].0, led_num: pairs[i].1 };
                    i = i + 1;
                }
                let f = UpdateFrame { frame };
                assert forall|k: int| 0 <= k < 40 implies frame_bytes(f)[k] == buf@.take(40)[k] by {
                    let i = k / 2;
                    assert(k == 2 * i || k == 2 * i + 1);
                }
                assert(frame_bytes(f) =~= buf@.take(40));
                Ok(f)
            },
            Err(_) => Err(()),
        }
    }
}

/// Reading back the bytes of a frame gives the same frame.
pub proof fn lemma_frame_round_trip(f: UpdateFrame, g: UpdateFrame)
    requires
        frame_bytes(g) == frame_bytes(f),
    ensures
        g == f,
{
    assert forall|i: int| 0 <= i < 20 implies g.frame@[i] == f.frame@[i] by {
        assert(frame_bytes(g)[2 * i] == g.frame@[i].driver_number);
        assert(frame_bytes(g)[2 * i + 1] == g.frame@[i].led_num);
        assert(frame_bytes(f)[2 * i] == f.frame@[i].driver_number);
        assert(frame_bytes(f)[2 * i + 1] == f.frame@[i].led_num);
    }
    assert(g.frame =~= f.frame);
}

} // verus!
