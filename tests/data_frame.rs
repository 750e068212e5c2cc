use ledsrace::{DriverData, UpdateFrame, NUM_DRIVERS};

fn numbered_frame() -> UpdateFrame {
    let mut frame = [DriverData::default(); NUM_DRIVERS];
    for (i, d) in frame.iter_mut().enumerate() {
        d.driver_number = (2 * i + 1) as u8;
        d.led_num = (2 * i + 2) as u8;
    }
    UpdateFrame { frame }
}

#[test]
fn ensure_binary_size() {
    assert_eq!(
        UpdateFrame::SERIALIZED_SIZE,
        core::mem::size_of::<UpdateFrame>()
    );
}

#[test]
fn test_encode_decode() {
    let frame = UpdateFrame {
        frame: [
            DriverData { driver_number: 1, led_num: 2 },
            DriverData { driver_number: 3, led_num: 4 },
            DriverData { driver_number: 5, led_num: 6 },
            DriverData { driver_number: 7, led_num: 8 },
            DriverData { driver_number: 9, led_num: 10 },
            DriverData { driver_number: 11, led_num: 12 },
            DriverData { driver_number: 13, led_num: 14 },
            DriverData { driver_number: 15, led_num: 16 },
            DriverData { driver_number: 17, led_num: 18 },
            DriverData { driver_number: 19, led_num: 20 },
            DriverData { driver_number: 21, led_num: 22 },
            DriverData { driver_number: 23, led_num: 24 },
            DriverData { driver_number: 25, led_num: 26 },
            DriverData { driver_number: 27, led_num: 28 },
            DriverData { driver_number: 29, led_num: 30 },
            DriverData { driver_number: 31, led_num: 32 },
            DriverData { driver_number: 33, led_num: 34 },
            DriverData { driver_number: 35, led_num: 36 },
            DriverData { driver_number: 37, led_num: 38 },
            DriverData { driver_number: 39, led_num: 40 },
        ],
    };

    let bytes = frame.to_bytes().unwrap();
    let decoded = UpdateFrame::try_from_bytes(&bytes).unwrap();
    assert_eq!(frame, decoded);
}

#[test]
fn frame_bytes_are_number_then_led_in_order() {
    let bytes = numbered_frame().to_bytes().unwrap();
    let expected: Vec<u8> = (1..=40).collect();
    assert_eq!(bytes.to_vec(), expected);
}

#[test]
fn decoding_reads_pairs_in_order() {
    let mut bytes = [0u8; 40];
    bytes[0] = 44;
    bytes[1] = 7;
    bytes[38] = 81;
    bytes[39] = 215;
    let f = UpdateFrame::try_from_bytes(&bytes).unwrap();
    assert_eq!(f.frame[0], DriverData { driver_number: 44, led_num: 7 });
    assert_eq!(f.frame[19], DriverData { driver_number: 81, led_num: 215 });
    assert_eq!(f.frame[1], DriverData { driver_number: 0, led_num: 0 });
}

#[test]
fn decoding_ignores_trailing_bytes() {
    let mut bytes = numbered_frame().to_bytes().unwrap().to_vec();
    bytes.push(99);
    assert_eq!(UpdateFrame::try_from_bytes(&bytes).unwrap(), numbered_frame());
}

#[test]
fn decoding_a_short_buffer_fails() {
    let bytes = [1u8; 39];
    assert_eq!(UpdateFrame::try_from_bytes(&bytes), Err(()));
    assert_eq!(UpdateFrame::try_from_bytes(&[]), Err(()));
}
