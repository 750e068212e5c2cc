use ledsrace::{required_buffer_size, HD108};

#[test]
fn buffer_size_for_the_board() {
    assert_eq!(required_buffer_size::<216>(), 1771);
    assert_eq!(required_buffer_size::<0>(), 16);
    assert_eq!(required_buffer_size::<8>(), 81);
}

#[test]
fn led_frame_layout() {
    let f = HD108::<(), 1>::create_led_frame(0xFFFF, 0x0100, 0x0002);
    assert_eq!(f, [0x88, 0x42, 0xFF, 0xFF, 0x01, 0x00, 0x00, 0x02]);
}

#[test]
fn prepare_leds_encodes_each_led() {
    let mut hd: HD108<(), 2> = HD108::new((), vec![7u8; required_buffer_size::<2>()]);
    hd.prepare_leds(&[(1, 1, 2, 3), (1, 9, 9, 9), (5, 4, 4, 4)]);
    let b = hd.buffer();
    assert_eq!(b.len(), 32);
    assert!(b[..16].iter().all(|&x| x == 0));
    assert_eq!(&b[16..24], &[0x88, 0x42, 0, 0, 0, 0, 0, 0]);
    assert_eq!(&b[24..32], &[0x88, 0x42, 1, 1, 2, 2, 3, 3]);
}

#[test]
fn prepare_off_zeroes_the_buffer() {
    let mut hd: HD108<(), 8> = HD108::new((), vec![5u8; required_buffer_size::<8>()]);
    hd.prepare_off();
    assert!(hd.buffer().iter().all(|&x| x == 0));
    assert_eq!(hd.buffer().len(), 81);
}
