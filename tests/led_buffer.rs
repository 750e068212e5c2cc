use ledsrace::{Color, LedStateBuffer, Priority};

const RED: Color = Color(255, 0, 0);
const BLUE: Color = Color(0, 0, 255);
const BLACK: Color = Color(0, 0, 0);

#[test]
fn new_buffer_is_blank() {
    let buf = LedStateBuffer::<5>::new();
    assert_eq!(buf.get_colors().len(), 5);
    for e in buf.get_colors() {
        assert_eq!(*e, (BLACK, Priority::Background));
    }
}

#[test]
fn second_write_at_higher_or_equal_priority_wins() {
    let mut buf = LedStateBuffer::<4>::new();
    buf.set_led(2, RED, Priority::Normal);
    buf.set_led(2, BLUE, Priority::Warning);
    assert_eq!(buf.get_colors()[2], (BLUE, Priority::Warning));
    buf.set_led(2, RED, Priority::Warning);
    assert_eq!(buf.get_colors()[2], (RED, Priority::Warning));
}

#[test]
fn second_write_at_lower_priority_is_ignored() {
    let mut buf = LedStateBuffer::<4>::new();
    buf.set_led(1, RED, Priority::Critical);
    buf.set_led(1, BLUE, Priority::Normal);
    assert_eq!(buf.get_colors()[1], (RED, Priority::Critical));
    assert_eq!(buf.get_colors()[0], (BLACK, Priority::Background));
}

#[test]
fn out_of_range_write_is_ignored() {
    let mut buf = LedStateBuffer::<3>::new();
    buf.set_led(3, RED, Priority::Critical);
    buf.set_led(usize::MAX, RED, Priority::Critical);
    assert_eq!(buf.get_colors().len(), 3);
    for e in buf.get_colors() {
        assert_eq!(*e, (BLACK, Priority::Background));
    }
}

#[test]
fn clear_blanks_every_entry() {
    let mut buf = LedStateBuffer::<6>::new();
    for i in 0..6 {
        buf.set_led(i, RED, Priority::Critical);
    }
    buf.clear();
    assert_eq!(buf.get_colors().len(), 6);
    for e in buf.get_colors() {
        assert_eq!(*e, (BLACK, Priority::Background));
    }
}

#[test]
fn empty_buffer_stays_empty() {
    let mut buf = LedStateBuffer::<0>::new();
    buf.set_led(0, RED, Priority::Critical);
    buf.clear();
    assert!(buf.get_colors().is_empty());
}

#[test]
fn priorities_are_ordered() {
    assert!(Priority::Background < Priority::Normal);
    assert!(Priority::Normal < Priority::Warning);
    assert!(Priority::Warning < Priority::Critical);
    assert_eq!(Priority::Critical.rank(), 3);
    assert!(Priority::Normal.at_least(&Priority::Normal));
    assert!(!Priority::Normal.at_least(&Priority::Warning));
}
