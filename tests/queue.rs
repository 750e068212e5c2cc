use ledsrace::{
    Animation, AnimationQueue, Animations, Circuit, Color, GrowingTrail, Priority, StaticColor,
    Zandvoort, QUEUE_CAPACITY,
};

const TICK_US: u64 = 20_000;

fn colour_queue(n: usize, max_duration: u64) -> AnimationQueue<Animations> {
    let mut q = AnimationQueue::new(max_duration, 0);
    for i in 0..n {
        q.add_animation(Animations::Static(StaticColor::new(Color(i as u8, 0, 0))));
    }
    q
}

#[test]
fn next_animation_steps_and_wraps() {
    let mut q = colour_queue(3, 5_000_000);
    assert_eq!(q.current_index(), 0);
    q.next_animation(10);
    assert_eq!(q.current_index(), 1);
    assert_eq!(q.start_time(), 10);
    q.next_animation(20);
    assert_eq!(q.current_index(), 2);
    q.next_animation(30);
    assert_eq!(q.current_index(), 0);
}

#[test]
fn len_advances_return_to_the_start() {
    for len in 1..=5 {
        for k in 0..len {
            let mut q = colour_queue(len, 5_000_000);
            for _ in 0..k {
                q.next_animation(0);
            }
            assert_eq!(q.current_index(), k);
            for _ in 0..len {
                q.next_animation(0);
            }
            assert_eq!(q.current_index(), k);
        }
    }
}

#[test]
fn next_animation_on_empty_queue_does_nothing() {
    let mut q: AnimationQueue<Animations> = AnimationQueue::new(1000, 7);
    q.next_animation(50);
    assert_eq!(q.current_index(), 0);
    assert_eq!(q.start_time(), 7);
    assert_eq!(q.len(), 0);
}

#[test]
fn extra_animations_are_dropped() {
    let q = colour_queue(QUEUE_CAPACITY + 3, 1000);
    assert_eq!(q.len(), QUEUE_CAPACITY);
}

#[test]
fn empty_queue_renders_a_blank_frame() {
    let mut q: AnimationQueue<Animations> = AnimationQueue::new(1000, 0);
    let mut z = Zandvoort::<216>::new();
    z.set_led(4, Color(9, 9, 9), Priority::Critical);
    assert_eq!(q.render(&mut z, 100), None);
    for e in z.led_buffer().get_colors() {
        assert_eq!(*e, (Color(0, 0, 0), Priority::Background));
    }
}

#[test]
fn render_draws_the_current_animation() {
    let mut q = colour_queue(2, 1_000_000);
    let mut z = Zandvoort::<216>::new();
    assert_eq!(q.render(&mut z, 400), Some(400));
    assert_eq!(q.current_index(), 0);
    assert_eq!(z.led_buffer().get_colors()[10], (Color(0, 0, 0), Priority::Background));
    q.next_animation(500);
    assert_eq!(q.render(&mut z, 800), Some(300));
    assert_eq!(z.led_buffer().get_colors()[10], (Color(1, 0, 0), Priority::Background));
}

#[test]
fn timeout_advances_and_restarts_the_clock() {
    let mut q = colour_queue(3, 1_000);
    let mut z = Zandvoort::<216>::new();
    assert_eq!(q.render(&mut z, 1_000), Some(1_000));
    assert_eq!(q.current_index(), 0);
    assert_eq!(q.render(&mut z, 1_001), Some(0));
    assert_eq!(q.current_index(), 1);
    assert_eq!(q.start_time(), 1_001);
}

#[test]
fn finished_animation_advances_at_the_next_render() {
    let mut q: AnimationQueue<Animations> = AnimationQueue::new(u64::MAX, 0);
    q.add_animation(Animations::GrowingTrail(GrowingTrail::new(Color(10, 10, 10), 1_000_000)));
    q.add_animation(Animations::Static(StaticColor::new(Color(1, 2, 3))));
    let mut z = Zandvoort::<216>::new();
    // A thousand LEDs a second: after a second the trail covers the board.
    assert_eq!(q.render(&mut z, 1_000_000), Some(1_000_000));
    assert_eq!(q.current_index(), 0);
    assert_eq!(q.render(&mut z, 1_020_000), Some(0));
    assert_eq!(q.current_index(), 1);
    assert_eq!(z.led_buffer().get_colors()[0], (Color(1, 2, 3), Priority::Background));
}

#[test]
fn one_automatic_advance_in_five_point_zero_two_seconds() {
    let mut q = colour_queue(3, 5_000_000);
    let mut z = Zandvoort::<216>::new();
    let mut advances = 0;
    let mut first_frame_elapsed = None;
    let mut index = q.current_index();
    for k in 1..=251u64 {
        let elapsed = q.render(&mut z, k * TICK_US);
        if q.current_index() != index {
            advances += 1;
            index = q.current_index();
            first_frame_elapsed = elapsed;
        }
    }
    assert_eq!(advances, 1);
    assert_eq!(q.current_index(), 1);
    assert_eq!(first_frame_elapsed, Some(0));
}

#[test]
fn skip_signal_changes_index_at_the_next_tick() {
    let mut q = colour_queue(3, 5_000_000);
    let mut z = Zandvoort::<216>::new();
    for k in 1..=50u64 {
        q.render(&mut z, k * TICK_US);
    }
    assert_eq!(q.current_index(), 0);
    // The skip arrives between two ticks.
    q.next_animation(50 * TICK_US + 5_000);
    assert_eq!(q.current_index(), 1);
    assert_eq!(q.render(&mut z, 51 * TICK_US), Some(15_000));
    assert_eq!(q.current_index(), 1);
    assert_eq!(z.led_buffer().get_colors()[0], (Color(1, 0, 0), Priority::Background));
}

#[test]
fn animations_report_their_priority() {
    let s = Animations::Static(StaticColor::new(Color(1, 1, 1)));
    assert_eq!(s.priority(), Priority::Background);
    assert!(!s.is_finished());
}
