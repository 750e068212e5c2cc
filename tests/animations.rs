use ledsrace::{
    calculate_center, calculate_center_middle, max_distance_from_center, scale_color,
    update_overtake_duel, Animation, Circuit, CircuitPulse, Color, DutchFlag, GrowingTrail,
    LightningSprint, OvertakeDuel, Point, PrecomputedData, Priority, Sector, SectorFrames,
    ShowSectors, StaticColor, Zandvoort, LED_COUNT,
};

const ORANGE: Color = Color(255, 20, 0);

fn board() -> Zandvoort<216> {
    Zandvoort::<216>::new()
}

fn colour(z: &mut Zandvoort<216>, i: usize) -> (Color, Priority) {
    z.led_buffer().get_colors()[i]
}

#[test]
fn scale_color_examples() {
    assert_eq!(scale_color(Color(200, 100, 50), 1, 2), Color(100, 50, 25));
    assert_eq!(scale_color(Color(200, 3, 1), 3, 1), Color(255, 9, 3));
    assert_eq!(scale_color(Color(200, 3, 1), 5, 0), Color(0, 0, 0));
    assert_eq!(scale_color(Color(7, 8, 9), 4, 4), Color(7, 8, 9));
}

#[test]
fn geometry_examples() {
    let pts = [Point::new(0, 0), Point::new(10, 21)];
    assert_eq!(calculate_center(&pts), Point::new(5, 10));
    assert_eq!(calculate_center_middle(&pts), Point::new(5, 10));
    assert_eq!(max_distance_from_center(&pts), 12);
    assert_eq!(Point::new(0, 0).distance_to(&Point::new(3, 4)), 5);
    assert_eq!(Point::new(3, 4).distance_to(&Point::new(0, 0)), 5);
    assert_eq!(Point::new(0, 0).distance_to(&Point::new(1, 1)), 1);
    assert_eq!(calculate_center(&[]), Point::new(0, 0));
    assert_eq!(max_distance_from_center(&[]), 0);
}

#[test]
fn centroid_and_bounding_box_differ() {
    let pts = [Point::new(0, 0), Point::new(0, 0), Point::new(9, 3)];
    assert_eq!(calculate_center(&pts), Point::new(3, 1));
    assert_eq!(calculate_center_middle(&pts), Point::new(4, 1));
}

#[test]
fn distance_of_far_points() {
    let a = Point::new(0, 0);
    let b = Point::new(u32::MAX, u32::MAX);
    // floor(sqrt(2) * (2^32 - 1))
    assert_eq!(a.distance_to(&b), 6074000998);
}

#[test]
fn board_layout_and_radius() {
    let z = board();
    assert_eq!(z.led_count(), LED_COUNT);
    assert_eq!(z.sector_indices(Sector::_1), 0..77);
    assert_eq!(z.sector_indices(Sector::_2), 77..153);
    assert_eq!(z.sector_indices(Sector::_3), 153..216);
    assert_eq!(z.sectors(Sector::_2).len(), 76);
    assert_eq!(z.led_positions()[0], Point::new(4400, 11730));
    assert_eq!(calculate_center(z.led_positions()), Point::new(9177, 9577));
    assert_eq!(max_distance_from_center(z.led_positions()), 8749);
}

#[test]
fn pulse_is_brightest_on_its_front() {
    let p = CircuitPulse::new(3000, 1000, [ORANGE; 3], None);
    assert_eq!(p.calculate_brightness(5000, 5000), 150);
    assert_eq!(p.calculate_brightness(6000, 5000), 0);
    assert_eq!(p.calculate_brightness(4000, 5000), 0);
    assert_eq!(p.calculate_brightness(5500, 5000), 37);
    assert_eq!(p.calculate_brightness(4500, 5000), 37);
    assert_eq!(p.calculate_brightness(9000, 5000), 0);
    let dark = CircuitPulse::new(3000, 0, [ORANGE; 3], None);
    assert_eq!(dark.calculate_brightness(5000, 5000), 0);
}

#[test]
fn pulse_finishes_after_sweeping_twice_the_radius() {
    // Radius 8749: the front needs 17498 units; at 10000 units a second that
    // takes 1.7498 s.
    let mut p = CircuitPulse::new(10_000, 1000, [ORANGE; 3], None);
    let mut z = board();
    p.render(&mut z, 2_000_000);
    assert_eq!(p.start_time, Some(2_000_000));
    assert!(!p.is_finished());
    p.render(&mut z, 3_749_800);
    assert!(!p.is_finished());
    p.render(&mut z, 3_750_000);
    assert!(p.is_finished());
    p.reset();
    assert!(!p.is_finished());
    assert_eq!(p.start_time, None);
}

#[test]
fn pulse_front_lights_the_centre_first() {
    let mut p = CircuitPulse::new(10_000, 20_000, [Color(150, 0, 0); 3], None);
    let mut z = board();
    p.render(&mut z, 0);
    // A front at the centre with a width wider than the board lights everything.
    for i in 0..LED_COUNT {
        let (c, pr) = colour(&mut z, i);
        assert_eq!(pr, Priority::Normal);
        assert!(c.0 > 0);
    }
}

#[test]
fn growing_trail_finishes_exactly_when_full() {
    let mut t = GrowingTrail::new(Color(100, 100, 100), 1000);
    let mut z = board();
    t.render(&mut z, 0);
    assert_eq!(t.trail_length(), 1);
    assert_eq!(t.current_pos(), 3);
    assert!(!t.is_finished());
    t.render(&mut z, 214_999_000);
    assert_eq!(t.trail_length(), 215);
    assert!(!t.is_finished());
    t.render(&mut z, 215_000_000);
    assert_eq!(t.trail_length(), 216);
    assert!(t.is_finished());
    t.reset();
    assert!(!t.is_finished());
    assert_eq!(t.trail_length(), 1);
    assert_eq!(t.current_pos(), 0);
}

#[test]
fn growing_trail_fades_from_the_head() {
    let mut t = GrowingTrail::new(Color(200, 100, 0), 2000);
    let mut z = board();
    t.render(&mut z, 1_000_000);
    // Three LEDs long, head at 3.
    assert_eq!(t.trail_length(), 3);
    assert_eq!(colour(&mut z, 3), (Color(200, 100, 0), Priority::Normal));
    assert_eq!(colour(&mut z, 2), (Color(133, 66, 0), Priority::Normal));
    assert_eq!(colour(&mut z, 1), (Color(66, 33, 0), Priority::Normal));
    assert_eq!(colour(&mut z, 0), (Color(0, 0, 0), Priority::Background));
}

#[test]
fn duel_starts_a_third_of_a_lap_apart() {
    let d = OvertakeDuel::new(216);
    assert_eq!((d.a_pos, d.b_pos, d.a_fast), (0, 72, true));
    assert_eq!(OvertakeDuel::distance(10, 4, 216), 210);
    assert_eq!(OvertakeDuel::distance(4, 10, 216), 6);
}

#[test]
fn duel_swaps_roles_once_per_catch() {
    let mut d = OvertakeDuel { a_pos: 10, b_pos: 12, a_fast: true, timer: 0, flash_timer: 0, led_count: 216 };
    update_overtake_duel(&mut d, 216);
    assert!(!d.a_fast);
    assert_eq!(d.flash_timer, 8);
    assert_eq!((d.a_pos, d.b_pos), (11, 14));
    let mut swaps = 0;
    let mut was_fast = d.a_fast;
    // B pulls away; A only gets the role back past half a lap.
    for _ in 0..200 {
        let dist = OvertakeDuel::distance(d.a_pos, d.b_pos, 216);
        update_overtake_duel(&mut d, 216);
        if d.a_fast != was_fast {
            swaps += 1;
            assert!(d.a_fast);
            assert!(dist > 108);
            was_fast = d.a_fast;
            break;
        }
        assert!(!d.a_fast);
    }
    assert_eq!(swaps, 1);
}

#[test]
fn duel_steps_and_wraps() {
    let mut d = OvertakeDuel { a_pos: 215, b_pos: 100, a_fast: true, timer: 5, flash_timer: 0, led_count: 216 };
    d.step_positions(216);
    assert_eq!((d.a_pos, d.b_pos), (1, 101));
    update_overtake_duel(&mut d, 216);
    assert_eq!(d.timer, 6);
}

#[test]
fn duel_draws_comets_and_flash() {
    let mut d = OvertakeDuel { a_pos: 10, b_pos: 12, a_fast: true, timer: 0, flash_timer: 0, led_count: 216 };
    let mut z = board();
    d.render(&mut z, 0);
    assert_eq!((d.a_pos, d.b_pos, d.flash_timer), (11, 14, 8));
    assert_eq!(colour(&mut z, 100), (Color(20, 10, 20), Priority::Background));
    assert_eq!(colour(&mut z, 11), (Color(255, 255, 80), Priority::Normal));
    // B's comet is drawn after A's where they overlap.
    assert_eq!(colour(&mut z, 10), (Color(4, 4, 36), Priority::Normal));
    assert_eq!(colour(&mut z, 8), (Color(3, 3, 30), Priority::Normal));
    assert_eq!(colour(&mut z, 7), (Color(36, 4, 4), Priority::Normal));
    assert_eq!(colour(&mut z, 5), (Color(30, 3, 3), Priority::Normal));
    assert_eq!(colour(&mut z, 15), (Color(20, 10, 20), Priority::Background));
}

#[test]
fn lightning_head_and_trail() {
    let mut l = LightningSprint::new(ORANGE);
    let mut z = board();
    l.render(&mut z, 0);
    assert_eq!(l.current_pos, 1);
    assert_eq!(l.trail[0], Some(0));
    assert_eq!(colour(&mut z, 1), (ORANGE, Priority::Normal));
    assert_eq!(colour(&mut z, 0), (Color(204, 16, 0), Priority::Normal));
    assert_eq!(colour(&mut z, 2), (Color(0, 0, 0), Priority::Normal));
    l.render(&mut z, 0);
    assert_eq!(colour(&mut z, 2), (ORANGE, Priority::Normal));
    assert_eq!(colour(&mut z, 1), (Color(204, 16, 0), Priority::Normal));
    assert_eq!(colour(&mut z, 0), (Color(163, 12, 0), Priority::Normal));
}

#[test]
fn lightning_trail_contributions_add_up() {
    let mut l = LightningSprint::new(Color(100, 100, 100));
    l.trail = [Some(5), Some(5), None, None, None, None, None, None, None, None];
    l.current_pos = 50;
    let mut z = board();
    l.render(&mut z, 0);
    // Slots 1 and 2 hold LED 5: 0.8^2 + 0.8^3 = 1.152.
    assert_eq!(colour(&mut z, 5), (Color(115, 115, 115), Priority::Normal));
    assert_eq!(colour(&mut z, 50), (Color(80, 80, 80), Priority::Normal));
    assert_eq!(l.trail[0], Some(50));
    assert_eq!(l.trail[1], Some(5));
    l.reset();
    assert_eq!(l.current_pos, 0);
    assert!(l.trail.iter().all(|t| t.is_none()));
    l.render(&mut z, 0);
    assert_eq!(colour(&mut z, 1), (Color(100, 100, 100), Priority::Normal));
    assert_eq!(colour(&mut z, 0), (Color(80, 80, 80), Priority::Normal));
    assert_eq!(colour(&mut z, 5).1, Priority::Normal);
    assert_eq!(colour(&mut z, 5).0, Color(0, 0, 0));
}

#[test]
fn precomputed_indices_are_the_identity() {
    let d = PrecomputedData::new();
    for i in 0..216 {
        assert_eq!(d.led_indices[i], i);
    }
}

#[test]
fn static_colour_fills_every_led() {
    let mut s = StaticColor::new(Color(9, 8, 7));
    let mut z = board();
    z.set_led(3, Color(1, 1, 1), Priority::Warning);
    s.render(&mut z, 0);
    assert_eq!(colour(&mut z, 0), (Color(9, 8, 7), Priority::Background));
    assert_eq!(colour(&mut z, 215), (Color(9, 8, 7), Priority::Background));
    assert_eq!(colour(&mut z, 3), (Color(1, 1, 1), Priority::Warning));
    assert_eq!(s.priority(), Priority::Background);
}

#[test]
fn sectors_get_their_colours() {
    let mut s = ShowSectors::new(Color(1, 0, 0), Color(0, 1, 0), Color(0, 0, 1));
    let mut z = board();
    s.render(&mut z, 0);
    assert_eq!(colour(&mut z, 0).0, Color(1, 0, 0));
    assert_eq!(colour(&mut z, 76).0, Color(1, 0, 0));
    assert_eq!(colour(&mut z, 77).0, Color(0, 1, 0));
    assert_eq!(colour(&mut z, 152).0, Color(0, 1, 0));
    assert_eq!(colour(&mut z, 153).0, Color(0, 0, 1));
    assert_eq!(colour(&mut z, 215).0, Color(0, 0, 1));
}

#[test]
fn sector_frames_cycle_on_their_interval() {
    let purple = Color(101, 10, 50);
    let off = Color(0, 0, 0);
    let mut f = SectorFrames::new(750_000);
    f.add_frame([off, off, off]);
    f.add_frame([purple, off, off]);
    let mut z = board();
    f.render(&mut z, 100_000);
    assert_eq!(f.current_frame(), 0);
    assert_eq!(colour(&mut z, 0).0, off);
    // Exactly the interval is not enough; more than it is.
    f.render(&mut z, 750_000);
    assert_eq!(f.current_frame(), 0);
    f.render(&mut z, 750_001);
    assert_eq!(f.current_frame(), 1);
    z.led_buffer().clear();
    f.render(&mut z, 800_000);
    assert_eq!(colour(&mut z, 0).0, purple);
    assert_eq!(colour(&mut z, 100).0, off);
    assert_eq!(f.current_frame(), 1);
    f.render(&mut z, 1_500_002);
    assert_eq!(f.current_frame(), 0);
    f.render(&mut z, 2_250_003);
    assert_eq!(f.current_frame(), 1);
    f.reset();
    assert_eq!(f.current_frame(), 0);
    // After a reset the clock of the last change starts again from zero.
    f.render(&mut z, 750_001);
    assert_eq!(f.current_frame(), 1);
}

#[test]
fn sector_frames_without_frames_draw_nothing() {
    let mut f = SectorFrames::new(10);
    let mut z = board();
    f.render(&mut z, 1000);
    assert_eq!(f.current_frame(), 0);
    assert_eq!(colour(&mut z, 0), (Color(0, 0, 0), Priority::Background));
}

#[test]
fn dutch_flag_stripes_by_height() {
    let mut d = DutchFlag::new();
    let mut z = board();
    d.render(&mut z, 0);
    assert_eq!(colour(&mut z, 97), (Color(0, 0, 255), Priority::Normal));
    assert_eq!(colour(&mut z, 0), (Color(255, 255, 255), Priority::Normal));
    assert_eq!(colour(&mut z, 3), (Color(255, 0, 0), Priority::Normal));
    assert!(!d.is_finished());
}

#[test]
fn repeating_pulse_never_finishes() {
    let mut p = CircuitPulse::new(10_000, 1000, [ORANGE; 3], Some(5_000_000));
    let mut z = board();
    p.render(&mut z, 0);
    p.render(&mut z, 10_000_000);
    assert!(!p.is_finished());
}

#[test]
fn duel_reset_returns_to_the_start() {
    let mut d = OvertakeDuel::new(216);
    let mut z = board();
    for _ in 0..40 {
        d.render(&mut z, 0);
    }
    assert_ne!((d.a_pos, d.b_pos), (0, 72));
    d.reset();
    assert_eq!((d.a_pos, d.b_pos, d.a_fast, d.timer, d.flash_timer), (0, 72, true, 0, 0));
}
