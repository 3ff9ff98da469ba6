use espilepsy::animation::{lerp, AnimationState, Cmd, REFRESH_MS, STEADY_SLEEP_MS};
use espilepsy::color::Color;

const RED: Color = Color { r: 255, g: 0, b: 0 };
const GREEN: Color = Color { r: 0, g: 255, b: 0 };

fn blinky() -> Cmd {
    Cmd::Blinky { color0: RED, color1: GREEN, period: 1000 }
}

#[test]
fn lerp_stays_in_channel_range() {
    for ratio in 0..=256u32 {
        for (a, b) in [(0u8, 0u8), (255, 255), (0, 255), (255, 0), (17, 200)] {
            let v = lerp(a, b, ratio) as u32;
            assert!(v <= 255);
            assert!(v >= a.min(b) as u32 && v <= a.max(b) as u32);
        }
    }
}

#[test]
fn lerp_exact_values() {
    assert_eq!(lerp(255, 0, 128), 127);
    assert_eq!(lerp(10, 20, 64), 17);
    assert_eq!(lerp(200, 100, 256), 200);
    assert_eq!(lerp(200, 100, 0), 100);
}

#[test]
fn new_state_is_steady_off() {
    let mut s = AnimationState::new();
    assert_eq!(s.current, Cmd::Steady(Color::off()));
    assert!(s.forward);
    assert_eq!(s.elapsed, 0);
    assert_eq!(s.tick(REFRESH_MS), (STEADY_SLEEP_MS, Color { r: 0, g: 0, b: 0 }));
}

#[test]
fn blinky_flips_at_each_end_of_the_period() {
    let mut s = AnimationState::new();
    s.apply_command(blinky());
    // Twenty ticks of 50 ms reach the end of the forward fade.
    let (sleep, first) = s.tick(REFRESH_MS);
    assert_eq!(sleep, REFRESH_MS);
    assert_eq!(first, GREEN);
    for _ in 1..20 {
        let (sleep, _) = s.tick(REFRESH_MS);
        assert_eq!(sleep, REFRESH_MS);
        assert!(s.forward);
    }
    assert_eq!(s.elapsed, 1000);
    let (_, boundary) = s.tick(REFRESH_MS);
    assert_eq!(boundary, RED);
    assert!(!s.forward);
    assert_eq!(s.elapsed, 0);
    // Another twenty ticks lead back.
    let (_, back_start) = s.tick(REFRESH_MS);
    assert_eq!(back_start, RED);
    for _ in 1..20 {
        s.tick(REFRESH_MS);
        assert!(!s.forward);
    }
    assert_eq!(s.elapsed, 1000);
    let (_, end) = s.tick(REFRESH_MS);
    assert_eq!(end, GREEN);
    assert!(s.forward);
    assert_eq!(s.elapsed, 0);
}

#[test]
fn blinky_midway_color() {
    let mut s = AnimationState::new();
    s.apply_command(blinky());
    for _ in 0..10 {
        s.tick(REFRESH_MS);
    }
    assert_eq!(s.elapsed, 500);
    // ratio = 500 * 256 / 1000 = 128
    let (_, mid) = s.tick(REFRESH_MS);
    assert_eq!(mid, Color { r: 127, g: 127, b: 0 });
}

#[test]
fn elapsed_is_capped_at_period() {
    let mut s = AnimationState::new();
    s.apply_command(Cmd::Blinky { color0: RED, color1: GREEN, period: 70 });
    s.tick(REFRESH_MS);
    assert_eq!(s.elapsed, 50);
    s.tick(REFRESH_MS);
    assert_eq!(s.elapsed, 70);
    assert!(s.forward);
    let (_, c) = s.tick(REFRESH_MS);
    assert_eq!(c, RED);
    assert!(!s.forward);
}

#[test]
fn command_mid_fade_resets_phase() {
    let mut s = AnimationState::new();
    s.apply_command(blinky());
    for _ in 0..27 {
        s.tick(REFRESH_MS);
    }
    assert!(!s.forward);
    assert!(s.elapsed > 0);
    let blue = Color { r: 0, g: 0, b: 255 };
    s.apply_command(Cmd::Steady(blue));
    assert!(s.forward);
    assert_eq!(s.elapsed, 0);
    assert_eq!(s.tick(REFRESH_MS), (STEADY_SLEEP_MS, blue));

    s.apply_command(blinky());
    for _ in 0..5 {
        s.tick(REFRESH_MS);
    }
    s.apply_command(Cmd::Blinky { color0: blue, color1: blue, period: 300 });
    assert!(s.forward);
    assert_eq!(s.elapsed, 0);
    assert_eq!(s.tick(REFRESH_MS), (REFRESH_MS, blue));
}

#[test]
fn steady_repeats_its_color() {
    let c = Color { r: 9, g: 8, b: 7 };
    let mut s = AnimationState::new();
    s.apply_command(Cmd::Steady(c));
    let before = s;
    for _ in 0..100 {
        assert_eq!(s.tick(REFRESH_MS), (STEADY_SLEEP_MS, c));
        assert_eq!(s, before);
    }
}
