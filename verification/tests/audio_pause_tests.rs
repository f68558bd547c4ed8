use donny_tango_survivor::audio::{volume_percent, SoundCounter};
use donny_tango_survivor::pause::WallLightsEnabled;

#[test]
fn wall_lights_enabled_default_is_true() {
    let enabled = WallLightsEnabled::default();
    assert!(enabled.0);
}

#[test]
fn wall_lights_toggle_and_label() {
    let mut enabled = WallLightsEnabled::default();
    assert_eq!(enabled.label(), "Lights: ON");
    assert!(!enabled.toggle());
    assert_eq!(enabled.label(), "Lights: OFF");
    assert!(enabled.toggle());
    assert_eq!(enabled.label(), "Lights: ON");
}

#[test]
fn volume_compression_tiers() {
    assert_eq!(volume_percent(0), 100);
    assert_eq!(volume_percent(2), 100);
    assert_eq!(volume_percent(3), 80);
    assert_eq!(volume_percent(4), 60);
    assert_eq!(volume_percent(5), 40);
    assert_eq!(volume_percent(6), 30);
    assert_eq!(volume_percent(100), 30);
}

#[test]
fn sound_counter_limits_sounds_per_frame() {
    let mut counter = SoundCounter::default();
    assert!(counter.try_play());
    assert!(counter.try_play());
    assert!(counter.try_play());
    assert!(!counter.try_play());
    assert_eq!(counter.sounds_this_frame, 3);
    assert_eq!(counter.start_frame(), 80);
    assert_eq!(counter.sounds_this_frame, 0);
    assert_eq!(counter.start_frame(), 100);
}

#[test]
fn sound_budget_is_never_exceeded() {
    let mut counter = SoundCounter::new();
    for frame in 0..5 {
        let mut played = 0;
        for _ in 0..(frame * 2) {
            if counter.try_play() {
                played += 1;
            }
            assert!(counter.sounds_this_frame <= counter.max_sounds_per_frame);
        }
        assert_eq!(played, if frame * 2 < 3 { frame * 2 } else { 3 });
        counter.start_frame();
    }
}
