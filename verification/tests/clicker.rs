use meow_simulator::assets::{choose_assets_dir, AssetsDir};
use meow_simulator::meow::{
    config_or_default, icon_file, meow_label, meow_sound_file, Clicker, Config, Icon,
    RESTORE_AFTER_MS,
};
use meow_simulator::player::{
    file_uri, keep_playing, purr_plan, stop_when_answered, BusMessage, PurrPlan,
};

#[test]
fn label_shows_count() {
    assert_eq!(meow_label(0), "Meows: 0");
    assert_eq!(meow_label(1337), "Meows: 1337");
}

#[test]
fn sound_files_are_numbered() {
    assert_eq!(meow_sound_file(1), "meow1.mp3");
    assert_eq!(meow_sound_file(4), "meow4.mp3");
}

#[test]
fn config_defaults_to_zero() {
    assert_eq!(Config::default(), Config { meows: 0 });
    assert_eq!(config_or_default(None), Config { meows: 0 });
    assert_eq!(config_or_default(Some(Config { meows: 12 })), Config { meows: 12 });
}

#[test]
fn icons_name_their_files() {
    assert_eq!(icon_file(Icon::Resting), "static.png");
    assert_eq!(icon_file(Icon::Meowing), "static2.png");
}

#[test]
fn click_counts_saves_and_shows() {
    let mut c = Clicker::new(&Config { meows: 41 });
    assert_eq!(c.label(), "Meows: 41");
    assert_eq!(c.icon, Icon::Resting);
    let fx = c.click_with(2);
    assert_eq!(c.meows, 42);
    assert_eq!(c.icon, Icon::Meowing);
    assert_eq!(fx.save, Config { meows: 42 });
    assert_eq!(fx.label, "Meows: 42");
    assert_eq!(fx.sound, "meow2.mp3");
    assert_eq!(fx.icon, Icon::Meowing);
    assert_eq!(fx.restore_after_ms, 100);
    assert_eq!(RESTORE_AFTER_MS, 100);
    assert_eq!(c.restore(), Icon::Resting);
    assert_eq!(c.meows, 42);
    assert_eq!(c.icon, Icon::Resting);
}

#[test]
fn random_click_picks_one_of_four_sounds() {
    let mut c = Clicker::new(&Config { meows: 0 });
    let names = ["meow1.mp3", "meow2.mp3", "meow3.mp3", "meow4.mp3"];
    for k in 1..=200u64 {
        let fx = c.click();
        assert!(names.contains(&fx.sound.as_str()));
        assert_eq!(c.meows, k);
        assert_eq!(fx.save.meows, k);
        assert_eq!(fx.label, format!("Meows: {}", k));
    }
}

#[test]
fn click_just_below_limit() {
    let mut c = Clicker::new(&Config { meows: u64::MAX - 1 });
    let fx = c.click_with(1);
    assert_eq!(fx.label, "Meows: 18446744073709551615");
}

#[test]
fn uri_prefixes_file_scheme() {
    assert_eq!(file_uri("/usr/share/meow-simulator/meow1.mp3"), "file:///usr/share/meow-simulator/meow1.mp3");
}

#[test]
fn meow_stops_at_end_or_error() {
    assert!(!keep_playing(BusMessage::EndOfStream));
    assert!(!keep_playing(BusMessage::Error));
    assert!(keep_playing(BusMessage::Other));
}

#[test]
fn purr_is_stopped_once() {
    assert_eq!(purr_plan(true, true), PurrPlan { show_dialog: true, stop_now: false });
    assert!(stop_when_answered(true));
    assert_eq!(purr_plan(true, false), PurrPlan { show_dialog: false, stop_now: true });
    assert_eq!(purr_plan(false, true), PurrPlan { show_dialog: true, stop_now: false });
    assert!(!stop_when_answered(false));
    assert_eq!(purr_plan(false, false), PurrPlan { show_dialog: false, stop_now: false });
}

#[test]
fn assets_prefer_system_dir() {
    assert_eq!(choose_assets_dir(true, true), Some(AssetsDir::System));
    assert_eq!(choose_assets_dir(true, false), Some(AssetsDir::System));
    assert_eq!(choose_assets_dir(false, true), Some(AssetsDir::BesideExe));
    assert_eq!(choose_assets_dir(false, false), None);
}
