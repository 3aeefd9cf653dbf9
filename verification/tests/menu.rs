use rust_belt::menu::{
    step_down, step_up, Dismissal, MenuSelection, SettingsSelection, Sound, Volume, INITIAL_SOUND_VOLUME,
    MAX_VOLUME, VOLUME_STEP,
};

#[test]
fn volume_starts_at_its_maximum() {
    assert_eq!(Volume::new(), Volume { music: 100, sound: 100 });
    assert_eq!(MAX_VOLUME, 100);
    assert_eq!(VOLUME_STEP, 10);
    assert_eq!(INITIAL_SOUND_VOLUME, 50);
}

#[test]
fn volume_steps_stay_between_zero_and_the_maximum() {
    assert_eq!(step_up(0), 10);
    assert_eq!(step_up(90), 100);
    assert_eq!(step_up(95), 100);
    assert_eq!(step_up(100), 100);
    assert_eq!(step_up(255), 100);
    assert_eq!(step_down(100), 90);
    assert_eq!(step_down(10), 0);
    assert_eq!(step_down(5), 0);
    assert_eq!(step_down(0), 0);
    assert_eq!(step_down(255), 100);
}

#[test]
fn raise_and_lower_change_only_the_selected_volume() {
    let volume = Volume { music: 40, sound: 50 };
    assert_eq!(volume.raise(SettingsSelection::MusicVolume), Volume { music: 50, sound: 50 });
    assert_eq!(volume.raise(SettingsSelection::SoundVolume), Volume { music: 40, sound: 60 });
    assert_eq!(volume.lower(SettingsSelection::MusicVolume), Volume { music: 30, sound: 50 });
    assert_eq!(volume.lower(SettingsSelection::SoundVolume), Volume { music: 40, sound: 40 });
    let mut loud = Volume::new();
    for _ in 0..20 {
        loud = loud.raise(SettingsSelection::MusicVolume);
        assert_eq!(loud.music, 100);
    }
    for step in 1..=20u8 {
        loud = loud.lower(SettingsSelection::SoundVolume);
        assert_eq!(loud.sound, 100u8.saturating_sub(10 * step.min(10)));
    }
    assert_eq!(loud, Volume { music: 100, sound: 0 });
}

#[test]
fn menu_highlight_moves_and_stops_at_the_ends() {
    assert_eq!(MenuSelection::Play.up(), MenuSelection::Play);
    assert_eq!(MenuSelection::Story.up(), MenuSelection::Play);
    assert_eq!(MenuSelection::Settings.up(), MenuSelection::Story);
    assert_eq!(MenuSelection::Exit.up(), MenuSelection::Settings);
    assert_eq!(MenuSelection::Play.down(), MenuSelection::Story);
    assert_eq!(MenuSelection::Story.down(), MenuSelection::Settings);
    assert_eq!(MenuSelection::Settings.down(), MenuSelection::Exit);
    assert_eq!(MenuSelection::Exit.down(), MenuSelection::Exit);
}

#[test]
fn menu_entries_are_ranked_from_the_top() {
    assert_eq!(MenuSelection::Play.index(), 0);
    assert_eq!(MenuSelection::Story.index(), 1);
    assert_eq!(MenuSelection::Settings.index(), 2);
    assert_eq!(MenuSelection::Exit.index(), 3);
}

#[test]
fn settings_highlight_moves_between_the_two_entries() {
    assert_eq!(SettingsSelection::MusicVolume.up(), SettingsSelection::MusicVolume);
    assert_eq!(SettingsSelection::SoundVolume.up(), SettingsSelection::MusicVolume);
    assert_eq!(SettingsSelection::MusicVolume.down(), SettingsSelection::SoundVolume);
    assert_eq!(SettingsSelection::SoundVolume.down(), SettingsSelection::SoundVolume);
}

#[test]
fn game_over_screen_waits_for_a_full_key_stroke() {
    let mut d = Dismissal::new();
    assert_eq!(d, Dismissal { has_pressed: false, has_released: false });
    // A key held since before the screen came up is released: ignored.
    d.release();
    assert_eq!(d, Dismissal { has_pressed: false, has_released: false });
    assert!(!d.press());
    assert!(!d.press());
    assert_eq!(d, Dismissal { has_pressed: true, has_released: false });
    d.release();
    assert_eq!(d, Dismissal { has_pressed: true, has_released: true });
    assert!(d.press());
    assert!(d.press());
}

#[test]
fn sounds_are_distinct() {
    let all = [
        Sound::MenuSelection,
        Sound::MenuBack,
        Sound::MenuValidate,
        Sound::WeaponShoot,
        Sound::AsteroidExplosion,
    ];
    for i in 0..all.len() {
        for j in 0..all.len() {
            assert_eq!(all[i] == all[j], i == j);
        }
    }
}
