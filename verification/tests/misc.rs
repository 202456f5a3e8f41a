use nes_bundler::audio::AudioSettings;
use nes_bundler::bundle::BuildConfiguration;
use nes_bundler::emulation::NesRegion;
use nes_bundler::input::settings::InputSettings;
use nes_bundler::input::JoypadMapping;
use nes_bundler::netplay::{
    GGRSConfiguration, IceConfiguration, IceCredentials, MatchboxConfiguration, NetplayBuildConfiguration,
    NetplayServerConfiguration, StaticNetplayServerConfiguration,
};
use nes_bundler::settings::Settings;
use nes_bundler::debug::DebugSettings;
use nes_bundler::gui::{AudioSettingsGui, NetplayGui};
use nes_bundler::resampling::SampleClock;
use nes_bundler::time::Time;

#[test]
fn debug_defaults() {
    let s = DebugSettings::new();
    assert!(!s.override_fps);
    assert_eq!(s.fps, 60);
    let mut d = nes_bundler::debug::Debug::new();
    assert_eq!(d.effective_fps(), 60);
    d.override_fps = true;
    d.fps = 30;
    assert_eq!(d.effective_fps(), 30);
}

#[test]
fn gui_defaults() {
    let mut audio = AudioSettingsGui::new();
    assert!(audio.is_open);
    assert!(audio.available_device_names.is_none());
    audio.available_device_names = Some(vec!["Default".to_string()]);
    // The list made at creation time is already due to be refreshed.
    assert!(audio.expire_device_names());
    assert!(audio.available_device_names.is_none());
    audio.available_device_names = Some(vec!["Default".to_string()]);
    assert!(!audio.expire_device_names());
    assert!(audio.available_device_names.is_some());
    assert!(NetplayGui::new().is_open);
    assert!(NetplayGui::can_join(&"room".to_string()));
    assert!(!NetplayGui::can_join(&String::new()));
}

#[test]
fn sample_clock_halves_the_rate() {
    let mut clock = SampleClock::new(2, 1);
    let emitted: Vec<bool> = (0..8).map(|_| clock.tick()).collect();
    assert_eq!(emitted, vec![true, false, false, false, true, false, true, false]);
    assert_eq!(clock.generated_samples, 3);
    assert_eq!(clock.current_cycle, 8);
}

#[test]
fn time_now_moves_forward() {
    let a = Time::now();
    let b = Time::now();
    assert!(b.0 >= a.0);
}

fn build_configuration(regions: Vec<NesRegion>) -> BuildConfiguration {
    let unmapped = JoypadMapping { up: None, down: None, left: None, right: None, start: None, select: None, b: None, a: None };
    BuildConfiguration {
        name: "Demo".to_string(),
        default_settings: Settings {
            audio: AudioSettings { volume: 100, output_device: None, latency_micros: 16_000 },
            input: InputSettings {
                selected: ["00-keyboard-1".to_string(), "00-keyboard-2".to_string()],
                configurations: vec![],
                default_gamepad_mapping: unmapped,
            },
            nes_region: NesRegion::Ntsc,
            save_state: None,
            last_save_state: None,
            netplay_id: None,
        },
        supported_nes_regions: regions,
        netplay: NetplayBuildConfiguration {
            default_room_name: "room".to_string(),
            netplay_id: None,
            server: NetplayServerConfiguration::Static(StaticNetplayServerConfiguration {
                matchbox: MatchboxConfiguration {
                    server: "localhost".to_string(),
                    ice: IceConfiguration { urls: vec![], credentials: IceCredentials::Anonymous },
                },
                ggrs: GGRSConfiguration { max_prediction: 12, input_delay: 2 },
            }),
        },
    }
}

#[test]
fn region_choice_needs_two_regions() {
    assert!(!build_configuration(vec![]).offers_region_choice());
    assert!(!build_configuration(vec![NesRegion::Ntsc]).offers_region_choice());
    assert!(build_configuration(vec![NesRegion::Ntsc, NesRegion::Pal]).offers_region_choice());
}

#[test]
fn device_names_expire_only_when_due() {
    let mut audio = AudioSettingsGui::new();
    audio.available_device_names = Some(vec!["Default".to_string()]);
    let before = audio.next_device_names_clear;
    let later = before + std::time::Duration::from_secs(1);
    assert!(!audio.expire_device_names_at(false, later));
    assert!(audio.available_device_names.is_some());
    assert_eq!(audio.next_device_names_clear, before);
    assert!(audio.expire_device_names_at(true, later));
    assert!(audio.available_device_names.is_none());
    assert_eq!(audio.next_device_names_clear, later);
}

#[test]
fn sample_clock_with_no_input_rate() {
    let mut clock = SampleClock::new(0, 1);
    // Every output sample is due at once.
    assert!(clock.tick());
    assert!(clock.tick());
    assert_eq!(clock.generated_samples, 2);
}
