use nes_bundler::audio::debug::{AudioStat, AudioStats};
use nes_bundler::audio::{
    available_device_order, device_display_name, frames_to_latency, AudioSettings, MAX_AUDIO_LATENCY_MICROS,
    MIN_AUDIO_LATENCY_MICROS,
};

fn settings(output_device: Option<&str>) -> AudioSettings {
    AudioSettings { volume: 80, output_device: output_device.map(|s| s.to_string()), latency_micros: 20_000 }
}

#[test]
fn latency_defaults_and_sanitizing() {
    assert_eq!(AudioSettings::default_latency_micros(), 16_000);
    assert_eq!(AudioSettings::sanitized_latency_micros(20_000), 20_000);
    assert_eq!(AudioSettings::sanitized_latency_micros(MIN_AUDIO_LATENCY_MICROS), MIN_AUDIO_LATENCY_MICROS);
    assert_eq!(AudioSettings::sanitized_latency_micros(MAX_AUDIO_LATENCY_MICROS), 16_000);
    assert_eq!(AudioSettings::sanitized_latency_micros(100), 16_000);
}

#[test]
fn selected_device_found() {
    let names = vec!["Default".to_string(), "USB".to_string(), "HDMI".to_string()];
    let mut s = settings(Some("HDMI"));
    assert_eq!(s.get_selected_device(&names), 2);
    assert_eq!(s.output_device.as_deref(), Some("HDMI"));
}

#[test]
fn missing_device_falls_back_to_default() {
    let names = vec!["Default".to_string(), "USB".to_string()];
    let mut s = settings(Some("Gone"));
    assert_eq!(s.get_selected_device(&names), 0);
    assert_eq!(s.output_device.as_deref(), Some("Default"));
    let mut none = settings(None);
    assert_eq!(none.get_selected_device(&names), 0);
    assert_eq!(none.output_device.as_deref(), Some("Default"));
}

#[test]
fn default_device_listed_first_once() {
    assert_eq!(available_device_order(7, &vec![3, 7, 9]), vec![7, 3, 9]);
    assert_eq!(available_device_order(1, &vec![]), vec![1]);
}

#[test]
fn device_names() {
    assert_eq!(device_display_name(5, true, Some("Speakers".to_string())), "Systems default speaker");
    assert_eq!(device_display_name(5, false, Some("Speakers".to_string())), "Speakers");
    assert_eq!(device_display_name(42, false, None), "No name (42)");
}

#[test]
fn frames_to_latency_in_millis() {
    assert_eq!(frames_to_latency(441, 1, 44_100), 10);
    assert_eq!(frames_to_latency(882, 2, 44_100), 10);
    assert_eq!(frames_to_latency(0, 1, 44_100), 0);
    // 300 ms does not fit a byte and wraps like the cast.
    assert_eq!(frames_to_latency(13_230, 1, 44_100), (300u32 % 256) as u8);
}

#[test]
fn audio_stats_keep_recent_measurements() {
    let mut stats = AudioStats::new();
    stats.push_stat(AudioStat::new(10));
    stats.push_stat(AudioStat::new(20));
    assert_eq!(stats.stats.len(), 2);
    assert_eq!(stats.stats[1].latency, 20);
}

#[test]
fn stale_measurement_is_replaced() {
    assert!(!AudioStats::is_stale(1));
    assert!(AudioStats::is_stale(2));
    let mut stats = AudioStats::new();
    stats.push_stat_checked(AudioStat::new(10), true);
    assert_eq!(stats.stats.len(), 1);
    stats.push_stat_checked(AudioStat::new(20), false);
    stats.push_stat_checked(AudioStat::new(30), true);
    let latencies: Vec<usize> = stats.stats.iter().map(|s| s.latency).collect();
    assert_eq!(latencies, vec![10, 30]);
}
