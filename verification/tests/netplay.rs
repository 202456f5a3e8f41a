use nes_bundler::netplay::{
    netplay_step, NetplayAction, NetplayPhase, NetplayReport,
    fps_for_frames_ahead, get_netplay_id, needs_stats, players_remaining, ready_to_start, stats_due, FrameClock,
    GGRSConfiguration, IceConfiguration, IceCredentials, MatchboxConfiguration, NetplayBuildConfiguration,
    NetplayServerConfiguration, NetplayStats, RequestAction, RequestKind, StaticNetplayServerConfiguration, FPS,
    STATS_HISTORY,
};

fn config(netplay_id: Option<&str>) -> NetplayBuildConfiguration {
    NetplayBuildConfiguration {
        default_room_name: "room".to_string(),
        netplay_id: netplay_id.map(|s| s.to_string()),
        server: NetplayServerConfiguration::Static(StaticNetplayServerConfiguration {
            matchbox: MatchboxConfiguration {
                server: "matchbox.example:3536".to_string(),
                ice: IceConfiguration { urls: vec!["stun:stun.example:19302".to_string()], credentials: IceCredentials::Anonymous },
            },
            ggrs: GGRSConfiguration { max_prediction: 12, input_delay: 2 },
        }),
    }
}

#[test]
fn waiting_for_players() {
    assert_eq!(players_remaining(0), 1);
    assert_eq!(players_remaining(1), 0);
    assert!(!ready_to_start(0));
    assert!(ready_to_start(1));
}

#[test]
fn stats_every_thirtieth_frame_for_remote_players() {
    assert!(stats_due(0));
    assert!(stats_due(60));
    assert!(!stats_due(31));
    assert!(needs_stats(1, &vec![0]));
    assert!(!needs_stats(0, &vec![0]));
}

#[test]
fn slows_down_when_ahead() {
    assert_eq!(FPS, 60);
    assert_eq!(fps_for_frames_ahead(0), 60);
    assert_eq!(fps_for_frames_ahead(-3), 60);
    assert_eq!(fps_for_frames_ahead(2), 54);
}

#[test]
fn replayed_frames_are_not_heard_twice() {
    let mut clock = FrameClock::new();
    assert_eq!(clock.handle_request(&RequestKind::SaveGameState { frame: 0 }), RequestAction::Save { frame: 0 });
    assert_eq!(clock.handle_request(&RequestKind::AdvanceFrame), RequestAction::Advance { discard_audio: false });
    assert_eq!(clock.handle_request(&RequestKind::AdvanceFrame), RequestAction::Advance { discard_audio: false });
    assert_eq!(clock, FrameClock { frame: 2, last_real_frame: 1 });
    // Rollback to frame 0 and replay.
    assert_eq!(clock.handle_request(&RequestKind::LoadGameState { frame: 0 }), RequestAction::Load);
    assert_eq!(clock.handle_request(&RequestKind::AdvanceFrame), RequestAction::Advance { discard_audio: true });
    assert_eq!(clock.handle_request(&RequestKind::AdvanceFrame), RequestAction::Advance { discard_audio: true });
    assert_eq!(clock.handle_request(&RequestKind::AdvanceFrame), RequestAction::Advance { discard_audio: false });
    assert_eq!(clock, FrameClock { frame: 3, last_real_frame: 2 });
}

#[test]
fn new_session_keeps_heard_frames() {
    let mut clock = FrameClock { frame: 40, last_real_frame: 39 };
    clock.start_session();
    assert_eq!(clock, FrameClock { frame: 0, last_real_frame: 39 });
    assert_eq!(clock.handle_request(&RequestKind::AdvanceFrame), RequestAction::Advance { discard_audio: true });
}

#[test]
fn stats_history_is_bounded() {
    let mut stats: NetplayStats<u32> = NetplayStats::new();
    for i in 0..250u32 {
        stats.push_stats(i);
        assert!(stats.get_ping().len() < STATS_HISTORY);
        assert_eq!(stats.get_ping().back().unwrap().stat, i);
    }
    assert_eq!(stats.get_ping().len(), STATS_HISTORY - 1);
    assert_eq!(stats.get_ping().front().unwrap().stat, 250 - (STATS_HISTORY as u32 - 1));
}

#[test]
fn netplay_id_prefers_configured() {
    let mut stored = Some("stored".to_string());
    assert_eq!(get_netplay_id(&config(Some("configured")), &mut stored), "configured");
    assert_eq!(stored, Some("stored".to_string()));
    assert_eq!(get_netplay_id(&config(None), &mut stored), "stored");
}

#[test]
fn netplay_id_is_created_once() {
    let mut stored = None;
    let id = get_netplay_id(&config(None), &mut stored);
    assert_eq!(id.len(), 36);
    assert_eq!(id.chars().nth(8), Some('-'));
    assert_eq!(id.chars().nth(14), Some('4'));
    assert!(matches!(id.chars().nth(19), Some('8' | '9' | 'a' | 'b')));
    assert!(id.chars().all(|c| c == '-' || c.is_ascii_digit() || ('a'..='f').contains(&c)));
    assert_eq!(stored, Some(id.clone()));
    assert_eq!(get_netplay_id(&config(None), &mut stored), id);
}

fn report(connected_peers: Option<usize>, peer_lost: bool, frames_ahead: i32) -> NetplayReport {
    NetplayReport { connected_peers, peer_lost, frames_ahead }
}

#[test]
fn alone_the_game_runs_locally() {
    let step = netplay_step(NetplayPhase::Disconnected, &report(None, true, 3));
    assert_eq!(step.phase, NetplayPhase::Disconnected);
    assert_eq!(step.action, NetplayAction::AdvanceLocally);
    assert_eq!(step.fps, FPS);
}

#[test]
fn session_starts_when_everyone_is_in() {
    let waiting = netplay_step(NetplayPhase::Connecting, &report(Some(0), false, 0));
    assert_eq!((waiting.phase, waiting.action), (NetplayPhase::Connecting, NetplayAction::AdvanceLocally));
    let no_socket = netplay_step(NetplayPhase::Connecting, &report(None, false, 0));
    assert_eq!(no_socket.phase, NetplayPhase::Connecting);
    let ready = netplay_step(NetplayPhase::Connecting, &report(Some(1), false, 0));
    assert_eq!(
        (ready.phase, ready.action, ready.fps),
        (NetplayPhase::Connected, NetplayAction::AdvanceLocallyThenStartSession, FPS)
    );
}

#[test]
fn lost_peer_ends_the_session() {
    let lost = netplay_step(NetplayPhase::Connected, &report(None, true, 2));
    assert_eq!((lost.phase, lost.action, lost.fps), (NetplayPhase::Disconnected, NetplayAction::Disconnect, FPS));
    let ahead = netplay_step(NetplayPhase::Connected, &report(None, false, 2));
    assert_eq!((ahead.phase, ahead.action, ahead.fps), (NetplayPhase::Connected, NetplayAction::AdvanceSession, 54));
    let even = netplay_step(NetplayPhase::Connected, &report(None, false, 0));
    assert_eq!(even.fps, FPS);
}

#[test]
fn stats_sample_keeps_its_time() {
    let mut stats: NetplayStats<u32> = NetplayStats::new();
    stats.push_stats_at(7, std::time::Duration::from_millis(250));
    stats.push_stats_at(8, std::time::Duration::from_millis(500));
    let kept: Vec<(u32, u128)> = stats.get_ping().iter().map(|s| (s.stat, s.duration.as_millis())).collect();
    assert_eq!(kept, vec![(7, 250), (8, 500)]);
}
