use vstd::prelude::*;
use std::collections::VecDeque;
use std::time::{Duration, Instant};

use crate::time::{elapsed_since, instant_now};
use crate::MAX_PLAYERS;

verus! {

/// Frames per second of the emulation.
pub type Fps = u32;

/// A frame number of a netplay session.
pub type Frame = i32;

/// The frame rate the emulation runs at.
pub const FPS: Fps = 60;

/// How many network statistics samples are kept per player.
pub const STATS_HISTORY: usize = 100;

/// Password credentials of an ICE server.
#[derive(Clone, Debug)]
pub struct IcePasswordCredentials {
    pub username: String,
    pub password: String,
}

/// Credentials of an ICE server.
#[derive(Clone, Debug)]
pub enum IceCredentials {
    /// No credentials.
    Anonymous,
    Password(IcePasswordCredentials),
}

/// The ICE servers that peers use to find a route to each other.
#[derive(Clone, Debug)]
pub struct IceConfiguration {
    pub urls: Vec<String>,
    pub credentials: IceCredentials,
}

/// The matchmaking server and the ICE servers of a netplay setup.
#[derive(Clone, Debug)]
pub struct MatchboxConfiguration {
    pub server: String,
    pub ice: IceConfiguration,
}

/// Rollback settings of a netplay session.
#[derive(Clone, Debug)]
pub struct GGRSConfiguration {
    pub max_prediction: usize,
    pub input_delay: usize,
}

/// A fixed netplay server setup.
#[derive(Clone, Debug)]
pub struct StaticNetplayServerConfiguration {
    pub matchbox: MatchboxConfiguration,
    pub ggrs: GGRSConfiguration,
}

/// Where the netplay servers come from.
#[derive(Clone, Debug)]
pub enum NetplayServerConfiguration {
    Static(StaticNetplayServerConfiguration),
}

/// The netplay part of the bundle's configuration.
#[derive(Clone, Debug)]
pub struct NetplayBuildConfiguration {
    pub default_room_name: String,
    pub netplay_id: Option<String>,
    pub server: NetplayServerConfiguration,
}

/// Whether `id` has the shape of a hyphenated UUID: 36 characters with a
/// hyphen at positions 8, 13, 18 and 23.
pub open spec fn is_hyphenated_uuid(id: Seq<char>) -> bool {
    &&& id.len() == 36
    &&& id[8] == '-'
    &&& id[13] == '-'
    &&& id[18] == '-'
    &&& id[23] == '-'
}

/// Whether `c` is a lower-case hexadecimal digit.
pub open spec fn is_lower_hex_digit(c: char) -> bool {
    (('0' as u32) <= (c as u32) && (c as u32) <= ('9' as u32)) || (('a' as u32) <= (c as u32) && (c as u32)
        <= ('f' as u32))
}

/// Whether `id` is the lower-case hyphenated text of a version-4 UUID of the
/// RFC 4122 variant: hexadecimal digits in groups of 8, 4, 4, 4 and 12, the
/// version digit `4` and a variant digit of `8`, `9`, `a` or `b`.
pub open spec fn is_v4_uuid(id: Seq<char>) -> bool {
    &&& is_hyphenated_uuid(id)
    &&& forall|i: int| 0 <= i < 36 && i != 8 && i != 13 && i != 18 && i != 23 ==> is_lower_hex_digit(#[trigger] id[i])
    &&& id[14] == '4'
    &&& (id[19] == '8' || id[19] == '9' || id[19] == 'a' || id[19] == 'b')
}

/// `uuid::Uuid::new_v4` rendered by its `Display`: a random version-4 UUID in
/// its lower-case hyphenated form. The shape, version and variant digits are
/// stated; the other digits are random.
#[verifier::external_body]
fn new_random_id() -> (id: String)
    ensures
        is_v4_uuid(id@),
{
    uuid::Uuid::new_v4().to_string()
}

/// The identifier this installation uses on the netplay servers: the one the
/// bundle configures, else the one stored in the settings, else a fresh random
/// one, which is then stored in the settings.
pub fn get_netplay_id(config: &NetplayBuildConfiguration, stored_id: &mut Option<String>) -> (id: String)
    ensures
        match config.netplay_id {
            Some(configured) => id == configured && *final(stored_id) == *old(stored_id),
            None => match *old(stored_id) {
                Some(stored) => id == stored && *final(stored_id) == *old(stored_id),
                None => is_v4_uuid(id@) && *final(stored_id) == Some(id),
            },
        },
{
    match &config.netplay_id {
        Some(configured) => configured.clone(),
        None => match stored_id {
            Some(stored) => stored.clone(),
            None => {
                let fresh = new_random_id();
                *stored_id = Some(fresh.clone());
                fresh
            },
        },
    }
}

/// How many more players have to join before a session can start, with
/// `connected_peers` peers connected besides ourselves.
pub fn players_remaining(connected_peers: usize) -> (remaining: usize)
    requires
        connected_peers + 1 <= MAX_PLAYERS,
    ensures
        remaining == MAX_PLAYERS - (connected_peers + 1),
{
    MAX_PLAYERS - (connected_peers + 1)
}

/// Whether every player is connected, so that the session can start.
pub fn ready_to_start(connected_peers: usize) -> (start: bool)
    requires
        connected_peers + 1 <= MAX_PLAYERS,
    ensures
        start == (connected_peers + 1 == MAX_PLAYERS),
{
    players_remaining(connected_peers) == 0
}

/// Whether the frame is one on which network statistics are sampled: every 30th.
pub fn stats_due(frame: Frame) -> (due: bool)
    ensures
        due == (frame % 30 == 0),
{
    frame % 30 == 0
}

/// Whether statistics are sampled for `player`: only for remote players.
pub fn needs_stats(player: usize, local_handles: &Vec<usize>) -> (needed: bool)
    ensures
        needed == !local_handles@.contains(player),
{
    let n = local_handles.len();
    let mut i: usize = 0;
    while i < n
        invariant
            n == local_handles@.len(),
            i <= n,
            forall|j: int| 0 <= j < i ==> local_handles@[j] != player,
        decreases n - i,
    {
        if local_handles[i] == player {
            return false;
        }
        i = i + 1;
    }
    true
}

/// The frame rate to run at: a tenth slower while this peer runs ahead of the others.
pub fn fps_for_frames_ahead(frames_ahead: i32) -> (fps: Fps)
    ensures
        fps == if frames_ahead > 0 { FPS * 9 / 10 } else { FPS as int },
{
    if frames_ahead > 0 {
        FPS * 9 / 10
    } else {
        FPS
    }
}

/// Which stage of netplay the program is in.
#[derive(Clone, Copy, Debug, PartialEq, Eq, Structural)]
pub enum NetplayPhase {
    /// Playing alone.
    Disconnected,
    /// Waiting, in a room, for the other players.
    Connecting,
    /// Playing in a rollback session with the other players.
    Connected,
}

/// What the netplay transport reported for this frame.
#[derive(Clone, Copy, Debug, PartialEq, Eq, Structural)]
pub struct NetplayReport {
    /// While connecting: how many peers are connected besides ourselves, if
    /// the room's socket is there.
    pub connected_peers: Option<usize>,
    /// While connected: the session reported a peer as lost.
    pub peer_lost: bool,
    /// While connected: how many frames this peer runs ahead of the others.
    pub frames_ahead: i32,
}

/// What is to be done with the game on this frame.
#[derive(Clone, Copy, Debug, PartialEq, Eq, Structural)]
pub enum NetplayAction {
    /// Run the game one frame with the local inputs.
    AdvanceLocally,
    /// Run the game one frame with the local inputs, then start the rollback
    /// session with the players in the room and reset the game.
    AdvanceLocallyThenStartSession,
    /// Drop the session; the game does not run on this frame.
    Disconnect,
    /// Run the rollback session one frame.
    AdvanceSession,
}

/// The outcome of one frame of netplay: the next stage, what to do and the
/// frame rate to run at.
#[derive(Clone, Copy, Debug, PartialEq, Eq, Structural)]
pub struct NetplayStep {
    pub phase: NetplayPhase,
    pub action: NetplayAction,
    pub fps: Fps,
}

/// Whether a report fits the stage: while connecting, no more peers than
/// there are other players.
pub open spec fn report_fits(phase: NetplayPhase, report: NetplayReport) -> bool {
    phase == NetplayPhase::Connecting && report.connected_peers is Some ==> report.connected_peers->Some_0 + 1
        <= MAX_PLAYERS
}

/// One frame of netplay: alone, the game runs locally; in a room it runs
/// locally until every player is connected, and then the session starts; in
/// a session, a lost peer ends it, and otherwise the session runs, a tenth
/// slower while this peer is ahead.
pub open spec fn spec_netplay_step(phase: NetplayPhase, report: NetplayReport) -> NetplayStep {
    match phase {
        NetplayPhase::Disconnected => NetplayStep {
            phase: NetplayPhase::Disconnected,
            action: NetplayAction::AdvanceLocally,
            fps: FPS,
        },
        NetplayPhase::Connecting => if report.connected_peers is Some && report.connected_peers->Some_0 + 1
            == MAX_PLAYERS {
            NetplayStep {
                phase: NetplayPhase::Connected,
                action: NetplayAction::AdvanceLocallyThenStartSession,
                fps: FPS,
            }
        } else {
            NetplayStep { phase: NetplayPhase::Connecting, action: NetplayAction::AdvanceLocally, fps: FPS }
        },
        NetplayPhase::Connected => if report.peer_lost {
            NetplayStep { phase: NetplayPhase::Disconnected, action: NetplayAction::Disconnect, fps: FPS }
        } else {
            NetplayStep {
                phase: NetplayPhase::Connected,
                action: NetplayAction::AdvanceSession,
                fps: (if report.frames_ahead > 0 { FPS * 9 / 10 } else { FPS as int }) as Fps,
            }
        },
    }
}

/// Decides one frame of netplay from the stage it is in and what the
/// transport reported; see [`spec_netplay_step`]. The caller carries out the
/// action and reports again on the next frame.
pub fn netplay_step(phase: NetplayPhase, report: &NetplayReport) -> (step: NetplayStep)
    requires
        report_fits(phase, *report),
    ensures
        step == spec_netplay_step(phase, *report),
{
    match phase {
        NetplayPhase::Disconnected => NetplayStep {
            phase: NetplayPhase::Disconnected,
            action: NetplayAction::AdvanceLocally,
            fps: FPS,
        },
        NetplayPhase::Connecting => {
            let start = match report.connected_peers {
                Some(peers) => ready_to_start(peers),
                None => false,
            };
            if start {
                NetplayStep {
                    phase: NetplayPhase::Connected,
                    action: NetplayAction::AdvanceLocallyThenStartSession,
                    fps: FPS,
                }
            } else {
                NetplayStep { phase: NetplayPhase::Connecting, action: NetplayAction::AdvanceLocally, fps: FPS }
            }
        },
        NetplayPhase::Connected => if report.peer_lost {
            NetplayStep { phase: NetplayPhase::Disconnected, action: NetplayAction::Disconnect, fps: FPS }
        } else {
            NetplayStep {
                phase: NetplayPhase::Connected,
                action: NetplayAction::AdvanceSession,
                fps: fps_for_frames_ahead(report.frames_ahead),
            }
        },
    }
}

/// A session starts only once every player is connected, and always with a
/// reset game; it ends only when a peer is lost, and then the game does not
/// run on that frame.
pub proof fn lemma_session_starts_and_ends(phase: NetplayPhase, report: NetplayReport)
    requires
        report_fits(phase, report),
    ensures
        spec_netplay_step(phase, report).phase == NetplayPhase::Connected && phase != NetplayPhase::Connected
            ==> phase == NetplayPhase::Connecting && report.connected_peers == Some((MAX_PLAYERS - 1) as usize)
            && spec_netplay_step(phase, report).action == NetplayAction::AdvanceLocallyThenStartSession,
        spec_netplay_step(phase, report).phase == NetplayPhase::Disconnected && phase == NetplayPhase::Connected
            ==> report.peer_lost && spec_netplay_step(phase, report).action == NetplayAction::Disconnect,
        phase == NetplayPhase::Disconnected ==> spec_netplay_step(phase, report).phase == NetplayPhase::Disconnected,
{
}

/// The game runs slower only in a running session and only while this peer
/// is ahead of the others: then at nine tenths of the normal rate (54 frames
/// a second); at any other time, behind or level included, at the full rate.
pub proof fn lemma_slows_down_only_when_ahead(phase: NetplayPhase, report: NetplayReport)
    ensures
        spec_netplay_step(phase, report).fps <= FPS,
        spec_netplay_step(phase, report).fps < FPS <==> (phase == NetplayPhase::Connected && !report.peer_lost
            && report.frames_ahead > 0),
        spec_netplay_step(phase, report).fps < FPS ==> spec_netplay_step(phase, report).fps == 54,
        report.frames_ahead <= 0 ==> spec_netplay_step(phase, report).fps == 60,
{
}

/// A request of the rollback session.
#[derive(Clone, Copy, Debug, PartialEq, Eq, Structural)]
pub enum RequestKind {
    /// Restore the game state saved for `frame`.
    LoadGameState { frame: Frame },
    /// Save the game state as that of `frame`.
    SaveGameState { frame: Frame },
    /// Run the game one frame with the inputs the session gives.
    AdvanceFrame,
}

/// What to do for a request of the rollback session.
#[derive(Clone, Copy, Debug, PartialEq, Eq, Structural)]
pub enum RequestAction {
    /// Restore the saved state of the request.
    Load,
    /// Save the current game state under `frame`.
    Save { frame: Frame },
    /// Run one frame; drop its audio when it replays a frame already heard.
    Advance { discard_audio: bool },
}

/// The frame the session is on and the last frame whose audio was played.
#[derive(Clone, Copy, Debug, PartialEq, Eq, Structural)]
pub struct FrameClock {
    pub frame: Frame,
    pub last_real_frame: Frame,
}

/// Whether the clock can take the request: a save must be for the current
/// frame, and advancing must not run past the last frame number.
pub open spec fn can_handle(clock: FrameClock, request: RequestKind) -> bool {
    match request {
        RequestKind::LoadGameState { .. } => true,
        RequestKind::SaveGameState { frame } => frame == clock.frame,
        RequestKind::AdvanceFrame => clock.frame < i32::MAX,
    }
}

/// The clock after a request, and the action the request calls for.
pub open spec fn spec_handle(clock: FrameClock, request: RequestKind) -> (FrameClock, RequestAction) {
    match request {
        RequestKind::LoadGameState { frame } => (FrameClock { frame, ..clock }, RequestAction::Load),
        RequestKind::SaveGameState { frame } => (clock, RequestAction::Save { frame: clock.frame }),
        RequestKind::AdvanceFrame => {
            let replay = clock.frame <= clock.last_real_frame;
            (
                FrameClock {
                    frame: (clock.frame + 1) as Frame,
                    last_real_frame: if replay { clock.last_real_frame } else { clock.frame },
                },
                RequestAction::Advance { discard_audio: replay },
            )
        },
    }
}

/// Whether every request of the sequence can be taken in turn.
pub open spec fn can_handle_all(clock: FrameClock, requests: Seq<RequestKind>) -> bool
    decreases requests.len(),
{
    if requests.len() == 0 {
        true
    } else {
        can_handle(clock, requests[0]) && can_handle_all(spec_handle(clock, requests[0]).0, requests.drop_first())
    }
}

/// The clock after taking every request of the sequence in turn.
pub open spec fn clock_after(clock: FrameClock, requests: Seq<RequestKind>) -> FrameClock
    decreases requests.len(),
{
    if requests.len() == 0 {
        clock
    } else {
        clock_after(spec_handle(clock, requests[0]).0, requests.drop_first())
    }
}

/// The frames whose audio is played while the requests are taken in turn.
pub open spec fn heard_frames(clock: FrameClock, requests: Seq<RequestKind>) -> Seq<Frame>
    decreases requests.len(),
{
    if requests.len() == 0 {
        Seq::empty()
    } else {
        let (next, action) = spec_handle(clock, requests[0]);
        let rest = heard_frames(next, requests.drop_first());
        if action == (RequestAction::Advance { discard_audio: false }) {
            seq![clock.frame].add(rest)
        } else {
            rest
        }
    }
}

impl FrameClock {
    /// The clock of a fresh netplay, before any frame was played.
    pub fn new() -> (clock: Self)
        ensures
            clock.frame == 0,
            clock.last_real_frame == -1,
    {
        FrameClock { frame: 0, last_real_frame: -1 }
    }

    /// A new session starts at frame zero; the frames already heard stay heard.
    pub fn start_session(&mut self)
        ensures
            final(self).frame == 0,
            final(self).last_real_frame == old(self).last_real_frame,
    {
        self.frame = 0;
    }

    /// Takes a request of the rollback session and says what to do for it.
    pub fn handle_request(&mut self, request: &RequestKind) -> (action: RequestAction)
        requires
            can_handle(*old(self), *request),
        ensures
            (*final(self), action) == spec_handle(*old(self), *request),
    {
        match request {
            RequestKind::LoadGameState { frame } => {
                self.frame = *frame;
                RequestAction::Load
            },
            RequestKind::SaveGameState { .. } => RequestAction::Save { frame: self.frame },
            RequestKind::AdvanceFrame => {
                let replay = self.frame <= self.last_real_frame;
                if !replay {
                    self.last_real_frame = self.frame;
                }
                self.frame = self.frame + 1;
                RequestAction::Advance { discard_audio: replay }
            },
        }
    }
}

/// Whatever the session asks, the audio of a frame is played at most once and
/// in order: the frames heard are strictly increasing, all later than the last
/// frame heard before, and the clock remembers the last of them.
pub proof fn lemma_audio_heard_once(clock: FrameClock, requests: Seq<RequestKind>)
    requires
        can_handle_all(clock, requests),
    ensures
        forall|i: int, j: int| 0 <= i < j < heard_frames(clock, requests).len()
            ==> #[trigger] heard_frames(clock, requests)[i] < #[trigger] heard_frames(clock, requests)[j],
        forall|i: int| 0 <= i < heard_frames(clock, requests).len()
            ==> clock.last_real_frame < #[trigger] heard_frames(clock, requests)[i],
        clock.last_real_frame <= clock_after(clock, requests).last_real_frame,
        heard_frames(clock, requests).len() > 0 ==> clock_after(clock, requests).last_real_frame
            == heard_frames(clock, requests).last(),
        heard_frames(clock, requests).len() == 0 ==> clock_after(clock, requests).last_real_frame
            == clock.last_real_frame,
    decreases requests.len(),
{
    if requests.len() > 0 {
        let (next, action) = spec_handle(clock, requests[0]);
        lemma_audio_heard_once(next, requests.drop_first());
        let rest = heard_frames(next, requests.drop_first());
        let all = heard_frames(clock, requests);
        if action == (RequestAction::Advance { discard_audio: false }) {
            assert(next.last_real_frame == clock.frame);
            assert(all =~= seq![clock.frame].add(rest));
            assert forall|i: int, j: int| 0 <= i < j < all.len() implies #[trigger] all[i] < #[trigger] all[j] by {
                if i > 0 {
                    assert(all[i] == rest[i - 1] && all[j] == rest[j - 1]);
                } else {
                    assert(all[j] == rest[j - 1]);
                }
            }
            assert forall|i: int| 0 <= i < all.len() implies clock.last_real_frame < #[trigger] all[i] by {
                if i > 0 {
                    assert(all[i] == rest[i - 1]);
                }
            }
            if rest.len() > 0 {
                assert(all.last() == rest.last());
            }
        } else {
            assert(all =~= rest);
            assert(clock.last_real_frame <= next.last_real_frame);
        }
    }
}

/// A network statistics sample of one player and when it was taken.
#[derive(Debug)]
pub struct NetplayStat<Stat> {
    pub stat: Stat,
    pub duration: Duration,
}

/// The recent network statistics samples of one player, oldest first.
pub struct NetplayStats<Stat> {
    pub stats: VecDeque<NetplayStat<Stat>>,
    pub start_time: Instant,
}

impl<Stat> NetplayStats<Stat> {
    pub fn new() -> (s: Self)
        ensures
            s.stats@.len() == 0,
    {
        NetplayStats { start_time: instant_now(), stats: VecDeque::with_capacity(STATS_HISTORY) }
    }

    /// The samples kept, oldest first.
    pub fn get_ping(&self) -> (stats: &VecDeque<NetplayStat<Stat>>)
        ensures
            stats@ == self.stats@,
    {
        &self.stats
    }

    /// Adds the newest sample, taken now; see [`Self::push_stats_at`]. The
    /// time since the start is asked of the clock.
    pub fn push_stats(&mut self, stat: Stat)
        ensures
            final(self).stats@.len() > 0,
            old(self).stats@.len() < STATS_HISTORY ==> final(self).stats@.len() < STATS_HISTORY,
            final(self).stats@.last().stat == stat,
            final(self).start_time == old(self).start_time,
            old(self).stats@.len() + 1 == STATS_HISTORY ==> final(self).stats@.drop_last()
                =~= old(self).stats@.drop_first(),
            old(self).stats@.len() + 1 != STATS_HISTORY ==> final(self).stats@.drop_last() =~= old(self).stats@,
    {
        let duration = elapsed_since(&self.start_time);
        self.push_stats_at(stat, duration);
    }

    /// Adds the newest sample, taken `duration` after the start; once the
    /// history reaches its length, the oldest sample is dropped.
    pub fn push_stats_at(&mut self, stat: Stat, duration: Duration)
        ensures
            final(self).stats@.len() > 0,
            old(self).stats@.len() < STATS_HISTORY ==> final(self).stats@.len() < STATS_HISTORY,
            final(self).stats@.last().stat == stat,
            final(self).stats@.last().duration == duration,
            final(self).start_time == old(self).start_time,
            old(self).stats@.len() + 1 == STATS_HISTORY ==> final(self).stats@.drop_last()
                =~= old(self).stats@.drop_first(),
            old(self).stats@.len() + 1 != STATS_HISTORY ==> final(self).stats@.drop_last() =~= old(self).stats@,
    {
        self.stats.push_back(NetplayStat { duration, stat });
        if self.stats.len() == STATS_HISTORY {
            self.stats.pop_front();
        }
    }
}

} // verus!
