use vstd::prelude::*;

use crate::character::MeleeCharacter;
use crate::config::AppConfig;
use crate::discord::{
    TIMESTAMP_TOLERANCE,     clear_view, game_view, queue_view, DiscordClientRequest, DiscordClientRequestTimestamp,
    DiscordClientRequestTimestampMode, DiscordClientRequestType, PresenceView,
};
use crate::memory::GameMemory;
use crate::stage::MeleeStage;

verus! {

/// How the in-game timer runs, as the match setup's flag byte says.
#[derive(Debug, Clone, Copy, PartialEq, Eq, Structural)]
pub enum TimerMode {
    Countup,
    Countdown,
    Hidden,
    Frozen,
}

impl TimerMode {
    /// The bits of the flag byte that select this mode.
    pub open spec fn bits(self) -> u8 {
        match self {
            TimerMode::Countup => 3,
            TimerMode::Countdown => 2,
            TimerMode::Hidden => 1,
            TimerMode::Frozen => 0,
        }
    }
}

/// Whether every bit of `mode` is set in `flags`.
pub open spec fn selects(flags: u8, mode: TimerMode) -> bool {
    flags & mode.bits() == mode.bits()
}

/// The timer mode a flag byte selects: the first of count-up, count-down,
/// hidden and frozen whose bits are all set; count-up where the byte could
/// not be read.
pub open spec fn timer_mode_of(flags: Option<u8>) -> TimerMode {
    match flags {
        None => TimerMode::Countup,
        Some(v) => if selects(v, TimerMode::Countup) {
            TimerMode::Countup
        } else if selects(v, TimerMode::Countdown) {
            TimerMode::Countdown
        } else if selects(v, TimerMode::Hidden) {
            TimerMode::Hidden
        } else {
            TimerMode::Frozen
        },
    }
}

/// Decodes the timer's flag byte.
pub fn decode_timer_mode(flags: Option<u8>) -> (r: TimerMode)
    ensures
        r == timer_mode_of(flags),
{
    match flags {
        None => TimerMode::Countup,
        Some(v) => if v & 3 == 3 {
            TimerMode::Countup
        } else if v & 2 == 2 {
            TimerMode::Countdown
        } else if v & 1 == 1 {
            TimerMode::Hidden
        } else {
            TimerMode::Frozen
        },
    }
}

/// Progress of an online search for an opponent.
#[derive(Debug, Clone, Copy, PartialEq, Eq, Structural)]
pub enum MatchmakingMode {
    Idle,
    Initializing,
    Matchmaking,
    OpponentConnecting,
    ConnectionSuccess,
    ErrorEncountered,
}

impl MatchmakingMode {
    /// The byte the matchmaking buffer stores for this phase.
    pub open spec fn code(self) -> u8 {
        match self {
            MatchmakingMode::Idle => 0,
            MatchmakingMode::Initializing => 1,
            MatchmakingMode::Matchmaking => 2,
            MatchmakingMode::OpponentConnecting => 3,
            MatchmakingMode::ConnectionSuccess => 4,
            MatchmakingMode::ErrorEncountered => 5,
        }
    }

    /// The phase a byte names, if any.
    pub open spec fn decode(v: u8) -> Option<MatchmakingMode> {
        if exists|m: MatchmakingMode| m.code() == v {
            Some(choose|m: MatchmakingMode| m.code() == v)
        } else {
            None
        }
    }

    /// Whether a search for an opponent is under way.
    pub open spec fn is_searching(self) -> bool {
        self == MatchmakingMode::Initializing || self == MatchmakingMode::Matchmaking
    }

    pub fn from_u8(v: u8) -> (r: Option<MatchmakingMode>)
        ensures
            r == MatchmakingMode::decode(v),
            r is Some <==> v <= 5,
    {
        let r = match v {
            0 => Some(MatchmakingMode::Idle),
            1 => Some(MatchmakingMode::Initializing),
            2 => Some(MatchmakingMode::Matchmaking),
            3 => Some(MatchmakingMode::OpponentConnecting),
            4 => Some(MatchmakingMode::ConnectionSuccess),
            5 => Some(MatchmakingMode::ErrorEncountered),
            _ => None,
        };
        proof {
            if let Some(m) = r {
                let c = choose|c: MatchmakingMode| c.code() == v;
                assert(m.code() == v);
                assert(c.code() == m.code());
            } else {
                assert forall|m: MatchmakingMode| m.code() != v by {
                    assert(m.code() <= 5);
                }
            }
        }
        r
    }
}

/// The online mode picked in Slippi's menu.
#[derive(Debug, Clone, Copy, PartialEq, Eq, Structural)]
pub enum SlippiMenuScene {
    Ranked,
    Unranked,
    Direct,
    Teams,
}

impl SlippiMenuScene {
    /// The byte the game stores for this online mode.
    pub open spec fn code(self) -> u8 {
        match self {
            SlippiMenuScene::Ranked => 0,
            SlippiMenuScene::Unranked => 1,
            SlippiMenuScene::Direct => 2,
            SlippiMenuScene::Teams => 3,
        }
    }

    /// The online mode a byte names, if any.
    pub open spec fn decode(v: u8) -> Option<SlippiMenuScene> {
        if exists|m: SlippiMenuScene| m.code() == v {
            Some(choose|m: SlippiMenuScene| m.code() == v)
        } else {
            None
        }
    }

    pub fn from_u8(v: u8) -> (r: Option<SlippiMenuScene>)
        ensures
            r == SlippiMenuScene::decode(v),
            r is Some <==> v <= 3,
    {
        let r = match v {
            0 => Some(SlippiMenuScene::Ranked),
            1 => Some(SlippiMenuScene::Unranked),
            2 => Some(SlippiMenuScene::Direct),
            3 => Some(SlippiMenuScene::Teams),
            _ => None,
        };
        proof {
            if let Some(m) = r {
                let c = choose|c: SlippiMenuScene| c.code() == v;
                assert(m.code() == v);
                assert(c.code() == m.code());
            } else {
                assert forall|m: SlippiMenuScene| m.code() != v by {
                    assert(m.code() <= 3);
                }
            }
        }
        r
    }

    /// The online mode's display name.
    pub open spec fn name(self) -> Seq<char> {
        match self {
            SlippiMenuScene::Ranked => "Ranked"@,
            SlippiMenuScene::Unranked => "Unranked"@,
            SlippiMenuScene::Direct => "Direct"@,
            SlippiMenuScene::Teams => "Teams"@,
        }
    }

    /// The online mode's display name.
    pub fn to_string(&self) -> (r: String)
        ensures
            r@ == self.name(),
    {
        let name = match self {
            SlippiMenuScene::Ranked => "Ranked",
            SlippiMenuScene::Unranked => "Unranked",
            SlippiMenuScene::Direct => "Direct",
            SlippiMenuScene::Teams => "Teams",
        };
        String::from_str(name)
    }
}

/// A scene of the game worth reporting.
#[derive(Debug, Clone, Copy, PartialEq, Eq, Structural)]
pub enum MeleeScene {
    VsMode,
    UnclePunch,
    TrainingMode,
    SlippiOnline,
    SlippiCss,
}

/// The known (major, minor) scene byte pairs and the scene each stands for.
pub open spec fn scene_table() -> Seq<(u8, u8, MeleeScene)> {
    seq![
        (2u8, 2u8, MeleeScene::VsMode),
        (43u8, 1u8, MeleeScene::UnclePunch),
        (28u8, 2u8, MeleeScene::TrainingMode),
        (8u8, 2u8, MeleeScene::SlippiOnline),
        (8u8, 0u8, MeleeScene::SlippiCss),
    ]
}

/// Whether the scene table lists the pair (`major`, `minor`).
pub open spec fn is_known_scene(major: u8, minor: u8) -> bool {
    exists|i: int| 0 <= i < scene_table().len() && (#[trigger] scene_table()[i]).0 == major
        && scene_table()[i].1 == minor
}

/// The scene a pair of scene bytes stands for: the one that the scene table
/// lists with the pair, if any.
pub open spec fn scene_of(major: u8, minor: u8) -> Option<MeleeScene> {
    if is_known_scene(major, minor) {
        Some(choose|s: MeleeScene| scene_table().contains((major, minor, s)))
    } else {
        None
    }
}

/// Decodes a pair of scene bytes; every pair that the scene table does not
/// list gives `None`.
pub fn scene_from_codes(major: u8, minor: u8) -> (r: Option<MeleeScene>)
    ensures
        r == scene_of(major, minor),
        forall|s: MeleeScene| r == Some(s) <==> scene_table().contains((major, minor, s)),
        !is_known_scene(major, minor) ==> r is None,
{
    let r = match (major, minor) {
        (2, 2) => Some(MeleeScene::VsMode),
        (43, 1) => Some(MeleeScene::UnclePunch),
        (28, 2) => Some(MeleeScene::TrainingMode),
        (8, 2) => Some(MeleeScene::SlippiOnline),
        (8, 0) => Some(MeleeScene::SlippiCss),
        _ => None,
    };
    proof {
        let t = scene_table();
        assert forall|s: MeleeScene| r == Some(s) <==> t.contains((major, minor, s)) by {
            if t.contains((major, minor, s)) {
                let i = choose|i: int| 0 <= i < t.len() && t[i] == (major, minor, s);
                assert(0 <= i < 5);
            }
            if r == Some(s) {
                if major == 2 && minor == 2 { assert(t[0] == (major, minor, s)); }
                if major == 43 { assert(t[1] == (major, minor, s)); }
                if major == 28 { assert(t[2] == (major, minor, s)); }
                if major == 8 && minor == 2 { assert(t[3] == (major, minor, s)); }
                if major == 8 && minor == 0 { assert(t[4] == (major, minor, s)); }
            }
        }
        if is_known_scene(major, minor) {
            let i = choose|i: int| 0 <= i < t.len() && (#[trigger] t[i]).0 == major && t[i].1 == minor;
            assert(0 <= i < 5);
            assert(t.contains((major, minor, t[i].2)));
            assert(r == Some(t[i].2));
            let c = choose|s: MeleeScene| t.contains((major, minor, s));
            assert(r == Some(c));
        } else {
            if let Some(s) = r {
                assert(t.contains((major, minor, s)));
                let i = choose|i: int| 0 <= i < t.len() && t[i] == (major, minor, s);
                assert(t[i].0 == major && t[i].1 == minor);
                assert(false);
            }
        }
    }
    r
}

/// Each pair that the scene table lists decodes to the scene listed with it.
pub proof fn lemma_scene_table_decodes(i: int)
    requires
        0 <= i < scene_table().len(),
    ensures
        scene_of(scene_table()[i].0, scene_table()[i].1) == Some(scene_table()[i].2),
{
    let t = scene_table();
    let (major, minor, s) = t[i];
    assert(t.contains((major, minor, s)));
    assert(is_known_scene(major, minor));
    let c = choose|c: MeleeScene| t.contains((major, minor, c));
    let j = choose|j: int| 0 <= j < t.len() && t[j] == (major, minor, c);
    assert(0 <= i < 5 && 0 <= j < 5);
}

impl MeleeScene {
    /// The label that a presence shows for the scene.
    pub open spec fn label(self) -> Seq<char> {
        match self {
            MeleeScene::VsMode => "Vs. Mode"@,
            MeleeScene::UnclePunch => "UnclePunch Training Mode"@,
            MeleeScene::TrainingMode => "Training Mode"@,
            MeleeScene::SlippiOnline => "Slippi Online"@,
            MeleeScene::SlippiCss => "Character Select Screen"@,
        }
    }

    /// The label that a presence shows for the scene.
    pub fn to_string(&self) -> (r: String)
        ensures
            r@ == self.label(),
    {
        let label = match self {
            MeleeScene::VsMode => "Vs. Mode",
            MeleeScene::UnclePunch => "UnclePunch Training Mode",
            MeleeScene::TrainingMode => "Training Mode",
            MeleeScene::SlippiOnline => "Slippi Online",
            MeleeScene::SlippiCss => "Character Select Screen",
        };
        String::from_str(label)
    }
}

/// A port read from memory, where it names one of the four ports.
pub open spec fn port_of(read: Option<u8>) -> Option<u8> {
    match read {
        Some(p) => if p < 4 {
            Some(p)
        } else {
            None
        },
        None => None,
    }
}

impl GameMemory {
    /// The current scene; unknown where either scene byte could not be read.
    pub open spec fn scene(self) -> Option<MeleeScene> {
        match (self.major_scene, self.minor_scene) {
            (Some(major), Some(minor)) => scene_of(major, minor),
            _ => None,
        }
    }

    /// The stage being played.
    pub open spec fn stage_played(self) -> Option<MeleeStage> {
        match self.stage {
            Some(v) => MeleeStage::decode(v),
            None => None,
        }
    }

    /// The character playing on `port`.
    pub open spec fn character_on(self, port: int) -> Option<MeleeCharacter> {
        match self.characters@[port] {
            Some(v) => MeleeCharacter::decode(v),
            None => None,
        }
    }

    /// The character picked on `port` on the character select screen.
    pub open spec fn selection_on(self, port: int) -> Option<MeleeCharacter> {
        match self.selections@[port] {
            Some(v) => MeleeCharacter::decode(v),
            None => None,
        }
    }

    /// The timer mode.
    pub open spec fn timer(self) -> TimerMode {
        timer_mode_of(self.timer_flags)
    }

    /// The timer's value in seconds; zero where it could not be read.
    pub open spec fn time(self) -> int {
        match self.game_time {
            Some(t) => t as int,
            None => 0,
        }
    }

    /// The matchmaking phase.
    pub open spec fn matchmaking(self) -> Option<MatchmakingMode> {
        match self.connection_state {
            Some(v) => MatchmakingMode::decode(v),
            None => None,
        }
    }

    /// The online mode picked in Slippi's menu.
    pub open spec fn online_scene(self) -> Option<SlippiMenuScene> {
        match self.online_scene {
            Some(v) => SlippiMenuScene::decode(v),
            None => None,
        }
    }

    /// The local player's port in `scene`: read directly in versus mode and
    /// on the character select screen, from the matchmaking buffer online,
    /// and port 0 elsewhere or where no valid port was read.
    pub open spec fn local_port(self, scene: MeleeScene) -> u8 {
        let read = match scene {
            MeleeScene::VsMode => port_of(self.player_port),
            MeleeScene::SlippiCss => port_of(self.player_port),
            MeleeScene::SlippiOnline => port_of(self.slippi_player_port),
            _ => Some(0u8),
        };
        match read {
            Some(p) => p,
            None => 0,
        }
    }

    pub fn get_melee_scene(&self) -> (r: Option<MeleeScene>)
        ensures
            r == self.scene(),
    {
        match (self.major_scene, self.minor_scene) {
            (Some(major), Some(minor)) => scene_from_codes(major, minor),
            _ => None,
        }
    }

    pub fn get_stage(&self) -> (r: Option<MeleeStage>)
        ensures
            r == self.stage_played(),
    {
        match self.stage {
            Some(v) => MeleeStage::from_u8(v),
            None => None,
        }
    }

    pub fn get_character(&self, port: u8) -> (r: Option<MeleeCharacter>)
        requires
            port < 4,
        ensures
            r == self.character_on(port as int),
    {
        match self.characters[port as usize] {
            Some(v) => MeleeCharacter::from_u8(v),
            None => None,
        }
    }

    pub fn get_character_selection(&self, port: u8) -> (r: Option<MeleeCharacter>)
        requires
            port < 4,
        ensures
            r == self.selection_on(port as int),
    {
        match self.selections[port as usize] {
            Some(v) => MeleeCharacter::from_u8(v),
            None => None,
        }
    }

    pub fn timer_mode(&self) -> (r: TimerMode)
        ensures
            r == timer_mode_of(self.timer_flags),
    {
        decode_timer_mode(self.timer_flags)
    }

    pub fn game_time(&self) -> (r: i64)
        ensures
            r == self.time(),
    {
        match self.game_time {
            Some(t) => t as i64,
            None => 0,
        }
    }

    pub fn matchmaking_type(&self) -> (r: Option<MatchmakingMode>)
        ensures
            r == self.matchmaking(),
    {
        match self.connection_state {
            Some(v) => MatchmakingMode::from_u8(v),
            None => None,
        }
    }

    pub fn slippi_online_scene(&self) -> (r: Option<SlippiMenuScene>)
        ensures
            r == self.online_scene(),
    {
        match self.online_scene {
            Some(v) => SlippiMenuScene::from_u8(v),
            None => None,
        }
    }

    pub fn get_player_port(&self) -> (r: Option<u8>)
        ensures
            r == port_of(self.player_port),
    {
        match self.player_port {
            Some(p) => if p < 4 {
                Some(p)
            } else {
                None
            },
            None => None,
        }
    }

    pub fn get_slippi_player_port(&self) -> (r: Option<u8>)
        ensures
            r == port_of(self.slippi_player_port),
    {
        match self.slippi_player_port {
            Some(p) => if p < 4 {
                Some(p)
            } else {
                None
            },
            None => None,
        }
    }

    pub fn get_local_port(&self, scene: MeleeScene) -> (r: u8)
        ensures
            r == self.local_port(scene),
            r < 4,
    {
        let read = match scene {
            MeleeScene::VsMode => self.get_player_port(),
            MeleeScene::SlippiCss => self.get_player_port(),
            MeleeScene::SlippiOnline => self.get_slippi_player_port(),
            _ => Some(0u8),
        };
        match read {
            Some(p) => p,
            None => 0,
        }
    }
}

/// Whether the settings let a game in `scene` be shown: versus mode,
/// UnclePunch and training mode each by their own toggle; Slippi Online by
/// its toggle and that of the online mode picked, which counts as on where
/// the online mode is not known. The character select screen shows no game.
pub open spec fn reports_game(scene: MeleeScene, online: Option<SlippiMenuScene>, c: AppConfig) -> bool {
    match scene {
        MeleeScene::VsMode => c.vs_mode.enabled,
        MeleeScene::UnclePunch => c.uncle_punch.enabled,
        MeleeScene::TrainingMode => c.training_mode.enabled,
        MeleeScene::SlippiOnline => c.slippi.enabled && match online {
            Some(SlippiMenuScene::Ranked) => c.slippi.ranked.enabled,
            Some(SlippiMenuScene::Unranked) => c.slippi.unranked.enabled,
            Some(SlippiMenuScene::Direct) => c.slippi.direct.enabled,
            Some(SlippiMenuScene::Teams) => c.slippi.teams.enabled,
            None => true,
        },
        MeleeScene::SlippiCss => false,
    }
}

/// Whether a search for an opponent is under way in the phase `m`.
pub open spec fn searching(m: Option<MatchmakingMode>) -> bool {
    match m {
        Some(p) => p.is_searching(),
        None => false,
    }
}

/// `x`, held to the range of `i64`.
pub open spec fn clamp_i64(x: int) -> i64 {
    if x > i64::MAX {
        i64::MAX
    } else if x < i64::MIN {
        i64::MIN
    } else {
        x as i64
    }
}

/// The timestamp of a game whose timer shows `time` seconds at Unix time
/// `now`: none where the time is not to be shown; else the end of the match
/// while the timer counts down, and its start otherwise, which stays put
/// while the timer is frozen.
pub open spec fn game_timestamp(timer: TimerMode, time: int, now: i64, show_time: bool) -> DiscordClientRequestTimestamp {
    if !show_time {
        DiscordClientRequestTimestamp::none_spec()
    } else if timer == TimerMode::Countdown {
        DiscordClientRequestTimestamp {
            mode: DiscordClientRequestTimestampMode::End,
            timestamp: clamp_i64(now + time),
        }
    } else {
        DiscordClientRequestTimestamp {
            mode: if timer == TimerMode::Frozen {
                DiscordClientRequestTimestampMode::Static
            } else {
                DiscordClientRequestTimestampMode::Start
            },
            timestamp: clamp_i64(now - time),
        }
    }
}

/// The one request that a poll of `mem` at Unix time `now` gives under the
/// settings `c`.
pub open spec fn presence_for(mem: GameMemory, c: AppConfig, now: i64) -> PresenceView {
    match mem.scene() {
        None => clear_view(),
        Some(scene) => if scene == MeleeScene::SlippiCss {
            if c.slippi.show_queueing && searching(mem.matchmaking()) {
                queue_view(mem.online_scene(), mem.selection_on(mem.local_port(scene) as int))
            } else {
                clear_view()
            }
        } else if reports_game(scene, mem.online_scene(), c) {
            game_view(
                mem.stage_played(),
                if c.global.show_in_game_character {
                    mem.character_on(mem.local_port(scene) as int)
                } else {
                    None
                },
                scene,
                game_timestamp(mem.timer(), mem.time(), now, c.global.show_in_game_time),
            )
        } else {
            clear_view()
        },
    }
}

/// Whether `scene` may be shown as a game under the settings `c`.
pub fn scene_enabled(scene: MeleeScene, online: Option<SlippiMenuScene>, c: &AppConfig) -> (r: bool)
    ensures
        r == reports_game(scene, online, *c),
{
    match scene {
        MeleeScene::VsMode => c.vs_mode.enabled,
        MeleeScene::UnclePunch => c.uncle_punch.enabled,
        MeleeScene::TrainingMode => c.training_mode.enabled,
        MeleeScene::SlippiOnline => c.slippi.enabled && match online {
            Some(SlippiMenuScene::Ranked) => c.slippi.ranked.enabled,
            Some(SlippiMenuScene::Unranked) => c.slippi.unranked.enabled,
            Some(SlippiMenuScene::Direct) => c.slippi.direct.enabled,
            Some(SlippiMenuScene::Teams) => c.slippi.teams.enabled,
            None => true,
        },
        MeleeScene::SlippiCss => false,
    }
}

/// The timestamp of a game whose timer is in mode `timer` and shows `time`
/// seconds at Unix time `now`.
pub fn timestamp_for(timer: TimerMode, time: i64, now: i64, show_time: bool) -> (r: DiscordClientRequestTimestamp)
    requires
        0 <= time <= u32::MAX,
    ensures
        r == game_timestamp(timer, time as int, now, show_time),
{
    if !show_time {
        DiscordClientRequestTimestamp::none()
    } else if timer == TimerMode::Countdown {
        let value = if now > i64::MAX - time {
            i64::MAX
        } else {
            now + time
        };
        DiscordClientRequestTimestamp { mode: DiscordClientRequestTimestampMode::End, timestamp: value }
    } else {
        let value = if now < i64::MIN + time {
            i64::MIN
        } else {
            now - time
        };
        let mode = if timer == TimerMode::Frozen {
            DiscordClientRequestTimestampMode::Static
        } else {
            DiscordClientRequestTimestampMode::Start
        };
        DiscordClientRequestTimestamp { mode, timestamp: value }
    }
}

impl GameMemory {
    /// Builds the one request that this poll gives under the settings `c` at
    /// Unix time `now`.
    pub fn presence_request(&self, c: &AppConfig, now: i64) -> (r: DiscordClientRequest)
        ensures
            r@ == presence_for(*self, *c, now),
    {
        match self.get_melee_scene() {
            None => DiscordClientRequest::clear(),
            Some(scene) => {
                if scene == MeleeScene::SlippiCss {
                    let searching = match self.matchmaking_type() {
                        Some(MatchmakingMode::Initializing) => true,
                        Some(MatchmakingMode::Matchmaking) => true,
                        _ => false,
                    };
                    if c.slippi.show_queueing && searching {
                        let port = self.get_local_port(scene);
                        DiscordClientRequest::queue(
                            self.slippi_online_scene(),
                            self.get_character_selection(port),
                        )
                    } else {
                        DiscordClientRequest::clear()
                    }
                } else if scene_enabled(scene, self.slippi_online_scene(), c) {
                    let character = if c.global.show_in_game_character {
                        self.get_character(self.get_local_port(scene))
                    } else {
                        None
                    };
                    let timestamp = timestamp_for(
                        self.timer_mode(),
                        self.game_time(),
                        now,
                        c.global.show_in_game_time,
                    );
                    DiscordClientRequest::game(self.get_stage(), character, scene, timestamp)
                } else {
                    DiscordClientRequest::clear()
                }
            },
        }
    }
}

/// Whether `candidate` is worth sending while `last` is the request last
/// sent: it does not count as the same.
pub open spec fn emits(last: PresenceView, candidate: PresenceView) -> bool {
    !last.same_as(candidate)
}

/// The request remembered as last sent after `candidate` was offered.
pub open spec fn remembered(last: PresenceView, candidate: PresenceView) -> PresenceView {
    if emits(last, candidate) {
        candidate
    } else {
        last
    }
}

/// Turns polls of the game into the requests worth sending, remembering the
/// last one sent.
pub struct MeleeClient {
    last_payload: DiscordClientRequest,
}

impl MeleeClient {
    /// The request last sent.
    pub closed spec fn last(self) -> PresenceView {
        self.last_payload@
    }

    /// A client that has sent nothing yet; it counts as having cleared the
    /// presence.
    pub fn new() -> (r: Self)
        ensures
            r.last() == clear_view(),
    {
        MeleeClient { last_payload: DiscordClientRequest::clear() }
    }

    /// The request last sent.
    pub fn last_payload(&self) -> (r: &DiscordClientRequest)
        ensures
            r@ == self.last(),
    {
        &self.last_payload
    }

    /// Offers a request: it is returned, to be sent, and remembered, unless it
    /// counts as the same as the request last sent.
    pub fn offer(&mut self, req: DiscordClientRequest) -> (r: Option<DiscordClientRequest>)
        ensures
            r is Some <==> emits(old(self).last(), req@),
            r matches Some(x) ==> x@ == req@,
            final(self).last() == remembered(old(self).last(), req@),
    {
        if self.last_payload.eq(&req) {
            None
        } else {
            let sent = req.duplicate();
            self.last_payload = req;
            Some(sent)
        }
    }

    /// One poll: builds the request for `mem` under the settings `c` at Unix
    /// time `now`, and offers it.
    pub fn tick(&mut self, mem: &GameMemory, c: &AppConfig, now: i64) -> (r: Option<DiscordClientRequest>)
        ensures
            r is Some <==> emits(old(self).last(), presence_for(*mem, *c, now)),
            r matches Some(x) ==> x@ == presence_for(*mem, *c, now),
            final(self).last() == remembered(old(self).last(), presence_for(*mem, *c, now)),
    {
        let req = mem.presence_request(c, now);
        self.offer(req)
    }
}

/// Offering the same request twice in a row sends it at most once: whatever
/// was remembered before, the second offer sends nothing.
pub proof fn lemma_repeat_not_sent(last: PresenceView, req: PresenceView)
    ensures
        !emits(remembered(last, req), req),
{
}

/// Two game requests that differ at most in the value of a running (start or
/// end) timestamp, offered one after the other where the first is new: the
/// first is sent, and the second is sent too exactly when the two values lie
/// the tolerance or more apart.
pub proof fn lemma_running_timestamp_drift(last: PresenceView, a: PresenceView, b: PresenceView)
    requires
        a.req_type == DiscordClientRequestType::Game,
        a.timestamp.mode != DiscordClientRequestTimestampMode::Static,
        b == (PresenceView {
            timestamp: DiscordClientRequestTimestamp {
                mode: a.timestamp.mode,
                timestamp: b.timestamp.timestamp,
            },
            ..a
        }),
        !last.same_as(a),
    ensures
        emits(last, a),
        emits(remembered(last, a), b) <==> (a.timestamp.timestamp - b.timestamp.timestamp
            >= TIMESTAMP_TOLERANCE || b.timestamp.timestamp - a.timestamp.timestamp
            >= TIMESTAMP_TOLERANCE),
{
}

/// Static timestamps never cause a resend on their own: a request that
/// differs from one just offered only in the value of its static timestamp
/// is not sent.
pub proof fn lemma_static_drift_not_sent(last: PresenceView, a: PresenceView, b: PresenceView)
    requires
        a.timestamp.mode == DiscordClientRequestTimestampMode::Static,
        b == (PresenceView {
            timestamp: DiscordClientRequestTimestamp {
                mode: a.timestamp.mode,
                timestamp: b.timestamp.timestamp,
            },
            ..a
        }),
    ensures
        !emits(remembered(last, a), b),
{
}

/// With ranked play switched off, a ranked online game gives a clear
/// request, whatever stage and characters were read.
pub proof fn lemma_ranked_off_clears(mem: GameMemory, c: AppConfig, now: i64)
    requires
        mem.scene() == Some(MeleeScene::SlippiOnline),
        mem.online_scene() == Some(SlippiMenuScene::Ranked),
        !c.slippi.ranked.enabled,
    ensures
        presence_for(mem, c, now) == clear_view(),
{
}

/// A scene byte that could not be read counts as an unknown scene: the poll
/// gives the clear request, as it does once the game process is lost.
pub proof fn lemma_unreadable_scene_clears(mem: GameMemory, c: AppConfig, now: i64)
    requires
        mem.major_scene is None || mem.minor_scene is None,
    ensures
        mem.scene() is None,
        presence_for(mem, c, now) == clear_view(),
{
}

/// Leaving a game for an unknown scene sends exactly one clear request: the
/// first poll of an unknown scene sends it, and no later poll of an unknown
/// scene sends anything.
pub proof fn lemma_unknown_scene_clears_once(
    last: PresenceView,
    mem: GameMemory,
    later: GameMemory,
    c: AppConfig,
    now: i64,
    later_now: i64,
)
    requires
        last.req_type == DiscordClientRequestType::Game,
        mem.scene() is None,
        later.scene() is None,
    ensures
        presence_for(mem, c, now) == clear_view(),
        emits(last, presence_for(mem, c, now)),
        !emits(remembered(last, presence_for(mem, c, now)), presence_for(later, c, later_now)),
{
}

} // verus!
