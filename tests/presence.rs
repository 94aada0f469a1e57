use slippi_presence::character::MeleeCharacter;
use slippi_presence::config::AppConfig;
use slippi_presence::discord::{
    DiscordClientRequest, DiscordClientRequestTimestamp, DiscordClientRequestTimestampMode,
    DiscordClientRequestType,
};
use slippi_presence::melee::{MeleeClient, MeleeScene, SlippiMenuScene, TimerMode};
use slippi_presence::melee::timestamp_for;
use slippi_presence::memory::GameMemory;
use slippi_presence::stage::MeleeStage;
use slippi_presence::supervisor::{
    on_worker_exit, poll_action, PollAction, SupervisorAction, WorkerOutcome, RESTART_BACKOFF_MS,
};
use slippi_presence::util::current_unix_time;

const NOW: i64 = 1_700_000_000;

fn vs_mode_memory() -> GameMemory {
    let mut m = GameMemory::unreadable();
    m.major_scene = Some(2);
    m.minor_scene = Some(2);
    m.stage = Some(36);
    m.player_port = Some(0);
    m.characters = [Some(0x02), Some(0x09), None, None];
    m.timer_flags = Some(0b11);
    m.game_time = Some(37);
    m
}

fn css_memory() -> GameMemory {
    let mut m = GameMemory::unreadable();
    m.major_scene = Some(8);
    m.minor_scene = Some(0);
    m.connection_state = Some(2);
    m.player_port = Some(1);
    m.selections = [Some(0x02), Some(0x09), None, None];
    m.online_scene = Some(0);
    m
}

fn online_memory(online_scene: u8) -> GameMemory {
    let mut m = GameMemory::unreadable();
    m.major_scene = Some(8);
    m.minor_scene = Some(2);
    m.stage = Some(37);
    m.slippi_player_port = Some(1);
    m.characters = [Some(0x02), Some(0x14), None, None];
    m.game_time = Some(100);
    m.online_scene = Some(online_scene);
    m
}

fn game(time: i64, mode: DiscordClientRequestTimestampMode) -> DiscordClientRequest {
    DiscordClientRequest::game(
        Some(MeleeStage::Battle),
        Some(MeleeCharacter::Fox),
        MeleeScene::VsMode,
        DiscordClientRequestTimestamp { mode, timestamp: time },
    )
}

#[test]
fn scenario_vs_mode_game() {
    let mut client = MeleeClient::new();
    let sent = client.tick(&vs_mode_memory(), &AppConfig::default(), NOW).expect("a game request");
    assert_eq!(sent.req_type, DiscordClientRequestType::Game);
    assert_eq!(sent.mode, "Vs. Mode");
    assert_eq!(sent.stage.0, Some(MeleeStage::Battle));
    assert_eq!(sent.character.0, Some(MeleeCharacter::Fox));
    assert_eq!(sent.timestamp.mode, DiscordClientRequestTimestampMode::Start);
    assert_eq!(sent.timestamp.timestamp, NOW - 37);
    assert_eq!(sent.scene, None);
    // one poll later, with the timer one second further: nothing new
    let mut later = vs_mode_memory();
    later.game_time = Some(38);
    assert!(client.tick(&later, &AppConfig::default(), NOW + 1).is_none());
}

#[test]
fn scenario_queue_on_character_select() {
    let mut client = MeleeClient::new();
    let sent = client.tick(&css_memory(), &AppConfig::default(), NOW).expect("a queue request");
    assert_eq!(sent.req_type, DiscordClientRequestType::Queue);
    assert_eq!(sent.character.0, Some(MeleeCharacter::Marth));
    assert_eq!(sent.scene, Some(SlippiMenuScene::Ranked));
    assert_eq!(sent.stage.0, None);
    assert!(client.tick(&css_memory(), &AppConfig::default(), NOW + 1).is_none());
}

#[test]
fn scenario_leaving_game_clears_once() {
    let mut client = MeleeClient::new();
    let c = AppConfig::default();
    assert!(client.tick(&vs_mode_memory(), &c, NOW).is_some());
    let mut unknown = vs_mode_memory();
    unknown.major_scene = Some(0);
    unknown.minor_scene = Some(0);
    let cleared = client.tick(&unknown, &c, NOW + 1).expect("a clear request");
    assert_eq!(cleared.req_type, DiscordClientRequestType::Clear);
    for i in 2..10 {
        assert!(client.tick(&unknown, &c, NOW + i).is_none());
    }
    assert!(client.tick(&GameMemory::unreadable(), &c, NOW + 20).is_none());
}

#[test]
fn same_game_twice_sent_once() {
    let mut client = MeleeClient::new();
    assert!(client.offer(game(NOW, DiscordClientRequestTimestampMode::Start)).is_some());
    assert!(client.offer(game(NOW, DiscordClientRequestTimestampMode::Start)).is_none());
}

#[test]
fn start_timestamps_at_tolerance_sent_twice() {
    let mut client = MeleeClient::new();
    assert!(client.offer(game(NOW, DiscordClientRequestTimestampMode::Start)).is_some());
    assert!(client.offer(game(NOW + 15, DiscordClientRequestTimestampMode::Start)).is_some());
    assert_eq!(client.last_payload().timestamp.timestamp, NOW + 15);
    assert!(client.offer(game(NOW, DiscordClientRequestTimestampMode::Start)).is_some());
}

#[test]
fn start_timestamps_within_tolerance_sent_once() {
    let mut client = MeleeClient::new();
    assert!(client.offer(game(NOW, DiscordClientRequestTimestampMode::Start)).is_some());
    assert!(client.offer(game(NOW + 14, DiscordClientRequestTimestampMode::Start)).is_none());
    assert!(client.offer(game(NOW - 14, DiscordClientRequestTimestampMode::Start)).is_none());
    assert_eq!(client.last_payload().timestamp.timestamp, NOW);
    assert!(client.offer(game(NOW - 15, DiscordClientRequestTimestampMode::End)).is_some());
}

#[test]
fn static_timestamps_never_resent() {
    let mut client = MeleeClient::new();
    assert!(client.offer(game(NOW, DiscordClientRequestTimestampMode::Static)).is_some());
    assert!(client.offer(game(NOW + 1000, DiscordClientRequestTimestampMode::Static)).is_none());
    assert!(client.offer(game(0, DiscordClientRequestTimestampMode::Static)).is_none());
    assert!(client.offer(game(i64::MAX, DiscordClientRequestTimestampMode::Static)).is_none());
}

#[test]
fn timestamp_equality() {
    let a = DiscordClientRequestTimestamp { mode: DiscordClientRequestTimestampMode::Start, timestamp: 100 };
    let b = DiscordClientRequestTimestamp { mode: DiscordClientRequestTimestampMode::Start, timestamp: 114 };
    let c = DiscordClientRequestTimestamp { mode: DiscordClientRequestTimestampMode::Start, timestamp: 115 };
    let d = DiscordClientRequestTimestamp { mode: DiscordClientRequestTimestampMode::End, timestamp: 100 };
    assert!(a == b);
    assert!(a != c);
    // a start and an end are compared by value alone
    assert!(a == d);
    assert!(d == b);
    assert!(d != c);
    // static timestamps match each other only
    let s1 = DiscordClientRequestTimestamp { mode: DiscordClientRequestTimestampMode::Static, timestamp: 100 };
    let s2 = DiscordClientRequestTimestamp { mode: DiscordClientRequestTimestampMode::Static, timestamp: 9999 };
    assert!(s1 == s2);
    assert!(s1 != a);
    assert!(a != s1);
    assert!(s1 != d);
    let e = DiscordClientRequestTimestamp { mode: DiscordClientRequestTimestampMode::Start, timestamp: i64::MIN };
    let f = DiscordClientRequestTimestamp { mode: DiscordClientRequestTimestampMode::Start, timestamp: i64::MAX };
    assert!(e != f);
}

#[test]
fn ranked_disabled_clears() {
    let mut c = AppConfig::default();
    c.slippi.ranked.enabled = false;
    let r = online_memory(0).presence_request(&c, NOW);
    assert_eq!(r.req_type, DiscordClientRequestType::Clear);
    assert_eq!(r.stage.0, None);
    assert_eq!(r.character.0, None);
    assert_eq!(r.mode, "");
    // unranked is still shown
    let r = online_memory(1).presence_request(&c, NOW);
    assert_eq!(r.req_type, DiscordClientRequestType::Game);
    assert_eq!(r.mode, "Slippi Online");
    assert_eq!(r.stage.0, Some(MeleeStage::FD));
    assert_eq!(r.character.0, Some(MeleeCharacter::Falco));
}

#[test]
fn online_mode_unknown_counts_as_enabled() {
    let mut c = AppConfig::default();
    c.slippi.ranked.enabled = false;
    c.slippi.unranked.enabled = false;
    c.slippi.direct.enabled = false;
    c.slippi.teams.enabled = false;
    let r = online_memory(9).presence_request(&c, NOW);
    assert_eq!(r.req_type, DiscordClientRequestType::Game);
    c.slippi.enabled = false;
    let r = online_memory(9).presence_request(&c, NOW);
    assert_eq!(r.req_type, DiscordClientRequestType::Clear);
}

#[test]
fn mode_toggles_clear() {
    let mut c = AppConfig::default();
    c.vs_mode.enabled = false;
    assert_eq!(vs_mode_memory().presence_request(&c, NOW).req_type, DiscordClientRequestType::Clear);
    let mut m = vs_mode_memory();
    m.major_scene = Some(28);
    assert_eq!(m.presence_request(&c, NOW).req_type, DiscordClientRequestType::Game);
    c.training_mode.enabled = false;
    assert_eq!(m.presence_request(&c, NOW).req_type, DiscordClientRequestType::Clear);
    m.major_scene = Some(43);
    m.minor_scene = Some(1);
    assert_eq!(m.presence_request(&c, NOW).mode, "UnclePunch Training Mode");
    c.uncle_punch.enabled = false;
    assert_eq!(m.presence_request(&c, NOW).req_type, DiscordClientRequestType::Clear);
}

#[test]
fn hidden_character_and_time() {
    let mut c = AppConfig::default();
    c.global.show_in_game_character = false;
    c.global.show_in_game_time = false;
    let r = vs_mode_memory().presence_request(&c, NOW);
    assert_eq!(r.req_type, DiscordClientRequestType::Game);
    assert_eq!(r.character.0, None);
    assert_eq!(r.timestamp.mode, DiscordClientRequestTimestampMode::Static);
    assert_eq!(r.timestamp.timestamp, 0);
}

#[test]
fn local_port_picks_character() {
    let mut m = vs_mode_memory();
    m.player_port = Some(1);
    let r = m.presence_request(&AppConfig::default(), NOW);
    assert_eq!(r.character.0, Some(MeleeCharacter::Marth));
    // a port out of range or unread falls back to port 0
    m.player_port = Some(7);
    assert_eq!(m.presence_request(&AppConfig::default(), NOW).character.0, Some(MeleeCharacter::Fox));
    m.player_port = None;
    assert_eq!(m.presence_request(&AppConfig::default(), NOW).character.0, Some(MeleeCharacter::Fox));
    // training mode always reports port 0
    m.major_scene = Some(28);
    m.player_port = Some(1);
    assert_eq!(m.presence_request(&AppConfig::default(), NOW).character.0, Some(MeleeCharacter::Fox));
}

#[test]
fn timer_modes_set_timestamp() {
    let mut m = vs_mode_memory();
    m.timer_flags = Some(0b10);
    let r = m.presence_request(&AppConfig::default(), NOW);
    assert_eq!(r.timestamp.mode, DiscordClientRequestTimestampMode::End);
    assert_eq!(r.timestamp.timestamp, NOW + 37);
    m.timer_flags = Some(0);
    let r = m.presence_request(&AppConfig::default(), NOW);
    assert_eq!(r.timestamp.mode, DiscordClientRequestTimestampMode::Static);
    assert_eq!(r.timestamp.timestamp, NOW - 37);
    m.timer_flags = Some(1);
    assert_eq!(m.presence_request(&AppConfig::default(), NOW).timestamp.mode, DiscordClientRequestTimestampMode::Start);
    m.game_time = None;
    assert_eq!(m.presence_request(&AppConfig::default(), NOW).timestamp.timestamp, NOW);
}

#[test]
fn timestamps_saturate() {
    let t = timestamp_for(TimerMode::Countdown, u32::MAX as i64, i64::MAX - 5, true);
    assert_eq!(t.timestamp, i64::MAX);
    let t = timestamp_for(TimerMode::Countup, u32::MAX as i64, i64::MIN + 5, true);
    assert_eq!(t.timestamp, i64::MIN);
    let t = timestamp_for(TimerMode::Countup, 10, 100, true);
    assert_eq!(t.timestamp, 90);
}

#[test]
fn queue_only_while_searching() {
    let c = AppConfig::default();
    let mut m = css_memory();
    m.connection_state = Some(1);
    assert_eq!(m.presence_request(&c, NOW).req_type, DiscordClientRequestType::Queue);
    for state in [Some(0u8), Some(3), Some(4), Some(5), Some(200), None] {
        m.connection_state = state;
        assert_eq!(m.presence_request(&c, NOW).req_type, DiscordClientRequestType::Clear);
    }
    let mut quiet = AppConfig::default();
    quiet.slippi.show_queueing = false;
    assert_eq!(css_memory().presence_request(&quiet, NOW).req_type, DiscordClientRequestType::Clear);
}

#[test]
fn fresh_client_counts_as_cleared() {
    let client = MeleeClient::new();
    assert_eq!(client.last_payload().req_type, DiscordClientRequestType::Clear);
    let mut client = MeleeClient::new();
    assert!(client.offer(DiscordClientRequest::clear()).is_none());
    assert!(client.tick(&GameMemory::unreadable(), &AppConfig::default(), NOW).is_none());
}

#[test]
fn fault_sends_one_clear_then_polls() {
    let clear = match on_worker_exit(WorkerOutcome::Faulted) {
        SupervisorAction::Restart { clear, backoff_ms } => {
            assert_eq!(backoff_ms, RESTART_BACKOFF_MS);
            assert_eq!(backoff_ms, 500);
            clear
        }
        SupervisorAction::Stop => panic!("a fault restarts the loop"),
    };
    assert_eq!(clear.req_type, DiscordClientRequestType::Clear);
    let mut fresh = MeleeClient::new();
    let c = AppConfig::default();
    assert!(fresh.tick(&GameMemory::unreadable(), &c, NOW).is_none());
    assert!(fresh.tick(&GameMemory::unreadable(), &c, NOW + 1).is_none());
    assert!(fresh.tick(&vs_mode_memory(), &c, NOW + 2).is_some());
}

#[test]
fn normal_exit_ends_supervision() {
    assert!(matches!(on_worker_exit(WorkerOutcome::Finished), SupervisorAction::Stop));
    assert!(matches!(on_worker_exit(WorkerOutcome::Cancelled), SupervisorAction::Stop));
}

#[test]
fn poll_actions() {
    assert_eq!(poll_action(true, true), PollAction::Stop);
    assert_eq!(poll_action(true, false), PollAction::Stop);
    assert_eq!(poll_action(false, false), PollAction::Search);
    assert_eq!(poll_action(false, true), PollAction::Probe);
}

#[test]
fn default_config_shows_everything() {
    let c = AppConfig::default();
    assert!(c.global.show_in_game_character && c.global.show_in_game_time);
    assert!(c.slippi.enabled && c.slippi.show_queueing && c.slippi.ranked.enabled);
    assert!(c.slippi.ranked.show_rank && c.slippi.ranked.show_score);
    assert!(c.slippi.ranked.show_view_ranked_profile_button);
    assert!(c.slippi.unranked.enabled && c.slippi.direct.enabled && c.slippi.teams.enabled);
    assert!(c.uncle_punch.enabled && c.vs_mode.enabled && c.training_mode.enabled);
}

#[test]
fn clock_reads_present_time() {
    assert!(current_unix_time() > 1_600_000_000);
}

#[test]
fn losing_the_process_clears_once() {
    let mut client = MeleeClient::new();
    let c = AppConfig::default();
    assert!(client.tick(&vs_mode_memory(), &c, NOW).is_some());
    let cleared = client.tick(&GameMemory::unreadable(), &c, NOW + 1).expect("a clear request");
    assert_eq!(cleared.req_type, DiscordClientRequestType::Clear);
    assert!(client.tick(&GameMemory::unreadable(), &c, NOW + 2).is_none());
}

#[test]
fn failed_scene_read_is_unknown() {
    let c = AppConfig::default();
    let mut m = css_memory();
    m.minor_scene = None;
    assert_eq!(m.get_melee_scene(), None);
    assert_eq!(m.presence_request(&c, NOW).req_type, DiscordClientRequestType::Clear);
    let mut m = vs_mode_memory();
    m.major_scene = None;
    assert_eq!(m.get_melee_scene(), None);
    assert_eq!(m.presence_request(&c, NOW).req_type, DiscordClientRequestType::Clear);
    let mut client = MeleeClient::new();
    assert!(client.tick(&vs_mode_memory(), &c, NOW).is_some());
    let mut lost = vs_mode_memory();
    lost.minor_scene = None;
    let cleared = client.tick(&lost, &c, NOW + 1).expect("a clear request");
    assert_eq!(cleared.req_type, DiscordClientRequestType::Clear);
}

#[test]
fn start_and_end_with_close_values_not_resent() {
    let mut client = MeleeClient::new();
    assert!(client.offer(game(NOW, DiscordClientRequestTimestampMode::Start)).is_some());
    assert!(client.offer(game(NOW + 3, DiscordClientRequestTimestampMode::End)).is_none());
    assert!(client.offer(game(NOW, DiscordClientRequestTimestampMode::Static)).is_some());
}
