use slippi_presence::activity::{game_activity, queue_activity};
use slippi_presence::character::{MeleeCharacter, OptionalMeleeCharacter};
use slippi_presence::discord::{
    DiscordClientRequest, DiscordClientRequestTimestamp, DiscordClientRequestTimestampMode,
    DiscordClientRequestType,
};
use slippi_presence::melee::SlippiMenuScene;
use slippi_presence::stage::{MeleeStage, OptionalMeleeStage};

#[test]
fn game_payload() {
    let p = game_activity(
        &OptionalMeleeStage(Some(MeleeStage::Battle)),
        &OptionalMeleeCharacter(Some(MeleeCharacter::Fox)),
        "Vs. Mode",
        DiscordClientRequestTimestamp { mode: DiscordClientRequestTimestampMode::Start, timestamp: 963 },
    );
    assert_eq!(p.details, "Vs. Mode");
    assert_eq!(p.state, "In Game");
    assert_eq!(p.large_image, "stage36");
    assert_eq!(p.large_text, "Battlefield");
    assert_eq!(p.small_image, "char2");
    assert_eq!(p.small_text, "Fox");
    assert_eq!(p.start, Some(963));
    assert_eq!(p.end, None);
}

#[test]
fn game_payload_counting_down() {
    let p = game_activity(
        &OptionalMeleeStage(None),
        &OptionalMeleeCharacter(None),
        "Slippi Online",
        DiscordClientRequestTimestamp { mode: DiscordClientRequestTimestampMode::End, timestamp: 1480 },
    );
    assert_eq!(p.large_image, "questionmark");
    assert_eq!(p.large_text, "Unknown stage");
    assert_eq!(p.small_image, "questionmark");
    assert_eq!(p.small_text, "Unknown character");
    assert_eq!(p.start, None);
    assert_eq!(p.end, Some(1480));
}

#[test]
fn queue_payload() {
    let p = queue_activity(Some(SlippiMenuScene::Unranked), &OptionalMeleeCharacter(Some(MeleeCharacter::Marth)), 500);
    assert_eq!(p.details, "Unranked");
    assert_eq!(p.state, "In Queue");
    assert_eq!(p.large_image, "");
    assert_eq!(p.small_image, "char9");
    assert_eq!(p.small_text, "Marth");
    assert_eq!(p.start, Some(500));
    assert_eq!(p.end, None);
    let p = queue_activity(None, &OptionalMeleeCharacter(None), 7);
    assert_eq!(p.details, "");
}

#[test]
fn default_request_is_clear() {
    let r = DiscordClientRequest::default();
    assert_eq!(r.req_type, DiscordClientRequestType::Clear);
    assert_eq!(r.mode, "");
    assert_eq!(r.stage.0, None);
    assert_eq!(r.character.0, None);
    assert_eq!(r.scene, None);
    assert!(r == DiscordClientRequest::clear());
    let copy = r.duplicate();
    assert!(copy == r);
}
