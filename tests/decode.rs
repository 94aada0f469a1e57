use slippi_presence::character::{MeleeCharacter, OptionalMeleeCharacter};
use slippi_presence::melee::{
    decode_timer_mode, scene_from_codes, MatchmakingMode, MeleeScene, SlippiMenuScene, TimerMode,
};
use slippi_presence::stage::{MeleeStage, OptionalMeleeStage};

#[test]
fn unknown_scene_pairs_decode_to_nothing() {
    let known = [(2u8, 2u8), (43, 1), (28, 2), (8, 2), (8, 0)];
    for major in 0..=255u8 {
        for minor in 0..=255u8 {
            let r = scene_from_codes(major, minor);
            assert_eq!(r.is_some(), known.contains(&(major, minor)), "{major} {minor}");
        }
    }
}

#[test]
fn known_scene_pairs() {
    assert_eq!(scene_from_codes(2, 2), Some(MeleeScene::VsMode));
    assert_eq!(scene_from_codes(43, 1), Some(MeleeScene::UnclePunch));
    assert_eq!(scene_from_codes(28, 2), Some(MeleeScene::TrainingMode));
    assert_eq!(scene_from_codes(8, 2), Some(MeleeScene::SlippiOnline));
    assert_eq!(scene_from_codes(8, 0), Some(MeleeScene::SlippiCss));
    assert_eq!(scene_from_codes(0, 0), None);
    assert_eq!(scene_from_codes(2, 0), None);
}

#[test]
fn stage_codes_round_trip() {
    let mut valid = 0;
    for v in 0..=255u8 {
        match MeleeStage::from_u8(v) {
            Some(s) => {
                valid += 1;
                assert_eq!(s.to_u8(), v);
            }
            None => {
                let expected_invalid = !((2..=22).contains(&v) || (24..=30).contains(&v) || v == 36 || v == 37);
                assert!(expected_invalid, "{v}");
            }
        }
    }
    assert_eq!(valid, 30);
    assert_eq!(MeleeStage::from_u8(36), Some(MeleeStage::Battle));
    assert_eq!(MeleeStage::from_u8(37), Some(MeleeStage::FD));
    assert_eq!(MeleeStage::from_u8(2), Some(MeleeStage::Castle));
    assert_eq!(MeleeStage::from_u8(23), None);
    assert_eq!(MeleeStage::from_u8(1), None);
}

#[test]
fn character_codes_round_trip() {
    for v in 0..=255u8 {
        match MeleeCharacter::from_u8(v) {
            Some(c) => assert_eq!(c.to_u8(), v),
            None => assert!(v >= 26, "{v}"),
        }
    }
    assert_eq!(MeleeCharacter::from_u8(0x02), Some(MeleeCharacter::Fox));
    assert_eq!(MeleeCharacter::from_u8(0x09), Some(MeleeCharacter::Marth));
    assert_eq!(MeleeCharacter::from_u8(0x00), Some(MeleeCharacter::CaptainFalcon));
    assert_eq!(MeleeCharacter::from_u8(0x19), Some(MeleeCharacter::Ganondorf));
    assert_eq!(MeleeCharacter::from_u8(0x1a), None);
}

#[test]
fn names_and_resources() {
    assert_eq!(MeleeStage::Battle.to_string(), "Battlefield");
    assert_eq!(MeleeStage::OldStory.to_string(), "Yoshi's Island (N64)");
    assert_eq!(OptionalMeleeStage(Some(MeleeStage::Battle)).as_discord_resource(), "stage36");
    assert_eq!(OptionalMeleeStage(Some(MeleeStage::Castle)).as_discord_resource(), "stage2");
    assert_eq!(OptionalMeleeStage(None).as_discord_resource(), "questionmark");
    assert_eq!(OptionalMeleeStage(None).to_string(), "Unknown stage");
    assert_eq!(MeleeCharacter::MrGameAndWatch.to_string(), "Mr. Game & Watch");
    assert_eq!(OptionalMeleeCharacter(Some(MeleeCharacter::Fox)).as_discord_resource(), "char2");
    assert_eq!(OptionalMeleeCharacter(Some(MeleeCharacter::Ganondorf)).as_discord_resource(), "char25");
    assert_eq!(OptionalMeleeCharacter(None).as_discord_resource(), "questionmark");
    assert_eq!(OptionalMeleeCharacter(Some(MeleeCharacter::DrMario)).to_string(), "Dr. Mario");
    assert_eq!(MeleeScene::VsMode.to_string(), "Vs. Mode");
    assert_eq!(MeleeScene::SlippiCss.to_string(), "Character Select Screen");
    assert_eq!(SlippiMenuScene::Ranked.to_string(), "Ranked");
}

#[test]
fn timer_mode_priority() {
    assert_eq!(decode_timer_mode(None), TimerMode::Countup);
    assert_eq!(decode_timer_mode(Some(0b11)), TimerMode::Countup);
    assert_eq!(decode_timer_mode(Some(0xff)), TimerMode::Countup);
    assert_eq!(decode_timer_mode(Some(0b10)), TimerMode::Countdown);
    assert_eq!(decode_timer_mode(Some(0b110)), TimerMode::Countdown);
    assert_eq!(decode_timer_mode(Some(0b01)), TimerMode::Hidden);
    assert_eq!(decode_timer_mode(Some(0)), TimerMode::Frozen);
    assert_eq!(decode_timer_mode(Some(0b100)), TimerMode::Frozen);
}

#[test]
fn matchmaking_and_menu_codes() {
    assert_eq!(MatchmakingMode::from_u8(0), Some(MatchmakingMode::Idle));
    assert_eq!(MatchmakingMode::from_u8(2), Some(MatchmakingMode::Matchmaking));
    assert_eq!(MatchmakingMode::from_u8(5), Some(MatchmakingMode::ErrorEncountered));
    assert_eq!(MatchmakingMode::from_u8(6), None);
    assert_eq!(SlippiMenuScene::from_u8(0), Some(SlippiMenuScene::Ranked));
    assert_eq!(SlippiMenuScene::from_u8(3), Some(SlippiMenuScene::Teams));
    assert_eq!(SlippiMenuScene::from_u8(4), None);
}
