//! The status that the publisher shows for a request, as plain values.
use vstd::prelude::*;

use crate::character::OptionalMeleeCharacter;
use crate::discord::{DiscordClientRequestTimestamp, DiscordClientRequestTimestampMode};
use crate::melee::SlippiMenuScene;
use crate::stage::OptionalMeleeStage;

verus! {

/// What the publisher shows: two lines of text, a large and a small image
/// with their captions, and the time counted from or down to.
#[derive(Debug)]
pub struct ActivityPayload {
    pub details: String,
    pub state: String,
    pub large_image: String,
    pub large_text: String,
    pub small_image: String,
    pub small_text: String,
    pub start: Option<i64>,
    pub end: Option<i64>,
}

/// What an activity payload holds, as plain values.
pub struct ActivityView {
    pub details: Seq<char>,
    pub state: Seq<char>,
    pub large_image: Seq<char>,
    pub large_text: Seq<char>,
    pub small_image: Seq<char>,
    pub small_text: Seq<char>,
    pub start: Option<i64>,
    pub end: Option<i64>,
}

impl View for ActivityPayload {
    type V = ActivityView;

    open spec fn view(&self) -> ActivityView {
        ActivityView {
            details: self.details@,
            state: self.state@,
            large_image: self.large_image@,
            large_text: self.large_text@,
            small_image: self.small_image@,
            small_text: self.small_text@,
            start: self.start,
            end: self.end,
        }
    }
}

/// The status of a game: the stage as the large image, the character as the
/// small one, the mode's label, and the time counted down to the timestamp
/// where it marks an end, else counted from it.
pub open spec fn game_activity_view(
    stage: OptionalMeleeStage,
    character: OptionalMeleeCharacter,
    mode: Seq<char>,
    timestamp: DiscordClientRequestTimestamp,
) -> ActivityView {
    let ends = timestamp.mode == DiscordClientRequestTimestampMode::End;
    ActivityView {
        details: mode,
        state: "In Game"@,
        large_image: stage.resource(),
        large_text: stage.name(),
        small_image: character.resource(),
        small_text: character.name(),
        start: if ends {
            None
        } else {
            Some(timestamp.timestamp)
        },
        end: if ends {
            Some(timestamp.timestamp)
        } else {
            None
        },
    }
}

/// The status of a search for an opponent at Unix time `now`: the online
/// mode's name, no large image, the character as the small image, and the
/// time counted from `now`.
pub open spec fn queue_activity_view(
    scene: Option<SlippiMenuScene>,
    character: OptionalMeleeCharacter,
    now: i64,
) -> ActivityView {
    ActivityView {
        details: match scene {
            Some(s) => s.name(),
            None => Seq::empty(),
        },
        state: "In Queue"@,
        large_image: Seq::empty(),
        large_text: Seq::empty(),
        small_image: character.resource(),
        small_text: character.name(),
        start: Some(now),
        end: None,
    }
}

/// The status to show for a game.
pub fn game_activity(
    stage: &OptionalMeleeStage,
    character: &OptionalMeleeCharacter,
    mode: &str,
    timestamp: DiscordClientRequestTimestamp,
) -> (r: ActivityPayload)
    ensures
        r@ == game_activity_view(*stage, *character, mode@, timestamp),
{
    let ends = timestamp.mode == DiscordClientRequestTimestampMode::End;
    ActivityPayload {
        details: String::from_str(mode),
        state: String::from_str("In Game"),
        large_image: stage.as_discord_resource(),
        large_text: stage.to_string(),
        small_image: character.as_discord_resource(),
        small_text: character.to_string(),
        start: if ends {
            None
        } else {
            Some(timestamp.timestamp)
        },
        end: if ends {
            Some(timestamp.timestamp)
        } else {
            None
        },
    }
}

/// The status to show while searching for an opponent, at Unix time `now`.
pub fn queue_activity(
    scene: Option<SlippiMenuScene>,
    character: &OptionalMeleeCharacter,
    now: i64,
) -> (r: ActivityPayload)
    ensures
        r@ == queue_activity_view(scene, *character, now),
{
    let details = match scene {
        Some(s) => s.to_string(),
        None => String::new(),
    };
    ActivityPayload {
        details,
        state: String::from_str("In Queue"),
        large_image: String::new(),
        large_text: String::new(),
        small_image: character.as_discord_resource(),
        small_text: character.to_string(),
        start: Some(now),
        end: None,
    }
}

} // verus!
