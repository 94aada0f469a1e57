use vstd::prelude::*;

use crate::character::{MeleeCharacter, OptionalMeleeCharacter};
use crate::melee::{MeleeScene, SlippiMenuScene};
use crate::stage::{MeleeStage, OptionalMeleeStage};

verus! {

/// Below this many seconds apart, two running timestamps count as the same.
pub const TIMESTAMP_TOLERANCE: i64 = 15;

/// What a presence request asks of the publisher.
#[derive(Debug, Clone, Copy, PartialEq, Eq, Structural)]
pub enum DiscordClientRequestType {
    Clear,
    Queue,
    Game,
}

/// How the publisher shows a timestamp.
#[derive(Debug, Clone, Copy, PartialEq, Eq, Structural)]
pub enum DiscordClientRequestTimestampMode {
    /// Time elapsed since the value.
    Start,
    /// Like `Start`, but the value never counts as changed.
    Static,
    /// Time left until the value.
    End,
}

/// A Unix time in seconds, and how to show it.
#[derive(Debug, Clone, Copy)]
pub struct DiscordClientRequestTimestamp {
    pub mode: DiscordClientRequestTimestampMode,
    pub timestamp: i64,
}

impl DiscordClientRequestTimestamp {
    /// Whether the timestamp keeps running: it is a start or an end.
    pub open spec fn is_running(self) -> bool {
        self.mode != DiscordClientRequestTimestampMode::Static
    }

    /// Whether two timestamps count as the same. Two static timestamps
    /// always do, whatever their values. Two running timestamps do when their
    /// values are less than the tolerance apart, whether each is a start or
    /// an end. A static timestamp never counts as the same as a running one,
    /// in either order.
    pub open spec fn same_as(self, o: Self) -> bool {
        if !self.is_running() || !o.is_running() {
            !self.is_running() && !o.is_running()
        } else {
            -TIMESTAMP_TOLERANCE < self.timestamp - o.timestamp < TIMESTAMP_TOLERANCE
        }
    }

    /// The timestamp that stands for no time at all.
    pub open spec fn none_spec() -> Self {
        DiscordClientRequestTimestamp { mode: DiscordClientRequestTimestampMode::Static, timestamp: 0 }
    }

    /// The timestamp that stands for no time at all: static, at zero.
    pub fn none() -> (r: Self)
        ensures
            r == Self::none_spec(),
    {
        DiscordClientRequestTimestamp { mode: DiscordClientRequestTimestampMode::Static, timestamp: 0 }
    }
}

impl PartialEq for DiscordClientRequestTimestamp {
    fn eq(&self, o: &Self) -> (r: bool)
        ensures
            r == self.same_as(*o),
    {
        let self_static = self.mode == DiscordClientRequestTimestampMode::Static;
        let o_static = o.mode == DiscordClientRequestTimestampMode::Static;
        if self_static || o_static {
            self_static && o_static
        } else {
            let d = self.timestamp as i128 - o.timestamp as i128;
            -(TIMESTAMP_TOLERANCE as i128) < d && d < TIMESTAMP_TOLERANCE as i128
        }
    }
}

impl vstd::std_specs::cmp::PartialEqSpecImpl for DiscordClientRequestTimestamp {
    open spec fn obeys_eq_spec() -> bool {
        true
    }

    open spec fn eq_spec(&self, o: &Self) -> bool {
        self.same_as(*o)
    }
}

/// What a presence request holds, as plain values.
pub struct PresenceView {
    pub req_type: DiscordClientRequestType,
    pub scene: Option<SlippiMenuScene>,
    pub stage: Option<MeleeStage>,
    pub character: Option<MeleeCharacter>,
    pub mode: Seq<char>,
    pub timestamp: DiscordClientRequestTimestamp,
}

impl PresenceView {
    /// Whether two requests count as the same: equal in everything but the
    /// timestamps, which only need to count as the same.
    pub open spec fn same_as(self, o: Self) -> bool {
        &&& self.req_type == o.req_type
        &&& self.scene == o.scene
        &&& self.stage == o.stage
        &&& self.character == o.character
        &&& self.mode == o.mode
        &&& self.timestamp.same_as(o.timestamp)
    }
}

/// The request to clear the presence.
pub open spec fn clear_view() -> PresenceView {
    PresenceView {
        req_type: DiscordClientRequestType::Clear,
        scene: None,
        stage: None,
        character: None,
        mode: Seq::empty(),
        timestamp: DiscordClientRequestTimestamp::none_spec(),
    }
}

/// The request to show a search for an opponent.
pub open spec fn queue_view(
    scene: Option<SlippiMenuScene>,
    character: Option<MeleeCharacter>,
) -> PresenceView {
    PresenceView {
        req_type: DiscordClientRequestType::Queue,
        scene,
        stage: None,
        character,
        mode: Seq::empty(),
        timestamp: DiscordClientRequestTimestamp::none_spec(),
    }
}

/// The request to show a game in progress.
pub open spec fn game_view(
    stage: Option<MeleeStage>,
    character: Option<MeleeCharacter>,
    mode: MeleeScene,
    timestamp: DiscordClientRequestTimestamp,
) -> PresenceView {
    PresenceView {
        req_type: DiscordClientRequestType::Game,
        scene: None,
        stage,
        character,
        mode: mode.label(),
        timestamp,
    }
}

/// A presence request for the publisher.
#[derive(Debug, Clone)]
pub struct DiscordClientRequest {
    pub req_type: DiscordClientRequestType,
    pub scene: Option<SlippiMenuScene>,
    pub stage: OptionalMeleeStage,
    pub character: OptionalMeleeCharacter,
    pub mode: String,
    pub timestamp: DiscordClientRequestTimestamp,
}

impl View for DiscordClientRequest {
    type V = PresenceView;

    open spec fn view(&self) -> PresenceView {
        PresenceView {
            req_type: self.req_type,
            scene: self.scene,
            stage: self.stage.0,
            character: self.character.0,
            mode: self.mode@,
            timestamp: self.timestamp,
        }
    }
}

impl DiscordClientRequest {
    /// The request to clear the presence; it carries no data.
    pub fn clear() -> (r: Self)
        ensures
            r@ == clear_view(),
    {
        DiscordClientRequest {
            req_type: DiscordClientRequestType::Clear,
            scene: None,
            stage: OptionalMeleeStage(None),
            character: OptionalMeleeCharacter(None),
            mode: String::new(),
            timestamp: DiscordClientRequestTimestamp::none(),
        }
    }

    /// The request to show a search for an opponent in the online mode
    /// `scene`, with the searching player's `character`.
    pub fn queue(scene: Option<SlippiMenuScene>, character: Option<MeleeCharacter>) -> (r: Self)
        ensures
            r@ == queue_view(scene, character),
    {
        DiscordClientRequest {
            req_type: DiscordClientRequestType::Queue,
            scene,
            stage: OptionalMeleeStage(None),
            character: OptionalMeleeCharacter(character),
            mode: String::new(),
            timestamp: DiscordClientRequestTimestamp::none(),
        }
    }

    /// The request to show a game on `stage` with `character`, labelled after
    /// the scene `mode`.
    pub fn game(
        stage: Option<MeleeStage>,
        character: Option<MeleeCharacter>,
        mode: MeleeScene,
        timestamp: DiscordClientRequestTimestamp,
    ) -> (r: Self)
        ensures
            r@ == game_view(stage, character, mode, timestamp),
    {
        DiscordClientRequest {
            req_type: DiscordClientRequestType::Game,
            scene: None,
            stage: OptionalMeleeStage(stage),
            character: OptionalMeleeCharacter(character),
            mode: mode.to_string(),
            timestamp,
        }
    }

    /// A copy of the request.
    pub fn duplicate(&self) -> (r: Self)
        ensures
            r@ == self@,
    {
        DiscordClientRequest {
            req_type: self.req_type,
            scene: self.scene,
            stage: self.stage,
            character: self.character,
            mode: self.mode.clone(),
            timestamp: self.timestamp,
        }
    }
}

impl Default for DiscordClientRequest {
    /// The clear request.
    fn default() -> (r: Self)
        ensures
            r@ == clear_view(),
    {
        DiscordClientRequest::clear()
    }
}

impl PartialEq for DiscordClientRequest {
    fn eq(&self, o: &Self) -> (r: bool)
        ensures
            r == self@.same_as(o@),
    {
        self.req_type == o.req_type && self.scene == o.scene && self.stage == o.stage
            && self.character == o.character && self.mode == o.mode && self.timestamp.eq(
            &o.timestamp,
        )
    }
}

impl vstd::std_specs::cmp::PartialEqSpecImpl for DiscordClientRequest {
    open spec fn obeys_eq_spec() -> bool {
        true
    }

    open spec fn eq_spec(&self, o: &Self) -> bool {
        self@.same_as(o@)
    }
}

} // verus!
