use vstd::prelude::*;

verus! {

/// Toggles that apply to every mode.
#[derive(Debug, Clone, Copy, PartialEq, Eq, Structural)]
pub struct Global {
    pub show_in_game_character: bool,
    pub show_in_game_time: bool,
}

/// Toggles of Slippi's ranked mode.
#[derive(Debug, Clone, Copy, PartialEq, Eq, Structural)]
pub struct Ranked {
    pub enabled: bool,
    pub show_rank: bool,
    pub show_view_ranked_profile_button: bool,
    pub show_score: bool,
}

/// Toggles of Slippi's unranked mode.
#[derive(Debug, Clone, Copy, PartialEq, Eq, Structural)]
pub struct Unranked {
    pub enabled: bool,
}

/// Toggles of Slippi's direct mode.
#[derive(Debug, Clone, Copy, PartialEq, Eq, Structural)]
pub struct Direct {
    pub enabled: bool,
}

/// Toggles of Slippi's teams mode.
#[derive(Debug, Clone, Copy, PartialEq, Eq, Structural)]
pub struct Teams {
    pub enabled: bool,
}

/// Toggles of Slippi Online.
#[derive(Debug, Clone, Copy, PartialEq, Eq, Structural)]
pub struct Slippi {
    pub enabled: bool,
    pub show_queueing: bool,
    pub ranked: Ranked,
    pub unranked: Unranked,
    pub direct: Direct,
    pub teams: Teams,
}

/// Toggles of the UnclePunch training pack.
#[derive(Debug, Clone, Copy, PartialEq, Eq, Structural)]
pub struct UnclePunch {
    pub enabled: bool,
}

/// Toggles of offline versus mode.
#[derive(Debug, Clone, Copy, PartialEq, Eq, Structural)]
pub struct VsMode {
    pub enabled: bool,
}

/// Toggles of the game's training mode.
#[derive(Debug, Clone, Copy, PartialEq, Eq, Structural)]
pub struct TrainingMode {
    pub enabled: bool,
}

/// A snapshot of the user's settings: what may be reported, and how.
#[derive(Debug, Clone, Copy, PartialEq, Eq, Structural)]
pub struct AppConfig {
    pub global: Global,
    pub slippi: Slippi,
    pub uncle_punch: UnclePunch,
    pub vs_mode: VsMode,
    pub training_mode: TrainingMode,
}

impl AppConfig {
    /// Every toggle is on.
    pub open spec fn all_on(self) -> bool {
        &&& self.global.show_in_game_character
        &&& self.global.show_in_game_time
        &&& self.slippi.enabled
        &&& self.slippi.show_queueing
        &&& self.slippi.ranked.enabled
        &&& self.slippi.ranked.show_rank
        &&& self.slippi.ranked.show_view_ranked_profile_button
        &&& self.slippi.ranked.show_score
        &&& self.slippi.unranked.enabled
        &&& self.slippi.direct.enabled
        &&& self.slippi.teams.enabled
        &&& self.uncle_punch.enabled
        &&& self.vs_mode.enabled
        &&& self.training_mode.enabled
    }
}

impl Default for AppConfig {
    /// The settings of a fresh installation: everything is shown.
    fn default() -> (r: Self)
        ensures
            r.all_on(),
    {
        AppConfig {
            global: Global { show_in_game_character: true, show_in_game_time: true },
            slippi: Slippi {
                enabled: true,
                show_queueing: true,
                ranked: Ranked {
                    enabled: true,
                    show_rank: true,
                    show_view_ranked_profile_button: true,
                    show_score: true,
                },
                unranked: Unranked { enabled: true },
                direct: Direct { enabled: true },
                teams: Teams { enabled: true },
            },
            uncle_punch: UnclePunch { enabled: true },
            vs_mode: VsMode { enabled: true },
            training_mode: TrainingMode { enabled: true },
        }
    }
}

} // verus!
