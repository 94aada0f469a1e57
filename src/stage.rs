use vstd::prelude::*;

use crate::text::{decimal, prefixed_number};

verus! {

/// A stage of the game, named after the game's internal stage table.
#[derive(Debug, Clone, Copy, PartialEq, Eq, Structural)]
pub enum MeleeStage {
    Castle,
    Rcruise,
    Kongo,
    Garden,
    Greatbay,
    Shrine,
    Zebes,
    Kraid,
    Story,
    Yoster,
    Izumi,
    Greens,
    Corneria,
    Venom,
    PStad,
    Pura,
    MuteCity,
    BigBlue,
    Onett,
    Fourside,
    IceMt,
    Mk1,
    Mk2,
    Akaneia,
    FlatZone,
    OldPu,
    OldStory,
    OldKongo,
    Battle,
    FD,
}

/// The bytes that name a playable stage: 2 through 22, 24 through 30, 36 and 37.
pub open spec fn is_stage_code(v: u8) -> bool {
    (2 <= v <= 22) || (24 <= v <= 30) || v == 36 || v == 37
}

impl MeleeStage {
    /// The byte the game stores for this stage.
    pub open spec fn code(self) -> u8 {
        match self {
            MeleeStage::Castle => 2,
            MeleeStage::Rcruise => 3,
            MeleeStage::Kongo => 4,
            MeleeStage::Garden => 5,
            MeleeStage::Greatbay => 6,
            MeleeStage::Shrine => 7,
            MeleeStage::Zebes => 8,
            MeleeStage::Kraid => 9,
            MeleeStage::Story => 10,
            MeleeStage::Yoster => 11,
            MeleeStage::Izumi => 12,
            MeleeStage::Greens => 13,
            MeleeStage::Corneria => 14,
            MeleeStage::Venom => 15,
            MeleeStage::PStad => 16,
            MeleeStage::Pura => 17,
            MeleeStage::MuteCity => 18,
            MeleeStage::BigBlue => 19,
            MeleeStage::Onett => 20,
            MeleeStage::Fourside => 21,
            MeleeStage::IceMt => 22,
            MeleeStage::Mk1 => 24,
            MeleeStage::Mk2 => 25,
            MeleeStage::Akaneia => 26,
            MeleeStage::FlatZone => 27,
            MeleeStage::OldPu => 28,
            MeleeStage::OldStory => 29,
            MeleeStage::OldKongo => 30,
            MeleeStage::Battle => 36,
            MeleeStage::FD => 37,
        }
    }

    /// What a byte decodes to: the stage whose code it is, if any.
    pub open spec fn decode(v: u8) -> Option<MeleeStage> {
        if exists|x: MeleeStage| x.code() == v {
            Some(choose|x: MeleeStage| x.code() == v)
        } else {
            None
        }
    }

    /// The stage's byte.
    pub fn to_u8(&self) -> (r: u8)
        ensures
            r == self.code(),
    {
        match self {
            MeleeStage::Castle => 2,
            MeleeStage::Rcruise => 3,
            MeleeStage::Kongo => 4,
            MeleeStage::Garden => 5,
            MeleeStage::Greatbay => 6,
            MeleeStage::Shrine => 7,
            MeleeStage::Zebes => 8,
            MeleeStage::Kraid => 9,
            MeleeStage::Story => 10,
            MeleeStage::Yoster => 11,
            MeleeStage::Izumi => 12,
            MeleeStage::Greens => 13,
            MeleeStage::Corneria => 14,
            MeleeStage::Venom => 15,
            MeleeStage::PStad => 16,
            MeleeStage::Pura => 17,
            MeleeStage::MuteCity => 18,
            MeleeStage::BigBlue => 19,
            MeleeStage::Onett => 20,
            MeleeStage::Fourside => 21,
            MeleeStage::IceMt => 22,
            MeleeStage::Mk1 => 24,
            MeleeStage::Mk2 => 25,
            MeleeStage::Akaneia => 26,
            MeleeStage::FlatZone => 27,
            MeleeStage::OldPu => 28,
            MeleeStage::OldStory => 29,
            MeleeStage::OldKongo => 30,
            MeleeStage::Battle => 36,
            MeleeStage::FD => 37,
        }
    }

    /// Decodes a stage byte: the stage whose code it is, or `None` where no
    /// stage has that code.
    pub fn from_u8(v: u8) -> (r: Option<MeleeStage>)
        ensures
            r == MeleeStage::decode(v),
            forall|s: MeleeStage| r == Some(s) <==> #[trigger] s.code() == v,
            r is Some <==> is_stage_code(v),
    {
        let r = match v {
            2 => Some(MeleeStage::Castle),
            3 => Some(MeleeStage::Rcruise),
            4 => Some(MeleeStage::Kongo),
            5 => Some(MeleeStage::Garden),
            6 => Some(MeleeStage::Greatbay),
            7 => Some(MeleeStage::Shrine),
            8 => Some(MeleeStage::Zebes),
            9 => Some(MeleeStage::Kraid),
            10 => Some(MeleeStage::Story),
            11 => Some(MeleeStage::Yoster),
            12 => Some(MeleeStage::Izumi),
            13 => Some(MeleeStage::Greens),
            14 => Some(MeleeStage::Corneria),
            15 => Some(MeleeStage::Venom),
            16 => Some(MeleeStage::PStad),
            17 => Some(MeleeStage::Pura),
            18 => Some(MeleeStage::MuteCity),
            19 => Some(MeleeStage::BigBlue),
            20 => Some(MeleeStage::Onett),
            21 => Some(MeleeStage::Fourside),
            22 => Some(MeleeStage::IceMt),
            24 => Some(MeleeStage::Mk1),
            25 => Some(MeleeStage::Mk2),
            26 => Some(MeleeStage::Akaneia),
            27 => Some(MeleeStage::FlatZone),
            28 => Some(MeleeStage::OldPu),
            29 => Some(MeleeStage::OldStory),
            30 => Some(MeleeStage::OldKongo),
            36 => Some(MeleeStage::Battle),
            37 => Some(MeleeStage::FD),
            _ => None,
        };
        proof {
            assert forall|s: MeleeStage| r == Some(s) <==> #[trigger] s.code() == v by {
                lemma_stage_code_injective(s, r->0);
            }
            if let Some(x) = r {
                let y = choose|y: MeleeStage| y.code() == v;
                lemma_stage_code_injective(x, y);
            }
        }
        r
    }
    /// The stage's display name.
    pub open spec fn name(self) -> Seq<char> {
        match self {
            MeleeStage::Castle => "Princess Peach's Castle"@,
            MeleeStage::Rcruise => "Rainbow Cruise"@,
            MeleeStage::Kongo => "Kongo Jungle"@,
            MeleeStage::Garden => "Jungle Japes"@,
            MeleeStage::Greatbay => "Great Bay"@,
            MeleeStage::Shrine => "Temple"@,
            MeleeStage::Zebes => "Brinstar"@,
            MeleeStage::Kraid => "Brinstar Depths"@,
            MeleeStage::Story => "Yoshi's Story"@,
            MeleeStage::Yoster => "Yoshi's Island"@,
            MeleeStage::Izumi => "Fountain of Dreams"@,
            MeleeStage::Greens => "Green Greens"@,
            MeleeStage::Corneria => "Corneria"@,
            MeleeStage::Venom => "Venom"@,
            MeleeStage::PStad => "Pokemon Stadium"@,
            MeleeStage::Pura => "Poke Floats"@,
            MeleeStage::MuteCity => "Mute City"@,
            MeleeStage::BigBlue => "Big Blue"@,
            MeleeStage::Onett => "Onett"@,
            MeleeStage::Fourside => "Fourside"@,
            MeleeStage::IceMt => "IcicleMountain"@,
            MeleeStage::Mk1 => "Mushroom Kingdom"@,
            MeleeStage::Mk2 => "Mushroom Kingdom II"@,
            MeleeStage::Akaneia => "Akaneia"@,
            MeleeStage::FlatZone => "Flat Zone"@,
            MeleeStage::OldPu => "Dream Land"@,
            MeleeStage::OldStory => "Yoshi's Island (N64)"@,
            MeleeStage::OldKongo => "Kongo Jungle (N64)"@,
            MeleeStage::Battle => "Battlefield"@,
            MeleeStage::FD => "Final Destination"@,
        }
    }

    /// The stage's display name.
    pub fn to_string(&self) -> (r: String)
        ensures
            r@ == self.name(),
    {
        let name = match self {
            MeleeStage::Castle => "Princess Peach's Castle",
            MeleeStage::Rcruise => "Rainbow Cruise",
            MeleeStage::Kongo => "Kongo Jungle",
            MeleeStage::Garden => "Jungle Japes",
            MeleeStage::Greatbay => "Great Bay",
            MeleeStage::Shrine => "Temple",
            MeleeStage::Zebes => "Brinstar",
            MeleeStage::Kraid => "Brinstar Depths",
            MeleeStage::Story => "Yoshi's Story",
            MeleeStage::Yoster => "Yoshi's Island",
            MeleeStage::Izumi => "Fountain of Dreams",
            MeleeStage::Greens => "Green Greens",
            MeleeStage::Corneria => "Corneria",
            MeleeStage::Venom => "Venom",
            MeleeStage::PStad => "Pokemon Stadium",
            MeleeStage::Pura => "Poke Floats",
            MeleeStage::MuteCity => "Mute City",
            MeleeStage::BigBlue => "Big Blue",
            MeleeStage::Onett => "Onett",
            MeleeStage::Fourside => "Fourside",
            MeleeStage::IceMt => "IcicleMountain",
            MeleeStage::Mk1 => "Mushroom Kingdom",
            MeleeStage::Mk2 => "Mushroom Kingdom II",
            MeleeStage::Akaneia => "Akaneia",
            MeleeStage::FlatZone => "Flat Zone",
            MeleeStage::OldPu => "Dream Land",
            MeleeStage::OldStory => "Yoshi's Island (N64)",
            MeleeStage::OldKongo => "Kongo Jungle (N64)",
            MeleeStage::Battle => "Battlefield",
            MeleeStage::FD => "Final Destination",
        };
        String::from_str(name)
    }
}

/// The name that stands for an unknown stage.
pub open spec fn unknown_stage_name() -> Seq<char> {
    "Unknown stage"@
}

/// The image name that stands for an unknown stage or character.
pub open spec fn unknown_resource() -> Seq<char> {
    "questionmark"@
}

/// A stage that may not be known.
#[derive(Debug, Clone, Copy, PartialEq, Eq, Structural)]
pub struct OptionalMeleeStage(pub Option<MeleeStage>);

impl OptionalMeleeStage {
    /// The publisher's image for the stage: `stage` and the stage's byte, or
    /// `questionmark` where the stage is not known.
    pub open spec fn resource(self) -> Seq<char> {
        match self.0 {
            Some(s) => "stage"@ + decimal(s.code() as nat),
            None => unknown_resource(),
        }
    }

    /// The stage's display name, or `Unknown stage`.
    pub open spec fn name(self) -> Seq<char> {
        match self.0 {
            Some(s) => s.name(),
            None => unknown_stage_name(),
        }
    }

    pub fn as_discord_resource(&self) -> (r: String)
        ensures
            r@ == self.resource(),
    {
        match &self.0 {
            Some(s) => prefixed_number("stage", s.to_u8()),
            None => String::from_str("questionmark"),
        }
    }

    pub fn to_string(&self) -> (r: String)
        ensures
            r@ == self.name(),
    {
        match &self.0 {
            Some(s) => s.to_string(),
            None => String::from_str("Unknown stage"),
        }
    }
}

/// No two stages share a byte, and every stage's byte is a stage code; so
/// decoding a stage's byte gives that stage back.
pub proof fn lemma_stage_code_injective(a: MeleeStage, b: MeleeStage)
    ensures
        a.code() == b.code() ==> a == b,
        is_stage_code(a.code()),
{
}

/// Decoding a stage's byte gives that stage back; a byte decodes to a
/// stage exactly when it is a stage code, and then to the one with that byte.
pub proof fn lemma_stage_round_trip(x: MeleeStage, v: u8)
    ensures
        MeleeStage::decode(x.code()) == Some(x),
        MeleeStage::decode(v) is Some <==> is_stage_code(v),
        MeleeStage::decode(v) matches Some(y) ==> y.code() == v,
{
    let y = choose|y: MeleeStage| y.code() == x.code();
    lemma_stage_code_injective(x, y);
    if is_stage_code(v) {
        if v == 2 {
            assert(MeleeStage::Castle.code() == v);
        } else if v == 3 {
            assert(MeleeStage::Rcruise.code() == v);
        } else if v == 4 {
            assert(MeleeStage::Kongo.code() == v);
        } else if v == 5 {
            assert(MeleeStage::Garden.code() == v);
        } else if v == 6 {
            assert(MeleeStage::Greatbay.code() == v);
        } else if v == 7 {
            assert(MeleeStage::Shrine.code() == v);
        } else if v == 8 {
            assert(MeleeStage::Zebes.code() == v);
        } else if v == 9 {
            assert(MeleeStage::Kraid.code() == v);
        } else if v == 10 {
            assert(MeleeStage::Story.code() == v);
        } else if v == 11 {
            assert(MeleeStage::Yoster.code() == v);
        } else if v == 12 {
            assert(MeleeStage::Izumi.code() == v);
        } else if v == 13 {
            assert(MeleeStage::Greens.code() == v);
        } else if v == 14 {
            assert(MeleeStage::Corneria.code() == v);
        } else if v == 15 {
            assert(MeleeStage::Venom.code() == v);
        } else if v == 16 {
            assert(MeleeStage::PStad.code() == v);
        } else if v == 17 {
            assert(MeleeStage::Pura.code() == v);
        } else if v == 18 {
            assert(MeleeStage::MuteCity.code() == v);
        } else if v == 19 {
            assert(MeleeStage::BigBlue.code() == v);
        } else if v == 20 {
            assert(MeleeStage::Onett.code() == v);
        } else if v == 21 {
            assert(MeleeStage::Fourside.code() == v);
        } else if v == 22 {
            assert(MeleeStage::IceMt.code() == v);
        } else if v == 24 {
            assert(MeleeStage::Mk1.code() == v);
        } else if v == 25 {
            assert(MeleeStage::Mk2.code() == v);
        } else if v == 26 {
            assert(MeleeStage::Akaneia.code() == v);
        } else if v == 27 {
            assert(MeleeStage::FlatZone.code() == v);
        } else if v == 28 {
            assert(MeleeStage::OldPu.code() == v);
        } else if v == 29 {
            assert(MeleeStage::OldStory.code() == v);
        } else if v == 30 {
            assert(MeleeStage::OldKongo.code() == v);
        } else if v == 36 {
            assert(MeleeStage::Battle.code() == v);
        } else if v == 37 {
            assert(MeleeStage::FD.code() == v);
        }
    } else {
        assert forall|z: MeleeStage| z.code() != v by {
            lemma_stage_code_injective(z, z);
        }
    }
}

} // verus!
