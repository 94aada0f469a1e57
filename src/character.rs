use vstd::prelude::*;

use crate::stage::unknown_resource;
use crate::text::{decimal, prefixed_number};

verus! {

/// A playable character, named as the game's character table names it.
#[derive(Debug, Clone, Copy, PartialEq, Eq, Structural)]
pub enum MeleeCharacter {
    DrMario,
    Mario,
    Luigi,
    Bowser,
    Peach,
    Yoshi,
    DonkeyKong,
    CaptainFalcon,
    Ganondorf,
    Falco,
    Fox,
    Ness,
    IceClimbers,
    Kirby,
    Samus,
    Zelda,
    Sheik,
    Link,
    YoungLink,
    Pichu,
    Pikachu,
    Jigglypuff,
    Mewtwo,
    MrGameAndWatch,
    Marth,
    Roy,
}

/// The bytes that name a character: 0 through 25.
pub open spec fn is_character_code(v: u8) -> bool {
    v <= 0x19
}

impl MeleeCharacter {
    /// The byte the game stores for this character.
    pub open spec fn code(self) -> u8 {
        match self {
            MeleeCharacter::DrMario => 0x16,
            MeleeCharacter::Mario => 0x08,
            MeleeCharacter::Luigi => 0x07,
            MeleeCharacter::Bowser => 0x05,
            MeleeCharacter::Peach => 0x0c,
            MeleeCharacter::Yoshi => 0x11,
            MeleeCharacter::DonkeyKong => 0x01,
            MeleeCharacter::CaptainFalcon => 0x00,
            MeleeCharacter::Ganondorf => 0x19,
            MeleeCharacter::Falco => 0x14,
            MeleeCharacter::Fox => 0x02,
            MeleeCharacter::Ness => 0x0b,
            MeleeCharacter::IceClimbers => 0x0e,
            MeleeCharacter::Kirby => 0x04,
            MeleeCharacter::Samus => 0x10,
            MeleeCharacter::Zelda => 0x12,
            MeleeCharacter::Sheik => 0x13,
            MeleeCharacter::Link => 0x06,
            MeleeCharacter::YoungLink => 0x15,
            MeleeCharacter::Pichu => 0x18,
            MeleeCharacter::Pikachu => 0x0d,
            MeleeCharacter::Jigglypuff => 0x0f,
            MeleeCharacter::Mewtwo => 0x0a,
            MeleeCharacter::MrGameAndWatch => 0x03,
            MeleeCharacter::Marth => 0x09,
            MeleeCharacter::Roy => 0x17,
        }
    }

    /// What a byte decodes to: the character whose code it is, if any.
    pub open spec fn decode(v: u8) -> Option<MeleeCharacter> {
        if exists|x: MeleeCharacter| x.code() == v {
            Some(choose|x: MeleeCharacter| x.code() == v)
        } else {
            None
        }
    }

    /// The character's byte.
    pub fn to_u8(&self) -> (r: u8)
        ensures
            r == self.code(),
    {
        match self {
            MeleeCharacter::DrMario => 0x16,
            MeleeCharacter::Mario => 0x08,
            MeleeCharacter::Luigi => 0x07,
            MeleeCharacter::Bowser => 0x05,
            MeleeCharacter::Peach => 0x0c,
            MeleeCharacter::Yoshi => 0x11,
            MeleeCharacter::DonkeyKong => 0x01,
            MeleeCharacter::CaptainFalcon => 0x00,
            MeleeCharacter::Ganondorf => 0x19,
            MeleeCharacter::Falco => 0x14,
            MeleeCharacter::Fox => 0x02,
            MeleeCharacter::Ness => 0x0b,
            MeleeCharacter::IceClimbers => 0x0e,
            MeleeCharacter::Kirby => 0x04,
            MeleeCharacter::Samus => 0x10,
            MeleeCharacter::Zelda => 0x12,
            MeleeCharacter::Sheik => 0x13,
            MeleeCharacter::Link => 0x06,
            MeleeCharacter::YoungLink => 0x15,
            MeleeCharacter::Pichu => 0x18,
            MeleeCharacter::Pikachu => 0x0d,
            MeleeCharacter::Jigglypuff => 0x0f,
            MeleeCharacter::Mewtwo => 0x0a,
            MeleeCharacter::MrGameAndWatch => 0x03,
            MeleeCharacter::Marth => 0x09,
            MeleeCharacter::Roy => 0x17,
        }
    }

    /// Decodes a character byte: the character whose code it is, or `None`
    /// where no character has that code.
    pub fn from_u8(v: u8) -> (r: Option<MeleeCharacter>)
        ensures
            r == MeleeCharacter::decode(v),
            forall|c: MeleeCharacter| r == Some(c) <==> #[trigger] c.code() == v,
            r is Some <==> is_character_code(v),
    {
        let r = match v {
            0x00 => Some(MeleeCharacter::CaptainFalcon),
            0x01 => Some(MeleeCharacter::DonkeyKong),
            0x02 => Some(MeleeCharacter::Fox),
            0x03 => Some(MeleeCharacter::MrGameAndWatch),
            0x04 => Some(MeleeCharacter::Kirby),
            0x05 => Some(MeleeCharacter::Bowser),
            0x06 => Some(MeleeCharacter::Link),
            0x07 => Some(MeleeCharacter::Luigi),
            0x08 => Some(MeleeCharacter::Mario),
            0x09 => Some(MeleeCharacter::Marth),
            0x0a => Some(MeleeCharacter::Mewtwo),
            0x0b => Some(MeleeCharacter::Ness),
            0x0c => Some(MeleeCharacter::Peach),
            0x0d => Some(MeleeCharacter::Pikachu),
            0x0e => Some(MeleeCharacter::IceClimbers),
            0x0f => Some(MeleeCharacter::Jigglypuff),
            0x10 => Some(MeleeCharacter::Samus),
            0x11 => Some(MeleeCharacter::Yoshi),
            0x12 => Some(MeleeCharacter::Zelda),
            0x13 => Some(MeleeCharacter::Sheik),
            0x14 => Some(MeleeCharacter::Falco),
            0x15 => Some(MeleeCharacter::YoungLink),
            0x16 => Some(MeleeCharacter::DrMario),
            0x17 => Some(MeleeCharacter::Roy),
            0x18 => Some(MeleeCharacter::Pichu),
            0x19 => Some(MeleeCharacter::Ganondorf),
            _ => None,
        };
        proof {
            assert forall|c: MeleeCharacter| r == Some(c) <==> #[trigger] c.code() == v by {
                lemma_character_code_injective(c, r->0);
            }
            if let Some(x) = r {
                let y = choose|y: MeleeCharacter| y.code() == v;
                lemma_character_code_injective(x, y);
            }
        }
        r
    }

    /// The character's display name.
    pub open spec fn name(self) -> Seq<char> {
        match self {
            MeleeCharacter::DrMario => "Dr. Mario"@,
            MeleeCharacter::Mario => "Mario"@,
            MeleeCharacter::Luigi => "Luigi"@,
            MeleeCharacter::Bowser => "Bowser"@,
            MeleeCharacter::Peach => "Peach"@,
            MeleeCharacter::Yoshi => "Yoshi"@,
            MeleeCharacter::DonkeyKong => "Donkey Kong"@,
            MeleeCharacter::CaptainFalcon => "Captain Falcon"@,
            MeleeCharacter::Ganondorf => "Ganondorf"@,
            MeleeCharacter::Falco => "Falco"@,
            MeleeCharacter::Fox => "Fox"@,
            MeleeCharacter::Ness => "Ness"@,
            MeleeCharacter::IceClimbers => "Ice Climbers"@,
            MeleeCharacter::Kirby => "Kirby"@,
            MeleeCharacter::Samus => "Samus"@,
            MeleeCharacter::Zelda => "Zelda"@,
            MeleeCharacter::Sheik => "Sheik"@,
            MeleeCharacter::Link => "Link"@,
            MeleeCharacter::YoungLink => "Young Link"@,
            MeleeCharacter::Pichu => "Pichu"@,
            MeleeCharacter::Pikachu => "Pikachu"@,
            MeleeCharacter::Jigglypuff => "Jigglypuff"@,
            MeleeCharacter::Mewtwo => "Mewtwo"@,
            MeleeCharacter::MrGameAndWatch => "Mr. Game & Watch"@,
            MeleeCharacter::Marth => "Marth"@,
            MeleeCharacter::Roy => "Roy"@,
        }
    }

    /// The character's display name.
    pub fn to_string(&self) -> (r: String)
        ensures
            r@ == self.name(),
    {
        let name = match self {
            MeleeCharacter::DrMario => "Dr. Mario",
            MeleeCharacter::Mario => "Mario",
            MeleeCharacter::Luigi => "Luigi",
            MeleeCharacter::Bowser => "Bowser",
            MeleeCharacter::Peach => "Peach",
            MeleeCharacter::Yoshi => "Yoshi",
            MeleeCharacter::DonkeyKong => "Donkey Kong",
            MeleeCharacter::CaptainFalcon => "Captain Falcon",
            MeleeCharacter::Ganondorf => "Ganondorf",
            MeleeCharacter::Falco => "Falco",
            MeleeCharacter::Fox => "Fox",
            MeleeCharacter::Ness => "Ness",
            MeleeCharacter::IceClimbers => "Ice Climbers",
            MeleeCharacter::Kirby => "Kirby",
            MeleeCharacter::Samus => "Samus",
            MeleeCharacter::Zelda => "Zelda",
            MeleeCharacter::Sheik => "Sheik",
            MeleeCharacter::Link => "Link",
            MeleeCharacter::YoungLink => "Young Link",
            MeleeCharacter::Pichu => "Pichu",
            MeleeCharacter::Pikachu => "Pikachu",
            MeleeCharacter::Jigglypuff => "Jigglypuff",
            MeleeCharacter::Mewtwo => "Mewtwo",
            MeleeCharacter::MrGameAndWatch => "Mr. Game & Watch",
            MeleeCharacter::Marth => "Marth",
            MeleeCharacter::Roy => "Roy",
        };
        String::from_str(name)
    }
}

/// No two characters share a byte, and every character's byte is a character
/// code; so decoding a character's byte gives that character back.
pub proof fn lemma_character_code_injective(a: MeleeCharacter, b: MeleeCharacter)
    ensures
        a.code() == b.code() ==> a == b,
        is_character_code(a.code()),
{
}

/// The name that stands for an unknown character.
pub open spec fn unknown_character_name() -> Seq<char> {
    "Unknown character"@
}

/// A character that may not be known.
#[derive(Debug, Clone, Copy, PartialEq, Eq, Structural)]
pub struct OptionalMeleeCharacter(pub Option<MeleeCharacter>);

impl OptionalMeleeCharacter {
    /// The publisher's image for the character: `char` and the character's
    /// byte, or `questionmark` where the character is not known.
    pub open spec fn resource(self) -> Seq<char> {
        match self.0 {
            Some(c) => "char"@ + decimal(c.code() as nat),
            None => unknown_resource(),
        }
    }

    /// The character's display name, or `Unknown character`.
    pub open spec fn name(self) -> Seq<char> {
        match self.0 {
            Some(c) => c.name(),
            None => unknown_character_name(),
        }
    }

    pub fn as_discord_resource(&self) -> (r: String)
        ensures
            r@ == self.resource(),
    {
        match &self.0 {
            Some(c) => prefixed_number("char", c.to_u8()),
            None => String::from_str("questionmark"),
        }
    }

    pub fn to_string(&self) -> (r: String)
        ensures
            r@ == self.name(),
    {
        match &self.0 {
            Some(c) => c.to_string(),
            None => String::from_str("Unknown character"),
        }
    }
}

/// Decoding a character's byte gives that character back; a byte decodes to a
/// character exactly when it is a character code, and then to the one with that byte.
pub proof fn lemma_character_round_trip(x: MeleeCharacter, v: u8)
    ensures
        MeleeCharacter::decode(x.code()) == Some(x),
        MeleeCharacter::decode(v) is Some <==> is_character_code(v),
        MeleeCharacter::decode(v) matches Some(y) ==> y.code() == v,
{
    let y = choose|y: MeleeCharacter| y.code() == x.code();
    lemma_character_code_injective(x, y);
    if is_character_code(v) {
        if v == 0x16 {
            assert(MeleeCharacter::DrMario.code() == v);
        } else if v == 0x08 {
            assert(MeleeCharacter::Mario.code() == v);
        } else if v == 0x07 {
            assert(MeleeCharacter::Luigi.code() == v);
        } else if v == 0x05 {
            assert(MeleeCharacter::Bowser.code() == v);
        } else if v == 0x0c {
            assert(MeleeCharacter::Peach.code() == v);
        } else if v == 0x11 {
            assert(MeleeCharacter::Yoshi.code() == v);
        } else if v == 0x01 {
            assert(MeleeCharacter::DonkeyKong.code() == v);
        } else if v == 0x00 {
            assert(MeleeCharacter::CaptainFalcon.code() == v);
        } else if v == 0x19 {
            assert(MeleeCharacter::Ganondorf.code() == v);
        } else if v == 0x14 {
            assert(MeleeCharacter::Falco.code() == v);
        } else if v == 0x02 {
            assert(MeleeCharacter::Fox.code() == v);
        } else if v == 0x0b {
            assert(MeleeCharacter::Ness.code() == v);
        } else if v == 0x0e {
            assert(MeleeCharacter::IceClimbers.code() == v);
        } else if v == 0x04 {
            assert(MeleeCharacter::Kirby.code() == v);
        } else if v == 0x10 {
            assert(MeleeCharacter::Samus.code() == v);
        } else if v == 0x12 {
            assert(MeleeCharacter::Zelda.code() == v);
        } else if v == 0x13 {
            assert(MeleeCharacter::Sheik.code() == v);
        } else if v == 0x06 {
            assert(MeleeCharacter::Link.code() == v);
        } else if v == 0x15 {
            assert(MeleeCharacter::YoungLink.code() == v);
        } else if v == 0x18 {
            assert(MeleeCharacter::Pichu.code() == v);
        } else if v == 0x0d {
            assert(MeleeCharacter::Pikachu.code() == v);
        } else if v == 0x0f {
            assert(MeleeCharacter::Jigglypuff.code() == v);
        } else if v == 0x0a {
            assert(MeleeCharacter::Mewtwo.code() == v);
        } else if v == 0x03 {
            assert(MeleeCharacter::MrGameAndWatch.code() == v);
        } else if v == 0x09 {
            assert(MeleeCharacter::Marth.code() == v);
        } else if v == 0x17 {
            assert(MeleeCharacter::Roy.code() == v);
        }
    } else {
        assert forall|z: MeleeCharacter| z.code() != v by {
            lemma_character_code_injective(z, z);
        }
    }
}

} // verus!
