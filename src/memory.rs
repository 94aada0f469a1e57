//! Where the game keeps what is read, and how an address of the emulated
//! console maps into the emulator's copy of its main memory.
use vstd::prelude::*;

verus! {

/// The first address of the console's main memory.
pub const RAM_START: u32 = 0x8000_0000;

/// The size of the console's main memory in bytes.
pub const RAM_SIZE: u32 = 0x0180_0000;

/// The value of the game's small-data base register, against which a few
/// globals are addressed.
pub const R13: u32 = 0x804d_b6a0;

/// The major scene byte.
pub const MAJOR_SCENE_ADDRESS: u32 = 0x8047_9d30;

/// The minor scene byte.
pub const MINOR_SCENE_ADDRESS: u32 = MAJOR_SCENE_ADDRESS + 0x03;

/// The stage byte of the match being played.
pub const STAGE_ADDRESS: u32 = 0x8049_e6c8 + 0x88 + 0x03;

/// The port of the local player in offline play and on the character select
/// screen.
pub const PLAYER_PORT_ADDRESS: u32 = R13 - 0x5108;

/// The online mode picked in Slippi's menu.
pub const ONLINE_SCENE_ADDRESS: u32 = R13 - 0x5060;

/// The first byte of the match setup, whose low bits select the timer mode.
pub const TIMER_FLAGS_ADDRESS: u32 = 0x8046_db68;

/// The match timer, in seconds, as a big-endian 32-bit value.
pub const GAME_TIME_ADDRESS: u32 = 0x8046_b6c8;

/// Where the address of Slippi's matchmaking state buffer is kept.
pub const MSRB_POINTER_ADDRESS: u32 = 0x8000_5614;

/// Whether the `len` bytes from `address` on lie in the console's main memory.
pub open spec fn in_ram(address: int, len: int) -> bool {
    RAM_START <= address && address + len <= RAM_START + RAM_SIZE
}

/// Where the `len` bytes at `address` lie in the emulator's copy of main
/// memory, counted from its start; `None` where they are not all in main
/// memory.
pub fn ram_offset(address: u32, len: u32) -> (r: Option<u32>)
    ensures
        r == (if in_ram(address as int, len as int) {
            Some((address - RAM_START) as u32)
        } else {
            None
        }),
{
    if address >= RAM_START && len <= RAM_SIZE && address - RAM_START <= RAM_SIZE - len {
        Some(address - RAM_START)
    } else {
        None
    }
}

/// The value of four bytes read most significant first, as the console
/// stores it.
pub open spec fn big_endian(b: [u8; 4]) -> int {
    b[0] * 0x0100_0000 + b[1] * 0x0001_0000 + b[2] * 0x0100 + b[3]
}

/// Reads a 32-bit value stored most significant byte first.
pub fn u32_from_be(b: [u8; 4]) -> (r: u32)
    ensures
        r == big_endian(b),
{
    let b0 = b[0] as u32;
    let b1 = b[1] as u32;
    let b2 = b[2] as u32;
    let b3 = b[3] as u32;
    assert(b0 * 0x0100_0000 + b1 * 0x0001_0000 + b2 * 0x0100 + b3 <= u32::MAX) by (nonlinear_arith)
        requires
            b0 < 256,
            b1 < 256,
            b2 < 256,
            b3 < 256,
    ;
    b0 * 0x0100_0000 + b1 * 0x0001_0000 + b2 * 0x0100 + b3
}

/// A field of Slippi's matchmaking state buffer.
#[derive(Debug, Clone, Copy, PartialEq, Eq, Structural)]
pub enum MSRBOffset {
    /// The matchmaking phase, one byte.
    MsrbConnectionState,
    /// The port of the local player in an online match, one byte.
    MsrbLocalPlayerIndex,
}

impl MSRBOffset {
    /// The field's offset from the buffer's start.
    pub open spec fn offset(self) -> u32 {
        match self {
            MSRBOffset::MsrbConnectionState => 0,
            MSRBOffset::MsrbLocalPlayerIndex => 3,
        }
    }
}

/// The address of a one-byte field of the matchmaking state buffer, given
/// what was read where the buffer's address is kept; `None` where that could
/// not be read or the field would lie outside main memory, as it does while
/// no buffer exists.
pub fn msrb_address(pointer: Option<u32>, field: MSRBOffset) -> (r: Option<u32>)
    ensures
        r == (match pointer {
            Some(p) => if in_ram(p + field.offset(), 1) {
                Some((p + field.offset()) as u32)
            } else {
                None
            },
            None => None,
        }),
{
    let offset: u32 = match field {
        MSRBOffset::MsrbConnectionState => 0,
        MSRBOffset::MsrbLocalPlayerIndex => 3,
    };
    match pointer {
        Some(p) => if p <= u32::MAX - offset {
            let address = p + offset;
            match ram_offset(address, 1) {
                Some(_) => Some(address),
                None => None,
            }
        } else {
            None
        },
        None => None,
    }
}

/// The address of each port's block of in-game player data.
pub open spec fn player_block(port: int) -> u32 {
    seq![0x8045_3080u32, 0x8045_3f10u32, 0x8045_4da0u32, 0x8045_5c30u32][port]
}

/// The address of each port's block on the character select screen.
pub open spec fn selection_block(port: int) -> u32 {
    seq![0x8043_208bu32, 0x8043_2093u32, 0x8043_209bu32, 0x8043_20a3u32][port]
}

/// The byte of the character that plays on `port`.
pub fn character_address(port: u8) -> (r: u32)
    requires
        port < 4,
    ensures
        r == player_block(port as int) + 0x07,
{
    let blocks: [u32; 4] = [0x8045_3080, 0x8045_3f10, 0x8045_4da0, 0x8045_5c30];
    assert(blocks@ == seq![0x8045_3080u32, 0x8045_3f10u32, 0x8045_4da0u32, 0x8045_5c30u32]);
    blocks[port as usize] + 0x07
}

/// The byte of the character picked on `port` on the character select screen.
pub fn selection_address(port: u8) -> (r: u32)
    requires
        port < 4,
    ensures
        r == selection_block(port as int) + 0x04,
{
    let blocks: [u32; 4] = [0x8043_208b, 0x8043_2093, 0x8043_209b, 0x8043_20a3];
    assert(blocks@ == seq![0x8043_208bu32, 0x8043_2093u32, 0x8043_209bu32, 0x8043_20a3u32]);
    blocks[port as usize] + 0x04
}

/// What one poll read from the game's memory; `None` where a read failed.
#[derive(Debug, Clone, Copy)]
pub struct GameMemory {
    pub major_scene: Option<u8>,
    pub minor_scene: Option<u8>,
    pub stage: Option<u8>,
    /// The offline local port, read at `PLAYER_PORT_ADDRESS`.
    pub player_port: Option<u8>,
    /// The online local port, read from the matchmaking state buffer.
    pub slippi_player_port: Option<u8>,
    /// The in-game character byte of each port.
    pub characters: [Option<u8>; 4],
    /// The selected character byte of each port on the character select screen.
    pub selections: [Option<u8>; 4],
    pub timer_flags: Option<u8>,
    pub game_time: Option<u32>,
    /// The matchmaking phase byte, read from the matchmaking state buffer.
    pub connection_state: Option<u8>,
    pub online_scene: Option<u8>,
}

impl GameMemory {
    /// Whether nothing could be read.
    pub open spec fn is_blank(self) -> bool {
        &&& self.major_scene is None
        &&& self.minor_scene is None
        &&& self.stage is None
        &&& self.player_port is None
        &&& self.slippi_player_port is None
        &&& forall|i: int| 0 <= i < 4 ==> #[trigger] self.characters@[i] is None
        &&& forall|i: int| 0 <= i < 4 ==> #[trigger] self.selections@[i] is None
        &&& self.timer_flags is None
        &&& self.game_time is None
        &&& self.connection_state is None
        &&& self.online_scene is None
    }

    /// What a poll sees while no game process is attached.
    pub fn unreadable() -> (r: Self)
        ensures
            r.is_blank(),
    {
        GameMemory {
            major_scene: None,
            minor_scene: None,
            stage: None,
            player_port: None,
            slippi_player_port: None,
            characters: [None, None, None, None],
            selections: [None, None, None, None],
            timer_flags: None,
            game_time: None,
            connection_state: None,
            online_scene: None,
        }
    }
}

} // verus!
