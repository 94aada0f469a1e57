use slippi_presence::memory::{
    character_address, msrb_address, ram_offset, selection_address, u32_from_be, MSRBOffset,
    MAJOR_SCENE_ADDRESS, MINOR_SCENE_ADDRESS, ONLINE_SCENE_ADDRESS, PLAYER_PORT_ADDRESS,
    STAGE_ADDRESS,
};

#[test]
fn ram_offsets() {
    assert_eq!(ram_offset(0x8000_0000, 1), Some(0));
    assert_eq!(ram_offset(0x8047_9d30, 1), Some(0x0047_9d30));
    assert_eq!(ram_offset(0x817f_ffff, 1), Some(0x017f_ffff));
    assert_eq!(ram_offset(0x817f_fffc, 4), Some(0x017f_fffc));
    assert_eq!(ram_offset(0x817f_fffd, 4), None);
    assert_eq!(ram_offset(0x8180_0000, 1), None);
    assert_eq!(ram_offset(0x7fff_ffff, 1), None);
    assert_eq!(ram_offset(0, 0), None);
    assert_eq!(ram_offset(0xffff_ffff, 4), None);
    assert_eq!(ram_offset(0x8000_0000, u32::MAX), None);
}

#[test]
fn big_endian_values() {
    assert_eq!(u32_from_be([0, 0, 0, 37]), 37);
    assert_eq!(u32_from_be([0x12, 0x34, 0x56, 0x78]), 0x1234_5678);
    assert_eq!(u32_from_be([0xff, 0xff, 0xff, 0xff]), u32::MAX);
}

#[test]
fn matchmaking_buffer_fields() {
    assert_eq!(msrb_address(Some(0x8100_0000), MSRBOffset::MsrbConnectionState), Some(0x8100_0000));
    assert_eq!(msrb_address(Some(0x8100_0000), MSRBOffset::MsrbLocalPlayerIndex), Some(0x8100_0003));
    assert_eq!(msrb_address(None, MSRBOffset::MsrbConnectionState), None);
    assert_eq!(msrb_address(Some(0), MSRBOffset::MsrbConnectionState), None);
    assert_eq!(msrb_address(Some(0x817f_fffd), MSRBOffset::MsrbLocalPlayerIndex), None);
    assert_eq!(msrb_address(Some(u32::MAX), MSRBOffset::MsrbLocalPlayerIndex), None);
}

#[test]
fn fixed_addresses() {
    assert_eq!(MAJOR_SCENE_ADDRESS, 0x8047_9d30);
    assert_eq!(MINOR_SCENE_ADDRESS, 0x8047_9d33);
    assert_eq!(STAGE_ADDRESS, 0x8049_e753);
    assert_eq!(PLAYER_PORT_ADDRESS, 0x804d_6598);
    assert_eq!(ONLINE_SCENE_ADDRESS, 0x804d_6640);
    assert_eq!(character_address(0), 0x8045_3087);
    assert_eq!(character_address(3), 0x8045_5c37);
    assert_eq!(selection_address(1), 0x8043_2097);
}
