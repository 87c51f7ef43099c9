use cdrom::constants::{
    op_to_ioctl, AddressType, AudioStates, Capability, DiscType, Operation, Status,
    CD_FRAMESIZE, CD_FRAMESIZE_RAW, CD_FRAMESIZE_RAWER, EDRIVE_CANT_DO_THIS, IOC_BYTE,
};

#[test]
fn eject_control_code_is_5309() {
    assert_eq!(op_to_ioctl(Operation::Eject), (0x53 << 8) + 0x09);
    assert_eq!(op_to_ioctl(Operation::Eject), 0x5309);
}

#[test]
fn control_codes_match_the_kernel_registry() {
    assert_eq!(op_to_ioctl(Operation::Stop), 0x5307);
    assert_eq!(op_to_ioctl(Operation::Start), 0x5308);
    assert_eq!(op_to_ioctl(Operation::ReadTocHeader), 0x5305);
    assert_eq!(op_to_ioctl(Operation::ReadTocEntry), 0x5306);
    assert_eq!(op_to_ioctl(Operation::SubChannel), 0x530b);
    assert_eq!(op_to_ioctl(Operation::ReadAudio), 0x530e);
    assert_eq!(op_to_ioctl(Operation::ReadRaw), 0x5314);
    assert_eq!(op_to_ioctl(Operation::GetMcn), 0x5311);
    assert_eq!(op_to_ioctl(Operation::CloseTray), 0x5319);
    assert_eq!(op_to_ioctl(Operation::DriveStatus), 0x5326);
    assert_eq!(op_to_ioctl(Operation::DiscStatus), 0x5327);
    assert_eq!(op_to_ioctl(Operation::LockDoor), 0x5329);
    assert_eq!(op_to_ioctl(Operation::TimedMediaChange), 0x5396);
}

#[test]
fn interface_byte_is_the_high_byte() {
    assert_eq!(IOC_BYTE, 0x53);
    assert_eq!(op_to_ioctl(Operation::Pause) >> 8, IOC_BYTE as u64);
}

#[test]
fn status_codes_decode_and_encode() {
    assert_eq!(Status::from_i32(0), Some(Status::NoInfo));
    assert_eq!(Status::from_i32(1), Some(Status::NoDisc));
    assert_eq!(Status::from_i32(2), Some(Status::TrayOpen));
    assert_eq!(Status::from_i32(3), Some(Status::DriveNotReady));
    assert_eq!(Status::from_i32(4), Some(Status::DiscOK));
    assert_eq!(Status::from_i32(5), None);
    assert_eq!(Status::from_i32(-1), None);
    assert_eq!(Status::DiscOK.code(), 4);
}

#[test]
fn disc_type_codes_decode_and_encode() {
    assert_eq!(DiscType::from_i32(0), Some(DiscType::NoInfo));
    assert_eq!(DiscType::from_i32(100), Some(DiscType::Audio));
    assert_eq!(DiscType::from_i32(101), Some(DiscType::Data1));
    assert_eq!(DiscType::from_i32(102), Some(DiscType::Data2));
    assert_eq!(DiscType::from_i32(103), Some(DiscType::XA21));
    assert_eq!(DiscType::from_i32(104), Some(DiscType::XA22));
    assert_eq!(DiscType::from_i32(105), Some(DiscType::Mixed));
    assert_eq!(DiscType::from_i32(42), None);
    assert_eq!(DiscType::Audio.code(), 100);
}

#[test]
fn address_format_bytes() {
    assert_eq!(AddressType::Lba.code(), 0x01);
    assert_eq!(AddressType::Msf.code(), 0x02);
    assert_eq!(AddressType::from_u8(0x01), Some(AddressType::Lba));
    assert_eq!(AddressType::from_u8(0x02), Some(AddressType::Msf));
    assert_eq!(AddressType::from_u8(0x00), None);
    assert_eq!(AddressType::from_u8(0x03), None);
}

#[test]
fn audio_state_bytes() {
    assert_eq!(AudioStates::from_u8(0x00), Some(AudioStates::Invalid));
    assert_eq!(AudioStates::from_u8(0x11), Some(AudioStates::Play));
    assert_eq!(AudioStates::from_u8(0x12), Some(AudioStates::Paused));
    assert_eq!(AudioStates::from_u8(0x13), Some(AudioStates::Completed));
    assert_eq!(AudioStates::from_u8(0x14), Some(AudioStates::Error));
    assert_eq!(AudioStates::from_u8(0x15), Some(AudioStates::NoStatus));
    assert_eq!(AudioStates::from_u8(0x16), None);
    assert_eq!(AudioStates::Play.code(), 0x11);
}

#[test]
fn capability_masks_are_single_documented_bits() {
    assert_eq!(Capability::CloseTray.mask(), 0x01);
    assert_eq!(Capability::Lock.mask(), 0x04);
    assert_eq!(Capability::Mcn.mask(), 0x40);
    assert_eq!(Capability::PlayAudio.mask(), 0x100);
    assert_eq!(Capability::GenericPacket.mask(), 0x1000);
    assert_eq!(Capability::Dvd.mask(), 0x8000);
    assert_eq!(Capability::Ram.mask(), 0x2000000);
}

#[test]
fn geometry_constants_match_the_wire_contract() {
    assert_eq!(CD_FRAMESIZE, 2048);
    assert_eq!(CD_FRAMESIZE_RAW, 2352);
    assert_eq!(CD_FRAMESIZE_RAWER, 2646);
    assert_eq!(EDRIVE_CANT_DO_THIS, 95);
}
