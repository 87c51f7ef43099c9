//! The operation registry and the numeric constants of the kernel's CD-ROM
//! ioctl protocol.
//!
//! See <https://docs.kernel.org/userspace-api/ioctl/cdrom.html> for the
//! meanings of the opcode bytes.

use vstd::prelude::*;

verus! {

/// CDROM ioctl class byte, from the kernel's cdrom interface
pub const IOC_BYTE: u8 = 0x53;

/// errno value the kernel uses for "operation not supported" (EOPNOTSUPP)
pub const ERRNO_EOPNOTSUPP: i32 = 95;

/// errno value for "no medium found" (ENOMEDIUM)
pub const ERRNO_ENOMEDIUM: i32 = 123;

/// errno value for "device or resource busy" (EBUSY)
pub const ERRNO_EBUSY: i32 = 16;

/// errno value for "function not implemented" (ENOSYS)
pub const ERRNO_ENOSYS: i32 = 38;

/// Sentinel some drives return in-band to signal "cannot perform this
/// operation"; it coincides with the EOPNOTSUPP errno value.
pub const EDRIVE_CANT_DO_THIS: i32 = ERRNO_EOPNOTSUPP;

/// Minutes of playable content on a standard disc
pub const CD_MINS: i32 = 74;

/// Seconds per minute of time-code addressing
pub const CD_SECS: i32 = 60;

/// Frames per second of time-code addressing
pub const CD_FRAMES: i32 = 75;

/// Bytes of sync data at the head of a raw frame
pub const CD_SYNC_SIZE: i32 = 12;

/// Lead-in offset between time-code zero and logical block zero, in sectors
pub const CD_MSF_OFFSET: i32 = 150;

/// Bytes per chunk of interleaved sub-channel data
pub const CD_CHUNK_SIZE: i32 = 24;

/// Chunks of interleaved sub-channel data per frame
pub const CD_NUM_OF_CHUNKS: i32 = 98;

/// Bytes of raw P-W sub-channel data per frame
pub const CD_FRAMESIZE_SUB: i32 = 96;

/// Bytes of header (address and mode) in a raw frame
pub const CD_HEAD_SIZE: i32 = 4;

/// Bytes of mode-2 sub-header in a raw frame
pub const CD_SUBHEAD_SIZE: i32 = 8;

/// Bytes of error detection code in a mode-1 frame
pub const CD_EDC_SIZE: i32 = 4;

/// Bytes of zero padding in a mode-1 frame
pub const CD_ZERO_SIZE: i32 = 8;

/// Bytes of error correction code in a mode-1 frame
pub const CD_ECC_SIZE: i32 = 276;

/// Bytes of user data in a cooked (mode-1) frame
pub const CD_FRAMESIZE: i32 = 2048;

/// Bytes in a raw frame, and so in one audio frame
pub const CD_FRAMESIZE_RAW: i32 = 2352;

/// Bytes in a deinterleaved raw frame with sub-channel data
pub const CD_FRAMESIZE_RAWER: i32 = 2646;

/// Raw frame bytes without the sync field
pub const CD_FRAMESIZE_RAW1: i32 = CD_FRAMESIZE_RAW - CD_SYNC_SIZE;

/// Raw frame bytes without the sync field and header
pub const CD_FRAMESIZE_RAW0: i32 = CD_FRAMESIZE_RAW - CD_SYNC_SIZE - CD_HEAD_SIZE;

/// Bytes of header and sub-header in an XA frame
pub const CD_XA_HEAD: i32 = CD_HEAD_SIZE + CD_SUBHEAD_SIZE;

/// Bytes of EDC and ECC trailing an XA frame
pub const CD_XA_TAIL: i32 = CD_EDC_SIZE + CD_ECC_SIZE;

/// Bytes of sync, header and sub-header in an XA frame
pub const CD_XA_SYNC_HEAD: i32 = CD_SYNC_SIZE + CD_XA_HEAD;

/// Symbolic drive operations of the CD-ROM ioctl family, each bound to a
/// one-byte opcode (see [`Operation::opcode`]).
#[derive(Debug, Clone, Copy, PartialEq, Eq, Structural)]
pub enum Operation {
    /// Pause Audio Operation
    Pause,
    /// Resume paused Audio Operation
    Resume,
    /// Play Audio MSF
    PlayMsf,
    /// Play Audio Track/index
    PlayTrackIndex,
    /// Read TOC header
    ReadTocHeader,
    /// Read TOC entry
    ReadTocEntry,
    /// Stop the cdrom drive
    Stop,
    /// Start the cdrom drive
    Start,
    /// Ejects the cdrom media
    Eject,
    /// Control output volume
    VolumeControl,
    /// Read subchannel data
    SubChannel,
    /// Read CDROM mode 2 data (2336 Bytes)
    ReadMode2,
    /// Read CDROM mode 1 data (2048 Bytes)
    ReadMode1,
    /// Read audio frames
    ReadAudio,
    /// Enable (1)/Disable (0) auto-ejecting
    EjectSoftware,
    /// Obtain the start-of-last-session address of multi session disks
    MultiSession,
    /// Obtain the "Universal Product Code" if available
    GetMcn,
    /// Hard-reset the drive
    Reset,
    /// Get the drive's volume setting
    VolumeRead,
    /// Read data in raw mode (2352 Bytes)
    ReadRaw,
    /// Read data in cooked mode
    ReadCooked,
    /// Seek msf address
    Seek,
    /// Play audio in logical block addressing mode
    PlayBlock,
    /// Read all 2646 bytes
    ReadAll,
    /// Get drive spindown time
    GetSpindown,
    /// Set drive spindown time
    SetSpindown,
    /// Pendant of [`Operation::Eject`]
    CloseTray,
    /// Set behavior options
    SetOptions,
    /// Clear behavior options
    ClearOptions,
    /// Set the CD-ROM speed
    SelectSpeed,
    /// Select disc (for juke-boxes)
    SelectDisk,
    /// Check is media changed
    MediaChanged,
    /// Get tray position, etc
    DriveStatus,
    /// Get disc type, etc
    DiscStatus,
    /// Get number of slots
    ChangerNslots,
    /// Lock or unlock door
    LockDoor,
    /// Turn debug messages on/off
    Debug,
    /// Get capabilities
    GetCapability,
    /// Set the audio buffer size
    AudioBufferSize,
    /// Read DVD structure
    DvdReadStructure,
    /// Write DVD structure
    DvdWriteStructure,
    /// DVD authentication
    DvdAuthenticate,
    /// Send a packet to the drive
    SendPacket,
    /// Get next writable block
    NextWritable,
    /// Get last block written on disc
    LastWritten,
    /// Get the timestamp of the last media change
    TimedMediaChange,
}

/// The one-byte opcode bound to each symbolic operation.
pub open spec fn opcode_of(op: Operation) -> u8 {
    match op {
        Operation::Pause => 0x01,
        Operation::Resume => 0x02,
        Operation::PlayMsf => 0x03,
        Operation::PlayTrackIndex => 0x04,
        Operation::ReadTocHeader => 0x05,
        Operation::ReadTocEntry => 0x06,
        Operation::Stop => 0x07,
        Operation::Start => 0x08,
        Operation::Eject => 0x09,
        Operation::VolumeControl => 0x0a,
        Operation::SubChannel => 0x0b,
        Operation::ReadMode2 => 0x0c,
        Operation::ReadMode1 => 0x0d,
        Operation::ReadAudio => 0x0e,
        Operation::EjectSoftware => 0x0f,
        Operation::MultiSession => 0x10,
        Operation::GetMcn => 0x11,
        Operation::Reset => 0x12,
        Operation::VolumeRead => 0x13,
        Operation::ReadRaw => 0x14,
        Operation::ReadCooked => 0x15,
        Operation::Seek => 0x16,
        Operation::PlayBlock => 0x17,
        Operation::ReadAll => 0x18,
        Operation::GetSpindown => 0x1d,
        Operation::SetSpindown => 0x1e,
        Operation::CloseTray => 0x19,
        Operation::SetOptions => 0x20,
        Operation::ClearOptions => 0x21,
        Operation::SelectSpeed => 0x22,
        Operation::SelectDisk => 0x23,
        Operation::MediaChanged => 0x25,
        Operation::DriveStatus => 0x26,
        Operation::DiscStatus => 0x27,
        Operation::ChangerNslots => 0x28,
        Operation::LockDoor => 0x29,
        Operation::Debug => 0x30,
        Operation::GetCapability => 0x31,
        Operation::AudioBufferSize => 0x82,
        Operation::DvdReadStructure => 0x90,
        Operation::DvdWriteStructure => 0x91,
        Operation::DvdAuthenticate => 0x92,
        Operation::SendPacket => 0x93,
        Operation::NextWritable => 0x94,
        Operation::LastWritten => 0x95,
        Operation::TimedMediaChange => 0x96,
    }
}

impl Operation {
    /// The one-byte opcode of this operation.
    pub fn opcode(self) -> (r: u8)
        ensures
            r == opcode_of(self),
    {
        match self {
            Operation::Pause => 0x01,
            Operation::Resume => 0x02,
            Operation::PlayMsf => 0x03,
            Operation::PlayTrackIndex => 0x04,
            Operation::ReadTocHeader => 0x05,
            Operation::ReadTocEntry => 0x06,
            Operation::Stop => 0x07,
            Operation::Start => 0x08,
            Operation::Eject => 0x09,
            Operation::VolumeControl => 0x0a,
            Operation::SubChannel => 0x0b,
            Operation::ReadMode2 => 0x0c,
            Operation::ReadMode1 => 0x0d,
            Operation::ReadAudio => 0x0e,
            Operation::EjectSoftware => 0x0f,
            Operation::MultiSession => 0x10,
            Operation::GetMcn => 0x11,
            Operation::Reset => 0x12,
            Operation::VolumeRead => 0x13,
            Operation::ReadRaw => 0x14,
            Operation::ReadCooked => 0x15,
            Operation::Seek => 0x16,
            Operation::PlayBlock => 0x17,
            Operation::ReadAll => 0x18,
            Operation::GetSpindown => 0x1d,
            Operation::SetSpindown => 0x1e,
            Operation::CloseTray => 0x19,
            Operation::SetOptions => 0x20,
            Operation::ClearOptions => 0x21,
            Operation::SelectSpeed => 0x22,
            Operation::SelectDisk => 0x23,
            Operation::MediaChanged => 0x25,
            Operation::DriveStatus => 0x26,
            Operation::DiscStatus => 0x27,
            Operation::ChangerNslots => 0x28,
            Operation::LockDoor => 0x29,
            Operation::Debug => 0x30,
            Operation::GetCapability => 0x31,
            Operation::AudioBufferSize => 0x82,
            Operation::DvdReadStructure => 0x90,
            Operation::DvdWriteStructure => 0x91,
            Operation::DvdAuthenticate => 0x92,
            Operation::SendPacket => 0x93,
            Operation::NextWritable => 0x94,
            Operation::LastWritten => 0x95,
            Operation::TimedMediaChange => 0x96,
        }
    }
}

/// Drive status possibilities returned by the DriveStatus ioctl.
#[derive(Debug, Clone, Copy, PartialEq, Eq, Structural)]
pub enum Status {
    NoInfo,
    NoDisc,
    TrayOpen,
    DriveNotReady,
    DiscOK,
}

/// The raw code the DriveStatus ioctl uses for each status.
pub open spec fn status_code_of(s: Status) -> i32 {
    match s {
        Status::NoInfo => 0,
        Status::NoDisc => 1,
        Status::TrayOpen => 2,
        Status::DriveNotReady => 3,
        Status::DiscOK => 4,
    }
}

/// The status a raw code decodes to; codes outside the known enumeration
/// decode to nothing.
pub open spec fn status_of_code(code: i32) -> Option<Status> {
    if code == 0 {
        Some(Status::NoInfo)
    } else if code == 1 {
        Some(Status::NoDisc)
    } else if code == 2 {
        Some(Status::TrayOpen)
    } else if code == 3 {
        Some(Status::DriveNotReady)
    } else if code == 4 {
        Some(Status::DiscOK)
    } else {
        None
    }
}

impl Status {
    /// The raw code of this status.
    pub fn code(self) -> (r: i32)
        ensures
            r == status_code_of(self),
    {
        match self {
            Status::NoInfo => 0,
            Status::NoDisc => 1,
            Status::TrayOpen => 2,
            Status::DriveNotReady => 3,
            Status::DiscOK => 4,
        }
    }

    /// Decodes a raw drive-status code; an unknown code is not fatal, but
    /// undecodable.
    pub fn from_i32(code: i32) -> (r: Option<Status>)
        ensures
            r == status_of_code(code),
    {
        match code {
            0 => Some(Status::NoInfo),
            1 => Some(Status::NoDisc),
            2 => Some(Status::TrayOpen),
            3 => Some(Status::DriveNotReady),
            4 => Some(Status::DiscOK),
            _ => None,
        }
    }
}

/// Disc status possibilities returned by the DiscStatus ioctl.
#[derive(Debug, Clone, Copy, PartialEq, Eq, Structural)]
pub enum DiscType {
    NoInfo,
    Audio,
    Data1,
    Data2,
    XA21,
    XA22,
    Mixed,
}

/// The raw code the DiscStatus ioctl uses for each disc type.
pub open spec fn disc_type_code_of(d: DiscType) -> i32 {
    match d {
        DiscType::NoInfo => 0,
        DiscType::Audio => 100,
        DiscType::Data1 => 101,
        DiscType::Data2 => 102,
        DiscType::XA21 => 103,
        DiscType::XA22 => 104,
        DiscType::Mixed => 105,
    }
}

/// The disc type a raw code decodes to; codes outside the known enumeration
/// decode to nothing.
pub open spec fn disc_type_of_code(code: i32) -> Option<DiscType> {
    if code == 0 {
        Some(DiscType::NoInfo)
    } else if code == 100 {
        Some(DiscType::Audio)
    } else if code == 101 {
        Some(DiscType::Data1)
    } else if code == 102 {
        Some(DiscType::Data2)
    } else if code == 103 {
        Some(DiscType::XA21)
    } else if code == 104 {
        Some(DiscType::XA22)
    } else if code == 105 {
        Some(DiscType::Mixed)
    } else {
        None
    }
}

impl DiscType {
    /// The raw code of this disc type.
    pub fn code(self) -> (r: i32)
        ensures
            r == disc_type_code_of(self),
    {
        match self {
            DiscType::NoInfo => 0,
            DiscType::Audio => 100,
            DiscType::Data1 => 101,
            DiscType::Data2 => 102,
            DiscType::XA21 => 103,
            DiscType::XA22 => 104,
            DiscType::Mixed => 105,
        }
    }

    /// Decodes a raw disc-status code; the decoding-miss policy is the same
    /// as for [`Status::from_i32`].
    pub fn from_i32(code: i32) -> (r: Option<DiscType>)
        ensures
            r == disc_type_of_code(code),
    {
        match code {
            0 => Some(DiscType::NoInfo),
            100 => Some(DiscType::Audio),
            101 => Some(DiscType::Data1),
            102 => Some(DiscType::Data2),
            103 => Some(DiscType::XA21),
            104 => Some(DiscType::XA22),
            105 => Some(DiscType::Mixed),
            _ => None,
        }
    }
}

/// Address format discriminant written into request records and returned in
/// response records.
#[derive(Debug, Clone, Copy, PartialEq, Eq, Structural)]
pub enum AddressType {
    Lba,
    Msf,
}

/// The wire byte of each address format discriminant.
pub open spec fn address_type_code_of(t: AddressType) -> u8 {
    match t {
        AddressType::Lba => 0x01,
        AddressType::Msf => 0x02,
    }
}

/// The address format a wire byte decodes to; the protocol guarantees one of
/// the two known values, so anything else decodes to nothing.
pub open spec fn address_type_of_code(code: u8) -> Option<AddressType> {
    if code == 0x01 {
        Some(AddressType::Lba)
    } else if code == 0x02 {
        Some(AddressType::Msf)
    } else {
        None
    }
}

impl AddressType {
    /// The wire byte of this address format.
    pub fn code(self) -> (r: u8)
        ensures
            r == address_type_code_of(self),
    {
        match self {
            AddressType::Lba => 0x01,
            AddressType::Msf => 0x02,
        }
    }

    /// Decodes a wire format byte.
    pub fn from_u8(code: u8) -> (r: Option<AddressType>)
        ensures
            r == address_type_of_code(code),
    {
        match code {
            0x01 => Some(AddressType::Lba),
            0x02 => Some(AddressType::Msf),
            _ => None,
        }
    }
}

/// Audio states reported in the sub-channel record's status byte.
#[derive(Debug, Clone, Copy, PartialEq, Eq, Structural)]
pub enum AudioStates {
    Invalid,
    Play,
    Paused,
    Completed,
    Error,
    NoStatus,
}

/// The raw byte of each audio state.
pub open spec fn audio_state_code_of(s: AudioStates) -> u8 {
    match s {
        AudioStates::Invalid => 0x00,
        AudioStates::Play => 0x11,
        AudioStates::Paused => 0x12,
        AudioStates::Completed => 0x13,
        AudioStates::Error => 0x14,
        AudioStates::NoStatus => 0x15,
    }
}

/// The audio state a raw byte decodes to.
pub open spec fn audio_state_of_code(code: u8) -> Option<AudioStates> {
    if code == 0x00 {
        Some(AudioStates::Invalid)
    } else if code == 0x11 {
        Some(AudioStates::Play)
    } else if code == 0x12 {
        Some(AudioStates::Paused)
    } else if code == 0x13 {
        Some(AudioStates::Completed)
    } else if code == 0x14 {
        Some(AudioStates::Error)
    } else if code == 0x15 {
        Some(AudioStates::NoStatus)
    } else {
        None
    }
}

impl AudioStates {
    /// The raw byte of this audio state.
    pub fn code(self) -> (r: u8)
        ensures
            r == audio_state_code_of(self),
    {
        match self {
            AudioStates::Invalid => 0x00,
            AudioStates::Play => 0x11,
            AudioStates::Paused => 0x12,
            AudioStates::Completed => 0x13,
            AudioStates::Error => 0x14,
            AudioStates::NoStatus => 0x15,
        }
    }

    /// Decodes a raw audio-status byte.
    pub fn from_u8(code: u8) -> (r: Option<AudioStates>)
        ensures
            r == audio_state_of_code(code),
    {
        match code {
            0x00 => Some(AudioStates::Invalid),
            0x11 => Some(AudioStates::Play),
            0x12 => Some(AudioStates::Paused),
            0x13 => Some(AudioStates::Completed),
            0x14 => Some(AudioStates::Error),
            0x15 => Some(AudioStates::NoStatus),
            _ => None,
        }
    }
}

/// Capability bits reported by the GetCapability ioctl.
#[derive(Debug, Clone, Copy, PartialEq, Eq, Structural)]
pub enum Capability {
    CloseTray,
    OpenTray,
    Lock,
    SelectSpeed,
    SelectDisc,
    MultiSession,
    Mcn,
    MediaChanged,
    PlayAudio,
    Reset,
    DriveStatus,
    GenericPacket,
    CdR,
    CdRW,
    Dvd,
    DvdR,
    DvdRam,
    MODrive,
    Mrw,
    MrwW,
    Ram,
}

/// The mask bit of each capability.
pub open spec fn capability_mask_of(c: Capability) -> u32 {
    match c {
        Capability::CloseTray => 0x01,
        Capability::OpenTray => 0x02,
        Capability::Lock => 0x04,
        Capability::SelectSpeed => 0x08,
        Capability::SelectDisc => 0x10,
        Capability::MultiSession => 0x20,
        Capability::Mcn => 0x40,
        Capability::MediaChanged => 0x80,
        Capability::PlayAudio => 0x100,
        Capability::Reset => 0x200,
        Capability::DriveStatus => 0x800,
        Capability::GenericPacket => 0x1000,
        Capability::CdR => 0x2000,
        Capability::CdRW => 0x4000,
        Capability::Dvd => 0x8000,
        Capability::DvdR => 0x10000,
        Capability::DvdRam => 0x20000,
        Capability::MODrive => 0x40000,
        Capability::Mrw => 0x80000,
        Capability::MrwW => 0x1000000,
        Capability::Ram => 0x2000000,
    }
}

impl Capability {
    /// The mask bit of this capability in the GetCapability result.
    pub fn mask(self) -> (r: u32)
        ensures
            r == capability_mask_of(self),
    {
        match self {
            Capability::CloseTray => 0x01,
            Capability::OpenTray => 0x02,
            Capability::Lock => 0x04,
            Capability::SelectSpeed => 0x08,
            Capability::SelectDisc => 0x10,
            Capability::MultiSession => 0x20,
            Capability::Mcn => 0x40,
            Capability::MediaChanged => 0x80,
            Capability::PlayAudio => 0x100,
            Capability::Reset => 0x200,
            Capability::DriveStatus => 0x800,
            Capability::GenericPacket => 0x1000,
            Capability::CdR => 0x2000,
            Capability::CdRW => 0x4000,
            Capability::Dvd => 0x8000,
            Capability::DvdR => 0x10000,
            Capability::DvdRam => 0x20000,
            Capability::MODrive => 0x40000,
            Capability::Mrw => 0x80000,
            Capability::MrwW => 0x1000000,
            Capability::Ram => 0x2000000,
        }
    }
}

/// The full control code of an operation: the ioctl class byte in the high
/// byte, the opcode in the low byte.
pub open spec fn ioctl_of(op: Operation) -> int {
    0x53 * 0x100 + opcode_of(op)
}

/// Turns the operation into its full ioctl control code,
/// `(0x53 << 8) + opcode`.
pub fn op_to_ioctl(op: Operation) -> (r: u64)
    ensures
        r == ioctl_of(op),
        r == 0x5300 + opcode_of(op),
{
    proof {
        assert((0x53u64 << 8) == 0x5300u64) by (bit_vector);
    }
    ((IOC_BYTE as u64) << 8) + op.opcode() as u64
}

} // verus!
