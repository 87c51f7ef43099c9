//! Generic packet command declarations for CD/DVD logical units, from the
//! SFF8090 (Mt. Fuji) draft standard, and the sense-data records they
//! report failures through.
//!
//! These are declared symbolically for completeness of the operation
//! registry; the adapter's call surface never dispatches them.

use vstd::prelude::*;

verus! {

/// Bytes in a generic packet command block
pub const CDROM_PACKET_SIZE: usize = 12;

/// First byte of the sense data: a 7-bit error code and a validity flag,
/// packed low-to-high on a little-endian machine.
#[derive(Debug, Clone, Copy, PartialEq, Eq, Structural)]
pub struct ValidError(pub u8);

/// The error-code bits of the packed byte: its low seven bits.
pub open spec fn valid_error_code_of(b: u8) -> u8 {
    b & 0x7f
}

/// The validity flag of the packed byte: its high bit.
pub open spec fn valid_flag_of(b: u8) -> u8 {
    b >> 7
}

impl ValidError {
    /// A packed byte with both fields zero.
    pub fn new() -> (r: Self)
        ensures
            r.0 == 0,
    {
        ValidError(0)
    }

    /// The 7-bit error code.
    pub fn error_code(&self) -> (r: u8)
        ensures
            r == valid_error_code_of(self.0),
    {
        self.0 & 0x7f
    }

    /// The validity flag.
    pub fn valid(&self) -> (r: u8)
        ensures
            r == valid_flag_of(self.0),
    {
        self.0 >> 7
    }

    /// The packed byte with the error code replaced.
    pub fn with_error_code(self, code: u8) -> (r: Self)
        requires
            code < 0x80,
        ensures
            valid_error_code_of(r.0) == code,
            valid_flag_of(r.0) == valid_flag_of(self.0),
    {
        let b = self.0;
        proof {
            assert(((b & 0x80) | code) & 0x7f == code && ((b & 0x80) | code) >> 7 == b >> 7)
                by (bit_vector)
                requires
                    code < 0x80,
            ;
        }
        ValidError((b & 0x80) | code)
    }

    /// The packed byte with the validity flag replaced.
    pub fn with_valid(self, flag: u8) -> (r: Self)
        requires
            flag < 2,
        ensures
            valid_flag_of(r.0) == flag,
            valid_error_code_of(r.0) == valid_error_code_of(self.0),
    {
        let b = self.0;
        proof {
            assert(((b & 0x7f) | (flag << 7)) >> 7 == flag && ((b & 0x7f) | (flag << 7)) & 0x7f
                == b & 0x7f) by (bit_vector)
                requires
                    flag < 2,
            ;
        }
        ValidError((b & 0x7f) | (flag << 7))
    }
}

/// Third byte of the sense data: the sense key and three flag fields,
/// packed low-to-high on a little-endian machine.
#[derive(Debug, Clone, Copy, PartialEq, Eq, Structural)]
pub struct Reserved(pub u8);

/// The sense key of the packed byte: its low four bits.
pub open spec fn sense_key_of(b: u8) -> u8 {
    b & 0x0f
}

/// The first reserved bit of the packed byte.
pub open spec fn reserved2_of(b: u8) -> u8 {
    (b >> 4) & 1
}

/// The incorrect-length indicator of the packed byte.
pub open spec fn ili_of(b: u8) -> u8 {
    (b >> 5) & 1
}

/// The top two reserved bits of the packed byte.
pub open spec fn reserved1_of(b: u8) -> u8 {
    b >> 6
}

impl Reserved {
    /// A packed byte with every field zero.
    pub fn new() -> (r: Self)
        ensures
            r.0 == 0,
    {
        Reserved(0)
    }

    /// The 4-bit sense key.
    pub fn sense_key(&self) -> (r: u8)
        ensures
            r == sense_key_of(self.0),
    {
        self.0 & 0x0f
    }

    /// The first reserved bit.
    pub fn reserved2(&self) -> (r: u8)
        ensures
            r == reserved2_of(self.0),
    {
        (self.0 >> 4) & 1
    }

    /// The incorrect-length indicator bit.
    pub fn ili(&self) -> (r: u8)
        ensures
            r == ili_of(self.0),
    {
        (self.0 >> 5) & 1
    }

    /// The top two reserved bits.
    pub fn reserved1(&self) -> (r: u8)
        ensures
            r == reserved1_of(self.0),
    {
        self.0 >> 6
    }

    /// The packed byte with the sense key replaced.
    pub fn with_sense_key(self, key: u8) -> (r: Self)
        requires
            key < 0x10,
        ensures
            sense_key_of(r.0) == key,
            reserved2_of(r.0) == reserved2_of(self.0),
            ili_of(r.0) == ili_of(self.0),
            reserved1_of(r.0) == reserved1_of(self.0),
    {
        let b = self.0;
        proof {
            assert(((b & 0xf0) | key) & 0x0f == key && (((b & 0xf0) | key) >> 4) & 1 == (b >> 4)
                & 1 && (((b & 0xf0) | key) >> 5) & 1 == (b >> 5) & 1 && ((b & 0xf0) | key) >> 6
                == b >> 6) by (bit_vector)
                requires
                    key < 0x10,
            ;
        }
        Reserved((b & 0xf0) | key)
    }
}

/// Fixed-format sense data a drive reports packet-command failures through.
#[derive(Debug, Clone, Copy, PartialEq, Eq)]
pub struct RequestSense {
    pub valid_error: ValidError,
    pub segment_number: u8,
    pub reserved: Reserved,
    pub information: [u8; 4],
    pub addditional_sense_len: u8,
    pub command_info: [u8; 4],
    pub asc: u8,
    pub ascq: u8,
    pub fruc: u8,
    pub sks: [u8; 3],
    pub asb: [u8; 46],
}

/// The generic packet command opcodes for CD/DVD logical units, from Table
/// 57 of the SFF8090 Ver. 3 (Mt. Fuji) draft standard (see
/// [`GenericPacketCommand::opcode`] for the byte of each).
#[derive(Debug, Clone, Copy, PartialEq, Eq, Structural)]
pub enum GenericPacketCommand {
    Blank,
    CloseTrack,
    FlushCache,
    FormatUnit,
    GetConfiguration,
    GetEventStatus,
    GetPerformance,
    GetInquiry,
    LoadUnload,
    MechanismStatus,
    ModeSelect10,
    ModeSense10,
    PauseResume,
    PlayAudio10,
    PlayAudioMsf,
    /// A SCSI specific CD-ROM opcode to play data at track/index
    PlayAudioTi,
    PlayCd,
    PreventAllowMediumRemoval,
    Read10,
    Read12,
    ReadBuffer,
    ReadBufferCapacity,
    ReadCdvdCapacity,
    ReadCd,
    ReadCdMsf,
    ReadDiscInfo,
    ReadDvdStructure,
    ReadFormatCapabilities,
    ReadHeader,
    ReadTrackRzoneInfo,
    ReadSubchannel,
    ReadTocPmaAtip,
    RepairRzoneTrack,
    ReportKey,
    RequestSense,
    ReserveRzoneTrack,
    SendCueSheet,
    Scan,
    Seek,
    SendDvdStructure,
    SendEvent,
    SendKey,
    SendOpc,
    SetReadAhead,
    SetStreaming,
    StartStopUnit,
    StopPlayScan,
    TestUnitReady,
    Verify10,
    Write10,
    Write12,
    WriteAndVerify10,
    WriteBuffer,
    /// Listed as optional in ATAPI 2.6 but missing from Mt. Fuji Table 57;
    /// most ATAPI drives support it
    SetSpeed,
    /// From the MS Media Status Notification Support Specification, for
    /// older drives only
    GetMediaStatus,
}

/// The command byte of each generic packet command.
pub open spec fn packet_opcode_of(c: GenericPacketCommand) -> u8 {
    match c {
        GenericPacketCommand::Blank => 0xa1,
        GenericPacketCommand::CloseTrack => 0x5b,
        GenericPacketCommand::FlushCache => 0x35,
        GenericPacketCommand::FormatUnit => 0x04,
        GenericPacketCommand::GetConfiguration => 0x46,
        GenericPacketCommand::GetEventStatus => 0x4a,
        GenericPacketCommand::GetPerformance => 0xac,
        GenericPacketCommand::GetInquiry => 0x12,
        GenericPacketCommand::LoadUnload => 0xa6,
        GenericPacketCommand::MechanismStatus => 0xbd,
        GenericPacketCommand::ModeSelect10 => 0x55,
        GenericPacketCommand::ModeSense10 => 0x5a,
        GenericPacketCommand::PauseResume => 0x4b,
        GenericPacketCommand::PlayAudio10 => 0x45,
        GenericPacketCommand::PlayAudioMsf => 0x47,
        GenericPacketCommand::PlayAudioTi => 0x48,
        GenericPacketCommand::PlayCd => 0xbc,
        GenericPacketCommand::PreventAllowMediumRemoval => 0x1e,
        GenericPacketCommand::Read10 => 0x28,
        GenericPacketCommand::Read12 => 0xa8,
        GenericPacketCommand::ReadBuffer => 0x3c,
        GenericPacketCommand::ReadBufferCapacity => 0x5c,
        GenericPacketCommand::ReadCdvdCapacity => 0x25,
        GenericPacketCommand::ReadCd => 0xbe,
        GenericPacketCommand::ReadCdMsf => 0xb9,
        GenericPacketCommand::ReadDiscInfo => 0x51,
        GenericPacketCommand::ReadDvdStructure => 0xad,
        GenericPacketCommand::ReadFormatCapabilities => 0x23,
        GenericPacketCommand::ReadHeader => 0x44,
        GenericPacketCommand::ReadTrackRzoneInfo => 0x52,
        GenericPacketCommand::ReadSubchannel => 0x42,
        GenericPacketCommand::ReadTocPmaAtip => 0x43,
        GenericPacketCommand::RepairRzoneTrack => 0x58,
        GenericPacketCommand::ReportKey => 0xa4,
        GenericPacketCommand::RequestSense => 0x03,
        GenericPacketCommand::ReserveRzoneTrack => 0x53,
        GenericPacketCommand::SendCueSheet => 0x5d,
        GenericPacketCommand::Scan => 0xba,
        GenericPacketCommand::Seek => 0x2b,
        GenericPacketCommand::SendDvdStructure => 0xbf,
        GenericPacketCommand::SendEvent => 0xa2,
        GenericPacketCommand::SendKey => 0xa3,
        GenericPacketCommand::SendOpc => 0x54,
        GenericPacketCommand::SetReadAhead => 0xa7,
        GenericPacketCommand::SetStreaming => 0xb6,
        GenericPacketCommand::StartStopUnit => 0x1b,
        GenericPacketCommand::StopPlayScan => 0x4e,
        GenericPacketCommand::TestUnitReady => 0x00,
        GenericPacketCommand::Verify10 => 0x2f,
        GenericPacketCommand::Write10 => 0x2a,
        GenericPacketCommand::Write12 => 0xaa,
        GenericPacketCommand::WriteAndVerify10 => 0x2e,
        GenericPacketCommand::WriteBuffer => 0x3b,
        GenericPacketCommand::SetSpeed => 0xbb,
        GenericPacketCommand::GetMediaStatus => 0xda,
    }
}

impl GenericPacketCommand {
    /// The command byte of this generic packet command.
    pub fn opcode(self) -> (r: u8)
        ensures
            r == packet_opcode_of(self),
    {
        match self {
            GenericPacketCommand::Blank => 0xa1,
            GenericPacketCommand::CloseTrack => 0x5b,
            GenericPacketCommand::FlushCache => 0x35,
            GenericPacketCommand::FormatUnit => 0x04,
            GenericPacketCommand::GetConfiguration => 0x46,
            GenericPacketCommand::GetEventStatus => 0x4a,
            GenericPacketCommand::GetPerformance => 0xac,
            GenericPacketCommand::GetInquiry => 0x12,
            GenericPacketCommand::LoadUnload => 0xa6,
            GenericPacketCommand::MechanismStatus => 0xbd,
            GenericPacketCommand::ModeSelect10 => 0x55,
            GenericPacketCommand::ModeSense10 => 0x5a,
            GenericPacketCommand::PauseResume => 0x4b,
            GenericPacketCommand::PlayAudio10 => 0x45,
            GenericPacketCommand::PlayAudioMsf => 0x47,
            GenericPacketCommand::PlayAudioTi => 0x48,
            GenericPacketCommand::PlayCd => 0xbc,
            GenericPacketCommand::PreventAllowMediumRemoval => 0x1e,
            GenericPacketCommand::Read10 => 0x28,
            GenericPacketCommand::Read12 => 0xa8,
            GenericPacketCommand::ReadBuffer => 0x3c,
            GenericPacketCommand::ReadBufferCapacity => 0x5c,
            GenericPacketCommand::ReadCdvdCapacity => 0x25,
            GenericPacketCommand::ReadCd => 0xbe,
            GenericPacketCommand::ReadCdMsf => 0xb9,
            GenericPacketCommand::ReadDiscInfo => 0x51,
            GenericPacketCommand::ReadDvdStructure => 0xad,
            GenericPacketCommand::ReadFormatCapabilities => 0x23,
            GenericPacketCommand::ReadHeader => 0x44,
            GenericPacketCommand::ReadTrackRzoneInfo => 0x52,
            GenericPacketCommand::ReadSubchannel => 0x42,
            GenericPacketCommand::ReadTocPmaAtip => 0x43,
            GenericPacketCommand::RepairRzoneTrack => 0x58,
            GenericPacketCommand::ReportKey => 0xa4,
            GenericPacketCommand::RequestSense => 0x03,
            GenericPacketCommand::ReserveRzoneTrack => 0x53,
            GenericPacketCommand::SendCueSheet => 0x5d,
            GenericPacketCommand::Scan => 0xba,
            GenericPacketCommand::Seek => 0x2b,
            GenericPacketCommand::SendDvdStructure => 0xbf,
            GenericPacketCommand::SendEvent => 0xa2,
            GenericPacketCommand::SendKey => 0xa3,
            GenericPacketCommand::SendOpc => 0x54,
            GenericPacketCommand::SetReadAhead => 0xa7,
            GenericPacketCommand::SetStreaming => 0xb6,
            GenericPacketCommand::StartStopUnit => 0x1b,
            GenericPacketCommand::StopPlayScan => 0x4e,
            GenericPacketCommand::TestUnitReady => 0x00,
            GenericPacketCommand::Verify10 => 0x2f,
            GenericPacketCommand::Write10 => 0x2a,
            GenericPacketCommand::Write12 => 0xaa,
            GenericPacketCommand::WriteAndVerify10 => 0x2e,
            GenericPacketCommand::WriteBuffer => 0x3b,
            GenericPacketCommand::SetSpeed => 0xbb,
            GenericPacketCommand::GetMediaStatus => 0xda,
        }
    }
}

/// Direction of the data phase of a packet command.
#[derive(Debug, Clone, Copy, PartialEq, Eq, Structural)]
pub enum DataDirection {
    Unknown,
    Write,
    Read,
    NoData,
}

} // verus!
