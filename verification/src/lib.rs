//! Control adapter for an optical disc drive driven through the kernel's
//! CD-ROM ioctl protocol.
//!
//! The crate holds the protocol logic: the registry of drive operations and
//! their numeric control codes, the conversion between logical block and
//! minute/second/frame addressing, the fixed-layout wire records the kernel
//! exchanges, and the translation of raw status and errno values into a typed
//! error taxonomy. Issuing the control calls themselves is left to a thin
//! caller that owns the device handle and hands raw results back to this
//! crate for decoding.

use vstd::prelude::*;

pub mod constants;
pub mod drive;
pub mod packet_commands;
pub mod structures;

use crate::constants::{DiscType, Status, AddressType};
use crate::structures::{Addr, SubChannel, TocEntry, TocHeader};

verus! {

/// The closed error taxonomy every drive operation reports through.
///
/// Local precondition failures (bad addresses, undersized buffers) are
/// raised before any device call; OS-level failure codes are decoded into
/// exactly one of these kinds at the point of the call.
#[derive(Debug, Clone, Copy, PartialEq, Eq, Structural)]
pub enum CDRomError {
    /// Any other OS-level failure, wrapped with its raw errno value
    Errno(i32),
    /// No disc in drive to read
    NoDisc,
    /// The disc does not contain cd-audio
    NotAudioCD,
    /// The drive's door is locked for some reason
    DoorLocked,
    /// The drive does not support the function
    Unsupported,
    /// The drive is in use by another user
    Busy,
    /// The address specified falls in the unaddressable lead-in region
    InvalidAddress,
    /// The buffer was too small: needed at least the first size, got the
    /// second
    InvalidBufferSize(usize, usize),
}

/// The call surface of a drive, for callers that want to stay generic over
/// how the control calls reach the hardware. The crate's decode and
/// validation functions give each implementation its per-call logic; the
/// implementation supplies the device handle and the control calls.
pub trait CDRomTrait {
    /// Get the currently reported status of the drive.
    fn status(&mut self) -> Option<Status>;

    /// Get the type of disc currently in the drive.
    fn disc_type(&mut self) -> Option<DiscType>;

    /// Get the Media Catalog Number of the current disc.
    ///
    /// Many discs do not contain this information.
    fn mcn(&mut self) -> Option<String>;

    /// Read the table-of-contents header.
    fn toc_header(&mut self) -> Result<TocHeader, CDRomError>;

    /// Read one table-of-contents entry.
    fn toc_entry(&mut self, index: u8, address_type: AddressType) -> TocEntry;

    /// Lock or unlock the drive door.
    fn set_lock(&mut self, locked: bool) -> Result<(), CDRomError>;

    /// Eject the drive tray.
    fn eject(&mut self) -> Result<(), CDRomError>;

    /// Close the drive tray.
    fn close(&mut self) -> Result<(), CDRomError>;

    /// Read the current sub-channel status.
    fn subchannel(&mut self) -> Result<SubChannel, CDRomError>;

    /// Read audio frames into a freshly allocated buffer.
    fn read_audio(&mut self, address: Addr, frames: usize) -> Result<Vec<i16>, CDRomError>;

    /// Read audio frames into a preallocated buffer of 16-bit samples, at
    /// least `frames * 2352 / 2` of them.
    fn read_audio_into(&mut self, address: Addr, frames: usize, buf: &mut Vec<i16>) -> Result<
        (),
        CDRomError,
    >;

    /// Read one raw 2352-byte sector into a preallocated buffer.
    fn read_raw_into(&mut self, address: Addr, buf: &mut Vec<u8>) -> Result<(), CDRomError>;
}

} // verus!
