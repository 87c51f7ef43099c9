//! Addressing structures: minute/second/frame time codes, the tagged address
//! union, and the fixed-layout records exchanged with the kernel driver.

use vstd::prelude::*;
use vstd::arithmetic::div_mod::lemma_fundamental_div_mod;

verus! {

/// Largest logical block address whose minute/second/frame form still fits in
/// three bytes: the minute field saturates at 255, so the offset address
/// (lba + 150) must stay below 256 * 60 * 75.
pub const MAX_MSF_LBA: i32 = 1151849;

/// Address in MSF (minute/second/frame) format
#[derive(Debug, Clone, Copy, PartialEq, Eq, Structural)]
pub struct Msf {
    pub minute: u8,
    pub second: u8,
    pub frame: u8,
}

/// Logical block address of a time code: 75 frames per second, 60 seconds per
/// minute, and a 150-sector lead-in offset.
pub open spec fn msf_to_lba(m: Msf) -> int {
    (m.minute * 60 + m.second) * 75 + m.frame - 150
}

/// Time code of a logical block address, by integer division on the
/// lead-in-offset address.
pub open spec fn lba_to_msf(lba: int) -> Msf {
    let offset = lba + 150;
    Msf {
        minute: ((offset / 75) / 60) as u8,
        second: ((offset / 75) % 60) as u8,
        frame: (offset % 75) as u8,
    }
}

/// A time code is unaddressable when it falls in the first two seconds of the
/// disc: that region is lead-in.
pub open spec fn msf_is_invalid(m: Msf) -> bool {
    m.minute == 0 && m.second < 2
}

impl Msf {
    /// Logical block address of this time code.
    pub fn to_lba(&self) -> (r: i32)
        ensures
            r == msf_to_lba(*self),
    {
        (((self.minute as i32 * 60) + self.second as i32) * 75 + self.frame as i32) - 150
    }

    /// Time code of a logical block address.
    ///
    /// The address must lie at or after the start of the lead-in and its
    /// offset form must fit the three one-byte fields.
    pub fn from_lba(lba: i32) -> (r: Self)
        requires
            -150 <= lba <= MAX_MSF_LBA,
        ensures
            r == lba_to_msf(lba as int),
    {
        let offset_a: u32 = (lba + 150) as u32;
        proof {
            lemma_div_bounds(offset_a as int);
        }
        Msf {
            minute: ((offset_a / 75) / 60) as u8,
            second: ((offset_a / 75) % 60) as u8,
            frame: (offset_a % 75) as u8,
        }
    }

    /// Whether this time code lies in the unaddressable lead-in region.
    pub fn invalid(&self) -> (r: bool)
        ensures
            r == msf_is_invalid(*self),
    {
        if self.minute == 0 && self.second < 2 {
            true
        } else {
            false
        }
    }
}

/// Bounds of the division chain used by `lba_to_msf`, for offsets that fit
/// three one-byte fields.
proof fn lemma_div_bounds(offset: int)
    requires
        0 <= offset <= 1151999,
    ensures
        0 <= offset / 75 <= 15359,
        0 <= (offset / 75) / 60 <= 255,
        0 <= (offset / 75) % 60 < 60,
        0 <= offset % 75 < 75,
{
    assert(0 <= offset / 75 <= 15359 && 0 <= (offset / 75) / 60 <= 255 && 0 <= (offset / 75)
        % 60 < 60 && 0 <= offset % 75 < 75) by (nonlinear_arith)
        requires
            0 <= offset <= 1151999,
    ;
}

/// Converting a logical block address to a time code and back reproduces the
/// address exactly, for every address the three-byte form can carry.
pub proof fn lemma_lba_round_trip(lba: int)
    requires
        -150 <= lba <= MAX_MSF_LBA,
    ensures
        msf_to_lba(lba_to_msf(lba)) == lba,
{
    let offset = lba + 150;
    lemma_div_bounds(offset);
    lemma_fundamental_div_mod(offset, 75);
    lemma_fundamental_div_mod(offset / 75, 60);
}

/// Address in either MSF or logical block format
#[derive(Debug, Clone, Copy, PartialEq, Eq, Structural)]
pub enum Addr {
    Lba(i32),
    Msf(Msf),
}

/// The time-code view of an address: MSF addresses are taken as they are,
/// logical addresses are converted.
pub open spec fn addr_to_msf(a: Addr) -> Msf {
    match a {
        Addr::Lba(lba) => lba_to_msf(lba as int),
        Addr::Msf(msf) => msf,
    }
}

/// The logical view of an address: logical addresses are taken as they are,
/// MSF addresses are converted.
pub open spec fn addr_to_lba(a: Addr) -> int {
    match a {
        Addr::Lba(lba) => lba as int,
        Addr::Msf(msf) => msf_to_lba(msf),
    }
}

/// The wire format discriminant that matches an address variant.
pub open spec fn addr_format_of(a: Addr) -> crate::constants::AddressType {
    match a {
        Addr::Lba(_) => crate::constants::AddressType::Lba,
        Addr::Msf(_) => crate::constants::AddressType::Msf,
    }
}

impl Addr {
    /// The time-code view of this address.
    ///
    /// A logical address must fit the three-byte time-code form.
    pub fn into_msf(self) -> (r: Msf)
        requires
            self matches Addr::Lba(a) ==> -150 <= a <= MAX_MSF_LBA,
        ensures
            r == addr_to_msf(self),
    {
        match self {
            Addr::Lba(a) => Msf::from_lba(a),
            Addr::Msf(msf) => msf,
        }
    }

    /// The logical view of this address.
    pub fn into_lba(self) -> (r: i32)
        ensures
            r == addr_to_lba(self),
    {
        match self {
            Addr::Lba(a) => a,
            Addr::Msf(msf) => msf.to_lba(),
        }
    }

    /// The address format discriminant a request record carries for this
    /// address.
    pub fn address_type(&self) -> (r: crate::constants::AddressType)
        ensures
            r == addr_format_of(*self),
    {
        match self {
            Addr::Lba(_) => crate::constants::AddressType::Lba,
            Addr::Msf(_) => crate::constants::AddressType::Msf,
        }
    }
}

/// A start/end pair of time codes, as the PlayMsf ioctl expects it.
#[derive(Debug, Clone, Copy, PartialEq, Eq, Structural)]
pub struct MsfLong {
    /// Start minute
    pub min0: u8,
    /// Start second
    pub sec0: u8,
    /// Start frame
    pub frame0: u8,
    /// End minute
    pub min1: u8,
    /// End second
    pub sec1: u8,
    /// End frame
    pub frame1: u8,
}

impl Default for MsfLong {
    /// The all-zero pair.
    fn default() -> (r: Self)
        ensures
            r.min0 == 0 && r.sec0 == 0 && r.frame0 == 0,
            r.min1 == 0 && r.sec1 == 0 && r.frame1 == 0,
    {
        MsfLong { min0: 0, sec0: 0, frame0: 0, min1: 0, sec1: 0, frame1: 0 }
    }
}

/// Table-of-contents header returned by the ReadTocHeader ioctl: the tracks
/// of the disc form the index range `[first_track, last_track)`.
#[derive(Debug, Clone, Copy, PartialEq, Eq, Structural)]
pub struct TocHeader {
    pub first_track: u8,
    pub last_track: u8,
}

impl Default for TocHeader {
    /// A header with both bounds zero, for the driver to overwrite.
    fn default() -> (r: Self)
        ensures
            r.first_track == 0,
            r.last_track == 0,
    {
        TocHeader { first_track: 0, last_track: 0 }
    }
}

impl TocHeader {
    /// The tracks this header describes, in order: exactly the indices from
    /// `first_track` up to but not including `last_track`.
    pub fn tracks(&self) -> (r: Vec<u8>)
        ensures
            self.first_track <= self.last_track ==> r@.len() == self.last_track
                - self.first_track,
            self.first_track > self.last_track ==> r@.len() == 0,
            forall|i: int| 0 <= i < r@.len() ==> r@[i] == self.first_track + i,
    {
        let mut r: Vec<u8> = Vec::new();
        if self.first_track <= self.last_track {
            let mut t: u8 = self.first_track;
            while t < self.last_track
                invariant
                    self.first_track <= t <= self.last_track,
                    r@.len() == t - self.first_track,
                    forall|i: int| 0 <= i < r@.len() ==> r@[i] == self.first_track + i,
                decreases self.last_track - t,
            {
                r.push(t);
                t = t + 1;
            }
        }
        r
    }
}

/// The record the ReadTocEntry ioctl exchanges, with the address union
/// split into its two views: the caller presets `track` and `format`, the
/// driver overwrites `adr_ctrl`, the address and `datamode`.
#[derive(Debug, Clone, Copy, PartialEq, Eq, Structural)]
pub struct TocEntryRaw {
    /// Track to query (preset by the caller)
    pub track: u8,
    /// Packed ADR and control nibbles (returned by the driver)
    pub adr_ctrl: u8,
    /// Address format discriminant (preset; returned unchanged)
    pub format: u8,
    /// Logical view of the address union (valid when `format` says so)
    pub lba: i32,
    /// Time-code view of the address union (valid when `format` says so)
    pub msf: Msf,
    /// Data mode of the track (returned by the driver)
    pub datamode: u8,
}

impl Default for TocEntryRaw {
    /// A fresh request record: all fields zero but the format discriminant,
    /// preset to time-code so an uninitialized call does not request an
    /// undefined format.
    fn default() -> (r: Self)
        ensures
            r.track == 0,
            r.adr_ctrl == 0,
            r.format == crate::constants::address_type_code_of(
                crate::constants::AddressType::Msf,
            ),
            r.lba == 0,
            r.msf == (Msf { minute: 0, second: 0, frame: 0 }),
            r.datamode == 0,
    {
        TocEntryRaw {
            track: 0,
            adr_ctrl: 0,
            format: 0x02,
            lba: 0,
            msf: Msf { minute: 0, second: 0, frame: 0 },
            datamode: 0,
        }
    }
}

/// A decoded table-of-contents entry: the packed ADR/control byte is split
/// into its nibbles and the raw address union is resolved into a tagged
/// address.
#[derive(Debug, Clone, Copy, PartialEq, Eq, Structural)]
pub struct TocEntry {
    pub track: u8,
    pub adr: u8,
    pub ctrl: u8,
    pub addr: Addr,
}

/// The record the SubChannel ioctl exchanges, with each address union split
/// into its two views: the caller presets `format`, the driver overwrites
/// the rest.
#[derive(Debug, Clone, Copy, PartialEq, Eq, Structural)]
pub struct SubChannelRaw {
    /// Address format discriminant (preset; returned unchanged)
    pub format: u8,
    /// Audio status byte (returned by the driver)
    pub audiostatus: u8,
    /// Packed ADR and control nibbles (returned by the driver)
    pub adr_ctrl: u8,
    /// Track number (returned by the driver)
    pub trk: u8,
    /// Index within the track (returned by the driver)
    pub ind: u8,
    /// Logical view of the absolute address union
    pub abs_lba: i32,
    /// Time-code view of the absolute address union
    pub abs_msf: Msf,
    /// Logical view of the relative address union
    pub rel_lba: i32,
    /// Time-code view of the relative address union
    pub rel_msf: Msf,
}

impl Default for SubChannelRaw {
    /// A fresh request record: all fields zero but the format discriminant,
    /// preset to time-code.
    fn default() -> (r: Self)
        ensures
            r.format == crate::constants::address_type_code_of(
                crate::constants::AddressType::Msf,
            ),
            r.audiostatus == 0,
            r.adr_ctrl == 0,
            r.trk == 0,
            r.ind == 0,
            r.abs_lba == 0,
            r.abs_msf == (Msf { minute: 0, second: 0, frame: 0 }),
            r.rel_lba == 0,
            r.rel_msf == (Msf { minute: 0, second: 0, frame: 0 }),
    {
        SubChannelRaw {
            format: 0x02,
            audiostatus: 0,
            adr_ctrl: 0,
            trk: 0,
            ind: 0,
            abs_lba: 0,
            abs_msf: Msf { minute: 0, second: 0, frame: 0 },
            rel_lba: 0,
            rel_msf: Msf { minute: 0, second: 0, frame: 0 },
        }
    }
}

/// Decoded sub-channel status: nibbles split, both address unions resolved
/// according to the single returned format discriminant.
#[derive(Debug, Clone, Copy, PartialEq, Eq, Structural)]
pub struct SubChannel {
    pub audiostatus: u8,
    pub adr: u8,
    pub ctrl: u8,
    pub trk: u8,
    pub ind: u8,
    pub absaddr: Addr,
    pub reladdr: Addr,
}

/// A validated audio-read request: the address to read from and the number
/// of whole frames to transfer. The caller-owned output region stays with
/// the caller; its size has been checked against the frame count.
#[derive(Debug, Clone, Copy, PartialEq, Eq, Structural)]
pub struct ReadAudio {
    /// Frame address, tagged with its format
    pub addr: Addr,
    /// Number of 2352-byte frames to read at once
    pub nframes: i32,
}

} // verus!
