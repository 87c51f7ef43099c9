//! Per-call logic of the drive controller: building request records,
//! validating addresses and buffer sizes before any device call, and
//! decoding raw results and OS failure codes into typed values.
//!
//! Each drive operation is one control call; the functions here carry
//! everything around that call, so the caller that owns the device handle
//! only has to issue the code from the operation registry and hand the raw
//! outcome back.

use vstd::prelude::*;

use crate::CDRomError;
use crate::constants::{
    AddressType, address_type_code_of, address_type_of_code, CD_FRAMESIZE_RAW,
    EDRIVE_CANT_DO_THIS, ERRNO_EBUSY, ERRNO_ENOMEDIUM, ERRNO_ENOSYS, ERRNO_EOPNOTSUPP,
};
use crate::structures::{
    Addr, addr_to_msf, lba_to_msf, Msf, msf_is_invalid, MAX_MSF_LBA, ReadAudio, SubChannel,
    SubChannelRaw, TocEntry, TocEntryRaw, TocHeader,
};

verus! {

/// The typed outcome of a table-of-contents header call: a "no medium"
/// failure means no disc, any other OS failure passes through as an
/// internal error.
pub open spec fn toc_header_outcome(res: Result<TocHeader, i32>) -> Result<
    TocHeader,
    CDRomError,
> {
    match res {
        Ok(header) => Ok(header),
        Err(errno) => if errno == ERRNO_ENOMEDIUM {
            Err(CDRomError::NoDisc)
        } else {
            Err(CDRomError::Errno(errno))
        },
    }
}

/// Translates the outcome of a table-of-contents header call.
pub fn decode_toc_header_result(res: Result<TocHeader, i32>) -> (r: Result<
    TocHeader,
    CDRomError,
>)
    ensures
        r == toc_header_outcome(res),
{
    match res {
        Ok(header) => Ok(header),
        Err(errno) => if errno == ERRNO_ENOMEDIUM {
            Err(CDRomError::NoDisc)
        } else {
            Err(CDRomError::Errno(errno))
        },
    }
}

/// Builds a table-of-contents entry request: the track to query and the
/// requested address format are preset, every driver-owned field is zero.
pub fn toc_entry_request(index: u8, address_type: AddressType) -> (r: TocEntryRaw)
    ensures
        r.track == index,
        r.format == address_type_code_of(address_type),
        r.adr_ctrl == 0,
        r.lba == 0,
        r.msf == (Msf { minute: 0, second: 0, frame: 0 }),
        r.datamode == 0,
{
    let mut entry = TocEntryRaw::default();
    entry.track = index;
    entry.format = address_type.code();
    entry
}

/// The decoded form of a returned table-of-contents entry record: the
/// packed byte is split into its ADR (high) and control (low) nibbles, and
/// the address union is resolved by the returned format discriminant. A
/// discriminant outside the two known values decodes to nothing; the
/// protocol guarantees it cannot appear, so a miss is an invariant
/// violation, not a typed error.
pub open spec fn toc_entry_decoded(raw: TocEntryRaw) -> Option<TocEntry> {
    match address_type_of_code(raw.format) {
        Some(t) => Some(
            TocEntry {
                track: raw.track,
                adr: raw.adr_ctrl >> 4,
                ctrl: raw.adr_ctrl & 0x0f,
                addr: match t {
                    AddressType::Lba => Addr::Lba(raw.lba),
                    AddressType::Msf => Addr::Msf(raw.msf),
                },
            },
        ),
        None => None,
    }
}

/// Decodes a returned table-of-contents entry record.
pub fn decode_toc_entry(raw: &TocEntryRaw) -> (r: Option<TocEntry>)
    ensures
        r == toc_entry_decoded(*raw),
{
    match AddressType::from_u8(raw.format) {
        Some(t) => Some(
            TocEntry {
                track: raw.track,
                adr: raw.adr_ctrl >> 4,
                ctrl: raw.adr_ctrl & 0x0f,
                addr: match t {
                    AddressType::Lba => Addr::Lba(raw.lba),
                    AddressType::Msf => Addr::Msf(raw.msf),
                },
            },
        ),
        None => None,
    }
}

/// The decoded form of a returned sub-channel record: nibbles split as for
/// a table-of-contents entry, and both address unions resolved by the one
/// returned format discriminant. The same decode-miss policy applies.
pub open spec fn subchannel_decoded(raw: SubChannelRaw) -> Option<SubChannel> {
    match address_type_of_code(raw.format) {
        Some(t) => Some(
            SubChannel {
                audiostatus: raw.audiostatus,
                adr: raw.adr_ctrl >> 4,
                ctrl: raw.adr_ctrl & 0x0f,
                trk: raw.trk,
                ind: raw.ind,
                absaddr: match t {
                    AddressType::Lba => Addr::Lba(raw.abs_lba),
                    AddressType::Msf => Addr::Msf(raw.abs_msf),
                },
                reladdr: match t {
                    AddressType::Lba => Addr::Lba(raw.rel_lba),
                    AddressType::Msf => Addr::Msf(raw.rel_msf),
                },
            },
        ),
        None => None,
    }
}

/// Decodes a returned sub-channel record.
pub fn decode_subchannel(raw: &SubChannelRaw) -> (r: Option<SubChannel>)
    ensures
        r == subchannel_decoded(*raw),
{
    match AddressType::from_u8(raw.format) {
        Some(t) => Some(
            SubChannel {
                audiostatus: raw.audiostatus,
                adr: raw.adr_ctrl >> 4,
                ctrl: raw.adr_ctrl & 0x0f,
                trk: raw.trk,
                ind: raw.ind,
                absaddr: match t {
                    AddressType::Lba => Addr::Lba(raw.abs_lba),
                    AddressType::Msf => Addr::Msf(raw.abs_msf),
                },
                reladdr: match t {
                    AddressType::Lba => Addr::Lba(raw.rel_lba),
                    AddressType::Msf => Addr::Msf(raw.rel_msf),
                },
            },
        ),
        None => None,
    }
}

/// The typed outcome of a door-lock call. A busy drive blocks the state
/// change. A missing capability can surface two ways — as the platform's
/// operation-not-supported failure code, or, on some drives, as an in-band
/// "cannot do this" sentinel in a successful answer — and both mean
/// unsupported.
pub open spec fn lock_outcome(result: Result<i32, i32>) -> Result<(), CDRomError> {
    match result {
        Err(errno) => if errno == ERRNO_EBUSY {
            Err(CDRomError::Busy)
        } else if errno == ERRNO_EOPNOTSUPP {
            Err(CDRomError::Unsupported)
        } else {
            Err(CDRomError::Errno(errno))
        },
        Ok(code) => if code == EDRIVE_CANT_DO_THIS {
            Err(CDRomError::Unsupported)
        } else {
            Ok(())
        },
    }
}

/// Translates the outcome of a door-lock call.
pub fn decode_lock_result(result: Result<i32, i32>) -> (r: Result<(), CDRomError>)
    ensures
        r == lock_outcome(result),
{
    match result {
        Err(errno) => if errno == ERRNO_EBUSY {
            Err(CDRomError::Busy)
        } else if errno == ERRNO_EOPNOTSUPP {
            Err(CDRomError::Unsupported)
        } else {
            Err(CDRomError::Errno(errno))
        },
        Ok(code) => if code == EDRIVE_CANT_DO_THIS {
            Err(CDRomError::Unsupported)
        } else {
            Ok(())
        },
    }
}

/// The typed outcome of an eject call: the drive answers 2 when the tray
/// is mechanically locked; a failing call passes its OS failure code
/// through as an internal error.
pub open spec fn eject_outcome(res: Result<i32, i32>) -> Result<(), CDRomError> {
    match res {
        Err(errno) => Err(CDRomError::Errno(errno)),
        Ok(status) => if status == 2 {
            Err(CDRomError::DoorLocked)
        } else {
            Ok(())
        },
    }
}

/// Translates the outcome of an eject call.
pub fn decode_eject_result(res: Result<i32, i32>) -> (r: Result<(), CDRomError>)
    ensures
        r == eject_outcome(res),
{
    match res {
        Err(errno) => Err(CDRomError::Errno(errno)),
        Ok(status) => if status == 2 {
            Err(CDRomError::DoorLocked)
        } else {
            Ok(())
        },
    }
}

/// The typed outcome of a tray-close call: an in-band "function not
/// implemented" answer means the drive cannot close its tray, an in-band
/// busy answer means the door is blocked; a failing call passes its OS
/// failure code through as an internal error.
pub open spec fn close_outcome(res: Result<i32, i32>) -> Result<(), CDRomError> {
    match res {
        Err(errno) => Err(CDRomError::Errno(errno)),
        Ok(status) => if status == ERRNO_ENOSYS {
            Err(CDRomError::Unsupported)
        } else if status == ERRNO_EBUSY {
            Err(CDRomError::DoorLocked)
        } else {
            Ok(())
        },
    }
}

/// Translates the outcome of a tray-close call.
pub fn decode_close_result(res: Result<i32, i32>) -> (r: Result<(), CDRomError>)
    ensures
        r == close_outcome(res),
{
    match res {
        Err(errno) => Err(CDRomError::Errno(errno)),
        Ok(status) => if status == ERRNO_ENOSYS {
            Err(CDRomError::Unsupported)
        } else if status == ERRNO_EBUSY {
            Err(CDRomError::DoorLocked)
        } else {
            Ok(())
        },
    }
}

/// Number of 16-bit samples an audio read of `frames` whole frames fills:
/// each raw frame holds 2352 bytes, two bytes per sample. Saturates at the
/// machine's word range so it is defined for every request, legal or not.
pub open spec fn audio_samples_needed(frames: usize) -> usize {
    if frames * (CD_FRAMESIZE_RAW / 2) <= usize::MAX {
        (frames * (CD_FRAMESIZE_RAW / 2)) as usize
    } else {
        usize::MAX
    }
}

/// Length, in 16-bit samples, that a caller-owned buffer needs for an
/// audio read of `frames` whole frames: `frames * 2352 / 2`.
pub fn audio_buffer_len(frames: usize) -> (r: usize)
    requires
        frames <= 75,
    ensures
        r == audio_samples_needed(frames),
        r == frames * (CD_FRAMESIZE_RAW / 2),
{
    proof {
        assert((CD_FRAMESIZE_RAW as usize) / 2 == 1176);
        assert(frames * 1176 <= 75 * 1176) by (nonlinear_arith)
            requires
                frames <= 75,
        ;
    }
    frames * ((CD_FRAMESIZE_RAW as usize) / 2)
}

/// The outcome of validating an audio read before the device is touched.
/// A time-code address in the lead-in is rejected; a frame count outside
/// `[1, 75]`, or a buffer under the required sample count, is a sizing
/// error carrying the requested transfer's requirement and the length
/// provided.
pub open spec fn read_audio_checked(address: Addr, frames: usize, buf_len: usize) -> Result<
    ReadAudio,
    CDRomError,
> {
    let bad_address = match address {
        Addr::Msf(m) => msf_is_invalid(m),
        Addr::Lba(_) => false,
    };
    if bad_address {
        Err(CDRomError::InvalidAddress)
    } else if frames < 1 || frames > 75 || buf_len < audio_samples_needed(frames) {
        Err(CDRomError::InvalidBufferSize(audio_samples_needed(frames), buf_len))
    } else {
        Ok(ReadAudio { addr: address, nframes: frames as i32 })
    }
}

/// Validates an audio read locally: the address, the frame count and the
/// buffer length must all be acceptable before any device call, and a
/// violation is reported without touching the device.
pub fn prepare_read_audio(address: Addr, frames: usize, buf_len: usize) -> (r: Result<
    ReadAudio,
    CDRomError,
>)
    ensures
        r == read_audio_checked(address, frames, buf_len),
{
    if let Addr::Msf(m) = address {
        if m.invalid() {
            return Err(CDRomError::InvalidAddress);
        }
    }
    let required: usize = match frames.checked_mul((CD_FRAMESIZE_RAW as usize) / 2) {
        Some(v) => v,
        None => usize::MAX,
    };
    if frames < 1 || frames > 75 || buf_len < required {
        return Err(CDRomError::InvalidBufferSize(required, buf_len));
    }
    Ok(ReadAudio { addr: address, nframes: frames as i32 })
}

/// The typed outcome of the audio-read control call itself: the call can
/// fail with an errno, or answer with a nonzero post-call status that
/// carries an OS failure code.
pub open spec fn read_audio_outcome(res: Result<i32, i32>) -> Result<(), CDRomError> {
    match res {
        Err(errno) => Err(CDRomError::Errno(errno)),
        Ok(status) => if status != 0 {
            Err(CDRomError::Errno(status))
        } else {
            Ok(())
        },
    }
}

/// Translates the outcome of the audio-read control call.
pub fn decode_read_audio_result(res: Result<i32, i32>) -> (r: Result<(), CDRomError>)
    ensures
        r == read_audio_outcome(res),
{
    match res {
        Err(errno) => Err(CDRomError::Errno(errno)),
        Ok(status) => if status != 0 {
            Err(CDRomError::Errno(status))
        } else {
            Ok(())
        },
    }
}

/// The outcome of validating a raw-sector read before the device is
/// touched: the seek time code the request must carry, or the typed
/// rejection. A logical address below the lead-in or beyond the three-byte
/// time-code range is unaddressable; a time code in the lead-in is
/// rejected; the buffer must hold at least one raw frame.
pub open spec fn read_raw_checked(address: Addr, buf_len: usize) -> Result<Msf, CDRomError> {
    let representable = match address {
        Addr::Lba(a) => -150 <= a <= MAX_MSF_LBA,
        Addr::Msf(_) => true,
    };
    if !representable {
        Err(CDRomError::InvalidAddress)
    } else {
        let m = addr_to_msf(address);
        if msf_is_invalid(m) {
            Err(CDRomError::InvalidAddress)
        } else if buf_len < CD_FRAMESIZE_RAW as usize {
            Err(CDRomError::InvalidBufferSize(CD_FRAMESIZE_RAW as usize, buf_len))
        } else {
            Ok(m)
        }
    }
}

/// Validates a raw-sector read locally and, when it is acceptable, writes
/// the seek time code into the first three bytes of the caller's buffer,
/// as the raw-read control call expects it. On rejection the buffer is
/// untouched and the device must not be called.
pub fn prepare_read_raw(address: Addr, buf: &mut Vec<u8>) -> (r: Result<(), CDRomError>)
    ensures
        match read_raw_checked(address, old(buf).len()) {
            Ok(m) => r == Ok::<(), CDRomError>(()) && final(buf)@ == old(buf)@.update(
                0,
                m.minute,
            ).update(1, m.second).update(2, m.frame),
            Err(e) => r == Err::<(), CDRomError>(e) && final(buf)@ == old(buf)@,
        },
{
    let representable = match address {
        Addr::Lba(a) => -150 <= a && a <= MAX_MSF_LBA,
        Addr::Msf(_) => true,
    };
    if !representable {
        return Err(CDRomError::InvalidAddress);
    }
    let m = address.into_msf();
    if m.invalid() {
        return Err(CDRomError::InvalidAddress);
    }
    if buf.len() < CD_FRAMESIZE_RAW as usize {
        return Err(CDRomError::InvalidBufferSize(CD_FRAMESIZE_RAW as usize, buf.len()));
    }
    buf[0] = m.minute;
    buf[1] = m.second;
    buf[2] = m.frame;
    Ok(())
}

/// The typed outcome of the raw-read control call itself: a failing call
/// passes its OS failure code through as an internal error, a successful
/// one leaves the sector bytes in the caller's buffer.
pub open spec fn read_raw_outcome(res: Result<i32, i32>) -> Result<(), CDRomError> {
    match res {
        Err(errno) => Err(CDRomError::Errno(errno)),
        Ok(_) => Ok(()),
    }
}

/// Translates the outcome of the raw-read control call.
pub fn decode_read_raw_result(res: Result<i32, i32>) -> (r: Result<(), CDRomError>)
    ensures
        r == read_raw_outcome(res),
{
    match res {
        Err(errno) => Err(CDRomError::Errno(errno)),
        Ok(_) => Ok(()),
    }
}

/// Every time code in the first two seconds of the disc is invalid, and a
/// read of any kind addressed by such a time code is rejected as an invalid
/// address before the device is touched, whatever the buffer and frame
/// count look like.
pub proof fn lemma_lead_in_rejection(m: Msf, frames: usize, buf_len: usize)
    requires
        m.minute == 0,
        m.second < 2,
    ensures
        msf_is_invalid(m),
        read_raw_checked(Addr::Msf(m), buf_len) == Err::<Msf, CDRomError>(
            CDRomError::InvalidAddress,
        ),
        read_audio_checked(Addr::Msf(m), frames, buf_len) == Err::<ReadAudio, CDRomError>(
            CDRomError::InvalidAddress,
        ),
{
}

/// A logical address inside the lead-in converts to a lead-in time code,
/// so a raw read addressed by it is rejected as an invalid address too,
/// whatever the buffer looks like.
pub proof fn lemma_lead_in_rejection_lba(a: i32, buf_len: usize)
    requires
        -150 <= a < 0,
    ensures
        msf_is_invalid(lba_to_msf(a as int)),
        read_raw_checked(Addr::Lba(a), buf_len) == Err::<Msf, CDRomError>(
            CDRomError::InvalidAddress,
        ),
{
    let offset = a + 150;
    assert(0 <= offset / 75 < 2 && (offset / 75) / 60 == 0 && (offset / 75) % 60 == offset
        / 75) by (nonlinear_arith)
        requires
            0 <= offset < 150,
    ;
}

/// A frame count outside `[1, 75]` is rejected locally as a sizing error,
/// whatever the buffer looks like; a count inside the bounds is accepted
/// whenever the buffer holds the samples the transfer needs. Both halves
/// are stated for addressable addresses, which a bad frame count cannot
/// mask.
pub proof fn lemma_frame_count_bounds(address: Addr, frames: usize, buf_len: usize)
    requires
        address matches Addr::Msf(m) ==> !msf_is_invalid(m),
    ensures
        frames < 1 || frames > 75 ==> read_audio_checked(address, frames, buf_len) == Err::<
            ReadAudio,
            CDRomError,
        >(CDRomError::InvalidBufferSize(audio_samples_needed(frames), buf_len)),
        1 <= frames <= 75 && buf_len >= audio_samples_needed(frames) ==> read_audio_checked(
            address,
            frames,
            buf_len,
        ) == Ok::<ReadAudio, CDRomError>((ReadAudio { addr: address, nframes: frames as i32 })),
{
}

/// What `String::from_utf8_lossy` turns a byte sequence into. The result
/// is a function of the bytes alone.
pub uninterp spec fn lossy_utf8_of(bytes: Seq<u8>) -> Seq<char>;

/// Relies on `String::from_utf8_lossy`: the decoding depends on the bytes
/// alone, and ASCII bytes, being valid UTF-8, decode to themselves.
#[verifier::external_body]
fn utf8_lossy(bytes: &Vec<u8>) -> (r: String)
    ensures
        r@ == lossy_utf8_of(bytes@),
        (forall|i: int| 0 <= i < bytes@.len() ==> bytes@[i] < 0x80) ==> r@ == bytes@.map(
            |_i: int, b: u8| b as char,
        ),
{
    String::from_utf8_lossy(bytes.as_slice()).into_owned()
}

/// Extracts the Media Catalog Number from the 14-byte record the GetMcn
/// ioctl fills: the kernel's trailing null terminator is trimmed and the
/// remaining 13 bytes are decoded as text, so an all-ASCII catalog number
/// comes back character for character.
pub fn decode_mcn(buffer: &[u8; 14]) -> (r: String)
    ensures
        r@ == lossy_utf8_of(buffer@.take(13)),
        (forall|i: int| 0 <= i < 13 ==> buffer@[i] < 0x80) ==> r@ == buffer@.take(13).map(
            |_i: int, b: u8| b as char,
        ),
{
    let mut payload: Vec<u8> = Vec::new();
    let mut i: usize = 0;
    while i < 13
        invariant
            i <= 13,
            payload@ == buffer@.take(i as int),
        decreases 13 - i,
    {
        payload.push(buffer[i]);
        i = i + 1;
    }
    let r = utf8_lossy(&payload);
    proof {
        assert(payload@ == buffer@.take(13));
        if forall|i: int| 0 <= i < 13 ==> buffer@[i] < 0x80 {
            assert(forall|i: int| 0 <= i < payload@.len() ==> payload@[i] < 0x80);
        }
    }
    r
}

} // verus!
