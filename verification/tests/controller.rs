use cdrom::constants::AddressType;
use cdrom::drive::{
    audio_buffer_len, decode_close_result, decode_eject_result, decode_lock_result, decode_mcn,
    decode_read_audio_result, decode_read_raw_result, decode_subchannel, decode_toc_entry,
    decode_toc_header_result, prepare_read_audio, prepare_read_raw, toc_entry_request,
};
use cdrom::structures::{Addr, Msf, SubChannelRaw, TocHeader};
use cdrom::CDRomError;

#[test]
fn toc_header_no_medium_means_no_disc() {
    let header = TocHeader { first_track: 1, last_track: 11 };
    assert_eq!(decode_toc_header_result(Ok(header)), Ok(header));
    assert_eq!(decode_toc_header_result(Err(123)), Err(CDRomError::NoDisc));
    assert_eq!(decode_toc_header_result(Err(5)), Err(CDRomError::Errno(5)));
}

#[test]
fn toc_entry_request_presets_track_and_format() {
    let req = toc_entry_request(7, AddressType::Msf);
    assert_eq!(req.track, 7);
    assert_eq!(req.format, 0x02);
    assert_eq!(req.adr_ctrl, 0);
    assert_eq!(req.datamode, 0);

    let req = toc_entry_request(1, AddressType::Lba);
    assert_eq!(req.format, 0x01);
}

#[test]
fn packed_byte_14_decodes_to_adr_1_ctrl_4() {
    let mut resp = toc_entry_request(1, AddressType::Msf);
    resp.adr_ctrl = 0x14;
    resp.msf = Msf { minute: 0, second: 2, frame: 0 };
    let entry = decode_toc_entry(&resp).unwrap();
    assert_eq!(entry.adr, 0x1);
    assert_eq!(entry.ctrl, 0x4);
    assert_eq!(entry.track, 1);
    assert_eq!(entry.addr, Addr::Msf(Msf { minute: 0, second: 2, frame: 0 }));
}

#[test]
fn toc_entry_decode_follows_the_format_discriminant() {
    let mut resp = toc_entry_request(2, AddressType::Lba);
    resp.adr_ctrl = 0xa5;
    resp.lba = 4500;
    let entry = decode_toc_entry(&resp).unwrap();
    assert_eq!(entry.adr, 0xa);
    assert_eq!(entry.ctrl, 0x5);
    assert_eq!(entry.addr, Addr::Lba(4500));

    resp.format = 0x07;
    assert_eq!(decode_toc_entry(&resp), None);
}

#[test]
fn subchannel_decode_resolves_both_addresses() {
    let mut resp = SubChannelRaw::default();
    resp.audiostatus = 0x11;
    resp.adr_ctrl = 0x14;
    resp.trk = 3;
    resp.ind = 1;
    resp.abs_msf = Msf { minute: 5, second: 10, frame: 60 };
    resp.rel_msf = Msf { minute: 0, second: 30, frame: 15 };
    let sc = decode_subchannel(&resp).unwrap();
    assert_eq!(sc.audiostatus, 0x11);
    assert_eq!(sc.adr, 1);
    assert_eq!(sc.ctrl, 4);
    assert_eq!(sc.trk, 3);
    assert_eq!(sc.ind, 1);
    assert_eq!(sc.absaddr, Addr::Msf(Msf { minute: 5, second: 10, frame: 60 }));
    assert_eq!(sc.reladdr, Addr::Msf(Msf { minute: 0, second: 30, frame: 15 }));

    resp.format = 0x01;
    resp.abs_lba = 22650;
    resp.rel_lba = 2250;
    let sc = decode_subchannel(&resp).unwrap();
    assert_eq!(sc.absaddr, Addr::Lba(22650));
    assert_eq!(sc.reladdr, Addr::Lba(2250));

    resp.format = 0x00;
    assert_eq!(decode_subchannel(&resp), None);
}

#[test]
fn lock_results_translate_busy_and_unsupported() {
    assert_eq!(decode_lock_result(Ok(0)), Ok(()));
    // the drive-specific in-band "cannot do this" sentinel
    assert_eq!(decode_lock_result(Ok(95)), Err(CDRomError::Unsupported));
    // the platform's operation-not-supported failure code maps the same way
    assert_eq!(decode_lock_result(Err(95)), Err(CDRomError::Unsupported));
    assert_eq!(decode_lock_result(Err(16)), Err(CDRomError::Busy));
    assert_eq!(decode_lock_result(Err(13)), Err(CDRomError::Errno(13)));
}

#[test]
fn eject_status_2_means_door_locked() {
    assert_eq!(decode_eject_result(Ok(0)), Ok(()));
    assert_eq!(decode_eject_result(Ok(2)), Err(CDRomError::DoorLocked));
    assert_eq!(decode_eject_result(Err(5)), Err(CDRomError::Errno(5)));
}

#[test]
fn close_status_translates_unsupported_and_busy() {
    assert_eq!(decode_close_result(Ok(0)), Ok(()));
    assert_eq!(decode_close_result(Ok(38)), Err(CDRomError::Unsupported));
    assert_eq!(decode_close_result(Ok(16)), Err(CDRomError::DoorLocked));
    assert_eq!(decode_close_result(Err(123)), Err(CDRomError::Errno(123)));
}

#[test]
fn raw_read_call_failures_are_decoded_once() {
    assert_eq!(decode_read_raw_result(Ok(0)), Ok(()));
    assert_eq!(decode_read_raw_result(Err(5)), Err(CDRomError::Errno(5)));
}

#[test]
fn audio_buffer_sizing_formula() {
    assert_eq!(audio_buffer_len(1), 2352 / 2);
    assert_eq!(audio_buffer_len(10), 11760);
    assert_eq!(audio_buffer_len(75), 88200);
}

#[test]
fn short_audio_buffer_is_rejected_with_both_sizes() {
    let r = prepare_read_audio(Addr::Lba(0), 10, 11759);
    assert_eq!(r, Err(CDRomError::InvalidBufferSize(11760, 11759)));

    let r = prepare_read_audio(Addr::Lba(0), 10, 11760).unwrap();
    assert_eq!(r.nframes, 10);
    assert_eq!(r.addr, Addr::Lba(0));
}

#[test]
fn frame_count_bounds_are_enforced_locally() {
    assert!(prepare_read_audio(Addr::Lba(0), 0, 100_000).is_err());
    assert!(prepare_read_audio(Addr::Lba(0), 76, 100_000).is_err());
    let r = prepare_read_audio(Addr::Lba(0), 75, 88_200).unwrap();
    assert_eq!(r.nframes, 75);
}

#[test]
fn audio_read_rejects_lead_in_time_codes() {
    let lead_in = Addr::Msf(Msf { minute: 0, second: 1, frame: 0 });
    assert_eq!(prepare_read_audio(lead_in, 1, 2000), Err(CDRomError::InvalidAddress));
}

#[test]
fn audio_call_status_is_decoded_once() {
    assert_eq!(decode_read_audio_result(Ok(0)), Ok(()));
    assert_eq!(decode_read_audio_result(Ok(5)), Err(CDRomError::Errno(5)));
    assert_eq!(decode_read_audio_result(Err(16)), Err(CDRomError::Errno(16)));
}

#[test]
fn raw_read_rejects_lead_in_without_touching_the_buffer() {
    let mut buf = vec![0xabu8; 2352];
    let r = prepare_read_raw(Addr::Msf(Msf { minute: 0, second: 1, frame: 74 }), &mut buf);
    assert_eq!(r, Err(CDRomError::InvalidAddress));
    assert!(buf.iter().all(|&b| b == 0xab));

    // a logical address inside the lead-in converts to an invalid time code
    let r = prepare_read_raw(Addr::Lba(-1), &mut buf);
    assert_eq!(r, Err(CDRomError::InvalidAddress));

    // logical addresses outside the three-byte time-code range
    let r = prepare_read_raw(Addr::Lba(-151), &mut buf);
    assert_eq!(r, Err(CDRomError::InvalidAddress));
    let r = prepare_read_raw(Addr::Lba(1_151_850), &mut buf);
    assert_eq!(r, Err(CDRomError::InvalidAddress));
    assert!(buf.iter().all(|&b| b == 0xab));
}

#[test]
fn raw_read_rejects_short_buffers_with_both_sizes() {
    let mut buf = vec![0u8; 2351];
    let r = prepare_read_raw(Addr::Lba(0), &mut buf);
    assert_eq!(r, Err(CDRomError::InvalidBufferSize(2352, 2351)));
}

#[test]
fn raw_read_writes_the_seek_time_code() {
    let mut buf = vec![0xeeu8; 2352];
    let r = prepare_read_raw(Addr::Msf(Msf { minute: 4, second: 31, frame: 42 }), &mut buf);
    assert_eq!(r, Ok(()));
    assert_eq!(&buf[0..3], &[4, 31, 42]);
    assert!(buf[3..].iter().all(|&b| b == 0xee));

    let mut buf = vec![0u8; 2352];
    let r = prepare_read_raw(Addr::Lba(16), &mut buf);
    assert_eq!(r, Ok(()));
    assert_eq!(&buf[0..3], &[0, 2, 16]);
}

#[test]
fn mcn_is_trimmed_of_the_null_terminator() {
    let buffer: [u8; 14] = *b"1234567890123\0";
    assert_eq!(decode_mcn(&buffer), "1234567890123");
}

#[test]
fn mcn_bytes_outside_ascii_are_replaced_not_dropped() {
    let mut buffer: [u8; 14] = *b"0000000000000\0";
    buffer[0] = 0xff;
    let decoded = decode_mcn(&buffer);
    assert_eq!(decoded.chars().next(), Some('\u{fffd}'));
    assert_eq!(&decoded[decoded.len() - 12..], "000000000000");
}

#[test]
fn mocked_disc_exposes_exactly_the_header_tracks() {
    // a mocked drive: the header answer says tracks 1 through 10
    let header = decode_toc_header_result(Ok(TocHeader { first_track: 1, last_track: 11 }))
        .unwrap();
    let tracks = header.tracks();
    assert_eq!(tracks, (1..11).collect::<Vec<u8>>());
    assert_eq!(tracks.len(), 10);

    for &track in &tracks {
        let mut resp = toc_entry_request(track, AddressType::Msf);
        // the mocked drive answers with a position derived from the track
        resp.adr_ctrl = 0x14;
        resp.msf = Msf::from_lba(track as i32 * 4500);
        let entry = decode_toc_entry(&resp).unwrap();
        assert_eq!(entry.track, track);
        assert_eq!(entry.addr.into_lba(), track as i32 * 4500);
    }
}
