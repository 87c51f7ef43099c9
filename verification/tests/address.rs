use cdrom::structures::{Addr, Msf, MAX_MSF_LBA};
use cdrom::constants::AddressType;

#[test]
fn from_lba_splits_into_fields() {
    let m = Msf::from_lba(16);
    assert_eq!((m.minute, m.second, m.frame), (0, 2, 16));

    let m = Msf::from_lba(0);
    assert_eq!((m.minute, m.second, m.frame), (0, 2, 0));

    let m = Msf::from_lba(-150);
    assert_eq!((m.minute, m.second, m.frame), (0, 0, 0));

    // 4 minutes, 31 seconds, 42 frames past time-code zero
    let m = Msf::from_lba((4 * 60 + 31) * 75 + 42 - 150);
    assert_eq!((m.minute, m.second, m.frame), (4, 31, 42));
}

#[test]
fn to_lba_is_the_documented_formula() {
    let m = Msf { minute: 4, second: 31, frame: 42 };
    assert_eq!(m.to_lba(), (4 * 60 + 31) * 75 + 42 - 150);

    let m = Msf { minute: 0, second: 2, frame: 0 };
    assert_eq!(m.to_lba(), 0);
}

#[test]
fn round_trip_reproduces_every_sampled_address() {
    // the whole lead-in plus the first minutes, then sparse samples up to
    // the largest representable address
    for x in -150..=20_000 {
        assert_eq!(Msf::from_lba(x).to_lba(), x);
    }
    let mut x = 20_000;
    while x <= MAX_MSF_LBA - 7919 {
        assert_eq!(Msf::from_lba(x).to_lba(), x);
        x += 7919;
    }
    assert_eq!(Msf::from_lba(MAX_MSF_LBA).to_lba(), MAX_MSF_LBA);
}

#[test]
fn lead_in_time_codes_are_invalid() {
    for second in 0..2 {
        for frame in 0..75 {
            let m = Msf { minute: 0, second, frame };
            assert!(m.invalid());
        }
    }
}

#[test]
fn addressable_time_codes_are_not_invalid() {
    assert!(!Msf { minute: 0, second: 2, frame: 0 }.invalid());
    assert!(!Msf { minute: 1, second: 0, frame: 0 }.invalid());
    assert!(!Msf { minute: 73, second: 59, frame: 74 }.invalid());
}

#[test]
fn addr_conversions_pick_the_right_view() {
    let m = Msf { minute: 0, second: 6, frame: 0 };
    assert_eq!(Addr::Lba(300).into_msf(), m);
    assert_eq!(Addr::Msf(m).into_msf(), m);
    assert_eq!(Addr::Msf(m).into_lba(), 300);
    assert_eq!(Addr::Lba(300).into_lba(), 300);
}

#[test]
fn addr_reports_its_wire_format() {
    assert_eq!(Addr::Lba(0).address_type(), AddressType::Lba);
    let m = Msf { minute: 0, second: 2, frame: 0 };
    assert_eq!(Addr::Msf(m).address_type(), AddressType::Msf);
}
