use v4l_userptr::format::{
    Flags, FormatDescription, FormatRecord, ALL_FLAGS, COMPRESSED, DYN_RESOLUTION, EMULATED,
};
use v4l_userptr::fourcc::{FourCC, Fraction};
use v4l_userptr::frameinterval::{
    FrameInterval, FrameIntervalEnum, FrameIntervalError, FrameIntervalRecord, Stepwise,
};

fn frac(n: u32, d: u32) -> Fraction {
    Fraction::new(n, d)
}

fn interval_record(typ: u32) -> FrameIntervalRecord {
    FrameIntervalRecord {
        index: 2,
        pixel_format: u32::from_le_bytes(*b"YUYV"),
        width: 640,
        height: 480,
        typ,
        discrete: frac(1, 30),
        stepwise: Stepwise { min: frac(1, 30), max: frac(1, 5), step: frac(1, 30) },
    }
}

fn description(text: &[u8]) -> [u8; 32] {
    let mut d = [0u8; 32];
    d[..text.len()].copy_from_slice(text);
    d
}

#[test]
fn fourcc_from_code_is_little_endian() {
    let f = FourCC::from_code(0x5659_5559);
    assert_eq!(&f.repr, b"YUYV");
    assert_eq!(FourCC::new(b"MJPG").repr, *b"MJPG");
}

#[test]
fn flags_from_bits_truncate() {
    let f = Flags::from_bits_truncate(0xffff_fff5);
    assert!(f.compressed);
    assert!(!f.emulated);
    assert!(f.continuous_bitstream);
    assert!(!f.dyn_resolution);
    assert_eq!(f.bits(), 0x5);
}

#[test]
fn flags_round_trip() {
    for bits in 0u32..64 {
        let f = Flags::from_bits_truncate(bits);
        assert_eq!(f.bits(), bits & ALL_FLAGS);
        assert_eq!(Flags::from_bits_truncate(f.bits()), f);
    }
    let f = Flags::from_bits_truncate(EMULATED | DYN_RESOLUTION);
    assert_eq!(f.bits(), 0xa);
    assert_eq!(Flags::from_bits_truncate(COMPRESSED).bits(), 1);
}

#[test]
fn format_description_from_record() {
    let rec = FormatRecord {
        index: 1,
        typ: 1,
        flags: 0x11,
        description: description(b"YUYV 4:2:2"),
        pixelformat: u32::from_le_bytes(*b"YUYV"),
    };
    let d = FormatDescription::from(rec);
    assert_eq!(d.index, 1);
    assert_eq!(d.typ, 1);
    assert_eq!(d.flags, Flags::from_bits_truncate(1));
    assert_eq!(d.description, "YUYV 4:2:2");
    assert_eq!(&d.fourcc.repr, b"YUYV");
}

#[test]
fn format_description_full_text_and_invalid_bytes() {
    let mut full = [b'a'; 32];
    full[31] = b'z';
    let rec = FormatRecord { index: 0, typ: 1, flags: 0, description: full, pixelformat: 0 };
    let d = FormatDescription::from(rec);
    assert_eq!(d.description.len(), 32);
    assert!(d.description.ends_with('z'));
    let rec = FormatRecord {
        index: 0,
        typ: 1,
        flags: 0,
        description: description(&[b'o', b'k', 0xff]),
        pixelformat: 0,
    };
    assert_eq!(FormatDescription::from(rec).description, "ok\u{fffd}");
}

#[test]
fn discrete_interval() {
    let r = FrameIntervalEnum::try_from(interval_record(1));
    assert_eq!(r, Ok(FrameIntervalEnum::Discrete(frac(1, 30))));
}

#[test]
fn stepwise_and_continuous_intervals() {
    for typ in [2u32, 3] {
        match FrameIntervalEnum::try_from(interval_record(typ)) {
            Ok(FrameIntervalEnum::Stepwise(s)) => {
                assert_eq!(s.min, frac(1, 30));
                assert_eq!(s.max, frac(1, 5));
                assert_eq!(s.step, frac(1, 30));
                // 1/30 s is no longer than 1/5 s
                assert!(
                    (s.min.numerator as u64) * (s.max.denominator as u64)
                        <= (s.max.numerator as u64) * (s.min.denominator as u64)
                );
            }
            other => panic!("unexpected {:?}", other),
        }
    }
}

#[test]
fn unknown_interval_type() {
    let r = FrameIntervalEnum::try_from(interval_record(9));
    assert_eq!(r, Err(FrameIntervalError::UnknownIntervalType(9)));
    let r = FrameInterval::try_from(interval_record(0));
    assert!(matches!(r, Err(FrameIntervalError::UnknownIntervalType(0))));
}

#[test]
fn frame_interval_from_record() {
    let fi = FrameInterval::try_from(interval_record(1)).unwrap();
    assert_eq!(fi.index, 2);
    assert_eq!(&fi.fourcc.repr, b"YUYV");
    assert_eq!(fi.width, 640);
    assert_eq!(fi.height, 480);
    assert_eq!(fi.typ, 1);
    assert_eq!(fi.interval, FrameIntervalEnum::Discrete(frac(1, 30)));
}

#[test]
fn flags_std_conversions() {
    let f: Flags = Flags::from(0x3u32);
    assert!(f.compressed && f.emulated && !f.continuous_bitstream && !f.dyn_resolution);
    let bits: u32 = f.into();
    assert_eq!(bits, 0x3);
}

#[test]
fn motion_jpeg_format_record() {
    let rec = FormatRecord {
        index: 0,
        typ: 1,
        flags: 0x0009,
        description: description(b"Motion-JPEG"),
        pixelformat: u32::from_le_bytes(*b"MJPG"),
    };
    let d = FormatDescription::from(rec);
    assert_eq!(d.index, 0);
    assert_eq!(d.typ, 1);
    assert_eq!(d.flags, Flags::from_bits_truncate(COMPRESSED | DYN_RESOLUTION));
    assert_eq!(d.fourcc, FourCC::new(b"MJPG"));
    assert!(d.description.starts_with("Motion-JPEG"));
    assert_eq!(d.description, "Motion-JPEG");
}
