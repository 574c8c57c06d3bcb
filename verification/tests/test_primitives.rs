//! Scalar decoders, unit conversion and the map splitter.

use altium::common::{is_number_pattern, mils_to_nm, split_altium_map, split_once, Rgb, UniqueId};
use altium::parse::{
    extract_sized_buf, parse_bool, parse_i16, parse_i32, parse_i8, parse_u16, parse_u32, parse_u8,
    BufLenMatch,
};
use altium::parse::parse_usize;
use altium::ErrorKind;

#[test]
fn primitives_agree_with_std() {
    let samples: Vec<&[u8]> = vec![
        b"0", b"1", b"42", b"255", b"256", b"-1", b"+7", b"65535", b"65536", b"4294967295",
        b"4294967296", b"-32768", b"-32769", b"32767", b"007", b"", b"x", b"1 ", b"- 1", b"--2",
    ];
    for b in samples {
        let s = std::str::from_utf8(b).unwrap();
        assert_eq!(parse_u8(b).ok(), s.parse::<u8>().ok(), "u8 {s:?}");
        assert_eq!(parse_i8(b).ok(), s.parse::<i8>().ok(), "i8 {s:?}");
        assert_eq!(parse_u16(b).ok(), s.parse::<u16>().ok(), "u16 {s:?}");
        assert_eq!(parse_i16(b).ok(), s.parse::<i16>().ok(), "i16 {s:?}");
        assert_eq!(parse_u32(b).ok(), s.parse::<u32>().ok(), "u32 {s:?}");
        assert_eq!(parse_i32(b).ok(), s.parse::<i32>().ok(), "i32 {s:?}");
        assert_eq!(parse_usize(b).ok(), s.parse::<usize>().ok(), "usize {s:?}");
    }
    assert_eq!(
        parse_usize(b"18446744073709551615").ok(),
        "18446744073709551615".parse::<usize>().ok(),
    );
    assert_eq!(
        parse_usize(b"18446744073709551616").ok(),
        "18446744073709551616".parse::<usize>().ok(),
    );
}

#[test]
fn bool_accepts_only_t_and_f() {
    assert_eq!(parse_bool(b"T").unwrap(), true);
    assert_eq!(parse_bool(b"F").unwrap(), false);
    assert!(parse_bool(b"true").is_err());
    assert!(parse_bool(b"").is_err());
    assert!(parse_bool(b"t").is_err());
}

#[test]
fn mils_conversion_is_exact() {
    assert_eq!(mils_to_nm(0).unwrap(), 0);
    assert_eq!(mils_to_nm(1).unwrap(), 25400);
    assert_eq!(mils_to_nm(-3).unwrap(), -76200);
    assert_eq!(mils_to_nm(363124883340739).unwrap(), 363124883340739i64 * 25400);
    assert!(mils_to_nm(363124883340740).is_err());
    assert!(mils_to_nm(i64::MAX).is_err());
}

#[test]
fn rgb_unpacks_little_endian() {
    let c = Rgb::from_utf8(b"0").unwrap();
    assert_eq!((c.r, c.g, c.b), (0, 0, 0));
    let c = Rgb::from_utf8(b"16777215").unwrap();
    assert_eq!((c.r, c.g, c.b), (255, 255, 255));
    let c = Rgb::from_utf8(b"255").unwrap();
    assert_eq!((c.r, c.g, c.b), (255, 0, 0));
    let c = Rgb::from_utf8(b"8388608").unwrap();
    assert_eq!((c.r, c.g, c.b), (0, 0, 128));
    assert!(Rgb::from_utf8(b"red").is_err());
}

#[test]
fn unique_id_simple_or_uuid() {
    match UniqueId::from_utf8(b"OXKUDQCE").unwrap() {
        UniqueId::Simple(v) => assert_eq!(&v, b"OXKUDQCE"),
        UniqueId::Uuid(_) => panic!("expected the simple form"),
    }
    match UniqueId::from_utf8(b"67e55044-10b1-426f-9247-bb680e5fe0c8").unwrap() {
        UniqueId::Uuid(v) => assert_eq!(v, 0x67e5504410b1426f9247bb680e5fe0c8),
        UniqueId::Simple(_) => panic!("expected the uuid form"),
    }
    assert!(UniqueId::from_utf8(b"not a unique id at all").is_err());
}

#[test]
fn splitter_skips_empty_segments() {
    let pairs = split_altium_map(b"|A=1|B=two||C=|").unwrap();
    let view: Vec<(&[u8], &[u8])> = pairs
        .iter()
        .map(|(k, v)| (k.as_slice(), v.as_slice()))
        .collect();
    assert_eq!(view, vec![
        (b"A".as_slice(), b"1".as_slice()),
        (b"B".as_slice(), b"two".as_slice()),
        (b"C".as_slice(), b"".as_slice()),
    ]);
}

#[test]
fn splitter_requires_an_equals_sign() {
    assert!(split_altium_map(b"A=1|BROKEN|C=3").is_err());
    assert!(split_altium_map(b"").unwrap().is_empty());
}

#[test]
fn splitter_round_trips_joined_pairs() {
    let joined = b"Key1=Val1|Key2=Va=l2|Key3=Val3";
    let pairs = split_altium_map(joined).unwrap();
    assert_eq!(pairs.len(), 3);
    let mut rejoined: Vec<u8> = Vec::new();
    for (i, (k, v)) in pairs.iter().enumerate() {
        if i > 0 {
            rejoined.push(b'|');
        }
        rejoined.extend_from_slice(k);
        rejoined.push(b'=');
        rejoined.extend_from_slice(v);
    }
    assert_eq!(rejoined.as_slice(), joined.as_slice());
    assert_eq!(split_altium_map(&rejoined).unwrap(), pairs);
}

#[test]
fn split_once_finds_first_separator() {
    let (a, b) = split_once(b"k=v=w", b'=').unwrap();
    assert_eq!(a.as_slice(), b"k");
    assert_eq!(b.as_slice(), b"v=w");
    assert!(split_once(b"kvw", b'=').is_none());
}

#[test]
fn number_patterns() {
    assert!(is_number_pattern(b"X100", b"X"));
    assert!(is_number_pattern(b"X-3", b"X"));
    assert!(is_number_pattern(b"X", b"X"));
    assert!(!is_number_pattern(b"X1a", b"X"));
    assert!(!is_number_pattern(b"Y1", b"X"));
}

#[test]
fn sized_buffers() {
    let buf = [3u8, 0, 0, 0, b'a', b'b', 0, 9, 9];
    let (data, rest) = extract_sized_buf(&buf, BufLenMatch::U32, true).unwrap();
    assert_eq!(data, b"ab");
    assert_eq!(rest, &[9u8, 9]);
    // Frame length past the end of the buffer.
    let short = [9u8, 0, 0, 0, b'a'];
    match extract_sized_buf(&short, BufLenMatch::U32, true) {
        Err(ErrorKind::BufferTooShort(need, _)) => assert_eq!(need, 9),
        other => panic!("expected BufferTooShort, got {other:?}"),
    }
    // Payload missing its trailing NUL.
    let nonul = [2u8, 0, 0, 0, b'a', b'b'];
    match extract_sized_buf(&nonul, BufLenMatch::U32, true) {
        Err(ErrorKind::ExpectedNul(_)) => {}
        other => panic!("expected ExpectedNul, got {other:?}"),
    }
}
