//! Record dispatch, field binding and the binary pin decoder.

use altium::common::{Rotation90, Visibility};
use altium::logging::UnsupportedCounter;
use altium::records::{SchPin, SchRecord};
use altium::stream::{parse_all_records, parse_any_record};

fn any(buf: &[u8]) -> (Result<SchRecord, altium::ErrorKind>, u64) {
    let mut counter = UnsupportedCounter::new();
    let r = parse_any_record(buf, &mut counter);
    (r, counter.num_unsupported_keys())
}

#[test]
fn designator_fields_bind() {
    let (r, unk) = any(
        b"|RECORD=34|IndexInSheet=-1|OwnerPartId=-1|Location.X=-5|Location.Y=5|Color=8388608\
          |FontID=2|Text=Pin?|Name=Designator|ReadOnlyState=1|UniqueID=VWHBCSOI",
    );
    let rec = r.unwrap();
    assert_eq!(unk, 0);
    match rec {
        SchRecord::Designator(d) => {
            assert_eq!(d.owner_part_id, -1);
            assert_eq!(d.index_in_sheet, -1);
            assert_eq!(d.location.x, -5);
            assert_eq!(d.location.y, 5);
            assert_eq!(d.font_id, 2);
            assert_eq!(d.text, "Pin?");
            assert_eq!(d.name, "Designator");
            assert_eq!((d.color.r, d.color.g, d.color.b), (0, 0, 128));
        }
        other => panic!("wrong variant {}", other.name()),
    }
}

#[test]
fn last_occurrence_of_a_key_wins() {
    let (r, _) = any(b"|RECORD=29|OwnerIndex=3|OwnerIndex=7");
    match r.unwrap() {
        SchRecord::Junction(j) => assert_eq!(j.owner_index, 7),
        other => panic!("wrong variant {}", other.name()),
    }
}

#[test]
fn utf8_twin_key_wins_in_either_order() {
    let (r, _) = any(b"|RECORD=25|Text=legacy|%UTF8%Text=canonical");
    match r.unwrap() {
        SchRecord::NetLabel(l) => assert_eq!(l.text, "canonical"),
        other => panic!("wrong variant {}", other.name()),
    }
    let (r, _) = any(b"|RECORD=25|%UTF8%Text=canonical|Text=legacy");
    match r.unwrap() {
        SchRecord::NetLabel(l) => assert_eq!(l.text, "canonical"),
        other => panic!("wrong variant {}", other.name()),
    }
}

#[test]
fn unknown_key_counts_once_and_still_decodes() {
    let (r, unk) = any(b"|RECORD=29|OwnerIndex=1|Unknown=1");
    match r.unwrap() {
        SchRecord::Junction(j) => assert_eq!(j.owner_index, 1),
        other => panic!("wrong variant {}", other.name()),
    }
    assert_eq!(unk, 1);
}

#[test]
fn unknown_record_id_yields_undefined() {
    let (r, unk) = any(b"|RECORD=999|Whatever=1");
    assert!(matches!(r.unwrap(), SchRecord::Undefined));
    assert_eq!(unk, 1);
}

#[test]
fn malformed_field_fails_the_record() {
    let (r, _) = any(b"|RECORD=29|OwnerIndex=many");
    assert!(r.is_err());
}

#[test]
fn wire_collects_its_location_array() {
    let (r, _) = any(b"|RECORD=27|LineWidth=1|LocationCount=2|X1=10|Y1=20|X2=-30|Y2=40");
    match r.unwrap() {
        SchRecord::Wire(w) => {
            assert_eq!(w.line_width, 25400);
            assert_eq!(w.locations.len(), 2);
            assert_eq!((w.locations[0].x, w.locations[0].y), (10, 20));
            assert_eq!((w.locations[1].x, w.locations[1].y), (-30, 40));
        }
        other => panic!("wrong variant {}", other.name()),
    }
}

#[test]
fn mils_conversion_applies_to_line_widths() {
    let (r, _) = any(b"|RECORD=26|LineWidth=2|LocationCount=1|X1=1|Y1=1");
    match r.unwrap() {
        SchRecord::Bus(b) => assert_eq!(b.line_width, 50800),
        other => panic!("wrong variant {}", other.name()),
    }
}

#[test]
fn sheet_collects_its_font_table() {
    let (r, _) = any(
        b"|RECORD=31|FontIdCount=2|FontName1=Times New Roman|Size1=9|FontName2=Calibri|Size2=8\
          |SystemFont=1|UseMBCS=T|IsBOC=T",
    );
    match r.unwrap() {
        SchRecord::Sheet(s) => {
            assert_eq!(s.fonts.len(), 2);
            let f = s.fonts.get_idx(1).unwrap();
            assert_eq!(f.name(), "Times New Roman");
            assert_eq!(f.size(), 9);
            let f = s.fonts.get_idx(2).unwrap();
            assert_eq!(f.name(), "Calibri");
            assert_eq!(f.size(), 8);
            assert!(s.use_mbcs && s.is_boc);
        }
        other => panic!("wrong variant {}", other.name()),
    }
}

fn sample_pin_bytes() -> Vec<u8> {
    let mut b = vec![0u8; 12]; // two reserved groups
    b.push(4); // description length
    b.extend_from_slice(b"desc");
    b.push(1); // formal type, must be 1
    b.push(0); // ty info
    b.push(0b0001_1001); // rotation 90 degrees, designator and name visible
    b.extend_from_slice(&10u16.to_le_bytes()); // length in mils
    b.extend_from_slice(&(-5i16).to_le_bytes()); // x in mils
    b.extend_from_slice(&7i16.to_le_bytes()); // y in mils
    b.extend_from_slice(&[0u8; 4]);
    b.push(1);
    b.extend_from_slice(b"A"); // name
    b.push(1);
    b.extend_from_slice(b"1"); // designator
    b.extend_from_slice(&[0u8, 0u8]); // trailer
    b
}

#[test]
fn binary_pin_decodes() {
    let b = sample_pin_bytes();
    match SchPin::parse(&b).unwrap() {
        SchRecord::Pin(p) => {
            assert_eq!(p.description, "desc");
            assert_eq!(p.name, "A");
            assert_eq!(p.designator, "1");
            assert_eq!(p.location.x, -5 * 25400);
            assert_eq!(p.location.y, 7 * 25400);
            assert_eq!(p.length, 10 * 25400);
            assert_eq!(p.rotation, Rotation90::R90);
            assert_eq!(p.designator_vis, Visibility::Visible);
            assert_eq!(p.name_vis, Visibility::Visible);
        }
        other => panic!("wrong variant {}", other.name()),
    }
}

#[test]
fn binary_pin_connecting_end_follows_rotation() {
    let b = sample_pin_bytes();
    match SchPin::parse(&b).unwrap() {
        SchRecord::Pin(p) => {
            // Rotation is 90 degrees: the connecting end is origin plus
            // length along +Y.
            let conn = p.location_conn();
            assert_eq!(conn.x, p.location.x);
            assert_eq!(conn.y, p.location.y + p.length as i32);
        }
        other => panic!("wrong variant {}", other.name()),
    }
}

#[test]
fn binary_pin_rejects_wrong_formal_type() {
    let mut b = sample_pin_bytes();
    b[17] = 2; // the formal-type byte sits after the 4-byte description
    assert!(SchPin::parse(&b).is_err());
}

fn frame(tag: u8, payload: &[u8]) -> Vec<u8> {
    let len = (payload.len() + 1) as u32;
    let mut out = Vec::new();
    out.extend_from_slice(&len.to_le_bytes()[..3]);
    out.push(tag);
    out.extend_from_slice(payload);
    out.push(0);
    out
}

#[test]
fn empty_stream_is_an_empty_record_list() {
    let mut counter = UnsupportedCounter::new();
    let records = parse_all_records(b"", "empty", &mut counter).unwrap();
    assert!(records.is_empty());
}

#[test]
fn framed_stream_decodes_in_order() {
    let mut buf = Vec::new();
    buf.extend_from_slice(&frame(0, b"|RECORD=29|OwnerIndex=1"));
    buf.extend_from_slice(&frame(1, &sample_pin_bytes()));
    buf.extend_from_slice(&frame(0, b"|RECORD=27|LocationCount=1|X1=2|Y1=3"));
    let mut counter = UnsupportedCounter::new();
    let records = parse_all_records(&buf, "stream", &mut counter).unwrap();
    assert_eq!(records.len(), 3);
    assert!(matches!(records[0], SchRecord::Junction(_)));
    assert!(matches!(records[1], SchRecord::Pin(_)));
    assert!(matches!(records[2], SchRecord::Wire(_)));
}

#[test]
fn truncated_frame_is_an_error() {
    let mut buf = frame(0, b"|RECORD=29");
    buf.truncate(buf.len() - 3);
    let mut counter = UnsupportedCounter::new();
    assert!(parse_all_records(&buf, "short", &mut counter).is_err());
}

#[test]
fn frame_without_nul_is_an_error() {
    let mut buf = frame(0, b"|RECORD=29");
    let n = buf.len();
    buf[n - 1] = 7;
    let mut counter = UnsupportedCounter::new();
    assert!(parse_all_records(&buf, "no nul", &mut counter).is_err());
}

#[test]
fn unknown_frame_tag_is_an_error() {
    let buf = frame(2, b"|RECORD=29");
    let mut counter = UnsupportedCounter::new();
    assert!(parse_all_records(&buf, "bad tag", &mut counter).is_err());
}
