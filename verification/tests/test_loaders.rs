//! End-to-end loading of in-memory compound files.

use std::io::{Cursor, Write};

use altium::records::SchRecord;
use altium::schlib::fixup_sec_key;
use altium::storage::file_name;
use altium::schdoc::SchDoc;
use altium::schlib::SchLib;
use altium::storage::Storage;

const LIB_HEADER: &str =
    "HEADER=Protel for Windows - Schematic Library Editor Binary File Version 5.0";
const DOC_HEADER: &str = "Protel for Windows - Schematic Capture Binary File Version 5.0";

/// A library `FileHeader` stream: 4 junk bytes, `|`, the pairs, NUL.
fn lib_header_stream(tail: &str) -> Vec<u8> {
    let mut out = vec![0x7a, 0x04, 0x00, 0x00, b'|'];
    out.extend_from_slice(LIB_HEADER.as_bytes());
    out.extend_from_slice(tail.as_bytes());
    out.push(0);
    out
}

fn frame(tag: u8, payload: &[u8]) -> Vec<u8> {
    let len = (payload.len() + 1) as u32;
    let mut out = Vec::new();
    out.extend_from_slice(&len.to_le_bytes()[..3]);
    out.push(tag);
    out.extend_from_slice(payload);
    out.push(0);
    out
}

fn build_cfb(streams: &[(&str, Vec<u8>)]) -> Vec<u8> {
    let cursor = Cursor::new(Vec::new());
    let mut comp = cfb::CompoundFile::create(cursor).unwrap();
    for (path, data) in streams {
        if let Some(pos) = path.rfind('/') {
            let _ = comp.create_storage_all(&path[..pos]);
        }
        let mut s = comp.create_stream(path).unwrap();
        s.write_all(data).unwrap();
    }
    comp.flush().unwrap();
    comp.into_inner().into_inner()
}

#[test]
fn empty_library_has_no_components_and_no_unsupported_keys() {
    let bytes = build_cfb(&[("FileHeader", lib_header_stream(""))]);
    let lib = SchLib::from_buffer(bytes).unwrap();
    assert_eq!(lib.component_meta().len(), 0);
    assert_eq!(lib.num_unsupported_keys(), 0);
}

#[test]
fn header_only_library_parses_with_defaults() {
    let bytes = build_cfb(&[("FileHeader", lib_header_stream(""))]);
    let lib = SchLib::from_buffer(bytes).unwrap();
    assert_eq!(lib.header.weight, 0);
    assert_eq!(lib.header.minor_version, 0);
    assert_eq!(lib.fonts().len(), 0);
    assert!(!lib.header.border_on);
}

#[test]
fn header_literal_mismatch_is_rejected() {
    let mut out = vec![0x7a, 0x04, 0x00, 0x00, b'|'];
    out.extend_from_slice(b"HEADER=Some other file format");
    out.push(0);
    let bytes = build_cfb(&[("FileHeader", out)]);
    let err = match SchLib::from_buffer(bytes) {
        Err(e) => e,
        Ok(_) => panic!("expected an error"),
    };
    assert!(matches!(*err.kind, altium::ErrorKind::InvalidHeader(_, _)));
}

#[test]
fn component_count_matches_the_header() {
    let tail = "|Weight=3|CompCount=2|LibRef0=First|LibRef1=Second|CompDescr1=The second one\
                |PartCount1=2|FontIdCount=1|FontName1=Calibri|Size1=8";
    let bytes = build_cfb(&[("FileHeader", lib_header_stream(tail))]);
    let lib = SchLib::from_buffer(bytes).unwrap();
    assert_eq!(lib.component_meta().len(), 2);
    assert_eq!(lib.component_meta()[0].libref(), "First");
    assert_eq!(lib.component_meta()[1].libref(), "Second");
    assert_eq!(lib.component_meta()[1].description(), "The second one");
    assert_eq!(lib.component_meta()[1].part_count(), 2);
    assert_eq!(lib.fonts().len(), 1);
    assert_eq!(lib.header.weight, 3);
}

fn sample_pin_bytes() -> Vec<u8> {
    let mut b = vec![0u8; 12];
    b.push(4);
    b.extend_from_slice(b"desc");
    b.push(1);
    b.push(0);
    b.push(0b0001_1000); // rotation 0, both texts visible
    b.extend_from_slice(&10u16.to_le_bytes());
    b.extend_from_slice(&0i16.to_le_bytes());
    b.extend_from_slice(&0i16.to_le_bytes());
    b.extend_from_slice(&[0u8; 4]);
    b.push(1);
    b.extend_from_slice(b"A");
    b.push(1);
    b.extend_from_slice(b"1");
    b.extend_from_slice(&[0u8, 0u8]);
    b
}

#[test]
fn component_records_come_from_its_data_stream() {
    let tail = "|CompCount=1|LibRef0=Pin_Properties";
    let meta = b"|RECORD=1|LibReference=Pin_Properties|PartCount=2".to_vec();
    let mut data = frame(0, &meta);
    data.extend_from_slice(&frame(1, &sample_pin_bytes()));
    let bytes = build_cfb(&[
        ("FileHeader", lib_header_stream(tail)),
        ("Pin_Properties/Data", data),
    ]);
    let mut lib = SchLib::from_buffer(bytes).unwrap();
    let comp = lib.get_component("Pin_Properties").unwrap().unwrap();
    assert_eq!(comp.name(), "Pin_Properties");
    assert_eq!(comp.records().len(), 2);
    match &comp.records()[0] {
        SchRecord::MetaData(m) => assert_eq!(m.libref, "Pin_Properties"),
        other => panic!("wrong variant {}", other.name()),
    }
    match &comp.records()[1] {
        SchRecord::Pin(p) => {
            assert_eq!(p.designator, "1");
            assert_eq!(p.name, "A");
        }
        other => panic!("wrong variant {}", other.name()),
    }
    assert!(lib.get_component("Missing").unwrap().is_none());
}

#[test]
fn empty_data_stream_is_an_empty_record_list() {
    let tail = "|CompCount=1|LibRef0=Empty Part";
    let bytes = build_cfb(&[
        ("FileHeader", lib_header_stream(tail)),
        ("Empty Part/Data", Vec::new()),
    ]);
    let mut lib = SchLib::from_buffer(bytes).unwrap();
    let comp = lib.get_component("Empty Part").unwrap().unwrap();
    assert!(comp.records().is_empty());
}

#[test]
fn section_keys_rename_long_librefs() {
    let long = "A very long component name that does not fit a stream name";
    let tail = format!("|CompCount=1|LibRef0={long}");
    let mut keys = vec![0x7a, 0x04, 0x00, 0x00, b'|'];
    keys.extend_from_slice(format!("KeyCount=1|LibRef0={long}|SectionKey0=Short_0").as_bytes());
    keys.push(0);
    let bytes = build_cfb(&[
        ("FileHeader", lib_header_stream(&tail)),
        ("SectionKeys", keys),
        ("Short_0/Data", frame(0, b"|RECORD=29|OwnerIndex=1")),
    ]);
    let mut lib = SchLib::from_buffer(bytes).unwrap();
    assert_eq!(lib.component_meta()[0].libref(), long);
    assert_eq!(lib.component_meta()[0].sec_key, "Short_0");
    assert_ne!(lib.component_meta()[0].sec_key, lib.component_meta()[0].libref);
    let comp = lib.get_component(long).unwrap().unwrap();
    assert_eq!(comp.records().len(), 1);
}

#[test]
fn data_stream_path_appends_data() {
    assert_eq!(SchLib::data_stream_path("Short_0"), "Short_0/Data");
}

fn storage_stream(entries: &[(&str, &[u8])]) -> Vec<u8> {
    let mut hdr = b"HEADER=Icon storage".to_vec();
    if !entries.is_empty() {
        hdr.extend_from_slice(format!("|Weight={}", entries.len()).as_bytes());
    }
    hdr.push(0);
    let mut out = Vec::new();
    out.extend_from_slice(&(hdr.len() as u32).to_le_bytes());
    out.extend_from_slice(&hdr);
    for (path, blob) in entries {
        let mut z = flate2::write::ZlibEncoder::new(Vec::new(), flate2::Compression::default());
        z.write_all(blob).unwrap();
        let packed = z.finish().unwrap();
        out.extend_from_slice(&[0, 0, 0, 0x01, 0xd0]);
        out.push(path.len() as u8);
        out.extend_from_slice(path.as_bytes());
        out.extend_from_slice(&(packed.len() as u32).to_le_bytes());
        out.extend_from_slice(&packed);
    }
    out
}

#[test]
fn storage_round_trip_inflates_once_and_shares_the_handle() {
    let png: &[u8] = &[
        0x89, b'P', b'N', b'G', 0x0d, 0x0a, 0x1a, 0x0a, 1, 2, 3, 4, 5, 6, 7, 8, 9, 10,
    ];
    let stream = storage_stream(&[("embedded/image.png", png)]);
    let mut storage = Storage::parse(&stream).unwrap();
    assert_eq!(storage.len(), 1);
    assert!(storage.get_data("embedded/image.png").is_none());
    assert!(storage.expand("embedded/image.png").unwrap());
    let first_ptr;
    {
        let first = storage.get_data("embedded/image.png").unwrap();
        assert_eq!(first.as_slice(), png);
        assert_eq!(&first[..8], &[0x89, b'P', b'N', b'G', 0x0d, 0x0a, 0x1a, 0x0a]);
        first_ptr = first.as_ptr();
    }
    // A second access finds the cell already expanded and hands back the
    // same stored bytes.
    assert!(storage.expand("embedded/image.png").unwrap());
    let second = storage.get_data("embedded/image.png").unwrap();
    assert_eq!(second.as_slice(), png);
    assert!(std::ptr::eq(first_ptr, second.as_ptr()));
    assert!(!storage.expand("not a path").unwrap());
}

#[test]
fn storage_without_weight_must_be_empty() {
    let mut hdr = b"HEADER=Icon storage".to_vec();
    hdr.push(0);
    let mut out = Vec::new();
    out.extend_from_slice(&(hdr.len() as u32).to_le_bytes());
    out.extend_from_slice(&hdr);
    let storage = Storage::parse(&out).unwrap();
    assert_eq!(storage.len(), 0);
    out.extend_from_slice(&[1, 2, 3]);
    assert!(Storage::parse(&out).is_err());
}

#[test]
fn storage_entry_marker_is_checked() {
    let mut hdr = b"HEADER=Icon storage|Weight=1".to_vec();
    hdr.push(0);
    let mut out = Vec::new();
    out.extend_from_slice(&(hdr.len() as u32).to_le_bytes());
    out.extend_from_slice(&hdr);
    out.extend_from_slice(&[0, 0, 0, 0x02, 0xd0, 0]);
    let err = Storage::parse(&out).unwrap_err();
    assert!(matches!(*err.kind, altium::ErrorKind::InvalidStorageData(_)));
}

fn doc_header_stream(extra: &str) -> Vec<u8> {
    let mut hdr = format!("HEADER={DOC_HEADER}|UniqueID=DOCUMENT{extra}").into_bytes();
    hdr.push(0);
    let mut out = Vec::new();
    out.extend_from_slice(&(hdr.len() as u32).to_le_bytes());
    out.extend_from_slice(&hdr);
    out
}

#[test]
fn document_lifts_its_sheet_out() {
    let mut stream = doc_header_stream("");
    stream.extend_from_slice(&frame(
        0,
        b"|RECORD=31|FontIdCount=1|FontName1=Calibri|Size1=8",
    ));
    stream.extend_from_slice(&frame(0, b"|RECORD=27|LocationCount=1|X1=5|Y1=6"));
    let bytes = build_cfb(&[("FileHeader", stream)]);
    let doc = SchDoc::from_buffer(bytes).unwrap();
    assert_eq!(doc.records().len(), 1);
    assert!(matches!(doc.records()[0], SchRecord::Wire(_)));
    assert!(!doc.records().iter().any(|r| matches!(r, SchRecord::Sheet(_))));
    assert_eq!(doc.sheet().fonts.len(), 1);
    assert_eq!(doc.sheet().fonts.get_idx(1).unwrap().name(), "Calibri");
    match doc.unique_id() {
        altium::UniqueId::Simple(v) => assert_eq!(&v, b"DOCUMENT"),
        other => panic!("wrong unique id {other:?}"),
    }
}

#[test]
fn document_header_mismatch_is_invalid_header() {
    let mut hdr = b"HEADER=Not a schematic capture file|UniqueID=DOCUMENT".to_vec();
    hdr.push(0);
    let mut out = Vec::new();
    out.extend_from_slice(&(hdr.len() as u32).to_le_bytes());
    out.extend_from_slice(&hdr);
    let bytes = build_cfb(&[("FileHeader", out)]);
    let err = match SchDoc::from_buffer(bytes) {
        Err(e) => e,
        Ok(_) => panic!("expected an error"),
    };
    assert!(matches!(*err.kind, altium::ErrorKind::InvalidHeader(_, _)));
}

#[test]
fn document_requires_a_unique_id() {
    let mut hdr = format!("HEADER={DOC_HEADER}").into_bytes();
    hdr.push(0);
    let mut out = Vec::new();
    out.extend_from_slice(&(hdr.len() as u32).to_le_bytes());
    out.extend_from_slice(&hdr);
    let bytes = build_cfb(&[("FileHeader", out)]);
    let err = match SchDoc::from_buffer(bytes) {
        Err(e) => e,
        Ok(_) => panic!("expected an error"),
    };
    assert!(matches!(*err.kind, altium::ErrorKind::MissingUniqueId));
}

#[test]
fn a_second_sheet_stays_in_the_record_list() {
    let mut stream = doc_header_stream("");
    stream.extend_from_slice(&frame(0, b"|RECORD=31|SystemFont=1"));
    stream.extend_from_slice(&frame(0, b"|RECORD=31|SystemFont=2"));
    let bytes = build_cfb(&[("FileHeader", stream)]);
    let doc = SchDoc::from_buffer(bytes).unwrap();
    assert_eq!(doc.sheet().system_font, 1);
    assert_eq!(doc.records().len(), 1);
    match &doc.records()[0] {
        SchRecord::Sheet(s) => assert_eq!(s.system_font, 2),
        other => panic!("wrong variant {}", other.name()),
    }
}

#[test]
fn section_key_fixup_handles_any_text() {
    assert_eq!(fixup_sec_key("a/b/c"), "a_b_c");
    assert_eq!(fixup_sec_key("plain"), "plain");
    assert_eq!(fixup_sec_key("emb\u{e9}dd\u{e9}d/n\u{e4}me"), "emb\u{e9}dd\u{e9}d_n\u{e4}me");
}

#[test]
fn file_name_takes_the_last_path_piece() {
    assert_eq!(file_name("a/b/c.png"), "c.png");
    assert_eq!(file_name("a\\b\\c.png"), "c.png");
    assert_eq!(file_name("plain"), "");
}
