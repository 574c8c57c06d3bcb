//! Read-side decoding of Altium schematic files.
//!
//! Schematic libraries (`SchLib`) and schematic documents (`SchDoc`) are OLE2
//! compound files whose streams hold a mix of binary-framed and ASCII
//! key-value records.  This crate decodes those streams into typed records.
//!
//! Unless otherwise stated, integer distances are nanometers: 1 = 1 nm.
//! Altium's native "mils" are converted with `nm = mils * 25400`, checked.

pub mod bind_a;
pub mod bind_b;
pub mod bind_c;
pub mod bind_d;
pub mod bind_e;
pub mod bind_f;
pub mod binder;
pub mod common;
pub mod error;
pub mod font;
pub mod keys;
pub mod logging;
pub mod outside;
pub mod params;
pub mod parse;
pub mod pin;
pub mod records;
pub mod schdoc;
pub mod schlib;
pub mod schlibmeta;
pub mod storage;
pub mod stream;

pub use common::{
    buf2lstr, is_number_pattern, mils_to_nm, split_once, str_from_utf8, Location, LocationFract,
    PosHoriz, PosVert, ReadOnlyState, Rgb, Rotation90, UniqueId, Visibility,
};
pub use error::{Error, ErrorKind};

