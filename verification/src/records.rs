//! The typed record kinds of a schematic document or library.
//!
//! Every variant carries at least an owner index and owner part ID; drawing
//! variants additionally carry colors, line widths, locations and a unique
//! ID.  Distances are nanometers; fields bound with a mils conversion are
//! scaled by 25400 as they are decoded.

use vstd::prelude::*;

use crate::common::{Location, LocationFract, ReadOnlyState, Rgb, Rotation90, UniqueId,
    Visibility};
use crate::font::FontCollection;
use crate::params::Justification;
use crate::pin::ElectricalType;

verus! {

/// Wire record kind 1.
#[derive(Clone, Debug, PartialEq)]
pub struct MetaData {
    pub all_pin_count: u32,
    pub area_color: Rgb,
    pub color: Rgb,
    pub current_part_id: u8,
    pub database_table_name: String,
    pub description: Option<String>,
    pub display_mode_count: u8,
    pub index_in_sheet: i16,
    pub library_path: String,
    pub libref: String,
    pub owner_part_id: i8,
    pub part_count: u8,
    pub part_id_locked: bool,
    pub not_use_db_table_name: bool,
    pub orientation: i32,
    pub sheet_part_file_name: String,
    pub design_item_id: String,
    pub source_library_name: String,
    pub target_file_name: String,
    pub location: Location,
    pub unique_id: UniqueId,
}

/// Wire record kind 3.
#[derive(Clone, Debug, PartialEq)]
pub struct IeeeSymbol {
    pub is_not_accessible: bool,
    pub location: Location,
    pub owner_index: u8,
    pub owner_part_id: i8,
}

/// Wire record kind 4.
#[derive(Clone, Debug, PartialEq)]
pub struct Label {
    pub color: Rgb,
    pub font_id: u16,
    pub index_in_sheet: i16,
    pub is_not_accessible: bool,
    pub is_mirrored: bool,
    pub location: LocationFract,
    pub orientation: i32,
    pub owner_index: u8,
    pub owner_part_id: i8,
    pub text: String,
    pub unique_id: UniqueId,
    pub justification: Justification,
}

/// Wire record kind 8.
#[derive(Clone, Debug, PartialEq)]
pub struct Ellipse {
    pub area_color: Rgb,
    pub color: Rgb,
    pub index_in_sheet: i16,
    pub is_not_accessible: bool,
    pub is_solid: bool,
    pub line_width: u32,
    pub location: Location,
    pub owner_index: u8,
    pub owner_part_id: i8,
    pub owner_part_display_mode: i8,
    pub radius: i32,
    pub secondary_radius: i32,
    pub unique_id: UniqueId,
}

/// Wire record kind 9.
#[derive(Clone, Debug, PartialEq)]
pub struct Piechart {
    pub owner_index: u8,
    pub owner_part_id: i8,
}

/// Wire record kind 10.
#[derive(Clone, Debug, PartialEq)]
pub struct RectangleRounded {
    pub area_color: Rgb,
    pub color: Rgb,
    pub corner: Location,
    pub corner_x_radius: i32,
    pub corner_y_radius: i32,
    pub index_in_sheet: i16,
    pub is_not_accessible: bool,
    pub is_solid: bool,
    pub line_width: u32,
    pub location: Location,
    pub owner_index: u8,
    pub owner_part_id: i8,
    pub owner_part_display_mode: i8,
    pub transparent: bool,
    pub unique_id: UniqueId,
}

/// Wire record kind 11.
#[derive(Clone, Debug, PartialEq)]
pub struct ElipticalArc {
    pub owner_index: u8,
    pub owner_part_id: i8,
    pub is_not_accessible: bool,
    pub index_in_sheet: i16,
    pub location: LocationFract,
    pub radius: i8,
    pub radius_frac: i32,
    pub secondary_radius: i8,
    pub secondary_radius_frac: i32,
    pub line_width: i32,
    pub start_angle: String,
    pub end_angle: String,
    pub color: Rgb,
    pub unique_id: UniqueId,
}

/// Wire record kind 12.
#[derive(Clone, Debug, PartialEq)]
pub struct Arc {
    pub owner_index: u8,
    pub owner_part_id: i8,
    pub is_not_accessible: bool,
    pub index_in_sheet: i16,
    pub location: LocationFract,
    pub radius: i8,
    pub radius_frac: i32,
    pub secondary_radius: i8,
    pub secondary_radius_frac: i32,
    pub line_width: i32,
    pub start_angle: String,
    pub end_angle: String,
    pub color: Rgb,
    pub unique_id: UniqueId,
}

/// Wire record kind 13.
#[derive(Clone, Debug, PartialEq)]
pub struct Line {
    pub color: Rgb,
    pub corner_x: i32,
    pub corner_y: i32,
    pub index_in_sheet: i16,
    pub is_not_accessible: bool,
    pub is_solid: bool,
    pub line_width: u32,
    pub location_count: u16,
    pub location_x: i32,
    pub location_y: i32,
    pub owner_index: u8,
    pub owner_part_id: i8,
    pub owner_part_display_mode: i8,
    pub unique_id: UniqueId,
}

/// Wire record kind 14.
#[derive(Clone, Debug, PartialEq)]
pub struct Rectangle {
    pub area_color: Rgb,
    pub color: Rgb,
    pub corner: LocationFract,
    pub index_in_sheet: i16,
    pub is_not_accessible: bool,
    pub is_solid: bool,
    pub line_width: u32,
    pub location: LocationFract,
    pub owner_index: u8,
    pub owner_part_id: i8,
    pub owner_part_display_mode: i8,
    pub transparent: bool,
    pub unique_id: UniqueId,
}

/// Wire record kind 15.
#[derive(Clone, Debug, PartialEq)]
pub struct SheetSymbol {
    pub owner_index: u8,
    pub owner_part_id: i8,
    pub index_in_sheet: i16,
    pub line_width: u32,
    pub color: Rgb,
    pub area_color: Rgb,
    pub is_solid: bool,
    pub location: Location,
    pub symbol_type: String,
    pub show_net_name: bool,
    pub x_size: i32,
    pub y_size: i32,
    pub orientation: i32,
    pub font_id: u16,
    pub text: String,
    pub unique_id: UniqueId,
}

/// Wire record kind 16.
#[derive(Clone, Debug, PartialEq)]
pub struct SheetEntry {
    pub owner_index: u8,
    pub owner_part_id: i8,
    pub index_in_sheet: i16,
    pub text_color: Rgb,
    pub area_color: Rgb,
    pub text_font_id: u16,
    pub text_style: String,
    pub name: String,
    pub unique_id: UniqueId,
    pub arrow_kind: String,
    pub distance_from_top: i32,
    pub color: Rgb,
    pub io_type: i32,
    pub side: i32,
}

/// Wire record kind 17.
#[derive(Clone, Debug, PartialEq)]
pub struct PowerPort {
    pub owner_index: u8,
    pub owner_part_id: i8,
    pub is_cross_sheet_connector: bool,
    pub index_in_sheet: i16,
    pub style: i16,
    pub show_net_name: bool,
    pub location: Location,
    pub orientation: i32,
    pub font_id: u16,
    pub text: String,
    pub unique_id: UniqueId,
    pub color: Rgb,
}

/// Wire record kind 18.
#[derive(Clone, Debug, PartialEq)]
pub struct Port {
    pub alignment: u16,
    pub area_color: Rgb,
    pub border_width: i32,
    pub color: Rgb,
    pub font_id: u16,
    pub height: i32,
    pub width: i32,
    pub index_in_sheet: i16,
    pub io_type: u16,
    pub location: Location,
    pub name: String,
    pub owner_index: u8,
    pub owner_part_id: i8,
    pub text_color: Rgb,
    pub unique_id: UniqueId,
}

/// Wire record kind 22.
#[derive(Clone, Debug, PartialEq)]
pub struct NoErc {
    pub owner_index: u8,
    pub owner_part_id: i8,
    pub index_in_sheet: i16,
    pub orientation: i16,
    pub symbol: String,
    pub is_active: bool,
    pub suppress_all: bool,
    pub location: Location,
    pub color: Rgb,
    pub unique_id: UniqueId,
}

/// Wire record kind 25.
#[derive(Clone, Debug, PartialEq)]
pub struct NetLabel {
    pub owner_index: u8,
    pub owner_part_id: i8,
    pub index_in_sheet: i16,
    pub location: Location,
    pub color: Rgb,
    pub font_id: u16,
    pub text: String,
    pub unique_id: UniqueId,
}

/// Wire record kind 28.
#[derive(Clone, Debug, PartialEq)]
pub struct TextFrame {
    pub location: LocationFract,
    pub corner: LocationFract,
    pub area_color: Rgb,
    pub owner_index: u8,
    pub owner_part_id: i8,
    pub font_id: u16,
    pub alignment: u16,
    pub word_wrap: bool,
    pub text: String,
    pub index_in_sheet: i16,
    pub clip_to_rect: bool,
    pub unique_id: UniqueId,
}

/// Wire record kind 29.
#[derive(Clone, Debug, PartialEq)]
pub struct Junction {
    pub owner_index: u8,
    pub owner_part_id: i8,
}

/// Wire record kind 30.
#[derive(Clone, Debug, PartialEq)]
pub struct Image {
    pub owner_index: u8,
    pub owner_part_id: i8,
    pub is_not_accessible: bool,
    pub index_in_sheet: i16,
    pub location: Location,
    pub corner: Location,
    pub keep_aspect: bool,
    pub embed_image: bool,
    pub file_name: String,
    pub unique_id: UniqueId,
    pub corner_x_frac: i32,
    pub corner_y_frac: i32,
}

/// Wire record kind 32.
#[derive(Clone, Debug, PartialEq)]
pub struct SheetName {
    pub owner_index: u8,
    pub owner_part_id: i8,
    pub index_in_sheet: i16,
    pub location: Location,
    pub color: Rgb,
    pub font_id: u16,
    pub text: String,
    pub unique_id: UniqueId,
}

/// Wire record kind 33.
#[derive(Clone, Debug, PartialEq)]
pub struct FileName {
    pub owner_index: u8,
    pub owner_part_id: i8,
    pub index_in_sheet: i16,
    pub location: Location,
    pub color: Rgb,
    pub font_id: u16,
    pub text: String,
    pub unique_id: UniqueId,
}

/// Wire record kind 34.
#[derive(Clone, Debug, PartialEq)]
pub struct Designator {
    pub owner_index: u8,
    pub owner_part_id: i8,
    pub location: Location,
    pub color: Rgb,
    pub font_id: u16,
    pub unique_id: UniqueId,
    pub name: String,
    pub index_in_sheet: i16,
    pub text: String,
    pub read_only_state: ReadOnlyState,
}

/// Wire record kind 37.
#[derive(Clone, Debug, PartialEq)]
pub struct BusEntry {
    pub owner_index: u8,
    pub owner_part_id: i8,
}

/// Wire record kind 39.
#[derive(Clone, Debug, PartialEq)]
pub struct Template {
    pub owner_index: u8,
    pub owner_part_id: i8,
    pub is_not_accessible: bool,
    pub file_name: String,
}

/// Wire record kind 41.
#[derive(Clone, Debug, PartialEq)]
pub struct Parameter {
    pub owner_index: u8,
    pub owner_part_id: i8,
    pub location: Location,
    pub index_in_sheet: i16,
    pub color: Rgb,
    pub font_id: u16,
    pub unique_id: UniqueId,
    pub read_only_state: i8,
    pub name: String,
    pub is_hidden: bool,
    pub text: String,
}

/// Wire record kind 44.
#[derive(Clone, Debug, PartialEq)]
pub struct ImplementationList {
    pub owner_index: u8,
    pub owner_part_id: i8,
}

/// Wire record kind 45.
#[derive(Clone, Debug, PartialEq)]
pub struct Implementation {
    pub owner_index: u8,
    pub owner_part_id: i8,
    pub use_component_library: bool,
    pub model_name: String,
    pub model_type: String,
    pub datafile_count: u16,
    pub model_datafile_entity0: String,
    pub model_datafile_kind0: String,
    pub is_current: bool,
    pub datalinks_locked: bool,
    pub database_datalinks_locked: bool,
    pub unique_id: UniqueId,
    pub index_in_sheet: i16,
}

/// Wire record kind 46.
#[derive(Clone, Debug, PartialEq)]
pub struct ImplementationChild1 {
    pub owner_index: u8,
    pub owner_part_id: i8,
}

/// Wire record kind 48.
#[derive(Clone, Debug, PartialEq)]
pub struct ImplementationChild2 {
    pub owner_index: u8,
    pub owner_part_id: i8,
}

/// Wire record kind 5.
#[derive(Clone, Debug, PartialEq)]
pub struct Bezier {
    pub color: Rgb,
    pub index_in_sheet: i16,
    pub is_not_accessible: bool,
    pub line_width: u32,
    pub locations: Vec<Location>,
    pub owner_index: u8,
    pub owner_part_id: i8,
    pub owner_part_display_mode: i8,
    pub unique_id: UniqueId,
}

/// Wire record kind 6.
#[derive(Clone, Debug, PartialEq)]
pub struct PolyLine {
    pub owner_index: u8,
    pub owner_part_id: i8,
    pub is_not_accessible: bool,
    pub index_in_sheet: i16,
    pub line_width: u32,
    pub color: Rgb,
    pub locations: Vec<LocationFract>,
    pub unique_id: UniqueId,
}

/// Wire record kind 7.
#[derive(Clone, Debug, PartialEq)]
pub struct Polygon {
    pub area_color: Rgb,
    pub color: Rgb,
    pub index_in_sheet: i16,
    pub is_not_accessible: bool,
    pub is_solid: bool,
    pub line_width: u32,
    pub locations: Vec<Location>,
    pub owner_index: u8,
    pub owner_part_id: i8,
    pub owner_part_display_mode: i8,
    pub unique_id: UniqueId,
}

/// Wire record kind 26.
#[derive(Clone, Debug, PartialEq)]
pub struct Bus {
    pub owner_index: u8,
    pub owner_part_id: i8,
    pub index_in_sheet: i16,
    pub line_width: u32,
    pub color: Rgb,
    pub locations: Vec<Location>,
    pub unique_id: UniqueId,
}

/// Wire record kind 27.
#[derive(Clone, Debug, PartialEq)]
pub struct Wire {
    pub owner_index: u8,
    pub owner_part_id: i8,
    pub line_width: u32,
    pub color: Rgb,
    pub locations: Vec<Location>,
    pub index_in_sheet: i16,
    pub unique_id: UniqueId,
}

/// Wire record kind 31: the sheet, carrying the document's font table.
#[derive(Clone, Debug, PartialEq)]
pub struct Sheet {
    pub owner_index: u8,
    pub owner_part_id: i8,
    pub snap_grid_size: i32,
    pub snap_grid_on: bool,
    pub visible_grid_on: bool,
    pub visible_grid_size: i32,
    pub custom_x: i32,
    pub custom_y: i32,
    pub custom_x_zones: u16,
    pub custom_y_zones: u16,
    pub custom_margin_width: u16,
    pub hot_spot_grid_on: bool,
    pub hot_spot_grid_size: i32,
    pub system_font: u16,
    pub fonts: FontCollection,
    pub border_on: bool,
    pub sheet_number_space_size: i32,
    pub area_color: Rgb,
    pub display_unit: u16,
    pub use_mbcs: bool,
    pub is_boc: bool,
    pub file_version_info: String,
}

/// Wire record kind 2, as decoded from the binary form or the ASCII form.
#[derive(Clone, Debug, PartialEq)]
pub struct SchPin {
    pub formal_type: u8,
    pub owner_index: u8,
    pub owner_part_id: u8,
    pub description: String,
    pub designator: String,
    pub name: String,
    pub location: Location,
    pub electrical: ElectricalType,
    pub length: u32,
    pub swap_id_part: String,
    pub designator_vis: Visibility,
    pub name_vis: Visibility,
    pub rotation: Rotation90,
    pub propegation_delay: String,
    pub unique_id: UniqueId,
}

/// A representation of one record in a schematic library or document.
///
/// Each variant is one record kind of the wire format; `Undefined` stands
/// for a record whose numeric ID no variant claims.
#[derive(Clone, Debug, PartialEq)]
pub enum SchRecord {
    Undefined,
    MetaData(Box<MetaData>),
    Pin(SchPin),
    IeeeSymbol(IeeeSymbol),
    Label(Label),
    Bezier(Bezier),
    PolyLine(PolyLine),
    Polygon(Polygon),
    Ellipse(Ellipse),
    Piechart(Piechart),
    RectangleRounded(RectangleRounded),
    ElipticalArc(ElipticalArc),
    Arc(Arc),
    Line(Line),
    Rectangle(Rectangle),
    SheetSymbol(SheetSymbol),
    SheetEntry(SheetEntry),
    PowerPort(PowerPort),
    Port(Port),
    NoErc(NoErc),
    NetLabel(NetLabel),
    Bus(Bus),
    Wire(Wire),
    TextFrame(TextFrame),
    Junction(Junction),
    Image(Image),
    Sheet(Sheet),
    SheetName(SheetName),
    FileName(FileName),
    Designator(Designator),
    BusEntry(BusEntry),
    Template(Template),
    Parameter(Parameter),
    ImplementationList(ImplementationList),
    Implementation(Implementation),
    ImplementationChild1(ImplementationChild1),
    ImplementationChild2(ImplementationChild2),
}

impl SchRecord {
    /// The wire record ID of this variant; `Undefined` carries none and
    /// reports 0.
    pub open spec fn spec_record_id(self) -> u32 {
        match self {
            SchRecord::Undefined => 0,
            SchRecord::MetaData(_) => 1,
            SchRecord::Pin(_) => 2,
            SchRecord::IeeeSymbol(_) => 3,
            SchRecord::Label(_) => 4,
            SchRecord::Bezier(_) => 5,
            SchRecord::PolyLine(_) => 6,
            SchRecord::Polygon(_) => 7,
            SchRecord::Ellipse(_) => 8,
            SchRecord::Piechart(_) => 9,
            SchRecord::RectangleRounded(_) => 10,
            SchRecord::ElipticalArc(_) => 11,
            SchRecord::Arc(_) => 12,
            SchRecord::Line(_) => 13,
            SchRecord::Rectangle(_) => 14,
            SchRecord::SheetSymbol(_) => 15,
            SchRecord::SheetEntry(_) => 16,
            SchRecord::PowerPort(_) => 17,
            SchRecord::Port(_) => 18,
            SchRecord::NoErc(_) => 22,
            SchRecord::NetLabel(_) => 25,
            SchRecord::Bus(_) => 26,
            SchRecord::Wire(_) => 27,
            SchRecord::TextFrame(_) => 28,
            SchRecord::Junction(_) => 29,
            SchRecord::Image(_) => 30,
            SchRecord::Sheet(_) => 31,
            SchRecord::SheetName(_) => 32,
            SchRecord::FileName(_) => 33,
            SchRecord::Designator(_) => 34,
            SchRecord::BusEntry(_) => 37,
            SchRecord::Template(_) => 39,
            SchRecord::Parameter(_) => 41,
            SchRecord::ImplementationList(_) => 44,
            SchRecord::Implementation(_) => 45,
            SchRecord::ImplementationChild1(_) => 46,
            SchRecord::ImplementationChild2(_) => 48,
        }
    }

    /// The variant's name, for diagnostics.
    pub fn name(&self) -> (r: &'static str)
        ensures
            r@ == self.spec_name(),
    {
        match self {
            SchRecord::Undefined => "Undefined",
            SchRecord::MetaData(_) => "MetaData",
            SchRecord::Pin(_) => "Pin",
            SchRecord::IeeeSymbol(_) => "IeeeSymbol",
            SchRecord::Label(_) => "Label",
            SchRecord::Bezier(_) => "Bezier",
            SchRecord::PolyLine(_) => "PolyLine",
            SchRecord::Polygon(_) => "Polygon",
            SchRecord::Ellipse(_) => "Ellipse",
            SchRecord::Piechart(_) => "Piechart",
            SchRecord::RectangleRounded(_) => "RectangleRounded",
            SchRecord::ElipticalArc(_) => "ElipticalArc",
            SchRecord::Arc(_) => "Arc",
            SchRecord::Line(_) => "Line",
            SchRecord::Rectangle(_) => "Rectangle",
            SchRecord::SheetSymbol(_) => "SheetSymbol",
            SchRecord::SheetEntry(_) => "SheetEntry",
            SchRecord::PowerPort(_) => "PowerPort",
            SchRecord::Port(_) => "Port",
            SchRecord::NoErc(_) => "NoErc",
            SchRecord::NetLabel(_) => "NetLabel",
            SchRecord::Bus(_) => "Bus",
            SchRecord::Wire(_) => "Wire",
            SchRecord::TextFrame(_) => "TextFrame",
            SchRecord::Junction(_) => "Junction",
            SchRecord::Image(_) => "Image",
            SchRecord::Sheet(_) => "Sheet",
            SchRecord::SheetName(_) => "SheetName",
            SchRecord::FileName(_) => "FileName",
            SchRecord::Designator(_) => "Designator",
            SchRecord::BusEntry(_) => "BusEntry",
            SchRecord::Template(_) => "Template",
            SchRecord::Parameter(_) => "Parameter",
            SchRecord::ImplementationList(_) => "ImplementationList",
            SchRecord::Implementation(_) => "Implementation",
            SchRecord::ImplementationChild1(_) => "ImplementationChild1",
            SchRecord::ImplementationChild2(_) => "ImplementationChild2",
        }
    }

    pub open spec fn spec_name(self) -> Seq<char> {
        match self {
            SchRecord::Undefined => "Undefined"@,
            SchRecord::MetaData(_) => "MetaData"@,
            SchRecord::Pin(_) => "Pin"@,
            SchRecord::IeeeSymbol(_) => "IeeeSymbol"@,
            SchRecord::Label(_) => "Label"@,
            SchRecord::Bezier(_) => "Bezier"@,
            SchRecord::PolyLine(_) => "PolyLine"@,
            SchRecord::Polygon(_) => "Polygon"@,
            SchRecord::Ellipse(_) => "Ellipse"@,
            SchRecord::Piechart(_) => "Piechart"@,
            SchRecord::RectangleRounded(_) => "RectangleRounded"@,
            SchRecord::ElipticalArc(_) => "ElipticalArc"@,
            SchRecord::Arc(_) => "Arc"@,
            SchRecord::Line(_) => "Line"@,
            SchRecord::Rectangle(_) => "Rectangle"@,
            SchRecord::SheetSymbol(_) => "SheetSymbol"@,
            SchRecord::SheetEntry(_) => "SheetEntry"@,
            SchRecord::PowerPort(_) => "PowerPort"@,
            SchRecord::Port(_) => "Port"@,
            SchRecord::NoErc(_) => "NoErc"@,
            SchRecord::NetLabel(_) => "NetLabel"@,
            SchRecord::Bus(_) => "Bus"@,
            SchRecord::Wire(_) => "Wire"@,
            SchRecord::TextFrame(_) => "TextFrame"@,
            SchRecord::Junction(_) => "Junction"@,
            SchRecord::Image(_) => "Image"@,
            SchRecord::Sheet(_) => "Sheet"@,
            SchRecord::SheetName(_) => "SheetName"@,
            SchRecord::FileName(_) => "FileName"@,
            SchRecord::Designator(_) => "Designator"@,
            SchRecord::BusEntry(_) => "BusEntry"@,
            SchRecord::Template(_) => "Template"@,
            SchRecord::Parameter(_) => "Parameter"@,
            SchRecord::ImplementationList(_) => "ImplementationList"@,
            SchRecord::Implementation(_) => "Implementation"@,
            SchRecord::ImplementationChild1(_) => "ImplementationChild1"@,
            SchRecord::ImplementationChild2(_) => "ImplementationChild2"@,
        }
    }
}

} // verus!
