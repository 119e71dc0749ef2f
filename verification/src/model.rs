//! The map model: colours, feature classes, and the records that the reader
//! builds. Coordinates, elevations and widths are carried as the bit
//! patterns of the IEEE-754 single-precision numbers read from the file; the
//! library moves them, negates them and tests them for zero, and does no
//! other arithmetic on them.
use vstd::prelude::*;
use crate::text::{
    all_digits, digits_value, occurs_at, chars_of, contains_str, is_whitespace, lower_chars, spec_contains, spec_lower, spec_trim,
    str_eq, trim, trim_end, trim_start,
};

verus! {

/// `Option<String>` seen as an optional text.
pub open spec fn opt_text(o: Option<String>) -> Option<Seq<char>> {
    match o {
        Some(s) => Some(s@),
        None => None,
    }
}

/// Lower-case hexadecimal digit of a value below 16.
pub open spec fn hex_digit(v: int) -> char {
    if v < 10 {
        ('0' as int + v) as char
    } else {
        ('a' as int + v - 10) as char
    }
}

/// Two lower-case hexadecimal digits of a byte (`{:02x}`).
pub open spec fn hex_byte(b: u8) -> Seq<char> {
    seq![hex_digit(b as int / 16), hex_digit(b as int % 16)]
}

/// The decimal digits of a number, without leading zeros (`{}`).
pub open spec fn decimal(n: nat) -> Seq<char>
    decreases n,
{
    if n < 10 {
        seq![('0' as int + n) as char]
    } else {
        decimal(n / 10).push(('0' as int + n % 10) as char)
    }
}

/// The alpha channel as a fraction of 255 with three decimals (`{:.3}` of
/// `a / 255`): the thousandths are `a * 1000 / 255` rounded to nearest (the
/// quotient is never exactly half-way).
pub open spec fn alpha_fraction(a: u8) -> Seq<char> {
    let t = (a as int * 2000 + 255) / 510;
    seq![('0' as int + t / 1000) as char, '.'] + seq![
        ('0' as int + (t / 100) % 10) as char,
        ('0' as int + (t / 10) % 10) as char,
        ('0' as int + t % 10) as char,
    ]
}

/// An 8-bit RGBA colour.
#[derive(Debug, Clone, Copy, PartialEq, Eq, Structural)]
pub struct RgbaColor {
    pub r: u8,
    pub g: u8,
    pub b: u8,
    pub a: u8,
}

/// `#rrggbb` in lower-case hexadecimal.
pub open spec fn spec_hex(c: RgbaColor) -> Seq<char> {
    seq!['#'] + hex_byte(c.r) + hex_byte(c.g) + hex_byte(c.b)
}

/// `rgba(r, g, b, a)` with the alpha as a fraction with three decimals.
pub open spec fn spec_css(c: RgbaColor) -> Seq<char> {
    "rgba("@ + decimal(c.r as nat) + ", "@ + decimal(c.g as nat) + ", "@ + decimal(c.b as nat)
        + ", "@ + alpha_fraction(c.a) + ")"@
}

fn hex_char(v: u8) -> (c: char)
    requires
        v < 16,
    ensures
        c == hex_digit(v as int),
{
    if v < 10 {
        (v + 48) as char
    } else {
        (v + 87) as char
    }
}

fn push_decimal(out: &mut String, n: u8)
    ensures
        final(out)@ == old(out)@ + decimal(n as nat),
{
    if n >= 100 {
        out.push(((n / 100) + 48) as char);
        out.push((((n / 10) % 10) + 48) as char);
        out.push(((n % 10) + 48) as char);
        assert(decimal(n as nat) =~= seq![
            ('0' as int + n / 100) as char,
            ('0' as int + (n / 10) % 10) as char,
            ('0' as int + n % 10) as char,
        ]) by {
            assert(decimal((n / 10) as nat) == decimal((n / 100) as nat).push(
                ('0' as int + (n / 10) % 10) as char,
            ));
        }
    } else if n >= 10 {
        out.push(((n / 10) + 48) as char);
        out.push(((n % 10) + 48) as char);
        assert(decimal((n / 10) as nat) =~= seq![('0' as int + n / 10) as char]);
        assert(decimal(n as nat) =~= seq![
            ('0' as int + n / 10) as char,
            ('0' as int + n % 10) as char,
        ]);
    } else {
        out.push((n + 48) as char);
        assert(decimal(n as nat) =~= seq![('0' as int + n) as char]);
    }
}

fn push_str(out: &mut String, s: &str)
    ensures
        final(out)@ == old(out)@ + s@,
{
    out.append(s);
}

impl RgbaColor {
    pub fn rgba(r: u8, g: u8, b: u8, a: u8) -> (c: Self)
        ensures
            c == (RgbaColor { r, g, b, a }),
    {
        RgbaColor { r, g, b, a }
    }

    pub fn rgb(r: u8, g: u8, b: u8) -> (c: Self)
        ensures
            c == (RgbaColor { r, g, b, a: 255 }),
    {
        RgbaColor { r, g, b, a: 255 }
    }

    pub fn with_alpha(self, a: u8) -> (c: Self)
        ensures
            c == (RgbaColor { a, ..self }),
    {
        RgbaColor { a, ..self }
    }

    /// CSS notation: `rgba(r, g, b, alpha)` with alpha in `0.000..=1.000`.
    pub fn to_css(self) -> (s: String)
        ensures
            s@ == spec_css(self),
    {
        let mut out = String::new();
        push_str(&mut out, "rgba(");
        push_decimal(&mut out, self.r);
        push_str(&mut out, ", ");
        push_decimal(&mut out, self.g);
        push_str(&mut out, ", ");
        push_decimal(&mut out, self.b);
        push_str(&mut out, ", ");
        let t: u32 = (self.a as u32 * 2000 + 255) / 510;
        assert(t <= 1000);
        out.push(((t / 1000) as u8 + 48) as char);
        out.push('.');
        out.push((((t / 100) % 10) as u8 + 48) as char);
        out.push((((t / 10) % 10) as u8 + 48) as char);
        out.push(((t % 10) as u8 + 48) as char);
        push_str(&mut out, ")");
        assert(out@ =~= spec_css(self));
        out
    }

    /// Hexadecimal notation `#rrggbb` (the alpha channel is left out).
    pub fn to_hex(self) -> (s: String)
        ensures
            s@ == spec_hex(self),
    {
        let mut out = String::new();
        out.push('#');
        out.push(hex_char(self.r / 16));
        out.push(hex_char(self.r % 16));
        out.push(hex_char(self.g / 16));
        out.push(hex_char(self.g % 16));
        out.push(hex_char(self.b / 16));
        out.push(hex_char(self.b % 16));
        assert(out@ =~= spec_hex(self));
        out
    }
}

/// The class of a network segment, read from its `icls` attribute.
#[derive(Debug, Clone, PartialEq, Eq, Hash)]
pub enum SegmentClass {
    Highway,
    LargeRoad,
    MediumRoad,
    SmallRoad,
    PedestrianStreet,
    PedestrianPath,
    PedestrianWay,
    TrainTrack,
    MetroTrack,
    ElectricityWire,
    AirplaneRunway,
    AirplaneLine,
    HelicopterPath,
    BlimpPath,
    FloodWall,
    BeautificationItem,
    Miscellaneous,
    Unknown(String),
}

/// A segment class with its unknown text as characters.
pub ghost enum SegmentClassView {
    Highway,
    LargeRoad,
    MediumRoad,
    SmallRoad,
    PedestrianStreet,
    PedestrianPath,
    PedestrianWay,
    TrainTrack,
    MetroTrack,
    ElectricityWire,
    AirplaneRunway,
    AirplaneLine,
    HelicopterPath,
    BlimpPath,
    FloodWall,
    BeautificationItem,
    Miscellaneous,
    Unknown(Seq<char>),
}

impl View for SegmentClass {
    type V = SegmentClassView;

    open spec fn view(&self) -> SegmentClassView {
        match self {
            SegmentClass::Highway => SegmentClassView::Highway,
            SegmentClass::LargeRoad => SegmentClassView::LargeRoad,
            SegmentClass::MediumRoad => SegmentClassView::MediumRoad,
            SegmentClass::SmallRoad => SegmentClassView::SmallRoad,
            SegmentClass::PedestrianStreet => SegmentClassView::PedestrianStreet,
            SegmentClass::PedestrianPath => SegmentClassView::PedestrianPath,
            SegmentClass::PedestrianWay => SegmentClassView::PedestrianWay,
            SegmentClass::TrainTrack => SegmentClassView::TrainTrack,
            SegmentClass::MetroTrack => SegmentClassView::MetroTrack,
            SegmentClass::ElectricityWire => SegmentClassView::ElectricityWire,
            SegmentClass::AirplaneRunway => SegmentClassView::AirplaneRunway,
            SegmentClass::AirplaneLine => SegmentClassView::AirplaneLine,
            SegmentClass::HelicopterPath => SegmentClassView::HelicopterPath,
            SegmentClass::BlimpPath => SegmentClassView::BlimpPath,
            SegmentClass::FloodWall => SegmentClassView::FloodWall,
            SegmentClass::BeautificationItem => SegmentClassView::BeautificationItem,
            SegmentClass::Miscellaneous => SegmentClassView::Miscellaneous,
            SegmentClass::Unknown(s) => SegmentClassView::Unknown(s@),
        }
    }
}

/// The class that an `icls` text names: the first of the known names that
/// occurs in the trimmed, lower-cased text; `Miscellaneous` for a blank
/// text; otherwise the text itself, as written.
pub open spec fn spec_from_icls(icls: Seq<char>) -> SegmentClassView {
    let n = spec_lower(spec_trim(icls));
    if spec_contains(n, "highway"@) {
        SegmentClassView::Highway
    } else if spec_contains(n, "large road"@) {
        SegmentClassView::LargeRoad
    } else if spec_contains(n, "medium road"@) {
        SegmentClassView::MediumRoad
    } else if spec_contains(n, "small road"@) {
        SegmentClassView::SmallRoad
    } else if spec_contains(n, "pedestrian street"@) {
        SegmentClassView::PedestrianStreet
    } else if spec_contains(n, "pedestrian path"@) {
        SegmentClassView::PedestrianPath
    } else if spec_contains(n, "pedestrian way"@) {
        SegmentClassView::PedestrianWay
    } else if spec_contains(n, "train track"@) {
        SegmentClassView::TrainTrack
    } else if spec_contains(n, "metro track"@) {
        SegmentClassView::MetroTrack
    } else if spec_contains(n, "electricity wire"@) || spec_contains(n, "power line"@) {
        SegmentClassView::ElectricityWire
    } else if spec_contains(n, "airplane runway"@) {
        SegmentClassView::AirplaneRunway
    } else if spec_contains(n, "airplane line"@) {
        SegmentClassView::AirplaneLine
    } else if spec_contains(n, "helicopter path"@) {
        SegmentClassView::HelicopterPath
    } else if spec_contains(n, "blimp path"@) {
        SegmentClassView::BlimpPath
    } else if spec_contains(n, "flood wall"@) {
        SegmentClassView::FloodWall
    } else if spec_contains(n, "beautification item"@) || spec_contains(n, "fence"@)
        || spec_contains(n, "decoration"@) {
        SegmentClassView::BeautificationItem
    } else if n.len() == 0 {
        SegmentClassView::Miscellaneous
    } else {
        SegmentClassView::Unknown(icls)
    }
}

/// The display label of a segment class; an unknown class shows its text.
pub open spec fn spec_raw_label(c: SegmentClassView) -> Seq<char> {
    match c {
        SegmentClassView::Highway => "Highway"@,
        SegmentClassView::LargeRoad => "Large Road"@,
        SegmentClassView::MediumRoad => "Medium Road"@,
        SegmentClassView::SmallRoad => "Small Road"@,
        SegmentClassView::PedestrianStreet => "Pedestrian Street"@,
        SegmentClassView::PedestrianPath => "Pedestrian Path"@,
        SegmentClassView::PedestrianWay => "Pedestrian Way"@,
        SegmentClassView::TrainTrack => "Train Track"@,
        SegmentClassView::MetroTrack => "Metro Track"@,
        SegmentClassView::ElectricityWire => "Electricity Wire"@,
        SegmentClassView::AirplaneRunway => "Airplane Runway"@,
        SegmentClassView::AirplaneLine => "Airplane Line"@,
        SegmentClassView::HelicopterPath => "Helicopter Path"@,
        SegmentClassView::BlimpPath => "Blimp Path"@,
        SegmentClassView::FloodWall => "Flood Wall"@,
        SegmentClassView::BeautificationItem => "Beautification Item"@,
        SegmentClassView::Miscellaneous => "Miscellaneous"@,
        SegmentClassView::Unknown(s) => s,
    }
}

impl SegmentClass {
    pub fn from_icls(icls: &str) -> (c: Self)
        ensures
            c@ == spec_from_icls(icls@),
    {
        let trimmed = trim(icls);
        let raw = chars_of(trimmed.as_str());
        let n = lower_chars(&raw);
        if contains_str(&n, "highway") {
            SegmentClass::Highway
        } else if contains_str(&n, "large road") {
            SegmentClass::LargeRoad
        } else if contains_str(&n, "medium road") {
            SegmentClass::MediumRoad
        } else if contains_str(&n, "small road") {
            SegmentClass::SmallRoad
        } else if contains_str(&n, "pedestrian street") {
            SegmentClass::PedestrianStreet
        } else if contains_str(&n, "pedestrian path") {
            SegmentClass::PedestrianPath
        } else if contains_str(&n, "pedestrian way") {
            SegmentClass::PedestrianWay
        } else if contains_str(&n, "train track") {
            SegmentClass::TrainTrack
        } else if contains_str(&n, "metro track") {
            SegmentClass::MetroTrack
        } else if contains_str(&n, "electricity wire") || contains_str(&n, "power line") {
            SegmentClass::ElectricityWire
        } else if contains_str(&n, "airplane runway") {
            SegmentClass::AirplaneRunway
        } else if contains_str(&n, "airplane line") {
            SegmentClass::AirplaneLine
        } else if contains_str(&n, "helicopter path") {
            SegmentClass::HelicopterPath
        } else if contains_str(&n, "blimp path") {
            SegmentClass::BlimpPath
        } else if contains_str(&n, "flood wall") {
            SegmentClass::FloodWall
        } else if contains_str(&n, "beautification item") || contains_str(&n, "fence")
            || contains_str(&n, "decoration") {
            SegmentClass::BeautificationItem
        } else if n.len() == 0 {
            SegmentClass::Miscellaneous
        } else {
            SegmentClass::Unknown(icls.to_owned())
        }
    }

    pub fn raw_label(&self) -> (s: &str)
        ensures
            s@ == spec_raw_label(self@),
    {
        match self {
            SegmentClass::Highway => "Highway",
            SegmentClass::LargeRoad => "Large Road",
            SegmentClass::MediumRoad => "Medium Road",
            SegmentClass::SmallRoad => "Small Road",
            SegmentClass::PedestrianStreet => "Pedestrian Street",
            SegmentClass::PedestrianPath => "Pedestrian Path",
            SegmentClass::PedestrianWay => "Pedestrian Way",
            SegmentClass::TrainTrack => "Train Track",
            SegmentClass::MetroTrack => "Metro Track",
            SegmentClass::ElectricityWire => "Electricity Wire",
            SegmentClass::AirplaneRunway => "Airplane Runway",
            SegmentClass::AirplaneLine => "Airplane Line",
            SegmentClass::HelicopterPath => "Helicopter Path",
            SegmentClass::BlimpPath => "Blimp Path",
            SegmentClass::FloodWall => "Flood Wall",
            SegmentClass::BeautificationItem => "Beautification Item",
            SegmentClass::Miscellaneous => "Miscellaneous",
            SegmentClass::Unknown(value) => value.as_str(),
        }
    }
}

/// The kind of a network node, read from its service and sub-service.
#[derive(Debug, Clone, PartialEq, Eq, Hash)]
pub enum NodeKind {
    Road,
    Water,
    TrainStation,
    MetroStation,
    Harbor,
    Airport,
    Electricity,
    Beautification,
    PublicTransport,
    Unknown(String, String),
}

pub ghost enum NodeKindView {
    Road,
    Water,
    TrainStation,
    MetroStation,
    Harbor,
    Airport,
    Electricity,
    Beautification,
    PublicTransport,
    Unknown(Seq<char>, Seq<char>),
}

impl View for NodeKind {
    type V = NodeKindView;

    open spec fn view(&self) -> NodeKindView {
        match self {
            NodeKind::Road => NodeKindView::Road,
            NodeKind::Water => NodeKindView::Water,
            NodeKind::TrainStation => NodeKindView::TrainStation,
            NodeKind::MetroStation => NodeKindView::MetroStation,
            NodeKind::Harbor => NodeKindView::Harbor,
            NodeKind::Airport => NodeKindView::Airport,
            NodeKind::Electricity => NodeKindView::Electricity,
            NodeKind::Beautification => NodeKindView::Beautification,
            NodeKind::PublicTransport => NodeKindView::PublicTransport,
            NodeKind::Unknown(s, t) => NodeKindView::Unknown(s@, t@),
        }
    }
}

/// The node kind for a service and sub-service, both trimmed: an unknown
/// pair is kept, trimmed.
pub open spec fn spec_from_service(service: Seq<char>, subtype: Seq<char>) -> NodeKindView {
    let s = spec_trim(service);
    let t = spec_trim(subtype);
    if s == "Road"@ {
        NodeKindView::Road
    } else if s == "Water"@ {
        NodeKindView::Water
    } else if s == "PublicTransport"@ && t == "PublicTransportTrain"@ {
        NodeKindView::TrainStation
    } else if s == "PublicTransport"@ && t == "PublicTransportMetro"@ {
        NodeKindView::MetroStation
    } else if s == "PublicTransport"@ && t == "PublicTransportShip"@ {
        NodeKindView::Harbor
    } else if s == "PublicTransport"@ && t == "PublicTransportPlane"@ {
        NodeKindView::Airport
    } else if s == "PublicTransport"@ {
        NodeKindView::PublicTransport
    } else if s == "Electricity"@ {
        NodeKindView::Electricity
    } else if s == "Beautification"@ {
        NodeKindView::Beautification
    } else {
        NodeKindView::Unknown(s, t)
    }
}

/// The display label of a node kind; an unknown kind shows its
/// sub-service, or its service when the sub-service is empty.
pub open spec fn spec_node_label(k: NodeKindView) -> Seq<char> {
    match k {
        NodeKindView::Road => "Road"@,
        NodeKindView::Water => "Water"@,
        NodeKindView::TrainStation => "Train Station"@,
        NodeKindView::MetroStation => "Metro Station"@,
        NodeKindView::Harbor => "Harbor"@,
        NodeKindView::Airport => "Airport"@,
        NodeKindView::Electricity => "Electricity"@,
        NodeKindView::Beautification => "Beautification"@,
        NodeKindView::PublicTransport => "Public Transport"@,
        NodeKindView::Unknown(s, t) => if t.len() == 0 {
            s
        } else {
            t
        },
    }
}

impl NodeKind {
    pub fn from_service(service: &str, subtype: &str) -> (k: Self)
        ensures
            k@ == spec_from_service(service@, subtype@),
    {
        let s = trim(service);
        let t = trim(subtype);
        if str_eq(s.as_str(), "Road") {
            NodeKind::Road
        } else if str_eq(s.as_str(), "Water") {
            NodeKind::Water
        } else if str_eq(s.as_str(), "PublicTransport") && str_eq(t.as_str(), "PublicTransportTrain") {
            NodeKind::TrainStation
        } else if str_eq(s.as_str(), "PublicTransport") && str_eq(t.as_str(), "PublicTransportMetro") {
            NodeKind::MetroStation
        } else if str_eq(s.as_str(), "PublicTransport") && str_eq(t.as_str(), "PublicTransportShip") {
            NodeKind::Harbor
        } else if str_eq(s.as_str(), "PublicTransport") && str_eq(t.as_str(), "PublicTransportPlane") {
            NodeKind::Airport
        } else if str_eq(s.as_str(), "PublicTransport") {
            NodeKind::PublicTransport
        } else if str_eq(s.as_str(), "Electricity") {
            NodeKind::Electricity
        } else if str_eq(s.as_str(), "Beautification") {
            NodeKind::Beautification
        } else {
            NodeKind::Unknown(s, t)
        }
    }

    pub fn label(&self) -> (s: &str)
        ensures
            s@ == spec_node_label(self@),
    {
        match self {
            NodeKind::Road => "Road",
            NodeKind::Water => "Water",
            NodeKind::TrainStation => "Train Station",
            NodeKind::MetroStation => "Metro Station",
            NodeKind::Harbor => "Harbor",
            NodeKind::Airport => "Airport",
            NodeKind::Electricity => "Electricity",
            NodeKind::Beautification => "Beautification",
            NodeKind::PublicTransport => "Public Transport",
            NodeKind::Unknown(service, subtype) => {
                if subtype.as_str().is_empty() {
                    service.as_str()
                } else {
                    subtype.as_str()
                }
            },
        }
    }
}

/// Where a feature lies relative to the ground.
#[derive(Debug, Clone, Copy, PartialEq, Eq, Structural)]
pub enum ElevationState {
    Underground,
    Surface,
    Elevated,
}

/// The kind of a public-transport line.
#[derive(Debug, Clone, Copy, PartialEq, Eq, Structural)]
pub enum TransportKind {
    Metro,
    Pedestrian,
    Other,
}

/// The transport kind that a `type` text names, compared trimmed and
/// lower-cased.
pub open spec fn spec_transport_kind(value: Seq<char>) -> TransportKind {
    let n = spec_lower(spec_trim(value));
    if n == "metro"@ {
        TransportKind::Metro
    } else if n == "pedestrian"@ {
        TransportKind::Pedestrian
    } else {
        TransportKind::Other
    }
}

pub open spec fn spec_transport_label(k: TransportKind) -> Seq<char> {
    match k {
        TransportKind::Metro => "Metro"@,
        TransportKind::Pedestrian => "Pedestrian"@,
        TransportKind::Other => "Other"@,
    }
}

impl TransportKind {
    pub fn from_str(value: &str) -> (k: Self)
        ensures
            k == spec_transport_kind(value@),
    {
        let trimmed = trim(value);
        let raw = chars_of(trimmed.as_str());
        let n = lower_chars(&raw);
        let metro = chars_of("metro");
        let pedestrian = chars_of("pedestrian");
        if seq_eq(&n, &metro) {
            TransportKind::Metro
        } else if seq_eq(&n, &pedestrian) {
            TransportKind::Pedestrian
        } else {
            TransportKind::Other
        }
    }

    pub fn label(&self) -> (s: &str)
        ensures
            s@ == spec_transport_label(*self),
    {
        match self {
            TransportKind::Metro => "Metro",
            TransportKind::Pedestrian => "Pedestrian",
            TransportKind::Other => "Other",
        }
    }
}

/// Equality of two character sequences.
pub fn seq_eq(a: &Vec<char>, b: &Vec<char>) -> (r: bool)
    ensures
        r == (a@ == b@),
{
    if a.len() != b.len() {
        return false;
    }
    for i in 0..a.len()
        invariant
            a.len() == b.len(),
            forall|k: int| 0 <= k < i ==> a@[k] == b@[k],
    {
        if a[i] != b[i] {
            return false;
        }
    }
    assert(a@ =~= b@);
    true
}

/// The two raster layers a map can carry.
#[derive(Debug, Clone, Copy, PartialEq, Eq, Structural)]
pub enum RasterKind {
    Terrain,
    Forest,
}

/// A point of the map: the bit patterns of its two single-precision
/// coordinates (east, and north, which is the negated `z` of the file).
#[derive(Debug, Clone, Copy, PartialEq, Eq, Structural)]
pub struct WorldPoint {
    pub x: u32,
    pub y: u32,
}

/// A point of a segment with its elevation (a bit pattern, like the
/// coordinates).
#[derive(Debug, Clone, Copy, PartialEq, Eq, Structural)]
pub struct SegmentPoint {
    pub position: WorldPoint,
    pub elevation: u32,
}

/// The sign bit of a single-precision bit pattern.
pub const SIGN_BIT: u32 = 0x8000_0000;

/// Negation of a single-precision number: its sign bit flipped.
pub open spec fn spec_negate(bits: u32) -> u32 {
    bits ^ SIGN_BIT
}

/// A single-precision number equals zero (either signed zero) exactly when
/// every bit but the sign is clear.
pub open spec fn spec_is_zero(bits: u32) -> bool {
    bits & 0x7fff_ffff == 0
}

pub fn negate(bits: u32) -> (r: u32)
    ensures
        r == spec_negate(bits),
{
    bits ^ SIGN_BIT
}

pub fn is_zero(bits: u32) -> (r: bool)
    ensures
        r == spec_is_zero(bits),
{
    bits & 0x7fff_ffff == 0
}

/// The metadata of a map. The sea level is kept as the text that the file
/// gives; reading it as a number is left to the caller.
pub struct MapMetadata {
    pub city: String,
    pub generated: Option<String>,
    pub sea_level: String,
}

pub ghost struct MetadataView {
    pub city: Seq<char>,
    pub generated: Option<Seq<char>>,
    pub sea_level: Seq<char>,
}

impl View for MapMetadata {
    type V = MetadataView;

    open spec fn view(&self) -> MetadataView {
        MetadataView {
            city: self.city@,
            generated: opt_text(self.generated),
            sea_level: self.sea_level@,
        }
    }
}

pub struct NodeRecord {
    pub id: u64,
    pub name: Option<String>,
    pub position: WorldPoint,
    pub elevation: u32,
    pub elevation_hint: u32,
    pub service: String,
    pub subtype: String,
    pub kind: NodeKind,
    pub underground: bool,
    pub overground: bool,
    pub dist: Option<u64>,
}

pub ghost struct NodeView {
    pub id: u64,
    pub name: Option<Seq<char>>,
    pub position: WorldPoint,
    pub elevation: u32,
    pub elevation_hint: u32,
    pub service: Seq<char>,
    pub subtype: Seq<char>,
    pub kind: NodeKindView,
    pub underground: bool,
    pub overground: bool,
    pub dist: Option<u64>,
}

impl View for NodeRecord {
    type V = NodeView;

    open spec fn view(&self) -> NodeView {
        NodeView {
            id: self.id,
            name: opt_text(self.name),
            position: self.position,
            elevation: self.elevation,
            elevation_hint: self.elevation_hint,
            service: self.service@,
            subtype: self.subtype@,
            kind: self.kind@,
            underground: self.underground,
            overground: self.overground,
            dist: self.dist,
        }
    }
}

pub struct SegmentRecord {
    pub id: u64,
    pub name: Option<String>,
    pub start_node: u64,
    pub end_node: u64,
    pub raw_class: String,
    pub class: SegmentClass,
    pub width: u32,
    pub points: Vec<SegmentPoint>,
    pub route_segment_ids: Vec<u64>,
    pub underground: bool,
    pub overground: bool,
    pub elevated_hint: bool,
}

pub ghost struct SegmentView {
    pub id: u64,
    pub name: Option<Seq<char>>,
    pub start_node: u64,
    pub end_node: u64,
    pub raw_class: Seq<char>,
    pub class: SegmentClassView,
    pub width: u32,
    pub points: Seq<SegmentPoint>,
    pub route_segment_ids: Seq<u64>,
    pub underground: bool,
    pub overground: bool,
    pub elevated_hint: bool,
}

impl View for SegmentRecord {
    type V = SegmentView;

    open spec fn view(&self) -> SegmentView {
        SegmentView {
            id: self.id,
            name: opt_text(self.name),
            start_node: self.start_node,
            end_node: self.end_node,
            raw_class: self.raw_class@,
            class: self.class@,
            width: self.width,
            points: self.points@,
            route_segment_ids: self.route_segment_ids@,
            underground: self.underground,
            overground: self.overground,
            elevated_hint: self.elevated_hint,
        }
    }
}

/// A building or a park outline.
pub struct AreaRecord {
    pub id: u64,
    pub name: Option<String>,
    pub service: String,
    pub subtype: String,
    pub area_type: Option<String>,
    pub points: Vec<WorldPoint>,
    pub elevation: u32,
}

pub ghost struct AreaView {
    pub id: u64,
    pub name: Option<Seq<char>>,
    pub service: Seq<char>,
    pub subtype: Seq<char>,
    pub area_type: Option<Seq<char>>,
    pub points: Seq<WorldPoint>,
    pub elevation: u32,
}

impl View for AreaRecord {
    type V = AreaView;

    open spec fn view(&self) -> AreaView {
        AreaView {
            id: self.id,
            name: opt_text(self.name),
            service: self.service@,
            subtype: self.subtype@,
            area_type: opt_text(self.area_type),
            points: self.points@,
            elevation: self.elevation,
        }
    }
}

pub struct DistrictRecord {
    pub id: u64,
    pub name: String,
    pub anchor: WorldPoint,
}

pub ghost struct DistrictView {
    pub id: u64,
    pub name: Seq<char>,
    pub anchor: WorldPoint,
}

impl View for DistrictRecord {
    type V = DistrictView;

    open spec fn view(&self) -> DistrictView {
        DistrictView { id: self.id, name: self.name@, anchor: self.anchor }
    }
}

/// A public-transport line and its stops (node ids, in order).
#[derive(Debug, Clone)]
pub struct TransportRecord {
    pub id: String,
    pub name: String,
    pub kind: TransportKind,
    pub color: RgbaColor,
    pub stops: Vec<u64>,
}

pub ghost struct TransportView {
    pub id: Seq<char>,
    pub name: Seq<char>,
    pub kind: TransportKind,
    pub color: RgbaColor,
    pub stops: Seq<u64>,
}

impl View for TransportRecord {
    type V = TransportView;

    open spec fn view(&self) -> TransportView {
        TransportView {
            id: self.id@,
            name: self.name@,
            kind: self.kind,
            color: self.color,
            stops: self.stops@,
        }
    }
}

/// The segments that carry a line from one stop to the next.
#[derive(Debug, Clone)]
pub struct RouteLinkRecord {
    pub start_node: u64,
    pub end_node: u64,
    pub segment_ids: Vec<u64>,
}

pub ghost struct RouteLinkView {
    pub start_node: u64,
    pub end_node: u64,
    pub segment_ids: Seq<u64>,
}

impl View for RouteLinkRecord {
    type V = RouteLinkView;

    open spec fn view(&self) -> RouteLinkView {
        RouteLinkView {
            start_node: self.start_node,
            end_node: self.end_node,
            segment_ids: self.segment_ids@,
        }
    }
}

/// The packed text of a terrain raster, or the rows of a forest raster.
#[derive(Debug, Clone)]
pub struct RasterSource {
    pub kind: RasterKind,
    pub packed: String,
    pub rows: Vec<String>,
}

pub ghost struct RasterView {
    pub kind: RasterKind,
    pub packed: Seq<char>,
    pub rows: Seq<Seq<char>>,
}

pub open spec fn texts(v: Seq<String>) -> Seq<Seq<char>> {
    v.map_values(|s: String| s@)
}

impl View for RasterSource {
    type V = RasterView;

    open spec fn view(&self) -> RasterView {
        RasterView { kind: self.kind, packed: self.packed@, rows: texts(self.rows@) }
    }
}

pub open spec fn opt_raster(o: Option<RasterSource>) -> Option<RasterView> {
    match o {
        Some(r) => Some(r@),
        None => None,
    }
}

/// The kinds of records whose extent the map's bounds take in.
#[derive(Debug, Clone, Copy, PartialEq, Eq, Structural)]
pub enum RecordKind {
    Node,
    Segment,
    Building,
    Park,
    District,
}

/// A map read from a file. `bounds_order` lists, in order, the kind of each
/// record as it was added: the map's bounds take in the records' extents in
/// that order.
pub struct MapDocument {
    pub metadata: MapMetadata,
    pub nodes: Vec<NodeRecord>,
    pub segments: Vec<SegmentRecord>,
    pub buildings: Vec<AreaRecord>,
    pub parks: Vec<AreaRecord>,
    pub districts: Vec<DistrictRecord>,
    pub transports: Vec<TransportRecord>,
    pub route_links: Vec<RouteLinkRecord>,
    pub terrain: Option<RasterSource>,
    pub forests: Option<RasterSource>,
    pub bounds_order: Vec<RecordKind>,
}

pub ghost struct DocumentView {
    pub metadata: MetadataView,
    pub nodes: Seq<NodeView>,
    pub segments: Seq<SegmentView>,
    pub buildings: Seq<AreaView>,
    pub parks: Seq<AreaView>,
    pub districts: Seq<DistrictView>,
    pub transports: Seq<TransportView>,
    pub route_links: Seq<RouteLinkView>,
    pub terrain: Option<RasterView>,
    pub forests: Option<RasterView>,
    pub bounds_order: Seq<RecordKind>,
}

impl View for MapDocument {
    type V = DocumentView;

    open spec fn view(&self) -> DocumentView {
        DocumentView {
            metadata: self.metadata@,
            nodes: self.nodes@.map_values(|n: NodeRecord| n@),
            segments: self.segments@.map_values(|s: SegmentRecord| s@),
            buildings: self.buildings@.map_values(|a: AreaRecord| a@),
            parks: self.parks@.map_values(|a: AreaRecord| a@),
            districts: self.districts@.map_values(|d: DistrictRecord| d@),
            transports: self.transports@.map_values(|t: TransportRecord| t@),
            route_links: self.route_links@.map_values(|l: RouteLinkRecord| l@),
            terrain: opt_raster(self.terrain),
            forests: opt_raster(self.forests),
            bounds_order: self.bounds_order@,
        }
    }
}

/// The map before anything is read: no city, no records.
pub open spec fn empty_document() -> DocumentView {
    DocumentView {
        metadata: MetadataView {
            city: Seq::empty(),
            generated: None,
            sea_level: Seq::empty(),
        },
        nodes: Seq::empty(),
        segments: Seq::empty(),
        buildings: Seq::empty(),
        parks: Seq::empty(),
        districts: Seq::empty(),
        transports: Seq::empty(),
        route_links: Seq::empty(),
        terrain: None,
        forests: None,
        bounds_order: Seq::empty(),
    }
}

impl MapDocument {
    pub fn new() -> (d: Self)
        ensures
            d@ == empty_document(),
    {
        let d = MapDocument {
            metadata: MapMetadata {
                city: String::new(),
                generated: None,
                sea_level: String::new(),
            },
            nodes: Vec::new(),
            segments: Vec::new(),
            buildings: Vec::new(),
            parks: Vec::new(),
            districts: Vec::new(),
            transports: Vec::new(),
            route_links: Vec::new(),
            terrain: None,
            forests: None,
            bounds_order: Vec::new(),
        };
        assert(d@.nodes =~= Seq::<NodeView>::empty());
        assert(d@.segments =~= Seq::<SegmentView>::empty());
        assert(d@.buildings =~= Seq::<AreaView>::empty());
        assert(d@.parks =~= Seq::<AreaView>::empty());
        assert(d@.districts =~= Seq::<DistrictView>::empty());
        assert(d@.transports =~= Seq::<TransportView>::empty());
        assert(d@.route_links =~= Seq::<RouteLinkView>::empty());
        d
    }
}

impl Default for MapDocument {
    fn default() -> (d: Self)
        ensures
            d@ == empty_document(),
    {
        Self::new()
    }
}

proof fn lemma_trim_start_shape(s: Seq<char>)
    ensures
        trim_start(s).len() == 0 || !is_whitespace(trim_start(s)[0]),
        trim_start(s).len() <= s.len(),
        trim_start(s) == s.skip(s.len() - trim_start(s).len()),
    decreases s.len(),
{
    if s.len() > 0 && is_whitespace(s[0]) {
        lemma_trim_start_shape(s.drop_first());
        assert(s.drop_first().skip(s.drop_first().len() - trim_start(s.drop_first()).len())
            =~= s.skip(s.len() - trim_start(s).len()));
    } else {
        assert(s.skip(0) =~= s);
    }
}

proof fn lemma_trim_end_shape(s: Seq<char>)
    ensures
        trim_end(s).len() == 0 || !is_whitespace(trim_end(s).last()),
        trim_end(s).len() <= s.len(),
        trim_end(s) == s.take(trim_end(s).len() as int),
    decreases s.len(),
{
    if s.len() > 0 && is_whitespace(s.last()) {
        lemma_trim_end_shape(s.drop_last());
        assert(s.drop_last().take(trim_end(s.drop_last()).len() as int) =~= s.take(
            trim_end(s).len() as int,
        ));
    } else {
        assert(s.take(s.len() as int) =~= s);
    }
}

/// Text that neither starts nor ends with white space is its own trim.
pub proof fn lemma_trim_noop(s: Seq<char>)
    requires
        s.len() == 0 || (!is_whitespace(s[0]) && !is_whitespace(s.last())),
    ensures
        spec_trim(s) == s,
{
}

/// Trimming twice is trimming once.
pub proof fn lemma_trim_idempotent(s: Seq<char>)
    ensures
        spec_trim(spec_trim(s)) == spec_trim(s),
{
    let a = trim_start(s);
    let b = trim_end(a);
    lemma_trim_start_shape(s);
    lemma_trim_end_shape(a);
    if b.len() > 0 {
        assert(b[0] == a[0]);
    }
    lemma_trim_noop(b);
}

/// A node's kind does not depend on white space around its service texts.
pub proof fn law_node_kind_ignores_padding(service: Seq<char>, subtype: Seq<char>)
    ensures
        spec_from_service(spec_trim(service), spec_trim(subtype)) == spec_from_service(
            service,
            subtype,
        ),
{
    lemma_trim_idempotent(service);
    lemma_trim_idempotent(subtype);
}

/// A line kind does not depend on white space around its text.
pub proof fn law_transport_kind_ignores_padding(value: Seq<char>)
    ensures
        spec_transport_kind(spec_trim(value)) == spec_transport_kind(value),
{
    lemma_trim_idempotent(value);
}

/// Reading a line kind's label gives the kind back.
pub proof fn law_transport_label_round_trip(k: TransportKind)
    ensures
        spec_transport_kind(spec_transport_label(k)) == k,
{
    reveal_strlit("Metro");
    reveal_strlit("metro");
    reveal_strlit("Pedestrian");
    reveal_strlit("pedestrian");
    reveal_strlit("Other");
    let l = spec_transport_label(k);
    lemma_trim_noop(l);
    match k {
        TransportKind::Metro => {
            assert(spec_lower(l) =~= "metro"@);
        },
        TransportKind::Pedestrian => {
            assert(spec_lower(l) =~= "pedestrian"@);
        },
        TransportKind::Other => {
            assert(spec_lower(l)[0] == 'o');
            assert(spec_lower(l) != "metro"@);
            assert(spec_lower(l).len() != "pedestrian"@.len());
        },
    }
}

/// An unknown segment class shows the text it was read from.
pub proof fn law_unknown_class_keeps_text(icls: Seq<char>)
    ensures
        spec_from_icls(icls) is Unknown ==> spec_raw_label(spec_from_icls(icls)) == icls,
{
}

proof fn lemma_char_absent(s: Seq<char>, p: Seq<char>, j: int)
    requires
        0 <= j < p.len(),
        forall|i: int| 0 <= i < s.len() ==> s[i] != p[j],
    ensures
        !spec_contains(s, p),
{
    assert forall|i: int| !(#[trigger] occurs_at(s, p, i)) by {
        if occurs_at(s, p, i) {
            assert(s.subrange(i, i + p.len())[j] == s[i + j]);
        }
    }
}

proof fn lemma_contains_itself(s: Seq<char>)
    ensures
        spec_contains(s, s),
{
    assert(s.subrange(0, s.len() as int) =~= s);
    assert(occurs_at(s, s, 0));
}

#[verifier::rlimit(60)]
proof fn lemma_label_highway()
    ensures
        spec_lower(spec_trim("Highway"@)) == "highway"@,
        spec_contains("highway"@, "highway"@),
{
    let l = "Highway"@;
    let t = "highway"@;
    assert(l.len() > 0 && !is_whitespace(l[0]) && !is_whitespace(l.last())) by {
        reveal_strlit("Highway");
    }
    lemma_trim_noop(l);
    assert(spec_lower(l) =~= t) by {
        reveal_strlit("Highway");
        reveal_strlit("highway");
    }
    lemma_contains_itself(t);
}

#[verifier::rlimit(60)]
proof fn lemma_label_large_road()
    ensures
        spec_lower(spec_trim("Large Road"@)) == "large road"@,
        spec_contains("large road"@, "large road"@),
        !spec_contains("large road"@, "highway"@),
{
    let l = "Large Road"@;
    let t = "large road"@;
    assert(l.len() > 0 && !is_whitespace(l[0]) && !is_whitespace(l.last())) by {
        reveal_strlit("Large Road");
    }
    lemma_trim_noop(l);
    assert(spec_lower(l) =~= t) by {
        reveal_strlit("Large Road");
        reveal_strlit("large road");
    }
    lemma_contains_itself(t);
    assert(!spec_contains(t, "highway"@)) by {
        reveal_strlit("large road");
        reveal_strlit("highway");
        lemma_char_absent(t, "highway"@, 0);
    }
}

#[verifier::rlimit(60)]
proof fn lemma_label_medium_road()
    ensures
        spec_lower(spec_trim("Medium Road"@)) == "medium road"@,
        spec_contains("medium road"@, "medium road"@),
        !spec_contains("medium road"@, "highway"@),
        !spec_contains("medium road"@, "large road"@),
{
    let l = "Medium Road"@;
    let t = "medium road"@;
    assert(l.len() > 0 && !is_whitespace(l[0]) && !is_whitespace(l.last())) by {
        reveal_strlit("Medium Road");
    }
    lemma_trim_noop(l);
    assert(spec_lower(l) =~= t) by {
        reveal_strlit("Medium Road");
        reveal_strlit("medium road");
    }
    lemma_contains_itself(t);
    assert(!spec_contains(t, "highway"@)) by {
        reveal_strlit("medium road");
        reveal_strlit("highway");
        lemma_char_absent(t, "highway"@, 0);
    }
    assert(!spec_contains(t, "large road"@)) by {
        reveal_strlit("medium road");
        reveal_strlit("large road");
        lemma_char_absent(t, "large road"@, 0);
    }
}

#[verifier::rlimit(60)]
proof fn lemma_label_small_road()
    ensures
        spec_lower(spec_trim("Small Road"@)) == "small road"@,
        spec_contains("small road"@, "small road"@),
        !spec_contains("small road"@, "highway"@),
        !spec_contains("small road"@, "large road"@),
        !spec_contains("small road"@, "medium road"@),
{
    let l = "Small Road"@;
    let t = "small road"@;
    assert(l.len() > 0 && !is_whitespace(l[0]) && !is_whitespace(l.last())) by {
        reveal_strlit("Small Road");
    }
    lemma_trim_noop(l);
    assert(spec_lower(l) =~= t) by {
        reveal_strlit("Small Road");
        reveal_strlit("small road");
    }
    lemma_contains_itself(t);
    assert(!spec_contains(t, "highway"@)) by {
        reveal_strlit("small road");
        reveal_strlit("highway");
        lemma_char_absent(t, "highway"@, 0);
    }
    assert(!spec_contains(t, "large road"@)) by {
        reveal_strlit("small road");
        reveal_strlit("large road");
        lemma_char_absent(t, "large road"@, 3);
    }
    assert(!spec_contains(t, "medium road"@)) by {
        reveal_strlit("small road");
        reveal_strlit("medium road");
    }
}

#[verifier::rlimit(60)]
proof fn lemma_label_pedestrian_street()
    ensures
        spec_lower(spec_trim("Pedestrian Street"@)) == "pedestrian street"@,
        spec_contains("pedestrian street"@, "pedestrian street"@),
        !spec_contains("pedestrian street"@, "highway"@),
        !spec_contains("pedestrian street"@, "large road"@),
        !spec_contains("pedestrian street"@, "medium road"@),
        !spec_contains("pedestrian street"@, "small road"@),
{
    let l = "Pedestrian Street"@;
    let t = "pedestrian street"@;
    assert(l.len() > 0 && !is_whitespace(l[0]) && !is_whitespace(l.last())) by {
        reveal_strlit("Pedestrian Street");
    }
    lemma_trim_noop(l);
    assert(spec_lower(l) =~= t) by {
        reveal_strlit("Pedestrian Street");
        reveal_strlit("pedestrian street");
    }
    lemma_contains_itself(t);
    assert(!spec_contains(t, "highway"@)) by {
        reveal_strlit("pedestrian street");
        reveal_strlit("highway");
        lemma_char_absent(t, "highway"@, 0);
    }
    assert(!spec_contains(t, "large road"@)) by {
        reveal_strlit("pedestrian street");
        reveal_strlit("large road");
        lemma_char_absent(t, "large road"@, 0);
    }
    assert(!spec_contains(t, "medium road"@)) by {
        reveal_strlit("pedestrian street");
        reveal_strlit("medium road");
        lemma_char_absent(t, "medium road"@, 0);
    }
    assert(!spec_contains(t, "small road"@)) by {
        reveal_strlit("pedestrian street");
        reveal_strlit("small road");
        lemma_char_absent(t, "small road"@, 1);
    }
}

#[verifier::rlimit(60)]
proof fn lemma_label_pedestrian_path()
    ensures
        spec_lower(spec_trim("Pedestrian Path"@)) == "pedestrian path"@,
        spec_contains("pedestrian path"@, "pedestrian path"@),
        !spec_contains("pedestrian path"@, "highway"@),
        !spec_contains("pedestrian path"@, "large road"@),
        !spec_contains("pedestrian path"@, "medium road"@),
        !spec_contains("pedestrian path"@, "small road"@),
        !spec_contains("pedestrian path"@, "pedestrian street"@),
{
    let l = "Pedestrian Path"@;
    let t = "pedestrian path"@;
    assert(l.len() > 0 && !is_whitespace(l[0]) && !is_whitespace(l.last())) by {
        reveal_strlit("Pedestrian Path");
    }
    lemma_trim_noop(l);
    assert(spec_lower(l) =~= t) by {
        reveal_strlit("Pedestrian Path");
        reveal_strlit("pedestrian path");
    }
    lemma_contains_itself(t);
    assert(!spec_contains(t, "highway"@)) by {
        reveal_strlit("pedestrian path");
        reveal_strlit("highway");
        lemma_char_absent(t, "highway"@, 2);
    }
    assert(!spec_contains(t, "large road"@)) by {
        reveal_strlit("pedestrian path");
        reveal_strlit("large road");
        lemma_char_absent(t, "large road"@, 0);
    }
    assert(!spec_contains(t, "medium road"@)) by {
        reveal_strlit("pedestrian path");
        reveal_strlit("medium road");
        lemma_char_absent(t, "medium road"@, 0);
    }
    assert(!spec_contains(t, "small road"@)) by {
        reveal_strlit("pedestrian path");
        reveal_strlit("small road");
        lemma_char_absent(t, "small road"@, 1);
    }
    assert(!spec_contains(t, "pedestrian street"@)) by {
        reveal_strlit("pedestrian path");
        reveal_strlit("pedestrian street");
    }
}

#[verifier::rlimit(60)]
proof fn lemma_label_pedestrian_way()
    ensures
        spec_lower(spec_trim("Pedestrian Way"@)) == "pedestrian way"@,
        spec_contains("pedestrian way"@, "pedestrian way"@),
        !spec_contains("pedestrian way"@, "highway"@),
        !spec_contains("pedestrian way"@, "large road"@),
        !spec_contains("pedestrian way"@, "medium road"@),
        !spec_contains("pedestrian way"@, "small road"@),
        !spec_contains("pedestrian way"@, "pedestrian street"@),
        !spec_contains("pedestrian way"@, "pedestrian path"@),
{
    let l = "Pedestrian Way"@;
    let t = "pedestrian way"@;
    assert(l.len() > 0 && !is_whitespace(l[0]) && !is_whitespace(l.last())) by {
        reveal_strlit("Pedestrian Way");
    }
    lemma_trim_noop(l);
    assert(spec_lower(l) =~= t) by {
        reveal_strlit("Pedestrian Way");
        reveal_strlit("pedestrian way");
    }
    lemma_contains_itself(t);
    assert(!spec_contains(t, "highway"@)) by {
        reveal_strlit("pedestrian way");
        reveal_strlit("highway");
        lemma_char_absent(t, "highway"@, 0);
    }
    assert(!spec_contains(t, "large road"@)) by {
        reveal_strlit("pedestrian way");
        reveal_strlit("large road");
        lemma_char_absent(t, "large road"@, 0);
    }
    assert(!spec_contains(t, "medium road"@)) by {
        reveal_strlit("pedestrian way");
        reveal_strlit("medium road");
        lemma_char_absent(t, "medium road"@, 0);
    }
    assert(!spec_contains(t, "small road"@)) by {
        reveal_strlit("pedestrian way");
        reveal_strlit("small road");
        lemma_char_absent(t, "small road"@, 1);
    }
    assert(!spec_contains(t, "pedestrian street"@)) by {
        reveal_strlit("pedestrian way");
        reveal_strlit("pedestrian street");
    }
    assert(!spec_contains(t, "pedestrian path"@)) by {
        reveal_strlit("pedestrian way");
        reveal_strlit("pedestrian path");
    }
}

#[verifier::rlimit(60)]
proof fn lemma_label_train_track()
    ensures
        spec_lower(spec_trim("Train Track"@)) == "train track"@,
        spec_contains("train track"@, "train track"@),
        !spec_contains("train track"@, "highway"@),
        !spec_contains("train track"@, "large road"@),
        !spec_contains("train track"@, "medium road"@),
        !spec_contains("train track"@, "small road"@),
        !spec_contains("train track"@, "pedestrian street"@),
        !spec_contains("train track"@, "pedestrian path"@),
        !spec_contains("train track"@, "pedestrian way"@),
{
    let l = "Train Track"@;
    let t = "train track"@;
    assert(l.len() > 0 && !is_whitespace(l[0]) && !is_whitespace(l.last())) by {
        reveal_strlit("Train Track");
    }
    lemma_trim_noop(l);
    assert(spec_lower(l) =~= t) by {
        reveal_strlit("Train Track");
        reveal_strlit("train track");
    }
    lemma_contains_itself(t);
    assert(!spec_contains(t, "highway"@)) by {
        reveal_strlit("train track");
        reveal_strlit("highway");
        lemma_char_absent(t, "highway"@, 0);
    }
    assert(!spec_contains(t, "large road"@)) by {
        reveal_strlit("train track");
        reveal_strlit("large road");
        lemma_char_absent(t, "large road"@, 0);
    }
    assert(!spec_contains(t, "medium road"@)) by {
        reveal_strlit("train track");
        reveal_strlit("medium road");
        lemma_char_absent(t, "medium road"@, 0);
    }
    assert(!spec_contains(t, "small road"@)) by {
        reveal_strlit("train track");
        reveal_strlit("small road");
        lemma_char_absent(t, "small road"@, 0);
    }
    assert(!spec_contains(t, "pedestrian street"@)) by {
        reveal_strlit("train track");
        reveal_strlit("pedestrian street");
    }
    assert(!spec_contains(t, "pedestrian path"@)) by {
        reveal_strlit("train track");
        reveal_strlit("pedestrian path");
    }
    assert(!spec_contains(t, "pedestrian way"@)) by {
        reveal_strlit("train track");
        reveal_strlit("pedestrian way");
    }
}

#[verifier::rlimit(60)]
proof fn lemma_label_metro_track()
    ensures
        spec_lower(spec_trim("Metro Track"@)) == "metro track"@,
        spec_contains("metro track"@, "metro track"@),
        !spec_contains("metro track"@, "highway"@),
        !spec_contains("metro track"@, "large road"@),
        !spec_contains("metro track"@, "medium road"@),
        !spec_contains("metro track"@, "small road"@),
        !spec_contains("metro track"@, "pedestrian street"@),
        !spec_contains("metro track"@, "pedestrian path"@),
        !spec_contains("metro track"@, "pedestrian way"@),
        !spec_contains("metro track"@, "train track"@),
{
    let l = "Metro Track"@;
    let t = "metro track"@;
    assert(l.len() > 0 && !is_whitespace(l[0]) && !is_whitespace(l.last())) by {
        reveal_strlit("Metro Track");
    }
    lemma_trim_noop(l);
    assert(spec_lower(l) =~= t) by {
        reveal_strlit("Metro Track");
        reveal_strlit("metro track");
    }
    lemma_contains_itself(t);
    assert(!spec_contains(t, "highway"@)) by {
        reveal_strlit("metro track");
        reveal_strlit("highway");
        lemma_char_absent(t, "highway"@, 0);
    }
    assert(!spec_contains(t, "large road"@)) by {
        reveal_strlit("metro track");
        reveal_strlit("large road");
        lemma_char_absent(t, "large road"@, 0);
    }
    assert(!spec_contains(t, "medium road"@)) by {
        reveal_strlit("metro track");
        reveal_strlit("medium road");
        lemma_char_absent(t, "medium road"@, 2);
    }
    assert(!spec_contains(t, "small road"@)) by {
        reveal_strlit("metro track");
        reveal_strlit("small road");
        lemma_char_absent(t, "small road"@, 0);
    }
    assert(!spec_contains(t, "pedestrian street"@)) by {
        reveal_strlit("metro track");
        reveal_strlit("pedestrian street");
    }
    assert(!spec_contains(t, "pedestrian path"@)) by {
        reveal_strlit("metro track");
        reveal_strlit("pedestrian path");
    }
    assert(!spec_contains(t, "pedestrian way"@)) by {
        reveal_strlit("metro track");
        reveal_strlit("pedestrian way");
    }
    assert(!spec_contains(t, "train track"@)) by {
        reveal_strlit("metro track");
        reveal_strlit("train track");
        lemma_char_absent(t, "train track"@, 3);
    }
}

#[verifier::rlimit(60)]
proof fn lemma_label_electricity_wire()
    ensures
        spec_lower(spec_trim("Electricity Wire"@)) == "electricity wire"@,
        spec_contains("electricity wire"@, "electricity wire"@),
        !spec_contains("electricity wire"@, "highway"@),
        !spec_contains("electricity wire"@, "large road"@),
        !spec_contains("electricity wire"@, "medium road"@),
        !spec_contains("electricity wire"@, "small road"@),
        !spec_contains("electricity wire"@, "pedestrian street"@),
        !spec_contains("electricity wire"@, "pedestrian path"@),
        !spec_contains("electricity wire"@, "pedestrian way"@),
        !spec_contains("electricity wire"@, "train track"@),
        !spec_contains("electricity wire"@, "metro track"@),
{
    let l = "Electricity Wire"@;
    let t = "electricity wire"@;
    assert(l.len() > 0 && !is_whitespace(l[0]) && !is_whitespace(l.last())) by {
        reveal_strlit("Electricity Wire");
    }
    lemma_trim_noop(l);
    assert(spec_lower(l) =~= t) by {
        reveal_strlit("Electricity Wire");
        reveal_strlit("electricity wire");
    }
    lemma_contains_itself(t);
    assert(!spec_contains(t, "highway"@)) by {
        reveal_strlit("electricity wire");
        reveal_strlit("highway");
        lemma_char_absent(t, "highway"@, 0);
    }
    assert(!spec_contains(t, "large road"@)) by {
        reveal_strlit("electricity wire");
        reveal_strlit("large road");
        lemma_char_absent(t, "large road"@, 1);
    }
    assert(!spec_contains(t, "medium road"@)) by {
        reveal_strlit("electricity wire");
        reveal_strlit("medium road");
        lemma_char_absent(t, "medium road"@, 0);
    }
    assert(!spec_contains(t, "small road"@)) by {
        reveal_strlit("electricity wire");
        reveal_strlit("small road");
        lemma_char_absent(t, "small road"@, 0);
    }
    assert(!spec_contains(t, "pedestrian street"@)) by {
        reveal_strlit("electricity wire");
        reveal_strlit("pedestrian street");
    }
    assert(!spec_contains(t, "pedestrian path"@)) by {
        reveal_strlit("electricity wire");
        reveal_strlit("pedestrian path");
        lemma_char_absent(t, "pedestrian path"@, 0);
    }
    assert(!spec_contains(t, "pedestrian way"@)) by {
        reveal_strlit("electricity wire");
        reveal_strlit("pedestrian way");
        lemma_char_absent(t, "pedestrian way"@, 0);
    }
    assert(!spec_contains(t, "train track"@)) by {
        reveal_strlit("electricity wire");
        reveal_strlit("train track");
        lemma_char_absent(t, "train track"@, 2);
    }
    assert(!spec_contains(t, "metro track"@)) by {
        reveal_strlit("electricity wire");
        reveal_strlit("metro track");
        lemma_char_absent(t, "metro track"@, 0);
    }
}

#[verifier::rlimit(60)]
proof fn lemma_label_airplane_runway()
    ensures
        spec_lower(spec_trim("Airplane Runway"@)) == "airplane runway"@,
        spec_contains("airplane runway"@, "airplane runway"@),
        !spec_contains("airplane runway"@, "highway"@),
        !spec_contains("airplane runway"@, "large road"@),
        !spec_contains("airplane runway"@, "medium road"@),
        !spec_contains("airplane runway"@, "small road"@),
        !spec_contains("airplane runway"@, "pedestrian street"@),
        !spec_contains("airplane runway"@, "pedestrian path"@),
        !spec_contains("airplane runway"@, "pedestrian way"@),
        !spec_contains("airplane runway"@, "train track"@),
        !spec_contains("airplane runway"@, "metro track"@),
        !spec_contains("airplane runway"@, "electricity wire"@),
        !spec_contains("airplane runway"@, "power line"@),
{
    let l = "Airplane Runway"@;
    let t = "airplane runway"@;
    assert(l.len() > 0 && !is_whitespace(l[0]) && !is_whitespace(l.last())) by {
        reveal_strlit("Airplane Runway");
    }
    lemma_trim_noop(l);
    assert(spec_lower(l) =~= t) by {
        reveal_strlit("Airplane Runway");
        reveal_strlit("airplane runway");
    }
    lemma_contains_itself(t);
    assert(!spec_contains(t, "highway"@)) by {
        reveal_strlit("airplane runway");
        reveal_strlit("highway");
        lemma_char_absent(t, "highway"@, 0);
    }
    assert(!spec_contains(t, "large road"@)) by {
        reveal_strlit("airplane runway");
        reveal_strlit("large road");
        lemma_char_absent(t, "large road"@, 3);
    }
    assert(!spec_contains(t, "medium road"@)) by {
        reveal_strlit("airplane runway");
        reveal_strlit("medium road");
        lemma_char_absent(t, "medium road"@, 0);
    }
    assert(!spec_contains(t, "small road"@)) by {
        reveal_strlit("airplane runway");
        reveal_strlit("small road");
        lemma_char_absent(t, "small road"@, 0);
    }
    assert(!spec_contains(t, "pedestrian street"@)) by {
        reveal_strlit("airplane runway");
        reveal_strlit("pedestrian street");
    }
    assert(!spec_contains(t, "pedestrian path"@)) by {
        reveal_strlit("airplane runway");
        reveal_strlit("pedestrian path");
        lemma_char_absent(t, "pedestrian path"@, 2);
    }
    assert(!spec_contains(t, "pedestrian way"@)) by {
        reveal_strlit("airplane runway");
        reveal_strlit("pedestrian way");
        lemma_char_absent(t, "pedestrian way"@, 2);
    }
    assert(!spec_contains(t, "train track"@)) by {
        reveal_strlit("airplane runway");
        reveal_strlit("train track");
        lemma_char_absent(t, "train track"@, 0);
    }
    assert(!spec_contains(t, "metro track"@)) by {
        reveal_strlit("airplane runway");
        reveal_strlit("metro track");
        lemma_char_absent(t, "metro track"@, 0);
    }
    assert(!spec_contains(t, "electricity wire"@)) by {
        reveal_strlit("airplane runway");
        reveal_strlit("electricity wire");
    }
    assert(!spec_contains(t, "power line"@)) by {
        reveal_strlit("airplane runway");
        reveal_strlit("power line");
        lemma_char_absent(t, "power line"@, 1);
    }
}

#[verifier::rlimit(60)]
proof fn lemma_label_airplane_line()
    ensures
        spec_lower(spec_trim("Airplane Line"@)) == "airplane line"@,
        spec_contains("airplane line"@, "airplane line"@),
        !spec_contains("airplane line"@, "highway"@),
        !spec_contains("airplane line"@, "large road"@),
        !spec_contains("airplane line"@, "medium road"@),
        !spec_contains("airplane line"@, "small road"@),
        !spec_contains("airplane line"@, "pedestrian street"@),
        !spec_contains("airplane line"@, "pedestrian path"@),
        !spec_contains("airplane line"@, "pedestrian way"@),
        !spec_contains("airplane line"@, "train track"@),
        !spec_contains("airplane line"@, "metro track"@),
        !spec_contains("airplane line"@, "electricity wire"@),
        !spec_contains("airplane line"@, "power line"@),
        !spec_contains("airplane line"@, "airplane runway"@),
{
    let l = "Airplane Line"@;
    let t = "airplane line"@;
    assert(l.len() > 0 && !is_whitespace(l[0]) && !is_whitespace(l.last())) by {
        reveal_strlit("Airplane Line");
    }
    lemma_trim_noop(l);
    assert(spec_lower(l) =~= t) by {
        reveal_strlit("Airplane Line");
        reveal_strlit("airplane line");
    }
    lemma_contains_itself(t);
    assert(!spec_contains(t, "highway"@)) by {
        reveal_strlit("airplane line");
        reveal_strlit("highway");
        lemma_char_absent(t, "highway"@, 0);
    }
    assert(!spec_contains(t, "large road"@)) by {
        reveal_strlit("airplane line");
        reveal_strlit("large road");
        lemma_char_absent(t, "large road"@, 3);
    }
    assert(!spec_contains(t, "medium road"@)) by {
        reveal_strlit("airplane line");
        reveal_strlit("medium road");
        lemma_char_absent(t, "medium road"@, 0);
    }
    assert(!spec_contains(t, "small road"@)) by {
        reveal_strlit("airplane line");
        reveal_strlit("small road");
        lemma_char_absent(t, "small road"@, 0);
    }
    assert(!spec_contains(t, "pedestrian street"@)) by {
        reveal_strlit("airplane line");
        reveal_strlit("pedestrian street");
    }
    assert(!spec_contains(t, "pedestrian path"@)) by {
        reveal_strlit("airplane line");
        reveal_strlit("pedestrian path");
    }
    assert(!spec_contains(t, "pedestrian way"@)) by {
        reveal_strlit("airplane line");
        reveal_strlit("pedestrian way");
    }
    assert(!spec_contains(t, "train track"@)) by {
        reveal_strlit("airplane line");
        reveal_strlit("train track");
        lemma_char_absent(t, "train track"@, 0);
    }
    assert(!spec_contains(t, "metro track"@)) by {
        reveal_strlit("airplane line");
        reveal_strlit("metro track");
        lemma_char_absent(t, "metro track"@, 0);
    }
    assert(!spec_contains(t, "electricity wire"@)) by {
        reveal_strlit("airplane line");
        reveal_strlit("electricity wire");
    }
    assert(!spec_contains(t, "power line"@)) by {
        reveal_strlit("airplane line");
        reveal_strlit("power line");
        lemma_char_absent(t, "power line"@, 1);
    }
    assert(!spec_contains(t, "airplane runway"@)) by {
        reveal_strlit("airplane line");
        reveal_strlit("airplane runway");
    }
}

#[verifier::rlimit(60)]
proof fn lemma_label_helicopter_path()
    ensures
        spec_lower(spec_trim("Helicopter Path"@)) == "helicopter path"@,
        spec_contains("helicopter path"@, "helicopter path"@),
        !spec_contains("helicopter path"@, "highway"@),
        !spec_contains("helicopter path"@, "large road"@),
        !spec_contains("helicopter path"@, "medium road"@),
        !spec_contains("helicopter path"@, "small road"@),
        !spec_contains("helicopter path"@, "pedestrian street"@),
        !spec_contains("helicopter path"@, "pedestrian path"@),
        !spec_contains("helicopter path"@, "pedestrian way"@),
        !spec_contains("helicopter path"@, "train track"@),
        !spec_contains("helicopter path"@, "metro track"@),
        !spec_contains("helicopter path"@, "electricity wire"@),
        !spec_contains("helicopter path"@, "power line"@),
        !spec_contains("helicopter path"@, "airplane runway"@),
        !spec_contains("helicopter path"@, "airplane line"@),
{
    let l = "Helicopter Path"@;
    let t = "helicopter path"@;
    assert(l.len() > 0 && !is_whitespace(l[0]) && !is_whitespace(l.last())) by {
        reveal_strlit("Helicopter Path");
    }
    lemma_trim_noop(l);
    assert(spec_lower(l) =~= t) by {
        reveal_strlit("Helicopter Path");
        reveal_strlit("helicopter path");
    }
    lemma_contains_itself(t);
    assert(!spec_contains(t, "highway"@)) by {
        reveal_strlit("helicopter path");
        reveal_strlit("highway");
        lemma_char_absent(t, "highway"@, 2);
    }
    assert(!spec_contains(t, "large road"@)) by {
        reveal_strlit("helicopter path");
        reveal_strlit("large road");
        lemma_char_absent(t, "large road"@, 3);
    }
    assert(!spec_contains(t, "medium road"@)) by {
        reveal_strlit("helicopter path");
        reveal_strlit("medium road");
        lemma_char_absent(t, "medium road"@, 0);
    }
    assert(!spec_contains(t, "small road"@)) by {
        reveal_strlit("helicopter path");
        reveal_strlit("small road");
        lemma_char_absent(t, "small road"@, 0);
    }
    assert(!spec_contains(t, "pedestrian street"@)) by {
        reveal_strlit("helicopter path");
        reveal_strlit("pedestrian street");
    }
    assert(!spec_contains(t, "pedestrian path"@)) by {
        reveal_strlit("helicopter path");
        reveal_strlit("pedestrian path");
        lemma_char_absent(t, "pedestrian path"@, 2);
    }
    assert(!spec_contains(t, "pedestrian way"@)) by {
        reveal_strlit("helicopter path");
        reveal_strlit("pedestrian way");
        lemma_char_absent(t, "pedestrian way"@, 2);
    }
    assert(!spec_contains(t, "train track"@)) by {
        reveal_strlit("helicopter path");
        reveal_strlit("train track");
        lemma_char_absent(t, "train track"@, 4);
    }
    assert(!spec_contains(t, "metro track"@)) by {
        reveal_strlit("helicopter path");
        reveal_strlit("metro track");
        lemma_char_absent(t, "metro track"@, 0);
    }
    assert(!spec_contains(t, "electricity wire"@)) by {
        reveal_strlit("helicopter path");
        reveal_strlit("electricity wire");
    }
    assert(!spec_contains(t, "power line"@)) by {
        reveal_strlit("helicopter path");
        reveal_strlit("power line");
        lemma_char_absent(t, "power line"@, 2);
    }
    assert(!spec_contains(t, "airplane runway"@)) by {
        reveal_strlit("helicopter path");
        reveal_strlit("airplane runway");
        lemma_char_absent(t, "airplane runway"@, 6);
    }
    assert(!spec_contains(t, "airplane line"@)) by {
        reveal_strlit("helicopter path");
        reveal_strlit("airplane line");
        lemma_char_absent(t, "airplane line"@, 6);
    }
}

#[verifier::rlimit(60)]
proof fn lemma_label_blimp_path()
    ensures
        spec_lower(spec_trim("Blimp Path"@)) == "blimp path"@,
        spec_contains("blimp path"@, "blimp path"@),
        !spec_contains("blimp path"@, "highway"@),
        !spec_contains("blimp path"@, "large road"@),
        !spec_contains("blimp path"@, "medium road"@),
        !spec_contains("blimp path"@, "small road"@),
        !spec_contains("blimp path"@, "pedestrian street"@),
        !spec_contains("blimp path"@, "pedestrian path"@),
        !spec_contains("blimp path"@, "pedestrian way"@),
        !spec_contains("blimp path"@, "train track"@),
        !spec_contains("blimp path"@, "metro track"@),
        !spec_contains("blimp path"@, "electricity wire"@),
        !spec_contains("blimp path"@, "power line"@),
        !spec_contains("blimp path"@, "airplane runway"@),
        !spec_contains("blimp path"@, "airplane line"@),
        !spec_contains("blimp path"@, "helicopter path"@),
{
    let l = "Blimp Path"@;
    let t = "blimp path"@;
    assert(l.len() > 0 && !is_whitespace(l[0]) && !is_whitespace(l.last())) by {
        reveal_strlit("Blimp Path");
    }
    lemma_trim_noop(l);
    assert(spec_lower(l) =~= t) by {
        reveal_strlit("Blimp Path");
        reveal_strlit("blimp path");
    }
    lemma_contains_itself(t);
    assert(!spec_contains(t, "highway"@)) by {
        reveal_strlit("blimp path");
        reveal_strlit("highway");
        lemma_char_absent(t, "highway"@, 2);
    }
    assert(!spec_contains(t, "large road"@)) by {
        reveal_strlit("blimp path");
        reveal_strlit("large road");
        lemma_char_absent(t, "large road"@, 2);
    }
    assert(!spec_contains(t, "medium road"@)) by {
        reveal_strlit("blimp path");
        reveal_strlit("medium road");
    }
    assert(!spec_contains(t, "small road"@)) by {
        reveal_strlit("blimp path");
        reveal_strlit("small road");
        lemma_char_absent(t, "small road"@, 0);
    }
    assert(!spec_contains(t, "pedestrian street"@)) by {
        reveal_strlit("blimp path");
        reveal_strlit("pedestrian street");
    }
    assert(!spec_contains(t, "pedestrian path"@)) by {
        reveal_strlit("blimp path");
        reveal_strlit("pedestrian path");
    }
    assert(!spec_contains(t, "pedestrian way"@)) by {
        reveal_strlit("blimp path");
        reveal_strlit("pedestrian way");
    }
    assert(!spec_contains(t, "train track"@)) by {
        reveal_strlit("blimp path");
        reveal_strlit("train track");
    }
    assert(!spec_contains(t, "metro track"@)) by {
        reveal_strlit("blimp path");
        reveal_strlit("metro track");
    }
    assert(!spec_contains(t, "electricity wire"@)) by {
        reveal_strlit("blimp path");
        reveal_strlit("electricity wire");
    }
    assert(!spec_contains(t, "power line"@)) by {
        reveal_strlit("blimp path");
        reveal_strlit("power line");
        lemma_char_absent(t, "power line"@, 1);
    }
    assert(!spec_contains(t, "airplane runway"@)) by {
        reveal_strlit("blimp path");
        reveal_strlit("airplane runway");
    }
    assert(!spec_contains(t, "airplane line"@)) by {
        reveal_strlit("blimp path");
        reveal_strlit("airplane line");
    }
    assert(!spec_contains(t, "helicopter path"@)) by {
        reveal_strlit("blimp path");
        reveal_strlit("helicopter path");
    }
}

#[verifier::rlimit(60)]
proof fn lemma_label_flood_wall()
    ensures
        spec_lower(spec_trim("Flood Wall"@)) == "flood wall"@,
        spec_contains("flood wall"@, "flood wall"@),
        !spec_contains("flood wall"@, "highway"@),
        !spec_contains("flood wall"@, "large road"@),
        !spec_contains("flood wall"@, "medium road"@),
        !spec_contains("flood wall"@, "small road"@),
        !spec_contains("flood wall"@, "pedestrian street"@),
        !spec_contains("flood wall"@, "pedestrian path"@),
        !spec_contains("flood wall"@, "pedestrian way"@),
        !spec_contains("flood wall"@, "train track"@),
        !spec_contains("flood wall"@, "metro track"@),
        !spec_contains("flood wall"@, "electricity wire"@),
        !spec_contains("flood wall"@, "power line"@),
        !spec_contains("flood wall"@, "airplane runway"@),
        !spec_contains("flood wall"@, "airplane line"@),
        !spec_contains("flood wall"@, "helicopter path"@),
        !spec_contains("flood wall"@, "blimp path"@),
{
    let l = "Flood Wall"@;
    let t = "flood wall"@;
    assert(l.len() > 0 && !is_whitespace(l[0]) && !is_whitespace(l.last())) by {
        reveal_strlit("Flood Wall");
    }
    lemma_trim_noop(l);
    assert(spec_lower(l) =~= t) by {
        reveal_strlit("Flood Wall");
        reveal_strlit("flood wall");
    }
    lemma_contains_itself(t);
    assert(!spec_contains(t, "highway"@)) by {
        reveal_strlit("flood wall");
        reveal_strlit("highway");
        lemma_char_absent(t, "highway"@, 0);
    }
    assert(!spec_contains(t, "large road"@)) by {
        reveal_strlit("flood wall");
        reveal_strlit("large road");
        lemma_char_absent(t, "large road"@, 2);
    }
    assert(!spec_contains(t, "medium road"@)) by {
        reveal_strlit("flood wall");
        reveal_strlit("medium road");
    }
    assert(!spec_contains(t, "small road"@)) by {
        reveal_strlit("flood wall");
        reveal_strlit("small road");
        lemma_char_absent(t, "small road"@, 0);
    }
    assert(!spec_contains(t, "pedestrian street"@)) by {
        reveal_strlit("flood wall");
        reveal_strlit("pedestrian street");
    }
    assert(!spec_contains(t, "pedestrian path"@)) by {
        reveal_strlit("flood wall");
        reveal_strlit("pedestrian path");
    }
    assert(!spec_contains(t, "pedestrian way"@)) by {
        reveal_strlit("flood wall");
        reveal_strlit("pedestrian way");
    }
    assert(!spec_contains(t, "train track"@)) by {
        reveal_strlit("flood wall");
        reveal_strlit("train track");
    }
    assert(!spec_contains(t, "metro track"@)) by {
        reveal_strlit("flood wall");
        reveal_strlit("metro track");
    }
    assert(!spec_contains(t, "electricity wire"@)) by {
        reveal_strlit("flood wall");
        reveal_strlit("electricity wire");
    }
    assert(!spec_contains(t, "power line"@)) by {
        reveal_strlit("flood wall");
        reveal_strlit("power line");
        lemma_char_absent(t, "power line"@, 0);
    }
    assert(!spec_contains(t, "airplane runway"@)) by {
        reveal_strlit("flood wall");
        reveal_strlit("airplane runway");
    }
    assert(!spec_contains(t, "airplane line"@)) by {
        reveal_strlit("flood wall");
        reveal_strlit("airplane line");
    }
    assert(!spec_contains(t, "helicopter path"@)) by {
        reveal_strlit("flood wall");
        reveal_strlit("helicopter path");
    }
    assert(!spec_contains(t, "blimp path"@)) by {
        reveal_strlit("flood wall");
        reveal_strlit("blimp path");
        lemma_char_absent(t, "blimp path"@, 0);
    }
}

#[verifier::rlimit(60)]
proof fn lemma_label_beautification_item()
    ensures
        spec_lower(spec_trim("Beautification Item"@)) == "beautification item"@,
        spec_contains("beautification item"@, "beautification item"@),
        !spec_contains("beautification item"@, "highway"@),
        !spec_contains("beautification item"@, "large road"@),
        !spec_contains("beautification item"@, "medium road"@),
        !spec_contains("beautification item"@, "small road"@),
        !spec_contains("beautification item"@, "pedestrian street"@),
        !spec_contains("beautification item"@, "pedestrian path"@),
        !spec_contains("beautification item"@, "pedestrian way"@),
        !spec_contains("beautification item"@, "train track"@),
        !spec_contains("beautification item"@, "metro track"@),
        !spec_contains("beautification item"@, "electricity wire"@),
        !spec_contains("beautification item"@, "power line"@),
        !spec_contains("beautification item"@, "airplane runway"@),
        !spec_contains("beautification item"@, "airplane line"@),
        !spec_contains("beautification item"@, "helicopter path"@),
        !spec_contains("beautification item"@, "blimp path"@),
        !spec_contains("beautification item"@, "flood wall"@),
{
    let l = "Beautification Item"@;
    let t = "beautification item"@;
    assert(l.len() > 0 && !is_whitespace(l[0]) && !is_whitespace(l.last())) by {
        reveal_strlit("Beautification Item");
    }
    lemma_trim_noop(l);
    assert(spec_lower(l) =~= t) by {
        reveal_strlit("Beautification Item");
        reveal_strlit("beautification item");
    }
    lemma_contains_itself(t);
    assert(!spec_contains(t, "highway"@)) by {
        reveal_strlit("beautification item");
        reveal_strlit("highway");
        lemma_char_absent(t, "highway"@, 0);
    }
    assert(!spec_contains(t, "large road"@)) by {
        reveal_strlit("beautification item");
        reveal_strlit("large road");
        lemma_char_absent(t, "large road"@, 0);
    }
    assert(!spec_contains(t, "medium road"@)) by {
        reveal_strlit("beautification item");
        reveal_strlit("medium road");
        lemma_char_absent(t, "medium road"@, 2);
    }
    assert(!spec_contains(t, "small road"@)) by {
        reveal_strlit("beautification item");
        reveal_strlit("small road");
        lemma_char_absent(t, "small road"@, 0);
    }
    assert(!spec_contains(t, "pedestrian street"@)) by {
        reveal_strlit("beautification item");
        reveal_strlit("pedestrian street");
        lemma_char_absent(t, "pedestrian street"@, 0);
    }
    assert(!spec_contains(t, "pedestrian path"@)) by {
        reveal_strlit("beautification item");
        reveal_strlit("pedestrian path");
        lemma_char_absent(t, "pedestrian path"@, 0);
    }
    assert(!spec_contains(t, "pedestrian way"@)) by {
        reveal_strlit("beautification item");
        reveal_strlit("pedestrian way");
        lemma_char_absent(t, "pedestrian way"@, 0);
    }
    assert(!spec_contains(t, "train track"@)) by {
        reveal_strlit("beautification item");
        reveal_strlit("train track");
        lemma_char_absent(t, "train track"@, 1);
    }
    assert(!spec_contains(t, "metro track"@)) by {
        reveal_strlit("beautification item");
        reveal_strlit("metro track");
        lemma_char_absent(t, "metro track"@, 3);
    }
    assert(!spec_contains(t, "electricity wire"@)) by {
        reveal_strlit("beautification item");
        reveal_strlit("electricity wire");
        lemma_char_absent(t, "electricity wire"@, 1);
    }
    assert(!spec_contains(t, "power line"@)) by {
        reveal_strlit("beautification item");
        reveal_strlit("power line");
        lemma_char_absent(t, "power line"@, 0);
    }
    assert(!spec_contains(t, "airplane runway"@)) by {
        reveal_strlit("beautification item");
        reveal_strlit("airplane runway");
        lemma_char_absent(t, "airplane runway"@, 2);
    }
    assert(!spec_contains(t, "airplane line"@)) by {
        reveal_strlit("beautification item");
        reveal_strlit("airplane line");
        lemma_char_absent(t, "airplane line"@, 2);
    }
    assert(!spec_contains(t, "helicopter path"@)) by {
        reveal_strlit("beautification item");
        reveal_strlit("helicopter path");
        lemma_char_absent(t, "helicopter path"@, 0);
    }
    assert(!spec_contains(t, "blimp path"@)) by {
        reveal_strlit("beautification item");
        reveal_strlit("blimp path");
        lemma_char_absent(t, "blimp path"@, 1);
    }
    assert(!spec_contains(t, "flood wall"@)) by {
        reveal_strlit("beautification item");
        reveal_strlit("flood wall");
        lemma_char_absent(t, "flood wall"@, 1);
    }
}

/// A known segment class, read back from its label, is the class again.
pub proof fn law_class_label_round_trip(c: SegmentClassView)
    requires
        !(c is Miscellaneous),
        !(c is Unknown),
    ensures
        spec_from_icls(spec_raw_label(c)) == c,
{
    match c {
        SegmentClassView::Highway => lemma_label_highway(),
        SegmentClassView::LargeRoad => lemma_label_large_road(),
        SegmentClassView::MediumRoad => lemma_label_medium_road(),
        SegmentClassView::SmallRoad => lemma_label_small_road(),
        SegmentClassView::PedestrianStreet => lemma_label_pedestrian_street(),
        SegmentClassView::PedestrianPath => lemma_label_pedestrian_path(),
        SegmentClassView::PedestrianWay => lemma_label_pedestrian_way(),
        SegmentClassView::TrainTrack => lemma_label_train_track(),
        SegmentClassView::MetroTrack => lemma_label_metro_track(),
        SegmentClassView::ElectricityWire => lemma_label_electricity_wire(),
        SegmentClassView::AirplaneRunway => lemma_label_airplane_runway(),
        SegmentClassView::AirplaneLine => lemma_label_airplane_line(),
        SegmentClassView::HelicopterPath => lemma_label_helicopter_path(),
        SegmentClassView::BlimpPath => lemma_label_blimp_path(),
        SegmentClassView::FloodWall => lemma_label_flood_wall(),
        SegmentClassView::BeautificationItem => lemma_label_beautification_item(),
        _ => {},
    }
}

/// A node's kind follows its trimmed service and sub-service. Road, water,
/// electricity and beautification nodes are known by their service alone.
/// A public-transport node is known by its sub-service: a train service
/// makes a train station, a metro service a metro station, a ship service
/// a harbor, a plane service an airport, and any other a public-transport
/// stop. Any other service makes an unknown kind that keeps both trimmed
/// texts.
pub proof fn law_node_kind_table(service: Seq<char>, subtype: Seq<char>)
    ensures
        ({
            let s = spec_trim(service);
            let t = spec_trim(subtype);
            let k = spec_from_service(service, subtype);
            &&& s == "Road"@ ==> k == NodeKindView::Road
            &&& s == "Water"@ ==> k == NodeKindView::Water
            &&& s == "Electricity"@ ==> k == NodeKindView::Electricity
            &&& s == "Beautification"@ ==> k == NodeKindView::Beautification
            &&& s == "PublicTransport"@ && t == "PublicTransportTrain"@ ==> k
                == NodeKindView::TrainStation
            &&& s == "PublicTransport"@ && t == "PublicTransportMetro"@ ==> k
                == NodeKindView::MetroStation
            &&& s == "PublicTransport"@ && t == "PublicTransportShip"@ ==> k == NodeKindView::Harbor
            &&& s == "PublicTransport"@ && t == "PublicTransportPlane"@ ==> k
                == NodeKindView::Airport
            &&& s == "PublicTransport"@ && t != "PublicTransportTrain"@ && t
                != "PublicTransportMetro"@ && t != "PublicTransportShip"@ && t
                != "PublicTransportPlane"@ ==> k == NodeKindView::PublicTransport
            &&& s != "Road"@ && s != "Water"@ && s != "PublicTransport"@ && s != "Electricity"@
                && s != "Beautification"@ ==> k == NodeKindView::Unknown(s, t)
        }),
{
    reveal_strlit("Road");
    reveal_strlit("Water");
    reveal_strlit("PublicTransport");
    reveal_strlit("Electricity");
    reveal_strlit("Beautification");
    assert("Road"@.len() == 4 && "Water"@.len() == 5 && "PublicTransport"@.len() == 15
        && "Electricity"@.len() == 11 && "Beautification"@.len() == 14);
    reveal_strlit("PublicTransportTrain");
    reveal_strlit("PublicTransportMetro");
    reveal_strlit("PublicTransportShip");
    reveal_strlit("PublicTransportPlane");
    assert("PublicTransportTrain"@ != "PublicTransportMetro"@) by {
        assert("PublicTransportTrain"@[15] != "PublicTransportMetro"@[15]);
    }
    assert("PublicTransportTrain"@ != "PublicTransportPlane"@) by {
        assert("PublicTransportTrain"@[15] != "PublicTransportPlane"@[15]);
    }
    assert("PublicTransportMetro"@ != "PublicTransportPlane"@) by {
        assert("PublicTransportMetro"@[15] != "PublicTransportPlane"@[15]);
    }
    assert("PublicTransportShip"@.len() == 19 && "PublicTransportTrain"@.len() == 20
        && "PublicTransportMetro"@.len() == 20 && "PublicTransportPlane"@.len() == 20);
}

/// A line's kind follows its trimmed, lower-cased type: `metro` is a metro
/// line, `pedestrian` a pedestrian line, and anything else another line.
pub proof fn law_transport_kind_table(value: Seq<char>)
    ensures
        ({
            let n = spec_lower(spec_trim(value));
            let k = spec_transport_kind(value);
            &&& n == "metro"@ ==> k == TransportKind::Metro
            &&& n == "pedestrian"@ ==> k == TransportKind::Pedestrian
            &&& n != "metro"@ && n != "pedestrian"@ ==> k == TransportKind::Other
        }),
{
    reveal_strlit("metro");
    reveal_strlit("pedestrian");
    assert("metro"@.len() == 5 && "pedestrian"@.len() == 10);
}

/// The value of a lower-case hexadecimal digit.
pub open spec fn hex_value(d: char) -> int {
    if '0' <= d && d <= '9' {
        d as int - '0' as int
    } else {
        d as int - 'a' as int + 10
    }
}

pub open spec fn is_lower_hex(d: char) -> bool {
    ('0' <= d && d <= '9') || ('a' <= d && d <= 'f')
}

proof fn lemma_hex_digit(v: int)
    requires
        0 <= v < 16,
    ensures
        is_lower_hex(hex_digit(v)),
        hex_value(hex_digit(v)) == v,
{
}

/// The hexadecimal notation is `#` and six lower-case hexadecimal digits,
/// which read back, two by two, as the red, green and blue channels.
pub proof fn law_hex_reads_back(c: RgbaColor)
    ensures
        spec_hex(c).len() == 7,
        spec_hex(c)[0] == '#',
        forall|i: int| 1 <= i < 7 ==> is_lower_hex(#[trigger] spec_hex(c)[i]),
        hex_value(spec_hex(c)[1]) * 16 + hex_value(spec_hex(c)[2]) == c.r,
        hex_value(spec_hex(c)[3]) * 16 + hex_value(spec_hex(c)[4]) == c.g,
        hex_value(spec_hex(c)[5]) * 16 + hex_value(spec_hex(c)[6]) == c.b,
{
    let h = spec_hex(c);
    lemma_hex_digit(c.r as int / 16);
    lemma_hex_digit(c.r as int % 16);
    lemma_hex_digit(c.g as int / 16);
    lemma_hex_digit(c.g as int % 16);
    lemma_hex_digit(c.b as int / 16);
    lemma_hex_digit(c.b as int % 16);
    assert(h[1] == hex_digit(c.r as int / 16) && h[2] == hex_digit(c.r as int % 16));
    assert(h[3] == hex_digit(c.g as int / 16) && h[4] == hex_digit(c.g as int % 16));
    assert(h[5] == hex_digit(c.b as int / 16) && h[6] == hex_digit(c.b as int % 16));
}

/// The decimal notation of a number is digits only, without a leading zero
/// (but for zero itself), and reads back as the number.
pub proof fn law_decimal_reads_back(n: nat)
    ensures
        decimal(n).len() > 0,
        all_digits(decimal(n)),
        digits_value(decimal(n)) == n,
        decimal(n).len() > 1 ==> decimal(n)[0] != '0',
    decreases n,
{
    let d = decimal(n);
    if n >= 10 {
        let m = (n / 10) as nat;
        law_decimal_reads_back(m);
        assert(d.drop_last() =~= decimal(m));
        assert(d.last() == ('0' as int + n % 10) as char);
        assert(digits_value(d) == digits_value(decimal(m)) * 10 + (n % 10));
        assert(m * 10 + n % 10 == n);
        if m >= 10 {
            assert(decimal(m) == decimal((m / 10) as nat).push(('0' as int + m % 10) as char));
            law_decimal_reads_back((m / 10) as nat);
            assert(decimal(m).len() > 1);
        }
        assert(d[0] == decimal(m)[0]);
    } else {
        assert(d.drop_last() =~= Seq::<char>::empty());
        assert(digits_value(d) == digits_value(d.drop_last()) * 10 + (d.last() as int - '0' as int));
    }
}

/// Whether a lower-cased class text names any kind of way.
pub open spec fn names_a_way(n: Seq<char>) -> bool {
    spec_contains(n, "highway"@)
        || spec_contains(n, "large road"@)
        || spec_contains(n, "medium road"@)
        || spec_contains(n, "small road"@)
        || spec_contains(n, "pedestrian street"@)
        || spec_contains(n, "pedestrian path"@)
        || spec_contains(n, "pedestrian way"@)
        || spec_contains(n, "train track"@)
        || spec_contains(n, "metro track"@)
        || spec_contains(n, "electricity wire"@)
        || spec_contains(n, "power line"@)
        || spec_contains(n, "airplane runway"@)
        || spec_contains(n, "airplane line"@)
        || spec_contains(n, "helicopter path"@)
        || spec_contains(n, "blimp path"@)
        || spec_contains(n, "flood wall"@)
        || spec_contains(n, "beautification item"@)
        || spec_contains(n, "fence"@)
        || spec_contains(n, "decoration"@)
}

/// A segment class comes from the words of its trimmed, lower-cased
/// text: a text naming a highway is a highway, whatever else it names;
/// each known class is chosen only when its words occur (a power line is
/// an electricity wire, a fence or a decoration a beautification item); a
/// text naming a kind of way always gets a known class; and a text naming
/// none is miscellaneous when blank and otherwise unknown, keeping the
/// text as written.
pub proof fn law_class_from_words(icls: Seq<char>)
    ensures
        ({
            let n = spec_lower(spec_trim(icls));
            let c = spec_from_icls(icls);
            &&& spec_contains(n, "highway"@) ==> c == SegmentClassView::Highway
            &&& c is Highway ==> spec_contains(n, "highway"@)
            &&& c is LargeRoad ==> spec_contains(n, "large road"@)
            &&& c is MediumRoad ==> spec_contains(n, "medium road"@)
            &&& c is SmallRoad ==> spec_contains(n, "small road"@)
            &&& c is PedestrianStreet ==> spec_contains(n, "pedestrian street"@)
            &&& c is PedestrianPath ==> spec_contains(n, "pedestrian path"@)
            &&& c is PedestrianWay ==> spec_contains(n, "pedestrian way"@)
            &&& c is TrainTrack ==> spec_contains(n, "train track"@)
            &&& c is MetroTrack ==> spec_contains(n, "metro track"@)
            &&& c is ElectricityWire ==> spec_contains(n, "electricity wire"@) || spec_contains(
                n,
                "power line"@,
            )
            &&& c is AirplaneRunway ==> spec_contains(n, "airplane runway"@)
            &&& c is AirplaneLine ==> spec_contains(n, "airplane line"@)
            &&& c is HelicopterPath ==> spec_contains(n, "helicopter path"@)
            &&& c is BlimpPath ==> spec_contains(n, "blimp path"@)
            &&& c is FloodWall ==> spec_contains(n, "flood wall"@)
            &&& c is BeautificationItem ==> spec_contains(n, "beautification item"@)
                || spec_contains(n, "fence"@) || spec_contains(n, "decoration"@)
            &&& names_a_way(n) <==> !(c is Miscellaneous || c is Unknown)
            &&& !names_a_way(n) ==> c == if n.len() == 0 {
                SegmentClassView::Miscellaneous
            } else {
                SegmentClassView::Unknown(icls)
            }
        }),
{
}

} // verus!
