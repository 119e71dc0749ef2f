//! The reader of CSLMapView exports: a state machine that takes the XML
//! events of a file one by one (element starts, empty elements, ends and
//! text) and builds a `MapDocument`.
//!
//! Numbers are handed in with the attributes: each attribute carries the bit
//! pattern of its value read as a single-precision number, when it reads as
//! one. Text content that is a number (the sea level) is kept as text.
use vstd::prelude::*;
use crate::model::{
    empty_document, negate, is_zero, spec_from_icls, spec_from_service, spec_negate,
    spec_is_zero, spec_transport_kind, AreaRecord, AreaView, DistrictRecord, DistrictView,
    DocumentView, MapDocument, NodeKind, NodeRecord, NodeView, RasterKind, RasterSource,
    RasterView, RecordKind, RgbaColor, RouteLinkRecord, RouteLinkView, SegmentClass,
    SegmentPoint, SegmentRecord, SegmentView, TransportKind, TransportRecord, TransportView,
    WorldPoint, opt_text, texts,
};
use crate::text::{
    chars_of, contains_str, decode_lossy, lower_chars, parse_u64_text, parse_u8_text,
    spec_contains, spec_lower, spec_parse_unsigned, spec_trim, str_eq, trim, utf8_lossy,
};

verus! {

/// One attribute of an element: its raw key and value bytes, and the bit
/// pattern of the value read as a single-precision number (`str::parse`
/// of the value's lossy decoding), or `None` where it does not read as one.
#[derive(Debug, Clone, PartialEq, Eq)]
pub struct XmlAttribute {
    pub key: Vec<u8>,
    pub value: Vec<u8>,
    pub number: Option<u32>,
}

pub ghost struct AttributeView {
    pub key: Seq<u8>,
    pub value: Seq<u8>,
    pub number: Option<u32>,
}

impl View for XmlAttribute {
    type V = AttributeView;

    open spec fn view(&self) -> AttributeView {
        AttributeView { key: self.key@, value: self.value@, number: self.number }
    }
}

/// An element start: its raw name and its attributes in document order.
#[derive(Debug, Clone, PartialEq, Eq)]
pub struct XmlElement {
    pub name: Vec<u8>,
    pub attributes: Vec<XmlAttribute>,
}

pub ghost struct ElementView {
    pub name: Seq<u8>,
    pub attributes: Seq<AttributeView>,
}

impl View for XmlElement {
    type V = ElementView;

    open spec fn view(&self) -> ElementView {
        ElementView {
            name: self.name@,
            attributes: self.attributes@.map_values(|a: XmlAttribute| a@),
        }
    }
}

/// The events of an XML file that the reader acts on.
#[derive(Debug, Clone, PartialEq, Eq)]
pub enum XmlEvent {
    Start(XmlElement),
    Empty(XmlElement),
    End(Vec<u8>),
    Text(Vec<u8>),
}

pub ghost enum EventView {
    Start(ElementView),
    Empty(ElementView),
    End(Seq<u8>),
    Text(Seq<u8>),
}

impl View for XmlEvent {
    type V = EventView;

    open spec fn view(&self) -> EventView {
        match self {
            XmlEvent::Start(e) => EventView::Start(e@),
            XmlEvent::Empty(e) => EventView::Empty(e@),
            XmlEvent::End(n) => EventView::End(n@),
            XmlEvent::Text(t) => EventView::Text(t@),
        }
    }
}

/// Where the text of the element being read goes.
#[derive(Debug, Clone, Copy, PartialEq, Eq, Structural)]
pub enum TextTarget {
    City,
    Generated,
    SeaLevel,
    SegmentName,
    AreaName,
    AreaType,
    RouteLinkSegmentId,
    TerrainData,
    ForestRow,
}

/// Why a file could not be read as a map.
#[derive(Debug, Clone, Copy, PartialEq, Eq, Structural)]
pub enum ParseError {
    /// The XML reader reported an error.
    MalformedXml,
    /// The map names no city.
    MissingCity,
}

impl ParseError {
    pub fn message(&self) -> (s: &str)
        ensures
            *self == ParseError::MalformedXml ==> s@ == "failed to parse CSL XML"@,
            *self == ParseError::MissingCity ==> s@ == "missing City tag in CSL export"@,
    {
        match self {
            ParseError::MalformedXml => "failed to parse CSL XML",
            ParseError::MissingCity => "missing City tag in CSL export",
        }
    }
}

pub open spec fn or_u64(o: Option<u64>, d: u64) -> u64 {
    match o {
        Some(v) => v,
        None => d,
    }
}

pub open spec fn or_u32(o: Option<u32>, d: u32) -> u32 {
    match o {
        Some(v) => v,
        None => d,
    }
}

pub open spec fn or_u8(o: Option<u8>, d: u8) -> u8 {
    match o {
        Some(v) => v,
        None => d,
    }
}

pub open spec fn or_text(o: Option<Seq<char>>) -> Seq<char> {
    match o {
        Some(v) => v,
        None => Seq::empty(),
    }
}

/// The name of an element as text (lossy UTF-8; empty for no bytes).
pub open spec fn spec_local_name(name: Seq<u8>) -> Seq<char> {
    if name.len() == 0 {
        Seq::empty()
    } else {
        utf8_lossy(name)
    }
}

/// The first attribute whose key reads as `key`.
pub open spec fn find_attr(attrs: Seq<AttributeView>, key: Seq<char>) -> Option<AttributeView>
    decreases attrs.len(),
{
    if attrs.len() == 0 {
        None
    } else if utf8_lossy(attrs[0].key) == key {
        Some(attrs[0])
    } else {
        find_attr(attrs.drop_first(), key)
    }
}

/// The value of the first attribute named `key`, as text.
pub open spec fn spec_attr_value(e: ElementView, key: Seq<char>) -> Option<Seq<char>> {
    match find_attr(e.attributes, key) {
        Some(a) => Some(utf8_lossy(a.value)),
        None => None,
    }
}

/// The value of the first attribute named `key`, as a number.
pub open spec fn spec_attr_number(e: ElementView, key: Seq<char>) -> Option<u32> {
    match find_attr(e.attributes, key) {
        Some(a) => a.number,
        None => None,
    }
}

/// `true` and `1` are true; anything else, or nothing, is false.
pub open spec fn spec_parse_bool(value: Option<Seq<char>>) -> bool {
    value == Some("true"@) || value == Some("1"@)
}

pub open spec fn spec_parse_u64(value: Option<Seq<char>>) -> Option<u64> {
    match value {
        Some(t) => match spec_parse_unsigned(t, u64::MAX as int) {
            Some(n) => Some(n as u64),
            None => None,
        },
        None => None,
    }
}

pub open spec fn spec_parse_u8(value: Option<Seq<char>>) -> Option<u8> {
    match value {
        Some(t) => match spec_parse_unsigned(t, 255) {
            Some(n) => Some(n as u8),
            None => None,
        },
        None => None,
    }
}

pub fn local_name(name: &[u8]) -> (s: String)
    ensures
        s@ == spec_local_name(name@),
{
    if name.len() == 0 {
        String::new()
    } else {
        decode_lossy(name)
    }
}

/// The position of the first attribute of `e` whose key reads as `key`.
fn find_attribute(e: &XmlElement, key: &str) -> (r: Option<usize>)
    ensures
        match r {
            Some(i) => i < e.attributes.len() && find_attr(e@.attributes, key@) == Some(
                e.attributes@[i as int]@,
            ),
            None => find_attr(e@.attributes, key@) is None,
        },
{
    let ghost attrs = e@.attributes;
    let n = e.attributes.len();
    let mut i: usize = 0;
    assert(attrs.skip(0) =~= attrs);
    while i < n
        invariant
            i <= n == e.attributes.len(),
            attrs == e@.attributes,
            attrs.len() == n,
            find_attr(attrs, key@) == find_attr(attrs.skip(i as int), key@),
        decreases n - i,
    {
        let decoded = decode_lossy(e.attributes[i].key.as_slice());
        assert(attrs[i as int] == e.attributes@[i as int]@);
        if str_eq(decoded.as_str(), key) {
            assert(attrs.skip(i as int)[0] == attrs[i as int]);
            return Some(i);
        }
        assert(attrs.skip(i as int).drop_first() =~= attrs.skip(i + 1));
        i = i + 1;
    }
    None
}

/// The value of the first attribute named `key`, lossily decoded.
pub fn attr_value(e: &XmlElement, key: &str) -> (r: Option<String>)
    ensures
        opt_text(r) == spec_attr_value(e@, key@),
{
    match find_attribute(e, key) {
        Some(i) => Some(decode_lossy(e.attributes[i].value.as_slice())),
        None => None,
    }
}

/// The number carried by the first attribute named `key`.
pub fn attr_number(e: &XmlElement, key: &str) -> (r: Option<u32>)
    ensures
        r == spec_attr_number(e@, key@),
{
    match find_attribute(e, key) {
        Some(i) => e.attributes[i].number,
        None => None,
    }
}

fn attr_text_or_empty(e: &XmlElement, key: &str) -> (r: String)
    ensures
        r@ == or_text(spec_attr_value(e@, key@)),
{
    match attr_value(e, key) {
        Some(s) => s,
        None => String::new(),
    }
}

pub fn parse_bool(value: Option<String>) -> (b: bool)
    ensures
        b == spec_parse_bool(opt_text(value)),
{
    match value {
        Some(text) => str_eq(text.as_str(), "true") || str_eq(text.as_str(), "1"),
        None => false,
    }
}

pub fn parse_u64(value: Option<String>) -> (r: Option<u64>)
    ensures
        r == spec_parse_u64(opt_text(value)),
{
    match value {
        Some(text) => parse_u64_text(text.as_str()),
        None => None,
    }
}

pub fn parse_u8(value: Option<String>) -> (r: Option<u8>)
    ensures
        r == spec_parse_u8(opt_text(value)),
{
    match value {
        Some(text) => parse_u8_text(text.as_str()),
        None => None,
    }
}

pub fn parse_service_node_kind(service: &str, subtype: &str) -> (k: NodeKind)
    ensures
        k@ == spec_from_service(service@, subtype@),
{
    NodeKind::from_service(service, subtype)
}

pub fn parse_route_kind(value: &str) -> (k: TransportKind)
    ensures
        k == spec_transport_kind(value@),
{
    TransportKind::from_str(value)
}

/// A node whose end has not been read yet.
pub struct NodeDraft {
    pub id: u64,
    pub name: Option<String>,
    pub position: Option<WorldPoint>,
    pub elevation: u32,
    pub elevation_hint: u32,
    pub service: String,
    pub subtype: String,
    pub underground: bool,
    pub overground: bool,
    pub dist: Option<u64>,
}

pub ghost struct NodeDraftView {
    pub id: u64,
    pub name: Option<Seq<char>>,
    pub position: Option<WorldPoint>,
    pub elevation: u32,
    pub elevation_hint: u32,
    pub service: Seq<char>,
    pub subtype: Seq<char>,
    pub underground: bool,
    pub overground: bool,
    pub dist: Option<u64>,
}

impl View for NodeDraft {
    type V = NodeDraftView;

    open spec fn view(&self) -> NodeDraftView {
        NodeDraftView {
            id: self.id,
            name: opt_text(self.name),
            position: self.position,
            elevation: self.elevation,
            elevation_hint: self.elevation_hint,
            service: self.service@,
            subtype: self.subtype@,
            underground: self.underground,
            overground: self.overground,
            dist: self.dist,
        }
    }
}

/// A district whose end has not been read yet.
pub struct DistrictDraft {
    pub id: u64,
    pub name: String,
    pub anchor: Option<WorldPoint>,
}

pub ghost struct DistrictDraftView {
    pub id: u64,
    pub name: Seq<char>,
    pub anchor: Option<WorldPoint>,
}

impl View for DistrictDraft {
    type V = DistrictDraftView;

    open spec fn view(&self) -> DistrictDraftView {
        DistrictDraftView { id: self.id, name: self.name@, anchor: self.anchor }
    }
}

/// The reader's state: the names of the open elements, where text goes,
/// the records being read, and the map read so far.
pub struct ParseState {
    pub path: Vec<String>,
    pub current_text_target: Option<TextTarget>,
    pub text_buffer: String,
    pub current_node: Option<NodeDraft>,
    pub current_segment: Option<SegmentRecord>,
    pub current_area: Option<AreaRecord>,
    pub current_district: Option<DistrictDraft>,
    pub current_route: Option<TransportRecord>,
    pub current_route_link: Option<RouteLinkRecord>,
    pub current_terrain: Option<String>,
    pub current_forest_row: Option<String>,
    pub document: MapDocument,
}

pub ghost struct StateView {
    pub path: Seq<Seq<char>>,
    pub target: Option<TextTarget>,
    pub text: Seq<char>,
    pub node: Option<NodeDraftView>,
    pub segment: Option<SegmentView>,
    pub area: Option<AreaView>,
    pub district: Option<DistrictDraftView>,
    pub route: Option<TransportView>,
    pub route_link: Option<RouteLinkView>,
    pub terrain: Option<Seq<char>>,
    pub forest_row: Option<Seq<char>>,
    pub document: DocumentView,
}

pub open spec fn opt_node(o: Option<NodeDraft>) -> Option<NodeDraftView> {
    match o {
        Some(x) => Some(x@),
        None => None,
    }
}

pub open spec fn opt_segment(o: Option<SegmentRecord>) -> Option<SegmentView> {
    match o {
        Some(x) => Some(x@),
        None => None,
    }
}

pub open spec fn opt_area(o: Option<AreaRecord>) -> Option<AreaView> {
    match o {
        Some(x) => Some(x@),
        None => None,
    }
}

pub open spec fn opt_district(o: Option<DistrictDraft>) -> Option<DistrictDraftView> {
    match o {
        Some(x) => Some(x@),
        None => None,
    }
}

pub open spec fn opt_route(o: Option<TransportRecord>) -> Option<TransportView> {
    match o {
        Some(x) => Some(x@),
        None => None,
    }
}

pub open spec fn opt_link(o: Option<RouteLinkRecord>) -> Option<RouteLinkView> {
    match o {
        Some(x) => Some(x@),
        None => None,
    }
}

impl View for ParseState {
    type V = StateView;

    open spec fn view(&self) -> StateView {
        StateView {
            path: texts(self.path@),
            target: self.current_text_target,
            text: self.text_buffer@,
            node: opt_node(self.current_node),
            segment: opt_segment(self.current_segment),
            area: opt_area(self.current_area),
            district: opt_district(self.current_district),
            route: opt_route(self.current_route),
            route_link: opt_link(self.current_route_link),
            terrain: opt_text(self.current_terrain),
            forest_row: opt_text(self.current_forest_row),
            document: self.document@,
        }
    }
}

/// The state before the first event.
pub open spec fn initial_state() -> StateView {
    StateView {
        path: Seq::empty(),
        target: None,
        text: Seq::empty(),
        node: None,
        segment: None,
        area: None,
        district: None,
        route: None,
        route_link: None,
        terrain: None,
        forest_row: None,
        document: empty_document(),
    }
}

/// Text that follows goes to `t`, from an empty buffer.
pub open spec fn push_target(s: StateView, t: TextTarget) -> StateView {
    StateView { target: Some(t), text: Seq::empty(), ..s }
}

/// An element named `name` is open.
pub open spec fn path_has(s: StateView, name: Seq<char>) -> bool {
    s.path.contains(name)
}

pub open spec fn node_draft(e: ElementView) -> NodeDraftView {
    NodeDraftView {
        id: or_u64(spec_parse_u64(spec_attr_value(e, "id"@)), 0),
        name: spec_attr_value(e, "name"@),
        position: None,
        elevation: or_u32(spec_attr_number(e, "y"@), 0),
        elevation_hint: or_u32(spec_attr_number(e, "elev"@), 0),
        service: or_text(spec_attr_value(e, "srv"@)),
        subtype: or_text(spec_attr_value(e, "subsrv"@)),
        underground: spec_parse_bool(spec_attr_value(e, "ug"@)),
        overground: spec_parse_bool(spec_attr_value(e, "og"@)),
        dist: spec_parse_u64(spec_attr_value(e, "dist"@)),
    }
}

/// A `Pos` inside a node places it: missing numbers count as zero, and the
/// north coordinate is the negated `z`.
pub open spec fn start_pos(s: StateView, e: ElementView) -> StateView {
    match s.node {
        Some(n) => StateView {
            node: Some(
                NodeDraftView {
                    position: Some(
                        WorldPoint {
                            x: or_u32(spec_attr_number(e, "x"@), 0),
                            y: spec_negate(or_u32(spec_attr_number(e, "z"@), 0)),
                        },
                    ),
                    elevation: or_u32(spec_attr_number(e, "y"@), 0),
                    ..n
                },
            ),
            ..s
        },
        None => s,
    }
}

pub open spec fn segment_draft(e: ElementView) -> SegmentView {
    let raw = or_text(spec_attr_value(e, "icls"@));
    let lower = spec_lower(raw);
    SegmentView {
        id: or_u64(spec_parse_u64(spec_attr_value(e, "id"@)), 0),
        name: spec_attr_value(e, "name"@),
        start_node: or_u64(spec_parse_u64(spec_attr_value(e, "sn"@)), 0),
        end_node: or_u64(spec_parse_u64(spec_attr_value(e, "en"@)), 0),
        raw_class: raw,
        class: spec_from_icls(raw),
        width: or_u32(spec_attr_number(e, "width"@), 0),
        points: Seq::empty(),
        route_segment_ids: Seq::empty(),
        underground: spec_contains(lower, "tunnel"@),
        overground: spec_contains(lower, "elevated"@) || spec_contains(lower, "bridge"@),
        elevated_hint: spec_contains(lower, "elevated"@) || spec_contains(lower, "bridge"@)
            || spec_contains(lower, "ramp"@),
    }
}

/// A segment point needs all of `x`, `z` and `y`.
pub open spec fn segment_point(e: ElementView) -> Option<SegmentPoint> {
    match (spec_attr_number(e, "x"@), spec_attr_number(e, "z"@), spec_attr_number(e, "y"@)) {
        (Some(x), Some(z), Some(y)) => Some(
            SegmentPoint { position: WorldPoint { x, y: spec_negate(z) }, elevation: y },
        ),
        _ => None,
    }
}

/// An outline point needs `x` and `z`.
pub open spec fn plain_point(e: ElementView) -> Option<WorldPoint> {
    match (spec_attr_number(e, "x"@), spec_attr_number(e, "z"@)) {
        (Some(x), Some(z)) => Some(WorldPoint { x, y: spec_negate(z) }),
        _ => None,
    }
}

/// A `P` inside a segment, building, park or district adds a point to the
/// open segment, to the open outline (whose elevation the first point with
/// one sets), and anchors the open district if it has no anchor yet.
pub open spec fn start_point(s: StateView, e: ElementView) -> StateView {
    let s1 = match s.segment {
        Some(seg) => match segment_point(e) {
            Some(p) => StateView { segment: Some(SegmentView { points: seg.points.push(p), ..seg }), ..s },
            None => s,
        },
        None => s,
    };
    let s2 = match s1.area {
        Some(a) => match plain_point(e) {
            Some(p) => StateView {
                area: Some(
                    AreaView {
                        points: a.points.push(p),
                        elevation: if spec_is_zero(a.elevation) {
                            or_u32(spec_attr_number(e, "y"@), 0)
                        } else {
                            a.elevation
                        },
                        ..a
                    },
                ),
                ..s1
            },
            None => s1,
        },
        None => s1,
    };
    match s2.district {
        Some(d) => if d.anchor is None {
            StateView { district: Some(DistrictDraftView { anchor: plain_point(e), ..d }), ..s2 }
        } else {
            s2
        },
        None => s2,
    }
}

pub open spec fn building_draft(e: ElementView) -> AreaView {
    AreaView {
        id: or_u64(spec_parse_u64(spec_attr_value(e, "id"@)), 0),
        name: spec_attr_value(e, "name"@),
        service: or_text(spec_attr_value(e, "srv"@)),
        subtype: or_text(spec_attr_value(e, "subsrv"@)),
        area_type: None,
        points: Seq::empty(),
        elevation: 0,
    }
}

pub open spec fn park_draft(e: ElementView) -> AreaView {
    AreaView {
        id: or_u64(spec_parse_u64(spec_attr_value(e, "id"@)), 0),
        name: spec_attr_value(e, "name"@),
        service: "Park"@,
        subtype: Seq::empty(),
        area_type: None,
        points: Seq::empty(),
        elevation: 0,
    }
}

pub open spec fn district_draft(e: ElementView) -> DistrictDraftView {
    DistrictDraftView {
        id: or_u64(spec_parse_u64(spec_attr_value(e, "id"@)), 0),
        name: or_text(spec_attr_value(e, "name"@)),
        anchor: None,
    }
}

/// A line starts grey and opaque unless its attributes give a colour.
pub open spec fn route_draft(e: ElementView) -> TransportView {
    TransportView {
        id: or_text(spec_attr_value(e, "id"@)),
        name: or_text(spec_attr_value(e, "name"@)),
        kind: spec_transport_kind(or_text(spec_attr_value(e, "type"@))),
        color: RgbaColor {
            r: or_u8(spec_parse_u8(spec_attr_value(e, "r"@)), 128),
            g: or_u8(spec_parse_u8(spec_attr_value(e, "g"@)), 128),
            b: or_u8(spec_parse_u8(spec_attr_value(e, "b"@)), 128),
            a: or_u8(spec_parse_u8(spec_attr_value(e, "a"@)), 255),
        },
        stops: Seq::empty(),
    }
}

/// A `color` inside a line replaces the channels it gives.
pub open spec fn start_color(s: StateView, e: ElementView) -> StateView {
    match s.route {
        Some(r) => StateView {
            route: Some(
                TransportView {
                    color: RgbaColor {
                        r: or_u8(spec_parse_u8(spec_attr_value(e, "r"@)), r.color.r),
                        g: or_u8(spec_parse_u8(spec_attr_value(e, "g"@)), r.color.g),
                        b: or_u8(spec_parse_u8(spec_attr_value(e, "b"@)), r.color.b),
                        a: or_u8(spec_parse_u8(spec_attr_value(e, "a"@)), r.color.a),
                    },
                    ..r
                },
            ),
            ..s
        },
        None => s,
    }
}

/// A `Stop` inside a line adds the node it names.
pub open spec fn start_stop(s: StateView, e: ElementView) -> StateView {
    match s.route {
        Some(r) => match spec_parse_u64(spec_attr_value(e, "node"@)) {
            Some(n) => StateView { route: Some(TransportView { stops: r.stops.push(n), ..r }), ..s },
            None => s,
        },
        None => s,
    }
}

/// An `Sg` inside a segment opens a route link between the open segment's
/// ends (zero without one); the text that follows is a segment id of the
/// link.
pub open spec fn start_route_link(s: StateView) -> StateView {
    let link = RouteLinkView {
        start_node: match s.segment {
            Some(seg) => seg.start_node,
            None => 0,
        },
        end_node: match s.segment {
            Some(seg) => seg.end_node,
            None => 0,
        },
        segment_ids: Seq::empty(),
    };
    push_target(StateView { route_link: Some(link), ..s }, TextTarget::RouteLinkSegmentId)
}

/// What an element start does, once its name is on the path.
pub open spec fn start_named(s: StateView, name: Seq<char>, e: ElementView) -> StateView {
    if name == "City"@ {
        push_target(s, TextTarget::City)
    } else if name == "Generated"@ {
        push_target(s, TextTarget::Generated)
    } else if name == "SeaLevel"@ {
        push_target(s, TextTarget::SeaLevel)
    } else if name == "Name"@ && path_has(s, "Seg"@) {
        push_target(s, TextTarget::SegmentName)
    } else if name == "Name"@ && (path_has(s, "Buil"@) || path_has(s, "Park"@)) {
        push_target(s, TextTarget::AreaName)
    } else if name == "type"@ && path_has(s, "Park"@) {
        push_target(s, TextTarget::AreaType)
    } else if name == "Ter"@ && path_has(s, "Terrains"@) {
        push_target(s, TextTarget::TerrainData)
    } else if name == "Forest"@ && path_has(s, "Forests"@) {
        push_target(s, TextTarget::ForestRow)
    } else if name == "Node"@ {
        StateView { node: Some(node_draft(e)), ..s }
    } else if name == "Pos"@ && path_has(s, "Node"@) {
        start_pos(s, e)
    } else if name == "Seg"@ {
        StateView { segment: Some(segment_draft(e)), ..s }
    } else if name == "P"@ && (path_has(s, "Seg"@) || path_has(s, "Buil"@) || path_has(s, "Park"@)
        || path_has(s, "Dist"@)) {
        start_point(s, e)
    } else if name == "Buil"@ {
        StateView { area: Some(building_draft(e)), ..s }
    } else if name == "Park"@ {
        StateView { area: Some(park_draft(e)), ..s }
    } else if name == "Dist"@ {
        StateView { district: Some(district_draft(e)), ..s }
    } else if name == "Trans"@ {
        StateView { route: Some(route_draft(e)), ..s }
    } else if name == "color"@ && path_has(s, "Trans"@) {
        start_color(s, e)
    } else if name == "Stop"@ && path_has(s, "Trans"@) {
        start_stop(s, e)
    } else if name == "Sg"@ && path_has(s, "Seg"@) {
        start_route_link(s)
    } else {
        s
    }
}

/// An element start: its name goes on the path, then the element acts.
pub open spec fn spec_start(s: StateView, e: ElementView) -> StateView {
    let name = spec_local_name(e.name);
    start_named(StateView { path: s.path.push(name), ..s }, name, e)
}

fn push_text_target(state: &mut ParseState, target: TextTarget)
    ensures
        final(state)@ == push_target(old(state)@, target),
{
    state.current_text_target = Some(target);
    state.text_buffer = String::new();
}

fn path_contains(state: &ParseState, name: &str) -> (r: bool)
    ensures
        r == path_has(state@, name@),
{
    let n = state.path.len();
    for i in 0..n
        invariant
            n == state.path.len(),
            forall|k: int| 0 <= k < i ==> state.path@[k]@ != name@,
    {
        if str_eq(state.path[i].as_str(), name) {
            assert(texts(state.path@)[i as int] == name@);
            return true;
        }
    }
    assert(!texts(state.path@).contains(name@)) by {
        if texts(state.path@).contains(name@) {
            let k = choose|k: int| 0 <= k < texts(state.path@).len() && texts(state.path@)[k] == name@;
            assert(state.path@[k]@ == name@);
        }
    }
    false
}

fn number_or_zero(o: Option<u32>) -> (r: u32)
    ensures
        r == or_u32(o, 0),
{
    match o {
        Some(v) => v,
        None => 0,
    }
}

fn id_or_zero(o: Option<u64>) -> (r: u64)
    ensures
        r == or_u64(o, 0),
{
    match o {
        Some(v) => v,
        None => 0,
    }
}

fn channel_or(o: Option<u8>, d: u8) -> (r: u8)
    ensures
        r == or_u8(o, d),
{
    match o {
        Some(v) => v,
        None => d,
    }
}

fn make_node_draft(e: &XmlElement) -> (d: NodeDraft)
    ensures
        d@ == node_draft(e@),
{
    NodeDraft {
        id: id_or_zero(parse_u64(attr_value(e, "id"))),
        name: attr_value(e, "name"),
        position: None,
        elevation: number_or_zero(attr_number(e, "y")),
        elevation_hint: number_or_zero(attr_number(e, "elev")),
        service: attr_text_or_empty(e, "srv"),
        subtype: attr_text_or_empty(e, "subsrv"),
        underground: parse_bool(attr_value(e, "ug")),
        overground: parse_bool(attr_value(e, "og")),
        dist: parse_u64(attr_value(e, "dist")),
    }
}

fn handle_pos(state: &mut ParseState, e: &XmlElement)
    ensures
        final(state)@ == start_pos(old(state)@, e@),
{
    match state.current_node.take() {
        Some(mut node) => {
            let x = number_or_zero(attr_number(e, "x"));
            let z = number_or_zero(attr_number(e, "z"));
            let y = number_or_zero(attr_number(e, "y"));
            node.position = Some(WorldPoint { x, y: negate(z) });
            node.elevation = y;
            state.current_node = Some(node);
        },
        None => {},
    }
}

fn make_segment_draft(e: &XmlElement) -> (d: SegmentRecord)
    ensures
        d@ == segment_draft(e@),
{
    let raw_class = attr_text_or_empty(e, "icls");
    let class = SegmentClass::from_icls(raw_class.as_str());
    let raw = chars_of(raw_class.as_str());
    let lower = lower_chars(&raw);
    let underground = contains_str(&lower, "tunnel");
    let elevated = contains_str(&lower, "elevated");
    let bridge = contains_str(&lower, "bridge");
    let ramp = contains_str(&lower, "ramp");
    let d = SegmentRecord {
        id: id_or_zero(parse_u64(attr_value(e, "id"))),
        name: attr_value(e, "name"),
        start_node: id_or_zero(parse_u64(attr_value(e, "sn"))),
        end_node: id_or_zero(parse_u64(attr_value(e, "en"))),
        raw_class,
        class,
        width: number_or_zero(attr_number(e, "width")),
        points: Vec::new(),
        route_segment_ids: Vec::new(),
        underground,
        overground: elevated || bridge,
        elevated_hint: elevated || bridge || ramp,
    };
    assert(d@.points =~= Seq::<SegmentPoint>::empty());
    assert(d@.route_segment_ids =~= Seq::<u64>::empty());
    d
}

fn segment_point_of(e: &XmlElement) -> (r: Option<SegmentPoint>)
    ensures
        r == segment_point(e@),
{
    let x = attr_number(e, "x");
    let z = attr_number(e, "z");
    let y = attr_number(e, "y");
    match (x, z, y) {
        (Some(x), Some(z), Some(y)) => Some(
            SegmentPoint { position: WorldPoint { x, y: negate(z) }, elevation: y },
        ),
        _ => None,
    }
}

fn plain_point_of(e: &XmlElement) -> (r: Option<WorldPoint>)
    ensures
        r == plain_point(e@),
{
    let x = attr_number(e, "x");
    let z = attr_number(e, "z");
    match (x, z) {
        (Some(x), Some(z)) => Some(WorldPoint { x, y: negate(z) }),
        _ => None,
    }
}

fn handle_point(state: &mut ParseState, e: &XmlElement)
    ensures
        final(state)@ == start_point(old(state)@, e@),
{
    let ghost s0 = state@;
    match state.current_segment.take() {
        Some(mut segment) => {
            match segment_point_of(e) {
                Some(p) => {
                    segment.points.push(p);
                },
                None => {},
            }
            state.current_segment = Some(segment);
        },
        None => {},
    }
    let ghost s1 = state@;
    assert(s1 == match s0.segment {
        Some(seg) => match segment_point(e@) {
            Some(p) => StateView { segment: Some(SegmentView { points: seg.points.push(p), ..seg }), ..s0 },
            None => s0,
        },
        None => s0,
    });
    match state.current_area.take() {
        Some(mut area) => {
            match plain_point_of(e) {
                Some(p) => {
                    area.points.push(p);
                    if is_zero(area.elevation) {
                        area.elevation = number_or_zero(attr_number(e, "y"));
                    }
                },
                None => {},
            }
            state.current_area = Some(area);
        },
        None => {},
    }
    let ghost s2 = state@;
    assert(s2 == match s1.area {
        Some(a) => match plain_point(e@) {
            Some(p) => StateView {
                area: Some(
                    AreaView {
                        points: a.points.push(p),
                        elevation: if spec_is_zero(a.elevation) {
                            or_u32(spec_attr_number(e@, "y"@), 0)
                        } else {
                            a.elevation
                        },
                        ..a
                    },
                ),
                ..s1
            },
            None => s1,
        },
        None => s1,
    });
    match state.current_district.take() {
        Some(mut district) => {
            if district.anchor.is_none() {
                district.anchor = plain_point_of(e);
            }
            state.current_district = Some(district);
        },
        None => {},
    }
}

fn make_building_draft(e: &XmlElement) -> (d: AreaRecord)
    ensures
        d@ == building_draft(e@),
{
    let d = AreaRecord {
        id: id_or_zero(parse_u64(attr_value(e, "id"))),
        name: attr_value(e, "name"),
        service: attr_text_or_empty(e, "srv"),
        subtype: attr_text_or_empty(e, "subsrv"),
        area_type: None,
        points: Vec::new(),
        elevation: 0,
    };
    assert(d@.points =~= Seq::<WorldPoint>::empty());
    d
}

fn make_park_draft(e: &XmlElement) -> (d: AreaRecord)
    ensures
        d@ == park_draft(e@),
{
    let d = AreaRecord {
        id: id_or_zero(parse_u64(attr_value(e, "id"))),
        name: attr_value(e, "name"),
        service: "Park".to_owned(),
        subtype: String::new(),
        area_type: None,
        points: Vec::new(),
        elevation: 0,
    };
    assert(d@.points =~= Seq::<WorldPoint>::empty());
    d
}

fn make_district_draft(e: &XmlElement) -> (d: DistrictDraft)
    ensures
        d@ == district_draft(e@),
{
    DistrictDraft {
        id: id_or_zero(parse_u64(attr_value(e, "id"))),
        name: attr_text_or_empty(e, "name"),
        anchor: None,
    }
}

fn make_route_draft(e: &XmlElement) -> (d: TransportRecord)
    ensures
        d@ == route_draft(e@),
{
    let kind_text = attr_text_or_empty(e, "type");
    let kind = parse_route_kind(kind_text.as_str());
    let color = RgbaColor::rgba(
        channel_or(parse_u8(attr_value(e, "r")), 128),
        channel_or(parse_u8(attr_value(e, "g")), 128),
        channel_or(parse_u8(attr_value(e, "b")), 128),
        channel_or(parse_u8(attr_value(e, "a")), 255),
    );
    let d = TransportRecord {
        id: attr_text_or_empty(e, "id"),
        name: attr_text_or_empty(e, "name"),
        kind,
        color,
        stops: Vec::new(),
    };
    assert(d@.stops =~= Seq::<u64>::empty());
    d
}

fn handle_color(state: &mut ParseState, e: &XmlElement)
    ensures
        final(state)@ == start_color(old(state)@, e@),
{
    match state.current_route.take() {
        Some(mut route) => {
            let old_color = route.color;
            route.color = RgbaColor::rgba(
                channel_or(parse_u8(attr_value(e, "r")), old_color.r),
                channel_or(parse_u8(attr_value(e, "g")), old_color.g),
                channel_or(parse_u8(attr_value(e, "b")), old_color.b),
                channel_or(parse_u8(attr_value(e, "a")), old_color.a),
            );
            state.current_route = Some(route);
        },
        None => {},
    }
}

fn handle_stop(state: &mut ParseState, e: &XmlElement)
    ensures
        final(state)@ == start_stop(old(state)@, e@),
{
    match state.current_route.take() {
        Some(mut route) => {
            match parse_u64(attr_value(e, "node")) {
                Some(node) => {
                    route.stops.push(node);
                },
                None => {},
            }
            state.current_route = Some(route);
        },
        None => {},
    }
}

fn handle_route_link(state: &mut ParseState)
    ensures
        final(state)@ == start_route_link(old(state)@),
{
    let (start_node, end_node) = match &state.current_segment {
        Some(segment) => (segment.start_node, segment.end_node),
        None => (0, 0),
    };
    let link = RouteLinkRecord { start_node, end_node, segment_ids: Vec::new() };
    assert(link@.segment_ids =~= Seq::<u64>::empty());
    state.current_route_link = Some(link);
    push_text_target(state, TextTarget::RouteLinkSegmentId);
}

fn handle_named_start(state: &mut ParseState, name: &str, e: &XmlElement)
    ensures
        final(state)@ == start_named(old(state)@, name@, e@),
{
    if str_eq(name, "City") {
        push_text_target(state, TextTarget::City);
    } else if str_eq(name, "Generated") {
        push_text_target(state, TextTarget::Generated);
    } else if str_eq(name, "SeaLevel") {
        push_text_target(state, TextTarget::SeaLevel);
    } else if str_eq(name, "Name") && path_contains(state, "Seg") {
        push_text_target(state, TextTarget::SegmentName);
    } else if str_eq(name, "Name") && (path_contains(state, "Buil") || path_contains(state, "Park")) {
        push_text_target(state, TextTarget::AreaName);
    } else if str_eq(name, "type") && path_contains(state, "Park") {
        push_text_target(state, TextTarget::AreaType);
    } else if str_eq(name, "Ter") && path_contains(state, "Terrains") {
        push_text_target(state, TextTarget::TerrainData);
    } else if str_eq(name, "Forest") && path_contains(state, "Forests") {
        push_text_target(state, TextTarget::ForestRow);
    } else if str_eq(name, "Node") {
        state.current_node = Some(make_node_draft(e));
    } else if str_eq(name, "Pos") && path_contains(state, "Node") {
        handle_pos(state, e);
    } else if str_eq(name, "Seg") {
        state.current_segment = Some(make_segment_draft(e));
    } else if str_eq(name, "P") && (path_contains(state, "Seg") || path_contains(state, "Buil")
        || path_contains(state, "Park") || path_contains(state, "Dist")) {
        handle_point(state, e);
    } else if str_eq(name, "Buil") {
        state.current_area = Some(make_building_draft(e));
    } else if str_eq(name, "Park") {
        state.current_area = Some(make_park_draft(e));
    } else if str_eq(name, "Dist") {
        state.current_district = Some(make_district_draft(e));
    } else if str_eq(name, "Trans") {
        state.current_route = Some(make_route_draft(e));
    } else if str_eq(name, "color") && path_contains(state, "Trans") {
        handle_color(state, e);
    } else if str_eq(name, "Stop") && path_contains(state, "Trans") {
        handle_stop(state, e);
    } else if str_eq(name, "Sg") && path_contains(state, "Seg") {
        handle_route_link(state);
    }
}

/// An element starts: its name goes on the path and the element acts.
pub fn handle_start(state: &mut ParseState, e: &XmlElement)
    ensures
        final(state)@ == spec_start(old(state)@, e@),
{
    let name = local_name(e.name.as_slice());
    let ghost before = state@;
    state.path.push(name.clone());
    assert(texts(state.path@) =~= before.path.push(name@));
    handle_named_start(state, name.as_str(), e);
}

/// Text read inside an element goes to the buffer while a target is set.
pub open spec fn spec_text(s: StateView, bytes: Seq<u8>) -> StateView {
    if s.target is Some {
        StateView { text: s.text + utf8_lossy(bytes), ..s }
    } else {
        s
    }
}

/// The buffered text, trimmed, goes to the target, and the target is
/// cleared.
pub open spec fn spec_finish(s: StateView) -> StateView {
    let text = spec_trim(s.text);
    let s1 = match s.target {
        Some(TextTarget::City) => StateView {
            document: DocumentView {
                metadata: crate::model::MetadataView { city: text, ..s.document.metadata },
                ..s.document
            },
            ..s
        },
        Some(TextTarget::Generated) => StateView {
            document: DocumentView {
                metadata: crate::model::MetadataView {
                    generated: if text.len() == 0 {
                        None
                    } else {
                        Some(text)
                    },
                    ..s.document.metadata
                },
                ..s.document
            },
            ..s
        },
        Some(TextTarget::SeaLevel) => StateView {
            document: DocumentView {
                metadata: crate::model::MetadataView { sea_level: text, ..s.document.metadata },
                ..s.document
            },
            ..s
        },
        Some(TextTarget::SegmentName) => match s.segment {
            Some(seg) => if text.len() > 0 {
                StateView { segment: Some(SegmentView { name: Some(text), ..seg }), ..s }
            } else {
                s
            },
            None => s,
        },
        Some(TextTarget::AreaName) => match s.area {
            Some(a) => if text.len() > 0 {
                StateView { area: Some(AreaView { name: Some(text), ..a }), ..s }
            } else {
                s
            },
            None => s,
        },
        Some(TextTarget::AreaType) => match s.area {
            Some(a) => if text.len() > 0 {
                StateView { area: Some(AreaView { area_type: Some(text), ..a }), ..s }
            } else {
                s
            },
            None => s,
        },
        Some(TextTarget::RouteLinkSegmentId) => match s.route_link {
            Some(l) => match spec_parse_u64(Some(text)) {
                Some(id) => StateView {
                    route_link: Some(RouteLinkView { segment_ids: l.segment_ids.push(id), ..l }),
                    ..s
                },
                None => s,
            },
            None => s,
        },
        Some(TextTarget::TerrainData) => StateView {
            terrain: Some(or_text(s.terrain) + text),
            ..s
        },
        Some(TextTarget::ForestRow) => StateView {
            forest_row: Some(or_text(s.forest_row) + text),
            ..s
        },
        None => s,
    };
    StateView { target: None, text: Seq::empty(), ..s1 }
}

/// The element names whose end delivers buffered text.
pub open spec fn closes_text(name: Seq<char>) -> bool {
    name == "City"@ || name == "Generated"@ || name == "SeaLevel"@ || name == "Name"@ || name
        == "type"@ || name == "Sg"@ || name == "Ter"@ || name == "Forest"@
}

/// The end of a node adds it to the map if it was placed.
pub open spec fn end_node(s: StateView) -> StateView {
    match s.node {
        Some(d) => match d.position {
            Some(p) => StateView {
                node: None,
                document: DocumentView {
                    nodes: s.document.nodes.push(
                        NodeView {
                            id: d.id,
                            name: d.name,
                            position: p,
                            elevation: d.elevation,
                            elevation_hint: d.elevation_hint,
                            service: d.service,
                            subtype: d.subtype,
                            kind: spec_from_service(d.service, d.subtype),
                            underground: d.underground,
                            overground: d.overground,
                            dist: d.dist,
                        },
                    ),
                    bounds_order: s.document.bounds_order.push(RecordKind::Node),
                    ..s.document
                },
                ..s
            },
            None => StateView { node: None, ..s },
        },
        None => s,
    }
}

pub open spec fn end_segment(s: StateView) -> StateView {
    match s.segment {
        Some(seg) => StateView {
            segment: None,
            document: DocumentView {
                segments: s.document.segments.push(seg),
                bounds_order: s.document.bounds_order.push(RecordKind::Segment),
                ..s.document
            },
            ..s
        },
        None => s,
    }
}

pub open spec fn end_building(s: StateView) -> StateView {
    match s.area {
        Some(a) => StateView {
            area: None,
            document: DocumentView {
                buildings: s.document.buildings.push(a),
                bounds_order: s.document.bounds_order.push(RecordKind::Building),
                ..s.document
            },
            ..s
        },
        None => s,
    }
}

pub open spec fn end_park(s: StateView) -> StateView {
    match s.area {
        Some(a) => StateView {
            area: None,
            document: DocumentView {
                parks: s.document.parks.push(a),
                bounds_order: s.document.bounds_order.push(RecordKind::Park),
                ..s.document
            },
            ..s
        },
        None => s,
    }
}

/// The end of a district adds it to the map if it was anchored.
pub open spec fn end_district(s: StateView) -> StateView {
    match s.district {
        Some(d) => match d.anchor {
            Some(p) => StateView {
                district: None,
                document: DocumentView {
                    districts: s.document.districts.push(
                        DistrictView { id: d.id, name: d.name, anchor: p },
                    ),
                    bounds_order: s.document.bounds_order.push(RecordKind::District),
                    ..s.document
                },
                ..s
            },
            None => StateView { district: None, ..s },
        },
        None => s,
    }
}

pub open spec fn end_route(s: StateView) -> StateView {
    match s.route {
        Some(r) => StateView {
            route: None,
            document: DocumentView { transports: s.document.transports.push(r), ..s.document },
            ..s
        },
        None => s,
    }
}

/// The end of a route link adds it to the map if it names a segment.
pub open spec fn end_route_link(s: StateView) -> StateView {
    match s.route_link {
        Some(l) => if l.segment_ids.len() > 0 {
            StateView {
                route_link: None,
                document: DocumentView {
                    route_links: s.document.route_links.push(l),
                    ..s.document
                },
                ..s
            }
        } else {
            StateView { route_link: None, ..s }
        },
        None => s,
    }
}

/// The end of a terrain element makes its text the map's terrain.
pub open spec fn end_terrain(s: StateView) -> StateView {
    match s.terrain {
        Some(t) => StateView {
            terrain: None,
            document: DocumentView {
                terrain: Some(RasterView { kind: RasterKind::Terrain, packed: t, rows: Seq::empty() }),
                ..s.document
            },
            ..s
        },
        None => s,
    }
}

/// The end of a forest row adds the row to the map's forests.
pub open spec fn end_forest(s: StateView) -> StateView {
    match s.forest_row {
        Some(row) => StateView {
            forest_row: None,
            document: DocumentView {
                forests: Some(
                    match s.document.forests {
                        Some(f) => RasterView { rows: f.rows.push(row), ..f },
                        None => RasterView {
                            kind: RasterKind::Forest,
                            packed: Seq::empty(),
                            rows: seq![row],
                        },
                    },
                ),
                ..s.document
            },
            ..s
        },
        None => s,
    }
}

pub open spec fn end_named(s: StateView, name: Seq<char>) -> StateView {
    if name == "Node"@ {
        end_node(s)
    } else if name == "Seg"@ {
        end_segment(s)
    } else if name == "Buil"@ {
        end_building(s)
    } else if name == "Park"@ {
        end_park(s)
    } else if name == "Dist"@ {
        end_district(s)
    } else if name == "Trans"@ {
        end_route(s)
    } else if name == "Sg"@ {
        end_route_link(s)
    } else if name == "Ter"@ {
        end_terrain(s)
    } else if name == "Forest"@ {
        end_forest(s)
    } else {
        s
    }
}

/// An element ends: buffered text is delivered if the name closes it, the
/// element's record is completed, and the innermost name leaves the path.
pub open spec fn spec_end(s: StateView, name_bytes: Seq<u8>) -> StateView {
    let name = spec_local_name(name_bytes);
    let s1 = if s.target is Some && closes_text(name) {
        spec_finish(s)
    } else {
        s
    };
    let s2 = end_named(s1, name);
    StateView {
        path: if s2.path.len() > 0 {
            s2.path.drop_last()
        } else {
            s2.path
        },
        ..s2
    }
}

/// What one event does.
pub open spec fn spec_step(s: StateView, ev: EventView) -> StateView {
    match ev {
        EventView::Start(e) => spec_start(s, e),
        EventView::Empty(e) => spec_end(spec_start(s, e), e.name),
        EventView::End(n) => spec_end(s, n),
        EventView::Text(t) => spec_text(s, t),
    }
}

/// The state after a sequence of events.
pub open spec fn spec_run(events: Seq<EventView>) -> StateView
    decreases events.len(),
{
    if events.len() == 0 {
        initial_state()
    } else {
        spec_step(spec_run(events.drop_last()), events.last())
    }
}

/// The map that a sequence of events describes: read in order, it is a map
/// if it named a city.
pub open spec fn spec_parse(events: Seq<EventView>) -> Result<DocumentView, ParseError> {
    let s = spec_run(events);
    if s.document.metadata.city.len() == 0 {
        Err(ParseError::MissingCity)
    } else {
        Ok(s.document)
    }
}

/// Text of an element: buffered while a target is set.
pub fn handle_text(state: &mut ParseState, bytes: &[u8])
    ensures
        final(state)@ == spec_text(old(state)@, bytes@),
{
    let text = decode_lossy(bytes);
    if state.current_text_target.is_some() {
        state.text_buffer.append(text.as_str());
    }
}

fn append_or_start(slot: Option<String>, text: &str) -> (r: String)
    ensures
        r@ == or_text(opt_text(slot)) + text@,
{
    let mut s = match slot {
        Some(s) => s,
        None => String::new(),
    };
    s.append(text);
    s
}

fn finish_text_target(state: &mut ParseState)
    ensures
        final(state)@ == spec_finish(old(state)@),
{
    let text = trim(state.text_buffer.as_str());
    let target = state.current_text_target.take();
    match target {
        Some(TextTarget::City) => {
            state.document.metadata.city = text;
        },
        Some(TextTarget::Generated) => {
            if text.as_str().is_empty() {
                state.document.metadata.generated = None;
            } else {
                state.document.metadata.generated = Some(text);
            }
        },
        Some(TextTarget::SeaLevel) => {
            state.document.metadata.sea_level = text;
        },
        Some(TextTarget::SegmentName) => {
            match state.current_segment.take() {
                Some(mut segment) => {
                    if !text.as_str().is_empty() {
                        segment.name = Some(text);
                    }
                    state.current_segment = Some(segment);
                },
                None => {},
            }
        },
        Some(TextTarget::AreaName) => {
            match state.current_area.take() {
                Some(mut area) => {
                    if !text.as_str().is_empty() {
                        area.name = Some(text);
                    }
                    state.current_area = Some(area);
                },
                None => {},
            }
        },
        Some(TextTarget::AreaType) => {
            match state.current_area.take() {
                Some(mut area) => {
                    if !text.as_str().is_empty() {
                        area.area_type = Some(text);
                    }
                    state.current_area = Some(area);
                },
                None => {},
            }
        },
        Some(TextTarget::RouteLinkSegmentId) => {
            match state.current_route_link.take() {
                Some(mut link) => {
                    match parse_u64_text(text.as_str()) {
                        Some(id) => {
                            link.segment_ids.push(id);
                        },
                        None => {},
                    }
                    state.current_route_link = Some(link);
                },
                None => {},
            }
        },
        Some(TextTarget::TerrainData) => {
            let slot = state.current_terrain.take();
            state.current_terrain = Some(append_or_start(slot, text.as_str()));
        },
        Some(TextTarget::ForestRow) => {
            let slot = state.current_forest_row.take();
            state.current_forest_row = Some(append_or_start(slot, text.as_str()));
        },
        None => {},
    }
    state.text_buffer = String::new();
}

fn closes_text_name(name: &str) -> (r: bool)
    ensures
        r == closes_text(name@),
{
    str_eq(name, "City") || str_eq(name, "Generated") || str_eq(name, "SeaLevel") || str_eq(
        name,
        "Name",
    ) || str_eq(name, "type") || str_eq(name, "Sg") || str_eq(name, "Ter") || str_eq(
        name,
        "Forest",
    )
}

fn finish_node(state: &mut ParseState)
    ensures
        final(state)@ == end_node(old(state)@),
{
    match state.current_node.take() {
        Some(draft) => {
            match draft.position {
                Some(position) => {
                    let kind = parse_service_node_kind(draft.service.as_str(), draft.subtype.as_str());
                    let record = NodeRecord {
                        id: draft.id,
                        name: draft.name,
                        position,
                        elevation: draft.elevation,
                        elevation_hint: draft.elevation_hint,
                        service: draft.service,
                        subtype: draft.subtype,
                        kind,
                        underground: draft.underground,
                        overground: draft.overground,
                        dist: draft.dist,
                    };
                    let ghost before = state.document@;
                    let ghost rv = record@;
                    state.document.nodes.push(record);
                    state.document.bounds_order.push(RecordKind::Node);
                    assert(state.document@.nodes =~= before.nodes.push(rv));
                },
                None => {},
            }
        },
        None => {},
    }
}

fn finish_segment(state: &mut ParseState)
    ensures
        final(state)@ == end_segment(old(state)@),
{
    match state.current_segment.take() {
        Some(segment) => {
            let ghost before = state.document@;
            let ghost sv = segment@;
            state.document.segments.push(segment);
            state.document.bounds_order.push(RecordKind::Segment);
            assert(state.document@.segments =~= before.segments.push(sv));
        },
        None => {},
    }
}

fn finish_building(state: &mut ParseState)
    ensures
        final(state)@ == end_building(old(state)@),
{
    match state.current_area.take() {
        Some(area) => {
            let ghost before = state.document@;
            let ghost av = area@;
            state.document.buildings.push(area);
            state.document.bounds_order.push(RecordKind::Building);
            assert(state.document@.buildings =~= before.buildings.push(av));
        },
        None => {},
    }
}

fn finish_park(state: &mut ParseState)
    ensures
        final(state)@ == end_park(old(state)@),
{
    match state.current_area.take() {
        Some(area) => {
            let ghost before = state.document@;
            let ghost av = area@;
            state.document.parks.push(area);
            state.document.bounds_order.push(RecordKind::Park);
            assert(state.document@.parks =~= before.parks.push(av));
        },
        None => {},
    }
}

fn finish_district(state: &mut ParseState)
    ensures
        final(state)@ == end_district(old(state)@),
{
    match state.current_district.take() {
        Some(draft) => {
            match draft.anchor {
                Some(anchor) => {
                    let record = DistrictRecord { id: draft.id, name: draft.name, anchor };
                    let ghost before = state.document@;
                    let ghost dv = record@;
                    state.document.districts.push(record);
                    state.document.bounds_order.push(RecordKind::District);
                    assert(state.document@.districts =~= before.districts.push(dv));
                },
                None => {},
            }
        },
        None => {},
    }
}

fn finish_route(state: &mut ParseState)
    ensures
        final(state)@ == end_route(old(state)@),
{
    match state.current_route.take() {
        Some(route) => {
            let ghost before = state.document@;
            let ghost rv = route@;
            state.document.transports.push(route);
            assert(state.document@.transports =~= before.transports.push(rv));
        },
        None => {},
    }
}

fn finish_route_link(state: &mut ParseState)
    ensures
        final(state)@ == end_route_link(old(state)@),
{
    match state.current_route_link.take() {
        Some(link) => {
            if link.segment_ids.len() > 0 {
                let ghost before = state.document@;
                let ghost lv = link@;
                state.document.route_links.push(link);
                assert(state.document@.route_links =~= before.route_links.push(lv));
            }
        },
        None => {},
    }
}

fn finish_terrain(state: &mut ParseState)
    ensures
        final(state)@ == end_terrain(old(state)@),
{
    match state.current_terrain.take() {
        Some(text) => {
            let source = RasterSource { kind: RasterKind::Terrain, packed: text, rows: Vec::new() };
            assert(source@.rows =~= Seq::<Seq<char>>::empty());
            state.document.terrain = Some(source);
        },
        None => {},
    }
}

fn finish_forest(state: &mut ParseState)
    ensures
        final(state)@ == end_forest(old(state)@),
{
    match state.current_forest_row.take() {
        Some(row) => {
            let ghost rowv = row@;
            match state.document.forests.take() {
                Some(mut source) => {
                    let ghost before = source@;
                    source.rows.push(row);
                    assert(source@.rows =~= before.rows.push(rowv));
                    state.document.forests = Some(source);
                },
                None => {
                    let mut rows: Vec<String> = Vec::new();
                    rows.push(row);
                    let source = RasterSource { kind: RasterKind::Forest, packed: String::new(), rows };
                    assert(source@.rows =~= seq![rowv]);
                    state.document.forests = Some(source);
                },
            }
        },
        None => {},
    }
}

fn handle_named_end(state: &mut ParseState, name: &str)
    ensures
        final(state)@ == end_named(old(state)@, name@),
{
    if str_eq(name, "Node") {
        finish_node(state);
    } else if str_eq(name, "Seg") {
        finish_segment(state);
    } else if str_eq(name, "Buil") {
        finish_building(state);
    } else if str_eq(name, "Park") {
        finish_park(state);
    } else if str_eq(name, "Dist") {
        finish_district(state);
    } else if str_eq(name, "Trans") {
        finish_route(state);
    } else if str_eq(name, "Sg") {
        finish_route_link(state);
    } else if str_eq(name, "Ter") {
        finish_terrain(state);
    } else if str_eq(name, "Forest") {
        finish_forest(state);
    }
}

/// An element ends.
pub fn handle_end(state: &mut ParseState, name_bytes: &[u8])
    ensures
        final(state)@ == spec_end(old(state)@, name_bytes@),
{
    let name = local_name(name_bytes);
    if state.current_text_target.is_some() && closes_text_name(name.as_str()) {
        finish_text_target(state);
    }
    handle_named_end(state, name.as_str());
    let ghost before = state@;
    let _ = state.path.pop();
    assert(texts(state.path@) =~= if before.path.len() > 0 {
        before.path.drop_last()
    } else {
        before.path
    });
}

impl ParseState {
    /// The state before the first event.
    pub fn new() -> (s: Self)
        ensures
            s@ == initial_state(),
    {
        let s = ParseState {
            path: Vec::new(),
            current_text_target: None,
            text_buffer: String::new(),
            current_node: None,
            current_segment: None,
            current_area: None,
            current_district: None,
            current_route: None,
            current_route_link: None,
            current_terrain: None,
            current_forest_row: None,
            document: MapDocument::new(),
        };
        assert(texts(s.path@) =~= Seq::<Seq<char>>::empty());
        s
    }
}

/// One event.
pub fn handle_event(state: &mut ParseState, event: &XmlEvent)
    ensures
        final(state)@ == spec_step(old(state)@, event@),
{
    match event {
        XmlEvent::Start(e) => handle_start(state, e),
        XmlEvent::Empty(e) => {
            handle_start(state, e);
            handle_end(state, e.name.as_slice());
        },
        XmlEvent::End(name) => handle_end(state, name.as_slice()),
        XmlEvent::Text(text) => handle_text(state, text.as_slice()),
    }
}

/// The last check on a read map: it must name its city.
pub fn finalize(state: ParseState) -> (r: Result<MapDocument, ParseError>)
    ensures
        match r {
            Ok(d) => state@.document.metadata.city.len() > 0 && d@ == state@.document,
            Err(e) => state@.document.metadata.city.len() == 0 && e == ParseError::MissingCity,
        },
{
    if state.document.metadata.city.as_str().is_empty() {
        Err(ParseError::MissingCity)
    } else {
        Ok(state.document)
    }
}

/// Reads a map from the events of its file, in order.
pub fn parse_events(events: &[XmlEvent]) -> (r: Result<MapDocument, ParseError>)
    ensures
        match r {
            Ok(d) => spec_parse(events@.map_values(|e: XmlEvent| e@)) == Ok::<DocumentView, ParseError>(d@),
            Err(e) => spec_parse(events@.map_values(|e: XmlEvent| e@)) == Err::<DocumentView, ParseError>(e),
        },
{
    let ghost evs = events@.map_values(|e: XmlEvent| e@);
    let mut state = ParseState::new();
    assert(evs.take(0) =~= Seq::<EventView>::empty());
    for i in 0..events.len()
        invariant
            evs == events@.map_values(|e: XmlEvent| e@),
            state@ == spec_run(evs.take(i as int)),
    {
        handle_event(&mut state, &events[i]);
        assert(evs.take(i + 1).drop_last() =~= evs.take(i as int));
        assert(evs.take(i + 1).last() == events@[i as int]@);
    }
    assert(evs.take(events.len() as int) =~= evs);
    finalize(state)
}

/// How many records of kind `k` an order lists.
pub open spec fn count_kind(order: Seq<RecordKind>, k: RecordKind) -> nat
    decreases order.len(),
{
    if order.len() == 0 {
        0
    } else {
        count_kind(order.drop_last(), k) + if order.last() == k {
            1nat
        } else {
            0nat
        }
    }
}

/// A segment's flags are the ones its class text names, whatever its case:
/// underground for a tunnel; overground for an elevated road or a bridge;
/// an elevation hint for those and for a ramp.
pub open spec fn flags_follow_text(seg: SegmentView) -> bool {
    let lower = spec_lower(seg.raw_class);
    &&& seg.underground == spec_contains(lower, "tunnel"@)
    &&& seg.overground == (spec_contains(lower, "elevated"@) || spec_contains(lower, "bridge"@))
    &&& seg.elevated_hint == (spec_contains(lower, "elevated"@) || spec_contains(lower, "bridge"@)
        || spec_contains(lower, "ramp"@))
}

/// A read map is consistent: its bounds order lists each record once, by
/// kind; each route link names at least one segment; each node's kind and
/// each segment's class and flags are the ones their texts give.
pub open spec fn doc_consistent(d: DocumentView) -> bool {
    &&& count_kind(d.bounds_order, RecordKind::Node) == d.nodes.len()
    &&& count_kind(d.bounds_order, RecordKind::Segment) == d.segments.len()
    &&& count_kind(d.bounds_order, RecordKind::Building) == d.buildings.len()
    &&& count_kind(d.bounds_order, RecordKind::Park) == d.parks.len()
    &&& count_kind(d.bounds_order, RecordKind::District) == d.districts.len()
    &&& forall|i: int|
        0 <= i < d.route_links.len() ==> (#[trigger] d.route_links[i]).segment_ids.len() > 0
    &&& forall|i: int|
        0 <= i < d.nodes.len() ==> (#[trigger] d.nodes[i]).kind == spec_from_service(
            d.nodes[i].service,
            d.nodes[i].subtype,
        )
    &&& forall|i: int|
        0 <= i < d.segments.len() ==> (#[trigger] d.segments[i]).class == spec_from_icls(
            d.segments[i].raw_class,
        )
    &&& forall|i: int| 0 <= i < d.segments.len() ==> flags_follow_text(#[trigger] d.segments[i])
}

pub open spec fn state_consistent(s: StateView) -> bool {
    &&& doc_consistent(s.document)
    &&& s.segment matches Some(seg) ==> seg.class == spec_from_icls(seg.raw_class)
    &&& s.segment matches Some(seg) ==> flags_follow_text(seg)
}

proof fn lemma_count_push(order: Seq<RecordKind>, x: RecordKind)
    ensures
        forall|k: RecordKind|
            #[trigger] count_kind(order.push(x), k) == count_kind(order, k) + if x == k {
                1nat
            } else {
                0nat
            },
{
    assert(order.push(x).drop_last() =~= order);
}

proof fn lemma_start_consistent(s: StateView, e: ElementView)
    requires
        state_consistent(s),
    ensures
        state_consistent(spec_start(s, e)),
        spec_start(s, e).document == s.document,
{
}

proof fn lemma_finish_consistent(s: StateView)
    requires
        state_consistent(s),
    ensures
        state_consistent(spec_finish(s)),
{
    let t = spec_finish(s);
    assert(t.document.nodes == s.document.nodes);
    assert(t.document.segments == s.document.segments);
    assert(t.document.route_links == s.document.route_links);
    assert(t.document.bounds_order == s.document.bounds_order);
}

proof fn lemma_end_named_consistent(s: StateView, name: Seq<char>)
    requires
        state_consistent(s),
    ensures
        state_consistent(end_named(s, name)),
{
    let d = s.document;
    lemma_count_push(d.bounds_order, RecordKind::Node);
    lemma_count_push(d.bounds_order, RecordKind::Segment);
    lemma_count_push(d.bounds_order, RecordKind::Building);
    lemma_count_push(d.bounds_order, RecordKind::Park);
    lemma_count_push(d.bounds_order, RecordKind::District);
    let t = end_named(s, name);
    if name == "Node"@ {
        if let Some(dr) = s.node {
            if let Some(p) = dr.position {
                assert forall|i: int| 0 <= i < t.document.nodes.len() implies (#[trigger] t.document.nodes[i]).kind
                    == spec_from_service(t.document.nodes[i].service, t.document.nodes[i].subtype) by {
                    if i < d.nodes.len() {
                        assert(t.document.nodes[i] == d.nodes[i]);
                    }
                }
            }
        }
    } else if name == "Seg"@ {
        if let Some(seg) = s.segment {
            assert forall|i: int| 0 <= i < t.document.segments.len() implies (#[trigger] t.document.segments[i]).class
                == spec_from_icls(t.document.segments[i].raw_class) by {
                if i < d.segments.len() {
                    assert(t.document.segments[i] == d.segments[i]);
                }
            }
        }
    } else if name == "Sg"@ {
        if let Some(l) = s.route_link {
            if l.segment_ids.len() > 0 {
                assert forall|i: int| 0 <= i < t.document.route_links.len() implies (#[trigger] t.document.route_links[i]).segment_ids.len() > 0 by {
                    if i < d.route_links.len() {
                        assert(t.document.route_links[i] == d.route_links[i]);
                    }
                }
            }
        }
    }
}

proof fn lemma_step_consistent(s: StateView, ev: EventView)
    requires
        state_consistent(s),
    ensures
        state_consistent(spec_step(s, ev)),
{
    match ev {
        EventView::Start(e) => {
            lemma_start_consistent(s, e);
        },
        EventView::Empty(e) => {
            lemma_start_consistent(s, e);
            lemma_end_consistent(spec_start(s, e), e.name);
        },
        EventView::End(n) => {
            lemma_end_consistent(s, n);
        },
        EventView::Text(t) => {
        },
    }
}

proof fn lemma_end_consistent(s: StateView, name_bytes: Seq<u8>)
    requires
        state_consistent(s),
    ensures
        state_consistent(spec_end(s, name_bytes)),
{
    let name = spec_local_name(name_bytes);
    let s1 = if s.target is Some && closes_text(name) {
        spec_finish(s)
    } else {
        s
    };
    if s.target is Some && closes_text(name) {
        lemma_finish_consistent(s);
    }
    lemma_end_named_consistent(s1, name);
}

proof fn lemma_run_consistent(events: Seq<EventView>)
    ensures
        state_consistent(spec_run(events)),
    decreases events.len(),
{
    if events.len() == 0 {
        assert(initial_state().document.bounds_order =~= Seq::<RecordKind>::empty());
    } else {
        lemma_run_consistent(events.drop_last());
        lemma_step_consistent(spec_run(events.drop_last()), events.last());
    }
}

/// Every map read from a sequence of events is consistent: its bounds
/// order lists each record exactly once, by kind; every route link names at
/// least one segment; every node's kind is the one its service texts give;
/// and every segment's class and its underground, overground and elevation
/// flags are the ones its class text gives (a tunnel is underground, an
/// elevated road or a bridge overground).
pub proof fn law_parsed_map_consistent(events: Seq<EventView>)
    ensures
        spec_parse(events) matches Ok(d) ==> doc_consistent(d),
{
    lemma_run_consistent(events);
}

/// A segment element opens a segment whose class text is its `icls`
/// attribute, and whose flags follow that text: a tunnel is underground,
/// an elevated road or a bridge is overground.
pub proof fn law_segment_start_reads_flags(s: StateView, e: ElementView)
    requires
        spec_local_name(e.name) == "Seg"@,
    ensures
        spec_start(s, e).segment matches Some(seg) && seg.raw_class == or_text(
            spec_attr_value(e, "icls"@),
        ) && flags_follow_text(seg),
{
    let name = spec_local_name(e.name);
    let s1 = StateView { path: s.path.push(name), ..s };
    assert(name != "City"@) by {
        reveal_strlit("Seg");
        reveal_strlit("City");
        assert(name.len() == 3);
        assert("City"@.len() == 4);
    }
    assert(name != "Generated"@) by {
        reveal_strlit("Seg");
        reveal_strlit("Generated");
        assert(name.len() == 3);
        assert("Generated"@.len() == 9);
    }
    assert(name != "SeaLevel"@) by {
        reveal_strlit("Seg");
        reveal_strlit("SeaLevel");
        assert(name.len() == 3);
        assert("SeaLevel"@.len() == 8);
    }
    assert(name != "Name"@) by {
        reveal_strlit("Seg");
        reveal_strlit("Name");
        assert(name.len() == 3);
        assert("Name"@.len() == 4);
    }
    assert(name != "type"@) by {
        reveal_strlit("Seg");
        reveal_strlit("type");
        assert(name.len() == 3);
        assert("type"@.len() == 4);
    }
    assert(name != "Ter"@) by {
        reveal_strlit("Seg");
        reveal_strlit("Ter");
        assert(name.len() == 3);
        assert("Ter"@.len() == 3);
        assert(name[0] != "Ter"@[0]);
    }
    assert(name != "Forest"@) by {
        reveal_strlit("Seg");
        reveal_strlit("Forest");
        assert(name.len() == 3);
        assert("Forest"@.len() == 6);
    }
    assert(name != "Node"@) by {
        reveal_strlit("Seg");
        reveal_strlit("Node");
        assert(name.len() == 3);
        assert("Node"@.len() == 4);
    }
    assert(name != "Pos"@) by {
        reveal_strlit("Seg");
        reveal_strlit("Pos");
        assert(name.len() == 3);
        assert("Pos"@.len() == 3);
        assert(name[0] != "Pos"@[0]);
    }
    assert(spec_start(s, e) == StateView { segment: Some(segment_draft(e)), ..s1 });
}

/// An element's start followed by its end leaves the open-element path as
/// it was.
pub proof fn law_element_restores_path(s: StateView, e: ElementView)
    ensures
        spec_end(spec_start(s, e), e.name).path == s.path,
{
    let s1 = spec_start(s, e);
    let name = spec_local_name(e.name);
    assert(s1.path == s.path.push(name));
    let s2 = if s1.target is Some && closes_text(name) {
        spec_finish(s1)
    } else {
        s1
    };
    assert(s2.path == s1.path);
    assert(end_named(s2, name).path == s2.path);
    assert(s.path.push(name).drop_last() =~= s.path);
}

} // verus!
