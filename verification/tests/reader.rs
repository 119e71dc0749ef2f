use cslview::xml::tokenize;
use cslview::parser::{handle_start, TextTarget};
use cslview::model::{NodeKind, RasterKind, RecordKind, SegmentClass, TransportKind};
use cslview::parser::{
    handle_event, local_name, parse_bool, parse_events, parse_u64, ParseError, ParseState,
    XmlAttribute, XmlElement, XmlEvent,
};

fn attr(key: &str, value: &str) -> XmlAttribute {
    XmlAttribute {
        key: key.as_bytes().to_vec(),
        value: value.as_bytes().to_vec(),
        number: value.parse::<f32>().ok().map(f32::to_bits),
    }
}

fn element(name: &str, attrs: &[(&str, &str)]) -> XmlElement {
    XmlElement {
        name: name.as_bytes().to_vec(),
        attributes: attrs.iter().map(|(k, v)| attr(k, v)).collect(),
    }
}

fn start(name: &str, attrs: &[(&str, &str)]) -> XmlEvent {
    XmlEvent::Start(element(name, attrs))
}

fn empty(name: &str, attrs: &[(&str, &str)]) -> XmlEvent {
    XmlEvent::Empty(element(name, attrs))
}

fn end(name: &str) -> XmlEvent {
    XmlEvent::End(name.as_bytes().to_vec())
}

fn text(t: &str) -> XmlEvent {
    XmlEvent::Text(t.as_bytes().to_vec())
}

fn bits(v: f32) -> u32 {
    v.to_bits()
}

fn sample_events() -> Vec<XmlEvent> {
    vec![
        start("CSLMap", &[]),
        text("ignored"),
        start("City", &[]),
        text("Spring"),
        text("field "),
        end("City"),
        start("Generated", &[]),
        text("2024"),
        end("Generated"),
        start("SeaLevel", &[]),
        text(" 40.5 "),
        end("SeaLevel"),
        start("Nodes", &[]),
        start("Node", &[("id", "1"), ("srv", "Road"), ("ug", "true"), ("dist", "3")]),
        empty("Pos", &[("x", "10"), ("y", "5"), ("z", "20")]),
        end("Node"),
        start("Node", &[("id", "2"), ("srv", "PublicTransport"), ("subsrv", "PublicTransportTrain"), ("og", "1")]),
        empty("Pos", &[("x", "1"), ("y", "2"), ("z", "-3")]),
        end("Node"),
        start("Node", &[("id", "3"), ("srv", "Water")]),
        end("Node"),
        start("Node", &[("id", "4"), ("srv", "Water")]),
        empty("Pos", &[("x", "7")]),
        end("Node"),
        end("Nodes"),
        start("Segs", &[]),
        start("Seg", &[("id", "7"), ("sn", "1"), ("en", "2"), ("icls", "Large Road Bridge"), ("width", "12")]),
        start("Name", &[]),
        text(" Main St "),
        end("Name"),
        empty("P", &[("x", "0"), ("y", "1"), ("z", "2")]),
        empty("P", &[("x", "a"), ("y", "1"), ("z", "2")]),
        empty("P", &[("x", "3"), ("y", "4"), ("z", "5")]),
        start("Sg", &[]),
        text("7"),
        end("Sg"),
        start("Sg", &[]),
        text("seven"),
        end("Sg"),
        end("Seg"),
        end("Segs"),
        start("Buils", &[]),
        start("Buil", &[("id", "9"), ("srv", "Residential"), ("subsrv", "ResidentialLowEco")]),
        start("Name", &[]),
        text("Home"),
        end("Name"),
        empty("P", &[("x", "0"), ("y", "0"), ("z", "0")]),
        empty("P", &[("x", "1"), ("y", "6"), ("z", "1")]),
        empty("P", &[("x", "2"), ("y", "9"), ("z", "1")]),
        end("Buil"),
        end("Buils"),
        start("Parks", &[]),
        start("Park", &[("id", "11")]),
        start("type", &[]),
        text("Forestry"),
        end("type"),
        empty("P", &[("x", "1"), ("z", "1"), ("y", "3")]),
        end("Park"),
        end("Parks"),
        start("Dists", &[]),
        start("Dist", &[("id", "5"), ("name", "Downtown")]),
        empty("P", &[("x", "4"), ("z", "4")]),
        empty("P", &[("x", "8"), ("z", "8")]),
        end("Dist"),
        start("Dist", &[("id", "6"), ("name", "Nowhere")]),
        end("Dist"),
        end("Dists"),
        start("Trans", &[("id", "L1"), ("name", "Line 1"), ("type", "Metro"), ("r", "10")]),
        empty("color", &[("g", "20"), ("b", "300")]),
        empty("Stop", &[("node", "1")]),
        empty("Stop", &[("node", "2")]),
        empty("Stop", &[("node", "x")]),
        end("Trans"),
        start("Sg", &[]),
        text("8"),
        end("Sg"),
        start("P", &[]),
        text("9"),
        end("P"),
        start("Terrains", &[]),
        start("Ter", &[]),
        text("1,2:3"),
        end("Ter"),
        end("Terrains"),
        start("Forests", &[]),
        start("Forest", &[]),
        text("0.1,0.2"),
        end("Forest"),
        start("Forest", &[]),
        text("0.3"),
        end("Forest"),
        end("Forests"),
        end("CSLMap"),
    ]
}

#[test]
fn reads_metadata() {
    let doc = parse_events(&sample_events()).unwrap();
    assert_eq!(doc.metadata.city, "Springfield");
    assert_eq!(doc.metadata.generated.as_deref(), Some("2024"));
    assert_eq!(doc.metadata.sea_level, "40.5");
}

#[test]
fn reads_nodes() {
    let doc = parse_events(&sample_events()).unwrap();
    assert_eq!(doc.nodes.len(), 3);
    let first = &doc.nodes[0];
    assert_eq!(first.id, 1);
    assert_eq!(first.position.x, bits(10.0));
    assert_eq!(first.position.y, bits(-20.0));
    assert_eq!(first.elevation, bits(5.0));
    assert!(first.underground);
    assert!(!first.overground);
    assert_eq!(first.dist, Some(3));
    assert_eq!(first.kind, NodeKind::Road);
    let second = &doc.nodes[1];
    assert_eq!(second.kind, NodeKind::TrainStation);
    assert_eq!(second.position.y, bits(3.0));
    assert!(second.overground);
    let fourth = &doc.nodes[2];
    assert_eq!(fourth.id, 4);
    assert_eq!(fourth.position.x, bits(7.0));
    assert_eq!(fourth.position.y, bits(-0.0));
    assert_eq!(fourth.elevation, 0);
}

#[test]
fn reads_segments() {
    let doc = parse_events(&sample_events()).unwrap();
    assert_eq!(doc.segments.len(), 1);
    let seg = &doc.segments[0];
    assert_eq!(seg.id, 7);
    assert_eq!((seg.start_node, seg.end_node), (1, 2));
    assert_eq!(seg.name.as_deref(), Some("Main St"));
    assert_eq!(seg.class, SegmentClass::LargeRoad);
    assert_eq!(seg.raw_class, "Large Road Bridge");
    assert_eq!(seg.width, bits(12.0));
    assert!(seg.overground && seg.elevated_hint && !seg.underground);
    assert_eq!(seg.points.len(), 2);
    assert_eq!(seg.points[0].position.x, bits(0.0));
    assert_eq!(seg.points[0].position.y, bits(-2.0));
    assert_eq!(seg.points[0].elevation, bits(1.0));
    assert_eq!(seg.points[1].position.x, bits(3.0));
}

#[test]
fn reads_areas() {
    let doc = parse_events(&sample_events()).unwrap();
    assert_eq!(doc.buildings.len(), 1);
    let b = &doc.buildings[0];
    assert_eq!(b.name.as_deref(), Some("Home"));
    assert_eq!(b.service, "Residential");
    assert_eq!(b.subtype, "ResidentialLowEco");
    assert_eq!(b.points.len(), 3);
    // The first point's elevation is zero, so the second point sets it.
    assert_eq!(b.elevation, bits(6.0));
    assert_eq!(doc.parks.len(), 1);
    let p = &doc.parks[0];
    assert_eq!(p.service, "Park");
    assert_eq!(p.area_type.as_deref(), Some("Forestry"));
    assert_eq!(p.elevation, bits(3.0));
}

#[test]
fn reads_districts_lines_and_links() {
    let doc = parse_events(&sample_events()).unwrap();
    assert_eq!(doc.districts.len(), 1);
    assert_eq!(doc.districts[0].name, "Downtown");
    assert_eq!(doc.districts[0].anchor.x, bits(4.0));
    assert_eq!(doc.districts[0].anchor.y, bits(-4.0));
    assert_eq!(doc.transports.len(), 1);
    let line = &doc.transports[0];
    assert_eq!(line.id, "L1");
    assert_eq!(line.kind, TransportKind::Metro);
    assert_eq!((line.color.r, line.color.g, line.color.b, line.color.a), (10, 20, 128, 255));
    assert_eq!(line.stops, vec![1, 2]);
    assert_eq!(doc.route_links.len(), 1);
    assert_eq!(doc.route_links[0].segment_ids, vec![7]);
    assert_eq!((doc.route_links[0].start_node, doc.route_links[0].end_node), (1, 2));
}

#[test]
fn reads_rasters() {
    let doc = parse_events(&sample_events()).unwrap();
    let terrain = doc.terrain.as_ref().unwrap();
    assert_eq!(terrain.kind, RasterKind::Terrain);
    assert_eq!(terrain.packed, "1,2:3");
    assert!(terrain.rows.is_empty());
    let forests = doc.forests.as_ref().unwrap();
    assert_eq!(forests.kind, RasterKind::Forest);
    assert_eq!(forests.rows, vec![String::from("0.1,0.2"), String::from("0.3")]);
}

#[test]
fn bounds_order_lists_each_record_once() {
    let doc = parse_events(&sample_events()).unwrap();
    assert_eq!(
        doc.bounds_order,
        vec![
            RecordKind::Node,
            RecordKind::Node,
            RecordKind::Node,
            RecordKind::Segment,
            RecordKind::Building,
            RecordKind::Park,
            RecordKind::District,
        ]
    );
    let count = |k: RecordKind| doc.bounds_order.iter().filter(|x| **x == k).count();
    assert_eq!(count(RecordKind::Node), doc.nodes.len());
    assert_eq!(count(RecordKind::Segment), doc.segments.len());
    assert_eq!(count(RecordKind::Building), doc.buildings.len());
    assert_eq!(count(RecordKind::Park), doc.parks.len());
    assert_eq!(count(RecordKind::District), doc.districts.len());
    assert!(doc.route_links.iter().all(|l| !l.segment_ids.is_empty()));
}

#[test]
fn missing_city_is_an_error() {
    let events = vec![start("CSLMap", &[]), start("City", &[]), text("   "), end("City"), end("CSLMap")];
    let err = parse_events(&events).err().unwrap();
    assert_eq!(err, ParseError::MissingCity);
    assert_eq!(err.message(), "missing City tag in CSL export");
    assert!(parse_events(&Vec::new()).is_err());
}

#[test]
fn element_restores_path() {
    let mut state = ParseState::new();
    handle_event(&mut state, &start("CSLMap", &[]));
    handle_event(&mut state, &start("Seg", &[("id", "1")]));
    assert_eq!(state.path, vec![String::from("CSLMap"), String::from("Seg")]);
    handle_event(&mut state, &empty("P", &[("x", "1"), ("y", "1"), ("z", "1")]));
    assert_eq!(state.path, vec![String::from("CSLMap"), String::from("Seg")]);
    handle_event(&mut state, &end("Seg"));
    assert_eq!(state.path, vec![String::from("CSLMap")]);
    handle_event(&mut state, &end("CSLMap"));
    handle_event(&mut state, &end("Extra"));
    assert!(state.path.is_empty());
}

#[test]
fn names_are_decoded_lossily() {
    assert_eq!(local_name(b"Node"), "Node");
    assert_eq!(local_name(&[0x43, 0xff]), "C\u{fffd}");
    assert_eq!(local_name(&[]), "");
}

#[test]
fn attribute_helpers() {
    assert!(parse_bool(Some(String::from("true"))));
    assert!(parse_bool(Some(String::from("1"))));
    assert!(!parse_bool(Some(String::from("True"))));
    assert!(!parse_bool(None));
    assert_eq!(parse_u64(Some(String::from("12"))), Some(12));
    assert_eq!(parse_u64(Some(String::from("x"))), None);
    assert_eq!(parse_u64(None), None);
}

#[test]
fn sg_inside_a_segment_opens_a_route_link() {
    let mut state = ParseState::new();
    handle_start(&mut state, &element("Seg", &[("id", "9"), ("sn", "2"), ("en", "3")]));
    handle_start(&mut state, &element("Sg", &[]));
    assert_eq!(state.path, vec!["Seg".to_string(), "Sg".to_string()]);
    let link = state.current_route_link.as_ref().expect("a route link is open");
    assert_eq!((link.start_node, link.end_node), (2, 3));
    assert!(link.segment_ids.is_empty());
    assert_eq!(state.current_text_target, Some(TextTarget::RouteLinkSegmentId));
    assert!(state.text_buffer.is_empty());

    // Outside a segment, neither `Sg` nor `P` opens one.
    let mut state = ParseState::new();
    handle_start(&mut state, &element("Sg", &[]));
    handle_start(&mut state, &element("P", &[]));
    assert!(state.current_route_link.is_none());
    assert_eq!(state.current_text_target, None);
}

fn raw(name: &str, attrs: &[(&str, &str)]) -> XmlElement {
    XmlElement {
        name: name.as_bytes().to_vec(),
        attributes: attrs
            .iter()
            .map(|(k, v)| XmlAttribute { key: k.as_bytes().to_vec(), value: v.as_bytes().to_vec(), number: None })
            .collect(),
    }
}

#[test]
fn tokenizer_reads_starts_ends_and_trimmed_texts() {
    let xml = br#"<?xml version="1.0"?><!-- note --><Map><City>  Springfield  </City><Seg id="1" sn="2" en="3"><Sg>42</Sg></Seg><Pt x="1.5"/><![CDATA[ raw ]]></Map>"#;
    let events = tokenize(xml).expect("well-formed");
    let expected = vec![
        XmlEvent::Start(raw("Map", &[])),
        XmlEvent::Start(raw("City", &[])),
        XmlEvent::Text(b"Springfield".to_vec()),
        XmlEvent::End(b"City".to_vec()),
        XmlEvent::Start(raw("Seg", &[("id", "1"), ("sn", "2"), ("en", "3")])),
        XmlEvent::Start(raw("Sg", &[])),
        XmlEvent::Text(b"42".to_vec()),
        XmlEvent::End(b"Sg".to_vec()),
        XmlEvent::End(b"Seg".to_vec()),
        XmlEvent::Empty(raw("Pt", &[("x", "1.5")])),
        XmlEvent::Text(b" raw ".to_vec()),
        XmlEvent::End(b"Map".to_vec()),
    ];
    assert_eq!(events, expected);
    assert!(tokenize(b"").expect("empty input").is_empty());
}

#[test]
fn tokenizer_reports_malformed_xml() {
    assert_eq!(tokenize(b"<a></b>").unwrap_err(), ParseError::MalformedXml);
    assert_eq!(ParseError::MalformedXml.message(), "failed to parse CSL XML");
}

#[test]
fn bytes_to_map() {
    let xml = br#"<CSLMapView><City>Town</City><SeaLevel> 40 </SeaLevel>
        <Segs><Seg id="7" sn="1" en="2" icls="Small Road" width="8">
          <P x="1" y="2" z="3"/><Sg>70</Sg><Sg>71</Sg></Seg></Segs></CSLMapView>"#;
    let mut events = tokenize(xml).unwrap();
    for event in &mut events {
        if let XmlEvent::Start(e) | XmlEvent::Empty(e) = event {
            for a in &mut e.attributes {
                a.number = String::from_utf8_lossy(&a.value).parse::<f32>().ok().map(f32::to_bits);
            }
        }
    }
    let doc = parse_events(&events).unwrap();
    assert_eq!(doc.metadata.city, "Town");
    assert_eq!(doc.metadata.sea_level, "40");
    assert_eq!(doc.segments.len(), 1);
    assert_eq!(doc.segments[0].class, SegmentClass::SmallRoad);
    assert_eq!(doc.segments[0].points.len(), 1);
    assert_eq!(doc.segments[0].points[0].position.y, bits(-3.0));
    assert_eq!(doc.route_links.len(), 2);
    assert_eq!(doc.route_links[1].segment_ids, vec![71]);
    assert_eq!((doc.route_links[0].start_node, doc.route_links[0].end_node), (1, 2));
}
