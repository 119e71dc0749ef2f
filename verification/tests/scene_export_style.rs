use cslview::export::{
    default_output_path, district_mode_label, export_extension, export_path, parse_frame,
    DistrictMode, ExportKind, MapMode,
};
use cslview::model::{
    ElevationState, NodeKind, RgbaColor, RouteLinkRecord, SegmentClass, TransportKind,
    TransportRecord,
};
use cslview::navigation::{action_label, hint_active, input_key, nav_action, NavAction, NavInput};
use cslview::scene::{index_by_id, position_of_id, route_links_for_route};
use cslview::style::{
    building_palette, node_letter, node_shape, park_palette, segment_dash, BuildingPalette,
    NodeShape, ParkPalette, SegmentDash,
};
use cslview::svg::{escape_xml, road_layer, RoadLayer};
use cslview::theme::{ColorSpec, TerrainPalette};

fn line(stops: &[u64]) -> TransportRecord {
    TransportRecord {
        id: "7".to_string(),
        name: "Blue line".to_string(),
        kind: TransportKind::Metro,
        color: RgbaColor::rgb(0, 0, 255),
        stops: stops.to_vec(),
    }
}

fn link(start: u64, end: u64) -> RouteLinkRecord {
    RouteLinkRecord { start_node: start, end_node: end, segment_ids: vec![start * 10 + end] }
}

#[test]
fn index_by_id_keeps_the_last_position() {
    let index = index_by_id(&vec![5, 9, 5, 2]);
    assert_eq!(index.len(), 3);
    assert_eq!(index.get(&5), Some(&2));
    assert_eq!(index.get(&9), Some(&1));
    assert_eq!(index.get(&2), Some(&3));
    assert_eq!(index.get(&4), None);
    assert!(index_by_id(&Vec::new()).is_empty());
}

#[test]
fn position_of_id_finds_the_first() {
    let ids = vec![3, 8, 3, 1];
    assert_eq!(position_of_id(&ids, 3), Some(0));
    assert_eq!(position_of_id(&ids, 1), Some(3));
    assert_eq!(position_of_id(&ids, 4), None);
    assert_eq!(position_of_id(&Vec::new(), 4), None);
}

#[test]
fn route_links_follow_consecutive_stops() {
    let links = vec![link(1, 2), link(2, 1), link(2, 3), link(3, 4), link(1, 3), link(2, 3)];
    assert_eq!(route_links_for_route(&line(&[1, 2, 3]), &links), vec![0, 2, 5]);
    assert_eq!(route_links_for_route(&line(&[3, 2, 1]), &links), vec![1]);
    assert!(route_links_for_route(&line(&[2]), &links).is_empty());
    assert!(route_links_for_route(&line(&[]), &links).is_empty());
    assert!(route_links_for_route(&line(&[1, 2]), &Vec::new()).is_empty());
}

#[test]
fn map_mode_index_round_trip() {
    for mode in [MapMode::Colour, MapMode::Planning, MapMode::Contour] {
        assert_eq!(MapMode::from_index(mode.index()), mode);
    }
    assert_eq!(MapMode::Colour.index(), 0);
    assert_eq!(MapMode::Planning.index(), 1);
    assert_eq!(MapMode::Contour.index(), 2);
    assert_eq!(MapMode::from_index(3), MapMode::Colour);
    assert_eq!(MapMode::from_index(255), MapMode::Colour);
    assert_eq!(MapMode::default(), MapMode::Colour);
    assert_eq!(MapMode::Colour.label(), "Colour");
    assert_eq!(MapMode::Planning.label(), "Planning");
    assert_eq!(MapMode::Contour.label(), "Contour");
}

#[test]
fn district_mode_labels() {
    assert_eq!(district_mode_label(DistrictMode::Badge), "Badge");
    assert_eq!(district_mode_label(DistrictMode::Halo), "Halo");
    assert_eq!(district_mode_label(DistrictMode::Label), "Label");
    assert_eq!(district_mode_label(DistrictMode::Outline), "Outline");
}

#[test]
fn export_paths_take_the_format_extension() {
    assert_eq!(export_extension(ExportKind::Svg), "svg");
    assert_eq!(export_extension(ExportKind::Png), "png");
    assert_eq!(export_extension(ExportKind::Pdf), "pdf");
    assert_eq!(export_path("maps/city.xml", ExportKind::Png), "maps/city.png");
    assert_eq!(export_path("maps/city.xml", ExportKind::Svg), "maps/city.svg");
    assert_eq!(export_path("city.pdf", ExportKind::Pdf), "city.pdf");
    assert_eq!(export_path("city", ExportKind::Svg), "city.svg");
    assert_eq!(export_path("archive.tar.gz", ExportKind::Pdf), "archive.tar.pdf");
    assert_eq!(default_output_path("maps/city.xml", ExportKind::Pdf), "maps/city.pdf");
    assert_eq!(default_output_path("city", ExportKind::Png), "city.png");
}

#[test]
fn frame_fields_are_the_first_four_non_blank() {
    let fields = |v: &str| parse_frame(Some(v));
    assert_eq!(fields("1,2,3,4"), Some(vec!["1".to_string(), "2".into(), "3".into(), "4".into()]));
    assert_eq!(
        fields("  -10.5 , 0,, 20 ,\t7.25 ,99"),
        Some(vec!["-10.5".to_string(), "0".into(), "20".into(), "7.25".into()])
    );
    assert_eq!(fields("1,2,3"), None);
    assert_eq!(fields("1, ,2,  ,3"), None);
    assert_eq!(fields(""), None);
    assert_eq!(parse_frame(None), None);
    assert_eq!(fields("a,b,c,d"), Some(vec!["a".to_string(), "b".into(), "c".into(), "d".into()]));
}

#[test]
fn escape_xml_replaces_markup() {
    assert_eq!(escape_xml("a < b & c > \"d\" 'e'"), "a &lt; b &amp; c &gt; &quot;d&quot; &apos;e&apos;");
    assert_eq!(escape_xml("&amp;"), "&amp;amp;");
    assert_eq!(escape_xml("plain"), "plain");
    assert_eq!(escape_xml(""), "");
    let text = "R&D <Park> \"Ö\" 'x'";
    let plain = text
        .replace('&', "&amp;")
        .replace('<', "&lt;")
        .replace('>', "&gt;")
        .replace('"', "&quot;")
        .replace('\'', "&apos;");
    assert_eq!(escape_xml(text), plain);
}

#[test]
fn road_layers_by_class() {
    assert_eq!(road_layer(&SegmentClass::Highway), RoadLayer::Highways);
    assert_eq!(road_layer(&SegmentClass::MediumRoad), RoadLayer::SurfaceRoads);
    assert_eq!(road_layer(&SegmentClass::PedestrianWay), RoadLayer::Pedestrian);
    assert_eq!(road_layer(&SegmentClass::TrainTrack), RoadLayer::Rail);
    assert_eq!(road_layer(&SegmentClass::MetroTrack), RoadLayer::Metro);
    assert_eq!(road_layer(&SegmentClass::HelicopterPath), RoadLayer::Aviation);
    assert_eq!(road_layer(&SegmentClass::FloodWall), RoadLayer::Utility);
    assert_eq!(road_layer(&SegmentClass::ElectricityWire), RoadLayer::Utility);
    assert_eq!(road_layer(&SegmentClass::BeautificationItem), RoadLayer::Beautification);
    assert_eq!(road_layer(&SegmentClass::Unknown("Canal".to_string())), RoadLayer::Miscellaneous);
}

#[test]
fn node_symbols() {
    assert_eq!(node_shape(&NodeKind::TrainStation), NodeShape::Square);
    assert_eq!(node_shape(&NodeKind::MetroStation), NodeShape::Hexagon);
    assert_eq!(node_shape(&NodeKind::Airport), NodeShape::Triangle);
    assert_eq!(node_shape(&NodeKind::Electricity), NodeShape::Diamond);
    assert_eq!(node_shape(&NodeKind::Beautification), NodeShape::Diamond);
    assert_eq!(node_shape(&NodeKind::Road), NodeShape::Circle);
    assert_eq!(node_letter(&NodeKind::Harbor), "H");
    assert_eq!(node_letter(&NodeKind::Beautification), "P");
    assert_eq!(node_letter(&NodeKind::PublicTransport), "P");
    assert_eq!(node_letter(&NodeKind::Unknown("Zoo".to_string(), "".to_string())), "?");
}

#[test]
fn segment_dashes() {
    assert_eq!(segment_dash(&SegmentClass::TrainTrack, ElevationState::Underground), SegmentDash::Rail);
    assert_eq!(segment_dash(&SegmentClass::ElectricityWire, ElevationState::Surface), SegmentDash::Wire);
    assert_eq!(segment_dash(&SegmentClass::AirplaneRunway, ElevationState::Elevated), SegmentDash::Runway);
    assert_eq!(segment_dash(&SegmentClass::SmallRoad, ElevationState::Underground), SegmentDash::Underground);
    assert_eq!(segment_dash(&SegmentClass::SmallRoad, ElevationState::Surface), SegmentDash::Solid);
    assert_eq!(segment_dash(&SegmentClass::Highway, ElevationState::Elevated), SegmentDash::Solid);
}

#[test]
fn building_palettes_by_service() {
    assert_eq!(building_palette("Residential", "ResidentialLowEco"), BuildingPalette::ResidentialLowEco);
    assert_eq!(building_palette(" Residential ", "ResidentialHigh"), BuildingPalette::Residential);
    assert_eq!(building_palette("Commercial", " CommercialLow"), BuildingPalette::CommercialLow);
    assert_eq!(building_palette("PlayerIndustry", "PlayerIndustryForestry"), BuildingPalette::IndustrialForestry);
    assert_eq!(building_palette("PlayerIndustry", "PlayerIndustryFarming"), BuildingPalette::Industrial);
    assert_eq!(building_palette("HealthCare", ""), BuildingPalette::Health);
    assert_eq!(building_palette("Monument", "x"), BuildingPalette::Default);
    assert_eq!(park_palette(Some(" Forestry ")), ParkPalette::Forestry);
    assert_eq!(park_palette(Some("PedestrianZone")), ParkPalette::PedestrianZone);
    assert_eq!(park_palette(Some("Zoo")), ParkPalette::Park);
    assert_eq!(park_palette(None), ParkPalette::Park);
}

#[test]
fn color_specs() {
    assert_eq!(ColorSpec::default_alpha(), 255);
    assert_eq!(ColorSpec::rgb(1, 2, 3), ColorSpec { r: 1, g: 2, b: 3, a: 255 });
    assert_eq!(ColorSpec::rgba(1, 2, 3, 4).to_color(), RgbaColor::rgba(1, 2, 3, 4));
    let palette = TerrainPalette {
        water_light: ColorSpec::rgb(1, 1, 1),
        water_dark: ColorSpec::rgb(2, 2, 2),
        land_low: ColorSpec::rgb(3, 3, 3),
        land_mid: ColorSpec::rgb(4, 4, 4),
        land_high: ColorSpec::rgb(5, 5, 5),
        snow: ColorSpec::rgb(6, 6, 6),
    };
    assert_eq!(palette.snow.to_color(), RgbaColor::rgb(6, 6, 6));
}

#[test]
fn navigation_follows_the_held_keys() {
    assert_eq!(nav_action(NavInput::PrimaryDrag, false, false), NavAction::Pan);
    assert_eq!(nav_action(NavInput::PrimaryDrag, true, true), NavAction::Rotate);
    assert_eq!(nav_action(NavInput::PrimaryDrag, false, true), NavAction::Zoom);
    assert_eq!(nav_action(NavInput::MiddleDrag, true, false), NavAction::Rotate);
    assert_eq!(nav_action(NavInput::MiddleDrag, false, true), NavAction::Zoom);
    assert_eq!(nav_action(NavInput::Scroll, true, true), NavAction::Zoom);
    assert_eq!(nav_action(NavInput::Scroll, true, false), NavAction::Rotate);
    assert_eq!(nav_action(NavInput::Scroll, false, false), NavAction::Pan);
    assert_eq!(action_label(NavAction::Rotate), "Rotate");
    assert_eq!(input_key(NavInput::Scroll), "Scroll");
    for input in [NavInput::PrimaryDrag, NavInput::MiddleDrag, NavInput::Scroll] {
        for alt in [false, true] {
            for ctrl in [false, true] {
                let changed = nav_action(input, alt, ctrl) != nav_action(input, false, false);
                assert_eq!(hint_active(input, alt, ctrl), changed);
            }
        }
    }
}

#[test]
fn escaped_text_holds_no_markup() {
    for text in ["<a href='x'>\"q\"</a>", "&&", "plain"] {
        let escaped = escape_xml(text);
        assert!(!escaped.contains(['<', '>', '"', '\'']));
    }
}

/// Reads the five entities back, left to right.
fn unescape(text: &str) -> String {
    let mut out = String::new();
    let mut rest = text;
    while let Some(c) = rest.chars().next() {
        let entity = [("&amp;", '&'), ("&lt;", '<'), ("&gt;", '>'), ("&quot;", '"'), ("&apos;", '\'')]
            .into_iter()
            .find(|(e, _)| rest.starts_with(e));
        match entity {
            Some((e, ch)) => {
                out.push(ch);
                rest = &rest[e.len()..];
            }
            None => {
                out.push(c);
                rest = &rest[c.len_utf8()..];
            }
        }
    }
    out
}

#[test]
fn escaped_text_reads_back() {
    assert_eq!(escape_xml("<&"), "&lt;&amp;");
    for text in ["<&", "&amp;", "a'b\"c<d>e&f", "", "Ünïcode & <tags>", "&lt;"] {
        assert_eq!(unescape(&escape_xml(text)), text);
    }
}
