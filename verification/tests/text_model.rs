use cslview::model::{NodeKind, RgbaColor, SegmentClass, TransportKind};
use cslview::text::{contains_str, parse_u64_text, parse_u8_text, trim};

#[test]
fn trim_removes_unicode_white_space() {
    assert_eq!(trim("  a b \t\n"), "a b");
    assert_eq!(trim("\u{3000}x\u{a0}"), "x");
    assert_eq!(trim(" \t "), "");
    assert_eq!(trim("plain"), "plain");
    for text in ["\u{2028} a", "b \u{85}", "\u{1680}c\u{205f}", " \u{2009}d"] {
        assert_eq!(trim(text), text.trim());
    }
}

#[test]
fn unsigned_parsing_follows_str_parse() {
    assert_eq!(parse_u64_text("42"), Some(42));
    assert_eq!(parse_u64_text("+42"), Some(42));
    assert_eq!(parse_u64_text(""), None);
    assert_eq!(parse_u64_text("+"), None);
    assert_eq!(parse_u64_text("-1"), None);
    assert_eq!(parse_u64_text(" 1"), None);
    assert_eq!(parse_u64_text("18446744073709551615"), Some(u64::MAX));
    assert_eq!(parse_u64_text("18446744073709551616"), None);
    assert_eq!(parse_u8_text("255"), Some(255));
    assert_eq!(parse_u8_text("256"), None);
    assert_eq!(parse_u8_text("007"), Some(7));
    for text in ["0", "12a", "99999", "+7", "--1", "1e3"] {
        assert_eq!(parse_u64_text(text), text.parse::<u64>().ok());
        assert_eq!(parse_u8_text(text), text.parse::<u8>().ok());
    }
}

#[test]
fn substring_search() {
    let chars: Vec<char> = "large road tunnel".chars().collect();
    assert!(contains_str(&chars, "road"));
    assert!(contains_str(&chars, ""));
    assert!(!contains_str(&chars, "bridge"));
    assert!(contains_str(&chars, "tunnel"));
}

#[test]
fn colour_constructors() {
    let c = RgbaColor::rgba(1, 2, 3, 4);
    assert_eq!((c.r, c.g, c.b, c.a), (1, 2, 3, 4));
    let c = RgbaColor::rgb(9, 8, 7);
    assert_eq!(c.a, 255);
    let c = c.with_alpha(50);
    assert_eq!((c.r, c.g, c.b, c.a), (9, 8, 7, 50));
}

#[test]
fn colour_hex_notation() {
    assert_eq!(RgbaColor::rgb(10, 11, 255).to_hex(), "#0a0bff");
    assert_eq!(RgbaColor::rgba(0, 0, 0, 0).to_hex(), "#000000");
}

#[test]
fn colour_css_notation() {
    assert_eq!(RgbaColor::rgba(1, 22, 255, 255).to_css(), "rgba(1, 22, 255, 1.000)");
    assert_eq!(RgbaColor::rgba(100, 0, 7, 0).to_css(), "rgba(100, 0, 7, 0.000)");
    assert_eq!(RgbaColor::rgba(0, 0, 0, 128).to_css(), "rgba(0, 0, 0, 0.502)");
    for a in 0..=255u8 {
        let expected = format!("rgba(3, 40, 200, {:.3})", a as f32 / 255.0);
        assert_eq!(RgbaColor::rgba(3, 40, 200, a).to_css(), expected);
    }
}

#[test]
fn segment_classes_from_icls() {
    assert_eq!(SegmentClass::from_icls("Highway"), SegmentClass::Highway);
    assert_eq!(SegmentClass::from_icls("  Large Road Tunnel "), SegmentClass::LargeRoad);
    assert_eq!(SegmentClass::from_icls("Power Line"), SegmentClass::ElectricityWire);
    assert_eq!(SegmentClass::from_icls("Garden Fence"), SegmentClass::BeautificationItem);
    assert_eq!(SegmentClass::from_icls(" \t"), SegmentClass::Miscellaneous);
    assert_eq!(SegmentClass::from_icls(" Canal "), SegmentClass::Unknown(String::from(" Canal ")));
    assert_eq!(SegmentClass::from_icls("Metro Track Elevated"), SegmentClass::MetroTrack);
}

#[test]
fn segment_class_labels() {
    assert_eq!(SegmentClass::PedestrianStreet.raw_label(), "Pedestrian Street");
    assert_eq!(SegmentClass::Miscellaneous.raw_label(), "Miscellaneous");
    let unknown = SegmentClass::from_icls("Quay");
    assert_eq!(unknown.raw_label(), "Quay");
    for class in [
        SegmentClass::Highway,
        SegmentClass::LargeRoad,
        SegmentClass::TrainTrack,
        SegmentClass::FloodWall,
        SegmentClass::BlimpPath,
    ] {
        assert_eq!(SegmentClass::from_icls(class.raw_label()), class);
    }
}

#[test]
fn node_kinds_from_services() {
    assert_eq!(NodeKind::from_service("Road", "x"), NodeKind::Road);
    assert_eq!(
        NodeKind::from_service(" PublicTransport ", "PublicTransportMetro "),
        NodeKind::MetroStation
    );
    assert_eq!(NodeKind::from_service("PublicTransport", "Bus"), NodeKind::PublicTransport);
    assert_eq!(
        NodeKind::from_service(" Fishing ", " Harbor "),
        NodeKind::Unknown(String::from("Fishing"), String::from("Harbor"))
    );
    assert_eq!(NodeKind::from_service("Water", ""), NodeKind::Water);
}

#[test]
fn node_kind_labels() {
    assert_eq!(NodeKind::TrainStation.label(), "Train Station");
    assert_eq!(NodeKind::PublicTransport.label(), "Public Transport");
    assert_eq!(NodeKind::Unknown(String::from("Svc"), String::new()).label(), "Svc");
    assert_eq!(NodeKind::Unknown(String::from("Svc"), String::from("Sub")).label(), "Sub");
}

#[test]
fn node_kind_ignores_padding() {
    assert_eq!(
        NodeKind::from_service("  Electricity\t", " a "),
        NodeKind::from_service("Electricity", "a")
    );
}

#[test]
fn transport_kinds() {
    assert_eq!(TransportKind::from_str(" METRO "), TransportKind::Metro);
    assert_eq!(TransportKind::from_str("pedestrian"), TransportKind::Pedestrian);
    assert_eq!(TransportKind::from_str("bus"), TransportKind::Other);
    assert_eq!(TransportKind::from_str(""), TransportKind::Other);
    for kind in [TransportKind::Metro, TransportKind::Pedestrian, TransportKind::Other] {
        assert_eq!(TransportKind::from_str(kind.label()), kind);
    }
}

#[test]
fn trimming_twice_is_trimming_once() {
    for text in ["  a b  ", "\t\u{2003}x\u{3000}", "", "   ", "plain", " \u{85}y"] {
        let once = trim(text);
        assert_eq!(trim(&once), once);
    }
}

#[test]
fn transport_label_reads_back() {
    for kind in [TransportKind::Metro, TransportKind::Pedestrian, TransportKind::Other] {
        assert_eq!(TransportKind::from_str(kind.label()), kind);
    }
}

#[test]
fn class_labels_read_back() {
    let classes = [
        SegmentClass::Highway,
        SegmentClass::LargeRoad,
        SegmentClass::MediumRoad,
        SegmentClass::SmallRoad,
        SegmentClass::PedestrianStreet,
        SegmentClass::PedestrianPath,
        SegmentClass::PedestrianWay,
        SegmentClass::TrainTrack,
        SegmentClass::MetroTrack,
        SegmentClass::ElectricityWire,
        SegmentClass::AirplaneRunway,
        SegmentClass::AirplaneLine,
        SegmentClass::HelicopterPath,
        SegmentClass::BlimpPath,
        SegmentClass::FloodWall,
        SegmentClass::BeautificationItem,
    ];
    for class in classes {
        assert_eq!(SegmentClass::from_icls(class.raw_label()), class);
    }
    assert_eq!(
        SegmentClass::from_icls(SegmentClass::Miscellaneous.raw_label()),
        SegmentClass::Unknown("Miscellaneous".to_string())
    );
}
