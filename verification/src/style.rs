//! The choices behind feature styles: which palette of the theme a
//! building, park, node or segment takes, the shape and letter of a node
//! symbol, and the dash pattern of a segment.
use vstd::prelude::*;
use crate::model::{ElevationState, NodeKind, NodeKindView, SegmentClass, SegmentClassView};
use crate::text::{spec_trim, str_eq, trim};

verus! {

/// The shapes of node symbols.
#[derive(Debug, Clone, Copy, PartialEq, Eq, Structural)]
pub enum NodeShape {
    Circle,
    Square,
    Diamond,
    Hexagon,
    Triangle,
}

pub open spec fn spec_node_shape(k: NodeKindView) -> NodeShape {
    match k {
        NodeKindView::TrainStation => NodeShape::Square,
        NodeKindView::MetroStation => NodeShape::Hexagon,
        NodeKindView::Airport => NodeShape::Triangle,
        NodeKindView::Electricity | NodeKindView::Beautification => NodeShape::Diamond,
        _ => NodeShape::Circle,
    }
}

pub open spec fn spec_node_letter(k: NodeKindView) -> Seq<char> {
    match k {
        NodeKindView::TrainStation => "T"@,
        NodeKindView::MetroStation => "M"@,
        NodeKindView::Harbor => "H"@,
        NodeKindView::Airport => "A"@,
        NodeKindView::Electricity => "E"@,
        NodeKindView::Beautification => "P"@,
        NodeKindView::Water => "W"@,
        NodeKindView::Road => "R"@,
        NodeKindView::PublicTransport => "P"@,
        NodeKindView::Unknown(_, _) => "?"@,
    }
}

/// The shape of a node's symbol.
pub fn node_shape(kind: &NodeKind) -> (s: NodeShape)
    ensures
        s == spec_node_shape(kind@),
{
    match kind {
        NodeKind::TrainStation => NodeShape::Square,
        NodeKind::MetroStation => NodeShape::Hexagon,
        NodeKind::Airport => NodeShape::Triangle,
        NodeKind::Electricity | NodeKind::Beautification => NodeShape::Diamond,
        _ => NodeShape::Circle,
    }
}

/// The letter drawn in a node's symbol.
pub fn node_letter(kind: &NodeKind) -> (s: &'static str)
    ensures
        s@ == spec_node_letter(kind@),
{
    match kind {
        NodeKind::TrainStation => "T",
        NodeKind::MetroStation => "M",
        NodeKind::Harbor => "H",
        NodeKind::Airport => "A",
        NodeKind::Electricity => "E",
        NodeKind::Beautification => "P",
        NodeKind::Water => "W",
        NodeKind::Road => "R",
        NodeKind::PublicTransport => "P",
        NodeKind::Unknown(_, _) => "?",
    }
}

/// The dash patterns of segments.
#[derive(Debug, Clone, Copy, PartialEq, Eq, Structural)]
pub enum SegmentDash {
    Solid,
    Underground,
    Rail,
    Wire,
    Runway,
}

/// Rails are dashed, wires and runways too; an underground segment that
/// would be solid gets the underground dash.
pub open spec fn spec_segment_dash(c: SegmentClassView, e: ElevationState) -> SegmentDash {
    let base = match c {
        SegmentClassView::TrainTrack | SegmentClassView::MetroTrack => SegmentDash::Rail,
        SegmentClassView::ElectricityWire => SegmentDash::Wire,
        SegmentClassView::AirplaneRunway => SegmentDash::Runway,
        _ => SegmentDash::Solid,
    };
    if e == ElevationState::Underground && base == SegmentDash::Solid {
        SegmentDash::Underground
    } else {
        base
    }
}

pub fn segment_dash(class: &SegmentClass, elevation: ElevationState) -> (d: SegmentDash)
    ensures
        d == spec_segment_dash(class@, elevation),
{
    let base = match class {
        SegmentClass::TrainTrack | SegmentClass::MetroTrack => SegmentDash::Rail,
        SegmentClass::ElectricityWire => SegmentDash::Wire,
        SegmentClass::AirplaneRunway => SegmentDash::Runway,
        _ => SegmentDash::Solid,
    };
    match (elevation, base) {
        (ElevationState::Underground, SegmentDash::Solid) => SegmentDash::Underground,
        _ => base,
    }
}

/// The building palettes of the theme.
#[derive(Debug, Clone, Copy, PartialEq, Eq, Structural)]
pub enum BuildingPalette {
    ResidentialLowEco,
    ResidentialHighEco,
    Residential,
    CommercialEco,
    CommercialLow,
    Commercial,
    IndustrialForestry,
    Industrial,
    Office,
    Education,
    Health,
    Fire,
    Police,
    Electricity,
    Water,
    Beautification,
    PublicTransport,
    Hotel,
    Default,
}

/// The palette of a building, by its trimmed service and sub-service.
pub open spec fn spec_building_palette(service: Seq<char>, subtype: Seq<char>) -> BuildingPalette {
    let s = spec_trim(service);
    let t = spec_trim(subtype);
    if s == "Residential"@ && t == "ResidentialLowEco"@ {
        BuildingPalette::ResidentialLowEco
    } else if s == "Residential"@ && t == "ResidentialHighEco"@ {
        BuildingPalette::ResidentialHighEco
    } else if s == "Residential"@ {
        BuildingPalette::Residential
    } else if s == "Commercial"@ && t == "CommercialEco"@ {
        BuildingPalette::CommercialEco
    } else if s == "Commercial"@ && t == "CommercialLow"@ {
        BuildingPalette::CommercialLow
    } else if s == "Commercial"@ {
        BuildingPalette::Commercial
    } else if (s == "Industrial"@ && t == "IndustrialForestry"@) || (s == "PlayerIndustry"@ && t
        == "PlayerIndustryForestry"@) {
        BuildingPalette::IndustrialForestry
    } else if s == "Industrial"@ || s == "PlayerIndustry"@ {
        BuildingPalette::Industrial
    } else if s == "Office"@ {
        BuildingPalette::Office
    } else if s == "Education"@ {
        BuildingPalette::Education
    } else if s == "HealthCare"@ {
        BuildingPalette::Health
    } else if s == "FireDepartment"@ {
        BuildingPalette::Fire
    } else if s == "PoliceDepartment"@ {
        BuildingPalette::Police
    } else if s == "Electricity"@ {
        BuildingPalette::Electricity
    } else if s == "Water"@ {
        BuildingPalette::Water
    } else if s == "Beautification"@ {
        BuildingPalette::Beautification
    } else if s == "PublicTransport"@ {
        BuildingPalette::PublicTransport
    } else if s == "Hotel"@ {
        BuildingPalette::Hotel
    } else {
        BuildingPalette::Default
    }
}

pub fn building_palette(service: &str, subtype: &str) -> (p: BuildingPalette)
    ensures
        p == spec_building_palette(service@, subtype@),
{
    let st = trim(service);
    let tt = trim(subtype);
    let s = st.as_str();
    let t = tt.as_str();
    if str_eq(s, "Residential") && str_eq(t, "ResidentialLowEco") {
        BuildingPalette::ResidentialLowEco
    } else if str_eq(s, "Residential") && str_eq(t, "ResidentialHighEco") {
        BuildingPalette::ResidentialHighEco
    } else if str_eq(s, "Residential") {
        BuildingPalette::Residential
    } else if str_eq(s, "Commercial") && str_eq(t, "CommercialEco") {
        BuildingPalette::CommercialEco
    } else if str_eq(s, "Commercial") && str_eq(t, "CommercialLow") {
        BuildingPalette::CommercialLow
    } else if str_eq(s, "Commercial") {
        BuildingPalette::Commercial
    } else if (str_eq(s, "Industrial") && str_eq(t, "IndustrialForestry")) || (str_eq(
        s,
        "PlayerIndustry",
    ) && str_eq(t, "PlayerIndustryForestry")) {
        BuildingPalette::IndustrialForestry
    } else if str_eq(s, "Industrial") || str_eq(s, "PlayerIndustry") {
        BuildingPalette::Industrial
    } else if str_eq(s, "Office") {
        BuildingPalette::Office
    } else if str_eq(s, "Education") {
        BuildingPalette::Education
    } else if str_eq(s, "HealthCare") {
        BuildingPalette::Health
    } else if str_eq(s, "FireDepartment") {
        BuildingPalette::Fire
    } else if str_eq(s, "PoliceDepartment") {
        BuildingPalette::Police
    } else if str_eq(s, "Electricity") {
        BuildingPalette::Electricity
    } else if str_eq(s, "Water") {
        BuildingPalette::Water
    } else if str_eq(s, "Beautification") {
        BuildingPalette::Beautification
    } else if str_eq(s, "PublicTransport") {
        BuildingPalette::PublicTransport
    } else if str_eq(s, "Hotel") {
        BuildingPalette::Hotel
    } else {
        BuildingPalette::Default
    }
}

/// The park palettes of the theme.
#[derive(Debug, Clone, Copy, PartialEq, Eq, Structural)]
pub enum ParkPalette {
    Park,
    PedestrianZone,
    Forestry,
}

pub open spec fn spec_park_palette(area_type: Option<Seq<char>>) -> ParkPalette {
    match area_type {
        Some(t) => if spec_trim(t) == "PedestrianZone"@ {
            ParkPalette::PedestrianZone
        } else if spec_trim(t) == "Forestry"@ {
            ParkPalette::Forestry
        } else {
            ParkPalette::Park
        },
        None => ParkPalette::Park,
    }
}

/// The palette of a park, by its trimmed type.
pub fn park_palette(area_type: Option<&str>) -> (p: ParkPalette)
    ensures
        p == spec_park_palette(match area_type {
            Some(t) => Some(t@),
            None => None,
        }),
{
    match area_type {
        Some(t) => {
            let tt = trim(t);
            if str_eq(tt.as_str(), "PedestrianZone") {
                ParkPalette::PedestrianZone
            } else if str_eq(tt.as_str(), "Forestry") {
                ParkPalette::Forestry
            } else {
                ParkPalette::Park
            }
        },
        None => ParkPalette::Park,
    }
}

/// The palette of a building follows its trimmed service and sub-service:
/// residential buildings by their low- or high-density eco sub-services,
/// commercial ones by their eco or low-density sub-services, forestry
/// industry (of the game or of a player) by its forestry sub-service and
/// other industry as industry; offices, schools, health care, fire and
/// police departments, electricity, water, beautification, public
/// transport and hotels by their service alone; anything else takes the
/// default palette.
pub proof fn law_building_palette_table(service: Seq<char>, subtype: Seq<char>)
    ensures
        ({
            let s = spec_trim(service);
            let t = spec_trim(subtype);
            let p = spec_building_palette(service, subtype);
            &&& s == "Residential"@ && t == "ResidentialLowEco"@ ==> p == BuildingPalette::ResidentialLowEco
            &&& s == "Residential"@ && t == "ResidentialHighEco"@ ==> p == BuildingPalette::ResidentialHighEco
            &&& s == "Residential"@ && t != "ResidentialLowEco"@ && t != "ResidentialHighEco"@ ==> p
                == BuildingPalette::Residential
            &&& s == "Commercial"@ && t == "CommercialEco"@ ==> p == BuildingPalette::CommercialEco
            &&& s == "Commercial"@ && t == "CommercialLow"@ ==> p == BuildingPalette::CommercialLow
            &&& s == "Commercial"@ && t != "CommercialEco"@ && t != "CommercialLow"@ ==> p
                == BuildingPalette::Commercial
            &&& s == "Industrial"@ && t == "IndustrialForestry"@ ==> p == BuildingPalette::IndustrialForestry
            &&& s == "PlayerIndustry"@ && t == "PlayerIndustryForestry"@ ==> p
                == BuildingPalette::IndustrialForestry
            &&& s == "Industrial"@ && t != "IndustrialForestry"@ ==> p == BuildingPalette::Industrial
            &&& s == "PlayerIndustry"@ && t != "PlayerIndustryForestry"@ ==> p == BuildingPalette::Industrial
            &&& s == "Office"@ ==> p == BuildingPalette::Office
            &&& s == "Education"@ ==> p == BuildingPalette::Education
            &&& s == "HealthCare"@ ==> p == BuildingPalette::Health
            &&& s == "FireDepartment"@ ==> p == BuildingPalette::Fire
            &&& s == "PoliceDepartment"@ ==> p == BuildingPalette::Police
            &&& s == "Electricity"@ ==> p == BuildingPalette::Electricity
            &&& s == "Water"@ ==> p == BuildingPalette::Water
            &&& s == "Beautification"@ ==> p == BuildingPalette::Beautification
            &&& s == "PublicTransport"@ ==> p == BuildingPalette::PublicTransport
            &&& s == "Hotel"@ ==> p == BuildingPalette::Hotel
            &&& s != "Residential"@ && s != "Commercial"@ && s != "Industrial"@ && s != "PlayerIndustry"@ && s != "Office"@ && s != "Education"@ && s != "HealthCare"@ && s != "FireDepartment"@ && s != "PoliceDepartment"@ && s != "Electricity"@ && s != "Water"@ && s != "Beautification"@ && s != "PublicTransport"@ && s != "Hotel"@ ==> p == BuildingPalette::Default
        }),
{
    reveal_strlit("Residential");
    reveal_strlit("ResidentialLowEco");
    reveal_strlit("ResidentialHighEco");
    reveal_strlit("Commercial");
    reveal_strlit("CommercialEco");
    reveal_strlit("CommercialLow");
    reveal_strlit("Industrial");
    reveal_strlit("IndustrialForestry");
    reveal_strlit("PlayerIndustry");
    reveal_strlit("PlayerIndustryForestry");
    reveal_strlit("Office");
    reveal_strlit("Education");
    reveal_strlit("HealthCare");
    reveal_strlit("FireDepartment");
    reveal_strlit("PoliceDepartment");
    reveal_strlit("Electricity");
    reveal_strlit("Water");
    reveal_strlit("Beautification");
    reveal_strlit("PublicTransport");
    reveal_strlit("Hotel");
    reveal_strlit("PedestrianZone");
    reveal_strlit("Forestry");
    assert("Residential"@.len() == 11 && "Residential"@[0] == 'R'
        && "ResidentialLowEco"@.len() == 17 && "ResidentialLowEco"@[0] == 'R'
        && "ResidentialHighEco"@.len() == 18 && "ResidentialHighEco"@[0] == 'R'
        && "Commercial"@.len() == 10 && "Commercial"@[0] == 'C'
        && "CommercialEco"@.len() == 13 && "CommercialEco"@[0] == 'C'
        && "CommercialLow"@.len() == 13 && "CommercialLow"@[0] == 'C'
        && "Industrial"@.len() == 10 && "Industrial"@[0] == 'I'
        && "IndustrialForestry"@.len() == 18 && "IndustrialForestry"@[0] == 'I'
        && "PlayerIndustry"@.len() == 14 && "PlayerIndustry"@[0] == 'P'
        && "PlayerIndustryForestry"@.len() == 22 && "PlayerIndustryForestry"@[0] == 'P'
        && "Office"@.len() == 6 && "Office"@[0] == 'O'
        && "Education"@.len() == 9 && "Education"@[0] == 'E'
        && "HealthCare"@.len() == 10 && "HealthCare"@[0] == 'H'
        && "FireDepartment"@.len() == 14 && "FireDepartment"@[0] == 'F'
        && "PoliceDepartment"@.len() == 16 && "PoliceDepartment"@[0] == 'P'
        && "Electricity"@.len() == 11 && "Electricity"@[0] == 'E'
        && "Water"@.len() == 5 && "Water"@[0] == 'W'
        && "Beautification"@.len() == 14 && "Beautification"@[0] == 'B'
        && "PublicTransport"@.len() == 15 && "PublicTransport"@[0] == 'P'
        && "Hotel"@.len() == 5 && "Hotel"@[0] == 'H'
        && "PedestrianZone"@.len() == 14 && "PedestrianZone"@[0] == 'P'
        && "Forestry"@.len() == 8 && "Forestry"@[0] == 'F');
    assert("CommercialEco"@[10] != "CommercialLow"@[10]);
}

/// The palette of a park follows its trimmed type: a pedestrian zone, a
/// forestry area, or else (no type included) an ordinary park.
pub proof fn law_park_palette_table(area_type: Option<Seq<char>>)
    ensures
        area_type matches Some(t) && spec_trim(t) == "PedestrianZone"@ ==> spec_park_palette(
            area_type,
        ) == ParkPalette::PedestrianZone,
        area_type matches Some(t) && spec_trim(t) == "Forestry"@ ==> spec_park_palette(area_type)
            == ParkPalette::Forestry,
        area_type matches Some(t) && spec_trim(t) != "PedestrianZone"@ && spec_trim(t)
            != "Forestry"@ ==> spec_park_palette(area_type) == ParkPalette::Park,
        area_type is None ==> spec_park_palette(area_type) == ParkPalette::Park,
{
    reveal_strlit("PedestrianZone");
    reveal_strlit("Forestry");
    assert("PedestrianZone"@.len() == 14 && "Forestry"@.len() == 8);
}

/// The symbol of a node: train stations are squares, metro stations
/// hexagons, airports triangles, electricity and beautification nodes
/// diamonds, and all others circles; each kind shows its initial, with
/// `P` for parks (beautification) and public transport and `?` for an
/// unknown kind.
pub proof fn law_node_symbol_table(k: NodeKindView)
    ensures
        spec_node_shape(k) == (match k {
            NodeKindView::TrainStation => NodeShape::Square,
            NodeKindView::MetroStation => NodeShape::Hexagon,
            NodeKindView::Airport => NodeShape::Triangle,
            NodeKindView::Electricity => NodeShape::Diamond,
            NodeKindView::Beautification => NodeShape::Diamond,
            _ => NodeShape::Circle,
        }),
        k is TrainStation ==> spec_node_letter(k) == "T"@,
        k is MetroStation ==> spec_node_letter(k) == "M"@,
        k is Harbor ==> spec_node_letter(k) == "H"@,
        k is Airport ==> spec_node_letter(k) == "A"@,
        k is Electricity ==> spec_node_letter(k) == "E"@,
        k is Beautification || k is PublicTransport ==> spec_node_letter(k) == "P"@,
        k is Water ==> spec_node_letter(k) == "W"@,
        k is Road ==> spec_node_letter(k) == "R"@,
        k is Unknown ==> spec_node_letter(k) == "?"@,
{
}

/// Dashes: train and metro tracks are always drawn as rails, electricity
/// wires as wires and airplane runways as runways; every other class is
/// solid above ground and takes the underground dash below it.
pub proof fn law_segment_dash_rules(c: SegmentClassView, e: ElevationState)
    ensures
        c is TrainTrack || c is MetroTrack ==> spec_segment_dash(c, e) == SegmentDash::Rail,
        c is ElectricityWire ==> spec_segment_dash(c, e) == SegmentDash::Wire,
        c is AirplaneRunway ==> spec_segment_dash(c, e) == SegmentDash::Runway,
        !(c is TrainTrack || c is MetroTrack || c is ElectricityWire || c is AirplaneRunway)
            ==> spec_segment_dash(c, e) == if e == ElevationState::Underground {
            SegmentDash::Underground
        } else {
            SegmentDash::Solid
        },
{
}

} // verus!
