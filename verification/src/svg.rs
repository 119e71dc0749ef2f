//! Rules of the SVG rendering that do not involve coordinates: escaping of
//! text, and the road layer that each segment class belongs to.
use vstd::prelude::*;
use crate::model::{SegmentClass, SegmentClassView};
use crate::text::chars_of;

verus! {

/// What one character becomes in XML text or an attribute value.
pub open spec fn escape_char(c: char) -> Seq<char> {
    if c == '&' {
        "&amp;"@
    } else if c == '<' {
        "&lt;"@
    } else if c == '>' {
        "&gt;"@
    } else if c == '"' {
        "&quot;"@
    } else if c == '\'' {
        "&apos;"@
    } else {
        seq![c]
    }
}

/// Each character escaped in turn.
pub open spec fn spec_escape(s: Seq<char>) -> Seq<char>
    decreases s.len(),
{
    if s.len() == 0 {
        Seq::empty()
    } else {
        spec_escape(s.drop_last()) + escape_char(s.last())
    }
}

/// Escapes the five XML special characters; `&` is replaced first, so the
/// entities that the other replacements introduce are left as they are.
pub fn escape_xml(value: &str) -> (r: String)
    ensures
        r@ == spec_escape(value@),
{
    let v = chars_of(value);
    let mut out = String::new();
    for i in 0..v.len()
        invariant
            out@ == spec_escape(v@.take(i as int)),
    {
        let c = v[i];
        let ghost done = v@.take(i as int);
        assert(v@.take(i + 1).drop_last() =~= done);
        if c == '&' {
            out.append("&amp;");
        } else if c == '<' {
            out.append("&lt;");
        } else if c == '>' {
            out.append("&gt;");
        } else if c == '"' {
            out.append("&quot;");
        } else if c == '\'' {
            out.append("&apos;");
        } else {
            out.push(c);
            assert(out@ =~= spec_escape(done) + seq![c]);
        }
    }
    assert(v@.take(v.len() as int) =~= v@);
    out
}

/// A character that may not stand unescaped in an attribute value.
pub open spec fn is_markup(c: char) -> bool {
    c == '<' || c == '>' || c == '"' || c == '\''
}

/// Escaped text holds no `<`, `>`, `"` or `'`, and text without any of the
/// five special characters is left as it is.
pub proof fn law_escape_removes_markup(s: Seq<char>)
    ensures
        forall|i: int| 0 <= i < spec_escape(s).len() ==> !is_markup(#[trigger] spec_escape(s)[i]),
        (forall|i: int| 0 <= i < s.len() ==> !is_markup(#[trigger] s[i]) && s[i] != '&')
            ==> spec_escape(s) == s,
    decreases s.len(),
{
    reveal_strlit("&amp;");
    reveal_strlit("&lt;");
    reveal_strlit("&gt;");
    reveal_strlit("&quot;");
    reveal_strlit("&apos;");
    if s.len() > 0 {
        let rest = s.drop_last();
        law_escape_removes_markup(rest);
        let e = spec_escape(rest);
        let t = escape_char(s.last());
        assert forall|i: int| 0 <= i < spec_escape(s).len() implies !is_markup(
            #[trigger] spec_escape(s)[i],
        ) by {
            if i < e.len() {
                assert(spec_escape(s)[i] == e[i]);
            } else {
                assert(spec_escape(s)[i] == t[i - e.len()]);
            }
        }
        if forall|i: int| 0 <= i < s.len() ==> !is_markup(#[trigger] s[i]) && s[i] != '&' {
            assert forall|i: int| 0 <= i < rest.len() implies !is_markup(#[trigger] rest[i])
                && rest[i] != '&' by {
                assert(rest[i] == s[i]);
            }
            assert(!is_markup(s[s.len() - 1]) && s[s.len() - 1] != '&');
            assert(spec_escape(s) =~= s);
        }
    } else {
        assert(spec_escape(s) =~= s);
    }
}

/// Escaped text read back, left to right: each of the five entities becomes
/// its character, and any other character stands for itself.
pub open spec fn spec_unescape(s: Seq<char>) -> Seq<char>
    decreases s.len(),
{
    if s.len() == 0 {
        Seq::empty()
    } else if s.len() >= 5 && s.take(5) == "&amp;"@ {
        seq!['&'] + spec_unescape(s.skip(5))
    } else if s.len() >= 4 && s.take(4) == "&lt;"@ {
        seq!['<'] + spec_unescape(s.skip(4))
    } else if s.len() >= 4 && s.take(4) == "&gt;"@ {
        seq!['>'] + spec_unescape(s.skip(4))
    } else if s.len() >= 6 && s.take(6) == "&quot;"@ {
        seq!['"'] + spec_unescape(s.skip(6))
    } else if s.len() >= 6 && s.take(6) == "&apos;"@ {
        seq!['\''] + spec_unescape(s.skip(6))
    } else {
        seq![s[0]] + spec_unescape(s.skip(1))
    }
}

proof fn lemma_escape_append(a: Seq<char>, b: Seq<char>)
    ensures
        spec_escape(a + b) == spec_escape(a) + spec_escape(b),
    decreases b.len(),
{
    if b.len() == 0 {
        assert(a + b =~= a);
        assert(spec_escape(a) + spec_escape(b) =~= spec_escape(a));
    } else {
        lemma_escape_append(a, b.drop_last());
        assert((a + b).drop_last() =~= a + b.drop_last());
        assert((a + b).last() == b.last());
        assert(spec_escape(a) + spec_escape(b) =~= spec_escape(a) + spec_escape(b.drop_last())
            + escape_char(b.last()));
    }
}

proof fn lemma_unescape_char(c: char, x: Seq<char>)
    ensures
        spec_unescape(escape_char(c) + x) == seq![c] + spec_unescape(x),
{
    reveal_strlit("&amp;");
    reveal_strlit("&lt;");
    reveal_strlit("&gt;");
    reveal_strlit("&quot;");
    reveal_strlit("&apos;");
    let e = escape_char(c);
    let s = e + x;
    assert(s.skip(e.len() as int) =~= x);
    assert(s.take(e.len() as int) =~= e);
    if c == '&' {
    } else if c == '<' {
        assert(s.len() >= 5 ==> s.take(5)[1] != "&amp;"@[1]);
    } else if c == '>' {
        assert(s.len() >= 5 ==> s.take(5)[1] != "&amp;"@[1]);
        assert(s.take(4)[1] != "&lt;"@[1]);
    } else if c == '"' {
        assert(s.take(5)[1] != "&amp;"@[1]);
        assert(s.take(4)[1] != "&lt;"@[1]);
        assert(s.take(4)[1] != "&gt;"@[1]);
    } else if c == '\'' {
        assert(s.take(5)[2] != "&amp;"@[2]);
        assert(s.take(4)[1] != "&lt;"@[1]);
        assert(s.take(4)[1] != "&gt;"@[1]);
        assert(s.take(6)[1] != "&quot;"@[1]);
    } else {
        assert(s[0] == c);
        assert(s.len() >= 5 ==> s.take(5)[0] != "&amp;"@[0]);
        assert(s.len() >= 4 ==> s.take(4)[0] != "&lt;"@[0]);
        assert(s.len() >= 4 ==> s.take(4)[0] != "&gt;"@[0]);
        assert(s.len() >= 6 ==> s.take(6)[0] != "&quot;"@[0]);
        assert(s.len() >= 6 ==> s.take(6)[0] != "&apos;"@[0]);
        assert(s.skip(1) =~= x);
    }
}

/// Reading escaped text back gives the text: no entity that an escape
/// writes is read as anything but the character it stands for.
pub proof fn law_escape_round_trip(s: Seq<char>)
    ensures
        spec_unescape(spec_escape(s)) == s,
    decreases s.len(),
{
    if s.len() > 0 {
        let rest = s.skip(1);
        law_escape_round_trip(rest);
        assert(s =~= seq![s[0]] + rest);
        lemma_escape_append(seq![s[0]], rest);
        assert(spec_escape(seq![s[0]]) =~= escape_char(s[0])) by {
            let one = seq![s[0]];
            assert(one.drop_last() =~= Seq::<char>::empty());
            assert(one.last() == s[0]);
            assert(spec_escape(one.drop_last()) == Seq::<char>::empty());
            assert(Seq::<char>::empty() + escape_char(s[0]) =~= escape_char(s[0]));
        }
        lemma_unescape_char(s[0], spec_escape(rest));
        assert(seq![s[0]] + rest =~= s);
    }
}

/// The road layers that the export settings switch and fade.
#[derive(Debug, Clone, Copy, PartialEq, Eq, Structural)]
pub enum RoadLayer {
    Highways,
    SurfaceRoads,
    Pedestrian,
    Rail,
    Metro,
    Aviation,
    Utility,
    Beautification,
    Miscellaneous,
}

pub open spec fn spec_road_layer(c: SegmentClassView) -> RoadLayer {
    match c {
        SegmentClassView::Highway => RoadLayer::Highways,
        SegmentClassView::LargeRoad | SegmentClassView::MediumRoad
        | SegmentClassView::SmallRoad => RoadLayer::SurfaceRoads,
        SegmentClassView::PedestrianStreet | SegmentClassView::PedestrianPath
        | SegmentClassView::PedestrianWay => RoadLayer::Pedestrian,
        SegmentClassView::TrainTrack => RoadLayer::Rail,
        SegmentClassView::MetroTrack => RoadLayer::Metro,
        SegmentClassView::ElectricityWire => RoadLayer::Utility,
        SegmentClassView::AirplaneRunway | SegmentClassView::AirplaneLine
        | SegmentClassView::HelicopterPath | SegmentClassView::BlimpPath => RoadLayer::Aviation,
        SegmentClassView::FloodWall => RoadLayer::Utility,
        SegmentClassView::BeautificationItem => RoadLayer::Beautification,
        SegmentClassView::Miscellaneous | SegmentClassView::Unknown(_) => RoadLayer::Miscellaneous,
    }
}

/// The road layer whose setting governs a segment class.
pub fn road_layer(class: &SegmentClass) -> (l: RoadLayer)
    ensures
        l == spec_road_layer(class@),
{
    match class {
        SegmentClass::Highway => RoadLayer::Highways,
        SegmentClass::LargeRoad | SegmentClass::MediumRoad | SegmentClass::SmallRoad => {
            RoadLayer::SurfaceRoads
        },
        SegmentClass::PedestrianStreet | SegmentClass::PedestrianPath
        | SegmentClass::PedestrianWay => RoadLayer::Pedestrian,
        SegmentClass::TrainTrack => RoadLayer::Rail,
        SegmentClass::MetroTrack => RoadLayer::Metro,
        SegmentClass::ElectricityWire => RoadLayer::Utility,
        SegmentClass::AirplaneRunway | SegmentClass::AirplaneLine | SegmentClass::HelicopterPath
        | SegmentClass::BlimpPath => RoadLayer::Aviation,
        SegmentClass::FloodWall => RoadLayer::Utility,
        SegmentClass::BeautificationItem => RoadLayer::Beautification,
        SegmentClass::Miscellaneous | SegmentClass::Unknown(_) => RoadLayer::Miscellaneous,
    }
}

/// Every segment class follows the layer of its kind of way: highways the
/// highway layer; large, medium and small roads the surface roads;
/// pedestrian streets, paths and ways the pedestrian layer; train tracks
/// the rail layer and metro tracks the metro layer; runways, airplane
/// lines, helicopter and blimp paths the aviation layer; electricity wires
/// and flood walls the utility layer; beautification items theirs; and
/// every other class, unknown ones included, the miscellaneous layer.
pub proof fn law_road_layer_groups(c: SegmentClassView)
    ensures
        c is Highway ==> spec_road_layer(c) == RoadLayer::Highways,
        c is LargeRoad || c is MediumRoad || c is SmallRoad ==> spec_road_layer(c)
            == RoadLayer::SurfaceRoads,
        c is PedestrianStreet || c is PedestrianPath || c is PedestrianWay ==> spec_road_layer(c)
            == RoadLayer::Pedestrian,
        c is TrainTrack ==> spec_road_layer(c) == RoadLayer::Rail,
        c is MetroTrack ==> spec_road_layer(c) == RoadLayer::Metro,
        c is AirplaneRunway || c is AirplaneLine || c is HelicopterPath || c is BlimpPath
            ==> spec_road_layer(c) == RoadLayer::Aviation,
        c is ElectricityWire || c is FloodWall ==> spec_road_layer(c) == RoadLayer::Utility,
        c is BeautificationItem ==> spec_road_layer(c) == RoadLayer::Beautification,
        c is Miscellaneous || c is Unknown ==> spec_road_layer(c) == RoadLayer::Miscellaneous,
{
}

} // verus!
