use recad_python::{
    Arg, ArgError, ArgKind, At, Attribute, C, Direction, DotPosition, Element, Feedback, Gnd,
    GlobalLabel, Junction, LabelPosition, LocalLabel, NoConnect, Param, Power, Pt, Real, Resolution,
    Rule, Symbol, Wire, R,
};

fn num(v: f64) -> Real {
    Real { bits: v.to_bits() }
}

fn pt(x: f64, y: f64) -> Pt {
    Pt { x: num(x), y: num(y) }
}

fn arg(kind: ArgKind, type_label: &str) -> Arg {
    Arg { kind, type_label: type_label.to_string() }
}

fn point(x: f64, y: f64) -> Arg {
    arg(ArgKind::Point(pt(x, y)), "tuple")
}

fn text(s: &str) -> Arg {
    arg(ArgKind::Text(s.to_string()), "str")
}

fn nothing() -> Arg {
    arg(ArgKind::Nothing, "NoneType")
}

fn junction_arg(pos: Option<Pt>) -> Arg {
    let mut j = Junction::new();
    j.pos = pos;
    arg(ArgKind::Element(Element::Junction(j)), "Junction")
}

fn unknown(param: Param, type_label: &str) -> ArgError {
    ArgError::UnknownType { param, type_label: type_label.to_string() }
}

fn pin(r: &str, p: &str) -> At {
    At::Pin(r.to_string(), p.to_string())
}

#[test]
fn real_constants_are_the_doubles() {
    assert_eq!(Real::zero().bits, 0.0f64.to_bits());
    assert_eq!(Real::one().bits, 1.0f64.to_bits());
    assert_eq!(Wire::new().length.bits, 1.0f64.to_bits());
    assert_eq!(Feedback::new().height.bits, (5.0f64 * 2.54).to_bits());
}

#[test]
fn resolution_by_rule() {
    let some = Some("1".to_string());
    assert_eq!(
        recad_python::resolve_placement(ArgKind::Point(pt(1.0, 2.0)), None, Rule::PointPin),
        Resolution::Place(At::Pt(pt(1.0, 2.0)))
    );
    assert_eq!(
        recad_python::resolve_placement(ArgKind::Text("R1".to_string()), some.clone(), Rule::PointPin),
        Resolution::Place(pin("R1", "1"))
    );
    assert_eq!(
        recad_python::resolve_placement(ArgKind::Text("R1".to_string()), None, Rule::PointPin),
        Resolution::Reject
    );
    let drawn = ArgKind::Element(Element::Junction(Junction { pushed: false, at: None, pos: Some(pt(3.0, 4.0)) }));
    let undrawn = ArgKind::Element(Element::Junction(Junction::new()));
    assert_eq!(recad_python::resolve_placement(drawn.clone(), None, Rule::PointPin), Resolution::Reject);
    assert_eq!(
        recad_python::resolve_placement(drawn.clone(), None, Rule::PointJunctionPin),
        Resolution::Place(At::Pt(pt(3.0, 4.0)))
    );
    assert_eq!(recad_python::resolve_placement(undrawn.clone(), None, Rule::PointJunctionPin), Resolution::Keep);
    assert_eq!(
        recad_python::resolve_placement(undrawn.clone(), None, Rule::DrawnJunctionPointPin),
        Resolution::Reject
    );
    assert_eq!(recad_python::resolve_placement(ArgKind::Nothing, some.clone(), Rule::PointJunctionPin), Resolution::Reject);
    assert_eq!(
        recad_python::resolve_placement(ArgKind::Nothing, None, Rule::PointJunctionPinNothing),
        Resolution::Keep
    );
    assert_eq!(recad_python::resolve_placement(ArgKind::Integer(3), some, Rule::PointPin), Resolution::Reject);
}

#[test]
fn error_messages() {
    assert_eq!(unknown(Param::At, "int").message(), "Unknown type for 'at': 'int'");
    assert_eq!(unknown(Param::Rotate, "str").message(), "Unknown type for 'rotate': 'str'");
    assert_eq!(unknown(Param::Component, "list").message(), "Unknown type for 'component': 'list'");
    assert_eq!(
        ArgError::UnknownLabelType { type_label: "int".to_string() }.message(),
        "Unknown type for label position: 'int'. Expected string or (float, float) tuple."
    );
    assert_eq!(
        ArgError::InvalidDirection { reason: "bad".to_string() }.message(),
        "Invalid label direction: bad"
    );
    assert_eq!(
        ArgError::Undrawable { type_label: "int".to_string() }.message(),
        "Cannot draw unsupported type: 'int'. Expected a valid recad component."
    );
    assert!(ArgError::InvalidDirection { reason: String::new() }.is_value_error());
    assert!(!unknown(Param::Dot, "int").is_value_error());
}

#[test]
fn global_label_placement_and_drawing() {
    let mut l = GlobalLabel::new("VCC".to_string());
    assert_eq!(l.at(text("R1"), None), Err(unknown(Param::At, "str")));
    assert_eq!(l.at, None);
    assert_eq!(l.at(nothing(), None), Err(unknown(Param::At, "NoneType")));
    assert_eq!(l.at(text("R1"), Some("2".to_string())), Ok(()));
    assert_eq!(l.at, Some(pin("R1", "2")));
    l.rotate(num(90.0));
    let d = l.drawing();
    assert_eq!(d.name, "VCC");
    assert_eq!(d.attributes, vec![Attribute::Rotate(num(90.0)), Attribute::At(pin("R1", "2"))]);
}

#[test]
fn local_label_drawing_without_placement() {
    let mut l = LocalLabel::new("out");
    assert_eq!(l.at(junction_arg(Some(pt(1.0, 1.0))), None), Err(unknown(Param::At, "Junction")));
    assert_eq!(l.drawing().attributes, vec![Attribute::Rotate(num(0.0))]);
    let mut l = LocalLabel::new("in");
    assert_eq!(l.at(point(2.54, 5.08), None), Ok(()));
    assert_eq!(
        l.drawing().attributes,
        vec![Attribute::Rotate(num(0.0)), Attribute::At(At::Pt(pt(2.54, 5.08)))]
    );
}

#[test]
fn junction_and_no_connect() {
    let mut j = Junction::new();
    assert!(!j.pushed);
    j.push();
    assert!(j.pushed);
    assert_eq!(j.at(point(1.0, 2.0), None), Ok(()));
    assert_eq!(j.at, Some(At::Pt(pt(1.0, 2.0))));
    let mut n = NoConnect::new();
    assert_eq!(n.clone().drawing(), vec![]);
    assert_eq!(n.at(arg(ArgKind::Other, "dict"), None), Err(unknown(Param::At, "dict")));
    assert_eq!(n.at(text("U1"), Some("3".to_string())), Ok(()));
    assert_eq!(n.drawing(), vec![Attribute::At(pin("U1", "3"))]);
}

#[test]
fn symbol_anchor_from_text_and_integer() {
    let mut s = Symbol::new("U1", "TL072", "Amplifier_Operational:TL072");
    assert_eq!(s.anchor(arg(ArgKind::Integer(-12), "int")), Ok(()));
    assert_eq!(s.anchor, Some("-12".to_string()));
    assert_eq!(s.anchor(text("OUT")), Ok(()));
    assert_eq!(s.anchor, Some("OUT".to_string()));
    assert_eq!(s.anchor(point(1.0, 2.0)), Err(unknown(Param::Anchor, "tuple")));
    assert_eq!(s.anchor, Some("OUT".to_string()));
}

#[test]
fn symbol_placement_rules() {
    let mut s = Symbol::new("R1", "10k", "Device:R");
    assert_eq!(s.at(junction_arg(None), None), Ok(()));
    assert_eq!(s.at, None);
    assert_eq!(s.at(junction_arg(Some(pt(5.0, 6.0))), None), Ok(()));
    assert_eq!(s.at, Some(At::Pt(pt(5.0, 6.0))));
    assert_eq!(s.at(nothing(), None), Err(unknown(Param::At, "NoneType")));
    assert_eq!(s.tox(junction_arg(None), None), Err(unknown(Param::Tox, "Junction")));
    assert_eq!(s.tox(text("U1"), Some("1".to_string())), Ok(()));
    assert_eq!(s.tox, Some(pin("U1", "1")));
    assert_eq!(s.toy(point(0.0, 7.0), None), Ok(()));
    assert_eq!(s.toy, Some(At::Pt(pt(0.0, 7.0))));
    assert_eq!(s.toy(text("U1"), None), Err(unknown(Param::Toy, "str")));
}

#[test]
fn symbol_properties_keep_last_value() {
    let mut s = Symbol::new("R1", "10k", "Device:R");
    s.property("Footprint".to_string(), "0805".to_string());
    s.property("Mouser".to_string(), "123".to_string());
    s.property("Footprint".to_string(), "0603".to_string());
    assert_eq!(
        s.properties,
        vec![
            ("Mouser".to_string(), "123".to_string()),
            ("Footprint".to_string(), "0603".to_string())
        ]
    );
}

#[test]
fn symbol_label_positions() {
    let mut s = Symbol::new("R1", "10k", "Device:R");
    assert_eq!(s.label(text("north"), None), Ok(()));
    assert_eq!(s.label, Some(LabelPosition::Direction("north".to_string())));
    assert_eq!(
        s.label(text("up-ish"), Some("no such direction".to_string())),
        Err(ArgError::InvalidDirection { reason: "no such direction".to_string() })
    );
    assert_eq!(s.label, Some(LabelPosition::Direction("north".to_string())));
    assert_eq!(s.label(point(1.0, -1.0), None), Ok(()));
    assert_eq!(s.label, Some(LabelPosition::Offset(num(1.0), num(-1.0))));
    assert_eq!(
        s.label(arg(ArgKind::Integer(1), "int"), None),
        Err(ArgError::UnknownLabelType { type_label: "int".to_string() })
    );
}

#[test]
fn symbol_drawing_attribute_order() {
    let mut s = Symbol::new("U1", "TL072", "Amp:TL072");
    s.rotate(num(180.0));
    s.unit(2);
    s.mirror("x".to_string());
    assert_eq!(s.at(point(1.0, 2.0), None), Ok(()));
    assert_eq!(s.tox(point(3.0, 4.0), None), Ok(()));
    assert_eq!(s.anchor(text("3")), Ok(()));
    s.property("k".to_string(), "v".to_string());
    let d = s.drawing();
    assert_eq!((d.reference.as_str(), d.value.as_str(), d.lib_id.as_str()), ("U1", "TL072", "Amp:TL072"));
    assert_eq!(
        d.attributes,
        vec![
            Attribute::Rotate(num(180.0)),
            Attribute::Anchor("3".to_string()),
            Attribute::Mirror("x".to_string()),
            Attribute::Tox(At::Pt(pt(3.0, 4.0))),
            Attribute::At(At::Pt(pt(1.0, 2.0))),
            Attribute::Unit(2),
            Attribute::Property(vec![("k".to_string(), "v".to_string())]),
        ]
    );
    let plain = Symbol::new("U2", "x", "y").drawing();
    assert_eq!(plain.attributes, vec![Attribute::Rotate(num(0.0))]);
}

#[test]
fn wire_start_and_ends() {
    let mut w = Wire::new();
    assert_eq!(w.direction, Direction::Left);
    w.up();
    w.length(num(2.54));
    assert_eq!(w.at(text("R1"), Some("1".to_string())), Ok(()));
    assert_eq!(w.atref, Some(("R1".to_string(), "1".to_string())));
    assert_eq!(w.at(junction_arg(None), None), Ok(()));
    assert!(w.atdot.is_some());
    assert_eq!(w.at(nothing(), None), Err(unknown(Param::At, "NoneType")));
    assert_eq!(w.tox(junction_arg(None), None), Err(unknown(Param::Tox, "Junction")));
    assert_eq!(w.tox(text("R2"), Some("2".to_string())), Ok(()));
    assert_eq!(w.toxref, Some(("R2".to_string(), "2".to_string())));
    assert_eq!(w.toy(junction_arg(Some(pt(9.0, 9.0))), None), Ok(()));
    assert_eq!(w.toy, Some(At::Pt(pt(9.0, 9.0))));
    // an undrawn start junction places nothing, and hides the start pin
    assert_eq!(
        w.drawing(),
        vec![
            Attribute::Direction(Direction::Up),
            Attribute::Length(num(2.54)),
            Attribute::Tox(pin("R2", "2")),
            Attribute::Toy(At::Pt(pt(9.0, 9.0))),
        ]
    );
}

#[test]
fn wire_dots_in_name_order() {
    let mut w = Wire::new();
    assert_eq!(w.dot(arg(ArgKind::Integer(1), "int")), Err(unknown(Param::Dot, "int")));
    assert_eq!(
        w.dot(arg(
            ArgKind::TextList(vec!["end".to_string(), "middle".to_string(), "start".to_string(), "end".to_string()]),
            "list"
        )),
        Ok(())
    );
    assert_eq!(w.at(point(1.0, 1.0), None), Ok(()));
    let d = w.clone().drawing();
    assert_eq!(
        d,
        vec![
            Attribute::Direction(Direction::Left),
            Attribute::Length(num(1.0)),
            Attribute::At(At::Pt(pt(1.0, 1.0))),
            Attribute::Dot(vec![DotPosition::End, DotPosition::Start, DotPosition::End]),
        ]
    );
    assert_eq!(w.dot(text("nowhere")), Ok(()));
    assert_eq!(w.drawing().len(), 3);
}

#[test]
fn resistor_and_capacitor_quirks() {
    let mut r = R::new("R1".to_string(), "10k".to_string());
    assert_eq!(r.tox(text("x"), None), Err(unknown(Param::At, "str")));
    assert_eq!(r.toy(text("x"), None), Err(unknown(Param::At, "str")));
    assert_eq!(r.at(nothing(), None), Err(unknown(Param::At, "NoneType")));
    let mut c = C::new("C1".to_string(), "100n".to_string());
    assert_eq!(c.at(nothing(), None), Ok(()));
    assert_eq!(c.at, None);
    assert_eq!(c.tox(text("x"), None), Err(unknown(Param::Tox, "str")));
    assert_eq!(c.toy(text("x"), None), Err(unknown(Param::Toy, "str")));
    assert_eq!(c.at(point(1.0, 2.0), None), Ok(()));
    assert_eq!(c.label(text("south"), None), Ok(()));
    let d = c.drawing();
    assert_eq!(d.lib_id, "Device:C");
    assert_eq!(d.value, "100n");
    assert_eq!(
        d.attributes,
        vec![
            Attribute::Rotate(num(0.0)),
            Attribute::At(At::Pt(pt(1.0, 2.0))),
            Attribute::LabelPosition(LabelPosition::Direction("south".to_string())),
        ]
    );
    assert_eq!(r.toy(point(0.0, 1.0), None), Ok(()));
    let d = r.drawing();
    assert_eq!((d.reference.as_str(), d.value.as_str(), d.lib_id.as_str()), ("R1", "10k", "Device:R"));
    assert_eq!(d.attributes, vec![Attribute::Rotate(num(0.0)), Attribute::Toy(At::Pt(pt(0.0, 1.0)))]);
}

#[test]
fn power_and_ground_symbols() {
    let mut p = Power::new("+5V".to_string());
    assert_eq!(p.at(junction_arg(Some(pt(1.0, 1.0))), None), Err(unknown(Param::Rotate, "Junction")));
    p.rotate(num(90.0));
    let d = p.drawing();
    assert_eq!((d.reference.as_str(), d.value.as_str(), d.lib_id.as_str()), ("#PWR+5V", "+5V", "power:+5V"));
    assert_eq!(d.attributes, vec![Attribute::Rotate(num(90.0))]);
    let mut g = Gnd::new();
    assert_eq!(g.at(point(3.0, 3.0), None), Ok(()));
    let d = g.drawing();
    assert_eq!((d.reference.as_str(), d.value.as_str(), d.lib_id.as_str()), ("#PWRGND", "GND", "power:GND"));
    assert_eq!(d.attributes, vec![Attribute::Rotate(num(0.0)), Attribute::At(At::Pt(pt(3.0, 3.0)))]);
}

#[test]
fn feedback_pins_component_and_dots() {
    let mut f = Feedback::new();
    assert_eq!(f.start(text("U1"), None), Err(unknown(Param::Start, "str")));
    assert_eq!(f.end(point(1.0, 1.0), None), Err(unknown(Param::Start, "tuple")));
    assert_eq!(f.start(text("U1"), Some("2".to_string())), Ok(()));
    assert_eq!(f.end(text("U1"), Some("1".to_string())), Ok(()));
    assert_eq!(f.component(text("R")), Err(unknown(Param::Component, "str")));
    let mut r = R::new("R3".to_string(), "100k".to_string());
    r.rotate(num(90.0));
    assert_eq!(f.component(arg(ArgKind::Element(Element::Resistor(r)), "R")), Ok(()));
    let with = f.with.clone().unwrap();
    assert_eq!((with.reference.as_str(), with.value.as_str(), with.lib_id.as_str()), ("R3", "100k", "Device:R"));
    assert_eq!(with.rotate, num(90.0));
    assert_eq!(
        f.dot(arg(ArgKind::TextList(vec!["end".to_string(), "start".to_string(), "end".to_string()]), "list")),
        Ok(())
    );
    f.height(num(5.08));
    let d = f.clone().drawing();
    assert_eq!(d.atref, Some(("U1".to_string(), "2".to_string())));
    assert_eq!(d.toref, Some(("U1".to_string(), "1".to_string())));
    assert_eq!(d.height, num(5.08));
    assert_eq!(d.dot, Some(vec![DotPosition::Start, DotPosition::End]));
    assert_eq!(d.with.unwrap().attributes, vec![Attribute::Rotate(num(90.0))]);
    assert_eq!(f.dot(text("middle")), Ok(()));
    assert_eq!(f.drawing().dot, None);
}
