//! Properties that hold across the operations of the library.

use vstd::prelude::*;

use crate::elements::{
    lemma_without_key, names_contain, properties_map, wire_dots, without_key, Element, Gnd,
    GlobalLabel, Junction, LocalLabel, NoConnect, Power, Symbol, Wire, C, R,
};
use crate::placement::{
    resolve, ArgKind, At, Attribute, DotPosition, LabelPosition, Pt, Resolution, Rule,
};
use crate::schema::{popped, stack_after_drawing, top};
use crate::text::{decimal_digits, digit_char};

verus! {

/// The point of a pushed junction is the next one popped, and popping it
/// leaves the stack as it was before the junction was drawn; drawing a
/// junction that was not pushed leaves the stack alone.
pub proof fn law_pushed_junction_popped_first(stack: Seq<Pt>, junction: Junction, pos: Pt)
    ensures
        junction.pushed ==> popped(stack_after_drawing(stack, junction, pos)) == (Some(pos), stack),
        !junction.pushed ==> stack_after_drawing(stack, junction, pos) == stack,
{
    if junction.pushed {
        assert(stack.push(pos).drop_last() =~= stack);
    }
}

/// Peeking gives what popping would give.
pub proof fn law_peek_agrees_with_pop(stack: Seq<Pt>)
    ensures
        top(stack) == popped(stack).0,
{
}

/// The property entries after a key is set.
pub open spec fn entries_after_setting(
    entries: Seq<(String, String)>,
    key: String,
    val: String,
) -> Seq<(String, String)> {
    without_key(entries, key@).push((key, val))
}

/// Setting a property makes the key map to the value and leaves every other
/// key as it was; setting the same key twice is setting it once to the last value.
pub proof fn law_property_overrides(
    entries: Seq<(String, String)>,
    key: String,
    first: String,
    second: String,
)
    ensures
        properties_map(entries_after_setting(entries, key, first)) == properties_map(
            entries,
        ).insert(key@, first@),
        properties_map(entries_after_setting(entries_after_setting(entries, key, first), key, second))
            == properties_map(entries_after_setting(entries, key, second)),
{
    let once = entries_after_setting(entries, key, first);
    lemma_without_key(entries, key@);
    assert(entries_after_setting(entries, key, first).drop_last() == without_key(entries, key@));
    assert(properties_map(once) =~= properties_map(entries).insert(key@, first@));
    lemma_without_key(once, key@);
    let twice = entries_after_setting(once, key, second);
    assert(twice.drop_last() == without_key(once, key@));
    let direct = entries_after_setting(entries, key, second);
    assert(direct.drop_last() == without_key(entries, key@));
    assert(properties_map(twice) =~= properties_map(direct));
}

/// Decimal text has no leading zero: only zero itself starts with `0`, and
/// every character is a digit.
pub proof fn law_decimal_digits_well_formed(n: nat)
    ensures
        n >= 10 ==> decimal_digits(n)[0] != '0',
        forall|i: int| 0 <= i < decimal_digits(n).len() ==> '0' <= #[trigger] decimal_digits(n)[i] <= '9',
        decimal_digits(n).len() >= 1,
    decreases n,
{
    if n >= 10 {
        law_decimal_digits_well_formed(n / 10);
        let d = decimal_digits(n / 10);
        assert(decimal_digits(n) == d.push(digit_char((n % 10) as int)));
        assert(decimal_digits(n)[0] == d[0]);
        if n / 10 < 10 {
            assert(d[0] == digit_char((n / 10) as int));
        }
    }
}

/// Where a symbol is placed is where the drawing engine is told to draw it:
/// a symbol placed at `at` hands the attribute `At(at)`, and a symbol that is
/// not placed hands no `At` attribute.
pub proof fn law_symbol_drawn_where_placed(s: Symbol, at: At)
    ensures
        (Symbol { at: Some(at), ..s }).spec_attributes().contains(Attribute::At(at)),
        forall|i: int|
            0 <= i < (Symbol { at: None, ..s }).spec_attributes().len() ==> !((Symbol {
                at: None,
                ..s
            }).spec_attributes()[i] is At),
{
    let placed = Symbol { at: Some(at), ..s };
    let prefix = seq![Attribute::Rotate(s.rotate)] + crate::elements::anchor_attribute(s.anchor)
        + crate::elements::mirror_attribute(s.mirror) + crate::elements::tox_attribute(s.tox)
        + crate::elements::toy_attribute(s.toy);
    assert(placed.spec_attributes()[prefix.len() as int] == Attribute::At(at));
}

/// A wire that starts at a point, and at no junction or pin, is drawn from
/// that point.
pub proof fn law_wire_drawn_from_start_point(w: Wire, p: Pt)
    requires
        w.atdot is None,
        w.atref is None,
        w.pos == Some(p),
    ensures
        w.spec_placement_attributes()[2] == Attribute::At(At::Pt(p)),
{
}

/// A symbol reference given together with a pin name places the element at
/// that pin of that symbol, whatever the rule.
pub proof fn law_reference_with_pin_places_at_pin(reference: String, pin: String, rule: Rule)
    ensures
        resolve(ArgKind::Text(reference), Some(pin), rule) == Resolution::Place(
            At::Pin(reference, pin),
        ),
{
}

/// A pair of numbers places the element at that point, whatever the rule and
/// whatever pin name is given beside it.
pub proof fn law_point_places_at_point(p: Pt, pin: Option<String>, rule: Rule)
    ensures
        resolve(ArgKind::Point(p), pin, rule) == Resolution::Place(At::Pt(p)),
{
}

/// A rule decides only how a junction and the absent value are read: every
/// other value is read alike by every rule.
pub proof fn law_rules_differ_only_on_junctions_and_nothing(
    kind: ArgKind,
    pin: Option<String>,
    a: Rule,
    b: Rule,
)
    requires
        !(kind is Nothing),
        !(kind matches ArgKind::Element(Element::Junction(_))),
    ensures
        resolve(kind, pin, a) == resolve(kind, pin, b),
{
}

/// A wire is drawn in its direction and with its length, and from where it
/// starts: from a drawn junction at that junction's point, else from a symbol
/// pin at that pin, else from a start point at that point.
pub proof fn law_wire_drawn_from_its_start(w: Wire)
    ensures
        w.spec_placement_attributes()[0] == Attribute::Direction(w.direction),
        w.spec_placement_attributes()[1] == Attribute::Length(w.length),
        w.atdot matches Some(j) ==> (j.pos matches Some(p) ==> w.spec_placement_attributes()[2]
            == Attribute::At(At::Pt(p))),
        w.atdot is None ==> (w.atref matches Some((a, b)) ==> w.spec_placement_attributes()[2]
            == Attribute::At(At::Pin(a, b))),
        w.atdot is None && w.atref is None ==> (w.pos matches Some(p)
            ==> w.spec_placement_attributes()[2] == Attribute::At(At::Pt(p))),
{
}

/// A wire that starts at a symbol pin, and at no junction, is drawn from that
/// pin: right after its direction and length comes the pin.
pub proof fn law_wire_drawn_from_start_pin(w: Wire, reference: String, pin: String)
    requires
        w.atdot is None,
        w.atref == Some((reference, pin)),
    ensures
        w.spec_placement_attributes()[2] == Attribute::At(At::Pin(reference, pin)),
        w.spec_placement_attributes().len() >= 3,
{
}

/// A one-element sequence holds exactly its element.
pub broadcast proof fn lemma_singleton_contains<A>(x: A, y: A)
    ensures
        #[trigger] seq![x].contains(y) <==> x == y,
{
    if x == y {
        assert(seq![x][0] == y);
    }
}

/// A local label hands the drawing engine its own rotation first, and is drawn
/// at a place exactly when it was placed there.
pub proof fn law_local_label_drawn_rotated_and_placed(l: LocalLabel, a: At)
    ensures
        l.spec_attributes()[0] == Attribute::Rotate(l.rotate),
        l.spec_attributes().contains(Attribute::At(a)) <==> l.at == Some(a),
{
    broadcast use vstd::seq_lib::lemma_seq_concat_contains_all_elements, lemma_singleton_contains;
}

/// A global label hands the drawing engine its own rotation first, and is drawn
/// at a place exactly when it was placed there.
pub proof fn law_global_label_drawn_rotated_and_placed(l: GlobalLabel, a: At)
    ensures
        l.spec_attributes()[0] == Attribute::Rotate(l.rotate),
        l.spec_attributes().contains(Attribute::At(a)) <==> l.at == Some(a),
{
    broadcast use vstd::seq_lib::lemma_seq_concat_contains_all_elements, lemma_singleton_contains;
}

/// A power source hands the drawing engine its own rotation first, and is
/// drawn at a place exactly when it was placed there.
pub proof fn law_power_drawn_rotated_and_placed(p: Power, a: At)
    ensures
        p.spec_attributes()[0] == Attribute::Rotate(p.rotate),
        p.spec_attributes().contains(Attribute::At(a)) <==> p.at == Some(a),
{
    broadcast use vstd::seq_lib::lemma_seq_concat_contains_all_elements, lemma_singleton_contains;
}

/// A ground symbol hands the drawing engine its own rotation first, and is
/// drawn at a place exactly when it was placed there.
pub proof fn law_gnd_drawn_rotated_and_placed(g: Gnd, a: At)
    ensures
        g.spec_attributes()[0] == Attribute::Rotate(g.rotate),
        g.spec_attributes().contains(Attribute::At(a)) <==> g.at == Some(a),
{
    broadcast use vstd::seq_lib::lemma_seq_concat_contains_all_elements, lemma_singleton_contains;
}

/// A symbol hands the drawing engine its own rotation first, and each of its
/// settings exactly when it is set: an anchor, a mirror axis, x and y targets,
/// a placement, a unit, a label position, and its properties when it has any.
pub proof fn law_symbol_hands_its_settings(
    s: Symbol,
    anchor: String,
    mirror: String,
    tox: At,
    toy: At,
    at: At,
    unit: u8,
    label: LabelPosition,
    properties: Vec<(String, String)>,
)
    ensures
        s.spec_attributes()[0] == Attribute::Rotate(s.rotate),
        s.spec_attributes().contains(Attribute::Anchor(anchor)) <==> s.anchor == Some(anchor),
        s.spec_attributes().contains(Attribute::Mirror(mirror)) <==> s.mirror == Some(mirror),
        s.spec_attributes().contains(Attribute::Tox(tox)) <==> s.tox == Some(tox),
        s.spec_attributes().contains(Attribute::Toy(toy)) <==> s.toy == Some(toy),
        s.spec_attributes().contains(Attribute::At(at)) <==> s.at == Some(at),
        s.spec_attributes().contains(Attribute::Unit(unit)) <==> s.unit == Some(unit),
        s.spec_attributes().contains(Attribute::LabelPosition(label)) <==> s.label == Some(label),
        s.spec_attributes().contains(Attribute::Property(properties)) <==> (s.properties@.len() > 0
            && properties == s.properties),
{
    broadcast use vstd::seq_lib::lemma_seq_concat_contains_all_elements, lemma_singleton_contains;
    broadcast use vstd::seq_lib::lemma_seq_empty_contains_nothing;

}

/// A resistor hands the drawing engine its own rotation first, and its
/// placement, x and y targets and label position exactly when they are set.
pub proof fn law_resistor_hands_its_settings(r: R, at: At, tox: At, toy: At, label: LabelPosition)
    ensures
        r.spec_attributes()[0] == Attribute::Rotate(r.rotate),
        r.spec_attributes().contains(Attribute::At(at)) <==> r.at == Some(at),
        r.spec_attributes().contains(Attribute::Tox(tox)) <==> r.tox == Some(tox),
        r.spec_attributes().contains(Attribute::Toy(toy)) <==> r.toy == Some(toy),
        r.spec_attributes().contains(Attribute::LabelPosition(label)) <==> r.label == Some(label),
{
    broadcast use vstd::seq_lib::lemma_seq_concat_contains_all_elements, lemma_singleton_contains;
    broadcast use vstd::seq_lib::lemma_seq_empty_contains_nothing;

}

/// A capacitor hands the drawing engine its own rotation first, and its
/// placement, x and y targets and label position exactly when they are set.
pub proof fn law_capacitor_hands_its_settings(c: C, at: At, tox: At, toy: At, label: LabelPosition)
    ensures
        c.spec_attributes()[0] == Attribute::Rotate(c.rotate),
        c.spec_attributes().contains(Attribute::At(at)) <==> c.at == Some(at),
        c.spec_attributes().contains(Attribute::Tox(tox)) <==> c.tox == Some(tox),
        c.spec_attributes().contains(Attribute::Toy(toy)) <==> c.toy == Some(toy),
        c.spec_attributes().contains(Attribute::LabelPosition(label)) <==> c.label == Some(label),
{
    broadcast use vstd::seq_lib::lemma_seq_concat_contains_all_elements, lemma_singleton_contains;
    broadcast use vstd::seq_lib::lemma_seq_empty_contains_nothing;

}

/// A junction that has been drawn places the element at the junction's point
/// under every rule that reads junctions; the rule for a point or a pin alone
/// refuses a junction; an undrawn junction is refused where the junction must
/// have been drawn, and leaves the placement as it is under the other rules.
pub proof fn law_junction_read_by_rule(j: Junction, pin: Option<String>, rule: Rule)
    ensures
        rule == Rule::PointPin ==> resolve(ArgKind::Element(Element::Junction(j)), pin, rule)
            == Resolution::Reject,
        rule != Rule::PointPin ==> (j.pos matches Some(p) ==> resolve(
            ArgKind::Element(Element::Junction(j)),
            pin,
            rule,
        ) == Resolution::Place(At::Pt(p))),
        rule != Rule::PointPin && j.pos is None ==> resolve(
            ArgKind::Element(Element::Junction(j)),
            pin,
            rule,
        ) == (if rule == Rule::DrawnJunctionPointPin {
            Resolution::Reject
        } else {
            Resolution::Keep
        }),
{
}

/// The absent value leaves the placement as it is under the one rule that
/// allows it, and is refused under every other rule.
pub proof fn law_nothing_kept_only_where_allowed(pin: Option<String>, rule: Rule)
    ensures
        resolve(ArgKind::Nothing, pin, rule) == (if rule == Rule::PointJunctionPinNothing {
            Resolution::Keep
        } else {
            Resolution::Reject
        }),
{
}

/// A wire reaches its x target, given as a place or else as a symbol pin, and
/// likewise its y target.
pub proof fn law_wire_reaches_its_targets(w: Wire)
    ensures
        w.tox matches Some(t) ==> w.spec_placement_attributes().contains(Attribute::Tox(t)),
        w.tox is None ==> (w.toxref matches Some((a, b))
            ==> w.spec_placement_attributes().contains(Attribute::Tox(At::Pin(a, b)))),
        w.toy matches Some(t) ==> w.spec_placement_attributes().contains(Attribute::Toy(t)),
        w.toy is None ==> (w.toyref matches Some((a, b))
            ==> w.spec_placement_attributes().contains(Attribute::Toy(At::Pin(a, b)))),
{
    broadcast use vstd::seq_lib::lemma_seq_concat_contains_all_elements, lemma_singleton_contains;

}

/// The dots of a wire are those its dot names ask for: a dot at the start
/// exactly when some name is `start`, one at the end exactly when some name is
/// `end`, and no other.
pub proof fn law_wire_dots_follow_names(names: Seq<String>)
    ensures
        wire_dots(names).contains(DotPosition::Start) <==> names_contain(names, "start"@),
        wire_dots(names).contains(DotPosition::End) <==> names_contain(names, "end"@),
    decreases names.len(),
{
    broadcast use vstd::seq_lib::lemma_seq_concat_contains_all_elements, lemma_singleton_contains;
    broadcast use vstd::seq_lib::lemma_seq_empty_contains_nothing;

    if names.len() > 0 {
        let rest = names.drop_last();
        law_wire_dots_follow_names(rest);
        assert forall|name: Seq<char>| names_contain(names, name) <==> (names_contain(rest, name)
            || names.last()@ == name) by {
            if names_contain(names, name) {
                let i = choose|i: int| 0 <= i < names.len() && #[trigger] names[i]@ == name;
                if i < rest.len() {
                    assert(rest[i]@ == name);
                }
            }
            if names_contain(rest, name) {
                let i = choose|i: int| 0 <= i < rest.len() && #[trigger] rest[i]@ == name;
                assert(names[i]@ == name);
            }
            if names.last()@ == name {
                assert(names[names.len() - 1]@ == name);
            }
        }
    }
}

/// A no-connect marker is drawn at a place exactly when it was placed there.
pub proof fn law_no_connect_placed(n: NoConnect, a: At)
    ensures
        n.spec_attributes().contains(Attribute::At(a)) <==> n.at == Some(a),
{
    broadcast use vstd::seq_lib::lemma_seq_empty_contains_nothing, lemma_singleton_contains;

}

} // verus!
