use vstd::prelude::*;

use super::at_attribute;
use crate::placement::{
    label_position, label_target, resolve, resolve_placement, Arg, ArgError, ArgKind, At,
    Attribute, LabelPosition, Param, Real, Resolution, Rule,
};
use crate::text::{decimal_text, format_i64};

verus! {

/// The key/value map that a list of property entries stands for: where a key
/// occurs more than once, the last entry wins.
pub open spec fn properties_map(s: Seq<(String, String)>) -> Map<Seq<char>, Seq<char>>
    decreases s.len(),
{
    if s.len() == 0 {
        Map::empty()
    } else {
        properties_map(s.drop_last()).insert(s.last().0@, s.last().1@)
    }
}

/// The entries of `s` whose key is not `key`, in order.
pub open spec fn without_key(s: Seq<(String, String)>, key: Seq<char>) -> Seq<(String, String)>
    decreases s.len(),
{
    if s.len() == 0 {
        s
    } else if s.last().0@ == key {
        without_key(s.drop_last(), key)
    } else {
        without_key(s.drop_last(), key).push(s.last())
    }
}

pub(crate) proof fn lemma_without_key(s: Seq<(String, String)>, key: Seq<char>)
    ensures
        properties_map(without_key(s, key)) == properties_map(s).remove(key),
    decreases s.len(),
{
    if s.len() > 0 {
        lemma_without_key(s.drop_last(), key);
        let w = without_key(s.drop_last(), key);
        if s.last().0@ != key {
            assert(without_key(s, key).drop_last() == w);
        }
        assert(properties_map(without_key(s, key)) =~= properties_map(s).remove(key));
    } else {
        assert(properties_map(s).remove(key) =~= Map::empty());
    }
}

/// The attribute that an optional anchor adds.
pub open spec fn anchor_attribute(o: Option<String>) -> Seq<Attribute> {
    match o {
        Some(a) => seq![Attribute::Anchor(a)],
        None => seq![],
    }
}

/// The attribute that an optional mirror axis adds.
pub open spec fn mirror_attribute(o: Option<String>) -> Seq<Attribute> {
    match o {
        Some(m) => seq![Attribute::Mirror(m)],
        None => seq![],
    }
}

/// The attribute that an optional x target adds.
pub open spec fn tox_attribute(o: Option<At>) -> Seq<Attribute> {
    match o {
        Some(a) => seq![Attribute::Tox(a)],
        None => seq![],
    }
}

/// The attribute that an optional y target adds.
pub open spec fn toy_attribute(o: Option<At>) -> Seq<Attribute> {
    match o {
        Some(a) => seq![Attribute::Toy(a)],
        None => seq![],
    }
}

/// The attribute that an optional unit adds.
pub open spec fn unit_attribute(o: Option<u8>) -> Seq<Attribute> {
    match o {
        Some(u) => seq![Attribute::Unit(u)],
        None => seq![],
    }
}

/// The attribute that an optional label position adds.
pub open spec fn label_attribute(o: Option<LabelPosition>) -> Seq<Attribute> {
    match o {
        Some(l) => seq![Attribute::LabelPosition(l)],
        None => seq![],
    }
}

pub(crate) fn push_anchor(v: &mut Vec<Attribute>, o: Option<String>)
    ensures
        final(v)@ == old(v)@ + anchor_attribute(o),
{
    if let Some(x) = o {
        v.push(Attribute::Anchor(x));
    }
    assert(v@ =~= old(v)@ + anchor_attribute(o));
}

pub(crate) fn push_mirror(v: &mut Vec<Attribute>, o: Option<String>)
    ensures
        final(v)@ == old(v)@ + mirror_attribute(o),
{
    if let Some(x) = o {
        v.push(Attribute::Mirror(x));
    }
    assert(v@ =~= old(v)@ + mirror_attribute(o));
}

pub(crate) fn push_tox(v: &mut Vec<Attribute>, o: Option<At>)
    ensures
        final(v)@ == old(v)@ + tox_attribute(o),
{
    if let Some(x) = o {
        v.push(Attribute::Tox(x));
    }
    assert(v@ =~= old(v)@ + tox_attribute(o));
}

pub(crate) fn push_toy(v: &mut Vec<Attribute>, o: Option<At>)
    ensures
        final(v)@ == old(v)@ + toy_attribute(o),
{
    if let Some(x) = o {
        v.push(Attribute::Toy(x));
    }
    assert(v@ =~= old(v)@ + toy_attribute(o));
}

pub(crate) fn push_at(v: &mut Vec<Attribute>, o: Option<At>)
    ensures
        final(v)@ == old(v)@ + at_attribute(o),
{
    if let Some(x) = o {
        v.push(Attribute::At(x));
    }
    assert(v@ =~= old(v)@ + at_attribute(o));
}

pub(crate) fn push_unit(v: &mut Vec<Attribute>, o: Option<u8>)
    ensures
        final(v)@ == old(v)@ + unit_attribute(o),
{
    if let Some(x) = o {
        v.push(Attribute::Unit(x));
    }
    assert(v@ =~= old(v)@ + unit_attribute(o));
}

pub(crate) fn push_label(v: &mut Vec<Attribute>, o: Option<LabelPosition>)
    ensures
        final(v)@ == old(v)@ + label_attribute(o),
{
    if let Some(x) = o {
        v.push(Attribute::LabelPosition(x));
    }
    assert(v@ =~= old(v)@ + label_attribute(o));
}

/// What a symbol hands to the drawing engine: its reference, value and
/// library id, and its attributes, in order.
#[derive(Debug, PartialEq)]
pub struct SymbolDrawing {
    pub reference: String,
    pub value: String,
    pub lib_id: String,
    pub attributes: Vec<Attribute>,
}

/// A schematic `Symbol`, an instance of a symbol of the library.
#[derive(Clone, Debug, PartialEq)]
pub struct Symbol {
    pub reference: String,
    pub value: String,
    pub lib_id: String,
    pub rotate: Real,
    pub anchor: Option<String>,
    pub mirror: Option<String>,
    pub tox: Option<At>,
    pub toy: Option<At>,
    pub at: Option<At>,
    pub unit: Option<u8>,
    /// Key/value properties; where a key occurs more than once the last entry wins.
    pub properties: Vec<(String, String)>,
    pub label: Option<LabelPosition>,
}

impl Symbol {
    /// Whether this symbol has the given reference, value and library id, and
    /// nothing else set.
    pub open spec fn is_new(self, reference: String, value: String, lib_id: String) -> bool {
        &&& self.reference == reference
        &&& self.value == value
        &&& self.lib_id == lib_id
        &&& self.rotate.bits == 0
        &&& self.anchor is None
        &&& self.mirror is None
        &&& self.tox is None
        &&& self.toy is None
        &&& self.at is None
        &&& self.unit is None
        &&& self.properties@.len() == 0
        &&& self.label is None
    }

    pub fn new(reference: &str, value: &str, lib_id: &str) -> (r: Symbol)
        ensures
            r.reference@ == reference@,
            r.value@ == value@,
            r.lib_id@ == lib_id@,
            r.is_new(r.reference, r.value, r.lib_id),
    {
        Symbol::with_names(
            String::from_str(reference),
            String::from_str(value),
            String::from_str(lib_id),
        )
    }

    /// A symbol with the given reference, value and library id, and nothing else set.
    pub fn with_names(reference: String, value: String, lib_id: String) -> (r: Symbol)
        ensures
            r.is_new(reference, value, lib_id),
    {
        let properties = Vec::new();
        Symbol {
            reference,
            value,
            lib_id,
            rotate: Real::zero(),
            anchor: None,
            mirror: None,
            tox: None,
            toy: None,
            at: None,
            unit: None,
            properties,
            label: None,
        }
    }

    /// Rotates the symbol by `angle` degrees.
    pub fn rotate(&mut self, angle: Real)
        ensures
            *final(self) == (Symbol { rotate: angle, ..*old(self) }),
    {
        self.rotate = angle;
    }

    /// Sets the anchor pin, given as a string or as an integer.
    pub fn anchor(&mut self, pin: Arg) -> (r: Result<(), ArgError>)
        ensures
            match pin.kind {
                ArgKind::Text(s) => r is Ok && *final(self) == (Symbol {
                    anchor: Some(s),
                    ..*old(self)
                }),
                ArgKind::Integer(i) => r is Ok && final(self).anchor is Some
                    && final(self).anchor.unwrap()@ == decimal_text(i as int) && *final(self) == (
                Symbol { anchor: final(self).anchor, ..*old(self) }),
                _ => r == Err::<(), ArgError>(
                    ArgError::UnknownType { param: Param::Anchor, type_label: pin.type_label },
                ) && *final(self) == *old(self),
            },
    {
        let Arg { kind, type_label } = pin;
        match kind {
            ArgKind::Text(s) => {
                self.anchor = Some(s);
                Ok(())
            },
            ArgKind::Integer(i) => {
                self.anchor = Some(format_i64(i));
                Ok(())
            },
            _ => Err(ArgError::UnknownType { param: Param::Anchor, type_label }),
        }
    }

    /// Mirrors the symbol about an axis: `x`, `y` or `xy`.
    pub fn mirror(&mut self, axis: String)
        ensures
            *final(self) == (Symbol { mirror: Some(axis), ..*old(self) }),
    {
        self.mirror = Some(axis);
    }

    /// Places the symbol at a point, at a junction, or at a pin of another symbol.
    pub fn at(&mut self, reference: Arg, pin: Option<String>) -> (r: Result<(), ArgError>)
        ensures
            match resolve(reference.kind, pin, Rule::PointJunctionPin) {
                Resolution::Place(at) => r is Ok && *final(self) == (Symbol {
                    at: Some(at),
                    ..*old(self)
                }),
                Resolution::Keep => r is Ok && *final(self) == *old(self),
                Resolution::Reject => r == Err::<(), ArgError>(
                    ArgError::UnknownType { param: Param::At, type_label: reference.type_label },
                ) && *final(self) == *old(self),
            },
    {
        let Arg { kind, type_label } = reference;
        match resolve_placement(kind, pin, Rule::PointJunctionPin) {
            Resolution::Place(at) => {
                self.at = Some(at);
                Ok(())
            },
            Resolution::Keep => Ok(()),
            Resolution::Reject => Err(ArgError::UnknownType { param: Param::At, type_label }),
        }
    }

    /// Sets the x coordinate of the symbol from a drawn junction, a point, or a pin.
    pub fn tox(&mut self, reference: Arg, pin: Option<String>) -> (r: Result<(), ArgError>)
        ensures
            match resolve(reference.kind, pin, Rule::DrawnJunctionPointPin) {
                Resolution::Place(at) => r is Ok && *final(self) == (Symbol {
                    tox: Some(at),
                    ..*old(self)
                }),
                _ => r == Err::<(), ArgError>(
                    ArgError::UnknownType { param: Param::Tox, type_label: reference.type_label },
                ) && *final(self) == *old(self),
            },
    {
        let Arg { kind, type_label } = reference;
        match resolve_placement(kind, pin, Rule::DrawnJunctionPointPin) {
            Resolution::Place(at) => {
                self.tox = Some(at);
                Ok(())
            },
            _ => Err(ArgError::UnknownType { param: Param::Tox, type_label }),
        }
    }

    /// Sets the y coordinate of the symbol from a drawn junction, a point, or a pin.
    pub fn toy(&mut self, reference: Arg, pin: Option<String>) -> (r: Result<(), ArgError>)
        ensures
            match resolve(reference.kind, pin, Rule::DrawnJunctionPointPin) {
                Resolution::Place(at) => r is Ok && *final(self) == (Symbol {
                    toy: Some(at),
                    ..*old(self)
                }),
                _ => r == Err::<(), ArgError>(
                    ArgError::UnknownType { param: Param::Toy, type_label: reference.type_label },
                ) && *final(self) == *old(self),
            },
    {
        let Arg { kind, type_label } = reference;
        match resolve_placement(kind, pin, Rule::DrawnJunctionPointPin) {
            Resolution::Place(at) => {
                self.toy = Some(at);
                Ok(())
            },
            _ => Err(ArgError::UnknownType { param: Param::Toy, type_label }),
        }
    }

    /// Selects the unit of the symbol.
    pub fn unit(&mut self, unit: u8)
        ensures
            *final(self) == (Symbol { unit: Some(unit), ..*old(self) }),
    {
        self.unit = Some(unit);
    }

    /// Sets a property: afterwards `key` maps to `val`, and every other key keeps its value.
    pub fn property(&mut self, key: String, val: String)
        ensures
            final(self).properties@ == without_key(old(self).properties@, key@).push((key, val)),
            properties_map(final(self).properties@) == properties_map(
                old(self).properties@,
            ).insert(key@, val@),
            *final(self) == (Symbol { properties: final(self).properties, ..*old(self) }),
    {
        let mut kept: Vec<(String, String)> = Vec::new();
        let n = self.properties.len();
        for i in 0..n
            invariant
                n == self.properties@.len(),
                kept@ == without_key(self.properties@.take(i as int), key@),
        {
            let ghost s = self.properties@.take(i + 1);
            assert(s.drop_last() == self.properties@.take(i as int));
            let entry = &self.properties[i];
            if entry.0 != key {
                let copy = (entry.0.clone(), entry.1.clone());
                kept.push(copy);
            }
        }
        assert(self.properties@.take(n as int) == self.properties@);
        proof {
            lemma_without_key(self.properties@, key@);
        }
        let ghost before = self.properties@;
        kept.push((key, val));
        self.properties = kept;
        proof {
            let w = without_key(before, key@);
            assert(self.properties@.drop_last() == w);
            assert(properties_map(self.properties@) =~= properties_map(before).remove(key@).insert(
                key@,
                val@,
            ));
            assert(properties_map(before).remove(key@).insert(key@, val@) =~= properties_map(
                before,
            ).insert(key@, val@));
        }
    }

    /// Places the property texts, by the name of a direction or by an offset.
    pub fn label(&mut self, pos: Arg, rejected: Option<String>) -> (r: Result<(), ArgError>)
        ensures
            match label_target(pos, rejected) {
                Ok(l) => r is Ok && *final(self) == (Symbol { label: Some(l), ..*old(self) }),
                Err(e) => r == Err::<(), ArgError>(e) && *final(self) == *old(self),
            },
    {
        match label_position(pos, rejected) {
            Ok(l) => {
                self.label = Some(l);
                Ok(())
            },
            Err(e) => Err(e),
        }
    }

    pub open spec fn spec_attributes(self) -> Seq<Attribute> {
        seq![Attribute::Rotate(self.rotate)] + anchor_attribute(self.anchor) + mirror_attribute(self.mirror)
            + tox_attribute(self.tox) + toy_attribute(self.toy) + at_attribute(self.at) + unit_attribute(self.unit)
            + label_attribute(self.label) + (
        if self.properties@.len() > 0 {
            seq![Attribute::Property(self.properties)]
        } else {
            seq![]
        })
    }

    /// The symbol as the drawing engine receives it.
    #[verifier::spinoff_prover]
    pub fn drawing(self) -> (d: SymbolDrawing)
        ensures
            d.reference == self.reference,
            d.value == self.value,
            d.lib_id == self.lib_id,
            d.attributes@ == self.spec_attributes(),
    {
        let ghost me = self;
        let mut attributes = Vec::new();
        attributes.push(Attribute::Rotate(self.rotate));
        push_anchor(&mut attributes, self.anchor);
        push_mirror(&mut attributes, self.mirror);
        push_tox(&mut attributes, self.tox);
        push_toy(&mut attributes, self.toy);
        push_at(&mut attributes, self.at);
        push_unit(&mut attributes, self.unit);
        push_label(&mut attributes, self.label);
        let ghost a7 = attributes@;
        if self.properties.len() > 0 {
            attributes.push(Attribute::Property(self.properties));
        }
        assert(attributes@ =~= a7 + (if me.properties@.len() > 0 {
            seq![Attribute::Property(me.properties)]
        } else {
            seq![]
        }));
        SymbolDrawing {
            reference: self.reference,
            value: self.value,
            lib_id: self.lib_id,
            attributes,
        }
    }
}

} // verus!
