use vstd::prelude::*;

use super::symbol::{label_attribute, tox_attribute, toy_attribute};
use super::{at_attribute, Symbol, SymbolDrawing};
use crate::placement::{
    label_position, label_target, resolve, resolve_placement, Arg, ArgError, At, Attribute,
    LabelPosition, Param, Real, Resolution, Rule,
};

verus! {

/// A resistor.
#[derive(Clone, Debug, PartialEq)]
pub struct R {
    pub reference: String,
    pub resistance: String,
    pub rotate: Real,
    pub label: Option<LabelPosition>,
    pub at: Option<At>,
    pub tox: Option<At>,
    pub toy: Option<At>,
}

impl R {
    pub fn new(reference: String, resistance: String) -> (r: R)
        ensures
            r.reference == reference,
            r.resistance == resistance,
            r.rotate.bits == 0,
            r.label is None,
            r.at is None,
            r.tox is None,
            r.toy is None,
    {
        R { reference, resistance, rotate: Real::zero(), label: None, at: None, tox: None, toy: None }
    }

    /// Rotates the resistor.
    pub fn rotate(&mut self, angle: Real)
        ensures
            *final(self) == (R { rotate: angle, ..*old(self) }),
    {
        self.rotate = angle;
    }

    /// Places the resistor at a point, at a junction, or at a pin of a symbol.
    pub fn at(&mut self, reference: Arg, pin: Option<String>) -> (r: Result<(), ArgError>)
        ensures
            match resolve(reference.kind, pin, Rule::PointJunctionPin) {
                Resolution::Place(at) => r is Ok && *final(self) == (R {
                    at: Some(at),
                    ..*old(self)
                }),
                Resolution::Keep => r is Ok && *final(self) == *old(self),
                Resolution::Reject => r == Err::<(), ArgError>(
                    ArgError::UnknownType { param: Param::At, type_label: reference.type_label },
                ) && *final(self) == *old(self),
            },
    {
        let Arg { kind, type_label } = reference;
        match resolve_placement(kind, pin, Rule::PointJunctionPin) {
            Resolution::Place(at) => {
                self.at = Some(at);
                Ok(())
            },
            Resolution::Keep => Ok(()),
            Resolution::Reject => Err(ArgError::UnknownType { param: Param::At, type_label }),
        }
    }

    /// Sets the x coordinate of the resistor from a drawn junction, a point, or a pin.
    pub fn tox(&mut self, reference: Arg, pin: Option<String>) -> (r: Result<(), ArgError>)
        ensures
            match resolve(reference.kind, pin, Rule::DrawnJunctionPointPin) {
                Resolution::Place(at) => r is Ok && *final(self) == (R {
                    tox: Some(at),
                    ..*old(self)
                }),
                _ => r == Err::<(), ArgError>(
                    ArgError::UnknownType { param: Param::At, type_label: reference.type_label },
                ) && *final(self) == *old(self),
            },
    {
        let Arg { kind, type_label } = reference;
        match resolve_placement(kind, pin, Rule::DrawnJunctionPointPin) {
            Resolution::Place(at) => {
                self.tox = Some(at);
                Ok(())
            },
            _ => Err(ArgError::UnknownType { param: Param::At, type_label }),
        }
    }

    /// Sets the y coordinate of the resistor from a drawn junction, a point, or a pin.
    pub fn toy(&mut self, reference: Arg, pin: Option<String>) -> (r: Result<(), ArgError>)
        ensures
            match resolve(reference.kind, pin, Rule::DrawnJunctionPointPin) {
                Resolution::Place(at) => r is Ok && *final(self) == (R {
                    toy: Some(at),
                    ..*old(self)
                }),
                _ => r == Err::<(), ArgError>(
                    ArgError::UnknownType { param: Param::At, type_label: reference.type_label },
                ) && *final(self) == *old(self),
            },
    {
        let Arg { kind, type_label } = reference;
        match resolve_placement(kind, pin, Rule::DrawnJunctionPointPin) {
            Resolution::Place(at) => {
                self.toy = Some(at);
                Ok(())
            },
            _ => Err(ArgError::UnknownType { param: Param::At, type_label }),
        }
    }

    /// Places the property texts, by the name of a direction or by an offset.
    pub fn label(&mut self, pos: Arg, rejected: Option<String>) -> (r: Result<(), ArgError>)
        ensures
            match label_target(pos, rejected) {
                Ok(l) => r is Ok && *final(self) == (R { label: Some(l), ..*old(self) }),
                Err(e) => r == Err::<(), ArgError>(e) && *final(self) == *old(self),
            },
    {
        match label_position(pos, rejected) {
            Ok(l) => {
                self.label = Some(l);
                Ok(())
            },
            Err(e) => Err(e),
        }
    }

    pub open spec fn spec_attributes(self) -> Seq<Attribute> {
        seq![Attribute::Rotate(self.rotate)] + at_attribute(self.at) + tox_attribute(self.tox) + toy_attribute(self.toy) + label_attribute(self.label)
    }

    /// The resistor as the drawing engine receives it: a `Device:R` symbol.
    pub fn drawing(self) -> (d: SymbolDrawing)
        ensures
            d.reference == self.reference,
            d.value == self.resistance,
            d.lib_id@ == "Device:R"@,
            d.attributes@ == self.spec_attributes(),
    {
        let ghost me = self;
        let mut attributes = Vec::new();
        attributes.push(Attribute::Rotate(self.rotate));
        let ghost a0 = attributes@;
        if let Some(at) = self.at {
            attributes.push(Attribute::At(at));
        }
        let ghost a1 = attributes@;
        assert(a1 =~= a0 + at_attribute(me.at));
        if let Some(tox) = self.tox {
            attributes.push(Attribute::Tox(tox));
        }
        let ghost a2 = attributes@;
        assert(a2 =~= a1 + tox_attribute(me.tox));
        if let Some(toy) = self.toy {
            attributes.push(Attribute::Toy(toy));
        }
        let ghost a3 = attributes@;
        assert(a3 =~= a2 + toy_attribute(me.toy));
        if let Some(label) = self.label {
            attributes.push(Attribute::LabelPosition(label));
        }
        assert(attributes@ =~= a3 + label_attribute(me.label));
        SymbolDrawing {
            reference: self.reference,
            value: self.resistance,
            lib_id: String::from_str("Device:R"),
            attributes,
        }
    }

    /// The resistor as a general symbol, as a feedback line takes it.
    pub fn to_symbol(self) -> (s: Symbol)
        ensures
            s.reference == self.reference,
            s.value == self.resistance,
            s.lib_id@ == "Device:R"@,
            s.rotate == self.rotate,
            s.at == self.at,
            s.tox == self.tox,
            s.toy == self.toy,
            s.label == self.label,
            s.anchor is None,
            s.mirror is None,
            s.unit is None,
            s.properties@.len() == 0,
    {
        let mut s = Symbol::with_names(self.reference, self.resistance, String::from_str("Device:R"));
        s.rotate = self.rotate;
        s.at = self.at;
        s.tox = self.tox;
        s.toy = self.toy;
        s.label = self.label;
        s
    }
}

/// A capacitor.
#[derive(Clone, Debug, PartialEq)]
pub struct C {
    pub reference: String,
    pub capacitance: String,
    pub rotate: Real,
    pub label: Option<LabelPosition>,
    pub at: Option<At>,
    pub tox: Option<At>,
    pub toy: Option<At>,
}

impl C {
    pub fn new(reference: String, capacitance: String) -> (r: C)
        ensures
            r.reference == reference,
            r.capacitance == capacitance,
            r.rotate.bits == 0,
            r.label is None,
            r.at is None,
            r.tox is None,
            r.toy is None,
    {
        C { reference, capacitance, rotate: Real::zero(), label: None, at: None, tox: None, toy: None }
    }

    /// Rotates the capacitor.
    pub fn rotate(&mut self, angle: Real)
        ensures
            *final(self) == (C { rotate: angle, ..*old(self) }),
    {
        self.rotate = angle;
    }

    /// Places the capacitor at a point, at a junction, or at a pin of a symbol.
    pub fn at(&mut self, reference: Arg, pin: Option<String>) -> (r: Result<(), ArgError>)
        ensures
            match resolve(reference.kind, pin, Rule::PointJunctionPinNothing) {
                Resolution::Place(at) => r is Ok && *final(self) == (C {
                    at: Some(at),
                    ..*old(self)
                }),
                Resolution::Keep => r is Ok && *final(self) == *old(self),
                Resolution::Reject => r == Err::<(), ArgError>(
                    ArgError::UnknownType { param: Param::At, type_label: reference.type_label },
                ) && *final(self) == *old(self),
            },
    {
        let Arg { kind, type_label } = reference;
        match resolve_placement(kind, pin, Rule::PointJunctionPinNothing) {
            Resolution::Place(at) => {
                self.at = Some(at);
                Ok(())
            },
            Resolution::Keep => Ok(()),
            Resolution::Reject => Err(ArgError::UnknownType { param: Param::At, type_label }),
        }
    }

    /// Sets the x coordinate of the capacitor from a drawn junction, a point, or a pin.
    pub fn tox(&mut self, reference: Arg, pin: Option<String>) -> (r: Result<(), ArgError>)
        ensures
            match resolve(reference.kind, pin, Rule::DrawnJunctionPointPin) {
                Resolution::Place(at) => r is Ok && *final(self) == (C {
                    tox: Some(at),
                    ..*old(self)
                }),
                _ => r == Err::<(), ArgError>(
                    ArgError::UnknownType { param: Param::Tox, type_label: reference.type_label },
                ) && *final(self) == *old(self),
            },
    {
        let Arg { kind, type_label } = reference;
        match resolve_placement(kind, pin, Rule::DrawnJunctionPointPin) {
            Resolution::Place(at) => {
                self.tox = Some(at);
                Ok(())
            },
            _ => Err(ArgError::UnknownType { param: Param::Tox, type_label }),
        }
    }

    /// Sets the y coordinate of the capacitor from a drawn junction, a point, or a pin.
    pub fn toy(&mut self, reference: Arg, pin: Option<String>) -> (r: Result<(), ArgError>)
        ensures
            match resolve(reference.kind, pin, Rule::DrawnJunctionPointPin) {
                Resolution::Place(at) => r is Ok && *final(self) == (C {
                    toy: Some(at),
                    ..*old(self)
                }),
                _ => r == Err::<(), ArgError>(
                    ArgError::UnknownType { param: Param::Toy, type_label: reference.type_label },
                ) && *final(self) == *old(self),
            },
    {
        let Arg { kind, type_label } = reference;
        match resolve_placement(kind, pin, Rule::DrawnJunctionPointPin) {
            Resolution::Place(at) => {
                self.toy = Some(at);
                Ok(())
            },
            _ => Err(ArgError::UnknownType { param: Param::Toy, type_label }),
        }
    }

    /// Places the property texts, by the name of a direction or by an offset.
    pub fn label(&mut self, pos: Arg, rejected: Option<String>) -> (r: Result<(), ArgError>)
        ensures
            match label_target(pos, rejected) {
                Ok(l) => r is Ok && *final(self) == (C { label: Some(l), ..*old(self) }),
                Err(e) => r == Err::<(), ArgError>(e) && *final(self) == *old(self),
            },
    {
        match label_position(pos, rejected) {
            Ok(l) => {
                self.label = Some(l);
                Ok(())
            },
            Err(e) => Err(e),
        }
    }

    pub open spec fn spec_attributes(self) -> Seq<Attribute> {
        seq![Attribute::Rotate(self.rotate)] + at_attribute(self.at) + tox_attribute(self.tox) + toy_attribute(self.toy) + label_attribute(self.label)
    }

    /// The capacitor as the drawing engine receives it: a `Device:C` symbol.
    pub fn drawing(self) -> (d: SymbolDrawing)
        ensures
            d.reference == self.reference,
            d.value == self.capacitance,
            d.lib_id@ == "Device:C"@,
            d.attributes@ == self.spec_attributes(),
    {
        let ghost me = self;
        let mut attributes = Vec::new();
        attributes.push(Attribute::Rotate(self.rotate));
        let ghost a0 = attributes@;
        if let Some(at) = self.at {
            attributes.push(Attribute::At(at));
        }
        let ghost a1 = attributes@;
        assert(a1 =~= a0 + at_attribute(me.at));
        if let Some(tox) = self.tox {
            attributes.push(Attribute::Tox(tox));
        }
        let ghost a2 = attributes@;
        assert(a2 =~= a1 + tox_attribute(me.tox));
        if let Some(toy) = self.toy {
            attributes.push(Attribute::Toy(toy));
        }
        let ghost a3 = attributes@;
        assert(a3 =~= a2 + toy_attribute(me.toy));
        if let Some(label) = self.label {
            attributes.push(Attribute::LabelPosition(label));
        }
        assert(attributes@ =~= a3 + label_attribute(me.label));
        SymbolDrawing {
            reference: self.reference,
            value: self.capacitance,
            lib_id: String::from_str("Device:C"),
            attributes,
        }
    }

    /// The capacitor as a general symbol, as a feedback line takes it.
    pub fn to_symbol(self) -> (s: Symbol)
        ensures
            s.reference == self.reference,
            s.value == self.capacitance,
            s.lib_id@ == "Device:C"@,
            s.rotate == self.rotate,
            s.at == self.at,
            s.tox == self.tox,
            s.toy == self.toy,
            s.label == self.label,
            s.anchor is None,
            s.mirror is None,
            s.unit is None,
            s.properties@.len() == 0,
    {
        let mut s = Symbol::with_names(self.reference, self.capacitance, String::from_str("Device:C"));
        s.rotate = self.rotate;
        s.at = self.at;
        s.tox = self.tox;
        s.toy = self.toy;
        s.label = self.label;
        s
    }
}

/// A power source symbol for one supply voltage.
#[derive(Clone, Debug, PartialEq)]
pub struct Power {
    pub voltage: String,
    pub rotate: Real,
    pub at: Option<At>,
}

impl Power {
    pub fn new(voltage: String) -> (r: Power)
        ensures
            r.voltage == voltage,
            r.rotate.bits == 0,
            r.at is None,
    {
        Power { voltage, rotate: Real::zero(), at: None }
    }

    /// Rotates the power source.
    pub fn rotate(&mut self, angle: Real)
        ensures
            *final(self) == (Power { rotate: angle, ..*old(self) }),
    {
        self.rotate = angle;
    }

    /// Places the power source at a point, or at a pin of a symbol. A refused
    /// value is reported under the name `rotate`.
    pub fn at(&mut self, reference: Arg, pin: Option<String>) -> (r: Result<(), ArgError>)
        ensures
            match resolve(reference.kind, pin, Rule::PointPin) {
                Resolution::Place(at) => r is Ok && *final(self) == (Power {
                    at: Some(at),
                    ..*old(self)
                }),
                _ => r == Err::<(), ArgError>(
                    ArgError::UnknownType { param: Param::Rotate, type_label: reference.type_label },
                ) && *final(self) == *old(self),
            },
    {
        let Arg { kind, type_label } = reference;
        match resolve_placement(kind, pin, Rule::PointPin) {
            Resolution::Place(at) => {
                self.at = Some(at);
                Ok(())
            },
            _ => Err(ArgError::UnknownType { param: Param::Rotate, type_label }),
        }
    }

    pub open spec fn spec_attributes(self) -> Seq<Attribute> {
        seq![Attribute::Rotate(self.rotate)] + at_attribute(self.at)
    }

    /// The power source as the drawing engine receives it: the symbol
    /// `power:<voltage>` with reference `#PWR<voltage>` and the voltage as value.
    pub fn drawing(self) -> (d: SymbolDrawing)
        ensures
            d.reference@ == "#PWR"@ + self.voltage@,
            d.value == self.voltage,
            d.lib_id@ == "power:"@ + self.voltage@,
            d.attributes@ == self.spec_attributes(),
    {
        let mut attributes = Vec::new();
        attributes.push(Attribute::Rotate(self.rotate));
        if let Some(at) = self.at {
            attributes.push(Attribute::At(at));
        }
        proof {
            assert(attributes@ =~= self.spec_attributes());
        }
        let lib_id = String::from_str("power:").concat(self.voltage.as_str());
        let reference = String::from_str("#PWR").concat(self.voltage.as_str());
        SymbolDrawing { reference, value: self.voltage, lib_id, attributes }
    }
}

/// A ground symbol.
#[derive(Clone, Debug, PartialEq)]
pub struct Gnd {
    pub rotate: Real,
    pub at: Option<At>,
}

impl Gnd {
    pub fn new() -> (r: Gnd)
        ensures
            r.rotate.bits == 0,
            r.at is None,
    {
        Gnd { rotate: Real::zero(), at: None }
    }

    /// Rotates the ground symbol.
    pub fn rotate(&mut self, angle: Real)
        ensures
            *final(self) == (Gnd { rotate: angle, ..*old(self) }),
    {
        self.rotate = angle;
    }

    /// Places the ground symbol at a point, or at a pin of a symbol.
    pub fn at(&mut self, reference: Arg, pin: Option<String>) -> (r: Result<(), ArgError>)
        ensures
            match resolve(reference.kind, pin, Rule::PointPin) {
                Resolution::Place(at) => r is Ok && *final(self) == (Gnd {
                    at: Some(at),
                    ..*old(self)
                }),
                _ => r == Err::<(), ArgError>(
                    ArgError::UnknownType { param: Param::At, type_label: reference.type_label },
                ) && *final(self) == *old(self),
            },
    {
        let Arg { kind, type_label } = reference;
        match resolve_placement(kind, pin, Rule::PointPin) {
            Resolution::Place(at) => {
                self.at = Some(at);
                Ok(())
            },
            _ => Err(ArgError::UnknownType { param: Param::At, type_label }),
        }
    }

    pub open spec fn spec_attributes(self) -> Seq<Attribute> {
        seq![Attribute::Rotate(self.rotate)] + at_attribute(self.at)
    }

    /// The ground symbol as the drawing engine receives it: the symbol
    /// `power:GND` with reference `#PWRGND` and value `GND`.
    pub fn drawing(self) -> (d: SymbolDrawing)
        ensures
            d.reference@ == "#PWRGND"@,
            d.value@ == "GND"@,
            d.lib_id@ == "power:GND"@,
            d.attributes@ == self.spec_attributes(),
    {
        let mut attributes = Vec::new();
        attributes.push(Attribute::Rotate(self.rotate));
        if let Some(at) = self.at {
            attributes.push(Attribute::At(at));
        }
        proof {
            assert(attributes@ =~= self.spec_attributes());
        }
        SymbolDrawing {
            reference: String::from_str("#PWRGND"),
            value: String::from_str("GND"),
            lib_id: String::from_str("power:GND"),
            attributes,
        }
    }
}

} // verus!
