use vstd::prelude::*;

use super::at_attribute;
use crate::placement::{
    resolve, resolve_placement, Arg, ArgError, At, Attribute, Param, Pt, Real, Resolution, Rule,
};

verus! {

/// What a label hands to the drawing engine: its name and its attributes, in order.
#[derive(Debug, PartialEq)]
pub struct LabelDrawing {
    pub name: String,
    pub attributes: Vec<Attribute>,
}

/// A `GlobalLabel` is a custom identifier that can be assigned to
/// multiple objects or components across the entire design.
#[derive(Clone, Debug, PartialEq)]
pub struct GlobalLabel {
    pub name: String,
    pub at: Option<At>,
    pub rotate: Real,
}

impl GlobalLabel {
    pub fn new(name: String) -> (r: GlobalLabel)
        ensures
            r.name == name,
            r.at is None,
            r.rotate.bits == 0,
    {
        GlobalLabel { name, at: None, rotate: Real::zero() }
    }

    /// Places the label at a point, or at a pin of a symbol.
    pub fn at(&mut self, reference: Arg, pin: Option<String>) -> (r: Result<(), ArgError>)
        ensures
            match resolve(reference.kind, pin, Rule::PointPin) {
                Resolution::Place(at) => r is Ok && *final(self) == (GlobalLabel {
                    at: Some(at),
                    ..*old(self)
                }),
                _ => r == Err::<(), ArgError>(
                    ArgError::UnknownType { param: Param::At, type_label: reference.type_label },
                ) && *final(self) == *old(self),
            },
    {
        let Arg { kind, type_label } = reference;
        match resolve_placement(kind, pin, Rule::PointPin) {
            Resolution::Place(at) => {
                self.at = Some(at);
                Ok(())
            },
            _ => Err(ArgError::UnknownType { param: Param::At, type_label }),
        }
    }

    /// Rotates the label.
    pub fn rotate(&mut self, angle: Real)
        ensures
            *final(self) == (GlobalLabel { rotate: angle, ..*old(self) }),
    {
        self.rotate = angle;
    }

    pub open spec fn spec_attributes(self) -> Seq<Attribute> {
        seq![Attribute::Rotate(self.rotate)] + at_attribute(self.at)
    }

    /// The label as the drawing engine receives it.
    pub fn drawing(self) -> (d: LabelDrawing)
        ensures
            d.name == self.name,
            d.attributes@ == self.spec_attributes(),
    {
        let mut attributes = Vec::new();
        attributes.push(Attribute::Rotate(self.rotate));
        if let Some(at) = self.at {
            attributes.push(Attribute::At(at));
        }
        proof {
            assert(attributes@ =~= self.spec_attributes());
        }
        LabelDrawing { name: self.name, attributes }
    }
}

/// A `LocalLabel` refers to an identifier assigned to individual
/// components or objects within a specific grouping on the same schema page.
#[derive(Clone, Debug, PartialEq)]
pub struct LocalLabel {
    pub name: String,
    pub rotate: Real,
    pub at: Option<At>,
}

impl LocalLabel {
    pub fn new(name: &str) -> (r: LocalLabel)
        ensures
            r.name@ == name@,
            r.at is None,
            r.rotate.bits == 0,
    {
        LocalLabel { name: String::from_str(name), rotate: Real::zero(), at: None }
    }

    /// Rotates the label by `angle` degrees.
    pub fn rotate(&mut self, angle: Real)
        ensures
            *final(self) == (LocalLabel { rotate: angle, ..*old(self) }),
    {
        self.rotate = angle;
    }

    /// Places the label at a point, or at a pin of a symbol.
    pub fn at(&mut self, reference: Arg, pin: Option<String>) -> (r: Result<(), ArgError>)
        ensures
            match resolve(reference.kind, pin, Rule::PointPin) {
                Resolution::Place(at) => r is Ok && *final(self) == (LocalLabel {
                    at: Some(at),
                    ..*old(self)
                }),
                _ => r == Err::<(), ArgError>(
                    ArgError::UnknownType { param: Param::At, type_label: reference.type_label },
                ) && *final(self) == *old(self),
            },
    {
        let Arg { kind, type_label } = reference;
        match resolve_placement(kind, pin, Rule::PointPin) {
            Resolution::Place(at) => {
                self.at = Some(at);
                Ok(())
            },
            _ => Err(ArgError::UnknownType { param: Param::At, type_label }),
        }
    }

    pub open spec fn spec_attributes(self) -> Seq<Attribute> {
        seq![Attribute::Rotate(self.rotate)] + at_attribute(self.at)
    }

    /// The label as the drawing engine receives it.
    pub fn drawing(self) -> (d: LabelDrawing)
        ensures
            d.name == self.name,
            d.attributes@ == self.spec_attributes(),
    {
        let mut attributes = Vec::new();
        attributes.push(Attribute::Rotate(self.rotate));
        if let Some(at) = self.at {
            attributes.push(Attribute::At(at));
        }
        proof {
            assert(attributes@ =~= self.spec_attributes());
        }
        LabelDrawing { name: self.name, attributes }
    }
}

/// A junction represents a connection point where multiple wires or
/// components intersect. Once drawn, it knows the point where it stands.
#[derive(Clone, Debug, PartialEq)]
pub struct Junction {
    /// Whether the schema keeps the drawn point on its position stack.
    pub pushed: bool,
    pub at: Option<At>,
    /// The point where the junction was drawn.
    pub pos: Option<Pt>,
}

impl Junction {
    pub fn new() -> (r: Junction)
        ensures
            !r.pushed,
            r.at is None,
            r.pos is None,
    {
        Junction { pushed: false, at: None, pos: None }
    }

    /// Asks the schema to keep the point of this junction on its position stack.
    pub fn push(&mut self)
        ensures
            *final(self) == (Junction { pushed: true, ..*old(self) }),
    {
        self.pushed = true;
    }

    /// Places the junction at a point, or at a pin of a symbol.
    pub fn at(&mut self, reference: Arg, pin: Option<String>) -> (r: Result<(), ArgError>)
        ensures
            match resolve(reference.kind, pin, Rule::PointPin) {
                Resolution::Place(at) => r is Ok && *final(self) == (Junction {
                    at: Some(at),
                    ..*old(self)
                }),
                _ => r == Err::<(), ArgError>(
                    ArgError::UnknownType { param: Param::At, type_label: reference.type_label },
                ) && *final(self) == *old(self),
            },
    {
        let Arg { kind, type_label } = reference;
        match resolve_placement(kind, pin, Rule::PointPin) {
            Resolution::Place(at) => {
                self.at = Some(at);
                Ok(())
            },
            _ => Err(ArgError::UnknownType { param: Param::At, type_label }),
        }
    }
}

/// A no-connect marker, used to satisfy the electrical rule check.
#[derive(Clone, Debug, PartialEq)]
pub struct NoConnect {
    pub at: Option<At>,
}

impl NoConnect {
    pub fn new() -> (r: NoConnect)
        ensures
            r.at is None,
    {
        NoConnect { at: None }
    }

    /// Places the marker at a point, or at a pin of a symbol.
    pub fn at(&mut self, reference: Arg, pin: Option<String>) -> (r: Result<(), ArgError>)
        ensures
            match resolve(reference.kind, pin, Rule::PointPin) {
                Resolution::Place(at) => r is Ok && final(self).at == Some(at),
                _ => r == Err::<(), ArgError>(
                    ArgError::UnknownType { param: Param::At, type_label: reference.type_label },
                ) && *final(self) == *old(self),
            },
    {
        let Arg { kind, type_label } = reference;
        match resolve_placement(kind, pin, Rule::PointPin) {
            Resolution::Place(at) => {
                self.at = Some(at);
                Ok(())
            },
            _ => Err(ArgError::UnknownType { param: Param::At, type_label }),
        }
    }

    pub open spec fn spec_attributes(self) -> Seq<Attribute> {
        at_attribute(self.at)
    }

    /// The attributes of the marker, as the drawing engine receives them.
    pub fn drawing(self) -> (d: Vec<Attribute>)
        ensures
            d@ == self.spec_attributes(),
    {
        let mut attributes = Vec::new();
        if let Some(at) = self.at {
            attributes.push(Attribute::At(at));
        }
        proof {
            assert(attributes@ =~= self.spec_attributes());
        }
        attributes
    }
}

} // verus!
