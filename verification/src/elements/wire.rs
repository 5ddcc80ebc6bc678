use vstd::prelude::*;

use super::Junction;
use crate::placement::{
    pin_of, pin_reference, Arg, ArgError, ArgKind, At, Attribute, Direction, DotPosition, Param,
    Pt, Real,
};

verus! {

/// The dots that a list of dot names puts on a wire: each `start` adds a dot
/// at the start and each `end` a dot at the end, in the order of the list;
/// other names add nothing.
pub open spec fn wire_dots(names: Seq<String>) -> Seq<DotPosition>
    decreases names.len(),
{
    if names.len() == 0 {
        seq![]
    } else {
        let last = names.last();
        wire_dots(names.drop_last()) + (if last@ == "start"@ {
            seq![DotPosition::Start]
        } else {
            seq![]
        }) + (if last@ == "end"@ {
            seq![DotPosition::End]
        } else {
            seq![]
        })
    }
}

/// A wire: an electrical connection between components or points, drawn
/// in one direction.
#[derive(Clone, Debug, PartialEq)]
pub struct Wire {
    pub direction: Direction,
    pub length: Real,
    pub tox: Option<At>,
    pub toy: Option<At>,
    /// The junction that the wire starts at.
    pub atdot: Option<Junction>,
    /// The symbol reference and pin that the wire starts at.
    pub atref: Option<(String, String)>,
    /// The point that the wire starts at.
    pub pos: Option<Pt>,
    pub toxref: Option<(String, String)>,
    pub toyref: Option<(String, String)>,
    pub toxdot: Option<String>,
    /// The names of the ends that carry a dot.
    pub dot: Option<Vec<String>>,
}

impl Wire {
    /// A wire to the left, of length `1.0`, with nothing else set.
    pub fn new() -> (r: Wire)
        ensures
            r.direction == Direction::Left,
            r.length.bits == 0x3ff0_0000_0000_0000,
            r.tox is None && r.toy is None && r.atdot is None && r.atref is None,
            r.pos is None && r.toxref is None && r.toyref is None && r.toxdot is None,
            r.dot is None,
    {
        Wire {
            direction: Direction::Left,
            length: Real::one(),
            tox: None,
            toy: None,
            atdot: None,
            atref: None,
            pos: None,
            toxref: None,
            toyref: None,
            toxdot: None,
            dot: None,
        }
    }

    /// Draws the wire to the left.
    pub fn left(&mut self)
        ensures
            *final(self) == (Wire { direction: Direction::Left, ..*old(self) }),
    {
        self.direction = Direction::Left;
    }

    /// Draws the wire to the right.
    pub fn right(&mut self)
        ensures
            *final(self) == (Wire { direction: Direction::Right, ..*old(self) }),
    {
        self.direction = Direction::Right;
    }

    /// Draws the wire upward.
    pub fn up(&mut self)
        ensures
            *final(self) == (Wire { direction: Direction::Up, ..*old(self) }),
    {
        self.direction = Direction::Up;
    }

    /// Draws the wire downward.
    pub fn down(&mut self)
        ensures
            *final(self) == (Wire { direction: Direction::Down, ..*old(self) }),
    {
        self.direction = Direction::Down;
    }

    /// Sets the length of the wire.
    pub fn length(&mut self, length: Real)
        ensures
            *final(self) == (Wire { length, ..*old(self) }),
    {
        self.length = length;
    }

    /// Starts the wire at a junction, at a point, or at a pin of a symbol.
    pub fn at(&mut self, reference: Arg, pin: Option<String>) -> (r: Result<(), ArgError>)
        ensures
            match reference.kind {
                ArgKind::Element(super::Element::Junction(j)) => r is Ok && *final(self) == (Wire {
                    atdot: Some(j),
                    ..*old(self)
                }),
                ArgKind::Point(p) => r is Ok && *final(self) == (Wire { pos: Some(p), ..*old(self) }),
                _ => match pin_of(reference.kind, pin) {
                    Some(At::Pin(a, b)) => r is Ok && *final(self) == (Wire {
                        atref: Some((a, b)),
                        ..*old(self)
                    }),
                    _ => r == Err::<(), ArgError>(
                        ArgError::UnknownType { param: Param::At, type_label: reference.type_label },
                    ) && *final(self) == *old(self),
                },
            },
    {
        let Arg { kind, type_label } = reference;
        match kind {
            ArgKind::Element(super::Element::Junction(j)) => {
                self.atdot = Some(j);
                Ok(())
            },
            ArgKind::Point(p) => {
                self.pos = Some(p);
                Ok(())
            },
            other => match pin_reference(other, pin) {
                Some(rp) => {
                    self.atref = Some(rp);
                    Ok(())
                },
                None => Err(ArgError::UnknownType { param: Param::At, type_label }),
            },
        }
    }

    /// Where the wire ends horizontally (or vertically, for `toy`): the point
    /// of a drawn junction or a point, as a placement; or the symbol pin.
    pub open spec fn end_target(kind: ArgKind, pin: Option<String>) -> Option<
        Result<At, (String, String)>,
    > {
        match kind {
            ArgKind::Element(super::Element::Junction(j)) => match j.pos {
                Some(p) => Some(Ok(At::Pt(p))),
                None => None,
            },
            ArgKind::Point(p) => Some(Ok(At::Pt(p))),
            _ => match pin_of(kind, pin) {
                Some(At::Pin(a, b)) => Some(Err((a, b))),
                _ => None,
            },
        }
    }

    fn read_end(kind: ArgKind, pin: Option<String>) -> (r: Option<Result<At, (String, String)>>)
        ensures
            r == Wire::end_target(kind, pin),
    {
        match kind {
            ArgKind::Element(super::Element::Junction(j)) => match j.pos {
                Some(p) => Some(Ok(At::Pt(p))),
                None => None,
            },
            ArgKind::Point(p) => Some(Ok(At::Pt(p))),
            other => match pin_reference(other, pin) {
                Some(rp) => Some(Err(rp)),
                None => None,
            },
        }
    }

    /// Draws the wire to the x coordinate of a drawn junction, a point, or a pin.
    pub fn tox(&mut self, element: Arg, pin: Option<String>) -> (r: Result<(), ArgError>)
        ensures
            match Wire::end_target(element.kind, pin) {
                Some(Ok(at)) => r is Ok && *final(self) == (Wire { tox: Some(at), ..*old(self) }),
                Some(Err(rp)) => r is Ok && *final(self) == (Wire { toxref: Some(rp), ..*old(self) }),
                None => r == Err::<(), ArgError>(
                    ArgError::UnknownType { param: Param::Tox, type_label: element.type_label },
                ) && *final(self) == *old(self),
            },
    {
        let Arg { kind, type_label } = element;
        match Wire::read_end(kind, pin) {
            Some(Ok(at)) => {
                self.tox = Some(at);
                Ok(())
            },
            Some(Err(rp)) => {
                self.toxref = Some(rp);
                Ok(())
            },
            None => Err(ArgError::UnknownType { param: Param::Tox, type_label }),
        }
    }

    /// Draws the wire to the y coordinate of a drawn junction, a point, or a pin.
    pub fn toy(&mut self, element: Arg, pin: Option<String>) -> (r: Result<(), ArgError>)
        ensures
            match Wire::end_target(element.kind, pin) {
                Some(Ok(at)) => r is Ok && *final(self) == (Wire { toy: Some(at), ..*old(self) }),
                Some(Err(rp)) => r is Ok && *final(self) == (Wire { toyref: Some(rp), ..*old(self) }),
                None => r == Err::<(), ArgError>(
                    ArgError::UnknownType { param: Param::Toy, type_label: element.type_label },
                ) && *final(self) == *old(self),
            },
    {
        let Arg { kind, type_label } = element;
        match Wire::read_end(kind, pin) {
            Some(Ok(at)) => {
                self.toy = Some(at);
                Ok(())
            },
            Some(Err(rp)) => {
                self.toyref = Some(rp);
                Ok(())
            },
            None => Err(ArgError::UnknownType { param: Param::Toy, type_label }),
        }
    }

    /// Puts dots on the wire's ends, named by a string or a list of strings.
    pub fn dot(&mut self, dots: Arg) -> (r: Result<(), ArgError>)
        ensures
            match dots.kind {
                ArgKind::TextList(v) => r is Ok && *final(self) == (Wire { dot: Some(v), ..*old(self) }),
                ArgKind::Text(s) => r is Ok && final(self).dot is Some
                    && final(self).dot.unwrap()@ == seq![s] && *final(self) == (Wire {
                    dot: final(self).dot,
                    ..*old(self)
                }),
                _ => r == Err::<(), ArgError>(
                    ArgError::UnknownType { param: Param::Dot, type_label: dots.type_label },
                ) && *final(self) == *old(self),
            },
    {
        let Arg { kind, type_label } = dots;
        match kind {
            ArgKind::TextList(v) => {
                self.dot = Some(v);
                Ok(())
            },
            ArgKind::Text(s) => {
                let mut v = Vec::new();
                v.push(s);
                self.dot = Some(v);
                Ok(())
            },
            _ => Err(ArgError::UnknownType { param: Param::Dot, type_label }),
        }
    }

    /// The attributes of the wire before its dots: direction, length, start,
    /// and the ends. A start junction that has not been drawn places nothing,
    /// and then neither the start pin nor the start point is looked at.
    pub open spec fn spec_placement_attributes(self) -> Seq<Attribute> {
        seq![Attribute::Direction(self.direction), Attribute::Length(self.length)] + (
        match self.atdot {
            Some(j) => match j.pos {
                Some(p) => seq![Attribute::At(At::Pt(p))],
                None => seq![],
            },
            None => match self.atref {
                Some((a, b)) => seq![Attribute::At(At::Pin(a, b))],
                None => match self.pos {
                    Some(p) => seq![Attribute::At(At::Pt(p))],
                    None => seq![],
                },
            },
        }) + (match self.tox {
            Some(t) => seq![Attribute::Tox(t)],
            None => match self.toxref {
                Some((a, b)) => seq![Attribute::Tox(At::Pin(a, b))],
                None => seq![],
            },
        }) + (match self.toy {
            Some(t) => seq![Attribute::Toy(t)],
            None => match self.toyref {
                Some((a, b)) => seq![Attribute::Toy(At::Pin(a, b))],
                None => seq![],
            },
        })
    }

    /// The dot positions named by `names` (see `wire_dots`).
    pub fn dot_positions(names: &Vec<String>) -> (r: Vec<DotPosition>)
        ensures
            r@ == wire_dots(names@),
    {
        let start = String::from_str("start");
        let end = String::from_str("end");
        let mut positions = Vec::new();
        let n = names.len();
        for i in 0..n
            invariant
                n == names@.len(),
                start@ == "start"@,
                end@ == "end"@,
                positions@ == wire_dots(names@.take(i as int)),
        {
            let ghost before = positions@;
            assert(names@.take(i + 1).drop_last() == names@.take(i as int));
            if names[i] == start {
                positions.push(DotPosition::Start);
            }
            if names[i] == end {
                positions.push(DotPosition::End);
            }
            assert(positions@ =~= wire_dots(names@.take(i + 1)));
        }
        assert(names@.take(n as int) == names@);
        positions
    }

    /// The attributes of the wire, as the drawing engine receives them: those
    /// of `spec_placement_attributes`, then the dots, if the dot names name any.
    pub fn drawing(self) -> (d: Vec<Attribute>)
        ensures
            ({
                let base = self.spec_placement_attributes();
                match self.dot {
                    Some(names) => if wire_dots(names@).len() > 0 {
                        &&& d@.len() == base.len() + 1
                        &&& d@.take(base.len() as int) == base
                        &&& d@.last() matches Attribute::Dot(v) && v@ == wire_dots(names@)
                    } else {
                        d@ == base
                    },
                    None => d@ == base,
                }
            }),
    {
        let ghost me = self;
        let mut attributes = Vec::new();
        attributes.push(Attribute::Direction(self.direction));
        attributes.push(Attribute::Length(self.length));
        if let Some(junction) = self.atdot {
            if let Some(p) = junction.pos {
                attributes.push(Attribute::At(At::Pt(p)));
            }
        } else if let Some((a, b)) = self.atref {
            attributes.push(Attribute::At(At::Pin(a, b)));
        } else if let Some(p) = self.pos {
            attributes.push(Attribute::At(At::Pt(p)));
        }
        if let Some(t) = self.tox {
            attributes.push(Attribute::Tox(t));
        } else if let Some((a, b)) = self.toxref {
            attributes.push(Attribute::Tox(At::Pin(a, b)));
        }
        if let Some(t) = self.toy {
            attributes.push(Attribute::Toy(t));
        } else if let Some((a, b)) = self.toyref {
            attributes.push(Attribute::Toy(At::Pin(a, b)));
        }
        assert(attributes@ =~= me.spec_placement_attributes());
        if let Some(names) = self.dot {
            let positions = Wire::dot_positions(&names);
            if positions.len() > 0 {
                attributes.push(Attribute::Dot(positions));
                assert(attributes@.take(attributes@.len() - 1) =~= me.spec_placement_attributes());
            }
        }
        attributes
    }
}

} // verus!
