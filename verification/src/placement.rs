use vstd::prelude::*;

use crate::elements::{Element, Junction};

verus! {

/// A real number of the drawing (a coordinate, an angle, a length), carried
/// by the bit pattern of its IEEE-754 double. The library never computes with
/// it: it stores the number and hands it on unchanged.
#[derive(Clone, Copy, Debug, PartialEq)]
pub struct Real {
    pub bits: u64,
}

impl Real {
    /// The number `0.0`.
    pub fn zero() -> (r: Real)
        ensures
            r.bits == 0,
    {
        Real { bits: 0 }
    }

    /// The number `1.0`.
    pub fn one() -> (r: Real)
        ensures
            r.bits == 0x3ff0_0000_0000_0000,
    {
        Real { bits: 0x3ff0_0000_0000_0000 }
    }
}

/// A point of the schema.
#[derive(Clone, Copy, Debug, PartialEq)]
pub struct Pt {
    pub x: Real,
    pub y: Real,
}

/// Where an element is placed: at a point, or at the pin of a symbol.
#[derive(Clone, Debug, PartialEq)]
pub enum At {
    Pt(Pt),
    /// The reference of a symbol and the name of one of its pins.
    Pin(String, String),
}

/// The direction in which a wire is drawn.
#[derive(Clone, Copy, Debug, PartialEq)]
pub enum Direction {
    Left,
    Right,
    Up,
    Down,
}

/// An end of a wire or of a feedback line that carries a dot.
#[derive(Clone, Copy, Debug, PartialEq)]
pub enum DotPosition {
    Start,
    End,
}

/// Where the property texts of a symbol are placed: by the name of a
/// direction that the drawing engine accepted, or by an offset.
#[derive(Clone, Debug, PartialEq)]
pub enum LabelPosition {
    Direction(String),
    Offset(Real, Real),
}

/// One attribute that an element hands to the drawing engine.
#[derive(Clone, Debug, PartialEq)]
pub enum Attribute {
    Anchor(String),
    At(At),
    Direction(Direction),
    Dot(Vec<DotPosition>),
    LabelPosition(LabelPosition),
    Length(Real),
    Mirror(String),
    /// Key/value properties; where a key occurs more than once the last entry wins.
    Property(Vec<(String, String)>),
    Rotate(Real),
    Tox(At),
    Toy(At),
    Unit(u8),
}

/// What a value handed in from the scripting side is, as far as the library
/// looks at it. Each value falls in exactly one of these kinds.
#[derive(Clone, Debug, PartialEq)]
pub enum ArgKind {
    /// The absent value (`None`).
    Nothing,
    /// A pair of numbers.
    Point(Pt),
    /// A string.
    Text(String),
    /// An integer.
    Integer(i64),
    /// A sequence of strings.
    TextList(Vec<String>),
    /// One of the elements of this library.
    Element(Element),
    /// Anything else.
    Other,
}

/// A value handed in from the scripting side, with the name of its type.
#[derive(Clone, Debug, PartialEq)]
pub struct Arg {
    pub kind: ArgKind,
    pub type_label: String,
}

/// The parameter that a refused value was given for, as error messages name it.
#[derive(Clone, Copy, Debug, PartialEq)]
pub enum Param {
    At,
    Tox,
    Toy,
    Anchor,
    Rotate,
    Start,
    Dot,
    Component,
}

impl Param {
    pub open spec fn spec_name(self) -> Seq<char> {
        match self {
            Param::At => "at"@,
            Param::Tox => "tox"@,
            Param::Toy => "toy"@,
            Param::Anchor => "anchor"@,
            Param::Rotate => "rotate"@,
            Param::Start => "start"@,
            Param::Dot => "dot"@,
            Param::Component => "component"@,
        }
    }

    /// The name of the parameter.
    pub fn name(&self) -> (r: &'static str)
        ensures
            r@ == self.spec_name(),
    {
        match self {
            Param::At => "at",
            Param::Tox => "tox",
            Param::Toy => "toy",
            Param::Anchor => "anchor",
            Param::Rotate => "rotate",
            Param::Start => "start",
            Param::Dot => "dot",
            Param::Component => "component",
        }
    }
}

/// Why a value handed to an element or a schema was refused.
#[derive(Clone, Debug, PartialEq)]
pub enum ArgError {
    /// The value has a type that the parameter does not take.
    UnknownType { param: Param, type_label: String },
    /// The value given as a label position is neither a string nor a pair of numbers.
    UnknownLabelType { type_label: String },
    /// The string given as a label position names no direction; the reason
    /// is the drawing engine's.
    InvalidDirection { reason: String },
    /// The value given to a schema is no element that can be drawn.
    Undrawable { type_label: String },
}

impl ArgError {
    /// Whether the scripting side raises this error as a value error (and not
    /// as a type error).
    pub open spec fn spec_is_value_error(self) -> bool {
        self is InvalidDirection
    }

    pub fn is_value_error(&self) -> (r: bool)
        ensures
            r == self.spec_is_value_error(),
    {
        match self {
            ArgError::InvalidDirection { .. } => true,
            _ => false,
        }
    }

    pub open spec fn spec_message(self) -> Seq<char> {
        match self {
            ArgError::UnknownType { param, type_label } => "Unknown type for '"@ + param.spec_name()
                + "': '"@ + type_label@ + "'"@,
            ArgError::UnknownLabelType { type_label } => "Unknown type for label position: '"@
                + type_label@ + "'. Expected string or (float, float) tuple."@,
            ArgError::InvalidDirection { reason } => "Invalid label direction: "@ + reason@,
            ArgError::Undrawable { type_label } => "Cannot draw unsupported type: '"@ + type_label@
                + "'. Expected a valid recad component."@,
        }
    }

    /// The message that the scripting side shows for this error.
    pub fn message(&self) -> (r: String)
        ensures
            r@ == self.spec_message(),
    {
        match self {
            ArgError::UnknownType { param, type_label } => {
                String::from_str("Unknown type for '").concat(param.name()).concat("': '").concat(
                    type_label.as_str(),
                ).concat("'")
            },
            ArgError::UnknownLabelType { type_label } => {
                String::from_str("Unknown type for label position: '").concat(
                    type_label.as_str(),
                ).concat("'. Expected string or (float, float) tuple.")
            },
            ArgError::InvalidDirection { reason } => {
                String::from_str("Invalid label direction: ").concat(reason.as_str())
            },
            ArgError::Undrawable { type_label } => {
                String::from_str("Cannot draw unsupported type: '").concat(
                    type_label.as_str(),
                ).concat("'. Expected a valid recad component.")
            },
        }
    }
}

/// How a placement parameter reads the value handed to it.
#[derive(Clone, Copy, Debug, PartialEq)]
pub enum Rule {
    /// A pair of numbers, or a symbol reference with a pin name.
    PointPin,
    /// A pair of numbers, a junction, or a symbol reference with a pin name;
    /// a junction that has not been drawn yet leaves the placement as it is.
    PointJunctionPin,
    /// As `PointJunctionPin`, and the absent value leaves the placement as it is.
    PointJunctionPinNothing,
    /// A junction that has been drawn, a pair of numbers, or a symbol
    /// reference with a pin name.
    DrawnJunctionPointPin,
}

/// The outcome of reading a placement value.
#[derive(Clone, Debug, PartialEq)]
pub enum Resolution {
    /// The placement becomes this one.
    Place(At),
    /// The placement stays as it is, and the call succeeds.
    Keep,
    /// The value is refused.
    Reject,
}

/// The symbol pin that a string names together with a pin name.
pub open spec fn pin_of(kind: ArgKind, pin: Option<String>) -> Option<At> {
    match (kind, pin) {
        (ArgKind::Text(r), Some(p)) => Some(At::Pin(r, p)),
        _ => None,
    }
}

/// How `rule` reads `kind`, with `pin` the pin name given beside it, if any.
pub open spec fn resolve(kind: ArgKind, pin: Option<String>, rule: Rule) -> Resolution {
    match kind {
        ArgKind::Point(p) => Resolution::Place(At::Pt(p)),
        ArgKind::Element(Element::Junction(j)) => match rule {
            Rule::PointPin => Resolution::Reject,
            Rule::DrawnJunctionPointPin => match j.pos {
                Some(p) => Resolution::Place(At::Pt(p)),
                None => Resolution::Reject,
            },
            _ => match j.pos {
                Some(p) => Resolution::Place(At::Pt(p)),
                None => Resolution::Keep,
            },
        },
        ArgKind::Nothing => match rule {
            Rule::PointJunctionPinNothing => Resolution::Keep,
            _ => Resolution::Reject,
        },
        _ => match pin_of(kind, pin) {
            Some(at) => Resolution::Place(at),
            None => Resolution::Reject,
        },
    }
}

/// Reads a placement value by `rule`.
pub fn resolve_placement(kind: ArgKind, pin: Option<String>, rule: Rule) -> (r: Resolution)
    ensures
        r == resolve(kind, pin, rule),
{
    match kind {
        ArgKind::Point(p) => Resolution::Place(At::Pt(p)),
        ArgKind::Element(Element::Junction(j)) => match rule {
            Rule::PointPin => Resolution::Reject,
            Rule::DrawnJunctionPointPin => match j.pos {
                Some(p) => Resolution::Place(At::Pt(p)),
                None => Resolution::Reject,
            },
            _ => match j.pos {
                Some(p) => Resolution::Place(At::Pt(p)),
                None => Resolution::Keep,
            },
        },
        ArgKind::Nothing => match rule {
            Rule::PointJunctionPinNothing => Resolution::Keep,
            _ => Resolution::Reject,
        },
        ArgKind::Text(r) => match pin {
            Some(p) => Resolution::Place(At::Pin(r, p)),
            None => Resolution::Reject,
        },
        _ => Resolution::Reject,
    }
}

/// The symbol reference and pin name that a string names together with a pin name.
pub fn pin_reference(kind: ArgKind, pin: Option<String>) -> (r: Option<(String, String)>)
    ensures
        r == (match pin_of(kind, pin) {
            Some(At::Pin(a, b)) => Some((a, b)),
            _ => None,
        }),
{
    match (kind, pin) {
        (ArgKind::Text(r), Some(p)) => Some((r, p)),
        _ => None,
    }
}

/// Where a label position value places the property texts of a symbol.
/// `rejected` is the reason the drawing engine gave when it refused the value,
/// a string, as the name of a direction; it is `None` when the engine accepted
/// the name, and it is not looked at for values that are not strings.
pub open spec fn label_target(arg: Arg, rejected: Option<String>) -> Result<LabelPosition, ArgError> {
    match arg.kind {
        ArgKind::Text(s) => match rejected {
            None => Ok(LabelPosition::Direction(s)),
            Some(reason) => Err(ArgError::InvalidDirection { reason }),
        },
        ArgKind::Point(p) => Ok(LabelPosition::Offset(p.x, p.y)),
        _ => Err(ArgError::UnknownLabelType { type_label: arg.type_label }),
    }
}

/// Reads a label position value (see `label_target`).
pub fn label_position(arg: Arg, rejected: Option<String>) -> (r: Result<LabelPosition, ArgError>)
    ensures
        r == label_target(arg, rejected),
{
    let Arg { kind, type_label } = arg;
    match kind {
        ArgKind::Text(s) => match rejected {
            None => Ok(LabelPosition::Direction(s)),
            Some(reason) => Err(ArgError::InvalidDirection { reason }),
        },
        ArgKind::Point(p) => Ok(LabelPosition::Offset(p.x, p.y)),
        _ => Err(ArgError::UnknownLabelType { type_label }),
    }
}

} // verus!
