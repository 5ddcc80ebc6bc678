use vstd::prelude::*;

use super::{Element, Symbol, SymbolDrawing};
use crate::placement::{pin_of, pin_reference, Arg, ArgError, ArgKind, At, DotPosition, Param, Real};

verus! {

/// Whether some name in `names` is `name`.
pub open spec fn names_contain(names: Seq<String>, name: Seq<char>) -> bool {
    exists|i: int| 0 <= i < names.len() && #[trigger] names[i]@ == name
}

/// The dots that a list of dot names puts on a feedback line: one at the
/// start if some name is `start`, then one at the end if some name is `end`.
pub open spec fn feedback_dots(names: Seq<String>) -> Seq<DotPosition> {
    (if names_contain(names, "start"@) {
        seq![DotPosition::Start]
    } else {
        seq![]
    }) + (if names_contain(names, "end"@) {
        seq![DotPosition::End]
    } else {
        seq![]
    })
}

fn contains_name(names: &Vec<String>, name: &String) -> (r: bool)
    ensures
        r == names_contain(names@, name@),
{
    let n = names.len();
    for i in 0..n
        invariant
            n == names@.len(),
            forall|j: int| 0 <= j < i ==> names@[j]@ != name@,
    {
        if names[i] == *name {
            return true;
        }
    }
    false
}

/// What a feedback line hands to the drawing engine.
#[derive(Debug, PartialEq)]
pub struct FeedbackDrawing {
    pub atref: Option<(String, String)>,
    pub toref: Option<(String, String)>,
    pub with: Option<SymbolDrawing>,
    pub height: Real,
    pub dot: Option<Vec<DotPosition>>,
}

/// A feedback line from one symbol pin to another, which may carry a component.
#[derive(Clone, Debug, PartialEq)]
pub struct Feedback {
    /// The symbol reference and pin where the line starts.
    pub atref: Option<(String, String)>,
    /// The symbol reference and pin where the line ends.
    pub toref: Option<(String, String)>,
    /// The component on the line.
    pub with: Option<Symbol>,
    pub height: Real,
    /// The names of the ends that carry a dot.
    pub dot: Option<Vec<String>>,
}

impl Feedback {
    /// A feedback line of height `5.0 * 2.54` with nothing else set.
    pub fn new() -> (r: Feedback)
        ensures
            r.atref is None,
            r.toref is None,
            r.with is None,
            r.height.bits == 0x4029_6666_6666_6666,
            r.dot is None,
    {
        Feedback {
            atref: None,
            toref: None,
            with: None,
            height: Real { bits: 0x4029_6666_6666_6666 },
            dot: None,
        }
    }

    /// Starts the line at a pin of a symbol.
    pub fn start(&mut self, reference: Arg, pin: Option<String>) -> (r: Result<(), ArgError>)
        ensures
            match pin_of(reference.kind, pin) {
                Some(At::Pin(a, b)) => r is Ok && *final(self) == (Feedback {
                    atref: Some((a, b)),
                    ..*old(self)
                }),
                _ => r == Err::<(), ArgError>(
                    ArgError::UnknownType { param: Param::Start, type_label: reference.type_label },
                ) && *final(self) == *old(self),
            },
    {
        let Arg { kind, type_label } = reference;
        match pin_reference(kind, pin) {
            Some(rp) => {
                self.atref = Some(rp);
                Ok(())
            },
            None => Err(ArgError::UnknownType { param: Param::Start, type_label }),
        }
    }

    /// Ends the line at a pin of a symbol. A refused value is reported under
    /// the name `start`.
    pub fn end(&mut self, reference: Arg, pin: Option<String>) -> (r: Result<(), ArgError>)
        ensures
            match pin_of(reference.kind, pin) {
                Some(At::Pin(a, b)) => r is Ok && *final(self) == (Feedback {
                    toref: Some((a, b)),
                    ..*old(self)
                }),
                _ => r == Err::<(), ArgError>(
                    ArgError::UnknownType { param: Param::Start, type_label: reference.type_label },
                ) && *final(self) == *old(self),
            },
    {
        let Arg { kind, type_label } = reference;
        match pin_reference(kind, pin) {
            Some(rp) => {
                self.toref = Some(rp);
                Ok(())
            },
            None => Err(ArgError::UnknownType { param: Param::Start, type_label }),
        }
    }

    /// Sets the height of the line.
    pub fn height(&mut self, h: Real)
        ensures
            *final(self) == (Feedback { height: h, ..*old(self) }),
    {
        self.height = h;
    }

    /// Puts dots on the line's ends, named by a string or a list of strings.
    pub fn dot(&mut self, position: Arg) -> (r: Result<(), ArgError>)
        ensures
            match position.kind {
                ArgKind::TextList(v) => r is Ok && *final(self) == (Feedback {
                    dot: Some(v),
                    ..*old(self)
                }),
                ArgKind::Text(s) => r is Ok && final(self).dot is Some
                    && final(self).dot.unwrap()@ == seq![s] && *final(self) == (Feedback {
                    dot: final(self).dot,
                    ..*old(self)
                }),
                _ => r == Err::<(), ArgError>(
                    ArgError::UnknownType { param: Param::Dot, type_label: position.type_label },
                ) && *final(self) == *old(self),
            },
    {
        let Arg { kind, type_label } = position;
        match kind {
            ArgKind::TextList(v) => {
                self.dot = Some(v);
                Ok(())
            },
            ArgKind::Text(s) => {
                let mut v = Vec::new();
                v.push(s);
                self.dot = Some(v);
                Ok(())
            },
            _ => Err(ArgError::UnknownType { param: Param::Dot, type_label }),
        }
    }

    /// Puts a component on the line: a symbol, a resistor or a capacitor. A
    /// resistor or capacitor is carried as the general symbol it stands for.
    pub fn component(&mut self, component: Arg) -> (r: Result<(), ArgError>)
        ensures
            match component.kind {
                ArgKind::Element(Element::Symbol(s)) => r is Ok && *final(self) == (Feedback {
                    with: Some(s),
                    ..*old(self)
                }),
                ArgKind::Element(Element::Resistor(c)) => r is Ok && final(self).with is Some && ({
                    let s = final(self).with.unwrap();
                    &&& s.reference == c.reference && s.value == c.resistance
                    &&& s.lib_id@ == "Device:R"@
                    &&& s.rotate == c.rotate && s.at == c.at && s.tox == c.tox && s.toy == c.toy
                    &&& s.label == c.label
                    &&& s.anchor is None && s.mirror is None && s.unit is None
                    &&& s.properties@.len() == 0
                }) && *final(self) == (Feedback { with: final(self).with, ..*old(self) }),
                ArgKind::Element(Element::Capacitor(c)) => r is Ok && final(self).with is Some && ({
                    let s = final(self).with.unwrap();
                    &&& s.reference == c.reference && s.value == c.capacitance
                    &&& s.lib_id@ == "Device:C"@
                    &&& s.rotate == c.rotate && s.at == c.at && s.tox == c.tox && s.toy == c.toy
                    &&& s.label == c.label
                    &&& s.anchor is None && s.mirror is None && s.unit is None
                    &&& s.properties@.len() == 0
                }) && *final(self) == (Feedback { with: final(self).with, ..*old(self) }),
                _ => r == Err::<(), ArgError>(
                    ArgError::UnknownType {
                        param: Param::Component,
                        type_label: component.type_label,
                    },
                ) && *final(self) == *old(self),
            },
    {
        let Arg { kind, type_label } = component;
        match kind {
            ArgKind::Element(Element::Symbol(s)) => {
                self.with = Some(s);
                Ok(())
            },
            ArgKind::Element(Element::Resistor(c)) => {
                self.with = Some(c.to_symbol());
                Ok(())
            },
            ArgKind::Element(Element::Capacitor(c)) => {
                self.with = Some(c.to_symbol());
                Ok(())
            },
            _ => Err(ArgError::UnknownType { param: Param::Component, type_label }),
        }
    }

    /// The dot positions named by `names` (see `feedback_dots`).
    pub fn dot_positions(names: &Vec<String>) -> (r: Vec<DotPosition>)
        ensures
            r@ == feedback_dots(names@),
    {
        let mut positions = Vec::new();
        let start = String::from_str("start");
        if contains_name(names, &start) {
            positions.push(DotPosition::Start);
        }
        let end = String::from_str("end");
        if contains_name(names, &end) {
            positions.push(DotPosition::End);
        }
        assert(positions@ =~= feedback_dots(names@));
        positions
    }

    /// The line as the drawing engine receives it: its pins and height, its
    /// component as a symbol drawing, and its dots, if the dot names name any.
    pub fn drawing(self) -> (d: FeedbackDrawing)
        ensures
            d.atref == self.atref,
            d.toref == self.toref,
            d.height == self.height,
            match self.with {
                Some(s) => d.with is Some && ({
                    let w = d.with.unwrap();
                    &&& w.reference == s.reference && w.value == s.value && w.lib_id == s.lib_id
                    &&& w.attributes@ == s.spec_attributes()
                }),
                None => d.with is None,
            },
            match self.dot {
                Some(names) => if feedback_dots(names@).len() > 0 {
                    d.dot is Some && d.dot.unwrap()@ == feedback_dots(names@)
                } else {
                    d.dot is None
                },
                None => d.dot is None,
            },
    {
        let dot = match self.dot {
            Some(names) => {
                let positions = Feedback::dot_positions(&names);
                if positions.len() > 0 {
                    Some(positions)
                } else {
                    None
                }
            },
            None => None,
        };
        let with = match self.with {
            Some(s) => Some(s.drawing()),
            None => None,
        };
        FeedbackDrawing { atref: self.atref, toref: self.toref, with, height: self.height, dot }
    }
}

} // verus!
