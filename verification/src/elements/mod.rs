//! The elements that a schema draws, with their builder methods and the
//! attribute lists they hand to the drawing engine.

mod feedback;
mod labels;
mod parts;
mod symbol;
mod wire;

pub use feedback::{feedback_dots, names_contain, Feedback, FeedbackDrawing};
pub use labels::{GlobalLabel, Junction, LabelDrawing, LocalLabel, NoConnect};
pub use parts::{Gnd, Power, C, R};
pub(crate) use symbol::lemma_without_key;
pub use symbol::{
    anchor_attribute, label_attribute, mirror_attribute, properties_map, tox_attribute,
    toy_attribute, unit_attribute, without_key, Symbol, SymbolDrawing,
};
pub use wire::{wire_dots, Wire};

use vstd::prelude::*;

use crate::placement::{At, Attribute};

verus! {

/// An element of this library, as a value handed in from the scripting side.
#[derive(Clone, Debug, PartialEq)]
pub enum Element {
    LocalLabel(LocalLabel),
    GlobalLabel(GlobalLabel),
    Symbol(Symbol),
    Resistor(R),
    Capacitor(C),
    Power(Power),
    Gnd(Gnd),
    Wire(Wire),
    NoConnect(NoConnect),
    Feedback(Feedback),
    Junction(Junction),
}

/// The attribute that places an element, if it has a placement.
pub open spec fn at_attribute(o: Option<At>) -> Seq<Attribute> {
    match o {
        Some(a) => seq![Attribute::At(a)],
        None => seq![],
    }
}

} // verus!
