//! The schema session: a loaded schema, or an active drawing session over
//! it, with the stack of positions that pushed junctions leave behind; and
//! the dispatch of the values drawn onto a schema.

use vstd::prelude::*;

use crate::elements::{
    Element, FeedbackDrawing, Junction, LabelDrawing, SymbolDrawing,
};
use crate::placement::{Arg, ArgError, ArgKind, Attribute, Pt};

verus! {

/// The state of a schema: loaded and read only, or an active drawing session
/// (the builder of the drawing engine, which holds the schema).
#[derive(Debug, PartialEq)]
pub enum SchemaState<S, B> {
    Static(S),
    Active(B),
}

/// A schema, over the drawing engine's schema type `S` and builder type `B`.
pub struct Schema<S, B> {
    state: Option<SchemaState<S, B>>,
    /// The points of the pushed junctions that have been drawn, the last on top.
    pos_stack: Vec<Pt>,
}

/// The text that names a schema: `[recad.Schema] Project: <project>`.
pub open spec fn schema_title(project: Seq<char>) -> Seq<char> {
    "[recad.Schema] Project: "@ + project
}

/// The message for a schema file that could not be opened.
pub open spec fn schema_open_failure(path: Seq<char>) -> Seq<char> {
    "unable to open schema file '"@ + path + "'"@
}

/// The position stack after a junction was drawn at `pos`: a pushed junction
/// leaves its point on top.
pub open spec fn stack_after_drawing(stack: Seq<Pt>, junction: Junction, pos: Pt) -> Seq<Pt> {
    if junction.pushed {
        stack.push(pos)
    } else {
        stack
    }
}

/// What popping a position stack gives, and the stack that is left.
pub open spec fn popped(stack: Seq<Pt>) -> (Option<Pt>, Seq<Pt>) {
    if stack.len() == 0 {
        (None, stack)
    } else {
        (Some(stack.last()), stack.drop_last())
    }
}

/// The top of a position stack.
pub open spec fn top(stack: Seq<Pt>) -> Option<Pt> {
    if stack.len() == 0 {
        None
    } else {
        Some(stack.last())
    }
}

impl<S, B> Schema<S, B> {
    /// Whether the schema is in a state (it always is, outside of a state change).
    pub closed spec fn wf(&self) -> bool {
        self.state is Some
    }

    /// The position stack, the last point on top.
    pub closed spec fn positions(&self) -> Seq<Pt> {
        self.pos_stack@
    }

    /// The state of the schema.
    pub closed spec fn current(&self) -> SchemaState<S, B> {
        self.state.unwrap()
    }

    /// A new schema, drawn with `builder`, with no positions on its stack.
    pub fn new(builder: B) -> (r: Schema<S, B>)
        ensures
            r.wf(),
            r.current() == SchemaState::<S, B>::Active(builder),
            r.positions().len() == 0,
    {
        Schema { state: Some(SchemaState::Active(builder)), pos_stack: Vec::new() }
    }

    /// The schema read from the file `path`: `loaded` is what was read, or
    /// `None` where the file could not be read as a schema. A loaded schema is
    /// read only until something is drawn onto it.
    pub fn load(path: &str, loaded: Option<S>) -> (r: Result<Schema<S, B>, String>)
        ensures
            match loaded {
                Some(s) => r is Ok && r->Ok_0.wf() && r->Ok_0.current() == SchemaState::<S, B>::Static(s)
                    && r->Ok_0.positions().len() == 0,
                None => r is Err && r->Err_0@ == schema_open_failure(path@),
            },
    {
        match loaded {
            Some(s) => Ok(Schema { state: Some(SchemaState::Static(s)), pos_stack: Vec::new() }),
            None => Err(String::from_str("unable to open schema file '").concat(path).concat("'")),
        }
    }

    /// The state of the schema.
    pub fn state(&self) -> (r: &SchemaState<S, B>)
        requires
            self.wf(),
        ensures
            *r == self.current(),
    {
        self.state.as_ref().unwrap()
    }

    /// The position stack, the last point on top.
    pub fn pos_stack(&self) -> (r: &Vec<Pt>)
        ensures
            r@ == self.positions(),
    {
        &self.pos_stack
    }

    /// Whether a drawing session is active.
    pub fn is_active(&self) -> (r: bool)
        requires
            self.wf(),
        ensures
            r == self.current() is Active,
    {
        match self.state.as_ref().unwrap() {
            SchemaState::Static(_) => false,
            SchemaState::Active(_) => true,
        }
    }

    /// Makes sure a drawing session is active: a loaded schema is handed to
    /// `promote`, which makes the builder that draws on it; an active session
    /// stays as it is.
    pub fn ensure_builder<F: FnOnce(S) -> B>(&mut self, promote: F)
        requires
            old(self).wf(),
            forall|s: S| promote.requires((s,)),
        ensures
            final(self).wf(),
            final(self).current() is Active,
            match old(self).current() {
                SchemaState::Static(s) => promote.ensures((s,), final(self).current()->Active_0),
                SchemaState::Active(b) => final(self).current() == SchemaState::<S, B>::Active(b),
            },
            final(self).positions() == old(self).positions(),
    {
        let state = self.state.take().unwrap();
        let builder = match state {
            SchemaState::Static(s) => promote(s),
            SchemaState::Active(b) => b,
        };
        self.state = Some(SchemaState::Active(builder));
    }

    /// The builder of the active drawing session, if there is one.
    pub fn active_builder(&mut self) -> (r: Option<&mut B>)
        requires
            old(self).wf(),
        ensures
            match old(self).current() {
                SchemaState::Active(b) => r is Some && *r.unwrap() == b && final(self).wf()
                    && final(self).current() == SchemaState::<S, B>::Active(*final(r.unwrap()))
                    && final(self).positions() == old(self).positions(),
                SchemaState::Static(_) => r is None && *final(self) == *old(self),
            },
    {
        match self.state.as_mut() {
            Some(SchemaState::Active(b)) => Some(b),
            _ => None,
        }
    }

    /// Records that `junction` was drawn at `pos`: the junction learns its
    /// point, and a pushed junction leaves the point on the position stack.
    pub fn record_junction(&mut self, junction: &mut Junction, pos: Pt)
        requires
            old(self).wf(),
        ensures
            final(self).wf(),
            final(self).current() == old(self).current(),
            *final(junction) == (Junction { pos: Some(pos), ..*old(junction) }),
            final(self).positions() == stack_after_drawing(old(self).positions(), *old(junction), pos),
    {
        junction.pos = Some(pos);
        if junction.pushed {
            self.pos_stack.push(pos);
        }
    }

    /// Records the outcome of drawing `junction`: where the drawing engine drew
    /// it, the junction learns its point and a pushed junction leaves the
    /// point on the position stack; where the engine refused it, its error is
    /// handed back and nothing changes.
    pub fn junction_drawn<E>(&mut self, junction: &mut Junction, drawn: Result<Pt, E>) -> (r:
        Result<(), E>)
        requires
            old(self).wf(),
        ensures
            final(self).wf(),
            match drawn {
                Ok(pos) => {
                    &&& r is Ok
                    &&& final(self).current() == old(self).current()
                    &&& *final(junction) == (Junction { pos: Some(pos), ..*old(junction) })
                    &&& final(self).positions() == stack_after_drawing(
                        old(self).positions(),
                        *old(junction),
                        pos,
                    )
                },
                Err(e) => r == Err::<(), E>(e) && *final(self) == *old(self) && *final(junction)
                    == *old(junction),
            },
    {
        match drawn {
            Ok(pos) => {
                self.record_junction(junction, pos);
                Ok(())
            },
            Err(e) => Err(e),
        }
    }

    /// Takes the top position off the stack.
    pub fn pop(&mut self) -> (r: Option<Pt>)
        requires
            old(self).wf(),
        ensures
            final(self).wf(),
            final(self).current() == old(self).current(),
            (r, final(self).positions()) == popped(old(self).positions()),
    {
        self.pos_stack.pop()
    }

    /// The top position of the stack, which stays as it is.
    pub fn peek(&mut self) -> (r: Option<Pt>)
        requires
            old(self).wf(),
        ensures
            *final(self) == *old(self),
            r == top(old(self).positions()),
    {
        let n = self.pos_stack.len();
        if n == 0 {
            None
        } else {
            Some(self.pos_stack[n - 1])
        }
    }
}

/// The text that names a schema of the project `project`.
pub fn schema_title_text(project: &str) -> (r: String)
    ensures
        r@ == schema_title(project@),
{
    String::from_str("[recad.Schema] Project: ").concat(project)
}

/// What the drawing engine is handed for a value drawn onto a schema.
#[derive(Debug, PartialEq)]
pub enum Drawing {
    LocalLabel(LabelDrawing),
    GlobalLabel(LabelDrawing),
    /// A symbol, a resistor, a capacitor, a power source or a ground symbol.
    Symbol(SymbolDrawing),
    Wire(Vec<Attribute>),
    NoConnect(Vec<Attribute>),
    Feedback(FeedbackDrawing),
    /// A junction: the schema draws it and records its point.
    Junction(Junction),
}

/// Whether `d` is what the drawing engine is handed for `e`.
pub open spec fn draws_as(e: Element, d: Drawing) -> bool {
    match e {
        Element::LocalLabel(l) => d matches Drawing::LocalLabel(x) && x.name == l.name
            && x.attributes@ == l.spec_attributes(),
        Element::GlobalLabel(l) => d matches Drawing::GlobalLabel(x) && x.name == l.name
            && x.attributes@ == l.spec_attributes(),
        Element::Symbol(s) => d matches Drawing::Symbol(x) && x.reference == s.reference && x.value
            == s.value && x.lib_id == s.lib_id && x.attributes@ == s.spec_attributes(),
        Element::Resistor(c) => d matches Drawing::Symbol(x) && x.reference == c.reference
            && x.value == c.resistance && x.lib_id@ == "Device:R"@ && x.attributes@
            == c.spec_attributes(),
        Element::Capacitor(c) => d matches Drawing::Symbol(x) && x.reference == c.reference
            && x.value == c.capacitance && x.lib_id@ == "Device:C"@ && x.attributes@
            == c.spec_attributes(),
        Element::Power(p) => d matches Drawing::Symbol(x) && x.reference@ == "#PWR"@ + p.voltage@
            && x.value == p.voltage && x.lib_id@ == "power:"@ + p.voltage@ && x.attributes@
            == p.spec_attributes(),
        Element::Gnd(g) => d matches Drawing::Symbol(x) && x.reference@ == "#PWRGND"@ && x.value@
            == "GND"@ && x.lib_id@ == "power:GND"@ && x.attributes@ == g.spec_attributes(),
        Element::Wire(w) => d matches Drawing::Wire(v) && ({
            let base = w.spec_placement_attributes();
            match w.dot {
                Some(names) => if crate::elements::wire_dots(names@).len() > 0 {
                    &&& v@.len() == base.len() + 1
                    &&& v@.take(base.len() as int) == base
                    &&& v@.last() matches Attribute::Dot(p) && p@ == crate::elements::wire_dots(
                        names@,
                    )
                } else {
                    v@ == base
                },
                None => v@ == base,
            }
        }),
        Element::NoConnect(n) => d matches Drawing::NoConnect(v) && v@ == n.spec_attributes(),
        Element::Feedback(f) => d matches Drawing::Feedback(x) && x.atref == f.atref && x.toref
            == f.toref && x.height == f.height && (match f.with {
            Some(s) => x.with is Some && ({
                let w = x.with.unwrap();
                &&& w.reference == s.reference && w.value == s.value && w.lib_id == s.lib_id
                &&& w.attributes@ == s.spec_attributes()
            }),
            None => x.with is None,
        }) && (match f.dot {
            Some(names) => if crate::elements::feedback_dots(names@).len() > 0 {
                x.dot is Some && x.dot.unwrap()@ == crate::elements::feedback_dots(names@)
            } else {
                x.dot is None
            },
            None => x.dot is None,
        }),
        Element::Junction(j) => d == Drawing::Junction(j),
    }
}

/// What the drawing engine is handed for a value drawn onto a schema; values
/// that are no element are refused.
pub fn drawing_of(item: Arg) -> (r: Result<Drawing, ArgError>)
    ensures
        match item.kind {
            ArgKind::Element(e) => r is Ok && draws_as(e, r->Ok_0),
            _ => r == Err::<Drawing, ArgError>(ArgError::Undrawable { type_label: item.type_label }),
        },
{
    let Arg { kind, type_label } = item;
    match kind {
        ArgKind::Element(e) => Ok(
            match e {
                Element::LocalLabel(l) => Drawing::LocalLabel(l.drawing()),
                Element::GlobalLabel(l) => Drawing::GlobalLabel(l.drawing()),
                Element::Symbol(s) => Drawing::Symbol(s.drawing()),
                Element::Resistor(c) => Drawing::Symbol(c.drawing()),
                Element::Capacitor(c) => Drawing::Symbol(c.drawing()),
                Element::Power(p) => Drawing::Symbol(p.drawing()),
                Element::Gnd(g) => Drawing::Symbol(g.drawing()),
                Element::Wire(w) => Drawing::Wire(w.drawing()),
                Element::NoConnect(n) => Drawing::NoConnect(n.drawing()),
                Element::Feedback(f) => Drawing::Feedback(f.drawing()),
                Element::Junction(j) => Drawing::Junction(j),
            },
        ),
        _ => Err(ArgError::Undrawable { type_label }),
    }
}

} // verus!
