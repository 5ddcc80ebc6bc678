//! The texts of check reports and of rendered images, and where a plot goes.

use vstd::prelude::*;

use crate::text::{decimal_digits, format_u64};

verus! {

/// The severity of a rule violation.
#[derive(Clone, Copy, Debug, PartialEq, Eq)]
pub enum Severity {
    Error,
    Warning,
}

impl Severity {
    /// The name of the level in the detailed text: `Error` or `Warning`.
    pub open spec fn spec_name(self) -> Seq<char> {
        match self {
            Severity::Error => "Error"@,
            Severity::Warning => "Warning"@,
        }
    }

    /// The name of the level in the short text: `ERROR` or `WARNING`.
    pub open spec fn spec_tag(self) -> Seq<char> {
        match self {
            Severity::Error => "ERROR"@,
            Severity::Warning => "WARNING"@,
        }
    }

    pub fn name(&self) -> (r: &'static str)
        ensures
            r@ == self.spec_name(),
    {
        match self {
            Severity::Error => "Error",
            Severity::Warning => "Warning",
        }
    }

    pub fn tag(&self) -> (r: &'static str)
        ensures
            r@ == self.spec_tag(),
    {
        match self {
            Severity::Error => "ERROR",
            Severity::Warning => "WARNING",
        }
    }
}

/// The kind of rule check that found a violation.
#[derive(Clone, Copy, Debug, PartialEq, Eq)]
pub enum Check {
    /// The electrical rule check of a schema.
    Erc,
    /// The design rule check of a PCB.
    Drc,
}

impl Check {
    pub open spec fn spec_prefix(self) -> Seq<char> {
        match self {
            Check::Erc => "ErcViolation("@,
            Check::Drc => "DrcViolation("@,
        }
    }

    fn prefix(&self) -> (r: &'static str)
        ensures
            r@ == self.spec_prefix(),
    {
        match self {
            Check::Erc => "ErcViolation(",
            Check::Drc => "DrcViolation(",
        }
    }
}

/// A coordinate pair as text: `(<x>, <y>)`.
pub open spec fn pair_text(p: (String, String)) -> Seq<char> {
    "("@ + p.0@ + ", "@ + p.1@ + ")"@
}

/// Coordinate pairs as text, separated by `, `.
pub open spec fn pairs_text(ps: Seq<(String, String)>) -> Seq<char>
    decreases ps.len(),
{
    if ps.len() == 0 {
        seq![]
    } else if ps.len() == 1 {
        pair_text(ps[0])
    } else {
        pairs_text(ps.drop_last()) + ", "@ + pair_text(ps.last())
    }
}

fn write_pair(p: &(String, String)) -> (r: String)
    ensures
        r@ == pair_text(*p),
{
    String::from_str("(").concat(p.0.as_str()).concat(", ").concat(p.1.as_str()).concat(")")
}

fn write_pairs(ps: &Vec<(String, String)>) -> (r: String)
    ensures
        r@ == pairs_text(ps@),
{
    let mut out = String::new();
    let n = ps.len();
    for i in 0..n
        invariant
            n == ps@.len(),
            out@ == pairs_text(ps@.take(i as int)),
    {
        assert(ps@.take(i + 1).drop_last() =~= ps@.take(i as int));
        let piece = write_pair(&ps[i]);
        if i == 0 {
            out.append(piece.as_str());
            assert(out@ =~= pairs_text(ps@.take(1)));
        } else {
            out.append(", ");
            out.append(piece.as_str());
            assert(out@ =~= pairs_text(ps@.take(i + 1)));
        }
    }
    assert(ps@.take(n as int) =~= ps@);
    out
}

/// A rule violation, with its coordinates already written as text.
pub struct ViolationText {
    pub check: Check,
    pub level: Severity,
    pub title: String,
    pub description: String,
    /// The point of the violation, its coordinates written as text.
    pub position: (String, String),
    /// Further points of the violation, their coordinates written as text.
    pub markers: Vec<(String, String)>,
}

impl ViolationText {
    /// The detailed text, as `repr` shows it.
    pub open spec fn spec_repr(self) -> Seq<char> {
        self.check.spec_prefix() + "level="@ + self.level.spec_name() + ", title='"@ + self.title@
            + "', description='"@ + self.description@ + "', position="@ + pair_text(
            self.position,
        ) + ", markers="@ + pairs_text(self.markers@) + ")"@
    }

    /// The short text, as `str` shows it.
    pub open spec fn spec_str(self) -> Seq<char> {
        "["@ + self.level.spec_tag() + "] "@ + self.title@ + ": "@ + self.description@
            + "\n  Position: "@ + pair_text(self.position) + "\n  Markers: "@ + pairs_text(
            self.markers@,
        )
    }

    pub fn repr(&self) -> (r: String)
        ensures
            r@ == self.spec_repr(),
    {
        let position = write_pair(&self.position);
        let markers = write_pairs(&self.markers);
        String::from_str(self.check.prefix()).concat("level=").concat(self.level.name()).concat(
            ", title='",
        ).concat(self.title.as_str()).concat("', description='").concat(
            self.description.as_str(),
        ).concat("', position=").concat(position.as_str()).concat(", markers=").concat(
            markers.as_str(),
        ).concat(")")
    }

    pub fn text(&self) -> (r: String)
        ensures
            r@ == self.spec_str(),
    {
        let position = write_pair(&self.position);
        let markers = write_pairs(&self.markers);
        String::from_str("[").concat(self.level.tag()).concat("] ").concat(
            self.title.as_str(),
        ).concat(": ").concat(self.description.as_str()).concat("\n  Position: ").concat(
            position.as_str(),
        ).concat("\n  Markers: ").concat(markers.as_str())
    }
}

/// The text that stands for an SVG image: `<SvgImage data_len=<n> bytes>`,
/// with `n` the number of bytes of its UTF-8 data.
pub open spec fn svg_image_text(data: &str) -> Seq<char> {
    "<SvgImage data_len="@ + decimal_digits(
        (vstd::string::StringSliceAdditionalSpecFns::spec_bytes(data).len() as usize) as nat,
    ) + " bytes>"@
}

pub fn svg_image_repr(data: &str) -> (r: String)
    ensures
        r@ == svg_image_text(data),
{
    let n = data.len();
    let digits = format_u64(n as u64);
    String::from_str("<SvgImage data_len=").concat(digits.as_str()).concat(" bytes>")
}

/// Where a plot goes.
#[derive(Clone, Debug, PartialEq)]
pub enum PlotTarget {
    /// Into the file at this path.
    File(String),
    /// Into the notebook the code runs in.
    Notebook,
    /// Nowhere yet: the code runs inside the editor.
    Editor,
    /// Nowhere: the caller gets a placeholder text.
    Other,
}

/// Where a plot goes: into the file at `path` if one is given, else into the
/// notebook if the code runs in one, else to the editor if it runs in one.
pub fn plot_target(path: Option<String>, in_notebook: bool, in_editor: bool) -> (r: PlotTarget)
    ensures
        r == (match path {
            Some(p) => PlotTarget::File(p),
            None => if in_notebook {
                PlotTarget::Notebook
            } else if in_editor {
                PlotTarget::Editor
            } else {
                PlotTarget::Other
            },
        }),
{
    match path {
        Some(p) => PlotTarget::File(p),
        None => if in_notebook {
            PlotTarget::Notebook
        } else if in_editor {
            PlotTarget::Editor
        } else {
            PlotTarget::Other
        },
    }
}

} // verus!
