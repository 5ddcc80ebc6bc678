//! The kind of a design file, guessed from the extension that the standard
//! library's `Path::extension` reads from its path, and the messages for files
//! that cannot be handled.

use vstd::prelude::*;

verus! {

/// Whether `s` holds no `.`.
pub open spec fn has_no_dot(s: Seq<char>) -> bool {
    forall|i: int| 0 <= i < s.len() ==> s[i] != '.'
}

/// The text of an optional string.
pub open spec fn text_of(o: Option<String>) -> Option<Seq<char>> {
    match o {
        Some(t) => Some(t@),
        None => None,
    }
}

/// The index just after the last `/` of `p`, or 0 if `p` has none.
pub open spec fn segment_start(p: Seq<char>) -> int
    decreases p.len(),
{
    if p.len() == 0 {
        0
    } else if p.last() == '/' {
        p.len() as int
    } else {
        segment_start(p.drop_last())
    }
}

/// What follows the last `/` of `p`: the whole of `p` if it has none.
pub open spec fn last_segment(p: Seq<char>) -> Seq<char> {
    p.subrange(segment_start(p), p.len() as int)
}

/// Whether `path` is read alike wherever `/` separates the components of a
/// path: it holds no `\` and no `:`, so it has no prefix and no other
/// separator; it does not start at the root; its last component is not `..`;
/// and where it has a `/`, its last component is a name, neither empty nor `.`.
/// Such a path names the file that its last component names.
pub open spec fn is_portable_path(path: Seq<char>) -> bool {
    let last = last_segment(path);
    &&& forall|i: int| 0 <= i < path.len() ==> path[i] != '\\' && path[i] != ':'
    &&& !(path.len() > 0 && path[0] == '/')
    &&& last != seq!['.', '.']
    &&& segment_start(path) > 0 ==> last.len() > 0 && last != seq!['.']
}

/// The index of the last `.` of `s`, or -1 if `s` has none.
pub open spec fn last_dot(s: Seq<char>) -> int
    decreases s.len(),
{
    if s.len() == 0 {
        -1
    } else if s.last() == '.' {
        s.len() - 1
    } else {
        last_dot(s.drop_last())
    }
}

/// The extension of a file name: what follows its last `.`; a name without a
/// `.`, and a name whose only `.` is its first character, have none.
pub open spec fn plain_name_extension(name: Seq<char>) -> Option<Seq<char>> {
    let i = last_dot(name);
    if i <= 0 {
        None
    } else {
        Some(name.subrange(i + 1, name.len() as int))
    }
}

/// What holds of the extension that `Path::extension` gives for a path: it is
/// what follows the last `.` of the file name, so it holds no `.`, and a path
/// without any `.` has none; a portable path names the file that its last
/// component names, so its extension is that of the last component.
pub open spec fn extension_facts(path: Seq<char>, extension: Option<String>) -> bool {
    &&& extension matches Some(e) ==> has_no_dot(e@)
    &&& has_no_dot(path) ==> extension is None
    &&& is_portable_path(path) ==> text_of(extension) == plain_name_extension(
        last_segment(path),
    )
}

/// The extension of the file that `path` names, as
/// `std::path::Path::extension` reads it. The standard library's documentation
/// gives `/` as a separator on Unix-like systems and on Windows, where `\` is
/// one too and a path may start with a prefix such as `C:`. So the contract
/// says which extension comes back for a portable path (see
/// `is_portable_path`), where these rules agree; for a path with `\`, `:`, a
/// leading `/` or a trailing `.`, `..` or `/` component it says only that the
/// extension holds no `.` and that a path without `.` has none.
#[verifier::external_body]
fn std_path_extension(path: &str) -> (r: Option<String>)
    ensures
        extension_facts(path@, r),
{
    match std::path::Path::new(path).extension() {
        Some(e) => Some(e.to_string_lossy().into_owned()),
        None => None,
    }
}

/// A design file that can be read.
#[derive(Clone, Copy, Debug, PartialEq)]
pub enum Document {
    Schema,
    Pcb,
}

/// Why a design file cannot be handled.
#[derive(Clone, Debug, PartialEq)]
pub enum InputError {
    /// The file has an extension that is not handled.
    Unsupported { extension: String },
    /// The path names no file with an extension.
    Unknown { input: String },
}

impl InputError {
    pub open spec fn spec_message(self) -> Seq<char> {
        match self {
            InputError::Unsupported { extension } => "file extension not supported: "@ + extension@,
            InputError::Unknown { input } => "can not guess file type: "@ + input@,
        }
    }

    /// The message for the error.
    pub fn message(&self) -> (r: String)
        ensures
            r@ == self.spec_message(),
    {
        match self {
            InputError::Unsupported { extension } => String::from_str(
                "file extension not supported: ",
            ).concat(extension.as_str()),
            InputError::Unknown { input } => String::from_str("can not guess file type: ").concat(
                input.as_str(),
            ),
        }
    }
}

/// The extension of schema files.
pub open spec fn schema_extension() -> Seq<char> {
    "kicad_sch"@
}

/// The extension of PCB files.
pub open spec fn pcb_extension() -> Seq<char> {
    "kicad_pcb"@
}

/// Whether `r` is what checking `input`, whose file has `extension`, for a
/// bill of materials gives: success for a schema file, the extension refused
/// for any other, and the input refused where there is no extension.
pub open spec fn bom_outcome(
    input: Seq<char>,
    extension: Option<Seq<char>>,
    r: Result<(), InputError>,
) -> bool {
    match extension {
        Some(e) => if e == schema_extension() {
            r is Ok
        } else {
            r matches Err(InputError::Unsupported { extension: x }) && x@ == e
        },
        None => r matches Err(InputError::Unknown { input: i }) && i@ == input,
    }
}

/// Whether `r` is the document that plotting `input`, whose file has
/// `extension`, reads: a schema or a PCB file; any other extension is refused,
/// and so is an input without one.
pub open spec fn plot_outcome(
    input: Seq<char>,
    extension: Option<Seq<char>>,
    r: Result<Document, InputError>,
) -> bool {
    match extension {
        Some(e) => if e == schema_extension() {
            r == Ok::<Document, InputError>(Document::Schema)
        } else if e == pcb_extension() {
            r == Ok::<Document, InputError>(Document::Pcb)
        } else {
            r matches Err(InputError::Unsupported { extension: x }) && x@ == e
        },
        None => r matches Err(InputError::Unknown { input: i }) && i@ == input,
    }
}

/// Checks that `input`, whose file has the extension `extension`, names a
/// schema file, the one kind of file that a bill of materials is made from.
pub fn bom_input_from_extension(input: &str, extension: Option<String>) -> (r: Result<
    (),
    InputError,
>)
    ensures
        bom_outcome(input@, text_of(extension), r),
{
    match extension {
        Some(e) => {
            let sch = String::from_str("kicad_sch");
            if e == sch {
                Ok(())
            } else {
                Err(InputError::Unsupported { extension: e })
            }
        },
        None => Err(InputError::Unknown { input: String::from_str(input) }),
    }
}

/// Checks that `input` names a schema file, the one kind of file that a bill
/// of materials is made from; the extension is the one that the standard
/// library reads from the path.
pub fn bom_input(input: &str) -> (r: Result<(), InputError>)
    ensures
        exists|extension: Option<String>|
            #![trigger bom_outcome(input@, text_of(extension), r)]
            extension_facts(input@, extension) && bom_outcome(input@, text_of(extension), r),
        is_portable_path(input@) ==> bom_outcome(
            input@,
            plain_name_extension(last_segment(input@)),
            r,
        ),
{
    let extension = std_path_extension(input);
    let r = bom_input_from_extension(input, extension);
    assert(extension_facts(input@, extension) && bom_outcome(input@, text_of(extension), r));
    r
}

/// The document that `input`, whose file has the extension `extension`, names
/// for plotting: a schema or a PCB file.
pub fn plot_input_from_extension(input: &str, extension: Option<String>) -> (r: Result<
    Document,
    InputError,
>)
    ensures
        plot_outcome(input@, text_of(extension), r),
{
    match extension {
        Some(e) => {
            let sch = String::from_str("kicad_sch");
            let pcb = String::from_str("kicad_pcb");
            if e == sch {
                Ok(Document::Schema)
            } else if e == pcb {
                Ok(Document::Pcb)
            } else {
                Err(InputError::Unsupported { extension: e })
            }
        },
        None => Err(InputError::Unknown { input: String::from_str(input) }),
    }
}

/// The document that `input` names, for plotting: a schema or a PCB file; the
/// extension is the one that the standard library reads from the path.
pub fn plot_input(input: &str) -> (r: Result<Document, InputError>)
    ensures
        exists|extension: Option<String>|
            #![trigger plot_outcome(input@, text_of(extension), r)]
            extension_facts(input@, extension) && plot_outcome(input@, text_of(extension), r),
        is_portable_path(input@) ==> plot_outcome(
            input@,
            plain_name_extension(last_segment(input@)),
            r,
        ),
{
    let extension = std_path_extension(input);
    let r = plot_input_from_extension(input, extension);
    assert(extension_facts(input@, extension) && plot_outcome(input@, text_of(extension), r));
    r
}

/// The message for a PCB file that could not be opened.
pub open spec fn pcb_open_failure(path: Seq<char>) -> Seq<char> {
    "unable to open PCB file '"@ + path + "'"@
}

/// The message for a PCB file that could not be opened.
pub fn pcb_open_failure_text(path: &str) -> (r: String)
    ensures
        r@ == pcb_open_failure(path@),
{
    String::from_str("unable to open PCB file '").concat(path).concat("'")
}

/// The PCB read from the file `path`: `loaded` is what was read, or `None`
/// where the file could not be read as a PCB.
pub fn load_pcb<P>(path: &str, loaded: Option<P>) -> (r: Result<P, String>)
    ensures
        match loaded {
            Some(p) => r == Ok::<P, String>(p),
            None => r is Err && r->Err_0@ == pcb_open_failure(path@),
        },
{
    match loaded {
        Some(p) => Ok(p),
        None => Err(pcb_open_failure_text(path)),
    }
}

} // verus!
