use recad_python::{
    bom_input, bom_input_from_extension, drawing_of, load_pcb, pcb_open_failure_text, plot_input,
    plot_input_from_extension, schema_title_text, Arg, ArgError, ArgKind, At, Attribute, Document, Drawing,
    Element, GlobalLabel, InputError, Junction, Pt, Real, Schema, SchemaState, Wire,
};

fn spot(x: u64, y: u64) -> Pt {
    Pt { x: Real { bits: x }, y: Real { bits: y } }
}

#[test]
fn new_schema_is_active_and_empty() {
    let mut s: Schema<String, Vec<u8>> = Schema::new(vec![1]);
    assert!(s.is_active());
    assert_eq!(s.pos_stack().len(), 0);
    assert_eq!(s.pop(), None);
    assert_eq!(s.peek(), None);
    assert_eq!(s.state(), &SchemaState::Active(vec![1]));
}

#[test]
fn loaded_schema_promotes_once() {
    let loaded: Result<Schema<String, Vec<u8>>, String> = Schema::load("a.kicad_sch", Some("abc".to_string()));
    let mut s = loaded.unwrap();
    assert!(!s.is_active());
    assert!(s.active_builder().is_none());
    s.ensure_builder(|schema: String| schema.into_bytes());
    assert_eq!(s.state(), &SchemaState::Active(b"abc".to_vec()));
    s.active_builder().unwrap().push(b'!');
    s.ensure_builder(|_schema: String| -> Vec<u8> { panic!("an active session is not promoted again") });
    assert_eq!(s.state(), &SchemaState::Active(b"abc!".to_vec()));
}

#[test]
fn failed_load_message() {
    let loaded: Result<Schema<String, Vec<u8>>, String> = Schema::load("missing.kicad_sch", None);
    assert_eq!(loaded.err().unwrap(), "unable to open schema file 'missing.kicad_sch'");
    assert_eq!(pcb_open_failure_text("b.kicad_pcb"), "unable to open PCB file 'b.kicad_pcb'");
}

#[test]
fn pushed_junctions_stack_their_points() {
    let mut s: Schema<(), ()> = Schema::new(());
    let mut plain = Junction::new();
    s.record_junction(&mut plain, spot(1, 2));
    assert_eq!(plain.pos, Some(spot(1, 2)));
    assert_eq!(s.pos_stack().len(), 0);
    let mut first = Junction::new();
    first.push();
    let mut second = Junction::new();
    second.push();
    s.record_junction(&mut first, spot(3, 4));
    s.record_junction(&mut second, spot(5, 6));
    assert_eq!(s.peek(), Some(spot(5, 6)));
    assert_eq!(s.pop(), Some(spot(5, 6)));
    assert_eq!(s.peek(), Some(spot(3, 4)));
    assert_eq!(s.pop(), Some(spot(3, 4)));
    assert_eq!(s.pop(), None);
}

#[test]
fn junction_recorded_only_when_drawn() {
    let mut s: Schema<(), ()> = Schema::new(());
    let mut j = Junction::new();
    j.push();
    let refused: Result<Pt, String> = Err("no room".to_string());
    assert_eq!(s.junction_drawn(&mut j, refused), Err("no room".to_string()));
    assert_eq!(j.pos, None);
    assert_eq!(s.peek(), None);
    let drawn: Result<Pt, String> = Ok(spot(7, 8));
    assert_eq!(s.junction_drawn(&mut j, drawn), Ok(()));
    assert_eq!(j.pos, Some(spot(7, 8)));
    assert_eq!(s.pop(), Some(spot(7, 8)));
    assert_eq!(s.pop(), None);
}

#[test]
fn schema_title() {
    assert_eq!(schema_title_text("amp"), "[recad.Schema] Project: amp");
}

#[test]
fn drawing_dispatch() {
    let label = Arg { kind: ArgKind::Element(Element::GlobalLabel(GlobalLabel::new("X".to_string()))), type_label: "GlobalLabel".to_string() };
    match drawing_of(label).unwrap() {
        Drawing::GlobalLabel(d) => {
            assert_eq!(d.name, "X");
            assert_eq!(d.attributes, vec![Attribute::Rotate(Real { bits: 0 })]);
        },
        other => panic!("unexpected {:?}", other),
    }
    let wire = Arg { kind: ArgKind::Element(Element::Wire(Wire::new())), type_label: "Wire".to_string() };
    assert!(matches!(drawing_of(wire).unwrap(), Drawing::Wire(_)));
    let mut j = Junction::new();
    j.at = Some(At::Pin("R1".to_string(), "1".to_string()));
    let junction = Arg { kind: ArgKind::Element(Element::Junction(j.clone())), type_label: "Junction".to_string() };
    assert_eq!(drawing_of(junction).unwrap(), Drawing::Junction(j));
    let number = Arg { kind: ArgKind::Integer(4), type_label: "int".to_string() };
    assert_eq!(drawing_of(number).err().unwrap(), ArgError::Undrawable { type_label: "int".to_string() });
}

#[test]
fn inputs_decided_by_their_extension() {
    let some = |e: &str| Some(e.to_string());
    assert_eq!(bom_input_from_extension("a.kicad_sch", some("kicad_sch")), Ok(()));
    assert_eq!(
        bom_input_from_extension("a.kicad_pcb", some("kicad_pcb")),
        Err(InputError::Unsupported { extension: "kicad_pcb".to_string() })
    );
    assert_eq!(
        bom_input_from_extension("a.", some("")),
        Err(InputError::Unsupported { extension: "".to_string() })
    );
    assert_eq!(
        bom_input_from_extension("README", None),
        Err(InputError::Unknown { input: "README".to_string() })
    );
    assert_eq!(plot_input_from_extension("b.kicad_sch", some("kicad_sch")), Ok(Document::Schema));
    assert_eq!(plot_input_from_extension("b.kicad_pcb", some("kicad_pcb")), Ok(Document::Pcb));
    assert_eq!(
        plot_input_from_extension("b.svg", some("svg")),
        Err(InputError::Unsupported { extension: "svg".to_string() })
    );
    assert_eq!(
        plot_input_from_extension("dir/", None),
        Err(InputError::Unknown { input: "dir/".to_string() })
    );
}

#[test]
fn plain_names_decide_the_kind() {
    assert_eq!(bom_input("design.kicad_sch"), Ok(()));
    assert_eq!(plot_input("design.kicad_sch"), Ok(Document::Schema));
    assert_eq!(plot_input("board.kicad_pcb"), Ok(Document::Pcb));
    assert_eq!(
        bom_input("design.txt").unwrap_err(),
        InputError::Unsupported { extension: "txt".to_string() }
    );
    assert_eq!(
        plot_input("board.txt").unwrap_err().message(),
        "file extension not supported: txt"
    );
    assert_eq!(
        bom_input(".kicad_sch").unwrap_err(),
        InputError::Unknown { input: ".kicad_sch".to_string() }
    );
    assert_eq!(plot_input("..kicad_pcb"), Ok(Document::Pcb));
}

#[test]
fn paths_with_directories_decide_the_kind() {
    assert_eq!(bom_input("designs/amp.kicad_sch"), Ok(()));
    assert_eq!(plot_input("../boards/main.kicad_pcb"), Ok(Document::Pcb));
    assert_eq!(
        bom_input("old.d/notes").unwrap_err(),
        InputError::Unknown { input: "old.d/notes".to_string() }
    );
    assert_eq!(
        plot_input("out/board.svg").unwrap_err(),
        InputError::Unsupported { extension: "svg".to_string() }
    );
}

#[test]
fn pcb_load_outcome() {
    assert_eq!(load_pcb("b.kicad_pcb", Some(7u8)), Ok(7u8));
    assert_eq!(
        load_pcb::<u8>("b.kicad_pcb", None),
        Err("unable to open PCB file 'b.kicad_pcb'".to_string())
    );
}

#[test]
fn inputs_read_through_the_path_rules() {
    assert_eq!(bom_input("project/amp.kicad_sch/"), Ok(()));
    assert_eq!(plot_input("boards/main.kicad_pcb/."), Ok(Document::Pcb));
    assert_eq!(
        plot_input("a.tar.gz").unwrap_err(),
        InputError::Unsupported { extension: "gz".to_string() }
    );
    assert_eq!(
        plot_input("dir.d/file").unwrap_err(),
        InputError::Unknown { input: "dir.d/file".to_string() }
    );
    assert_eq!(
        bom_input("..").unwrap_err(),
        InputError::Unknown { input: "..".to_string() }
    );
}

#[test]
fn input_kinds_and_messages() {
    assert_eq!(bom_input("design/amp.kicad_sch"), Ok(()));
    let e = bom_input("board.kicad_pcb").unwrap_err();
    assert_eq!(e, InputError::Unsupported { extension: "kicad_pcb".to_string() });
    assert_eq!(e.message(), "file extension not supported: kicad_pcb");
    let e = bom_input("Makefile").unwrap_err();
    assert_eq!(e.message(), "can not guess file type: Makefile");
    assert_eq!(plot_input("x.kicad_pcb"), Ok(Document::Pcb));
    assert_eq!(plot_input("x.kicad_sch"), Ok(Document::Schema));
    assert_eq!(plot_input("x.svg").unwrap_err().message(), "file extension not supported: svg");
    assert_eq!(plot_input(".kicad_sch").unwrap_err().message(), "can not guess file type: .kicad_sch");
}
