use recad_python::{
    format_i64, format_u64, plot_target, svg_image_repr, Check, PlotTarget, Severity, ViolationText,
};

#[test]
fn decimal_text_matches_display() {
    for v in [0i64, 7, -7, 10, 1234567890, -1000, i64::MAX, i64::MIN] {
        assert_eq!(format_i64(v), v.to_string());
    }
    for v in [0u64, 9, 10, 99, 100, u64::MAX] {
        assert_eq!(format_u64(v), v.to_string());
    }
}

fn violation(check: Check, level: Severity, markers: Vec<(&str, &str)>) -> ViolationText {
    ViolationText {
        check,
        level,
        title: "Pin not connected".to_string(),
        description: "U1 pin 3".to_string(),
        position: ("1.5".to_string(), "-2".to_string()),
        markers: markers.into_iter().map(|(x, y)| (x.to_string(), y.to_string())).collect(),
    }
}

#[test]
fn violation_texts() {
    let v = violation(Check::Erc, Severity::Error, vec![("1", "2"), ("3", "4")]);
    assert_eq!(
        v.repr(),
        "ErcViolation(level=Error, title='Pin not connected', description='U1 pin 3', position=(1.5, -2), markers=(1, 2), (3, 4))"
    );
    assert_eq!(v.text(), "[ERROR] Pin not connected: U1 pin 3\n  Position: (1.5, -2)\n  Markers: (1, 2), (3, 4)");
    let w = violation(Check::Drc, Severity::Warning, vec![]);
    assert_eq!(
        w.repr(),
        "DrcViolation(level=Warning, title='Pin not connected', description='U1 pin 3', position=(1.5, -2), markers=)"
    );
    assert_eq!(w.text(), "[WARNING] Pin not connected: U1 pin 3\n  Position: (1.5, -2)\n  Markers: ");
}

#[test]
fn svg_image_counts_bytes() {
    assert_eq!(svg_image_repr(""), "<SvgImage data_len=0 bytes>");
    assert_eq!(svg_image_repr("<svg/>"), "<SvgImage data_len=6 bytes>");
    assert_eq!(svg_image_repr("Ω"), "<SvgImage data_len=2 bytes>");
}

#[test]
fn plot_targets_in_order() {
    assert_eq!(plot_target(Some("a.svg".to_string()), true, true), PlotTarget::File("a.svg".to_string()));
    assert_eq!(plot_target(None, true, true), PlotTarget::Notebook);
    assert_eq!(plot_target(None, false, true), PlotTarget::Editor);
    assert_eq!(plot_target(None, false, false), PlotTarget::Other);
}
