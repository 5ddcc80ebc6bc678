//! Verified core of the recad Python binding: the builder state of schematic
//! elements, the way placement arguments are resolved, the attribute lists that
//! the elements hand to the drawing engine, the schema session, the kind of a
//! design file, and the formatting of reports and messages.

mod elements;
mod files;
mod laws;
mod placement;
mod reports;
mod schema;
mod text;

pub use elements::{
    anchor_attribute, at_attribute, feedback_dots, label_attribute, mirror_attribute,
    names_contain, properties_map, tox_attribute, toy_attribute, unit_attribute, wire_dots,
    without_key, Element, Feedback, FeedbackDrawing, Gnd, GlobalLabel, Junction, LabelDrawing,
    LocalLabel, NoConnect, Power, Symbol, SymbolDrawing, Wire, C, R,
};
pub use files::{
    bom_input, bom_input_from_extension, bom_outcome, extension_facts, has_no_dot,
    is_portable_path, last_dot, last_segment, load_pcb, pcb_extension, pcb_open_failure,
    pcb_open_failure_text, plain_name_extension, plot_input, plot_input_from_extension,
    plot_outcome, schema_extension, segment_start, text_of, Document, InputError,
};
pub use laws::{
    entries_after_setting, law_capacitor_hands_its_settings, law_decimal_digits_well_formed,
    law_global_label_drawn_rotated_and_placed, law_gnd_drawn_rotated_and_placed,
    law_junction_read_by_rule, law_local_label_drawn_rotated_and_placed, law_no_connect_placed,
    law_nothing_kept_only_where_allowed, law_peek_agrees_with_pop, law_point_places_at_point,
    law_power_drawn_rotated_and_placed, law_property_overrides, law_pushed_junction_popped_first,
    law_reference_with_pin_places_at_pin, law_resistor_hands_its_settings,
    law_rules_differ_only_on_junctions_and_nothing, law_symbol_drawn_where_placed,
    law_symbol_hands_its_settings, law_wire_dots_follow_names, law_wire_drawn_from_its_start,
    law_wire_drawn_from_start_pin, law_wire_drawn_from_start_point, law_wire_reaches_its_targets,
    lemma_singleton_contains,
};
pub use placement::{
    label_position, label_target, pin_of, pin_reference, resolve, resolve_placement, Arg,
    ArgError, ArgKind, At, Attribute, Direction, DotPosition, LabelPosition, Param, Pt, Real,
    Resolution, Rule,
};
pub use reports::{
    pair_text, pairs_text, plot_target, svg_image_repr, svg_image_text, Check, PlotTarget,
    Severity, ViolationText,
};
pub use schema::{
    drawing_of, draws_as, popped, schema_open_failure, schema_title, schema_title_text,
    stack_after_drawing, top, Drawing, Schema, SchemaState,
};
pub use text::{decimal_digits, decimal_text, digit_char, format_i64, format_u64};
