use wlroots::codegen::query::Capture;
use wlroots::codegen::scrape::{
    captures_by_name, parse_events_decl, parse_method_params, parse_methods, parse_structs, read_event, read_events,
    read_method, read_param, read_params, read_struct, CParam, ScrapeError, WlrEvent,
};
use wlroots::codegen::types::CType;

const HEADER: &str = "/**
 * Attempts to commit the pending state.
 * Returns false on failure
 */
bool wlr_output_commit(struct wlr_output *output);

struct wlr_backend *wlr_backend_autocreate(struct wl_display *display);

void not_ours(int x);

// Sets the mode.
void wlr_output_set_mode(struct wlr_output *output, struct wlr_output_mode *mode);
enum wlr_edges wlr_output_edges(struct wlr_output *output, int32_t width, bool on);

/**
 * A backend provides a set of input and output devices.
 */
struct wlr_backend {
	const struct wlr_backend_impl *impl;

	struct {
		/** Raised when destroyed */
		struct wl_signal destroy;
		/** Raised when new outputs are added */
		struct wl_signal new_output; // struct wlr_output
		struct wl_signal new_input; // wlr_input_device
		int not_a_signal;
	} events;
};

struct wlr_box {
	int x, y;
};

struct other {
	int z;
};
";

fn captures(pairs: &[(&str, &str)]) -> Vec<Capture> {
    pairs
        .iter()
        .map(|(name, text)| Capture { name: name.to_string(), text: text.to_string(), start: 0, end: text.len() })
        .collect()
}

fn is_struct_pointer(ty: &CType, expected: &str) -> bool {
    matches!(ty, CType::StructPointer(name) if name == expected)
}

fn is_value(ty: &CType, expected: &str) -> bool {
    matches!(ty, CType::Value(name) if name == expected)
}

fn missing<T>(r: Result<T, ScrapeError>) -> String {
    match r {
        Err(ScrapeError::MissingCapture(name)) => name,
        Err(ScrapeError::QueryFailed) => panic!("the query failed"),
        Ok(_) => panic!("the match must not be readable"),
    }
}

fn signature(params: &[CParam]) -> Vec<String> {
    params.iter().map(|p| format!("{}: {:?}", p.name, p.ty)).collect()
}

#[test]
fn parse_methods_reads_the_methods_of_a_header() {
    let methods = parse_methods(HEADER).unwrap();
    let names: Vec<&str> = methods.iter().map(|m| m.name.as_str()).collect();
    assert_eq!(names, vec!["wlr_output_commit", "wlr_backend_autocreate", "wlr_output_set_mode", "wlr_output_edges"]);

    assert_eq!(methods[0].doc.as_deref(), Some("Attempts to commit the pending state. Returns false on failure."));
    assert!(is_value(&methods[0].return_type, "bool"));
    assert_eq!(signature(&methods[0].params), vec!["output: StructPointer(\"wlr_output\")"]);

    assert_eq!(methods[1].doc, None);
    assert!(is_struct_pointer(&methods[1].return_type, "wlr_backend"));
    assert_eq!(signature(&methods[1].params), vec!["display: StructPointer(\"wl_display\")"]);

    assert_eq!(methods[2].doc.as_deref(), Some("Sets the mode."));
    assert!(matches!(methods[2].return_type, CType::Void));
    assert_eq!(
        signature(&methods[2].params),
        vec!["output: StructPointer(\"wlr_output\")", "mode: StructPointer(\"wlr_output_mode\")"]
    );

    assert_eq!(methods[3].doc, None);
    assert!(matches!(&methods[3].return_type, CType::Enum(name) if name == "wlr_edges"));
    assert_eq!(
        signature(&methods[3].params),
        vec!["output: StructPointer(\"wlr_output\")", "width: Value(\"int32_t\")", "on: Value(\"bool\")"]
    );
}

#[test]
fn parse_methods_of_a_header_without_methods_is_empty() {
    assert!(parse_methods("").unwrap().is_empty());
    assert!(parse_methods("void helper(void);\nint wlr;\n").unwrap().is_empty());
}

#[test]
fn parse_structs_reads_the_structs_of_a_header_with_their_events() {
    let structs = parse_structs(HEADER).unwrap();
    let names: Vec<&str> = structs.iter().map(|s| s.name.as_str()).collect();
    assert_eq!(names, vec!["wlr_backend", "wlr_box"]);
    assert_eq!(structs[0].doc.as_deref(), Some("A backend provides a set of input and output devices."));
    let events: Vec<(&str, Option<&str>, Option<&str>)> = structs[0]
        .events
        .iter()
        .map(|e| (e.name.as_str(), e.doc.as_deref(), e.event_type.as_deref()))
        .collect();
    assert_eq!(
        events,
        vec![
            ("destroy", Some("Raised when destroyed */."), None),
            ("new_output", Some("Raised when new outputs are added */."), Some("wlr_output")),
            ("new_input", None, Some("wlr_input_device")),
        ]
    );
    assert_eq!(structs[1].doc, None);
    assert!(structs[1].events.is_empty());
}

#[test]
fn parse_structs_of_a_header_without_structs_is_empty() {
    assert!(parse_structs("int x").unwrap().is_empty());
}

#[test]
fn parse_method_params_reads_the_parameters_in_a_span() {
    let list = "(struct wlr_output *output, int32_t width, bool on)";
    let start = HEADER.find(list).unwrap();
    let params = parse_method_params(HEADER, start, start + list.len()).unwrap();
    assert_eq!(
        signature(&params),
        vec!["output: StructPointer(\"wlr_output\")", "width: Value(\"int32_t\")", "on: Value(\"bool\")"]
    );
    assert!(parse_method_params("", 0, 0).unwrap().is_empty());
}

#[test]
fn parse_events_decl_reads_the_events_in_a_span() {
    let start = HEADER.find("struct {").unwrap();
    let end = HEADER.find("} events;").unwrap() + "} events;".len();
    let events = parse_events_decl(HEADER, start, end).unwrap();
    let names: Vec<&str> = events.iter().map(|e| e.name.as_str()).collect();
    assert_eq!(names, vec!["destroy", "new_output", "new_input"]);
    assert_eq!(events[1].event_type.as_deref(), Some("wlr_output"));
}

#[test]
fn captures_by_name_finds_the_capture_of_a_name() {
    let found = captures(&[("name", "wlr_output_commit"), ("return_type", "bool")]);
    assert_eq!(captures_by_name(&found, "name").map(|c| c.text.as_str()), Some("wlr_output_commit"));
    assert_eq!(captures_by_name(&found, "return_type"), Some(&found[1]));
    assert_eq!(captures_by_name(&found, "doc"), None);
    assert_eq!(captures_by_name(&Vec::new(), "name"), None);
}

#[test]
fn captures_by_name_lets_the_last_capture_of_a_name_count() {
    let found = captures(&[("doc", "// first"), ("name", "f"), ("doc", "// second")]);
    assert_eq!(captures_by_name(&found, "doc").map(|c| c.text.as_str()), Some("// second"));
}

#[test]
fn read_param_reads_name_and_type() {
    let param = read_param(&captures(&[
        ("param_type", "struct wlr_output"),
        ("pointer_type", "*output"),
        ("param_name", "output"),
    ]))
    .unwrap();
    assert_eq!(param.name, "output");
    assert!(is_struct_pointer(&param.ty, "wlr_output"));

    let param = read_param(&captures(&[("param_type", "bool"), ("param_name", "enable")])).unwrap();
    assert_eq!(param.name, "enable");
    assert!(is_value(&param.ty, "bool"));
}

#[test]
fn read_param_names_the_capture_that_is_missing() {
    assert_eq!(missing(read_param(&captures(&[("param_type", "bool")]))), "param_name");
    assert_eq!(missing(read_param(&captures(&[("param_name", "enable")]))), "param_type");
    assert_eq!(missing(read_param(&Vec::new())), "param_name");
}

#[test]
fn read_params_keeps_the_order_of_the_matches() {
    let params = read_params(&vec![
        captures(&[("param_type", "struct wlr_output"), ("pointer_type", "*output"), ("param_name", "output")]),
        captures(&[("param_type", "int32_t"), ("param_name", "width")]),
        captures(&[("param_type", "int32_t"), ("param_name", "height")]),
    ])
    .unwrap();
    let names: Vec<&str> = params.iter().map(|p| p.name.as_str()).collect();
    assert_eq!(names, vec!["output", "width", "height"]);
    assert!(read_params(&Vec::new()).unwrap().is_empty());
}

#[test]
fn read_params_fails_with_the_first_unreadable_match() {
    let r = read_params(&vec![
        captures(&[("param_type", "int"), ("param_name", "a")]),
        captures(&[("param_name", "b")]),
        captures(&[("param_type", "int")]),
    ]);
    assert_eq!(missing(r), "param_type");
}

fn commit_captures() -> Vec<Capture> {
    captures(&[
        ("doc", "/**\n * Applies the pending state.\n */"),
        ("wlr_method", "bool wlr_output_commit(struct wlr_output *output);"),
        ("return_type", "bool"),
        ("name", "wlr_output_commit"),
        ("params", "(struct wlr_output *output)"),
    ])
}

#[test]
fn read_method_reads_documentation_name_parameters_and_result() {
    let params = vec![CParam { name: "output".to_string(), ty: CType::StructPointer("wlr_output".to_string()) }];
    let method = read_method(&commit_captures(), params).unwrap();
    assert_eq!(method.doc.as_deref(), Some("Applies the pending state."));
    assert_eq!(method.name, "wlr_output_commit");
    assert_eq!(signature(&method.params), vec!["output: StructPointer(\"wlr_output\")"]);
    assert!(is_value(&method.return_type, "bool"));
}

#[test]
fn read_method_reads_a_pointer_result_and_no_documentation() {
    let method = read_method(
        &captures(&[
            ("return_type", "struct wlr_backend"),
            ("pointer_type", "*wlr_backend_autocreate(struct wl_display *display)"),
            ("name", "wlr_backend_autocreate"),
        ]),
        Vec::new(),
    )
    .unwrap();
    assert_eq!(method.doc, None);
    assert!(is_struct_pointer(&method.return_type, "wlr_backend"));
    assert!(method.params.is_empty());
}

#[test]
fn read_method_names_what_is_missing() {
    let mut found = commit_captures();
    found.retain(|c| c.name != "name");
    assert_eq!(missing(read_method(&found, Vec::new())), "name");
    let mut found = commit_captures();
    found.retain(|c| c.name != "return_type");
    assert_eq!(missing(read_method(&found, Vec::new())), "return_type");
    assert_eq!(missing(read_method(&Vec::new(), Vec::new())), "name");
}

#[test]
fn read_event_reads_documentation_and_payload_type() {
    let event = read_event(&captures(&[
        ("doc", "// Raised when a new output appears"),
        ("field_type", "wl_signal"),
        ("event_name", "new_output"),
        ("event_type", "// struct wlr_output"),
    ]))
    .unwrap();
    assert_eq!(event.name, "new_output");
    assert_eq!(event.doc.as_deref(), Some("Raised when a new output appears."));
    assert_eq!(event.event_type.as_deref(), Some("wlr_output"));
}

#[test]
fn read_event_takes_an_annotation_before_the_event_for_no_documentation() {
    let event = read_event(&captures(&[("doc", "// wlr_input_device"), ("event_name", "new_output")])).unwrap();
    assert_eq!(event.doc, None);
    assert_eq!(event.event_type, None);
}

#[test]
fn read_event_reads_the_annotation_in_each_of_its_forms() {
    let type_of = |annotation: &str| {
        read_event(&captures(&[("event_name", "e"), ("event_type", annotation)])).unwrap().event_type
    };
    assert_eq!(type_of("// wlr_output").as_deref(), Some("wlr_output"));
    assert_eq!(type_of("// struct wlr_xdg_surface").as_deref(), Some("wlr_xdg_surface"));
    assert_eq!(type_of("// struct wlr_output\\*").as_deref(), Some("wlr_output"));
    // What is no annotation gives no type.
    assert_eq!(type_of("// struct wlr_output*"), None);
    assert_eq!(type_of("// some words"), None);
    assert_eq!(type_of("//wlr_output"), None);
    assert_eq!(type_of("// wlr_Output"), None);
    assert_eq!(type_of("/* wlr_output */"), None);
}

#[test]
fn read_event_needs_the_name_of_the_event() {
    assert_eq!(missing(read_event(&captures(&[("doc", "// x")]))), "event_name");
}

#[test]
fn read_events_reads_every_event_in_order() {
    let events = read_events(&vec![
        captures(&[("event_name", "destroy")]),
        captures(&[("event_name", "new_output"), ("event_type", "// struct wlr_output")]),
    ])
    .unwrap();
    assert_eq!(events.len(), 2);
    assert_eq!(events[0].name, "destroy");
    assert_eq!(events[0].event_type, None);
    assert_eq!(events[1].name, "new_output");
    assert_eq!(events[1].event_type.as_deref(), Some("wlr_output"));
    assert_eq!(missing(read_events(&vec![captures(&[("event_name", "a")]), Vec::new()])), "event_name");
}

#[test]
fn read_struct_reads_documentation_and_name_and_keeps_the_events() {
    let events = vec![WlrEvent { doc: None, name: "destroy".to_string(), event_type: None }];
    let found = read_struct(
        &captures(&[
            ("doc", "/**\n * A backend provides a set of input and output devices.\n */"),
            ("name", "wlr_backend"),
        ]),
        events,
    )
    .unwrap();
    assert_eq!(found.name, "wlr_backend");
    assert_eq!(found.doc.as_deref(), Some("A backend provides a set of input and output devices."));
    assert_eq!(found.events.len(), 1);
    assert_eq!(found.events[0].name, "destroy");
    assert_eq!(missing(read_struct(&captures(&[("doc", "// x")]), Vec::new())), "name");
}
