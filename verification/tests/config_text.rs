use ultrawm_core::ai::layout::AiWindowInfo;
use ultrawm_core::cli::Args;
use ultrawm_core::config::config_serializer::{
    add_comments_to_yaml, collect_config_docs, config_file_text, extract_field_documentation, SchemaNode,
};

fn docs(pairs: &[(&str, &str)]) -> Vec<(String, String)> {
    pairs.iter().map(|(k, v)| (k.to_string(), v.to_string())).collect()
}

fn leaf(description: Option<&str>) -> SchemaNode {
    SchemaNode { description: description.map(String::from), properties: Vec::new() }
}

#[test]
fn comments_above_documented_fields() {
    let yaml = "persistence: true\nwindow_gap: 20\nai:\n  model: small\n  enabled: false\n";
    let d = docs(&[("persistence", "Save the layout"), ("ai.model", "The model"), ("ai", "AI settings")]);
    let out = add_comments_to_yaml(yaml, &d);
    assert_eq!(
        out,
        "# Save the layout\npersistence: true\nwindow_gap: 20\n\n# AI settings\nai:\n\n  # The model\n  model: small\n  enabled: false"
    );
}

#[test]
fn comments_fall_back_to_the_field_name() {
    let yaml = "a:\n  b: 1\nc:\n  b: 2";
    let d = docs(&[("b", "Any b"), ("c.b", "The b of c")]);
    assert_eq!(add_comments_to_yaml(yaml, &d), "a:\n\n  # Any b\n  b: 1\nc:\n\n  # The b of c\n  b: 2");
}

#[test]
fn comments_keep_lines_without_fields() {
    let yaml = "list:\n- one\n- two\r\nend: x\r\n";
    let d = docs(&[("end", "Last")]);
    assert_eq!(add_comments_to_yaml(yaml, &d), "list:\n- one\n- two\n\n# Last\nend: x");
    assert_eq!(add_comments_to_yaml("", &d), "");
    assert_eq!(add_comments_to_yaml("\n\n", &d), "\n");
}

#[test]
fn comments_use_the_path_of_the_indentation() {
    let yaml = "outer:\n  inner:\n    leaf: 1\n  other: 2";
    let d = docs(&[("outer.inner.leaf", "Deep"), ("outer.other", "Beside")]);
    assert_eq!(
        add_comments_to_yaml(yaml, &d),
        "outer:\n  inner:\n\n    # Deep\n    leaf: 1\n\n  # Beside\n  other: 2"
    );
}

#[test]
fn field_documentation_from_schemas() {
    let ai = SchemaNode {
        description: Some("AI settings".to_string()),
        properties: vec![("model".to_string(), leaf(Some("The model"))), ("key".to_string(), leaf(None))],
    };
    let root = SchemaNode {
        description: Some("ignored".to_string()),
        properties: vec![("gap".to_string(), leaf(Some("Gap"))), ("ai".to_string(), ai)],
    };
    let mut d = Vec::new();
    extract_field_documentation(&root, "", &mut d);
    assert_eq!(d, docs(&[("gap", "Gap"), ("ai", "AI settings"), ("ai.model", "The model")]));
    let mut d2 = docs(&[("x.gap", "old")]);
    extract_field_documentation(&root, "x", &mut d2);
    assert_eq!(d2, docs(&[("x.gap", "Gap"), ("x.ai", "AI settings"), ("x.ai.model", "The model")]));
}

#[test]
fn configuration_file_text() {
    let bindings = SchemaNode { description: None, properties: vec![("tile".to_string(), leaf(Some("Tile it")))] };
    let d = collect_config_docs(&leaf(None), &leaf(None), &bindings);
    assert_eq!(d, docs(&[("mod_transform_bindings.tile", "Tile it")]));
    let text = config_file_text("mod_transform_bindings:\n  tile:\n  - ctrl+lmb\n", &d);
    assert_eq!(
        text,
        "# UltraWM Configuration File\n# Changes will take effect immediately\n\n\nmod_transform_bindings:\n\n  # Tile it\n  tile:\n  - ctrl+lmb"
    );
}

#[test]
fn default_arguments() {
    let a = Args::default();
    assert!(a.config_path.is_none());
    assert!(!a.validate && !a.use_defaults && !a.no_persistence && !a.reset_layout);
    assert!(!a.quiet && !a.verbose && !a.console);
}

#[test]
fn window_info_constructor() {
    let w = AiWindowInfo::new(4, "Mail".to_string());
    assert_eq!(w.id, 4);
    assert_eq!(w.title, "Mail");
}
