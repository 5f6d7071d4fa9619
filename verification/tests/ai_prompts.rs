use ultrawm_core::ai::layout::{
    ai_windows, all_windows_messages, all_windows_system_prompt, all_windows_user_prompt, partition_line,
    enrich_layout_with_titles, single_window_messages, single_window_user_prompt, window_line,
    workspace_for_partition, AiPartitionState, AiWindowInfo, YamlNode,
};

fn win(id: u64, title: &str) -> AiWindowInfo {
    AiWindowInfo { id, title: title.to_string() }
}

fn part(id: u64, name: &str, x: i32, y: i32, w: u32, h: u32, ws: Option<u64>) -> AiPartitionState {
    AiPartitionState { id, name: name.to_string(), x, y, width: w, height: h, workspace_id: ws }
}

#[test]
fn untitled_windows_are_left_out() {
    let r = ai_windows(&vec![win(1, "Editor"), win(2, ""), win(3, "Terminal")]);
    let ids: Vec<u64> = r.iter().map(|w| w.id).collect();
    assert_eq!(ids, vec![1, 3]);
    assert_eq!(r[1].title, "Terminal");
}

#[test]
fn description_lines() {
    assert_eq!(
        partition_line(&part(1, "main", -1920, 0, 1920, 1080, None)),
        "  - id: 1, name: main, pos: (-1920, 0), size: 1920x1080"
    );
    assert_eq!(window_line(&win(77, "Browser")), "  - id: 77, title: Browser");
}

#[test]
fn all_windows_prompt_text() {
    let parts = vec![part(1, "left", 0, 0, 800, 600, Some(3)), part(2, "right", 800, 0, 800, 600, None)];
    let wins = vec![win(5, "A"), win(6, "B")];
    let s = all_windows_system_prompt("DESC", "EXAMPLE", &parts, &wins);
    let expected = format!(
        r#"Arrange windows into tiled layouts. Output YAML only. No markdown.

{}

Example layout format:
{}

Response format:
partitions:
  - id: <partition_id>
    layout: <layout as above>

Rules: ratios sum to 1.0, output window IDs only, omit windows to float them, each window used at most once.

Partitions:
{}

Windows:
{}
"#,
        "DESC",
        "EXAMPLE",
        "  - id: 1, name: left, pos: (0, 0), size: 800x600\n  - id: 2, name: right, pos: (800, 0), size: 800x600",
        "  - id: 5, title: A\n  - id: 6, title: B"
    );
    assert_eq!(s, expected);
}

#[test]
fn all_windows_user_text() {
    assert_eq!(all_windows_user_prompt(""), "Organize these windows.");
    assert_eq!(all_windows_user_prompt("Editor on the left"), "Editor on the left");
    let m = all_windows_messages("d", "e", &vec![], &vec![], "");
    assert_eq!(m.len(), 2);
    assert_eq!(m[0].role, "system");
    assert_eq!(m[1].role, "user");
    assert_eq!(m[1].content, "Organize these windows.");
    assert!(m[0].content.ends_with("Partitions:\n\n\nWindows:\n\n"));
}

#[test]
fn single_window_prompt_text() {
    assert_eq!(single_window_user_prompt("", &win(9, "Notes")), "Place window 9 (title: Notes)");
    assert_eq!(
        single_window_user_prompt("Keep notes small", &win(9, "Notes")),
        "Keep notes small\n\nPlace window 9 (title: Notes)"
    );
    let m = single_window_messages("DESC", "HELP", "YAML", &win(9, "Notes"), "");
    assert_eq!(m[0].role, "system");
    let expected = r#"Place a window relative to an existing window or container in ANY partition. Output YAML only.

DESC

HELP

Available partitions (each includes workspace_id and layout if available):
YAML

Response format (choose one):
action: place
workspace_id: <workspace_id>
target: <placement_target> (format depends on layout - see placement help above)

OR

action: float

Rules:
- You must place the window in ANY workspace by specifying workspace_id
- Follow the placement format specified in the placement help above
- All fields (workspace_id, target) must be at the same indentation level as "action", not indented under it
"#;
    assert_eq!(m[0].content, expected);
    assert_eq!(m[1].content, "Place window 9 (title: Notes)");
}

#[test]
fn layouts_go_to_the_shown_workspace() {
    let parts = vec![part(1, "a", 0, 0, 1, 1, Some(10)), part(2, "b", 0, 0, 1, 1, None)];
    assert_eq!(workspace_for_partition(&parts, 1), Some(10));
    assert_eq!(workspace_for_partition(&parts, 2), None);
    assert_eq!(workspace_for_partition(&parts, 3), None);
}

fn s(x: &str) -> YamlNode {
    YamlNode::Str(x.to_string())
}

fn num(n: u64, handle: u64) -> YamlNode {
    YamlNode::Scalar { number: Some(n), handle }
}

fn map(entries: Vec<(YamlNode, YamlNode)>) -> YamlNode {
    YamlNode::Mapping(entries)
}

fn same(a: &YamlNode, b: &YamlNode) -> bool {
    format!("{:?}", a) == format!("{:?}", b)
}

#[test]
fn titles_added_to_window_mappings() {
    let titles = vec![(5u64, "Editor".to_string()), (6u64, "Shell".to_string())];
    let layout = map(vec![(
        s("root"),
        map(vec![
            (s("id"), num(1, 0)),
            (
                s("children"),
                YamlNode::Sequence(vec![
                    map(vec![(s("type"), s("window")), (s("id"), num(5, 1))]),
                    map(vec![(s("type"), s("window")), (s("id"), num(9, 2))]),
                    map(vec![(s("id"), num(6, 3)), (s("title"), s("old")), (s("x"), num(0, 4))]),
                ]),
            ),
        ]),
    )]);
    let out = enrich_layout_with_titles(&layout, &titles);
    let expected = map(vec![(
        s("root"),
        map(vec![
            (s("id"), num(1, 0)),
            (
                s("children"),
                YamlNode::Sequence(vec![
                    map(vec![(s("type"), s("window")), (s("id"), num(5, 1)), (s("title"), s("Editor"))]),
                    map(vec![(s("type"), s("window")), (s("id"), num(9, 2))]),
                    map(vec![(s("id"), num(6, 3)), (s("title"), s("Shell")), (s("x"), num(0, 4))]),
                ]),
            ),
        ]),
    )]);
    assert!(same(&out, &expected), "{:?}", out);
}

#[test]
fn titles_see_through_tags() {
    let titles = vec![(7u64, "Mail".to_string())];
    let tagged_key = YamlNode::Tagged { tag: "!k".to_string(), value: Box::new(s("id")) };
    let tagged_value = YamlNode::Tagged { tag: "!n".to_string(), value: Box::new(num(7, 0)) };
    let layout = YamlNode::Tagged { tag: "!t".to_string(), value: Box::new(map(vec![(tagged_key, tagged_value)])) };
    let out = enrich_layout_with_titles(&layout, &titles);
    let expected = map(vec![
        (YamlNode::Tagged { tag: "!k".to_string(), value: Box::new(s("id")) }, num(7, 0)),
        (s("title"), s("Mail")),
    ]);
    assert!(same(&out, &expected), "{:?}", out);
    let plain = enrich_layout_with_titles(&s("id"), &titles);
    assert!(same(&plain, &s("id")));
    let not_a_number = map(vec![(s("id"), s("7"))]);
    assert!(same(&enrich_layout_with_titles(&not_a_number, &titles), &not_a_number));
}
