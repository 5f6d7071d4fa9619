use vstd::prelude::*;
use crate::ai::client::ChatMessage;
use crate::geometry::WindowId;
use crate::layouts::ContainerTreePlacementTarget;
use crate::text::{append_decimal, append_signed_decimal, decimal, join, join_strings, signed_decimal};

verus! {

/// A window the assistant is told about.
#[derive(Debug, Clone)]
pub struct AiWindowInfo {
    pub id: WindowId,
    pub title: String,
}

impl AiWindowInfo {
    pub fn new(id: WindowId, title: String) -> (w: AiWindowInfo)
        ensures
            w.id == id,
            w.title@ == title@,
    {
        AiWindowInfo { id, title }
    }
}

/// Where the assistant wants a window: placed next to a target in a
/// workspace, or floating.
#[derive(Debug, Clone, Copy, PartialEq, Eq, Structural)]
pub enum WindowPlacement {
    Place { workspace_id: u64, target: ContainerTreePlacementTarget },
    Float,
}

/// The assistant's answer for one window.
#[derive(Debug, Clone, Copy, PartialEq, Eq, Structural)]
pub struct AiSingleWindowResponse {
    pub placement: WindowPlacement,
}

/// A screen area the assistant is told about, with the workspace it shows.
#[derive(Debug, Clone)]
pub struct AiPartitionState {
    pub id: u64,
    pub name: String,
    pub x: i32,
    pub y: i32,
    pub width: u32,
    pub height: u32,
    pub workspace_id: Option<u64>,
}

/// A window as the assistant sees it: its id and its title.
pub open spec fn window_view(w: AiWindowInfo) -> (u64, Seq<char>) {
    (w.id, w.title@)
}

/// The windows of `s` that have a title, in order.
pub open spec fn titled(s: Seq<(u64, Seq<char>)>) -> Seq<(u64, Seq<char>)>
    decreases s.len(),
{
    if s.len() == 0 {
        Seq::empty()
    } else if s.last().1.len() > 0 {
        titled(s.drop_last()).push(s.last())
    } else {
        titled(s.drop_last())
    }
}

/// The windows worth telling the assistant about: those with a title.
pub fn ai_windows(windows: &Vec<AiWindowInfo>) -> (r: Vec<AiWindowInfo>)
    ensures
        r@.map_values(|w: AiWindowInfo| window_view(w)) == titled(windows@.map_values(|w: AiWindowInfo| window_view(w))),
{
    let ghost all = windows@.map_values(|w: AiWindowInfo| window_view(w));
    let mut r: Vec<AiWindowInfo> = Vec::new();
    for i in 0..windows.len()
        invariant
            all == windows@.map_values(|w: AiWindowInfo| window_view(w)),
            r@.map_values(|w: AiWindowInfo| window_view(w)) == titled(all.subrange(0, i as int)),
    {
        let ghost before = r@.map_values(|w: AiWindowInfo| window_view(w));
        assert(all.subrange(0, i + 1).drop_last() == all.subrange(0, i as int));
        assert(all.subrange(0, i + 1).last() == window_view(windows@[i as int]));
        if windows[i].title.as_str().unicode_len() > 0 {
            let w = AiWindowInfo { id: windows[i].id, title: windows[i].title.clone() };
            r.push(w);
            assert(r@.map_values(|w: AiWindowInfo| window_view(w)) =~= before.push(window_view(windows@[i as int])));
        }
    }
    assert(all.subrange(0, windows@.len() as int) == all);
    r
}

/// The line that describes a screen area to the assistant.
pub open spec fn partition_line_text(p: AiPartitionState) -> Seq<char> {
    "  - id: "@ + decimal(p.id as nat) + ", name: "@ + p.name@ + ", pos: ("@ + signed_decimal(p.x as int) + ", "@
        + signed_decimal(p.y as int) + "), size: "@ + decimal(p.width as nat) + "x"@ + decimal(p.height as nat)
}

/// The line that describes a window to the assistant.
pub open spec fn window_line_text(w: AiWindowInfo) -> Seq<char> {
    "  - id: "@ + decimal(w.id as nat) + ", title: "@ + w.title@
}

/// Describes a screen area in one line, as `  - id: 1, name: main, pos: (0, 0), size: 800x600`.
pub fn partition_line(p: &AiPartitionState) -> (r: String)
    ensures
        r@ == partition_line_text(*p),
{
    let mut out = "  - id: ".to_owned();
    append_decimal(&mut out, p.id);
    out.append(", name: ");
    out.append(p.name.as_str());
    out.append(", pos: (");
    append_signed_decimal(&mut out, p.x);
    out.append(", ");
    append_signed_decimal(&mut out, p.y);
    out.append("), size: ");
    append_decimal(&mut out, p.width as u64);
    out.append("x");
    append_decimal(&mut out, p.height as u64);
    out
}

/// Describes a window in one line, as `  - id: 7, title: Terminal`.
pub fn window_line(w: &AiWindowInfo) -> (r: String)
    ensures
        r@ == window_line_text(*w),
{
    let mut out = "  - id: ".to_owned();
    append_decimal(&mut out, w.id);
    out.append(", title: ");
    out.append(w.title.as_str());
    out
}

/// The description of the screen areas, one line each.
pub open spec fn partitions_text(ps: Seq<AiPartitionState>) -> Seq<char> {
    join(ps.map_values(|p: AiPartitionState| partition_line_text(p)), "\n"@)
}

/// The description of the windows, one line each.
pub open spec fn windows_text(ws: Seq<AiWindowInfo>) -> Seq<char> {
    join(ws.map_values(|w: AiWindowInfo| window_line_text(w)), "\n"@)
}

/// Describes the screen areas, one line each.
pub fn partitions_info(partitions: &Vec<AiPartitionState>) -> (s: String)
    ensures
        s@ == partitions_text(partitions@),
{
    let mut lines: Vec<String> = Vec::new();
    for i in 0..partitions.len()
        invariant
            lines@.len() == i,
            forall|j: int| 0 <= j < i ==> (#[trigger] lines@[j])@ == partition_line_text(partitions@[j]),
    {
        lines.push(partition_line(&partitions[i]));
    }
    assert(lines@.map_values(|l: String| l@) =~= partitions@.map_values(|p: AiPartitionState| partition_line_text(p)));
    join_strings(&lines, "\n")
}

/// Describes the windows, one line each.
pub fn windows_info(windows: &Vec<AiWindowInfo>) -> (s: String)
    ensures
        s@ == windows_text(windows@),
{
    let mut lines: Vec<String> = Vec::new();
    for i in 0..windows.len()
        invariant
            lines@.len() == i,
            forall|j: int| 0 <= j < i ==> (#[trigger] lines@[j])@ == window_line_text(windows@[j]),
    {
        lines.push(window_line(&windows[i]));
    }
    assert(lines@.map_values(|l: String| l@) =~= windows@.map_values(|w: AiWindowInfo| window_line_text(w)));
    join_strings(&lines, "\n")
}

/// The instructions for arranging every window: the layout's description and
/// an example of it, the answer's format and rules, then the screen areas and
/// the windows.
pub open spec fn all_windows_system_text(
    layout_description: Seq<char>,
    example_yaml: Seq<char>,
    partitions: Seq<char>,
    windows: Seq<char>,
) -> Seq<char> {
    "Arrange windows into tiled layouts. Output YAML only. No markdown.\n\n"@ + layout_description
        + "\n\nExample layout format:\n"@ + example_yaml
        + "\n\nResponse format:\npartitions:\n  - id: <partition_id>\n    layout: <layout as above>\n\nRules: ratios sum to 1.0, output window IDs only, omit windows to float them, each window used at most once.\n\nPartitions:\n"@
        + partitions + "\n\nWindows:\n"@ + windows + "\n"@
}

/// The request for arranging every window: the user's preferences, or a
/// plain request where they gave none.
pub open spec fn all_windows_user_text(preferences: Seq<char>) -> Seq<char> {
    if preferences.len() == 0 {
        "Organize these windows."@
    } else {
        preferences
    }
}

/// The instructions that ask the assistant to arrange every window.
pub fn all_windows_system_prompt(
    layout_description: &str,
    example_yaml: &str,
    partitions: &Vec<AiPartitionState>,
    windows: &Vec<AiWindowInfo>,
) -> (s: String)
    ensures
        s@ == all_windows_system_text(layout_description@, example_yaml@, partitions_text(partitions@), windows_text(windows@)),
{
    let partitions_text = partitions_info(partitions);
    let windows_text = windows_info(windows);
    let mut out = "Arrange windows into tiled layouts. Output YAML only. No markdown.\n\n".to_owned();
    out.append(layout_description);
    out.append("\n\nExample layout format:\n");
    out.append(example_yaml);
    out.append(
        "\n\nResponse format:\npartitions:\n  - id: <partition_id>\n    layout: <layout as above>\n\nRules: ratios sum to 1.0, output window IDs only, omit windows to float them, each window used at most once.\n\nPartitions:\n",
    );
    out.append(partitions_text.as_str());
    out.append("\n\nWindows:\n");
    out.append(windows_text.as_str());
    out.append("\n");
    out
}

/// The request that asks the assistant to arrange every window.
pub fn all_windows_user_prompt(preferences: &str) -> (s: String)
    ensures
        s@ == all_windows_user_text(preferences@),
{
    if preferences.unicode_len() == 0 {
        "Organize these windows.".to_owned()
    } else {
        preferences.to_owned()
    }
}

/// The chat that asks the assistant to arrange every window: the instructions,
/// then the request.
pub fn all_windows_messages(
    layout_description: &str,
    example_yaml: &str,
    partitions: &Vec<AiPartitionState>,
    windows: &Vec<AiWindowInfo>,
    preferences: &str,
) -> (m: Vec<ChatMessage>)
    ensures
        m@.len() == 2,
        m@[0].role@ == "system"@,
        m@[0].content@ == all_windows_system_text(layout_description@, example_yaml@, partitions_text(partitions@), windows_text(windows@)),
        m@[1].role@ == "user"@,
        m@[1].content@ == all_windows_user_text(preferences@),
{
    let system = ChatMessage {
        role: "system".to_owned(),
        content: all_windows_system_prompt(layout_description, example_yaml, partitions, windows),
    };
    let user = ChatMessage { role: "user".to_owned(), content: all_windows_user_prompt(preferences) };
    vec![system, user]
}

/// The instructions for placing one window: the layout's description, how a
/// placement is written, the screen areas with their layouts, and the
/// answer's format and rules.
pub open spec fn single_window_system_text(
    layout_description: Seq<char>,
    placement_help: Seq<char>,
    partitions_yaml: Seq<char>,
) -> Seq<char> {
    "Place a window relative to an existing window or container in ANY partition. Output YAML only.\n\n"@
        + layout_description + "\n\n"@ + placement_help
        + "\n\nAvailable partitions (each includes workspace_id and layout if available):\n"@ + partitions_yaml
        + "\n\nResponse format (choose one):\naction: place\nworkspace_id: <workspace_id>\ntarget: <placement_target> (format depends on layout - see placement help above)\n\nOR\n\naction: float\n\nRules:\n- You must place the window in ANY workspace by specifying workspace_id\n- Follow the placement format specified in the placement help above\n- All fields (workspace_id, target) must be at the same indentation level as \"action\", not indented under it\n"@
}

/// The request for placing the window `w`, after the user's preferences when
/// they gave some.
pub open spec fn single_window_user_text(preferences: Seq<char>, w: AiWindowInfo) -> Seq<char> {
    let request = "Place window "@ + decimal(w.id as nat) + " (title: "@ + w.title@ + ")"@;
    if preferences.len() == 0 {
        request
    } else {
        preferences + "\n\n"@ + request
    }
}

/// The instructions that ask the assistant to place one window.
pub fn single_window_system_prompt(layout_description: &str, placement_help: &str, partitions_yaml: &str) -> (s:
    String)
    ensures
        s@ == single_window_system_text(layout_description@, placement_help@, partitions_yaml@),
{
    let mut out =
        "Place a window relative to an existing window or container in ANY partition. Output YAML only.\n\n".to_owned();
    out.append(layout_description);
    out.append("\n\n");
    out.append(placement_help);
    out.append("\n\nAvailable partitions (each includes workspace_id and layout if available):\n");
    out.append(partitions_yaml);
    out.append(
        "\n\nResponse format (choose one):\naction: place\nworkspace_id: <workspace_id>\ntarget: <placement_target> (format depends on layout - see placement help above)\n\nOR\n\naction: float\n\nRules:\n- You must place the window in ANY workspace by specifying workspace_id\n- Follow the placement format specified in the placement help above\n- All fields (workspace_id, target) must be at the same indentation level as \"action\", not indented under it\n",
    );
    out
}

/// The request that asks the assistant to place the window `window`.
pub fn single_window_user_prompt(preferences: &str, window: &AiWindowInfo) -> (s: String)
    ensures
        s@ == single_window_user_text(preferences@, *window),
{
    let mut out = if preferences.unicode_len() == 0 {
        String::new()
    } else {
        let mut p = preferences.to_owned();
        p.append("\n\n");
        p
    };
    let ghost start = out@;
    out.append("Place window ");
    append_decimal(&mut out, window.id);
    out.append(" (title: ");
    out.append(window.title.as_str());
    out.append(")");
    assert(out@ =~= start + ("Place window "@ + decimal(window.id as nat) + " (title: "@ + window.title@ + ")"@));
    out
}

/// The chat that asks the assistant to place one window: the instructions,
/// then the request.
pub fn single_window_messages(
    layout_description: &str,
    placement_help: &str,
    partitions_yaml: &str,
    window: &AiWindowInfo,
    preferences: &str,
) -> (m: Vec<ChatMessage>)
    ensures
        m@.len() == 2,
        m@[0].role@ == "system"@,
        m@[0].content@ == single_window_system_text(layout_description@, placement_help@, partitions_yaml@),
        m@[1].role@ == "user"@,
        m@[1].content@ == single_window_user_text(preferences@, *window),
{
    let system = ChatMessage {
        role: "system".to_owned(),
        content: single_window_system_prompt(layout_description, placement_help, partitions_yaml),
    };
    let user = ChatMessage { role: "user".to_owned(), content: single_window_user_prompt(preferences, window) };
    vec![system, user]
}

/// The workspace that the screen area `id` shows, as `partitions` record it
/// (the first entry for that area counts).
pub open spec fn partition_workspace(partitions: Seq<AiPartitionState>, id: u64) -> Option<u64>
    decreases partitions.len(),
{
    if partitions.len() == 0 {
        None
    } else if partitions[0].id == id {
        partitions[0].workspace_id
    } else {
        partition_workspace(partitions.drop_first(), id)
    }
}

/// The workspace that receives the layout the assistant gave for the screen
/// area `id`; none where that area is unknown or shows no workspace.
pub fn workspace_for_partition(partitions: &Vec<AiPartitionState>, id: u64) -> (r: Option<u64>)
    ensures
        r == partition_workspace(partitions@, id),
{
    let mut i: usize = 0;
    assert(partitions@.subrange(0, partitions@.len() as int) == partitions@);
    while i < partitions.len()
        invariant
            i <= partitions@.len(),
            partition_workspace(partitions@, id) == partition_workspace(partitions@.subrange(i as int, partitions@.len() as int), id),
        decreases partitions@.len() - i,
    {
        let ghost rest = partitions@.subrange(i as int, partitions@.len() as int);
        assert(rest[0] == partitions@[i as int]);
        if partitions[i].id == id {
            return partitions[i].workspace_id;
        }
        assert(rest.drop_first() =~= partitions@.subrange(i + 1, partitions@.len() as int));
        i = i + 1;
    }
    None
}

} // verus!

verus! {

/// A YAML value, as adding window titles to a layout reads it.
#[derive(Debug)]
pub enum YamlNode {
    /// A mapping, with its entries in order.
    Mapping(Vec<(YamlNode, YamlNode)>),
    /// A sequence.
    Sequence(Vec<YamlNode>),
    /// A value under a tag.
    Tagged { tag: String, value: Box<YamlNode> },
    /// A string.
    Str(String),
    /// Any other value (a number, a boolean, null): `number` is the unsigned
    /// integer it holds, if any, and `handle` tells the caller which value it is.
    Scalar { number: Option<u64>, handle: u64 },
}

/// The mathematical form of a YAML value.
pub enum YamlView {
    Mapping(Seq<(YamlView, YamlView)>),
    Sequence(Seq<YamlView>),
    Tagged(Seq<char>, Box<YamlView>),
    Str(Seq<char>),
    Scalar(Option<u64>, u64),
}

/// The mathematical form of `n`.
pub open spec fn yaml_view(n: YamlNode) -> YamlView
    decreases n, 1int, 0int,
{
    match n {
        YamlNode::Mapping(es) => YamlView::Mapping(entries_view(n, es@.len() as int)),
        YamlNode::Sequence(items) => YamlView::Sequence(items_view(n, items@.len() as int)),
        YamlNode::Tagged { tag, value } => YamlView::Tagged(tag@, Box::new(yaml_view(*value))),
        YamlNode::Str(s) => YamlView::Str(s@),
        YamlNode::Scalar { number, handle } => YamlView::Scalar(number, handle),
    }
}

/// The mathematical forms of the first `k` entries of the mapping `n`.
pub open spec fn entries_view(n: YamlNode, k: int) -> Seq<(YamlView, YamlView)>
    decreases n, 0int, k,
{
    match n {
        YamlNode::Mapping(es) => if k <= 0 || k > es@.len() {
            Seq::empty()
        } else {
            let e = es@[k - 1];
            proof {
                assert(decreases_to!(n => es));
                assert(decreases_to!(es => es@));
                assert(decreases_to!(es@ => e));
                assert(decreases_to!(e => e.0));
                assert(decreases_to!(e => e.1));
            }
            entries_view(n, k - 1).push((yaml_view(e.0), yaml_view(e.1)))
        },
        _ => Seq::empty(),
    }
}

/// The mathematical forms of the first `k` items of the sequence `n`.
pub open spec fn items_view(n: YamlNode, k: int) -> Seq<YamlView>
    decreases n, 0int, k,
{
    match n {
        YamlNode::Sequence(items) => if k <= 0 || k > items@.len() {
            Seq::empty()
        } else {
            let x = items@[k - 1];
            proof {
                assert(decreases_to!(n => items));
                assert(decreases_to!(items => items@));
                assert(decreases_to!(items@ => x));
            }
            items_view(n, k - 1).push(yaml_view(x))
        },
        _ => Seq::empty(),
    }
}

/// The string a value holds, under any tags.
pub open spec fn untagged_str(v: YamlView) -> Option<Seq<char>>
    decreases v,
{
    match v {
        YamlView::Tagged(_, b) => untagged_str(*b),
        YamlView::Str(s) => Some(s),
        _ => None,
    }
}

/// The unsigned integer a value holds, under any tags.
pub open spec fn untagged_u64(v: YamlView) -> Option<u64>
    decreases v,
{
    match v {
        YamlView::Tagged(_, b) => untagged_u64(*b),
        YamlView::Scalar(number, _) => number,
        _ => None,
    }
}

/// The window id a mapping names: the number under the last of its `id`
/// keys that holds one.
pub open spec fn mapping_window_id(es: Seq<(YamlView, YamlView)>) -> Option<u64>
    decreases es.len(),
{
    if es.len() == 0 {
        None
    } else if untagged_str(es.last().0) == Some("id"@) && untagged_u64(es.last().1) is Some {
        untagged_u64(es.last().1)
    } else {
        mapping_window_id(es.drop_last())
    }
}

/// The title of the window `id`: that of its first entry.
pub open spec fn title_of(titles: Seq<(u64, Seq<char>)>, id: u64) -> Option<Seq<char>>
    decreases titles.len(),
{
    if titles.len() == 0 {
        None
    } else if titles[0].0 == id {
        Some(titles[0].1)
    } else {
        title_of(titles.drop_first(), id)
    }
}

/// Whether `k` is the key `title`, a plain string.
pub open spec fn is_title_key(k: YamlView) -> bool {
    k matches YamlView::Str(s) && s == "title"@
}

/// The position of the first `title` key of a mapping.
pub open spec fn title_position(es: Seq<(YamlView, YamlView)>) -> Option<int>
    decreases es.len(),
{
    if es.len() == 0 {
        None
    } else if is_title_key(es.last().0) && title_position(es.drop_last()) is None {
        Some(es.len() - 1)
    } else {
        title_position(es.drop_last())
    }
}

/// The mapping with `title` set to `t`, in place when it has the key, else at the end.
pub open spec fn with_title(es: Seq<(YamlView, YamlView)>, t: Seq<char>) -> Seq<(YamlView, YamlView)> {
    let e = (YamlView::Str("title"@), YamlView::Str(t));
    match title_position(es) {
        Some(i) => es.update(i, e),
        None => es.push(e),
    }
}

/// A layout with the title of each window added to the mapping that names
/// it: mappings and sequences are rebuilt with their contents enriched, a
/// mapping whose `id` names a window with a known title gets that title
/// under the key `title`, tags are dropped, and other values stay.
pub open spec fn enriched(v: YamlView, titles: Seq<(u64, Seq<char>)>) -> YamlView
    decreases v, 1int, 0int,
{
    match v {
        YamlView::Mapping(es) => {
            let out = enriched_entries(v, titles, es.len() as int);
            match mapping_window_id(es) {
                Some(id) => match title_of(titles, id) {
                    Some(t) => YamlView::Mapping(with_title(out, t)),
                    None => YamlView::Mapping(out),
                },
                None => YamlView::Mapping(out),
            }
        },
        YamlView::Sequence(items) => YamlView::Sequence(enriched_items(v, titles, items.len() as int)),
        YamlView::Tagged(_, b) => enriched(*b, titles),
        _ => v,
    }
}

/// The first `k` entries of the mapping `v`, each value enriched.
pub open spec fn enriched_entries(v: YamlView, titles: Seq<(u64, Seq<char>)>, k: int) -> Seq<(YamlView, YamlView)>
    decreases v, 0int, k,
{
    match v {
        YamlView::Mapping(es) => if k <= 0 || k > es.len() {
            Seq::empty()
        } else {
            let e = es[k - 1];
            proof {
                assert(decreases_to!(v => es));
                assert(decreases_to!(es => e));
                assert(decreases_to!(e => e.1));
            }
            enriched_entries(v, titles, k - 1).push((e.0, enriched(e.1, titles)))
        },
        _ => Seq::empty(),
    }
}

/// The first `k` items of the sequence `v`, each enriched.
pub open spec fn enriched_items(v: YamlView, titles: Seq<(u64, Seq<char>)>, k: int) -> Seq<YamlView>
    decreases v, 0int, k,
{
    match v {
        YamlView::Sequence(items) => if k <= 0 || k > items.len() {
            Seq::empty()
        } else {
            let x = items[k - 1];
            proof {
                assert(decreases_to!(v => items));
                assert(decreases_to!(items => x));
            }
            enriched_items(v, titles, k - 1).push(enriched(x, titles))
        },
        _ => Seq::empty(),
    }
}

/// The titles of the windows, as text.
pub open spec fn titles_view(titles: Seq<(WindowId, String)>) -> Seq<(u64, Seq<char>)> {
    titles.map_values(|t: (WindowId, String)| (t.0, t.1@))
}

proof fn lemma_entries_view(n: YamlNode, k: int)
    requires
        n is Mapping,
        0 <= k <= n->Mapping_0@.len(),
    ensures
        entries_view(n, k).len() == k,
        forall|i: int| 0 <= i < k ==> #[trigger] entries_view(n, k)[i] == (yaml_view(n->Mapping_0@[i].0), yaml_view(n->Mapping_0@[i].1)),
    decreases k,
{
    if k > 0 {
        lemma_entries_view(n, k - 1);
    }
}

proof fn lemma_items_view(n: YamlNode, k: int)
    requires
        n is Sequence,
        0 <= k <= n->Sequence_0@.len(),
    ensures
        items_view(n, k).len() == k,
        forall|i: int| 0 <= i < k ==> #[trigger] items_view(n, k)[i] == yaml_view(n->Sequence_0@[i]),
    decreases k,
{
    if k > 0 {
        lemma_items_view(n, k - 1);
    }
}

proof fn lemma_enriched_entries(v: YamlView, titles: Seq<(u64, Seq<char>)>, k: int)
    requires
        v is Mapping,
        0 <= k <= v->Mapping_0.len(),
    ensures
        enriched_entries(v, titles, k).len() == k,
        forall|i: int| 0 <= i < k ==> #[trigger] enriched_entries(v, titles, k)[i] == (v->Mapping_0[i].0, enriched(v->Mapping_0[i].1, titles)),
    decreases k,
{
    if k > 0 {
        lemma_enriched_entries(v, titles, k - 1);
    }
}

proof fn lemma_enriched_items(v: YamlView, titles: Seq<(u64, Seq<char>)>, k: int)
    requires
        v is Sequence,
        0 <= k <= v->Sequence_0.len(),
    ensures
        enriched_items(v, titles, k).len() == k,
        forall|i: int| 0 <= i < k ==> #[trigger] enriched_items(v, titles, k)[i] == enriched(v->Sequence_0[i], titles),
    decreases k,
{
    if k > 0 {
        lemma_enriched_items(v, titles, k - 1);
    }
}

/// A copy of a YAML value.
fn clone_node(n: &YamlNode) -> (r: YamlNode)
    ensures
        yaml_view(r) == yaml_view(*n),
    decreases n,
{
    match n {
        YamlNode::Mapping(es) => {
            let mut out: Vec<(YamlNode, YamlNode)> = Vec::new();
            for i in 0..es.len()
                invariant
                    n is Mapping && n->Mapping_0 == es,
                    out@.len() == i,
                    forall|j: int| 0 <= j < i ==> yaml_view((#[trigger] out@[j]).0) == yaml_view(es@[j].0) && yaml_view(out@[j].1) == yaml_view(es@[j].1),
            {
                proof {
                    assert(decreases_to!(*n => es));
                    assert(decreases_to!(es => es@));
                    assert(decreases_to!(es@ => es@[i as int]));
                    assert(decreases_to!(es@[i as int] => es@[i as int].0));
                    assert(decreases_to!(es@[i as int] => es@[i as int].1));
                }
                let k = clone_node(&es[i].0);
                let v = clone_node(&es[i].1);
                out.push((k, v));
            }
            let r = YamlNode::Mapping(out);
            proof {
                lemma_entries_view(r, out@.len() as int);
                lemma_entries_view(*n, es@.len() as int);
                assert(entries_view(r, out@.len() as int) =~= entries_view(*n, es@.len() as int));
            }
            r
        },
        YamlNode::Sequence(items) => {
            let mut out: Vec<YamlNode> = Vec::new();
            for i in 0..items.len()
                invariant
                    n is Sequence && n->Sequence_0 == items,
                    out@.len() == i,
                    forall|j: int| 0 <= j < i ==> yaml_view(#[trigger] out@[j]) == yaml_view(items@[j]),
            {
                proof {
                    assert(decreases_to!(*n => items));
                    assert(decreases_to!(items => items@));
                    assert(decreases_to!(items@ => items@[i as int]));
                }
                out.push(clone_node(&items[i]));
            }
            let r = YamlNode::Sequence(out);
            proof {
                lemma_items_view(r, out@.len() as int);
                lemma_items_view(*n, items@.len() as int);
                assert(items_view(r, out@.len() as int) =~= items_view(*n, items@.len() as int));
            }
            r
        },
        YamlNode::Tagged { tag, value } => YamlNode::Tagged { tag: tag.clone(), value: Box::new(clone_node(value)) },
        YamlNode::Str(s) => YamlNode::Str(s.clone()),
        YamlNode::Scalar { number, handle } => YamlNode::Scalar { number: *number, handle: *handle },
    }
}

/// Whether the value is the string `id`, under any tags.
fn is_id_key(n: &YamlNode) -> (b: bool)
    ensures
        b == (untagged_str(yaml_view(*n)) == Some("id"@)),
    decreases n,
{
    proof {
        reveal_strlit("id");
    }
    match n {
        YamlNode::Tagged { tag: _, value } => is_id_key(value),
        YamlNode::Str(s) => {
            let t = s.as_str();
            let r = t.unicode_len() == 2 && t.get_char(0) == 'i' && t.get_char(1) == 'd';
            assert(r ==> s@ =~= "id"@);
            r
        },
        _ => false,
    }
}

/// The unsigned integer the value holds, under any tags.
fn node_u64(n: &YamlNode) -> (r: Option<u64>)
    ensures
        r == untagged_u64(yaml_view(*n)),
    decreases n,
{
    match n {
        YamlNode::Tagged { tag: _, value } => node_u64(value),
        YamlNode::Scalar { number, handle: _ } => *number,
        _ => None,
    }
}

/// Whether the value is the plain string `title`.
fn is_title(n: &YamlNode) -> (b: bool)
    ensures
        b == is_title_key(yaml_view(*n)),
{
    proof {
        reveal_strlit("title");
    }
    match n {
        YamlNode::Str(s) => {
            let t = s.as_str();
            let r = t.unicode_len() == 5 && t.get_char(0) == 't' && t.get_char(1) == 'i' && t.get_char(2) == 't'
                && t.get_char(3) == 'l' && t.get_char(4) == 'e';
            assert(r ==> s@ =~= "title"@);
            r
        },
        _ => false,
    }
}

/// The title of the window `id`, if it has one.
fn find_title(titles: &Vec<(WindowId, String)>, id: u64) -> (r: Option<usize>)
    ensures
        match r {
            Some(i) => i < titles@.len() && title_of(titles_view(titles@), id) == Some(titles@[i as int].1@),
            None => title_of(titles_view(titles@), id) is None,
        },
{
    let ghost all = titles_view(titles@);
    let mut i: usize = 0;
    assert(all.subrange(0, all.len() as int) == all);
    while i < titles.len()
        invariant
            i <= titles@.len(),
            all == titles_view(titles@),
            title_of(all, id) == title_of(all.subrange(i as int, all.len() as int), id),
        decreases titles@.len() - i,
    {
        let ghost rest = all.subrange(i as int, all.len() as int);
        assert(rest[0] == (titles@[i as int].0, titles@[i as int].1@));
        if titles[i].0 == id {
            return Some(i);
        }
        assert(rest.drop_first() =~= all.subrange(i + 1, all.len() as int));
        i = i + 1;
    }
    None
}

proof fn lemma_title_position(es: Seq<(YamlView, YamlView)>)
    ensures
        match title_position(es) {
            Some(i) => 0 <= i < es.len() && is_title_key(es[i].0) && forall|j: int| 0 <= j < i ==> !is_title_key(#[trigger] es[j].0),
            None => forall|j: int| 0 <= j < es.len() ==> !is_title_key(#[trigger] es[j].0),
        },
    decreases es.len(),
{
    if es.len() > 0 {
        lemma_title_position(es.drop_last());
        assert forall|j: int| 0 <= j < es.len() - 1 implies (#[trigger] es[j]) == es.drop_last()[j] by {}
    }
}

/// The entries with `title` set to `t`, in place when they have that key,
/// else at the end.
fn set_title(entries: &mut Vec<(YamlNode, YamlNode)>, t: String)
    ensures
        entries_view(YamlNode::Mapping(*final(entries)), final(entries)@.len() as int) == with_title(
            entries_view(YamlNode::Mapping(*old(entries)), old(entries)@.len() as int),
            t@,
        ),
{
    let ghost before = entries_view(YamlNode::Mapping(*entries), entries@.len() as int);
    proof {
        lemma_entries_view(YamlNode::Mapping(*entries), entries@.len() as int);
        lemma_title_position(before);
    }
    let ghost e = (YamlView::Str("title"@), YamlView::Str(t@));
    let mut i: usize = 0;
    while i < entries.len()
        invariant
            i <= entries@.len(),
            e == (YamlView::Str("title"@), YamlView::Str(t@)),
            entries@ == old(entries)@,
            before == entries_view(YamlNode::Mapping(*old(entries)), old(entries)@.len() as int),
            before.len() == entries@.len(),
            forall|j: int| 0 <= j < entries@.len() ==> #[trigger] before[j] == (yaml_view(entries@[j].0), yaml_view(entries@[j].1)),
            forall|j: int| 0 <= j < i ==> !is_title_key(#[trigger] before[j].0),
            match title_position(before) {
                Some(q) => 0 <= q < before.len() && is_title_key(before[q].0) && forall|j: int| 0 <= j < q ==> !is_title_key(#[trigger] before[j].0),
                None => forall|j: int| 0 <= j < before.len() ==> !is_title_key(#[trigger] before[j].0),
            },
        decreases entries@.len() - i,
    {
        assert(before[i as int] == (yaml_view(entries@[i as int].0), yaml_view(entries@[i as int].1)));
        if is_title(&entries[i].0) {
            proof {
                match title_position(before) {
                    Some(q) => {
                        if q < i {
                            assert(!is_title_key(before[q].0));
                        } else if q > i {
                            assert(!is_title_key(before[i as int].0));
                        }
                    },
                    None => {
                        assert(!is_title_key(before[i as int].0));
                    },
                }
            }
            let ghost prev = entries@;
            let key = YamlNode::Str("title".to_owned());
            let value = YamlNode::Str(t);
            assert(yaml_view(key) == e.0 && yaml_view(value) == e.1);
            entries.set(i, (key, value));
            proof {
                lemma_entries_view(YamlNode::Mapping(*entries), entries@.len() as int);
                let now = entries_view(YamlNode::Mapping(*entries), entries@.len() as int);
                assert forall|j: int| 0 <= j < now.len() implies #[trigger] now[j] == before.update(i as int, e)[j] by {
                    if j != i {
                        assert(entries@[j] == prev[j]);
                    }
                }
                assert(now =~= before.update(i as int, e));
            }
            return;
        }
        i = i + 1;
    }
    proof {
        if title_position(before) is Some {
            let q = title_position(before)->0;
            assert(!is_title_key(before[q].0));
        }
    }
    let key = YamlNode::Str("title".to_owned());
    let value = YamlNode::Str(t);
    entries.push((key, value));
    proof {
        lemma_entries_view(YamlNode::Mapping(*entries), entries@.len() as int);
        assert(entries_view(YamlNode::Mapping(*entries), entries@.len() as int) =~= before.push(e));
    }
}

/// Adds to a layout the titles of the windows it names: every mapping whose
/// `id` is a window with a title gets that title under the key `title`.
/// Mappings and sequences are rebuilt with their contents enriched, tags are
/// dropped, and every other value is copied.
pub fn enrich_layout_with_titles(layout: &YamlNode, window_titles: &Vec<(WindowId, String)>) -> (r: YamlNode)
    ensures
        yaml_view(r) == enriched(yaml_view(*layout), titles_view(window_titles@)),
    decreases layout,
{
    let ghost titles = titles_view(window_titles@);
    match layout {
        YamlNode::Mapping(es) => {
            let ghost v = yaml_view(*layout);
            let ghost ves = entries_view(*layout, es@.len() as int);
            proof {
                lemma_entries_view(*layout, es@.len() as int);
            }
            let mut out: Vec<(YamlNode, YamlNode)> = Vec::new();
            let mut window_id: Option<u64> = None;
            for i in 0..es.len()
                invariant
                    layout is Mapping && layout->Mapping_0 == es,
                    v == yaml_view(*layout),
                    v == YamlView::Mapping(ves),
                    titles == titles_view(window_titles@),
                    ves.len() == es@.len(),
                    forall|j: int| 0 <= j < es@.len() ==> #[trigger] ves[j] == (yaml_view(es@[j].0), yaml_view(es@[j].1)),
                    out@.len() == i,
                    forall|j: int| 0 <= j < i ==> yaml_view((#[trigger] out@[j]).0) == ves[j].0 && yaml_view(out@[j].1) == enriched(ves[j].1, titles),
                    window_id == mapping_window_id(ves.subrange(0, i as int)),
            {
                proof {
                    assert(decreases_to!(*layout => es));
                    assert(decreases_to!(es => es@));
                    assert(decreases_to!(es@ => es@[i as int]));
                    assert(decreases_to!(es@[i as int] => es@[i as int].1));
                }
                let k = clone_node(&es[i].0);
                let val = enrich_layout_with_titles(&es[i].1, window_titles);
                out.push((k, val));
                let ghost prefix = ves.subrange(0, i + 1);
                assert(prefix.drop_last() =~= ves.subrange(0, i as int));
                assert(prefix.last() == ves[i as int]);
                if is_id_key(&es[i].0) {
                    match node_u64(&es[i].1) {
                        Some(id) => {
                            window_id = Some(id);
                        },
                        None => {},
                    }
                }
            }
            assert(ves.subrange(0, es@.len() as int) =~= ves);
            let ghost plain = enriched_entries(v, titles, ves.len() as int);
            proof {
                lemma_enriched_entries(v, titles, ves.len() as int);
                lemma_entries_view(YamlNode::Mapping(out), out@.len() as int);
                assert(entries_view(YamlNode::Mapping(out), out@.len() as int) =~= plain);
            }
            match window_id {
                Some(id) => {
                    match find_title(window_titles, id) {
                        Some(ti) => {
                            let t = window_titles[ti].1.clone();
                            set_title(&mut out, t);
                        },
                        None => {},
                    }
                },
                None => {},
            }
            YamlNode::Mapping(out)
        },
        YamlNode::Sequence(items) => {
            let ghost v = yaml_view(*layout);
            let ghost vis = items_view(*layout, items@.len() as int);
            proof {
                lemma_items_view(*layout, items@.len() as int);
            }
            let mut out: Vec<YamlNode> = Vec::new();
            for i in 0..items.len()
                invariant
                    layout is Sequence && layout->Sequence_0 == items,
                    v == yaml_view(*layout),
                    v == YamlView::Sequence(vis),
                    titles == titles_view(window_titles@),
                    vis.len() == items@.len(),
                    forall|j: int| 0 <= j < items@.len() ==> #[trigger] vis[j] == yaml_view(items@[j]),
                    out@.len() == i,
                    forall|j: int| 0 <= j < i ==> yaml_view(#[trigger] out@[j]) == enriched(vis[j], titles),
            {
                proof {
                    assert(decreases_to!(*layout => items));
                    assert(decreases_to!(items => items@));
                    assert(decreases_to!(items@ => items@[i as int]));
                }
                out.push(enrich_layout_with_titles(&items[i], window_titles));
            }
            proof {
                lemma_enriched_items(v, titles, vis.len() as int);
                lemma_items_view(YamlNode::Sequence(out), out@.len() as int);
                assert(items_view(YamlNode::Sequence(out), out@.len() as int) =~= enriched_items(v, titles, vis.len() as int));
            }
            YamlNode::Sequence(out)
        },
        YamlNode::Tagged { tag: _, value } => enrich_layout_with_titles(value, window_titles),
        YamlNode::Str(s) => YamlNode::Str(s.clone()),
        YamlNode::Scalar { number, handle } => YamlNode::Scalar { number: *number, handle: *handle },
    }
}

} // verus!
