use vstd::prelude::*;
use crate::text::{
    chars_of, find_char, index_of_from, is_whitespace, is_whitespace_char, join, join_strings, split_on,
    trim, trim_range, trim_start,
};

verus! {

/// The documentation of the fields by path, as text.
pub open spec fn docs_view(docs: Seq<(String, String)>) -> Seq<(Seq<char>, Seq<char>)> {
    docs.map_values(|d: (String, String)| (d.0@, d.1@))
}

/// The documentation stored under `key`: that of its first entry.
pub open spec fn doc_for(docs: Seq<(Seq<char>, Seq<char>)>, key: Seq<char>) -> Option<Seq<char>>
    decreases docs.len(),
{
    if docs.len() == 0 {
        None
    } else if docs[0].0 == key {
        Some(docs[0].1)
    } else {
        doc_for(docs.drop_first(), key)
    }
}

/// The number of bytes `c` takes in UTF-8.
pub open spec fn utf8_width(c: char) -> nat {
    let u = c as u32;
    if u < 0x80 {
        1
    } else if u < 0x800 {
        2
    } else if u < 0x10000 {
        3
    } else {
        4
    }
}

/// The number of bytes `s` takes in UTF-8.
pub open spec fn utf8_len(s: Seq<char>) -> nat
    decreases s.len(),
{
    if s.len() == 0 {
        0
    } else {
        utf8_len(s.drop_last()) + utf8_width(s.last())
    }
}

/// `s` repeated `n` times.
pub open spec fn repeat(s: Seq<char>, n: nat) -> Seq<char>
    decreases n,
{
    if n == 0 {
        Seq::empty()
    } else {
        repeat(s, (n - 1) as nat) + s
    }
}

/// The text with its line breaks, as text.
pub open spec fn strings_view(v: Seq<String>) -> Seq<Seq<char>> {
    v.map_values(|s: String| s@)
}

/// A line without the carriage return of a `\r\n` break.
pub open spec fn strip_cr(p: Seq<char>) -> Seq<char> {
    if p.len() > 0 && p.last() == '\r' {
        p.drop_last()
    } else {
        p
    }
}

/// The lines of `s`, as `str::lines` gives them: cut at `\n` or `\r\n`, with
/// no empty line after a final line break.
pub open spec fn text_lines(s: Seq<char>) -> Seq<Seq<char>> {
    let parts = split_on(s, '\n');
    let full = parts.drop_last().map_values(|p: Seq<char>| strip_cr(p));
    if parts.last().len() > 0 {
        full.push(parts.last())
    } else {
        full
    }
}

/// The indentation level of a field whose line starts with `before`: half
/// the number of bytes of its leading whitespace.
pub open spec fn indent_level(before: Seq<char>) -> nat {
    utf8_len(before.subrange(0, before.len() - trim_start(before).len())) / 2
}

/// One line of YAML handled: the lines written so far and the path of field
/// names leading to it become those after it. A line with a field (a `:`)
/// sets the field's name at its indentation level in the path; when the
/// documentation knows the field, by its path joined with `.` or else by its
/// name, a comment with that documentation comes before the line, at the
/// same indentation and after an empty line unless it is the first.
pub open spec fn comment_step(
    st: (Seq<Seq<char>>, Seq<Seq<char>>),
    line: Seq<char>,
    docs: Seq<(Seq<char>, Seq<char>)>,
) -> (Seq<Seq<char>>, Seq<Seq<char>>) {
    match index_of_from(line, ':', 0) {
        None => (st.0.push(line), st.1),
        Some(p) => {
            let before = line.subrange(0, p);
            let name = trim(before);
            let level = indent_level(before);
            let kept = if level <= st.1.len() {
                st.1.subrange(0, level as int)
            } else {
                st.1
            };
            let path = kept.push(name);
            let doc = match doc_for(docs, join(path, "."@)) {
                Some(d) => Some(d),
                None => doc_for(docs, name),
            };
            let out = match doc {
                Some(d) => (if st.0.len() > 0 {
                    st.0.push(Seq::empty())
                } else {
                    st.0
                }).push(repeat("  "@, level) + "# "@ + d),
                None => st.0,
            };
            (out.push(line), path)
        },
    }
}

/// The lines written, and the field path reached, after handling `lines`.
pub open spec fn comment_lines(lines: Seq<Seq<char>>, docs: Seq<(Seq<char>, Seq<char>)>) -> (
    Seq<Seq<char>>,
    Seq<Seq<char>>,
)
    decreases lines.len(),
{
    if lines.len() == 0 {
        (Seq::empty(), Seq::empty())
    } else {
        comment_step(comment_lines(lines.drop_last(), docs), lines.last(), docs)
    }
}

/// The YAML text with the documentation of its fields as comments above them.
pub open spec fn spec_add_comments(yaml: Seq<char>, docs: Seq<(Seq<char>, Seq<char>)>) -> Seq<char> {
    join(comment_lines(text_lines(yaml), docs).0, "\n"@)
}

proof fn lemma_utf8_len_append(a: Seq<char>, b: Seq<char>)
    ensures
        utf8_len(a + b) == utf8_len(a) + utf8_len(b),
    decreases b.len(),
{
    if b.len() > 0 {
        lemma_utf8_len_append(a, b.drop_last());
        assert((a + b).drop_last() =~= a + b.drop_last());
    } else {
        assert(a + b =~= a);
    }
}

fn utf8_width_of(c: char) -> (w: usize)
    ensures
        w == utf8_width(c),
{
    let u = c as u32;
    if u < 0x80 {
        1
    } else if u < 0x800 {
        2
    } else if u < 0x10000 {
        3
    } else {
        4
    }
}

/// The position of the first entry of `docs` stored under `key`.
fn lookup_doc(docs: &Vec<(String, String)>, key: &String) -> (r: Option<usize>)
    ensures
        match r {
            Some(i) => i < docs@.len() && doc_for(docs_view(docs@), key@) == Some(docs@[i as int].1@),
            None => doc_for(docs_view(docs@), key@) is None,
        },
{
    let ghost all = docs_view(docs@);
    let mut i: usize = 0;
    assert(all.subrange(0, all.len() as int) == all);
    while i < docs.len()
        invariant
            i <= docs@.len(),
            all == docs_view(docs@),
            doc_for(all, key@) == doc_for(all.subrange(i as int, all.len() as int), key@),
        decreases docs@.len() - i,
    {
        let ghost rest = all.subrange(i as int, all.len() as int);
        assert(rest[0] == (docs@[i as int].0@, docs@[i as int].1@));
        if docs[i].0 == *key {
            return Some(i);
        }
        assert(rest.drop_first() =~= all.subrange(i + 1, all.len() as int));
        i = i + 1;
    }
    None
}

/// Handles the line `yaml[lo..hi]` (whose characters are `v[lo..hi]`).
fn comment_line(
    yaml: &str,
    v: &Vec<char>,
    lo: usize,
    hi: usize,
    docs: &Vec<(String, String)>,
    result: &mut Vec<String>,
    stack: &mut Vec<String>,
)
    requires
        v@ == yaml@,
        lo <= hi <= v@.len(),
        utf8_len(v@) <= usize::MAX,
    ensures
        (strings_view(final(result)@), strings_view(final(stack)@)) == comment_step(
            (strings_view(old(result)@), strings_view(old(stack)@)),
            v@.subrange(lo as int, hi as int),
            docs_view(docs@),
        ),
{
    let ghost line_v = v@.subrange(lo as int, hi as int);
    let ghost st = (strings_view(result@), strings_view(stack@));
    let p = find_char(v, ':', lo, hi);
    let line = yaml.substring_char(lo, hi).to_owned();
    if p == hi {
        result.push(line);
        assert(strings_view(result@) =~= st.0.push(line_v));
        return;
    }
    let ghost before = v@.subrange(lo as int, p as int);
    assert(before =~= line_v.subrange(0, p - lo));
    // the leading whitespace of the field
    let mut k: usize = lo;
    while k < p && is_whitespace(v[k])
        invariant
            lo <= k <= p <= hi <= v@.len(),
            forall|j: int| lo <= j < k ==> is_whitespace_char(#[trigger] v@[j]),
        decreases p - k,
    {
        k = k + 1;
    }
    proof {
        assert forall|j: int| 0 <= j < k - lo implies is_whitespace_char(#[trigger] before[j]) by {
            assert(before[j] == v@[lo + j]);
        }
        crate::text::lemma_trim_start_skip(before, k - lo);
        let tail = before.subrange(k - lo, before.len() as int);
        if tail.len() > 0 {
            assert(tail[0] == v@[k as int]);
        }
        assert(trim_start(tail) == tail);
        assert(before.subrange(0, before.len() - trim_start(before).len()) =~= v@.subrange(lo as int, k as int));
    }
    let mut bytes: usize = 0;
    let mut j: usize = lo;
    proof {
        lemma_utf8_len_append(v@.subrange(0, lo as int), v@.subrange(lo as int, k as int));
        lemma_utf8_len_append(v@.subrange(0, k as int), v@.subrange(k as int, v@.len() as int));
        assert(v@.subrange(0, lo as int) + v@.subrange(lo as int, k as int) =~= v@.subrange(0, k as int));
        assert(v@.subrange(0, k as int) + v@.subrange(k as int, v@.len() as int) =~= v@);
        assert(v@.subrange(lo as int, lo as int) =~= Seq::<char>::empty());
    }
    while j < k
        invariant
            lo <= j <= k <= v@.len(),
            bytes == utf8_len(v@.subrange(lo as int, j as int)),
            utf8_len(v@.subrange(lo as int, k as int)) <= usize::MAX,
        decreases k - j,
    {
        proof {
            assert(v@.subrange(lo as int, j + 1).drop_last() =~= v@.subrange(lo as int, j as int));
            lemma_utf8_len_append(v@.subrange(lo as int, j + 1), v@.subrange(j + 1, k as int));
            assert(v@.subrange(lo as int, j + 1) + v@.subrange(j + 1, k as int) =~= v@.subrange(lo as int, k as int));
        }
        bytes = bytes + utf8_width_of(v[j]);
        j = j + 1;
    }
    let level = bytes / 2;
    let (a, b) = trim_range(v, lo, p);
    let name = yaml.substring_char(a, b).to_owned();
    let ghost kept = if level <= st.1.len() {
        st.1.subrange(0, level as int)
    } else {
        st.1
    };
    stack.truncate(level);
    assert(strings_view(stack@) =~= kept);
    stack.push(name.clone());
    let ghost path = kept.push(name@);
    assert(strings_view(stack@) =~= path);
    let full_path = join_strings(stack, ".");
    let found = match lookup_doc(docs, &full_path) {
        Some(i) => Some(i),
        None => lookup_doc(docs, &name),
    };
    let ghost prev = strings_view(result@);
    match found {
        Some(i) => {
            if result.len() > 0 {
                result.push(String::new());
            }
            let ghost prev2 = strings_view(result@);
            assert(prev2 == if prev.len() > 0 {
                prev.push(Seq::empty())
            } else {
                prev
            });
            let mut comment = String::new();
            let mut r: usize = 0;
            while r < level
                invariant
                    r <= level,
                    comment@ == repeat("  "@, r as nat),
                decreases level - r,
            {
                comment.append("  ");
                r = r + 1;
            }
            comment.append("# ");
            comment.append(docs[i].1.as_str());
            result.push(comment);
            assert(strings_view(result@) =~= prev2.push(repeat("  "@, level as nat) + "# "@ + docs@[i as int].1@));
        },
        None => {},
    }
    let ghost mid = strings_view(result@);
    result.push(line);
    assert(strings_view(result@) =~= mid.push(line_v));
}

/// Puts the documentation of each field of a YAML text in a comment above
/// it, looking the field up by its path of names joined with `.` (such as
/// `ai.model`), else by its name alone.
pub fn add_comments_to_yaml(yaml: &str, field_docs: &Vec<(String, String)>) -> (r: String)
    requires
        utf8_len(yaml@) <= usize::MAX,
    ensures
        r@ == spec_add_comments(yaml@, docs_view(field_docs@)),
{
    let v = chars_of(yaml);
    let n = v.len();
    let ghost docs = docs_view(field_docs@);
    let mut result: Vec<String> = Vec::new();
    let mut stack: Vec<String> = Vec::new();
    let mut start: usize = 0;
    let ghost mut done: Seq<Seq<char>> = Seq::empty();
    assert(v@.subrange(0, 0) =~= Seq::<char>::empty());
    for i in 0..n
        invariant
            v@ == yaml@,
            n == v@.len(),
            utf8_len(yaml@) <= usize::MAX,
            docs == docs_view(field_docs@),
            start <= i,
            split_on(v@.subrange(0, i as int), '\n') == done.push(v@.subrange(start as int, i as int)),
            (strings_view(result@), strings_view(stack@)) == comment_lines(
                done.map_values(|p: Seq<char>| strip_cr(p)),
                docs,
            ),
    {
        let ghost cur = v@.subrange(start as int, i as int);
        assert(v@.subrange(0, i + 1).drop_last() =~= v@.subrange(0, i as int));
        assert(v@.subrange(0, i + 1).last() == v@[i as int]);
        if v[i] == '\n' {
            let end = if i > start && v[i - 1] == '\r' {
                i - 1
            } else {
                i
            };
            assert(v@.subrange(start as int, end as int) =~= strip_cr(cur));
            comment_line(yaml, &v, start, end, field_docs, &mut result, &mut stack);
            proof {
                let f = |p: Seq<char>| strip_cr(p);
                assert(done.push(cur).map_values(f).drop_last() =~= done.map_values(f));
                assert(done.push(cur).map_values(f).last() == strip_cr(cur));
                done = done.push(cur);
                assert(v@.subrange((i + 1) as int, (i + 1) as int) =~= Seq::<char>::empty());
            }
            start = i + 1;
        } else {
            assert(v@.subrange(start as int, i + 1) =~= cur.push(v@[i as int]));
        }
    }
    assert(v@.subrange(0, n as int) =~= yaml@);
    if start < n {
        let ghost last = v@.subrange(start as int, n as int);
        comment_line(yaml, &v, start, n, field_docs, &mut result, &mut stack);
        proof {
            let f = |p: Seq<char>| strip_cr(p);
            assert(done.map_values(f).push(last).drop_last() =~= done.map_values(f));
        }
    }
    proof {
        let parts = split_on(yaml@, '\n');
        assert(parts.drop_last() =~= done);
    }
    join_strings(&result, "\n")
}

/// A JSON schema as reading field documentation needs it: the description
/// of an object schema when it is a string, and the properties of an object
/// schema, in order. Any other schema has neither.
#[derive(Debug)]
pub struct SchemaNode {
    pub description: Option<String>,
    pub properties: Vec<(String, SchemaNode)>,
}

/// The path of the field `key` under `prefix`.
pub open spec fn field_path(prefix: Seq<char>, key: Seq<char>) -> Seq<char> {
    if prefix.len() == 0 {
        key
    } else {
        prefix + "."@ + key
    }
}

/// The documented fields of `n` under `prefix`, with their documentation:
/// each property with a description, then the fields inside it.
pub open spec fn schema_entries(n: SchemaNode, prefix: Seq<char>) -> Seq<(Seq<char>, Seq<char>)>
    decreases n, 1int, 0int,
{
    property_entries(n, prefix, n.properties@.len() as int)
}

/// The documented fields of the first `k` properties of `n`.
pub open spec fn property_entries(n: SchemaNode, prefix: Seq<char>, k: int) -> Seq<(Seq<char>, Seq<char>)>
    decreases n, 0int, k,
{
    if k <= 0 || k > n.properties@.len() {
        Seq::empty()
    } else {
        let entry = n.properties@[k - 1];
        proof {
            assert(decreases_to!(n => n.properties));
            assert(decreases_to!(n.properties => n.properties@));
            assert(decreases_to!(n.properties@ => entry));
            assert(decreases_to!(entry => entry.1));
        }
        let path = field_path(prefix, entry.0@);
        let own = match entry.1.description {
            Some(d) => seq![(path, d@)],
            None => Seq::empty(),
        };
        property_entries(n, prefix, k - 1) + own + schema_entries(entry.1, path)
    }
}

/// The position of the first entry of `docs` stored under `key`.
pub open spec fn key_position(docs: Seq<(Seq<char>, Seq<char>)>, key: Seq<char>) -> Option<int>
    decreases docs.len(),
{
    if docs.len() == 0 {
        None
    } else if docs.last().0 == key && key_position(docs.drop_last(), key) is None {
        Some(docs.len() - 1)
    } else {
        key_position(docs.drop_last(), key)
    }
}

/// `docs` with `e.1` stored under `e.0`: in place of what was stored there,
/// else at the end.
pub open spec fn doc_insert(docs: Seq<(Seq<char>, Seq<char>)>, e: (Seq<char>, Seq<char>)) -> Seq<(Seq<char>, Seq<char>)> {
    match key_position(docs, e.0) {
        Some(i) => docs.update(i, e),
        None => docs.push(e),
    }
}

/// `docs` with the entries stored in order.
pub open spec fn insert_all(docs: Seq<(Seq<char>, Seq<char>)>, entries: Seq<(Seq<char>, Seq<char>)>) -> Seq<(Seq<char>, Seq<char>)>
    decreases entries.len(),
{
    if entries.len() == 0 {
        docs
    } else {
        doc_insert(insert_all(docs, entries.drop_last()), entries.last())
    }
}

proof fn lemma_insert_all_append(
    docs: Seq<(Seq<char>, Seq<char>)>,
    a: Seq<(Seq<char>, Seq<char>)>,
    b: Seq<(Seq<char>, Seq<char>)>,
)
    ensures
        insert_all(docs, a + b) == insert_all(insert_all(docs, a), b),
    decreases b.len(),
{
    if b.len() == 0 {
        assert(a + b =~= a);
    } else {
        lemma_insert_all_append(docs, a, b.drop_last());
        assert((a + b).drop_last() =~= a + b.drop_last());
    }
}

proof fn lemma_key_position(docs: Seq<(Seq<char>, Seq<char>)>, key: Seq<char>)
    ensures
        match key_position(docs, key) {
            Some(i) => 0 <= i < docs.len() && docs[i].0 == key && forall|j: int| 0 <= j < i ==> (#[trigger] docs[j]).0 != key,
            None => forall|j: int| 0 <= j < docs.len() ==> (#[trigger] docs[j]).0 != key,
        },
    decreases docs.len(),
{
    if docs.len() > 0 {
        lemma_key_position(docs.drop_last(), key);
        assert forall|j: int| 0 <= j < docs.len() - 1 implies (#[trigger] docs[j]) == docs.drop_last()[j] by {}
    }
}

/// Stores `value` under `key`, as a map insertion does.
fn insert_doc(docs: &mut Vec<(String, String)>, key: String, value: String)
    ensures
        docs_view(final(docs)@) == doc_insert(docs_view(old(docs)@), (key@, value@)),
{
    let ghost before = docs_view(docs@);
    proof {
        lemma_key_position(before, key@);
    }
    let mut i: usize = 0;
    while i < docs.len()
        invariant
            i <= docs@.len(),
            before == docs_view(docs@),
            before == docs_view(old(docs)@),
            forall|j: int| 0 <= j < i ==> (#[trigger] before[j]).0 != key@,
        decreases docs@.len() - i,
    {
        assert(before[i as int] == (docs@[i as int].0@, docs@[i as int].1@));
        if docs[i].0 == key {
            proof {
                lemma_key_position(before, key@);
                match key_position(before, key@) {
                    Some(q) => {
                        if q < i {
                        } else if q > i {
                            assert(before[i as int].0 == key@);
                        }
                    },
                    None => {
                        assert(before[i as int].0 == key@);
                    },
                }
                assert(key_position(before, key@) == Some(i as int));
            }
            let ghost e = (key@, value@);
            docs.set(i, (key, value));
            assert(docs_view(docs@) =~= before.update(i as int, e));
            return;
        }
        i = i + 1;
    }
    proof {
        lemma_key_position(before, key@);
        if key_position(before, key@) is Some {
            let q = key_position(before, key@)->0;
            assert(before[q].0 != key@);
        }
    }
    let ghost e = (key@, value@);
    docs.push((key, value));
    assert(docs_view(docs@) =~= before.push(e));
}

/// Collects the documentation of the fields of `schema` into `field_docs`,
/// by path under `prefix` (such as `ai.model`): the description of each
/// property that has one, then the fields inside it.
pub fn extract_field_documentation(schema: &SchemaNode, prefix: &str, field_docs: &mut Vec<(String, String)>)
    ensures
        docs_view(final(field_docs)@) == insert_all(docs_view(old(field_docs)@), schema_entries(*schema, prefix@)),
    decreases schema,
{
    let ghost start = docs_view(field_docs@);
    let n = schema.properties.len();
    for k in 0..n
        invariant
            n == schema.properties@.len(),
            docs_view(field_docs@) == insert_all(start, property_entries(*schema, prefix@, k as int)),
    {
        let key = &schema.properties[k].0;
        let prop = &schema.properties[k].1;
        let path = if prefix.unicode_len() == 0 {
            key.clone()
        } else {
            let mut p = prefix.to_owned();
            p.append(".");
            p.append(key.as_str());
            p
        };
        let ghost entry = schema.properties@[k as int];
        let ghost own = match entry.1.description {
            Some(d) => seq![(path@, d@)],
            None => Seq::<(Seq<char>, Seq<char>)>::empty(),
        };
        let ghost prev = property_entries(*schema, prefix@, k as int);
        assert(path@ == field_path(prefix@, entry.0@));
        match &prop.description {
            Some(d) => {
                insert_doc(field_docs, path.clone(), d.clone());
                assert(own =~= seq![(path@, d@)]);
                assert((prev + own).drop_last() =~= prev);
            },
            None => {
                assert(prev + own =~= prev);
            },
        }
        proof {
            lemma_insert_all_append(start, prev, own);
            assert(decreases_to!(*schema => schema.properties));
            assert(decreases_to!(schema.properties => schema.properties@));
            assert(decreases_to!(schema.properties@ => entry));
            assert(decreases_to!(entry => entry.1));
        }
        extract_field_documentation(prop, path.as_str(), field_docs);
        proof {
            lemma_insert_all_append(start, prev + own, schema_entries(entry.1, path@));
        }
    }
}

/// The documentation of the configuration's fields: those of the
/// configuration's own schema, and those of the two binding sets under their
/// field names.
pub fn collect_config_docs(config: &SchemaNode, resize_handle_bindings: &SchemaNode, mod_transform_bindings: &SchemaNode) -> (r: Vec<(String, String)>)
    ensures
        docs_view(r@) == insert_all(
            insert_all(insert_all(Seq::empty(), schema_entries(*config, ""@)), schema_entries(*resize_handle_bindings, "resize_handle_bindings"@)),
            schema_entries(*mod_transform_bindings, "mod_transform_bindings"@),
        ),
{
    let mut docs: Vec<(String, String)> = Vec::new();
    assert(docs_view(docs@) =~= Seq::empty());
    extract_field_documentation(config, "", &mut docs);
    extract_field_documentation(resize_handle_bindings, "resize_handle_bindings", &mut docs);
    extract_field_documentation(mod_transform_bindings, "mod_transform_bindings", &mut docs);
    docs
}

/// The text of a configuration file: a header, then the YAML with the
/// documentation of its fields as comments.
pub fn config_file_text(yaml: &str, field_docs: &Vec<(String, String)>) -> (r: String)
    requires
        utf8_len(yaml@) <= usize::MAX,
    ensures
        r@ == "# UltraWM Configuration File\n# Changes will take effect immediately\n\n\n"@ + spec_add_comments(yaml@, docs_view(field_docs@)),
{
    let mut out = "# UltraWM Configuration File\n# Changes will take effect immediately\n\n\n".to_owned();
    let body = add_comments_to_yaml(yaml, field_docs);
    out.append(body.as_str());
    out
}

} // verus!

verus! {

/// A line that YAML reads as nothing: empty, or a comment (its first
/// character after leading whitespace is `#`).
pub open spec fn blank_or_comment(l: Seq<char>) -> bool {
    l.len() == 0 || (trim_start(l).len() > 0 && trim_start(l)[0] == '#')
}

/// Where the lines of `lines` end up among the lines written for them.
pub open spec fn line_positions(lines: Seq<Seq<char>>, docs: Seq<(Seq<char>, Seq<char>)>) -> Seq<int>
    decreases lines.len(),
{
    if lines.len() == 0 {
        Seq::empty()
    } else {
        line_positions(lines.drop_last(), docs).push(comment_lines(lines, docs).0.len() - 1)
    }
}

proof fn lemma_repeat_front(n: nat)
    requires
        n > 0,
    ensures
        repeat("  "@, n) == "  "@ + repeat("  "@, (n - 1) as nat),
    decreases n,
{
    if n > 1 {
        lemma_repeat_front((n - 1) as nat);
        assert(repeat("  "@, n) =~= "  "@ + repeat("  "@, (n - 1) as nat));
    } else {
        assert(repeat("  "@, 0) =~= Seq::<char>::empty());
        assert(repeat("  "@, 1) =~= Seq::<char>::empty() + "  "@);
        assert("  "@ + Seq::<char>::empty() =~= "  "@);
        assert(Seq::<char>::empty() + "  "@ =~= "  "@);
    }
}

proof fn lemma_trim_start_indent(n: nat, rest: Seq<char>)
    ensures
        trim_start(repeat("  "@, n) + rest) == trim_start(rest),
    decreases n,
{
    reveal_strlit("  ");
    if n > 0 {
        lemma_repeat_front(n);
        let tail = repeat("  "@, (n - 1) as nat) + rest;
        let whole = repeat("  "@, n) + rest;
        assert(whole =~= seq![' ', ' '] + tail);
        assert(whole[0] == ' ' && whole.drop_first() =~= seq![' '] + tail);
        assert((seq![' '] + tail)[0] == ' ' && (seq![' '] + tail).drop_first() =~= tail);
        reveal_with_fuel(trim_start, 3);
        assert(trim_start(whole) == trim_start(tail));
        lemma_trim_start_indent((n - 1) as nat, rest);
    } else {
        assert(repeat("  "@, 0) + rest =~= rest);
    }
}

proof fn lemma_comment_line_is_comment(level: nat, d: Seq<char>)
    ensures
        blank_or_comment(repeat("  "@, level) + "# "@ + d),
{
    reveal_strlit("# ");
    let rest = "# "@ + d;
    assert(repeat("  "@, level) + "# "@ + d =~= repeat("  "@, level) + rest);
    lemma_trim_start_indent(level, rest);
    assert(rest[0] == '#');
    assert(trim_start(rest) == rest);
}

/// The documentation comments only add lines: the lines of the YAML all come
/// out, in their order and unchanged, and every other line written is empty
/// or a comment, which YAML reads as nothing.
pub proof fn lemma_comments_keep_yaml(lines: Seq<Seq<char>>, docs: Seq<(Seq<char>, Seq<char>)>)
    ensures
        ({
            let out = comment_lines(lines, docs).0;
            let pos = line_positions(lines, docs);
            &&& pos.len() == lines.len()
            &&& forall|j: int| 0 <= j < pos.len() ==> 0 <= #[trigger] pos[j] < out.len() && out[pos[j]] == lines[j]
            &&& forall|i: int, j: int| 0 <= i < j < pos.len() ==> pos[i] < pos[j]
            &&& forall|p: int| 0 <= p < out.len() && !pos.contains(p) ==> blank_or_comment(#[trigger] out[p])
        }),
    decreases lines.len(),
{
    if lines.len() > 0 {
        let init = lines.drop_last();
        let line = lines.last();
        lemma_comments_keep_yaml(init, docs);
        let st = comment_lines(init, docs);
        let old_out = st.0;
        let old_pos = line_positions(init, docs);
        let out = comment_lines(lines, docs).0;
        let pos = line_positions(lines, docs);
        assert(comment_lines(lines, docs) == comment_step(st, line, docs));
        // what this line added before itself
        let extra_from = old_out.len() as int;
        assert(out.len() >= old_out.len() + 1);
        assert(out.last() == line);
        assert forall|p: int| 0 <= p < old_out.len() implies #[trigger] out[p] == old_out[p] by {
            match index_of_from(line, ':', 0) {
                None => {},
                Some(q) => {
                    let before = line.subrange(0, q);
                    let name = trim(before);
                    let level = indent_level(before);
                    let kept = if level <= st.1.len() {
                        st.1.subrange(0, level as int)
                    } else {
                        st.1
                    };
                    let path = kept.push(name);
                    let doc = match doc_for(docs, join(path, "."@)) {
                        Some(d) => Some(d),
                        None => doc_for(docs, name),
                    };
                    match doc {
                        Some(d) => {
                            let withblank = if old_out.len() > 0 {
                                old_out.push(Seq::empty())
                            } else {
                                old_out
                            };
                            assert(withblank[p] == old_out[p]);
                        },
                        None => {},
                    }
                },
            }
        }
        assert forall|p: int| extra_from <= p < out.len() - 1 implies blank_or_comment(#[trigger] out[p]) by {
            match index_of_from(line, ':', 0) {
                None => {},
                Some(q) => {
                    let before = line.subrange(0, q);
                    let name = trim(before);
                    let level = indent_level(before);
                    let kept = if level <= st.1.len() {
                        st.1.subrange(0, level as int)
                    } else {
                        st.1
                    };
                    let path = kept.push(name);
                    let doc = match doc_for(docs, join(path, "."@)) {
                        Some(d) => Some(d),
                        None => doc_for(docs, name),
                    };
                    match doc {
                        Some(d) => {
                            lemma_comment_line_is_comment(level, d);
                        },
                        None => {},
                    }
                },
            }
        }
        assert(pos == old_pos.push(out.len() - 1));
        assert forall|j: int| 0 <= j < pos.len() implies 0 <= #[trigger] pos[j] < out.len() && out[pos[j]] == lines[j] by {
            if j < old_pos.len() {
                assert(pos[j] == old_pos[j]);
                assert(lines[j] == init[j]);
            }
        }
        assert forall|p: int| 0 <= p < out.len() && !pos.contains(p) implies blank_or_comment(#[trigger] out[p]) by {
            if p < old_out.len() {
                if old_pos.contains(p) {
                    let j = choose|j: int| 0 <= j < old_pos.len() && old_pos[j] == p;
                    assert(pos[j] == p);
                }
            } else if p == out.len() - 1 {
                assert(pos[pos.len() - 1] == p);
            }
        }
    }
}

} // verus!
