use vstd::prelude::*;
use crate::text::{chars_of, find_char, index_of_from, trim, trim_range};

verus! {

/// Why the assistant cannot be used with the configuration.
#[derive(Debug, Clone, Copy, PartialEq, Eq, Structural)]
pub enum AiClientError {
    NotEnabled,
    NoApiUrl,
    NoApiKey,
}

/// One message of a chat with the assistant.
#[derive(Debug, Clone)]
pub struct ChatMessage {
    pub role: String,
    pub content: String,
}

/// What a request to the assistant needs from the configuration.
#[derive(Debug, Clone)]
pub struct AiClientSettings {
    pub api_url: String,
    pub api_key: String,
    pub model: String,
}

impl AiClientSettings {
    /// The settings for requests, when the assistant is enabled and has an
    /// address and a key; otherwise the first of these that is missing.
    pub fn from_config(enabled: bool, api_url: String, api_key: String, model: String) -> (r: Result<
        AiClientSettings,
        AiClientError,
    >)
        ensures
            !enabled ==> r == Err::<AiClientSettings, AiClientError>(AiClientError::NotEnabled),
            enabled && api_url@.len() == 0 ==> r == Err::<AiClientSettings, AiClientError>(AiClientError::NoApiUrl),
            enabled && api_url@.len() > 0 && api_key@.len() == 0 ==> r == Err::<AiClientSettings, AiClientError>(
                AiClientError::NoApiKey,
            ),
            enabled && api_url@.len() > 0 && api_key@.len() > 0 ==> (r matches Ok(s) && s.api_url@ == api_url@
                && s.api_key@ == api_key@ && s.model@ == model@),
    {
        if !enabled {
            return Err(AiClientError::NotEnabled);
        }
        if api_url.as_str().unicode_len() == 0 {
            return Err(AiClientError::NoApiUrl);
        }
        if api_key.as_str().unicode_len() == 0 {
            return Err(AiClientError::NoApiKey);
        }
        Ok(AiClientSettings { api_url, api_key, model })
    }
}

/// The code fence that opens and closes a markdown code block.
pub open spec fn fence() -> Seq<char> {
    seq!['`', '`', '`']
}

/// The text inside a code block whose opening fence has been removed: the
/// rest of the first line (the language tag) goes, then a closing fence, then
/// surrounding whitespace.
pub open spec fn spec_fenced_body(rest: Seq<char>) -> Seq<char> {
    let after = match index_of_from(rest, '\n', 0) {
        Some(p) => rest.subrange(p + 1, rest.len() as int),
        None => rest,
    };
    if after.len() >= 3 && after.subrange(after.len() - 3, after.len() as int) == fence() {
        trim(after.subrange(0, after.len() - 3))
    } else {
        trim(after)
    }
}

/// `text` without a markdown code block around it: trimmed, and when it opens
/// with a fence, the body of the block.
pub open spec fn spec_strip_code_block(text: Seq<char>) -> Seq<char> {
    let t = trim(text);
    if t.len() >= 3 && t.subrange(0, 3) == fence() {
        spec_fenced_body(t.subrange(3, t.len() as int))
    } else {
        t
    }
}

/// Whether `v[at..at + 3]` is a code fence.
fn fence_at(v: &Vec<char>, at: usize) -> (b: bool)
    requires
        at + 3 <= v@.len(),
    ensures
        b == (v@.subrange(at as int, at + 3) == fence()),
{
    let n = v.len();
    assert(at + 2 < n);
    let r = v[at] == '`' && v[at + 1] == '`' && v[at + 2] == '`';
    assert(r ==> v@.subrange(at as int, at + 3) =~= fence());
    assert(v@.subrange(at as int, at + 3) == fence() ==> v@.subrange(at as int, at + 3)[0] == '`' && v@.subrange(
        at as int,
        at + 3,
    )[1] == '`' && v@.subrange(at as int, at + 3)[2] == '`');
    r
}

/// The bounds of the body of a code block in `v[from..to]`, the text after
/// its opening fence.
fn fenced_body_range(v: &Vec<char>, from: usize, to: usize) -> (r: (usize, usize))
    requires
        from <= to <= v@.len(),
    ensures
        from <= r.0 <= r.1 <= to,
        v@.subrange(r.0 as int, r.1 as int) == spec_fenced_body(v@.subrange(from as int, to as int)),
{
    let ghost rest = v@.subrange(from as int, to as int);
    let p = find_char(v, '\n', from, to);
    let start = if p < to { p + 1 } else { from };
    let ghost after = v@.subrange(start as int, to as int);
    assert(after =~= match index_of_from(rest, '\n', 0) {
        Some(q) => rest.subrange(q + 1, rest.len() as int),
        None => rest,
    });
    if to - start >= 3 && fence_at(v, to - 3) {
        assert(after.subrange(after.len() - 3, after.len() as int) =~= v@.subrange(to - 3, to as int));
        assert(after.subrange(0, after.len() - 3) =~= v@.subrange(start as int, to - 3));
        trim_range(v, start, to - 3)
    } else {
        assert(to - start >= 3 ==> after.subrange(after.len() - 3, after.len() as int) =~= v@.subrange(
            to - 3,
            to as int,
        ));
        trim_range(v, start, to)
    }
}

/// Removes a markdown code block around the assistant's answer, in case it
/// added one despite the instructions.
pub fn strip_markdown_code_block(text: &str) -> (r: String)
    ensures
        r@ == spec_strip_code_block(text@),
{
    let v = chars_of(text);
    let n = v.len();
    let (a, b) = trim_range(&v, 0, n);
    assert(v@.subrange(0, n as int) == text@);
    let ghost t = v@.subrange(a as int, b as int);
    if b - a >= 3 && fence_at(&v, a) {
        assert(t.subrange(0, 3) =~= v@.subrange(a as int, a + 3));
        assert(t.subrange(3, t.len() as int) =~= v@.subrange(a + 3, b as int));
        let (c, d) = fenced_body_range(&v, a + 3, b);
        return text.substring_char(c, d).to_owned();
    }
    assert(b - a >= 3 ==> t.subrange(0, 3) =~= v@.subrange(a as int, a + 3));
    text.substring_char(a, b).to_owned()
}


/// The text handed back has no whitespace at either end.
pub proof fn lemma_stripped_is_trimmed(text: Seq<char>)
    ensures
        trim(spec_strip_code_block(text)) == spec_strip_code_block(text),
{
    let t = trim(text);
    crate::text::lemma_trim_idempotent(text);
    if t.len() >= 3 && t.subrange(0, 3) == fence() {
        let rest = t.subrange(3, t.len() as int);
        let after = match index_of_from(rest, '\n', 0) {
            Some(p) => rest.subrange(p + 1, rest.len() as int),
            None => rest,
        };
        crate::text::lemma_trim_idempotent(after);
        if after.len() >= 3 {
            crate::text::lemma_trim_idempotent(after.subrange(0, after.len() - 3));
        }
    }
}

} // verus!
