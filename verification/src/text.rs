use vstd::prelude::*;

verus! {

/// The characters of `s`, in order.
pub fn chars_of(s: &str) -> (v: Vec<char>)
    ensures
        v@ == s@,
{
    let n = s.unicode_len();
    let mut v: Vec<char> = Vec::new();
    for i in 0..n
        invariant
            n == s@.len(),
            v@ == s@.subrange(0, i as int),
    {
        v.push(s.get_char(i));
        assert(v@ == s@.subrange(0, i + 1));
    }
    assert(s@.subrange(0, n as int) == s@);
    v
}

/// Unicode `White_Space`, the property that `char::is_whitespace` tests.
pub open spec fn is_whitespace_char(c: char) -> bool {
    let u = c as u32;
    (0x9 <= u <= 0xD) || u == 0x20 || u == 0x85 || u == 0xA0 || u == 0x1680 || (0x2000 <= u
        <= 0x200A) || u == 0x2028 || u == 0x2029 || u == 0x202F || u == 0x205F || u == 0x3000
}

pub fn is_whitespace(c: char) -> (b: bool)
    ensures
        b == is_whitespace_char(c),
{
    let u = c as u32;
    (0x9 <= u && u <= 0xD) || u == 0x20 || u == 0x85 || u == 0xA0 || u == 0x1680 || (0x2000 <= u
        && u <= 0x200A) || u == 0x2028 || u == 0x2029 || u == 0x202F || u == 0x205F || u == 0x3000
}

/// `s` without its leading whitespace.
pub open spec fn trim_start(s: Seq<char>) -> Seq<char>
    decreases s.len(),
{
    if s.len() > 0 && is_whitespace_char(s[0]) {
        trim_start(s.drop_first())
    } else {
        s
    }
}

/// `s` without its trailing whitespace.
pub open spec fn trim_end(s: Seq<char>) -> Seq<char>
    decreases s.len(),
{
    if s.len() > 0 && is_whitespace_char(s.last()) {
        trim_end(s.drop_last())
    } else {
        s
    }
}

/// `s` without leading and trailing whitespace, as `str::trim` gives it.
pub open spec fn trim(s: Seq<char>) -> Seq<char> {
    trim_end(trim_start(s))
}

/// Whitespace at the front of `s` does not change what trimming the start gives.
pub proof fn lemma_trim_start_skip(s: Seq<char>, i: int)
    requires
        0 <= i <= s.len(),
        forall|j: int| 0 <= j < i ==> is_whitespace_char(#[trigger] s[j]),
    ensures
        trim_start(s) == trim_start(s.subrange(i, s.len() as int)),
    decreases i,
{
    if i > 0 {
        lemma_trim_start_skip(s.drop_first(), i - 1);
        assert(s.drop_first().subrange(i - 1, s.drop_first().len() as int) == s.subrange(
            i,
            s.len() as int,
        ));
    } else {
        assert(s.subrange(0, s.len() as int) == s);
    }
}

/// Whitespace at the end of `s` does not change what trimming the end gives.
pub proof fn lemma_trim_end_drop(s: Seq<char>, k: int)
    requires
        0 <= k <= s.len(),
        forall|j: int| k <= j < s.len() ==> is_whitespace_char(#[trigger] s[j]),
    ensures
        trim_end(s) == trim_end(s.subrange(0, k)),
    decreases s.len() - k,
{
    if k < s.len() {
        lemma_trim_end_drop(s.drop_last(), k);
        assert(s.drop_last().subrange(0, k) == s.subrange(0, k));
    } else {
        assert(s.subrange(0, k) == s);
    }
}

/// The characters of `v` without leading and trailing whitespace.
pub fn trimmed(v: &[char]) -> (r: Vec<char>)
    ensures
        r@ == trim(v@),
{
    let n = v.len();
    let mut i: usize = 0;
    while i < n && is_whitespace(v[i])
        invariant
            n == v@.len(),
            i <= n,
            forall|j: int| 0 <= j < i ==> is_whitespace_char(#[trigger] v@[j]),
        decreases n - i,
    {
        i = i + 1;
    }
    proof {
        lemma_trim_start_skip(v@, i as int);
    }
    let ghost rest = v@.subrange(i as int, n as int);
    assert(trim_start(rest) == rest);
    let mut k: usize = n;
    while k > i && is_whitespace(v[k - 1])
        invariant
            n == v@.len(),
            i <= k <= n,
            rest == v@.subrange(i as int, n as int),
            forall|j: int| k <= j < n ==> is_whitespace_char(#[trigger] v@[j]),
        decreases k,
    {
        k = k - 1;
    }
    proof {
        assert forall|j: int| k - i <= j < rest.len() implies is_whitespace_char(#[trigger] rest[j]) by {
            assert(rest[j] == v@[j + i]);
        }
        lemma_trim_end_drop(rest, k - i);
        assert(rest.subrange(0, k - i) == v@.subrange(i as int, k as int));
    }
    let mut r: Vec<char> = Vec::new();
    let mut j: usize = i;
    while j < k
        invariant
            n == v@.len(),
            i <= j <= k <= n,
            r@ == v@.subrange(i as int, j as int),
        decreases k - j,
    {
        r.push(v[j]);
        assert(r@ == v@.subrange(i as int, j + 1));
        j = j + 1;
    }
    r
}

/// The code of `c` after ASCII lower-casing.
pub open spec fn ascii_lower_code(c: char) -> u32 {
    if 'A' <= c <= 'Z' {
        (c as u32 + 32) as u32
    } else {
        c as u32
    }
}

/// `part`, lower-cased over ASCII, is exactly `word` (`to_ascii_lowercase(part) == word`).
pub open spec fn lower_equals(part: Seq<char>, word: Seq<char>) -> bool {
    part.len() == word.len() && forall|i: int| 0 <= i < part.len() ==> ascii_lower_code(part[i]) == word[i] as u32
}

/// Whether `part`, lower-cased over ASCII, is the string `word`.
pub fn lower_equals_str(part: &[char], word: &str) -> (b: bool)
    ensures
        b == lower_equals(part@, word@),
{
    let n = word.unicode_len();
    if part.len() != n {
        return false;
    }
    for i in 0..n
        invariant
            n == word@.len(),
            n == part@.len(),
            forall|j: int| 0 <= j < i ==> ascii_lower_code(part@[j]) == word@[j] as u32,
    {
        let c = part[i];
        let code: u32 = if 'A' <= c && c <= 'Z' {
            c as u32 + 32
        } else {
            c as u32
        };
        if code != word.get_char(i) as u32 {
            return false;
        }
    }
    true
}

/// `s` cut at every `sep`, as `str::split` with a character gives it:
/// an empty string gives one empty piece, and a separator at either end gives an empty piece there.
pub open spec fn split_on(s: Seq<char>, sep: char) -> Seq<Seq<char>>
    decreases s.len(),
{
    if s.len() == 0 {
        seq![Seq::<char>::empty()]
    } else if s.last() == sep {
        split_on(s.drop_last(), sep).push(Seq::<char>::empty())
    } else {
        let p = split_on(s.drop_last(), sep);
        p.update(p.len() - 1, p.last().push(s.last()))
    }
}

pub proof fn lemma_split_on_nonempty(s: Seq<char>, sep: char)
    ensures
        split_on(s, sep).len() >= 1,
    decreases s.len(),
{
    if s.len() > 0 {
        lemma_split_on_nonempty(s.drop_last(), sep);
    }
}


proof fn lemma_trim_start_shape(s: Seq<char>)
    ensures
        trim_start(s).len() == 0 || !is_whitespace_char(trim_start(s)[0]),
    decreases s.len(),
{
    if s.len() > 0 && is_whitespace_char(s[0]) {
        lemma_trim_start_shape(s.drop_first());
    }
}

proof fn lemma_trim_end_shape(s: Seq<char>)
    ensures
        trim_end(s).len() <= s.len(),
        trim_end(s) == s.subrange(0, trim_end(s).len() as int),
        trim_end(s).len() == 0 || !is_whitespace_char(trim_end(s).last()),
    decreases s.len(),
{
    if s.len() > 0 && is_whitespace_char(s.last()) {
        lemma_trim_end_shape(s.drop_last());
        assert(s.drop_last().subrange(0, trim_end(s).len() as int) =~= s.subrange(0, trim_end(s).len() as int));
    } else {
        assert(s.subrange(0, s.len() as int) =~= s);
    }
}

/// Trimming a trimmed text changes nothing: it has no whitespace at either end.
pub proof fn lemma_trim_idempotent(s: Seq<char>)
    ensures
        trim(trim(s)) == trim(s),
        trim(s).len() == 0 || (!is_whitespace_char(trim(s)[0]) && !is_whitespace_char(trim(s).last())),
{
    let y = trim_start(s);
    let t = trim_end(y);
    lemma_trim_start_shape(s);
    lemma_trim_end_shape(y);
    if t.len() > 0 {
        assert(t[0] == y[0]);
    }
    // t starts with a non-whitespace character (or is empty), so trimming its start keeps it
    assert(trim_start(t) == t);
    // t ends with a non-whitespace character (or is empty), so trimming its end keeps it
    assert(trim_end(t) == t);
}

/// The words joined with `sep` between neighbours.
pub open spec fn join(words: Seq<Seq<char>>, sep: Seq<char>) -> Seq<char>
    decreases words.len(),
{
    if words.len() == 0 {
        Seq::empty()
    } else if words.len() == 1 {
        words[0]
    } else {
        join(words.drop_last(), sep) + sep + words.last()
    }
}

/// Joins the pieces with `sep` between neighbours.
pub fn join_strings(parts: &Vec<String>, sep: &str) -> (s: String)
    ensures
        s@ == join(parts@.map_values(|p: String| p@), sep@),
{
    let ghost views = parts@.map_values(|p: String| p@);
    let mut out = String::new();
    for i in 0..parts.len()
        invariant
            views == parts@.map_values(|p: String| p@),
            out@ == join(views.subrange(0, i as int), sep@),
    {
        let ghost prev = views.subrange(0, i as int);
        assert(views.subrange(0, i + 1).drop_last() == prev);
        assert(views.subrange(0, i + 1).last() == parts@[i as int]@);
        if i > 0 {
            out.append(sep);
        }
        out.append(parts[i].as_str());
        proof {
            if i == 0 {
                assert(views.subrange(0, 1).len() == 1);
                assert(Seq::<char>::empty() + parts@[0]@ == parts@[0]@);
            }
        }
    }
    assert(views.subrange(0, parts@.len() as int) == views);
    out
}

/// The bounds, within `lo..hi`, of the characters of `v[lo..hi]` without
/// leading and trailing whitespace.
pub fn trim_range(v: &Vec<char>, lo: usize, hi: usize) -> (r: (usize, usize))
    requires
        lo <= hi <= v@.len(),
    ensures
        lo <= r.0 <= r.1 <= hi,
        v@.subrange(r.0 as int, r.1 as int) == trim(v@.subrange(lo as int, hi as int)),
{
    let ghost s = v@.subrange(lo as int, hi as int);
    let mut i: usize = lo;
    while i < hi && is_whitespace(v[i])
        invariant
            lo <= i <= hi <= v@.len(),
            forall|j: int| lo <= j < i ==> is_whitespace_char(#[trigger] v@[j]),
        decreases hi - i,
    {
        i = i + 1;
    }
    proof {
        assert forall|j: int| 0 <= j < i - lo implies is_whitespace_char(#[trigger] s[j]) by {
            assert(s[j] == v@[j + lo]);
        }
        lemma_trim_start_skip(s, i - lo);
        assert(s.subrange(i - lo, s.len() as int) =~= v@.subrange(i as int, hi as int));
    }
    let ghost rest = v@.subrange(i as int, hi as int);
    assert(trim_start(rest) == rest);
    let mut k: usize = hi;
    while k > i && is_whitespace(v[k - 1])
        invariant
            lo <= i <= k <= hi <= v@.len(),
            forall|j: int| k <= j < hi ==> is_whitespace_char(#[trigger] v@[j]),
        decreases k,
    {
        k = k - 1;
    }
    proof {
        assert forall|j: int| k - i <= j < rest.len() implies is_whitespace_char(#[trigger] rest[j]) by {
            assert(rest[j] == v@[j + i]);
        }
        lemma_trim_end_drop(rest, k - i);
        assert(rest.subrange(0, k - i) =~= v@.subrange(i as int, k as int));
    }
    (i, k)
}

/// The position of the first `c` in `s` at or after `i`.
pub open spec fn index_of_from(s: Seq<char>, c: char, i: int) -> Option<int>
    decreases s.len() - i,
{
    if i < 0 || i >= s.len() {
        None
    } else if s[i] == c {
        Some(i)
    } else {
        index_of_from(s, c, i + 1)
    }
}

/// The position of the first `c` in `v[from..to]`, or `to` when there is none.
pub fn find_char(v: &Vec<char>, c: char, from: usize, to: usize) -> (p: usize)
    requires
        from <= to <= v@.len(),
    ensures
        from <= p <= to,
        p < to ==> index_of_from(v@.subrange(from as int, to as int), c, 0) == Some(p - from),
        p == to ==> index_of_from(v@.subrange(from as int, to as int), c, 0) is None,
{
    let ghost s = v@.subrange(from as int, to as int);
    let mut p: usize = from;
    while p < to && v[p] != c
        invariant
            from <= p <= to <= v@.len(),
            s == v@.subrange(from as int, to as int),
            index_of_from(s, c, 0) == index_of_from(s, c, p - from),
        decreases to - p,
    {
        assert(s[p - from] == v@[p as int]);
        p = p + 1;
    }
    if p < to {
        assert(s[p - from] == v@[p as int]);
    }
    p
}

/// The character of the decimal digit `d`.
pub open spec fn digit_char(d: int) -> char {
    if d == 0 {
        '0'
    } else if d == 1 {
        '1'
    } else if d == 2 {
        '2'
    } else if d == 3 {
        '3'
    } else if d == 4 {
        '4'
    } else if d == 5 {
        '5'
    } else if d == 6 {
        '6'
    } else if d == 7 {
        '7'
    } else if d == 8 {
        '8'
    } else {
        '9'
    }
}

/// `n` written in decimal, as `Display` writes an unsigned integer.
pub open spec fn decimal(n: nat) -> Seq<char>
    decreases n,
{
    if n < 10 {
        seq![digit_char(n as int)]
    } else {
        decimal(n / 10).push(digit_char((n % 10) as int))
    }
}

/// `x` written in decimal, with a leading `-` when it is negative.
pub open spec fn signed_decimal(x: int) -> Seq<char> {
    if x < 0 {
        seq!['-'] + decimal((-x) as nat)
    } else {
        decimal(x as nat)
    }
}

fn digit_str(d: u64) -> (s: &'static str)
    requires
        d < 10,
    ensures
        s@ == seq![digit_char(d as int)],
{
    if d == 0 {
        proof { reveal_strlit("0"); }
        "0"
    } else if d == 1 {
        proof { reveal_strlit("1"); }
        "1"
    } else if d == 2 {
        proof { reveal_strlit("2"); }
        "2"
    } else if d == 3 {
        proof { reveal_strlit("3"); }
        "3"
    } else if d == 4 {
        proof { reveal_strlit("4"); }
        "4"
    } else if d == 5 {
        proof { reveal_strlit("5"); }
        "5"
    } else if d == 6 {
        proof { reveal_strlit("6"); }
        "6"
    } else if d == 7 {
        proof { reveal_strlit("7"); }
        "7"
    } else if d == 8 {
        proof { reveal_strlit("8"); }
        "8"
    } else {
        proof { reveal_strlit("9"); }
        "9"
    }
}

/// Appends `n` in decimal to `out`.
pub fn append_decimal(out: &mut String, n: u64)
    ensures
        final(out)@ == old(out)@ + decimal(n as nat),
    decreases n,
{
    if n >= 10 {
        append_decimal(out, n / 10);
    }
    out.append(digit_str(n % 10));
    proof {
        if n >= 10 {
            assert(old(out)@ + decimal((n / 10) as nat) + seq![digit_char((n % 10) as int)] =~= old(out)@
                + decimal(n as nat));
        } else {
            assert(n % 10 == n);
        }
    }
}

/// Appends `x` in decimal to `out`, with a leading `-` when it is negative.
pub fn append_signed_decimal(out: &mut String, x: i32)
    ensures
        final(out)@ == old(out)@ + signed_decimal(x as int),
{
    if x < 0 {
        proof { reveal_strlit("-"); }
        out.append("-");
        let m: i64 = -(x as i64);
        append_decimal(out, m as u64);
        assert(old(out)@ + seq!['-'] + decimal((-x) as nat) =~= old(out)@ + (seq!['-'] + decimal((-x) as nat)));
    } else {
        append_decimal(out, x as u64);
    }
}


/// `s` with every occurrence of the non-empty `pat` replaced by `rep`,
/// occurrences taken from the left without overlapping.
pub open spec fn replace_all_spec(s: Seq<char>, pat: Seq<char>, rep: Seq<char>) -> Seq<char>
    decreases s.len(),
{
    if s.len() == 0 {
        Seq::empty()
    } else if 0 < pat.len() <= s.len() && s.take(pat.len() as int) == pat {
        rep + replace_all_spec(s.skip(pat.len() as int), pat, rep)
    } else {
        seq![s[0]] + replace_all_spec(s.skip(1), pat, rep)
    }
}

/// Whether `pat` occurs in `v` at position `i`.
fn occurs_at(v: &Vec<char>, pat: &Vec<char>, i: usize) -> (b: bool)
    requires
        i <= v@.len(),
    ensures
        b == (pat@.len() <= v@.len() - i && v@.skip(i as int).take(pat@.len() as int) == pat@),
{
    let m = pat.len();
    let n = v.len();
    if m > n - i {
        return false;
    }
    let mut k: usize = 0;
    while k < m
        invariant
            m == pat@.len(),
            n == v@.len(),
            i <= v@.len(),
            m <= v@.len() - i,
            k <= m,
            forall|j: int| 0 <= j < k ==> v@[i + j] == pat@[j],
        decreases m - k,
    {
        assert(i + k < v@.len());
        if v[i + k] != pat[k] {
            assert(v@.skip(i as int).take(m as int)[k as int] != pat@[k as int]);
            return false;
        }
        k = k + 1;
    }
    assert(v@.skip(i as int).take(m as int) =~= pat@);
    true
}

/// `s` with every occurrence of `pat` replaced by `rep`, as `str::replace`
/// does for a non-empty pattern.
pub fn replace_all(s: &str, pat: &str, rep: &str) -> (r: String)
    requires
        pat@.len() > 0,
    ensures
        r@ == replace_all_spec(s@, pat@, rep@),
{
    let v = chars_of(s);
    let p = chars_of(pat);
    let n = v.len();
    let m = p.len();
    let mut out = String::new();
    let mut seg: usize = 0;
    let mut i: usize = 0;
    assert(s@.skip(0) =~= s@);
    assert(out@ + s@.subrange(0, 0) =~= Seq::<char>::empty());
    while i < n
        invariant
            v@ == s@,
            p@ == pat@,
            n == s@.len(),
            m == pat@.len(),
            m > 0,
            seg <= i <= n,
            replace_all_spec(s@, pat@, rep@) == out@ + s@.subrange(seg as int, i as int)
                + replace_all_spec(s@.skip(i as int), pat@, rep@),
        decreases n - i,
    {
        let ghost rest = s@.skip(i as int);
        if occurs_at(&v, &p, i) {
            assert(rest.take(m as int) == pat@);
            assert(rest.skip(m as int) =~= s@.skip(i + m));
            out.append(s.substring_char(seg, i));
            out.append(rep);
            assert(s@.subrange((i + m) as int, (i + m) as int) =~= Seq::<char>::empty());
            i = i + m;
            seg = i;
        } else {
            assert(rest.skip(1) =~= s@.skip(i + 1));
            assert(rest[0] == s@[i as int]);
            assert(s@.subrange(seg as int, i + 1) =~= s@.subrange(seg as int, i as int).push(s@[i as int]));
            i = i + 1;
        }
    }
    assert(s@.skip(n as int) =~= Seq::<char>::empty());
    out.append(s.substring_char(seg, n));
    out
}

} // verus!
