use vstd::prelude::*;
use colored::Colorize;
use crate::text::{chars_of, replace_all, replace_all_spec};

verus! {

/// The severity of a log message, most severe first.
#[derive(Debug, Clone, Copy, PartialEq, Eq, Structural)]
pub enum LogLevel {
    Error,
    Warn,
    Info,
    Debug,
    Trace,
}

/// The rank of a level: lower is more severe.
pub open spec fn rank(l: LogLevel) -> int {
    match l {
        LogLevel::Error => 1,
        LogLevel::Warn => 2,
        LogLevel::Info => 3,
        LogLevel::Debug => 4,
        LogLevel::Trace => 5,
    }
}

/// Whether a message of `level` is shown: quiet mode shows up to info,
/// verbose mode everything, otherwise up to debug.
pub fn level_enabled(quiet: bool, verbose: bool, level: LogLevel) -> (b: bool)
    ensures
        b == if quiet {
            rank(level) <= 3
        } else if verbose {
            true
        } else {
            rank(level) <= 4
        },
{
    let r: u8 = match level {
        LogLevel::Error => 1,
        LogLevel::Warn => 2,
        LogLevel::Info => 3,
        LogLevel::Debug => 4,
        LogLevel::Trace => 5,
    };
    if quiet {
        r <= 3
    } else if verbose {
        r <= 5
    } else {
        r <= 4
    }
}

/// The tag that starts a log line of `level`.
pub open spec fn spec_level_tag(level: LogLevel) -> Seq<char> {
    match level {
        LogLevel::Error => "[E]"@,
        LogLevel::Warn => "[W]"@,
        LogLevel::Info => "[I]"@,
        LogLevel::Debug => "[D]"@,
        LogLevel::Trace => "[T]"@,
    }
}

/// The tag that starts a log line.
pub fn level_tag(level: LogLevel) -> (s: &'static str)
    ensures
        s@ == spec_level_tag(level),
{
    match level {
        LogLevel::Error => "[E]",
        LogLevel::Warn => "[W]",
        LogLevel::Info => "[I]",
        LogLevel::Debug => "[D]",
        LogLevel::Trace => "[T]",
    }
}

/// Where the last `::` of `s` ends, or 0 when there is none.
pub open spec fn last_segment_start(s: Seq<char>) -> int
    decreases s.len(),
{
    if s.len() < 2 {
        0
    } else if s[s.len() - 2] == ':' && s[s.len() - 1] == ':' {
        s.len() as int
    } else {
        last_segment_start(s.drop_last())
    }
}

/// The part of a module path after its last `::`.
pub open spec fn spec_short_target(s: Seq<char>) -> Seq<char> {
    s.subrange(last_segment_start(s), s.len() as int)
}

proof fn lemma_segment_start_range(s: Seq<char>)
    ensures
        0 <= last_segment_start(s) <= s.len(),
    decreases s.len(),
{
    if s.len() >= 2 && !(s[s.len() - 2] == ':' && s[s.len() - 1] == ':') {
        lemma_segment_start_range(s.drop_last());
    }
}

/// The part of a log target after its last `::`, the whole target when it has none.
pub fn short_target(target: &str) -> (r: String)
    ensures
        r@ == spec_short_target(target@),
{
    let v = chars_of(target);
    let n = v.len();
    let mut k: usize = n;
    assert(target@.subrange(0, n as int) =~= target@);
    // look for the last "::" from the end
    while k >= 2 && !(v[k - 2] == ':' && v[k - 1] == ':')
        invariant
            n == v@.len(),
            v@ == target@,
            k <= n,
            last_segment_start(target@) == last_segment_start(target@.subrange(0, k as int)),
        decreases k,
    {
        assert(target@.subrange(0, k as int).drop_last() =~= target@.subrange(0, k - 1));
        k = k - 1;
    }
    let start = if k >= 2 {
        assert(target@.subrange(0, k as int)[k - 2] == v@[k - 2]);
        assert(target@.subrange(0, k as int)[k - 1] == v@[k - 1]);
        k
    } else {
        0
    };
    target.substring_char(start, n).to_owned()
}

/// The palette slot each log target gets: targets are given slots in the
/// order they first appear, cycling through the palette.
#[derive(Debug, Clone)]
pub struct TargetColors {
    pub targets: Vec<String>,
    pub palette_size: usize,
}

impl TargetColors {
    pub fn new(palette_size: usize) -> (t: TargetColors)
        ensures
            t.targets@.len() == 0,
            t.palette_size == palette_size,
    {
        TargetColors { targets: Vec::new(), palette_size }
    }

    /// The palette slot of `target`, giving it the next slot when it is new.
    pub fn color_for(&mut self, target: &String) -> (slot: usize)
        requires
            old(self).palette_size > 0,
        ensures
            final(self).palette_size == old(self).palette_size,
            slot < old(self).palette_size,
            match index_of_target(old(self).targets@, target@, 0) {
                Some(i) => final(self).targets@ == old(self).targets@ && slot == i % old(self).palette_size as int,
                None => final(self).targets@ == old(self).targets@.push(*target) && slot
                    == (old(self).targets@.len() as int) % (old(self).palette_size as int),
            },
    {
        let n = self.targets.len();
        let mut i: usize = 0;
        while i < n
            invariant
                n == self.targets@.len(),
                self.palette_size > 0,
                i <= n,
                index_of_target(self.targets@, target@, 0) == index_of_target(self.targets@, target@, i as int),
            decreases n - i,
        {
            if self.targets[i] == *target {
                return i % self.palette_size;
            }
            i = i + 1;
        }
        self.targets.push(target.clone());
        n % self.palette_size
    }
}

/// The first position of `t` among `targets`, from `k` on.
pub open spec fn index_of_target(targets: Seq<String>, t: Seq<char>, k: int) -> Option<int>
    decreases targets.len() - k,
{
    if k < 0 || k >= targets.len() {
        None
    } else if targets[k]@ == t {
        Some(k)
    } else {
        index_of_target(targets, t, k + 1)
    }
}

/// A log line: the tag, a space, the target part followed by a space when
/// there is one, a space, and the message.
pub open spec fn spec_log_line(tag: Seq<char>, target: Seq<char>, message: Seq<char>) -> Seq<char> {
    tag + " "@ + target + (if target.len() > 0 {
        " "@
    } else {
        Seq::empty()
    }) + " "@ + message
}

/// The target part of a plain log line: the last segment of the target in
/// brackets, nothing for an empty target.
pub open spec fn plain_target(target: Seq<char>) -> Seq<char> {
    if target.len() == 0 {
        Seq::empty()
    } else {
        "["@ + spec_short_target(target) + "]"@
    }
}

/// Assembles a log line from its tag, its target part and its message.
pub fn log_line(tag: &str, target: &str, message: &str) -> (r: String)
    ensures
        r@ == spec_log_line(tag@, target@, message@),
{
    let mut out = tag.to_owned();
    out.append(" ");
    out.append(target);
    if target.unicode_len() > 0 {
        out.append(" ");
    } else {
        assert(out@ + Seq::<char>::empty() =~= out@);
    }
    out.append(" ");
    out.append(message);
    out
}

/// The log line written to the log file: the level's tag, the last segment
/// of the target in brackets, and the message, without colours.
pub fn format_log_plain(level: LogLevel, target: &str, message: &str) -> (r: String)
    ensures
        r@ == spec_log_line(spec_level_tag(level), plain_target(target@), message@),
{
    let tag = level_tag(level);
    if target.unicode_len() == 0 {
        proof {
            reveal_strlit("");
        }
        log_line(tag, "", message)
    } else {
        let mut bracketed = "[".to_owned();
        let short = short_target(target);
        bracketed.append(short.as_str());
        bracketed.append("]");
        log_line(tag, bracketed.as_str(), message)
    }
}

proof fn lemma_index_after_push(s: Seq<String>, x: String, t: Seq<char>, k: int)
    requires
        0 <= k <= s.len(),
        index_of_target(s, t, k) is None,
        x@ == t,
    ensures
        index_of_target(s.push(x), t, k) == Some(s.len() as int),
    decreases s.len() - k,
{
    if k < s.len() {
        assert(s.push(x)[k] == s[k]);
        lemma_index_after_push(s, x, t, k + 1);
    } else {
        assert(s.push(x)[k] == x);
    }
}

/// A target keeps the palette slot it was given: asking again, after the
/// first answer, gives the same slot.
pub proof fn lemma_target_keeps_color(targets: Seq<String>, t: String, palette: int)
    requires
        palette > 0,
    ensures
        ({
            let (after, slot) = match index_of_target(targets, t@, 0) {
                Some(i) => (targets, i % palette),
                None => (targets.push(t), (targets.len() as int) % palette),
            };
            index_of_target(after, t@, 0) matches Some(j) && j % palette == slot
        }),
{
    if index_of_target(targets, t@, 0) is None {
        lemma_index_after_push(targets, t, t@, 0);
    }
}


/// A terminal colour for log output.
#[derive(Debug, Clone, Copy, PartialEq, Eq, Structural)]
pub enum LogColor {
    Red,
    Green,
    Yellow,
    Blue,
    Magenta,
    Cyan,
    White,
}

/// The number of colours log targets cycle through.
pub const PALETTE_SIZE: usize = 6;

/// The colour of palette slot `slot`: green, yellow, blue, magenta, cyan and
/// purple (which terminals show as magenta).
pub open spec fn palette_color(slot: int) -> LogColor {
    if slot == 0 {
        LogColor::Green
    } else if slot == 1 {
        LogColor::Yellow
    } else if slot == 2 {
        LogColor::Blue
    } else if slot == 3 {
        LogColor::Magenta
    } else if slot == 4 {
        LogColor::Cyan
    } else {
        LogColor::Magenta
    }
}

fn palette_entry(slot: usize) -> (c: LogColor)
    ensures
        c == palette_color(slot as int),
{
    match slot {
        0 => LogColor::Green,
        1 => LogColor::Yellow,
        2 => LogColor::Blue,
        3 => LogColor::Magenta,
        4 => LogColor::Cyan,
        _ => LogColor::Magenta,
    }
}

/// The colour of a level's tag: red for errors, yellow for warnings, green
/// for information, blue for debugging and white for tracing.
pub open spec fn tag_color(level: LogLevel) -> LogColor {
    match level {
        LogLevel::Error => LogColor::Red,
        LogLevel::Warn => LogColor::Yellow,
        LogLevel::Info => LogColor::Green,
        LogLevel::Debug => LogColor::Blue,
        LogLevel::Trace => LogColor::White,
    }
}

fn tag_color_of(level: LogLevel) -> (c: LogColor)
    ensures
        c == tag_color(level),
{
    match level {
        LogLevel::Error => LogColor::Red,
        LogLevel::Warn => LogColor::Yellow,
        LogLevel::Info => LogColor::Green,
        LogLevel::Debug => LogColor::Blue,
        LogLevel::Trace => LogColor::White,
    }
}

/// The terminal's code for a foreground colour.
pub open spec fn fg_code(c: LogColor) -> Seq<char> {
    match c {
        LogColor::Red => seq!['3', '1'],
        LogColor::Green => seq!['3', '2'],
        LogColor::Yellow => seq!['3', '3'],
        LogColor::Blue => seq!['3', '4'],
        LogColor::Magenta => seq!['3', '5'],
        LogColor::Cyan => seq!['3', '6'],
        LogColor::White => seq!['3', '7'],
    }
}

/// The escape sequence that selects the styles `codes`.
pub open spec fn ansi_open(codes: Seq<char>) -> Seq<char> {
    seq!['\u{1b}', '['] + codes + seq!['m']
}

/// The escape sequence that selects colour `c`.
pub open spec fn fg_open(c: LogColor) -> Seq<char> {
    ansi_open(fg_code(c))
}

/// The escape sequence that selects bold text in colour `c`.
pub open spec fn bold_open(c: LogColor) -> Seq<char> {
    ansi_open(seq!['1', ';'] + fg_code(c))
}

/// The escape sequence that selects dimmed text.
pub open spec fn dim_open() -> Seq<char> {
    ansi_open(seq!['2'])
}

/// The escape sequence that clears all styles.
pub open spec fn ansi_reset() -> Seq<char> {
    ansi_open(seq!['0'])
}

/// `s` with `open` put back after every reset inside it, so that text
/// styled within it does not end the outer style.
pub open spec fn escape_resets(s: Seq<char>, open: Seq<char>) -> Seq<char>
    decreases s.len(),
{
    if s.len() == 0 {
        Seq::empty()
    } else if s.len() >= 4 && s.take(4) == ansi_reset() {
        ansi_reset() + open + escape_resets(s.skip(4), open)
    } else {
        seq![s[0]] + escape_resets(s.skip(1), open)
    }
}

/// `r` is `text` shown with the style that `open` selects: the text itself
/// when the terminal gets no colours, otherwise the text between `open` and
/// a reset, with `open` put back after each reset inside the text.
pub open spec fn painted(text: Seq<char>, open: Seq<char>, r: Seq<char>) -> bool {
    r == text || r == open + escape_resets(text, open) + ansi_reset()
}

/// Paints `text` in `color`.
///
/// Calls `colored::Colorize::color` and shows the result with `to_string`.
/// Whether colours are used depends on the environment (`CLICOLOR`,
/// `CLICOLOR_FORCE`, whether output is a terminal), so the contract states
/// both outcomes; with colours the text is wrapped in the colour's escape
/// sequence and a reset, as colored's `Display` writes it.
#[verifier::external_body]
fn paint(text: &str, color: LogColor) -> (r: String)
    ensures
        painted(text@, fg_open(color), r@),
{
    let c = match color {
        LogColor::Red => colored::Color::Red,
        LogColor::Green => colored::Color::Green,
        LogColor::Yellow => colored::Color::Yellow,
        LogColor::Blue => colored::Color::Blue,
        LogColor::Magenta => colored::Color::Magenta,
        LogColor::Cyan => colored::Color::Cyan,
        LogColor::White => colored::Color::White,
    };
    text.color(c).to_string()
}

/// Paints `text` bold in `color`.
///
/// Calls `colored::Colorize::color` and `bold` and shows the result with
/// `to_string`; the two outcomes are as for `paint`, with the bold style
/// (code 1) before the colour code.
#[verifier::external_body]
fn paint_bold(text: &str, color: LogColor) -> (r: String)
    ensures
        painted(text@, bold_open(color), r@),
{
    let c = match color {
        LogColor::Red => colored::Color::Red,
        LogColor::Green => colored::Color::Green,
        LogColor::Yellow => colored::Color::Yellow,
        LogColor::Blue => colored::Color::Blue,
        LogColor::Magenta => colored::Color::Magenta,
        LogColor::Cyan => colored::Color::Cyan,
        LogColor::White => colored::Color::White,
    };
    text.color(c).bold().to_string()
}

/// Dims `text`.
///
/// Calls `colored::Colorize::dimmed` and shows the result with `to_string`;
/// the two outcomes are as for `paint`, with the dimmed style (code 2).
#[verifier::external_body]
fn dim(text: &str) -> (r: String)
    ensures
        painted(text@, dim_open(), r@),
{
    text.dimmed().to_string()
}

/// `tp` is the target part of a terminal log line: `short` painted in
/// `color`, dimmed, in brackets.
pub open spec fn colored_target_part(short: Seq<char>, color: LogColor, tp: Seq<char>) -> bool {
    exists|g: Seq<char>, d: Seq<char>|
        #![trigger painted(short, fg_open(color), g), painted(g, dim_open(), d)]
        painted(short, fg_open(color), g) && painted(g, dim_open(), d)
            && tp == seq!['['] + d + seq![']']
}

/// `r` is the terminal form of `line`: errors and warnings are painted bold
/// red and bold yellow whole; other levels have each occurrence of their tag
/// painted bold in the tag's colour.
pub open spec fn colored_line(level: LogLevel, line: Seq<char>, r: Seq<char>) -> bool {
    match level {
        LogLevel::Error => painted(line, bold_open(LogColor::Red), r),
        LogLevel::Warn => painted(line, bold_open(LogColor::Yellow), r),
        _ => exists|ct: Seq<char>| #[trigger]
            painted(spec_level_tag(level), bold_open(tag_color(level)), ct)
                && r == replace_all_spec(line, spec_level_tag(level), ct),
    }
}

/// The palette slot `target` gets from the table `targets`: its own slot when
/// it is there, the next one otherwise.
pub open spec fn slot_for(targets: Seq<String>, target: Seq<char>, palette: int) -> int {
    match index_of_target(targets, target, 0) {
        Some(i) => i % palette,
        None => (targets.len() as int) % palette,
    }
}

/// The log line shown on the terminal for a message of `level` from
/// `target`: the level's tag, the last segment of the target (painted in its
/// palette colour and dimmed, in brackets; nothing for an empty target) and
/// the message, with the whole line bold red for errors and bold yellow for
/// warnings, and only the tag coloured otherwise. A new target is added to
/// the colour table.
pub fn format_log(level: LogLevel, target: &str, message: &str, colors: &mut TargetColors) -> (r: String)
    requires
        old(colors).palette_size == PALETTE_SIZE,
    ensures
        final(colors).palette_size == PALETTE_SIZE,
        target@.len() == 0 ==> final(colors).targets@ == old(colors).targets@,
        target@.len() > 0 ==> match index_of_target(old(colors).targets@, spec_short_target(target@), 0) {
            Some(_) => final(colors).targets@ == old(colors).targets@,
            None => final(colors).targets@.len() == old(colors).targets@.len() + 1
                && final(colors).targets@.drop_last() == old(colors).targets@
                && final(colors).targets@.last()@ == spec_short_target(target@),
        },
        exists|tp: Seq<char>| #![trigger spec_log_line(spec_level_tag(level), tp, message@)]
            (if target@.len() == 0 {
                tp.len() == 0
            } else {
                colored_target_part(
                    spec_short_target(target@),
                    palette_color(slot_for(old(colors).targets@, spec_short_target(target@), PALETTE_SIZE as int)),
                    tp,
                )
            }) && colored_line(level, spec_log_line(spec_level_tag(level), tp, message@), r@),
{
    let tag = level_tag(level);
    let tp = if target.unicode_len() == 0 {
        String::new()
    } else {
        let short = short_target(target);
        let slot = colors.color_for(&short);
        let g = paint(short.as_str(), palette_entry(slot));
        let d = dim(g.as_str());
        let mut tp = "[".to_owned();
        tp.append(d.as_str());
        tp.append("]");
        proof {
            reveal_strlit("[");
            reveal_strlit("]");
            assert(painted(short@, fg_open(palette_color(slot as int)), g@));
            assert(painted(g@, dim_open(), d@));
            assert(tp@ =~= seq!['['] + d@ + seq![']']);
        }
        tp
    };
    let line = log_line(tag, tp.as_str(), message);
    let r = match level {
        LogLevel::Error => paint_bold(line.as_str(), LogColor::Red),
        LogLevel::Warn => paint_bold(line.as_str(), LogColor::Yellow),
        _ => {
            let ct = paint_bold(tag, tag_color_of(level));
            proof {
                reveal_strlit("[I]");
                reveal_strlit("[D]");
                reveal_strlit("[T]");
                assert(painted(spec_level_tag(level), bold_open(tag_color(level)), ct@));
            }
            replace_all(line.as_str(), tag, ct.as_str())
        },
    };
    proof {
        assert(colored_line(level, spec_log_line(spec_level_tag(level), tp@, message@), r@));
    }
    r
}

} // verus!
