//! The log card: entries, their time stamps, and scrolling through them.
use crate::clock::unix_now_millis;
use crate::text::{
    decimal_int, has_prefix, push_char, push_i64, split_char, split_on_char, strip_prefix, trim_end,
    trimmed_end, views,
};
use vstd::prelude::*;

verus! {

/// A log entry as the card shows it: when (UNIX milliseconds), who sent it,
/// the text, and whether it reports an error.
#[derive(Debug, Clone)]
pub struct UiLogEntry<S> {
    pub timestamp_ms: u128,
    pub sender: S,
    pub message: String,
    pub is_error: bool,
}

/// A log entry as it is recorded.
#[derive(Debug, Clone)]
pub struct LogEntry<S> {
    pub timestamp_ms: u128,
    pub sender: S,
    pub message: String,
    pub is_error: bool,
}

impl<S> LogEntry<S> {
    /// An entry recorded now.
    pub fn new(sender: S, message: String, is_error: bool) -> (r: Self)
        ensures
            r.sender == sender,
            r.message@ == message@,
            r.is_error == is_error,
    {
        Self::new_at(sender, message, is_error, unix_now_millis())
    }

    /// An entry recorded at `timestamp_ms`.
    pub fn new_at(sender: S, message: String, is_error: bool, timestamp_ms: u128) -> (r: Self)
        ensures
            r.sender == sender,
            r.message@ == message@,
            r.is_error == is_error,
            r.timestamp_ms == timestamp_ms,
    {
        LogEntry { timestamp_ms, sender, message, is_error }
    }
}

/// Rust's integer division, which rounds toward zero.
pub open spec fn tdiv(a: int, b: int) -> int {
    if a >= 0 {
        a / b
    } else {
        -((-a) / b)
    }
}

/// The remainder that goes with `tdiv`; it has the sign of `a`.
pub open spec fn trem(a: int, b: int) -> int {
    a - b * tdiv(a, b)
}

/// A number written with at least two characters, a leading zero padding a
/// single digit (`{:02}`).
pub open spec fn pad2(n: int) -> Seq<char> {
    if 0 <= n < 10 {
        seq!['0'] + decimal_int(n)
    } else {
        decimal_int(n)
    }
}

/// The time of day `HH:MM:SS` (UTC) of a count of seconds.
pub open spec fn clock_text(secs: int) -> Seq<char> {
    pad2(trem(tdiv(secs, 3600), 24)) + seq![':'] + pad2(trem(tdiv(secs, 60), 60)) + seq![':'] + pad2(
        trem(secs, 60),
    )
}

/// Appends `n` with at least two characters.
fn push_pad2(s: &mut String, n: i64)
    ensures
        final(s)@ == old(s)@ + pad2(n as int),
{
    if 0 <= n && n < 10 {
        push_char(s, '0');
        push_i64(s, n);
        assert(final(s)@ =~= old(s)@ + pad2(n as int));
    } else {
        push_i64(s, n);
    }
}

impl<S> UiLogEntry<S> {
    /// The card's copy of a recorded entry.
    pub fn from(entry: LogEntry<S>) -> (r: Self)
        ensures
            r.timestamp_ms == entry.timestamp_ms,
            r.sender == entry.sender,
            r.message@ == entry.message@,
            r.is_error == entry.is_error,
    {
        UiLogEntry {
            timestamp_ms: entry.timestamp_ms,
            sender: entry.sender,
            message: entry.message,
            is_error: entry.is_error,
        }
    }

    /// The time of day of the entry, `HH:MM:SS` (UTC); the seconds are the
    /// milliseconds over 1000 taken as an `i64`.
    pub fn format_timestamp(&self) -> (r: String)
        ensures
            r@ == clock_text(((self.timestamp_ms / 1000) as i64) as int),
    {
        #[verifier::truncate]
        let secs: i64 = (self.timestamp_ms / 1000) as i64;
        let hours = (secs / 3600) % 24;
        let minutes = (secs / 60) % 60;
        let seconds = secs % 60;
        let mut out = String::new();
        push_pad2(&mut out, hours);
        push_char(&mut out, ':');
        push_pad2(&mut out, minutes);
        push_char(&mut out, ':');
        push_pad2(&mut out, seconds);
        assert(out@ =~= clock_text(secs as int));
        out
    }
}

/// The columns a character takes: one for ASCII, two for others.
pub open spec fn char_width(c: char) -> int {
    if (c as u32) < 128 {
        1
    } else {
        2
    }
}

/// Where a line of at most `max` columns ends, scanning from character `i`
/// with `used` columns taken: before the first character that does not fit,
/// but after at least one character.
pub open spec fn first_over(s: Seq<char>, max: int, i: int, used: int) -> int
    decreases s.len() - i,
{
    if i < 0 || i >= s.len() {
        s.len() as int
    } else if used + char_width(s[i]) > max {
        if i == 0 {
            1
        } else {
            i
        }
    } else {
        first_over(s, max, i + 1, used + char_width(s[i]))
    }
}

/// How many characters of `s` go on a line `max` columns wide; all of them
/// when the width is 0.
pub open spec fn split_point(s: Seq<char>, max: int) -> int {
    if max == 0 {
        s.len() as int
    } else {
        first_over(s, max, 0, 0)
    }
}

proof fn lemma_first_over_range(s: Seq<char>, max: int, i: int, used: int)
    requires
        0 <= i,
    ensures
        s.len() > 0 ==> 1 <= first_over(s, max, i, used) <= s.len(),
        s.len() == 0 ==> first_over(s, max, i, used) == 0,
    decreases s.len() - i,
{
    if i < s.len() && used + char_width(s[i]) <= max {
        lemma_first_over_range(s, max, i + 1, used + char_width(s[i]));
    }
}

/// How many characters of `s` fit on a line `max` columns wide (at least
/// one).
pub fn find_split_point(s: &str, max_width: usize) -> (r: usize)
    ensures
        r == split_point(s@, max_width as int),
        s@.len() > 0 ==> 1 <= r <= s@.len(),
{
    let n = s.unicode_len();
    proof {
        lemma_first_over_range(s@, max_width as int, 0, 0);
    }
    if max_width == 0 {
        return n;
    }
    let mut used: usize = 0;
    let mut i: usize = 0;
    while i < n
        invariant
            n == s@.len(),
            i <= n,
            used <= max_width,
            max_width > 0,
            first_over(s@, max_width as int, 0, 0) == first_over(
                s@,
                max_width as int,
                i as int,
                used as int,
            ),
            i > 0 || used == 0,
        decreases n - i,
    {
        let c = s.get_char(i);
        let w: usize = if (c as u32) < 128 {
            1
        } else {
            2
        };
        if w > max_width - used {
            if i == 0 {
                return 1;
            }
            return i;
        }
        used = used + w;
        i = i + 1;
    }
    n
}

/// The pieces a non-empty segment is cut into: the first at most `first`
/// columns wide, the others at most `rest` columns wide.
pub open spec fn chunks(seg: Seq<char>, is_first: bool, first: int, rest: int) -> Seq<Seq<char>>
    decreases seg.len(),
{
    if seg.len() == 0 {
        Seq::empty()
    } else {
        let k = split_point(seg, if is_first { first } else { rest });
        if 1 <= k <= seg.len() {
            seq![seg.take(k)] + chunks(seg.skip(k), false, first, rest)
        } else {
            seq![seg]
        }
    }
}

/// The lines of one segment of a message: one empty line for an empty
/// segment.
pub open spec fn segment_lines(seg: Seq<char>, first: int, rest: int) -> Seq<Seq<char>> {
    if seg.len() == 0 {
        seq![Seq::empty()]
    } else {
        chunks(seg, true, first, rest)
    }
}

/// The lines of the first `k` segments.
pub open spec fn raw_lines(segs: Seq<Seq<char>>, k: int, first: int, rest: int) -> Seq<Seq<char>>
    decreases k,
{
    if k <= 0 {
        Seq::empty()
    } else {
        raw_lines(segs, k - 1, first, rest) + segment_lines(segs[k - 1], first, rest)
    }
}

/// The frame drawn before line `i` of `n`: a top corner on the first, a
/// bottom corner on the last of several, a bar between.
pub open spec fn frame(i: int, n: int) -> Seq<char> {
    if i == 0 {
        "┌ "@
    } else if i == n - 1 {
        "└ "@
    } else {
        "│ "@
    }
}

/// The lines of a log entry: its message cut at line breaks and to the
/// width (minus the frame, and minus one more column on the first line),
/// framed, the time stamp after the last line.
pub open spec fn wrapped(message: Seq<char>, stamp: Seq<char>, width: int) -> Seq<Seq<char>> {
    let first = if width >= 3 { width - 3 } else { 0 };
    let rest = if width >= 2 { width - 2 } else { 0 };
    let segs = split_char(message, '\n');
    let raw0 = raw_lines(segs, segs.len() as int, first, rest);
    let raw = if raw0.len() == 0 { seq![Seq::<char>::empty()] } else { raw0 };
    Seq::new(
        raw.len(),
        |i: int|
            frame(i, raw.len() as int) + raw[i] + if i == raw.len() - 1 && stamp.len() > 0 {
                seq![' '] + stamp
            } else {
                Seq::empty()
            },
    )
}

/// Appends the pieces of a non-empty segment.
fn push_chunks(out: &mut Vec<String>, seg: &str, first: usize, rest: usize)
    requires
        seg@.len() > 0,
    ensures
        views(final(out)@) == views(old(out)@) + chunks(seg@, true, first as int, rest as int),
{
    let n = seg.unicode_len();
    let mut pos: usize = 0;
    let mut is_first = true;
    assert(seg@.skip(0) =~= seg@);
    while pos < n
        invariant
            n == seg@.len(),
            pos <= n,
            is_first ==> pos == 0,
            views(out@) + chunks(seg@.skip(pos as int), is_first, first as int, rest as int) == views(
                old(out)@,
            ) + chunks(seg@, true, first as int, rest as int),
        decreases n - pos,
    {
        let remaining = seg.substring_char(pos, n);
        assert(remaining@ == seg@.skip(pos as int));
        let width = if is_first {
            first
        } else {
            rest
        };
        let k = find_split_point(remaining, width);
        let piece = String::from_str(remaining.substring_char(0, k));
        let ghost before = out@;
        out.push(piece);
        proof {
            assert(views(out@) =~= views(before).push(remaining@.take(k as int)));
            assert(seg@.skip(pos as int).skip(k as int) =~= seg@.skip(pos + k));
            assert(chunks(remaining@, is_first, first as int, rest as int) == seq![
                remaining@.take(k as int),
            ] + chunks(remaining@.skip(k as int), false, first as int, rest as int));
            assert(views(out@) + chunks(seg@.skip(pos + k), false, first as int, rest as int)
                =~= views(before) + chunks(remaining@, is_first, first as int, rest as int));
        }
        pos = pos + k;
        is_first = false;
    }
    assert(seg@.skip(n as int) =~= Seq::<char>::empty());
    assert(views(out@) =~= views(out@) + chunks(seg@.skip(n as int), is_first, first as int, rest as int));
}

impl<S> UiLogEntry<S> {
    /// The framed lines the entry takes on a card `available_width`
    /// columns wide, each with the entry's sender (which gives the colour of
    /// its frame) and whether the entry reports an error.
    pub fn wrap_entry(&self, available_width: usize) -> (r: Vec<(String, S, bool)>)
        where
            S: Copy,
        ensures
            r@.len() == wrapped(
                self.message@,
                clock_text(((self.timestamp_ms / 1000) as i64) as int),
                available_width as int,
            ).len(),
            forall|i: int|
                0 <= i < r@.len() ==> #[trigger] r@[i].0@ == wrapped(
                    self.message@,
                    clock_text(((self.timestamp_ms / 1000) as i64) as int),
                    available_width as int,
                )[i] && r@[i].1 == self.sender && r@[i].2 == self.is_error,
    {
        let lines = self.wrap_lines(available_width);
        let mut out: Vec<(String, S, bool)> = Vec::new();
        let mut i: usize = 0;
        while i < lines.len()
            invariant
                i <= lines@.len(),
                out@.len() == i,
                forall|k: int| #![trigger out@[k]] 0 <= k < i ==> out@[k].0@ == lines@[k]@,
                forall|k: int| #![trigger out@[k]] 0 <= k < i ==> out@[k].1 == self.sender,
                forall|k: int| #![trigger out@[k]] 0 <= k < i ==> out@[k].2 == self.is_error,
            decreases lines.len() - i,
        {
            let line = lines[i].clone();
            out.push((line, self.sender, self.is_error));
            i = i + 1;
        }
        proof {
            assert forall|k: int| 0 <= k < out@.len() implies #[trigger] out@[k].0@ == views(lines@)[k] by {
                assert(out@[k].0@ == lines@[k]@);
            }
        }
        out
    }

    /// The framed lines the entry takes on a card `available_width`
    /// columns wide.
    pub fn wrap_lines(&self, available_width: usize) -> (r: Vec<String>)
        ensures
            views(r@) == wrapped(
                self.message@,
                clock_text(((self.timestamp_ms / 1000) as i64) as int),
                available_width as int,
            ),
    {
        let timestamp = self.format_timestamp();
        let first: usize = if available_width >= 3 {
            available_width - 3
        } else {
            0
        };
        let rest: usize = if available_width >= 2 {
            available_width - 2
        } else {
            0
        };
        let segments = split_on_char(self.message.as_str(), '\n');
        let ghost segs = views(segments@);
        let mut raw: Vec<String> = Vec::new();
        let mut k: usize = 0;
        while k < segments.len()
            invariant
                k <= segments@.len(),
                segs == views(segments@),
                segs.len() == segments@.len(),
                views(raw@) == raw_lines(segs, k as int, first as int, rest as int),
            decreases segments.len() - k,
        {
            let seg = segments[k].as_str();
            assert(seg@ == segs[k as int]);
            let ghost before = raw@;
            if seg.unicode_len() == 0 {
                raw.push(String::new());
                assert(views(raw@) =~= views(before) + segment_lines(seg@, first as int, rest as int));
            } else {
                push_chunks(&mut raw, seg, first, rest);
            }
            k = k + 1;
        }
        if raw.len() == 0 {
            raw.push(String::new());
        }
        let ghost rawv = views(raw@);
        let n = raw.len();
        let mut result: Vec<String> = Vec::new();
        let mut i: usize = 0;
        let ghost want = wrapped(self.message@, timestamp@, available_width as int);
        assert(want.len() == n);
        while i < n
            invariant
                n == raw@.len(),
                n >= 1,
                i <= n,
                rawv == views(raw@),
                timestamp@.len() >= 0,
                want == Seq::new(
                    rawv.len(),
                    |j: int|
                        frame(j, rawv.len() as int) + rawv[j] + if j == rawv.len() - 1
                            && timestamp@.len() > 0 {
                            seq![' '] + timestamp@
                        } else {
                            Seq::empty()
                        },
                ),
                views(result@) == want.take(i as int),
            decreases n - i,
        {
            let mut line = if i == 0 {
                String::from_str("┌ ")
            } else if i + 1 == n {
                String::from_str("└ ")
            } else {
                String::from_str("│ ")
            };
            line.append(raw[i].as_str());
            if i + 1 == n && timestamp.unicode_len() > 0 {
                push_char(&mut line, ' ');
                line.append(timestamp.as_str());
            }
            proof {
                assert(rawv[i as int] == raw@[i as int]@);
                assert(line@ =~= want[i as int]);
            }
            let ghost before = result@;
            let ghost lv = line@;
            result.push(line);
            assert(views(result@) =~= views(before).push(lv));
            assert(want.take(i + 1) =~= want.take(i as int).push(want[i as int]));
            i = i + 1;
        }
        assert(want.take(n as int) =~= want);
        result
    }
}

/// The lines of an entry as shown on a card `width` columns wide.
pub open spec fn entry_lines<S>(e: UiLogEntry<S>, width: int) -> Seq<Seq<char>> {
    wrapped(e.message@, clock_text(((e.timestamp_ms / 1000) as i64) as int), width)
}

/// The lines of the first `k` entries, each with the position of its entry.
pub open spec fn all_lines<S>(entries: Seq<UiLogEntry<S>>, width: int, k: int) -> Seq<(Seq<char>, usize)>
    decreases k,
{
    if k <= 0 {
        Seq::empty()
    } else {
        all_lines(entries, width, k - 1) + entry_lines(entries[k - 1], width).map_values(
            |l: Seq<char>| (l, (k - 1) as usize),
        )
    }
}

/// The models of numbered lines.
pub open spec fn numbered_view(v: Seq<(String, usize)>) -> Seq<(Seq<char>, usize)> {
    v.map_values(|p: (String, usize)| (p.0@, p.1))
}

/// The lines of all entries on a card `width` columns wide, each with the
/// position of its entry.
pub fn build_all_lines<S>(entries: &Vec<UiLogEntry<S>>, width: usize) -> (r: Vec<(String, usize)>)
    ensures
        numbered_view(r@) == all_lines(entries@, width as int, entries@.len() as int),
{
    let mut lines: Vec<(String, usize)> = Vec::new();
    let mut e: usize = 0;
    while e < entries.len()
        invariant
            e <= entries@.len(),
            numbered_view(lines@) == all_lines(entries@, width as int, e as int),
        decreases entries.len() - e,
    {
        let wrapped_lines = entries[e].wrap_lines(width);
        let ghost start = numbered_view(lines@);
        let ghost w = entry_lines(entries@[e as int], width as int);
        assert(views(wrapped_lines@) == w);
        let mut j: usize = 0;
        while j < wrapped_lines.len()
            invariant
                e < entries@.len(),
                j <= wrapped_lines@.len(),
                w == views(wrapped_lines@),
                numbered_view(lines@) == start + w.take(j as int).map_values(
                    |l: Seq<char>| (l, e),
                ),
            decreases wrapped_lines.len() - j,
        {
            let ghost before = lines@;
            let line = wrapped_lines[j].clone();
            lines.push((line, e));
            assert(w[j as int] == wrapped_lines@[j as int]@);
            assert(numbered_view(lines@) =~= numbered_view(before).push((w[j as int], e)));
            assert(w.take(j + 1).map_values(|l: Seq<char>| (l, e)) =~= w.take(j as int).map_values(
                |l: Seq<char>| (l, e),
            ).push((w[j as int], e)));
            j = j + 1;
        }
        assert(w.take(w.len() as int) =~= w);
        assert(numbered_view(lines@) =~= all_lines(entries@, width as int, e + 1));
        e = e + 1;
    }
    lines
}

/// The frame at the start of a drawn line, and the rest of it.
pub open spec fn line_prefix_split(line: Seq<char>) -> (Seq<char>, Seq<char>) {
    if has_prefix(line, "└ "@) {
        ("└ "@, line.skip(2))
    } else if has_prefix(line, "│ "@) {
        ("│ "@, line.skip(2))
    } else if has_prefix(line, "┌ "@) {
        ("┌ "@, line.skip(2))
    } else {
        (Seq::empty(), line)
    }
}

/// Splits the frame off a drawn line.
pub fn split_line_prefix<'a>(line: &'a str) -> (r: (&'static str, &'a str))
    ensures
        (r.0@, r.1@) == line_prefix_split(line@),
{
    proof {
        reveal_strlit("└ ");
        reveal_strlit("│ ");
        reveal_strlit("┌ ");
        reveal_strlit("");
    }
    if let Some(rest) = strip_prefix(line, "└ ") {
        ("└ ", rest)
    } else if let Some(rest) = strip_prefix(line, "│ ") {
        ("│ ", rest)
    } else if let Some(rest) = strip_prefix(line, "┌ ") {
        ("┌ ", rest)
    } else {
        ("", line)
    }
}

/// The position of the last space in `s`, if any.
pub open spec fn last_space(s: Seq<char>) -> Option<int> {
    if exists|i: int| 0 <= i < s.len() && s[i] == ' ' {
        Some(choose|i: int| 0 <= i < s.len() && s[i] == ' ' && forall|j: int| i < j < s.len() ==> s[j] != ' ')
    } else {
        None
    }
}

/// Whether a word looks like a time stamp: eight bytes, a colon at bytes 2
/// and 5.
pub open spec fn stamp_like(bytes: Seq<u8>) -> bool {
    bytes.len() == 8 && bytes[2] == 58 && bytes[5] == 58
}

/// Splits the time stamp off the end of a drawn line: the text before the
/// last space (trailing whitespace trimmed) and the stamp with that space;
/// the line and nothing when its last word is no time stamp.
pub fn split_timestamp_suffix<'a>(line: &'a str) -> (r: (&'a str, &'a str))
    ensures
        match last_space(line@) {
            Some(i) => if stamp_like(vstd::utf8::encode_utf8(line@.skip(i + 1))) {
                r.0@ == trimmed_end(line@.take(i)) && r.1@ == line@.skip(i)
            } else {
                r.0@ == line@ && r.1@.len() == 0
            },
            None => r.0@ == line@ && r.1@.len() == 0,
        },
{
    proof {
        reveal_strlit("");
    }
    let n = line.unicode_len();
    let mut i: usize = n;
    while i > 0
        invariant
            i <= n,
            n == line@.len(),
            forall|j: int| i <= j < n ==> line@[j] != ' ',
        decreases i,
    {
        if line.get_char(i - 1) == ' ' {
            let idx = i - 1;
            proof {
                assert(last_space(line@) == Some(idx as int)) by {
                    let k = choose|k: int| 0 <= k < line@.len() && line@[k] == ' ' && forall|j: int|
                        k < j < line@.len() ==> line@[j] != ' ';
                    assert(0 <= idx < line@.len() && line@[idx as int] == ' ');
                    if k < idx {
                        assert(line@[idx as int] != ' ');
                    }
                    if k > idx {
                        assert(line@[k] != ' ');
                    }
                }
            }
            let word = line.substring_char(idx + 1, n);
            let bytes = word.as_bytes();
            assert(word@ =~= line@.skip(idx + 1));
            assert(bytes@ == vstd::utf8::encode_utf8(word@));
            if word.len() == 8 && bytes[2] == 58u8 && bytes[5] == 58u8 {
                let content = trim_end(line.substring_char(0, idx));
                let stamp = line.substring_char(idx, n);
                assert(stamp@.len() > 0);
                assert(line@.subrange(0, idx as int) == line@.take(idx as int));
                return (content, stamp);
            }
            proof {
                reveal_strlit("");
            }
            return (line, "");
        }
        i = i - 1;
    }
    proof {
        assert(!(exists|k: int| 0 <= k < line@.len() && line@[k] == ' '));
    }
    (line, "")
}

/// A key press the log card reacts to.
#[derive(Debug, Clone, Copy, PartialEq, Eq, Structural)]
pub enum CardKey {
    Enter,
    Char(char),
    Up,
    Down,
    Home,
    End,
    Other,
}

/// The scrolling state of the log card: whether it has the focus, whether
/// the arrow keys scroll it, how many lines it is scrolled back from the
/// newest, and the line count and height it last saw.
#[derive(Debug)]
pub struct LogCard {
    focused: bool,
    selected: bool,
    scroll_offset: usize,
    last_total_lines: usize,
    last_visible_height: usize,
}

/// The log card's state as plain values.
pub struct LogCardModel {
    pub focused: bool,
    pub selected: bool,
    pub scroll_offset: nat,
    pub last_total_lines: nat,
    pub last_visible_height: nat,
}

impl View for LogCard {
    type V = LogCardModel;

    closed spec fn view(&self) -> LogCardModel {
        LogCardModel {
            focused: self.focused,
            selected: self.selected,
            scroll_offset: self.scroll_offset as nat,
            last_total_lines: self.last_total_lines as nat,
            last_visible_height: self.last_visible_height as nat,
        }
    }
}

/// The lines shown for `total` lines, `visible` rows and a scroll offset:
/// the newest `visible` lines, moved back by the offset as far as there are
/// older lines.
pub open spec fn view_window(offset: nat, total: nat, visible: nat) -> (nat, nat) {
    if total <= visible {
        (0, total)
    } else {
        let max_offset = (total - visible) as nat;
        let clamped = if offset < max_offset { offset } else { max_offset };
        let end = (total - clamped) as nat;
        let start = if end >= visible { (end - visible) as nat } else { 0 };
        (start, end)
    }
}

/// How far the card can scroll back.
pub open spec fn max_offset(m: LogCardModel) -> nat {
    if m.last_total_lines > m.last_visible_height {
        (m.last_total_lines - m.last_visible_height) as nat
    } else {
        0
    }
}

/// Whether the card can scroll to older and to newer lines.
pub open spec fn title_hints(m: LogCardModel) -> (bool, bool) {
    if m.last_total_lines == 0 || m.last_total_lines <= m.last_visible_height {
        (false, false)
    } else {
        (m.scroll_offset < max_offset(m), m.scroll_offset > 0)
    }
}

/// The card's title: "Logs", with hints on the keys that scroll when the
/// card has the focus and can scroll.
pub open spec fn title_text(m: LogCardModel) -> Seq<char> {
    let (up, down) = title_hints(m);
    let older = if m.selected { "↑"@ } else { "j"@ };
    let newer = if m.selected { "↓"@ } else { "k"@ };
    if !m.focused || (!up && !down) {
        "Logs"@
    } else if up && down {
        "Logs ("@ + older + " older "@ + newer + " newer)"@
    } else if up {
        "Logs ("@ + older + " older)"@
    } else {
        "Logs ("@ + newer + " newer)"@
    }
}

/// The state after one step back to older lines.
pub open spec fn scrolled_up(m: LogCardModel) -> LogCardModel {
    LogCardModel {
        scroll_offset: if m.scroll_offset + 1 < max_offset(m) {
            (m.scroll_offset + 1) as nat
        } else {
            max_offset(m)
        },
        ..m
    }
}

/// The state after one step toward newer lines.
pub open spec fn scrolled_down(m: LogCardModel) -> LogCardModel {
    LogCardModel {
        scroll_offset: if m.scroll_offset > 0 {
            (m.scroll_offset - 1) as nat
        } else {
            0
        },
        ..m
    }
}

/// The state and whether the key was handled, for a key press that comes
/// when the card's entries make `total` lines.
pub open spec fn card_key(m0: LogCardModel, key: CardKey, total: nat) -> (LogCardModel, bool) {
    let m = LogCardModel { last_total_lines: total, ..m0 };
    let (up, down) = title_hints(m);
    let visible = if m.last_visible_height >= 1 { m.last_visible_height } else { 1 };
    match key {
        CardKey::Enter => (LogCardModel { selected: !m.selected, ..m }, true),
        CardKey::Char(c) => if c == ' ' {
            (LogCardModel { selected: !m.selected, ..m }, true)
        } else if c == 'j' || c == 'J' {
            (if up { scrolled_up(m) } else { m }, true)
        } else if c == 'k' || c == 'K' {
            (if down { scrolled_down(m) } else { m }, true)
        } else {
            (m, false)
        },
        CardKey::Up => if m.selected {
            (if up { scrolled_up(m) } else { m }, true)
        } else {
            (m, false)
        },
        CardKey::Down => if m.selected {
            (if down { scrolled_down(m) } else { m }, true)
        } else {
            (m, false)
        },
        CardKey::Home => (
            if m.last_total_lines > visible {
                LogCardModel { scroll_offset: (m.last_total_lines - visible) as nat, ..m }
            } else {
                m
            },
            true,
        ),
        CardKey::End => (LogCardModel { scroll_offset: 0, ..m }, true),
        CardKey::Other => (m, false),
    }
}

impl LogCard {
    #[verifier::type_invariant]
    spec fn fits(self) -> bool {
        &&& self.last_visible_height >= 1
        &&& self.scroll_offset < usize::MAX
    }

    /// A card without focus, scrolled to the newest line, ten rows high.
    pub fn new() -> (r: Self)
        ensures
            r@ == (LogCardModel {
                focused: false,
                selected: false,
                scroll_offset: 0,
                last_total_lines: 0,
                last_visible_height: 10,
            }),
    {
        LogCard {
            focused: false,
            selected: false,
            scroll_offset: 0,
            last_total_lines: 0,
            last_visible_height: 10,
        }
    }

    /// Whether the card has the focus.
    pub fn is_focused(&self) -> (r: bool)
        ensures
            r == self@.focused,
    {
        self.focused
    }

    /// Gives or takes the focus.
    pub fn focus(&mut self, f: bool)
        ensures
            final(self)@ == (LogCardModel { focused: f, ..old(self)@ }),
    {
        proof {
            use_type_invariant(&*self);
        }
        self.focused = f;
    }

    /// The first and one past the last line to show, out of `total_lines`
    /// lines on `visible_height` rows.
    pub fn calculate_view_window(&self, total_lines: usize, visible_height: usize) -> (r: (
        usize,
        usize,
    ))
        ensures
            (r.0 as nat, r.1 as nat) == view_window(
                self@.scroll_offset,
                total_lines as nat,
                visible_height as nat,
            ),
            r.0 <= r.1 <= total_lines,
            r.1 - r.0 == if total_lines <= visible_height {
                total_lines as int
            } else {
                visible_height as int
            },
    {
        if total_lines <= visible_height {
            return (0, total_lines);
        }
        let max_offset = total_lines - visible_height;
        let clamped_offset = if self.scroll_offset < max_offset {
            self.scroll_offset
        } else {
            max_offset
        };
        let end = total_lines - clamped_offset;
        let start = if end >= visible_height {
            end - visible_height
        } else {
            0
        };
        (start, end)
    }

    /// Whether the card can scroll to older and to newer lines.
    pub fn get_title_hints(&self) -> (r: (bool, bool))
        ensures
            r == title_hints(self@),
    {
        if self.last_total_lines == 0 || self.last_total_lines <= self.last_visible_height {
            return (false, false);
        }
        let max_offset = self.last_total_lines - self.last_visible_height;
        (self.scroll_offset < max_offset, self.scroll_offset > 0)
    }

    /// The card's title.
    pub fn build_title(&self) -> (r: String)
        ensures
            r@ == title_text(self@),
    {
        if !self.focused {
            return String::from_str("Logs");
        }
        let (can_up, can_down) = self.get_title_hints();
        if !can_up && !can_down {
            return String::from_str("Logs");
        }
        let older = if self.selected { "↑" } else { "j" };
        let newer = if self.selected { "↓" } else { "k" };
        let mut out = String::from_str("Logs (");
        if can_up && can_down {
            out.append(older);
            out.append(" older ");
            out.append(newer);
            out.append(" newer)");
        } else if can_up {
            out.append(older);
            out.append(" older)");
        } else {
            out.append(newer);
            out.append(" newer)");
        }
        out
    }

    /// One step back to older lines, no further than the oldest.
    pub fn scroll_up(&mut self)
        ensures
            final(self)@ == scrolled_up(old(self)@),
    {
        proof {
            use_type_invariant(&*self);
        }
        let max_offset = if self.last_total_lines > self.last_visible_height {
            self.last_total_lines - self.last_visible_height
        } else {
            0
        };
        let next = self.scroll_offset + 1;
        self.scroll_offset = if next < max_offset {
            next
        } else {
            max_offset
        };
    }

    /// One step toward the newest line, no further than it.
    pub fn scroll_down(&mut self)
        ensures
            final(self)@ == scrolled_down(old(self)@),
    {
        proof {
            use_type_invariant(&*self);
        }
        self.scroll_offset = if self.scroll_offset > 0 {
            self.scroll_offset - 1
        } else {
            0
        };
    }

    /// Handles a key press while the card's entries make `total_lines`
    /// lines; says whether the card handled it.
    pub fn interact(&mut self, key: CardKey, total_lines: usize) -> (handled: bool)
        ensures
            (final(self)@, handled) == card_key(old(self)@, key, total_lines as nat),
    {
        proof {
            use_type_invariant(&*self);
        }
        self.last_total_lines = total_lines;
        let visible_height = if self.last_visible_height >= 1 {
            self.last_visible_height
        } else {
            1
        };
        match key {
            CardKey::Enter => {
                self.selected = !self.selected;
                true
            },
            CardKey::Char(c) => {
                if c == ' ' {
                    self.selected = !self.selected;
                    true
                } else if c == 'j' || c == 'J' {
                    let (can_up, _) = self.get_title_hints();
                    if can_up {
                        self.scroll_up();
                    }
                    true
                } else if c == 'k' || c == 'K' {
                    let (_, can_down) = self.get_title_hints();
                    if can_down {
                        self.scroll_down();
                    }
                    true
                } else {
                    false
                }
            },
            CardKey::Up => {
                if self.selected {
                    let (can_up, _) = self.get_title_hints();
                    if can_up {
                        self.scroll_up();
                    }
                    true
                } else {
                    false
                }
            },
            CardKey::Down => {
                if self.selected {
                    let (_, can_down) = self.get_title_hints();
                    if can_down {
                        self.scroll_down();
                    }
                    true
                } else {
                    false
                }
            },
            CardKey::Home => {
                if self.last_total_lines > visible_height {
                    self.scroll_offset = self.last_total_lines - visible_height;
                }
                true
            },
            CardKey::End => {
                self.scroll_offset = 0;
                true
            },
            CardKey::Other => false,
        }
    }
}

/// Scrolling back one step and then forward one step returns to the same
/// lines, whenever there were older lines to go back to.
pub proof fn lemma_scroll_up_down(m: LogCardModel)
    requires
        title_hints(m).0,
    ensures
        scrolled_down(scrolled_up(m)) == m,
{
}

/// Scrolling never moves past the oldest line.
pub proof fn lemma_scroll_bounded(m: LogCardModel)
    requires
        m.scroll_offset <= max_offset(m),
    ensures
        scrolled_up(m).scroll_offset <= max_offset(scrolled_up(m)),
        scrolled_down(m).scroll_offset <= max_offset(scrolled_down(m)),
{
}

} // verus!
