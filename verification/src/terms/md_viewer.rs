//! Reading the Markdown of the legal documents into styled display lines.
use crate::text::{
    contains, count_leading_spaces, has_prefix, leading_spaces, lines, lines_of, matches_at,
    push_char, remove_all, removed_all, repeat_char, seq_contains, split_char, split_on_char,
    split_whitespace, strip_all_prefix, trim, trim_start, trim_start_matches, trimmed,
    trimmed_start, views, words,
};
use vstd::prelude::*;

verus! {

/// The look of a piece of a display line.
#[derive(Debug, Clone, Copy, PartialEq, Eq, Structural)]
pub enum Look {
    /// A code fence: dark grey.
    Fence,
    /// A line inside a code block: yellow.
    Code,
    /// A third-level heading: cyan, bold.
    Heading3,
    /// A second-level heading: light cyan, bold.
    Heading2,
    /// A first-level heading: grey, bold.
    Heading1,
    /// Unstyled text.
    Plain,
    /// Running text with the inline styles in force.
    Inline { bold: bool, underline: bool, code: bool },
    /// A table's header row: cyan, bold.
    TableHeader,
    /// A table row: green.
    TableRow,
    /// The rule under a table's header: dark grey.
    Divider,
}

/// A line of a document as shown: its styled pieces, and whether it scrolls
/// sideways (table lines do).
#[derive(Debug)]
pub struct DisplayLine {
    pub spans: Vec<(String, Look)>,
    pub scrollable: bool,
}

/// The pieces of a line as plain values.
pub open spec fn spans_view(v: Seq<(String, Look)>) -> Seq<(Seq<char>, Look)> {
    v.map_values(|p: (String, Look)| (p.0@, p.1))
}

/// A display line as plain values.
pub open spec fn display_view(d: DisplayLine) -> (Seq<(Seq<char>, Look)>, bool) {
    (spans_view(d.spans@), d.scrollable)
}

/// The styled pieces of running text from position `i` on, given the
/// styles in force, the text gathered so far and the pieces made so far:
/// `**` toggles bold, `__` underline, a backtick code; each toggle closes
/// the piece gathered before it.
pub open spec fn inline_from(
    s: Seq<char>,
    i: int,
    bold: bool,
    underline: bool,
    code: bool,
    buf: Seq<char>,
    spans: Seq<(Seq<char>, Look)>,
) -> Seq<(Seq<char>, Look)>
    decreases s.len() - i,
{
    let flushed = if buf.len() > 0 {
        spans.push((buf, Look::Inline { bold, underline, code }))
    } else {
        spans
    };
    if i < 0 || i >= s.len() {
        flushed
    } else if s[i] == '*' && i + 1 < s.len() && s[i + 1] == '*' {
        inline_from(s, i + 2, !bold, underline, code, Seq::empty(), flushed)
    } else if s[i] == '_' && i + 1 < s.len() && s[i + 1] == '_' {
        inline_from(s, i + 2, bold, !underline, code, Seq::empty(), flushed)
    } else if s[i] == '`' {
        inline_from(s, i + 1, bold, underline, !code, Seq::empty(), flushed)
    } else {
        inline_from(s, i + 1, bold, underline, code, buf.push(s[i]), spans)
    }
}

/// The styled pieces of a line of running text.
pub open spec fn inline_spans(s: Seq<char>) -> Seq<(Seq<char>, Look)> {
    inline_from(s, 0, false, false, false, Seq::empty(), Seq::empty())
}

/// A character that opens or closes a style.
pub open spec fn is_marker(c: char) -> bool {
    c == '*' || c == '_' || c == '`'
}

/// Pieces already made stay, in front of those made later.
proof fn lemma_inline_keeps_made(
    s: Seq<char>,
    i: int,
    bold: bool,
    underline: bool,
    code: bool,
    buf: Seq<char>,
    spans: Seq<(Seq<char>, Look)>,
)
    ensures
        spans.len() <= inline_from(s, i, bold, underline, code, buf, spans).len(),
        inline_from(s, i, bold, underline, code, buf, spans).subrange(0, spans.len() as int) == spans,
    decreases s.len() - i,
{
    let flushed = if buf.len() > 0 {
        spans.push((buf, Look::Inline { bold, underline, code }))
    } else {
        spans
    };
    assert(flushed.subrange(0, spans.len() as int) =~= spans);
    if i < 0 || i >= s.len() {
    } else if s[i] == '*' && i + 1 < s.len() && s[i + 1] == '*' {
        lemma_inline_keeps_made(s, i + 2, !bold, underline, code, Seq::empty(), flushed);
        let r = inline_from(s, i + 2, !bold, underline, code, Seq::empty(), flushed);
        assert(r.subrange(0, spans.len() as int) =~= r.subrange(0, flushed.len() as int).subrange(
            0,
            spans.len() as int,
        ));
    } else if s[i] == '_' && i + 1 < s.len() && s[i + 1] == '_' {
        lemma_inline_keeps_made(s, i + 2, bold, !underline, code, Seq::empty(), flushed);
        let r = inline_from(s, i + 2, bold, !underline, code, Seq::empty(), flushed);
        assert(r.subrange(0, spans.len() as int) =~= r.subrange(0, flushed.len() as int).subrange(
            0,
            spans.len() as int,
        ));
    } else if s[i] == '`' {
        lemma_inline_keeps_made(s, i + 1, bold, underline, !code, Seq::empty(), flushed);
        let r = inline_from(s, i + 1, bold, underline, !code, Seq::empty(), flushed);
        assert(r.subrange(0, spans.len() as int) =~= r.subrange(0, flushed.len() as int).subrange(
            0,
            spans.len() as int,
        ));
    } else {
        lemma_inline_keeps_made(s, i + 1, bold, underline, code, buf.push(s[i]), spans);
    }
}

/// A run of characters that are no markers is gathered as it stands.
proof fn lemma_inline_gathers_run(
    s: Seq<char>,
    i: int,
    k: int,
    bold: bool,
    underline: bool,
    code: bool,
    buf: Seq<char>,
    spans: Seq<(Seq<char>, Look)>,
)
    requires
        0 <= i <= k <= s.len(),
        forall|m: int| i <= m < k ==> !is_marker(#[trigger] s[m]),
    ensures
        inline_from(s, i, bold, underline, code, buf, spans) == inline_from(
            s,
            k,
            bold,
            underline,
            code,
            buf + s.subrange(i, k),
            spans,
        ),
    decreases k - i,
{
    if i < k {
        assert(!is_marker(s[i]));
        lemma_inline_gathers_run(s, i + 1, k, bold, underline, code, buf.push(s[i]), spans);
        assert(buf.push(s[i]) + s.subrange(i + 1, k) =~= buf + s.subrange(i, k));
    } else {
        assert(buf + s.subrange(i, k) =~= buf);
    }
}

/// The text in front of the first style marker (a backtick, `**` or `__`)
/// is a piece of its own in the plain look: a marker closes what was
/// gathered before it with the styles in force before it.
pub proof fn lemma_text_before_marker_is_plain(p: Seq<char>, marker: Seq<char>, rest: Seq<char>)
    requires
        p.len() > 0,
        forall|m: int| 0 <= m < p.len() ==> !is_marker(#[trigger] p[m]),
        marker == seq!['`'] || marker == seq!['*', '*'] || marker == seq!['_', '_'],
    ensures
        inline_spans(p + marker + rest).len() >= 1,
        inline_spans(p + marker + rest)[0] == (p, Look::Inline { bold: false, underline: false, code: false }),
{
    let s = p + marker + rest;
    let n = p.len() as int;
    assert forall|m: int| 0 <= m < n implies !is_marker(#[trigger] s[m]) by {
        assert(s[m] == p[m]);
    }
    lemma_inline_gathers_run(s, 0, n, false, false, false, Seq::empty(), Seq::empty());
    assert(Seq::<char>::empty() + s.subrange(0, n) =~= p);
    let plain = Look::Inline { bold: false, underline: false, code: false };
    let made = seq![(p, plain)];
    assert(Seq::<(Seq<char>, Look)>::empty().push((p, plain)) =~= made);
    assert(s[n] == marker[0]);
    assert(inline_spans(s) == inline_from(s, n, false, false, false, p, Seq::empty()));
    if marker == seq!['`'] {
        assert(s[n] == '`');
        assert(inline_from(s, n, false, false, false, p, Seq::empty()) == inline_from(
            s,
            n + 1,
            false,
            false,
            true,
            Seq::empty(),
            made,
        ));
        lemma_inline_keeps_made(s, n + 1, false, false, true, Seq::empty(), made);
    } else if marker == seq!['*', '*'] {
        assert(s[n] == '*' && s[n + 1] == '*');
        assert(inline_from(s, n, false, false, false, p, Seq::empty()) == inline_from(
            s,
            n + 2,
            true,
            false,
            false,
            Seq::empty(),
            made,
        ));
        lemma_inline_keeps_made(s, n + 2, true, false, false, Seq::empty(), made);
    } else {
        assert(s[n] == '_' && s[n + 1] == '_');
        assert(inline_from(s, n, false, false, false, p, Seq::empty()) == inline_from(
            s,
            n + 2,
            false,
            true,
            false,
            Seq::empty(),
            made,
        ));
        lemma_inline_keeps_made(s, n + 2, false, true, false, Seq::empty(), made);
    }
    let r = inline_spans(s);
    assert(r.subrange(0, 1)[0] == r[0]);
    assert(made[0] == (p, plain));
}

/// Plain text, one marker, and text after it: the text in front is a plain
/// piece (when there is any), and the text after it is one piece whose look
/// has exactly the marker's style switched on: code for a backtick, bold for
/// `**`, underline for `__`.
pub proof fn lemma_marker_styles_what_follows(p: Seq<char>, marker: Seq<char>, q: Seq<char>)
    requires
        q.len() > 0,
        forall|m: int| 0 <= m < p.len() ==> !is_marker(#[trigger] p[m]),
        forall|m: int| 0 <= m < q.len() ==> !is_marker(#[trigger] q[m]),
        marker == seq!['`'] || marker == seq!['*', '*'] || marker == seq!['_', '_'],
    ensures
        ({
            let after = Look::Inline {
                bold: marker == seq!['*', '*'],
                underline: marker == seq!['_', '_'],
                code: marker == seq!['`'],
            };
            let plain = Look::Inline { bold: false, underline: false, code: false };
            inline_spans(p + marker + q) == if p.len() > 0 {
                seq![(p, plain), (q, after)]
            } else {
                seq![(q, after)]
            }
        }),
{
    let s = p + marker + q;
    let n = p.len() as int;
    let k = n + marker.len();
    assert forall|m: int| 0 <= m < n implies !is_marker(#[trigger] s[m]) by {
        assert(s[m] == p[m]);
    }
    assert forall|m: int| k <= m < s.len() implies !is_marker(#[trigger] s[m]) by {
        assert(s[m] == q[m - k]);
    }
    lemma_inline_gathers_run(s, 0, n, false, false, false, Seq::empty(), Seq::empty());
    assert(Seq::<char>::empty() + s.subrange(0, n) =~= p);
    let plain = Look::Inline { bold: false, underline: false, code: false };
    let made = if p.len() > 0 {
        seq![(p, plain)]
    } else {
        Seq::empty()
    };
    assert(Seq::<(Seq<char>, Look)>::empty().push((p, plain)) =~= seq![(p, plain)]);
    let b = marker == seq!['*', '*'];
    let u = marker == seq!['_', '_'];
    let c = marker == seq!['`'];
    assert(s[n] == marker[0]);
    if marker.len() == 2 {
        assert(s[n + 1] == marker[1]);
    }
    assert(inline_from(s, n, false, false, false, p, Seq::empty()) == inline_from(
        s,
        k,
        b,
        u,
        c,
        Seq::empty(),
        made,
    ));
    lemma_inline_gathers_run(s, k, s.len() as int, b, u, c, Seq::empty(), made);
    assert(Seq::<char>::empty() + s.subrange(k, s.len() as int) =~= q);
    let after = Look::Inline { bold: b, underline: u, code: c };
    assert(inline_from(s, s.len() as int, b, u, c, q, made) == made.push((q, after)));
    if p.len() > 0 {
        assert(made.push((q, after)) =~= seq![(p, plain), (q, after)]);
    } else {
        assert(made.push((q, after)) =~= seq![(q, after)]);
    }
}

/// Running text without a backtick has no piece in the code look.
pub proof fn lemma_no_backtick_no_code(s: Seq<char>)
    requires
        forall|m: int| 0 <= m < s.len() ==> #[trigger] s[m] != '`',
    ensures
        forall|k: int|
            0 <= k < inline_spans(s).len() ==> !(#[trigger] inline_spans(s)[k] matches (_, Look::Inline { code: true, .. })),
{
    lemma_no_backtick_from(s, 0, false, false, Seq::empty(), Seq::empty());
}

proof fn lemma_no_backtick_from(
    s: Seq<char>,
    i: int,
    bold: bool,
    underline: bool,
    buf: Seq<char>,
    spans: Seq<(Seq<char>, Look)>,
)
    requires
        forall|m: int| 0 <= m < s.len() ==> #[trigger] s[m] != '`',
        forall|k: int| 0 <= k < spans.len() ==> !(#[trigger] spans[k] matches (_, Look::Inline { code: true, .. })),
    ensures
        forall|k: int|
            0 <= k < inline_from(s, i, bold, underline, false, buf, spans).len() ==> !(#[trigger] inline_from(
                s,
                i,
                bold,
                underline,
                false,
                buf,
                spans,
            )[k] matches (_, Look::Inline { code: true, .. })),
    decreases s.len() - i,
{
    let flushed = if buf.len() > 0 {
        spans.push((buf, Look::Inline { bold, underline, code: false }))
    } else {
        spans
    };
    assert forall|k: int| 0 <= k < flushed.len() implies !(#[trigger] flushed[k] matches (
        _,
        Look::Inline { code: true, .. },
    )) by {
        if k < spans.len() {
            assert(flushed[k] == spans[k]);
        }
    }
    if i < 0 || i >= s.len() {
    } else if s[i] == '*' && i + 1 < s.len() && s[i + 1] == '*' {
        lemma_no_backtick_from(s, i + 2, !bold, underline, Seq::empty(), flushed);
    } else if s[i] == '_' && i + 1 < s.len() && s[i + 1] == '_' {
        lemma_no_backtick_from(s, i + 2, bold, !underline, Seq::empty(), flushed);
    } else {
        assert(s[i] != '`');
        lemma_no_backtick_from(s, i + 1, bold, underline, buf.push(s[i]), spans);
    }
}

/// Closes the piece gathered so far.
fn flush_span(spans: &mut Vec<(String, Look)>, buf: &mut String, look: Look)
    ensures
        spans_view(final(spans)@) == if old(buf)@.len() > 0 {
            spans_view(old(spans)@).push((old(buf)@, look))
        } else {
            spans_view(old(spans)@)
        },
        final(buf)@ == Seq::<char>::empty(),
{
    if buf.unicode_len() > 0 {
        let ghost before = spans@;
        spans.push((buf.clone(), look));
        assert(spans_view(spans@) =~= spans_view(before).push((old(buf)@, look)));
        *buf = String::new();
    } else {
        assert(buf@ =~= Seq::<char>::empty());
    }
}

/// The styled pieces of a line of running text.
pub fn parse_inline(input: &str) -> (r: Vec<(String, Look)>)
    ensures
        spans_view(r@) == inline_spans(input@),
{
    let mut spans: Vec<(String, Look)> = Vec::new();
    let mut buf = String::new();
    let mut bold = false;
    let mut underline = false;
    let mut code = false;
    let n = input.unicode_len();
    let mut i: usize = 0;
    assert(spans_view(spans@) =~= Seq::<(Seq<char>, Look)>::empty());
    while i < n
        invariant
            n == input@.len(),
            i <= n,
            inline_from(input@, i as int, bold, underline, code, buf@, spans_view(spans@))
                == inline_spans(input@),
        decreases n - i,
    {
        let c = input.get_char(i);
        let look = Look::Inline { bold, underline, code };
        let ghost (i0, b0, u0, c0, buf0, sp0) = (i as int, bold, underline, code, buf@, spans_view(spans@));
        assert(inline_from(input@, i0, b0, u0, c0, buf0, sp0) == {
            let flushed = if buf0.len() > 0 {
                sp0.push((buf0, Look::Inline { bold: b0, underline: u0, code: c0 }))
            } else {
                sp0
            };
            if input@[i0] == '*' && i0 + 1 < input@.len() && input@[i0 + 1] == '*' {
                inline_from(input@, i0 + 2, !b0, u0, c0, Seq::empty(), flushed)
            } else if input@[i0] == '_' && i0 + 1 < input@.len() && input@[i0 + 1] == '_' {
                inline_from(input@, i0 + 2, b0, !u0, c0, Seq::empty(), flushed)
            } else if input@[i0] == '`' {
                inline_from(input@, i0 + 1, b0, u0, !c0, Seq::empty(), flushed)
            } else {
                inline_from(input@, i0 + 1, b0, u0, c0, buf0.push(input@[i0]), sp0)
            }
        });
        if c == '*' && i + 1 < n && input.get_char(i + 1) == '*' {
            flush_span(&mut spans, &mut buf, look);
            bold = !bold;
            i = i + 2;
        } else if c == '_' && i + 1 < n && input.get_char(i + 1) == '_' {
            flush_span(&mut spans, &mut buf, look);
            underline = !underline;
            i = i + 2;
        } else if c == '`' {
            flush_span(&mut spans, &mut buf, look);
            code = !code;
            i = i + 1;
        } else {
            push_char(&mut buf, c);
            i = i + 1;
        }
    }
    flush_span(&mut spans, &mut buf, Look::Inline { bold, underline, code });
    spans
}

/// The number of copies of `c` at the start of `s`.
pub open spec fn leading_run(s: Seq<char>, c: char) -> nat
    decreases s.len(),
{
    if s.len() > 0 && s[0] == c {
        1 + leading_run(s.skip(1), c)
    } else {
        0
    }
}

/// The number of copies of `c` at the end of `s`.
pub open spec fn trailing_run(s: Seq<char>, c: char) -> nat
    decreases s.len(),
{
    if s.len() > 0 && s.last() == c {
        1 + trailing_run(s.drop_last(), c)
    } else {
        0
    }
}

/// `s` without the copies of `c` at its start and end
/// (`str::trim_matches`).
pub open spec fn trim_char(s: Seq<char>, c: char) -> Seq<char> {
    let a = leading_run(s, c);
    if a == s.len() {
        Seq::empty()
    } else {
        s.subrange(a as int, s.len() - trailing_run(s, c))
    }
}

proof fn lemma_leading_run(s: Seq<char>, c: char, i: int)
    requires
        0 <= i <= s.len(),
        forall|j: int| 0 <= j < i ==> s[j] == c,
    ensures
        leading_run(s, c) == i + leading_run(s.skip(i), c),
    decreases i,
{
    if i > 0 {
        lemma_leading_run(s.skip(1), c, i - 1);
        assert(s.skip(1).skip(i - 1) =~= s.skip(i));
    } else {
        assert(s.skip(0) =~= s);
    }
}

proof fn lemma_trailing_run(s: Seq<char>, c: char, k: int)
    requires
        0 <= k <= s.len(),
        forall|j: int| k <= j < s.len() ==> s[j] == c,
    ensures
        trailing_run(s, c) == (s.len() - k) + trailing_run(s.take(k), c),
    decreases s.len() - k,
{
    if k < s.len() {
        lemma_trailing_run(s.drop_last(), c, k);
        assert(s.drop_last().take(k) =~= s.take(k));
    } else {
        assert(s.take(k) =~= s);
    }
}

/// `s` without the copies of `c` at its start and end.
pub fn trim_matches_char<'a>(s: &'a str, c: char) -> (r: &'a str)
    ensures
        r@ == trim_char(s@, c),
{
    let n = s.unicode_len();
    let mut a: usize = 0;
    while a < n && s.get_char(a) == c
        invariant
            a <= n,
            n == s@.len(),
            forall|j: int| 0 <= j < a ==> s@[j] == c,
        decreases n - a,
    {
        a = a + 1;
    }
    proof {
        lemma_leading_run(s@, c, a as int);
    }
    if a == n {
        return s.substring_char(n, n);
    }
    let mut b: usize = n;
    while b > a && s.get_char(b - 1) == c
        invariant
            a < n,
            a <= b <= n,
            n == s@.len(),
            s@[a as int] != c,
            forall|j: int| b <= j < n ==> s@[j] == c,
        decreases b,
    {
        b = b - 1;
    }
    proof {
        lemma_trailing_run(s@, c, b as int);
        assert(b > a);
        assert(s@.take(b as int).last() != c);
    }
    s.substring_char(a, b)
}

/// The cells of a table row: the text between the bars, each trimmed.
pub open spec fn row_cells(line: Seq<char>) -> Seq<Seq<char>> {
    split_char(trim_char(line, '|'), '|').map_values(|p: Seq<char>| trimmed(p))
}

/// The rows of a table: the leading lines that start with a bar.
pub open spec fn table_rows(lines: Seq<Seq<char>>) -> Seq<Seq<Seq<char>>>
    decreases lines.len(),
{
    if lines.len() > 0 && lines[0].len() > 0 && lines[0][0] == '|' {
        seq![row_cells(lines[0])] + table_rows(lines.skip(1))
    } else {
        Seq::empty()
    }
}

/// The models of a table.
pub open spec fn table_view(t: Seq<Vec<String>>) -> Seq<Seq<Seq<char>>> {
    t.map_values(|r: Vec<String>| views(r@))
}

/// The cells of one table row.
fn parse_row(line: &str) -> (r: Vec<String>)
    ensures
        views(r@) == row_cells(line@),
{
    let inner = trim_matches_char(line, '|');
    let parts = split_on_char(inner, '|');
    let ghost pv = views(parts@);
    let mut cells: Vec<String> = Vec::new();
    let mut k: usize = 0;
    while k < parts.len()
        invariant
            k <= parts@.len(),
            pv == views(parts@),
            pv == split_char(inner@, '|'),
            views(cells@) == pv.take(k as int).map_values(|p: Seq<char>| trimmed(p)),
        decreases parts.len() - k,
    {
        let t = trim(parts[k].as_str());
        let ghost before = cells@;
        cells.push(String::from_str(t));
        assert(views(cells@) =~= views(before).push(trimmed(pv[k as int])));
        assert(pv.take(k + 1).map_values(|p: Seq<char>| trimmed(p)) =~= pv.take(k as int).map_values(
            |p: Seq<char>| trimmed(p),
        ).push(trimmed(pv[k as int])));
        k = k + 1;
    }
    assert(pv.take(k as int) =~= pv);
    cells
}

/// The rows of a table written as lines of cells between bars, up to the
/// first line that does not start with a bar.
pub fn parse_table(lines: &[&str]) -> (r: Vec<Vec<String>>)
    ensures
        table_view(r@) == table_rows(lines@.map_values(|l: &str| l@)),
{
    let ghost ls = lines@.map_values(|l: &str| l@);
    let mut table: Vec<Vec<String>> = Vec::new();
    let mut k: usize = 0;
    assert(ls.skip(0) =~= ls);
    while k < lines.len()
        invariant
            k <= lines@.len(),
            ls == lines@.map_values(|l: &str| l@),
            table_view(table@) + table_rows(ls.skip(k as int)) == table_rows(ls),
        decreases lines.len() - k,
    {
        let line = lines[k];
        assert(ls.skip(k as int)[0] == line@);
        if !(line.unicode_len() > 0 && line.get_char(0) == '|') {
            assert(table_rows(ls.skip(k as int)) =~= Seq::<Seq<Seq<char>>>::empty());
            assert(table_view(table@) =~= table_rows(ls));
            return table;
        }
        let row = parse_row(line);
        let ghost before = table@;
        let ghost rv = views(row@);
        table.push(row);
        assert(table_view(table@) =~= table_view(before).push(rv));
        assert(ls.skip(k as int).skip(1) =~= ls.skip(k + 1));
        assert(table_view(table@) + table_rows(ls.skip(k + 1)) =~= table_view(before) + table_rows(
            ls.skip(k as int),
        ));
        k = k + 1;
    }
    assert(table_rows(ls.skip(k as int)) =~= Seq::<Seq<Seq<char>>>::empty());
    assert(table_view(table@) =~= table_rows(ls));
    table
}

/// `w` cut into pieces of `k` characters, the last one shorter
/// (`slice::chunks`).
pub open spec fn char_chunks(w: Seq<char>, k: int) -> Seq<Seq<char>>
    decreases w.len(),
{
    if w.len() == 0 || k <= 0 {
        Seq::empty()
    } else if w.len() <= k {
        seq![w]
    } else {
        seq![w.take(k)] + char_chunks(w.skip(k), k)
    }
}

/// The lines made from the words from position `i` on, given the lines made
/// so far and the line being filled: words go on the line while they fit
/// with a space between; a word longer than the width is cut into pieces.
pub open spec fn wrap_from(
    ws: Seq<Seq<char>>,
    i: int,
    width: int,
    lines: Seq<Seq<char>>,
    current: Seq<char>,
) -> (Seq<Seq<char>>, Seq<char>)
    decreases ws.len() - i,
{
    if i < 0 || i >= ws.len() {
        (lines, current)
    } else {
        let w = ws[i];
        if current.len() == 0 {
            if w.len() <= width {
                wrap_from(ws, i + 1, width, lines, w)
            } else {
                wrap_from(ws, i + 1, width, lines + char_chunks(w, width), current)
            }
        } else if current.len() + 1 + w.len() <= width {
            wrap_from(ws, i + 1, width, lines, current.push(' ') + w)
        } else if w.len() <= width {
            wrap_from(ws, i + 1, width, lines.push(current), w)
        } else {
            wrap_from(ws, i + 1, width, lines.push(current) + char_chunks(w, width), Seq::empty())
        }
    }
}

/// The lines a table cell takes in a column `width` characters wide; one
/// empty line when there is nothing to show.
pub open spec fn wrapped_cell(cell: Seq<char>, width: int) -> Seq<Seq<char>> {
    if width == 0 {
        seq![Seq::empty()]
    } else {
        let (ls, cur) = wrap_from(words(cell), 0, width, Seq::empty(), Seq::empty());
        let all = if cur.len() > 0 { ls.push(cur) } else { ls };
        if all.len() == 0 { seq![Seq::empty()] } else { all }
    }
}

/// Appends the pieces of a word cut to a width.
fn push_chunks(lines: &mut Vec<String>, w: &str, width: usize)
    requires
        width > 0,
    ensures
        views(final(lines)@) == views(old(lines)@) + char_chunks(w@, width as int),
{
    let n = w.unicode_len();
    let mut pos: usize = 0;
    assert(w@.skip(0) =~= w@);
    while pos < n
        invariant
            width > 0,
            n == w@.len(),
            pos <= n,
            views(lines@) + char_chunks(w@.skip(pos as int), width as int) == views(old(lines)@)
                + char_chunks(w@, width as int),
        decreases n - pos,
    {
        let ghost rest = w@.skip(pos as int);
        let end = if n - pos <= width {
            n
        } else {
            pos + width
        };
        let ghost before = lines@;
        lines.push(String::from_str(w.substring_char(pos, end)));
        proof {
            assert(views(lines@) =~= views(before).push(w@.subrange(pos as int, end as int)));
            if n - pos <= width {
                assert(w@.subrange(pos as int, end as int) =~= rest);
                assert(w@.skip(end as int) =~= Seq::<char>::empty());
                assert(char_chunks(rest, width as int) == seq![rest]);
            } else {
                assert(w@.subrange(pos as int, end as int) =~= rest.take(width as int));
                assert(rest.skip(width as int) =~= w@.skip(end as int));
            }
            assert(views(lines@) + char_chunks(w@.skip(end as int), width as int) =~= views(before)
                + char_chunks(rest, width as int));
        }
        pos = end;
    }
    assert(char_chunks(w@.skip(pos as int), width as int) =~= Seq::<Seq<char>>::empty());
    assert(views(lines@) =~= views(lines@) + char_chunks(w@.skip(pos as int), width as int));
}

/// The lines a table cell takes in a column `width` characters wide.
pub fn wrap_cell(cell: &str, width: usize) -> (r: Vec<String>)
    ensures
        views(r@) == wrapped_cell(cell@, width as int),
{
    if width == 0 {
        let v = vec![String::new()];
        assert(views(v@) =~= seq![Seq::<char>::empty()]);
        return v;
    }
    let ws = split_whitespace(cell);
    let ghost wv = views(ws@);
    let mut lines: Vec<String> = Vec::new();
    let mut current = String::new();
    let mut k: usize = 0;
    assert(views(lines@) =~= Seq::<Seq<char>>::empty());
    while k < ws.len()
        invariant
            k <= ws@.len(),
            width > 0,
            wv == views(ws@),
            wv == words(cell@),
            current@.len() <= width,
            wrap_from(wv, k as int, width as int, views(lines@), current@) == wrap_from(
                wv,
                0,
                width as int,
                Seq::empty(),
                Seq::empty(),
            ),
        decreases ws.len() - k,
    {
        let word = ws[k].as_str();
        assert(word@ == wv[k as int]);
        let word_len = word.unicode_len();
        let current_len = current.unicode_len();
        if current_len == 0 {
            if word_len <= width {
                current.append(word);
                assert(current@ =~= word@);
            } else {
                push_chunks(&mut lines, word, width);
            }
        } else if word_len <= width && current_len < width - word_len {
            push_char(&mut current, ' ');
            current.append(word);
        } else {
            let ghost before = lines@;
            let line = current;
            lines.push(line);
            assert(views(lines@) =~= views(before).push(line@));
            current = String::new();
            if word_len <= width {
                current.append(word);
                assert(current@ =~= word@);
            } else {
                push_chunks(&mut lines, word, width);
                assert(current@ =~= Seq::<char>::empty());
            }
        }
        k = k + 1;
    }
    if current.unicode_len() > 0 {
        let ghost before = lines@;
        let line = current;
        lines.push(line);
        assert(views(lines@) =~= views(before).push(line@));
    }
    if lines.len() == 0 {
        lines.push(String::new());
        assert(views(lines@) =~= seq![Seq::<char>::empty()]);
    }
    lines
}

/// The longest first cell among the first `k` rows (a missing cell counts
/// as empty).
pub open spec fn max_first(table: Seq<Seq<Seq<char>>>, k: int) -> int
    decreases k,
{
    if k <= 0 {
        0
    } else {
        let prev = max_first(table, k - 1);
        let here = if table[k - 1].len() > 0 { table[k - 1][0].len() as int } else { 0 };
        if here > prev { here } else { prev }
    }
}

/// The width of column `i`: the first column is as wide as its longest
/// cell, the others three times their header (at least one character).
pub open spec fn col_width(table: Seq<Seq<Seq<char>>>, i: int) -> int {
    let h = table[0][i];
    let hl = if h.len() == 0 { 1 } else { h.len() as int };
    if i == 0 { max_first(table, table.len() as int) } else { 3 * hl }
}

/// The widths of all columns, one per header cell.
pub open spec fn col_widths(table: Seq<Seq<Seq<char>>>) -> Seq<int> {
    Seq::new(table[0].len(), |i: int| col_width(table, i))
}

/// `content` padded with spaces to `w` characters (`{:w$}`).
pub open spec fn pad(content: Seq<char>, w: int) -> Seq<char> {
    if content.len() < w {
        content + Seq::new((w - content.len()) as nat, |j: int| ' ')
    } else {
        content
    }
}

/// The rule under the header: a run of `─` per column, joined by `─┼─`.
pub open spec fn divider_text(widths: Seq<int>, k: int) -> Seq<char>
    decreases k,
{
    if k <= 0 {
        Seq::empty()
    } else if k == 1 {
        Seq::new(widths[0] as nat, |j: int| '─')
    } else {
        divider_text(widths, k - 1) + "─┼─"@ + Seq::new(widths[k - 1] as nat, |j: int| '─')
    }
}

/// Line `li` of a row of wrapped cells: each cell's line padded to its
/// column, the columns separated by ` │ `.
pub open spec fn row_line(cells: Seq<Seq<Seq<char>>>, widths: Seq<int>, li: int, k: int) -> Seq<char>
    decreases k,
{
    if k <= 0 {
        Seq::empty()
    } else {
        let c = cells[k - 1];
        let content = if li < c.len() { c[li] } else { Seq::empty() };
        row_line(cells, widths, li, k - 1) + pad(content, widths[k - 1]) + if k - 1 < cells.len() - 1 {
            " │ "@
        } else {
            Seq::empty()
        }
    }
}

/// The most lines any of the first `k` wrapped cells takes.
pub open spec fn max_height(cells: Seq<Seq<Seq<char>>>, k: int) -> int
    decreases k,
{
    if k <= 0 {
        0
    } else {
        let prev = max_height(cells, k - 1);
        if cells[k - 1].len() > prev { cells[k - 1].len() as int } else { prev }
    }
}

/// A display line of one piece.
pub open spec fn single(text: Seq<char>, look: Look, scrollable: bool) -> (Seq<(Seq<char>, Look)>, bool) {
    (seq![(text, look)], scrollable)
}

/// The lines of one table row other than the rule.
pub open spec fn row_display(row: Seq<Seq<char>>, widths: Seq<int>, header: bool) -> Seq<
    (Seq<(Seq<char>, Look)>, bool),
> {
    let cells = Seq::new(row.len(), |i: int| wrapped_cell(row[i], widths[i]));
    let h = if cells.len() == 0 { 1 } else { max_height(cells, cells.len() as int) };
    Seq::new(
        h as nat,
        |li: int|
            single(
                row_line(cells, widths, li, cells.len() as int),
                if header { Look::TableHeader } else { Look::TableRow },
                true,
            ),
    )
}

/// The display lines of the first `k` rows of a table: the header, the
/// rule in place of the second row, then the rows.
pub open spec fn table_display(table: Seq<Seq<Seq<char>>>, widths: Seq<int>, k: int) -> Seq<
    (Seq<(Seq<char>, Look)>, bool),
>
    decreases k,
{
    if k <= 0 {
        Seq::empty()
    } else if k == 2 {
        table_display(table, widths, 1) + seq![
            single(divider_text(widths, widths.len() as int), Look::Divider, true),
        ]
    } else {
        table_display(table, widths, k - 1) + row_display(table[k - 1], widths, k == 1)
    }
}

/// The display lines of a table; none when it has fewer than two rows.
pub open spec fn table_lines(table: Seq<Seq<Seq<char>>>) -> Seq<(Seq<(Seq<char>, Look)>, bool)> {
    if table.len() < 2 {
        Seq::empty()
    } else {
        table_display(table, col_widths(table), table.len() as int)
    }
}

/// Whether a table can be drawn: no row after the header has more cells
/// than the header, and header cells are short enough to triple.
pub open spec fn table_fits(table: Seq<Seq<Seq<char>>>) -> bool {
    table.len() >= 2 ==> {
        &&& forall|r: int| 1 <= r < table.len() ==> #[trigger] table[r].len() <= table[0].len()
        &&& forall|i: int| 0 <= i < table[0].len() ==> 3 * (#[trigger] table[0][i]).len() + 3 <= usize::MAX
    }
}

/// The models of display lines.
pub open spec fn displays_view(v: Seq<DisplayLine>) -> Seq<(Seq<(Seq<char>, Look)>, bool)> {
    v.map_values(|d: DisplayLine| display_view(d))
}

/// A display line of one piece.
fn one_span(text: String, look: Look, scrollable: bool) -> (r: DisplayLine)
    ensures
        display_view(r) == single(text@, look, scrollable),
{
    let spans = vec![(text, look)];
    assert(spans_view(spans@) =~= seq![(text@, look)]);
    DisplayLine { spans, scrollable }
}

/// The widths of the columns of a table with at least two rows.
fn column_widths(table: &Vec<Vec<String>>) -> (r: Vec<usize>)
    requires
        table@.len() >= 2,
        table_fits(table_view(table@)),
    ensures
        r@.map_values(|w: usize| w as int) == col_widths(table_view(table@)),
{
    let ghost t = table_view(table@);
    let mut first: usize = 0;
    let mut k: usize = 0;
    while k < table.len()
        invariant
            k <= table@.len(),
            t == table_view(table@),
            first == max_first(t, k as int),
        decreases table.len() - k,
    {
        assert(t[k as int] == views(table@[k as int]@));
        let here = if table[k].len() > 0 {
            table[k][0].unicode_len()
        } else {
            0
        };
        if here > first {
            first = here;
        }
        k = k + 1;
    }
    let header = &table[0];
    assert(t[0] == views(header@));
    let mut widths: Vec<usize> = Vec::new();
    let mut i: usize = 0;
    while i < header.len()
        invariant
            i <= header@.len(),
            t == table_view(table@),
            t[0] == views(header@),
            table_fits(t),
            t.len() >= 2,
            first == max_first(t, t.len() as int),
            widths@.map_values(|w: usize| w as int) == col_widths(t).take(i as int),
        decreases header.len() - i,
    {
        let hl = header[i].unicode_len();
        assert(t[0][i as int] == header@[i as int]@);
        let hl1 = if hl == 0 {
            1
        } else {
            hl
        };
        let w = if i == 0 {
            first
        } else {
            3 * hl1
        };
        assert(w as int == col_width(t, i as int));
        let ghost before = widths@;
        widths.push(w);
        assert(widths@.map_values(|w: usize| w as int) =~= before.map_values(|w: usize| w as int).push(
            w as int,
        ));
        assert(col_widths(t).take(i + 1) =~= col_widths(t).take(i as int).push(col_width(t, i as int)));
        i = i + 1;
    }
    assert(col_widths(t).take(i as int) =~= col_widths(t));
    widths
}

/// The widths as numbers.
pub open spec fn ints(v: Seq<usize>) -> Seq<int> {
    v.map_values(|w: usize| w as int)
}

/// The rule under a table's header.
fn divider(widths: &Vec<usize>) -> (r: String)
    ensures
        r@ == divider_text(ints(widths@), widths@.len() as int),
{
    let ghost wi = ints(widths@);
    let mut out = String::new();
    let mut k: usize = 0;
    while k < widths.len()
        invariant
            k <= widths@.len(),
            wi == ints(widths@),
            out@ == divider_text(wi, k as int),
        decreases widths.len() - k,
    {
        if k > 0 {
            out.append("─┼─");
        }
        let run = crate::text::repeat_char('─', widths[k]);
        out.append(run.as_str());
        assert(wi[k as int] == widths@[k as int]);
        proof {
            if k == 0 {
                assert(out@ =~= divider_text(wi, 1));
            } else {
                assert(out@ =~= divider_text(wi, k + 1));
            }
        }
        k = k + 1;
    }
    out
}

/// Appends `content` padded with spaces to `w` characters.
fn push_padded(line: &mut String, content: &str, w: usize)
    ensures
        final(line)@ == old(line)@ + pad(content@, w as int),
{
    line.append(content);
    let n = content.unicode_len();
    if n < w {
        let spaces = crate::text::repeat_char(' ', w - n);
        line.append(spaces.as_str());
    }
    assert(line@ =~= old(line)@ + pad(content@, w as int));
}

/// The wrapped cells as plain values.
pub open spec fn cells_view(v: Seq<Vec<String>>) -> Seq<Seq<Seq<char>>> {
    v.map_values(|c: Vec<String>| views(c@))
}

/// The display lines of one table row other than the rule.
fn row_lines(row: &Vec<String>, widths: &Vec<usize>, header: bool) -> (r: Vec<DisplayLine>)
    requires
        row@.len() <= widths@.len(),
    ensures
        displays_view(r@) == row_display(views(row@), ints(widths@), header),
{
    let ghost wi = ints(widths@);
    let ghost rv = views(row@);
    let mut cells: Vec<Vec<String>> = Vec::new();
    let mut i: usize = 0;
    while i < row.len()
        invariant
            i <= row@.len(),
            row@.len() <= widths@.len(),
            wi == ints(widths@),
            rv == views(row@),
            cells_view(cells@) == Seq::new(i as nat, |j: int| wrapped_cell(rv[j], wi[j])),
        decreases row.len() - i,
    {
        let c = wrap_cell(row[i].as_str(), widths[i]);
        assert(rv[i as int] == row@[i as int]@);
        let ghost before = cells@;
        let ghost cv = views(c@);
        cells.push(c);
        assert(wi[i as int] == widths@[i as int] as int);
        assert(cv == wrapped_cell(rv[i as int], wi[i as int]));
        assert(cells_view(cells@) =~= cells_view(before).push(cv));
        assert(cells_view(cells@) =~= Seq::new((i + 1) as nat, |j: int| wrapped_cell(rv[j], wi[j])));
        i = i + 1;
    }
    let ghost cv = cells_view(cells@);
    assert(cv =~= Seq::new(rv.len(), |j: int| wrapped_cell(rv[j], wi[j])));
    let mut h: usize = 0;
    let mut k: usize = 0;
    while k < cells.len()
        invariant
            k <= cells@.len(),
            cv == cells_view(cells@),
            h == max_height(cv, k as int),
        decreases cells.len() - k,
    {
        assert(cv[k as int].len() == cells@[k as int]@.len());
        if cells[k].len() > h {
            h = cells[k].len();
        }
        k = k + 1;
    }
    if cells.len() == 0 {
        h = 1;
    }
    let look = if header {
        Look::TableHeader
    } else {
        Look::TableRow
    };
    let n = cells.len();
    let mut out: Vec<DisplayLine> = Vec::new();
    let mut li: usize = 0;
    let ghost want = row_display(rv, wi, header);
    assert(want.len() == h);
    while li < h
        invariant
            li <= h,
            n == cells@.len(),
            n <= widths@.len(),
            cv == cells_view(cells@),
            wi == ints(widths@),
            want == Seq::new(
                h as nat,
                |l: int| single(row_line(cv, wi, l, n as int), look, true),
            ),
            displays_view(out@) == want.take(li as int),
        decreases h - li,
    {
        let mut line = String::new();
        let mut c: usize = 0;
        while c < n
            invariant
                c <= n,
                n == cells@.len(),
                n <= widths@.len(),
                cv == cells_view(cells@),
                wi == ints(widths@),
                line@ == row_line(cv, wi, li as int, c as int),
            decreases n - c,
        {
            let cell = &cells[c];
            assert(cv[c as int] == views(cell@));
            if li < cell.len() {
                push_padded(&mut line, cell[li].as_str(), widths[c]);
            } else {
                push_padded(&mut line, "", widths[c]);
                proof {
                    reveal_strlit("");
                }
            }
            if c + 1 < n {
                line.append(" │ ");
            }
            proof {
                assert(wi[c as int] == widths@[c as int]);
                assert(line@ =~= row_line(cv, wi, li as int, c + 1));
            }
            c = c + 1;
        }
        let d = one_span(line, look, true);
        let ghost before = out@;
        out.push(d);
        assert(displays_view(out@) =~= displays_view(before).push(display_view(d)));
        assert(want.take(li + 1) =~= want.take(li as int).push(want[li as int]));
        li = li + 1;
    }
    assert(want.take(h as int) =~= want);
    out
}

/// The display lines of a table: the header, a rule, then the rows; none
/// when the table has fewer than two rows.
pub fn table_to_lines(table: Vec<Vec<String>>) -> (r: Vec<DisplayLine>)
    requires
        table_fits(table_view(table@)),
    ensures
        displays_view(r@) == table_lines(table_view(table@)),
{
    if table.len() < 2 {
        let v: Vec<DisplayLine> = Vec::new();
        assert(displays_view(v@) =~= Seq::<(Seq<(Seq<char>, Look)>, bool)>::empty());
        return v;
    }
    let ghost t = table_view(table@);
    let widths = column_widths(&table);
    let ghost wi = ints(widths@);
    assert(wi == col_widths(t));
    let mut lines: Vec<DisplayLine> = Vec::new();
    let mut r: usize = 0;
    while r < table.len()
        invariant
            r <= table@.len(),
            table@.len() >= 2,
            t == table_view(table@),
            table_fits(t),
            wi == ints(widths@),
            widths@.len() == t[0].len(),
            displays_view(lines@) == table_display(t, wi, r as int),
        decreases table.len() - r,
    {
        let ghost before = displays_view(lines@);
        if r == 1 {
            let d = divider(&widths);
            lines.push(one_span(d, Look::Divider, true));
            assert(displays_view(lines@) =~= table_display(t, wi, 2));
        } else {
            assert(t[r as int] == views(table@[r as int]@));
            assert(table@[r as int]@.len() <= widths@.len());
            let more = row_lines(&table[r], &widths, r == 0);
            let mut k: usize = 0;
            while k < more.len()
                invariant
                    k <= more@.len(),
                    displays_view(lines@) == before + displays_view(more@).take(k as int),
                decreases more.len() - k,
            {
                let ghost b2 = lines@;
                let piece = DisplayLine { spans: clone_spans(&more[k].spans), scrollable: more[k].scrollable };
                lines.push(piece);
                assert(displays_view(lines@) =~= displays_view(b2).push(display_view(more@[k as int])));
                assert(displays_view(more@).take(k + 1) =~= displays_view(more@).take(k as int).push(
                    display_view(more@[k as int]),
                ));
                k = k + 1;
            }
            assert(displays_view(more@).take(k as int) =~= displays_view(more@));
            assert(displays_view(lines@) =~= table_display(t, wi, r + 1));
        }
        r = r + 1;
    }
    lines
}

/// A copy of the pieces of a line.
fn clone_spans(v: &Vec<(String, Look)>) -> (r: Vec<(String, Look)>)
    ensures
        spans_view(r@) == spans_view(v@),
{
    let mut out: Vec<(String, Look)> = Vec::new();
    let mut i: usize = 0;
    while i < v.len()
        invariant
            i <= v@.len(),
            spans_view(out@) == spans_view(v@).take(i as int),
        decreases v.len() - i,
    {
        let ghost before = out@;
        let t = v[i].0.clone();
        out.push((t, v[i].1));
        assert(spans_view(out@) =~= spans_view(before).push((v@[i as int].0@, v@[i as int].1)));
        assert(spans_view(out@) =~= spans_view(v@).take(i + 1));
        i = i + 1;
    }
    assert(spans_view(v@).take(i as int) =~= spans_view(v@));
    out
}

/// The first position from `j` on whose line, trimmed, does not start with
/// a bar (the end of a table).
pub open spec fn table_end(ls: Seq<Seq<char>>, j: int) -> int
    decreases ls.len() - j,
{
    if j < 0 || j >= ls.len() || !has_prefix(trimmed(ls[j]), "|"@) {
        j
    } else {
        table_end(ls, j + 1)
    }
}

proof fn lemma_table_end(ls: Seq<Seq<char>>, j: int)
    requires
        0 <= j <= ls.len(),
    ensures
        j <= table_end(ls, j) <= ls.len(),
        forall|k: int| j <= k < table_end(ls, j) ==> has_prefix(trimmed(ls[k]), "|"@),
    decreases ls.len() - j,
{
    if j < ls.len() && has_prefix(trimmed(ls[j]), "|"@) {
        lemma_table_end(ls, j + 1);
    }
}

/// The line of a code fence: the fence's label (`──` when it has none)
/// between two rules.
pub open spec fn fence_text(t: Seq<char>) -> Seq<char> {
    let code = removed_all(t, "```"@);
    "────────"@ + (if code.len() == 0 { "──"@ } else { code }) + "────────"@
}

/// A list item: its indentation, a bullet, and the item without its dash.
pub open spec fn bullet_text(raw: Seq<char>) -> Seq<char> {
    Seq::new(leading_spaces(raw), |j: int| ' ') + "• "@ + strip_all_prefix(raw, "- "@)
}

/// The display lines of the document lines from position `i` on, inside a
/// code block or not.
pub open spec fn doc_from(ls: Seq<Seq<char>>, i: int, in_code: bool) -> Seq<
    (Seq<(Seq<char>, Look)>, bool),
>
    decreases ls.len() - i,
{
    if i < 0 || i >= ls.len() {
        Seq::empty()
    } else {
        let raw = ls[i];
        let t = trimmed(raw);
        if has_prefix(t, "```"@) {
            seq![single(fence_text(t), Look::Fence, false)] + doc_from(ls, i + 1, !in_code)
        } else if in_code {
            seq![single(raw, Look::Code, false)] + doc_from(ls, i + 1, in_code)
        } else if has_prefix(raw, "### "@) {
            seq![single(strip_all_prefix(raw, "### "@), Look::Heading3, false)] + doc_from(ls, i + 1, in_code)
        } else if has_prefix(raw, "## "@) {
            seq![single(strip_all_prefix(raw, "## "@), Look::Heading2, false)] + doc_from(ls, i + 1, in_code)
        } else if has_prefix(raw, "# "@) {
            seq![single(strip_all_prefix(raw, "# "@), Look::Heading1, false)] + doc_from(ls, i + 1, in_code)
        } else if has_prefix(trimmed_start(raw), "- "@) {
            seq![single(bullet_text(raw), Look::Plain, false)] + doc_from(ls, i + 1, in_code)
        } else if has_prefix(t, "|"@) && seq_contains(raw, "|"@) {
            let j = table_end(ls, i + 1);
            if i < j && j <= ls.len() {
                table_lines(table_rows(ls.subrange(i, j))) + doc_from(ls, j, in_code)
            } else {
                Seq::empty()
            }
        } else {
            seq![(inline_spans(raw), false)] + doc_from(ls, i + 1, in_code)
        }
    }
}

/// Whether a document line opens or closes a code block.
pub open spec fn is_fence_line(raw: Seq<char>) -> bool {
    has_prefix(trimmed(raw), "```"@)
}

/// Inside a code block, every line up to the next fence is shown as it
/// stands, in the code look, one display line each, whatever it starts with
/// (a `#`, a `-` or a `|` included).
pub proof fn lemma_code_block_verbatim(ls: Seq<Seq<char>>, i: int, j: int)
    requires
        0 <= i <= j <= ls.len(),
        forall|k: int| i <= k < j ==> !is_fence_line(#[trigger] ls[k]),
    ensures
        doc_from(ls, i, true).len() >= j - i,
        forall|k: int|
            0 <= k < j - i ==> #[trigger] doc_from(ls, i, true)[k] == (seq![(ls[i + k], Look::Code)], false),
    decreases j - i,
{
    if i < j {
        assert(!is_fence_line(ls[i]));
        lemma_code_block_verbatim(ls, i + 1, j);
        let rest = doc_from(ls, i + 1, true);
        assert(doc_from(ls, i, true) == seq![single(ls[i], Look::Code, false)] + rest);
        assert forall|k: int| 0 <= k < j - i implies #[trigger] doc_from(ls, i, true)[k] == (
            seq![(ls[i + k], Look::Code)],
            false,
        ) by {
            if k > 0 {
                assert(doc_from(ls, i, true)[k] == rest[k - 1]);
                assert(rest[k - 1] == (seq![(ls[i + 1 + (k - 1)], Look::Code)], false));
            }
        }
    }
}

/// A fence line outside a code block is shown as a fence and opens the
/// block: the lines after it, up to the next fence, are shown verbatim in
/// the code look.
pub proof fn lemma_fence_opens_code_block(ls: Seq<Seq<char>>, i: int, j: int)
    requires
        0 <= i < j <= ls.len(),
        is_fence_line(ls[i]),
        forall|k: int| i < k < j ==> !is_fence_line(#[trigger] ls[k]),
    ensures
        doc_from(ls, i, false).len() >= j - i,
        doc_from(ls, i, false)[0].0 == seq![(fence_text(trimmed(ls[i])), Look::Fence)],
        forall|k: int|
            1 <= k < j - i ==> #[trigger] doc_from(ls, i, false)[k] == (seq![(ls[i + k], Look::Code)], false),
{
    lemma_code_block_verbatim(ls, i + 1, j);
    let rest = doc_from(ls, i + 1, true);
    assert(doc_from(ls, i, false) == seq![single(fence_text(trimmed(ls[i])), Look::Fence, false)] + rest);
    assert forall|k: int| 1 <= k < j - i implies #[trigger] doc_from(ls, i, false)[k] == (
        seq![(ls[i + k], Look::Code)],
        false,
    ) by {
        assert(doc_from(ls, i, false)[k] == rest[k - 1]);
        assert(rest[k - 1] == (seq![(ls[i + 1 + (k - 1)], Look::Code)], false));
    }
}

/// Whether every table from position `i` on can be drawn.
pub open spec fn doc_ok(ls: Seq<Seq<char>>, i: int, in_code: bool) -> bool
    decreases ls.len() - i,
{
    if i < 0 || i >= ls.len() {
        true
    } else {
        let raw = ls[i];
        let t = trimmed(raw);
        if has_prefix(t, "```"@) {
            doc_ok(ls, i + 1, !in_code)
        } else if in_code || has_prefix(raw, "### "@) || has_prefix(raw, "## "@) || has_prefix(raw, "# "@)
            || has_prefix(trimmed_start(raw), "- "@) {
            doc_ok(ls, i + 1, in_code)
        } else if has_prefix(t, "|"@) && seq_contains(raw, "|"@) {
            let j = table_end(ls, i + 1);
            if i < j && j <= ls.len() {
                table_fits(table_rows(ls.subrange(i, j))) && doc_ok(ls, j, in_code)
            } else {
                true
            }
        } else {
            doc_ok(ls, i + 1, in_code)
        }
    }
}

/// Appends display lines.
fn append_lines(out: &mut Vec<DisplayLine>, more: Vec<DisplayLine>)
    ensures
        displays_view(final(out)@) == displays_view(old(out)@) + displays_view(more@),
{
    let mut more = more;
    let ghost m = more@;
    let ghost start = out@;
    out.append(&mut more);
    assert(out@ == start + m);
    assert(displays_view(out@) =~= displays_view(start) + displays_view(m));
}

proof fn lemma_table_end_at(ls: Seq<Seq<char>>, a: int, j: int)
    requires
        0 <= a <= j <= ls.len(),
        forall|k: int| a <= k < j ==> has_prefix(trimmed(ls[k]), "|"@),
        j == ls.len() || !has_prefix(trimmed(ls[j]), "|"@),
    ensures
        table_end(ls, a) == j,
    decreases j - a,
{
    if a < j {
        lemma_table_end_at(ls, a + 1, j);
    }
}

/// Adding one line in front regroups.
proof fn lemma_regroup<T>(a: Seq<T>, x: Seq<T>, rest: Seq<T>)
    ensures
        (a + x) + rest == a + (x + rest),
{
    assert((a + x) + rest =~= a + (x + rest));
}

/// The display line of one piece.
fn single_line(text: String, look: Look) -> (r: DisplayLine)
    ensures
        display_view(r) == single(text@, look, false),
{
    one_span(text, look, false)
}

/// The display lines of a Markdown document: code fences and blocks,
/// headings, list items, tables and running text with inline styles.
#[verifier::spinoff_prover]
#[verifier::rlimit(40)]
pub fn parse_document(input: String) -> (r: Vec<DisplayLine>)
    requires
        doc_ok(lines_of(input@), 0, false),
    ensures
        displays_view(r@) == doc_from(lines_of(input@), 0, false),
{
    proof {
        reveal_strlit("```");
        reveal_strlit("### ");
        reveal_strlit("## ");
        reveal_strlit("# ");
        reveal_strlit("- ");
        reveal_strlit("|");
    }
    let liness = lines(input.as_str());
    let ghost ls = views(liness@);
    let n = liness.len();
    let mut out: Vec<DisplayLine> = Vec::new();
    let mut in_code = false;
    let mut i: usize = 0;
    assert(displays_view(out@) + doc_from(ls, 0, false) =~= doc_from(ls, 0, false));
    while i < n
        invariant
            n == liness@.len(),
            i <= n,
            ls == views(liness@),
            ls == lines_of(input@),
            displays_view(out@) + doc_from(ls, i as int, in_code) == doc_from(ls, 0, false),
            doc_ok(ls, i as int, in_code),
        decreases n - i,
    {
        proof {
            reveal_strlit("```");
            reveal_strlit("### ");
            reveal_strlit("## ");
            reveal_strlit("# ");
            reveal_strlit("- ");
            reveal_strlit("|");
        }
        let raw = liness[i].as_str();
        assert(ls[i as int] == raw@);
        let t = trim(raw);
        let ghost before = displays_view(out@);
        if matches_at(t, "```", 0) {
            let code = remove_all(t, "```");
            let mut text = String::from_str("────────");
            if code.unicode_len() == 0 {
                text.append("──");
            } else {
                text.append(code.as_str());
            }
            text.append("────────");
            assert(text@ =~= fence_text(t@));
            let d = single_line(text, Look::Fence);
            out.push(d);
            proof {
                assert(displays_view(out@) =~= before + seq![display_view(d)]);
                lemma_regroup(before, seq![display_view(d)], doc_from(ls, i + 1, !in_code));
            }
            in_code = !in_code;
            i = i + 1;
        } else if in_code {
            let d = single_line(String::from_str(raw), Look::Code);
            out.push(d);
            proof {
                assert(displays_view(out@) =~= before + seq![display_view(d)]);
                lemma_regroup(before, seq![display_view(d)], doc_from(ls, i + 1, in_code));
            }
            i = i + 1;
        } else if matches_at(raw, "### ", 0) {
            let d = single_line(String::from_str(trim_start_matches(raw, "### ")), Look::Heading3);
            out.push(d);
            proof {
                assert(displays_view(out@) =~= before + seq![display_view(d)]);
                lemma_regroup(before, seq![display_view(d)], doc_from(ls, i + 1, in_code));
            }
            i = i + 1;
        } else if matches_at(raw, "## ", 0) {
            let d = single_line(String::from_str(trim_start_matches(raw, "## ")), Look::Heading2);
            out.push(d);
            proof {
                assert(displays_view(out@) =~= before + seq![display_view(d)]);
                lemma_regroup(before, seq![display_view(d)], doc_from(ls, i + 1, in_code));
            }
            i = i + 1;
        } else if matches_at(raw, "# ", 0) {
            let d = single_line(String::from_str(trim_start_matches(raw, "# ")), Look::Heading1);
            out.push(d);
            proof {
                assert(displays_view(out@) =~= before + seq![display_view(d)]);
                lemma_regroup(before, seq![display_view(d)], doc_from(ls, i + 1, in_code));
            }
            i = i + 1;
        } else if matches_at(trim_start(raw), "- ", 0) {
            let indent = count_leading_spaces(raw);
            let mut text = repeat_char(' ', indent);
            text.append("• ");
            text.append(trim_start_matches(raw, "- "));
            assert(text@ =~= bullet_text(raw@));
            let d = single_line(text, Look::Plain);
            out.push(d);
            proof {
                assert(displays_view(out@) =~= before + seq![display_view(d)]);
                lemma_regroup(before, seq![display_view(d)], doc_from(ls, i + 1, in_code));
            }
            i = i + 1;
        } else if matches_at(t, "|", 0) && contains(raw, "|") {
            let mut j: usize = i + 1;
            while j < n && matches_at(trim(liness[j].as_str()), "|", 0)
                invariant
                    n == liness@.len(),
                    i < j <= n,
                    ls == views(liness@),
                    forall|k: int| i + 1 <= k < j ==> has_prefix(trimmed(ls[k]), "|"@),
                decreases n - j,
            {
                assert(ls[j as int] == liness@[j as int]@);
                j = j + 1;
            }
            proof {
                if j < n {
                    assert(ls[j as int] == liness@[j as int]@);
                }
                lemma_table_end_at(ls, i + 1, j as int);
            }
            let mut tl: Vec<&str> = Vec::new();
            let mut k: usize = i;
            while k < j
                invariant
                    i <= k <= j <= n,
                    n == liness@.len(),
                    ls == views(liness@),
                    tl@.map_values(|l: &str| l@) == ls.subrange(i as int, k as int),
                decreases j - k,
            {
                let ghost tb = tl@;
                let piece = liness[k].as_str();
                tl.push(piece);
                assert(ls[k as int] == piece@);
                assert(tl@.map_values(|l: &str| l@) =~= tb.map_values(|l: &str| l@).push(piece@));
                assert(tl@.map_values(|l: &str| l@) =~= ls.subrange(i as int, k + 1));
                k = k + 1;
            }
            let table = parse_table(tl.as_slice());
            let more = table_to_lines(table);
            let ghost mv = displays_view(more@);
            append_lines(&mut out, more);
            proof {
                lemma_regroup(before, mv, doc_from(ls, j as int, in_code));
            }
            i = j;
        } else {
            let d = DisplayLine { spans: parse_inline(raw), scrollable: false };
            out.push(d);
            proof {
                assert(displays_view(out@) =~= before + seq![display_view(d)]);
                lemma_regroup(before, seq![display_view(d)], doc_from(ls, i + 1, in_code));
            }
            i = i + 1;
        }
    }
    assert(doc_from(ls, i as int, in_code) =~= Seq::<(Seq<(Seq<char>, Look)>, bool)>::empty());
    assert(displays_view(out@) =~= doc_from(ls, 0, false));
    out
}

/// Whether a table can be drawn.
fn table_ok(table: &Vec<Vec<String>>) -> (r: bool)
    ensures
        r == table_fits(table_view(table@)),
{
    let ghost t = table_view(table@);
    if table.len() < 2 {
        return true;
    }
    let header_len = table[0].len();
    assert(t[0] == views(table@[0]@));
    let mut r: usize = 1;
    while r < table.len()
        invariant
            1 <= r <= table@.len(),
            t == table_view(table@),
            header_len == t[0].len(),
            forall|q: int| 1 <= q < r ==> #[trigger] t[q].len() <= t[0].len(),
        decreases table.len() - r,
    {
        assert(t[r as int] == views(table@[r as int]@));
        if table[r].len() > header_len {
            return false;
        }
        r = r + 1;
    }
    let mut i: usize = 0;
    while i < header_len
        invariant
            i <= header_len,
            table@.len() >= 2,
            t == table_view(table@),
            header_len == t[0].len(),
            header_len == table@[0]@.len(),
            t[0] == views(table@[0]@),
            forall|q: int| 1 <= q < t.len() ==> #[trigger] t[q].len() <= t[0].len(),
            forall|q: int| 0 <= q < i ==> 3 * (#[trigger] t[0][q]).len() + 3 <= usize::MAX,
        decreases header_len - i,
    {
        let n = table[0][i].unicode_len();
        assert(t[0][i as int] == table@[0]@[i as int]@);
        if n > (usize::MAX - 3) / 3 {
            assert(!(3 * t[0][i as int].len() + 3 <= usize::MAX));
            return false;
        }
        i = i + 1;
    }
    true
}

/// Whether every table of a Markdown document can be drawn, so that
/// `parse_document` can read it.
#[verifier::spinoff_prover]
#[verifier::rlimit(40)]
pub fn document_fits(input: &str) -> (r: bool)
    ensures
        r == doc_ok(lines_of(input@), 0, false),
{
    proof {
        reveal_strlit("```");
    }
    let liness = lines(input);
    let ghost ls = views(liness@);
    let n = liness.len();
    let mut in_code = false;
    let mut i: usize = 0;
    while i < n
        invariant
            n == liness@.len(),
            i <= n,
            ls == views(liness@),
            ls == lines_of(input@),
            doc_ok(ls, i as int, in_code) == doc_ok(ls, 0, false),
        decreases n - i,
    {
        proof {
            reveal_strlit("```");
            reveal_strlit("### ");
            reveal_strlit("## ");
            reveal_strlit("# ");
            reveal_strlit("- ");
            reveal_strlit("|");
        }
        let raw = liness[i].as_str();
        assert(ls[i as int] == raw@);
        let t = trim(raw);
        if matches_at(t, "```", 0) {
            in_code = !in_code;
            i = i + 1;
        } else if in_code || matches_at(raw, "### ", 0) || matches_at(raw, "## ", 0) || matches_at(
            raw,
            "# ",
            0,
        ) || matches_at(trim_start(raw), "- ", 0) {
            i = i + 1;
        } else if matches_at(t, "|", 0) && contains(raw, "|") {
            let mut j: usize = i + 1;
            while j < n && matches_at(trim(liness[j].as_str()), "|", 0)
                invariant
                    n == liness@.len(),
                    i < j <= n,
                    ls == views(liness@),
                    forall|k: int| i + 1 <= k < j ==> has_prefix(trimmed(ls[k]), "|"@),
                decreases n - j,
            {
                assert(ls[j as int] == liness@[j as int]@);
                j = j + 1;
            }
            proof {
                if j < n {
                    assert(ls[j as int] == liness@[j as int]@);
                }
                lemma_table_end_at(ls, i + 1, j as int);
            }
            let mut tl: Vec<&str> = Vec::new();
            let mut k: usize = i;
            while k < j
                invariant
                    i <= k <= j <= n,
                    n == liness@.len(),
                    ls == views(liness@),
                    tl@.map_values(|l: &str| l@) == ls.subrange(i as int, k as int),
                decreases j - k,
            {
                let ghost tb = tl@;
                let piece = liness[k].as_str();
                tl.push(piece);
                assert(ls[k as int] == piece@);
                assert(tl@.map_values(|l: &str| l@) =~= tb.map_values(|l: &str| l@).push(piece@));
                assert(tl@.map_values(|l: &str| l@) =~= ls.subrange(i as int, k + 1));
                k = k + 1;
            }
            let table = parse_table(tl.as_slice());
            if !table_ok(&table) {
                return false;
            }
            i = j;
        } else {
            i = i + 1;
        }
    }
    true
}

/// A document on screen: its title, its display lines and how far it is
/// scrolled down and sideways.
#[derive(Debug)]
pub struct FileViewer {
    pub title: String,
    pub text: Vec<DisplayLine>,
    pub scroll: u16,
    pub scroll_x: u16,
}

/// A key press on the document screen.
#[derive(Debug, Clone, Copy, PartialEq, Eq, Structural)]
pub enum ViewerKey {
    Quit,
    Down,
    Up,
    PageDown,
    PageUp,
    Right,
    Left,
    Other,
}

/// A sum clipped to the `u16` range.
pub open spec fn sat_add(a: u16, b: u16) -> u16 {
    if a + b > u16::MAX { u16::MAX } else { (a + b) as u16 }
}

/// A difference clipped at zero.
pub open spec fn sat_sub(a: u16, b: u16) -> u16 {
    if a < b { 0 } else { (a - b) as u16 }
}

/// The scroll offsets after a key press, and whether it closes the screen.
pub open spec fn viewer_key(scroll: u16, scroll_x: u16, key: ViewerKey) -> (u16, u16, bool) {
    match key {
        ViewerKey::Quit => (scroll, scroll_x, true),
        ViewerKey::Down => (sat_add(scroll, 1), scroll_x, false),
        ViewerKey::Up => (sat_sub(scroll, 1), scroll_x, false),
        ViewerKey::PageDown => (sat_add(scroll, 10), scroll_x, false),
        ViewerKey::PageUp => (sat_sub(scroll, 10), scroll_x, false),
        ViewerKey::Right => (scroll, sat_add(scroll_x, 2), false),
        ViewerKey::Left => (scroll, sat_sub(scroll_x, 2), false),
        ViewerKey::Other => (scroll, scroll_x, false),
    }
}

/// The part of a sideways-scrolling line shown from column `start` on
/// `width` columns: `<` marks hidden text on the left, `>` on the right.
pub open spec fn clipped(content: Seq<char>, start: int, width: int) -> Seq<char> {
    let visible = if start < content.len() {
        content.skip(start).take(if width < content.len() - start { width } else { content.len() - start })
    } else {
        Seq::empty()
    };
    let left = if start > 0 && visible.len() > 0 { visible.update(0, '<') } else { visible };
    if start + width < content.len() && left.len() > 0 {
        left.update(left.len() - 1, '>')
    } else {
        left
    }
}

impl FileViewer {
    /// The screen for a document, at its top.
    pub fn new(title: String, content: &str) -> (r: Self)
        requires
            doc_ok(lines_of(content@), 0, false),
        ensures
            r.title@ == title@,
            displays_view(r.text@) == doc_from(lines_of(content@), 0, false),
            r.scroll == 0,
            r.scroll_x == 0,
    {
        FileViewer { title, text: parse_document(String::from_str(content)), scroll: 0, scroll_x: 0 }
    }

    /// Handles a key press; says whether the screen closes.
    pub fn handle_input(&mut self, key: ViewerKey) -> (close: bool)
        ensures
            (final(self).scroll, final(self).scroll_x, close) == viewer_key(
                old(self).scroll,
                old(self).scroll_x,
                key,
            ),
            final(self).title@ == old(self).title@,
            displays_view(final(self).text@) == displays_view(old(self).text@),
    {
        match key {
            ViewerKey::Quit => {
                return true;
            },
            ViewerKey::Down => self.scroll = self.scroll.saturating_add(1),
            ViewerKey::Up => self.scroll = self.scroll.saturating_sub(1),
            ViewerKey::PageDown => self.scroll = self.scroll.saturating_add(10),
            ViewerKey::PageUp => self.scroll = self.scroll.saturating_sub(10),
            ViewerKey::Right => self.scroll_x = self.scroll_x.saturating_add(2),
            ViewerKey::Left => self.scroll_x = self.scroll_x.saturating_sub(2),
            ViewerKey::Other => {},
        }
        false
    }
}

/// The part of a sideways-scrolling line shown from column `scroll_x` in an
/// area `area_width` columns wide (its frame takes two).
pub fn visible_part(content: &str, scroll_x: u16, area_width: u16) -> (r: String)
    requires
        area_width >= 2,
    ensures
        r@ == clipped(content@, scroll_x as int, area_width - 2),
{
    let start = scroll_x as usize;
    let width = area_width as usize - 2;
    let n = content.unicode_len();
    let mut chars: Vec<char> = Vec::new();
    if start < n {
        let end = if width < n - start {
            start + width
        } else {
            n
        };
        let mut k: usize = start;
        while k < end
            invariant
                start <= k <= end <= n,
                n == content@.len(),
                chars@ == content@.subrange(start as int, k as int),
            decreases end - k,
        {
            chars.push(content.get_char(k));
            assert(chars@ =~= content@.subrange(start as int, k + 1));
            k = k + 1;
        }
        assert(chars@ =~= content@.skip(start as int).take((end - start) as int));
    }
    let ghost visible = chars@;
    if start > 0 && chars.len() > 0 {
        chars.set(0, '<');
    }
    if start + width < n && chars.len() > 0 {
        let last = chars.len() - 1;
        chars.set(last, '>');
    }
    let mut out = String::new();
    let mut i: usize = 0;
    while i < chars.len()
        invariant
            i <= chars@.len(),
            out@ == chars@.take(i as int),
        decreases chars.len() - i,
    {
        push_char(&mut out, chars[i]);
        assert(out@ =~= chars@.take(i + 1));
        i = i + 1;
    }
    assert(chars@.take(i as int) =~= chars@);
    assert(out@ =~= clipped(content@, scroll_x as int, area_width - 2));
    out
}


/// Every piece of a word cut to width `k` is at most `k` long.
proof fn lemma_chunks_fit(w: Seq<char>, k: int)
    requires
        k > 0,
    ensures
        forall|j: int| 0 <= j < char_chunks(w, k).len() ==> #[trigger] char_chunks(w, k)[j].len() <= k,
    decreases w.len(),
{
    if w.len() > k {
        lemma_chunks_fit(w.skip(k), k);
        let rest = char_chunks(w.skip(k), k);
        assert forall|j: int| 0 <= j < char_chunks(w, k).len() implies #[trigger] char_chunks(w, k)[j].len() <= k by {
            if j > 0 {
                assert(char_chunks(w, k)[j] == rest[j - 1]);
            }
        }
    }
}

/// Lines that all fit a width.
spec fn all_fit(ls: Seq<Seq<char>>, width: int) -> bool {
    forall|j: int| 0 <= j < ls.len() ==> #[trigger] ls[j].len() <= width
}

proof fn lemma_all_fit_append(a: Seq<Seq<char>>, b: Seq<Seq<char>>, width: int)
    requires
        all_fit(a, width),
        all_fit(b, width),
    ensures
        all_fit(a + b, width),
{
    assert forall|j: int| 0 <= j < (a + b).len() implies #[trigger] (a + b)[j].len() <= width by {
        if j < a.len() {
            assert((a + b)[j] == a[j]);
        } else {
            assert((a + b)[j] == b[j - a.len()]);
        }
    }
}

proof fn lemma_wrap_fits(ws: Seq<Seq<char>>, i: int, width: int, lines: Seq<Seq<char>>, current: Seq<char>)
    requires
        width > 0,
        all_fit(lines, width),
        current.len() <= width,
    ensures
        all_fit(wrap_from(ws, i, width, lines, current).0, width),
        wrap_from(ws, i, width, lines, current).1.len() <= width,
    decreases ws.len() - i,
{
    if 0 <= i < ws.len() {
        let w = ws[i];
        lemma_chunks_fit(w, width);
        if current.len() == 0 {
            if w.len() <= width {
                lemma_wrap_fits(ws, i + 1, width, lines, w);
            } else {
                lemma_all_fit_append(lines, char_chunks(w, width), width);
                lemma_wrap_fits(ws, i + 1, width, lines + char_chunks(w, width), current);
            }
        } else if current.len() + 1 + w.len() <= width {
            lemma_wrap_fits(ws, i + 1, width, lines, current.push(' ') + w);
        } else if w.len() <= width {
            lemma_all_fit_append(lines, seq![current], width);
            assert(lines.push(current) == lines + seq![current]);
            lemma_wrap_fits(ws, i + 1, width, lines.push(current), w);
        } else {
            lemma_all_fit_append(lines, seq![current], width);
            assert(lines.push(current) == lines + seq![current]);
            lemma_all_fit_append(lines.push(current), char_chunks(w, width), width);
            lemma_wrap_fits(ws, i + 1, width, lines.push(current) + char_chunks(w, width), Seq::empty());
        }
    }
}

/// Every line of a wrapped table cell fits the column.
pub proof fn lemma_wrapped_cell_fits(cell: Seq<char>, width: int)
    requires
        width >= 0,
    ensures
        forall|j: int| 0 <= j < wrapped_cell(cell, width).len() ==> #[trigger] wrapped_cell(cell, width)[j].len() <= width,
{
    if width > 0 {
        lemma_wrap_fits(words(cell), 0, width, Seq::empty(), Seq::empty());
        let (ls, cur) = wrap_from(words(cell), 0, width, Seq::empty(), Seq::empty());
        if cur.len() > 0 {
            lemma_all_fit_append(ls, seq![cur], width);
            assert(ls.push(cur) == ls + seq![cur]);
        }
    }
}

} // verus!
