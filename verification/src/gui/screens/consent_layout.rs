//! What the consent screens show for a given terminal size.
use crate::terms::terms_getter::Type;
use vstd::prelude::*;

verus! {

/// A line of a consent screen.
#[derive(Debug, Clone, Copy)]
pub enum ConsentLine {
    /// A check box: its label, whether it is ticked, whether it has the
    /// focus and whether it may be ticked now.
    CheckBox { label: &'static str, checked: bool, active: bool, allowed: bool },
    /// A line of text.
    Text(&'static str),
    /// "Goes into effect on" the date of this UNIX second, for a document.
    EffectiveDate(Type, u64),
}

/// A line as plain values.
pub enum LineModel {
    CheckBox { label: Seq<char>, checked: bool, active: bool, allowed: bool },
    Text(Seq<char>),
    EffectiveDate(Type, u64),
}

/// The model of a line.
pub open spec fn line_model(l: ConsentLine) -> LineModel {
    match l {
        ConsentLine::CheckBox { label, checked, active, allowed } => LineModel::CheckBox {
            label: label@,
            checked,
            active,
            allowed,
        },
        ConsentLine::Text(t) => LineModel::Text(t@),
        ConsentLine::EffectiveDate(t, at) => LineModel::EffectiveDate(t, at),
    }
}

/// The models of lines.
pub open spec fn lines_model(v: Seq<ConsentLine>) -> Seq<LineModel> {
    v.map_values(|l: ConsentLine| line_model(l))
}

/// The models of texts.
pub open spec fn texts(v: Seq<&'static str>) -> Seq<LineModel> {
    v.map_values(|t: &'static str| LineModel::Text(t@))
}

/// How a measure compares with what the screen wants.
#[derive(Debug, Clone, Copy, PartialEq, Eq, Structural)]
pub enum Level {
    Good,
    Tight,
    TooSmall,
}

/// The lines left once optional lines are dropped, in the given order of
/// positions, while more lines remain than `budget`.
pub open spec fn fit(lines: Seq<LineModel>, optional: Seq<usize>, budget: int) -> Seq<LineModel>
    decreases optional.len(),
{
    if lines.len() <= budget || optional.len() == 0 {
        lines
    } else if optional[0] < lines.len() {
        fit(lines.remove(optional[0] as int), optional.drop_first(), budget)
    } else {
        lines
    }
}

/// Whether each optional position, taken in turn, names a line that is
/// still there.
pub open spec fn removable(n: int, optional: Seq<usize>) -> bool
    decreases optional.len(),
{
    optional.len() == 0 || (optional[0] < n && removable(n - 1, optional.drop_first()))
}

/// Drops optional lines, in the given order of positions, while more lines
/// remain than `budget`.
pub fn fit_lines(all: Vec<ConsentLine>, optional: &Vec<usize>, budget: usize) -> (r: Vec<
    ConsentLine,
>)
    requires
        removable(all@.len() as int, optional@),
    ensures
        lines_model(r@) == fit(lines_model(all@), optional@, budget as int),
        r@.len() <= all@.len(),
{
    let mut lines = all;
    let mut k: usize = 0;
    assert(optional@.skip(0) =~= optional@);
    while k < optional.len()
        invariant
            k <= optional@.len(),
            lines@.len() <= all@.len(),
            removable(lines@.len() as int, optional@.skip(k as int)),
            fit(lines_model(lines@), optional@.skip(k as int), budget as int) == fit(
                lines_model(all@),
                optional@,
                budget as int,
            ),
        decreases optional.len() - k,
    {
        let ghost rest = optional@.skip(k as int);
        assert(rest[0] == optional@[k as int]);
        assert(rest.drop_first() =~= optional@.skip(k + 1));
        if lines.len() <= budget {
            return lines;
        }
        let i = optional[k];
        let ghost before = lines@;
        lines.remove(i);
        assert(lines_model(lines@) =~= lines_model(before).remove(i as int));
        k = k + 1;
    }
    assert(optional@.skip(k as int).len() == 0);
    lines
}

/// The line of a check box.
pub fn check_box(label: &'static str, checked: bool, active: bool, allowed: bool) -> (r: ConsentLine)
    ensures
        line_model(r) == (LineModel::CheckBox { label: label@, checked, active, allowed }),
{
    ConsentLine::CheckBox { label, checked, active, allowed }
}

} // verus!
