//! The consent update screen: accepting changed documents.
use crate::gui::screens::consent_layout::{
    ConsentLine, Level, LineModel, check_box, fit, fit_lines, lines_model, removable,
};
use crate::gui::screens::screens::{ScreenAction, ScreenKey, document_of, focused_document};
use crate::terms::terms_getter::Type;
use crate::terms::consent_state::{UpdateDecision, UpdateModel, UserChoice};
use crate::terms::doc::{Doc, DocModel, opt_view};
use crate::terms::focus::{Focus, next_in, prev_in};
use vstd::prelude::*;

verus! {

/// The state of the update screen: which documents need consent, which of
/// those are versions that take effect later (with that version), whether an
/// update is forced, the ticked boxes and the focus.
#[derive(Debug)]
pub struct TermsUpdaterScreen {
    pub eula_needed: bool,
    pub tos_needed: bool,
    pub pp_needed: bool,
    pub eula_future: bool,
    pub tos_future: bool,
    pub pp_future: bool,
    pub eula_for_future: Option<Doc>,
    pub tos_for_future: Option<Doc>,
    pub pp_for_future: Option<Doc>,
    pub update_needed: bool,
    pub eula: bool,
    pub tos: bool,
    pub pp: bool,
    pub focus: Focus,
}

/// The part of the update screen that keys change and read.
pub struct UpdaterModel {
    pub eula_needed: bool,
    pub tos_needed: bool,
    pub pp_needed: bool,
    pub eula: bool,
    pub tos: bool,
    pub pp: bool,
    pub focus: Focus,
}

impl TermsUpdaterScreen {
    /// The part of the screen that keys change and read.
    pub open spec fn model(&self) -> UpdaterModel {
        UpdaterModel {
            eula_needed: self.eula_needed,
            tos_needed: self.tos_needed,
            pp_needed: self.pp_needed,
            eula: self.eula,
            tos: self.tos,
            pp: self.pp,
            focus: self.focus,
        }
    }
}

/// Whether a decision asks for consent, whether it is for a later version,
/// and the version it offers.
pub open spec fn decision_parts(d: UpdateModel) -> (bool, bool, Option<DocModel>) {
    match d {
        UpdateModel::NoChange => (false, false, None),
        UpdateModel::Future { newest } => (true, true, Some(newest)),
        UpdateModel::Forced(doc) => (true, false, Some(doc)),
    }
}

/// The elements the focus moves over: the boxes of the documents that need
/// consent, Cancel, then Continue once the EULA is ticked, then the button
/// for all documents once the other two are ticked as well.
pub open spec fn updater_order(s: UpdaterModel) -> Seq<Focus> {
    (if s.eula_needed { seq![Focus::Eula] } else { Seq::empty() }) + (if s.tos_needed {
        seq![Focus::Tos]
    } else {
        Seq::empty()
    }) + (if s.pp_needed { seq![Focus::Pp] } else { Seq::empty() }) + seq![Focus::Cancel] + if s.eula {
        seq![Focus::Continue] + if s.tos && s.pp {
            seq![Focus::ContinueAll]
        } else {
            Seq::empty()
        }
    } else {
        Seq::empty()
    }
}

/// Enter or space on the focused element.
pub open spec fn updater_activate(s: UpdaterModel) -> (UpdaterModel, ScreenAction) {
    match s.focus {
        Focus::Eula => (
            UpdaterModel { eula: !s.eula, tos: !s.tos_needed, pp: !s.pp_needed, ..s },
            ScreenAction::Handled,
        ),
        Focus::Tos => if s.eula {
            (UpdaterModel { tos: !s.tos, ..s }, ScreenAction::Handled)
        } else {
            (s, ScreenAction::Unhandled)
        },
        Focus::Pp => if s.eula {
            (UpdaterModel { pp: !s.pp, ..s }, ScreenAction::Handled)
        } else {
            (s, ScreenAction::Unhandled)
        },
        Focus::Cancel => (s, ScreenAction::Close(UserChoice::Deny)),
        Focus::Continue => if s.eula {
            (s, ScreenAction::Close(UserChoice::AcceptEULA))
        } else {
            (s, ScreenAction::Unhandled)
        },
        Focus::ContinueAll => if s.eula && s.tos && s.pp {
            (s, ScreenAction::Close(UserChoice::AcceptAll))
        } else {
            (s, ScreenAction::Unhandled)
        },
    }
}

/// The state and outcome after a key press.
pub open spec fn updater_key(s: UpdaterModel, key: ScreenKey) -> (UpdaterModel, ScreenAction) {
    match key {
        ScreenKey::Esc => (s, ScreenAction::Close(UserChoice::Deny)),
        ScreenKey::Enter => updater_activate(s),
        ScreenKey::Char(c) => if c == 'q' || c == 'Q' {
            (s, ScreenAction::Close(UserChoice::Deny))
        } else if c == ' ' {
            updater_activate(s)
        } else if c == 'o' || c == 'O' {
            (
                s,
                match focused_document(s.focus) {
                    Some(t) => ScreenAction::OpenDocument(t),
                    None => ScreenAction::Unhandled,
                },
            )
        } else if c == 'l' || c == 'L' {
            (
                s,
                match focused_document(s.focus) {
                    Some(t) => ScreenAction::OpenLink(t),
                    None => ScreenAction::Unhandled,
                },
            )
        } else {
            (s, ScreenAction::Unhandled)
        },
        ScreenKey::Up | ScreenKey::Left => (
            UpdaterModel { focus: prev_in(updater_order(s), s.focus), ..s },
            ScreenAction::Handled,
        ),
        ScreenKey::Down | ScreenKey::Right | ScreenKey::Tab => (
            UpdaterModel { focus: next_in(updater_order(s), s.focus), ..s },
            ScreenAction::Handled,
        ),
        ScreenKey::Other => (s, ScreenAction::Unhandled),
    }
}

/// Splits a decision into whether it asks for consent, whether it is for a
/// later version, and the version it offers.
fn parts_of(d: UpdateDecision) -> (r: (bool, bool, Option<Doc>))
    ensures
        (r.0, r.1, opt_view(r.2)) == decision_parts(d@),
{
    match d {
        UpdateDecision::NoChange => (false, false, None),
        UpdateDecision::Future { newest } => (true, true, Some(newest)),
        UpdateDecision::Forced(doc) => (true, false, Some(doc)),
    }
}

impl TermsUpdaterScreen {
    /// The screen for the three decisions: the focus on the first document
    /// that needs consent (Cancel when none does), the boxes of documents
    /// that need none ticked, and an update forced when some document in
    /// force was never accepted.
    pub fn new(consent_eula: UpdateDecision, consent_tos: UpdateDecision, consent_pp: UpdateDecision) -> (r:
        Self)
        ensures
            ({
                let (en, ef, ed) = decision_parts(consent_eula@);
                let (tn, tf, td) = decision_parts(consent_tos@);
                let (pn, pf, pd) = decision_parts(consent_pp@);
                &&& r.eula_needed == en && r.eula_future == ef && opt_view(r.eula_for_future) == ed
                &&& r.tos_needed == tn && r.tos_future == tf && opt_view(r.tos_for_future) == td
                &&& r.pp_needed == pn && r.pp_future == pf && opt_view(r.pp_for_future) == pd
                &&& r.update_needed == ((en && !ef) || (tn && !tf) || (pn && !pf))
                &&& r.eula == !en && r.tos == !tn && r.pp == !pn
                &&& r.focus == if en {
                    Focus::Eula
                } else if tn {
                    Focus::Tos
                } else if pn {
                    Focus::Pp
                } else {
                    Focus::Cancel
                }
            }),
    {
        let (eula_needed, eula_future, eula_for_future) = parts_of(consent_eula);
        let (tos_needed, tos_future, tos_for_future) = parts_of(consent_tos);
        let (pp_needed, pp_future, pp_for_future) = parts_of(consent_pp);
        let focus = if eula_needed {
            Focus::Eula
        } else if tos_needed {
            Focus::Tos
        } else if pp_needed {
            Focus::Pp
        } else {
            Focus::Cancel
        };
        let update_needed = (eula_needed && !eula_future) || (tos_needed && !tos_future) || (pp_needed
            && !pp_future);
        TermsUpdaterScreen {
            eula_needed,
            tos_needed,
            pp_needed,
            eula_future,
            tos_future,
            pp_future,
            eula_for_future,
            tos_for_future,
            pp_for_future,
            update_needed,
            eula: !eula_needed,
            tos: !tos_needed,
            pp: !pp_needed,
            focus,
        }
    }

    /// The elements the focus moves over, in order.
    pub fn possible_states(&self) -> (r: Vec<Focus>)
        ensures
            r@ == updater_order(self.model()),
    {
        let mut states: Vec<Focus> = Vec::new();
        if self.eula_needed {
            states.push(Focus::Eula);
        }
        if self.tos_needed {
            states.push(Focus::Tos);
        }
        if self.pp_needed {
            states.push(Focus::Pp);
        }
        states.push(Focus::Cancel);
        if self.eula {
            states.push(Focus::Continue);
            if self.tos && self.pp {
                states.push(Focus::ContinueAll);
            }
        }
        assert(states@ =~= updater_order(self.model()));
        states
    }

    /// Enter or space on the focused element.
    pub(crate) fn activate(&mut self) -> (r: ScreenAction)
        ensures
            (final(self).model(), r) == updater_activate(old(self).model()),
            final(self).eula_future == old(self).eula_future,
            final(self).tos_future == old(self).tos_future,
            final(self).pp_future == old(self).pp_future,
            final(self).update_needed == old(self).update_needed,
            final(self).eula_for_future == old(self).eula_for_future,
            final(self).tos_for_future == old(self).tos_for_future,
            final(self).pp_for_future == old(self).pp_for_future,
    {
        match self.focus {
            Focus::Eula => {
                self.eula = !self.eula;
                self.tos = !self.tos_needed;
                self.pp = !self.pp_needed;
                ScreenAction::Handled
            },
            Focus::Tos => {
                if self.eula {
                    self.tos = !self.tos;
                    ScreenAction::Handled
                } else {
                    ScreenAction::Unhandled
                }
            },
            Focus::Pp => {
                if self.eula {
                    self.pp = !self.pp;
                    ScreenAction::Handled
                } else {
                    ScreenAction::Unhandled
                }
            },
            Focus::Cancel => ScreenAction::Close(UserChoice::Deny),
            Focus::Continue => {
                if self.eula {
                    ScreenAction::Close(UserChoice::AcceptEULA)
                } else {
                    ScreenAction::Unhandled
                }
            },
            Focus::ContinueAll => {
                if self.eula && self.tos && self.pp {
                    ScreenAction::Close(UserChoice::AcceptAll)
                } else {
                    ScreenAction::Unhandled
                }
            },
        }
    }

    /// Handles a key press; what the screen shows of the documents stays.
    pub fn handle_input(&mut self, key: ScreenKey) -> (r: ScreenAction)
        ensures
            (final(self).model(), r) == updater_key(old(self).model(), key),
            final(self).eula_future == old(self).eula_future,
            final(self).tos_future == old(self).tos_future,
            final(self).pp_future == old(self).pp_future,
            final(self).update_needed == old(self).update_needed,
            final(self).eula_for_future == old(self).eula_for_future,
            final(self).tos_for_future == old(self).tos_for_future,
            final(self).pp_for_future == old(self).pp_for_future,
    {
        let states = self.possible_states();
        match key {
            ScreenKey::Esc => ScreenAction::Close(UserChoice::Deny),
            ScreenKey::Enter => self.activate(),
            ScreenKey::Char(c) => {
                if c == 'q' || c == 'Q' {
                    ScreenAction::Close(UserChoice::Deny)
                } else if c == ' ' {
                    self.activate()
                } else if c == 'o' || c == 'O' {
                    match document_of(self.focus) {
                        Some(t) => ScreenAction::OpenDocument(t),
                        None => ScreenAction::Unhandled,
                    }
                } else if c == 'l' || c == 'L' {
                    match document_of(self.focus) {
                        Some(t) => ScreenAction::OpenLink(t),
                        None => ScreenAction::Unhandled,
                    }
                } else {
                    ScreenAction::Unhandled
                }
            },
            ScreenKey::Up | ScreenKey::Left => {
                self.focus.prev(states.as_slice());
                ScreenAction::Handled
            },
            ScreenKey::Down | ScreenKey::Right | ScreenKey::Tab => {
                self.focus.next(states.as_slice());
                ScreenAction::Handled
            },
            ScreenKey::Other => ScreenAction::Unhandled,
        }
    }
}

/// What the update screen shows on a terminal of a given size.
#[derive(Debug)]
pub enum UpdaterView {
    /// Too small for anything but a note with the size.
    TooSmall,
    /// A note that the terminal is too small, rating its width and height
    /// against the height the screen wants, and how to leave.
    Warning { width: Level, height: Level, height_goal: usize, quit_hint: &'static str },
    /// The consent text and buttons, in the area `(x, y, width, height)`.
    Full { lines: Vec<ConsentLine>, area: (u16, u16, u16, u16), quit_hint: &'static str },
}

/// A view as plain values.
pub enum UpdaterViewModel {
    TooSmall,
    Warning { width: Level, height: Level, height_goal: int, quit_hint: Seq<char> },
    Full { lines: Seq<LineModel>, area: (u16, u16, u16, u16), quit_hint: Seq<char> },
}

/// The model of a view.
pub open spec fn updater_view_model(v: UpdaterView) -> UpdaterViewModel {
    match v {
        UpdaterView::TooSmall => UpdaterViewModel::TooSmall,
        UpdaterView::Warning { width, height, height_goal, quit_hint } => UpdaterViewModel::Warning {
            width,
            height,
            height_goal: height_goal as int,
            quit_hint: quit_hint@,
        },
        UpdaterView::Full { lines, area, quit_hint } => UpdaterViewModel::Full {
            lines: lines_model(lines@),
            area,
            quit_hint: quit_hint@,
        },
    }
}

/// The label of a document's check box on the update screen.
#[verifier::opaque]
pub open spec fn update_label(t: Type, narrow: bool, future: bool) -> Seq<char> {
    match t {
        Type::EULA => if future {
            if narrow {
                "EULA ¹³ (https://legal.tensamin.net/eula/newest/)"@
            } else {
                "End User Licence Agreement ¹³ (https://legal.tensamin.net/eula/newest/)"@
            }
        } else if narrow {
            "EULA ¹ (https://legal.tensamin.net/eula/newest/)"@
        } else {
            "End User Licence Agreement ¹ (https://legal.tensamin.net/eula/newest/)"@
        },
        Type::TOS => if future {
            if narrow {
                "ToS ²³ (https://legal.tensamin.net/tos/newest/)"@
            } else {
                "Terms of Service ²³ (https://legal.tensamin.net/terms-of-service/newest/)"@
            }
        } else if narrow {
            "ToS ² (https://legal.tensamin.net/tos/newest/)"@
        } else {
            "Terms of Service ² (https://legal.tensamin.net/terms-of-service/newest/)"@
        },
        Type::PP => if future {
            if narrow {
                "PP ²³ (https://legal.tensamin.net/privacy-policy/newest/)"@
            } else {
                "Privacy Policy ²³ (https://legal.tensamin.net/privacy-policy/newest/)"@
            }
        } else if narrow {
            "PP ² (https://legal.tensamin.net/privacy-policy/newest/)"@
        } else {
            "Privacy Policy ² (https://legal.tensamin.net/privacy-policy/newest/)"@
        },
    }
}

/// The lines of one document: none when it needs no consent, else its
/// check box, followed by the date a later version takes effect.
pub open spec fn doc_lines(
    t: Type,
    narrow: bool,
    needed: bool,
    future: bool,
    doc: Option<DocModel>,
    checked: bool,
    active: bool,
    allowed: bool,
) -> Seq<LineModel> {
    if !needed {
        Seq::empty()
    } else {
        let b = LineModel::CheckBox { label: update_label(t, narrow, future), checked, active, allowed };
        if future {
            seq![b, LineModel::EffectiveDate(t, doc->0.timestamp)]
        } else {
            seq![b]
        }
    }
}

/// The texts below the footnotes, by width class and whether the screen
/// offers a downgrade.
#[verifier::opaque]
pub open spec fn updater_tail(width: u16, down: bool, legacy: bool) -> Seq<Seq<char>> {
    if width > 143 {
        (if down {
            seq![
                if legacy {
                    "By selecting Downgrade, you confirm that you have agree to the End User License Agreement and applicable Terms of Service."@
                } else {
                    "By selecting Downgrade, you confirm that you agree to the End User License Agreement and applicable Terms of Service."@
                },
                "On Downgrade: Tensamin Services will deactivate once these changes apply."@,
            ]
        } else {
            seq![
                if legacy {
                    "By selecting Continue, you confirm that you have agree to the End User License Agreement and applicable Terms of Service."@
                } else {
                    "By selecting Continue, you confirm that you agree to the End User License Agreement and applicable Terms of Service."@
                },
            ]
        }) + seq![
            ""@,
            "Tensamin services require acceptance of the Terms of Service and Privacy Policy."@,
            ""@,
            "While having a document selected press O to view in this UI or press L to open as a link."@,
        ]
    } else if width > 92 {
        seq![
            if legacy {
                "By selecting Continue, you confirm that you have agree to the End User"@
            } else {
                "By selecting Continue, you confirm that you agree to the End User"@
            },
            "License Agreement and applicable Terms of Service."@,
        ] + (if down {
            seq!["On Downgrade: Tensamin Services will deactivate once these changes apply."@]
        } else {
            Seq::empty()
        }) + seq![
            ""@,
            "Tensamin services require acceptance of the Terms of Service and Privacy Policy."@,
            ""@,
            "While having a document selected press O to view in this UI or press L to open as a link."@,
        ]
    } else if width > 73 {
        seq![
            if legacy {
                "By selecting Continue, you confirm that you have read, understood and"@
            } else {
                "By selecting Continue, you confirm that you read, understood and"@
            },
            "agree to the End User License Agreement and applicable Terms of Service."@,
        ] + (if down {
            seq!["On Downgrade: Tensamin Services will deactivate once these changes apply."@]
        } else {
            Seq::empty()
        }) + seq![
            ""@,
            "Tensamin services require acceptance of the ToS and Privacy Policy."@,
            ""@,
            "While having a document selected press O to view in this UI or press L"@,
            "to open as a link."@,
        ]
    } else {
        seq![
            if legacy {
                "By selecting Continue, you confirm that you have"@
            } else {
                "By selecting Continue, you confirm that you"@
            },
            "agree to the End User License"@,
            "Agreement and applicable Terms of Service."@,
        ] + (if down {
            seq!["On Downgrade: Tensamin Services will deactivate"@, "once these changes apply."@]
        } else {
            Seq::empty()
        }) + seq![
            ""@,
            "Tensamin services require acceptance of the"@,
            "Terms of Service and Privacy Policy."@,
            ""@,
            "While having a document selected press O to view"@,
            "in this UI or press L to open as a link."@,
        ]
    }
}

/// The positions of the lines to drop first, given the number of lines
/// above the footnotes and the position of the header's last line.
pub open spec fn updater_optional(width: u16, down: bool, h: usize, sep: usize) -> Seq<usize> {
    let (a, b): (usize, usize) = if width > 143 {
        if down { (7, 7) } else { (6, 6) }
    } else if width > 73 {
        if down { (8, 8) } else { (7, 7) }
    } else if down {
        (10, 11)
    } else {
        (8, 9)
    };
    seq![(h + a) as usize, h, (h + b) as usize, sep, (h + 2) as usize]
}

/// The header of the update screen, by width.
#[verifier::opaque]
pub open spec fn updater_header(width: u16) -> Seq<Seq<char>> {
    if width > 72 {
        seq![
            "You previously accepted earlier versions of Tensamin’s legal documents."@,
            "Some of them have been updated and are listed below for your review."@,
            ""@,
        ]
    } else {
        seq![
            "You previously accepted earlier "@,
            "versions of Tensamin’s legal documents."@,
            "Some of them have been updated and"@,
            "are listed below for your review."@,
            ""@,
        ]
    }
}

/// All lines of the update screen before any is dropped, and the number of
/// lines above the footnotes.
pub open spec fn updater_lines(width: u16, s: &TermsUpdaterScreen, legacy: bool) -> (Seq<LineModel>, int) {
    let docs = updater_docs(s, width < 80);
    let header = updater_header(width).map_values(|t: Seq<char>| LineModel::Text(t));
    let down = s.tos_needed || s.pp_needed;
    (
        header + docs + updater_notes(width) + updater_tail(width, down, legacy).map_values(
            |t: Seq<char>| LineModel::Text(t),
        ),
        (header.len() + docs.len()) as int,
    )
}

/// The lines of the documents that need consent.
pub open spec fn updater_docs(s: &TermsUpdaterScreen, narrow: bool) -> Seq<LineModel> {
    doc_lines(
        Type::EULA,
        narrow,
        s.eula_needed,
        s.eula_future,
        opt_view(s.eula_for_future),
        s.eula,
        s.focus == Focus::Eula,
        true,
    ) + doc_lines(
        Type::TOS,
        narrow,
        s.tos_needed,
        s.tos_future,
        opt_view(s.tos_for_future),
        s.tos,
        s.focus == Focus::Tos,
        s.eula,
    ) + doc_lines(
        Type::PP,
        narrow,
        s.pp_needed,
        s.pp_future,
        opt_view(s.pp_for_future),
        s.pp,
        s.focus == Focus::Pp,
        s.eula,
    )
}

/// The footnotes of the update screen.
#[verifier::opaque]
pub open spec fn updater_notes(width: u16) -> Seq<LineModel> {
    seq![
        LineModel::Text(""@),
        LineModel::Text("¹ Necessary to run the program"@),
        LineModel::Text("² Optional - only for Tensamin services"@),
        LineModel::Text(
            if width < 100 {
                "³ Future version - consent stored now, takes effect later"@
            } else {
                "³ Future version - You’ll continue using this version, automatically updated when changes apply."@
            },
        ),
        LineModel::Text(""@),
    ]
}

/// What the update screen shows on a `width` by `height` terminal.
pub open spec fn updater_view(width: u16, height: u16, s: &TermsUpdaterScreen, legacy: bool) -> UpdaterViewModel {
    let quit_hint = if s.update_needed { "Q to Exit"@ } else { "Q to Cancel"@ };
    if height < 6 || width < 27 {
        UpdaterViewModel::TooSmall
    } else {
        let (all, h) = updater_lines(width, s, legacy);
        let sep: usize = if width > 72 { 2 } else { 4 };
        let down = s.tos_needed || s.pp_needed;
        let lines = fit(all, updater_optional(width, down, h as usize, sep), height - 5);
        let needed = 5 + lines.len();
        if width < 60 || height < needed {
            UpdaterViewModel::Warning {
                width: if width > 76 {
                    Level::Good
                } else if width >= 60 {
                    Level::Tight
                } else {
                    Level::TooSmall
                },
                height: if height > 20 {
                    Level::Good
                } else if height >= h + 10 {
                    Level::Tight
                } else {
                    Level::TooSmall
                },
                height_goal: h + 10,
                quit_hint,
            }
        } else {
            let cw: u16 = if 150 < width { 150 } else { width };
            let ch: u16 = if 30 < height { 30 } else { height };
            UpdaterViewModel::Full {
                lines,
                area: (((width - cw) / 2) as u16, ((height - ch) / 2) as u16, cw, ch),
                quit_hint,
            }
        }
    }
}

/// Appends texts as lines.
fn push_texts(lines: &mut Vec<ConsentLine>, t: &Vec<&'static str>)
    ensures
        lines_model(final(lines)@) == lines_model(old(lines)@) + t@.map_values(
            |x: &'static str| LineModel::Text(x@),
        ),
{
    let ghost start = lines_model(lines@);
    let mut k: usize = 0;
    while k < t.len()
        invariant
            k <= t@.len(),
            lines_model(lines@) == start + t@.take(k as int).map_values(
                |x: &'static str| LineModel::Text(x@),
            ),
        decreases t.len() - k,
    {
        let ghost before = lines@;
        lines.push(ConsentLine::Text(t[k]));
        assert(lines_model(lines@) =~= lines_model(before).push(LineModel::Text(t@[k as int]@)));
        assert(t@.take(k + 1).map_values(|x: &'static str| LineModel::Text(x@)) =~= t@.take(
            k as int,
        ).map_values(|x: &'static str| LineModel::Text(x@)).push(LineModel::Text(t@[k as int]@)));
        k = k + 1;
    }
    assert(t@.take(t@.len() as int) =~= t@);
}

/// The label of a document's check box on the update screen.
fn label_for(t: Type, narrow: bool, future: bool) -> (r: &'static str)
    ensures
        r@ == update_label(t, narrow, future),
{
    reveal(update_label);
    match t {
        Type::EULA => if future {
            if narrow {
                "EULA ¹³ (https://legal.tensamin.net/eula/newest/)"
            } else {
                "End User Licence Agreement ¹³ (https://legal.tensamin.net/eula/newest/)"
            }
        } else if narrow {
            "EULA ¹ (https://legal.tensamin.net/eula/newest/)"
        } else {
            "End User Licence Agreement ¹ (https://legal.tensamin.net/eula/newest/)"
        },
        Type::TOS => if future {
            if narrow {
                "ToS ²³ (https://legal.tensamin.net/tos/newest/)"
            } else {
                "Terms of Service ²³ (https://legal.tensamin.net/terms-of-service/newest/)"
            }
        } else if narrow {
            "ToS ² (https://legal.tensamin.net/tos/newest/)"
        } else {
            "Terms of Service ² (https://legal.tensamin.net/terms-of-service/newest/)"
        },
        Type::PP => if future {
            if narrow {
                "PP ²³ (https://legal.tensamin.net/privacy-policy/newest/)"
            } else {
                "Privacy Policy ²³ (https://legal.tensamin.net/privacy-policy/newest/)"
            }
        } else if narrow {
            "PP ² (https://legal.tensamin.net/privacy-policy/newest/)"
        } else {
            "Privacy Policy ² (https://legal.tensamin.net/privacy-policy/newest/)"
        },
    }
}

/// Appends the lines of one document.
fn push_doc_lines(
    lines: &mut Vec<ConsentLine>,
    t: Type,
    narrow: bool,
    needed: bool,
    future: bool,
    doc: &Option<Doc>,
    checked: bool,
    active: bool,
    allowed: bool,
)
    requires
        needed && future ==> doc is Some,
    ensures
        lines_model(final(lines)@) == lines_model(old(lines)@) + doc_lines(
            t,
            narrow,
            needed,
            future,
            opt_view(*doc),
            checked,
            active,
            allowed,
        ),
{
    if !needed {
        assert(lines_model(lines@) =~= lines_model(lines@) + Seq::<LineModel>::empty());
        return;
    }
    let ghost before = lines@;
    lines.push(check_box(label_for(t, narrow, future), checked, active, allowed));
    if future {
        match doc {
            Some(d) => {
                lines.push(ConsentLine::EffectiveDate(t, d.get_time()));
            },
            None => {},
        }
    }
    assert(lines_model(lines@) =~= lines_model(before) + doc_lines(
        t,
        narrow,
        needed,
        future,
        opt_view(*doc),
        checked,
        active,
        allowed,
    ));
}

/// The texts below the footnotes.
fn tail_texts(width: u16, down: bool, legacy: bool) -> (r: Vec<&'static str>)
    ensures
        r@.map_values(|t: &'static str| t@) == updater_tail(width, down, legacy),
{
    reveal(updater_tail);
    let mut v: Vec<&'static str> = Vec::new();
    if width > 143 {
        if down {
            v.push(
                if legacy {
                    "By selecting Downgrade, you confirm that you have agree to the End User License Agreement and applicable Terms of Service."
                } else {
                    "By selecting Downgrade, you confirm that you agree to the End User License Agreement and applicable Terms of Service."
                },
            );
            v.push("On Downgrade: Tensamin Services will deactivate once these changes apply.");
        } else {
            v.push(
                if legacy {
                    "By selecting Continue, you confirm that you have agree to the End User License Agreement and applicable Terms of Service."
                } else {
                    "By selecting Continue, you confirm that you agree to the End User License Agreement and applicable Terms of Service."
                },
            );
        }
        v.push("");
        v.push("Tensamin services require acceptance of the Terms of Service and Privacy Policy.");
        v.push("");
        v.push(
            "While having a document selected press O to view in this UI or press L to open as a link.",
        );
    } else if width > 92 {
        v.push(
            if legacy {
                "By selecting Continue, you confirm that you have agree to the End User"
            } else {
                "By selecting Continue, you confirm that you agree to the End User"
            },
        );
        v.push("License Agreement and applicable Terms of Service.");
        if down {
            v.push("On Downgrade: Tensamin Services will deactivate once these changes apply.");
        }
        v.push("");
        v.push("Tensamin services require acceptance of the Terms of Service and Privacy Policy.");
        v.push("");
        v.push(
            "While having a document selected press O to view in this UI or press L to open as a link.",
        );
    } else if width > 73 {
        v.push(
            if legacy {
                "By selecting Continue, you confirm that you have read, understood and"
            } else {
                "By selecting Continue, you confirm that you read, understood and"
            },
        );
        v.push("agree to the End User License Agreement and applicable Terms of Service.");
        if down {
            v.push("On Downgrade: Tensamin Services will deactivate once these changes apply.");
        }
        v.push("");
        v.push("Tensamin services require acceptance of the ToS and Privacy Policy.");
        v.push("");
        v.push("While having a document selected press O to view in this UI or press L");
        v.push("to open as a link.");
    } else {
        v.push(
            if legacy {
                "By selecting Continue, you confirm that you have"
            } else {
                "By selecting Continue, you confirm that you"
            },
        );
        v.push("agree to the End User License");
        v.push("Agreement and applicable Terms of Service.");
        if down {
            v.push("On Downgrade: Tensamin Services will deactivate");
            v.push("once these changes apply.");
        }
        v.push("");
        v.push("Tensamin services require acceptance of the");
        v.push("Terms of Service and Privacy Policy.");
        v.push("");
        v.push("While having a document selected press O to view");
        v.push("in this UI or press L to open as a link.");
    }
    assert(v@.map_values(|t: &'static str| t@) =~= updater_tail(width, down, legacy));
    v
}

/// The header texts.
fn header_texts(width: u16) -> (r: Vec<&'static str>)
    ensures
        r@.map_values(|t: &'static str| t@) == updater_header(width),
{
    reveal(updater_header);
    let v = if width > 72 {
        vec![
            "You previously accepted earlier versions of Tensamin’s legal documents.",
            "Some of them have been updated and are listed below for your review.",
            "",
        ]
    } else {
        vec![
            "You previously accepted earlier ",
            "versions of Tensamin’s legal documents.",
            "Some of them have been updated and",
            "are listed below for your review.",
            "",
        ]
    };
    assert(v@.map_values(|t: &'static str| t@) =~= updater_header(width));
    v
}

/// At most two lines per document.
proof fn lemma_docs_len(s: &TermsUpdaterScreen, narrow: bool)
    ensures
        updater_docs(s, narrow).len() <= 6,
{
}

/// The header has three or five lines, the notes five, the texts below
/// them at most eleven.
proof fn lemma_fixed_lens(width: u16)
    ensures
        3 <= updater_header(width).len() <= 5,
        updater_notes(width).len() == 5,
        updater_tail(width, true, true).len() <= 11,
        updater_tail(width, false, true).len() <= 11,
        updater_tail(width, true, false).len() <= 11,
        updater_tail(width, false, false).len() <= 11,
{
    reveal(updater_header);
    reveal(updater_notes);
    reveal(updater_tail);
}

/// Appending three pieces in turn appends their concatenation.
proof fn lemma_concat3(
    start: Seq<LineModel>,
    a: Seq<LineModel>,
    b: Seq<LineModel>,
    c: Seq<LineModel>,
    s1: Seq<LineModel>,
    s2: Seq<LineModel>,
    s3: Seq<LineModel>,
)
    requires
        s1 == start + a,
        s2 == s1 + b,
        s3 == s2 + c,
    ensures
        s3 == start + (a + b + c),
        (a + b + c).len() == a.len() + b.len() + c.len(),
{
    assert(s3 =~= start + (a + b + c));
}

/// Appends the footnotes.
fn push_notes(lines: &mut Vec<ConsentLine>, width: u16)
    ensures
        lines_model(final(lines)@) == lines_model(old(lines)@) + updater_notes(width),
{
    reveal(updater_notes);
    let ghost start = lines_model(lines@);
    lines.push(ConsentLine::Text(""));
    lines.push(ConsentLine::Text("¹ Necessary to run the program"));
    lines.push(ConsentLine::Text("² Optional - only for Tensamin services"));
    if width < 100 {
        lines.push(ConsentLine::Text("³ Future version - consent stored now, takes effect later"));
    } else {
        lines.push(
            ConsentLine::Text(
                "³ Future version - You’ll continue using this version, automatically updated when changes apply.",
            ),
        );
    }
    lines.push(ConsentLine::Text(""));
    assert(lines_model(lines@) =~= start + updater_notes(width));
}

/// Texts as lines.
proof fn lemma_texts_lines(t: Seq<&'static str>)
    ensures
        t.map_values(|x: &'static str| LineModel::Text(x@)) == t.map_values(|x: &'static str| x@).map_values(
            |x: Seq<char>| LineModel::Text(x),
        ),
{
    assert(t.map_values(|x: &'static str| LineModel::Text(x@)) =~= t.map_values(|x: &'static str| x@).map_values(
        |x: Seq<char>| LineModel::Text(x),
    ));
}

/// Whether the dropping order always names a line that is still there.
proof fn lemma_updater_removable(
    width: u16,
    down: bool,
    legacy: bool,
    h: usize,
    sep: usize,
    tail: int,
    total: int,
)
    requires
        h >= 3,
        sep <= 4,
        tail == updater_tail(width, down, legacy).len(),
        total == h + 5 + tail,
        h <= 11,
    ensures
        removable(total, updater_optional(width, down, h, sep)),
{
    reveal_with_fuel(removable, 6);
    reveal(updater_tail);
    let o = updater_optional(width, down, h, sep);
    assert(o.drop_first() =~= seq![o[1], o[2], o[3], o[4]]);
    assert(o.drop_first().drop_first() =~= seq![o[2], o[3], o[4]]);
    assert(o.drop_first().drop_first().drop_first() =~= seq![o[3], o[4]]);
    assert(o.drop_first().drop_first().drop_first().drop_first() =~= seq![o[4]]);
    assert(o.drop_first().drop_first().drop_first().drop_first().drop_first() =~= Seq::<usize>::empty());
}

impl TermsUpdaterScreen {
    /// All lines of the screen before any is dropped, and the number of
    /// lines above the footnotes.
    fn all_lines(&self, width: u16, legacy: bool) -> (r: (Vec<ConsentLine>, usize))
        requires
            self.eula_needed && self.eula_future ==> self.eula_for_future is Some,
            self.tos_needed && self.tos_future ==> self.tos_for_future is Some,
            self.pp_needed && self.pp_future ==> self.pp_for_future is Some,
        ensures
            (lines_model(r.0@), r.1 as int) == updater_lines(width, self, legacy),
            3 <= r.1 <= 11,
            r.0@.len() == r.1 + 5 + updater_tail(width, self.tos_needed || self.pp_needed, legacy).len(),
    {
        let mut lines: Vec<ConsentLine> = Vec::new();
        let header = header_texts(width);
        push_texts(&mut lines, &header);
        let ghost hv = updater_header(width).map_values(|t: Seq<char>| LineModel::Text(t));
        proof {
            lemma_texts_lines(header@);
            assert(lines_model(lines@) =~= hv);
        }
        self.push_docs(&mut lines, width < 80);
        proof {
            lemma_docs_len(self, width < 80);
            lemma_fixed_lens(width);
        }
        let h = lines.len();
        push_notes(&mut lines, width);
        let down = self.tos_needed || self.pp_needed;
        let tail = tail_texts(width, down, legacy);
        let ghost before_tail = lines_model(lines@);
        push_texts(&mut lines, &tail);
        proof {
            lemma_texts_lines(tail@);
            let tv = updater_tail(width, down, legacy).map_values(|t: Seq<char>| LineModel::Text(t));
            assert(lines_model(lines@) == before_tail + tv);
            let docs = updater_docs(self, width < 80);
            assert(before_tail == hv + docs + updater_notes(width));
            assert(lines_model(lines@) =~= hv + docs + updater_notes(width) + tv);
        }
        (lines, h)
    }

    /// Appends the lines of the documents that need consent.
    #[verifier::rlimit(40)]
    fn push_docs(&self, lines: &mut Vec<ConsentLine>, narrow: bool)
        requires
            self.eula_needed && self.eula_future ==> self.eula_for_future is Some,
            self.tos_needed && self.tos_future ==> self.tos_for_future is Some,
            self.pp_needed && self.pp_future ==> self.pp_for_future is Some,
        ensures
            lines_model(final(lines)@) == lines_model(old(lines)@) + updater_docs(self, narrow),
    {
        let ghost start = lines_model(lines@);
        push_doc_lines(
            lines,
            Type::EULA,
            narrow,
            self.eula_needed,
            self.eula_future,
            &self.eula_for_future,
            self.eula,
            self.focus == Focus::Eula,
            true,
        );
        let ghost s1 = lines_model(lines@);
        push_doc_lines(
            lines,
            Type::TOS,
            narrow,
            self.tos_needed,
            self.tos_future,
            &self.tos_for_future,
            self.tos,
            self.focus == Focus::Tos,
            self.eula,
        );
        let ghost s2 = lines_model(lines@);
        push_doc_lines(
            lines,
            Type::PP,
            narrow,
            self.pp_needed,
            self.pp_future,
            &self.pp_for_future,
            self.pp,
            self.focus == Focus::Pp,
            self.eula,
        );
        proof {
            let de = doc_lines(
                Type::EULA,
                narrow,
                self.eula_needed,
                self.eula_future,
                opt_view(self.eula_for_future),
                self.eula,
                self.focus == Focus::Eula,
                true,
            );
            let dt = doc_lines(
                Type::TOS,
                narrow,
                self.tos_needed,
                self.tos_future,
                opt_view(self.tos_for_future),
                self.tos,
                self.focus == Focus::Tos,
                self.eula,
            );
            let dp = doc_lines(
                Type::PP,
                narrow,
                self.pp_needed,
                self.pp_future,
                opt_view(self.pp_for_future),
                self.pp,
                self.focus == Focus::Pp,
                self.eula,
            );
            lemma_concat3(start, de, dt, dp, s1, s2, lines_model(lines@));
        }
    }

    /// What the screen shows on a `width` by `height` terminal.
    pub fn layout(&self, width: u16, height: u16) -> (r: UpdaterView)
        requires
            self.eula_needed && self.eula_future ==> self.eula_for_future is Some,
            self.tos_needed && self.tos_future ==> self.tos_for_future is Some,
            self.pp_needed && self.pp_future ==> self.pp_for_future is Some,
        ensures
            updater_view_model(r) == updater_view(width, height, self, false),
    {
        self.layout_with(width, height, false)
    }

    /// What the update dialog run before the interface starts shows on a
    /// `width` by `height` terminal (its notes word the consent slightly
    /// differently).
    pub fn session_layout(&self, width: u16, height: u16) -> (r: UpdaterView)
        requires
            self.eula_needed && self.eula_future ==> self.eula_for_future is Some,
            self.tos_needed && self.tos_future ==> self.tos_for_future is Some,
            self.pp_needed && self.pp_future ==> self.pp_for_future is Some,
        ensures
            updater_view_model(r) == updater_view(width, height, self, true),
    {
        self.layout_with(width, height, true)
    }

    /// What the screen shows, in either wording.
    fn layout_with(&self, width: u16, height: u16, legacy: bool) -> (r: UpdaterView)
        requires
            self.eula_needed && self.eula_future ==> self.eula_for_future is Some,
            self.tos_needed && self.tos_future ==> self.tos_for_future is Some,
            self.pp_needed && self.pp_future ==> self.pp_for_future is Some,
        ensures
            updater_view_model(r) == updater_view(width, height, self, legacy),
    {
        let quit_hint = if self.update_needed {
            "Q to Exit"
        } else {
            "Q to Cancel"
        };
        if height < 6 || width < 27 {
            return UpdaterView::TooSmall;
        }
        let (lines, h) = self.all_lines(width, legacy);
        let down = self.tos_needed || self.pp_needed;
        proof {
            lemma_fixed_lens(width);
        }
        let sep: usize = if width > 72 {
            2
        } else {
            4
        };
        let (a, b): (usize, usize) = if width > 143 {
            if down {
                (7, 7)
            } else {
                (6, 6)
            }
        } else if width > 73 {
            if down {
                (8, 8)
            } else {
                (7, 7)
            }
        } else if down {
            (10, 11)
        } else {
            (8, 9)
        };
        let optional = vec![h + a, h, h + b, sep, h + 2];
        proof {
            assert(optional@ =~= updater_optional(width, down, h, sep));
            lemma_updater_removable(
                width,
                down,
                legacy,
                h,
                sep,
                updater_tail(width, down, legacy).len() as int,
                lines@.len() as int,
            );
        }
        let fitted = fit_lines(lines, &optional, (height - 5) as usize);
        let needed = 5 + fitted.len();
        if width < 60 || (height as usize) < needed {
            let wl = if width > 76 {
                Level::Good
            } else if width >= 60 {
                Level::Tight
            } else {
                Level::TooSmall
            };
            let hl = if height > 20 {
                Level::Good
            } else if (height as usize) >= h + 10 {
                Level::Tight
            } else {
                Level::TooSmall
            };
            return UpdaterView::Warning { width: wl, height: hl, height_goal: h + 10, quit_hint };
        }
        let cw: u16 = if 150 < width {
            150
        } else {
            width
        };
        let ch: u16 = if 30 < height {
            30
        } else {
            height
        };
        UpdaterView::Full { lines: fitted, area: ((width - cw) / 2, (height - ch) / 2, cw, ch), quit_hint }
    }
}

/// Only a ticked EULA lets the update screen close with an acceptance, and
/// only all three ticked let it close accepting all.
pub proof fn lemma_updater_accepts_only_ticked(s: UpdaterModel, key: ScreenKey)
    ensures
        updater_key(s, key).1 == ScreenAction::Close(UserChoice::AcceptEULA) ==> s.eula,
        updater_key(s, key).1 == ScreenAction::Close(UserChoice::AcceptAll) ==> s.eula && s.tos
            && s.pp,
{
}

} // verus!
