//! The first consent screen: accepting the documents for the first time.
use crate::gui::screens::consent_layout::{
    ConsentLine, Level, LineModel, check_box, fit, fit_lines, lines_model, removable,
};
use crate::gui::screens::screens::{ScreenAction, ScreenKey, document_of, focused_document};
use crate::terms::consent_state::UserChoice;
use crate::terms::focus::{Focus, next_in, prev_in};
use vstd::prelude::*;

verus! {

/// The state of the first consent screen: the ticked boxes and the focus.
#[derive(Debug, Clone, Copy, PartialEq, Eq, Structural)]
pub struct TermsCheckerScreen {
    pub eula: bool,
    pub tos: bool,
    pub pp: bool,
    pub focus: Focus,
}

/// The elements the focus moves over: the three boxes and Cancel, then
/// Continue once the EULA is ticked, then the button for all documents once
/// the other two are ticked as well.
pub open spec fn checker_order(s: TermsCheckerScreen) -> Seq<Focus> {
    seq![Focus::Eula, Focus::Tos, Focus::Pp, Focus::Cancel] + if s.eula {
        seq![Focus::Continue] + if s.tos && s.pp {
            seq![Focus::ContinueAll]
        } else {
            Seq::empty()
        }
    } else {
        Seq::empty()
    }
}

/// The state and outcome after a key press.
pub open spec fn checker_key(s: TermsCheckerScreen, key: ScreenKey) -> (TermsCheckerScreen, ScreenAction) {
    match key {
        ScreenKey::Esc => (s, ScreenAction::Close(UserChoice::Deny)),
        ScreenKey::Up | ScreenKey::Left => (
            TermsCheckerScreen { focus: prev_in(checker_order(s), s.focus), ..s },
            ScreenAction::Handled,
        ),
        ScreenKey::Down | ScreenKey::Right | ScreenKey::Tab => (
            TermsCheckerScreen { focus: next_in(checker_order(s), s.focus), ..s },
            ScreenAction::Handled,
        ),
        ScreenKey::Char(c) => if c == 'q' || c == 'Q' {
            (s, ScreenAction::Close(UserChoice::Deny))
        } else if c == 'o' || c == 'O' {
            (
                s,
                match focused_document(s.focus) {
                    Some(t) => ScreenAction::OpenDocument(t),
                    None => ScreenAction::Unhandled,
                },
            )
        } else if c == 'l' || c == 'L' {
            (
                s,
                match focused_document(s.focus) {
                    Some(t) => ScreenAction::OpenLink(t),
                    None => ScreenAction::Unhandled,
                },
            )
        } else if c == ' ' {
            checker_activate(s)
        } else {
            (s, ScreenAction::Unhandled)
        },
        ScreenKey::Enter => checker_activate(s),
        ScreenKey::Other => (s, ScreenAction::Unhandled),
    }
}

/// Enter or space on the focused element.
pub open spec fn checker_activate(s: TermsCheckerScreen) -> (TermsCheckerScreen, ScreenAction) {
    match s.focus {
        Focus::Eula => (
            TermsCheckerScreen { eula: !s.eula, tos: false, pp: false, ..s },
            ScreenAction::Handled,
        ),
        Focus::Tos => if s.eula {
            (TermsCheckerScreen { tos: !s.tos, ..s }, ScreenAction::Handled)
        } else {
            (s, ScreenAction::Unhandled)
        },
        Focus::Pp => if s.eula {
            (TermsCheckerScreen { pp: !s.pp, ..s }, ScreenAction::Handled)
        } else {
            (s, ScreenAction::Unhandled)
        },
        Focus::Cancel => (s, ScreenAction::Close(UserChoice::Deny)),
        Focus::Continue => if s.eula {
            (s, ScreenAction::Close(UserChoice::AcceptEULA))
        } else {
            (s, ScreenAction::Unhandled)
        },
        Focus::ContinueAll => if s.eula && s.tos && s.pp {
            (s, ScreenAction::Close(UserChoice::AcceptAll))
        } else {
            (s, ScreenAction::Unhandled)
        },
    }
}

impl TermsCheckerScreen {
    /// Nothing ticked, the focus on the EULA.
    pub fn new() -> (r: Self)
        ensures
            r == (TermsCheckerScreen { eula: false, tos: false, pp: false, focus: Focus::Eula }),
    {
        TermsCheckerScreen { eula: false, tos: false, pp: false, focus: Focus::Eula }
    }

    /// The elements the focus moves over, in order.
    pub fn possible_states(&self) -> (r: Vec<Focus>)
        ensures
            r@ == checker_order(*self),
    {
        let mut states = vec![Focus::Eula, Focus::Tos, Focus::Pp, Focus::Cancel];
        if self.eula {
            states.push(Focus::Continue);
            if self.tos && self.pp {
                states.push(Focus::ContinueAll);
            }
        }
        assert(states@ =~= checker_order(*self));
        states
    }

    /// Enter or space on the focused element.
    fn activate(&mut self) -> (r: ScreenAction)
        ensures
            (*final(self), r) == checker_activate(*old(self)),
    {
        match self.focus {
            Focus::Eula => {
                self.eula = !self.eula;
                self.tos = false;
                self.pp = false;
                ScreenAction::Handled
            },
            Focus::Tos => {
                if self.eula {
                    self.tos = !self.tos;
                    ScreenAction::Handled
                } else {
                    ScreenAction::Unhandled
                }
            },
            Focus::Pp => {
                if self.eula {
                    self.pp = !self.pp;
                    ScreenAction::Handled
                } else {
                    ScreenAction::Unhandled
                }
            },
            Focus::Cancel => ScreenAction::Close(UserChoice::Deny),
            Focus::Continue => {
                if self.eula {
                    ScreenAction::Close(UserChoice::AcceptEULA)
                } else {
                    ScreenAction::Unhandled
                }
            },
            Focus::ContinueAll => {
                if self.eula && self.tos && self.pp {
                    ScreenAction::Close(UserChoice::AcceptAll)
                } else {
                    ScreenAction::Unhandled
                }
            },
        }
    }

    /// Handles a key press.
    pub fn handle_input(&mut self, key: ScreenKey) -> (r: ScreenAction)
        ensures
            (*final(self), r) == checker_key(*old(self), key),
    {
        let states = self.possible_states();
        match key {
            ScreenKey::Esc => ScreenAction::Close(UserChoice::Deny),
            ScreenKey::Up | ScreenKey::Left => {
                self.focus.prev(states.as_slice());
                ScreenAction::Handled
            },
            ScreenKey::Down | ScreenKey::Right | ScreenKey::Tab => {
                self.focus.next(states.as_slice());
                ScreenAction::Handled
            },
            ScreenKey::Char(c) => {
                if c == 'q' || c == 'Q' {
                    ScreenAction::Close(UserChoice::Deny)
                } else if c == 'o' || c == 'O' {
                    match document_of(self.focus) {
                        Some(t) => ScreenAction::OpenDocument(t),
                        None => ScreenAction::Unhandled,
                    }
                } else if c == 'l' || c == 'L' {
                    match document_of(self.focus) {
                        Some(t) => ScreenAction::OpenLink(t),
                        None => ScreenAction::Unhandled,
                    }
                } else if c == ' ' {
                    self.activate()
                } else {
                    ScreenAction::Unhandled
                }
            },
            ScreenKey::Enter => self.activate(),
            ScreenKey::Other => ScreenAction::Unhandled,
        }
    }
}

/// What the first consent screen shows on a terminal of a given size.
#[derive(Debug)]
pub enum CheckerView {
    /// Too small for anything but a note with the size.
    TooSmall,
    /// A note that the terminal is too small, rating its width and height.
    Warning { width: Level, height: Level },
    /// The consent text and buttons, in the area `(x, y, width, height)`.
    Full { lines: Vec<ConsentLine>, area: (u16, u16, u16, u16) },
}

/// A view as plain values.
pub enum CheckerViewModel {
    TooSmall,
    Warning { width: Level, height: Level },
    Full { lines: Seq<LineModel>, area: (u16, u16, u16, u16) },
}

/// The model of a view.
pub open spec fn checker_view_model(v: CheckerView) -> CheckerViewModel {
    match v {
        CheckerView::TooSmall => CheckerViewModel::TooSmall,
        CheckerView::Warning { width, height } => CheckerViewModel::Warning { width, height },
        CheckerView::Full { lines, area } => CheckerViewModel::Full { lines: lines_model(lines@), area },
    }
}

/// The lines after the check boxes, by terminal width, and the positions of
/// the lines to drop first when the terminal is too low.
pub open spec fn checker_agree(width: u16) -> (Seq<Seq<char>>, Seq<usize>) {
    if width > 143 {
        (
            seq![
                ""@,
                "By selecting Continue, you confirm that you agree to the End User License Agreement and applicable Terms of Service."@,
                ""@,
                "Tensamin services require acceptance of the Terms of Service and Privacy Policy."@,
                ""@,
                "While having a document selected press O to view in this UI or press L to open as a link."@,
            ],
            seq![8, 3, 8, 5],
        )
    } else if width > 92 {
        (
            seq![
                ""@,
                "By selecting Continue, you confirm that you agree to the End User License"@,
                "Agreement and applicable Terms of Service."@,
                ""@,
                "Tensamin services require acceptance of the Terms of Service and Privacy Policy."@,
                ""@,
                "While having a document selected press O to view in this UI or press L to open as a link."@,
            ],
            seq![9, 3, 9, 5],
        )
    } else if width > 73 {
        (
            seq![
                ""@,
                "By selecting Continue, you confirm that you agree to the"@,
                "End User License Agreement and applicable Terms of Service."@,
                ""@,
                "Tensamin services require acceptance of the ToS and Privacy Policy."@,
                ""@,
                "While having a document selected press O to view in this UI or press L"@,
                "to open as a link."@,
            ],
            seq![9, 3, 9, 5],
        )
    } else {
        (
            seq![
                ""@,
                "By selecting Continue, you confirm that you agree"@,
                "to the End User License Agreement and"@,
                "applicable Terms of Service."@,
                ""@,
                "Tensamin services require acceptance of the"@,
                "Terms of Service and Privacy Policy."@,
                ""@,
                "While having a document selected press O to view"@,
                "in this UI or press L to open as a link."@,
            ],
            seq![10, 3, 11, 5],
        )
    }
}

/// All lines of the first consent screen before any is dropped.
pub open spec fn checker_lines(width: u16, s: TermsCheckerScreen) -> Seq<LineModel> {
    let eula_label = if width < 70 {
        "EULA ¹ (https://legal.tensamin.net/eula/)"@
    } else {
        "End User Licence Agreement ¹ (https://legal.tensamin.net/eula/)"@
    };
    let tos_label = if width < 72 {
        "ToS ² (https://legal.tensamin.net/terms-of-service/)"@
    } else {
        "Terms of Service ² (https://legal.tensamin.net/terms-of-service/)"@
    };
    let pp_label = if width < 68 {
        "PP ² (https://legal.tensamin.net/privacy-policy/)"@
    } else {
        "Privacy Policy ² (https://legal.tensamin.net/privacy-policy/)"@
    };
    seq![
        LineModel::CheckBox { label: eula_label, checked: s.eula, active: s.focus == Focus::Eula, allowed: true },
        LineModel::CheckBox { label: tos_label, checked: s.tos, active: s.focus == Focus::Tos, allowed: s.eula },
        LineModel::CheckBox { label: pp_label, checked: s.pp, active: s.focus == Focus::Pp, allowed: s.eula },
        LineModel::Text(""@),
        LineModel::Text("¹ Necessary– required to run the program"@),
        LineModel::Text("² Optional – required only for Tensamin services"@),
    ] + checker_agree(width).0.map_values(|t: Seq<char>| LineModel::Text(t))
}

/// What the first consent screen shows on a `width` by `height` terminal.
pub open spec fn checker_view(width: u16, height: u16, s: TermsCheckerScreen) -> CheckerViewModel {
    if height < 6 || width < 27 {
        CheckerViewModel::TooSmall
    } else {
        let lines = fit(checker_lines(width, s), checker_agree(width).1, height - 5);
        let needed = 5 + lines.len();
        if width < 60 || height < needed {
            CheckerViewModel::Warning {
                width: if width > 76 {
                    Level::Good
                } else if width >= 60 {
                    Level::Tight
                } else {
                    Level::TooSmall
                },
                height: if height > 19 {
                    Level::Good
                } else if height >= 13 {
                    Level::Tight
                } else {
                    Level::TooSmall
                },
            }
        } else {
            let cw: u16 = if 150 < width { 150 } else { width };
            let ch: u16 = if 26 < height { 26 } else { height };
            CheckerViewModel::Full {
                lines,
                area: (((width - cw) / 2) as u16, ((height - ch) / 2) as u16, cw, ch),
            }
        }
    }
}

/// The lines after the check boxes, and the order to drop lines in.
fn checker_agree_lines(width: u16) -> (r: (Vec<&'static str>, Vec<usize>))
    ensures
        r.0@.map_values(|t: &'static str| t@) == checker_agree(width).0,
        r.1@ == checker_agree(width).1,
{
    let (lines, optional) = if width > 143 {
        (
            vec![
                "",
                "By selecting Continue, you confirm that you agree to the End User License Agreement and applicable Terms of Service.",
                "",
                "Tensamin services require acceptance of the Terms of Service and Privacy Policy.",
                "",
                "While having a document selected press O to view in this UI or press L to open as a link.",
            ],
            vec![8, 3, 8, 5],
        )
    } else if width > 92 {
        (
            vec![
                "",
                "By selecting Continue, you confirm that you agree to the End User License",
                "Agreement and applicable Terms of Service.",
                "",
                "Tensamin services require acceptance of the Terms of Service and Privacy Policy.",
                "",
                "While having a document selected press O to view in this UI or press L to open as a link.",
            ],
            vec![9, 3, 9, 5],
        )
    } else if width > 73 {
        (
            vec![
                "",
                "By selecting Continue, you confirm that you agree to the",
                "End User License Agreement and applicable Terms of Service.",
                "",
                "Tensamin services require acceptance of the ToS and Privacy Policy.",
                "",
                "While having a document selected press O to view in this UI or press L",
                "to open as a link.",
            ],
            vec![9, 3, 9, 5],
        )
    } else {
        (
            vec![
                "",
                "By selecting Continue, you confirm that you agree",
                "to the End User License Agreement and",
                "applicable Terms of Service.",
                "",
                "Tensamin services require acceptance of the",
                "Terms of Service and Privacy Policy.",
                "",
                "While having a document selected press O to view",
                "in this UI or press L to open as a link.",
            ],
            vec![10, 3, 11, 5],
        )
    };
    assert(lines@.map_values(|t: &'static str| t@) =~= checker_agree(width).0);
    assert(optional@ =~= checker_agree(width).1);
    (lines, optional)
}

impl TermsCheckerScreen {
    /// What the screen shows on a `width` by `height` terminal.
    pub fn layout(&self, width: u16, height: u16) -> (r: CheckerView)
        ensures
            checker_view_model(r) == checker_view(width, height, *self),
    {
        if height < 6 || width < 27 {
            return CheckerView::TooSmall;
        }
        let eula_label = if width < 70 {
            "EULA ¹ (https://legal.tensamin.net/eula/)"
        } else {
            "End User Licence Agreement ¹ (https://legal.tensamin.net/eula/)"
        };
        let tos_label = if width < 72 {
            "ToS ² (https://legal.tensamin.net/terms-of-service/)"
        } else {
            "Terms of Service ² (https://legal.tensamin.net/terms-of-service/)"
        };
        let pp_label = if width < 68 {
            "PP ² (https://legal.tensamin.net/privacy-policy/)"
        } else {
            "Privacy Policy ² (https://legal.tensamin.net/privacy-policy/)"
        };
        let mut lines: Vec<ConsentLine> = Vec::new();
        lines.push(check_box(eula_label, self.eula, self.focus == Focus::Eula, true));
        lines.push(check_box(tos_label, self.tos, self.focus == Focus::Tos, self.eula));
        lines.push(check_box(pp_label, self.pp, self.focus == Focus::Pp, self.eula));
        lines.push(ConsentLine::Text(""));
        lines.push(ConsentLine::Text("¹ Necessary– required to run the program"));
        lines.push(ConsentLine::Text("² Optional – required only for Tensamin services"));
        let ghost head = lines_model(lines@);
        let (agree, optional) = checker_agree_lines(width);
        let mut k: usize = 0;
        while k < agree.len()
            invariant
                k <= agree@.len(),
                lines_model(lines@) == head + agree@.take(k as int).map_values(
                    |t: &'static str| LineModel::Text(t@),
                ),
            decreases agree.len() - k,
        {
            let ghost before = lines@;
            lines.push(ConsentLine::Text(agree[k]));
            assert(lines_model(lines@) =~= lines_model(before).push(LineModel::Text(agree@[k as int]@)));
            assert(agree@.take(k + 1).map_values(|t: &'static str| LineModel::Text(t@)) =~= agree@.take(
                k as int,
            ).map_values(|t: &'static str| LineModel::Text(t@)).push(LineModel::Text(agree@[k as int]@)));
            k = k + 1;
        }
        proof {
            assert(agree@.take(agree@.len() as int) =~= agree@);
            assert(agree@.map_values(|t: &'static str| LineModel::Text(t@)) =~= checker_agree(
                width,
            ).0.map_values(|t: Seq<char>| LineModel::Text(t)));
            assert(lines_model(lines@) =~= checker_lines(width, *self));
            reveal_with_fuel(removable, 5);
        }
        let fitted = fit_lines(lines, &optional, (height - 5) as usize);
        let needed = 5 + fitted.len();
        if width < 60 || (height as usize) < needed {
            let wl = if width > 76 {
                Level::Good
            } else if width >= 60 {
                Level::Tight
            } else {
                Level::TooSmall
            };
            let hl = if height > 19 {
                Level::Good
            } else if height >= 13 {
                Level::Tight
            } else {
                Level::TooSmall
            };
            return CheckerView::Warning { width: wl, height: hl };
        }
        let cw: u16 = if 150 < width {
            150
        } else {
            width
        };
        let ch: u16 = if 26 < height {
            26
        } else {
            height
        };
        CheckerView::Full { lines: fitted, area: ((width - cw) / 2, (height - ch) / 2, cw, ch) }
    }
}

/// On the first consent screen, the optional documents stay unticked while
/// the EULA is: no key press ticks one without the other.
pub proof fn lemma_checker_optional_needs_eula(s: TermsCheckerScreen, key: ScreenKey)
    requires
        !s.eula ==> !s.tos && !s.pp,
    ensures
        !checker_key(s, key).0.eula ==> !checker_key(s, key).0.tos && !checker_key(s, key).0.pp,
{
}

/// Only a ticked EULA lets the screen close with an acceptance, and only
/// all three ticked let it close accepting all.
pub proof fn lemma_checker_accepts_only_ticked(s: TermsCheckerScreen, key: ScreenKey)
    ensures
        checker_key(s, key).1 == ScreenAction::Close(UserChoice::AcceptEULA) ==> s.eula,
        checker_key(s, key).1 == ScreenAction::Close(UserChoice::AcceptAll) ==> s.eula && s.tos
            && s.pp,
{
}

} // verus!
