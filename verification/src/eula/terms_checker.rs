//! The first-start consent screen: its state, its key handling and the
//! `agreements` file it writes.
use crate::terms::consent_state::UserChoice;
use crate::terms::focus::Focus;
use crate::text::{
    decimal, has_prefix, join_lines, lacks, lemma_concat_lacks, lemma_differs_at, lemma_lines_of_join, lines,
    lines_of, plain_lines,
    push_decimal, str_eq, strip_cr, strip_prefix, views,
};
use crate::clock::unix_now_secs;
use crate::gui::screens::consent_layout::{
    ConsentLine, Level, LineModel, check_box, fit, fit_lines, lines_model, removable,
};
use crate::terms::buttons::{
    ButtonLook, ButtonPlan, plan_row, planned, plans_view, row_minimums, sum_u16,
};
use vstd::prelude::*;

verus! {

/// The checkboxes and the focused element of the consent screen.
#[derive(Debug, Clone, Copy, PartialEq, Eq, Structural)]
pub struct ConsentUiState {
    pub eula: bool,
    pub tos: bool,
    pub pp: bool,
    pub focus: Focus,
}

/// A key pressed on the consent screen.
#[derive(Debug, Clone, Copy, PartialEq, Eq, Structural)]
pub enum ConsentKey {
    Esc,
    Up,
    Down,
    Tab,
    Quit,
    Space,
    Enter,
    Other,
}

/// The state with the optional consents cleared while the EULA is not accepted.
pub open spec fn sanitized_ui(s: ConsentUiState) -> ConsentUiState {
    if !s.eula {
        ConsentUiState { tos: false, pp: false, ..s }
    } else {
        s
    }
}

/// Where `next` moves the focus.
pub open spec fn ui_next(s: ConsentUiState) -> Focus {
    match s.focus {
        Focus::Eula => Focus::Tos,
        Focus::Tos => Focus::Pp,
        Focus::Pp => Focus::Cancel,
        Focus::Cancel => if s.eula {
            Focus::Continue
        } else {
            Focus::Eula
        },
        Focus::Continue => Focus::ContinueAll,
        Focus::ContinueAll => Focus::Eula,
    }
}

/// Where `prev` moves the focus.
pub open spec fn ui_prev(f: Focus) -> Focus {
    match f {
        Focus::Eula => Focus::ContinueAll,
        Focus::Tos => Focus::Eula,
        Focus::Pp => Focus::Tos,
        Focus::Cancel => Focus::Pp,
        Focus::Continue => Focus::Cancel,
        Focus::ContinueAll => Focus::Continue,
    }
}

/// The effect of a key: the new state, and the choice that closes the screen.
pub open spec fn ui_key(s: ConsentUiState, k: ConsentKey) -> (ConsentUiState, Option<UserChoice>) {
    match k {
        ConsentKey::Esc | ConsentKey::Quit => (s, Some(UserChoice::Deny)),
        ConsentKey::Up => (ConsentUiState { focus: ui_prev(s.focus), ..s }, None),
        ConsentKey::Down | ConsentKey::Tab => (ConsentUiState { focus: ui_next(s), ..s }, None),
        ConsentKey::Space => match s.focus {
            Focus::Eula => (ConsentUiState { eula: !s.eula, tos: false, pp: false, ..s }, None),
            Focus::Tos => (if s.eula { ConsentUiState { tos: !s.tos, ..s } } else { s }, None),
            Focus::Pp => (if s.eula { ConsentUiState { pp: !s.pp, ..s } } else { s }, None),
            _ => (s, None),
        },
        ConsentKey::Enter => match s.focus {
            Focus::Cancel => (s, Some(UserChoice::Deny)),
            Focus::Continue => if s.eula {
                (s, Some(UserChoice::AcceptEULA))
            } else {
                (s, None)
            },
            Focus::ContinueAll => if s.eula && s.pp && s.tos {
                (s, Some(UserChoice::AcceptAll))
            } else {
                (s, None)
            },
            _ => (s, None),
        },
        ConsentKey::Other => (s, None),
    }
}

pub const UI_EULA_NOTE: &'static str = "\"EULA=true\" indicates that you read and accepted the End User Licence agreement. You can find our EULA at https://docs.tensamin.net/legal/eula/\nEULA=";

pub const UI_PP_NOTE: &'static str = "\n\"PrivacyPolicy=true\" indicates that you read and accepted the Privacy Policy. You can find our Privacy Policy at https://docs.tensamin.net/legal/privacy-policy/\nPrivacyPolicy=";

pub const UI_TOS_NOTE: &'static str = "\n\"ToS=true\" indicates that you read and accepted the Terms of Service. You can find our Terms of Service at https://docs.tensamin.net/legal/terms-of-service/\nToS=";

pub const UI_FOOTER: &'static str = "\nThis file reflects the current consent state used by the application.\nIt may be regenerated or overwritten by the application.\nThis file was last edited by Tensamin at:\nUNIX-SECOND=";

pub open spec fn flag_text(b: bool) -> Seq<char> {
    if b {
        "true"@
    } else {
        "false"@
    }
}

/// The `agreements` file written by the consent screen at `now`.
pub open spec fn ui_text(s: ConsentUiState, now: u64) -> Seq<char> {
    UI_EULA_NOTE@ + flag_text(s.eula) + UI_PP_NOTE@ + flag_text(s.pp) + UI_TOS_NOTE@ + flag_text(s.tos)
        + UI_FOOTER@ + decimal(now as nat)
}

/// The three flags read from lines: the last `EULA=`, `ToS=` and
/// `PrivacyPolicy=` line of each kind decides it (`true` or not).
pub open spec fn read_flags(ls: Seq<Seq<char>>) -> (bool, bool, bool)
    decreases ls.len(),
{
    if ls.len() == 0 {
        (false, false, false)
    } else {
        let f = read_flags(ls.drop_last());
        let l = ls.last();
        if has_prefix(l, "EULA="@) {
            (l.subrange(5, l.len() as int) == "true"@, f.1, f.2)
        } else if has_prefix(l, "ToS="@) {
            (f.0, l.subrange(4, l.len() as int) == "true"@, f.2)
        } else if has_prefix(l, "PrivacyPolicy="@) {
            (f.0, f.1, l.subrange(14, l.len() as int) == "true"@)
        } else {
            f
        }
    }
}

/// The state read from an `agreements` file: flags as in `read_flags`
/// (eula, tos, pp), focus on Cancel, sanitized.
pub open spec fn ui_from_text(s: Seq<char>) -> ConsentUiState {
    let f = read_flags(lines_of(s));
    sanitized_ui(ConsentUiState { eula: f.0, tos: f.1, pp: f.2, focus: Focus::Cancel })
}

impl ConsentUiState {
    /// Nothing accepted, focus on Cancel.
    pub fn denied() -> (r: Self)
        ensures
            r == (ConsentUiState { eula: false, tos: false, pp: false, focus: Focus::Cancel }),
    {
        Self { eula: false, pp: false, tos: false, focus: Focus::Cancel }
    }

    /// Clears the optional consents while the EULA is not accepted.
    pub fn sanitize(self) -> (r: Self)
        ensures
            r == sanitized_ui(self),
    {
        let mut s = self;
        if !s.eula {
            s.tos = false;
            s.pp = false;
        }
        s
    }

    /// The `agreements` file for this state, stamped with the current time.
    pub fn to_string(self) -> (r: String)
        ensures
            exists|t: u64| r@ == ui_text(self, t),
    {
        self.to_string_at(unix_now_secs())
    }

    /// The `agreements` file for this state, stamped with `current_secs`.
    pub fn to_string_at(self, current_secs: u64) -> (r: String)
        ensures
            r@ == ui_text(self, current_secs),
    {
        let mut out = String::from_str(UI_EULA_NOTE);
        out.append(if self.eula { "true" } else { "false" });
        out.append(UI_PP_NOTE);
        out.append(if self.pp { "true" } else { "false" });
        out.append(UI_TOS_NOTE);
        out.append(if self.tos { "true" } else { "false" });
        out.append(UI_FOOTER);
        push_decimal(&mut out, current_secs);
        out
    }

    /// Reads the state from an `agreements` file.
    pub fn from_str(s: &str) -> (r: Self)
        ensures
            r == ui_from_text(s@),
    {
        let ls = lines(s);
        let ghost lv = lines_of(s@);
        let mut eula = false;
        let mut pp = false;
        let mut tos = false;
        let mut i: usize = 0;
        while i < ls.len()
            invariant
                views(ls@) == lv,
                i <= ls@.len(),
                (eula, tos, pp) == read_flags(lv.subrange(0, i as int)),
            decreases ls@.len() - i,
        {
            assert(lv.subrange(0, i + 1).drop_last() == lv.subrange(0, i as int));
            let line = ls[i].as_str();
            assert(line@ == lv[i as int]);
            proof {
                reveal_strlit("EULA=");
                reveal_strlit("ToS=");
                reveal_strlit("PrivacyPolicy=");
            }
            if let Some(v) = strip_prefix(line, "EULA=") {
                eula = str_eq(v, "true");
            } else if let Some(v) = strip_prefix(line, "ToS=") {
                tos = str_eq(v, "true");
            } else if let Some(v) = strip_prefix(line, "PrivacyPolicy=") {
                pp = str_eq(v, "true");
            }
            i = i + 1;
        }
        assert(lv.subrange(0, lv.len() as int) == lv);
        Self { eula, pp, tos, focus: Focus::Cancel }.sanitize()
    }

    /// Continue is possible once the EULA is ticked.
    pub fn can_continue(&self) -> (r: bool)
        ensures
            r == self.eula,
    {
        self.eula
    }

    /// Continuing with the Tensamin services needs all three ticked.
    pub fn can_continue_all(&self) -> (r: bool)
        ensures
            r == (self.eula && self.pp && self.tos),
    {
        self.eula && self.pp && self.tos
    }

    /// Moves the focus down the screen.
    pub fn next(&mut self)
        ensures
            *final(self) == (ConsentUiState { focus: ui_next(*old(self)), ..*old(self) }),
    {
        self.focus = match self.focus {
            Focus::Eula => Focus::Tos,
            Focus::Tos => Focus::Pp,
            Focus::Pp => Focus::Cancel,
            Focus::Cancel => {
                if self.can_continue() {
                    Focus::Continue
                } else {
                    Focus::Eula
                }
            },
            Focus::Continue => Focus::ContinueAll,
            Focus::ContinueAll => Focus::Eula,
        };
    }

    /// Moves the focus up the screen.
    pub fn prev(&mut self)
        ensures
            *final(self) == (ConsentUiState { focus: ui_prev(old(self).focus), ..*old(self) }),
    {
        self.focus = match self.focus {
            Focus::Eula => Focus::ContinueAll,
            Focus::Tos => Focus::Eula,
            Focus::Pp => Focus::Tos,
            Focus::Cancel => Focus::Pp,
            Focus::Continue => Focus::Cancel,
            Focus::ContinueAll => Focus::Continue,
        };
    }

    /// Applies a key press; returns the choice when the key closes the screen.
    pub fn handle_key(&mut self, key: ConsentKey) -> (r: Option<UserChoice>)
        ensures
            (*final(self), r) == ui_key(*old(self), key),
    {
        match key {
            ConsentKey::Esc | ConsentKey::Quit => Some(UserChoice::Deny),
            ConsentKey::Up => {
                self.prev();
                None
            },
            ConsentKey::Down | ConsentKey::Tab => {
                self.next();
                None
            },
            ConsentKey::Space => {
                match self.focus {
                    Focus::Eula => {
                        self.eula = !self.eula;
                        self.tos = false;
                        self.pp = false;
                    },
                    Focus::Tos => {
                        if self.eula {
                            self.tos = !self.tos
                        }
                    },
                    Focus::Pp => {
                        if self.eula {
                            self.pp = !self.pp
                        }
                    },
                    _ => {},
                }
                None
            },
            ConsentKey::Enter => match self.focus {
                Focus::Cancel => Some(UserChoice::Deny),
                Focus::Continue => if self.can_continue() {
                    Some(UserChoice::AcceptEULA)
                } else {
                    None
                },
                Focus::ContinueAll => if self.can_continue_all() {
                    Some(UserChoice::AcceptAll)
                } else {
                    None
                },
                _ => None,
            },
            ConsentKey::Other => None,
        }
    }
}

/// The state the screen's choice leaves behind: nothing accepted, the EULA
/// only, or everything.
pub open spec fn state_for_choice(c: UserChoice) -> ConsentUiState {
    match c {
        UserChoice::Deny => ConsentUiState { eula: false, tos: false, pp: false, focus: Focus::Cancel },
        UserChoice::AcceptEULA => ConsentUiState { eula: true, tos: false, pp: false, focus: Focus::Cancel },
        UserChoice::AcceptAll => ConsentUiState { eula: true, tos: true, pp: true, focus: Focus::Cancel },
    }
}

/// The first-start consent check.
pub struct ConsentManager;

impl ConsentManager {
    /// The outcome (EULA accepted, both optional documents accepted) when the
    /// `agreements` file already records the EULA; `None` when the consent
    /// screen has to be shown.
    pub fn check(file: &str) -> (r: Option<(bool, bool)>)
        ensures
            ui_from_text(file@).eula ==> r == Some(
                (true, ui_from_text(file@).pp && ui_from_text(file@).tos),
            ),
            !ui_from_text(file@).eula ==> r is None,
    {
        let existing = ConsentUiState::from_str(file).sanitize();
        if existing.eula {
            Some((existing.eula, existing.pp && existing.tos))
        } else {
            None
        }
    }

    /// The state to save after the consent screen closed with `choice`, and
    /// the outcome it gives.
    pub fn resolve(choice: UserChoice) -> (r: (ConsentUiState, (bool, bool)))
        ensures
            r.0 == state_for_choice(choice),
            r.1 == (r.0.eula, r.0.pp && r.0.tos),
    {
        let state = match choice {
            UserChoice::Deny => ConsentUiState::denied(),
            UserChoice::AcceptEULA => ConsentUiState { eula: true, tos: false, pp: false, focus: Focus::Cancel },
            UserChoice::AcceptAll => ConsentUiState { eula: true, tos: true, pp: true, focus: Focus::Cancel },
        };
        let state = state.sanitize();
        (state, (state.eula, state.pp && state.tos))
    }
}

/// What the first-start consent screen shows on a terminal of a given size.
#[derive(Debug)]
pub enum ConsentUiView {
    /// Too small for anything but a note with the size.
    TooSmall,
    /// A note that the terminal is too small, rating its width and height
    /// against the height the screen wants.
    Warning { width: Level, height: Level, height_goal: usize },
    /// The consent text and buttons, in the area `(x, y, width, height)`.
    Full { lines: Vec<ConsentLine>, area: (u16, u16, u16, u16) },
}

/// A view as plain values.
pub enum ConsentUiViewModel {
    TooSmall,
    Warning { width: Level, height: Level, height_goal: int },
    Full { lines: Seq<LineModel>, area: (u16, u16, u16, u16) },
}

/// The model of a view.
pub open spec fn consent_view_model(v: ConsentUiView) -> ConsentUiViewModel {
    match v {
        ConsentUiView::TooSmall => ConsentUiViewModel::TooSmall,
        ConsentUiView::Warning { width, height, height_goal } => ConsentUiViewModel::Warning {
            width,
            height,
            height_goal: height_goal as int,
        },
        ConsentUiView::Full { lines, area } => ConsentUiViewModel::Full { lines: lines_model(lines@), area },
    }
}

/// The lines below the check boxes, by width, and the positions of the
/// lines to drop first when the terminal is too low.
#[verifier::opaque]
pub open spec fn consent_agree(width: u16) -> (Seq<Seq<char>>, Seq<usize>) {
    if width > 132 {
        (
            seq![
                ""@,
                "By selecting Continue, you confirm that you have read and agree to the End User License Agreement and applicable Terms of Service."@,
                ""@,
                "Tensamin services require acceptance of the Terms of Service and Privacy Policy."@,
            ],
            seq![7, 3, 4],
        )
    } else if width > 68 {
        (
            seq![
                ""@,
                "By selecting Continue, you confirm that you have read and agree"@,
                "to the End User License Agreement and applicable Terms of Service."@,
                ""@,
                "Tensamin services require acceptance of the ToS and Privacy Policy."@,
            ],
            seq![8, 3, 4],
        )
    } else {
        (
            seq![
                ""@,
                "By selecting Continue, you confirm that you have"@,
                "read and agree to the End User License Agreement"@,
                "and applicable Terms of Service."@,
                ""@,
                "Tensamin services require acceptance of the"@,
                "Terms of Service and Privacy Policy."@,
            ],
            seq![9, 3, 4],
        )
    }
}

/// All lines of the first-start consent screen before any is dropped.
pub open spec fn consent_lines(width: u16, s: ConsentUiState) -> Seq<LineModel> {
    let narrow = width < 76;
    seq![
        LineModel::CheckBox {
            label: if narrow {
                "EULA ¹ (https://docs.tensamin.net/legal/eula/)"@
            } else {
                "End User Licence Agreement ¹ (https://docs.tensamin.net/legal/eula/)"@
            },
            checked: s.eula,
            active: s.focus == Focus::Eula,
            allowed: true,
        },
        LineModel::CheckBox {
            label: if narrow {
                "ToS ² (https://docs.tensamin.net/legal/terms-of-service/)"@
            } else {
                "Terms of Service ² (https://docs.tensamin.net/legal/terms-of-service/)"@
            },
            checked: s.tos,
            active: s.focus == Focus::Tos,
            allowed: s.eula,
        },
        LineModel::CheckBox {
            label: if narrow {
                "PP ² (https://docs.tensamin.net/legal/privacy-policy/)"@
            } else {
                "Privacy Policy ² (https://docs.tensamin.net/legal/privacy-policy/)"@
            },
            checked: s.pp,
            active: s.focus == Focus::Pp,
            allowed: s.eula,
        },
        LineModel::Text(""@),
        LineModel::Text("¹ Necessary, ² Optional"@),
    ] + consent_agree(width).0.map_values(|t: Seq<char>| LineModel::Text(t))
}

/// What the first-start consent screen shows on a `width` by `height`
/// terminal.
pub open spec fn consent_view(width: u16, height: u16, s: ConsentUiState) -> ConsentUiViewModel {
    if height < 6 || width < 27 {
        ConsentUiViewModel::TooSmall
    } else {
        let lines = fit(consent_lines(width, s), consent_agree(width).1, height - 5);
        let needed = 5 + lines.len();
        if width < 63 || height < needed {
            ConsentUiViewModel::Warning {
                width: if width > 76 {
                    Level::Good
                } else if width >= 63 {
                    Level::Tight
                } else {
                    Level::TooSmall
                },
                height: if height < needed {
                    Level::TooSmall
                } else if height < 17 {
                    Level::Tight
                } else {
                    Level::Good
                },
                height_goal: needed as int,
            }
        } else {
            let cw: u16 = if 132 < width { 132 } else { width };
            let ch: u16 = if 20 < height { 20 } else { height };
            ConsentUiViewModel::Full {
                lines,
                area: (((width - cw) / 2) as u16, ((height - ch) / 2) as u16, cw, ch),
            }
        }
    }
}

/// The lines below the check boxes and the order to drop lines in.
fn consent_agree_lines(width: u16) -> (r: (Vec<&'static str>, Vec<usize>))
    ensures
        r.0@.map_values(|t: &'static str| t@) == consent_agree(width).0,
        r.1@ == consent_agree(width).1,
        r.0@.len() <= 7,
        removable(5 + r.0@.len() as int, r.1@),
{
    reveal(consent_agree);
    reveal_with_fuel(removable, 4);
    let (lines, optional) = if width > 132 {
        (
            vec![
                "",
                "By selecting Continue, you confirm that you have read and agree to the End User License Agreement and applicable Terms of Service.",
                "",
                "Tensamin services require acceptance of the Terms of Service and Privacy Policy.",
            ],
            vec![7, 3, 4],
        )
    } else if width > 68 {
        (
            vec![
                "",
                "By selecting Continue, you confirm that you have read and agree",
                "to the End User License Agreement and applicable Terms of Service.",
                "",
                "Tensamin services require acceptance of the ToS and Privacy Policy.",
            ],
            vec![8, 3, 4],
        )
    } else {
        (
            vec![
                "",
                "By selecting Continue, you confirm that you have",
                "read and agree to the End User License Agreement",
                "and applicable Terms of Service.",
                "",
                "Tensamin services require acceptance of the",
                "Terms of Service and Privacy Policy.",
            ],
            vec![9, 3, 4],
        )
    };
    assert(lines@.map_values(|t: &'static str| t@) =~= consent_agree(width).0);
    assert(optional@ =~= consent_agree(width).1);
    let ghost o = optional@;
    assert(o.drop_first() =~= seq![o[1], o[2]]);
    assert(o.drop_first().drop_first() =~= seq![o[2]]);
    assert(o.drop_first().drop_first().drop_first() =~= Seq::<usize>::empty());
    (lines, optional)
}

/// What the first-start consent screen shows on a `width` by `height`
/// terminal.
pub fn consent_layout(state: &ConsentUiState, width: u16, height: u16) -> (r: ConsentUiView)
    ensures
        consent_view_model(r) == consent_view(width, height, *state),
{
    if height < 6 || width < 27 {
        return ConsentUiView::TooSmall;
    }
    let narrow = width < 76;
    let mut lines: Vec<ConsentLine> = Vec::new();
    lines.push(
        check_box(
            if narrow {
                "EULA ¹ (https://docs.tensamin.net/legal/eula/)"
            } else {
                "End User Licence Agreement ¹ (https://docs.tensamin.net/legal/eula/)"
            },
            state.eula,
            state.focus == Focus::Eula,
            true,
        ),
    );
    lines.push(
        check_box(
            if narrow {
                "ToS ² (https://docs.tensamin.net/legal/terms-of-service/)"
            } else {
                "Terms of Service ² (https://docs.tensamin.net/legal/terms-of-service/)"
            },
            state.tos,
            state.focus == Focus::Tos,
            state.eula,
        ),
    );
    lines.push(
        check_box(
            if narrow {
                "PP ² (https://docs.tensamin.net/legal/privacy-policy/)"
            } else {
                "Privacy Policy ² (https://docs.tensamin.net/legal/privacy-policy/)"
            },
            state.pp,
            state.focus == Focus::Pp,
            state.eula,
        ),
    );
    lines.push(ConsentLine::Text(""));
    lines.push(ConsentLine::Text("¹ Necessary, ² Optional"));
    let ghost head = lines_model(lines@);
    let (agree, optional) = consent_agree_lines(width);
    let mut k: usize = 0;
    while k < agree.len()
        invariant
            k <= agree@.len(),
            lines_model(lines@) == head + agree@.take(k as int).map_values(
                |t: &'static str| LineModel::Text(t@),
            ),
        decreases agree.len() - k,
    {
        let ghost before = lines@;
        lines.push(ConsentLine::Text(agree[k]));
        assert(lines_model(lines@) =~= lines_model(before).push(LineModel::Text(agree@[k as int]@)));
        assert(agree@.take(k + 1).map_values(|t: &'static str| LineModel::Text(t@)) =~= agree@.take(
            k as int,
        ).map_values(|t: &'static str| LineModel::Text(t@)).push(LineModel::Text(agree@[k as int]@)));
        k = k + 1;
    }
    proof {
        assert(agree@.take(agree@.len() as int) =~= agree@);
        assert(agree@.map_values(|t: &'static str| LineModel::Text(t@)) =~= consent_agree(
            width,
        ).0.map_values(|t: Seq<char>| LineModel::Text(t)));
        assert(lines_model(lines@) =~= consent_lines(width, *state));
    }
    let fitted = fit_lines(lines, &optional, (height - 5) as usize);
    let needed = 5 + fitted.len();
    if width < 63 || (height as usize) < needed {
        let wl = if width > 76 {
            Level::Good
        } else if width >= 63 {
            Level::Tight
        } else {
            Level::TooSmall
        };
        let hl = if (height as usize) < needed {
            Level::TooSmall
        } else if height < 17 {
            Level::Tight
        } else {
            Level::Good
        };
        return ConsentUiView::Warning { width: wl, height: hl, height_goal: needed };
    }
    let cw: u16 = if 132 < width {
        132
    } else {
        width
    };
    let ch: u16 = if 20 < height {
        20
    } else {
        height
    };
    ConsentUiView::Full { lines: fitted, area: ((width - cw) / 2, (height - ch) / 2, cw, ch) }
}

/// The look of a button of the first-start screen.
pub open spec fn consent_look(button: Focus, s: ConsentUiState) -> ButtonLook {
    match button {
        Focus::Cancel => if s.focus == Focus::Cancel {
            ButtonLook::CancelFocused
        } else {
            ButtonLook::Cancel
        },
        Focus::Continue => if s.focus == Focus::Continue && s.eula {
            ButtonLook::GoFocused
        } else if s.eula {
            ButtonLook::Go
        } else {
            ButtonLook::Off
        },
        Focus::ContinueAll => if s.focus == Focus::ContinueAll && s.eula && s.pp && s.tos {
            ButtonLook::GoFocused
        } else if s.eula && s.pp {
            ButtonLook::Go
        } else {
            ButtonLook::Off
        },
        _ => ButtonLook::Off,
    }
}

/// The buttons of the first-start screen.
pub open spec fn consent_row() -> Seq<(Seq<char>, Focus)> {
    seq![
        ("[Q] Cancel"@, Focus::Cancel),
        ("Continue"@, Focus::Continue),
        ("Continue with Tensamin Services"@, Focus::ContinueAll),
    ]
}

/// The button row of the first-start screen on `area_width` columns from
/// column `area_x`.
pub fn consent_buttons(state: &ConsentUiState, area_x: u16, area_width: u16) -> (r: Vec<ButtonPlan>)
    requires
        sum_u16(row_minimums(consent_row())) <= area_width,
        area_x + area_width <= u16::MAX,
    ensures
        plans_view(r@) == planned(
            consent_row(),
            consent_row().map_values(|b: (Seq<char>, Focus)| consent_look(b.1, *state)),
            area_x,
            area_width,
        ),
{
    proof {
        reveal_strlit("[Q] Cancel");
        reveal_strlit("Continue");
        reveal_strlit("Continue with Tensamin Services");
    }
    let labels = vec!["[Q] Cancel", "Continue", "Continue with Tensamin Services"];
    let cancel = if state.focus == Focus::Cancel {
        ButtonLook::CancelFocused
    } else {
        ButtonLook::Cancel
    };
    let go = if state.focus == Focus::Continue && state.can_continue() {
        ButtonLook::GoFocused
    } else if state.can_continue() {
        ButtonLook::Go
    } else {
        ButtonLook::Off
    };
    let all = if state.focus == Focus::ContinueAll && state.can_continue_all() {
        ButtonLook::GoFocused
    } else if state.can_continue() && state.pp {
        ButtonLook::Go
    } else {
        ButtonLook::Off
    };
    let looks = vec![cancel, go, all];
    assert(looks@ =~= consent_row().map_values(|b: (Seq<char>, Focus)| consent_look(b.1, *state)));
    plan_row(&labels, &looks, area_x, area_width, Ghost(consent_row()))
}

/// The lines of the `agreements` file the consent screen writes.
pub open spec fn ui_lines(s: ConsentUiState, now: u64) -> Seq<Seq<char>> {
    seq![
        "\"EULA=true\" indicates that you read and accepted the End User Licence agreement. You can find our EULA at https://docs.tensamin.net/legal/eula/"@,
        "EULA="@ + flag_text(s.eula),
        "\"PrivacyPolicy=true\" indicates that you read and accepted the Privacy Policy. You can find our Privacy Policy at https://docs.tensamin.net/legal/privacy-policy/"@,
        "PrivacyPolicy="@ + flag_text(s.pp),
        "\"ToS=true\" indicates that you read and accepted the Terms of Service. You can find our Terms of Service at https://docs.tensamin.net/legal/terms-of-service/"@,
        "ToS="@ + flag_text(s.tos),
        "This file reflects the current consent state used by the application."@,
        "It may be regenerated or overwritten by the application."@,
        "This file was last edited by Tensamin at:"@,
        "UNIX-SECOND="@ + decimal(now as nat),
    ]
}

/// Decimal digits hold no line break and end in a digit.
proof fn lemma_decimal_plain(n: nat)
    ensures
        lacks(decimal(n), '\n'),
        decimal(n).len() > 0,
        decimal(n).last() != '\r',
    decreases n,
{
    if n >= 10 {
        lemma_decimal_plain(n / 10);
    }
}

/// Ten lines joined by line breaks.
proof fn lemma_join10(ls: Seq<Seq<char>>)
    requires
        ls.len() == 10,
    ensures
        join_lines(ls) == ls[0] + seq!['\n'] + ls[1] + seq!['\n'] + ls[2] + seq!['\n'] + ls[3] + seq!['\n']
            + ls[4] + seq!['\n'] + ls[5] + seq!['\n'] + ls[6] + seq!['\n'] + ls[7] + seq!['\n'] + ls[8]
            + seq!['\n'] + ls[9],
{
    reveal_with_fuel(join_lines, 11);
    assert(ls.drop_last().drop_last().drop_last().drop_last().drop_last().drop_last().drop_last().drop_last().drop_last()
        =~= seq![ls[0]]);
}

proof fn lemma_eula_note()
    ensures
        UI_EULA_NOTE@ == "\"EULA=true\" indicates that you read and accepted the End User Licence agreement. You can find our EULA at https://docs.tensamin.net/legal/eula/"@
            + seq!['\n'] + "EULA="@,
{
    reveal_strlit("\"EULA=true\" indicates that you read and accepted the End User Licence agreement. You can find our EULA at https://docs.tensamin.net/legal/eula/\nEULA=");
    reveal_strlit("\"EULA=true\" indicates that you read and accepted the End User Licence agreement. You can find our EULA at https://docs.tensamin.net/legal/eula/");
    reveal_strlit("EULA=");
    assert(UI_EULA_NOTE@ =~= "\"EULA=true\" indicates that you read and accepted the End User Licence agreement. You can find our EULA at https://docs.tensamin.net/legal/eula/"@
        + seq!['\n'] + "EULA="@);
}

proof fn lemma_pp_note()
    ensures
        UI_PP_NOTE@ == seq!['\n']
            + "\"PrivacyPolicy=true\" indicates that you read and accepted the Privacy Policy. You can find our Privacy Policy at https://docs.tensamin.net/legal/privacy-policy/"@
            + seq!['\n'] + "PrivacyPolicy="@,
{
    reveal_strlit("\n\"PrivacyPolicy=true\" indicates that you read and accepted the Privacy Policy. You can find our Privacy Policy at https://docs.tensamin.net/legal/privacy-policy/\nPrivacyPolicy=");
    reveal_strlit("\"PrivacyPolicy=true\" indicates that you read and accepted the Privacy Policy. You can find our Privacy Policy at https://docs.tensamin.net/legal/privacy-policy/");
    reveal_strlit("PrivacyPolicy=");
    assert(UI_PP_NOTE@ =~= seq!['\n']
        + "\"PrivacyPolicy=true\" indicates that you read and accepted the Privacy Policy. You can find our Privacy Policy at https://docs.tensamin.net/legal/privacy-policy/"@
        + seq!['\n'] + "PrivacyPolicy="@);
}

proof fn lemma_tos_note()
    ensures
        UI_TOS_NOTE@ == seq!['\n']
            + "\"ToS=true\" indicates that you read and accepted the Terms of Service. You can find our Terms of Service at https://docs.tensamin.net/legal/terms-of-service/"@
            + seq!['\n'] + "ToS="@,
{
    reveal_strlit("\n\"ToS=true\" indicates that you read and accepted the Terms of Service. You can find our Terms of Service at https://docs.tensamin.net/legal/terms-of-service/\nToS=");
    reveal_strlit("\"ToS=true\" indicates that you read and accepted the Terms of Service. You can find our Terms of Service at https://docs.tensamin.net/legal/terms-of-service/");
    reveal_strlit("ToS=");
    assert(UI_TOS_NOTE@ =~= seq!['\n']
        + "\"ToS=true\" indicates that you read and accepted the Terms of Service. You can find our Terms of Service at https://docs.tensamin.net/legal/terms-of-service/"@
        + seq!['\n'] + "ToS="@);
}

proof fn lemma_footer()
    ensures
        UI_FOOTER@ == seq!['\n'] + "This file reflects the current consent state used by the application."@
            + seq!['\n'] + "It may be regenerated or overwritten by the application."@ + seq!['\n']
            + "This file was last edited by Tensamin at:"@ + seq!['\n'] + "UNIX-SECOND="@,
{
    reveal_strlit("\nThis file reflects the current consent state used by the application.\nIt may be regenerated or overwritten by the application.\nThis file was last edited by Tensamin at:\nUNIX-SECOND=");
    reveal_strlit("This file reflects the current consent state used by the application.");
    reveal_strlit("It may be regenerated or overwritten by the application.");
    reveal_strlit("This file was last edited by Tensamin at:");
    reveal_strlit("UNIX-SECOND=");
    assert(UI_FOOTER@ =~= seq!['\n'] + "This file reflects the current consent state used by the application."@
        + seq!['\n'] + "It may be regenerated or overwritten by the application."@ + seq!['\n']
        + "This file was last edited by Tensamin at:"@ + seq!['\n'] + "UNIX-SECOND="@);
}

/// The file is its lines joined by line breaks.
proof fn lemma_ui_text_lines(s: ConsentUiState, now: u64)
    ensures
        ui_text(s, now) == join_lines(ui_lines(s, now)),
{
    let ls = ui_lines(s, now);
    let nl = seq!['\n'];
    lemma_join10(ls);
    lemma_eula_note();
    lemma_pp_note();
    lemma_tos_note();
    lemma_footer();
    let f1 = flag_text(s.eula);
    let f2 = flag_text(s.pp);
    let f3 = flag_text(s.tos);
    let d = decimal(now as nat);
    let p1 = UI_EULA_NOTE@ + f1;
    assert(p1 =~= ls[0] + nl + ls[1]);
    let p2 = p1 + UI_PP_NOTE@ + f2;
    assert(p2 =~= p1 + nl + ls[2] + nl + ls[3]);
    let p3 = p2 + UI_TOS_NOTE@ + f3;
    assert(p3 =~= p2 + nl + ls[4] + nl + ls[5]);
    let p4 = p3 + UI_FOOTER@ + d;
    assert(p4 =~= p3 + nl + ls[6] + nl + ls[7] + nl + ls[8] + nl + ls[9]);
    assert(ui_text(s, now) == p4);
}
proof fn lemma_plain_note_0()
    ensures
        lacks("\"EULA=true\" indicates that you read and accepted the End User Licence agreement. You can find our EULA at https://docs.tensamin.net/legal/eula/"@, '\n'),
        "\"EULA=true\" indicates that you read and accepted the End User Licence agreement. You can find our EULA at https://docs.tensamin.net/legal/eula/"@.len() > 0,
        "\"EULA=true\" indicates that you read and accepted the End User Licence agreement. You can find our EULA at https://docs.tensamin.net/legal/eula/"@.last() != '\r',
        !has_prefix("\"EULA=true\" indicates that you read and accepted the End User Licence agreement. You can find our EULA at https://docs.tensamin.net/legal/eula/"@, "EULA="@),
        !has_prefix("\"EULA=true\" indicates that you read and accepted the End User Licence agreement. You can find our EULA at https://docs.tensamin.net/legal/eula/"@, "ToS="@),
        !has_prefix("\"EULA=true\" indicates that you read and accepted the End User Licence agreement. You can find our EULA at https://docs.tensamin.net/legal/eula/"@, "PrivacyPolicy="@),
{
    reveal_strlit("\"EULA=true\" indicates that you read and accepted the End User Licence agreement. You can find our EULA at https://docs.tensamin.net/legal/eula/");
    reveal_strlit("EULA=");
    reveal_strlit("ToS=");
    reveal_strlit("PrivacyPolicy=");
    lemma_differs_at("\"EULA=true\" indicates that you read and accepted the End User Licence agreement. You can find our EULA at https://docs.tensamin.net/legal/eula/"@, "EULA="@, 0);
    lemma_differs_at("\"EULA=true\" indicates that you read and accepted the End User Licence agreement. You can find our EULA at https://docs.tensamin.net/legal/eula/"@, "PrivacyPolicy="@, 0);
    if "\"EULA=true\" indicates that you read and accepted the End User Licence agreement. You can find our EULA at https://docs.tensamin.net/legal/eula/"@[0] == 'T' {
        lemma_differs_at("\"EULA=true\" indicates that you read and accepted the End User Licence agreement. You can find our EULA at https://docs.tensamin.net/legal/eula/"@, "ToS="@, 1);
    } else {
        lemma_differs_at("\"EULA=true\" indicates that you read and accepted the End User Licence agreement. You can find our EULA at https://docs.tensamin.net/legal/eula/"@, "ToS="@, 0);
    }
}

proof fn lemma_plain_note_1()
    ensures
        lacks("\"PrivacyPolicy=true\" indicates that you read and accepted the Privacy Policy. You can find our Privacy Policy at https://docs.tensamin.net/legal/privacy-policy/"@, '\n'),
        "\"PrivacyPolicy=true\" indicates that you read and accepted the Privacy Policy. You can find our Privacy Policy at https://docs.tensamin.net/legal/privacy-policy/"@.len() > 0,
        "\"PrivacyPolicy=true\" indicates that you read and accepted the Privacy Policy. You can find our Privacy Policy at https://docs.tensamin.net/legal/privacy-policy/"@.last() != '\r',
        !has_prefix("\"PrivacyPolicy=true\" indicates that you read and accepted the Privacy Policy. You can find our Privacy Policy at https://docs.tensamin.net/legal/privacy-policy/"@, "EULA="@),
        !has_prefix("\"PrivacyPolicy=true\" indicates that you read and accepted the Privacy Policy. You can find our Privacy Policy at https://docs.tensamin.net/legal/privacy-policy/"@, "ToS="@),
        !has_prefix("\"PrivacyPolicy=true\" indicates that you read and accepted the Privacy Policy. You can find our Privacy Policy at https://docs.tensamin.net/legal/privacy-policy/"@, "PrivacyPolicy="@),
{
    reveal_strlit("\"PrivacyPolicy=true\" indicates that you read and accepted the Privacy Policy. You can find our Privacy Policy at https://docs.tensamin.net/legal/privacy-policy/");
    reveal_strlit("EULA=");
    reveal_strlit("ToS=");
    reveal_strlit("PrivacyPolicy=");
    lemma_differs_at("\"PrivacyPolicy=true\" indicates that you read and accepted the Privacy Policy. You can find our Privacy Policy at https://docs.tensamin.net/legal/privacy-policy/"@, "EULA="@, 0);
    lemma_differs_at("\"PrivacyPolicy=true\" indicates that you read and accepted the Privacy Policy. You can find our Privacy Policy at https://docs.tensamin.net/legal/privacy-policy/"@, "PrivacyPolicy="@, 0);
    if "\"PrivacyPolicy=true\" indicates that you read and accepted the Privacy Policy. You can find our Privacy Policy at https://docs.tensamin.net/legal/privacy-policy/"@[0] == 'T' {
        lemma_differs_at("\"PrivacyPolicy=true\" indicates that you read and accepted the Privacy Policy. You can find our Privacy Policy at https://docs.tensamin.net/legal/privacy-policy/"@, "ToS="@, 1);
    } else {
        lemma_differs_at("\"PrivacyPolicy=true\" indicates that you read and accepted the Privacy Policy. You can find our Privacy Policy at https://docs.tensamin.net/legal/privacy-policy/"@, "ToS="@, 0);
    }
}

proof fn lemma_plain_note_2()
    ensures
        lacks("\"ToS=true\" indicates that you read and accepted the Terms of Service. You can find our Terms of Service at https://docs.tensamin.net/legal/terms-of-service/"@, '\n'),
        "\"ToS=true\" indicates that you read and accepted the Terms of Service. You can find our Terms of Service at https://docs.tensamin.net/legal/terms-of-service/"@.len() > 0,
        "\"ToS=true\" indicates that you read and accepted the Terms of Service. You can find our Terms of Service at https://docs.tensamin.net/legal/terms-of-service/"@.last() != '\r',
        !has_prefix("\"ToS=true\" indicates that you read and accepted the Terms of Service. You can find our Terms of Service at https://docs.tensamin.net/legal/terms-of-service/"@, "EULA="@),
        !has_prefix("\"ToS=true\" indicates that you read and accepted the Terms of Service. You can find our Terms of Service at https://docs.tensamin.net/legal/terms-of-service/"@, "ToS="@),
        !has_prefix("\"ToS=true\" indicates that you read and accepted the Terms of Service. You can find our Terms of Service at https://docs.tensamin.net/legal/terms-of-service/"@, "PrivacyPolicy="@),
{
    reveal_strlit("\"ToS=true\" indicates that you read and accepted the Terms of Service. You can find our Terms of Service at https://docs.tensamin.net/legal/terms-of-service/");
    reveal_strlit("EULA=");
    reveal_strlit("ToS=");
    reveal_strlit("PrivacyPolicy=");
    lemma_differs_at("\"ToS=true\" indicates that you read and accepted the Terms of Service. You can find our Terms of Service at https://docs.tensamin.net/legal/terms-of-service/"@, "EULA="@, 0);
    lemma_differs_at("\"ToS=true\" indicates that you read and accepted the Terms of Service. You can find our Terms of Service at https://docs.tensamin.net/legal/terms-of-service/"@, "PrivacyPolicy="@, 0);
    if "\"ToS=true\" indicates that you read and accepted the Terms of Service. You can find our Terms of Service at https://docs.tensamin.net/legal/terms-of-service/"@[0] == 'T' {
        lemma_differs_at("\"ToS=true\" indicates that you read and accepted the Terms of Service. You can find our Terms of Service at https://docs.tensamin.net/legal/terms-of-service/"@, "ToS="@, 1);
    } else {
        lemma_differs_at("\"ToS=true\" indicates that you read and accepted the Terms of Service. You can find our Terms of Service at https://docs.tensamin.net/legal/terms-of-service/"@, "ToS="@, 0);
    }
}

proof fn lemma_plain_note_3()
    ensures
        lacks("This file reflects the current consent state used by the application."@, '\n'),
        "This file reflects the current consent state used by the application."@.len() > 0,
        "This file reflects the current consent state used by the application."@.last() != '\r',
        !has_prefix("This file reflects the current consent state used by the application."@, "EULA="@),
        !has_prefix("This file reflects the current consent state used by the application."@, "ToS="@),
        !has_prefix("This file reflects the current consent state used by the application."@, "PrivacyPolicy="@),
{
    reveal_strlit("This file reflects the current consent state used by the application.");
    reveal_strlit("EULA=");
    reveal_strlit("ToS=");
    reveal_strlit("PrivacyPolicy=");
    lemma_differs_at("This file reflects the current consent state used by the application."@, "EULA="@, 0);
    lemma_differs_at("This file reflects the current consent state used by the application."@, "PrivacyPolicy="@, 0);
    if "This file reflects the current consent state used by the application."@[0] == 'T' {
        lemma_differs_at("This file reflects the current consent state used by the application."@, "ToS="@, 1);
    } else {
        lemma_differs_at("This file reflects the current consent state used by the application."@, "ToS="@, 0);
    }
}

proof fn lemma_plain_note_4()
    ensures
        lacks("It may be regenerated or overwritten by the application."@, '\n'),
        "It may be regenerated or overwritten by the application."@.len() > 0,
        "It may be regenerated or overwritten by the application."@.last() != '\r',
        !has_prefix("It may be regenerated or overwritten by the application."@, "EULA="@),
        !has_prefix("It may be regenerated or overwritten by the application."@, "ToS="@),
        !has_prefix("It may be regenerated or overwritten by the application."@, "PrivacyPolicy="@),
{
    reveal_strlit("It may be regenerated or overwritten by the application.");
    reveal_strlit("EULA=");
    reveal_strlit("ToS=");
    reveal_strlit("PrivacyPolicy=");
    lemma_differs_at("It may be regenerated or overwritten by the application."@, "EULA="@, 0);
    lemma_differs_at("It may be regenerated or overwritten by the application."@, "PrivacyPolicy="@, 0);
    if "It may be regenerated or overwritten by the application."@[0] == 'T' {
        lemma_differs_at("It may be regenerated or overwritten by the application."@, "ToS="@, 1);
    } else {
        lemma_differs_at("It may be regenerated or overwritten by the application."@, "ToS="@, 0);
    }
}

proof fn lemma_plain_note_5()
    ensures
        lacks("This file was last edited by Tensamin at:"@, '\n'),
        "This file was last edited by Tensamin at:"@.len() > 0,
        "This file was last edited by Tensamin at:"@.last() != '\r',
        !has_prefix("This file was last edited by Tensamin at:"@, "EULA="@),
        !has_prefix("This file was last edited by Tensamin at:"@, "ToS="@),
        !has_prefix("This file was last edited by Tensamin at:"@, "PrivacyPolicy="@),
{
    reveal_strlit("This file was last edited by Tensamin at:");
    reveal_strlit("EULA=");
    reveal_strlit("ToS=");
    reveal_strlit("PrivacyPolicy=");
    lemma_differs_at("This file was last edited by Tensamin at:"@, "EULA="@, 0);
    lemma_differs_at("This file was last edited by Tensamin at:"@, "PrivacyPolicy="@, 0);
    if "This file was last edited by Tensamin at:"@[0] == 'T' {
        lemma_differs_at("This file was last edited by Tensamin at:"@, "ToS="@, 1);
    } else {
        lemma_differs_at("This file was last edited by Tensamin at:"@, "ToS="@, 0);
    }
}

/// A flag's text holds no line break and ends in `e`.
proof fn lemma_flag_plain(b: bool)
    ensures
        lacks(flag_text(b), '\n'),
        flag_text(b).len() > 0,
        flag_text(b).last() == 'e',
        (flag_text(b) == "true"@) == b,
{
    reveal_strlit("true");
    reveal_strlit("false");
    if !b {
        assert(flag_text(b).len() != "true"@.len());
    }
}

/// A key line: the key, then a value without line breaks ending in `e` or
/// a digit.
proof fn lemma_key_line(key: Seq<char>, value: Seq<char>)
    requires
        lacks(key, '\n'),
        lacks(value, '\n'),
        value.len() > 0,
        value.last() != '\r',
    ensures
        lacks(key + value, '\n'),
        (key + value).len() > 0,
        strip_cr(key + value) == key + value,
{
    lemma_concat_lacks(key, value, '\n');
    assert((key + value).last() == value.last());
}

/// The lines of the file are plain: no line breaks, no carriage return at
/// their ends, the last one not empty.
proof fn lemma_ui_lines_plain(s: ConsentUiState, now: u64)
    ensures
        plain_lines(ui_lines(s, now)),
{
    let ls = ui_lines(s, now);
    lemma_plain_note_0();
    lemma_plain_note_1();
    lemma_plain_note_2();
    lemma_plain_note_3();
    lemma_plain_note_4();
    lemma_plain_note_5();
    lemma_flag_plain(s.eula);
    lemma_flag_plain(s.pp);
    lemma_flag_plain(s.tos);
    lemma_decimal_plain(now as nat);
    reveal_strlit("EULA=");
    reveal_strlit("ToS=");
    reveal_strlit("PrivacyPolicy=");
    reveal_strlit("UNIX-SECOND=");
    lemma_key_line("EULA="@, flag_text(s.eula));
    lemma_key_line("PrivacyPolicy="@, flag_text(s.pp));
    lemma_key_line("ToS="@, flag_text(s.tos));
    lemma_key_line("UNIX-SECOND="@, decimal(now as nat));
    assert forall|k: int| 0 <= k < ls.len() implies lacks(#[trigger] ls[k], '\n') && strip_cr(ls[k])
        == ls[k] by {
        if k == 0 || k == 2 || k == 4 || k == 6 || k == 7 || k == 8 {
            assert(strip_cr(ls[k]) == ls[k]);
        }
    }
}

/// The flags read back from the file's lines are the ones written.
proof fn lemma_ui_lines_flags(s: ConsentUiState, now: u64)
    ensures
        read_flags(ui_lines(s, now)) == (s.eula, s.tos, s.pp),
{
    let ls = ui_lines(s, now);
    lemma_plain_note_0();
    lemma_plain_note_1();
    lemma_plain_note_2();
    lemma_plain_note_3();
    lemma_plain_note_4();
    lemma_plain_note_5();
    lemma_flag_plain(s.eula);
    lemma_flag_plain(s.pp);
    lemma_flag_plain(s.tos);
    reveal_strlit("EULA=");
    reveal_strlit("ToS=");
    reveal_strlit("PrivacyPolicy=");
    reveal_strlit("UNIX-SECOND=");
    let l1 = ls[1];
    let l3 = ls[3];
    let l5 = ls[5];
    let l9 = ls[9];
    assert(l1.subrange(0, 5) =~= "EULA="@);
    assert(l1.subrange(5, l1.len() as int) =~= flag_text(s.eula));
    lemma_differs_at(l3, "EULA="@, 0);
    lemma_differs_at(l3, "ToS="@, 0);
    assert(l3.subrange(0, 14) =~= "PrivacyPolicy="@);
    assert(l3.subrange(14, l3.len() as int) =~= flag_text(s.pp));
    lemma_differs_at(l5, "EULA="@, 0);
    assert(l5.subrange(0, 4) =~= "ToS="@);
    assert(l5.subrange(4, l5.len() as int) =~= flag_text(s.tos));
    lemma_differs_at(l9, "EULA="@, 0);
    lemma_differs_at(l9, "ToS="@, 0);
    lemma_differs_at(l9, "PrivacyPolicy="@, 0);
    reveal_with_fuel(read_flags, 11);
    let t1 = ls.take(1);
    let t2 = ls.take(2);
    let t3 = ls.take(3);
    let t4 = ls.take(4);
    let t5 = ls.take(5);
    let t6 = ls.take(6);
    let t7 = ls.take(7);
    let t8 = ls.take(8);
    let t9 = ls.take(9);
    assert(t1.drop_last() =~= Seq::<Seq<char>>::empty());
    assert(t2.drop_last() =~= t1);
    assert(t3.drop_last() =~= t2);
    assert(t4.drop_last() =~= t3);
    assert(t5.drop_last() =~= t4);
    assert(t6.drop_last() =~= t5);
    assert(t7.drop_last() =~= t6);
    assert(t8.drop_last() =~= t7);
    assert(t9.drop_last() =~= t8);
    assert(ls.drop_last() =~= t9);
    assert(read_flags(t1) == (false, false, false));
    assert(read_flags(t2) == (s.eula, false, false));
    assert(read_flags(t3) == (s.eula, false, false));
    assert(read_flags(t4) == (s.eula, false, s.pp));
    assert(read_flags(t5) == (s.eula, false, s.pp));
    assert(read_flags(t6) == (s.eula, s.tos, s.pp));
    assert(read_flags(t7) == (s.eula, s.tos, s.pp));
    assert(read_flags(t8) == (s.eula, s.tos, s.pp));
    assert(read_flags(t9) == (s.eula, s.tos, s.pp));
}

/// The optional documents are ticked only while the EULA is.
pub open spec fn ui_consistent(s: ConsentUiState) -> bool {
    !s.eula ==> !s.tos && !s.pp
}

/// The screen run over a sequence of keys: the state it ends in and the
/// choice, if a key closed it (keys after that one are not read).
pub open spec fn ui_run(s: ConsentUiState, keys: Seq<ConsentKey>) -> (ConsentUiState, Option<UserChoice>)
    decreases keys.len(),
{
    if keys.len() == 0 {
        (s, None)
    } else {
        let (t, c) = ui_key(s, keys[0]);
        if c is Some {
            (t, c)
        } else {
            ui_run(t, keys.drop_first())
        }
    }
}

/// One key keeps the optional documents unticked while the EULA is, and
/// closes the screen with: a refusal exactly on Esc, Q, or Enter on Cancel;
/// the EULA only on Enter on Continue with the EULA ticked; everything only
/// on Enter on the last button with all three ticked.
pub proof fn lemma_ui_key(s: ConsentUiState, k: ConsentKey)
    requires
        ui_consistent(s),
    ensures
        ui_consistent(ui_key(s, k).0),
        (ui_key(s, k).1 == Some(UserChoice::Deny)) == (k == ConsentKey::Esc || k == ConsentKey::Quit || (k
            == ConsentKey::Enter && s.focus == Focus::Cancel)),
        ui_key(s, k).1 == Some(UserChoice::AcceptEULA) ==> k == ConsentKey::Enter && s.focus == Focus::Continue
            && s.eula,
        ui_key(s, k).1 == Some(UserChoice::AcceptAll) ==> k == ConsentKey::Enter && s.focus == Focus::ContinueAll
            && s.eula && s.tos && s.pp,
        ui_key(s, k).1 is Some ==> ui_key(s, k).0 == s,
{
}

/// The key that closed the screen over a sequence of keys, with the state
/// it was pressed in; `None` when no key closed it.
pub open spec fn ui_closing(s: ConsentUiState, keys: Seq<ConsentKey>) -> Option<(ConsentUiState, ConsentKey)>
    decreases keys.len(),
{
    if keys.len() == 0 {
        None
    } else {
        let (t, c) = ui_key(s, keys[0]);
        if c is Some {
            Some((s, keys[0]))
        } else {
            ui_closing(t, keys.drop_first())
        }
    }
}

/// Over any sequence of keys from a state where the optional documents are
/// ticked only with the EULA, every state keeps that; when a key closes the
/// screen, it closes with a refusal exactly when that key is Esc, Q, or
/// Enter on Cancel, with the EULA accepted only on Enter on Continue with
/// the EULA ticked, and with everything accepted only on Enter on the last
/// button with all three ticked.
pub proof fn lemma_ui_run(s: ConsentUiState, keys: Seq<ConsentKey>)
    requires
        ui_consistent(s),
    ensures
        ui_consistent(ui_run(s, keys).0),
        (ui_run(s, keys).1 is Some) == (ui_closing(s, keys) is Some),
        ui_closing(s, keys) matches Some((t, k)) ==> {
            &&& ui_consistent(t)
            &&& ui_run(s, keys).0 == t
            &&& (ui_run(s, keys).1 == Some(UserChoice::Deny)) == (k == ConsentKey::Esc || k == ConsentKey::Quit || (k
                == ConsentKey::Enter && t.focus == Focus::Cancel))
            &&& ui_run(s, keys).1 == Some(UserChoice::AcceptEULA) ==> k == ConsentKey::Enter && t.focus
                == Focus::Continue && t.eula
            &&& ui_run(s, keys).1 == Some(UserChoice::AcceptAll) ==> k == ConsentKey::Enter && t.focus
                == Focus::ContinueAll && t.eula && t.tos && t.pp
        },
    decreases keys.len(),
{
    if keys.len() > 0 {
        lemma_ui_key(s, keys[0]);
        let (t, c) = ui_key(s, keys[0]);
        if c is None {
            lemma_ui_run(t, keys.drop_first());
        }
    }
}

/// Reading back the `agreements` file the consent screen writes gives the
/// state it was written from, its optional consents cleared when the EULA
/// is not accepted, the focus on Cancel.
pub proof fn lemma_ui_round_trip(s: ConsentUiState, now: u64)
    ensures
        ui_from_text(ui_text(s, now)) == sanitized_ui(ConsentUiState { focus: Focus::Cancel, ..s }),
{
    lemma_ui_text_lines(s, now);
    lemma_ui_lines_plain(s, now);
    lemma_lines_of_join(ui_lines(s, now));
    lemma_ui_lines_flags(s, now);
}

} // verus!
