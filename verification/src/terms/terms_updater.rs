//! The update dialog run before the interface starts: its key handling and
//! what the choice made in it does to the consent record.
use crate::gui::screens::screens::{ScreenAction, ScreenKey, document_of, focused_document};
use crate::gui::screens::terms_updater::{
    TermsUpdaterScreen, UpdaterModel, updater_activate,
};
use crate::terms::consent_state::{ConsentModel, ConsentState, UserChoice};
use crate::terms::doc::{Doc, DocModel, opt_view};
use crate::terms::focus::{Focus, next_in, prev_in};
use vstd::prelude::*;

verus! {

/// The elements the focus moves over in the dialog: the EULA box always,
/// the boxes of the optional documents that need consent, Cancel, then
/// Continue once the EULA is ticked, then the button for all documents once
/// both optional boxes are ticked and one of them needs consent.
pub open spec fn session_order(s: UpdaterModel) -> Seq<Focus> {
    seq![Focus::Eula] + (if s.tos_needed { seq![Focus::Tos] } else { Seq::empty() }) + (if s.pp_needed {
        seq![Focus::Pp]
    } else {
        Seq::empty()
    }) + seq![Focus::Cancel] + if s.eula {
        seq![Focus::Continue] + if s.tos && s.pp && (s.pp_needed || s.tos_needed) {
            seq![Focus::ContinueAll]
        } else {
            Seq::empty()
        }
    } else {
        Seq::empty()
    }
}

/// The state and outcome after a key press in the dialog; while it only
/// shows that the terminal is too small, only Q (leaving) counts.
pub open spec fn session_key(s: UpdaterModel, key: ScreenKey, too_small: bool) -> (UpdaterModel, ScreenAction) {
    if too_small {
        (
            s,
            if key == ScreenKey::Char('q') || key == ScreenKey::Char('Q') {
                ScreenAction::Close(UserChoice::Deny)
            } else {
                ScreenAction::Unhandled
            },
        )
    } else {
        match key {
            ScreenKey::Esc => (s, ScreenAction::Close(UserChoice::Deny)),
            ScreenKey::Up | ScreenKey::Left => (
                UpdaterModel { focus: prev_in(session_order(s), s.focus), ..s },
                ScreenAction::Handled,
            ),
            ScreenKey::Down | ScreenKey::Right | ScreenKey::Tab => (
                UpdaterModel { focus: next_in(session_order(s), s.focus), ..s },
                ScreenAction::Handled,
            ),
            ScreenKey::Char(c) => if c == 'q' || c == 'Q' {
                (s, ScreenAction::Close(UserChoice::Deny))
            } else if c == 'o' || c == 'O' {
                (
                    s,
                    match focused_document(s.focus) {
                        Some(t) => ScreenAction::OpenDocument(t),
                        None => ScreenAction::Unhandled,
                    },
                )
            } else if c == 'l' || c == 'L' {
                (
                    s,
                    match focused_document(s.focus) {
                        Some(t) => ScreenAction::OpenLink(t),
                        None => ScreenAction::Unhandled,
                    },
                )
            } else if c == ' ' {
                session_activate(s)
            } else {
                (s, ScreenAction::Unhandled)
            },
            ScreenKey::Enter => session_activate(s),
            ScreenKey::Other => (s, ScreenAction::Unhandled),
        }
    }
}

/// Enter or space in the dialog: as on the update screen, but a refused
/// press leaves the dialog open without further meaning.
pub open spec fn session_activate(s: UpdaterModel) -> (UpdaterModel, ScreenAction) {
    let (t, a) = updater_activate(s);
    (t, if a == ScreenAction::Unhandled { ScreenAction::Handled } else { a })
}

/// The elements the focus moves over in the dialog, in order.
pub fn session_states(screen: &TermsUpdaterScreen) -> (r: Vec<Focus>)
    ensures
        r@ == session_order(screen.model()),
{
    let mut states = vec![Focus::Eula];
    if screen.tos_needed {
        states.push(Focus::Tos);
    }
    if screen.pp_needed {
        states.push(Focus::Pp);
    }
    states.push(Focus::Cancel);
    if screen.eula {
        states.push(Focus::Continue);
        if screen.tos && screen.pp && (screen.pp_needed || screen.tos_needed) {
            states.push(Focus::ContinueAll);
        }
    }
    assert(states@ =~= session_order(screen.model()));
    states
}

/// Handles a key press in the dialog.
pub fn session_input(screen: &mut TermsUpdaterScreen, key: ScreenKey, too_small: bool) -> (r: ScreenAction)
    ensures
        (final(screen).model(), r) == session_key(old(screen).model(), key, too_small),
        final(screen).eula_future == old(screen).eula_future,
        final(screen).tos_future == old(screen).tos_future,
        final(screen).pp_future == old(screen).pp_future,
        final(screen).update_needed == old(screen).update_needed,
        final(screen).eula_for_future == old(screen).eula_for_future,
        final(screen).tos_for_future == old(screen).tos_for_future,
        final(screen).pp_for_future == old(screen).pp_for_future,
{
    if too_small {
        return if key == ScreenKey::Char('q') || key == ScreenKey::Char('Q') {
            ScreenAction::Close(UserChoice::Deny)
        } else {
            ScreenAction::Unhandled
        };
    }
    let states = session_states(screen);
    match key {
        ScreenKey::Esc => ScreenAction::Close(UserChoice::Deny),
        ScreenKey::Up | ScreenKey::Left => {
            screen.focus.prev(states.as_slice());
            ScreenAction::Handled
        },
        ScreenKey::Down | ScreenKey::Right | ScreenKey::Tab => {
            screen.focus.next(states.as_slice());
            ScreenAction::Handled
        },
        ScreenKey::Char(c) => {
            if c == 'q' || c == 'Q' {
                ScreenAction::Close(UserChoice::Deny)
            } else if c == 'o' || c == 'O' {
                match document_of(screen.focus) {
                    Some(t) => ScreenAction::OpenDocument(t),
                    None => ScreenAction::Unhandled,
                }
            } else if c == 'l' || c == 'L' {
                match document_of(screen.focus) {
                    Some(t) => ScreenAction::OpenLink(t),
                    None => ScreenAction::Unhandled,
                }
            } else if c == ' ' {
                let a = screen.activate();
                if a == ScreenAction::Unhandled {
                    ScreenAction::Handled
                } else {
                    a
                }
            } else {
                ScreenAction::Unhandled
            }
        },
        ScreenKey::Enter => {
            let a = screen.activate();
            if a == ScreenAction::Unhandled {
                ScreenAction::Handled
            } else {
                a
            }
        },
        ScreenKey::Other => ScreenAction::Unhandled,
    }
}

/// While the EULA box is not ticked, the optional boxes stand as they start:
/// ticked exactly for documents that need no consent.
pub open spec fn session_consistent(s: UpdaterModel) -> bool {
    !s.eula ==> s.tos == !s.tos_needed && s.pp == !s.pp_needed
}

/// The dialog run over key presses, each with whether the terminal was too
/// small at the time: the state it ends in and the choice, if a key closed
/// it (later keys are not read).
pub open spec fn session_run(s: UpdaterModel, keys: Seq<(ScreenKey, bool)>) -> (UpdaterModel, Option<UserChoice>)
    decreases keys.len(),
{
    if keys.len() == 0 {
        (s, None)
    } else {
        let (t, a) = session_key(s, keys[0].0, keys[0].1);
        match a {
            ScreenAction::Close(c) => (t, Some(c)),
            _ => session_run(t, keys.drop_first()),
        }
    }
}

/// Over any key presses from a consistent state, every state stays
/// consistent and needs the same documents, and the dialog closes with the
/// EULA accepted only with its box ticked and the focus on Continue, with
/// everything accepted only with all three boxes ticked and the focus on the
/// last button.
pub proof fn lemma_session_run(s: UpdaterModel, keys: Seq<(ScreenKey, bool)>)
    requires
        session_consistent(s),
    ensures
        session_consistent(session_run(s, keys).0),
        session_run(s, keys).0.eula_needed == s.eula_needed,
        session_run(s, keys).0.tos_needed == s.tos_needed,
        session_run(s, keys).0.pp_needed == s.pp_needed,
        session_run(s, keys).1 == Some(UserChoice::AcceptEULA) ==> session_run(s, keys).0.eula && session_run(
            s,
            keys,
        ).0.focus == Focus::Continue,
        session_run(s, keys).1 == Some(UserChoice::AcceptAll) ==> session_run(s, keys).0.eula && session_run(
            s,
            keys,
        ).0.tos && session_run(s, keys).0.pp && session_run(s, keys).0.focus == Focus::ContinueAll,
    decreases keys.len(),
{
    if keys.len() > 0 {
        let (t, a) = session_key(s, keys[0].0, keys[0].1);
        assert(session_consistent(t));
        match a {
            ScreenAction::Close(c) => {},
            _ => lemma_session_run(t, keys.drop_first()),
        }
    }
}

/// A version to record, or the one recorded before when there is none.
pub open spec fn or_keep(new: Option<DocModel>, keep: Option<DocModel>) -> Option<DocModel> {
    if new is Some { new } else { keep }
}

/// The record after the dialog: accepting all marks the three documents
/// accepted, accepting the EULA marks it; each accepted document records
/// the version the dialog offered, if any.
pub open spec fn applied(
    m: ConsentModel,
    choice: UserChoice,
    eula: Option<DocModel>,
    tos: Option<DocModel>,
    pp: Option<DocModel>,
) -> ConsentModel {
    match choice {
        UserChoice::AcceptAll => ConsentModel {
            accepted_eula: true,
            accepted_tos: true,
            accepted_pp: true,
            future_eula: or_keep(eula, m.future_eula),
            future_tos: or_keep(tos, m.future_tos),
            future_privacy: or_keep(pp, m.future_privacy),
            ..m
        },
        UserChoice::AcceptEULA => ConsentModel {
            accepted_eula: true,
            future_eula: or_keep(eula, m.future_eula),
            ..m
        },
        UserChoice::Deny => m,
    }
}

/// The version offered, or the one kept.
fn keep_or(new: Option<Doc>, keep: Option<Doc>) -> (r: Option<Doc>)
    ensures
        opt_view(r) == or_keep(opt_view(new), opt_view(keep)),
{
    if new.is_some() {
        new
    } else {
        keep
    }
}

/// The record after the choice made in the dialog, given the versions it
/// offered for each document.
pub fn apply_choice(
    consent: ConsentState,
    choice: UserChoice,
    eula_for_future: Option<Doc>,
    tos_for_future: Option<Doc>,
    pp_for_future: Option<Doc>,
) -> (r: ConsentState)
    ensures
        r@ == applied(
            consent@,
            choice,
            opt_view(eula_for_future),
            opt_view(tos_for_future),
            opt_view(pp_for_future),
        ),
{
    let mut consent = consent;
    match choice {
        UserChoice::AcceptAll => {
            consent.accepted_eula = true;
            consent.accepted_tos = true;
            consent.accepted_pp = true;
            let fe = consent.future_eula.take();
            consent.future_eula = keep_or(eula_for_future, fe);
            let ft = consent.future_tos.take();
            consent.future_tos = keep_or(tos_for_future, ft);
            let fp = consent.future_privacy.take();
            consent.future_privacy = keep_or(pp_for_future, fp);
        },
        UserChoice::AcceptEULA => {
            consent.accepted_eula = true;
            let fe = consent.future_eula.take();
            consent.future_eula = keep_or(eula_for_future, fe);
        },
        UserChoice::Deny => {},
    }
    consent
}

} // verus!
