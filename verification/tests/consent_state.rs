use iota::terms::consent_state::{ConsentManager, ConsentState, UpdateDecision, UserChoice};
use iota::terms::doc::Doc;
use iota::terms::terms_getter::{get_link, Type};

fn doc(v: &str, h: &str, t: Type, time: u64) -> Doc {
    Doc::new(v.to_string(), h.to_string(), t, time)
}

fn empty_state() -> ConsentState {
    ConsentState {
        eula: None,
        accepted_eula: false,
        future_eula: None,
        tos: None,
        accepted_tos: false,
        future_tos: None,
        privacy: None,
        accepted_pp: false,
        future_privacy: None,
    }
}

fn accepted_state() -> ConsentState {
    ConsentState {
        eula: Some(doc("1", "e1", Type::EULA, 0)),
        accepted_eula: true,
        future_eula: None,
        tos: Some(doc("1", "t1", Type::TOS, 0)),
        accepted_tos: true,
        future_tos: None,
        privacy: Some(doc("1", "p1", Type::PP, 0)),
        accepted_pp: true,
        future_privacy: None,
    }
}

fn is_no_change(d: &UpdateDecision) -> bool {
    matches!(d, UpdateDecision::NoChange)
}

#[test]
fn doc_kinds_and_links() {
    assert_eq!(Type::EULA.to_str(), "eula");
    assert_eq!(Type::TOS.to_str(), "tos");
    assert_eq!(Type::PP.to_str(), "privacy");
    assert_eq!(Type::PP.to_string(), "Privacy Policy");
    assert_eq!(get_link(Type::TOS), "https://legal.tensamin.net/tos/");
    let d = doc("2024-01", "abc", Type::EULA, 17);
    assert_eq!(d.content_location(), ("docs/eula/".to_string(), "2024-01.md".to_string()));
    assert_eq!(d.get_version(), "2024-01");
    assert_eq!(d.get_hash(), "abc");
    assert_eq!(d.get_time(), 17);
    assert_eq!(d.get_type(), Type::EULA);
}

#[test]
fn doc_equality_ignores_time_and_kind() {
    let a = doc("1", "h", Type::EULA, 1);
    let b = doc("1", "h", Type::TOS, 99);
    let c = doc("1", "x", Type::EULA, 1);
    assert!(a.equals(&b));
    assert!(!a.equals(&c));
    assert!(a.equals_some(&Some(b)));
    assert!(!a.equals_some(&None));
}

#[test]
fn sanitize_promotes_due_versions() {
    let mut s = accepted_state();
    s.future_eula = Some(doc("2", "e2", Type::EULA, 100));
    s.future_tos = Some(doc("2", "t2", Type::TOS, 500));
    let s = s.sanitize(200);
    assert_eq!(s.eula.as_ref().unwrap().get_version(), "2");
    assert!(s.future_eula.is_none());
    assert_eq!(s.tos.as_ref().unwrap().get_version(), "1");
    assert_eq!(s.future_tos.as_ref().unwrap().get_version(), "2");
}

#[test]
fn sanitize_keeps_version_due_exactly_now() {
    let mut s = accepted_state();
    s.future_eula = Some(doc("2", "e2", Type::EULA, 200));
    let s = s.sanitize(200);
    assert_eq!(s.eula.as_ref().unwrap().get_version(), "1");
    assert!(s.future_eula.is_some());
}

#[test]
fn sanitize_drops_optional_consent_without_eula() {
    let mut s = accepted_state();
    s.accepted_eula = false;
    let s = s.sanitize(0);
    assert!(!s.accepted_tos);
    assert!(!s.accepted_pp);
    assert_eq!(ConsentManager::outcome(&s), (false, false));
}

#[test]
fn to_string_at_without_eula() {
    let text = empty_state().to_string_at(42);
    let expected = "This file reflects the current consent state used by the application.\n\
It may be regenerated or overwritten by the application.\n\
This file was last edited by Tensamin at:\n\
UNIX-SECOND=42\n\
\"EULA=true\" indicates that you read, understood and accepted Tensamin's End User Licence Agreement. You can find Tensamin's EULA at https://legal.tensamin.net/eula/\n\
EULA=false";
    assert_eq!(text, expected);
}

#[test]
fn to_string_at_with_everything() {
    let mut s = accepted_state();
    s.future_privacy = Some(doc("3", "p3", Type::PP, 900));
    let text = s.to_string_at(7);
    let lines: Vec<&str> = text.lines().collect();
    assert_eq!(lines[3], "UNIX-SECOND=7");
    assert!(lines.contains(&"EULA=true"));
    assert!(lines.contains(&"EULA-VERSION=1"));
    assert!(lines.contains(&"EULA-HASH=e1"));
    assert!(lines.contains(&"Terms-of-Service=true"));
    assert!(lines.contains(&"Terms-of-Service-HASH=t1"));
    assert!(lines.contains(&"Privacy-Policy-VERSION=1"));
    assert!(lines.contains(&"FUTURE-Privacy-Policy-VERSION=3"));
    assert!(lines.contains(&"FUTURE-Privacy-Policy-HASH=p3"));
    assert_eq!(*lines.last().unwrap(), "FUTURE-Privacy-Policy-TIME=900");
}

#[test]
fn to_string_stamps_the_clock() {
    let text = empty_state().to_string();
    let line = text.lines().nth(3).unwrap();
    let secs: u64 = line.strip_prefix("UNIX-SECOND=").unwrap().parse().unwrap();
    assert!(secs > 1_600_000_000);
}

#[test]
fn from_str_reads_back_what_was_written() {
    let mut s = accepted_state();
    s.future_eula = Some(doc("2", "e2", Type::EULA, 5000));
    let text = s.to_string_at(1000);
    let r = ConsentState::from_str(&text, 2000);
    assert!(r.accepted_eula && r.accepted_tos && r.accepted_pp);
    assert_eq!(r.eula.as_ref().unwrap().get_version(), "1");
    assert_eq!(r.eula.as_ref().unwrap().get_hash(), "e1");
    assert_eq!(r.eula.as_ref().unwrap().get_time(), 1000);
    assert_eq!(r.tos.as_ref().unwrap().get_hash(), "t1");
    assert_eq!(r.privacy.as_ref().unwrap().get_hash(), "p1");
    let f = r.future_eula.as_ref().unwrap();
    assert_eq!((f.get_version(), f.get_hash(), f.get_time()), ("2".to_string(), "e2".to_string(), 5000));
    assert!(r.future_tos.is_none());
}

#[test]
fn from_str_promotes_and_defaults() {
    let text = "EULA=true\nEULA-VERSION=1\nFUTURE-EULA-VERSION=9\nFUTURE-EULA-HASH=h9\nFUTURE-EULA-TIME=10\nTerms-of-Service=yes";
    let r = ConsentState::from_str(text, 11);
    assert!(r.accepted_eula);
    assert!(!r.accepted_tos);
    assert_eq!(r.eula.as_ref().unwrap().get_version(), "9");
    assert!(r.future_eula.is_none());
    assert_eq!(r.tos.as_ref().unwrap().get_version(), "");
    assert_eq!(r.tos.as_ref().unwrap().get_time(), 0);
}

#[test]
fn from_str_empty_text() {
    let r = ConsentState::from_str("", 0);
    assert!(!r.accepted_eula);
    assert!(r.eula.is_some());
    assert!(r.future_eula.is_none() && r.future_tos.is_none() && r.future_privacy.is_none());
}

#[test]
fn updates_none_when_docs_missing() {
    let s = accepted_state();
    let cur = (doc("1", "e1", Type::EULA, 0), doc("1", "t1", Type::TOS, 0), doc("1", "p1", Type::PP, 0));
    assert!(ConsentManager::get_updates(&s, None, Some(cur)).is_none());
}

#[test]
fn updates_none_when_nothing_changed() {
    let s = accepted_state();
    let cur = (doc("1", "e1", Type::EULA, 0), doc("1", "t1", Type::TOS, 0), doc("1", "p1", Type::PP, 0));
    let new = (doc("1", "e1", Type::EULA, 0), doc("1", "t1", Type::TOS, 0), doc("1", "p1", Type::PP, 0));
    assert!(ConsentManager::get_updates(&s, Some(cur), Some(new)).is_none());
}

#[test]
fn updates_future_and_forced() {
    let s = accepted_state();
    let cur = (doc("1", "e1", Type::EULA, 0), doc("1", "t1", Type::TOS, 0), doc("1", "p1", Type::PP, 0));
    let new = (doc("3", "e3", Type::EULA, 50), doc("1", "t1", Type::TOS, 0), doc("1", "p1", Type::PP, 0));
    let d = ConsentManager::get_updates(&s, Some(cur), Some(new)).unwrap();
    match &d.0 {
        UpdateDecision::Future { newest } => assert_eq!(newest.get_version(), "3"),
        _ => panic!("expected a future EULA"),
    }
    assert!(is_no_change(&d.1));
    assert!(is_no_change(&d.2));
    assert!(!ConsentManager::is_forced(&d));
}

#[test]
fn updates_forced_for_unaccepted_version_in_force() {
    let s = accepted_state();
    let cur = (doc("1", "e1", Type::EULA, 0), doc("2", "t2", Type::TOS, 0), doc("1", "p1", Type::PP, 0));
    let new = (doc("1", "e1", Type::EULA, 0), doc("3", "t3", Type::TOS, 0), doc("1", "p1", Type::PP, 0));
    let d = ConsentManager::get_updates(&s, Some(cur), Some(new)).unwrap();
    assert!(is_no_change(&d.0));
    match &d.1 {
        UpdateDecision::Forced(doc) => assert_eq!(doc.get_version(), "2"),
        _ => panic!("expected a forced ToS"),
    }
    assert!(ConsentManager::is_forced(&d));
}

#[test]
fn optional_document_not_accepted_needs_nothing() {
    let mut s = accepted_state();
    s.accepted_pp = false;
    let cur = (doc("1", "e1", Type::EULA, 0), doc("1", "t1", Type::TOS, 0), doc("5", "p5", Type::PP, 0));
    let new = (doc("1", "e1", Type::EULA, 0), doc("1", "t1", Type::TOS, 0), doc("6", "p6", Type::PP, 0));
    assert!(ConsentManager::get_updates(&s, Some(cur), Some(new)).is_none());
}

#[test]
fn first_choice_deny_and_accept() {
    let cur = || (doc("1", "e1", Type::EULA, 0), doc("1", "t1", Type::TOS, 0), doc("1", "p1", Type::PP, 0));
    assert!(ConsentManager::first_choice(empty_state(), UserChoice::Deny, Some(cur())).is_none());
    let s = ConsentManager::first_choice(empty_state(), UserChoice::AcceptEULA, Some(cur())).unwrap();
    assert!(s.accepted_eula && !s.accepted_tos && !s.accepted_pp);
    assert_eq!(s.eula.as_ref().unwrap().get_hash(), "e1");
    assert!(s.tos.is_none());
    let s = ConsentManager::first_choice(empty_state(), UserChoice::AcceptAll, Some(cur())).unwrap();
    assert_eq!(ConsentManager::outcome(&s), (true, true));
    let s = ConsentManager::first_choice(empty_state(), UserChoice::AcceptAll, None).unwrap();
    assert_eq!(ConsentManager::outcome(&s), (false, false));
}

#[test]
fn update_choice_forced() {
    let mut s = accepted_state();
    s.accepted_eula = false;
    let d = (UpdateDecision::Forced(doc("2", "e2", Type::EULA, 0)), UpdateDecision::NoChange, UpdateDecision::NoChange);
    assert!(ConsentManager::update_choice(s.clone(), d.clone(), UserChoice::Deny, 0).is_none());
    let r = ConsentManager::update_choice(s, d, UserChoice::AcceptEULA, 0).unwrap();
    assert!(r.accepted_eula);
}

#[test]
fn update_choice_future_accepted_for_later() {
    let s = accepted_state();
    let d = (
        UpdateDecision::Future { newest: doc("2", "e2", Type::EULA, 100) },
        UpdateDecision::Future { newest: doc("2", "t2", Type::TOS, 100) },
        UpdateDecision::NoChange,
    );
    let r = ConsentManager::update_choice(s.clone(), d.clone(), UserChoice::AcceptEULA, 10).unwrap();
    assert_eq!(r.future_eula.as_ref().unwrap().get_version(), "2");
    assert!(r.future_tos.is_none());
    let r = ConsentManager::update_choice(s.clone(), d.clone(), UserChoice::AcceptAll, 10).unwrap();
    assert_eq!(r.future_tos.as_ref().unwrap().get_version(), "2");
    let r = ConsentManager::update_choice(s.clone(), d.clone(), UserChoice::Deny, 10).unwrap();
    assert!(r.future_eula.is_none());
    let r = ConsentManager::update_choice(s, d, UserChoice::AcceptAll, 1000).unwrap();
    assert_eq!(r.eula.as_ref().unwrap().get_version(), "2");
    assert!(r.future_eula.is_none());
}
