use iota::auth::auth_connector::user_from_response;
use iota::auth::auth_user::AuthUser;
use iota::data::communication::{CommunicationType, CommunicationValue, DataTypes};
use iota::users::contact::Contact;
use iota::users::user_community_util::{CommunityEntry, UserCommunityUtil};
use iota::users::user_manager::{clear, get_user, get_users, remove_user, set_unique, UserManager};
use iota::users::user_profile::{clone_opt, UserProfile};

fn profile(id: i64, name: &str) -> UserProfile {
    UserProfile::new_at(id, name.to_string(), None, "pk".to_string(), "hash".to_string(), "tok".to_string(), 5)
}

#[test]
fn profiles_and_display_names() {
    let p = profile(1, "alice");
    assert_eq!(p.get_display_name(), "alice");
    let q = UserProfile::new_at(2, "bob".to_string(), Some("Bobby".to_string()), String::new(), String::new(), String::new(), 0);
    assert_eq!(q.get_display_name(), "Bobby");
    assert_eq!(p.created_at, 5);
    let r = UserProfile::new(3, "carol".to_string(), None, "k".to_string(), "h".to_string(), "t".to_string());
    assert_eq!(r.user_id, 3);
    assert!(r.created_at > 1_600_000_000);
    assert_eq!(clone_opt(&Some("x".to_string())), Some("x".to_string()));
    assert_eq!(clone_opt(&None), None);
}

#[test]
fn manager_add_get_remove() {
    let mut m = UserManager::new();
    assert!(!m.is_unique());
    m.add_user(profile(1, "a"));
    m.add_user(profile(2, "b"));
    m.add_user(profile(1, "a2"));
    assert_eq!(get_user(&m, 1).unwrap().username, "a");
    assert_eq!(get_user(&m, 2).unwrap().username, "b");
    assert!(get_user(&m, 3).is_none());
    assert_eq!(get_users(&m).len(), 3);
    remove_user(&mut m, 1);
    assert!(get_user(&m, 1).is_none());
    assert_eq!(get_users(&m).len(), 1);
    assert!(m.is_unique());
    clear(&mut m);
    assert!(get_users(&m).is_empty());
}

#[test]
fn manager_save_and_load() {
    let mut m = UserManager::new();
    set_unique(&mut m, true);
    assert!(m.load_users(vec![profile(1, "a")]));
    assert!(m.is_unique());
    let saved = m.take_for_save();
    assert_eq!(saved.len(), 1);
    assert!(!m.is_unique());
    assert_eq!(get_users(&m).len(), 1);
    assert!(!m.load_users(vec![profile(2, "b")]));
    assert_eq!(get_users(&m).len(), 2);
}

#[test]
fn contacts() {
    let mut c = Contact::new(9);
    assert_eq!(c.user_id, 9);
    assert!(c.user_name.is_none() && c.last_message_at.is_none());
    c.set_last_message_at(100);
    assert_eq!(c.last_message_at, Some(100));
    let d = c.clone();
    assert_eq!(d.last_message_at, Some(100));
}

#[test]
fn community_lists() {
    assert_eq!(
        UserCommunityUtil::storage_dir(0x550e8400_e29b_41d4_a716_446655440000),
        "users/550e8400-e29b-41d4-a716-446655440000/"
    );
    assert_eq!(UserCommunityUtil::communities_file(0), "users/00000000-0000-0000-0000-000000000000/communities.json");
    let list = UserCommunityUtil::add_community(Vec::new(), "addr1".to_string(), "One".to_string(), "0".to_string());
    let list = UserCommunityUtil::add_community(list, "addr2".to_string(), "Two".to_string(), "1".to_string());
    assert_eq!(list.len(), 2);
    assert_eq!(list[1].title.as_deref(), Some("Two"));
    let list = UserCommunityUtil::remove_community(&list, "addr1");
    assert_eq!(list.len(), 1);
    assert_eq!(list[0].address.as_deref(), Some("addr2"));
    let kept = vec![CommunityEntry { title: None, address: None, position: None }];
    assert_eq!(UserCommunityUtil::remove_community(&kept, "addr2").len(), 1);
}

#[test]
fn auth_users() {
    let u = AuthUser::new(4, "n".to_string(), "h".to_string(), "k".to_string());
    assert_eq!((u.id, u.username.as_str(), u.password_hash.as_str(), u.public_key.as_str()), (4, "n", "h", "k"));
}

#[test]
fn user_from_success_response() {
    let cv = CommunicationValue::with_fresh_id(CommunicationType::Success, 1)
        .add_data(DataTypes::CreatedAt, "123".to_string())
        .add_data(DataTypes::Username, "alice".to_string())
        .add_data(DataTypes::Display, "Alice".to_string())
        .add_data(DataTypes::Avatar, "a.png".to_string())
        .add_data(DataTypes::About, "hi".to_string())
        .add_data(DataTypes::Status, "online".to_string())
        .add_data(DataTypes::PublicKey, "pk".to_string())
        .add_data(DataTypes::SubLevel, "2".to_string())
        .add_data(DataTypes::SubEnd, "soon".to_string());
    let u = user_from_response(&cv).unwrap();
    assert_eq!(u.created_at, 123);
    assert_eq!(u.username, "alice");
    assert_eq!(u.display, "Alice");
    assert_eq!(u.sub_level, 2);
    assert_eq!(u.sub_end, -1);
}

#[test]
fn user_from_error_response() {
    let cv = CommunicationValue::with_fresh_id(CommunicationType::Error, 1);
    assert!(user_from_response(&cv).is_none());
}
