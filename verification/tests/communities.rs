use iota::communities::perms::permission::Permission;
use iota::data::json_value::Json;
use iota::communities::interactables::category::Category;
use iota::communities::community::{route_function, Community, FunctionRoute};
use iota::communities::community_connection::{split_nonce, ChallengeOutcome, ConnectionAuth, MessageRoute};
use iota::communities::community_manager::CommunityRegistry;
use iota::communities::interactables::text_chat::{
    choose_chunk, chunk_file_name, chunk_index_of, latest_chunk_index, page_positions, ChunkChoice, ChunkStatus,
    CHUNK_CAPACITY, MAX_CHUNKS,
};
use iota::communities::interactables::voice_chat::{CallUser, CallUserState, VoiceChat};
use iota::data::communication::CommunicationType;

fn names(v: &[&str]) -> Vec<String> {
    v.iter().map(|s| s.to_string()).collect()
}

#[test]
fn registry_add_get_remove() {
    let mut r: CommunityRegistry<u32> = CommunityRegistry::new();
    assert!(r.get_community("a").is_none());
    r.add_community("a".to_string(), 1);
    r.add_community("b".to_string(), 2);
    assert_eq!(r.get_community("a"), Some(&1));
    r.add_community("a".to_string(), 3);
    assert_eq!(r.get_community("a"), Some(&3));
    let mut all: Vec<u32> = r.get_communities().into_iter().copied().collect();
    all.sort();
    assert_eq!(all, vec![2, 3]);
    assert_eq!(r.remove_community("a"), Some(3));
    assert_eq!(r.remove_community("a"), None);
    assert!(r.get_community("a").is_none());
    assert_eq!(r.get_community("b"), Some(&2));
    r.clear();
    assert!(r.get_communities().is_empty());
}

#[test]
fn community_members() {
    let mut c = Community::new("club".to_string(), 7);
    assert_eq!(c.get_name(), "club");
    c.add_member(1);
    c.add_member(2);
    c.add_member(1);
    assert_eq!(c.get_members(), &vec![1, 2, 1]);
    c.remove_member(1);
    assert_eq!(c.get_members(), &vec![2]);
    c.remove_member(9);
    assert_eq!(c.get_members(), &vec![2]);
}

#[test]
fn function_routes() {
    let n = names(&["run", "cat", "run"]);
    let cat = vec![false, true, true];
    assert_eq!(route_function(&n, &cat, "run", ""), FunctionRoute::Run(0));
    assert_eq!(route_function(&n, &cat, "run", "x/y"), FunctionRoute::Mismatch);
    assert_eq!(route_function(&n, &cat, "cat", "x"), FunctionRoute::Descend(1));
    assert_eq!(route_function(&n, &cat, "cat", ""), FunctionRoute::Mismatch);
    assert_eq!(route_function(&n, &cat, "nope", ""), FunctionRoute::NotFound);
}

#[test]
fn connection_handshake() {
    let mut a = ConnectionAuth::new();
    assert_eq!(a.get_ping(), -1);
    assert!(!a.is_identified());
    assert_eq!(a.route(CommunicationType::Ping), MessageRoute::Ignore);
    assert_eq!(a.route(CommunicationType::Identification), MessageRoute::Identify);
    a.identify(42, "nonce".to_string());
    assert_eq!(a.get_user_id(), 42);
    assert_eq!(a.route(CommunicationType::ChallengeResponse), MessageRoute::ChallengeResponse);
    assert_eq!(a.answer_challenge("wrong"), ChallengeOutcome::Mismatch);
    assert!(!a.is_identified());
    assert_eq!(a.answer_challenge("nonce"), ChallengeOutcome::Accepted);
    assert!(a.is_identified());
    assert!(a.leaves_community());
    assert_eq!(a.route(CommunicationType::Ping), MessageRoute::Ping);
    assert_eq!(a.route(CommunicationType::Function), MessageRoute::Function);
    assert_eq!(a.route(CommunicationType::Identification), MessageRoute::Ignore);
    a.on_ping(Some("17"));
    assert_eq!(a.get_ping(), 17);
    a.on_ping(Some("x"));
    a.on_ping(None);
    assert_eq!(a.get_ping(), 17);
}

#[test]
fn challenge_without_user() {
    let mut a = ConnectionAuth::new();
    a.identify(0, "n".to_string());
    assert_eq!(a.answer_challenge("n"), ChallengeOutcome::NoUser);
    assert!(a.is_identified());
    assert!(!a.leaves_community());
}

#[test]
fn nonce_split() {
    let bytes: Vec<u8> = (0u8..20).collect();
    let (n, c) = split_nonce(&bytes).unwrap();
    assert_eq!(n, (0u8..12).collect::<Vec<u8>>());
    assert_eq!(c, (12u8..20).collect::<Vec<u8>>());
    assert!(split_nonce(&vec![1, 2, 3]).is_none());
    let (n, c) = split_nonce(&vec![9; 12]).unwrap();
    assert_eq!(n.len(), 12);
    assert!(c.is_empty());
}

#[test]
fn chunk_names() {
    assert_eq!(chunk_file_name(0), "msgs_0.json");
    assert_eq!(chunk_file_name(42), "msgs_42.json");
    assert_eq!(chunk_index_of("msgs_42.json"), Some(42));
    assert_eq!(chunk_index_of("msgs_.json"), None);
    assert_eq!(chunk_index_of("msgs_x.json"), None);
    assert_eq!(chunk_index_of("data_1.json"), None);
    assert_eq!(latest_chunk_index(&names(&["msgs_3.json", "notes.txt", "msgs_10.json", "msgs_2.json"])), 10);
    assert_eq!(latest_chunk_index(&names(&[])), -1);
}

#[test]
fn chunk_choices() {
    assert_eq!(choose_chunk(0, ChunkStatus::Empty), ChunkChoice::Start(0));
    assert_eq!(choose_chunk(3, ChunkStatus::List(CHUNK_CAPACITY - 1)), ChunkChoice::Append(3));
    assert_eq!(choose_chunk(3, ChunkStatus::List(CHUNK_CAPACITY)), ChunkChoice::Next(4));
    assert_eq!(choose_chunk(3, ChunkStatus::Unusable), ChunkChoice::Next(4));
    assert_eq!(choose_chunk(MAX_CHUNKS, ChunkStatus::Unusable), ChunkChoice::Abort);
}

#[test]
fn message_pages_newest_first() {
    let lens = vec![2, 3];
    assert_eq!(page_positions(&lens, 1, 2), vec![(1, 1), (1, 0)]);
    assert_eq!(page_positions(&lens, 0, -1), vec![(1, 2), (1, 1), (1, 0), (0, 1), (0, 0)]);
    assert_eq!(page_positions(&lens, 4, 10), vec![(0, 0)]);
    assert!(page_positions(&lens, 9, 10).is_empty());
    assert!(page_positions(&vec![], 0, 10).is_empty());
}

#[test]
fn call_states() {
    assert_eq!(CallUserState::parse("muted"), CallUserState::Muted);
    assert_eq!(CallUserState::parse("deafed"), CallUserState::Deafed);
    assert_eq!(CallUserState::parse("anything"), CallUserState::Active);
    assert_eq!(CallUserState::Muted.to_string(), "muted");
    for s in [CallUserState::Active, CallUserState::Muted, CallUserState::Deafed] {
        assert_eq!(CallUserState::parse(&s.to_string()), s);
    }
}

#[test]
fn category_children() {
    let mut c = Category::new();
    c.set_name("news".to_string());
    c.set_path("root".to_string());
    assert_eq!(c.get_total_path(), "root/news");
    assert_eq!(c.get_name(), "news");
    assert_eq!(c.get_path(), "root");
    assert!(c.get_children().is_empty());
    c.child_names = names(&["general", "voice", "general"]);
    c.child_is_category = vec![false, false, true];
    assert_eq!(c.get_child("", "general"), Some(0));
    assert_eq!(c.get_child("", "missing"), None);
    assert_eq!(c.get_child("voice/x", "ignored"), Some(1));
}

#[test]
fn call_user_states() {
    let mut v = VoiceChat::new();
    v.users = vec![
        CallUser { user_id: 1, user_state: CallUserState::Active, streaming: false },
        CallUser { user_id: 2, user_state: CallUserState::Active, streaming: false },
        CallUser { user_id: 1, user_state: CallUserState::Active, streaming: false },
    ];
    v.update_user_state(1, CallUserState::Muted, true);
    assert_eq!(v.users[0], CallUser { user_id: 1, user_state: CallUserState::Muted, streaming: true });
    assert_eq!(v.users[2].user_state, CallUserState::Active);
    v.update_user_state(9, CallUserState::Deafed, true);
    assert_eq!(v.users[1].user_state, CallUserState::Active);
}

#[test]
fn chunk_names_read_back() {
    for i in [0u32, 7, 999, 2147483647] {
        assert_eq!(chunk_index_of(&chunk_file_name(i)), Some(i as i32));
    }
    assert_eq!(chunk_index_of(&chunk_file_name(2147483648)), None);
}

#[test]
fn permissions_json() {
    let p = Permission::new(0x550e8400_e29b_41d4_a716_446655440000, "admin".to_string());
    let back = Permission::read_json(&p.to_json()).unwrap();
    assert_eq!((back.id, back.name.as_str()), (p.id, "admin"));
    let from = Permission::from_json(&p.to_json());
    assert_eq!(from.id, p.id);
    let bad = Json::Object(vec![
        ("id".to_string(), Json::Text("x".to_string())),
        ("name".to_string(), Json::Text("n".to_string())),
    ]);
    assert!(Permission::read_json(&bad).is_none());
    assert!(Permission::read_json(&Json::Null).is_none());
}
