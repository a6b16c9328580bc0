use iota::communities::interactables::text_chat::{appended_chunk, chunk_status, messages_page, ChunkStatus};
use iota::data::json_value::Json;

#[test]
fn chunk_statuses() {
    assert_eq!(chunk_status(""), ChunkStatus::Empty);
    assert_eq!(chunk_status("[1,2,3]"), ChunkStatus::List(3));
    assert_eq!(chunk_status("{}"), ChunkStatus::Unusable);
    assert_eq!(chunk_status("[1,"), ChunkStatus::Unusable);
}

#[test]
fn appending_messages() {
    let first = appended_chunk("", 5, 1, "hi");
    let parsed = json::parse(&first).unwrap();
    assert_eq!(parsed.len(), 1);
    assert_eq!(parsed[0]["timestamp"].as_i64(), Some(5));
    assert_eq!(parsed[0]["content"].as_str(), Some("hi"));
    assert_eq!(parsed[0]["sender"].as_str(), Some("00000000-0000-0000-0000-000000000001"));
    let second = appended_chunk(&first, 6, 2, "yo");
    let parsed = json::parse(&second).unwrap();
    assert_eq!(parsed.len(), 2);
    assert_eq!(parsed[1]["content"].as_str(), Some("yo"));
    assert_eq!(json::parse(&appended_chunk("{}", 1, 1, "x")).unwrap().len(), 1);
}

fn numbers(j: Json) -> Vec<u64> {
    match j {
        Json::Array(v) => v
            .into_iter()
            .map(|e| match e {
                Json::Number((_, m, _)) => m,
                Json::Null => 0,
                _ => 999,
            })
            .collect(),
        _ => panic!("no list"),
    }
}

#[test]
fn pages_of_messages() {
    let chunks = vec!["[1,2,3]".to_string(), "".to_string(), "[4,5]".to_string()];
    assert_eq!(numbers(messages_page(&chunks, 0, 10)), vec![5, 4, 3, 2, 1]);
    assert_eq!(numbers(messages_page(&chunks, 1, 2)), vec![4, 3]);
    assert_eq!(numbers(messages_page(&chunks, 4, -1)), vec![1]);
    assert_eq!(numbers(messages_page(&chunks, 9, 2)), Vec::<u64>::new());
    let odd = vec!["{\"a\":1}".to_string(), "oops".to_string(), "[7]".to_string()];
    assert_eq!(numbers(messages_page(&odd, 0, -1)), vec![7, 0]);
}
