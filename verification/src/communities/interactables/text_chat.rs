//! Text chats: where their messages are stored and which are handed out.
use crate::data::json_value::{
    dump_json, from_i64, json_dumped, json_parsed, named, number_of, parse_json, text_is, text_value, Json,
};
use crate::ids::{uuid_text, uuid_to_string};
use crate::text::{
    decimal, is_digit, lemma_decimal_digits, matches_at, occurs_at, parse_i32, parse_i32_spec,
    parse_int_spec, push_decimal,
};
use vstd::prelude::*;

verus! {

/// A chat file holds at most this many messages.
pub const CHUNK_CAPACITY: usize = 800;

/// No chat has more chunk files than this.
pub const MAX_CHUNKS: u32 = 1000;

/// The name of the chat file with the given number: `msgs_<n>.json`.
pub open spec fn chunk_name(index: nat) -> Seq<char> {
    "msgs_"@ + decimal(index) + ".json"@
}

/// The name of the chat file with the given number.
pub fn chunk_file_name(index: u32) -> (r: String)
    ensures
        r@ == chunk_name(index as nat),
{
    let mut out = String::from_str("msgs_");
    push_decimal(&mut out, index as u64);
    out.append(".json");
    out
}

/// The number a file name gives a chat file: the `i32` between `msgs_` and
/// `.json`, if the name has that shape.
pub open spec fn chunk_number(name: Seq<char>) -> Option<i32> {
    let n = name.len();
    if n >= 10 && occurs_at(name, "msgs_"@, 0) && occurs_at(name, ".json"@, n - 5) {
        parse_i32_spec(name.subrange(5, n - 5))
    } else {
        None
    }
}

/// The number of a chat file, read from its name.
pub fn chunk_index_of(name: &str) -> (r: Option<i32>)
    ensures
        r == chunk_number(name@),
{
    proof {
        reveal_strlit("msgs_");
        reveal_strlit(".json");
    }
    let n = name.unicode_len();
    if n >= 10 && matches_at(name, "msgs_", 0) && matches_at(name, ".json", n - 5) {
        parse_i32(name.substring_char(5, n - 5))
    } else {
        None
    }
}

/// The highest chat file number among the first `k` names, or -1.
pub open spec fn latest_among(names: Seq<Seq<char>>, k: int) -> i32
    decreases k,
{
    if k <= 0 {
        -1i32
    } else {
        let prev = latest_among(names, k - 1);
        match chunk_number(names[k - 1]) {
            Some(i) => if i > prev {
                i
            } else {
                prev
            },
            None => prev,
        }
    }
}

/// The highest number among the chat files of a directory listing, or -1
/// when it holds none.
pub fn latest_chunk_index(names: &Vec<String>) -> (r: i32)
    ensures
        r == latest_among(names@.map_values(|s: String| s@), names@.len() as int),
{
    let ghost v = names@.map_values(|s: String| s@);
    let mut latest: i32 = -1;
    let mut k: usize = 0;
    while k < names.len()
        invariant
            k <= names@.len(),
            v == names@.map_values(|s: String| s@),
            latest == latest_among(v, k as int),
        decreases names.len() - k,
    {
        assert(v[k as int] == names@[k as int]@);
        match chunk_index_of(names[k].as_str()) {
            Some(i) => {
                if i > latest {
                    latest = i;
                }
            },
            None => {},
        }
        k = k + 1;
    }
    latest
}

/// What a chat file held when it was read.
#[derive(Debug, Clone, Copy, PartialEq, Eq, Structural)]
pub enum ChunkStatus {
    /// No file, or an empty one.
    Empty,
    /// A list of messages of this length.
    List(usize),
    /// Anything else: unreadable, or not a list.
    Unusable,
}

/// Where a new message goes, decided one file at a time.
#[derive(Debug, Clone, Copy, PartialEq, Eq, Structural)]
pub enum ChunkChoice {
    /// Start the file with this number, as an empty list.
    Start(u32),
    /// Append to the list in the file with this number.
    Append(u32),
    /// Look at the file with this number next.
    Next(u32),
    /// Too many files: the message is dropped.
    Abort,
}

/// The choice for the file with number `index` given what it holds.
pub open spec fn chunk_choice(index: u32, status: ChunkStatus) -> ChunkChoice {
    match status {
        ChunkStatus::Empty => ChunkChoice::Start(index),
        ChunkStatus::List(len) => if len < CHUNK_CAPACITY {
            ChunkChoice::Append(index)
        } else if index + 1 > MAX_CHUNKS {
            ChunkChoice::Abort
        } else {
            ChunkChoice::Next((index + 1) as u32)
        },
        ChunkStatus::Unusable => if index + 1 > MAX_CHUNKS {
            ChunkChoice::Abort
        } else {
            ChunkChoice::Next((index + 1) as u32)
        },
    }
}

/// Where a new message goes, given what the file with number `index`
/// holds: the first file that is missing or holds a list with room.
pub fn choose_chunk(index: u32, status: ChunkStatus) -> (r: ChunkChoice)
    requires
        index <= MAX_CHUNKS,
    ensures
        r == chunk_choice(index, status),
{
    match status {
        ChunkStatus::Empty => ChunkChoice::Start(index),
        ChunkStatus::List(len) => {
            if len < CHUNK_CAPACITY {
                ChunkChoice::Append(index)
            } else if index + 1 > MAX_CHUNKS {
                ChunkChoice::Abort
            } else {
                ChunkChoice::Next(index + 1)
            }
        },
        ChunkStatus::Unusable => {
            if index + 1 > MAX_CHUNKS {
                ChunkChoice::Abort
            } else {
                ChunkChoice::Next(index + 1)
            }
        },
    }
}

/// The positions (file, message) of the messages in the first `c` files,
/// newest first: later files first, and within a file from its end.
pub open spec fn newest_first(lens: Seq<usize>, c: int) -> Seq<(usize, usize)>
    decreases c,
{
    if c <= 0 {
        Seq::empty()
    } else {
        let len = lens[c - 1] as int;
        Seq::new(len as nat, |j: int| ((c - 1) as usize, (len - 1 - j) as usize)) + newest_first(
            lens,
            c - 1,
        )
    }
}

/// The page of messages a client asks for: after skipping the
/// `loaded_messages` newest, the next `amount` (all the rest when `amount`
/// is negative).
pub open spec fn page<A>(all: Seq<A>, loaded_messages: i64, amount: i64) -> Seq<A> {
    let s: int = if loaded_messages <= 0 {
        0
    } else if loaded_messages >= all.len() {
        all.len() as int
    } else {
        loaded_messages as int
    };
    let rest = all.subrange(s, all.len() as int);
    if 0 <= amount && amount < rest.len() {
        rest.take(amount as int)
    } else {
        rest
    }
}

/// The positions (file number, index in the file) of the messages to hand
/// out, in the order they are handed out, given the length of each chat
/// file from number 0 up to the latest (0 for a missing or unreadable one).
pub fn page_positions(chunk_lens: &Vec<usize>, loaded_messages: i64, amount: i64) -> (r: Vec<(
    usize,
    usize,
)>)
    ensures
        r@ == page(newest_first(chunk_lens@, chunk_lens@.len() as int), loaded_messages, amount),
{
    let ghost lens = chunk_lens@;
    let mut all: Vec<(usize, usize)> = Vec::new();
    let mut c: usize = chunk_lens.len();
    let ghost done: Seq<(usize, usize)> = Seq::empty();
    while c > 0
        invariant
            c <= lens.len(),
            lens == chunk_lens@,
            newest_first(lens, lens.len() as int) == all@ + newest_first(lens, c as int),
        decreases c,
    {
        let len = chunk_lens[c - 1];
        let ghost before = all@;
        let mut j: usize = 0;
        while j < len
            invariant
                j <= len,
                len == lens[c - 1],
                c >= 1,
                all@ == before + Seq::new(j as nat, |k: int| ((c - 1) as usize, (len - 1 - k) as usize)),
            decreases len - j,
        {
            all.push((c - 1, len - 1 - j));
            assert(all@ =~= before + Seq::new(
                (j + 1) as nat,
                |k: int| ((c - 1) as usize, (len - 1 - k) as usize),
            ));
            j = j + 1;
        }
        assert(newest_first(lens, c as int) == Seq::new(
            len as nat,
            |k: int| ((c - 1) as usize, (len - 1 - k) as usize),
        ) + newest_first(lens, c - 1));
        assert(all@ + newest_first(lens, c - 1) =~= before + newest_first(lens, c as int));
        c = c - 1;
    }
    assert(all@ =~= newest_first(lens, lens.len() as int));
    let n = all.len();
    let s: usize = if loaded_messages <= 0 {
        0
    } else if loaded_messages as u64 >= n as u64 {
        n
    } else {
        loaded_messages as usize
    };
    let end: usize = if 0 <= amount && (amount as u64) < (n - s) as u64 {
        s + amount as usize
    } else {
        n
    };
    let mut out: Vec<(usize, usize)> = Vec::new();
    let mut i: usize = s;
    while i < end
        invariant
            s <= i <= end <= n,
            n == all@.len(),
            out@ == all@.subrange(s as int, i as int),
        decreases end - i,
    {
        out.push(all[i]);
        assert(out@ =~= all@.subrange(s as int, i + 1));
        i = i + 1;
    }
    let ghost rest = all@.subrange(s as int, n as int);
    assert(out@ =~= page(all@, loaded_messages, amount));
    out
}


/// What the text of a chat file holds: nothing when it is empty, a list of
/// that length when the json crate reads a list from it, else nothing usable.
pub open spec fn chunk_status_of(file: Seq<char>) -> ChunkStatus {
    if file.len() == 0 {
        ChunkStatus::Empty
    } else {
        match json_parsed(file) {
            Some(Json::Array(a)) => ChunkStatus::List(a@.len() as usize),
            _ => ChunkStatus::Unusable,
        }
    }
}

/// What the text of a chat file holds (see `chunk_status_of`).
pub fn chunk_status(file: &str) -> (r: ChunkStatus)
    ensures
        r == chunk_status_of(file@),
{
    if file.unicode_len() == 0 {
        return ChunkStatus::Empty;
    }
    match parse_json(file) {
        Some(j) => match j {
            Json::Array(a) => ChunkStatus::List(a.len()),
            _ => ChunkStatus::Unusable,
        },
        None => ChunkStatus::Unusable,
    }
}

/// The JSON object of a chat message: `timestamp` (the send time taken as
/// an `i64`), `content`, and `sender` (hyphenated).
pub open spec fn chat_message_is(j: Json, send_time: u128, sender: u128, message: Seq<char>) -> bool {
    &&& j matches Json::Object(ms)
    &&& ms@.len() == 3
    &&& ms@[0].0@ == "timestamp"@ && ms@[0].1 == Json::Number(number_of(send_time as i64))
    &&& ms@[1].0@ == "content"@ && text_is(ms@[1].1, message)
    &&& ms@[2].0@ == "sender"@ && text_is(ms@[2].1, uuid_text(sender))
}

/// The JSON object of a chat message (see `chat_message_is`).
pub fn chat_message(send_time: u128, sender: u128, message: &str) -> (r: Json)
    ensures
        chat_message_is(r, send_time, sender, message@),
{
    #[verifier::truncate]
    let t = send_time as i64;
    let sender_text = uuid_to_string(sender);
    let mut ms: Vec<(String, Json)> = Vec::new();
    ms.push(named("timestamp", from_i64(t)));
    ms.push(named("content", text_value(message)));
    ms.push(named("sender", text_value(sender_text.as_str())));
    Json::Object(ms)
}

/// The messages a chat file's text holds as a list: the list the json crate
/// reads from it, or none.
pub open spec fn chunk_list(file: Seq<char>) -> Seq<Json> {
    if file.len() == 0 {
        Seq::empty()
    } else {
        match json_parsed(file) {
            Some(Json::Array(a)) => a@,
            _ => Seq::empty(),
        }
    }
}

/// The text of a chat file with a message appended: the list its text
/// holds (none when it holds no list) followed by the message's object, as
/// the json crate writes it.
pub fn appended_chunk(chunk: &str, send_time: u128, sender: u128, message: &str) -> (r: String)
    ensures
        exists|j: Json|
            #![trigger json_dumped(j)]
            json_dumped(j) == r@ && (j matches Json::Array(v) && v@.len() > 0 && v@.drop_last() == chunk_list(chunk@)
                && chat_message_is(v@.last(), send_time, sender, message@)),
{
    let mut list: Vec<Json> = if chunk.unicode_len() == 0 {
        Vec::new()
    } else {
        match parse_json(chunk) {
            Some(j) => match j {
                Json::Array(a) => a,
                _ => Vec::new(),
            },
            None => Vec::new(),
        }
    };
    let ghost base = list@;
    assert(base == chunk_list(chunk@));
    list.push(chat_message(send_time, sender, message));
    assert(list@.drop_last() =~= base);
    let j = Json::Array(list);
    dump_json(&j)
}

/// The value the text of a chat file holds: `Null` when it is empty or no
/// JSON.
pub open spec fn chunk_value(file: Seq<char>) -> Json {
    if file.len() == 0 {
        Json::Null
    } else {
        match json_parsed(file) {
            Some(j) => j,
            None => Json::Null,
        }
    }
}

/// The messages of a value read from a chat file, oldest first, as the
/// json crate indexes them: a list's elements, `Null` for each member of an
/// object, and none for anything else.
pub open spec fn chunk_items(j: Json) -> Seq<Json> {
    match j {
        Json::Array(v) => v@,
        Json::Object(ms) => Seq::new(ms@.len(), |i: int| Json::Null),
        _ => Seq::empty(),
    }
}

/// The messages of the first `c` chat files, newest first: later files
/// first, and within a file from its end.
pub open spec fn newest_items(files: Seq<Seq<char>>, c: int) -> Seq<Json>
    decreases c,
{
    if c <= 0 {
        Seq::empty()
    } else {
        chunk_items(chunk_value(files[c - 1])).reverse() + newest_items(files, c - 1)
    }
}

/// The texts of chat files as plain values.
pub open spec fn texts_of(v: Seq<String>) -> Seq<Seq<char>> {
    v.map_values(|s: String| s@)
}

/// The page of messages a client asks for, given the texts of the chat
/// files from number 0 up to the latest (empty for a missing one): after
/// the `loaded_messages` newest, the next `amount` (all the rest when
/// `amount` is negative), newest first.
pub fn messages_page(chunks: &Vec<String>, loaded_messages: i64, amount: i64) -> (r: Json)
    ensures
        r matches Json::Array(v) && v@ == page(
            newest_items(texts_of(chunks@), chunks@.len() as int),
            loaded_messages,
            amount,
        ),
{
    let ghost files = texts_of(chunks@);
    let mut all: Vec<Json> = Vec::new();
    let mut c: usize = chunks.len();
    while c > 0
        invariant
            c <= chunks@.len(),
            files == texts_of(chunks@),
            newest_items(files, chunks@.len() as int) == all@ + newest_items(files, c as int),
        decreases c,
    {
        let text = chunks[c - 1].as_str();
        assert(text@ == files[c - 1]);
        let value = if text.unicode_len() == 0 {
            Json::Null
        } else {
            match parse_json(text) {
                Some(j) => j,
                None => Json::Null,
            }
        };
        assert(value == chunk_value(files[c - 1]));
        let mut items: Vec<Json> = match value {
            Json::Array(v) => v,
            Json::Object(ms) => {
                let mut nulls: Vec<Json> = Vec::new();
                let mut k: usize = 0;
                while k < ms.len()
                    invariant
                        k <= ms@.len(),
                        nulls@ == Seq::new(k as nat, |i: int| Json::Null),
                    decreases ms.len() - k,
                {
                    nulls.push(Json::Null);
                    assert(nulls@ =~= Seq::new((k + 1) as nat, |i: int| Json::Null));
                    k = k + 1;
                }
                nulls
            },
            _ => Vec::new(),
        };
        let ghost its = items@;
        assert(its == chunk_items(chunk_value(files[c - 1])));
        let ghost before = all@;
        while items.len() > 0
            invariant
                its.reverse() == (all@.skip(before.len() as int)) + items@.reverse(),
                all@.len() >= before.len(),
                all@.take(before.len() as int) == before,
            decreases items.len(),
        {
            let ghost prev = items@;
            let e = items.pop().unwrap();
            assert(prev.reverse() =~= seq![e] + items@.reverse());
            all.push(e);
            assert(all@.skip(before.len() as int) =~= all@.drop_last().skip(before.len() as int).push(e));
            assert(all@.take(before.len() as int) =~= all@.drop_last().take(before.len() as int));
        }
        assert(all@ =~= before + its.reverse());
        c = c - 1;
    }
    let n = all.len();
    let s: usize = if loaded_messages <= 0 {
        0
    } else if loaded_messages as u64 >= n as u64 {
        n
    } else {
        loaded_messages as usize
    };
    let end: usize = if 0 <= amount && (amount as u64) < (n - s) as u64 {
        s + amount as usize
    } else {
        n
    };
    all.truncate(end);
    let out = all.split_off(s);
    Json::Array(out)
}

/// The file name of chunk `index` reads back as `index`.
pub proof fn lemma_chunk_name_round_trip(index: u32)
    requires
        index <= i32::MAX,
    ensures
        chunk_number(chunk_name(index as nat)) == Some(index as i32),
{
    reveal_strlit("msgs_");
    reveal_strlit(".json");
    let d = decimal(index as nat);
    lemma_decimal_digits(index as nat);
    let name = chunk_name(index as nat);
    let n = name.len();
    assert(n == d.len() + 10);
    assert(name.subrange(0, 5) =~= "msgs_"@);
    assert(name.subrange(n - 5, n as int) =~= ".json"@);
    assert(name.subrange(5, n - 5) =~= d);
    assert(is_digit(d[0]));
    assert(parse_int_spec(d) == Some(index as int));
}

} // verus!
