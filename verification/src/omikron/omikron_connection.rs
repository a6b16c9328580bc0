//! The state of the link to the Omikron relay.
use crate::data::communication::{CommunicationModel, CommunicationType, CommunicationValue, DataTypes};
use crate::text::{parse_i64, parse_i64_spec, remove_all, removed_all, str_eq};
use vstd::prelude::*;

verus! {

/// Where the link to the relay stands.
#[derive(Debug, Clone, Copy, PartialEq, Eq, Structural)]
pub enum ConnectionState {
    Disconnected,
    Connecting,
    Connected { identified: bool },
}

impl ConnectionState {
    /// Whether the link is up.
    pub fn is_connected(&self) -> (r: bool)
        ensures
            r <==> *self is Connected,
    {
        match self {
            ConnectionState::Connected { .. } => true,
            _ => false,
        }
    }

    /// Whether the link is up and this node has identified itself.
    pub fn is_identified(&self) -> (r: bool)
        ensures
            r <==> *self == (ConnectionState::Connected { identified: true }),
    {
        match self {
            ConnectionState::Connected { identified: true } => true,
            _ => false,
        }
    }
}

/// What the node does with a message from the relay that no waiting task
/// took. Ids are UUID values; users are the message's sender.
#[derive(Debug, PartialEq, Eq)]
pub enum OmikronAction {
    /// Measure the round trip the pong closes.
    HandlePong,
    /// Solve the relay's challenge with this node's key.
    SolveChallenge,
    /// The relay registered this node under the id: record it and send an
    /// identification message carrying it.
    Registered(i64),
    /// Change the stored state of the message sent at `send_time` between
    /// the two users to the state named by `state`.
    UpdateMessageState { send_time: i64, receiver: u128, sender: u128, state: String },
    /// Store the direct message another node sent at `send_time` (UNIX
    /// milliseconds) and forward it to its receiver.
    DirectMessage { send_time: i64, content: String },
    /// Store the message the user sends to `receiver` at `now_ms`,
    /// acknowledge it and forward it to the receiver's node.
    SendMessage { sender: u128, receiver: i64, content: String, now_ms: i64 },
    /// Answer the user's request for `amount` stored messages with
    /// `partner`, after the `offset` newest.
    MessagesRequest { user: u128, partner: i64, offset: i64, amount: i64 },
    /// Answer the user's request for its chats.
    ChatsRequest { user: u128 },
    /// Record that the user talked with `partner` at `now_ms` and confirm.
    AddConversation { user: u128, partner: i64, now_ms: i64 },
    /// Record a community (address, title, position) for the user and
    /// confirm.
    AddCommunity { user: u128, address: String, title: String, position: String },
    /// Answer the user's request for its communities.
    CommunitiesRequest { user: u128 },
    /// Drop the user's community at the address and confirm.
    RemoveCommunity { user: u128, address: String },
    /// Store the user's settings of the name and confirm.
    SaveSettings { user: u128, name: String, value: String },
    /// Answer with the user's settings of the name.
    LoadSettings { user: u128, name: String },
    /// Answer with the names of the user's settings.
    ListSettings { user: u128 },
    /// Nothing to do.
    Ignore,
}

/// An action as plain values.
pub enum OmikronActionModel {
    HandlePong,
    SolveChallenge,
    Registered(i64),
    UpdateMessageState { send_time: i64, receiver: u128, sender: u128, state: Seq<char> },
    DirectMessage { send_time: i64, content: Seq<char> },
    SendMessage { sender: u128, receiver: i64, content: Seq<char>, now_ms: i64 },
    MessagesRequest { user: u128, partner: i64, offset: i64, amount: i64 },
    ChatsRequest { user: u128 },
    AddConversation { user: u128, partner: i64, now_ms: i64 },
    AddCommunity { user: u128, address: Seq<char>, title: Seq<char>, position: Seq<char> },
    CommunitiesRequest { user: u128 },
    RemoveCommunity { user: u128, address: Seq<char> },
    SaveSettings { user: u128, name: Seq<char>, value: Seq<char> },
    LoadSettings { user: u128, name: Seq<char> },
    ListSettings { user: u128 },
    Ignore,
}

/// The model of an action.
pub open spec fn action_model(a: OmikronAction) -> OmikronActionModel {
    match a {
        OmikronAction::HandlePong => OmikronActionModel::HandlePong,
        OmikronAction::SolveChallenge => OmikronActionModel::SolveChallenge,
        OmikronAction::Registered(id) => OmikronActionModel::Registered(id),
        OmikronAction::UpdateMessageState { send_time, receiver, sender, state } => OmikronActionModel::UpdateMessageState {
            send_time,
            receiver,
            sender,
            state: state@,
        },
        OmikronAction::DirectMessage { send_time, content } => OmikronActionModel::DirectMessage {
            send_time,
            content: content@,
        },
        OmikronAction::SendMessage { sender, receiver, content, now_ms } => OmikronActionModel::SendMessage {
            sender,
            receiver,
            content: content@,
            now_ms,
        },
        OmikronAction::MessagesRequest { user, partner, offset, amount } => OmikronActionModel::MessagesRequest {
            user,
            partner,
            offset,
            amount,
        },
        OmikronAction::ChatsRequest { user } => OmikronActionModel::ChatsRequest { user },
        OmikronAction::AddConversation { user, partner, now_ms } => OmikronActionModel::AddConversation {
            user,
            partner,
            now_ms,
        },
        OmikronAction::AddCommunity { user, address, title, position } => OmikronActionModel::AddCommunity {
            user,
            address: address@,
            title: title@,
            position: position@,
        },
        OmikronAction::CommunitiesRequest { user } => OmikronActionModel::CommunitiesRequest { user },
        OmikronAction::RemoveCommunity { user, address } => OmikronActionModel::RemoveCommunity {
            user,
            address: address@,
        },
        OmikronAction::SaveSettings { user, name, value } => OmikronActionModel::SaveSettings {
            user,
            name: name@,
            value: value@,
        },
        OmikronAction::LoadSettings { user, name } => OmikronActionModel::LoadSettings { user, name: name@ },
        OmikronAction::ListSettings { user } => OmikronActionModel::ListSettings { user },
        OmikronAction::Ignore => OmikronActionModel::Ignore,
    }
}

/// The integer a payload value holds, `fallback` when it is missing or no
/// integer.
pub open spec fn number_or(m: CommunicationModel, k: DataTypes, fallback: i64) -> i64 {
    if m.data.contains_key(k) {
        match parse_i64_spec(m.data[k]) {
            Some(v) => v,
            None => fallback,
        }
    } else {
        fallback
    }
}

/// The text of a payload value, empty when it is missing.
pub open spec fn text_or_empty(m: CommunicationModel, k: DataTypes) -> Seq<char> {
    if m.data.contains_key(k) {
        m.data[k]
    } else {
        Seq::empty()
    }
}

/// An optional id, 0 when there is none.
pub open spec fn id_or_zero(u: Option<u128>) -> u128 {
    match u {
        Some(v) => v,
        None => 0,
    }
}

/// Whether a message from the relay carries the payload values its type
/// cannot go without: the text of a direct or sent message, the name (and
/// value) of settings, and the address (title and position) of a community.
pub open spec fn relay_message_complete(m: CommunicationModel) -> bool {
    match m.comm_type {
        CommunicationType::MessageOtherIota | CommunicationType::MessageSend => m.data.contains_key(
            DataTypes::Content,
        ),
        CommunicationType::SettingsSave => m.data.contains_key(DataTypes::SettingsName) && m.data.contains_key(
            DataTypes::Payload,
        ),
        CommunicationType::SettingsLoad => m.data.contains_key(DataTypes::SettingsName),
        CommunicationType::AddCommunity => m.data.contains_key(DataTypes::CommunityAddress) && m.data.contains_key(
            DataTypes::CommunityTitle,
        ) && m.data.contains_key(DataTypes::Position),
        CommunicationType::RemoveCommunity => m.data.contains_key(DataTypes::CommunityAddress),
        _ => true,
    }
}

/// The link state and action after a message `m` from the relay at
/// `now_ms`: a success with a non-zero node id registers it; an
/// identification answer whose `Accepted` value is `true` or `false` marks a
/// connected link identified; the other handled types carry the values
/// their handling needs (numbers that are missing or no integers read as 0,
/// a direct message's missing send time as `now_ms`); anything else is
/// dropped.
pub open spec fn omikron_reaction(state: ConnectionState, m: CommunicationModel, now_ms: i64) -> (
    ConnectionState,
    OmikronActionModel,
) {
    let user = id_or_zero(m.sender);
    match m.comm_type {
        CommunicationType::Pong => (state, OmikronActionModel::HandlePong),
        CommunicationType::Challenge => (state, OmikronActionModel::SolveChallenge),
        CommunicationType::Success => (
            state,
            if number_or(m, DataTypes::IotaId, 0) != 0 {
                OmikronActionModel::Registered(number_or(m, DataTypes::IotaId, 0))
            } else {
                OmikronActionModel::Ignore
            },
        ),
        CommunicationType::IdentificationResponse => (
            if m.data.contains_key(DataTypes::Accepted) && (m.data[DataTypes::Accepted] == "true"@
                || m.data[DataTypes::Accepted] == "false"@) && state is Connected {
                ConnectionState::Connected { identified: true }
            } else {
                state
            },
            OmikronActionModel::Ignore,
        ),
        CommunicationType::MessageState => (
            state,
            OmikronActionModel::UpdateMessageState {
                send_time: number_or(m, DataTypes::SendTime, 0),
                receiver: id_or_zero(m.receiver),
                sender: user,
                state: text_or_empty(m, DataTypes::MessageState),
            },
        ),
        CommunicationType::MessageOtherIota => (
            state,
            OmikronActionModel::DirectMessage {
                send_time: number_or(m, DataTypes::SendTime, now_ms),
                content: m.data[DataTypes::Content],
            },
        ),
        CommunicationType::MessageSend => (
            state,
            OmikronActionModel::SendMessage {
                sender: user,
                receiver: number_or(m, DataTypes::ReceiverId, 0),
                content: m.data[DataTypes::Content],
                now_ms,
            },
        ),
        CommunicationType::MessageGet => (
            state,
            OmikronActionModel::MessagesRequest {
                user,
                partner: number_or(m, DataTypes::UserId, 0),
                offset: number_or(m, DataTypes::Offset, 0),
                amount: number_or(m, DataTypes::Amount, 0),
            },
        ),
        CommunicationType::GetChats => (state, OmikronActionModel::ChatsRequest { user }),
        CommunicationType::AddConversation => (
            state,
            OmikronActionModel::AddConversation {
                user,
                partner: number_or(m, DataTypes::ChatPartnerId, 0),
                now_ms,
            },
        ),
        CommunicationType::AddCommunity => (
            state,
            OmikronActionModel::AddCommunity {
                user,
                address: m.data[DataTypes::CommunityAddress],
                title: m.data[DataTypes::CommunityTitle],
                position: m.data[DataTypes::Position],
            },
        ),
        CommunicationType::GetCommunities => (state, OmikronActionModel::CommunitiesRequest { user }),
        CommunicationType::RemoveCommunity => (
            state,
            OmikronActionModel::RemoveCommunity { user, address: m.data[DataTypes::CommunityAddress] },
        ),
        CommunicationType::SettingsSave => (
            state,
            OmikronActionModel::SaveSettings {
                user,
                name: m.data[DataTypes::SettingsName],
                value: m.data[DataTypes::Payload],
            },
        ),
        CommunicationType::SettingsLoad => (
            state,
            OmikronActionModel::LoadSettings { user, name: m.data[DataTypes::SettingsName] },
        ),
        CommunicationType::SettingsList => (state, OmikronActionModel::ListSettings { user }),
        _ => (state, OmikronActionModel::Ignore),
    }
}

/// Every text an action carries is the payload value stored under the key of
/// the same meaning, and the user it acts for is the message's sender: a
/// community's address is the `CommunityAddress` value and its title the
/// `CommunityTitle` value, a setting's name the `SettingsName` value and its
/// value the `Payload` value, a message's text the `Content` value. The kind
/// of action follows the message's type, and the link state changes only on
/// an identification answer.
pub proof fn lemma_action_values_from_their_keys(state: ConnectionState, m: CommunicationModel, now_ms: i64)
    ensures
        ({
            let r = omikron_reaction(state, m, now_ms);
            &&& r.1 matches OmikronActionModel::AddCommunity { user, address, title, position } ==> {
                &&& m.comm_type == CommunicationType::AddCommunity
                &&& address == m.data[DataTypes::CommunityAddress]
                &&& title == m.data[DataTypes::CommunityTitle]
                &&& position == m.data[DataTypes::Position]
                &&& user == id_or_zero(m.sender)
            }
            &&& r.1 matches OmikronActionModel::RemoveCommunity { user, address } ==> {
                &&& m.comm_type == CommunicationType::RemoveCommunity
                &&& address == m.data[DataTypes::CommunityAddress]
                &&& user == id_or_zero(m.sender)
            }
            &&& r.1 matches OmikronActionModel::SaveSettings { user, name, value } ==> {
                &&& m.comm_type == CommunicationType::SettingsSave
                &&& name == m.data[DataTypes::SettingsName]
                &&& value == m.data[DataTypes::Payload]
                &&& user == id_or_zero(m.sender)
            }
            &&& r.1 matches OmikronActionModel::LoadSettings { user, name } ==> {
                &&& m.comm_type == CommunicationType::SettingsLoad
                &&& name == m.data[DataTypes::SettingsName]
                &&& user == id_or_zero(m.sender)
            }
            &&& r.1 matches OmikronActionModel::DirectMessage { content, .. } ==> {
                &&& m.comm_type == CommunicationType::MessageOtherIota
                &&& content == m.data[DataTypes::Content]
            }
            &&& r.1 matches OmikronActionModel::SendMessage { sender, content, now_ms: t, .. } ==> {
                &&& m.comm_type == CommunicationType::MessageSend
                &&& content == m.data[DataTypes::Content]
                &&& sender == id_or_zero(m.sender)
                &&& t == now_ms
            }
            &&& m.comm_type == CommunicationType::AddCommunity ==> r.1 is AddCommunity
            &&& m.comm_type == CommunicationType::RemoveCommunity ==> r.1 is RemoveCommunity
            &&& m.comm_type == CommunicationType::SettingsSave ==> r.1 is SaveSettings
            &&& m.comm_type == CommunicationType::SettingsLoad ==> r.1 is LoadSettings
            &&& m.comm_type == CommunicationType::MessageSend ==> r.1 is SendMessage
            &&& m.comm_type != CommunicationType::IdentificationResponse ==> r.0 == state
        }),
{
}

/// Takes the id of a message out of the ids tasks wait for; whether a task
/// waited for it.
pub fn take_waiting(waiting: &mut Vec<u128>, id: u128) -> (r: bool)
    ensures
        r == old(waiting)@.contains(id),
        r ==> exists|i: int| 0 <= i < old(waiting)@.len() && old(waiting)@[i] == id && final(waiting)@
            == old(waiting)@.remove(i),
        !r ==> final(waiting)@ == old(waiting)@,
{
    let mut i: usize = 0;
    while i < waiting.len()
        invariant
            i <= waiting@.len(),
            waiting@ == old(waiting)@,
            forall|j: int| 0 <= j < i ==> waiting@[j] != id,
        decreases waiting.len() - i,
    {
        if waiting[i] == id {
            let ghost before = waiting@;
            waiting.remove(i);
            assert(before.contains(id)) by {
                assert(before[i as int] == id);
            }
            return true;
        }
        i = i + 1;
    }
    assert(!old(waiting)@.contains(id));
    false
}

/// The integer a payload value holds, `fallback` when it is missing or no
/// integer.
fn number_member(msg: &CommunicationValue, k: DataTypes, fallback: i64) -> (r: i64)
    ensures
        r == number_or(msg@, k, fallback),
{
    match msg.get_data(k) {
        Some(t) => match parse_i64(t.as_str()) {
            Some(v) => v,
            None => fallback,
        },
        None => fallback,
    }
}

/// The text of a payload value, empty when it is missing.
fn text_member_of(msg: &CommunicationValue, k: DataTypes) -> (r: String)
    ensures
        r@ == text_or_empty(msg@, k),
{
    match msg.get_data(k) {
        Some(t) => t.clone(),
        None => String::new(),
    }
}

/// What the node does with a message from the relay that no waiting task
/// took (see `omikron_reaction`).
pub fn omikron_step(state: ConnectionState, msg: &CommunicationValue, now_ms: i64) -> (r: (
    ConnectionState,
    OmikronAction,
))
    requires
        relay_message_complete(msg@),
    ensures
        (r.0, action_model(r.1)) == omikron_reaction(state, msg@, now_ms),
{
    proof {
        reveal_strlit("true");
        reveal_strlit("false");
    }
    let user = match msg.get_sender() {
        Some(u) => u,
        None => 0,
    };
    match msg.get_type() {
        CommunicationType::Pong => (state, OmikronAction::HandlePong),
        CommunicationType::Challenge => (state, OmikronAction::SolveChallenge),
        CommunicationType::Success => {
            let id = number_member(msg, DataTypes::IotaId, 0);
            if id != 0 {
                (state, OmikronAction::Registered(id))
            } else {
                (state, OmikronAction::Ignore)
            }
        },
        CommunicationType::IdentificationResponse => {
            let answered = match msg.get_data(DataTypes::Accepted) {
                Some(t) => str_eq(t.as_str(), "true") || str_eq(t.as_str(), "false"),
                None => false,
            };
            if answered && state.is_connected() {
                (ConnectionState::Connected { identified: true }, OmikronAction::Ignore)
            } else {
                (state, OmikronAction::Ignore)
            }
        },
        CommunicationType::MessageState => {
            let receiver = match msg.get_receiver() {
                Some(u) => u,
                None => 0,
            };
            (
                state,
                OmikronAction::UpdateMessageState {
                    send_time: number_member(msg, DataTypes::SendTime, 0),
                    receiver,
                    sender: user,
                    state: text_member_of(msg, DataTypes::MessageState),
                },
            )
        },
        CommunicationType::MessageOtherIota => (
            state,
            OmikronAction::DirectMessage {
                send_time: number_member(msg, DataTypes::SendTime, now_ms),
                content: text_member_of(msg, DataTypes::Content),
            },
        ),
        CommunicationType::MessageSend => (
            state,
            OmikronAction::SendMessage {
                sender: user,
                receiver: number_member(msg, DataTypes::ReceiverId, 0),
                content: text_member_of(msg, DataTypes::Content),
                now_ms,
            },
        ),
        CommunicationType::MessageGet => (
            state,
            OmikronAction::MessagesRequest {
                user,
                partner: number_member(msg, DataTypes::UserId, 0),
                offset: number_member(msg, DataTypes::Offset, 0),
                amount: number_member(msg, DataTypes::Amount, 0),
            },
        ),
        CommunicationType::GetChats => (state, OmikronAction::ChatsRequest { user }),
        CommunicationType::AddConversation => (
            state,
            OmikronAction::AddConversation { user, partner: number_member(msg, DataTypes::ChatPartnerId, 0), now_ms },
        ),
        CommunicationType::AddCommunity => (
            state,
            OmikronAction::AddCommunity {
                user,
                address: text_member_of(msg, DataTypes::CommunityAddress),
                title: text_member_of(msg, DataTypes::CommunityTitle),
                position: text_member_of(msg, DataTypes::Position),
            },
        ),
        CommunicationType::GetCommunities => (state, OmikronAction::CommunitiesRequest { user }),
        CommunicationType::RemoveCommunity => (
            state,
            OmikronAction::RemoveCommunity { user, address: text_member_of(msg, DataTypes::CommunityAddress) },
        ),
        CommunicationType::SettingsSave => (
            state,
            OmikronAction::SaveSettings {
                user,
                name: text_member_of(msg, DataTypes::SettingsName),
                value: text_member_of(msg, DataTypes::Payload),
            },
        ),
        CommunicationType::SettingsLoad => (
            state,
            OmikronAction::LoadSettings { user, name: text_member_of(msg, DataTypes::SettingsName) },
        ),
        CommunicationType::SettingsList => (state, OmikronAction::ListSettings { user }),
        _ => (state, OmikronAction::Ignore),
    }
}

/// The names of a user's settings from the files of its settings
/// directory: each file name with every `.settings` removed, the empty ones
/// left out.
pub open spec fn settings_names(files: Seq<Seq<char>>) -> Seq<Seq<char>>
    decreases files.len(),
{
    if files.len() == 0 {
        Seq::empty()
    } else {
        let rest = settings_names(files.drop_last());
        let n = removed_all(files.last(), ".settings"@);
        if n.len() == 0 {
            rest
        } else {
            rest.push(n)
        }
    }
}

/// The names of a user's settings, given the file names in its settings
/// directory (see `settings_names`).
pub fn settings_list(files: &Vec<String>) -> (r: Vec<String>)
    ensures
        r@.map_values(|s: String| s@) == settings_names(files@.map_values(|s: String| s@)),
{
    proof {
        reveal_strlit(".settings");
    }
    let ghost fs = files@.map_values(|s: String| s@);
    let mut out: Vec<String> = Vec::new();
    let mut i: usize = 0;
    while i < files.len()
        invariant
            i <= files@.len(),
            fs == files@.map_values(|s: String| s@),
            out@.map_values(|s: String| s@) == settings_names(fs.take(i as int)),
        decreases files.len() - i,
    {
        proof {
            reveal_strlit(".settings");
        }
        let n = remove_all(files[i].as_str(), ".settings");
        assert(fs.take(i + 1).drop_last() =~= fs.take(i as int));
        assert(fs.take(i + 1).last() == files@[i as int]@);
        if n.unicode_len() > 0 {
            let ghost before = out@;
            out.push(n);
            assert(out@.map_values(|s: String| s@) =~= before.map_values(|s: String| s@).push(n@));
        }
        i = i + 1;
    }
    assert(fs.take(i as int) =~= fs);
    out
}

} // verus!
