//! The vocabulary of messages: payload keys, message types and log values.
use crate::ids::{new_uuid, parse_uuid, uuid_parse, uuid_text, uuid_to_string};
use crate::text::{ascii_normalized, decimal_int, lemma_ascii_normalized_idempotent, lowercase, push_i64, remove_char, str_eq, to_lowercase, without_char};
use crate::clock::unix_now_millis;
use crate::data::key_names::{lemma_comm_type_name_read_back, lemma_data_type_name_read_back};
use crate::data::json_value::{
    dump_json, from_i64, get_member, json_dumped, json_parsed, lemma_member_at, member, number_of, parse_json,
    text_is, text_member, text_of, Json,
};
use vstd::prelude::*;

verus! {

/// A key of a message's payload.
#[derive(Debug, Clone, Copy, PartialEq, Eq, Hash, Structural)]
pub enum DataTypes {
    ErrorType,
    ChatPartnerId,
    IotaId,
    UserId,
    UserIds,
    UserState,
    UserStates,
    UserPings,
    CallState,
    ScreenShare,
    PrivateKeyHash,
    Accepted,
    AcceptedProfiles,
    DeniedProfiles,
    MessageContent,
    MessageChunk,
    SendTime,
    GetTime,
    GetVariant,
    SharedSecretOwn,
    SharedSecretOther,
    SharedSecretSign,
    SharedSecret,
    CallId,
    CallName,
    CallSecretSha,
    CallSecret,
    SharedCallSecret,
    StartDate,
    EndDate,
    ReceiverId,
    SenderId,
    Signature,
    Signed,
    Message,
    LastPing,
    PingIota,
    PingClients,
    Matches,
    Omikron,
    LoadedMessages,
    MessageAmount,
    Position,
    Name,
    Path,
    Codec,
    Function,
    Payload,
    Result,
    Interactables,
    WantToWatch,
    Watcher,
    CreatedAt,
    Username,
    Display,
    Avatar,
    About,
    Status,
    PublicKey,
    SubLevel,
    SubEnd,
    CommunityAddress,
    Challenge,
    CommunityTitle,
    Communities,
    MessageState,
    Content,
    Offset,
    Amount,
    SettingsName,
    Settings,
}

/// The key with the given normalized name (lowercase, no underscores); `ErrorType` for others.
pub open spec fn data_type_named(n: Seq<char>) -> DataTypes {
    if n == "errortype"@ {
        DataTypes::ErrorType
    } else if n == "chatpartnerid"@ {
        DataTypes::ChatPartnerId
    } else if n == "iotaid"@ {
        DataTypes::IotaId
    } else if n == "userid"@ {
        DataTypes::UserId
    } else if n == "userids"@ {
        DataTypes::UserIds
    } else if n == "userstate"@ {
        DataTypes::UserState
    } else if n == "userstates"@ {
        DataTypes::UserStates
    } else if n == "userpings"@ {
        DataTypes::UserPings
    } else if n == "callstate"@ {
        DataTypes::CallState
    } else if n == "screenshare"@ {
        DataTypes::ScreenShare
    } else if n == "privatekeyhash"@ {
        DataTypes::PrivateKeyHash
    } else if n == "accepted"@ {
        DataTypes::Accepted
    } else if n == "acceptedprofiles"@ {
        DataTypes::AcceptedProfiles
    } else if n == "deniedprofiles"@ {
        DataTypes::DeniedProfiles
    } else if n == "messagecontent"@ {
        DataTypes::MessageContent
    } else if n == "messagechunk"@ {
        DataTypes::MessageChunk
    } else if n == "sendtime"@ {
        DataTypes::SendTime
    } else if n == "gettime"@ {
        DataTypes::GetTime
    } else if n == "getvariant"@ {
        DataTypes::GetVariant
    } else if n == "sharedsecretown"@ {
        DataTypes::SharedSecretOwn
    } else if n == "sharedsecretother"@ {
        DataTypes::SharedSecretOther
    } else if n == "sharedsecretsign"@ {
        DataTypes::SharedSecretSign
    } else if n == "sharedsecret"@ {
        DataTypes::SharedSecret
    } else if n == "callid"@ {
        DataTypes::CallId
    } else if n == "callname"@ {
        DataTypes::CallName
    } else if n == "callsecretsha"@ {
        DataTypes::CallSecretSha
    } else if n == "callsecret"@ {
        DataTypes::CallSecret
    } else if n == "sharedcallsecret"@ {
        DataTypes::SharedCallSecret
    } else if n == "startdate"@ {
        DataTypes::StartDate
    } else if n == "enddate"@ {
        DataTypes::EndDate
    } else if n == "receiverid"@ {
        DataTypes::ReceiverId
    } else if n == "senderid"@ {
        DataTypes::SenderId
    } else if n == "signature"@ {
        DataTypes::Signature
    } else if n == "signed"@ {
        DataTypes::Signed
    } else if n == "message"@ {
        DataTypes::Message
    } else if n == "lastping"@ {
        DataTypes::LastPing
    } else if n == "pingiota"@ {
        DataTypes::PingIota
    } else if n == "pingclients"@ {
        DataTypes::PingClients
    } else if n == "matches"@ {
        DataTypes::Matches
    } else if n == "omikron"@ {
        DataTypes::Omikron
    } else if n == "loadedmessages"@ {
        DataTypes::LoadedMessages
    } else if n == "messageamount"@ {
        DataTypes::MessageAmount
    } else if n == "position"@ {
        DataTypes::Position
    } else if n == "name"@ {
        DataTypes::Name
    } else if n == "path"@ {
        DataTypes::Path
    } else if n == "codec"@ {
        DataTypes::Codec
    } else if n == "function"@ {
        DataTypes::Function
    } else if n == "payload"@ {
        DataTypes::Payload
    } else if n == "result"@ {
        DataTypes::Result
    } else if n == "interactables"@ {
        DataTypes::Interactables
    } else if n == "wanttowatch"@ {
        DataTypes::WantToWatch
    } else if n == "watcher"@ {
        DataTypes::Watcher
    } else if n == "createdat"@ {
        DataTypes::CreatedAt
    } else if n == "username"@ {
        DataTypes::Username
    } else if n == "display"@ {
        DataTypes::Display
    } else if n == "avatar"@ {
        DataTypes::Avatar
    } else if n == "about"@ {
        DataTypes::About
    } else if n == "status"@ {
        DataTypes::Status
    } else if n == "publickey"@ {
        DataTypes::PublicKey
    } else if n == "sublevel"@ {
        DataTypes::SubLevel
    } else if n == "subend"@ {
        DataTypes::SubEnd
    } else if n == "communityaddress"@ {
        DataTypes::CommunityAddress
    } else if n == "challenge"@ {
        DataTypes::Challenge
    } else if n == "communitytitle"@ {
        DataTypes::CommunityTitle
    } else if n == "communities"@ {
        DataTypes::Communities
    } else if n == "messagestate"@ {
        DataTypes::MessageState
    } else if n == "content"@ {
        DataTypes::Content
    } else if n == "offset"@ {
        DataTypes::Offset
    } else if n == "amount"@ {
        DataTypes::Amount
    } else if n == "settingsname"@ {
        DataTypes::SettingsName
    } else if n == "settings"@ {
        DataTypes::Settings
    } else {
        DataTypes::ErrorType
    }
}

/// The type of a message.
#[derive(Debug, Clone, Copy, PartialEq, Eq, Hash, Structural)]
pub enum CommunicationType {
    Error,
    Success,
    Message,
    MessageLive,
    MessageOtherIota,
    MessageChunk,
    MessageGet,
    ChangeConfirm,
    ConfirmReceive,
    ConfirmRead,
    GetChats,
    GetStates,
    AddCommunity,
    RemoveCommunity,
    GetCommunities,
    Challenge,
    ChallengeResponse,
    Register,
    RegisterResponse,
    Identification,
    IdentificationResponse,
    Ping,
    Pong,
    AddChat,
    SendChat,
    IotaConnected,
    IotaClosed,
    ClientChanged,
    ClientConnected,
    ClientClosed,
    PublicKey,
    PrivateKey,
    WebrtcSdp,
    WebrtcIce,
    StartStream,
    EndStream,
    WatchStream,
    GetCall,
    NewCall,
    CallInvite,
    EndCall,
    Function,
    Update,
    MessageState,
    MessageSend,
    AddConversation,
    SettingsSave,
    SettingsLoad,
    SettingsList,
}

/// The type with the given normalized name (lowercase, no underscores); `Error` for others.
pub open spec fn communication_type_named(n: Seq<char>) -> CommunicationType {
    if n == "error"@ {
        CommunicationType::Error
    } else if n == "success"@ {
        CommunicationType::Success
    } else if n == "message"@ {
        CommunicationType::Message
    } else if n == "messagelive"@ {
        CommunicationType::MessageLive
    } else if n == "messageotheriota"@ {
        CommunicationType::MessageOtherIota
    } else if n == "messagechunk"@ {
        CommunicationType::MessageChunk
    } else if n == "messageget"@ {
        CommunicationType::MessageGet
    } else if n == "changeconfirm"@ {
        CommunicationType::ChangeConfirm
    } else if n == "confirmreceive"@ {
        CommunicationType::ConfirmReceive
    } else if n == "confirmread"@ {
        CommunicationType::ConfirmRead
    } else if n == "getchats"@ {
        CommunicationType::GetChats
    } else if n == "getstates"@ {
        CommunicationType::GetStates
    } else if n == "addcommunity"@ {
        CommunicationType::AddCommunity
    } else if n == "removecommunity"@ {
        CommunicationType::RemoveCommunity
    } else if n == "getcommunities"@ {
        CommunicationType::GetCommunities
    } else if n == "challenge"@ {
        CommunicationType::Challenge
    } else if n == "challengeresponse"@ {
        CommunicationType::ChallengeResponse
    } else if n == "register"@ {
        CommunicationType::Register
    } else if n == "registerresponse"@ {
        CommunicationType::RegisterResponse
    } else if n == "identification"@ {
        CommunicationType::Identification
    } else if n == "identificationresponse"@ {
        CommunicationType::IdentificationResponse
    } else if n == "ping"@ {
        CommunicationType::Ping
    } else if n == "pong"@ {
        CommunicationType::Pong
    } else if n == "addchat"@ {
        CommunicationType::AddChat
    } else if n == "sendchat"@ {
        CommunicationType::SendChat
    } else if n == "iotaconnected"@ {
        CommunicationType::IotaConnected
    } else if n == "iotaclosed"@ {
        CommunicationType::IotaClosed
    } else if n == "clientchanged"@ {
        CommunicationType::ClientChanged
    } else if n == "clientconnected"@ {
        CommunicationType::ClientConnected
    } else if n == "clientclosed"@ {
        CommunicationType::ClientClosed
    } else if n == "publickey"@ {
        CommunicationType::PublicKey
    } else if n == "privatekey"@ {
        CommunicationType::PrivateKey
    } else if n == "webrtcsdp"@ {
        CommunicationType::WebrtcSdp
    } else if n == "webrtcice"@ {
        CommunicationType::WebrtcIce
    } else if n == "startstream"@ {
        CommunicationType::StartStream
    } else if n == "endstream"@ {
        CommunicationType::EndStream
    } else if n == "watchstream"@ {
        CommunicationType::WatchStream
    } else if n == "getcall"@ {
        CommunicationType::GetCall
    } else if n == "newcall"@ {
        CommunicationType::NewCall
    } else if n == "callinvite"@ {
        CommunicationType::CallInvite
    } else if n == "endcall"@ {
        CommunicationType::EndCall
    } else if n == "function"@ {
        CommunicationType::Function
    } else if n == "update"@ {
        CommunicationType::Update
    } else if n == "messagestate"@ {
        CommunicationType::MessageState
    } else if n == "messagesend"@ {
        CommunicationType::MessageSend
    } else if n == "addconversation"@ {
        CommunicationType::AddConversation
    } else if n == "settingssave"@ {
        CommunicationType::SettingsSave
    } else if n == "settingsload"@ {
        CommunicationType::SettingsLoad
    } else if n == "settingslist"@ {
        CommunicationType::SettingsList
    } else {
        CommunicationType::Error
    }
}

/// A name as `parse` compares it: lowercased, underscores removed.
pub open spec fn normalized(s: Seq<char>) -> Seq<char> {
    without_char(lowercase(s), '_')
}

fn normalize(s: &str) -> (r: String)
    ensures
        r@ == normalized(s@),
        vstd::utf8::is_ascii_chars(s@) ==> r@ == ascii_normalized(s@),
{
    let lower = to_lowercase(s);
    remove_char(lower.as_str(), '_')
}

impl DataTypes {
    /// The key named by `p0`, ignoring case and underscores; `ErrorType` when
    /// no key has that name.
    pub fn parse(p0: String) -> (r: DataTypes)
        ensures
            r == data_type_named(normalized(p0@)),
            vstd::utf8::is_ascii_chars(p0@) ==> r == data_type_named(ascii_normalized(p0@)),
    {
        let n = normalize(p0.as_str());
        Self::from_normalized(n.as_str())
    }

    /// The variant whose lowercase name (without underscores) is `n`;
    /// `ErrorType` for any other text.
    pub fn from_normalized(n: &str) -> (r: DataTypes)
        ensures
            r == data_type_named(n@),
    {
        if str_eq(n, "errortype") {
            DataTypes::ErrorType
        } else if str_eq(n, "chatpartnerid") {
            DataTypes::ChatPartnerId
        } else if str_eq(n, "iotaid") {
            DataTypes::IotaId
        } else if str_eq(n, "userid") {
            DataTypes::UserId
        } else if str_eq(n, "userids") {
            DataTypes::UserIds
        } else if str_eq(n, "userstate") {
            DataTypes::UserState
        } else if str_eq(n, "userstates") {
            DataTypes::UserStates
        } else if str_eq(n, "userpings") {
            DataTypes::UserPings
        } else if str_eq(n, "callstate") {
            DataTypes::CallState
        } else if str_eq(n, "screenshare") {
            DataTypes::ScreenShare
        } else if str_eq(n, "privatekeyhash") {
            DataTypes::PrivateKeyHash
        } else if str_eq(n, "accepted") {
            DataTypes::Accepted
        } else if str_eq(n, "acceptedprofiles") {
            DataTypes::AcceptedProfiles
        } else if str_eq(n, "deniedprofiles") {
            DataTypes::DeniedProfiles
        } else if str_eq(n, "messagecontent") {
            DataTypes::MessageContent
        } else if str_eq(n, "messagechunk") {
            DataTypes::MessageChunk
        } else if str_eq(n, "sendtime") {
            DataTypes::SendTime
        } else if str_eq(n, "gettime") {
            DataTypes::GetTime
        } else if str_eq(n, "getvariant") {
            DataTypes::GetVariant
        } else if str_eq(n, "sharedsecretown") {
            DataTypes::SharedSecretOwn
        } else if str_eq(n, "sharedsecretother") {
            DataTypes::SharedSecretOther
        } else if str_eq(n, "sharedsecretsign") {
            DataTypes::SharedSecretSign
        } else if str_eq(n, "sharedsecret") {
            DataTypes::SharedSecret
        } else if str_eq(n, "callid") {
            DataTypes::CallId
        } else if str_eq(n, "callname") {
            DataTypes::CallName
        } else if str_eq(n, "callsecretsha") {
            DataTypes::CallSecretSha
        } else if str_eq(n, "callsecret") {
            DataTypes::CallSecret
        } else if str_eq(n, "sharedcallsecret") {
            DataTypes::SharedCallSecret
        } else if str_eq(n, "startdate") {
            DataTypes::StartDate
        } else if str_eq(n, "enddate") {
            DataTypes::EndDate
        } else if str_eq(n, "receiverid") {
            DataTypes::ReceiverId
        } else if str_eq(n, "senderid") {
            DataTypes::SenderId
        } else if str_eq(n, "signature") {
            DataTypes::Signature
        } else if str_eq(n, "signed") {
            DataTypes::Signed
        } else if str_eq(n, "message") {
            DataTypes::Message
        } else if str_eq(n, "lastping") {
            DataTypes::LastPing
        } else if str_eq(n, "pingiota") {
            DataTypes::PingIota
        } else if str_eq(n, "pingclients") {
            DataTypes::PingClients
        } else if str_eq(n, "matches") {
            DataTypes::Matches
        } else if str_eq(n, "omikron") {
            DataTypes::Omikron
        } else if str_eq(n, "loadedmessages") {
            DataTypes::LoadedMessages
        } else if str_eq(n, "messageamount") {
            DataTypes::MessageAmount
        } else if str_eq(n, "position") {
            DataTypes::Position
        } else if str_eq(n, "name") {
            DataTypes::Name
        } else if str_eq(n, "path") {
            DataTypes::Path
        } else if str_eq(n, "codec") {
            DataTypes::Codec
        } else if str_eq(n, "function") {
            DataTypes::Function
        } else if str_eq(n, "payload") {
            DataTypes::Payload
        } else if str_eq(n, "result") {
            DataTypes::Result
        } else if str_eq(n, "interactables") {
            DataTypes::Interactables
        } else if str_eq(n, "wanttowatch") {
            DataTypes::WantToWatch
        } else if str_eq(n, "watcher") {
            DataTypes::Watcher
        } else if str_eq(n, "createdat") {
            DataTypes::CreatedAt
        } else if str_eq(n, "username") {
            DataTypes::Username
        } else if str_eq(n, "display") {
            DataTypes::Display
        } else if str_eq(n, "avatar") {
            DataTypes::Avatar
        } else if str_eq(n, "about") {
            DataTypes::About
        } else if str_eq(n, "status") {
            DataTypes::Status
        } else if str_eq(n, "publickey") {
            DataTypes::PublicKey
        } else if str_eq(n, "sublevel") {
            DataTypes::SubLevel
        } else if str_eq(n, "subend") {
            DataTypes::SubEnd
        } else if str_eq(n, "communityaddress") {
            DataTypes::CommunityAddress
        } else if str_eq(n, "challenge") {
            DataTypes::Challenge
        } else if str_eq(n, "communitytitle") {
            DataTypes::CommunityTitle
        } else if str_eq(n, "communities") {
            DataTypes::Communities
        } else if str_eq(n, "messagestate") {
            DataTypes::MessageState
        } else if str_eq(n, "content") {
            DataTypes::Content
        } else if str_eq(n, "offset") {
            DataTypes::Offset
        } else if str_eq(n, "amount") {
            DataTypes::Amount
        } else if str_eq(n, "settingsname") {
            DataTypes::SettingsName
        } else if str_eq(n, "settings") {
            DataTypes::Settings
        } else {
            DataTypes::ErrorType
        }
    }
}

impl CommunicationType {
    /// The type named by `p0`, ignoring case and underscores; `Error` when no
    /// type has that name.
    pub fn parse(p0: String) -> (r: CommunicationType)
        ensures
            r == communication_type_named(normalized(p0@)),
            vstd::utf8::is_ascii_chars(p0@) ==> r == communication_type_named(ascii_normalized(p0@)),
    {
        let n = normalize(p0.as_str());
        Self::from_normalized(n.as_str())
    }

    /// The variant whose lowercase name (without underscores) is `n`;
    /// `Error` for any other text.
    pub fn from_normalized(n: &str) -> (r: CommunicationType)
        ensures
            r == communication_type_named(n@),
    {
        if str_eq(n, "error") {
            CommunicationType::Error
        } else if str_eq(n, "success") {
            CommunicationType::Success
        } else if str_eq(n, "message") {
            CommunicationType::Message
        } else if str_eq(n, "messagelive") {
            CommunicationType::MessageLive
        } else if str_eq(n, "messageotheriota") {
            CommunicationType::MessageOtherIota
        } else if str_eq(n, "messagechunk") {
            CommunicationType::MessageChunk
        } else if str_eq(n, "messageget") {
            CommunicationType::MessageGet
        } else if str_eq(n, "changeconfirm") {
            CommunicationType::ChangeConfirm
        } else if str_eq(n, "confirmreceive") {
            CommunicationType::ConfirmReceive
        } else if str_eq(n, "confirmread") {
            CommunicationType::ConfirmRead
        } else if str_eq(n, "getchats") {
            CommunicationType::GetChats
        } else if str_eq(n, "getstates") {
            CommunicationType::GetStates
        } else if str_eq(n, "addcommunity") {
            CommunicationType::AddCommunity
        } else if str_eq(n, "removecommunity") {
            CommunicationType::RemoveCommunity
        } else if str_eq(n, "getcommunities") {
            CommunicationType::GetCommunities
        } else if str_eq(n, "challenge") {
            CommunicationType::Challenge
        } else if str_eq(n, "challengeresponse") {
            CommunicationType::ChallengeResponse
        } else if str_eq(n, "register") {
            CommunicationType::Register
        } else if str_eq(n, "registerresponse") {
            CommunicationType::RegisterResponse
        } else if str_eq(n, "identification") {
            CommunicationType::Identification
        } else if str_eq(n, "identificationresponse") {
            CommunicationType::IdentificationResponse
        } else if str_eq(n, "ping") {
            CommunicationType::Ping
        } else if str_eq(n, "pong") {
            CommunicationType::Pong
        } else if str_eq(n, "addchat") {
            CommunicationType::AddChat
        } else if str_eq(n, "sendchat") {
            CommunicationType::SendChat
        } else if str_eq(n, "iotaconnected") {
            CommunicationType::IotaConnected
        } else if str_eq(n, "iotaclosed") {
            CommunicationType::IotaClosed
        } else if str_eq(n, "clientchanged") {
            CommunicationType::ClientChanged
        } else if str_eq(n, "clientconnected") {
            CommunicationType::ClientConnected
        } else if str_eq(n, "clientclosed") {
            CommunicationType::ClientClosed
        } else if str_eq(n, "publickey") {
            CommunicationType::PublicKey
        } else if str_eq(n, "privatekey") {
            CommunicationType::PrivateKey
        } else if str_eq(n, "webrtcsdp") {
            CommunicationType::WebrtcSdp
        } else if str_eq(n, "webrtcice") {
            CommunicationType::WebrtcIce
        } else if str_eq(n, "startstream") {
            CommunicationType::StartStream
        } else if str_eq(n, "endstream") {
            CommunicationType::EndStream
        } else if str_eq(n, "watchstream") {
            CommunicationType::WatchStream
        } else if str_eq(n, "getcall") {
            CommunicationType::GetCall
        } else if str_eq(n, "newcall") {
            CommunicationType::NewCall
        } else if str_eq(n, "callinvite") {
            CommunicationType::CallInvite
        } else if str_eq(n, "endcall") {
            CommunicationType::EndCall
        } else if str_eq(n, "function") {
            CommunicationType::Function
        } else if str_eq(n, "update") {
            CommunicationType::Update
        } else if str_eq(n, "messagestate") {
            CommunicationType::MessageState
        } else if str_eq(n, "messagesend") {
            CommunicationType::MessageSend
        } else if str_eq(n, "addconversation") {
            CommunicationType::AddConversation
        } else if str_eq(n, "settingssave") {
            CommunicationType::SettingsSave
        } else if str_eq(n, "settingsload") {
            CommunicationType::SettingsLoad
        } else if str_eq(n, "settingslist") {
            CommunicationType::SettingsList
        } else {
            CommunicationType::Error
        }
    }
}


/// How important a log entry is.
#[derive(Debug, Clone, Copy, PartialEq, Eq, Structural)]
pub enum LogLevel {
    Important,
    Normal,
    Debug,
    Off,
    DebugOnly,
}

/// The number a log level is written as.
pub open spec fn level_number(l: LogLevel) -> int {
    match l {
        LogLevel::Important => 2,
        LogLevel::Normal => 1,
        LogLevel::Debug => 0,
        LogLevel::Off => -1,
        LogLevel::DebugOnly => -2,
    }
}

impl LogLevel {
    /// The number this level is written as: 2 down to -2.
    pub fn as_i32(&self) -> (r: i32)
        ensures
            r == level_number(*self),
    {
        match self {
            LogLevel::Important => 2,
            LogLevel::Normal => 1,
            LogLevel::Debug => 0,
            LogLevel::Off => -1,
            LogLevel::DebugOnly => -2,
        }
    }
}

/// A log message attached to a message.
#[derive(Debug)]
pub struct LogValue {
    pub message: String,
    pub log_level: LogLevel,
}

impl LogValue {
    pub fn new(message: String, log_level: LogLevel) -> (r: Self)
        ensures
            r.message@ == message@,
            r.log_level == log_level,
    {
        Self { message, log_level }
    }
}

impl Clone for LogValue {
    fn clone(&self) -> (r: Self)
        ensures
            r.message@ == self.message@,
            r.log_level == self.log_level,
    {
        LogValue { message: self.message.clone(), log_level: self.log_level }
    }
}

/// The payload of a message as a map from key to text, built from pairs in
/// order (a later pair for a key wins).
pub open spec fn pairs_map(s: Seq<(DataTypes, String)>) -> Map<DataTypes, Seq<char>>
    decreases s.len(),
{
    if s.len() == 0 {
        Map::empty()
    } else {
        pairs_map(s.drop_last()).insert(s.last().0, s.last().1@)
    }
}

/// No key occurs twice among the pairs.
pub open spec fn unique_keys(s: Seq<(DataTypes, String)>) -> bool {
    forall|i: int, j: int| 0 <= i < j < s.len() ==> s[i].0 != s[j].0
}

proof fn lemma_pairs_map_get(s: Seq<(DataTypes, String)>, i: int)
    requires
        unique_keys(s),
        0 <= i < s.len(),
    ensures
        pairs_map(s).contains_key(s[i].0),
        pairs_map(s)[s[i].0] == s[i].1@,
    decreases s.len(),
{
    if i < s.len() - 1 {
        lemma_pairs_map_get(s.drop_last(), i);
        assert(s.drop_last()[i] == s[i]);
    }
}

proof fn lemma_pairs_map_absent(s: Seq<(DataTypes, String)>, k: DataTypes)
    requires
        forall|i: int| 0 <= i < s.len() ==> s[i].0 != k,
    ensures
        !pairs_map(s).contains_key(k),
    decreases s.len(),
{
    if s.len() > 0 {
        assert forall|i: int| 0 <= i < s.drop_last().len() implies s.drop_last()[i].0 != k by {
            assert(s.drop_last()[i] == s[i]);
        }
        lemma_pairs_map_absent(s.drop_last(), k);
    }
}

proof fn lemma_pairs_map_replace(s: Seq<(DataTypes, String)>, i: int, v: String)
    requires
        unique_keys(s),
        0 <= i < s.len(),
    ensures
        pairs_map(s.update(i, (s[i].0, v))) == pairs_map(s).insert(s[i].0, v@),
    decreases s.len(),
{
    let t = s.update(i, (s[i].0, v));
    if i == s.len() - 1 {
        assert(t.drop_last() == s.drop_last());
        assert forall|j: int| 0 <= j < s.drop_last().len() implies s.drop_last()[j].0 != s[i].0 by {
            assert(s.drop_last()[j] == s[j]);
        }
        lemma_pairs_map_absent(s.drop_last(), s[i].0);
        assert(pairs_map(t) =~= pairs_map(s).insert(s[i].0, v@));
    } else {
        let d = s.drop_last();
        assert(unique_keys(d)) by {
            assert forall|a: int, b: int| 0 <= a < b < d.len() implies d[a].0 != d[b].0 by {
                assert(d[a] == s[a] && d[b] == s[b]);
            }
        }
        lemma_pairs_map_replace(d, i, v);
        assert(t.drop_last() == d.update(i, (d[i].0, v)));
        assert(s.last().0 != s[i].0);
        assert(pairs_map(t) =~= pairs_map(s).insert(s[i].0, v@));
    }
}

/// A message: its id, type, optional log entry, optional sender and
/// receiver, and its payload.
pub struct CommunicationValue {
    id: u128,
    comm_type: CommunicationType,
    log_value: Option<LogValue>,
    sender: Option<u128>,
    receiver: Option<u128>,
    data: Vec<(DataTypes, String)>,
}

/// The model of a log value.
pub struct LogModel {
    pub message: Seq<char>,
    pub level: LogLevel,
}

/// The model of a message.
pub struct CommunicationModel {
    pub id: u128,
    pub comm_type: CommunicationType,
    pub log: Option<LogModel>,
    pub sender: Option<u128>,
    pub receiver: Option<u128>,
    pub data: Map<DataTypes, Seq<char>>,
}

pub open spec fn log_model(l: Option<LogValue>) -> Option<LogModel> {
    match l {
        Some(l) => Some(LogModel { message: l.message@, level: l.log_level }),
        None => None,
    }
}

impl View for CommunicationValue {
    type V = CommunicationModel;

    closed spec fn view(&self) -> CommunicationModel {
        CommunicationModel {
            id: self.id,
            comm_type: self.comm_type,
            log: log_model(self.log_value),
            sender: self.sender,
            receiver: self.receiver,
            data: pairs_map(self.data@),
        }
    }
}

/// The forwarded copy of `m` sent at `now_ms` (see `forward_to_other_iota`).
pub open spec fn forwarded(m: CommunicationModel, now_ms: i64) -> CommunicationModel {
    let base = Map::<DataTypes, Seq<char>>::empty().insert(DataTypes::SendTime, decimal_int(now_ms as int))
        .insert(DataTypes::MessageContent, m.data[DataTypes::MessageContent]);
    CommunicationModel {
        id: m.id,
        comm_type: CommunicationType::MessageOtherIota,
        log: None,
        sender: None,
        receiver: Some(
            match uuid_parse(m.data[DataTypes::ReceiverId]) {
                Some(u) => u,
                None => 0,
            },
        ),
        data: match m.sender {
            Some(s) => base.insert(DataTypes::SenderId, uuid_text(s)),
            None => base,
        },
    }
}

/// Reading a payload entry right after setting it gives the value set, and
/// setting an entry leaves every other entry as it was.
pub proof fn lemma_add_then_get(m: CommunicationModel, k: DataTypes, v: Seq<char>, other: DataTypes)
    ensures
        m.data.insert(k, v).contains_key(k),
        m.data.insert(k, v)[k] == v,
        other != k ==> (m.data.insert(k, v).contains_key(other) == m.data.contains_key(other)),
        other != k && m.data.contains_key(other) ==> m.data.insert(k, v)[other] == m.data[other],
{
}

impl CommunicationValue {
    #[verifier::type_invariant]
    spec fn keys_unique(self) -> bool {
        unique_keys(self.data@)
    }

    /// A message of type `comm_type` with a fresh random id and nothing else.
    pub fn new(comm_type: CommunicationType) -> (r: Self)
        ensures
            r@.comm_type == comm_type,
            r@.log is None,
            r@.sender is None,
            r@.receiver is None,
            r@.data == Map::<DataTypes, Seq<char>>::empty(),
    {
        Self::with_fresh_id(comm_type, new_uuid())
    }

    /// A message of type `comm_type` with the id `id` and nothing else.
    pub fn with_fresh_id(comm_type: CommunicationType, id: u128) -> (r: Self)
        ensures
            r@ == (CommunicationModel {
                id,
                comm_type,
                log: None,
                sender: None,
                receiver: None,
                data: Map::empty(),
            }),
    {
        let r = Self { id, comm_type, log_value: None, sender: None, receiver: None, data: Vec::new() };
        assert(pairs_map(r.data@) =~= Map::<DataTypes, Seq<char>>::empty());
        r
    }

    pub fn with_id(self, p0: u128) -> (r: Self)
        ensures
            r@ == (CommunicationModel { id: p0, ..self@ }),
    {
        proof {
            use_type_invariant(&self);
        }
        let mut s = self;
        s.id = p0;
        s
    }

    pub fn get_id(&self) -> (r: u128)
        ensures
            r == self@.id,
    {
        self.id
    }

    pub fn get_type(&self) -> (r: CommunicationType)
        ensures
            r == self@.comm_type,
    {
        self.comm_type
    }

    pub fn with_log(self, log: LogValue) -> (r: Self)
        ensures
            r@ == (CommunicationModel { log: Some(LogModel { message: log.message@, level: log.log_level }), ..self@ }),
    {
        proof {
            use_type_invariant(&self);
        }
        let mut s = self;
        s.log_value = Some(log);
        s
    }

    pub fn get_log(&self) -> (r: &Option<LogValue>)
        ensures
            log_model(*r) == self@.log,
    {
        &self.log_value
    }

    pub fn with_sender(self, sender: u128) -> (r: Self)
        ensures
            r@ == (CommunicationModel { sender: Some(sender), ..self@ }),
    {
        proof {
            use_type_invariant(&self);
        }
        let mut s = self;
        s.sender = Some(sender);
        s
    }

    pub fn get_sender(&self) -> (r: Option<u128>)
        ensures
            r == self@.sender,
    {
        self.sender
    }

    pub fn with_receiver(self, receiver: u128) -> (r: Self)
        ensures
            r@ == (CommunicationModel { receiver: Some(receiver), ..self@ }),
    {
        proof {
            use_type_invariant(&self);
        }
        let mut s = self;
        s.receiver = Some(receiver);
        s
    }

    pub fn get_receiver(&self) -> (r: Option<u128>)
        ensures
            r == self@.receiver,
    {
        self.receiver
    }

    fn find(&self, key: DataTypes) -> (r: Option<usize>)
        ensures
            match r {
                Some(i) => i < self.data@.len() && self.data@[i as int].0 == key,
                None => forall|i: int| 0 <= i < self.data@.len() ==> self.data@[i].0 != key,
            },
    {
        let mut i: usize = 0;
        while i < self.data.len()
            invariant
                i <= self.data@.len(),
                forall|j: int| 0 <= j < i ==> self.data@[j].0 != key,
            decreases self.data@.len() - i,
        {
            if self.data[i].0 == key {
                return Some(i);
            }
            i = i + 1;
        }
        None
    }

    /// Sets the payload entry `key` to `value`, replacing an earlier one.
    pub fn add_data(self, key: DataTypes, value: String) -> (r: Self)
        ensures
            r@ == (CommunicationModel { data: self@.data.insert(key, value@), ..self@ }),
    {
        proof {
            use_type_invariant(&self);
        }
        let found = self.find(key);
        let ghost old_data = self.data@;
        let CommunicationValue { id, comm_type, log_value, sender, receiver, data } = self;
        let mut data = data;
        match found {
            Some(i) => {
                proof {
                    lemma_pairs_map_replace(old_data, i as int, value);
                }
                data.set(i, (key, value));
                assert(data@ == old_data.update(i as int, (old_data[i as int].0, value)));
                assert(unique_keys(data@)) by {
                    assert forall|a: int, b: int| 0 <= a < b < data@.len() implies data@[a].0 != data@[b].0 by {
                        assert(data@[a].0 == old_data[a].0 && data@[b].0 == old_data[b].0);
                    }
                }
            },
            None => {
                data.push((key, value));
                assert(data@.drop_last() == old_data);
                assert(unique_keys(data@)) by {
                    assert forall|a: int, b: int| 0 <= a < b < data@.len() implies data@[a].0 != data@[b].0 by {
                        if b < old_data.len() {
                            assert(data@[a] == old_data[a] && data@[b] == old_data[b]);
                        } else {
                            assert(data@[a] == old_data[a]);
                        }
                    }
                }
            },
        }
        CommunicationValue { id, comm_type, log_value, sender, receiver, data }
    }

    /// The payload entry `key`, if present.
    pub fn get_data(&self, key: DataTypes) -> (r: Option<&String>)
        ensures
            match r {
                Some(v) => self@.data.contains_key(key) && self@.data[key] == v@,
                None => !self@.data.contains_key(key),
            },
    {
        proof {
            use_type_invariant(self);
        }
        match self.find(key) {
            Some(i) => {
                proof {
                    lemma_pairs_map_get(self.data@, i as int);
                }
                Some(&self.data[i].1)
            },
            None => {
                proof {
                    lemma_pairs_map_absent(self.data@, key);
                }
                None
            },
        }
    }

    /// Whether the message has type `p0`.
    pub fn is_type(&self, p0: CommunicationType) -> (r: bool)
        ensures
            r == (self@.comm_type == p0),
    {
        self.comm_type == p0
    }

    /// The copy of a direct message that goes to the receiver's Iota: same id,
    /// addressed to the `ReceiverId` in the payload (the nil id when that is no
    /// UUID), with the send time and the content, and the original sender.
    pub fn forward_to_other_iota(original: &CommunicationValue) -> (r: CommunicationValue)
        requires
            original@.data.contains_key(DataTypes::ReceiverId),
            original@.data.contains_key(DataTypes::MessageContent),
        ensures
            exists|now_ms: i64| r@ == forwarded(original@, now_ms),
    {
        let now_ms = unix_now_millis() as i64;
        Self::forward_to_other_iota_at(original, now_ms)
    }

    /// `forward_to_other_iota` with the send time `now_ms`.
    pub fn forward_to_other_iota_at(original: &CommunicationValue, now_ms: i64) -> (r: CommunicationValue)
        requires
            original@.data.contains_key(DataTypes::ReceiverId),
            original@.data.contains_key(DataTypes::MessageContent),
        ensures
            r@ == forwarded(original@, now_ms),
    {
        let receiver = match original.get_data(DataTypes::ReceiverId) {
            Some(text) => match parse_uuid(text.as_str()) {
                Some(u) => u,
                None => 0,
            },
            None => 0,
        };
        let mut time = String::new();
        push_i64(&mut time, now_ms);
        let content = match original.get_data(DataTypes::MessageContent) {
            Some(c) => c.clone(),
            None => String::new(),
        };
        let mut cv = CommunicationValue::new(CommunicationType::MessageOtherIota)
            .with_id(original.get_id())
            .with_receiver(receiver)
            .add_data(DataTypes::SendTime, time)
            .add_data(DataTypes::MessageContent, content);
        if let Some(sender) = original.get_sender() {
            cv = cv.add_data(DataTypes::SenderId, uuid_to_string(sender));
        }
        cv
    }

    /// The acknowledgement of message `message_id`: a `Message` with that id,
    /// naming the sender when one is given.
    pub fn ack_message(message_id: u128, sender: Option<u128>) -> (r: CommunicationValue)
        ensures
            r@.id == message_id,
            r@.comm_type == CommunicationType::Message,
            r@.log is None,
            r@.sender is None,
            r@.receiver is None,
            r@.data == match sender {
                Some(s) => Map::<DataTypes, Seq<char>>::empty().insert(DataTypes::SenderId, uuid_text(s)),
                None => Map::<DataTypes, Seq<char>>::empty(),
            },
    {
        let mut cv = CommunicationValue::new(CommunicationType::Message).with_id(message_id);
        if let Some(s) = sender {
            cv = cv.add_data(DataTypes::SenderId, uuid_to_string(s));
        }
        cv
    }
}

/// The name of a key, as `Debug` writes it.
pub open spec fn data_type_name(k: DataTypes) -> Seq<char> {
    match k {
        DataTypes::ErrorType => "ErrorType"@,
        DataTypes::ChatPartnerId => "ChatPartnerId"@,
        DataTypes::IotaId => "IotaId"@,
        DataTypes::UserId => "UserId"@,
        DataTypes::UserIds => "UserIds"@,
        DataTypes::UserState => "UserState"@,
        DataTypes::UserStates => "UserStates"@,
        DataTypes::UserPings => "UserPings"@,
        DataTypes::CallState => "CallState"@,
        DataTypes::ScreenShare => "ScreenShare"@,
        DataTypes::PrivateKeyHash => "PrivateKeyHash"@,
        DataTypes::Accepted => "Accepted"@,
        DataTypes::AcceptedProfiles => "AcceptedProfiles"@,
        DataTypes::DeniedProfiles => "DeniedProfiles"@,
        DataTypes::MessageContent => "MessageContent"@,
        DataTypes::MessageChunk => "MessageChunk"@,
        DataTypes::SendTime => "SendTime"@,
        DataTypes::GetTime => "GetTime"@,
        DataTypes::GetVariant => "GetVariant"@,
        DataTypes::SharedSecretOwn => "SharedSecretOwn"@,
        DataTypes::SharedSecretOther => "SharedSecretOther"@,
        DataTypes::SharedSecretSign => "SharedSecretSign"@,
        DataTypes::SharedSecret => "SharedSecret"@,
        DataTypes::CallId => "CallId"@,
        DataTypes::CallName => "CallName"@,
        DataTypes::CallSecretSha => "CallSecretSha"@,
        DataTypes::CallSecret => "CallSecret"@,
        DataTypes::SharedCallSecret => "SharedCallSecret"@,
        DataTypes::StartDate => "StartDate"@,
        DataTypes::EndDate => "EndDate"@,
        DataTypes::ReceiverId => "ReceiverId"@,
        DataTypes::SenderId => "SenderId"@,
        DataTypes::Signature => "Signature"@,
        DataTypes::Signed => "Signed"@,
        DataTypes::Message => "Message"@,
        DataTypes::LastPing => "LastPing"@,
        DataTypes::PingIota => "PingIota"@,
        DataTypes::PingClients => "PingClients"@,
        DataTypes::Matches => "Matches"@,
        DataTypes::Omikron => "Omikron"@,
        DataTypes::LoadedMessages => "LoadedMessages"@,
        DataTypes::MessageAmount => "MessageAmount"@,
        DataTypes::Position => "Position"@,
        DataTypes::Name => "Name"@,
        DataTypes::Path => "Path"@,
        DataTypes::Codec => "Codec"@,
        DataTypes::Function => "Function"@,
        DataTypes::Payload => "Payload"@,
        DataTypes::Result => "Result"@,
        DataTypes::Interactables => "Interactables"@,
        DataTypes::WantToWatch => "WantToWatch"@,
        DataTypes::Watcher => "Watcher"@,
        DataTypes::CreatedAt => "CreatedAt"@,
        DataTypes::Username => "Username"@,
        DataTypes::Display => "Display"@,
        DataTypes::Avatar => "Avatar"@,
        DataTypes::About => "About"@,
        DataTypes::Status => "Status"@,
        DataTypes::PublicKey => "PublicKey"@,
        DataTypes::SubLevel => "SubLevel"@,
        DataTypes::SubEnd => "SubEnd"@,
        DataTypes::CommunityAddress => "CommunityAddress"@,
        DataTypes::Challenge => "Challenge"@,
        DataTypes::CommunityTitle => "CommunityTitle"@,
        DataTypes::Communities => "Communities"@,
        DataTypes::MessageState => "MessageState"@,
        DataTypes::Content => "Content"@,
        DataTypes::Offset => "Offset"@,
        DataTypes::Amount => "Amount"@,
        DataTypes::SettingsName => "SettingsName"@,
        DataTypes::Settings => "Settings"@,
    }
}

impl DataTypes {
    /// The name of a key, as `Debug` writes it.
    pub fn name(&self) -> (r: &'static str)
        ensures
            r@ == data_type_name(*self),
    {
        match self {
            DataTypes::ErrorType => "ErrorType",
            DataTypes::ChatPartnerId => "ChatPartnerId",
            DataTypes::IotaId => "IotaId",
            DataTypes::UserId => "UserId",
            DataTypes::UserIds => "UserIds",
            DataTypes::UserState => "UserState",
            DataTypes::UserStates => "UserStates",
            DataTypes::UserPings => "UserPings",
            DataTypes::CallState => "CallState",
            DataTypes::ScreenShare => "ScreenShare",
            DataTypes::PrivateKeyHash => "PrivateKeyHash",
            DataTypes::Accepted => "Accepted",
            DataTypes::AcceptedProfiles => "AcceptedProfiles",
            DataTypes::DeniedProfiles => "DeniedProfiles",
            DataTypes::MessageContent => "MessageContent",
            DataTypes::MessageChunk => "MessageChunk",
            DataTypes::SendTime => "SendTime",
            DataTypes::GetTime => "GetTime",
            DataTypes::GetVariant => "GetVariant",
            DataTypes::SharedSecretOwn => "SharedSecretOwn",
            DataTypes::SharedSecretOther => "SharedSecretOther",
            DataTypes::SharedSecretSign => "SharedSecretSign",
            DataTypes::SharedSecret => "SharedSecret",
            DataTypes::CallId => "CallId",
            DataTypes::CallName => "CallName",
            DataTypes::CallSecretSha => "CallSecretSha",
            DataTypes::CallSecret => "CallSecret",
            DataTypes::SharedCallSecret => "SharedCallSecret",
            DataTypes::StartDate => "StartDate",
            DataTypes::EndDate => "EndDate",
            DataTypes::ReceiverId => "ReceiverId",
            DataTypes::SenderId => "SenderId",
            DataTypes::Signature => "Signature",
            DataTypes::Signed => "Signed",
            DataTypes::Message => "Message",
            DataTypes::LastPing => "LastPing",
            DataTypes::PingIota => "PingIota",
            DataTypes::PingClients => "PingClients",
            DataTypes::Matches => "Matches",
            DataTypes::Omikron => "Omikron",
            DataTypes::LoadedMessages => "LoadedMessages",
            DataTypes::MessageAmount => "MessageAmount",
            DataTypes::Position => "Position",
            DataTypes::Name => "Name",
            DataTypes::Path => "Path",
            DataTypes::Codec => "Codec",
            DataTypes::Function => "Function",
            DataTypes::Payload => "Payload",
            DataTypes::Result => "Result",
            DataTypes::Interactables => "Interactables",
            DataTypes::WantToWatch => "WantToWatch",
            DataTypes::Watcher => "Watcher",
            DataTypes::CreatedAt => "CreatedAt",
            DataTypes::Username => "Username",
            DataTypes::Display => "Display",
            DataTypes::Avatar => "Avatar",
            DataTypes::About => "About",
            DataTypes::Status => "Status",
            DataTypes::PublicKey => "PublicKey",
            DataTypes::SubLevel => "SubLevel",
            DataTypes::SubEnd => "SubEnd",
            DataTypes::CommunityAddress => "CommunityAddress",
            DataTypes::Challenge => "Challenge",
            DataTypes::CommunityTitle => "CommunityTitle",
            DataTypes::Communities => "Communities",
            DataTypes::MessageState => "MessageState",
            DataTypes::Content => "Content",
            DataTypes::Offset => "Offset",
            DataTypes::Amount => "Amount",
            DataTypes::SettingsName => "SettingsName",
            DataTypes::Settings => "Settings",
        }
    }
}

/// The name of a message type, as `Debug` writes it.
pub open spec fn comm_type_name(k: CommunicationType) -> Seq<char> {
    match k {
        CommunicationType::Error => "Error"@,
        CommunicationType::Success => "Success"@,
        CommunicationType::Message => "Message"@,
        CommunicationType::MessageLive => "MessageLive"@,
        CommunicationType::MessageOtherIota => "MessageOtherIota"@,
        CommunicationType::MessageChunk => "MessageChunk"@,
        CommunicationType::MessageGet => "MessageGet"@,
        CommunicationType::ChangeConfirm => "ChangeConfirm"@,
        CommunicationType::ConfirmReceive => "ConfirmReceive"@,
        CommunicationType::ConfirmRead => "ConfirmRead"@,
        CommunicationType::GetChats => "GetChats"@,
        CommunicationType::GetStates => "GetStates"@,
        CommunicationType::AddCommunity => "AddCommunity"@,
        CommunicationType::RemoveCommunity => "RemoveCommunity"@,
        CommunicationType::GetCommunities => "GetCommunities"@,
        CommunicationType::Challenge => "Challenge"@,
        CommunicationType::ChallengeResponse => "ChallengeResponse"@,
        CommunicationType::Register => "Register"@,
        CommunicationType::RegisterResponse => "RegisterResponse"@,
        CommunicationType::Identification => "Identification"@,
        CommunicationType::IdentificationResponse => "IdentificationResponse"@,
        CommunicationType::Ping => "Ping"@,
        CommunicationType::Pong => "Pong"@,
        CommunicationType::AddChat => "AddChat"@,
        CommunicationType::SendChat => "SendChat"@,
        CommunicationType::IotaConnected => "IotaConnected"@,
        CommunicationType::IotaClosed => "IotaClosed"@,
        CommunicationType::ClientChanged => "ClientChanged"@,
        CommunicationType::ClientConnected => "ClientConnected"@,
        CommunicationType::ClientClosed => "ClientClosed"@,
        CommunicationType::PublicKey => "PublicKey"@,
        CommunicationType::PrivateKey => "PrivateKey"@,
        CommunicationType::WebrtcSdp => "WebrtcSdp"@,
        CommunicationType::WebrtcIce => "WebrtcIce"@,
        CommunicationType::StartStream => "StartStream"@,
        CommunicationType::EndStream => "EndStream"@,
        CommunicationType::WatchStream => "WatchStream"@,
        CommunicationType::GetCall => "GetCall"@,
        CommunicationType::NewCall => "NewCall"@,
        CommunicationType::CallInvite => "CallInvite"@,
        CommunicationType::EndCall => "EndCall"@,
        CommunicationType::Function => "Function"@,
        CommunicationType::Update => "Update"@,
        CommunicationType::MessageState => "MessageState"@,
        CommunicationType::MessageSend => "MessageSend"@,
        CommunicationType::AddConversation => "AddConversation"@,
        CommunicationType::SettingsSave => "SettingsSave"@,
        CommunicationType::SettingsLoad => "SettingsLoad"@,
        CommunicationType::SettingsList => "SettingsList"@,
    }
}

impl CommunicationType {
    /// The name of a message type, as `Debug` writes it.
    pub fn name(&self) -> (r: &'static str)
        ensures
            r@ == comm_type_name(*self),
    {
        match self {
            CommunicationType::Error => "Error",
            CommunicationType::Success => "Success",
            CommunicationType::Message => "Message",
            CommunicationType::MessageLive => "MessageLive",
            CommunicationType::MessageOtherIota => "MessageOtherIota",
            CommunicationType::MessageChunk => "MessageChunk",
            CommunicationType::MessageGet => "MessageGet",
            CommunicationType::ChangeConfirm => "ChangeConfirm",
            CommunicationType::ConfirmReceive => "ConfirmReceive",
            CommunicationType::ConfirmRead => "ConfirmRead",
            CommunicationType::GetChats => "GetChats",
            CommunicationType::GetStates => "GetStates",
            CommunicationType::AddCommunity => "AddCommunity",
            CommunicationType::RemoveCommunity => "RemoveCommunity",
            CommunicationType::GetCommunities => "GetCommunities",
            CommunicationType::Challenge => "Challenge",
            CommunicationType::ChallengeResponse => "ChallengeResponse",
            CommunicationType::Register => "Register",
            CommunicationType::RegisterResponse => "RegisterResponse",
            CommunicationType::Identification => "Identification",
            CommunicationType::IdentificationResponse => "IdentificationResponse",
            CommunicationType::Ping => "Ping",
            CommunicationType::Pong => "Pong",
            CommunicationType::AddChat => "AddChat",
            CommunicationType::SendChat => "SendChat",
            CommunicationType::IotaConnected => "IotaConnected",
            CommunicationType::IotaClosed => "IotaClosed",
            CommunicationType::ClientChanged => "ClientChanged",
            CommunicationType::ClientConnected => "ClientConnected",
            CommunicationType::ClientClosed => "ClientClosed",
            CommunicationType::PublicKey => "PublicKey",
            CommunicationType::PrivateKey => "PrivateKey",
            CommunicationType::WebrtcSdp => "WebrtcSdp",
            CommunicationType::WebrtcIce => "WebrtcIce",
            CommunicationType::StartStream => "StartStream",
            CommunicationType::EndStream => "EndStream",
            CommunicationType::WatchStream => "WatchStream",
            CommunicationType::GetCall => "GetCall",
            CommunicationType::NewCall => "NewCall",
            CommunicationType::CallInvite => "CallInvite",
            CommunicationType::EndCall => "EndCall",
            CommunicationType::Function => "Function",
            CommunicationType::Update => "Update",
            CommunicationType::MessageState => "MessageState",
            CommunicationType::MessageSend => "MessageSend",
            CommunicationType::AddConversation => "AddConversation",
            CommunicationType::SettingsSave => "SettingsSave",
            CommunicationType::SettingsLoad => "SettingsLoad",
            CommunicationType::SettingsList => "SettingsList",
        }
    }
}

/// The key/value pairs of a payload, in order, as a map (a later pair for a
/// key wins).
pub open spec fn text_pairs_map(s: Seq<(DataTypes, Seq<char>)>) -> Map<DataTypes, Seq<char>>
    decreases s.len(),
{
    if s.len() == 0 {
        Map::empty()
    } else {
        text_pairs_map(s.drop_last()).insert(s.last().0, s.last().1)
    }
}

/// The JSON of a log value: its message and the number of its level.
pub open spec fn log_json_is(j: Json, l: LogModel) -> bool {
    &&& j matches Json::Object(ms)
    &&& ms@.len() == 2
    &&& ms@[0].0@ == "message"@
    &&& text_is(ms@[0].1, l.message)
    &&& ms@[1].0@ == "log_level"@
    &&& ms@[1].1 == Json::Number(number_of(level_number(l.level) as i64))
}

/// The JSON members of a payload: each pair's key name and text, in order.
pub open spec fn data_json_is(ms: Seq<(String, Json)>, pairs: Seq<(DataTypes, Seq<char>)>) -> bool {
    &&& ms.len() == pairs.len()
    &&& forall|i: int|
        0 <= i < ms.len() ==> #[trigger] ms[i].0@ == data_type_name(pairs[i].0) && text_is(ms[i].1, pairs[i].1)
}

/// The text of an optional id: its hyphenated form, or empty.
pub open spec fn opt_uuid_text(u: Option<u128>) -> Seq<char> {
    match u {
        Some(u) => uuid_text(u),
        None => Seq::empty(),
    }
}

/// The JSON object of a message whose payload pairs are `pairs`: `id`,
/// `type`, `sender`, `receiver`, `log` (null without one) and `data`.
pub open spec fn message_json_is(j: Json, m: CommunicationModel, pairs: Seq<(DataTypes, Seq<char>)>) -> bool {
    &&& j matches Json::Object(ms)
    &&& ms@.len() == 6
    &&& ms@[0].0@ == "id"@ && text_is(ms@[0].1, uuid_text(m.id))
    &&& ms@[1].0@ == "type"@ && text_is(ms@[1].1, comm_type_name(m.comm_type))
    &&& ms@[2].0@ == "sender"@ && text_is(ms@[2].1, opt_uuid_text(m.sender))
    &&& ms@[3].0@ == "receiver"@ && text_is(ms@[3].1, opt_uuid_text(m.receiver))
    &&& ms@[4].0@ == "log"@ && match m.log {
        Some(l) => log_json_is(ms@[4].1, l),
        None => ms@[4].1 == Json::Null,
    }
    &&& ms@[5].0@ == "data"@
    &&& ms@[5].1 matches Json::Object(d) && data_json_is(d@, pairs)
}

/// The id a member holds as text, when it holds a UUID.
pub open spec fn uuid_member(j: Json, key: Seq<char>) -> Option<u128> {
    match text_of(member(j, key)) {
        Some(s) => uuid_parse(s),
        None => None,
    }
}

/// The payload read from the members of `data`: each member whose value is
/// a string, keyed by the key its name denotes, a later one winning.
pub open spec fn data_from_members(ms: Seq<(String, Json)>) -> Map<DataTypes, Seq<char>>
    decreases ms.len(),
{
    if ms.len() == 0 {
        Map::empty()
    } else {
        let prev = data_from_members(ms.drop_last());
        match ms.last().1 {
            Json::Text(s) => prev.insert(data_type_named(normalized(ms.last().0@)), s@),
            _ => prev,
        }
    }
}

/// The message a JSON value describes, `fresh` standing for its id when
/// the value has no valid one: the type named by `type` (`Error` when it is
/// not a string naming one), sender and receiver when they are UUIDs, the
/// log message with level `Normal` when `log` is an object, and the string
/// members of `data`.
pub open spec fn message_from_json(j: Json, fresh: u128) -> CommunicationModel {
    let id_text = match text_of(member(j, "id"@)) {
        Some(s) => s,
        None => Seq::empty(),
    };
    CommunicationModel {
        id: match uuid_parse(id_text) {
            Some(u) => u,
            None => fresh,
        },
        comm_type: match text_of(member(j, "type"@)) {
            Some(t) => communication_type_named(normalized(t)),
            None => CommunicationType::Error,
        },
        log: match member(j, "log"@) {
            Json::Object(_) => Some(
                LogModel {
                    message: match text_of(member(member(j, "log"@), "message"@)) {
                        Some(s) => s,
                        None => Seq::empty(),
                    },
                    level: LogLevel::Normal,
                },
            ),
            _ => None,
        },
        sender: uuid_member(j, "sender"@),
        receiver: uuid_member(j, "receiver"@),
        data: match member(j, "data"@) {
            Json::Object(ms) => data_from_members(ms@),
            _ => Map::empty(),
        },
    }
}

/// For an ASCII text, both key parsers read the same key from the text as
/// from the text with its capitals made small and its `_` removed (which is
/// ASCII again).
pub proof fn lemma_parse_ignores_case(s: Seq<char>)
    requires
        vstd::utf8::is_ascii_chars(s),
    ensures
        vstd::utf8::is_ascii_chars(ascii_normalized(s)),
        data_type_named(ascii_normalized(ascii_normalized(s))) == data_type_named(ascii_normalized(s)),
        communication_type_named(ascii_normalized(ascii_normalized(s))) == communication_type_named(
            ascii_normalized(s),
        ),
{
    lemma_ascii_normalized_idempotent(s);
}

/// A message as it reads back from its JSON: its log keeps only the
/// message, at the level `Normal`.
pub open spec fn read_back(m: CommunicationModel) -> CommunicationModel {
    CommunicationModel {
        log: match m.log {
            Some(l) => Some(LogModel { message: l.message, level: LogLevel::Normal }),
            None => None,
        },
        ..m
    }
}

/// The key a payload key's written name is read back as.
pub open spec fn key_read_back(k: DataTypes) -> DataTypes {
    data_type_named(normalized(data_type_name(k)))
}

/// Payload pairs with each key replaced by the key its name reads back as.
pub open spec fn pairs_read_back(pairs: Seq<(DataTypes, Seq<char>)>) -> Seq<(DataTypes, Seq<char>)> {
    pairs.map_values(|p: (DataTypes, Seq<char>)| (key_read_back(p.0), p.1))
}

/// The payload members written for `pairs` read back as the pairs with
/// their keys read back, a later pair for a key winning.
proof fn lemma_data_read_back(d: Seq<(String, Json)>, pairs: Seq<(DataTypes, Seq<char>)>)
    requires
        data_json_is(d, pairs),
    ensures
        data_from_members(d) == text_pairs_map(pairs_read_back(pairs)),
    decreases d.len(),
{
    if d.len() > 0 {
        let n = d.len() - 1;
        let dl = d.drop_last();
        let pl = pairs.drop_last();
        assert forall|i: int| 0 <= i < dl.len() implies #[trigger] dl[i].0@ == data_type_name(pl[i].0)
            && text_is(dl[i].1, pl[i].1) by {
            assert(dl[i] == d[i]);
            assert(pl[i] == pairs[i]);
            assert(d[i].0@ == data_type_name(pairs[i].0));
        }
        lemma_data_read_back(dl, pl);
        assert(pairs_read_back(pairs).drop_last() =~= pairs_read_back(pl));
        assert(d[n].0@ == data_type_name(pairs[n].0));
        assert(pairs_read_back(pairs).last() == (key_read_back(pairs[n].0), pairs[n].1));
    }
}

/// Reading a message back from the JSON object written for it (see
/// `message_json_is`): the id its text parses to (`fresh` when none), the
/// sender and receiver their texts parse to, the log message with the level
/// `Normal`, the type and the payload keys as their written names read back,
/// and the payload values, a later pair for a key winning.
pub proof fn lemma_message_json_round_trip(
    j: Json,
    m: CommunicationModel,
    pairs: Seq<(DataTypes, Seq<char>)>,
    fresh: u128,
)
    requires
        message_json_is(j, m, pairs),
    ensures
        message_from_json(j, fresh) == (CommunicationModel {
            id: match uuid_parse(uuid_text(m.id)) {
                Some(u) => u,
                None => fresh,
            },
            comm_type: communication_type_named(normalized(comm_type_name(m.comm_type))),
            log: match m.log {
                Some(l) => Some(LogModel { message: l.message, level: LogLevel::Normal }),
                None => None,
            },
            sender: uuid_parse(opt_uuid_text(m.sender)),
            receiver: uuid_parse(opt_uuid_text(m.receiver)),
            data: text_pairs_map(pairs_read_back(pairs)),
        }),
{
    reveal_strlit("id");
    reveal_strlit("type");
    reveal_strlit("sender");
    reveal_strlit("receiver");
    reveal_strlit("log");
    reveal_strlit("data");
    reveal_strlit("message");
    reveal_strlit("log_level");
    let ms = match j {
        Json::Object(ms) => ms@,
        _ => Seq::empty(),
    };
    let keys = seq!["id"@, "type"@, "sender"@, "receiver"@, "log"@, "data"@];
    assert forall|a: int, b: int| 0 <= a < 6 && 0 <= b < 6 && a != b implies keys[a] != keys[b] by {
        if keys[a].len() == keys[b].len() {
            assert(keys[a][0] != keys[b][0]);
        }
    }
    assert forall|i: int| 0 <= i < ms.len() implies #[trigger] ms[i].0@ == keys[i] by {}
    lemma_member_at(ms, "id"@, 0);
    lemma_member_at(ms, "type"@, 1);
    lemma_member_at(ms, "sender"@, 2);
    lemma_member_at(ms, "receiver"@, 3);
    lemma_member_at(ms, "log"@, 4);
    lemma_member_at(ms, "data"@, 5);
    match m.log {
        Some(l) => {
            let lm = match ms[4].1 {
                Json::Object(lm) => lm@,
                _ => Seq::empty(),
            };
            assert("message"@ != "log_level"@) by {
                assert("message"@.len() != "log_level"@.len());
            }
            lemma_member_at(lm, "message"@, 0);
        },
        None => {},
    }
    match ms[5].1 {
        Json::Object(d) => lemma_data_read_back(d@, pairs),
        _ => {},
    }
}

impl LogValue {
    /// The JSON object of the log value: its message and its level's number.
    pub fn to_json(&self) -> (r: Json)
        ensures
            log_json_is(r, LogModel { message: self.message@, level: self.log_level }),
    {
        let mut ms: Vec<(String, Json)> = Vec::new();
        ms.push((String::from_str("message"), Json::Text(self.message.clone())));
        ms.push((String::from_str("log_level"), from_i64(self.log_level.as_i32() as i64)));
        proof {
            reveal_strlit("message");
            reveal_strlit("log_level");
        }
        Json::Object(ms)
    }
}

/// The text of an optional id.
fn opt_uuid_string(u: Option<u128>) -> (r: String)
    ensures
        r@ == opt_uuid_text(u),
        u matches Some(v) ==> uuid_parse(r@) == Some(v),
{
    match u {
        Some(u) => uuid_to_string(u),
        None => String::new(),
    }
}

/// The id member `key` of `j`, when it holds a UUID.
fn uuid_member_of(j: &Json, key: &str) -> (r: Option<u128>)
    ensures
        r == uuid_member(*j, key@),
{
    match text_member(j, key) {
        Some(s) => parse_uuid(s.as_str()),
        None => None,
    }
}

impl CommunicationValue {
    /// The payload pairs in the order they were set.
    pub closed spec fn pairs(&self) -> Seq<(DataTypes, Seq<char>)> {
        self.data@.map_values(|p: (DataTypes, String)| (p.0, p.1@))
    }

    proof fn lemma_pairs_map(s: Seq<(DataTypes, String)>)
        ensures
            text_pairs_map(s.map_values(|p: (DataTypes, String)| (p.0, p.1@))) == pairs_map(s),
        decreases s.len(),
    {
        if s.len() > 0 {
            Self::lemma_pairs_map(s.drop_last());
            assert(s.map_values(|p: (DataTypes, String)| (p.0, p.1@)).drop_last() =~= s.drop_last().map_values(
                |p: (DataTypes, String)| (p.0, p.1@),
            ));
        }
    }

    /// The JSON object of the message (see `message_json_is`); its `data`
    /// lists the payload in the order it was set.
    pub fn to_json_value(&self) -> (r: Json)
        ensures
            message_json_is(r, self@, self.pairs()),
            text_pairs_map(self.pairs()) == self@.data,
            uuid_parse(uuid_text(self@.id)) == Some(self@.id),
            self@.sender matches Some(u) ==> uuid_parse(uuid_text(u)) == Some(u),
            self@.receiver matches Some(u) ==> uuid_parse(uuid_text(u)) == Some(u),
            forall|fresh: u128| #[trigger] message_from_json(r, fresh) == read_back(self@),
    {
        proof {
            Self::lemma_pairs_map(self.data@);
        }
        let ghost pairs = self.pairs();
        let mut data: Vec<(String, Json)> = Vec::new();
        let mut i: usize = 0;
        while i < self.data.len()
            invariant
                pairs == self.pairs(),
                pairs == self.data@.map_values(|p: (DataTypes, String)| (p.0, p.1@)),
                i <= self.data@.len(),
                data_json_is(data@, pairs.take(i as int)),
            decreases self.data@.len() - i,
        {
            let (k, v) = (self.data[i].0, &self.data[i].1);
            data.push((String::from_str(k.name()), Json::Text(v.clone())));
            assert(pairs[i as int] == (k, v@));
            i = i + 1;
        }
        assert(pairs.take(i as int) =~= pairs);
        let log = match &self.log_value {
            Some(l) => l.to_json(),
            None => Json::Null,
        };
        let mut ms: Vec<(String, Json)> = Vec::new();
        let id = uuid_to_string(self.id);
        let sender = opt_uuid_string(self.sender);
        let receiver = opt_uuid_string(self.receiver);
        ms.push((String::from_str("id"), Json::Text(id)));
        ms.push((String::from_str("type"), Json::Text(String::from_str(self.comm_type.name()))));
        ms.push((String::from_str("sender"), Json::Text(sender)));
        ms.push((String::from_str("receiver"), Json::Text(receiver)));
        ms.push((String::from_str("log"), log));
        ms.push((String::from_str("data"), Json::Object(data)));
        let r = Json::Object(ms);
        proof {
            assert(pairs_read_back(pairs) =~= pairs) by {
                assert forall|i: int| 0 <= i < pairs.len() implies pairs_read_back(pairs)[i] == pairs[i] by {
                    lemma_data_type_name_read_back(pairs[i].0);
                }
            }
            lemma_comm_type_name_read_back(self@.comm_type);
            assert forall|fresh: u128| #[trigger] message_from_json(r, fresh) == read_back(self@) by {
                lemma_message_json_round_trip(r, self@, pairs, fresh);
            }
        }
        r
    }

    /// The JSON text of the message (see `to_json_value`).
    pub fn to_json(&self) -> (r: String)
        ensures
            exists|j: Json|
                message_json_is(j, self@, self.pairs()) && r@ == json_dumped(j) && (forall|fresh: u128|
                    #[trigger] message_from_json(j, fresh) == read_back(self@)),
            text_pairs_map(self.pairs()) == self@.data,
    {
        let j = self.to_json_value();
        dump_json(&j)
    }

    /// The message a JSON value describes (see `message_from_json`), with
    /// `fresh_id` as its id when the value has no valid one.
    pub fn from_json_value(j: &Json, fresh_id: u128) -> (r: CommunicationValue)
        ensures
            r@ == message_from_json(*j, fresh_id),
    {
        let none = String::new();
        let id = match text_member(j, "id") {
            Some(s) => parse_uuid(s.as_str()),
            None => parse_uuid(none.as_str()),
        };
        let id = match id {
            Some(u) => u,
            None => fresh_id,
        };
        let comm_type = match text_member(j, "type") {
            Some(t) => CommunicationType::parse(t.clone()),
            None => CommunicationType::Error,
        };
        let mut cv = CommunicationValue::with_fresh_id(comm_type, id);
        match get_member(j, "log") {
            Some(l) => match l {
                Json::Object(_) => {
                    let message = match text_member(l, "message") {
                        Some(s) => s.clone(),
                        None => String::new(),
                    };
                    cv = cv.with_log(LogValue::new(message, LogLevel::Normal));
                },
                _ => {},
            },
            None => {},
        }
        if let Some(s) = uuid_member_of(j, "sender") {
            cv = cv.with_sender(s);
        }
        if let Some(r) = uuid_member_of(j, "receiver") {
            cv = cv.with_receiver(r);
        }
        let ghost base = cv@;
        match get_member(j, "data") {
            Some(d) => match d {
                Json::Object(ms) => {
                    let mut i: usize = 0;
                    while i < ms.len()
                        invariant
                            *d == Json::Object(*ms),
                            i <= ms@.len(),
                            cv@ == (CommunicationModel { data: data_from_members(ms@.take(i as int)), ..base }),
                        decreases ms@.len() - i,
                    {
                        assert(ms@.take(i + 1).drop_last() =~= ms@.take(i as int));
                        assert(ms@.take(i + 1).last() == ms@[i as int]);
                        match &ms[i].1 {
                            Json::Text(s) => {
                                cv = cv.add_data(DataTypes::parse(ms[i].0.clone()), s.clone());
                            },
                            _ => {},
                        }
                        i = i + 1;
                    }
                    assert(ms@.take(i as int) =~= ms@);
                },
                _ => {},
            },
            None => {},
        }
        cv
    }

    /// The message a JSON text describes (see `message_from_json`); a fresh
    /// random id stands in when it has no valid one. `None` when the text is
    /// no JSON.
    pub fn from_json(json_str: &str) -> (r: Option<CommunicationValue>)
        ensures
            match json_parsed(json_str@) {
                Some(j) => r matches Some(cv) && exists|fresh: u128| cv@ == message_from_json(j, fresh),
                None => r is None,
            },
    {
        match parse_json(json_str) {
            Some(j) => Some(Self::from_json_value(&j, new_uuid())),
            None => None,
        }
    }
}

} // verus!
