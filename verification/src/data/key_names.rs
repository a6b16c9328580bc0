//! The names the message vocabularies are written with read back as the
//! same key or type.
use crate::data::communication::{
    comm_type_name, communication_type_named, data_type_name, data_type_named, CommunicationType, DataTypes,
};
use crate::text::{ascii_lowered, ascii_normalized, lemma_without_char};
use vstd::prelude::*;

verus! {

/// The name a payload key is written with (its `Debug` name) is ASCII and
/// reads back as that key.
#[verifier::rlimit(100)]
#[verifier::spinoff_prover]
pub proof fn lemma_data_type_name_read_back(k: DataTypes)
    ensures
        vstd::utf8::is_ascii_chars(data_type_name(k)),
        data_type_named(ascii_normalized(data_type_name(k))) == k,
{
    reveal_strlit("errortype");
    reveal_strlit("chatpartnerid");
    reveal_strlit("iotaid");
    reveal_strlit("userid");
    reveal_strlit("userids");
    reveal_strlit("userstate");
    reveal_strlit("userstates");
    reveal_strlit("userpings");
    reveal_strlit("callstate");
    reveal_strlit("screenshare");
    reveal_strlit("privatekeyhash");
    reveal_strlit("accepted");
    reveal_strlit("acceptedprofiles");
    reveal_strlit("deniedprofiles");
    reveal_strlit("messagecontent");
    reveal_strlit("messagechunk");
    reveal_strlit("sendtime");
    reveal_strlit("gettime");
    reveal_strlit("getvariant");
    reveal_strlit("sharedsecretown");
    reveal_strlit("sharedsecretother");
    reveal_strlit("sharedsecretsign");
    reveal_strlit("sharedsecret");
    reveal_strlit("callid");
    reveal_strlit("callname");
    reveal_strlit("callsecretsha");
    reveal_strlit("callsecret");
    reveal_strlit("sharedcallsecret");
    reveal_strlit("startdate");
    reveal_strlit("enddate");
    reveal_strlit("receiverid");
    reveal_strlit("senderid");
    reveal_strlit("signature");
    reveal_strlit("signed");
    reveal_strlit("message");
    reveal_strlit("lastping");
    reveal_strlit("pingiota");
    reveal_strlit("pingclients");
    reveal_strlit("matches");
    reveal_strlit("omikron");
    reveal_strlit("loadedmessages");
    reveal_strlit("messageamount");
    reveal_strlit("position");
    reveal_strlit("name");
    reveal_strlit("path");
    reveal_strlit("codec");
    reveal_strlit("function");
    reveal_strlit("payload");
    reveal_strlit("result");
    reveal_strlit("interactables");
    reveal_strlit("wanttowatch");
    reveal_strlit("watcher");
    reveal_strlit("createdat");
    reveal_strlit("username");
    reveal_strlit("display");
    reveal_strlit("avatar");
    reveal_strlit("about");
    reveal_strlit("status");
    reveal_strlit("publickey");
    reveal_strlit("sublevel");
    reveal_strlit("subend");
    reveal_strlit("communityaddress");
    reveal_strlit("challenge");
    reveal_strlit("communitytitle");
    reveal_strlit("communities");
    reveal_strlit("messagestate");
    reveal_strlit("content");
    reveal_strlit("offset");
    reveal_strlit("amount");
    reveal_strlit("settingsname");
    reveal_strlit("settings");
    match k {
        DataTypes::ErrorType => {
            reveal_strlit("ErrorType");
            assert(ascii_lowered("ErrorType"@) =~= "errortype"@);
            lemma_without_char("errortype"@, '_');
        },
        DataTypes::ChatPartnerId => {
            reveal_strlit("ChatPartnerId");
            assert(ascii_lowered("ChatPartnerId"@) =~= "chatpartnerid"@);
            lemma_without_char("chatpartnerid"@, '_');
        },
        DataTypes::IotaId => {
            reveal_strlit("IotaId");
            assert(ascii_lowered("IotaId"@) =~= "iotaid"@);
            lemma_without_char("iotaid"@, '_');
        },
        DataTypes::UserId => {
            reveal_strlit("UserId");
            assert(ascii_lowered("UserId"@) =~= "userid"@);
            lemma_without_char("userid"@, '_');
            assert("userid"@[0] != "iotaid"@[0]);
        },
        DataTypes::UserIds => {
            reveal_strlit("UserIds");
            assert(ascii_lowered("UserIds"@) =~= "userids"@);
            lemma_without_char("userids"@, '_');
        },
        DataTypes::UserState => {
            reveal_strlit("UserState");
            assert(ascii_lowered("UserState"@) =~= "userstate"@);
            lemma_without_char("userstate"@, '_');
            assert("userstate"@[0] != "errortype"@[0]);
        },
        DataTypes::UserStates => {
            reveal_strlit("UserStates");
            assert(ascii_lowered("UserStates"@) =~= "userstates"@);
            lemma_without_char("userstates"@, '_');
        },
        DataTypes::UserPings => {
            reveal_strlit("UserPings");
            assert(ascii_lowered("UserPings"@) =~= "userpings"@);
            lemma_without_char("userpings"@, '_');
            assert("userpings"@[0] != "errortype"@[0]);
            assert("userpings"@[4] != "userstate"@[4]);
        },
        DataTypes::CallState => {
            reveal_strlit("CallState");
            assert(ascii_lowered("CallState"@) =~= "callstate"@);
            lemma_without_char("callstate"@, '_');
            assert("callstate"@[0] != "errortype"@[0]);
            assert("callstate"@[0] != "userstate"@[0]);
            assert("callstate"@[0] != "userpings"@[0]);
        },
        DataTypes::ScreenShare => {
            reveal_strlit("ScreenShare");
            assert(ascii_lowered("ScreenShare"@) =~= "screenshare"@);
            lemma_without_char("screenshare"@, '_');
        },
        DataTypes::PrivateKeyHash => {
            reveal_strlit("PrivateKeyHash");
            assert(ascii_lowered("PrivateKeyHash"@) =~= "privatekeyhash"@);
            lemma_without_char("privatekeyhash"@, '_');
        },
        DataTypes::Accepted => {
            reveal_strlit("Accepted");
            assert(ascii_lowered("Accepted"@) =~= "accepted"@);
            lemma_without_char("accepted"@, '_');
        },
        DataTypes::AcceptedProfiles => {
            reveal_strlit("AcceptedProfiles");
            assert(ascii_lowered("AcceptedProfiles"@) =~= "acceptedprofiles"@);
            lemma_without_char("acceptedprofiles"@, '_');
        },
        DataTypes::DeniedProfiles => {
            reveal_strlit("DeniedProfiles");
            assert(ascii_lowered("DeniedProfiles"@) =~= "deniedprofiles"@);
            lemma_without_char("deniedprofiles"@, '_');
            assert("deniedprofiles"@[0] != "privatekeyhash"@[0]);
        },
        DataTypes::MessageContent => {
            reveal_strlit("MessageContent");
            assert(ascii_lowered("MessageContent"@) =~= "messagecontent"@);
            lemma_without_char("messagecontent"@, '_');
            assert("messagecontent"@[0] != "privatekeyhash"@[0]);
            assert("messagecontent"@[0] != "deniedprofiles"@[0]);
        },
        DataTypes::MessageChunk => {
            reveal_strlit("MessageChunk");
            assert(ascii_lowered("MessageChunk"@) =~= "messagechunk"@);
            lemma_without_char("messagechunk"@, '_');
        },
        DataTypes::SendTime => {
            reveal_strlit("SendTime");
            assert(ascii_lowered("SendTime"@) =~= "sendtime"@);
            lemma_without_char("sendtime"@, '_');
            assert("sendtime"@[0] != "accepted"@[0]);
        },
        DataTypes::GetTime => {
            reveal_strlit("GetTime");
            assert(ascii_lowered("GetTime"@) =~= "gettime"@);
            lemma_without_char("gettime"@, '_');
            assert("gettime"@[0] != "userids"@[0]);
        },
        DataTypes::GetVariant => {
            reveal_strlit("GetVariant");
            assert(ascii_lowered("GetVariant"@) =~= "getvariant"@);
            lemma_without_char("getvariant"@, '_');
            assert("getvariant"@[0] != "userstates"@[0]);
        },
        DataTypes::SharedSecretOwn => {
            reveal_strlit("SharedSecretOwn");
            assert(ascii_lowered("SharedSecretOwn"@) =~= "sharedsecretown"@);
            lemma_without_char("sharedsecretown"@, '_');
        },
        DataTypes::SharedSecretOther => {
            reveal_strlit("SharedSecretOther");
            assert(ascii_lowered("SharedSecretOther"@) =~= "sharedsecretother"@);
            lemma_without_char("sharedsecretother"@, '_');
        },
        DataTypes::SharedSecretSign => {
            reveal_strlit("SharedSecretSign");
            assert(ascii_lowered("SharedSecretSign"@) =~= "sharedsecretsign"@);
            lemma_without_char("sharedsecretsign"@, '_');
            assert("sharedsecretsign"@[0] != "acceptedprofiles"@[0]);
        },
        DataTypes::SharedSecret => {
            reveal_strlit("SharedSecret");
            assert(ascii_lowered("SharedSecret"@) =~= "sharedsecret"@);
            lemma_without_char("sharedsecret"@, '_');
            assert("sharedsecret"@[0] != "messagechunk"@[0]);
        },
        DataTypes::CallId => {
            reveal_strlit("CallId");
            assert(ascii_lowered("CallId"@) =~= "callid"@);
            lemma_without_char("callid"@, '_');
            assert("callid"@[0] != "iotaid"@[0]);
            assert("callid"@[0] != "userid"@[0]);
        },
        DataTypes::CallName => {
            reveal_strlit("CallName");
            assert(ascii_lowered("CallName"@) =~= "callname"@);
            lemma_without_char("callname"@, '_');
            assert("callname"@[0] != "accepted"@[0]);
            assert("callname"@[0] != "sendtime"@[0]);
        },
        DataTypes::CallSecretSha => {
            reveal_strlit("CallSecretSha");
            assert(ascii_lowered("CallSecretSha"@) =~= "callsecretsha"@);
            lemma_without_char("callsecretsha"@, '_');
            assert("callsecretsha"@[1] != "chatpartnerid"@[1]);
        },
        DataTypes::CallSecret => {
            reveal_strlit("CallSecret");
            assert(ascii_lowered("CallSecret"@) =~= "callsecret"@);
            lemma_without_char("callsecret"@, '_');
            assert("callsecret"@[0] != "userstates"@[0]);
            assert("callsecret"@[0] != "getvariant"@[0]);
        },
        DataTypes::SharedCallSecret => {
            reveal_strlit("SharedCallSecret");
            assert(ascii_lowered("SharedCallSecret"@) =~= "sharedcallsecret"@);
            lemma_without_char("sharedcallsecret"@, '_');
            assert("sharedcallsecret"@[0] != "acceptedprofiles"@[0]);
            assert("sharedcallsecret"@[6] != "sharedsecretsign"@[6]);
        },
        DataTypes::StartDate => {
            reveal_strlit("StartDate");
            assert(ascii_lowered("StartDate"@) =~= "startdate"@);
            lemma_without_char("startdate"@, '_');
            assert("startdate"@[0] != "errortype"@[0]);
            assert("startdate"@[0] != "userstate"@[0]);
            assert("startdate"@[0] != "userpings"@[0]);
            assert("startdate"@[0] != "callstate"@[0]);
        },
        DataTypes::EndDate => {
            reveal_strlit("EndDate");
            assert(ascii_lowered("EndDate"@) =~= "enddate"@);
            lemma_without_char("enddate"@, '_');
            assert("enddate"@[0] != "userids"@[0]);
            assert("enddate"@[0] != "gettime"@[0]);
        },
        DataTypes::ReceiverId => {
            reveal_strlit("ReceiverId");
            assert(ascii_lowered("ReceiverId"@) =~= "receiverid"@);
            lemma_without_char("receiverid"@, '_');
            assert("receiverid"@[0] != "userstates"@[0]);
            assert("receiverid"@[0] != "getvariant"@[0]);
            assert("receiverid"@[0] != "callsecret"@[0]);
        },
        DataTypes::SenderId => {
            reveal_strlit("SenderId");
            assert(ascii_lowered("SenderId"@) =~= "senderid"@);
            lemma_without_char("senderid"@, '_');
            assert("senderid"@[0] != "accepted"@[0]);
            assert("senderid"@[4] != "sendtime"@[4]);
            assert("senderid"@[0] != "callname"@[0]);
        },
        DataTypes::Signature => {
            reveal_strlit("Signature");
            assert(ascii_lowered("Signature"@) =~= "signature"@);
            lemma_without_char("signature"@, '_');
            assert("signature"@[0] != "errortype"@[0]);
            assert("signature"@[0] != "userstate"@[0]);
            assert("signature"@[0] != "userpings"@[0]);
            assert("signature"@[0] != "callstate"@[0]);
            assert("signature"@[1] != "startdate"@[1]);
        },
        DataTypes::Signed => {
            reveal_strlit("Signed");
            assert(ascii_lowered("Signed"@) =~= "signed"@);
            lemma_without_char("signed"@, '_');
            assert("signed"@[0] != "iotaid"@[0]);
            assert("signed"@[0] != "userid"@[0]);
            assert("signed"@[0] != "callid"@[0]);
        },
        DataTypes::Message => {
            reveal_strlit("Message");
            assert(ascii_lowered("Message"@) =~= "message"@);
            lemma_without_char("message"@, '_');
            assert("message"@[0] != "userids"@[0]);
            assert("message"@[0] != "gettime"@[0]);
            assert("message"@[0] != "enddate"@[0]);
        },
        DataTypes::LastPing => {
            reveal_strlit("LastPing");
            assert(ascii_lowered("LastPing"@) =~= "lastping"@);
            lemma_without_char("lastping"@, '_');
            assert("lastping"@[0] != "accepted"@[0]);
            assert("lastping"@[0] != "sendtime"@[0]);
            assert("lastping"@[0] != "callname"@[0]);
            assert("lastping"@[0] != "senderid"@[0]);
        },
        DataTypes::PingIota => {
            reveal_strlit("PingIota");
            assert(ascii_lowered("PingIota"@) =~= "pingiota"@);
            lemma_without_char("pingiota"@, '_');
            assert("pingiota"@[0] != "accepted"@[0]);
            assert("pingiota"@[0] != "sendtime"@[0]);
            assert("pingiota"@[0] != "callname"@[0]);
            assert("pingiota"@[0] != "senderid"@[0]);
            assert("pingiota"@[0] != "lastping"@[0]);
        },
        DataTypes::PingClients => {
            reveal_strlit("PingClients");
            assert(ascii_lowered("PingClients"@) =~= "pingclients"@);
            lemma_without_char("pingclients"@, '_');
            assert("pingclients"@[0] != "screenshare"@[0]);
        },
        DataTypes::Matches => {
            reveal_strlit("Matches");
            assert(ascii_lowered("Matches"@) =~= "matches"@);
            lemma_without_char("matches"@, '_');
            assert("matches"@[0] != "userids"@[0]);
            assert("matches"@[0] != "gettime"@[0]);
            assert("matches"@[0] != "enddate"@[0]);
            assert("matches"@[1] != "message"@[1]);
        },
        DataTypes::Omikron => {
            reveal_strlit("Omikron");
            assert(ascii_lowered("Omikron"@) =~= "omikron"@);
            lemma_without_char("omikron"@, '_');
            assert("omikron"@[0] != "userids"@[0]);
            assert("omikron"@[0] != "gettime"@[0]);
            assert("omikron"@[0] != "enddate"@[0]);
            assert("omikron"@[0] != "message"@[0]);
            assert("omikron"@[0] != "matches"@[0]);
        },
        DataTypes::LoadedMessages => {
            reveal_strlit("LoadedMessages");
            assert(ascii_lowered("LoadedMessages"@) =~= "loadedmessages"@);
            lemma_without_char("loadedmessages"@, '_');
            assert("loadedmessages"@[0] != "privatekeyhash"@[0]);
            assert("loadedmessages"@[0] != "deniedprofiles"@[0]);
            assert("loadedmessages"@[0] != "messagecontent"@[0]);
        },
        DataTypes::MessageAmount => {
            reveal_strlit("MessageAmount");
            assert(ascii_lowered("MessageAmount"@) =~= "messageamount"@);
            lemma_without_char("messageamount"@, '_');
            assert("messageamount"@[0] != "chatpartnerid"@[0]);
            assert("messageamount"@[0] != "callsecretsha"@[0]);
        },
        DataTypes::Position => {
            reveal_strlit("Position");
            assert(ascii_lowered("Position"@) =~= "position"@);
            lemma_without_char("position"@, '_');
            assert("position"@[0] != "accepted"@[0]);
            assert("position"@[0] != "sendtime"@[0]);
            assert("position"@[0] != "callname"@[0]);
            assert("position"@[0] != "senderid"@[0]);
            assert("position"@[0] != "lastping"@[0]);
            assert("position"@[1] != "pingiota"@[1]);
        },
        DataTypes::Name => {
            reveal_strlit("Name");
            assert(ascii_lowered("Name"@) =~= "name"@);
            lemma_without_char("name"@, '_');
        },
        DataTypes::Path => {
            reveal_strlit("Path");
            assert(ascii_lowered("Path"@) =~= "path"@);
            lemma_without_char("path"@, '_');
            assert("path"@[0] != "name"@[0]);
        },
        DataTypes::Codec => {
            reveal_strlit("Codec");
            assert(ascii_lowered("Codec"@) =~= "codec"@);
            lemma_without_char("codec"@, '_');
        },
        DataTypes::Function => {
            reveal_strlit("Function");
            assert(ascii_lowered("Function"@) =~= "function"@);
            lemma_without_char("function"@, '_');
            assert("function"@[0] != "accepted"@[0]);
            assert("function"@[0] != "sendtime"@[0]);
            assert("function"@[0] != "callname"@[0]);
            assert("function"@[0] != "senderid"@[0]);
            assert("function"@[0] != "lastping"@[0]);
            assert("function"@[0] != "pingiota"@[0]);
            assert("function"@[0] != "position"@[0]);
        },
        DataTypes::Payload => {
            reveal_strlit("Payload");
            assert(ascii_lowered("Payload"@) =~= "payload"@);
            lemma_without_char("payload"@, '_');
            assert("payload"@[0] != "userids"@[0]);
            assert("payload"@[0] != "gettime"@[0]);
            assert("payload"@[0] != "enddate"@[0]);
            assert("payload"@[0] != "message"@[0]);
            assert("payload"@[0] != "matches"@[0]);
            assert("payload"@[0] != "omikron"@[0]);
        },
        DataTypes::Result => {
            reveal_strlit("Result");
            assert(ascii_lowered("Result"@) =~= "result"@);
            lemma_without_char("result"@, '_');
            assert("result"@[0] != "iotaid"@[0]);
            assert("result"@[0] != "userid"@[0]);
            assert("result"@[0] != "callid"@[0]);
            assert("result"@[0] != "signed"@[0]);
        },
        DataTypes::Interactables => {
            reveal_strlit("Interactables");
            assert(ascii_lowered("Interactables"@) =~= "interactables"@);
            lemma_without_char("interactables"@, '_');
            assert("interactables"@[0] != "chatpartnerid"@[0]);
            assert("interactables"@[0] != "callsecretsha"@[0]);
            assert("interactables"@[0] != "messageamount"@[0]);
        },
        DataTypes::WantToWatch => {
            reveal_strlit("WantToWatch");
            assert(ascii_lowered("WantToWatch"@) =~= "wanttowatch"@);
            lemma_without_char("wanttowatch"@, '_');
            assert("wanttowatch"@[0] != "screenshare"@[0]);
            assert("wanttowatch"@[0] != "pingclients"@[0]);
        },
        DataTypes::Watcher => {
            reveal_strlit("Watcher");
            assert(ascii_lowered("Watcher"@) =~= "watcher"@);
            lemma_without_char("watcher"@, '_');
            assert("watcher"@[0] != "userids"@[0]);
            assert("watcher"@[0] != "gettime"@[0]);
            assert("watcher"@[0] != "enddate"@[0]);
            assert("watcher"@[0] != "message"@[0]);
            assert("watcher"@[0] != "matches"@[0]);
            assert("watcher"@[0] != "omikron"@[0]);
            assert("watcher"@[0] != "payload"@[0]);
        },
        DataTypes::CreatedAt => {
            reveal_strlit("CreatedAt");
            assert(ascii_lowered("CreatedAt"@) =~= "createdat"@);
            lemma_without_char("createdat"@, '_');
            assert("createdat"@[0] != "errortype"@[0]);
            assert("createdat"@[0] != "userstate"@[0]);
            assert("createdat"@[0] != "userpings"@[0]);
            assert("createdat"@[1] != "callstate"@[1]);
            assert("createdat"@[0] != "startdate"@[0]);
            assert("createdat"@[0] != "signature"@[0]);
        },
        DataTypes::Username => {
            reveal_strlit("Username");
            assert(ascii_lowered("Username"@) =~= "username"@);
            lemma_without_char("username"@, '_');
            assert("username"@[0] != "accepted"@[0]);
            assert("username"@[0] != "sendtime"@[0]);
            assert("username"@[0] != "callname"@[0]);
            assert("username"@[0] != "senderid"@[0]);
            assert("username"@[0] != "lastping"@[0]);
            assert("username"@[0] != "pingiota"@[0]);
            assert("username"@[0] != "position"@[0]);
            assert("username"@[0] != "function"@[0]);
        },
        DataTypes::Display => {
            reveal_strlit("Display");
            assert(ascii_lowered("Display"@) =~= "display"@);
            lemma_without_char("display"@, '_');
            assert("display"@[0] != "userids"@[0]);
            assert("display"@[0] != "gettime"@[0]);
            assert("display"@[0] != "enddate"@[0]);
            assert("display"@[0] != "message"@[0]);
            assert("display"@[0] != "matches"@[0]);
            assert("display"@[0] != "omikron"@[0]);
            assert("display"@[0] != "payload"@[0]);
            assert("display"@[0] != "watcher"@[0]);
        },
        DataTypes::Avatar => {
            reveal_strlit("Avatar");
            assert(ascii_lowered("Avatar"@) =~= "avatar"@);
            lemma_without_char("avatar"@, '_');
            assert("avatar"@[0] != "iotaid"@[0]);
            assert("avatar"@[0] != "userid"@[0]);
            assert("avatar"@[0] != "callid"@[0]);
            assert("avatar"@[0] != "signed"@[0]);
            assert("avatar"@[0] != "result"@[0]);
        },
        DataTypes::About => {
            reveal_strlit("About");
            assert(ascii_lowered("About"@) =~= "about"@);
            lemma_without_char("about"@, '_');
            assert("about"@[0] != "codec"@[0]);
        },
        DataTypes::Status => {
            reveal_strlit("Status");
            assert(ascii_lowered("Status"@) =~= "status"@);
            lemma_without_char("status"@, '_');
            assert("status"@[0] != "iotaid"@[0]);
            assert("status"@[0] != "userid"@[0]);
            assert("status"@[0] != "callid"@[0]);
            assert("status"@[1] != "signed"@[1]);
            assert("status"@[0] != "result"@[0]);
            assert("status"@[0] != "avatar"@[0]);
        },
        DataTypes::PublicKey => {
            reveal_strlit("PublicKey");
            assert(ascii_lowered("PublicKey"@) =~= "publickey"@);
            lemma_without_char("publickey"@, '_');
            assert("publickey"@[0] != "errortype"@[0]);
            assert("publickey"@[0] != "userstate"@[0]);
            assert("publickey"@[0] != "userpings"@[0]);
            assert("publickey"@[0] != "callstate"@[0]);
            assert("publickey"@[0] != "startdate"@[0]);
            assert("publickey"@[0] != "signature"@[0]);
            assert("publickey"@[0] != "createdat"@[0]);
        },
        DataTypes::SubLevel => {
            reveal_strlit("SubLevel");
            assert(ascii_lowered("SubLevel"@) =~= "sublevel"@);
            lemma_without_char("sublevel"@, '_');
            assert("sublevel"@[0] != "accepted"@[0]);
            assert("sublevel"@[1] != "sendtime"@[1]);
            assert("sublevel"@[0] != "callname"@[0]);
            assert("sublevel"@[1] != "senderid"@[1]);
            assert("sublevel"@[0] != "lastping"@[0]);
            assert("sublevel"@[0] != "pingiota"@[0]);
            assert("sublevel"@[0] != "position"@[0]);
            assert("sublevel"@[0] != "function"@[0]);
            assert("sublevel"@[0] != "username"@[0]);
        },
        DataTypes::SubEnd => {
            reveal_strlit("SubEnd");
            assert(ascii_lowered("SubEnd"@) =~= "subend"@);
            lemma_without_char("subend"@, '_');
            assert("subend"@[0] != "iotaid"@[0]);
            assert("subend"@[0] != "userid"@[0]);
            assert("subend"@[0] != "callid"@[0]);
            assert("subend"@[1] != "signed"@[1]);
            assert("subend"@[0] != "result"@[0]);
            assert("subend"@[0] != "avatar"@[0]);
            assert("subend"@[1] != "status"@[1]);
        },
        DataTypes::CommunityAddress => {
            reveal_strlit("CommunityAddress");
            assert(ascii_lowered("CommunityAddress"@) =~= "communityaddress"@);
            lemma_without_char("communityaddress"@, '_');
            assert("communityaddress"@[0] != "acceptedprofiles"@[0]);
            assert("communityaddress"@[0] != "sharedsecretsign"@[0]);
            assert("communityaddress"@[0] != "sharedcallsecret"@[0]);
        },
        DataTypes::Challenge => {
            reveal_strlit("Challenge");
            assert(ascii_lowered("Challenge"@) =~= "challenge"@);
            lemma_without_char("challenge"@, '_');
            assert("challenge"@[0] != "errortype"@[0]);
            assert("challenge"@[0] != "userstate"@[0]);
            assert("challenge"@[0] != "userpings"@[0]);
            assert("challenge"@[1] != "callstate"@[1]);
            assert("challenge"@[0] != "startdate"@[0]);
            assert("challenge"@[0] != "signature"@[0]);
            assert("challenge"@[1] != "createdat"@[1]);
            assert("challenge"@[0] != "publickey"@[0]);
        },
        DataTypes::CommunityTitle => {
            reveal_strlit("CommunityTitle");
            assert(ascii_lowered("CommunityTitle"@) =~= "communitytitle"@);
            lemma_without_char("communitytitle"@, '_');
            assert("communitytitle"@[0] != "privatekeyhash"@[0]);
            assert("communitytitle"@[0] != "deniedprofiles"@[0]);
            assert("communitytitle"@[0] != "messagecontent"@[0]);
            assert("communitytitle"@[0] != "loadedmessages"@[0]);
        },
        DataTypes::Communities => {
            reveal_strlit("Communities");
            assert(ascii_lowered("Communities"@) =~= "communities"@);
            lemma_without_char("communities"@, '_');
            assert("communities"@[0] != "screenshare"@[0]);
            assert("communities"@[0] != "pingclients"@[0]);
            assert("communities"@[0] != "wanttowatch"@[0]);
        },
        DataTypes::MessageState => {
            reveal_strlit("MessageState");
            assert(ascii_lowered("MessageState"@) =~= "messagestate"@);
            lemma_without_char("messagestate"@, '_');
            assert("messagestate"@[7] != "messagechunk"@[7]);
            assert("messagestate"@[0] != "sharedsecret"@[0]);
        },
        DataTypes::Content => {
            reveal_strlit("Content");
            assert(ascii_lowered("Content"@) =~= "content"@);
            lemma_without_char("content"@, '_');
            assert("content"@[0] != "userids"@[0]);
            assert("content"@[0] != "gettime"@[0]);
            assert("content"@[0] != "enddate"@[0]);
            assert("content"@[0] != "message"@[0]);
            assert("content"@[0] != "matches"@[0]);
            assert("content"@[0] != "omikron"@[0]);
            assert("content"@[0] != "payload"@[0]);
            assert("content"@[0] != "watcher"@[0]);
            assert("content"@[0] != "display"@[0]);
        },
        DataTypes::Offset => {
            reveal_strlit("Offset");
            assert(ascii_lowered("Offset"@) =~= "offset"@);
            lemma_without_char("offset"@, '_');
            assert("offset"@[0] != "iotaid"@[0]);
            assert("offset"@[0] != "userid"@[0]);
            assert("offset"@[0] != "callid"@[0]);
            assert("offset"@[0] != "signed"@[0]);
            assert("offset"@[0] != "result"@[0]);
            assert("offset"@[0] != "avatar"@[0]);
            assert("offset"@[0] != "status"@[0]);
            assert("offset"@[0] != "subend"@[0]);
        },
        DataTypes::Amount => {
            reveal_strlit("Amount");
            assert(ascii_lowered("Amount"@) =~= "amount"@);
            lemma_without_char("amount"@, '_');
            assert("amount"@[0] != "iotaid"@[0]);
            assert("amount"@[0] != "userid"@[0]);
            assert("amount"@[0] != "callid"@[0]);
            assert("amount"@[0] != "signed"@[0]);
            assert("amount"@[0] != "result"@[0]);
            assert("amount"@[1] != "avatar"@[1]);
            assert("amount"@[0] != "status"@[0]);
            assert("amount"@[0] != "subend"@[0]);
            assert("amount"@[0] != "offset"@[0]);
        },
        DataTypes::SettingsName => {
            reveal_strlit("SettingsName");
            assert(ascii_lowered("SettingsName"@) =~= "settingsname"@);
            lemma_without_char("settingsname"@, '_');
            assert("settingsname"@[0] != "messagechunk"@[0]);
            assert("settingsname"@[1] != "sharedsecret"@[1]);
            assert("settingsname"@[0] != "messagestate"@[0]);
        },
        DataTypes::Settings => {
            reveal_strlit("Settings");
            assert(ascii_lowered("Settings"@) =~= "settings"@);
            lemma_without_char("settings"@, '_');
            assert("settings"@[0] != "accepted"@[0]);
            assert("settings"@[2] != "sendtime"@[2]);
            assert("settings"@[0] != "callname"@[0]);
            assert("settings"@[2] != "senderid"@[2]);
            assert("settings"@[0] != "lastping"@[0]);
            assert("settings"@[0] != "pingiota"@[0]);
            assert("settings"@[0] != "position"@[0]);
            assert("settings"@[0] != "function"@[0]);
            assert("settings"@[0] != "username"@[0]);
            assert("settings"@[1] != "sublevel"@[1]);
        },
    }
}

/// The name a message type is written with (its `Debug` name) is ASCII and
/// reads back as that type.
#[verifier::rlimit(100)]
#[verifier::spinoff_prover]
pub proof fn lemma_comm_type_name_read_back(k: CommunicationType)
    ensures
        vstd::utf8::is_ascii_chars(comm_type_name(k)),
        communication_type_named(ascii_normalized(comm_type_name(k))) == k,
{
    reveal_strlit("error");
    reveal_strlit("success");
    reveal_strlit("message");
    reveal_strlit("messagelive");
    reveal_strlit("messageotheriota");
    reveal_strlit("messagechunk");
    reveal_strlit("messageget");
    reveal_strlit("changeconfirm");
    reveal_strlit("confirmreceive");
    reveal_strlit("confirmread");
    reveal_strlit("getchats");
    reveal_strlit("getstates");
    reveal_strlit("addcommunity");
    reveal_strlit("removecommunity");
    reveal_strlit("getcommunities");
    reveal_strlit("challenge");
    reveal_strlit("challengeresponse");
    reveal_strlit("register");
    reveal_strlit("registerresponse");
    reveal_strlit("identification");
    reveal_strlit("identificationresponse");
    reveal_strlit("ping");
    reveal_strlit("pong");
    reveal_strlit("addchat");
    reveal_strlit("sendchat");
    reveal_strlit("iotaconnected");
    reveal_strlit("iotaclosed");
    reveal_strlit("clientchanged");
    reveal_strlit("clientconnected");
    reveal_strlit("clientclosed");
    reveal_strlit("publickey");
    reveal_strlit("privatekey");
    reveal_strlit("webrtcsdp");
    reveal_strlit("webrtcice");
    reveal_strlit("startstream");
    reveal_strlit("endstream");
    reveal_strlit("watchstream");
    reveal_strlit("getcall");
    reveal_strlit("newcall");
    reveal_strlit("callinvite");
    reveal_strlit("endcall");
    reveal_strlit("function");
    reveal_strlit("update");
    reveal_strlit("messagestate");
    reveal_strlit("messagesend");
    reveal_strlit("addconversation");
    reveal_strlit("settingssave");
    reveal_strlit("settingsload");
    reveal_strlit("settingslist");
    match k {
        CommunicationType::Error => {
            reveal_strlit("Error");
            assert(ascii_lowered("Error"@) =~= "error"@);
            lemma_without_char("error"@, '_');
        },
        CommunicationType::Success => {
            reveal_strlit("Success");
            assert(ascii_lowered("Success"@) =~= "success"@);
            lemma_without_char("success"@, '_');
        },
        CommunicationType::Message => {
            reveal_strlit("Message");
            assert(ascii_lowered("Message"@) =~= "message"@);
            lemma_without_char("message"@, '_');
            assert("message"@[0] != "success"@[0]);
        },
        CommunicationType::MessageLive => {
            reveal_strlit("MessageLive");
            assert(ascii_lowered("MessageLive"@) =~= "messagelive"@);
            lemma_without_char("messagelive"@, '_');
        },
        CommunicationType::MessageOtherIota => {
            reveal_strlit("MessageOtherIota");
            assert(ascii_lowered("MessageOtherIota"@) =~= "messageotheriota"@);
            lemma_without_char("messageotheriota"@, '_');
        },
        CommunicationType::MessageChunk => {
            reveal_strlit("MessageChunk");
            assert(ascii_lowered("MessageChunk"@) =~= "messagechunk"@);
            lemma_without_char("messagechunk"@, '_');
        },
        CommunicationType::MessageGet => {
            reveal_strlit("MessageGet");
            assert(ascii_lowered("MessageGet"@) =~= "messageget"@);
            lemma_without_char("messageget"@, '_');
        },
        CommunicationType::ChangeConfirm => {
            reveal_strlit("ChangeConfirm");
            assert(ascii_lowered("ChangeConfirm"@) =~= "changeconfirm"@);
            lemma_without_char("changeconfirm"@, '_');
        },
        CommunicationType::ConfirmReceive => {
            reveal_strlit("ConfirmReceive");
            assert(ascii_lowered("ConfirmReceive"@) =~= "confirmreceive"@);
            lemma_without_char("confirmreceive"@, '_');
        },
        CommunicationType::ConfirmRead => {
            reveal_strlit("ConfirmRead");
            assert(ascii_lowered("ConfirmRead"@) =~= "confirmread"@);
            lemma_without_char("confirmread"@, '_');
            assert("confirmread"@[0] != "messagelive"@[0]);
        },
        CommunicationType::GetChats => {
            reveal_strlit("GetChats");
            assert(ascii_lowered("GetChats"@) =~= "getchats"@);
            lemma_without_char("getchats"@, '_');
        },
        CommunicationType::GetStates => {
            reveal_strlit("GetStates");
            assert(ascii_lowered("GetStates"@) =~= "getstates"@);
            lemma_without_char("getstates"@, '_');
        },
        CommunicationType::AddCommunity => {
            reveal_strlit("AddCommunity");
            assert(ascii_lowered("AddCommunity"@) =~= "addcommunity"@);
            lemma_without_char("addcommunity"@, '_');
            assert("addcommunity"@[0] != "messagechunk"@[0]);
        },
        CommunicationType::RemoveCommunity => {
            reveal_strlit("RemoveCommunity");
            assert(ascii_lowered("RemoveCommunity"@) =~= "removecommunity"@);
            lemma_without_char("removecommunity"@, '_');
        },
        CommunicationType::GetCommunities => {
            reveal_strlit("GetCommunities");
            assert(ascii_lowered("GetCommunities"@) =~= "getcommunities"@);
            lemma_without_char("getcommunities"@, '_');
            assert("getcommunities"@[0] != "confirmreceive"@[0]);
        },
        CommunicationType::Challenge => {
            reveal_strlit("Challenge");
            assert(ascii_lowered("Challenge"@) =~= "challenge"@);
            lemma_without_char("challenge"@, '_');
            assert("challenge"@[0] != "getstates"@[0]);
        },
        CommunicationType::ChallengeResponse => {
            reveal_strlit("ChallengeResponse");
            assert(ascii_lowered("ChallengeResponse"@) =~= "challengeresponse"@);
            lemma_without_char("challengeresponse"@, '_');
        },
        CommunicationType::Register => {
            reveal_strlit("Register");
            assert(ascii_lowered("Register"@) =~= "register"@);
            lemma_without_char("register"@, '_');
            assert("register"@[0] != "getchats"@[0]);
        },
        CommunicationType::RegisterResponse => {
            reveal_strlit("RegisterResponse");
            assert(ascii_lowered("RegisterResponse"@) =~= "registerresponse"@);
            lemma_without_char("registerresponse"@, '_');
            assert("registerresponse"@[0] != "messageotheriota"@[0]);
        },
        CommunicationType::Identification => {
            reveal_strlit("Identification");
            assert(ascii_lowered("Identification"@) =~= "identification"@);
            lemma_without_char("identification"@, '_');
            assert("identification"@[0] != "confirmreceive"@[0]);
            assert("identification"@[0] != "getcommunities"@[0]);
        },
        CommunicationType::IdentificationResponse => {
            reveal_strlit("IdentificationResponse");
            assert(ascii_lowered("IdentificationResponse"@) =~= "identificationresponse"@);
            lemma_without_char("identificationresponse"@, '_');
        },
        CommunicationType::Ping => {
            reveal_strlit("Ping");
            assert(ascii_lowered("Ping"@) =~= "ping"@);
            lemma_without_char("ping"@, '_');
        },
        CommunicationType::Pong => {
            reveal_strlit("Pong");
            assert(ascii_lowered("Pong"@) =~= "pong"@);
            lemma_without_char("pong"@, '_');
            assert("pong"@[1] != "ping"@[1]);
        },
        CommunicationType::AddChat => {
            reveal_strlit("AddChat");
            assert(ascii_lowered("AddChat"@) =~= "addchat"@);
            lemma_without_char("addchat"@, '_');
            assert("addchat"@[0] != "success"@[0]);
            assert("addchat"@[0] != "message"@[0]);
        },
        CommunicationType::SendChat => {
            reveal_strlit("SendChat");
            assert(ascii_lowered("SendChat"@) =~= "sendchat"@);
            lemma_without_char("sendchat"@, '_');
            assert("sendchat"@[0] != "getchats"@[0]);
            assert("sendchat"@[0] != "register"@[0]);
        },
        CommunicationType::IotaConnected => {
            reveal_strlit("IotaConnected");
            assert(ascii_lowered("IotaConnected"@) =~= "iotaconnected"@);
            lemma_without_char("iotaconnected"@, '_');
            assert("iotaconnected"@[0] != "changeconfirm"@[0]);
        },
        CommunicationType::IotaClosed => {
            reveal_strlit("IotaClosed");
            assert(ascii_lowered("IotaClosed"@) =~= "iotaclosed"@);
            lemma_without_char("iotaclosed"@, '_');
            assert("iotaclosed"@[0] != "messageget"@[0]);
        },
        CommunicationType::ClientChanged => {
            reveal_strlit("ClientChanged");
            assert(ascii_lowered("ClientChanged"@) =~= "clientchanged"@);
            lemma_without_char("clientchanged"@, '_');
            assert("clientchanged"@[1] != "changeconfirm"@[1]);
            assert("clientchanged"@[0] != "iotaconnected"@[0]);
        },
        CommunicationType::ClientConnected => {
            reveal_strlit("ClientConnected");
            assert(ascii_lowered("ClientConnected"@) =~= "clientconnected"@);
            lemma_without_char("clientconnected"@, '_');
            assert("clientconnected"@[0] != "removecommunity"@[0]);
        },
        CommunicationType::ClientClosed => {
            reveal_strlit("ClientClosed");
            assert(ascii_lowered("ClientClosed"@) =~= "clientclosed"@);
            lemma_without_char("clientclosed"@, '_');
            assert("clientclosed"@[0] != "messagechunk"@[0]);
            assert("clientclosed"@[0] != "addcommunity"@[0]);
        },
        CommunicationType::PublicKey => {
            reveal_strlit("PublicKey");
            assert(ascii_lowered("PublicKey"@) =~= "publickey"@);
            lemma_without_char("publickey"@, '_');
            assert("publickey"@[0] != "getstates"@[0]);
            assert("publickey"@[0] != "challenge"@[0]);
        },
        CommunicationType::PrivateKey => {
            reveal_strlit("PrivateKey");
            assert(ascii_lowered("PrivateKey"@) =~= "privatekey"@);
            lemma_without_char("privatekey"@, '_');
            assert("privatekey"@[0] != "messageget"@[0]);
            assert("privatekey"@[0] != "iotaclosed"@[0]);
        },
        CommunicationType::WebrtcSdp => {
            reveal_strlit("WebrtcSdp");
            assert(ascii_lowered("WebrtcSdp"@) =~= "webrtcsdp"@);
            lemma_without_char("webrtcsdp"@, '_');
            assert("webrtcsdp"@[0] != "getstates"@[0]);
            assert("webrtcsdp"@[0] != "challenge"@[0]);
            assert("webrtcsdp"@[0] != "publickey"@[0]);
        },
        CommunicationType::WebrtcIce => {
            reveal_strlit("WebrtcIce");
            assert(ascii_lowered("WebrtcIce"@) =~= "webrtcice"@);
            lemma_without_char("webrtcice"@, '_');
            assert("webrtcice"@[0] != "getstates"@[0]);
            assert("webrtcice"@[0] != "challenge"@[0]);
            assert("webrtcice"@[0] != "publickey"@[0]);
            assert("webrtcice"@[6] != "webrtcsdp"@[6]);
        },
        CommunicationType::StartStream => {
            reveal_strlit("StartStream");
            assert(ascii_lowered("StartStream"@) =~= "startstream"@);
            lemma_without_char("startstream"@, '_');
            assert("startstream"@[0] != "messagelive"@[0]);
            assert("startstream"@[0] != "confirmread"@[0]);
        },
        CommunicationType::EndStream => {
            reveal_strlit("EndStream");
            assert(ascii_lowered("EndStream"@) =~= "endstream"@);
            lemma_without_char("endstream"@, '_');
            assert("endstream"@[0] != "getstates"@[0]);
            assert("endstream"@[0] != "challenge"@[0]);
            assert("endstream"@[0] != "publickey"@[0]);
            assert("endstream"@[0] != "webrtcsdp"@[0]);
            assert("endstream"@[0] != "webrtcice"@[0]);
        },
        CommunicationType::WatchStream => {
            reveal_strlit("WatchStream");
            assert(ascii_lowered("WatchStream"@) =~= "watchstream"@);
            lemma_without_char("watchstream"@, '_');
            assert("watchstream"@[0] != "messagelive"@[0]);
            assert("watchstream"@[0] != "confirmread"@[0]);
            assert("watchstream"@[0] != "startstream"@[0]);
        },
        CommunicationType::GetCall => {
            reveal_strlit("GetCall");
            assert(ascii_lowered("GetCall"@) =~= "getcall"@);
            lemma_without_char("getcall"@, '_');
            assert("getcall"@[0] != "success"@[0]);
            assert("getcall"@[0] != "message"@[0]);
            assert("getcall"@[0] != "addchat"@[0]);
        },
        CommunicationType::NewCall => {
            reveal_strlit("NewCall");
            assert(ascii_lowered("NewCall"@) =~= "newcall"@);
            lemma_without_char("newcall"@, '_');
            assert("newcall"@[0] != "success"@[0]);
            assert("newcall"@[0] != "message"@[0]);
            assert("newcall"@[0] != "addchat"@[0]);
            assert("newcall"@[0] != "getcall"@[0]);
        },
        CommunicationType::CallInvite => {
            reveal_strlit("CallInvite");
            assert(ascii_lowered("CallInvite"@) =~= "callinvite"@);
            lemma_without_char("callinvite"@, '_');
            assert("callinvite"@[0] != "messageget"@[0]);
            assert("callinvite"@[0] != "iotaclosed"@[0]);
            assert("callinvite"@[0] != "privatekey"@[0]);
        },
        CommunicationType::EndCall => {
            reveal_strlit("EndCall");
            assert(ascii_lowered("EndCall"@) =~= "endcall"@);
            lemma_without_char("endcall"@, '_');
            assert("endcall"@[0] != "success"@[0]);
            assert("endcall"@[0] != "message"@[0]);
            assert("endcall"@[0] != "addchat"@[0]);
            assert("endcall"@[0] != "getcall"@[0]);
            assert("endcall"@[0] != "newcall"@[0]);
        },
        CommunicationType::Function => {
            reveal_strlit("Function");
            assert(ascii_lowered("Function"@) =~= "function"@);
            lemma_without_char("function"@, '_');
            assert("function"@[0] != "getchats"@[0]);
            assert("function"@[0] != "register"@[0]);
            assert("function"@[0] != "sendchat"@[0]);
        },
        CommunicationType::Update => {
            reveal_strlit("Update");
            assert(ascii_lowered("Update"@) =~= "update"@);
            lemma_without_char("update"@, '_');
        },
        CommunicationType::MessageState => {
            reveal_strlit("MessageState");
            assert(ascii_lowered("MessageState"@) =~= "messagestate"@);
            lemma_without_char("messagestate"@, '_');
            assert("messagestate"@[7] != "messagechunk"@[7]);
            assert("messagestate"@[0] != "addcommunity"@[0]);
            assert("messagestate"@[0] != "clientclosed"@[0]);
        },
        CommunicationType::MessageSend => {
            reveal_strlit("MessageSend");
            assert(ascii_lowered("MessageSend"@) =~= "messagesend"@);
            lemma_without_char("messagesend"@, '_');
            assert("messagesend"@[7] != "messagelive"@[7]);
            assert("messagesend"@[0] != "confirmread"@[0]);
            assert("messagesend"@[0] != "startstream"@[0]);
            assert("messagesend"@[0] != "watchstream"@[0]);
        },
        CommunicationType::AddConversation => {
            reveal_strlit("AddConversation");
            assert(ascii_lowered("AddConversation"@) =~= "addconversation"@);
            lemma_without_char("addconversation"@, '_');
            assert("addconversation"@[0] != "removecommunity"@[0]);
            assert("addconversation"@[0] != "clientconnected"@[0]);
        },
        CommunicationType::SettingsSave => {
            reveal_strlit("SettingsSave");
            assert(ascii_lowered("SettingsSave"@) =~= "settingssave"@);
            lemma_without_char("settingssave"@, '_');
            assert("settingssave"@[0] != "messagechunk"@[0]);
            assert("settingssave"@[0] != "addcommunity"@[0]);
            assert("settingssave"@[0] != "clientclosed"@[0]);
            assert("settingssave"@[0] != "messagestate"@[0]);
        },
        CommunicationType::SettingsLoad => {
            reveal_strlit("SettingsLoad");
            assert(ascii_lowered("SettingsLoad"@) =~= "settingsload"@);
            lemma_without_char("settingsload"@, '_');
            assert("settingsload"@[0] != "messagechunk"@[0]);
            assert("settingsload"@[0] != "addcommunity"@[0]);
            assert("settingsload"@[0] != "clientclosed"@[0]);
            assert("settingsload"@[0] != "messagestate"@[0]);
            assert("settingsload"@[8] != "settingssave"@[8]);
        },
        CommunicationType::SettingsList => {
            reveal_strlit("SettingsList");
            assert(ascii_lowered("SettingsList"@) =~= "settingslist"@);
            lemma_without_char("settingslist"@, '_');
            assert("settingslist"@[0] != "messagechunk"@[0]);
            assert("settingslist"@[0] != "addcommunity"@[0]);
            assert("settingslist"@[0] != "clientclosed"@[0]);
            assert("settingslist"@[0] != "messagestate"@[0]);
            assert("settingslist"@[8] != "settingssave"@[8]);
            assert("settingslist"@[9] != "settingsload"@[9]);
        },
    }
}

} // verus!
