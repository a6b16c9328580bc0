//! A websocket session: which route it serves and when it is idle.
use crate::clock::unix_now_millis;
use crate::text::{has_prefix, matches_at, split_char, split_on_char, views};
use vstd::prelude::*;

verus! {

/// A session closes when nothing came in for this many milliseconds.
pub const IDLE_TIMEOUT_MS: u128 = 30000;

/// A text to send to the peer of a session.
pub struct WsSendMessage(pub String);

/// A websocket session: the request path and the time (UNIX milliseconds)
/// something last came in.
#[derive(Debug)]
pub struct WsSession {
    path: String,
    last_heartbeat: u128,
}

/// What a session path asks for.
#[derive(Debug, PartialEq, Eq)]
pub enum SessionRoute {
    /// A path under `/ws/users/`.
    Users,
    /// A path under `/ws/community/`, with the community id: the fourth
    /// `/`-separated piece of the path, empty when there is none.
    Community(String),
    /// Any other path.
    Other,
}

/// What came in on a session.
#[derive(Debug, Clone, Copy, PartialEq, Eq, Structural)]
pub enum WsEvent {
    Ping,
    Pong,
    Text,
    Close,
    Binary,
    Error,
}

/// What the session does in reply.
#[derive(Debug, Clone, Copy, PartialEq, Eq, Structural)]
pub enum WsReply {
    /// Answer a ping with a pong carrying the same bytes.
    Pong,
    /// Nothing to send.
    Nothing,
    /// Close the socket with the peer's reason, then stop.
    Close,
    /// Stop the session.
    Stop,
}

/// What a heartbeat tick does.
#[derive(Debug, Clone, Copy, PartialEq, Eq, Structural)]
pub enum Heartbeat {
    /// Close and stop the idle session.
    CloseIdle,
    /// Send a ping message.
    SendPing,
}

/// The piece at `n` of the `/`-separated path, empty when there is none.
pub open spec fn path_piece(path: Seq<char>, n: int) -> Seq<char> {
    let pieces = split_char(path, '/');
    if n < pieces.len() {
        pieces[n]
    } else {
        Seq::empty()
    }
}

/// The route a path names.
pub open spec fn route_of(path: Seq<char>) -> SessionRouteModel {
    if has_prefix(path, "/ws/users/"@) {
        SessionRouteModel::Users
    } else if has_prefix(path, "/ws/community/"@) {
        SessionRouteModel::Community(path_piece(path, 3))
    } else {
        SessionRouteModel::Other
    }
}

/// A route as plain values.
pub enum SessionRouteModel {
    Users,
    Community(Seq<char>),
    Other,
}

/// The model of a route.
pub open spec fn route_model(r: SessionRoute) -> SessionRouteModel {
    match r {
        SessionRoute::Users => SessionRouteModel::Users,
        SessionRoute::Community(id) => SessionRouteModel::Community(id@),
        SessionRoute::Other => SessionRouteModel::Other,
    }
}

/// The reply to an event.
pub open spec fn reply_to(e: WsEvent) -> WsReply {
    match e {
        WsEvent::Ping => WsReply::Pong,
        WsEvent::Pong => WsReply::Nothing,
        WsEvent::Text => WsReply::Nothing,
        WsEvent::Close => WsReply::Close,
        WsEvent::Binary => WsReply::Stop,
        WsEvent::Error => WsReply::Stop,
    }
}

/// Whether an event counts as a sign of life.
pub open spec fn refreshes(e: WsEvent) -> bool {
    e == WsEvent::Ping || e == WsEvent::Pong || e == WsEvent::Text
}

/// Time elapsed from `since` to `now`, zero when `now` is earlier.
pub open spec fn elapsed(since: u128, now: u128) -> int {
    if now >= since {
        now - since
    } else {
        0
    }
}

impl WsSession {
    /// A session for `path` that counts as alive now.
    pub fn new(path: String) -> (r: Self)
        ensures
            r.path_view() == path@,
    {
        Self::new_at(path, unix_now_millis())
    }

    /// A session for `path` that was last alive at `now_ms`.
    pub fn new_at(path: String, now_ms: u128) -> (r: Self)
        ensures
            r.path_view() == path@,
            r.last_heartbeat_ms() == now_ms,
    {
        WsSession { path, last_heartbeat: now_ms }
    }

    /// The request path.
    pub closed spec fn path_view(&self) -> Seq<char> {
        self.path@
    }

    /// When something last came in.
    pub closed spec fn last_heartbeat_ms(&self) -> u128 {
        self.last_heartbeat
    }

    /// The request path.
    pub fn path(&self) -> (r: &str)
        ensures
            r@ == self.path_view(),
    {
        self.path.as_str()
    }

    /// The route the session serves.
    pub fn route(&self) -> (r: SessionRoute)
        ensures
            route_model(r) == route_of(self.path_view()),
    {
        let p = self.path.as_str();
        proof {
            reveal_strlit("/ws/users/");
            reveal_strlit("/ws/community/");
        }
        if matches_at(p, "/ws/users/", 0) {
            SessionRoute::Users
        } else if matches_at(p, "/ws/community/", 0) {
            let pieces = split_on_char(p, '/');
            if pieces.len() > 3 {
                let id = pieces[3].clone();
                assert(views(pieces@)[3] == pieces@[3]@);
                SessionRoute::Community(id)
            } else {
                SessionRoute::Community(String::new())
            }
        } else {
            SessionRoute::Other
        }
    }

    /// What a heartbeat tick at `now_ms` does: close the session when
    /// nothing came in for more than the idle timeout, else send a ping.
    pub fn on_tick(&self, now_ms: u128) -> (r: Heartbeat)
        ensures
            r == (if elapsed(self.last_heartbeat_ms(), now_ms) > IDLE_TIMEOUT_MS {
                Heartbeat::CloseIdle
            } else {
                Heartbeat::SendPing
            }),
    {
        let idle = if now_ms >= self.last_heartbeat {
            now_ms - self.last_heartbeat
        } else {
            0
        };
        if idle > IDLE_TIMEOUT_MS {
            Heartbeat::CloseIdle
        } else {
            Heartbeat::SendPing
        }
    }

    /// Handles an event that came in at `now_ms`: pings, pongs and texts
    /// count as signs of life.
    pub fn on_message(&mut self, event: WsEvent, now_ms: u128) -> (r: WsReply)
        ensures
            r == reply_to(event),
            final(self).path_view() == old(self).path_view(),
            final(self).last_heartbeat_ms() == (if refreshes(event) {
                now_ms
            } else {
                old(self).last_heartbeat_ms()
            }),
    {
        match event {
            WsEvent::Ping => {
                self.last_heartbeat = now_ms;
                WsReply::Pong
            },
            WsEvent::Pong => {
                self.last_heartbeat = now_ms;
                WsReply::Nothing
            },
            WsEvent::Text => {
                self.last_heartbeat = now_ms;
                WsReply::Nothing
            },
            WsEvent::Close => WsReply::Close,
            WsEvent::Binary => WsReply::Stop,
            WsEvent::Error => WsReply::Stop,
        }
    }
}

} // verus!
