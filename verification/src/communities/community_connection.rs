//! A client's connection to a community: the steps of its handshake and
//! which messages it answers.
use crate::crypto::{
    aes_gcm_decrypt, aes_gcm_encrypt, aes_gcm_opened, aes_gcm_sealed, base64_bytes, base64_decode, base64_encode,
    base64_text, hkdf_sha256, hkdf_sha256_expand, is_alphanumeric, random_alphanumeric, random_bytes, utf8_text,
    x448_diffie_hellman, x448_low_order, x448_shared, x448_valid_public,
};
use crate::data::communication::CommunicationType;
use crate::text::{parse_i64, parse_i64_spec, str_eq};
use vstd::utf8::{decode_utf8, encode_utf8, valid_utf8};
use vstd::prelude::*;

verus! {

/// How far a connection's handshake has come: the user it claims, whether
/// it identified itself and answered the challenge, the challenge sent to
/// it, and the last ping it reported.
#[derive(Debug)]
pub struct ConnectionAuth {
    user_id: i64,
    identified: bool,
    challenged: bool,
    challenge: String,
    ping: i64,
}

/// The handshake state as plain values.
pub struct AuthModel {
    pub user_id: i64,
    pub identified: bool,
    pub challenged: bool,
    pub challenge: Seq<char>,
    pub ping: i64,
}

impl View for ConnectionAuth {
    type V = AuthModel;

    closed spec fn view(&self) -> AuthModel {
        AuthModel {
            user_id: self.user_id,
            identified: self.identified,
            challenged: self.challenged,
            challenge: self.challenge@,
            ping: self.ping,
        }
    }
}

/// What a message received on the connection leads to.
#[derive(Debug, Clone, Copy, PartialEq, Eq, Structural)]
pub enum MessageRoute {
    Identify,
    ChallengeResponse,
    Ping,
    Function,
    Ignore,
}

/// The outcome of checking a challenge answer.
#[derive(Debug, Clone, Copy, PartialEq, Eq, Structural)]
pub enum ChallengeOutcome {
    /// The answer cannot be read, or a part needed to read it is missing:
    /// an error answer.
    Invalid,
    /// The answer differs: an error answer, then the connection closes.
    Mismatch,
    /// The answer matches but no user is known: an error answer.
    NoUser,
    /// The answer matches: the connection joins the community.
    Accepted,
}

/// Whether both handshake steps are done.
pub open spec fn fully_identified(m: AuthModel) -> bool {
    m.identified && m.challenged
}

/// What a message of type `t` leads to: until the handshake is done only
/// its two steps count; after it pings and function calls do.
pub open spec fn route_of(m: AuthModel, t: CommunicationType) -> MessageRoute {
    if t == CommunicationType::Identification && !fully_identified(m) {
        MessageRoute::Identify
    } else if t == CommunicationType::ChallengeResponse && !fully_identified(m) {
        MessageRoute::ChallengeResponse
    } else if !fully_identified(m) {
        MessageRoute::Ignore
    } else if t == CommunicationType::Ping {
        MessageRoute::Ping
    } else if t == CommunicationType::Function {
        MessageRoute::Function
    } else {
        MessageRoute::Ignore
    }
}

impl ConnectionAuth {
    /// A connection that has done nothing yet: no user, no ping reported.
    pub fn new() -> (r: Self)
        ensures
            r@ == (AuthModel {
                user_id: 0,
                identified: false,
                challenged: false,
                challenge: Seq::empty(),
                ping: -1i64,
            }),
    {
        ConnectionAuth { user_id: 0, identified: false, challenged: false, challenge: String::new(), ping: -1 }
    }

    /// Whether both handshake steps are done.
    pub fn is_identified(&self) -> (r: bool)
        ensures
            r == fully_identified(self@),
    {
        self.identified && self.challenged
    }

    /// The user the connection claims.
    pub fn get_user_id(&self) -> (r: i64)
        ensures
            r == self@.user_id,
    {
        self.user_id
    }

    /// The last ping the client reported, -1 before any.
    pub fn get_ping(&self) -> (r: i64)
        ensures
            r == self@.ping,
    {
        self.ping
    }

    /// What a message of type `t` leads to.
    pub fn route(&self, t: CommunicationType) -> (r: MessageRoute)
        ensures
            r == route_of(self@, t),
    {
        let done = self.is_identified();
        if t == CommunicationType::Identification && !done {
            MessageRoute::Identify
        } else if t == CommunicationType::ChallengeResponse && !done {
            MessageRoute::ChallengeResponse
        } else if !done {
            MessageRoute::Ignore
        } else if t == CommunicationType::Ping {
            MessageRoute::Ping
        } else if t == CommunicationType::Function {
            MessageRoute::Function
        } else {
            MessageRoute::Ignore
        }
    }

    /// The first step: the connection claims `user_id` and is sent
    /// `challenge`.
    pub fn identify(&mut self, user_id: i64, challenge: String)
        ensures
            final(self)@ == (AuthModel {
                user_id,
                identified: true,
                challenge: challenge@,
                ..old(self)@
            }),
    {
        self.user_id = user_id;
        self.identified = true;
        self.challenge = challenge;
    }

    /// The second step on the text an answer opened to (the opening itself
    /// is `handle_challenge_response`'s): a text other than the challenge is
    /// refused; the challenge completes the handshake, which joins the
    /// community unless no user is claimed.
    pub fn answer_challenge(&mut self, response: &str) -> (r: ChallengeOutcome)
        ensures
            r == if response@ != old(self)@.challenge {
                ChallengeOutcome::Mismatch
            } else if old(self)@.user_id == 0 {
                ChallengeOutcome::NoUser
            } else {
                ChallengeOutcome::Accepted
            },
            final(self)@ == if response@ != old(self)@.challenge {
                old(self)@
            } else {
                AuthModel { challenged: true, ..old(self)@ }
            },
    {
        if !str_eq(response, self.challenge.as_str()) {
            return ChallengeOutcome::Mismatch;
        }
        self.challenged = true;
        if self.user_id == 0 {
            ChallengeOutcome::NoUser
        } else {
            ChallengeOutcome::Accepted
        }
    }

    /// Records the ping a client reported, when its text is a number.
    pub fn on_ping(&mut self, last_ping: Option<&str>)
        ensures
            final(self)@ == match last_ping {
                Some(t) => match parse_i64_spec(t@) {
                    Some(v) => AuthModel { ping: v, ..old(self)@ },
                    None => old(self)@,
                },
                None => old(self)@,
            },
    {
        if let Some(t) = last_ping {
            if let Some(v) = parse_i64(t) {
                self.ping = v;
            }
        }
    }

    /// The identification step for `user_id`, whose stored public key is
    /// `user_public_b64` (`None` when no such user is hosted), in a community
    /// with the x448 key pair `community_keys` (`None` without a community).
    /// Unless no user is hosted, the connection claims the user and is given
    /// a fresh challenge of 32 random letters and digits; the answer holds
    /// the community's public key and the challenge sealed under a fresh
    /// random nonce (see `challenge_offer`). `None` asks for an error answer.
    pub fn handle_identification(
        &mut self,
        user_id: i64,
        user_public_b64: Option<&str>,
        community_keys: Option<(&[u8], &[u8])>,
    ) -> (r: Option<(String, String)>)
        requires
            community_keys matches Some(k) ==> k.1@.len() <= usize::MAX / 2,
        ensures
            user_public_b64 is None ==> r is None && final(self)@ == old(self)@,
            user_public_b64 matches Some(t) ==> exists|challenge: Seq<char>, nonce: Seq<u8>|
                #![trigger identified_with(final(self)@, old(self)@, user_id, challenge, nonce)]
                identified_with(final(self)@, old(self)@, user_id, challenge, nonce) && texts_view(r)
                    == match (community_keys, base64_bytes(t@)) {
                    (Some(k), Some(p)) => challenge_offer(p, k.0@, k.1@, challenge, nonce),
                    _ => None,
                },
    {
        let user_public_b64 = match user_public_b64 {
            Some(t) => t,
            None => return None,
        };
        let challenge = random_alphanumeric(32);
        proof {
            assert(vstd::utf8::is_ascii_chars(challenge@));
            vstd::utf8::is_ascii_chars_encode_utf8(challenge@);
        }
        let nonce = random_bytes(12);
        let ghost (ch, nc) = (challenge@, nonce@);
        let offer = match community_keys {
            Some((secret, public)) => seal_challenge(
                user_public_b64,
                secret,
                public,
                challenge.as_str(),
                nonce.as_slice(),
            ),
            None => None,
        };
        self.user_id = user_id;
        self.identified = true;
        self.challenge = challenge;
        assert(identified_with(self@, old(self)@, user_id, ch, nc));
        offer
    }

    /// The challenge step: checks the answer (base64 text) with the public
    /// key of the user the connection claims (base64 text, `None` when none
    /// is known) and the community's x448 secret key (`None` without a
    /// community), then goes on as `answer_challenge` does with what it opens
    /// to. An answer that cannot be read, or a missing part, asks for an
    /// error answer and changes nothing.
    pub fn handle_challenge_response(
        &mut self,
        answer_b64: Option<&str>,
        user_public_b64: Option<&str>,
        community_secret: Option<&[u8]>,
    ) -> (r: ChallengeOutcome)
        ensures
            (final(self)@, r) == match (answer_b64, user_public_b64, community_secret) {
                (Some(a), Some(p), Some(s)) => challenge_reply(
                    old(self)@,
                    challenge_check(base64_bytes(a@), base64_bytes(p@), s@, old(self)@.challenge),
                ),
                _ => (old(self)@, ChallengeOutcome::Invalid),
            },
    {
        match (answer_b64, user_public_b64, community_secret) {
            (Some(a), Some(p), Some(s)) => {
                let check = check_challenge_response(a, p, s, self.challenge.as_str());
                match check {
                    ChallengeCheck::Invalid => ChallengeOutcome::Invalid,
                    ChallengeCheck::Mismatch => ChallengeOutcome::Mismatch,
                    ChallengeCheck::Matches => {
                        self.challenged = true;
                        if self.user_id == 0 {
                            ChallengeOutcome::NoUser
                        } else {
                            ChallengeOutcome::Accepted
                        }
                    },
                }
            },
            _ => ChallengeOutcome::Invalid,
        }
    }

    /// Whether closing the connection takes it out of its community: only a
    /// fully identified connection of a known user was added.
    pub fn leaves_community(&self) -> (r: bool)
        ensures
            r == (fully_identified(self@) && self@.user_id != 0),
    {
        self.is_identified() && self.user_id != 0
    }
}

/// The nonce and the sealed text of an encrypted answer: the first twelve
/// bytes and the rest; `None` when it is shorter.
pub fn split_nonce(bytes: &Vec<u8>) -> (r: Option<(Vec<u8>, Vec<u8>)>)
    ensures
        match r {
            Some((n, c)) => bytes@.len() >= 12 && n@ == bytes@.take(12) && c@ == bytes@.skip(12),
            None => bytes@.len() < 12,
        },
{
    if bytes.len() < 12 {
        return None;
    }
    let mut nonce: Vec<u8> = Vec::new();
    let mut rest: Vec<u8> = Vec::new();
    let mut i: usize = 0;
    while i < bytes.len()
        invariant
            12 <= bytes@.len(),
            i <= bytes@.len(),
            nonce@ == bytes@.take(if i < 12 { i as int } else { 12 }),
            rest@ == if i <= 12 { Seq::<u8>::empty() } else { bytes@.subrange(12, i as int) },
        decreases bytes.len() - i,
    {
        if i < 12 {
            nonce.push(bytes[i]);
            assert(nonce@ =~= bytes@.take(i + 1));
        } else {
            rest.push(bytes[i]);
            assert(rest@ =~= bytes@.subrange(12, i + 1));
        }
        i = i + 1;
    }
    assert(rest@ =~= bytes@.skip(12));
    Some((nonce, rest))
}

/// What a challenge answer comes to.
#[derive(Debug, Clone, Copy, PartialEq, Eq, Structural)]
pub enum ChallengeCheck {
    /// The answer cannot be read: it or the user's key is no base64, it is
    /// shorter than a nonce, the key is no x448 public key, no shared secret
    /// results, the sealed text does not open, or it opens to no UTF-8.
    Invalid,
    /// The answer opens to a text other than the challenge.
    Mismatch,
    /// The answer opens to the challenge.
    Matches,
}

/// The AES key both sides derive from their shared secret: 32 bytes of
/// HKDF-SHA-256 with the context `challenge`.
pub open spec fn challenge_key(shared: Seq<u8>) -> Seq<u8> {
    hkdf_sha256(shared, encode_utf8("challenge"@), 32)
}

/// What the opened bytes of an answer come to, against the challenge.
pub open spec fn verdict(opened: Option<Seq<u8>>, expected: Seq<char>) -> ChallengeCheck {
    match opened {
        None => ChallengeCheck::Invalid,
        Some(b) => if !valid_utf8(b) {
            ChallengeCheck::Invalid
        } else if decode_utf8(b) == expected {
            ChallengeCheck::Matches
        } else {
            ChallengeCheck::Mismatch
        },
    }
}

/// Whether bytes are an x448 public key x448 accepts.
pub open spec fn valid_public(p: Seq<u8>) -> bool {
    p.len() == 56 && !x448_low_order(p)
}

/// What an answer comes to: the answer's bytes are a 12-byte nonce and the
/// sealed text, opened with the key derived from the x448 secret the
/// community and the user's public key share.
pub open spec fn challenge_check(
    answer: Option<Seq<u8>>,
    user_public: Option<Seq<u8>>,
    community_secret: Seq<u8>,
    expected: Seq<char>,
) -> ChallengeCheck {
    match (answer, user_public) {
        (Some(a), Some(p)) => if a.len() < 12 || !valid_public(p) || community_secret.len() != 56 {
            ChallengeCheck::Invalid
        } else {
            verdict(
                aes_gcm_opened(challenge_key(x448_shared(community_secret, p)), a.take(12), a.skip(12)),
                expected,
            )
        },
        _ => ChallengeCheck::Invalid,
    }
}

/// What the opened bytes of an answer come to, against the challenge sent.
pub fn challenge_verdict(opened: Option<Vec<u8>>, expected: &str) -> (r: ChallengeCheck)
    ensures
        r == verdict(
            match opened {
                Some(b) => Some(b@),
                None => None,
            },
            expected@,
        ),
{
    match opened {
        None => ChallengeCheck::Invalid,
        Some(b) => match utf8_text(b) {
            None => ChallengeCheck::Invalid,
            Some(s) => if str_eq(s.as_str(), expected) {
                ChallengeCheck::Matches
            } else {
                ChallengeCheck::Mismatch
            },
        },
    }
}

/// Checks a challenge answer given as base64 text against the challenge
/// sent, with the user's public key (base64 text) and the community's x448
/// secret key.
pub fn check_challenge_response(
    answer_b64: &str,
    user_public_b64: &str,
    community_secret: &[u8],
    expected: &str,
) -> (r: ChallengeCheck)
    ensures
        r == challenge_check(base64_bytes(answer_b64@), base64_bytes(user_public_b64@), community_secret@, expected@),
{
    let answer = match base64_decode(answer_b64) {
        Some(a) => a,
        None => return ChallengeCheck::Invalid,
    };
    let (nonce, sealed) = match split_nonce(&answer) {
        Some(parts) => parts,
        None => return ChallengeCheck::Invalid,
    };
    let public = match base64_decode(user_public_b64) {
        Some(p) => p,
        None => return ChallengeCheck::Invalid,
    };
    if !x448_valid_public(public.as_slice()) {
        return ChallengeCheck::Invalid;
    }
    let shared = match x448_diffie_hellman(community_secret, public.as_slice()) {
        Some(k) => k,
        None => return ChallengeCheck::Invalid,
    };
    let key = hkdf_sha256_expand(shared.as_slice(), "challenge".as_bytes(), 32);
    let opened = aes_gcm_decrypt(key.as_slice(), nonce.as_slice(), sealed.as_slice());
    challenge_verdict(opened, expected)
}

/// The longest sealed challenge, in bytes, whose base64 text is made.
pub open spec fn sealable(challenge: Seq<char>) -> bool {
    encode_utf8(challenge).len() + 28 <= usize::MAX / 2
}

/// What the identification step sends: the community's public key and the
/// nonce followed by the sealed challenge, both as base64 text; `None` when
/// the user's key is no x448 public key, the community's secret is no x448
/// secret, or the challenge is too long to seal.
pub open spec fn challenge_offer(
    user_public: Seq<u8>,
    community_secret: Seq<u8>,
    community_public: Seq<u8>,
    challenge: Seq<char>,
    nonce: Seq<u8>,
) -> Option<(Seq<char>, Seq<char>)> {
    if !valid_public(user_public) || community_secret.len() != 56 || encode_utf8(challenge).len()
        > 0x10_0000_0000 {
        None
    } else {
        Some(
            (
                base64_text(community_public),
                base64_text(
                    nonce + aes_gcm_sealed(
                        challenge_key(x448_shared(community_secret, user_public)),
                        nonce,
                        encode_utf8(challenge),
                    ),
                ),
            ),
        )
    }
}

/// The views of an optional pair of texts.
pub open spec fn texts_view(r: Option<(String, String)>) -> Option<(Seq<char>, Seq<char>)> {
    match r {
        Some((a, b)) => Some((a@, b@)),
        None => None,
    }
}

/// Seals `challenge` for the user whose public key is `user_public_b64`
/// (base64 text), with the community's key pair and a 12-byte nonce.
pub fn seal_challenge(
    user_public_b64: &str,
    community_secret: &[u8],
    community_public: &[u8],
    challenge: &str,
    nonce: &[u8],
) -> (r: Option<(String, String)>)
    requires
        nonce@.len() == 12,
        community_public@.len() <= usize::MAX / 2,
        sealable(challenge@),
    ensures
        texts_view(r) == match base64_bytes(user_public_b64@) {
            Some(p) => challenge_offer(p, community_secret@, community_public@, challenge@, nonce@),
            None => None,
        },
{
    let public = match base64_decode(user_public_b64) {
        Some(p) => p,
        None => return None,
    };
    if !x448_valid_public(public.as_slice()) {
        return None;
    }
    let shared = match x448_diffie_hellman(community_secret, public.as_slice()) {
        Some(k) => k,
        None => return None,
    };
    let key = hkdf_sha256_expand(shared.as_slice(), "challenge".as_bytes(), 32);
    let mut sealed = match aes_gcm_encrypt(key.as_slice(), nonce, challenge.as_bytes()) {
        Some(c) => c,
        None => return None,
    };
    let mut out = vstd::slice::slice_to_vec(nonce);
    out.append(&mut sealed);
    let offered = base64_encode(out.as_slice());
    Some((base64_encode(community_public), offered))
}

/// The state after the identification step with a challenge of 32 random
/// letters and digits and a 12-byte nonce.
pub open spec fn identified_with(after: AuthModel, before: AuthModel, user_id: i64, challenge: Seq<char>, nonce: Seq<u8>) -> bool {
    &&& challenge.len() == 32
    &&& forall|i: int| 0 <= i < 32 ==> is_alphanumeric(#[trigger] challenge[i])
    &&& nonce.len() == 12
    &&& after == (AuthModel { user_id, identified: true, challenge, ..before })
}

/// The state and outcome after a checked challenge answer.
pub open spec fn challenge_reply(m: AuthModel, check: ChallengeCheck) -> (AuthModel, ChallengeOutcome) {
    match check {
        ChallengeCheck::Invalid => (m, ChallengeOutcome::Invalid),
        ChallengeCheck::Mismatch => (m, ChallengeOutcome::Mismatch),
        ChallengeCheck::Matches => (
            AuthModel { challenged: true, ..m },
            if m.user_id == 0 { ChallengeOutcome::NoUser } else { ChallengeOutcome::Accepted },
        ),
    }
}

/// Before the handshake is done, only its two steps are answered.
pub proof fn lemma_unidentified_only_handshake(m: AuthModel, t: CommunicationType)
    requires
        !fully_identified(m),
    ensures
        route_of(m, t) == MessageRoute::Identify || route_of(m, t) == MessageRoute::ChallengeResponse
            || route_of(m, t) == MessageRoute::Ignore,
{
}

} // verus!
