//! Voice chats: the state of a user in a call.
use vstd::prelude::*;

verus! {

/// What a user in a call does with their microphone and speakers.
#[derive(Debug, Clone, Copy, PartialEq, Eq, Structural)]
pub enum CallUserState {
    Active,
    Muted,
    Deafed,
}

/// The name a call state is sent as.
pub open spec fn call_state_name(s: CallUserState) -> Seq<char> {
    match s {
        CallUserState::Active => "active"@,
        CallUserState::Muted => "muted"@,
        CallUserState::Deafed => "deafed"@,
    }
}

/// The state a name denotes; any unknown name counts as active.
pub open spec fn call_state_of(n: Seq<char>) -> CallUserState {
    if n == "muted"@ {
        CallUserState::Muted
    } else if n == "deafed"@ {
        CallUserState::Deafed
    } else {
        CallUserState::Active
    }
}

impl CallUserState {
    /// The state named `state`; `Active` for any other text.
    pub fn parse(state: &str) -> (r: CallUserState)
        ensures
            r == call_state_of(state@),
    {
        proof {
            lemma_call_state_names_differ();
        }
        if crate::text::str_eq(state, "active") {
            CallUserState::Active
        } else if crate::text::str_eq(state, "muted") {
            CallUserState::Muted
        } else if crate::text::str_eq(state, "deafed") {
            CallUserState::Deafed
        } else {
            CallUserState::Active
        }
    }

    /// The name of the state.
    pub fn to_string(&self) -> (r: String)
        ensures
            r@ == call_state_name(*self),
    {
        match self {
            CallUserState::Active => String::from_str("active"),
            CallUserState::Muted => String::from_str("muted"),
            CallUserState::Deafed => String::from_str("deafed"),
        }
    }
}

/// Every state is read back from its name.
pub proof fn lemma_call_state_round_trip(s: CallUserState)
    ensures
        call_state_of(call_state_name(s)) == s,
{
    lemma_call_state_names_differ();
}

proof fn lemma_call_state_names_differ()
    ensures
        "active"@ != "muted"@,
        "active"@ != "deafed"@,
        "muted"@ != "deafed"@,
{
    reveal_strlit("active");
    reveal_strlit("muted");
    reveal_strlit("deafed");
    assert("active"@[0] != "muted"@[0]);
    assert("active"@[0] != "deafed"@[0]);
    assert("muted"@[0] != "deafed"@[0]);
}


/// A user in a call: its id, its state and whether it streams.
#[derive(Debug, Clone, Copy, PartialEq, Eq, Structural)]
pub struct CallUser {
    pub user_id: u128,
    pub user_state: CallUserState,
    pub streaming: bool,
}

/// A voice chat: its name, its path and the users in its call.
#[derive(Debug)]
pub struct VoiceChat {
    pub name: String,
    pub path: String,
    pub users: Vec<CallUser>,
}

/// The position of the first user with `user_id` at or after `i`.
pub open spec fn first_user(users: Seq<CallUser>, user_id: u128, i: int) -> Option<int>
    decreases users.len() - i,
{
    if i < 0 || i >= users.len() {
        None
    } else if users[i].user_id == user_id {
        Some(i)
    } else {
        first_user(users, user_id, i + 1)
    }
}

/// The users after the first one with `user_id` took the new state.
pub open spec fn with_user_state(users: Seq<CallUser>, user_id: u128, state: CallUserState, streaming: bool) -> Seq<
    CallUser,
> {
    match first_user(users, user_id, 0) {
        Some(i) => users.update(i, CallUser { user_id, user_state: state, streaming }),
        None => users,
    }
}

impl VoiceChat {
    /// A voice chat without name, path or users.
    pub fn new() -> (r: VoiceChat)
        ensures
            r.name@.len() == 0,
            r.path@.len() == 0,
            r.users@.len() == 0,
    {
        VoiceChat { name: String::new(), path: String::new(), users: Vec::new() }
    }

    /// Sets the state of the first user in the call with `user_id`; nothing
    /// changes when no user has it.
    pub fn update_user_state(&mut self, user_id: u128, state: CallUserState, streaming: bool)
        ensures
            final(self).users@ == with_user_state(old(self).users@, user_id, state, streaming),
            final(self).name@ == old(self).name@,
            final(self).path@ == old(self).path@,
    {
        let mut i: usize = 0;
        while i < self.users.len()
            invariant
                i <= self.users@.len(),
                self.users@ == old(self).users@,
                self.name@ == old(self).name@,
                self.path@ == old(self).path@,
                first_user(self.users@, user_id, 0) == first_user(self.users@, user_id, i as int),
            decreases self.users@.len() - i,
        {
            if self.users[i].user_id == user_id {
                self.users.set(i, CallUser { user_id, user_state: state, streaming });
                return;
            }
            i = i + 1;
        }
    }
}

} // verus!
