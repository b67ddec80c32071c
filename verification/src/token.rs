//! Token requests: who asks to join which room, and what they may do there.

use vstd::prelude::*;
use vstd::std_specs::convert::TryFromSpecImpl;
use vstd::string::StringExecFns;

verus! {

/// What a peer does in a room.
#[derive(Clone, Copy, Debug, PartialEq, Eq, Structural)]
pub enum PeerRole {
    Publisher,
    Subscriber,
}

/// A request for a token.
#[derive(Debug)]
pub struct TokenRequest {
    pub identity: String,
    pub name: Option<String>,
    pub room_id: String,
    pub role: PeerRole,
}

/// The answer to a token request.
#[derive(Debug)]
pub struct TokenResponse {
    pub token: String,
}

/// What a token allows its bearer to do.
#[derive(Debug)]
pub struct VideoGrants {
    pub room_join: bool,
    pub room: String,
    pub can_publish: bool,
    pub can_subscribe: bool,
}

/// What goes into a token: who the bearer is and what they may do.
#[derive(Debug)]
pub struct TokenClaims {
    pub identity: String,
    pub name: String,
    pub grants: VideoGrants,
}

/// The key pair under which tokens are issued.
#[derive(Debug)]
pub struct AppState {
    api_key: String,
    api_secret: String,
}

/// The name of `role` on the wire.
pub open spec fn role_name(role: PeerRole) -> Seq<char> {
    match role {
        PeerRole::Publisher => "PUBLISHER"@,
        PeerRole::Subscriber => "SUBSCRIBER"@,
    }
}

/// The role that `name` names on the wire, if it names one.
pub open spec fn role_named(name: Seq<char>) -> Result<PeerRole, ()> {
    if name == "PUBLISHER"@ {
        Ok(PeerRole::Publisher)
    } else if name == "SUBSCRIBER"@ {
        Ok(PeerRole::Subscriber)
    } else {
        Err(())
    }
}

fn same_text(a: &str, b: &str) -> (same: bool)
    ensures
        same == (a@ == b@),
{
    a.to_owned() == b.to_owned()
}

impl PeerRole {
    pub fn can_publish(&self) -> (allowed: bool)
        ensures
            allowed == (*self == PeerRole::Publisher),
    {
        *self == PeerRole::Publisher
    }

    pub fn can_subscribe(&self) -> (allowed: bool)
        ensures
            allowed == (*self == PeerRole::Subscriber),
    {
        *self == PeerRole::Subscriber
    }

    /// What to tell someone who sent a role that is none.
    pub fn expected_value_message() -> (message: &'static str)
        ensures
            message@ == "a valid peer role: \"PUBLISHER\" or \"SUBSCRIBER\""@,
    {
        "a valid peer role: \"PUBLISHER\" or \"SUBSCRIBER\""
    }

    /// The role's name on the wire.
    pub fn to_string(&self) -> (name: String)
        ensures
            name@ == role_name(*self),
    {
        match self {
            PeerRole::Publisher => String::from_str("PUBLISHER"),
            PeerRole::Subscriber => String::from_str("SUBSCRIBER"),
        }
    }
}

impl<'a> TryFrom<&'a str> for PeerRole {
    type Error = ();

    fn try_from(value: &'a str) -> (role: Result<Self, ()>) {
        if same_text(value, "PUBLISHER") {
            Ok(PeerRole::Publisher)
        } else if same_text(value, "SUBSCRIBER") {
            Ok(PeerRole::Subscriber)
        } else {
            Err(())
        }
    }
}

impl<'a> TryFromSpecImpl<&'a str> for PeerRole {
    open spec fn obeys_try_from_spec() -> bool {
        true
    }

    open spec fn try_from_spec(value: &'a str) -> Result<Self, ()> {
        role_named(value@)
    }
}

/// A role's name on the wire names that role, and the two names differ.
pub proof fn lemma_role_name_round_trip(role: PeerRole)
    ensures
        role_named(role_name(role)) == Ok::<PeerRole, ()>(role),
        role_name(PeerRole::Publisher) != role_name(PeerRole::Subscriber),
{
    reveal_strlit("PUBLISHER");
    reveal_strlit("SUBSCRIBER");
    assert("PUBLISHER"@.len() == 9);
    assert("SUBSCRIBER"@.len() == 10);
}

impl TokenRequest {
    /// The name to show for the bearer: the one given, else the identity.
    pub open spec fn shown_name(&self) -> Seq<char> {
        match self.name {
            Some(name) => name@,
            None => self.identity@,
        }
    }

    /// What a token for this request holds. The bearer may join the room
    /// asked for, and there either publish or subscribe, by role.
    pub fn claims(&self) -> (claims: TokenClaims)
        ensures
            claims.identity@ == self.identity@,
            claims.name@ == self.shown_name(),
            claims.grants.room_join,
            claims.grants.room@ == self.room_id@,
            claims.grants.can_publish == (self.role == PeerRole::Publisher),
            claims.grants.can_subscribe == (self.role == PeerRole::Subscriber),
    {
        let name = match &self.name {
            Some(name) => name.clone(),
            None => self.identity.clone(),
        };
        TokenClaims {
            identity: self.identity.clone(),
            name,
            grants: VideoGrants {
                room_join: true,
                room: self.room_id.clone(),
                can_publish: self.role.can_publish(),
                can_subscribe: self.role.can_subscribe(),
            },
        }
    }
}

impl Clone for AppState {
    fn clone(&self) -> (state: Self)
        ensures
            state.key() == self.key(),
            state.secret() == self.secret(),
    {
        AppState { api_key: self.api_key.clone(), api_secret: self.api_secret.clone() }
    }
}

impl AppState {
    /// The key as contracts see it.
    pub closed spec fn key(&self) -> Seq<char> {
        self.api_key@
    }

    /// The secret as contracts see it.
    pub closed spec fn secret(&self) -> Seq<char> {
        self.api_secret@
    }

    pub fn new(api_key: String, api_secret: String) -> (state: Self)
        ensures
            state.key() == api_key@,
            state.secret() == api_secret@,
    {
        AppState { api_key, api_secret }
    }

    pub fn api_key(&self) -> (key: &str)
        ensures
            key@ == self.key(),
    {
        self.api_key.as_str()
    }

    pub fn api_secret(&self) -> (secret: &str)
        ensures
            secret@ == self.secret(),
    {
        self.api_secret.as_str()
    }
}

} // verus!
