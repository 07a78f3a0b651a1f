use super::ids::{
    hyphenated, is_random_uuid_text, is_random_v4, parse_uuid, parsed_uuid, random_uuid_bits,
    random_uuid_text, uuid_bits, uuid_from_bits, uuid_text, uuid_with_bits,
};
use uuid::Uuid;
use vstd::prelude::*;

verus! {

/// The canonical identifier for a shared session: the 128 bits of a UUID.
/// A [`SessionId`] on its own cannot be used to access
/// a shared session; you need the corresponding [`SessionSecret`].
#[derive(Debug, Hash, PartialEq, Eq, Clone, Copy, Structural)]
pub struct SessionId(u128);

impl View for SessionId {
    type V = u128;

    closed spec fn view(&self) -> u128 {
        self.0
    }
}

/// Session ids are equal exactly when their UUID bits are.
pub proof fn lemma_session_id_view_injective(a: SessionId, b: SessionId)
    ensures
        (a == b) <==> (a@ == b@),
{
}

impl SessionId {
    /// A fresh session id from a random version-4 UUID.
    #[allow(clippy::new_without_default)]
    pub fn new() -> (r: Self)
        ensures
            is_random_v4(r@),
    {
        SessionId(random_uuid_bits())
    }

    /// The session id that holds this UUID.
    pub fn from_uuid(uuid: Uuid) -> (r: Self)
        ensures
            uuid_with_bits(r@) == uuid,
    {
        SessionId(uuid_bits(&uuid))
    }

    /// The UUID this session id holds.
    pub fn as_uuid(&self) -> (r: Uuid)
        ensures
            r == uuid_with_bits(self@),
    {
        uuid_from_bits(self.0)
    }

    /// Reads a session id from UUID text, as the `warp` server framework does for
    /// the id in a route; fails with the `uuid` crate's error where it does not parse.
    pub fn from_str(s: &str) -> (r: Result<Self, uuid::Error>)
        ensures
            match r {
                Ok(id) => parsed_uuid(s@) == Some(id@),
                Err(_) => parsed_uuid(s@) is None,
            },
    {
        match parse_uuid(s) {
            Ok(bits) => Ok(SessionId(bits)),
            Err(e) => Err(e),
        }
    }

    /// The id as its `Display` writes it: the hyphenated lowercase UUID, which
    /// [`SessionId::from_str`] reads back to this same id.
    pub fn to_string(&self) -> (r: String)
        ensures
            r@ == hyphenated(self@),
            parsed_uuid(r@) == Some(self@),
    {
        uuid_text(self.0)
    }
}

/// The secret for a shared session.
/// A shared session cannot be accessed without its secret.
/// The client should treat this as some opaque string.
#[derive(Hash, Eq, PartialEq, Clone)]
pub struct SessionSecret(String);

impl View for SessionSecret {
    type V = Seq<char>;

    closed spec fn view(&self) -> Seq<char> {
        self.0@
    }
}

impl SessionSecret {
    /// A fresh secret: the text of a random version-4 UUID.
    #[allow(clippy::new_without_default)]
    pub fn new() -> (r: Self)
        ensures
            is_random_uuid_text(r@),
    {
        SessionSecret(random_uuid_text())
    }

    /// Reads a secret from the route text as it is; this never fails.
    pub fn from_str(s: &str) -> (r: Result<Self, core::convert::Infallible>)
        ensures
            r matches Ok(secret) && secret@ == s@,
    {
        Ok(SessionSecret(s.to_string()))
    }

    /// The secret's text itself, for the wire and for joining.
    pub fn as_str(&self) -> (r: &str)
        ensures
            r@ == self@,
    {
        self.0.as_str()
    }

    /// The secret as its `Display` writes it: a mask, so that it does not leak by accident.
    pub fn to_string(&self) -> (r: String)
        ensures
            r@ == "***"@,
    {
        String::from("***")
    }
}

impl Default for SessionSecret {
    fn default() -> (r: Self)
        ensures
            r@ == Seq::<char>::empty(),
    {
        SessionSecret(String::new())
    }
}

/// The parameters needed to attempt to join a shared session.
/// This is different from [`crate::viewer::InitPayload`] which
/// is the state that a viewer must pass up _after_ successfully
/// joining a shared session.
#[derive(Clone)]
pub struct JoinSessionLinkArgs {
    pub session_id: SessionId,
    pub session_secret: SessionSecret,
}

/// The route through which a session is joined: `/sessions/join/{id}?pwd={secret}`.
pub open spec fn join_route(session_id: u128, secret: Seq<char>) -> Seq<char> {
    "/sessions/join/"@ + hyphenated(session_id) + "?pwd="@ + secret
}

impl JoinSessionLinkArgs {
    pub fn to_join_route(&self) -> (r: String)
        ensures
            r@ == join_route(self.session_id@, self.session_secret@),
    {
        let mut route = String::from_str("/sessions/join/");
        let id = self.session_id.to_string();
        route.append(id.as_str());
        route.append("?pwd=");
        let secret = self.secret_to_string();
        route.append(secret.as_str());
        route
    }

    /// Returns the [`SessionSecret`] as a [`String`] for joining purposes.
    pub fn secret_to_string(&self) -> (r: String)
        ensures
            r@ == self.session_secret@,
    {
        // The secret's own `to_string` is masked.
        self.session_secret.0.clone()
    }
}

} // verus!
