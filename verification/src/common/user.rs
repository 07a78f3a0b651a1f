use super::ids::{is_random_uuid_text, random_uuid_text};
use vstd::prelude::*;

verus! {

/// Contains information for identifying the end-user.
///
/// Different [`UserID`]'s might correspond to the same end-user;
/// we use the [`UserID`] to translate to a canonical user.
#[derive(Clone, Debug)]
pub struct UserID {
    /// Randomly generated ID for the user, which exists whether or not they are logged in.
    pub anonymous_id: String,
    /// The client's access token. This is either:
    /// * A short-lived firebase ID token (not refresh token).
    /// * A Warp API key.
    ///
    /// [`Some`] iff we know who the end-user is (i.e. they're logged in).
    /// On the wire this field is named `firebase_id_token`.
    pub access_token: Option<String>,
}

impl Default for UserID {
    /// An anonymous user with a fresh random id.
    fn default() -> (r: Self)
        ensures
            is_random_uuid_text(r.anonymous_id@),
            r.access_token is None,
    {
        Self { anonymous_id: random_uuid_text(), access_token: None }
    }
}

/// A newtype for a firebase uid.
#[derive(Debug, Eq, PartialEq, Clone)]
pub struct FirebaseUid(String);

impl View for FirebaseUid {
    type V = Seq<char>;

    closed spec fn view(&self) -> Seq<char> {
        self.0@
    }
}

impl From<String> for FirebaseUid {
    fn from(value: String) -> (r: Self)
        ensures
            r@ == value@,
    {
        Self(value)
    }
}

impl vstd::std_specs::convert::FromSpecImpl<String> for FirebaseUid {
    open spec fn obeys_from_spec() -> bool {
        true
    }

    closed spec fn from_spec(v: String) -> Self {
        FirebaseUid(v)
    }
}

impl From<FirebaseUid> for String {
    fn from(value: FirebaseUid) -> (r: Self)
        ensures
            r@ == value@,
    {
        value.0
    }
}

impl vstd::std_specs::convert::FromSpecImpl<FirebaseUid> for String {
    open spec fn obeys_from_spec() -> bool {
        true
    }

    closed spec fn from_spec(v: FirebaseUid) -> Self {
        v.0
    }
}

} // verus!
