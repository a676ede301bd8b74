use vstd::prelude::*;
use crate::model::ExistingUser;
use crate::numfmt::{i32_to_string, lemma_parse_of_dec_i32, parse_i32, spec_dec_int, spec_parse_i32};
use crate::store::Store;

verus! {

/// The client's private cookie jar as this service uses it: at most the
/// one signed `user_id` cookie, holding a decimal user id.
pub struct SessionJar {
    pub cookie: Option<String>,
}

impl SessionJar {
    pub open spec fn spec_cookie(self) -> Option<Seq<char>> {
        match self.cookie {
            Some(c) => Some(c@),
            None => None,
        }
    }

    /// The jar of a client that never logged in.
    pub fn empty() -> (r: SessionJar)
        ensures
            r.spec_cookie() is None,
    {
        SessionJar { cookie: None }
    }

    /// Sets the `user_id` cookie to the decimal rendering of the id, as
    /// login and signup do on success.
    pub fn set_user_id(&mut self, id: i32)
        ensures
            final(self).spec_cookie() == Some(spec_dec_int(id as int)),
    {
        self.cookie = Some(i32_to_string(id));
    }

    /// Removes the `user_id` cookie, as signout does.
    pub fn remove_user_id(&mut self)
        ensures
            final(self).spec_cookie() is None,
    {
        self.cookie = None;
    }
}

/// What the session guard resolves from a request: the cookie's value
/// parsed as an id, checked for existence against the store; `None` at any
/// step.
pub open spec fn spec_session(s: Store, cookie: Option<Seq<char>>) -> Option<i32> {
    match cookie {
        Option::None => Option::None,
        Option::Some(c) => match spec_parse_i32(c) {
            Option::None => Option::None,
            Option::Some(id) => if s.has_user_id(id) {
                Option::Some(id)
            } else {
                Option::None
            },
        },
    }
}

impl ExistingUser {
    /// The session guard: read the `user_id` cookie, parse it as an
    /// integer, and probe the store for that id. Absence at any step is a
    /// forward (a `None`), never a hard error, so routing can fall back to
    /// a public alternative.
    pub fn from_request(store: &Store, jar: &SessionJar) -> (r: Option<ExistingUser>)
        ensures
            match r {
                Some(u) => spec_session(*store, jar.spec_cookie()) == Some(u.user_id),
                None => spec_session(*store, jar.spec_cookie()) is None,
            },
    {
        match &jar.cookie {
            Some(value) => {
                match parse_i32(value.as_str()) {
                    Some(id) => {
                        if store.contains_user_id(id) {
                            Some(ExistingUser { user_id: id })
                        } else {
                            None
                        }
                    },
                    None => None,
                }
            },
            None => None,
        }
    }
}

/// After signout the cookie is gone, and a request without a cookie
/// resolves no session identity: exactly as for a client that never logged
/// in, whatever the store holds.
pub proof fn lemma_signed_out_forwards(s: Store, jar: SessionJar)
    requires
        jar.spec_cookie() is None,
    ensures
        spec_session(s, jar.spec_cookie()) is None,
{
}

/// The cookie issued at login or signup resolves back to the same
/// identity: parsing undoes the decimal rendering, and the id names a real
/// account.
pub proof fn lemma_cookie_round_trip(s: Store, id: i32)
    requires
        s.has_user_id(id),
    ensures
        spec_session(s, Some(spec_dec_int(id as int))) == Some(id),
{
    lemma_parse_of_dec_i32(id);
}

} // verus!
