use vstd::prelude::*;
use vstd::string::StringExecFns;
use crate::model::{ExistingUser, NewUser, Thread, UpdateThreadMessage};
use crate::numfmt::spec_dec_int;
use crate::session::{lemma_cookie_round_trip, spec_session, SessionJar};
use crate::store::{
    lemma_new_user_empty_inventory, spec_update_effect, spec_upsert_all, threads_of, Store,
};
use crate::util::{hash_password_to_string, spec_hex_encode, spec_password_digest};

verus! {

/// A raw HTML response body.
pub struct RawHtml(pub String);

/// A redirect to a path.
#[derive(Debug)]
pub struct Redirect {
    pub target: String,
}

/// The icon response: raw bytes served as `image/x-icon`.
pub struct Favicon(pub Vec<u8>);

/// The home page markup.
pub open spec fn spec_main_page() -> Seq<char> {
    "<!DOCTYPE html>\n<html>\n<head><title>Thread Tracker</title></head>\n<body>\n<h1>My Floss</h1>\n<div id=\"threads\"></div>\n<button id=\"signout\">Sign out</button>\n</body>\n</html>\n"@
}

/// The login page markup.
pub open spec fn spec_login_page() -> Seq<char> {
    "<!DOCTYPE html>\n<html>\n<head><title>Thread Tracker - Login</title></head>\n<body>\n<form action=\"/login\" method=\"post\"><input name=\"username\"><input name=\"password\" type=\"password\"><button>Log in</button></form>\n<form action=\"/signup\" method=\"post\"><input name=\"username\"><input name=\"password\" type=\"password\"><button>Sign up</button></form>\n</body>\n</html>\n"@
}

/// The embedded test-harness page markup.
pub open spec fn spec_test_page() -> Seq<char> {
    "<!DOCTYPE html>\n<html>\n<head><title>Thread Tracker - API Test</title></head>\n<body>\n<h1>API test harness</h1>\n<button data-path=\"/getthreads\">getthreads</button>\n<button data-path=\"/updatethread\">updatethread</button>\n<button data-path=\"/signout\">signout</button>\n<pre id=\"out\"></pre>\n</body>\n</html>\n"@
}

/// The icon's bytes.
pub open spec fn spec_favicon_bytes() -> Seq<u8> {
    seq![0u8, 0u8, 1u8, 0u8, 0u8, 0u8]
}

/// GET /: the home page, served only to a request that resolved a session
/// identity; without one the router falls through to `login_redirect`.
pub fn index(_user: &ExistingUser) -> (r: RawHtml)
    ensures
        r.0@ == spec_main_page(),
{
    RawHtml(
        String::from_str(
            "<!DOCTYPE html>\n<html>\n<head><title>Thread Tracker</title></head>\n<body>\n<h1>My Floss</h1>\n<div id=\"threads\"></div>\n<button id=\"signout\">Sign out</button>\n</body>\n</html>\n",
        ),
    )
}

/// GET / at rank 2: the fallback for a request without a session identity.
pub fn login_redirect() -> (r: Redirect)
    ensures
        r.target@ == "/login"@,
{
    Redirect { target: String::from_str("/login") }
}

/// GET /login: the login page, unconditionally.
pub fn login_page() -> (r: RawHtml)
    ensures
        r.0@ == spec_login_page(),
{
    RawHtml(
        String::from_str(
            "<!DOCTYPE html>\n<html>\n<head><title>Thread Tracker - Login</title></head>\n<body>\n<form action=\"/login\" method=\"post\"><input name=\"username\"><input name=\"password\" type=\"password\"><button>Log in</button></form>\n<form action=\"/signup\" method=\"post\"><input name=\"username\"><input name=\"password\" type=\"password\"><button>Sign up</button></form>\n</body>\n</html>\n",
        ),
    )
}

/// POST /login: hash the submitted password, look the pair up, set the
/// session cookie on a match and go home; back to the login page on a
/// mismatch, with the jar untouched.
pub fn login(store: &Store, jar: &mut SessionJar, data: &NewUser) -> (r: Redirect)
    requires
        store.users_wf(),
        data.password@.len() <= 0x3fff_ff00,
    ensures
        ({
            let digest = spec_hex_encode(spec_password_digest(data.password@));
            if store.cred_match(data.username@, digest) {
                &&& final(jar).spec_cookie() == Some(
                    spec_dec_int(store.user_with_name(data.username@).id as int),
                )
                &&& spec_session(*store, final(jar).spec_cookie()) == Some(
                    store.user_with_name(data.username@).id,
                )
                &&& r.target@ == "/"@
            } else {
                &&& *final(jar) == *old(jar)
                &&& r.target@ == "/login"@
            }
        }),
{
    let hashed_password = hash_password_to_string(data.password.as_str());
    match store.login_user(&data.username, &hashed_password) {
        Some(id) => {
            jar.set_user_id(id);
            proof {
                lemma_cookie_round_trip(*store, id);
            }
            Redirect { target: String::from_str("/") }
        },
        None => Redirect { target: String::from_str("/login") },
    }
}

/// POST /signup: hash the password, insert the new account, look its id
/// back up by username, set the session cookie, and go home. A failed
/// insert changes nothing and surfaces the error text, for the 400-class
/// response body.
pub fn signup(store: &mut Store, jar: &mut SessionJar, data: &NewUser) -> (r: Result<
    Redirect,
    String,
>)
    requires
        old(store).wf(),
        data.password@.len() <= 0x3fff_ff00,
    ensures
        final(store).wf(),
        ({
            let digest = spec_hex_encode(spec_password_digest(data.password@));
            match r {
                Ok(redirect) => {
                    let id = final(store).user_with_name(data.username@).id;
                    &&& !old(store).has_username(data.username@)
                    &&& !old(store).has_user_id(0x7fff_ffff)
                    &&& final(store).users@.len() == old(store).users@.len() + 1
                    &&& final(store).has_username(data.username@)
                    &&& final(store).user_with_name(data.username@).password@ == digest
                    &&& final(store).threads@ == old(store).threads@
                    &&& !old(store).has_user_id(id)
                    &&& final(store).has_user_id(id)
                    &&& threads_of(final(store).threads@, id).len() == 0
                    &&& final(jar).spec_cookie() == Some(spec_dec_int(id as int))
                    &&& spec_session(*final(store), final(jar).spec_cookie()) == Some(id)
                    &&& redirect.target@ == "/"@
                },
                Err(m) => {
                    &&& *final(store) == *old(store)
                    &&& *final(jar) == *old(jar)
                    &&& old(store).has_username(data.username@) || old(store).has_user_id(
                        0x7fff_ffff,
                    )
                    &&& old(store).has_username(data.username@) ==> m@
                        == "Unable to create user: duplicate username"@
                    &&& !old(store).has_username(data.username@) ==> m@
                        == "Unable to create user: the user id space is exhausted"@
                },
            }
        }),
{
    let hashed_password = hash_password_to_string(data.password.as_str());
    match store.insert_user(&data.username, hashed_password) {
        Ok(id) => {
            match store.user_id_for_name(&data.username) {
                Some(found_id) => {
                    proof {
                        assert(found_id == id);
                        lemma_new_user_empty_inventory(*old(store), id);
                        lemma_cookie_round_trip(*store, id);
                    }
                    jar.set_user_id(found_id);
                    Ok(Redirect { target: String::from_str("/") })
                },
                None => {
                    proof {
                        assert(false);
                    }
                    Err(String::new())
                },
            }
        },
        Err(e) => Err(e.message()),
    }
}

/// POST /signout: removes the session cookie and confirms in plain text.
pub fn signout_post(_user: &ExistingUser, jar: &mut SessionJar) -> (r: String)
    ensures
        final(jar).spec_cookie() is None,
        r@ == "Successfully signed out"@,
{
    jar.remove_user_id();
    String::from_str("Successfully signed out")
}

/// GET /signout: identical to the POST form, for front-end convenience.
pub fn signout_get(_user: &ExistingUser, jar: &mut SessionJar) -> (r: String)
    ensures
        final(jar).spec_cookie() is None,
        r@ == "Successfully signed out"@,
{
    jar.remove_user_id();
    String::from_str("Successfully signed out")
}

/// GET /getthreads: every thread the caller owns, in store order. The
/// store model cannot fail, so the error arm is never taken.
pub fn get_threads(store: &Store, user: &ExistingUser) -> (r: Result<Vec<Thread>, String>)
    ensures
        match r {
            Ok(v) => v@ == threads_of(store.threads@, user.user_id),
            Err(_) => false,
        },
{
    Ok(store.threads_for(user.user_id))
}

/// POST /updatethread: one increment or decrement under the manual
/// policy; a rejection surfaces as the 400-class body text.
pub fn update_thread(store: &mut Store, user: &ExistingUser, data: &UpdateThreadMessage) -> (r:
    Result<String, String>)
    requires
        old(store).wf(),
        old(store).has_user_id(user.user_id),
    ensures
        final(store).wf(),
        final(store).users@ == old(store).users@,
        match r {
            Ok(m) => m@ == "updated"@ && spec_update_effect(
                *old(store),
                *final(store),
                user.user_id,
                *data,
            ),
            Err(m) => {
                &&& *final(store) == *old(store)
                &&& if !old(store).has_thread(user.user_id, data.floss) {
                    &&& data.action is Decrement
                    &&& m@ == "Unable to decrement a non-existent thread"@
                } else {
                    &&& ((data.action is Increment && old(store).thread_at(
                        user.user_id,
                        data.floss,
                    ).amount == i32::MAX) || (data.action is Decrement && old(store).thread_at(
                        user.user_id,
                        data.floss,
                    ).amount == i32::MIN))
                    &&& m@ == "Thread amount is out of range"@
                }
            },
        },
{
    match store.apply_update(user.user_id, data) {
        Ok(()) => Ok(String::from_str("updated")),
        Err(e) => Err(e.message()),
    }
}

/// POST /updatethreads: the bulk upsert of the whole inventory; an empty
/// input is a no-op, and nothing is reported back to the caller.
pub fn update_threads(store: &mut Store, user: &ExistingUser, data: &Vec<Thread>)
    requires
        old(store).wf(),
        old(store).has_user_id(user.user_id),
    ensures
        final(store).wf(),
        final(store).users@ == old(store).users@,
        final(store).threads@ == spec_upsert_all(old(store).threads@, user.user_id, data@),
{
    store.bulk_upsert(user.user_id, data);
}

/// GET /testhtml: the embedded test-harness page, whatever the
/// authentication state.
pub fn test_html() -> (r: RawHtml)
    ensures
        r.0@ == spec_test_page(),
{
    RawHtml(
        String::from_str(
            "<!DOCTYPE html>\n<html>\n<head><title>Thread Tracker - API Test</title></head>\n<body>\n<h1>API test harness</h1>\n<button data-path=\"/getthreads\">getthreads</button>\n<button data-path=\"/updatethread\">updatethread</button>\n<button data-path=\"/signout\">signout</button>\n<pre id=\"out\"></pre>\n</body>\n</html>\n",
        ),
    )
}

/// GET /favicon.ico: the icon's bytes.
pub fn favicon() -> (r: Favicon)
    ensures
        r.0@ == spec_favicon_bytes(),
{
    let mut bytes: Vec<u8> = Vec::new();
    bytes.push(0);
    bytes.push(0);
    bytes.push(1);
    bytes.push(0);
    bytes.push(0);
    bytes.push(0);
    proof {
        assert(bytes@ =~= spec_favicon_bytes());
    }
    Favicon(bytes)
}

#[derive(Clone, Copy, PartialEq, Eq, Structural, Debug)]
pub enum HttpMethod {
    Get,
    Post,
    Options,
}

/// One mounted route.
pub struct Route {
    pub method: HttpMethod,
    pub path: String,
    pub rank: u8,
}

/// The assembled application: the database pool and the CORS fairing
/// attached, the routes mounted at "/", and the catchers registered.
pub struct AppConfig {
    pub db: bool,
    pub cors: bool,
    pub routes: Vec<Route>,
    pub catchers: Vec<u16>,
}

/// Assembles the application exactly as it launches: pool, fairing, the
/// thirteen routes, and the 404/500 catchers.
pub fn rocket() -> (r: AppConfig)
    ensures
        r.db && r.cors,
        r.catchers@.len() == 2 && r.catchers@[0] == 404 && r.catchers@[1] == 500,
        r.routes@.len() == 13,
        r.routes@[0].method is Options && r.routes@[0].path@ == "/<_..>"@,
        r.routes@[1].method is Get && r.routes@[1].path@ == "/"@ && r.routes@[1].rank == 1,
        r.routes@[2].method is Get && r.routes@[2].path@ == "/login"@,
        r.routes@[3].method is Post && r.routes@[3].path@ == "/login"@,
        r.routes@[4].method is Post && r.routes@[4].path@ == "/signup"@,
        r.routes@[5].method is Get && r.routes@[5].path@ == "/getthreads"@,
        r.routes@[6].method is Get && r.routes@[6].path@ == "/testhtml"@,
        r.routes@[7].method is Post && r.routes@[7].path@ == "/updatethread"@,
        r.routes@[8].method is Get && r.routes@[8].path@ == "/"@ && r.routes@[8].rank == 2,
        r.routes@[9].method is Get && r.routes@[9].path@ == "/favicon.ico"@,
        r.routes@[10].method is Get && r.routes@[10].path@ == "/signout"@,
        r.routes@[11].method is Post && r.routes@[11].path@ == "/signout"@,
        r.routes@[12].method is Post && r.routes@[12].path@ == "/updatethreads"@,
{
    let mut routes: Vec<Route> = Vec::new();
    routes.push(Route { method: HttpMethod::Options, path: String::from_str("/<_..>"), rank: 1 });
    routes.push(Route { method: HttpMethod::Get, path: String::from_str("/"), rank: 1 });
    routes.push(Route { method: HttpMethod::Get, path: String::from_str("/login"), rank: 1 });
    routes.push(Route { method: HttpMethod::Post, path: String::from_str("/login"), rank: 1 });
    routes.push(Route { method: HttpMethod::Post, path: String::from_str("/signup"), rank: 1 });
    routes.push(Route { method: HttpMethod::Get, path: String::from_str("/getthreads"), rank: 1 });
    routes.push(Route { method: HttpMethod::Get, path: String::from_str("/testhtml"), rank: 1 });
    routes.push(
        Route { method: HttpMethod::Post, path: String::from_str("/updatethread"), rank: 1 },
    );
    routes.push(Route { method: HttpMethod::Get, path: String::from_str("/"), rank: 2 });
    routes.push(Route { method: HttpMethod::Get, path: String::from_str("/favicon.ico"), rank: 1 });
    routes.push(Route { method: HttpMethod::Get, path: String::from_str("/signout"), rank: 1 });
    routes.push(Route { method: HttpMethod::Post, path: String::from_str("/signout"), rank: 1 });
    routes.push(
        Route { method: HttpMethod::Post, path: String::from_str("/updatethreads"), rank: 1 },
    );
    let mut catchers: Vec<u16> = Vec::new();
    catchers.push(404);
    catchers.push(500);
    AppConfig { db: true, cors: true, routes, catchers }
}

} // verus!
