use vstd::prelude::*;
use vstd::string::StringExecFns;

verus! {

/// One response header.
pub struct Header {
    pub name: String,
    pub value: String,
}

/// An outgoing HTTP response, as the fairing sees it.
pub struct Response {
    pub status: u16,
    pub body: String,
    pub headers: Vec<Header>,
}

/// The value a header lookup sees: the latest setting of the name.
pub open spec fn spec_header_value(hs: Seq<Header>, name: Seq<char>) -> Option<Seq<char>>
    decreases hs.len(),
{
    if hs.len() == 0 {
        None
    } else if hs.last().name@ == name {
        Some(hs.last().value@)
    } else {
        spec_header_value(hs.drop_last(), name)
    }
}

impl Response {
    pub fn new(status: u16, body: String) -> (r: Response)
        ensures
            r.status == status,
            r.body == body,
            r.headers@ == Seq::<Header>::empty(),
    {
        Response { status, body, headers: Vec::new() }
    }

    /// Sets a header: lookups of the name now see this value, every other
    /// name is untouched, and status and body stay as they were.
    pub fn set_header(&mut self, name: String, value: String)
        ensures
            final(self).status == old(self).status,
            final(self).body == old(self).body,
            final(self).headers@ == old(self).headers@.push(Header { name, value }),
            spec_header_value(final(self).headers@, name@) == Some(value@),
            forall|n: Seq<char>|
                n != name@ ==> spec_header_value(final(self).headers@, n) == spec_header_value(
                    old(self).headers@,
                    n,
                ),
    {
        let ghost orig = self.headers@;
        let ghost n_view = name@;
        let ghost v_view = value@;
        self.headers.push(Header { name, value });
        proof {
            assert(self.headers@.drop_last() =~= orig);
            assert(self.headers@.last().name@ == n_view);
            assert(self.headers@.last().value@ == v_view);
        }
    }
}

/// The empty struct the CORS fairing hangs off.
pub struct Cors;

/// What a fairing registers: its name, and that it hooks responses.
pub struct FairingInfo {
    pub name: String,
    pub kind_response: bool,
}

impl Cors {
    pub fn info(&self) -> (r: FairingInfo)
        ensures
            r.name@ == "Cross-Origin-Resource-Sharing Fairing"@,
            r.kind_response,
    {
        FairingInfo {
            name: String::from_str("Cross-Origin-Resource-Sharing Fairing"),
            kind_response: true,
        }
    }

    /// Applied to every outgoing response, whatever its route or status:
    /// sets the four permissive CORS headers and touches nothing else —
    /// status, body, and the lookup of every other header name stay as
    /// they were.
    pub fn on_response(&self, response: &mut Response)
        ensures
            final(response).status == old(response).status,
            final(response).body == old(response).body,
            spec_header_value(final(response).headers@, "Access-Control-Allow-Origin"@) == Some(
                "*"@,
            ),
            spec_header_value(final(response).headers@, "Access-Control-Allow-Methods"@) == Some(
                "POST, PATCH, PUT, DELETE, HEAD, OPTIONS, GET"@,
            ),
            spec_header_value(final(response).headers@, "Access-Control-Allow-Headers"@) == Some(
                "*"@,
            ),
            spec_header_value(final(response).headers@, "Access-Control-Allow-Credentials"@)
                == Some("true"@),
            forall|n: Seq<char>|
                n != "Access-Control-Allow-Origin"@ && n != "Access-Control-Allow-Methods"@ && n
                    != "Access-Control-Allow-Headers"@ && n
                    != "Access-Control-Allow-Credentials"@ ==> spec_header_value(
                    final(response).headers@,
                    n,
                ) == spec_header_value(old(response).headers@, n),
    {
        proof {
            reveal_strlit("Access-Control-Allow-Origin");
            reveal_strlit("Access-Control-Allow-Methods");
            reveal_strlit("Access-Control-Allow-Headers");
            reveal_strlit("Access-Control-Allow-Credentials");
            assert("Access-Control-Allow-Origin"@.len() == 27);
            assert("Access-Control-Allow-Methods"@.len() == 28);
            assert("Access-Control-Allow-Headers"@.len() == 28);
            assert("Access-Control-Allow-Credentials"@.len() == 32);
            assert("Access-Control-Allow-Methods"@[21] == 'M');
            assert("Access-Control-Allow-Headers"@[21] == 'H');
        }
        let ghost h0 = response.headers@;
        response.set_header(
            String::from_str("Access-Control-Allow-Origin"),
            String::from_str("*"),
        );
        let ghost h1 = response.headers@;
        response.set_header(
            String::from_str("Access-Control-Allow-Methods"),
            String::from_str("POST, PATCH, PUT, DELETE, HEAD, OPTIONS, GET"),
        );
        let ghost h2 = response.headers@;
        response.set_header(
            String::from_str("Access-Control-Allow-Headers"),
            String::from_str("*"),
        );
        let ghost h3 = response.headers@;
        response.set_header(
            String::from_str("Access-Control-Allow-Credentials"),
            String::from_str("true"),
        );
        proof {
            assert forall|n: Seq<char>|
                n != "Access-Control-Allow-Origin"@ && n != "Access-Control-Allow-Methods"@ && n
                    != "Access-Control-Allow-Headers"@ && n
                    != "Access-Control-Allow-Credentials"@ implies spec_header_value(
                response.headers@,
                n,
            ) == spec_header_value(h0, n) by {
                assert(spec_header_value(h1, n) == spec_header_value(h0, n));
                assert(spec_header_value(h2, n) == spec_header_value(h1, n));
                assert(spec_header_value(h3, n) == spec_header_value(h2, n));
                assert(spec_header_value(response.headers@, n) == spec_header_value(h3, n));
            }
        }
    }
}

/// OPTIONS catch-all: an intentionally empty response, so that a CORS
/// preflight is satisfied by the fairing's headers alone.
pub fn all_options() {
}

/// The 404 catcher's body.
pub fn not_found() -> (r: &'static str)
    ensures
        r@ == "404 funny not found"@,
{
    "404 funny not found"
}

/// The 500 catcher's body.
pub fn oops() -> (r: &'static str)
    ensures
        r@ == "500: Oops all server error"@,
{
    "500: Oops all server error"
}

} // verus!
