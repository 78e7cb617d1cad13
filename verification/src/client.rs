//! The typed client core: credentials, resource-scope markers, request
//! building against the fixed API origin, and the error half of the
//! untagged response envelope.

use vstd::prelude::*;

use crate::json::{obj_get, Json};

verus! {

/// Marker for a client that is not yet scoped to one resource.
pub struct BasePlatform;

/// Marker for the organization operations.
pub struct OrganizationsPlatform;

/// Marker for the location operations.
pub struct LocationsPlatform;

/// Marker for the member operations.
pub struct MembersPlatform;

/// Marker for the database operations.
pub struct DatabasesPlatform;

/// Marker for the database-instance operations.
pub struct DatabaseInstancesPlatform;

/// Marker for the group operations.
pub struct GroupsPlatform;

/// Access level a database token may be created with.
#[derive(Debug)]
pub enum Authorization {
    FullAccess,
    ReadOnly,
}

impl Authorization {
    /// The label the API uses for this access level.
    pub fn as_str(&self) -> (r: &'static str)
        ensures
            *self is FullAccess ==> r@ == "full-access"@,
            *self is ReadOnly ==> r@ == "read-only"@,
    {
        match self {
            Authorization::FullAccess => "full-access",
            Authorization::ReadOnly => "read-only",
        }
    }

    /// The access level a label names, if any.
    pub fn from_str(s: &str) -> (r: Option<Authorization>)
        ensures
            s@ == "full-access"@ ==> (r matches Some(a) && a is FullAccess),
            s@ == "read-only"@ ==> (r matches Some(a) && a is ReadOnly),
            s@ != "full-access"@ && s@ != "read-only"@ ==> r is None,
    {
        proof {
            reveal_strlit("full-access");
            reveal_strlit("read-only");
            assert("full-access"@.len() != "read-only"@.len());
        }
        if crate::json::str_eq(s, "full-access") {
            Some(Authorization::FullAccess)
        } else if crate::json::str_eq(s, "read-only") {
            Some(Authorization::ReadOnly)
        } else {
            None
        }
    }
}

/// An application error reported by the server: the body `{"error": "..."}`.
#[derive(Debug)]
pub struct TursoError {
    pub error: String,
}

/// Why a response body did not decode to the expected payload: either the
/// server reported an error, or the body matched neither the success shape
/// nor the error shape.
#[derive(Debug)]
pub enum ResponseError {
    Api(TursoError),
    Malformed,
}

/// The HTTP method of a request this library builds.
#[derive(Debug)]
pub enum Method {
    Get,
    Post,
    Delete,
}

/// One fully determined HTTP request: everything the transport needs.
#[derive(Debug)]
pub struct HttpRequest {
    pub method: Method,
    pub url: String,
    pub bearer: String,
    pub body: Option<String>,
}

/// The fixed origin that relative paths resolve under.
pub open spec fn base_url() -> Seq<char> {
    "https://api.turso.tech/v1/"@
}

/// A relative path resolves against the fixed API origin; an absolute URL
/// (one already beginning with the scheme) passes through unchanged.
pub open spec fn spec_dispatch(path: Seq<char>) -> Seq<char> {
    if path.len() >= 5 && path.subrange(0, 5) == "https"@ {
        path
    } else {
        base_url() + path
    }
}

/// Law: a path that begins with the scheme is dispatched unchanged — the
/// closest-region call reaches its alternate host — and every other path
/// resolves under the fixed base origin.
pub proof fn lemma_dispatch(path: Seq<char>)
    ensures
        (path.len() >= 5 && path.subrange(0, 5) == "https"@) ==> spec_dispatch(path) == path,
        !(path.len() >= 5 && path.subrange(0, 5) == "https"@) ==> spec_dispatch(path) == base_url()
            + path,
{
}

/// Resolves a path as [`spec_dispatch`] says.
pub fn dispatch_url(path: &str) -> (r: String)
    ensures
        r@ == spec_dispatch(path@),
{
    proof {
        reveal_strlit("https");
    }
    let n = path.unicode_len();
    let is_absolute = n >= 5 && path.get_char(0) == 'h' && path.get_char(1) == 't'
        && path.get_char(2) == 't' && path.get_char(3) == 'p' && path.get_char(4) == 's';
    if is_absolute {
        proof {
            assert(path@.subrange(0, 5) =~= "https"@);
        }
        path.to_owned()
    } else {
        proof {
            if path@.len() >= 5 && path@.subrange(0, 5) == "https"@ {
                assert(path@.subrange(0, 5)[0] == path@[0]);
                assert(path@.subrange(0, 5)[1] == path@[1]);
                assert(path@.subrange(0, 5)[2] == path@[2]);
                assert(path@.subrange(0, 5)[3] == path@[3]);
                assert(path@.subrange(0, 5)[4] == path@[4]);
                assert(false);
            }
        }
        let mut url = String::from_str("https://api.turso.tech/v1/");
        url.append(path);
        url
    }
}

/// The client: the bearer token, scoped by a compile-time resource marker.
/// Scope changes consume the old view, so a stale view cannot be reused.
pub struct TursoClient<Platform = BasePlatform> {
    pub token: String,
    pub platform: core::marker::PhantomData<Platform>,
}

impl TursoClient {
    /// A fresh client around the given bearer token.
    pub fn new(token: String) -> (r: Self)
        ensures
            r.token == token,
    {
        TursoClient { token, platform: core::marker::PhantomData }
    }
}

impl<Platform> TursoClient<Platform> {
    /// Scopes the client to the group operations.
    pub fn groups(self) -> (r: TursoClient<GroupsPlatform>)
        ensures
            r.token == self.token,
    {
        TursoClient { token: self.token, platform: core::marker::PhantomData }
    }

    /// Scopes the client to the location operations.
    pub fn locations(self) -> (r: TursoClient<LocationsPlatform>)
        ensures
            r.token == self.token,
    {
        TursoClient { token: self.token, platform: core::marker::PhantomData }
    }

    /// Scopes the client to the database operations.
    pub fn databases(self) -> (r: TursoClient<DatabasesPlatform>)
        ensures
            r.token == self.token,
    {
        TursoClient { token: self.token, platform: core::marker::PhantomData }
    }

    /// Scopes the client to the database-instance operations.
    pub fn database_instances(self) -> (r: TursoClient<DatabaseInstancesPlatform>)
        ensures
            r.token == self.token,
    {
        TursoClient { token: self.token, platform: core::marker::PhantomData }
    }

    /// Scopes the client to the organization operations.
    pub fn organizations(self) -> (r: TursoClient<OrganizationsPlatform>)
        ensures
            r.token == self.token,
    {
        TursoClient { token: self.token, platform: core::marker::PhantomData }
    }

    /// Scopes the client to the member operations.
    pub fn members(self) -> (r: TursoClient<MembersPlatform>)
        ensures
            r.token == self.token,
    {
        TursoClient { token: self.token, platform: core::marker::PhantomData }
    }

    /// A GET request for `url`, resolved against the fixed origin unless
    /// already absolute, with this client's bearer token attached.
    pub fn get(&self, url: &str) -> (r: HttpRequest)
        ensures
            r.method is Get,
            r.url@ == spec_dispatch(url@),
            r.bearer == self.token,
            r.body is None,
    {
        HttpRequest {
            method: Method::Get,
            url: dispatch_url(url),
            bearer: self.token.clone(),
            body: None,
        }
    }

    /// A POST request for the relative path `url`, carrying `body` as JSON.
    pub fn post(&self, url: &str, body: String) -> (r: HttpRequest)
        ensures
            r.method is Post,
            r.url@ == base_url() + url@,
            r.bearer == self.token,
            r.body == Some(body),
    {
        let mut full = String::from_str("https://api.turso.tech/v1/");
        full.append(url);
        HttpRequest { method: Method::Post, url: full, bearer: self.token.clone(), body: Some(body) }
    }

    /// A DELETE request for the relative path `url`.
    pub fn delete_(&self, url: &str) -> (r: HttpRequest)
        ensures
            r.method is Delete,
            r.url@ == base_url() + url@,
            r.bearer == self.token,
            r.body is None,
    {
        let mut full = String::from_str("https://api.turso.tech/v1/");
        full.append(url);
        HttpRequest { method: Method::Delete, url: full, bearer: self.token.clone(), body: None }
    }
}

/// The server's message where a decoded body has the error shape: an object
/// whose `error` field is a string.
pub open spec fn error_of(j: Json) -> Option<String> {
    match j {
        Json::Obj(fs) => match obj_get(fs@, "error"@) {
            Some(Json::Str(s)) => Some(s),
            _ => None,
        },
        _ => None,
    }
}

/// How a body that misses the success shape decodes: the error variant where
/// it has the error shape, otherwise a malformed-body failure.
pub open spec fn spec_envelope_error(j: Json) -> ResponseError {
    match error_of(j) {
        Some(msg) => ResponseError::Api(TursoError { error: msg }),
        None => ResponseError::Malformed,
    }
}

/// Decodes the error half of the untagged envelope.
pub fn envelope_error(j: &Json) -> (r: ResponseError)
    ensures
        r == spec_envelope_error(*j),
{
    proof {
        reveal_strlit("error");
    }
    match j {
        Json::Obj(fs) => match crate::json::obj_find(fs, "error") {
            Some(v) => match v {
                Json::Str(s) => ResponseError::Api(TursoError { error: s.clone() }),
                _ => ResponseError::Malformed,
            },
            None => ResponseError::Malformed,
        },
        _ => ResponseError::Malformed,
    }
}

} // verus!
