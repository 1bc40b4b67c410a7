//! The client: where the server runs, which database it uses, and how each
//! query becomes a request.

use vstd::prelude::*;
use vstd::string::StringExecFns;
use crate::error::InfluxDbError;
use crate::request::{encode_url, params_view, url_with_params, HttpMethod, HttpRequest, RequestView};
use crate::text::{contains_str, has_infix};

verus! {

broadcast use vstd::string::group_string_axioms;

/// Credentials sent with every request as the `u` and `p` parameters.
#[derive(Debug, Clone)]
pub struct InfluxDbAuthentication {
    pub username: String,
    pub password: String,
}

impl InfluxDbAuthentication {
    pub fn new(username: &str, password: &str) -> (r: Self)
        ensures
            r.username@ == username@,
            r.password@ == password@,
    {
        InfluxDbAuthentication { username: username.to_owned(), password: password.to_owned() }
    }
}

/// Credentials as a pair of user name and password.
pub open spec fn auth_view(auth: Option<InfluxDbAuthentication>) -> Option<(Seq<char>, Seq<char>)> {
    match auth {
        Some(a) => Some((a.username@, a.password@)),
        None => None,
    }
}

/// A query whose text is built, tagged with how the server takes it.
#[derive(Debug, Clone)]
pub enum ValidQuery {
    /// A statement of the query language (`SELECT ...`, `SHOW ...`, `CREATE ...`).
    Read { text: String },
    /// Points in line protocol, with the precision modifier of their timestamps.
    Write { text: String, precision: String },
}

/// A client of one database on one server.
pub struct InfluxDbClient {
    url: String,
    database: String,
    auth: Option<InfluxDbAuthentication>,
}

/// The model of a client: server URL, database name and credentials.
pub struct ClientView {
    pub url: Seq<char>,
    pub database: Seq<char>,
    pub auth: Option<(Seq<char>, Seq<char>)>,
}

impl View for InfluxDbClient {
    type V = ClientView;

    closed spec fn view(&self) -> ClientView {
        ClientView { url: self.url@, database: self.database@, auth: auth_view(self.auth) }
    }
}

/// The credential parameters: user and password where credentials are set.
pub open spec fn auth_params(auth: Option<(Seq<char>, Seq<char>)>) -> Seq<(Seq<char>, Seq<char>)> {
    match auth {
        Some((u, p)) => seq![("u"@, u), ("p"@, p)],
        None => Seq::empty(),
    }
}

/// The endpoint that both kinds of query go to.
pub open spec fn write_endpoint(url: Seq<char>) -> Seq<char> {
    url + "/write"@
}

/// The endpoint that a ping goes to.
pub open spec fn ping_endpoint(url: Seq<char>) -> Seq<char> {
    url + "/ping"@
}

/// The query parameters of a request for `q`: the database, then the statement
/// or the precision, then the credentials.
pub open spec fn query_params(c: ClientView, q: ValidQuery) -> Seq<(Seq<char>, Seq<char>)> {
    match q {
        ValidQuery::Read { text } => seq![("db"@, c.database), ("q"@, text@)] + auth_params(c.auth),
        ValidQuery::Write { precision, .. } => seq![("db"@, c.database), ("precision"@, precision@)]
            + auth_params(c.auth),
    }
}

/// A read statement that selects or shows is fetched; any other is posted, as
/// are writes.
pub open spec fn query_method(q: ValidQuery) -> HttpMethod {
    match q {
        ValidQuery::Read { text } => if has_infix(text@, "SELECT"@) || has_infix(text@, "SHOW"@) {
            HttpMethod::Get
        } else {
            HttpMethod::Post
        },
        ValidQuery::Write { .. } => HttpMethod::Post,
    }
}

/// A write carries its points as the body; a read has none.
pub open spec fn query_body(q: ValidQuery) -> Option<Seq<char>> {
    match q {
        ValidQuery::Read { .. } => None,
        ValidQuery::Write { text, .. } => Some(text@),
    }
}

/// The request for `q` once its URL, with the query string, is known.
pub fn request_for(q: ValidQuery, url: String) -> (r: HttpRequest)
    ensures
        r@ == (RequestView { method: query_method(q), url: url@, body: query_body(q) }),
{
    match q {
        ValidQuery::Read { text } => {
            let fetch = contains_str(text.as_str(), "SELECT") || contains_str(text.as_str(), "SHOW");
            let method = if fetch {
                HttpMethod::Get
            } else {
                HttpMethod::Post
            };
            HttpRequest { method, url, body: None }
        },
        ValidQuery::Write { text, .. } => HttpRequest { method: HttpMethod::Post, url, body: Some(text) },
    }
}

impl InfluxDbClient {
    pub fn new(url: &str, database: &str, auth: Option<InfluxDbAuthentication>) -> (r: Self)
        ensures
            r@.url == url@,
            r@.database == database@,
            r@.auth == auth_view(auth),
    {
        InfluxDbClient { url: url.to_owned(), database: database.to_owned(), auth }
    }

    /// The name of the database the client uses.
    pub fn database_name(&self) -> (r: &str)
        ensures
            r@ == self@.database,
    {
        self.database.as_str()
    }

    /// The URL of the server the client uses.
    pub fn database_url(&self) -> (r: &str)
        ensures
            r@ == self@.url,
    {
        self.url.as_str()
    }

    /// The credentials the client sends, if any.
    fn auth(&self) -> (r: &Option<InfluxDbAuthentication>)
        ensures
            auth_view(*r) == self@.auth,
    {
        &self.auth
    }

    /// The query parameters of a request for `q`, in order.
    pub fn query_parameters(&self, q: &ValidQuery) -> (r: Vec<(String, String)>)
        ensures
            params_view(r@) == query_params(self@, *q),
    {
        let mut params: Vec<(String, String)> = Vec::new();
        params.push(("db".to_owned(), self.database.clone()));
        match q {
            ValidQuery::Read { text } => {
                params.push(("q".to_owned(), text.clone()));
            },
            ValidQuery::Write { precision, .. } => {
                params.push(("precision".to_owned(), precision.clone()));
            },
        }
        if let Some(a) = self.auth() {
            params.push(("u".to_owned(), a.username.clone()));
            params.push(("p".to_owned(), a.password.clone()));
        }
        assert(params_view(params@) =~= query_params(self@, *q));
        params
    }

    /// The request that carries `built` to the server: its build error as an
    /// invalid query, else the method, the URL of the write endpoint with the
    /// query parameters, and the body that the kind of query asks for. A server
    /// URL that does not parse gives an invalid query too.
    pub fn query_request(&self, built: Result<ValidQuery, String>) -> (r: Result<
        HttpRequest,
        InfluxDbError,
    >)
        ensures
            match built {
                Err(msg) => r matches Err(InfluxDbError::InvalidQueryError { error }) && error@
                    == msg@,
                Ok(q) => match url_with_params(write_endpoint(self@.url), query_params(self@, q)) {
                    Some(u) => r matches Ok(req) && req@ == (RequestView {
                        method: query_method(q),
                        url: u,
                        body: query_body(q),
                    }),
                    None => r matches Err(InfluxDbError::InvalidQueryError { error }) && error@
                        == "invalid server url"@,
                },
            },
    {
        let q = match built {
            Err(msg) => {
                return Err(InfluxDbError::InvalidQueryError { error: msg });
            },
            Ok(q) => q,
        };
        let params = self.query_parameters(&q);
        let mut base = self.url.clone();
        base.append("/write");
        let url = match encode_url(base.as_str(), &params) {
            Some(u) => u,
            None => {
                return Err(InfluxDbError::InvalidQueryError { error: "invalid server url".to_owned() });
            },
        };
        Ok(request_for(q, url))
    }

    /// The URL that a ping is sent to.
    pub fn ping_url(&self) -> (r: String)
        ensures
            r@ == ping_endpoint(self@.url),
    {
        let mut u = self.url.clone();
        u.append("/ping");
        u
    }
}

} // verus!
