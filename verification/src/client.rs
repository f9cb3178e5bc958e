//! The client: which request to send, and what its reply means.

use crate::decode::FromJson;
use crate::error::{ApiError, CodecError, ErrorKind};
use crate::json::{Json, JsonView};
use crate::form::form_urlencoded;
use crate::query::{query_pairs, FlagOptions, FlagOptionsView};
use vstd::prelude::*;
use vstd::string::StringExecFns;

verus! {

/// The address of the service.
pub const API_HOST: &'static str = "https://app.launchdarkly.com";

/// The path under which the service offers this version of its interface.
pub const API_VERSION: &'static str = "/api/v2";

/// An HTTP method.
#[derive(Debug)]
pub enum Method {
    Options,
    Get,
    Post,
    Put,
    Delete,
    Head,
    Trace,
    Connect,
    Patch,
    /// A method that has no variant of its own.
    Extension(String),
}

/// The mathematical value of a [`Method`].
pub enum MethodView {
    Options,
    Get,
    Post,
    Put,
    Delete,
    Head,
    Trace,
    Connect,
    Patch,
    Extension(Seq<char>),
}

impl DeepView for Method {
    type V = MethodView;

    open spec fn deep_view(&self) -> MethodView {
        match self {
            Method::Options => MethodView::Options,
            Method::Get => MethodView::Get,
            Method::Post => MethodView::Post,
            Method::Put => MethodView::Put,
            Method::Delete => MethodView::Delete,
            Method::Head => MethodView::Head,
            Method::Trace => MethodView::Trace,
            Method::Connect => MethodView::Connect,
            Method::Patch => MethodView::Patch,
            Method::Extension(name) => MethodView::Extension(name@),
        }
    }
}

impl View for Method {
    type V = MethodView;

    open spec fn view(&self) -> MethodView {
        self.deep_view()
    }
}

/// A request, ready to be sent.
#[derive(Debug)]
pub struct Request {
    pub method: Method,
    /// The full address.
    pub url: String,
    /// The value of the `Authorization` header.
    pub authorization: String,
    pub body: Option<Vec<u8>>,
}

/// The mathematical value of a [`Request`].
pub struct RequestView {
    pub method: MethodView,
    pub url: Seq<char>,
    pub authorization: Seq<char>,
    pub body: Option<Seq<u8>>,
}

impl DeepView for Request {
    type V = RequestView;

    open spec fn deep_view(&self) -> RequestView {
        RequestView {
            method: self.method@,
            url: self.url@,
            authorization: self.authorization@,
            body: self.body.deep_view(),
        }
    }
}

impl View for Request {
    type V = RequestView;

    open spec fn view(&self) -> RequestView {
        self.deep_view()
    }
}

/// What came of sending a request.
#[derive(Debug)]
pub enum Reply {
    /// The transport failed.
    HttpFailure(hyper::Error),
    /// An I/O operation next to the transport failed.
    IoFailure(std::io::Error),
    /// The service answered, with this status code and this body: the
    /// document that the body holds, or the reader's error where it holds
    /// none.
    Response { status: u16, body: Result<Json, serde_json::Error> },
}

/// The address of `path` at the service.
pub open spec fn api_url(path: Seq<char>) -> Seq<char> {
    API_HOST@ + API_VERSION@ + path
}

/// The path of the flags of `project` that `options` select: the query
/// follows a `?` where a restriction is set, and nothing follows the project
/// where none is.
pub open spec fn flags_path(project: Seq<char>, options: FlagOptionsView) -> Seq<char> {
    if query_pairs(options).len() == 0 {
        "/flags/"@ + project
    } else {
        "/flags/"@ + project + "?"@ + form_urlencoded(query_pairs(options))
    }
}

/// Without a restriction the path ends with the project: no `?` follows it,
/// and no name of a parameter.
pub proof fn lemma_no_options_no_mark(project: Seq<char>, options: FlagOptionsView)
    requires
        options.env is None,
        options.tag is None,
    ensures
        flags_path(project, options) == "/flags/"@ + project,
{
    assert(query_pairs(options) =~= Seq::empty());
}

/// With a restriction the path is the project, `?` and the query.
pub proof fn lemma_options_follow_mark(project: Seq<char>, options: FlagOptionsView)
    requires
        options.env is Some || options.tag is Some,
    ensures
        flags_path(project, options) == "/flags/"@ + project + "?"@ + form_urlencoded(
            query_pairs(options),
        ),
{
}

/// Whether a status code reports success.
pub open spec fn is_success(status: u16) -> bool {
    200 <= status < 300
}

/// Whether `r` is what decoding the document `json` as a `T` has to give:
/// the record that `json` stands for, or, where it stands for none, the
/// schema error that says where the first fault is.
pub open spec fn decoded_as<T: FromJson>(json: JsonView, r: Result<T, ApiError>) -> bool {
    match r {
        Ok(value) => T::matches(json, value.deep_view()),
        Err(error) => error.0 matches ErrorKind::Codec(CodecError::Schema(e)) && T::fault(json)
            == Some(e@) && forall|value: T::V| !T::matches(json, value),
    }
}

/// Decoding recovers a record exactly: for a document that stands for
/// `value`, it succeeds, and what it gives is `value`.
pub proof fn lemma_decoded_exactly<T: FromJson>(
    json: JsonView,
    value: T::V,
    r: Result<T, ApiError>,
)
    requires
        T::matches(json, value),
        decoded_as::<T>(json, r),
    ensures
        r matches Ok(read) && read.deep_view() == value,
{
    T::lemma_unique(json, value, r->Ok_0.deep_view());
}

/// Decoding a document that stands for no record fails, with a schema error.
pub proof fn lemma_unmatched_is_refused<T: FromJson>(json: JsonView, r: Result<T, ApiError>)
    requires
        decoded_as::<T>(json, r),
        forall|value: T::V| !T::matches(json, value),
    ensures
        r is Err,
        r->Err_0.0 is Codec,
        r->Err_0.0->Codec_0 is Schema,
{
}

/// Whether `hyper` reads `text` as a URI.
///
/// Which texts these are is the parser's matter and is not stated here. The
/// parser of `hyper` 0.11 looks at the form of a text, not at each of its
/// characters: it takes any text that begins with a scheme, `://` and a
/// host, so with it the addresses under [`API_HOST`] are all accepted.
pub uninterp spec fn uri_accepted(text: Seq<char>) -> bool;

/// `hyper::Uri`'s `FromStr`: the outcome of parsing `text`, without the URI
/// itself. Parsing succeeds exactly on the texts that `uri_accepted` holds of.
#[verifier::external_body]
fn check_uri(text: &str) -> (r: Result<(), hyper::error::UriError>)
    ensures
        r is Ok <==> uri_accepted(text@),
{
    match text.parse::<hyper::Uri>() {
        Ok(_) => Ok(()),
        Err(e) => Err(e),
    }
}

/// A client of the service, which holds the key that authorizes its requests.
#[derive(Debug, Clone)]
pub struct Client {
    key: String,
}

impl View for Client {
    type V = Seq<char>;

    /// The key.
    closed spec fn view(&self) -> Seq<char> {
        self.key@
    }
}

impl Client {
    /// A client that authorizes its requests with `credentials`.
    pub fn custom(credentials: String) -> (client: Client)
        ensures
            client@ == credentials@,
    {
        Client { key: credentials }
    }

    /// The request for `url` once the address has been checked: the request
    /// itself where the check passed, the check's error where it did not.
    pub fn prepare(
        &self,
        method: Method,
        url: String,
        checked: Result<(), hyper::error::UriError>,
        body: Option<Vec<u8>>,
    ) -> (r: Result<Request, ApiError>)
        ensures
            match checked {
                Ok(_) => r matches Ok(request) && request@ == (RequestView {
                    method: method@,
                    url: url@,
                    authorization: self@,
                    body: body.deep_view(),
                }),
                Err(e) => r matches Err(error) && error.0 == ErrorKind::URI(e),
            },
    {
        match checked {
            Ok(_) => Ok(Request { method, url, authorization: self.key.clone(), body }),
            Err(e) => Err(ApiError(ErrorKind::URI(e))),
        }
    }

    /// Whether `r` is what planning a request for `path` has to give: the
    /// request to the address of `path`, authorized with this client's key,
    /// where that address is a URI, and a URI error where it is not.
    pub open spec fn plans(
        &self,
        method: MethodView,
        path: Seq<char>,
        body: Option<Seq<u8>>,
        r: Result<Request, ApiError>,
    ) -> bool {
        match r {
            Ok(request) => uri_accepted(api_url(path)) && request@ == (RequestView {
                method,
                url: api_url(path),
                authorization: self@,
                body,
            }),
            Err(error) => !uri_accepted(api_url(path)) && error.0 is URI,
        }
    }

    /// The request for `uri`, a path with its query, by `method` and with
    /// `body`. It fails with a URI error where the full address is no URI.
    pub fn request(&self, method: Method, uri: String, body: Option<Vec<u8>>) -> (r: Result<
        Request,
        ApiError,
    >)
        ensures
            self.plans(method@, uri@, body.deep_view(), r),
    {
        let mut url = String::from_str(API_HOST);
        url.append(API_VERSION);
        url.append(uri.as_str());
        let checked = check_uri(url.as_str());
        self.prepare(method, url, checked, body)
    }

    /// The request that lists the projects.
    pub fn projects(&self) -> (r: Result<Request, ApiError>)
        ensures
            self.plans(MethodView::Get, "/projects"@, None, r),
    {
        self.request(Method::Get, String::from_str("/projects"), None)
    }

    /// The request that lists the flags of `project` that `options` select.
    pub fn flags(&self, project: &str, options: &FlagOptions) -> (r: Result<Request, ApiError>)
        ensures
            self.plans(MethodView::Get, flags_path(project@, options@), None, r),
    {
        let mut path = String::from_str("/flags/");
        path.append(project);
        if options.env.is_some() || options.tag.is_some() {
            path.append("?");
            path.append(options.query().as_str());
        }
        self.request(Method::Get, path, None)
    }

    /// The record in a body, given what the reader made of the body: the
    /// record that the document stands for, the schema error that says
    /// where the first fault is, or the reader's error where the body holds
    /// no document.
    pub fn decode<T: FromJson>(body: Result<Json, serde_json::Error>) -> (r: Result<T, ApiError>)
        ensures
            match body {
                Ok(json) => decoded_as::<T>(json@, r),
                Err(e) => r matches Err(error) && error.0 == ErrorKind::Codec(
                    CodecError::Syntax(e),
                ),
            },
    {
        match body {
            Ok(json) => match T::from_json(&json) {
                Ok(value) => Ok(value),
                Err(e) => Err(ApiError(ErrorKind::Codec(CodecError::Schema(e)))),
            },
            Err(e) => Err(ApiError(ErrorKind::Codec(CodecError::Syntax(e)))),
        }
    }

    /// What a reply means. A failure of the transport is handed through. A
    /// response whose status does not report success is the failure `fail`,
    /// whatever its body holds. The body of any other response is decoded:
    /// it gives the record that its document stands for, or a codec error.
    pub fn receive<T: FromJson>(reply: Reply) -> (r: Result<T, ApiError>)
        ensures
            match reply {
                Reply::HttpFailure(e) => r matches Err(error) && error.0 == ErrorKind::Http(e),
                Reply::IoFailure(e) => r matches Err(error) && error.0 == ErrorKind::IO(e),
                Reply::Response { status, body } => if !is_success(status) {
                    r matches Err(error) && error.0 matches ErrorKind::Msg(reason) && reason@
                        == "fail"@
                } else {
                    match body {
                        Ok(json) => decoded_as::<T>(json@, r),
                        Err(e) => r matches Err(error) && error.0 == ErrorKind::Codec(
                            CodecError::Syntax(e),
                        ),
                    }
                },
            },
    {
        match reply {
            Reply::HttpFailure(e) => Err(ApiError(ErrorKind::Http(e))),
            Reply::IoFailure(e) => Err(ApiError(ErrorKind::IO(e))),
            Reply::Response { status, body } => {
                if 200 <= status && status < 300 {
                    Self::decode(body)
                } else {
                    Err(ApiError(ErrorKind::Msg(String::from_str("fail"))))
                }
            },
        }
    }
}

} // verus!
