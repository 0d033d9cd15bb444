//! Prepared requests: what a call sends, as plain values that a transport
//! can carry out.

use crate::model::music::{MusicRecommendations, MusicRecommendationsView};
use crate::text::join;
use vstd::prelude::*;
use vstd::string::*;

verus! {

/// Origin that every endpoint path is resolved against.
pub const BASE_ENDPOINT: &'static str = "https://api.ksoft.si";

/// Absolute URL of the endpoint with relative path `to`.
pub open spec fn endpoint_url(to: Seq<char>) -> Seq<char> {
    BASE_ENDPOINT@ + to
}

/// Absolute URL of the endpoint with relative path `to`.
pub fn endpoint(to: &str) -> (url: String)
    ensures
        url@ == endpoint_url(to@),
{
    join(BASE_ENDPOINT, to)
}

/// HTTP method of a request.
#[derive(Clone, Copy, Debug, PartialEq, Eq, Structural)]
pub enum Method {
    Get,
    Post,
    Delete,
}

/// Value of a query or form parameter, before it is written as text.
#[derive(Clone, Debug, PartialEq, Eq)]
pub enum ParamValue {
    /// An unsigned number, written in decimal.
    Unsigned(u64),
    /// A flag, written as `true` or `false`.
    Flag(bool),
    /// A text, sent as it is.
    Text(String),
}

/// What a `ParamValue` holds, as plain values.
pub enum ParamValueView {
    Unsigned(u64),
    Flag(bool),
    Text(Seq<char>),
}

impl View for ParamValue {
    type V = ParamValueView;

    open spec fn view(&self) -> ParamValueView {
        match self {
            ParamValue::Unsigned(n) => ParamValueView::Unsigned(*n),
            ParamValue::Flag(b) => ParamValueView::Flag(*b),
            ParamValue::Text(t) => ParamValueView::Text(t@),
        }
    }
}

/// A named parameter of the query string or of a form body.
#[derive(Clone, Debug, PartialEq, Eq)]
pub struct Param {
    pub name: String,
    pub value: ParamValue,
}

/// What a `Param` holds, as plain values.
pub struct ParamView {
    pub name: Seq<char>,
    pub value: ParamValueView,
}

impl View for Param {
    type V = ParamView;

    open spec fn view(&self) -> ParamView {
        ParamView { name: self.name@, value: self.value@ }
    }
}

/// The parameter `name` with the number `value`.
pub open spec fn unsigned_param(name: Seq<char>, value: u64) -> ParamView {
    ParamView { name, value: ParamValueView::Unsigned(value) }
}

/// The parameter `name` with the flag `value`.
pub open spec fn flag_param(name: Seq<char>, value: bool) -> ParamView {
    ParamView { name, value: ParamValueView::Flag(value) }
}

/// The parameter `name` with the text `value`.
pub open spec fn text_param(name: Seq<char>, value: Seq<char>) -> ParamView {
    ParamView { name, value: ParamValueView::Text(value) }
}

impl Param {
    /// The parameter `name` with the number `value`.
    pub fn unsigned(name: &str, value: u64) -> (p: Param)
        ensures
            p@ == unsigned_param(name@, value),
    {
        Param { name: String::from_str(name), value: ParamValue::Unsigned(value) }
    }

    /// The parameter `name` with the flag `value`.
    pub fn flag(name: &str, value: bool) -> (p: Param)
        ensures
            p@ == flag_param(name@, value),
    {
        Param { name: String::from_str(name), value: ParamValue::Flag(value) }
    }

    /// The parameter `name` with the text `value`.
    pub fn text(name: &str, value: &str) -> (p: Param)
        ensures
            p@ == text_param(name@, value@),
    {
        Param { name: String::from_str(name), value: ParamValue::Text(String::from_str(value)) }
    }
}

/// The parameters of `params`, each as plain values, in the same order.
pub open spec fn params_view(params: Seq<Param>) -> Seq<ParamView> {
    Seq::new(params.len(), |i: int| params[i]@)
}

/// Body of a request.
#[derive(Clone, Debug, PartialEq, Eq)]
pub enum Body {
    /// No body.
    Empty,
    /// A form of named fields, url-encoded in this order.
    Form(Vec<Param>),
    /// A request for recommendations, sent as a JSON object.
    Json(MusicRecommendations),
}

/// What a `Body` holds, as plain values.
#[verifier::ext_equal]
pub enum BodyView {
    Empty,
    Form(Seq<ParamView>),
    Json(MusicRecommendationsView),
}

impl View for Body {
    type V = BodyView;

    open spec fn view(&self) -> BodyView {
        match self {
            Body::Empty => BodyView::Empty,
            Body::Form(fields) => BodyView::Form(params_view(fields@)),
            Body::Json(payload) => BodyView::Json(payload@),
        }
    }
}

/// A request that is ready to be sent: method, absolute URL, query
/// parameters in the order in which they are written, and body.
#[derive(Clone, Debug, PartialEq, Eq)]
pub struct PreparedRequest {
    pub method: Method,
    pub url: String,
    pub query: Vec<Param>,
    pub body: Body,
}

/// What a `PreparedRequest` holds, as plain values.
#[verifier::ext_equal]
pub struct RequestView {
    pub method: Method,
    pub url: Seq<char>,
    pub query: Seq<ParamView>,
    pub body: BodyView,
}

impl View for PreparedRequest {
    type V = RequestView;

    open spec fn view(&self) -> RequestView {
        RequestView {
            method: self.method,
            url: self.url@,
            query: params_view(self.query@),
            body: self.body@,
        }
    }
}

/// The request with method `method` to the endpoint `path`, without query
/// and body.
pub open spec fn bare_request(method: Method, path: Seq<char>) -> RequestView {
    RequestView { method, url: endpoint_url(path), query: Seq::empty(), body: BodyView::Empty }
}

impl RequestView {
    /// This request with `param` added at the end of its query.
    pub open spec fn query(self, param: ParamView) -> RequestView {
        RequestView { query: self.query.push(param), ..self }
    }

    /// This request with `body` in place of its body.
    pub open spec fn body(self, body: BodyView) -> RequestView {
        RequestView { body, ..self }
    }
}

impl PreparedRequest {
    /// A request with method `method` to the endpoint `path`, without query
    /// and body.
    pub fn new(method: Method, path: &str) -> (r: PreparedRequest)
        ensures
            r@ == bare_request(method, path@),
    {
        let r = PreparedRequest {
            method,
            url: endpoint(path),
            query: Vec::new(),
            body: Body::Empty,
        };
        assert(r@ =~~= bare_request(method, path@));
        r
    }

    /// A GET request to the endpoint `path`.
    pub fn get(path: &str) -> (r: PreparedRequest)
        ensures
            r@ == bare_request(Method::Get, path@),
    {
        PreparedRequest::new(Method::Get, path)
    }

    /// A POST request to the endpoint `path`.
    pub fn post(path: &str) -> (r: PreparedRequest)
        ensures
            r@ == bare_request(Method::Post, path@),
    {
        PreparedRequest::new(Method::Post, path)
    }

    /// A DELETE request to the endpoint `path`.
    pub fn delete(path: &str) -> (r: PreparedRequest)
        ensures
            r@ == bare_request(Method::Delete, path@),
    {
        PreparedRequest::new(Method::Delete, path)
    }

    /// Adds `param` at the end of the query.
    pub fn query(self, param: Param) -> (r: PreparedRequest)
        ensures
            r@ == self@.query(param@),
    {
        let mut r = self;
        r.query.push(param);
        assert(r@ =~~= self@.query(param@));
        r
    }

    /// Sends `fields` as a form.
    pub fn form(self, fields: Vec<Param>) -> (r: PreparedRequest)
        ensures
            r@ == self@.body(BodyView::Form(params_view(fields@))),
    {
        let mut r = self;
        r.body = Body::Form(fields);
        r
    }

    /// Sends `payload` as a JSON object.
    pub fn json(self, payload: MusicRecommendations) -> (r: PreparedRequest)
        ensures
            r@ == self@.body(BodyView::Json(payload@)),
    {
        let mut r = self;
        r.body = Body::Json(payload);
        r
    }
}

} // verus!
