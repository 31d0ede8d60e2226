//! The request relay: what it forwards for a request that a client
//! describes, and what it answers once the target has replied.
//!
//! The relay forwards to the target whatever certificate the target shows.
//! A client's login fields and its query fields both travel as query
//! parameters of the outgoing request, each as a group of its own. A reply
//! that is JSON goes back as JSON, any other reply goes back as it came, as
//! plain text. The caller does the network traffic on both sides.

use vstd::prelude::*;
use vstd::string::StringExecFns;
use vstd::utf8::{
    decode_utf8, decode_utf8_encode_utf8, encode_utf8, encode_utf8_decode_utf8,
    encode_utf8_valid_utf8, is_ascii_chars, is_ascii_chars_encode_utf8, valid_utf8,
};
use crate::error::{ErrorKind, ErrorKindView};
use crate::json::{json_rendering, json_string_literal, quote, render};
use crate::query::{
    as_map, distinct_keys, groups_view, has_key, lemma_map_keys, lemma_map_of_concat,
    lemma_merged_is_the_map, lemma_upsert_all_merged, merged, optional_pair, pairs_view, set_pair,
    set_pairs, upsert, Pair,
};
use crate::text::{opt_text, same_text};

verus! {

/// What a client asks the relay to forward.
#[derive(Debug)]
pub struct ProxyRequest {
    pub original_url: String,
    pub batch_id: Option<String>,
    pub class_type: Option<String>,
    pub class_id: Option<String>,
    pub secret_val: Option<String>,
    pub params: Option<Vec<(String, String)>>,
    pub loginname: Option<String>,
    pub password: Option<String>,
    pub captcha: Option<String>,
    pub uuid: Option<String>,
}

/// The mathematical model of a `ProxyRequest`.
pub struct ProxyRequestView {
    pub original_url: Seq<char>,
    pub batch_id: Option<Seq<char>>,
    pub class_type: Option<Seq<char>>,
    pub class_id: Option<Seq<char>>,
    pub secret_val: Option<Seq<char>>,
    pub params: Option<Seq<Pair>>,
    pub loginname: Option<Seq<char>>,
    pub password: Option<Seq<char>>,
    pub captcha: Option<Seq<char>>,
    pub uuid: Option<Seq<char>>,
}

impl View for ProxyRequest {
    type V = ProxyRequestView;

    open spec fn view(&self) -> ProxyRequestView {
        ProxyRequestView {
            original_url: self.original_url@,
            batch_id: opt_text(self.batch_id),
            class_type: opt_text(self.class_type),
            class_id: opt_text(self.class_id),
            secret_val: opt_text(self.secret_val),
            params: match self.params {
                Some(p) => Some(pairs_view(p@)),
                None => None,
            },
            loginname: opt_text(self.loginname),
            password: opt_text(self.password),
            captcha: opt_text(self.captcha),
            uuid: opt_text(self.uuid),
        }
    }
}

/// The method of an outgoing request.
#[derive(Clone, Copy, Debug, PartialEq, Eq, Structural)]
pub enum Method {
    Get,
    Post,
}

/// The content type of an answer of the relay.
#[derive(Clone, Copy, Debug, PartialEq, Eq, Structural)]
pub enum ContentType {
    /// `application/json`
    Json,
    /// `text/plain`
    Text,
    /// `text/html`
    Html,
}

impl ContentType {
    /// The content type as it stands in a header.
    pub open spec fn spec_header_value(self) -> Seq<char> {
        match self {
            ContentType::Json => "application/json"@,
            ContentType::Text => "text/plain"@,
            ContentType::Html => "text/html"@,
        }
    }

    /// The content type as it stands in a header.
    pub fn header_value(self) -> (r: &'static str)
        ensures
            r@ == self.spec_header_value(),
    {
        match self {
            ContentType::Json => "application/json",
            ContentType::Text => "text/plain",
            ContentType::Html => "text/html",
        }
    }
}

/// An answer of the relay to its client.
#[derive(Debug)]
pub struct RelayResponse {
    pub status: u16,
    pub content_type: ContentType,
    pub body: String,
}

/// The mathematical model of a `RelayResponse`.
pub struct RelayResponseView {
    pub status: u16,
    pub content_type: ContentType,
    pub body: Seq<char>,
}

impl View for RelayResponse {
    type V = RelayResponseView;

    open spec fn view(&self) -> RelayResponseView {
        RelayResponseView {
            status: self.status,
            content_type: self.content_type,
            body: self.body@,
        }
    }
}

/// A request that the relay sends to the target.
#[derive(Debug)]
pub struct Forward {
    pub method: Method,
    pub url: String,
    /// The value of the `Authorization` header, where the client sent one.
    pub authorization: Option<String>,
    /// The groups of query parameters, in the order in which they are
    /// appended to the URL. No group is empty.
    pub query_groups: Vec<Vec<(String, String)>>,
    /// Whether the target is trusted whatever certificate it shows. The
    /// portal's certificates do not validate, so the relay always does.
    pub accept_invalid_certs: bool,
}

/// The mathematical model of a `Forward`.
pub struct ForwardView {
    pub method: Method,
    pub url: Seq<char>,
    pub authorization: Option<Seq<char>>,
    pub query_groups: Seq<Seq<Pair>>,
    pub accept_invalid_certs: bool,
}

impl View for Forward {
    type V = ForwardView;

    open spec fn view(&self) -> ForwardView {
        ForwardView {
            method: self.method,
            url: self.url@,
            authorization: opt_text(self.authorization),
            query_groups: groups_view(self.query_groups@),
            accept_invalid_certs: self.accept_invalid_certs,
        }
    }
}

/// What the relay does with a request of a client.
#[derive(Debug)]
pub enum Decision {
    /// Send this to the target.
    Forward(Forward),
    /// Answer the client at once.
    Reject(RelayResponse),
}

/// The mathematical model of a `Decision`.
pub enum DecisionView {
    Forward(ForwardView),
    Reject(RelayResponseView),
}

impl View for Decision {
    type V = DecisionView;

    open spec fn view(&self) -> DecisionView {
        match *self {
            Decision::Forward(f) => DecisionView::Forward(f@),
            Decision::Reject(r) => DecisionView::Reject(r@),
        }
    }
}

/// How the exchange with the target ended.
#[derive(Debug)]
pub enum Upstream {
    /// The target replied with this body.
    Body(String),
    /// The target replied, but its body could not be read; the words of the
    /// failure.
    Unreadable(String),
    /// The request did not get through; the words of the failure.
    Unreachable(String),
}

/// The mathematical model of an `Upstream`.
pub enum UpstreamView {
    Body(Seq<char>),
    Unreadable(Seq<char>),
    Unreachable(Seq<char>),
}

impl View for Upstream {
    type V = UpstreamView;

    open spec fn view(&self) -> UpstreamView {
        match *self {
            Upstream::Body(t) => UpstreamView::Body(t@),
            Upstream::Unreadable(e) => UpstreamView::Unreadable(e@),
            Upstream::Unreachable(e) => UpstreamView::Unreachable(e@),
        }
    }
}

/// The text of a header value: the characters that its bytes encode, where
/// the bytes are valid UTF-8. `None` for any other value.
pub open spec fn header_text_spec(bytes: Seq<u8>) -> Option<Seq<char>> {
    if valid_utf8(bytes) {
        Some(decode_utf8(bytes))
    } else {
        None
    }
}

/// Calls `core::str::from_utf8` on the bytes. The contract says what the
/// standard library documents of it: the call succeeds exactly on valid
/// UTF-8, and the string slice it hands back is the text that the bytes
/// encode, byte for byte. It is not proved.
#[verifier::external_body]
pub(crate) fn header_text(bytes: &[u8]) -> (r: Option<String>)
    ensures
        opt_text(r) == header_text_spec(bytes@),
{
    match core::str::from_utf8(bytes) {
        Ok(text) => Some(text.to_string()),
        Err(_) => None,
    }
}

/// The body of an error answer: a JSON object whose one member, `error`,
/// is the message, given here as a JSON string literal.
pub open spec fn error_body_spec(literal: Seq<char>) -> Seq<char> {
    "{\"error\":"@ + literal + "}"@
}

/// The error answer with a status and a message.
pub open spec fn error_reply_spec(status: u16, message: Seq<char>) -> RelayResponseView {
    RelayResponseView {
        status,
        content_type: ContentType::Json,
        body: error_body_spec(json_string_literal(message)),
    }
}

/// The error answer with a status and a message that is given as a JSON
/// string literal.
pub fn error_reply_of(status: u16, literal: &str) -> (r: RelayResponse)
    ensures
        r@ == (RelayResponseView {
            status,
            content_type: ContentType::Json,
            body: error_body_spec(literal@),
        }),
{
    let mut body = String::from_str("{\"error\":");
    body.append(literal);
    body.append("}");
    RelayResponse { status, content_type: ContentType::Json, body }
}

/// The error answer with a status and a message.
pub fn error_reply(status: u16, message: &str) -> (r: RelayResponse)
    ensures
        r@ == error_reply_spec(status, message@),
{
    let literal = quote(message);
    error_reply_of(status, literal.as_str())
}

/// The bearer token that is passed on, read from the bytes of the client's
/// `Authorization` header. No header is no error: nothing is passed on. A
/// header that is not valid UTF-8 is refused.
pub open spec fn authorization_spec(header: Option<Seq<u8>>) -> Result<
    Option<Seq<char>>,
    ErrorKindView,
> {
    match header {
        None => Ok(None),
        Some(bytes) => match header_text_spec(bytes) {
            Some(text) => Ok(Some(text)),
            None => Err(ErrorKindView::AuthError("Invalid authorization token"@)),
        },
    }
}

/// The view of the bytes of an optional header.
pub open spec fn header_view(header: Option<Vec<u8>>) -> Option<Seq<u8>> {
    match header {
        Some(bytes) => Some(bytes@),
        None => None,
    }
}

/// The bearer token that is passed on.
pub fn authorization(header: &Option<Vec<u8>>) -> (r: Result<Option<String>, ErrorKind>)
    ensures
        match authorization_spec(header_view(*header)) {
            Ok(token) => r is Ok && opt_text(r->Ok_0) == token,
            Err(e) => r is Err && r->Err_0@ == e,
        },
{
    match header {
        None => Ok(None),
        Some(bytes) => match header_text(bytes.as_slice()) {
            Some(text) => Ok(Some(text)),
            None => Err(ErrorKind::AuthError("Invalid authorization token".to_string())),
        },
    }
}

/// The login fields of a request, as query parameters: those that are
/// there, under their own names.
pub open spec fn body_fields(req: ProxyRequestView) -> Seq<Pair> {
    optional_pair("loginname"@, req.loginname) + optional_pair("password"@, req.password)
        + optional_pair("captcha"@, req.captcha) + optional_pair("uuid"@, req.uuid)
}

/// The named query fields of a request that are there, under the names that
/// the portal reads.
pub open spec fn named_fields(req: ProxyRequestView) -> Seq<Pair> {
    optional_pair("batchId"@, req.batch_id) + optional_pair("clazzType"@, req.class_type)
        + optional_pair("clazzId"@, req.class_id) + optional_pair("secretVal"@, req.secret_val)
}

/// The free parameters of a request.
pub open spec fn free_params(req: ProxyRequestView) -> Seq<Pair> {
    match req.params {
        Some(p) => p,
        None => Seq::empty(),
    }
}

/// The named query fields of a request, followed by its free parameters.
pub open spec fn query_pairs(req: ProxyRequestView) -> Seq<Pair> {
    named_fields(req) + free_params(req)
}

/// The query fields of a request, as query parameters: each key once, a free
/// parameter replacing a named field of the same key, and a later free
/// parameter an earlier one.
pub open spec fn query_fields(req: ProxyRequestView) -> Seq<Pair> {
    merged(query_pairs(req))
}

/// A group of query parameters as a list of groups: of one group, or of none
/// where the group is empty.
pub open spec fn group_if_any(group: Seq<Pair>) -> Seq<Seq<Pair>> {
    if group.len() > 0 {
        seq![group]
    } else {
        Seq::empty()
    }
}

/// The groups of query parameters of the outgoing request: the login fields,
/// then the query fields, each left out where it is empty.
pub open spec fn query_groups(req: ProxyRequestView) -> Seq<Seq<Pair>> {
    group_if_any(body_fields(req)) + group_if_any(query_fields(req))
}

/// What the relay does with a request to forward, given the bytes of the
/// client's `Authorization` header.
pub open spec fn post_decision(req: ProxyRequestView, header: Option<Seq<u8>>) -> DecisionView {
    match authorization_spec(header) {
        Err(e) => DecisionView::Reject(failure_reply_spec(e)),
        Ok(token) => DecisionView::Forward(
            ForwardView {
                method: Method::Post,
                url: req.original_url,
                authorization: token,
                query_groups: query_groups(req),
                accept_invalid_certs: true,
            },
        ),
    }
}

/// The one page that the relay fetches with GET.
pub open spec fn landing_endpoint() -> Seq<char> {
    "profile/index.html"@
}

/// The address of that page.
pub open spec fn landing_url() -> Seq<char> {
    "https://icourses.jlu.edu.cn/xsxk/profile/index.html"@
}

/// What the relay does with a GET for an endpoint.
pub open spec fn get_decision(endpoint: Seq<char>, header: Option<Seq<u8>>) -> DecisionView {
    if endpoint != landing_endpoint() {
        DecisionView::Reject(error_reply_spec(400, "Invalid endpoint for GET request"@))
    } else {
        match authorization_spec(header) {
            Err(e) => DecisionView::Reject(failure_reply_spec(e)),
            Ok(token) => DecisionView::Forward(
                ForwardView {
                    method: Method::Get,
                    url: landing_url(),
                    authorization: token,
                    query_groups: Seq::empty(),
                    accept_invalid_certs: true,
                },
            ),
        }
    }
}

/// Appends a field to a group, where the field is there.
fn push_optional(acc: &mut Vec<(String, String)>, key: &str, value: &Option<String>)
    ensures
        pairs_view(final(acc)@) == pairs_view(old(acc)@) + optional_pair(key@, opt_text(*value)),
{
    match value {
        Some(v) => {
            acc.push((String::from_str(key), v.clone()));
        },
        None => {},
    }
}

/// Sets a field in a group, where the field is there.
fn set_optional(acc: &mut Vec<(String, String)>, key: &str, value: &Option<String>)
    ensures
        pairs_view(final(acc)@) == match *value {
            Some(v) => upsert(pairs_view(old(acc)@), key@, v@),
            None => pairs_view(old(acc)@),
        },
{
    match value {
        Some(v) => {
            set_pair(acc, String::from_str(key), v.clone());
        },
        None => {},
    }
}

/// Merging a list that ends in an optional pair.
proof fn lemma_merged_optional(pairs: Seq<Pair>, key: Seq<char>, value: Option<Seq<char>>)
    ensures
        merged(pairs + optional_pair(key, value)) == match value {
            Some(v) => upsert(merged(pairs), key, v),
            None => merged(pairs),
        },
{
    match value {
        Some(v) => {
            assert((pairs + optional_pair(key, value)).drop_last() =~= pairs);
        },
        None => {},
    }
}

/// The login fields of a request, as a group of query parameters.
fn collect_body_fields(body: &ProxyRequest) -> (group: Vec<(String, String)>)
    ensures
        pairs_view(group@) == body_fields(body@),
{
    let mut group: Vec<(String, String)> = Vec::new();
    push_optional(&mut group, "loginname", &body.loginname);
    push_optional(&mut group, "password", &body.password);
    push_optional(&mut group, "captcha", &body.captcha);
    push_optional(&mut group, "uuid", &body.uuid);
    group
}

/// The query fields of a request, as a group of query parameters.
fn collect_query_fields(body: &ProxyRequest) -> (group: Vec<(String, String)>)
    ensures
        pairs_view(group@) == query_fields(body@),
{
    let ghost req = body@;
    let ghost none = Seq::<Pair>::empty();
    let ghost with_round = none + optional_pair("batchId"@, req.batch_id);
    let ghost with_type = with_round + optional_pair("clazzType"@, req.class_type);
    let ghost with_class = with_type + optional_pair("clazzId"@, req.class_id);
    let ghost named = with_class + optional_pair("secretVal"@, req.secret_val);
    let mut group: Vec<(String, String)> = Vec::new();
    assert(pairs_view(group@) =~= merged(none));
    set_optional(&mut group, "batchId", &body.batch_id);
    proof {
        lemma_merged_optional(none, "batchId"@, req.batch_id);
    }
    set_optional(&mut group, "clazzType", &body.class_type);
    proof {
        lemma_merged_optional(with_round, "clazzType"@, req.class_type);
    }
    set_optional(&mut group, "clazzId", &body.class_id);
    proof {
        lemma_merged_optional(with_type, "clazzId"@, req.class_id);
    }
    set_optional(&mut group, "secretVal", &body.secret_val);
    proof {
        lemma_merged_optional(with_class, "secretVal"@, req.secret_val);
    }
    match &body.params {
        Some(extra) => {
            set_pairs(&mut group, extra);
            proof {
                lemma_upsert_all_merged(named, pairs_view(extra@));
            }
        },
        None => {},
    }
    group
}

/// Decides what to do with a request to forward.
///
/// A header that is not valid UTF-8 is answered with status 400. Any
/// other request is forwarded with POST to the address it names, with the
/// client's token where there is one, and with its login fields and its
/// query fields as two groups of query parameters.
pub fn proxy_handler(body: &ProxyRequest, header: &Option<Vec<u8>>) -> (d: Decision)
    ensures
        d@ == post_decision(body@, header_view(*header)),
{
    let token = match authorization(header) {
        Ok(token) => token,
        Err(e) => {
            return Decision::Reject(failure_reply(&e));
        },
    };
    let request_body = collect_body_fields(body);
    let query_params = collect_query_fields(body);
    let mut groups: Vec<Vec<(String, String)>> = Vec::new();
    if request_body.len() > 0 {
        groups.push(request_body);
    }
    if query_params.len() > 0 {
        groups.push(query_params);
    }
    assert(groups_view(groups@) =~= query_groups(body@));
    Decision::Forward(
        Forward {
            method: Method::Post,
            url: body.original_url.clone(),
            authorization: token,
            query_groups: groups,
            accept_invalid_certs: true,
        },
    )
}

/// Decides what to do with a GET for an endpoint.
///
/// Only the portal's landing page can be fetched; any other endpoint is
/// answered with status 400, and so is a header that is not valid UTF-8. The page is fetched with the client's token where there is one,
/// and without query parameters.
pub fn proxy_handler_get(endpoint: &str, header: &Option<Vec<u8>>) -> (d: Decision)
    ensures
        d@ == get_decision(endpoint@, header_view(*header)),
{
    if !same_text(endpoint, "profile/index.html") {
        return Decision::Reject(error_reply(400, "Invalid endpoint for GET request"));
    }
    let token = match authorization(header) {
        Ok(token) => token,
        Err(e) => {
            return Decision::Reject(failure_reply(&e));
        },
    };
    let groups: Vec<Vec<(String, String)>> = Vec::new();
    assert(groups_view(groups@) =~= Seq::<Seq<Pair>>::empty());
    Decision::Forward(
        Forward {
            method: Method::Get,
            url: "https://icourses.jlu.edu.cn/xsxk/profile/index.html".to_string(),
            authorization: token,
            query_groups: groups,
            accept_invalid_certs: true,
        },
    )
}

/// The failure of an exchange with the target, where it failed: a network
/// error that says which part of the exchange failed, and in what words.
pub open spec fn upstream_failure_spec(upstream: UpstreamView) -> Option<ErrorKindView> {
    match upstream {
        UpstreamView::Body(_) => None,
        UpstreamView::Unreadable(e) => Some(
            ErrorKindView::NetworkError("Failed to read response: "@ + e),
        ),
        UpstreamView::Unreachable(e) => Some(ErrorKindView::NetworkError("Request failed: "@ + e)),
    }
}

/// The status of the answer for a failure: 400 for a token that cannot be
/// read, 500 for everything else.
pub open spec fn failure_status(e: ErrorKindView) -> u16 {
    match e {
        ErrorKindView::AuthError(_) => 400,
        _ => 500,
    }
}

/// The answer for a failure: its status, and its message as a JSON error
/// body.
pub open spec fn failure_reply_spec(e: ErrorKindView) -> RelayResponseView {
    error_reply_spec(failure_status(e), e.message())
}

/// The answer for a body that the target sent, given the compact JSON text
/// of the body where the body is JSON: that text as JSON, or else the body
/// itself as plain text. The status is 200 either way.
pub open spec fn body_reply_spec(text: Seq<char>, rendering: Option<Seq<char>>)
    -> RelayResponseView {
    match rendering {
        Some(json) => RelayResponseView { status: 200, content_type: ContentType::Json, body: json },
        None => RelayResponseView { status: 200, content_type: ContentType::Text, body: text },
    }
}

/// The answer to a forwarded POST: the target's body as `body_reply_spec`
/// has it, or status 500 with the words of the failure.
pub open spec fn post_reply_spec(upstream: UpstreamView) -> RelayResponseView {
    match upstream {
        UpstreamView::Body(text) => body_reply_spec(text, json_rendering(text)),
        _ => failure_reply_spec(upstream_failure_spec(upstream)->0),
    }
}

/// The answer to a forwarded GET: the target's body as HTML, or status 500
/// with the words of the failure.
pub open spec fn get_reply_spec(upstream: UpstreamView) -> RelayResponseView {
    match upstream {
        UpstreamView::Body(text) => RelayResponseView {
            status: 200,
            content_type: ContentType::Html,
            body: text,
        },
        _ => failure_reply_spec(upstream_failure_spec(upstream)->0),
    }
}

/// The answer for a body that the target sent, given the compact JSON text
/// of the body where the body is JSON.
pub fn body_reply(text: String, rendering: Option<String>) -> (r: RelayResponse)
    ensures
        r@ == body_reply_spec(text@, opt_text(rendering)),
{
    match rendering {
        Some(json) => RelayResponse { status: 200, content_type: ContentType::Json, body: json },
        None => RelayResponse { status: 200, content_type: ContentType::Text, body: text },
    }
}

/// The network error for a part of the exchange that failed.
fn network_failure(part: &str, words: &str) -> (e: ErrorKind)
    ensures
        e@ == ErrorKindView::NetworkError(part@ + words@),
{
    let mut message = String::from_str(part);
    message.append(words);
    ErrorKind::NetworkError(message)
}

/// The failure of an exchange with the target, where it failed.
pub fn upstream_failure(upstream: &Upstream) -> (r: Option<ErrorKind>)
    ensures
        match upstream_failure_spec(upstream@) {
            Some(e) => r is Some && r->0@ == e,
            None => r is None,
        },
{
    match upstream {
        Upstream::Body(_) => None,
        Upstream::Unreadable(e) => Some(network_failure("Failed to read response: ", e.as_str())),
        Upstream::Unreachable(e) => Some(network_failure("Request failed: ", e.as_str())),
    }
}

/// The answer for a failure. No failure ends the relay: each is answered.
pub fn failure_reply(e: &ErrorKind) -> (r: RelayResponse)
    ensures
        r@ == failure_reply_spec(e@),
{
    let status: u16 = match e {
        ErrorKind::AuthError(_) => 400,
        _ => 500,
    };
    let message = e.message();
    error_reply(status, message.as_str())
}

/// Answers the client after a forwarded POST.
///
/// A body that is JSON goes back as JSON, any other body as plain text, as
/// it came: a body that is not JSON is no error. A failed exchange is
/// answered with status 500 and the words of the failure.
pub fn proxy_handler_reply(upstream: Upstream) -> (r: RelayResponse)
    ensures
        r@ == post_reply_spec(upstream@),
{
    match upstream {
        Upstream::Body(text) => {
            let rendering = render(text.as_str());
            body_reply(text, rendering)
        },
        Upstream::Unreadable(e) => failure_reply(
            &network_failure("Failed to read response: ", e.as_str()),
        ),
        Upstream::Unreachable(e) => failure_reply(&network_failure("Request failed: ", e.as_str())),
    }
}

/// Answers the client after a forwarded GET.
///
/// The body goes back as HTML, as it came. A failed exchange is answered
/// with status 500 and the words of the failure.
pub fn proxy_handler_get_reply(upstream: Upstream) -> (r: RelayResponse)
    ensures
        r@ == get_reply_spec(upstream@),
{
    match upstream {
        Upstream::Body(text) => RelayResponse {
            status: 200,
            content_type: ContentType::Html,
            body: text,
        },
        Upstream::Unreadable(e) => failure_reply(
            &network_failure("Failed to read response: ", e.as_str()),
        ),
        Upstream::Unreachable(e) => failure_reply(&network_failure("Request failed: ", e.as_str())),
    }
}

/// Merging of query parameters: the query fields that go out hold no key
/// twice, and hold exactly the named fields and the free parameters of the
/// request, a free parameter standing in for a named field of the same key.
pub proof fn lemma_query_fields_hold_both(req: ProxyRequestView)
    ensures
        distinct_keys(query_fields(req)),
        as_map(query_fields(req)) == as_map(named_fields(req)).union_prefer_right(
            as_map(free_params(req)),
        ),
{
    lemma_merged_is_the_map(query_pairs(req));
    lemma_map_of_concat(named_fields(req), free_params(req));
}

/// A round and free parameters travel together: where a request names a
/// round and its free parameters do not speak of `batchId`, the query fields
/// that go out give `batchId` the round, and give every key of the free
/// parameters its value.
pub proof fn lemma_round_and_params_both_sent(req: ProxyRequestView, key: Seq<char>)
    requires
        req.batch_id is Some,
        !has_key(free_params(req), "batchId"@),
        has_key(free_params(req), key),
    ensures
        has_key(query_fields(req), "batchId"@),
        as_map(query_fields(req))["batchId"@] == req.batch_id->0,
        has_key(query_fields(req), key),
        as_map(query_fields(req))[key] == as_map(free_params(req))[key],
{
    lemma_query_fields_hold_both(req);
    lemma_map_keys(free_params(req), "batchId"@);
    lemma_map_keys(free_params(req), key);
    lemma_map_keys(query_fields(req), "batchId"@);
    lemma_map_keys(query_fields(req), key);
    let first = optional_pair("batchId"@, req.batch_id);
    let rest = optional_pair("clazzType"@, req.class_type) + optional_pair(
        "clazzId"@,
        req.class_id,
    ) + optional_pair("secretVal"@, req.secret_val);
    assert(named_fields(req) =~= first + rest);
    lemma_map_of_concat(first, rest);
    lemma_map_keys(rest, "batchId"@);
    reveal_strlit("batchId");
    reveal_strlit("clazzType");
    reveal_strlit("clazzId");
    reveal_strlit("secretVal");
    assert(!has_key(rest, "batchId"@)) by {
        if has_key(rest, "batchId"@) {
            assert("batchId"@[0] == 'b');
        }
    }
    assert(as_map(first.drop_last()) =~= Map::<Seq<char>, Seq<char>>::empty());
}

/// A body that is not JSON is no error: it goes back with status 200, as
/// plain text, exactly as it came.
pub proof fn lemma_non_json_goes_back_as_it_came(text: Seq<char>)
    requires
        json_rendering(text) is None,
    ensures
        post_reply_spec(UpstreamView::Body(text)) == (RelayResponseView {
            status: 200,
            content_type: ContentType::Text,
            body: text,
        }),
{
}

/// A request without an `Authorization` header is forwarded, without that
/// header.
pub proof fn lemma_no_header_is_forwarded(req: ProxyRequestView)
    ensures
        post_decision(req, None) is Forward,
        post_decision(req, None)->Forward_0.authorization is None,
        post_decision(req, None)->Forward_0.url == req.original_url,
        post_decision(req, None)->Forward_0.accept_invalid_certs,
        get_decision(landing_endpoint(), None) is Forward,
        get_decision(landing_endpoint(), None)->Forward_0.authorization is None,
{
}

/// A request whose `Authorization` header is not valid UTF-8 is answered
/// with status 400 and is not forwarded.
pub proof fn lemma_unreadable_header_is_refused(req: ProxyRequestView, bytes: Seq<u8>)
    requires
        !valid_utf8(bytes),
    ensures
        post_decision(req, Some(bytes)) is Reject,
        post_decision(req, Some(bytes))->Reject_0.status == 400,
        get_decision(landing_endpoint(), Some(bytes)) is Reject,
        get_decision(landing_endpoint(), Some(bytes))->Reject_0.status == 400,
{
}

/// A header that is valid UTF-8 is forwarded verbatim: the request goes out
/// with the text that the bytes encode, and that text encodes to the same
/// bytes again, nothing added, dropped or changed.
pub proof fn lemma_readable_header_is_passed_on(req: ProxyRequestView, bytes: Seq<u8>)
    requires
        valid_utf8(bytes),
    ensures
        post_decision(req, Some(bytes)) is Forward,
        post_decision(req, Some(bytes))->Forward_0.authorization == Some(decode_utf8(bytes)),
        get_decision(landing_endpoint(), Some(bytes)) is Forward,
        get_decision(landing_endpoint(), Some(bytes))->Forward_0.authorization == Some(
            decode_utf8(bytes),
        ),
        encode_utf8(decode_utf8(bytes)) == bytes,
{
    decode_utf8_encode_utf8(bytes);
}

/// A header of ASCII bytes is valid UTF-8, and is forwarded as the text of
/// the same length whose characters are the bytes.
pub proof fn lemma_ascii_header_is_its_text(req: ProxyRequestView, bytes: Seq<u8>)
    requires
        forall|i: int| 0 <= i < bytes.len() ==> (#[trigger] bytes[i]) < 128,
    ensures
        valid_utf8(bytes),
        post_decision(req, Some(bytes)) is Forward,
        post_decision(req, Some(bytes))->Forward_0.authorization == Some(
            bytes.map_values(|b: u8| b as char),
        ),
{
    let chars = bytes.map_values(|b: u8| b as char);
    assert(is_ascii_chars(chars)) by {
        assert forall|i: int| 0 <= i < chars.len() implies '\0' <= #[trigger] chars[i]
            <= '\u{7f}' by {
            assert(bytes[i] < 128);
        }
    }
    is_ascii_chars_encode_utf8(chars);
    assert(encode_utf8(chars) =~= bytes) by {
        assert forall|i: int| 0 <= i < bytes.len() implies encode_utf8(chars)[i] == bytes[i] by {
            assert(chars[i] as u8 == encode_utf8(chars)[i]);
            assert(bytes[i] < 128);
        }
    }
    encode_utf8_valid_utf8(chars);
    encode_utf8_decode_utf8(chars);
}

/// Only the landing page can be fetched with GET: any other endpoint is
/// answered with status 400, whatever the header.
pub proof fn lemma_other_endpoints_are_refused(endpoint: Seq<char>, header: Option<Seq<u8>>)
    requires
        endpoint != landing_endpoint(),
    ensures
        get_decision(endpoint, header) is Reject,
        get_decision(endpoint, header)->Reject_0.status == 400,
{
}

} // verus!
