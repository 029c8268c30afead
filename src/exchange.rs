use crate::request::{
    graphql_json, header_texts, rest_payload, Method, Request, RequestType,
};
use crate::endpoint::opt_text;
use vstd::prelude::*;

verus! {

/// Why a call failed.
pub enum BridgeError {
    /// The body could not be written as JSON; nothing was sent.
    EncodingError(serde_json::Error),
    /// The transport failed, sending the call or reading the body.
    HttpError { url: String, source: String },
    /// The response status was not a success; the body was not read.
    WrongStatusCode(String, u16),
}

/// Whether a call was a REST call or a GraphQL call.
#[derive(Clone, Copy, Debug, PartialEq, Eq, Structural)]
pub enum RequestKind {
    Rest,
    GraphQL,
}

pub open spec fn kind_of(t: RequestType) -> RequestKind {
    match t {
        RequestType::Rest(_) => RequestKind::Rest,
        RequestType::GraphQL(_) => RequestKind::GraphQL,
    }
}

/// The text sent as the body of a call of `t`, when it can be written.
pub open spec fn payload_of(t: RequestType) -> Seq<char> {
    match t {
        RequestType::Rest(r) => rest_payload(r.body),
        RequestType::GraphQL(g) => graphql_json(g.body.query@, opt_text(g.body.variables)),
    }
}

/// A status code in the success range.
pub open spec fn is_success(status: u16) -> bool {
    200 <= status < 300
}

/// Everything the transport needs to make one call, computed before anything is sent.
pub struct Outgoing {
    pub method: Method,
    pub url: String,
    pub headers: Vec<(String, String)>,
    pub body: String,
    pub request_id: u128,
    pub kind: RequestKind,
}

/// The result of a call that succeeded.
pub struct Response {
    pub url: String,
    pub status_code: u16,
    pub body: String,
    pub request_id: u128,
    pub kind: RequestKind,
}

impl Outgoing {
    /// This call is the one that the builder `req` describes.
    pub open spec fn prepared_from<'a>(&self, req: &Request<'a>) -> bool {
        &&& self.method == req.request_type.method_spec()
        &&& self.url@ == req.url_spec()
        &&& header_texts(self.headers@) == req.headers_spec()
        &&& self.body@ == payload_of(req.request_type)
        &&& self.request_id == req.request_type.id_spec()
        &&& self.kind == kind_of(req.request_type)
    }

    /// Whether `status` lets the call go on to read the body: a success does;
    /// any other status ends the call with `WrongStatusCode`.
    pub fn check_status(&self, status: u16) -> (r: Result<(), BridgeError>)
        ensures
            is_success(status) <==> r is Ok,
            r matches Err(e) ==> e matches BridgeError::WrongStatusCode(u, s) && u@ == self.url@
                && s == status,
    {
        if 200 <= status && status < 300 {
            Ok(())
        } else {
            Err(BridgeError::WrongStatusCode(self.url.clone(), status))
        }
    }

    /// The failure for a transport error with cause `source`.
    pub fn transport_failure(&self, source: String) -> (r: BridgeError)
        ensures
            r matches BridgeError::HttpError { url, source: s } && url@ == self.url@ && s
                == source,
    {
        BridgeError::HttpError { url: self.url.clone(), source }
    }

    /// The response of a call whose status was a success and whose body read as `body`.
    pub fn finish(self, status: u16, body: String) -> (r: Response)
        requires
            is_success(status),
        ensures
            r.finished_from(&self, status, body@),
    {
        match self.kind {
            RequestKind::Rest => Response::rest(self.url, body, status, self.request_id),
            RequestKind::GraphQL => Response::graphql(self.url, body, status, self.request_id),
        }
    }
}

impl Response {
    /// This response is what the call `out` gives on status `status` and body `body`.
    pub open spec fn finished_from(&self, out: &Outgoing, status: u16, body: Seq<char>) -> bool {
        &&& is_success(status)
        &&& self.url@ == out.url@
        &&& self.status_code == status
        &&& self.body@ == body
        &&& self.request_id == out.request_id
        &&& self.kind == out.kind
    }

    /// The response to a REST call.
    pub fn rest(url: String, body: String, status_code: u16, request_id: u128) -> (r: Response)
        ensures
            r.url == url,
            r.body == body,
            r.status_code == status_code,
            r.request_id == request_id,
            r.kind == RequestKind::Rest,
    {
        Response { url, status_code, body, request_id, kind: RequestKind::Rest }
    }

    /// The response to a GraphQL call.
    pub fn graphql(url: String, body: String, status_code: u16, request_id: u128) -> (r: Response)
        ensures
            r.url == url,
            r.body == body,
            r.status_code == status_code,
            r.request_id == request_id,
            r.kind == RequestKind::GraphQL,
    {
        Response { url, status_code, body, request_id, kind: RequestKind::GraphQL }
    }

    pub fn is_graphql(&self) -> (r: bool)
        ensures
            r == (self.kind == RequestKind::GraphQL),
    {
        self.kind == RequestKind::GraphQL
    }

    pub fn is_rest(&self) -> (r: bool)
        ensures
            r == (self.kind == RequestKind::Rest),
    {
        self.kind == RequestKind::Rest
    }
}

impl<'a> Request<'a> {
    /// Everything needed to send the call: URL, headers and body are computed
    /// here, before anything is sent. Only writing a GraphQL query can fail, with
    /// `EncodingError`.
    pub fn prepare(self) -> (r: Result<Outgoing, BridgeError>)
        ensures
            self.request_type is Rest ==> r is Ok,
            match r {
                Ok(out) => out.prepared_from(&self),
                Err(e) => e is EncodingError && self.request_type is GraphQL,
            },
    {
        let url = self.get_url();
        let headers = self.headers();
        let body = match self.request_type.body_as_string() {
            Ok(b) => b,
            Err(e) => {
                return Err(e);
            },
        };
        let kind = if self.request_type.is_graphql() {
            RequestKind::GraphQL
        } else {
            RequestKind::Rest
        };
        Ok(
            Outgoing {
                method: self.request_type.get_method(),
                url,
                headers,
                body,
                request_id: self.request_type.id(),
                kind,
            },
        )
    }
}

/// The response carries the correlation id of the descriptor the call was built from.
pub proof fn lemma_response_keeps_request_id<'a>(
    req: &Request<'a>,
    out: &Outgoing,
    status: u16,
    body: Seq<char>,
    resp: &Response,
)
    requires
        out.prepared_from(req),
        resp.finished_from(out, status, body),
    ensures
        resp.request_id == req.request_type.id_spec(),
{
}

/// A status outside the success range never gives a response, whatever the body.
pub proof fn lemma_failed_status_has_no_response(
    out: &Outgoing,
    status: u16,
    body: Seq<char>,
    resp: &Response,
)
    requires
        !is_success(status),
    ensures
        !resp.finished_from(out, status, body),
{
}

/// Two calls prepared from the same builder, driven by transports that answer
/// with the same status and the same body, send the same request and give
/// responses with the same contents; this holds whichever way each was driven.
pub proof fn lemma_same_builder_same_response<'a>(
    req: &Request<'a>,
    a: &Outgoing,
    b: &Outgoing,
    status: u16,
    body: Seq<char>,
    ra: &Response,
    rb: &Response,
)
    requires
        a.prepared_from(req),
        b.prepared_from(req),
        ra.finished_from(a, status, body),
        rb.finished_from(b, status, body),
    ensures
        a.method == b.method,
        a.url@ == b.url@,
        header_texts(a.headers@) == header_texts(b.headers@),
        a.body@ == b.body@,
        ra.url@ == rb.url@,
        ra.status_code == rb.status_code,
        ra.body@ == rb.body@,
        ra.request_id == rb.request_id,
        ra.kind == rb.kind,
{
}

} // verus!
