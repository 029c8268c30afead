use crate::bridge::Bridge;
use crate::endpoint::{opt_text, pair_texts};
use crate::exchange::BridgeError;
use crate::outside::{json_quoted, json_string, new_request_id, request_id_text, uuid_text};
use vstd::prelude::*;
use vstd::string::*;

verus! {

/// An HTTP method.
#[derive(Clone, Copy, Debug, PartialEq, Eq, Structural)]
pub enum Method {
    Get,
    Post,
    Put,
    Delete,
    Head,
    Options,
    Connect,
    Patch,
    Trace,
}

/// A GraphQL document and its variables, the variables as JSON text.
pub struct GraphQLBody {
    pub query: String,
    pub variables: Option<String>,
}

/// A GraphQL call: always sent as a POST.
pub struct GraphQL {
    pub request_id: u128,
    pub body: GraphQLBody,
}

/// The payload of a REST call, as JSON text; it is sent as it is, without an envelope.
pub struct RestBody {
    pub value: String,
}

/// A REST call.
pub struct Rest {
    pub request_id: u128,
    pub body: Option<RestBody>,
    pub method: Method,
}

/// What a call is: a REST call or a GraphQL call, each with its correlation id.
pub enum RequestType {
    GraphQL(GraphQL),
    Rest(Rest),
}

/// The JSON object sent for a GraphQL call: the `variables` key is left out
/// when there are no variables.
pub open spec fn graphql_json(query: Seq<char>, variables: Option<Seq<char>>) -> Seq<char> {
    "{\"query\":"@ + json_quoted(query) + match variables {
        None => Seq::<char>::empty(),
        Some(v) => ",\"variables\":"@ + v,
    } + "}"@
}

/// The payload sent for a REST call: the body's JSON text, or nothing at all.
pub open spec fn rest_payload(body: Option<RestBody>) -> Seq<char> {
    match body {
        None => Seq::empty(),
        Some(b) => b.value@,
    }
}

/// The two headers sent on every call, before the custom ones.
pub open spec fn fixed_headers(id: u128) -> Seq<(Seq<char>, Seq<char>)> {
    seq![("content-type"@, "application/json"@), ("x-request-id"@, uuid_text(id))]
}

/// The texts that a sequence of header pairs holds.
pub open spec fn header_texts(v: Seq<(String, String)>) -> Seq<(Seq<char>, Seq<char>)> {
    v.map_values(|p: (String, String)| (p.0@, p.1@))
}

impl RequestType {
    pub open spec fn id_spec(&self) -> u128 {
        match self {
            RequestType::GraphQL(g) => g.request_id,
            RequestType::Rest(r) => r.request_id,
        }
    }

    pub open spec fn method_spec(&self) -> Method {
        match self {
            RequestType::GraphQL(_) => Method::Post,
            RequestType::Rest(r) => r.method,
        }
    }

    /// The correlation id given at creation.
    pub fn id(&self) -> (r: u128)
        ensures
            r == self.id_spec(),
    {
        match self {
            RequestType::GraphQL(request) => request.request_id,
            RequestType::Rest(request) => request.request_id,
        }
    }

    /// The text sent as the body of the call. A REST call sends its payload, or
    /// nothing; a GraphQL call sends its query and variables as a JSON object.
    pub fn body_as_string(&self) -> (r: Result<String, BridgeError>)
        ensures
            match self {
                RequestType::Rest(rest) => r matches Ok(t) && t@ == rest_payload(rest.body),
                RequestType::GraphQL(g) => match r {
                    Ok(t) => t@ == graphql_json(g.body.query@, opt_text(g.body.variables)),
                    Err(e) => e is EncodingError,
                },
            },
    {
        match self {
            RequestType::GraphQL(request) => {
                let quoted = match json_string(request.body.query.as_str()) {
                    Ok(q) => q,
                    Err(e) => {
                        return Err(BridgeError::EncodingError(e));
                    },
                };
                let mut out = String::from_str("{\"query\":");
                out.append(quoted.as_str());
                match &request.body.variables {
                    None => {},
                    Some(v) => {
                        out.append(",\"variables\":");
                        out.append(v.as_str());
                    },
                }
                out.append("}");
                proof {
                    assert(out@ =~= graphql_json(
                        request.body.query@,
                        opt_text(request.body.variables),
                    ));
                }
                Ok(out)
            },
            RequestType::Rest(request) => match &request.body {
                None => Ok(String::new()),
                Some(b) => Ok(b.value.clone()),
            },
        }
    }

    pub fn is_graphql(&self) -> (r: bool)
        ensures
            r == (self is GraphQL),
    {
        match self {
            RequestType::GraphQL(_) => true,
            RequestType::Rest(_) => false,
        }
    }

    pub fn is_rest(&self) -> (r: bool)
        ensures
            r == (self is Rest),
    {
        match self {
            RequestType::GraphQL(_) => false,
            RequestType::Rest(_) => true,
        }
    }

    /// POST for a GraphQL call, the declared method for a REST call.
    pub fn get_method(&self) -> (r: Method)
        ensures
            r == self.method_spec(),
    {
        match self {
            RequestType::GraphQL(_) => Method::Post,
            RequestType::Rest(request) => request.method,
        }
    }

    /// A REST call with a fresh correlation id; `body` is the payload as JSON text.
    pub fn rest(body: Option<String>, method: Method) -> (r: RequestType)
        ensures
            r matches RequestType::Rest(rest) && rest.method == method && match body {
                None => rest.body.is_none(),
                Some(b) => rest.body matches Some(rb) && rb.value == b,
            },
    {
        let request_id = new_request_id();
        match body {
            None => RequestType::Rest(Rest { request_id, method, body: None }),
            Some(body) => RequestType::Rest(
                Rest { request_id, body: Some(RestBody { value: body }), method },
            ),
        }
    }

    /// A GraphQL call with a fresh correlation id; `variables` is a JSON object as text.
    pub fn graphql(query: &str, variables: Option<String>) -> (r: RequestType)
        ensures
            r matches RequestType::GraphQL(g) && g.body.query@ == query@ && g.body.variables
                == variables,
    {
        RequestType::GraphQL(
            GraphQL {
                request_id: new_request_id(),
                body: GraphQLBody { query: String::from_str(query), variables },
            },
        )
    }
}

/// A call being configured: each step hands back a new builder.
pub struct Request<'a> {
    pub bridge: &'a Bridge,
    pub request_type: RequestType,
    pub custom_headers: Vec<(String, String)>,
    pub path: Option<&'a str>,
    pub query_pairs: Vec<(&'a str, &'a str)>,
}

impl<'a> Request<'a> {
    pub open spec fn path_view(&self) -> Option<Seq<char>> {
        match self.path {
            None => None,
            Some(p) => Some(p@),
        }
    }

    /// The URL this builder resolves to.
    pub open spec fn url_spec(&self) -> Seq<char> {
        self.bridge.endpoint.resolved_spec(self.path_view(), pair_texts(self.query_pairs@))
    }

    /// The headers sent: the fixed ones, then the custom ones in order.
    pub open spec fn headers_spec(&self) -> Seq<(Seq<char>, Seq<char>)> {
        fixed_headers(self.request_type.id_spec()) + header_texts(self.custom_headers@)
    }

    pub fn new(bridge: &'a Bridge, request_type: RequestType) -> (r: Request<'a>)
        ensures
            r.bridge == bridge,
            r.request_type == request_type,
            r.custom_headers@.len() == 0,
            r.path.is_none(),
            r.query_pairs@.len() == 0,
    {
        Request {
            bridge,
            request_type,
            custom_headers: Vec::new(),
            path: None,
            query_pairs: Vec::new(),
        }
    }

    /// Replaces the custom headers with `headers`.
    pub fn with_custom_headers(self, headers: Vec<(String, String)>) -> (r: Request<'a>)
        ensures
            r.bridge == self.bridge,
            r.request_type == self.request_type,
            r.custom_headers == headers,
            r.path == self.path,
            r.query_pairs == self.query_pairs,
    {
        Request { custom_headers: headers, ..self }
    }

    /// Sets the path suffix, in place of any earlier one.
    pub fn to(self, path: &'a str) -> (r: Request<'a>)
        ensures
            r.bridge == self.bridge,
            r.request_type == self.request_type,
            r.custom_headers == self.custom_headers,
            r.path == Some(path),
            r.query_pairs == self.query_pairs,
    {
        Request { path: Some(path), ..self }
    }

    /// Appends one query pair after those added before.
    pub fn with_query_pair(self, name: &'a str, value: &'a str) -> (r: Request<'a>)
        ensures
            r.bridge == self.bridge,
            r.request_type == self.request_type,
            r.custom_headers == self.custom_headers,
            r.path == self.path,
            r.query_pairs@ == self.query_pairs@.push((name, value)),
    {
        let mut query_pairs = self.query_pairs;
        query_pairs.push((name, value));
        Request { query_pairs, ..self }
    }

    /// The URL the call goes to.
    pub fn get_url(&self) -> (r: String)
        ensures
            r@ == self.url_spec(),
    {
        self.bridge.endpoint.resolve(self.path, &self.query_pairs)
    }

    /// The headers the call carries.
    pub fn headers(&self) -> (r: Vec<(String, String)>)
        ensures
            header_texts(r@) == self.headers_spec(),
    {
        let mut r: Vec<(String, String)> = Vec::new();
        r.push((String::from_str("content-type"), String::from_str("application/json")));
        let id = self.request_type.id();
        r.push((String::from_str("x-request-id"), request_id_text(id)));
        let mut i: usize = 0;
        proof {
            assert(header_texts(r@) =~= fixed_headers(id) + header_texts(
                self.custom_headers@,
            ).take(0));
        }
        while i < self.custom_headers.len()
            invariant
                i <= self.custom_headers@.len(),
                id == self.request_type.id_spec(),
                header_texts(r@) == fixed_headers(id) + header_texts(self.custom_headers@).take(
                    i as int,
                ),
            decreases self.custom_headers@.len() - i,
        {
            let name = self.custom_headers[i].0.clone();
            let value = self.custom_headers[i].1.clone();
            let ghost prev = r@;
            r.push((name, value));
            proof {
                assert(r@ == prev.push((name, value)));
                assert(header_texts(self.custom_headers@)[i as int] == (name@, value@));
                assert(header_texts(r@) =~= header_texts(prev).push((name@, value@)));
                assert(header_texts(self.custom_headers@).take(i + 1) =~= header_texts(
                    self.custom_headers@,
                ).take(i as int).push((name@, value@)));
            }
            i = i + 1;
            proof {
                assert(header_texts(r@) =~= fixed_headers(id) + header_texts(
                    self.custom_headers@,
                ).take(i as int));
            }
        }
        proof {
            assert(header_texts(self.custom_headers@).take(i as int) =~= header_texts(
                self.custom_headers@,
            ));
        }
        r
    }
}

/// A REST call without a body sends an empty payload; a GraphQL call without
/// variables sends an object with no `variables` key at all.
pub proof fn lemma_absent_bodies(query: Seq<char>)
    ensures
        rest_payload(None) == Seq::<char>::empty(),
        graphql_json(query, None) == "{\"query\":"@ + json_quoted(query) + "}"@,
{
    assert(graphql_json(query, None) =~= "{\"query\":"@ + json_quoted(query) + "}"@);
}

} // verus!
