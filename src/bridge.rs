use crate::endpoint::Endpoint;
use crate::request::{Request, RequestType};
use vstd::prelude::*;

verus! {

/// The long-lived handle that requests are issued through: it owns the base URL.
pub struct Bridge {
    pub endpoint: Endpoint,
}

impl Bridge {
    pub fn new(endpoint: Endpoint) -> (r: Bridge)
        ensures
            r.endpoint == endpoint,
    {
        Bridge { endpoint }
    }

    /// A builder for one call of `request_type` against this bridge.
    pub fn request<'a>(&'a self, request_type: RequestType) -> (r: Request<'a>)
        ensures
            r.bridge == self,
            r.request_type == request_type,
            r.custom_headers@.len() == 0,
            r.path.is_none(),
            r.query_pairs@.len() == 0,
    {
        Request::new(self, request_type)
    }
}

} // verus!
