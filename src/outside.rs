use vstd::prelude::*;

verus! {

/// What `url::form_urlencoded::byte_serialize` produces for the UTF-8 bytes of a text.
pub uninterp spec fn form_encoded(s: Seq<char>) -> Seq<char>;

/// What `serde_json::to_string` produces for a string value: the JSON string literal.
pub uninterp spec fn json_quoted(s: Seq<char>) -> Seq<char>;

/// What the `Display` impl of `uuid::Uuid` prints for the identifier with these 128 bits.
pub uninterp spec fn uuid_text(id: u128) -> Seq<char>;

#[verifier::external_type_specification]
#[verifier::external_body]
pub struct ExJsonError(serde_json::Error);

/// Relies on `uuid::Uuid::new_v4`: a fresh random identifier, returned as its 128 bits.
#[verifier::external_body]
pub(crate) fn new_request_id() -> (r: u128) {
    uuid::Uuid::new_v4().as_u128()
}

/// Relies on the `Display` impl of `uuid::Uuid`: the canonical text of an identifier.
#[verifier::external_body]
pub(crate) fn request_id_text(id: u128) -> (r: String)
    ensures
        r@ == uuid_text(id),
{
    uuid::Uuid::from_u128(id).to_string()
}

/// Relies on `url::form_urlencoded::byte_serialize`: the query-string encoding of a text.
#[verifier::external_body]
pub(crate) fn form_encode(s: &str) -> (r: String)
    ensures
        r@ == form_encoded(s@),
{
    url::form_urlencoded::byte_serialize(s.as_bytes()).collect()
}

/// Relies on `serde_json::to_string`: a string value written as a JSON string literal.
#[verifier::external_body]
pub(crate) fn json_string(s: &str) -> (r: Result<String, serde_json::Error>)
    ensures
        r matches Ok(t) ==> t@ == json_quoted(s@),
{
    serde_json::to_string(s)
}

} // verus!
