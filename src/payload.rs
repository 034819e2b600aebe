//! The payload that the API serves, its JSON text, and its decoding on the
//! client side.

use vstd::prelude::*;

use crate::json::{
    json_object_text, json_str_member, key_is_unique, member_view, no_private_keys, reads_back,
    object_text, read_str_member, NUMBER_TOKEN, RAW_VALUE_TOKEN,
};

verus! {

/// The value object that the API answers with.
#[derive(Clone, Debug)]
pub struct ApiResponse {
    pub message: String,
    pub status: String,
}

/// An `ApiResponse` as mathematical text.
pub struct PayloadView {
    pub message: Seq<char>,
    pub status: Seq<char>,
}

impl View for ApiResponse {
    type V = PayloadView;

    open spec fn view(&self) -> PayloadView {
        PayloadView { message: self.message@, status: self.status@ }
    }
}

impl PartialEq for ApiResponse {
    fn eq(&self, other: &ApiResponse) -> (r: bool) {
        self.message == other.message && self.status == other.status
    }
}

impl vstd::std_specs::cmp::PartialEqSpecImpl for ApiResponse {
    open spec fn obeys_eq_spec() -> bool {
        true
    }

    open spec fn eq_spec(&self, other: &ApiResponse) -> bool {
        self@ == other@
    }
}

/// The member names of the JSON object.
pub const MESSAGE_KEY: &'static str = "message";

pub const STATUS_KEY: &'static str = "status";

/// The fixed payload.
pub const SERVED_MESSAGE: &'static str = "Hello from Rust backend!";

pub const SERVED_STATUS: &'static str = "success";

/// The payload that every request to the API is answered with.
pub open spec fn served_payload() -> PayloadView {
    PayloadView { message: SERVED_MESSAGE@, status: SERVED_STATUS@ }
}

/// The JSON text of a payload: an object with the two string members.
pub open spec fn payload_json(p: PayloadView) -> Seq<char> {
    json_object_text(seq![(MESSAGE_KEY@, p.message), (STATUS_KEY@, p.status)])
}

/// The body of every answer of the API.
pub open spec fn served_body() -> Seq<char> {
    payload_json(served_payload())
}

impl ApiResponse {
    /// A payload holding copies of the given texts.
    pub fn new(message: &str, status: &str) -> (r: ApiResponse)
        ensures
            r@.message == message@,
            r@.status == status@,
    {
        ApiResponse { message: message.to_owned(), status: status.to_owned() }
    }

    /// A field by field copy.
    pub fn duplicate(&self) -> (r: ApiResponse)
        ensures
            r@ == self@,
    {
        ApiResponse { message: self.message.clone(), status: self.status.clone() }
    }
}

/// The payload that every request to the API is answered with.
pub fn api_payload() -> (r: ApiResponse)
    ensures
        r@ == served_payload(),
{
    ApiResponse::new(SERVED_MESSAGE, SERVED_STATUS)
}

/// The JSON text of a payload.
/// The text decodes back to the same payload.
pub fn encode_api_response(p: &ApiResponse) -> (r: String)
    ensures
        r@ == payload_json(p@),
        decode_spec(r@) == Ok::<PayloadView, Seq<char>>(p@),
{
    let entries: Vec<(String, String)> = vec![
        (MESSAGE_KEY.to_owned(), p.message.clone()),
        (STATUS_KEY.to_owned(), p.status.clone()),
    ];
    // neither key is one that serde_json reserves
    proof {
        reveal_strlit("message");
        reveal_strlit("status");
        reveal_strlit("$serde_json::private::RawValue");
        reveal_strlit("$serde_json::private::Number");
        assert(entries@[0].0@.len() != RAW_VALUE_TOKEN@.len());
        assert(entries@[0].0@.len() != NUMBER_TOKEN@.len());
        assert(entries@[1].0@.len() != RAW_VALUE_TOKEN@.len());
        assert(entries@[1].0@.len() != NUMBER_TOKEN@.len());
        assert(no_private_keys(entries@));
    }
    let r = object_text(&entries);
    assert(crate::json::pairs_view(entries@) =~= seq![(MESSAGE_KEY@, p.message@), (STATUS_KEY@, p.status@)]);
    proof {
        assert(MESSAGE_KEY@[0] != STATUS_KEY@[0]);
        assert(key_is_unique(entries@, 0) && key_is_unique(entries@, 1));
        assert(reads_back(r@, entries@));
        assert(entries@[0].1@ == p.message@ && entries@[1].1@ == p.status@);
    }
    r
}

/// The body that the API answers `GET /` and `GET /data` with: one fixed
/// text, the same on every call, which decodes to the fixed payload.
pub fn get_data() -> (r: String)
    ensures
        r@ == served_body(),
        decode_spec(r@) == Ok::<PayloadView, Seq<char>>(served_payload()),
{
    let p = api_payload();
    encode_api_response(&p)
}

/// The detail given when a body has no string member `message`.
pub const MISSING_MESSAGE: &'static str = "missing string field `message`";

/// The detail given when a body has no string member `status`.
pub const MISSING_STATUS: &'static str = "missing string field `status`";

/// The payload that two member lookups amount to: where either lookup failed
/// to read the text as JSON, its detail; where a member is missing or is no
/// string, a detail that names it; else the payload with both texts. The
/// `message` lookup is looked at first.
pub open spec fn members_spec(
    m: Result<Option<Seq<char>>, Seq<char>>,
    s: Result<Option<Seq<char>>, Seq<char>>,
) -> Result<PayloadView, Seq<char>> {
    match m {
        Err(d) => Err(d),
        Ok(None) => Err(MISSING_MESSAGE@),
        Ok(Some(message)) => match s {
            Err(d) => Err(d),
            Ok(None) => Err(MISSING_STATUS@),
            Ok(Some(status)) => Ok(PayloadView { message, status }),
        },
    }
}

/// What a body decodes to: the payload where it is a JSON object whose
/// members `message` and `status` are strings (other members are ignored),
/// else a description of what is wrong with it.
pub open spec fn decode_spec(text: Seq<char>) -> Result<PayloadView, Seq<char>> {
    members_spec(json_str_member(text, MESSAGE_KEY@), json_str_member(text, STATUS_KEY@))
}

/// The view of a decoding result.
pub open spec fn decoded_view(r: Result<ApiResponse, String>) -> Result<PayloadView, Seq<char>> {
    match r {
        Ok(p) => Ok(p@),
        Err(d) => Err(d@),
    }
}

/// Builds the payload from the lookups of its two members, `message` and
/// `status`, each `Err` with a detail where the body is no JSON, `Ok(None)`
/// where the member is missing or no string, `Ok(Some(text))` otherwise.
pub fn payload_from_members(
    message: Result<Option<String>, String>,
    status: Result<Option<String>, String>,
) -> (r: Result<ApiResponse, String>)
    ensures
        decoded_view(r) == members_spec(member_view(message), member_view(status)),
{
    match message {
        Err(d) => Err(d),
        Ok(None) => Err(MISSING_MESSAGE.to_owned()),
        Ok(Some(message)) => match status {
            Err(d) => Err(d),
            Ok(None) => Err(MISSING_STATUS.to_owned()),
            Ok(Some(status)) => Ok(ApiResponse { message, status }),
        },
    }
}

/// Decodes a response body into a payload. Succeeds exactly where both
/// members are present and are strings, and then holds their texts.
pub fn decode_api_response(body: &str) -> (r: Result<ApiResponse, String>)
    ensures
        decoded_view(r) == decode_spec(body@),
        r is Ok <==> (json_str_member(body@, MESSAGE_KEY@) is Ok && json_str_member(
            body@,
            MESSAGE_KEY@,
        )->Ok_0 is Some && json_str_member(body@, STATUS_KEY@) is Ok && json_str_member(
            body@,
            STATUS_KEY@,
        )->Ok_0 is Some),
        r matches Ok(p) ==> json_str_member(body@, MESSAGE_KEY@) == Ok::<
            Option<Seq<char>>,
            Seq<char>,
        >(Some(p.message@)) && json_str_member(body@, STATUS_KEY@) == Ok::<
            Option<Seq<char>>,
            Seq<char>,
        >(Some(p.status@)),
{
    let message = read_str_member(body, MESSAGE_KEY);
    let status = read_str_member(body, STATUS_KEY);
    payload_from_members(message, status)
}

} // verus!
