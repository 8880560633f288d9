//! The refusal a request is answered with.
use vstd::prelude::*;
use crate::text::owned;

verus! {

/// A refused request: an HTTP status, a stable error code and a message.
#[derive(Clone, Debug, PartialEq, Eq)]
pub struct ApiError {
    pub status: u16,
    pub code: String,
    pub message: String,
}

pub open spec fn is_bad_request(e: ApiError, code: Seq<char>, message: Seq<char>) -> bool {
    e.status == 400 && e.code@ == code && e.message@ == message
}

/// A `400 Bad Request` refusal.
pub fn bad_request(code: &str, message: String) -> (r: ApiError)
    ensures
        is_bad_request(r, code@, message@),
{
    ApiError { status: 400, code: owned(code), message }
}


/// The message that answers a request whose body could not be read as JSON.
pub open spec fn malformed_request_message() -> Seq<char> {
    "请求格式错误: 请使用 Content-Type: application/json 并确保请求体为有效 JSON"@
}

/// The answer that replaces a response with status 422, 400 or 415: one uniform
/// `400 Bad Request`; other responses are kept (`None`).
pub fn malformed_request_answer(status: u16) -> (r: Option<ApiError>)
    ensures
        (status == 422 || status == 400 || status == 415) ==> (r matches Some(e) && is_bad_request(
            e,
            "bad_request"@,
            malformed_request_message(),
        )),
        !(status == 422 || status == 400 || status == 415) ==> r is None,
{
    if status == 422 || status == 400 || status == 415 {
        Some(bad_request("bad_request", owned("请求格式错误: 请使用 Content-Type: application/json 并确保请求体为有效 JSON")))
    } else {
        None
    }
}

} // verus!
