//! The decisions around request rate limiting: whether a switch in the environment is on,
//! the rate a deployment configures, which client a request is counted against, and the
//! problem document a limited request is answered with.
use vstd::prelude::*;
use crate::events::push_entry;
use crate::json::{entries_model, Json, JsonValue};
use crate::text::{cat3, dec, owned, parse_u64, parse_u64_str, str_eq, trim, trim_str, u64_text};

verus! {

/// A switch in the environment is on when it reads `true` or `1`.
pub open spec fn flag_enabled(value: Option<Seq<char>>) -> bool {
    match value {
        Some(v) => v == "true"@ || v == "1"@,
        None => false,
    }
}

/// Whether a switch in the environment is on.
pub fn env_flag_enabled(value: Option<&str>) -> (r: bool)
    ensures
        r == flag_enabled(
            match value {
                Some(v) => Some(v@),
                None => None,
            },
        ),
{
    match value {
        Some(v) => str_eq(v, "true") || str_eq(v, "1"),
        None => false,
    }
}

/// The requests per second a deployment allows: the configured number when it parses as
/// a `u32`, else 100, and never less than one.
pub open spec fn rate_limit_rps(raw: Option<Seq<char>>) -> u32 {
    let parsed: u32 = match raw {
        Some(s) => match parse_u64(s) {
            Some(v) => if v <= u32::MAX {
                v as u32
            } else {
                100
            },
            None => 100,
        },
        None => 100,
    };
    if parsed < 1 {
        1
    } else {
        parsed
    }
}

/// The requests per second that the configured text allows.
pub fn configured_rate_limit_rps(raw: Option<&str>) -> (r: u32)
    ensures
        r == rate_limit_rps(
            match raw {
                Some(s) => Some(s@),
                None => None,
            },
        ),
{
    let parsed: u32 = match raw {
        Some(s) => match parse_u64_str(s) {
            Some(v) => if v <= 0xffff_ffffu64 {
                v as u32
            } else {
                100
            },
            None => 100,
        },
        None => 100,
    };
    if parsed < 1 {
        1
    } else {
        parsed
    }
}

/// The text before the first comma.
pub open spec fn first_comma_piece(s: Seq<char>) -> Seq<char> {
    match first_comma(s) {
        Some(i) => s.subrange(0, i),
        None => s,
    }
}

/// Where the first comma stands.
pub open spec fn first_comma(s: Seq<char>) -> Option<int>
    decreases s.len(),
{
    if s.len() == 0 {
        None
    } else if s[0] == ',' {
        Some(0)
    } else {
        match first_comma(s.drop_first()) {
            Some(i) => Some(i + 1),
            None => None,
        }
    }
}

/// The client a request is counted against: the peer address when the connection gives
/// one; else, where forwarded addresses are trusted, the first forwarded address, trimmed,
/// or `unknown` without the header; else `unknown`.
pub open spec fn client_key(peer: Option<Seq<char>>, trust_forwarded: bool, forwarded_for: Option<Seq<char>>) -> Seq<char> {
    match peer {
        Some(p) => p,
        None => if trust_forwarded {
            match forwarded_for {
                Some(h) => trim(first_comma_piece(h)),
                None => "unknown"@,
            }
        } else {
            "unknown"@
        },
    }
}

fn first_comma_piece_exec(s: &str) -> (r: String)
    ensures
        r@ == first_comma_piece(s@),
{
    let n = s.unicode_len();
    let mut i: usize = 0;
    assert(s@.subrange(0, n as int) =~= s@);
    while i < n && s.get_char(i) != ','
        invariant
            n == s@.len(),
            i <= n,
            forall|k: int| 0 <= k < i ==> s@[k] != ',',
            first_comma(s@) == match first_comma(s@.subrange(i as int, n as int)) {
                Some(j) => Some(j + i),
                None => None,
            },
        decreases n - i,
    {
        let ghost rest = s@.subrange(i as int, n as int);
        assert(rest[0] == s@[i as int]);
        assert(rest.drop_first() =~= s@.subrange(i + 1, n as int));
        i += 1;
    }
    if i < n {
        let ghost rest = s@.subrange(i as int, n as int);
        assert(rest[0] == s@[i as int]);
    } else {
        assert(s@.subrange(i as int, n as int) =~= Seq::<char>::empty());
    }
    s.substring_char(0, i).to_string()
}

/// The client a request is counted against.
pub fn rate_limit_client_key(peer: Option<String>, trust_forwarded: bool, forwarded_for: Option<&str>) -> (r: String)
    ensures
        r@ == client_key(
            match peer {
                Some(p) => Some(p@),
                None => None,
            },
            trust_forwarded,
            match forwarded_for {
                Some(h) => Some(h@),
                None => None,
            },
        ),
{
    match peer {
        Some(p) => p,
        None => {
            if trust_forwarded {
                match forwarded_for {
                    Some(h) => {
                        let piece = first_comma_piece_exec(h);
                        owned(trim_str(piece.as_str()))
                    },
                    None => owned("unknown"),
                }
            } else {
                owned("unknown")
            }
        },
    }
}

/// A problem document of a limited request, keyed in order.
pub open spec fn problem_model(detail: Seq<char>, error_code: Seq<char>, title: Seq<char>) -> Json {
    Json::Object(seq![
        ("detail"@, Json::Str(detail)),
        ("error_code"@, Json::Str(error_code)),
        ("retryable"@, Json::Bool(true)),
        ("status"@, Json::Number("429"@)),
        ("title"@, Json::Str(title)),
        ("type"@, Json::Str("rate-limited"@)),
    ])
}

fn problem_json(detail: String, error_code: &str, title: &str) -> (r: JsonValue)
    ensures
        r@ == problem_model(detail@, error_code@, title@),
{
    let ghost d = detail@;
    let mut e: Vec<(String, JsonValue)> = Vec::new();
    push_entry(&mut e, "detail", JsonValue::Str(detail));
    push_entry(&mut e, "error_code", JsonValue::Str(owned(error_code)));
    push_entry(&mut e, "retryable", JsonValue::Bool(true));
    push_entry(&mut e, "status", JsonValue::Number(owned("429")));
    push_entry(&mut e, "title", JsonValue::Str(owned(title)));
    push_entry(&mut e, "type", JsonValue::Str(owned("rate-limited")));
    assert(entries_model(e@) =~= seq![
        ("detail"@, Json::Str(d)),
        ("error_code"@, Json::Str(error_code@)),
        ("retryable"@, Json::Bool(true)),
        ("status"@, Json::Number("429"@)),
        ("title"@, Json::Str(title@)),
        ("type"@, Json::Str("rate-limited"@)),
    ]);
    JsonValue::Object(e)
}

/// The answer to a limited request: its problem document and the whole seconds it is
/// told to wait (the `Retry-After` header).
pub struct RateLimitRejection {
    pub problem: JsonValue,
    pub retry_after_secs: u64,
}

/// The answer to a request over the deployment's rate, which may retry after
/// `retry_after_ms`.
pub fn rate_limited_rejection(retry_after_ms: u64) -> (r: RateLimitRejection)
    ensures
        r.retry_after_secs == retry_after_ms / 1000,
        r.problem@ == problem_model(
            "请求过于频繁，请在 "@ + dec((retry_after_ms / 1000) as nat) + " 秒后重试"@,
            "RATE_LIMITED"@,
            "请求过于频繁"@,
        ),
{
    let secs = retry_after_ms / 1000;
    let detail = cat3("请求过于频繁，请在 ", u64_text(secs).as_str(), " 秒后重试");
    RateLimitRejection { problem: problem_json(detail, "RATE_LIMITED", "请求过于频繁"), retry_after_secs: secs }
}

/// The answer to a sign-in request over its per-minute limit, which may retry after
/// `retry_after_ms`.
pub fn auth_rate_limited_rejection(limit_per_minute: u32, retry_after_ms: u64) -> (r: RateLimitRejection)
    ensures
        r.retry_after_secs == retry_after_ms / 1000,
        r.problem@ == problem_model(
            "登录尝试过于频繁（限制: 约每分钟 "@ + dec(limit_per_minute as nat) + " 次）。请在 "@ + dec(
                (retry_after_ms / 1000) as nat,
            ) + " 秒后重试"@,
            "AUTH_RATE_LIMITED"@,
            "登录尝试过于频繁"@,
        ),
{
    let secs = retry_after_ms / 1000;
    let head = cat3("登录尝试过于频繁（限制: 约每分钟 ", u64_text(limit_per_minute as u64).as_str(), " 次）。请在 ");
    let detail = cat3(head.as_str(), u64_text(secs).as_str(), " 秒后重试");
    RateLimitRejection {
        problem: problem_json(detail, "AUTH_RATE_LIMITED", "登录尝试过于频繁"),
        retry_after_secs: secs,
    }
}

} // verus!
