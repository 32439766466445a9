use crate::remote::{effective_timeout, endpoint_url, endpoint_url_spec, push_u64_decimal, MIN_TIMEOUT_MS};
use crate::text::{chars_of, concat, decimal_spec, string_from_chars, trimmed, trim_spec};
use vstd::prelude::*;

verus! {

/// The HTTP method of a request to a provider.
#[derive(Debug, Clone, Copy, PartialEq, Eq, Structural)]
pub enum ProbeMethod {
    Get,
    Post,
}

/// The request that checks a provider profile: where it goes, how it
/// authenticates and how long it may take.
#[derive(Debug, Clone)]
pub struct ConnectionProbe {
    pub method: ProbeMethod,
    pub url: String,
    /// Sent as `Authorization: Bearer ...` when present.
    pub bearer_token: Option<String>,
    /// Query parameters, in order.
    pub query: Vec<(String, String)>,
    pub timeout_ms: u64,
}

/// How a provider is checked: an OpenAI-compatible service lists its models
/// with the API key as bearer token; a Baidu service hands out an access
/// token for the key pair.
#[derive(Debug, Clone, Copy, PartialEq, Eq, Structural)]
pub enum ProbeStyle {
    ModelList,
    BaiduToken,
}

/// The timeout a request is sent with.
pub open spec fn timeout_spec(timeout_ms: u64) -> u64 {
    if timeout_ms < MIN_TIMEOUT_MS { MIN_TIMEOUT_MS } else { timeout_ms }
}

/// What the probe request of a profile is.
pub open spec fn probe_matches(
    probe: ConnectionProbe,
    style: ProbeStyle,
    base_url: Seq<char>,
    api_key: Seq<char>,
    secret_key: Seq<char>,
    timeout_ms: u64,
) -> bool {
    &&& probe.timeout_ms == timeout_spec(timeout_ms)
    &&& match style {
        ProbeStyle::ModelList => {
            &&& probe.method == ProbeMethod::Get
            &&& probe.url@ == endpoint_url_spec(base_url, "models"@)
            &&& probe.bearer_token matches Some(t) && t@ == trim_spec(api_key)
            &&& probe.query@.len() == 0
        },
        ProbeStyle::BaiduToken => {
            &&& probe.method == ProbeMethod::Post
            &&& probe.url@ == endpoint_url_spec(base_url, "oauth/2.0/token"@)
            &&& probe.bearer_token is None
            &&& probe.query@.len() == 3
            &&& probe.query@[0].0@ == "grant_type"@ && probe.query@[0].1@ == "client_credentials"@
            &&& probe.query@[1].0@ == "client_id"@ && probe.query@[1].1@ == trim_spec(api_key)
            &&& probe.query@[2].0@ == "client_secret"@ && probe.query@[2].1@ == trim_spec(secret_key)
        },
    }
}

/// Builds the request that checks a provider profile.
pub fn connection_probe(
    style: ProbeStyle,
    base_url: &str,
    api_key: &str,
    secret_key: &str,
    timeout_ms: u64,
) -> (r: ConnectionProbe)
    ensures
        probe_matches(r, style, base_url@, api_key@, secret_key@, timeout_ms),
{
    let timeout = effective_timeout(timeout_ms);
    match style {
        ProbeStyle::ModelList => ConnectionProbe {
            method: ProbeMethod::Get,
            url: endpoint_url(base_url, "models"),
            bearer_token: Some(trimmed(api_key)),
            query: Vec::new(),
            timeout_ms: timeout,
        },
        ProbeStyle::BaiduToken => {
            let mut query: Vec<(String, String)> = Vec::new();
            query.push((String::from_str("grant_type"), String::from_str("client_credentials")));
            query.push((String::from_str("client_id"), trimmed(api_key)));
            query.push((String::from_str("client_secret"), trimmed(secret_key)));
            ConnectionProbe {
                method: ProbeMethod::Post,
                url: endpoint_url(base_url, "oauth/2.0/token"),
                bearer_token: None,
                query,
                timeout_ms: timeout,
            }
        },
    }
}

/// Which feature a connection check is for; it names the feature in the messages.
#[derive(Debug, Clone, Copy, PartialEq, Eq, Structural)]
pub enum ProbeScope {
    Ocr,
    Translation,
}

pub open spec fn scope_prefix(scope: ProbeScope) -> Seq<char> {
    match scope {
        ProbeScope::Ocr => "连接测试"@,
        ProbeScope::Translation => "翻译连接测试"@,
    }
}

/// The verdict on a model-list reply: any 2xx status passes; 401 and 429 get
/// their own messages; any other status is reported with its status line and
/// the body.
pub open spec fn model_list_verdict_spec(
    scope: ProbeScope,
    status: u16,
    status_line: Seq<char>,
    body: Seq<char>,
) -> Result<(), Seq<char>> {
    if 200 <= status <= 299 {
        Ok(())
    } else if status == 401 {
        Err(scope_prefix(scope) + "失败（401）：API Key 无效"@)
    } else if status == 429 {
        Err(scope_prefix(scope) + "失败（429）：请求过于频繁"@)
    } else {
        Err(scope_prefix(scope) + "失败（"@ + status_line + "）: "@ + body)
    }
}

/// Judges the reply to a model-list probe.
pub fn model_list_verdict(scope: ProbeScope, status: u16, status_line: &str, body: &str) -> (r: Result<(), String>)
    ensures
        match (r, model_list_verdict_spec(scope, status, status_line@, body@)) {
            (Ok(()), Ok(())) => true,
            (Err(a), Err(b)) => a@ == b,
            _ => false,
        },
{
    let prefix = match scope {
        ProbeScope::Ocr => "连接测试",
        ProbeScope::Translation => "翻译连接测试",
    };
    if 200 <= status && status <= 299 {
        Ok(())
    } else if status == 401 {
        Err(concat(prefix, "失败（401）：API Key 无效"))
    } else if status == 429 {
        Err(concat(prefix, "失败（429）：请求过于频繁"))
    } else {
        let a = concat(prefix, "失败（");
        let b = concat(a.as_str(), status_line);
        let c = concat(b.as_str(), "）: ");
        Err(concat(c.as_str(), body))
    }
}

/// The message when a request did not complete: a timeout names the time
/// allowed, any other failure the transport's own description.
pub open spec fn request_failure_spec(scope: ProbeScope, timed_out: bool, timeout_ms: u64, detail: Seq<char>) -> Seq<char> {
    if timed_out {
        scope_prefix(scope) + "超时（"@ + decimal_spec(timeout_spec(timeout_ms) as nat) + " ms）"@
    } else {
        scope_prefix(scope) + "请求失败: "@ + detail
    }
}

/// Words the failure of a probe that got no reply.
pub fn request_failure(scope: ProbeScope, timed_out: bool, timeout_ms: u64, detail: &str) -> (r: String)
    ensures
        r@ == request_failure_spec(scope, timed_out, timeout_ms, detail@),
{
    let prefix = match scope {
        ProbeScope::Ocr => "连接测试",
        ProbeScope::Translation => "翻译连接测试",
    };
    if timed_out {
        let head = concat(prefix, "超时（");
        let t = effective_timeout(timeout_ms);
        let mut v = chars_of(head.as_str());
        push_u64_decimal(&mut v, t);
        let with_number = string_from_chars(v.as_slice());
        concat(with_number.as_str(), " ms）")
    } else {
        let head = concat(prefix, "请求失败: ");
        concat(head.as_str(), detail)
    }
}

} // verus!
