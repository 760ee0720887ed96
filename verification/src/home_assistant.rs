//! Talking to Home Assistant: the credentials taken from the settings, the
//! request URLs and headers, the body of a service call, and what each kind
//! of reply comes to.

use vstd::prelude::*;
use crate::http_status::{status_display, status_is_success, status_text};
use crate::settings::AppConfig;
use crate::text::digit_char;

verus! {

/// A hexadecimal digit, in lower case.
pub open spec fn hex_digit(d: nat) -> char
    recommends
        d < 16,
{
    if d < 10 {
        digit_char(d)
    } else if d == 10 {
        'a'
    } else if d == 11 {
        'b'
    } else if d == 12 {
        'c'
    } else if d == 13 {
        'd'
    } else if d == 14 {
        'e'
    } else {
        'f'
    }
}

/// How serde_json writes the character `c` inside a JSON string: quote and
/// backslash behind a backslash, the usual short escapes for backspace,
/// tab, line feed, form feed and carriage return, `\u00xx` for the other
/// control characters, and every other character as it is.
pub open spec fn json_escape_char(c: char) -> Seq<char> {
    if c == '"' {
        seq!['\\', '"']
    } else if c == '\\' {
        seq!['\\', '\\']
    } else if c == '\u{8}' {
        seq!['\\', 'b']
    } else if c == '\t' {
        seq!['\\', 't']
    } else if c == '\n' {
        seq!['\\', 'n']
    } else if c == '\u{c}' {
        seq!['\\', 'f']
    } else if c == '\r' {
        seq!['\\', 'r']
    } else if (c as nat) < 32 {
        seq!['\\', 'u', '0', '0', hex_digit((c as nat) / 16), hex_digit((c as nat) % 16)]
    } else {
        seq![c]
    }
}

/// The characters of `s`, each escaped as serde_json writes it.
pub open spec fn json_escaped(s: Seq<char>) -> Seq<char>
    decreases s.len(),
{
    if s.len() == 0 {
        Seq::<char>::empty()
    } else {
        json_escaped(s.drop_last()) + json_escape_char(s.last())
    }
}

/// The JSON string literal that serde_json writes for the text `s`.
pub open spec fn json_string_of(s: Seq<char>) -> Seq<char> {
    seq!['"'] + json_escaped(s) + seq!['"']
}

/// Calls `serde_json::to_string` on a `str`. The contract restates what
/// serde_json's source writes for a string (`format_escaped_str` with the
/// compact formatter): a quote, each character escaped by its `ESCAPE`
/// table, a quote. Serialising a `str` into memory has no error path there.
#[verifier::external_body]
fn json_string(s: &str) -> (r: String)
    ensures
        r@ == json_string_of(s@),
{
    serde_json::to_string(s).unwrap_or_default()
}

/// The message when no Home Assistant address is configured.
pub open spec fn missing_url_text() -> Seq<char> {
    "未配置 Home Assistant 地址"@
}

/// The message when no Home Assistant token is configured.
pub open spec fn missing_token_text() -> Seq<char> {
    "未配置 Home Assistant Token"@
}

/// The address and token to reach Home Assistant with; the address is
/// checked first.
pub fn ha_credentials(config: &AppConfig) -> (r: Result<(String, String), String>)
    ensures
        config.ha_url is None ==> (r matches Err(e) && e@ == missing_url_text()),
        config.ha_url is Some && config.ha_token is None ==> (r matches Err(e) && e@
            == missing_token_text()),
        config.ha_url is Some && config.ha_token is Some ==> (r matches Ok((u, t)) && Some(u)
            == config.ha_url && Some(t) == config.ha_token),
{
    let url = match &config.ha_url {
        Some(u) => u.clone(),
        None => {
            return Err(String::from_str("未配置 Home Assistant 地址"));
        },
    };
    let token = match &config.ha_token {
        Some(t) => t.clone(),
        None => {
            return Err(String::from_str("未配置 Home Assistant Token"));
        },
    };
    Ok((url, token))
}

fn joined(head: &String, tail: &str) -> (r: String)
    ensures
        r@ == head@ + tail@,
{
    let mut s = head.clone();
    s.append(tail);
    s
}

/// The URL that checks whether Home Assistant answers.
pub fn ha_api_url(base: &String) -> (r: String)
    ensures
        r@ == base@ + "/api/"@,
{
    joined(base, "/api/")
}

/// The URL that lists the states of all entities.
pub fn ha_states_url(base: &String) -> (r: String)
    ensures
        r@ == base@ + "/api/states"@,
{
    joined(base, "/api/states")
}

/// The URL that calls `service` of `domain`.
pub fn ha_service_url(base: &String, domain: &String, service: &String) -> (r: String)
    ensures
        r@ == base@ + "/api/services/"@ + domain@ + "/"@ + service@,
{
    let mut s = joined(base, "/api/services/");
    s.append(domain.as_str());
    s.append("/");
    s.append(service.as_str());
    s
}

/// The value of the `Authorization` header for `token`.
pub fn bearer_header(token: &String) -> (r: String)
    ensures
        r@ == "Bearer "@ + token@,
{
    let mut s = String::from_str("Bearer ");
    s.append(token.as_str());
    s
}

/// The JSON body of a service call on `entity_id`: an object whose one
/// member `entity_id` holds the id as a JSON string.
pub fn ha_service_body(entity_id: &String) -> (r: String)
    ensures
        r@ == "{\"entity_id\":"@ + json_string_of(entity_id@) + "}"@,
{
    let mut s = String::from_str("{\"entity_id\":");
    let quoted = json_string(entity_id.as_str());
    s.append(quoted.as_str());
    s.append("}");
    s
}

/// What a request to Home Assistant came to.
#[derive(Debug)]
pub enum HaReply {
    /// The request could not be sent or answered; `reason` describes why.
    SendFailed { reason: String },
    /// Home Assistant answered with status `code`.
    Status { code: u16 },
}

/// `reply` carries a status code that reqwest can hold.
pub open spec fn valid_reply(reply: HaReply) -> bool {
    reply matches HaReply::Status { code } ==> 100 <= code <= 999
}

/// What a reply comes to: `ok` on a success status, else the message made of
/// `failure` and the status text; a send failure gives the request-failed
/// message.
pub open spec fn reply_result_of<T>(reply: HaReply, ok: T, failure: Seq<char>) -> Result<
    T,
    Seq<char>,
> {
    match reply {
        HaReply::SendFailed { reason } => Err("请求失败: "@ + reason@),
        HaReply::Status { code } => if 200 <= code < 300 {
            Ok(ok)
        } else {
            Err(failure + status_text(code))
        },
    }
}

/// A reply succeeds exactly when Home Assistant answered with a success
/// status (200 to 299); a redirection, an error status or a failed send is
/// a failure, and a failed status carries the status text after `failure`.
pub proof fn law_reply_result<T>(reply: HaReply, ok: T, failure: Seq<char>)
    ensures
        reply matches HaReply::Status { code } ==> (200 <= code < 300 ==> reply_result_of(
            reply,
            ok,
            failure,
        ) == Ok::<T, Seq<char>>(ok)),
        reply matches HaReply::Status { code } ==> (!(200 <= code < 300) ==> reply_result_of(
            reply,
            ok,
            failure,
        ) == Err::<T, Seq<char>>(failure + status_text(code))),
        reply is SendFailed ==> reply_result_of(reply, ok, failure) is Err,
{
}

/// `r` carries what `spec` says, its error text taken by its characters.
pub open spec fn same_reply<T>(r: Result<T, String>, spec: Result<T, Seq<char>>) -> bool {
    match (r, spec) {
        (Ok(a), Ok(b)) => a == b,
        (Err(e), Err(m)) => e@ == m,
        _ => false,
    }
}

fn reply_error(reply: &HaReply, failure: &str) -> (r: Option<String>)
    requires
        valid_reply(*reply),
    ensures
        match reply {
            HaReply::SendFailed { reason } => r matches Some(e) && e@ == "请求失败: "@ + reason@,
            HaReply::Status { code } => if 200 <= *code < 300 {
                r is None
            } else {
                r matches Some(e) && e@ == failure@ + status_text(*code)
            },
        },
{
    match reply {
        HaReply::SendFailed { reason } => {
            let mut e = String::from_str("请求失败: ");
            e.append(reason.as_str());
            Some(e)
        },
        HaReply::Status { code } => {
            if status_is_success(*code) {
                None
            } else {
                let mut e = String::from_str(failure);
                let text = status_display(*code);
                e.append(text.as_str());
                Some(e)
            }
        },
    }
}

/// What a connection check comes to.
pub fn ha_connection_result(reply: HaReply) -> (r: Result<bool, String>)
    requires
        valid_reply(reply),
    ensures
        same_reply(r, reply_result_of(reply, true, "连接失败，状态码: "@)),
        reply matches HaReply::Status { code } ==> (r is Ok <==> 200 <= code < 300),
        reply is SendFailed ==> r is Err,
{
    match reply_error(&reply, "连接失败，状态码: ") {
        Some(e) => Err(e),
        None => Ok(true),
    }
}

/// What a request for the entity states comes to: `Ok(())` means the body
/// is to be read.
pub fn ha_states_result(reply: HaReply) -> (r: Result<(), String>)
    requires
        valid_reply(reply),
    ensures
        same_reply(r, reply_result_of(reply, (), "获取状态失败: "@)),
        reply matches HaReply::Status { code } ==> (r is Ok <==> 200 <= code < 300),
        reply is SendFailed ==> r is Err,
{
    match reply_error(&reply, "获取状态失败: ") {
        Some(e) => Err(e),
        None => Ok(()),
    }
}

/// What a service call comes to.
pub fn ha_call_result(reply: HaReply) -> (r: Result<bool, String>)
    requires
        valid_reply(reply),
    ensures
        same_reply(r, reply_result_of(reply, true, "调用服务失败: "@)),
        reply matches HaReply::Status { code } ==> (r is Ok <==> 200 <= code < 300),
        reply is SendFailed ==> r is Err,
{
    match reply_error(&reply, "调用服务失败: ") {
        Some(e) => Err(e),
        None => Ok(true),
    }
}

/// The message when the entity states could not be read from the body.
pub fn entities_parse_error(detail: &String) -> (r: String)
    ensures
        r@ == "解析响应失败: "@ + detail@,
{
    let mut e = String::from_str("解析响应失败: ");
    e.append(detail.as_str());
    e
}

} // verus!
