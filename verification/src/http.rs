//! HTTP side of the service: response framing, request routing, query
//! parameters, and the handlers that need no floating-point values.

use vstd::prelude::*;
use crate::frame::{RegisterRequest, RegisterValue};
use crate::latest::LatestCache;
use crate::number::{
    decimal, decimal_chars, parse_unsigned, parse_unsigned_chars, signed_decimal,
    signed_decimal_chars,
};
use crate::text::{
    chars_of, decode_utf8_lossy, is_whitespace, lines, push_chars, push_str, split, split_chars,
    split_lines, split_once, split_once_chars, starts_with, starts_with_chars, strip_prefix,
    strip_prefix_chars, string_of, trim_end_by, trim_end_chars, trim_start_by, trim_start_matches,
    trim_start_matches_chars, utf8_lossy, views, CharClass,
};

verus! {

// ---------------------------------------------------------------------------
// Errors
// ---------------------------------------------------------------------------

/// Why a request is refused with "400 Bad Request".
#[derive(Debug, Clone, Copy, PartialEq, Eq, Structural)]
pub enum RequestError {
    /// `/history` without both `from_ts` and `to_ts`.
    MissingHistoryRange,
    /// `from_ts` after `to_ts`.
    InvalidRange,
    /// `/energy-intervals` without `from_ts`.
    MissingFromTs,
    /// `/energy-intervals` without `to_ts`.
    MissingToTs,
    /// A path the server does not serve, or a request other than GET.
    Unsupported,
    /// `/cumulative` without `from_ts`.
    MissingCumulativeFrom,
    /// The clock reads a time before the Unix epoch.
    ClockBeforeEpoch,
}

pub open spec fn error_message(e: RequestError) -> Seq<char> {
    match e {
        RequestError::MissingHistoryRange => "invalid request: /history requires from_ts and to_ts query parameters"@,
        RequestError::InvalidRange => "invalid range: from_ts must be <= to_ts"@,
        RequestError::MissingFromTs => "missing from_ts"@,
        RequestError::MissingToTs => "missing to_ts"@,
        RequestError::Unsupported => "unsupported request"@,
        RequestError::MissingCumulativeFrom => "invalid request: /cumulative requires from_ts query parameters"@,
        RequestError::ClockBeforeEpoch => "second time provided was later than self"@,
    }
}

impl RequestError {
    /// The message reported to the client.
    pub fn message(&self) -> (m: &'static str)
        ensures
            m@ == error_message(*self),
    {
        match self {
            RequestError::MissingHistoryRange => "invalid request: /history requires from_ts and to_ts query parameters",
            RequestError::InvalidRange => "invalid range: from_ts must be <= to_ts",
            RequestError::MissingFromTs => "missing from_ts",
            RequestError::MissingToTs => "missing to_ts",
            RequestError::Unsupported => "unsupported request",
            RequestError::MissingCumulativeFrom => "invalid request: /cumulative requires from_ts query parameters",
            RequestError::ClockBeforeEpoch => "second time provided was later than self",
        }
    }
}

// ---------------------------------------------------------------------------
// Response framing
// ---------------------------------------------------------------------------

/// The UTF-8 byte length of a body, as `str::len` gives it.
pub open spec fn content_length(body: Seq<char>) -> usize {
    vstd::utf8::encode_utf8(body).len() as usize
}

/// An HTTP/1.1 response with a JSON body.
pub open spec fn json_response_text(status: Seq<char>, body: Seq<char>) -> Seq<char> {
    "HTTP/1.1 "@ + status
        + "\r\nContent-Type: application/json; charset=utf-8\r\nContent-Length: "@ + decimal(
        content_length(body) as nat,
    ) + "\r\nConnection: close\r\n\r\n"@ + body
}

/// An HTTP/1.1 response without a body.
pub open spec fn empty_response_text(status: Seq<char>) -> Seq<char> {
    "HTTP/1.1 "@ + status + "\r\nContent-Length: 0\r\nConnection: close\r\n\r\n"@
}

/// Formats a JSON response with the given status line.
pub fn json_response(status: &str, body: String) -> (r: String)
    ensures
        r@ == json_response_text(status@, body@),
{
    let len = body.as_str().len();
    let digits = decimal_chars(len as u64);
    let mut r = String::new();
    push_str(&mut r, "HTTP/1.1 ");
    push_str(&mut r, status);
    push_str(&mut r, "\r\nContent-Type: application/json; charset=utf-8\r\nContent-Length: ");
    push_chars(&mut r, digits.as_slice());
    push_str(&mut r, "\r\nConnection: close\r\n\r\n");
    push_str(&mut r, body.as_str());
    r
}

/// Formats a response without a body.
pub fn empty_response(status: &str) -> (r: String)
    ensures
        r@ == empty_response_text(status@),
{
    let mut r = String::new();
    push_str(&mut r, "HTTP/1.1 ");
    push_str(&mut r, status);
    push_str(&mut r, "\r\nContent-Length: 0\r\nConnection: close\r\n\r\n");
    r
}

/// A text in double quotes.
pub open spec fn quoted(s: Seq<char>) -> Seq<char> {
    "\""@ + s + "\""@
}

/// The JSON value of a register value: texts quoted, numbers in decimal.
pub open spec fn value_text(v: RegisterValue) -> Seq<char> {
    match v {
        RegisterValue::U16(n) => decimal(n as nat),
        RegisterValue::U32(n) => decimal(n as nat),
        RegisterValue::I32(n) => signed_decimal(n as int),
        RegisterValue::String(s) => quoted(s@),
    }
}

/// The JSON value of a register read: the value, or the error message quoted.
pub open spec fn reply_text(data: Result<RegisterValue, String>) -> Seq<char> {
    match data {
        Ok(v) => value_text(v),
        Err(message) => quoted(message@),
    }
}

/// The body that carries one value.
pub open spec fn data_body(value: Seq<char>) -> Seq<char> {
    "{\"data\": "@ + value + "}"@
}

/// Formats a JSON value that is already text as a "200 OK" data response.
pub fn data_response(value: &str) -> (r: String)
    ensures
        r@ == json_response_text("200 OK"@, data_body(value@)),
{
    let mut body = String::new();
    push_str(&mut body, "{\"data\": ");
    push_str(&mut body, value);
    push_str(&mut body, "}");
    json_response("200 OK", body)
}

/// Formats the result of a register read as an HTTP response.
pub fn http_response(data: Result<RegisterValue, String>) -> (r: String)
    ensures
        r@ == json_response_text("200 OK"@, data_body(reply_text(data))),
{
    let mut value = String::new();
    match data {
        Ok(RegisterValue::U16(n)) => push_chars(&mut value, decimal_chars(n as u64).as_slice()),
        Ok(RegisterValue::U32(n)) => push_chars(&mut value, decimal_chars(n as u64).as_slice()),
        Ok(RegisterValue::I32(n)) => push_chars(&mut value, signed_decimal_chars(n as i64).as_slice()),
        Ok(RegisterValue::String(s)) => {
            push_str(&mut value, "\"");
            push_str(&mut value, s.as_str());
            push_str(&mut value, "\"");
        },
        Err(message) => {
            push_str(&mut value, "\"");
            push_str(&mut value, message.as_str());
            push_str(&mut value, "\"");
        },
    }
    data_response(value.as_str())
}

// ---------------------------------------------------------------------------
// Handlers without floating-point values
// ---------------------------------------------------------------------------

/// The "400 Bad Request" response that reports an error message.
pub fn handle_bad_request(message: &str) -> (r: String)
    ensures
        r@ == json_response_text("400 Bad Request"@, "{\"error\":\""@ + message@ + "\"}"@),
{
    let mut body = String::new();
    push_str(&mut body, "{\"error\":\"");
    push_str(&mut body, message);
    push_str(&mut body, "\"}");
    json_response("400 Bad Request", body)
}

/// The status response of the root path.
pub fn handle_empty() -> (r: Result<String, RequestError>)
    ensures
        r matches Ok(s) && s@ == json_response_text("200 OK"@, "{\"status\":\"ok\"}"@),
{
    let mut body = String::new();
    push_str(&mut body, "{\"status\":\"ok\"}");
    Ok(json_response("200 OK", body))
}

/// The empty response to a favicon request.
pub fn handle_favicon() -> (r: Result<String, RequestError>)
    ensures
        r matches Ok(s) && s@ == empty_response_text("204 No Content"@),
{
    Ok(empty_response("204 No Content"))
}

/// The argument after a path prefix: every repetition of the prefix
/// removed from the front, every `/` removed from the end.
pub open spec fn path_argument_of(path: Seq<char>, prefix: Seq<char>) -> Seq<char> {
    trim_end_by(trim_start_matches(path, prefix), CharClass::Exactly('/'))
}

/// The argument of a path such as `/id/<argument>` or `/address/<argument>`.
pub fn path_argument(path: &str, prefix: &str) -> (r: String)
    ensures
        r@ == path_argument_of(path@, prefix@),
{
    let p = chars_of(path);
    let x = chars_of(prefix);
    let rest = trim_start_matches_chars(p.as_slice(), x.as_slice());
    let arg = trim_end_chars(rest.as_slice(), CharClass::Exactly('/'));
    string_of(arg.as_slice())
}

/// Handles `/address/<address>`: asks `send` for the register at the raw
/// address and formats the reply.
pub fn handle_address<F>(path: &str, send: F) -> (r: Result<String, RequestError>) where
    F: FnOnce(RegisterRequest) -> Result<RegisterValue, String>,

    requires
        forall|request: RegisterRequest| send.requires((request,)),
    ensures
        r matches Ok(text) && exists|request: RegisterRequest, reply: Result<RegisterValue, String>|
            {
                &&& request matches RegisterRequest::Raw(address) && address@ == path_argument_of(
                    path@,
                    "/address/"@,
                )
                &&& send.ensures((request,), reply)
                &&& text@ == json_response_text("200 OK"@, data_body(reply_text(reply)))
            },
{
    let address = path_argument(path, "/address/");
    let ghost address_view = address@;
    let request = RegisterRequest::Raw(address);
    let ghost sent = request;
    let reply = send(request);
    let text = http_response(reply);
    assert(sent matches RegisterRequest::Raw(a) && a@ == address_view);
    Ok(text)
}

/// Handles `/id/<id>`: the latest polled value of the register when one is
/// cached, formatted by `format` from its double bits; else the register
/// is read through `send` and the reply formatted.
pub fn handle_id<G, F>(path: &str, latest_cache: &LatestCache, format: G, send: F) -> (r: Result<
    String,
    RequestError,
>) where G: FnOnce(u64) -> String, F: FnOnce(RegisterRequest) -> Result<RegisterValue, String>
    requires
        forall|bits: u64| format.requires((bits,)),
        forall|request: RegisterRequest| send.requires((request,)),
    ensures
        ({
            let id = path_argument_of(path@, "/id/"@);
            &&& latest_cache@.contains_key(id) ==> (r matches Ok(text) && exists|value: String|
                {
                    &&& format.ensures((latest_cache@[id].value_bits,), value)
                    &&& text@ == json_response_text("200 OK"@, data_body(value@))
                })
            &&& !latest_cache@.contains_key(id) ==> (r matches Ok(text) && exists|
                request: RegisterRequest,
                reply: Result<RegisterValue, String>,
            |
                {
                    &&& request matches RegisterRequest::UniqueId(name) && name@ == id
                    &&& send.ensures((request,), reply)
                    &&& text@ == json_response_text("200 OK"@, data_body(reply_text(reply)))
                })
        }),
{
    let id = path_argument(path, "/id/");
    let ghost id_view = id@;
    match latest_cache.get(id.as_str()) {
        Some(cached) => {
            let value = format(cached.value_bits);
            Ok(data_response(value.as_str()))
        },
        None => {
            let request = RegisterRequest::UniqueId(id);
            let ghost sent = request;
            let reply = send(request);
            let text = http_response(reply);
            assert(sent matches RegisterRequest::UniqueId(a) && a@ == id_view);
            Ok(text)
        },
    }
}

// ---------------------------------------------------------------------------
// Routing
// ---------------------------------------------------------------------------

/// The length of the leading run of characters that are not white space.
pub open spec fn word_len(s: Seq<char>) -> int
    decreases s.len(),
{
    if s.len() == 0 || is_whitespace(s[0]) {
        0
    } else {
        1 + word_len(s.drop_first())
    }
}

/// The first white-space separated word (`split_whitespace().next()`).
pub open spec fn first_word(s: Seq<char>) -> Option<Seq<char>> {
    let t = trim_start_by(s, CharClass::Whitespace);
    if t.len() == 0 {
        None
    } else {
        Some(t.take(word_len(t)))
    }
}

/// The path of a request: the first line must read `GET <path> ...`.
pub open spec fn request_path_of(request: Seq<char>) -> Option<Seq<char>> {
    let first = if lines(request).len() > 0 {
        lines(request)[0]
    } else {
        Seq::<char>::empty()
    };
    match strip_prefix(first, "GET "@) {
        Some(rest) => first_word(rest),
        None => None,
    }
}

/// The endpoints of the server.
#[derive(Debug, Clone, Copy, PartialEq, Eq, Structural)]
pub enum Route {
    /// `/`: status.
    Root,
    /// `/favicon.ico`.
    Favicon,
    /// `/id/<unique id>`: a register by name.
    Id,
    /// `/address/<address>`: a register by address.
    Address,
    /// `/history?...`: stored samples.
    History,
    /// `/energy-intervals?...`: 15-minute energy intervals.
    EnergyIntervals,
    /// Anything else.
    Unsupported,
}

/// The endpoint that serves a path; prefixes are tried in this order.
pub open spec fn route_of(path: Seq<char>) -> Route {
    if path == "/"@ {
        Route::Root
    } else if path == "/favicon.ico"@ {
        Route::Favicon
    } else if starts_with(path, "/id/"@) {
        Route::Id
    } else if starts_with(path, "/address/"@) {
        Route::Address
    } else if starts_with(path, "/history"@) {
        Route::History
    } else if starts_with(path, "/energy-intervals"@) {
        Route::EnergyIntervals
    } else {
        Route::Unsupported
    }
}

/// Routing goes by the path's prefix: `/` and `/favicon.ico` exactly; a
/// path starting with `/id/`, `/address/`, `/history` or
/// `/energy-intervals` goes to that endpoint whatever follows the prefix
/// (a query string included); every other path is unsupported.
pub proof fn lemma_route_prefixes(path: Seq<char>)
    ensures
        route_of("/"@) == Route::Root,
        route_of("/favicon.ico"@) == Route::Favicon,
        starts_with(path, "/id/"@) ==> route_of(path) == Route::Id,
        starts_with(path, "/address/"@) ==> route_of(path) == Route::Address,
        starts_with(path, "/history"@) ==> route_of(path) == Route::History,
        starts_with(path, "/energy-intervals"@) ==> route_of(path) == Route::EnergyIntervals,
        !(path == "/"@ || path == "/favicon.ico"@ || starts_with(path, "/id/"@) || starts_with(
            path,
            "/address/"@,
        ) || starts_with(path, "/history"@) || starts_with(path, "/energy-intervals"@)) ==> route_of(
            path,
        ) == Route::Unsupported,
{
    reveal_strlit("/");
    reveal_strlit("/favicon.ico");
    reveal_strlit("/id/");
    reveal_strlit("/address/");
    reveal_strlit("/history");
    reveal_strlit("/energy-intervals");
    assert("/favicon.ico"@.len() == 12 && "/"@.len() == 1);
    assert("/favicon.ico"@ != "/"@);
    if path.len() >= 2 {
        let c = path[1];
        if starts_with(path, "/id/"@) {
            assert(c == path.take(4)[1]);
        }
        if starts_with(path, "/address/"@) {
            assert(c == path.take(9)[1]);
        }
        if starts_with(path, "/history"@) {
            assert(c == path.take(8)[1]);
        }
        if starts_with(path, "/energy-intervals"@) {
            assert(c == path.take(17)[1]);
        }
        if path == "/favicon.ico"@ {
            assert(c == 'f');
        }
    }
}

proof fn lemma_trim_start_skip_ws(s: Seq<char>, i: int)
    requires
        0 <= i <= s.len(),
        forall|j: int| 0 <= j < i ==> is_whitespace(#[trigger] s[j]),
        i < s.len() ==> !is_whitespace(s[i]),
    ensures
        trim_start_by(s, CharClass::Whitespace) == s.skip(i),
    decreases i,
{
    if i > 0 {
        assert(s.drop_first().skip(i - 1) =~= s.skip(i));
        lemma_trim_start_skip_ws(s.drop_first(), i - 1);
    } else {
        assert(s.skip(0) =~= s);
    }
}

proof fn lemma_word_len(s: Seq<char>, k: int)
    requires
        0 <= k <= s.len(),
        forall|j: int| 0 <= j < k ==> !is_whitespace(#[trigger] s[j]),
        k < s.len() ==> is_whitespace(s[k]),
    ensures
        word_len(s) == k,
    decreases k,
{
    if k > 0 {
        lemma_word_len(s.drop_first(), k - 1);
    }
}

/// The first white-space separated word of `s`.
fn first_word_chars(s: &[char]) -> (r: Option<Vec<char>>)
    ensures
        match r {
            Some(w) => first_word(s@) == Some(w@),
            None => first_word(s@) is None,
        },
{
    let n = s.len();
    let mut lo: usize = 0;
    while lo < n && crate::text::char_is_whitespace(s[lo])
        invariant
            lo <= n,
            n == s@.len(),
            forall|j: int| 0 <= j < lo ==> is_whitespace(#[trigger] s@[j]),
        decreases n - lo,
    {
        lo = lo + 1;
    }
    proof {
        lemma_trim_start_skip_ws(s@, lo as int);
    }
    if lo == n {
        return None;
    }
    let mut hi: usize = lo;
    while hi < n && !crate::text::char_is_whitespace(s[hi])
        invariant
            lo <= hi <= n,
            n == s@.len(),
            forall|j: int| lo <= j < hi ==> !is_whitespace(#[trigger] s@[j]),
        decreases n - hi,
    {
        hi = hi + 1;
    }
    proof {
        let t = s@.skip(lo as int);
        assert forall|j: int| 0 <= j < hi - lo implies !is_whitespace(#[trigger] t[j]) by {
            assert(t[j] == s@[lo + j]);
        }
        lemma_word_len(t, hi - lo);
        assert(t.take(hi - lo) =~= s@.subrange(lo as int, hi as int));
    }
    Some(crate::text::copy_range(s, lo, hi))
}

/// The path of a raw HTTP request, if it is a GET request.
pub fn request_path(request: &[u8]) -> (r: Option<String>)
    ensures
        match r {
            Some(p) => request_path_of(utf8_lossy(request@)) == Some(p@),
            None => request_path_of(utf8_lossy(request@)) is None,
        },
{
    let text = decode_utf8_lossy(request);
    let chars = chars_of(text.as_str());
    let all = split_lines(chars.as_slice());
    let first: Vec<char> = if all.len() > 0 {
        let line = crate::text::copy_range(all[0].as_slice(), 0, all[0].len());
        assert(line@ =~= all@[0]@);
        line
    } else {
        Vec::new()
    };
    let get = chars_of("GET ");
    match strip_prefix_chars(first.as_slice(), get.as_slice()) {
        Some(rest) => match first_word_chars(rest.as_slice()) {
            Some(w) => Some(string_of(w.as_slice())),
            None => None,
        },
        None => None,
    }
}

/// The endpoint that serves a path.
pub fn route(path: &str) -> (r: Route)
    ensures
        r == route_of(path@),
{
    let p = chars_of(path);
    if crate::text::chars_equal(p.as_slice(), "/") {
        Route::Root
    } else if crate::text::chars_equal(p.as_slice(), "/favicon.ico") {
        Route::Favicon
    } else if starts_with_chars(p.as_slice(), chars_of("/id/").as_slice()) {
        Route::Id
    } else if starts_with_chars(p.as_slice(), chars_of("/address/").as_slice()) {
        Route::Address
    } else if starts_with_chars(p.as_slice(), chars_of("/history").as_slice()) {
        Route::History
    } else if starts_with_chars(p.as_slice(), chars_of("/energy-intervals").as_slice()) {
        Route::EnergyIntervals
    } else {
        Route::Unsupported
    }
}

// ---------------------------------------------------------------------------
// Query parameters
// ---------------------------------------------------------------------------

/// The time-range parameters of a query string.
#[derive(Debug, Clone, Copy, PartialEq, Eq, Structural)]
pub struct QueryParams {
    pub from_ts: Option<u64>,
    pub to_ts: Option<u64>,
    /// Averaging interval in minutes.
    pub interval: Option<u64>,
}

/// The query string of a path: what follows the first `?`, or nothing.
pub open spec fn query_of(path: Seq<char>) -> Seq<char> {
    match split_once(path, '?') {
        Some((_, q)) => q,
        None => Seq::empty(),
    }
}

/// A `u64` in decimal text, or `None` when the text is not one.
pub open spec fn value_u64(v: Seq<char>) -> Option<u64> {
    match parse_unsigned(v, 0xFFFF_FFFF_FFFF_FFFF) {
        Ok(n) => Some(n as u64),
        Err(_) => None,
    }
}

/// One `name=value` part applied to the parameters: a later part replaces an
/// earlier one, and an unparsable value clears the parameter.
pub open spec fn apply_param(p: QueryParams, part: Seq<char>) -> QueryParams {
    match strip_prefix(part, "from_ts="@) {
        Some(v) => QueryParams { from_ts: value_u64(v), ..p },
        None => match strip_prefix(part, "to_ts="@) {
            Some(v) => QueryParams { to_ts: value_u64(v), ..p },
            None => match strip_prefix(part, "interval="@) {
                Some(v) => QueryParams { interval: value_u64(v), ..p },
                None => p,
            },
        },
    }
}

pub open spec fn scan_params(p: QueryParams, parts: Seq<Seq<char>>) -> QueryParams
    decreases parts.len(),
{
    if parts.len() == 0 {
        p
    } else {
        scan_params(apply_param(p, parts[0]), parts.drop_first())
    }
}

/// The parameters of a path's query string, parts separated by `&`.
pub open spec fn params_of(path: Seq<char>) -> QueryParams {
    scan_params(QueryParams { from_ts: None, to_ts: None, interval: None }, split(query_of(path), '&'))
}

/// Every `u64` written in decimal is read back: `value_u64` of the decimal
/// text of `n` is `n`, and a query part `from_ts=<n>`, `to_ts=<n>` or
/// `interval=<n>` sets that parameter to `n` and leaves the others.
pub proof fn lemma_query_part_reads_number(p: QueryParams, n: u64)
    ensures
        value_u64(decimal(n as nat)) == Some(n),
        apply_param(p, "from_ts="@ + decimal(n as nat)) == (QueryParams { from_ts: Some(n), ..p }),
        apply_param(p, "to_ts="@ + decimal(n as nat)) == (QueryParams { to_ts: Some(n), ..p }),
        apply_param(p, "interval="@ + decimal(n as nat)) == (QueryParams { interval: Some(n), ..p }),
{
    reveal_strlit("from_ts=");
    reveal_strlit("to_ts=");
    reveal_strlit("interval=");
    crate::number::lemma_parse_decimal(n as nat, 0xFFFF_FFFF_FFFF_FFFF);
    let d = decimal(n as nat);
    let f = "from_ts="@ + d;
    let t = "to_ts="@ + d;
    let i = "interval="@ + d;
    assert(f.take(8) =~= "from_ts="@);
    assert(f.skip(8) =~= d);
    assert(t.take(6) =~= "to_ts="@);
    assert(t.skip(6) =~= d);
    assert(i.take(9) =~= "interval="@);
    assert(i.skip(9) =~= d);
    assert(!starts_with(t, "from_ts="@)) by {
        if t.len() >= 8 {
            assert(t.take(8)[0] != "from_ts="@[0]);
        }
    }
    assert(!starts_with(i, "from_ts="@)) by {
        assert(i.take(8)[0] != "from_ts="@[0]);
    }
    assert(!starts_with(i, "to_ts="@)) by {
        assert(i.take(6)[0] != "to_ts="@[0]);
    }
}

fn value_u64_chars(v: &[char]) -> (r: Option<u64>)
    ensures
        r == value_u64(v@),
{
    match parse_unsigned_chars(v, 0xFFFF_FFFF_FFFF_FFFF) {
        Ok(n) => Some(n),
        Err(_) => None,
    }
}

/// Reads the `from_ts`, `to_ts` and `interval` parameters of a path.
pub fn query_params(path: &str) -> (r: QueryParams)
    ensures
        r == params_of(path@),
{
    let p = chars_of(path);
    let query: Vec<char> = match split_once_chars(p.as_slice(), '?') {
        Some((_, q)) => q,
        None => Vec::new(),
    };
    assert(query@ == query_of(path@));
    let parts = split_chars(query.as_slice(), '&');
    let ghost all = split(query_of(path@), '&');
    let from_key = chars_of("from_ts=");
    let to_key = chars_of("to_ts=");
    let interval_key = chars_of("interval=");
    let mut params = QueryParams { from_ts: None, to_ts: None, interval: None };
    let mut i: usize = 0;
    assert(all.skip(0) =~= all);
    while i < parts.len()
        invariant
            views(parts@) == all,
            all == split(query_of(path@), '&'),
            from_key@ == "from_ts="@,
            to_key@ == "to_ts="@,
            interval_key@ == "interval="@,
            i <= parts@.len(),
            params_of(path@) == scan_params(params, all.skip(i as int)),
        decreases parts@.len() - i,
    {
        let part = parts[i].as_slice();
        assert(all.skip(i as int)[0] == part@);
        assert(all.skip(i as int).drop_first() =~= all.skip(i + 1));
        match strip_prefix_chars(part, from_key.as_slice()) {
            Some(v) => {
                params.from_ts = value_u64_chars(v.as_slice());
            },
            None => match strip_prefix_chars(part, to_key.as_slice()) {
                Some(v) => {
                    params.to_ts = value_u64_chars(v.as_slice());
                },
                None => match strip_prefix_chars(part, interval_key.as_slice()) {
                    Some(v) => {
                        params.interval = value_u64_chars(v.as_slice());
                    },
                    None => {},
                },
            },
        }
        i = i + 1;
    }
    params
}

} // verus!
