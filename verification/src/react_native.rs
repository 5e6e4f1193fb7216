//! React Native's Metro bundler: which port it listens on, the reload request
//! sent to it, and how its answer is read. The request goes over the network
//! in the caller.
use vstd::prelude::*;

use crate::config::ServiceConfig;
use crate::text::{
    chars_of, decimal, has_prefix, is_ws, is_whitespace, push_decimal, strip_prefix,
    text_eq, trim, trimmed, concat,
};

verus! {

/// The port Metro uses unless told otherwise.
pub const DEFAULT_METRO_PORT: u16 = 8081;

/// Why the Metro port or a reload is not available.
#[derive(Debug, Clone, PartialEq)]
pub enum MetroError {
    InvalidPort { value: String, source: String },
    PortWithoutValue,
    ReloadFailed { status: String },
}

/// A Metro error as text.
pub ghost enum MetroErrorView {
    InvalidPort(Seq<char>, Seq<char>),
    PortWithoutValue,
    ReloadFailed(Seq<char>),
}

impl MetroError {
    pub open spec fn view(&self) -> MetroErrorView {
        match self {
            MetroError::InvalidPort { value, source } => MetroErrorView::InvalidPort(value@, source@),
            MetroError::PortWithoutValue => MetroErrorView::PortWithoutValue,
            MetroError::ReloadFailed { status } => MetroErrorView::ReloadFailed(status@),
        }
    }
}

/// A result as text.
pub open spec fn port_result_view(r: Result<u16, MetroError>) -> Result<u16, MetroErrorView> {
    match r {
        Ok(p) => Ok(p),
        Err(e) => Err(e.view()),
    }
}

/// An ASCII decimal digit.
pub open spec fn is_digit(c: char) -> bool {
    '0' <= c && c <= '9'
}

/// The number that the digits `s` write.
pub open spec fn digits_value(s: Seq<char>) -> nat
    decreases s.len(),
{
    if s.len() == 0 {
        0
    } else {
        digits_value(s.drop_last()) * 10 + ((s.last() as nat) - 48) as nat
    }
}

/// `s` without one leading `+`.
pub open spec fn unsigned_digits(s: Seq<char>) -> Seq<char> {
    if s.len() > 0 && s[0] == '+' {
        s.skip(1)
    } else {
        s
    }
}

/// `u16::from_str`: an optional `+` and at least one decimal digit, of value
/// at most 65535.
pub open spec fn parse_u16_text(s: Seq<char>) -> Option<u16> {
    let d = unsigned_digits(s);
    if d.len() > 0 && (forall|i: int| 0 <= i < d.len() ==> is_digit(#[trigger] d[i])) && digits_value(d)
        <= 65535 {
        Some(digits_value(d) as u16)
    } else {
        None
    }
}

fn parse_u16(s: &str) -> (r: Option<u16>)
    ensures
        r == parse_u16_text(s@),
{
    let v = chars_of(s);
    let start: usize = if v.len() > 0 && v[0] == '+' {
        1
    } else {
        0
    };
    let ghost d = unsigned_digits(s@);
    assert(d =~= v@.skip(start as int));
    if start >= v.len() {
        assert(d.len() == 0);
        return None;
    }
    let mut acc: u32 = 0;
    let mut i: usize = start;
    assert(v@.subrange(start as int, start as int) =~= Seq::<char>::empty());
    while i < v.len()
        invariant
            v@ == s@,
            d == unsigned_digits(s@),
            d == v@.skip(start as int),
            start <= i <= v.len(),
            forall|j: int| start <= j < i ==> is_digit(#[trigger] v@[j]),
            acc as nat == if digits_value(v@.subrange(start as int, i as int)) <= 65536 {
                digits_value(v@.subrange(start as int, i as int))
            } else {
                65536
            },
        decreases v.len() - i,
    {
        let c = v[i];
        if !('0' <= c && c <= '9') {
            assert(!is_digit(d[i - start]));
            return None;
        }
        let digit = (c as u32) - 48;
        let ghost prefix = v@.subrange(start as int, i as int);
        let ghost next = v@.subrange(start as int, i + 1);
        assert(next.drop_last() =~= prefix);
        assert(digits_value(next) == digits_value(prefix) * 10 + digit);
        let grown = acc * 10 + digit;
        acc = if grown > 65536 {
            65536
        } else {
            grown
        };
        i = i + 1;
    }
    assert(v@.subrange(start as int, v.len() as int) =~= d);
    if acc <= 65535 {
        Some(acc as u16)
    } else {
        None
    }
}

/// The port that `value`, taken from `source`, names.
pub open spec fn parse_port_text(value: Seq<char>, source: Seq<char>) -> Result<u16, MetroErrorView> {
    match parse_u16_text(value) {
        Some(p) => Ok(p),
        None => Err(MetroErrorView::InvalidPort(value, source)),
    }
}

fn parse_port(value: &str, source: &str) -> (r: Result<u16, MetroError>)
    ensures
        port_result_view(r) == parse_port_text(value@, source@),
{
    match parse_u16(value) {
        Some(p) => Ok(p),
        None => Err(
            MetroError::InvalidPort { value: String::from_str(value), source: String::from_str(source) },
        ),
    }
}

/// Entry `k` is the first of `env` named `name`.
pub open spec fn first_env(env: Seq<(String, String)>, name: Seq<char>, k: int) -> bool {
    0 <= k < env.len() && env[k].0@ == name && forall|j: int|
        0 <= j < k ==> (#[trigger] env[j]).0@ != name
}

/// The value of the variable `name` in `env`, if it is set.
pub open spec fn env_value(env: Seq<(String, String)>, name: Seq<char>) -> Option<Seq<char>> {
    if exists|k: int| first_env(env, name, k) {
        Some(env[choose|k: int| first_env(env, name, k)].1@)
    } else {
        None
    }
}

/// The port that the arguments from `i` on ask for: `--port <value>` or
/// `--port=<value>`, the first that occurs; Metro's default if none does.
pub open spec fn port_from_args(args: Seq<String>, i: int) -> Result<u16, MetroErrorView>
    decreases args.len() - i,
{
    if i < 0 || i >= args.len() {
        Ok(DEFAULT_METRO_PORT)
    } else if args[i]@ == "--port"@ {
        if i + 1 < args.len() {
            parse_port_text(args[i + 1]@, "--port"@)
        } else {
            Err(MetroErrorView::PortWithoutValue)
        }
    } else if has_prefix(args[i]@, "--port="@) {
        parse_port_text(args[i]@.skip(7), "--port"@)
    } else {
        port_from_args(args, i + 1)
    }
}

/// The port Metro listens on: `RCT_METRO_PORT` if the service sets it, else
/// the `--port` argument, else the default.
pub open spec fn metro_port_of(service: ServiceConfig) -> Result<u16, MetroErrorView> {
    match env_value(service.env@, "RCT_METRO_PORT"@) {
        Some(v) => parse_port_text(v, "RCT_METRO_PORT"@),
        None => port_from_args(service.args@, 0),
    }
}

proof fn lemma_first_env_unique(env: Seq<(String, String)>, name: Seq<char>, a: int, b: int)
    requires
        first_env(env, name, a),
        first_env(env, name, b),
    ensures
        a == b,
{
    if a < b {
        assert(env[a].0@ != name);
    } else if b < a {
        assert(env[b].0@ != name);
    }
}

fn lookup_env<'a>(env: &'a Vec<(String, String)>, name: &str) -> (r: Option<&'a String>)
    ensures
        match r {
            Some(v) => env_value(env@, name@) == Some(v@),
            None => env_value(env@, name@) is None,
        },
{
    let mut k: usize = 0;
    while k < env.len()
        invariant
            k <= env.len(),
            forall|j: int| 0 <= j < k ==> (#[trigger] env@[j]).0@ != name@,
        decreases env.len() - k,
    {
        if text_eq(env[k].0.as_str(), name) {
            assert(first_env(env@, name@, k as int));
            proof {
                let c = choose|c: int| first_env(env@, name@, c);
                lemma_first_env_unique(env@, name@, c, k as int);
            }
            return Some(&env[k].1);
        }
        k = k + 1;
    }
    None
}

/// The port Metro listens on for a react-native service.
pub fn metro_port(service: &ServiceConfig) -> (r: Result<u16, MetroError>)
    ensures
        port_result_view(r) == metro_port_of(*service),
{
    proof {
        reveal_strlit("--port=");
    }
    if let Some(value) = lookup_env(&service.env, "RCT_METRO_PORT") {
        return parse_port(value.as_str(), "RCT_METRO_PORT");
    }
    let args = &service.args;
    let mut i: usize = 0;
    while i < args.len()
        invariant
            env_value(service.env@, "RCT_METRO_PORT"@) is None,
            "--port="@.len() == 7,
            args == &service.args,
            i <= args.len(),
            port_from_args(args@, 0) == port_from_args(args@, i as int),
        decreases args.len() - i,
    {
        if text_eq(args[i].as_str(), "--port") {
            if i + 1 < args.len() {
                return parse_port(args[i + 1].as_str(), "--port");
            }
            return Err(MetroError::PortWithoutValue);
        }
        if let Some(value) = strip_prefix(args[i].as_str(), "--port=") {
            return parse_port(value.as_str(), "--port");
        }
        i = i + 1;
    }
    Ok(DEFAULT_METRO_PORT)
}

/// The request that makes Metro reload its apps, with the port it is sent to.
#[derive(Debug, Clone, PartialEq)]
pub struct ReloadRequest {
    pub port: u16,
    pub request: String,
}

/// The HTTP request for `/reload` on Metro at `port`.
pub open spec fn reload_request_text(port: u16) -> Seq<char> {
    "GET /reload HTTP/1.1\r\nHost: 127.0.0.1:"@ + decimal(port as nat)
        + "\r\nConnection: close\r\n\r\n"@
}

/// The reload request for a react-native service's Metro.
pub fn reload(service: &ServiceConfig) -> (r: Result<ReloadRequest, MetroError>)
    ensures
        match metro_port_of(*service) {
            Ok(p) => r matches Ok(q) && q.port == p && q.request@ == reload_request_text(p),
            Err(e) => r matches Err(x) && x.view() == e,
        },
{
    let port = metro_port(service)?;
    let mut request = String::from_str("GET /reload HTTP/1.1\r\nHost: 127.0.0.1:");
    push_decimal(&mut request, port as u64);
    request.append("\r\nConnection: close\r\n\r\n");
    Ok(ReloadRequest { port, request })
}

// ---------------------------------------------------------------------------
// The answer
// ---------------------------------------------------------------------------

/// A whitespace-separated word of `s` starts at `k`.
pub open spec fn word_start(s: Seq<char>, k: int) -> bool {
    0 <= k < s.len() && !is_ws(s[k]) && (k == 0 || is_ws(s[k - 1]))
}

/// How many words of `s` start before `k`.
pub open spec fn words_before(s: Seq<char>, k: int) -> nat
    decreases k,
{
    if k <= 0 {
        0
    } else {
        words_before(s, k - 1) + if word_start(s, k - 1) {
            1nat
        } else {
            0nat
        }
    }
}

/// The second word of `s` starts at `k`.
pub open spec fn second_word_at(s: Seq<char>, k: int) -> bool {
    word_start(s, k) && words_before(s, k) == 1
}

/// The status line reports success: its second word, the status code, starts with `2`.
pub open spec fn reload_succeeded(status_line: Seq<char>) -> bool {
    let s = trim(status_line);
    exists|k: int| second_word_at(s, k) && s[k] == '2'
}

proof fn lemma_words_before_grows(s: Seq<char>, a: int, b: int)
    requires
        0 <= a <= b,
    ensures
        words_before(s, a) <= words_before(s, b),
    decreases b - a,
{
    if a < b {
        lemma_words_before_grows(s, a, b - 1);
    }
}

proof fn lemma_second_word_unique(s: Seq<char>, a: int, b: int)
    requires
        second_word_at(s, a),
        second_word_at(s, b),
    ensures
        a == b,
{
    if a < b {
        lemma_words_before_grows(s, a + 1, b);
    } else if b < a {
        lemma_words_before_grows(s, b + 1, a);
    }
}

/// Reads Metro's status line: `Ok` when the status code is a success,
/// otherwise the trimmed line in the error.
pub fn reload_response(status_line: &str) -> (r: Result<(), MetroError>)
    ensures
        reload_succeeded(status_line@) ==> r is Ok,
        !reload_succeeded(status_line@) ==> (r matches Err(e) && e.view()
            == MetroErrorView::ReloadFailed(trim(status_line@))),
{
    let status = trimmed(status_line);
    let v = chars_of(status.as_str());
    let ghost s = trim(status_line@);
    let mut count: u8 = 0;
    let mut k: usize = 0;
    while k < v.len()
        invariant
            v@ == s,
            status@ == s,
            s == trim(status_line@),
            k <= v.len(),
            count as nat == words_before(s, k as int),
            count <= 1,
        decreases v.len() - k,
    {
        let starts = !is_whitespace(v[k]) && (k == 0 || is_whitespace(v[k - 1]));
        if starts {
            if count == 1 {
                assert(second_word_at(s, k as int));
                if v[k] == '2' {
                    return Ok(());
                }
                assert forall|j: int| second_word_at(s, j) implies s[j] != '2' by {
                    lemma_second_word_unique(s, j, k as int);
                }
                return Err(MetroError::ReloadFailed { status });
            }
            count = count + 1;
        }
        k = k + 1;
    }
    assert forall|j: int| !second_word_at(s, j) by {
        if second_word_at(s, j) {
            lemma_words_before_grows(s, j + 1, k as int);
        }
    }
    Err(MetroError::ReloadFailed { status })
}


/// The text of a Metro error.
pub open spec fn metro_error_text(e: MetroError) -> Seq<char> {
    match e {
        MetroError::InvalidPort { value, source } => "invalid Metro port '"@ + value@ + "' from "@
            + source@,
        MetroError::PortWithoutValue => "--port requires a value"@,
        MetroError::ReloadFailed { status } => "Metro reload request failed: "@ + status@,
    }
}

impl MetroError {
    /// The message shown for this error.
    pub fn message(&self) -> (r: String)
        ensures
            r@ == metro_error_text(*self),
    {
        match self {
            MetroError::InvalidPort { value, source } => {
                let mut r = crate::text::concat3("invalid Metro port '", value.as_str(), "' from ");
                r.append(source.as_str());
                r
            },
            MetroError::PortWithoutValue => String::from_str("--port requires a value"),
            MetroError::ReloadFailed { status } => concat(
                "Metro reload request failed: ",
                status.as_str(),
            ),
        }
    }
}

} // verus!
