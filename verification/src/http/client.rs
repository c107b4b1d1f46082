//! The HTTP client state: configuration, the table of beta headers, URL
//! construction and the error message made from a failed response.

use vstd::prelude::*;
use vstd::string::StringExecFns;
use std::time::Duration;
use crate::types::errors::AnthropicError;
use crate::types::shared::RequestId;
use crate::http::json::{extract_error_message, json_error_message};

verus! {

#[verifier::external_type_specification]
#[verifier::external_body]
pub struct ExReqwestClient(reqwest::Client);

/// How requests prove who sends them.
#[derive(Debug, Clone, Copy, PartialEq, Eq, Structural)]
pub enum AuthMethod {
    /// The key goes in the `x-api-key` header
    ApiKey,
    /// The key goes in the `Authorization` header as a bearer token
    Bearer,
}

/// The authentication header for a method and key.
pub open spec fn auth_header_for(method: AuthMethod, api_key: Seq<char>) -> (Seq<char>, Seq<char>) {
    match method {
        AuthMethod::ApiKey => ("x-api-key"@, api_key),
        AuthMethod::Bearer => ("Authorization"@, "Bearer "@ + api_key),
    }
}

/// Settings the HTTP client is made from.
#[derive(Debug)]
pub struct ClientConfig {
    /// The API key sent with each request
    pub api_key: String,
    /// How the API key is sent
    pub auth_method: AuthMethod,
    /// The base URL that request paths are appended to
    pub base_url: String,
    /// Timeout for a whole request
    pub timeout: Duration,
}

/// The reqwest client that requests go through, with the timeout it was
/// built with.
pub struct Transport {
    client: reqwest::Client,
    timeout: Ghost<Duration>,
}

impl Transport {
    /// The timeout the client was built with.
    pub closed spec fn spec_timeout(&self) -> Duration {
        self.timeout@
    }

    /// The reqwest client itself.
    pub closed spec fn spec_client(&self) -> reqwest::Client {
        self.client
    }
}

/// Makes a `reqwest::Client` with the given request timeout, through
/// `reqwest::Client::builder().timeout(..).build()`; a failure is handed back
/// as the error's text. The contract claims that a client that was built was
/// given this timeout. Whether the build succeeds depends on the machine
/// (TLS and proxy setup), so that is left unsaid.
#[verifier::external_body]
fn build_reqwest_client(timeout: Duration) -> (r: Result<Transport, String>)
    ensures
        r matches Ok(t) ==> t.spec_timeout() == timeout,
{
    match reqwest::Client::builder().timeout(timeout).build() {
        Ok(client) => Ok(Transport { client, timeout: Ghost(timeout) }),
        Err(e) => Err(e.to_string()),
    }
}

/// Appends one character to a string (std's `String::push`).
#[verifier::external_body]
fn push_char(s: &mut String, c: char)
    ensures
        final(s)@ == old(s)@.push(c),
{
    s.push(c);
}

/// The reason phrase that the `http` crate's status table gives a code.
pub uninterp spec fn canonical_reason_of(code: u16) -> Option<Seq<char>>;

/// `reqwest::StatusCode::from_u16(code)` followed by `canonical_reason()`.
/// The code is in the range that `from_u16` accepts, so the conversion does
/// not fail. The contract claims only that the result is the named function
/// `canonical_reason_of` of the code.
#[verifier::external_body]
fn canonical_reason(code: u16) -> (r: Option<&'static str>)
    requires
        100 <= code <= 999,
    ensures
        r matches Some(s) ==> canonical_reason_of(code) == Some(s@),
        r is None ==> canonical_reason_of(code) is None,
{
    match reqwest::StatusCode::from_u16(code) {
        Ok(status) => status.canonical_reason(),
        Err(_) => None,
    }
}

/// A string's characters with every trailing `/` removed.
pub open spec fn trim_trailing_slashes(s: Seq<char>) -> Seq<char>
    decreases s.len(),
{
    if s.len() > 0 && s.last() == '/' {
        trim_trailing_slashes(s.drop_last())
    } else {
        s
    }
}

/// The character of a decimal digit.
pub open spec fn digit_char(d: nat) -> char {
    (d + 48) as char
}

/// The decimal representation of `n`, without leading zeros.
pub open spec fn decimal_digits(n: nat) -> Seq<char>
    decreases n,
{
    if n < 10 {
        seq![digit_char(n)]
    } else {
        decimal_digits(n / 10).push(digit_char(n % 10))
    }
}

/// A status is a success when it lies in 200-299.
pub open spec fn spec_is_success(status: u16) -> bool {
    200 <= status < 300
}

/// An optional string by its characters.
pub open spec fn opt_chars(o: Option<String>) -> Option<Seq<char>> {
    match o {
        Some(s) => Some(s@),
        None => None,
    }
}

/// The message of a failed response: the JSON `error.message` of the body
/// when there is one, else the body itself; when the body could not be read,
/// `HTTP <code>: <reason>` with `Unknown` for a code without a reason phrase.
pub open spec fn status_error_message(
    status: u16,
    body: Option<Seq<char>>,
    json_message: Option<Seq<char>>,
    reason: Option<Seq<char>>,
) -> Seq<char> {
    match body {
        Some(b) => match json_message {
            Some(m) => m,
            None => b,
        },
        None => "HTTP "@ + decimal_digits(status as nat) + ": "@ + match reason {
            Some(r) => r,
            None => "Unknown"@,
        },
    }
}

/// The error message for a failed response with this status and body, where
/// the JSON message and reason phrase are those that serde_json and the
/// status table give.
pub open spec fn response_error_message(status: u16, body: Option<Seq<char>>) -> Seq<char> {
    status_error_message(
        status,
        body,
        match body {
            Some(b) => json_error_message(b),
            None => None,
        },
        canonical_reason_of(status),
    )
}

/// No two entries of a header table share a name.
pub open spec fn keys_distinct(s: Seq<(String, String)>) -> bool {
    forall|i: int, j: int|
        0 <= i < s.len() && 0 <= j < s.len() && i != j ==> (#[trigger] s[i].0)@ != (
        #[trigger] s[j].0)@
}

/// Some entry of the table has this name.
pub open spec fn has_key(s: Seq<(String, String)>, k: Seq<char>) -> bool {
    exists|i: int| 0 <= i < s.len() && (#[trigger] s[i].0)@ == k
}

/// A header table as a map from names to values.
pub open spec fn header_map(s: Seq<(String, String)>) -> Map<Seq<char>, Seq<char>> {
    Map::new(
        |k: Seq<char>| has_key(s, k),
        |k: Seq<char>| s[choose|i: int| 0 <= i < s.len() && (#[trigger] s[i].0)@ == k].1@,
    )
}

/// The map made by inserting the pairs in order, a later pair replacing an
/// earlier one of the same name.
pub open spec fn pairs_map(s: Seq<(String, String)>) -> Map<Seq<char>, Seq<char>>
    decreases s.len(),
{
    if s.len() == 0 {
        Map::empty()
    } else {
        pairs_map(s.drop_last()).insert(s.last().0@, s.last().1@)
    }
}

proof fn lemma_header_map_entry(s: Seq<(String, String)>, j: int)
    requires
        keys_distinct(s),
        0 <= j < s.len(),
    ensures
        header_map(s).contains_key(s[j].0@),
        header_map(s)[s[j].0@] == s[j].1@,
{
    let k = s[j].0@;
    assert(has_key(s, k));
    let c = choose|i: int| 0 <= i < s.len() && (#[trigger] s[i].0)@ == k;
    assert(0 <= c < s.len() && s[c].0@ == k);
    if c != j {
        assert(s[c].0@ != s[j].0@);
    }
}

/// Inserts `name => value`, replacing the value of an entry with that name.
fn table_insert(table: &mut Vec<(String, String)>, name: String, value: String)
    requires
        keys_distinct(old(table)@),
    ensures
        keys_distinct(final(table)@),
        header_map(final(table)@) == header_map(old(table)@).insert(name@, value@),
{
    let ghost old_s = table@;
    let n = table.len();
    let mut i: usize = 0;
    while i < n
        invariant
            n == table.len(),
            table@ == old_s,
            old_s == old(table)@,
            i <= n,
            keys_distinct(old_s),
            forall|m: int| 0 <= m < i ==> (#[trigger] old_s[m].0)@ != name@,
        decreases n - i,
    {
        if table[i].0 == name {
            let ghost k = name@;
            table[i] = (name, value);
            let ghost new_s = table@;
            assert(new_s == old_s.update(i as int, new_s[i as int]));
            assert forall|a: int, b: int|
                0 <= a < new_s.len() && 0 <= b < new_s.len() && a != b implies (
                #[trigger] new_s[a].0)@ != (#[trigger] new_s[b].0)@ by {
                assert(new_s[a].0@ == old_s[a].0@);
                assert(new_s[b].0@ == old_s[b].0@);
            }
            assert forall|key: Seq<char>|
                #![trigger header_map(new_s).contains_key(key)]
                header_map(new_s).contains_key(key) == header_map(old_s).insert(
                    k,
                    value@,
                ).contains_key(key) by {
                if has_key(new_s, key) {
                    let m = choose|m: int| 0 <= m < new_s.len() && (#[trigger] new_s[m].0)@ == key;
                    assert(old_s[m].0@ == key);
                }
                if has_key(old_s, key) {
                    let m = choose|m: int| 0 <= m < old_s.len() && (#[trigger] old_s[m].0)@ == key;
                    assert(new_s[m].0@ == key);
                }
            }
            assert forall|key: Seq<char>|
                #[trigger] header_map(new_s).contains_key(key) implies header_map(new_s)[key]
                == header_map(old_s).insert(k, value@)[key] by {
                let m = choose|m: int| 0 <= m < new_s.len() && (#[trigger] new_s[m].0)@ == key;
                lemma_header_map_entry(new_s, m);
                if m != i {
                    assert(old_s[m].0@ == key);
                    lemma_header_map_entry(old_s, m);
                }
            }
            assert(header_map(new_s) =~= header_map(old_s).insert(k, value@));
            return;
        }
        i += 1;
    }
    let ghost k = name@;
    table.push((name, value));
    let ghost new_s = table@;
    assert(new_s == old_s.push(new_s[n as int]));
    assert forall|a: int, b: int|
        0 <= a < new_s.len() && 0 <= b < new_s.len() && a != b implies (
        #[trigger] new_s[a].0)@ != (#[trigger] new_s[b].0)@ by {
        if a < n && b < n {
            assert(new_s[a] == old_s[a]);
            assert(new_s[b] == old_s[b]);
        } else if a < n {
            assert(new_s[a] == old_s[a]);
        } else {
            assert(new_s[b] == old_s[b]);
        }
    }
    assert forall|key: Seq<char>|
        #![trigger header_map(new_s).contains_key(key)]
        header_map(new_s).contains_key(key) == header_map(old_s).insert(
            k,
            value@,
        ).contains_key(key) by {
        if has_key(new_s, key) {
            let m = choose|m: int| 0 <= m < new_s.len() && (#[trigger] new_s[m].0)@ == key;
            if m < n {
                assert(old_s[m].0@ == key);
            }
        }
        if has_key(old_s, key) {
            let m = choose|m: int| 0 <= m < old_s.len() && (#[trigger] old_s[m].0)@ == key;
            assert(new_s[m].0@ == key);
        }
        if key == k {
            assert(new_s[n as int].0@ == key);
        }
    }
    assert forall|key: Seq<char>|
        #[trigger] header_map(new_s).contains_key(key) implies header_map(new_s)[key]
        == header_map(old_s).insert(k, value@)[key] by {
        let m = choose|m: int| 0 <= m < new_s.len() && (#[trigger] new_s[m].0)@ == key;
        lemma_header_map_entry(new_s, m);
        if m < n {
            assert(old_s[m].0@ == key);
            lemma_header_map_entry(old_s, m);
        }
    }
    assert(header_map(new_s) =~= header_map(old_s).insert(k, value@));
}

/// The decimal digit `d` as a character.
fn digit(d: u16) -> (c: char)
    requires
        d < 10,
    ensures
        c == digit_char(d as nat),
{
    let b: u8 = 48u8 + (d as u8);
    b as char
}

/// The decimal representation of a number.
pub fn decimal_string(n: u16) -> (r: String)
    ensures
        r@ == decimal_digits(n as nat),
    decreases n,
{
    if n < 10 {
        let mut s = String::new();
        push_char(&mut s, digit(n));
        assert(s@ =~= seq![digit_char(n as nat)]);
        s
    } else {
        let mut s = decimal_string(n / 10);
        push_char(&mut s, digit(n % 10));
        s
    }
}

/// A string slice with every trailing `/` removed.
pub fn trim_slashes_end(s: &str) -> (r: &str)
    ensures
        r@ == trim_trailing_slashes(s@),
{
    let mut end = s.unicode_len();
    assert(s@.subrange(0, end as int) =~= s@);
    while end > 0 && s.get_char(end - 1) == '/'
        invariant
            end <= s@.len(),
            trim_trailing_slashes(s@) == trim_trailing_slashes(s@.subrange(0, end as int)),
        decreases end,
    {
        assert(s@.subrange(0, end as int).drop_last() =~= s@.subrange(0, end - 1));
        end = end - 1;
    }
    s.substring_char(0, end)
}

/// Whether a response status counts as success (200-299), as
/// `StatusCode::is_success` decides it.
pub fn is_success(status: u16) -> (r: bool)
    ensures
        r == spec_is_success(status),
{
    200 <= status && status < 300
}

/// Puts together the message of a failed response from its parts: the body
/// (absent when it could not be read), the JSON `error.message` found in the
/// body, and the status code's reason phrase.
pub fn compose_status_message(
    status: u16,
    body: Option<String>,
    json_message: Option<String>,
    reason: Option<&str>,
) -> (r: String)
    ensures
        r@ == status_error_message(
            status,
            opt_chars(body),
            opt_chars(json_message),
            match reason {
                Some(x) => Some(x@),
                None => None,
            },
        ),
{
    match body {
        Some(b) => match json_message {
            Some(m) => m,
            None => b,
        },
        None => {
            let mut s = String::from_str("HTTP ");
            let code = decimal_string(status);
            s.append(code.as_str());
            s.append(": ");
            match reason {
                Some(x) => s.append(x),
                None => s.append("Unknown"),
            }
            s
        },
    }
}

/// The message of a failed response with this status, given its body, or
/// `None` when the body could not be read.
pub fn error_message(status: u16, body: Option<String>) -> (r: String)
    requires
        100 <= status <= 999,
    ensures
        r@ == response_error_message(status, opt_chars(body)),
{
    match body {
        Some(b) => {
            let json_message = extract_error_message(b.as_str());
            compose_status_message(status, Some(b), json_message, None)
        },
        None => {
            let reason = canonical_reason(status);
            compose_status_message(status, None, None, reason)
        },
    }
}

/// A header byte that `HeaderValue::to_str` accepts: visible ASCII or tab.
pub open spec fn visible_ascii(b: u8) -> bool {
    (32 <= b && b < 127) || b == 9
}

/// The request ID that a `request-id` header carries: present when the
/// header is there and all its bytes are visible ASCII, and then the bytes
/// read as characters.
pub fn request_id_from_header(value: Option<&[u8]>) -> (r: Option<RequestId>)
    ensures
        r is Some <==> (value is Some && forall|i: int|
            0 <= i < value->0@.len() ==> visible_ascii(#[trigger] value->0@[i])),
        r matches Some(id) ==> id.0@ == value->0@.map_values(|b: u8| b as char),
{
    let bytes = match value {
        Some(b) => b,
        None => return None,
    };
    let mut text = String::new();
    let n = bytes.len();
    let mut i: usize = 0;
    while i < n
        invariant
            n == bytes@.len(),
            value is Some && value->0@ == bytes@,
            i <= n,
            forall|j: int| 0 <= j < i ==> visible_ascii(#[trigger] bytes@[j]),
            text@ == bytes@.subrange(0, i as int).map_values(|b: u8| b as char),
        decreases n - i,
    {
        let b = bytes[i];
        if !((32u8 <= b && b < 127u8) || b == 9u8) {
            assert(!visible_ascii(bytes@[i as int]));
            return None;
        }
        push_char(&mut text, b as char);
        assert(bytes@.subrange(0, i + 1).map_values(|b: u8| b as char) =~= bytes@.subrange(
            0,
            i as int,
        ).map_values(|b: u8| b as char).push(b as char));
        i += 1;
    }
    assert(bytes@.subrange(0, n as int) =~= bytes@);
    Some(RequestId::new(text))
}

/// The HTTP client: its transport, configuration and beta headers.
pub struct HttpClient {
    transport: Transport,
    config: ClientConfig,
    beta_headers: Vec<(String, String)>,
}

impl HttpClient {
    /// The configuration the client was made with.
    pub closed spec fn spec_config(&self) -> ClientConfig {
        self.config
    }

    /// The underlying reqwest client the requests go through.
    pub closed spec fn spec_transport(&self) -> Transport {
        self.transport
    }

    /// The beta headers sent with each request, by name.
    pub closed spec fn beta_map(&self) -> Map<Seq<char>, Seq<char>> {
        header_map(self.beta_headers@)
    }

    /// The beta header table holds each name once.
    pub closed spec fn wf(&self) -> bool {
        keys_distinct(self.beta_headers@)
    }

    /// Make a client for `config`, with no beta headers, whose transport is
    /// built with the configured timeout. Fails with a
    /// connection error when the underlying HTTP client cannot be built.
    pub fn new(config: ClientConfig) -> (r: Result<Self, AnthropicError>)
        ensures
            r matches Ok(c) ==> c.wf() && c.spec_config() == config && c.beta_map()
                == Map::<Seq<char>, Seq<char>>::empty() && c.spec_transport().spec_timeout()
                == config.timeout,
            r matches Err(e) ==> e is Connection,
    {
        match build_reqwest_client(config.timeout) {
            Ok(client) => {
                let r = HttpClient { transport: client, config, beta_headers: Vec::new() };
                assert(r.beta_map() =~= Map::<Seq<char>, Seq<char>>::empty());
                Ok(r)
            },
            Err(message) => Err(AnthropicError::Connection { message }),
        }
    }

    /// Build a full URL from a path: the base URL without trailing `/`
    /// followed by the path.
    pub fn build_url(&self, path: &str) -> (r: String)
        ensures
            r@ == trim_trailing_slashes(self.spec_config().base_url@) + path@,
    {
        let base = trim_slashes_end(self.config.base_url.as_str());
        let mut url = String::from_str(base);
        url.append(path);
        url
    }

    /// The message of a failed response, as an error carrying the status.
    pub fn status_error(status: u16, body: Option<String>) -> (r: AnthropicError)
        requires
            100 <= status <= 999,
        ensures
            r matches AnthropicError::Status { status: s, message } && s == status && message@
                == response_error_message(status, opt_chars(body)),
    {
        let message = error_message(status, body);
        AnthropicError::Status { status, message }
    }

    /// Get the base URL.
    pub fn base_url(&self) -> (r: &str)
        ensures
            r@ == self.spec_config().base_url@,
    {
        self.config.base_url.as_str()
    }

    /// Get the current configuration.
    pub fn config(&self) -> (r: &ClientConfig)
        ensures
            *r == self.spec_config(),
    {
        &self.config
    }

    /// The header that authenticates a request: the API key in `x-api-key`,
    /// or as a bearer token in `Authorization`, as the configuration says.
    pub fn auth_header(&self) -> (r: (String, String))
        ensures
            (r.0@, r.1@) == auth_header_for(
                self.spec_config().auth_method,
                self.spec_config().api_key@,
            ),
    {
        match self.config.auth_method {
            AuthMethod::ApiKey => (String::from_str("x-api-key"), self.config.api_key.clone()),
            AuthMethod::Bearer => {
                let mut value = String::from_str("Bearer ");
                value.append(self.config.api_key.as_str());
                (String::from_str("Authorization"), value)
            },
        }
    }

    /// Get the underlying reqwest client.
    pub fn client(&self) -> (r: &reqwest::Client)
        ensures
            *r == self.spec_transport().spec_client(),
    {
        &self.transport.client
    }

    /// The beta headers, each name once.
    pub fn beta_headers(&self) -> (r: &Vec<(String, String)>)
        requires
            self.wf(),
        ensures
            keys_distinct(r@),
            header_map(r@) == self.beta_map(),
    {
        &self.beta_headers
    }

    /// Add a beta header for experimental features, replacing the value of a
    /// header with the same name.
    pub fn with_beta_header(&mut self, name: String, value: String)
        requires
            old(self).wf(),
        ensures
            final(self).wf(),
            final(self).spec_config() == old(self).spec_config(),
            final(self).spec_transport() == old(self).spec_transport(),
            final(self).beta_map() == old(self).beta_map().insert(name@, value@),
    {
        table_insert(&mut self.beta_headers, name, value);
    }

    /// Add extended cache TTL beta header.
    pub fn with_extended_cache_ttl(&mut self)
        requires
            old(self).wf(),
        ensures
            final(self).wf(),
            final(self).spec_config() == old(self).spec_config(),
            final(self).spec_transport() == old(self).spec_transport(),
            final(self).beta_map() == old(self).beta_map().insert(
                "extended-cache-ttl-2025-04-11"@,
                "true"@,
            ),
    {
        table_insert(
            &mut self.beta_headers,
            String::from_str("extended-cache-ttl-2025-04-11"),
            String::from_str("true"),
        );
    }

    /// Add interleaved thinking beta header.
    pub fn with_interleaved_thinking(&mut self)
        requires
            old(self).wf(),
        ensures
            final(self).wf(),
            final(self).spec_config() == old(self).spec_config(),
            final(self).spec_transport() == old(self).spec_transport(),
            final(self).beta_map() == old(self).beta_map().insert(
                "interleaved-thinking-2025-05-14"@,
                "true"@,
            ),
    {
        table_insert(
            &mut self.beta_headers,
            String::from_str("interleaved-thinking-2025-05-14"),
            String::from_str("true"),
        );
    }

    /// Replace the beta headers by the given pairs, a later pair replacing an
    /// earlier one of the same name.
    pub fn with_beta_headers(self, headers: Vec<(String, String)>) -> (r: Self)
        ensures
            r.wf(),
            r.spec_config() == self.spec_config(),
            r.spec_transport() == self.spec_transport(),
            r.beta_map() == pairs_map(headers@),
    {
        let mut table: Vec<(String, String)> = Vec::new();
        assert(header_map(table@) =~= pairs_map(headers@.take(0)));
        let n = headers.len();
        let mut i: usize = 0;
        while i < n
            invariant
                n == headers.len(),
                i <= n,
                keys_distinct(table@),
                header_map(table@) == pairs_map(headers@.take(i as int)),
            decreases n - i,
        {
            let name = headers[i].0.clone();
            let value = headers[i].1.clone();
            table_insert(&mut table, name, value);
            assert(headers@.take(i + 1).drop_last() =~= headers@.take(i as int));
            i += 1;
        }
        assert(headers@.take(n as int) =~= headers@);
        HttpClient { transport: self.transport, config: self.config, beta_headers: table }
    }
}

/// The number that a string of decimal digits stands for.
pub open spec fn digits_value(s: Seq<char>) -> nat
    decreases s.len(),
{
    if s.len() == 0 {
        0
    } else {
        digits_value(s.drop_last()) * 10 + ((s.last() as nat) - 48) as nat
    }
}

/// Reading back the decimal representation of a number gives the number,
/// and the representation consists of digits only.
pub proof fn law_decimal_round_trip(n: nat)
    ensures
        digits_value(decimal_digits(n)) == n,
        decimal_digits(n).len() >= 1,
        forall|i: int|
            0 <= i < decimal_digits(n).len() ==> '0' <= #[trigger] decimal_digits(n)[i] <= '9',
    decreases n,
{
    assert(digit_char(n % 10) as nat == n % 10 + 48);
    if n < 10 {
        assert(decimal_digits(n).drop_last() =~= Seq::<char>::empty());
        let d = decimal_digits(n);
        assert(d.last() == digit_char(n));
        assert(digit_char(n) as nat == n + 48);
        assert(digits_value(d.drop_last()) == 0);
        assert(digits_value(d) == digits_value(d.drop_last()) * 10 + ((d.last() as nat) - 48) as nat);
    } else {
        law_decimal_round_trip(n / 10);
        let d = decimal_digits(n);
        assert(d.drop_last() =~= decimal_digits(n / 10));
        assert(d.last() == digit_char(n % 10));
        assert(digits_value(d) == digits_value(d.drop_last()) * 10 + ((d.last() as nat) - 48) as nat);
        assert(digits_value(d) == (n / 10) * 10 + n % 10);
        assert forall|i: int| 0 <= i < d.len() implies '0' <= #[trigger] d[i] <= '9' by {
            if i < d.len() - 1 {
                assert(d[i] == decimal_digits(n / 10)[i]);
            }
        }
    }
}

/// A trimmed base URL no longer ends in `/`, trimming it again changes
/// nothing, and what was removed is a run of `/` at the end.
pub proof fn law_trim_idempotent(s: Seq<char>)
    ensures
        trim_trailing_slashes(trim_trailing_slashes(s)) == trim_trailing_slashes(s),
        trim_trailing_slashes(s).len() == 0 || trim_trailing_slashes(s).last() != '/',
        trim_trailing_slashes(s).len() <= s.len(),
        trim_trailing_slashes(s) == s.subrange(0, trim_trailing_slashes(s).len() as int),
        forall|i: int|
            trim_trailing_slashes(s).len() <= i < s.len() ==> #[trigger] s[i] == '/',
    decreases s.len(),
{
    if s.len() > 0 && s.last() == '/' {
        law_trim_idempotent(s.drop_last());
        let t = trim_trailing_slashes(s.drop_last());
        assert(s.drop_last().subrange(0, t.len() as int) =~= s.subrange(0, t.len() as int));
        assert forall|i: int| t.len() <= i < s.len() implies #[trigger] s[i] == '/' by {
            if i < s.len() - 1 {
                assert(s[i] == s.drop_last()[i]);
            }
        }
    } else {
        assert(s.subrange(0, s.len() as int) =~= s);
    }
}

/// A base URL with a trailing `/` gives the same URLs as without it.
pub proof fn law_trailing_slash_ignored(base: Seq<char>, path: Seq<char>)
    ensures
        trim_trailing_slashes(base.push('/')) + path == trim_trailing_slashes(base) + path,
{
    assert(base.push('/').drop_last() =~= base);
}

/// A response counts as a success exactly when its status lies in 200-299:
/// informational, redirect, client-error and server-error statuses all fail.
pub proof fn law_success_range(status: u16)
    ensures
        spec_is_success(status) <==> (200 <= status && status <= 299),
        status >= 300 ==> !spec_is_success(status),
        status < 200 ==> !spec_is_success(status),
{
}

/// Replacing the beta headers by a list of pairs gives a table whose names
/// are exactly the names in the list, each with the value of its last
/// occurrence in the list.
pub proof fn law_pairs_map_last_wins(s: Seq<(String, String)>)
    ensures
        forall|k: Seq<char>|
            #[trigger] pairs_map(s).contains_key(k) <==> exists|i: int|
                0 <= i < s.len() && (#[trigger] s[i].0)@ == k,
        forall|i: int|
            0 <= i < s.len() && (forall|j: int| i < j < s.len() ==> (#[trigger] s[j].0)@ != s[i].0@)
                ==> pairs_map(s)[(#[trigger] s[i].0)@] == s[i].1@,
    decreases s.len(),
{
    if s.len() > 0 {
        let t = s.drop_last();
        law_pairs_map_last_wins(t);
        let last = s.last();
        assert forall|k: Seq<char>|
            #[trigger] pairs_map(s).contains_key(k) <==> exists|i: int|
                0 <= i < s.len() && (#[trigger] s[i].0)@ == k by {
            if pairs_map(s).contains_key(k) {
                if k == last.0@ {
                    assert(s[s.len() - 1].0@ == k);
                } else {
                    assert(pairs_map(t).contains_key(k));
                    let i = choose|i: int| 0 <= i < t.len() && (#[trigger] t[i].0)@ == k;
                    assert(s[i] == t[i]);
                }
            }
            if exists|i: int| 0 <= i < s.len() && (#[trigger] s[i].0)@ == k {
                let i = choose|i: int| 0 <= i < s.len() && (#[trigger] s[i].0)@ == k;
                if i < s.len() - 1 {
                    assert(t[i] == s[i]);
                    assert(pairs_map(t).contains_key(k));
                }
            }
        }
        assert forall|i: int|
            0 <= i < s.len() && (forall|j: int| i < j < s.len() ==> (#[trigger] s[j].0)@ != s[i].0@)
                implies pairs_map(s)[(#[trigger] s[i].0)@] == s[i].1@ by {
            if i < s.len() - 1 {
                assert(s[s.len() - 1].0@ != s[i].0@);
                assert(t[i] == s[i]);
                assert forall|j: int| i < j < t.len() implies (#[trigger] t[j].0)@ != t[i].0@ by {
                    assert(t[j] == s[j]);
                }
            }
        }
    }
}

/// Setting a beta header twice leaves the value of the second call, and the
/// other headers as they were before the first.
pub proof fn law_beta_header_last_wins(
    c0: HttpClient,
    c1: HttpClient,
    c2: HttpClient,
    name: Seq<char>,
    v1: Seq<char>,
    v2: Seq<char>,
)
    requires
        c1.beta_map() == c0.beta_map().insert(name, v1),
        c2.beta_map() == c1.beta_map().insert(name, v2),
    ensures
        c2.beta_map() == c0.beta_map().insert(name, v2),
{
    assert(c2.beta_map() =~= c0.beta_map().insert(name, v2));
}

} // verus!
