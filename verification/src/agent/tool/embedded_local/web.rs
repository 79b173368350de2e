//! Web tools: a search through the Tavily API and a fetch of one URL. The
//! requests go out from outside the library; it reads the calls, checks the
//! URL, and writes up what came back.
use vstd::prelude::*;
use vstd::string::*;

use crate::agent::tool::result::{
    ExecutionError, ExecutionErrorView, invalid_json, invalid_json_error, missing_field,
    missing_field_error,
};
use crate::json::{JsonValue, ParsedArgs, json_get, json_str, json_u64, str_field, u64_field};
use crate::lines::{decimal, decimal_string, join, join_strings, views};
use crate::resolver::tool::{
    ParamDef, PropDef, ToolDefination, lemma_set_distinct_properties, names_view,
    number_prop, plain_number_prop, plain_string_prop, string_prop,
};
use crate::text::{chars_of, slice_chars};
use vstd::utf8::{encode_scalar, encode_utf8};

verus! {

#[verifier::external_type_specification]
#[verifier::external_body]
pub struct ExClient(reqwest::Client);

/// `reqwest::Client::new`: a client with the default configuration. It
/// panics when no TLS backend can be initialised; nothing is stated of the
/// client.
#[verifier::external_body]
fn default_client() -> reqwest::Client {
    reqwest::Client::new()
}

/// `text` can stand as an HTTP header value: each byte of its UTF-8 form is a
/// tab or at least a space and not DEL, so every character is a tab, a
/// visible ASCII character or a space, or one outside ASCII.
pub open spec fn is_header_value(text: Seq<char>) -> bool {
    forall|i: int|
        0 <= i < text.len() ==> (#[trigger] text[i] == '\t' || (' ' <= text[i] && text[i] != '\u{7f}'))
}

/// `reqwest::ClientBuilder::build` on a builder that follows at most
/// `max_redirects` redirects, gives up after `timeout_secs` seconds and
/// sends `user_agent`. The builder records an error for a user agent that is
/// no header value, and `build` then fails; `requires` leaves those out, so
/// the call panics only where `Client::new` would (no TLS backend or resolver
/// configuration). Nothing is stated of the client.
#[verifier::external_body]
fn limited_client(max_redirects: usize, timeout_secs: u64, user_agent: &str) -> reqwest::Client
    requires
        is_header_value(user_agent@),
{
    reqwest::Client::builder().redirect(reqwest::redirect::Policy::limited(max_redirects)).timeout(
        std::time::Duration::from_secs(timeout_secs),
    ).user_agent(user_agent).build().expect("Failed to build reqwest Client")
}

// ---------------------------------------------------------------------------
// WebSearchTool
// ---------------------------------------------------------------------------

/// How many characters of a result's content a snippet keeps.
pub const MAX_CONTENT_CHARS: usize = 300;

/// The endpoint searches are posted to.
pub const TAVILY_URL: &'static str = "https://api.tavily.com/search";

/// One search result as the API returns it.
#[derive(Debug)]
pub struct TavilyResult {
    pub title: String,
    pub url: String,
    pub content: String,
}

/// A snippet of `content`: the whole of it when it has at most
/// [`MAX_CONTENT_CHARS`] characters, else that many followed by an ellipsis.
pub open spec fn snippet(content: Seq<char>) -> Seq<char> {
    if content.len() > 300 {
        content.take(300) + "\u{2026}"@
    } else {
        content
    }
}

pub fn truncate_content(content: &str) -> (r: String)
    ensures
        r@ == snippet(content@),
{
    let n = content.unicode_len();
    if n > MAX_CONTENT_CHARS {
        let mut t = content.substring_char(0, MAX_CONTENT_CHARS).to_owned();
        t.append("\u{2026}");
        assert(content@.subrange(0, 300) =~= content@.take(300));
        t
    } else {
        content.to_owned()
    }
}

/// The entry for the result numbered `index` (from 1).
pub open spec fn result_entry(index: nat, title: Seq<char>, url: Seq<char>, content: Seq<char>) -> Seq<char> {
    decimal(index) + ". **"@ + title + "**"@ + "\n"@ + "   URL: "@ + url + "\n"@ + "   "@ + snippet(
        content,
    ) + "\n"@
}

pub open spec fn result_entries(results: Seq<TavilyResult>) -> Seq<Seq<char>> {
    Seq::new(
        results.len(),
        |i: int| result_entry((i + 1) as nat, results[i].title@, results[i].url@, results[i].content@),
    )
}

/// The answer to a search: the results numbered from 1, one entry each,
/// separated by blank lines; or a note that there are none.
pub open spec fn search_report(results: Seq<TavilyResult>) -> Seq<char> {
    if results.len() == 0 {
        "No search results found."@
    } else {
        join(result_entries(results), "\n"@)
    }
}

/// The answer to a search; see [`search_report`].
pub fn format_results(results: &Vec<TavilyResult>) -> (r: String)
    ensures
        r@ == search_report(results@),
{
    let n = results.len();
    if n == 0 {
        return "No search results found.".to_owned();
    }
    let mut entries: Vec<String> = Vec::new();
    let mut i: usize = 0;
    while i < n
        invariant
            n == results@.len(),
            i <= n,
            views(entries@) == result_entries(results@).take(i as int),
        decreases n - i,
    {
        let r = &results[i];
        let mut e = decimal_string((i + 1) as u64);
        e.append(". **");
        e.append(r.title.as_str());
        e.append("**");
        e.append("\n");
        e.append("   URL: ");
        e.append(r.url.as_str());
        e.append("\n");
        e.append("   ");
        let s = truncate_content(r.content.as_str());
        e.append(s.as_str());
        e.append("\n");
        let ghost before = entries@;
        entries.push(e);
        proof {
            assert(views(entries@) =~= views(before).push(result_entries(results@)[i as int]));
            assert(result_entries(results@).take(i + 1) =~= result_entries(results@).take(
                i as int,
            ).push(result_entries(results@)[i as int]));
        }
        i = i + 1;
    }
    assert(result_entries(results@).take(n as int) =~= result_entries(results@));
    join_strings(&entries, "\n")
}

/// What a search call asks for: the query (present and not empty) and how
/// many results, 5 when not given, brought into `1..=10`.
pub open spec fn search_args(args: ParsedArgs) -> Result<(Seq<char>, u64), ExecutionErrorView> {
    match args {
        Err(reason) => Err(invalid_json_error(reason@)),
        Ok(v) => match json_str(json_get(v, "query"@)) {
            Some(q) if q.len() > 0 => {
                let asked = match json_u64(json_get(v, "max_results"@)) {
                    Some(n) => n,
                    None => 5,
                };
                let n: u64 = if asked < 1 {
                    1
                } else if asked > 10 {
                    10
                } else {
                    asked
                };
                Ok((q, n))
            },
            _ => Err(missing_field_error("query"@)),
        },
    }
}

pub fn parse_search_args(args: &ParsedArgs) -> (r: Result<(String, u64), ExecutionError>)
    ensures
        match r {
            Ok((q, n)) => search_args(*args) == Ok::<(Seq<char>, u64), ExecutionErrorView>((q@, n)),
            Err(e) => search_args(*args) == Err::<(Seq<char>, u64), ExecutionErrorView>(e@),
        },
{
    let v = match args {
        Err(reason) => return Err(invalid_json(reason.as_str())),
        Ok(v) => v,
    };
    let query = match str_field(v, "query") {
        Some(q) => if q.unicode_len() > 0 {
            q
        } else {
            return Err(missing_field("query"));
        },
        None => return Err(missing_field("query")),
    };
    let asked = match u64_field(v, "max_results") {
        Some(n) => n,
        None => 5,
    };
    let n: u64 = if asked < 1 {
        1
    } else if asked > 10 {
        10
    } else {
        asked
    };
    Ok((query.to_owned(), n))
}

pub open spec fn search_description() -> Seq<char> {
    "Search the web using Tavily. Returns titles, URLs, and content snippets. Use this to access information beyond your knowledge cutoff or find current/recent data. Searches are performed in real-time."@
}

/// The definition of the search tool.
pub open spec fn is_search_definition(d: ToolDefination) -> bool {
    let p = d.parameters.props@;
    &&& d.name@ == "web_search"@
    &&& d.description@ == search_description()
    &&& d.strict == Some(true)
    &&& d.parameters.type_@ == "object"@
    &&& p.len() == 2
    &&& plain_string_prop(p[0], "query"@, "Search query. Be specific \u{2014} use keywords, exact phrases in quotes, and include the current year for recent information."@)
    &&& plain_number_prop(p[1], "max_results"@, "Maximum number of results to return (1\u{2013}10, default 5)."@)
    &&& names_view(d.parameters.required) == Some(seq!["query"@])
    &&& d.parameters.additional_props is None
}

pub fn search_definition() -> (r: ToolDefination)
    ensures
        is_search_definition(r),
{
    let props = vec![
        ("query", string_prop("Search query. Be specific \u{2014} use keywords, exact phrases in quotes, and include the current year for recent information.")),
        ("max_results", number_prop("Maximum number of results to return (1\u{2013}10, default 5).")),
    ];
    let ghost pv = props@.map_values(|e: (&str, PropDef)| (e.0@, e.1));
    proof {
        reveal_strlit("query");
        reveal_strlit("max_results");
        assert(pv[0].0 == "query"@);
        assert(pv[1].0 == "max_results"@);
        assert(pv[0].0.len() != pv[1].0.len());
        lemma_set_distinct_properties(pv);
    }
    let params = ParamDef::new("object").with_properties(props).with_required(
        vec!["query".to_owned()],
    );
    let r = ToolDefination::new(
        "web_search",
        "Search the web using Tavily. Returns titles, URLs, and content snippets. Use this to access information beyond your knowledge cutoff or find current/recent data. Searches are performed in real-time.",
        params,
    ).with_strict(true);
    assert(names_view(r.parameters.required) =~= Some(seq!["query"@]));
    r
}

/// The error for a search request that could not be sent.
pub fn search_request_failed(reason: &str) -> (r: ExecutionError)
    ensures
        r@ == ExecutionErrorView::ExecFail("Search request failed: "@ + reason@),
{
    let mut m = "Search request failed: ".to_owned();
    m.append(reason);
    ExecutionError::exec_fail(m)
}

/// The error for a search the API answered with an unsuccessful status.
pub fn search_status_failed(status: &str, body: &str) -> (r: ExecutionError)
    ensures
        r@ == ExecutionErrorView::ExecFail("Search API returned "@ + status@ + ": "@ + body@),
{
    let mut m = "Search API returned ".to_owned();
    m.append(status);
    m.append(": ");
    m.append(body);
    ExecutionError::exec_fail(m)
}

/// The error for a search response that could not be read.
pub fn search_parse_failed(reason: &str) -> (r: ExecutionError)
    ensures
        r@ == ExecutionErrorView::ExecFail("Failed to parse search response: "@ + reason@),
{
    let mut m = "Failed to parse search response: ".to_owned();
    m.append(reason);
    ExecutionError::exec_fail(m)
}

/// Searches the web through Tavily with its API key.
pub struct WebSearchTool {
    api_key: String,
    client: reqwest::Client,
}

impl WebSearchTool {
    /// A search tool using `api_key` and a default HTTP client.
    pub fn new(api_key: String) -> (r: Self)
        ensures
            r.api_key() == api_key@,
    {
        Self { api_key, client: default_client() }
    }

    pub closed spec fn api_key(&self) -> Seq<char> {
        self.api_key@
    }

    /// The API key searches are sent with.
    pub fn api_key_str(&self) -> (r: &str)
        ensures
            r@ == self.api_key(),
    {
        self.api_key.as_str()
    }

    /// The client the tool holds.
    pub closed spec fn http_client(&self) -> reqwest::Client {
        self.client
    }

    /// The HTTP client searches are sent with: the one the tool holds.
    pub fn client(&self) -> (r: &reqwest::Client)
        ensures
            *r == self.http_client(),
    {
        &self.client
    }

    pub fn defination(&self) -> (r: ToolDefination)
        ensures
            is_search_definition(r),
    {
        search_definition()
    }

    /// Reads a call; see [`search_args`].
    pub fn parse_args(args: &ParsedArgs) -> (r: Result<(String, u64), ExecutionError>)
        ensures
            match r {
                Ok((q, n)) => search_args(*args) == Ok::<(Seq<char>, u64), ExecutionErrorView>((q@, n)),
                Err(e) => search_args(*args) == Err::<(Seq<char>, u64), ExecutionErrorView>(e@),
            },
    {
        parse_search_args(args)
    }
}

// ---------------------------------------------------------------------------
// WebFetchTool
// ---------------------------------------------------------------------------

/// How much of a response is returned when the call does not say.
pub const DEFAULT_MAX_BYTES: usize = 65536;

/// The least a call may ask to be returned.
pub const MIN_MAX_BYTES: usize = 1000;

/// How many redirects a fetch follows.
pub const MAX_REDIRECTS: usize = 5;

/// How many seconds a fetch may take.
pub const FETCH_TIMEOUT_SECS: u64 = 30;

/// Whether `url::Url::parse` accepts `text` as an absolute URL.
pub uninterp spec fn url_parses(text: Seq<char>) -> bool;

/// `url::Url::parse`: whether `text` is an absolute URL; the answer is
/// named by [`url_parses`].
#[verifier::external_body]
fn url_is_valid(text: &str) -> (r: bool)
    ensures
        r == url_parses(text@),
{
    url::Url::parse(text).is_ok()
}

/// Whether `text` is an absolute URL, as the fetch tool and the remote tool
/// registry take one.
pub fn is_url(text: &str) -> (r: bool)
    ensures
        r == url_parses(text@),
{
    url_is_valid(text)
}

/// What a fetch call asks for: the URL (present, not empty, and accepted by
/// the URL parser) and how much to return, at least [`MIN_MAX_BYTES`] and
/// [`DEFAULT_MAX_BYTES`] when not given.
pub open spec fn fetch_args(args: ParsedArgs) -> Result<(Seq<char>, usize), ExecutionErrorView> {
    match args {
        Err(reason) => Err(invalid_json_error(reason@)),
        Ok(v) => match json_str(json_get(v, "url"@)) {
            Some(url) if url.len() > 0 => if !url_parses(url) {
                Err(ExecutionErrorView::ArgsSchema("Invalid URL format: "@ + url))
            } else {
                let max_bytes: usize = match json_u64(json_get(v, "max_bytes"@)) {
                    Some(n) => if (n as usize) < 1000 {
                        1000
                    } else {
                        n as usize
                    },
                    None => 65536,
                };
                Ok((url, max_bytes))
            },
            _ => Err(missing_field_error("url"@)),
        },
    }
}

pub fn parse_fetch_args(args: &ParsedArgs) -> (r: Result<(String, usize), ExecutionError>)
    ensures
        match r {
            Ok((u, n)) => fetch_args(*args) == Ok::<(Seq<char>, usize), ExecutionErrorView>((u@, n)),
            Err(e) => fetch_args(*args) == Err::<(Seq<char>, usize), ExecutionErrorView>(e@),
        },
{
    let v = match args {
        Err(reason) => return Err(invalid_json(reason.as_str())),
        Ok(v) => v,
    };
    let url = match str_field(v, "url") {
        Some(u) => if u.unicode_len() > 0 {
            u
        } else {
            return Err(missing_field("url"));
        },
        None => return Err(missing_field("url")),
    };
    if !url_is_valid(url) {
        let mut m = "Invalid URL format: ".to_owned();
        m.append(url);
        return Err(ExecutionError::args_schema(m));
    }
    let max_bytes: usize = match u64_field(v, "max_bytes") {
        Some(n) => {
            let asked = n as usize;
            if asked < MIN_MAX_BYTES {
                MIN_MAX_BYTES
            } else {
                asked
            }
        },
        None => DEFAULT_MAX_BYTES,
    };
    Ok((url.to_owned(), max_bytes))
}

/// How many leading characters of `s` fit, UTF-8 encoded, in `room` bytes:
/// characters are taken while the next one's encoding still fits.
pub open spec fn fitting_chars(s: Seq<char>, room: nat) -> nat
    decreases s.len(),
{
    if s.len() == 0 {
        0
    } else {
        let w = encode_scalar(s[0] as u32).len();
        if w <= room {
            1 + fitting_chars(s.drop_first(), (room - w) as nat)
        } else {
            0
        }
    }
}

/// The characters [`fitting_chars`] keeps are the longest prefix whose UTF-8
/// encoding has at most `room` bytes: it fits, and one more character would
/// not.
pub proof fn lemma_fitting_prefix_is_longest(s: Seq<char>, room: nat)
    ensures
        fitting_chars(s, room) <= s.len(),
        encode_utf8(s.take(fitting_chars(s, room) as int)).len() <= room,
        fitting_chars(s, room) < s.len() ==> encode_utf8(s.take((fitting_chars(s, room) + 1) as int)).len()
            > room,
    decreases s.len(),
{
    if s.len() > 0 {
        let w = encode_scalar(s[0] as u32).len();
        let k = fitting_chars(s, room);
        if w <= room {
            let rest = s.drop_first();
            let r2 = (room - w) as nat;
            lemma_fitting_prefix_is_longest(rest, r2);
            assert(s.take(k as int).drop_first() =~= rest.take((k - 1) as int));
            assert(s.take(k as int)[0] == s[0]);
            if k < s.len() {
                assert(s.take((k + 1) as int).drop_first() =~= rest.take(k as int));
                assert(s.take((k + 1) as int)[0] == s[0]);
            }
        } else {
            assert(s.take(0) =~= Seq::<char>::empty());
            assert(s.take(1).drop_first() =~= Seq::<char>::empty());
            assert(s.take(1)[0] == s[0]);
        }
    } else {
        assert(s.take(0) =~= Seq::<char>::empty());
    }
}

/// The number of bytes of a character's UTF-8 encoding.
fn utf8_width(c: char) -> (r: usize)
    ensures
        r as nat == encode_scalar(c as u32).len(),
{
    proof {
        vstd::utf8::char_is_scalar(c);
    }
    let v = c as u32;
    if v <= 0x7F {
        1
    } else if v <= 0x7FF {
        2
    } else if v <= 0xFFFF {
        3
    } else {
        4
    }
}

/// What a fetch answers of a response body of `total` bytes: the longest
/// prefix of the body whose UTF-8 encoding has at most `max_bytes` bytes
/// (see [`lemma_fitting_prefix_is_longest`]), and a note when the body had
/// more than `max_bytes` bytes.
pub open spec fn fetched_text(body: Seq<char>, total: nat, max_bytes: nat) -> Seq<char> {
    let kept = body.take(fitting_chars(body, max_bytes) as int);
    if total > max_bytes {
        kept + "\n\n[Response truncated to "@ + decimal(max_bytes) + " bytes; total was "@ + decimal(
            total,
        ) + " bytes]"@
    } else {
        kept
    }
}

/// The answer to a fetch; see [`fetched_text`], `body.len()` being the total.
pub fn fetch_report(body: &str, max_bytes: usize) -> (r: String)
    ensures
        r@ == fetched_text(body@, body.len() as nat, max_bytes as nat),
{
    let chars = chars_of(body);
    let n = chars.len();
    let mut i: usize = 0;
    let mut room: usize = max_bytes;
    assert(body@.skip(0) =~= body@);
    while i < n && utf8_width(chars[i]) <= room
        invariant
            chars@ == body@,
            n == body@.len(),
            i <= n,
            room <= max_bytes,
            fitting_chars(body@, max_bytes as nat) == i + fitting_chars(body@.skip(i as int), room as nat),
        decreases n - i,
    {
        let w = utf8_width(chars[i]);
        assert(body@.skip(i as int)[0] == body@[i as int]);
        assert(body@.skip(i as int).drop_first() =~= body@.skip(i + 1));
        room = room - w;
        i = i + 1;
    }
    proof {
        if i < n {
            assert(body@.skip(i as int)[0] == body@[i as int]);
        } else {
            assert(body@.skip(i as int) =~= Seq::<char>::empty());
        }
    }
    let mut out = slice_chars(body, 0, i);
    assert(body@.subrange(0, i as int) =~= body@.take(i as int));
    let total = body.len();
    if total > max_bytes {
        out.append("\n\n[Response truncated to ");
        let a = decimal_string(max_bytes as u64);
        out.append(a.as_str());
        out.append(" bytes; total was ");
        let b = decimal_string(total as u64);
        out.append(b.as_str());
        out.append(" bytes]");
    }
    out
}

/// Why a fetch request could not be completed, as the HTTP client reports it.
#[derive(Debug)]
pub enum FetchFailure {
    Timeout,
    TooManyRedirects,
    Connect,
    Other,
}

/// The error for a fetch that failed before a response came; `detail` is the
/// client's description of the failure.
pub open spec fn fetch_failure_error(url: Seq<char>, kind: FetchFailure, detail: Seq<char>) -> ExecutionErrorView {
    ExecutionErrorView::ExecFail(
        match kind {
            FetchFailure::Timeout => "Request timed out: "@ + url,
            FetchFailure::TooManyRedirects => "Too many redirects fetching "@ + url,
            FetchFailure::Connect => "Connection failed: "@ + url + " \u{2014} "@ + detail,
            FetchFailure::Other => "Request failed: "@ + url + " \u{2014} "@ + detail,
        },
    )
}

pub fn fetch_failed(url: &str, kind: FetchFailure, detail: &str) -> (r: ExecutionError)
    ensures
        r@ == fetch_failure_error(url@, kind, detail@),
{
    let mut m = match kind {
        FetchFailure::Timeout => "Request timed out: ".to_owned(),
        FetchFailure::TooManyRedirects => "Too many redirects fetching ".to_owned(),
        FetchFailure::Connect => "Connection failed: ".to_owned(),
        FetchFailure::Other => "Request failed: ".to_owned(),
    };
    m.append(url);
    match kind {
        FetchFailure::Connect | FetchFailure::Other => {
            m.append(" \u{2014} ");
            m.append(detail);
        },
        _ => {},
    }
    ExecutionError::exec_fail(m)
}

/// The error for a response with an unsuccessful status: the status, the URL
/// and the first 200 characters of the body.
pub open spec fn fetch_status_error(status: Seq<char>, url: Seq<char>, body: Seq<char>) -> ExecutionErrorView {
    let snippet = if body.len() > 200 {
        body.take(200)
    } else {
        body
    };
    ExecutionErrorView::ExecFail("HTTP "@ + status + " for "@ + url + ": "@ + snippet)
}

pub fn fetch_status_failed(status: &str, url: &str, body: &str) -> (r: ExecutionError)
    ensures
        r@ == fetch_status_error(status@, url@, body@),
{
    let mut m = "HTTP ".to_owned();
    m.append(status);
    m.append(" for ");
    m.append(url);
    m.append(": ");
    let n = body.unicode_len();
    if n > 200 {
        m.append(body.substring_char(0, 200));
        assert(body@.subrange(0, 200) =~= body@.take(200));
    } else {
        m.append(body);
    }
    ExecutionError::exec_fail(m)
}

/// The error for a response body that could not be read.
pub fn fetch_body_failed(url: &str, reason: &str) -> (r: ExecutionError)
    ensures
        r@ == ExecutionErrorView::ExecFail(
            "Failed to read response body from "@ + url@ + ": "@ + reason@,
        ),
{
    let mut m = "Failed to read response body from ".to_owned();
    m.append(url);
    m.append(": ");
    m.append(reason);
    ExecutionError::exec_fail(m)
}

pub open spec fn fetch_description() -> Seq<char> {
    "Fetch the content of a web page or URL. Returns the raw text response (HTML or plain text). Use this to access online resources, read web pages, call HTTP APIs, or retrieve any internet content in real time."@
}

/// The definition of the fetch tool.
pub open spec fn is_fetch_definition(d: ToolDefination) -> bool {
    let p = d.parameters.props@;
    &&& d.name@ == "web_fetch"@
    &&& d.description@ == fetch_description()
    &&& d.strict == Some(true)
    &&& d.parameters.type_@ == "object"@
    &&& p.len() == 2
    &&& plain_string_prop(p[0], "url"@, "The URL to fetch. Must be a valid HTTP or HTTPS URL. Use this to retrieve a web page, API response, or any URL-addressable content."@)
    &&& plain_number_prop(p[1], "max_bytes"@, "Maximum bytes of the response to return (default 10,000, minimum 1,000). Use a larger value (e.g., 50,000) when the page is expected to be long."@)
    &&& names_view(d.parameters.required) == Some(seq!["url"@])
    &&& d.parameters.additional_props is None
}

pub fn fetch_definition() -> (r: ToolDefination)
    ensures
        is_fetch_definition(r),
{
    let props = vec![
        ("url", string_prop("The URL to fetch. Must be a valid HTTP or HTTPS URL. Use this to retrieve a web page, API response, or any URL-addressable content.")),
        ("max_bytes", number_prop("Maximum bytes of the response to return (default 10,000, minimum 1,000). Use a larger value (e.g., 50,000) when the page is expected to be long.")),
    ];
    let ghost pv = props@.map_values(|e: (&str, PropDef)| (e.0@, e.1));
    proof {
        reveal_strlit("url");
        reveal_strlit("max_bytes");
        assert(pv[0].0 == "url"@);
        assert(pv[1].0 == "max_bytes"@);
        assert(pv[0].0.len() != pv[1].0.len());
        lemma_set_distinct_properties(pv);
    }
    let params = ParamDef::new("object").with_properties(props).with_required(
        vec!["url".to_owned()],
    );
    let r = ToolDefination::new(
        "web_fetch",
        "Fetch the content of a web page or URL. Returns the raw text response (HTML or plain text). Use this to access online resources, read web pages, call HTTP APIs, or retrieve any internet content in real time.",
        params,
    ).with_strict(true);
    assert(names_view(r.parameters.required) =~= Some(seq!["url"@]));
    r
}

/// Fetches one URL with a client that follows at most [`MAX_REDIRECTS`]
/// redirects and gives up after [`FETCH_TIMEOUT_SECS`] seconds.
pub struct WebFetchTool {
    client: reqwest::Client,
}

impl WebFetchTool {
    pub fn new() -> Self {
        let user_agent = "PopRaKo/1.0 (research bot; +https://github.com/example)";
        proof {
            reveal_strlit("PopRaKo/1.0 (research bot; +https://github.com/example)");
        }
        assert(is_header_value(user_agent@));
        Self { client: limited_client(MAX_REDIRECTS, FETCH_TIMEOUT_SECS, user_agent) }
    }

    /// The client the tool holds.
    pub closed spec fn http_client(&self) -> reqwest::Client {
        self.client
    }

    /// The HTTP client fetches are sent with: the one the tool holds.
    pub fn client(&self) -> (r: &reqwest::Client)
        ensures
            *r == self.http_client(),
    {
        &self.client
    }

    pub fn defination(&self) -> (r: ToolDefination)
        ensures
            is_fetch_definition(r),
    {
        fetch_definition()
    }

    /// Reads a call; see [`fetch_args`].
    pub fn parse_args(args: &ParsedArgs) -> (r: Result<(String, usize), ExecutionError>)
        ensures
            match r {
                Ok((u, n)) => fetch_args(*args) == Ok::<(Seq<char>, usize), ExecutionErrorView>((u@, n)),
                Err(e) => fetch_args(*args) == Err::<(Seq<char>, usize), ExecutionErrorView>(e@),
            },
    {
        parse_fetch_args(args)
    }
}

} // verus!
