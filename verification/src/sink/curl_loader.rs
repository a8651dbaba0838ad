//! Stream Load over HTTP: the request that is made, the one redirect that is
//! replayed with the front end's host name, and the reading of the answer.
//! The transfer itself is the caller's; this module decides what is sent and
//! what an answer means.

use crate::text::{
    ascii_lower, ascii_lower_of, chars_of, copy_str, copy_texts, decimal, decimal_text, join,
    join_texts, lemma_split_at_separator, opt_text, opt_texts, replace, replace_text, split,
    split_text, text_eq, trim_end, trim_end_char, trim_ws, trimmed_from,
};
use vstd::pervasive::unreached;
use vstd::prelude::*;

verus! {

/// The outcome of a Stream Load that StarRocks accepted.
#[derive(Debug, Clone, PartialEq, Eq)]
pub struct LoadResult {
    pub status: String,
    pub loaded_rows: u64,
    pub message: String,
}

/// A `LoadResult` as plain values.
pub struct LoadResultView {
    pub status: Seq<char>,
    pub loaded_rows: u64,
    pub message: Seq<char>,
}

impl View for LoadResult {
    type V = LoadResultView;

    open spec fn view(&self) -> LoadResultView {
        LoadResultView {
            status: self.status@,
            loaded_rows: self.loaded_rows,
            message: self.message@,
        }
    }
}

/// Why a Stream Load did not succeed.
#[derive(Debug, Clone, PartialEq, Eq)]
pub enum LoadError {
    /// The URL has no host part.
    InvalidUrl,
    /// The HTTP status was 400 or above.
    Http { code: u32, status: String, message: String },
    /// StarRocks answered with a status other than `Success` or
    /// `Publish Timeout`.
    Rejected { status: String, message: String },
    /// The transfer itself failed: no answer was received.
    Transport { message: String },
}

/// A `LoadError` as plain values.
pub enum LoadErrorView {
    InvalidUrl,
    Http { code: u32, status: Seq<char>, message: Seq<char> },
    Rejected { status: Seq<char>, message: Seq<char> },
    Transport { message: Seq<char> },
}

impl View for LoadError {
    type V = LoadErrorView;

    open spec fn view(&self) -> LoadErrorView {
        match self {
            LoadError::InvalidUrl => LoadErrorView::InvalidUrl,
            LoadError::Http { code, status, message } => LoadErrorView::Http {
                code: *code,
                status: status@,
                message: message@,
            },
            LoadError::Rejected { status, message } => LoadErrorView::Rejected {
                status: status@,
                message: message@,
            },
            LoadError::Transport { message } => LoadErrorView::Transport { message: message@ },
        }
    }
}

/// The text of a load error.
pub open spec fn load_error_text(e: LoadErrorView) -> Seq<char> {
    match e {
        LoadErrorView::InvalidUrl => "Invalid URL format"@,
        LoadErrorView::Http { code, status, message } => "HTTP "@ + decimal(code as nat) + ": "@
            + status + " - "@ + message,
        LoadErrorView::Rejected { status, message } => "Stream Load failed: "@ + status + " - "@
            + message,
        LoadErrorView::Transport { message } => message,
    }
}

impl LoadError {
    /// The error as one line of text.
    pub fn message(&self) -> (r: String)
        ensures
            r@ == load_error_text(self@),
    {
        match self {
            LoadError::InvalidUrl => copy_str("Invalid URL format"),
            LoadError::Http { code, status, message } => {
                let mut out = String::from_str("HTTP ");
                out.append(decimal_text(*code as u64).as_str());
                out.append(": ");
                out.append(status.as_str());
                out.append(" - ");
                out.append(message.as_str());
                out
            },
            LoadError::Rejected { status, message } => {
                let mut out = String::from_str("Stream Load failed: ");
                out.append(status.as_str());
                out.append(" - ");
                out.append(message.as_str());
                out
            },
            LoadError::Transport { message } => message.clone(),
        }
    }
}

/// A `PUT` that carries one batch. The body travels beside it: the request
/// that replays a redirect carries the same body.
#[derive(Debug, Clone, PartialEq, Eq)]
pub struct HttpRequest {
    /// The HTTP method, which is `PUT` for every load.
    pub method: String,
    pub url: String,
    pub user: String,
    pub pass: String,
    /// Header lines, each `name: value`.
    pub headers: Vec<String>,
    /// Host name of the URL that the load was first sent to.
    pub origin_host: String,
    /// Wall-clock limit of the transfer.
    pub timeout_secs: u64,
}

/// An `HttpRequest` as plain values.
pub struct HttpRequestView {
    pub method: Seq<char>,
    pub url: Seq<char>,
    pub user: Seq<char>,
    pub pass: Seq<char>,
    pub headers: Seq<Seq<char>>,
    pub origin_host: Seq<char>,
    pub timeout_secs: u64,
}

impl View for HttpRequest {
    type V = HttpRequestView;

    open spec fn view(&self) -> HttpRequestView {
        HttpRequestView {
            method: self.method@,
            url: self.url@,
            user: self.user@,
            pass: self.pass@,
            headers: self.headers.deep_view(),
            origin_host: self.origin_host@,
            timeout_secs: self.timeout_secs,
        }
    }
}

/// What came back from one transfer: the status code, the header lines as
/// received, and the body as text.
#[derive(Debug, Clone, PartialEq, Eq)]
pub struct HttpResponse {
    pub code: u32,
    pub headers: Vec<String>,
    pub body: String,
}

/// An `HttpResponse` as plain values.
pub struct HttpResponseView {
    pub code: u32,
    pub headers: Seq<Seq<char>>,
    pub body: Seq<char>,
}

impl View for HttpResponse {
    type V = HttpResponseView;

    open spec fn view(&self) -> HttpResponseView {
        HttpResponseView { code: self.code, headers: self.headers.deep_view(), body: self.body@ }
    }
}

/// What to do after the answer to the first request.
#[derive(Debug, PartialEq, Eq)]
pub enum LoadStep {
    /// Replay the request, with the same body, at the rewritten address.
    Redirect(HttpRequest),
    /// The load is over.
    Done(Result<LoadResult, LoadError>),
}

/// A `LoadStep` as plain values.
pub enum LoadStepView {
    Redirect(HttpRequestView),
    Done(Result<LoadResultView, LoadErrorView>),
}

/// The plain values of an outcome.
pub open spec fn outcome_view(r: Result<LoadResult, LoadError>) -> Result<
    LoadResultView,
    LoadErrorView,
> {
    match r {
        Ok(v) => Ok(v@),
        Err(e) => Err(e@),
    }
}

impl View for LoadStep {
    type V = LoadStepView;

    open spec fn view(&self) -> LoadStepView {
        match self {
            LoadStep::Redirect(r) => LoadStepView::Redirect(r@),
            LoadStep::Done(r) => LoadStepView::Done(outcome_view(*r)),
        }
    }
}

/// Seconds after which a transfer is given up.
pub const LOAD_TIMEOUT_SECS: u64 = 30;

/// HTTP status of the redirect from the front end to a back end.
pub const TEMPORARY_REDIRECT: u32 = 307;

/// The address of a table's Stream Load endpoint.
pub open spec fn stream_load_url(base: Seq<char>, database: Seq<char>, table: Seq<char>) -> Seq<
    char,
> {
    base + "/api/"@ + database + "/"@ + table + "/_stream_load"@
}

/// The header lines of a load: five that every load carries and, for a
/// partial update, three more, the last of which lists the columns.
pub open spec fn load_headers(partial_columns: Option<Seq<Seq<char>>>) -> Seq<Seq<char>> {
    let common = seq![
        "Expect: 100-continue"@,
        "format: json"@,
        "strip_outer_array: true"@,
        "ignore_json_size: true"@,
        "max_filter_ratio: 0.2"@,
    ];
    match partial_columns {
        Some(columns) => common + seq![
            "partial_update: true"@,
            "partial_update_mode: row"@,
            "columns: "@ + join(columns, ","@),
        ],
        None => common,
    }
}

/// The host name of a URL: what stands between the second and the third `/`,
/// up to its first `:`. A URL with fewer than two `/` has none.
pub open spec fn hostname_of(url: Seq<char>) -> Option<Seq<char>> {
    let parts = split(url, '/');
    if parts.len() < 3 {
        None
    } else {
        Some(split(parts[2], ':')[0])
    }
}

/// The address that a `Location` header line gives: the line begins with
/// `location:` in any mix of ASCII upper and lower case, and the address is
/// the rest without the white space around it.
pub open spec fn header_location(line: Seq<char>) -> Option<Seq<char>> {
    if line.len() >= 9 && line.take(9).map_values(|c: char| ascii_lower(c)) == "location:"@ {
        Some(trim_ws(line.skip(9)))
    } else {
        None
    }
}

/// The address of the last `Location` line among the headers.
pub open spec fn last_location(lines: Seq<Seq<char>>) -> Option<Seq<char>>
    decreases lines.len(),
{
    if lines.len() == 0 {
        None
    } else {
        match header_location(lines.last()) {
            Some(address) => Some(address),
            None => last_location(lines.drop_last()),
        }
    }
}

/// The address that a redirect is replayed at: the one received, with the
/// loopback address `127.0.0.1` replaced by the host that was first asked.
pub open spec fn rewritten_location(location: Seq<char>, origin_host: Seq<char>) -> Seq<char> {
    replace(location, "127.0.0.1"@, origin_host)
}

/// The members that are read from the answer's JSON document.
#[derive(Debug, Clone, PartialEq, Eq)]
pub struct ResponseFields {
    pub status: Option<String>,
    pub loaded_rows: Option<u64>,
    pub message: Option<String>,
}

/// `ResponseFields` as plain values.
pub struct ResponseFieldsView {
    pub status: Option<Seq<char>>,
    pub loaded_rows: Option<u64>,
    pub message: Option<Seq<char>>,
}

impl View for ResponseFields {
    type V = ResponseFieldsView;

    open spec fn view(&self) -> ResponseFieldsView {
        ResponseFieldsView {
            status: opt_text(self.status),
            loaded_rows: self.loaded_rows,
            message: opt_text(self.message),
        }
    }
}

/// The plain values of optional response fields.
pub open spec fn opt_fields(f: Option<ResponseFields>) -> Option<ResponseFieldsView> {
    match f {
        Some(v) => Some(v@),
        None => None,
    }
}

/// What an answer means, from its HTTP status, its body and the members
/// read from the body (`None` where the body is not JSON).
///
/// A body that is not JSON counts as status `Unknown` with the body as its
/// message. A member that is missing or of another type counts as
/// `Unknown`, 0 and the empty text. The load succeeded if and only if the
/// HTTP status is below 400 and the status is `Success` or `Publish Timeout`.
pub open spec fn evaluate_response(
    code: u32,
    body: Seq<char>,
    fields: Option<ResponseFieldsView>,
) -> Result<LoadResultView, LoadErrorView> {
    let status = match fields {
        Some(f) => match f.status {
            Some(s) => s,
            None => "Unknown"@,
        },
        None => "Unknown"@,
    };
    let loaded_rows = match fields {
        Some(f) => match f.loaded_rows {
            Some(n) => n,
            None => 0,
        },
        None => 0,
    };
    let message = match fields {
        Some(f) => match f.message {
            Some(m) => m,
            None => Seq::empty(),
        },
        None => body,
    };
    if code >= 400 {
        Err(LoadErrorView::Http { code, status, message })
    } else if status != "Success"@ && status != "Publish Timeout"@ {
        Err(LoadErrorView::Rejected { status, message })
    } else {
        Ok(LoadResultView { status, loaded_rows, message })
    }
}

/// What `serde_json` reads from a text: `None` where the text is not a JSON
/// document; else, for each of the three keys, the member of that name where
/// the document is an object that has it with the wanted type (a string, an
/// unsigned integer that fits 64 bits, a string).
pub uninterp spec fn json_members(
    text: Seq<char>,
    status_key: Seq<char>,
    rows_key: Seq<char>,
    message_key: Seq<char>,
) -> Option<ResponseFieldsView>;

/// Parses `text` with `serde_json::from_str` into a `serde_json::Value` and
/// reads three members with `Value::get`, `Value::as_str` and
/// `Value::as_u64`.
///
/// The contract only names the result: the same text and keys give the same
/// fields.
#[verifier::external_body]
fn read_json_members(text: &str, status_key: &str, rows_key: &str, message_key: &str) -> (r:
    Option<ResponseFields>)
    ensures
        opt_fields(r) == json_members(text@, status_key@, rows_key@, message_key@),
{
    let doc: serde_json::Value = serde_json::from_str(text).ok()?;
    Some(
        ResponseFields {
            status: doc.get(status_key).and_then(serde_json::Value::as_str).map(String::from),
            loaded_rows: doc.get(rows_key).and_then(serde_json::Value::as_u64),
            message: doc.get(message_key).and_then(serde_json::Value::as_str).map(String::from),
        },
    )
}

/// The answer's members as StarRocks names them.
pub open spec fn starrocks_members(body: Seq<char>) -> Option<ResponseFieldsView> {
    json_members(body, "Status"@, "NumberLoadedRows"@, "Message"@)
}

impl LoadResult {
    /// Judges an answer from its HTTP status, its body and the members read
    /// from the body.
    pub fn from_response(code: u32, body: &str, fields: Option<ResponseFields>) -> (r: Result<
        LoadResult,
        LoadError,
    >)
        ensures
            outcome_view(r) == evaluate_response(code, body@, opt_fields(fields)),
    {
        let (status, loaded_rows, message) = match fields {
            Some(f) => {
                let status = match f.status {
                    Some(s) => s,
                    None => copy_str("Unknown"),
                };
                let loaded_rows = match f.loaded_rows {
                    Some(n) => n,
                    None => 0,
                };
                let message = match f.message {
                    Some(m) => m,
                    None => String::new(),
                };
                (status, loaded_rows, message)
            },
            None => (copy_str("Unknown"), 0, copy_str(body)),
        };
        if code >= 400 {
            Err(LoadError::Http { code, status, message })
        } else if !text_eq(status.as_str(), "Success") && !text_eq(
            status.as_str(),
            "Publish Timeout",
        ) {
            Err(LoadError::Rejected { status, message })
        } else {
            Ok(LoadResult { status, loaded_rows, message })
        }
    }
}

/// Client of the Stream Load endpoint of one database.
#[derive(Debug, Clone, PartialEq, Eq)]
pub struct CurlStreamLoader {
    base_url: String,
    database: String,
    user: String,
    pass: String,
}

/// A `CurlStreamLoader` as plain values.
pub struct CurlStreamLoaderView {
    pub base_url: Seq<char>,
    pub database: Seq<char>,
    pub user: Seq<char>,
    pub pass: Seq<char>,
}

impl View for CurlStreamLoader {
    type V = CurlStreamLoaderView;

    closed spec fn view(&self) -> CurlStreamLoaderView {
        CurlStreamLoaderView {
            base_url: self.base_url@,
            database: self.database@,
            user: self.user@,
            pass: self.pass@,
        }
    }
}

/// The first request of a load, as plain values.
pub open spec fn first_request(
    loader: CurlStreamLoaderView,
    table: Seq<char>,
    partial_columns: Option<Seq<Seq<char>>>,
) -> HttpRequestView {
    let url = stream_load_url(loader.base_url, loader.database, table);
    HttpRequestView {
        method: "PUT"@,
        url,
        user: loader.user,
        pass: loader.pass,
        headers: load_headers(partial_columns),
        origin_host: hostname_of(url).unwrap(),
        timeout_secs: LOAD_TIMEOUT_SECS,
    }
}

/// The address of a Stream Load endpoint always has a host part, whatever
/// the base URL, the database and the table are: the path that is put after
/// the base URL brings the two `/` that a host part stands between.
pub proof fn lemma_load_url_has_host(base: Seq<char>, database: Seq<char>, table: Seq<char>)
    ensures
        hostname_of(stream_load_url(base, database, table)) is Some,
{
    reveal_strlit("/api/");
    let url = stream_load_url(base, database, table);
    let first = base.len() as int;
    lemma_split_at_separator(url, '/', first);
    let tail = url.skip(first + 1);
    lemma_split_at_separator(tail, '/', 3);
}

/// What follows the answer to the first request, as plain values.
pub open spec fn after_first_response(
    request: HttpRequestView,
    response: HttpResponseView,
) -> LoadStepView {
    match last_location(response.headers) {
        Some(location) if response.code == TEMPORARY_REDIRECT => LoadStepView::Redirect(
            HttpRequestView {
                method: request.method,
                url: rewritten_location(location, request.origin_host),
                user: request.user,
                pass: request.pass,
                headers: request.headers,
                origin_host: request.origin_host,
                timeout_secs: request.timeout_secs,
            },
        ),
        _ => LoadStepView::Done(
            evaluate_response(response.code, response.body, starrocks_members(response.body)),
        ),
    }
}

impl CurlStreamLoader {
    /// A client for `database` at `base_url`; slashes at the end of the URL
    /// are dropped.
    pub fn new(base_url: String, database: String, user: String, pass: String) -> (r: Self)
        ensures
            r@ == (CurlStreamLoaderView {
                base_url: trim_end(base_url@, '/'),
                database: database@,
                user: user@,
                pass: pass@,
            }),
    {
        CurlStreamLoader { base_url: trim_end_char(base_url.as_str(), '/'), database, user, pass }
    }

    /// The host name of a URL.
    pub fn extract_hostname(url: &str) -> (r: Result<String, LoadError>)
        ensures
            match hostname_of(url@) {
                Some(host) => r matches Ok(h) && h@ == host,
                None => r matches Err(e) && e@ == LoadErrorView::InvalidUrl,
            },
    {
        let parts = split_text(url, '/');
        if parts.len() < 3 {
            return Err(LoadError::InvalidUrl);
        }
        let mut pieces = split_text(parts[2].as_str(), ':');
        Ok(pieces.swap_remove(0))
    }

    /// The header lines of a load.
    pub fn headers(partial_columns: &Option<Vec<String>>) -> (r: Vec<String>)
        ensures
            r.deep_view() == load_headers(opt_texts(*partial_columns)),
    {
        let mut out: Vec<String> = Vec::new();
        out.push(copy_str("Expect: 100-continue"));
        out.push(copy_str("format: json"));
        out.push(copy_str("strip_outer_array: true"));
        out.push(copy_str("ignore_json_size: true"));
        out.push(copy_str("max_filter_ratio: 0.2"));
        match partial_columns {
            Some(columns) => {
                out.push(copy_str("partial_update: true"));
                out.push(copy_str("partial_update_mode: row"));
                let mut line = String::from_str("columns: ");
                line.append(join_texts(columns, ",").as_str());
                out.push(line);
            },
            None => {},
        }
        out
    }

    /// The first request of a load of `table_name`: a `PUT` to the table's
    /// endpoint, with the load's headers.
    pub fn send(&self, table_name: &str, partial_columns: &Option<Vec<String>>) -> (r: HttpRequest)
        ensures
            r@ == first_request(self@, table_name@, opt_texts(*partial_columns)),
    {
        let mut url = self.base_url.clone();
        url.append("/api/");
        url.append(self.database.as_str());
        url.append("/");
        url.append(table_name);
        url.append("/_stream_load");
        proof {
            lemma_load_url_has_host(self.base_url@, self.database@, table_name@);
        }
        let origin_host = match Self::extract_hostname(url.as_str()) {
            Ok(host) => host,
            Err(_) => unreached(),
        };
        HttpRequest {
            method: copy_str("PUT"),
            url,
            user: self.user.clone(),
            pass: self.pass.clone(),
            headers: Self::headers(partial_columns),
            origin_host,
            timeout_secs: LOAD_TIMEOUT_SECS,
        }
    }

    /// The address that a header line gives, if it is a `Location` line.
    pub fn location_of(line: &str) -> (r: Option<String>)
        ensures
            opt_text(r) == header_location(line@),
    {
        let v = chars_of(line);
        let name = chars_of("location:");
        proof {
            reveal_strlit("location:");
        }
        if v.len() < 9 {
            return None;
        }
        let mut i: usize = 0;
        while i < 9
            invariant
                i <= 9,
                v.len() >= 9,
                v@ == line@,
                name@ == "location:"@,
                name@.len() == 9,
                forall|j: int| 0 <= j < i ==> ascii_lower(v@[j]) == name@[j],
            decreases 9 - i,
        {
            if ascii_lower_of(v[i]) != name[i] {
                return None;
            }
            i += 1;
        }
        assert(v@.take(9).map_values(|c: char| ascii_lower(c)) =~= name@);
        Some(trimmed_from(&v, 9))
    }

    /// The address of the last `Location` line among the headers.
    pub fn find_location(lines: &Vec<String>) -> (r: Option<String>)
        ensures
            opt_text(r) == last_location(lines.deep_view()),
    {
        let mut i: usize = lines.len();
        let ghost all = lines.deep_view();
        assert(all.take(i as int) == all);
        while i > 0
            invariant
                i <= lines.len(),
                all == lines.deep_view(),
                last_location(all) == last_location(all.take(i as int)),
            decreases i,
        {
            assert(all.take(i as int).drop_last() == all.take(i - 1));
            match Self::location_of(lines[i - 1].as_str()) {
                Some(address) => {
                    return Some(address);
                },
                None => {},
            }
            i -= 1;
        }
        None
    }

    /// Reads the answer to the first request. A 307 with a `Location` header
    /// is replayed once, at the address received with `127.0.0.1` replaced by
    /// the host that was first asked, and with the same credentials and
    /// headers. Any other answer ends the load and is judged.
    pub fn send_sync(request: &HttpRequest, response: &HttpResponse) -> (r: LoadStep)
        ensures
            r@ == after_first_response(request@, response@),
    {
        if response.code == TEMPORARY_REDIRECT {
            match Self::find_location(&response.headers) {
                Some(location) => {
                    return LoadStep::Redirect(
                        HttpRequest {
                            method: request.method.clone(),
                            url: replace_text(
                                location.as_str(),
                                "127.0.0.1",
                                request.origin_host.as_str(),
                            ),
                            user: request.user.clone(),
                            pass: request.pass.clone(),
                            headers: copy_texts(&request.headers),
                            origin_host: request.origin_host.clone(),
                            timeout_secs: request.timeout_secs,
                        },
                    );
                },
                None => {},
            }
        }
        LoadStep::Done(Self::send_to_be(response))
    }

    /// Reads the answer of the back end, after which nothing is replayed.
    pub fn send_to_be(response: &HttpResponse) -> (r: Result<LoadResult, LoadError>)
        ensures
            outcome_view(r) == evaluate_response(
                response.code,
                response.body@,
                starrocks_members(response.body@),
            ),
    {
        let fields = read_json_members(
            response.body.as_str(),
            "Status",
            "NumberLoadedRows",
            "Message",
        );
        LoadResult::from_response(response.code, response.body.as_str(), fields)
    }
}

} // verus!
