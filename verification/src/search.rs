//! Web search: what is asked of the search backend, and what of its reply reaches
//! the model and the client.
use vstd::prelude::*;
use vstd::string::StringSliceAdditionalSpecFns;

use crate::error;
use crate::error::AppError;
use crate::error::AppResult;
use crate::redaction;
use crate::text;

verus! {

/// A web result that can be cited.
#[derive(Debug, Clone, PartialEq, Eq)]
pub struct SearchSource {
    /// Title.
    pub title: String,
    /// URL.
    pub url: String,
}

/// What a search brings: text for the model, sources for the client.
#[derive(Debug, Clone)]
pub struct SearchOutcome {
    /// Text for the model.
    pub formatted: String,
    /// Sources for the client.
    pub sources: Vec<SearchSource>,
}

impl Default for SearchOutcome {
    fn default() -> (r: Self)
        ensures
            r.formatted@ == Seq::<char>::empty(),
            r.sources@.len() == 0,
    {
        SearchOutcome { formatted: String::new(), sources: Vec::new() }
    }
}

/// One result of the backend.
#[derive(Debug)]
pub struct BraveWebResult {
    /// Title.
    pub title: String,
    /// URL.
    pub url: String,
    /// Snippet.
    pub description: String,
}

/// The web results of the backend.
#[derive(Debug)]
pub struct BraveWebResults {
    /// The results.
    pub results: Vec<BraveWebResult>,
}

/// The backend's reply.
#[derive(Debug)]
pub struct BraveSearchResponse {
    /// Web results.
    pub web: Option<BraveWebResults>,
}

/// The contents of a result: title, URL, description.
#[verifier::ext_equal]
pub struct ResultView {
    /// Title.
    pub title: Seq<char>,
    /// URL.
    pub url: Seq<char>,
    /// Snippet.
    pub description: Seq<char>,
}

impl View for BraveWebResult {
    type V = ResultView;

    open spec fn view(&self) -> ResultView {
        ResultView { title: self.title@, url: self.url@, description: self.description@ }
    }
}

/// The results of a reply.
pub open spec fn results_of(payload: BraveSearchResponse) -> Seq<ResultView> {
    match payload.web {
        Some(web) => web.results@.map_values(|r: BraveWebResult| r@),
        None => seq![],
    }
}

/// The contents of sources: titles and URLs.
pub open spec fn sources_view(sources: Seq<SearchSource>) -> Seq<(Seq<char>, Seq<char>)> {
    sources.map_values(|s: SearchSource| (s.title@, s.url@))
}

// --- What reaches the client ------------------------------------------------------------------

/// The first `n` results that have a URL, as sources.
pub open spec fn citable(results: Seq<ResultView>, n: int) -> Seq<(Seq<char>, Seq<char>)>
    decreases n,
{
    if n <= 0 {
        seq![]
    } else {
        let rest = citable(results, n - 1);
        if results[n - 1].url.len() == 0 {
            rest
        } else {
            rest.push((results[n - 1].title, results[n - 1].url))
        }
    }
}

/// The results that have a URL, as sources.
pub fn collect_sources(payload: &BraveSearchResponse) -> (r: Vec<SearchSource>)
    ensures
        sources_view(r@) == citable(results_of(*payload), results_of(*payload).len() as int),
{
    let mut out: Vec<SearchSource> = Vec::new();
    assert(sources_view(out@) =~= seq![]);
    if let Some(web) = &payload.web {
        let ghost all = results_of(*payload);
        let mut i: usize = 0;
        while i < web.results.len()
            invariant
                i <= web.results@.len(),
                all == web.results@.map_values(|r: BraveWebResult| r@),
                sources_view(out@) == citable(all, i as int),
            decreases web.results@.len() - i,
        {
            let result = &web.results[i];
            if !result.url.as_str().is_empty() {
                let ghost before = out@;
                out.push(SearchSource { title: result.title.clone(), url: result.url.clone() });
                assert(sources_view(out@) =~= sources_view(before).push(
                    (all[i as int].title, all[i as int].url),
                ));
            }
            i += 1;
        }
    }
    out
}

// --- What reaches the model -------------------------------------------------------------------

/// The lines for the `i`th result: number and title, URL and snippet where there is
/// one, and an empty line.
pub open spec fn result_lines(r: ResultView, i: int) -> Seq<Seq<char>> {
    seq![text::decimal((i + 1) as nat) + ". "@ + r.title] + (if r.url.len() > 0 {
        seq!["URL: "@ + r.url]
    } else {
        seq![]
    }) + (if r.description.len() > 0 {
        seq!["Snippet: "@ + r.description]
    } else {
        seq![]
    }) + seq![Seq::<char>::empty()]
}

/// The lines for the first `n` results.
pub open spec fn lines_for(results: Seq<ResultView>, n: int) -> Seq<Seq<char>>
    decreases n,
{
    if n <= 0 {
        seq![]
    } else {
        lines_for(results, n - 1) + result_lines(results[n - 1], n - 1)
    }
}

/// The text for the model.
pub open spec fn formatted(results: Seq<ResultView>) -> Seq<char> {
    if results.len() == 0 {
        "No Brave search results found."@
    } else {
        text::trimmed(text::join(lines_for(results, results.len() as int), "\n"@))
    }
}

fn push_result_lines(lines: &mut Vec<String>, result: &BraveWebResult, index: usize)
    requires
        index < usize::MAX,
    ensures
        text::strings_view(final(lines)@) == text::strings_view(old(lines)@) + result_lines(
            result@,
            index as int,
        ),
{
    let mut head = text::decimal_of((index + 1) as u128);
    head.append(". ");
    head.append(result.title.as_str());
    lines.push(head);
    if !result.url.as_str().is_empty() {
        lines.push(text::joined("URL: ", result.url.as_str()));
    }
    if !result.description.as_str().is_empty() {
        lines.push(text::joined("Snippet: ", result.description.as_str()));
    }
    let blank = String::new();
    lines.push(blank);
    proof {
        let all = text::strings_view(lines@);
        let want = text::strings_view(old(lines)@) + result_lines(result@, index as int);
        assert(blank@ =~= Seq::<char>::empty());
        assert(all =~= want);
    }
}

/// The text for the model: the numbered results, or a sentence where there are
/// none.
pub fn format_search_results(payload: &BraveSearchResponse) -> (r: String)
    ensures
        r@ == formatted(results_of(*payload)),
{
    let mut lines: Vec<String> = Vec::new();
    assert(text::strings_view(lines@) =~= seq![]);
    let mut count: usize = 0;
    if let Some(web) = &payload.web {
        let ghost all = results_of(*payload);
        let n: usize = web.results.len();
        while count < n
            invariant
                count <= n == web.results@.len(),
                all == web.results@.map_values(|r: BraveWebResult| r@),
                text::strings_view(lines@) == lines_for(all, count as int),
            decreases n - count,
        {
            push_result_lines(&mut lines, &web.results[count], count);
            count += 1;
        }
    }
    if count == 0 {
        "No Brave search results found.".to_owned()
    } else {
        let joined = text::join_strings(&lines, "\n");
        text::trim(joined.as_str())
    }
}

// --- Credentials ------------------------------------------------------------------------------

/// A byte that form encoding leaves as it is.
pub open spec fn is_form_plain(b: u8) -> bool {
    b == 42 || b == 45 || b == 46 || b == 95 || 48 <= b <= 57 || 65 <= b <= 90 || 97 <= b <= 122
}

/// The upper-case hexadecimal digit of `d`, for `d < 16`.
pub open spec fn upper_hex_digit(d: int) -> char {
    if d < 10 {
        (d + 48) as char
    } else {
        (d + 55) as char
    }
}

/// A byte in form encoding: itself, `+` for a space, else `%` and two digits.
pub open spec fn form_encoded_byte(b: u8) -> Seq<char> {
    if is_form_plain(b) {
        seq![b as char]
    } else if b == 32 {
        seq!['+']
    } else {
        seq!['%', upper_hex_digit(b as int / 16), upper_hex_digit(b as int % 16)]
    }
}

/// `bytes[i..]` in form encoding.
pub open spec fn form_encoded(bytes: Seq<u8>, i: int) -> Seq<char>
    decreases bytes.len() - i,
{
    if !(0 <= i < bytes.len()) {
        seq![]
    } else {
        form_encoded_byte(bytes[i]) + form_encoded(bytes, i + 1)
    }
}

/// `url::form_urlencoded::byte_serialize`, collected: ASCII letters and digits and
/// `*-._` stand for themselves, a space is `+`, any other byte is `%` and two
/// upper-case hexadecimal digits.
#[verifier::external_body]
fn form_encode(bytes: &[u8]) -> (r: String)
    ensures
        r@ == form_encoded(bytes@, 0),
{
    url::form_urlencoded::byte_serialize(bytes).collect::<String>()
}

/// The forms in which a credential may be echoed: as it is, form encoded, and form
/// encoded in lower case.
pub open spec fn key_forms(key: Seq<char>) -> Seq<Seq<char>> {
    let encoded = form_encoded(vstd::utf8::encode_utf8(key), 0);
    seq![key, encoded, text::ascii_lower_seq(encoded)]
}

fn credential_literals(api_key: &str) -> (r: Vec<String>)
    ensures
        text::strings_view(r@) == key_forms(api_key@),
{
    let encoded = form_encode(api_key.as_bytes());
    let encoded_lower = text::lower(encoded.as_str());
    let mut literals: Vec<String> = Vec::new();
    literals.push(api_key.to_owned());
    literals.push(encoded);
    literals.push(encoded_lower);
    assert(text::strings_view(literals@) =~= key_forms(api_key@));
    literals
}

/// Whether `t` holds one of `literals` that is not empty.
pub open spec fn echoes(t: Seq<char>, literals: Seq<Seq<char>>) -> bool {
    exists|k: int|
        0 <= k < literals.len() && (#[trigger] literals[k]).len() > 0 && text::has_part(
            t,
            literals[k],
        )
}

fn has_echo(t: &str, literals: &Vec<String>) -> (r: bool)
    ensures
        r == echoes(t@, text::strings_view(literals@)),
{
    let ghost all = text::strings_view(literals@);
    let mut i: usize = 0;
    while i < literals.len()
        invariant
            i <= literals@.len(),
            all == text::strings_view(literals@),
            forall|k: int|
                0 <= k < i ==> !((#[trigger] all[k]).len() > 0 && text::has_part(t@, all[k])),
        decreases literals@.len() - i,
    {
        let literal = literals[i].as_str();
        if !literal.is_empty() && text::contains(t, literal) {
            assert(all[i as int].len() > 0 && text::has_part(t@, all[i as int]));
            return true;
        }
        i += 1;
    }
    false
}

/// `t` without the literals.
pub open spec fn scrubbed_text(t: Seq<char>, literals: Seq<Seq<char>>) -> Seq<char> {
    redaction::literals_redacted(t, literals, literals.len() as int)
}

/// A result without the literals; a URL that holds one is dropped as a whole.
pub open spec fn scrubbed(r: ResultView, literals: Seq<Seq<char>>) -> ResultView {
    ResultView {
        title: scrubbed_text(r.title, literals),
        url: if echoes(r.url, literals) {
            seq![]
        } else {
            r.url
        },
        description: scrubbed_text(r.description, literals),
    }
}

fn scrub_result(result: &BraveWebResult, literals: &Vec<String>) -> (r: BraveWebResult)
    ensures
        r@ == scrubbed(result@, text::strings_view(literals@)),
{
    let url = if has_echo(result.url.as_str(), literals) {
        let none = String::new();
        assert(none@ =~= seq![]);
        none
    } else {
        result.url.clone()
    };
    BraveWebResult {
        title: redaction::redact_sensitive_literals(result.title.as_str(), literals),
        url,
        description: redaction::redact_sensitive_literals(result.description.as_str(), literals),
    }
}

/// Scrubs the credential from every text of a reply, whatever the field.
pub fn redact_brave_response_credentials(payload: &mut BraveSearchResponse, api_key: &str)
    ensures
        final(payload).web is Some == old(payload).web is Some,
        results_of(*final(payload)) == results_of(*old(payload)).map_values(
            |r: ResultView| scrubbed(r, key_forms(api_key@)),
        ),
{
    let literals = credential_literals(api_key);
    let ghost forms = key_forms(api_key@);
    let ghost before = results_of(*payload);
    let mut out: Vec<BraveWebResult> = Vec::new();
    match &payload.web {
        Some(web) => {
            let mut i: usize = 0;
            while i < web.results.len()
                invariant
                    i <= web.results@.len(),
                    out@.len() == i,
                    forms == text::strings_view(literals@),
                    before == web.results@.map_values(|r: BraveWebResult| r@),
                    forall|k: int|
                        0 <= k < i ==> (#[trigger] out@[k])@ == scrubbed(before[k], forms),
                decreases web.results@.len() - i,
            {
                out.push(scrub_result(&web.results[i], &literals));
                i += 1;
            }
        },
        None => {
            assert(results_of(*payload) =~= before.map_values(|r: ResultView| scrubbed(r, forms)));
            return ;
        },
    }
    payload.web = Some(BraveWebResults { results: out });
    assert(results_of(*payload) =~= before.map_values(|r: ResultView| scrubbed(r, forms)));
}

/// The first `n` sources without the literals; one whose URL holds a literal is left
/// out.
pub open spec fn scrubbed_sources(
    sources: Seq<(Seq<char>, Seq<char>)>,
    literals: Seq<Seq<char>>,
    n: int,
) -> Seq<(Seq<char>, Seq<char>)>
    decreases n,
{
    if n <= 0 {
        seq![]
    } else {
        let rest = scrubbed_sources(sources, literals, n - 1);
        if echoes(sources[n - 1].1, literals) {
            rest
        } else {
            rest.push((scrubbed_text(sources[n - 1].0, literals), sources[n - 1].1))
        }
    }
}

/// Scrubs the credential from an outcome, where there is one.
pub fn redact_search_outcome_credentials(outcome: &mut SearchOutcome, api_key: Option<&str>)
    ensures
        match api_key {
            Some(key) if key@.len() > 0 => {
                &&& final(outcome).formatted@ == scrubbed_text(
                    old(outcome).formatted@,
                    key_forms(key@),
                )
                &&& sources_view(final(outcome).sources@) == scrubbed_sources(
                    sources_view(old(outcome).sources@),
                    key_forms(key@),
                    old(outcome).sources@.len() as int,
                )
            },
            _ => *final(outcome) == *old(outcome),
        },
{
    let key = match api_key {
        Some(key) => key,
        None => {
            return ;
        },
    };
    if key.is_empty() {
        return ;
    }
    let literals = credential_literals(key);
    let ghost forms = key_forms(key@);
    let ghost before = sources_view(outcome.sources@);
    let formatted = redaction::redact_sensitive_literals(outcome.formatted.as_str(), &literals);
    let mut sources: Vec<SearchSource> = Vec::new();
    assert(sources_view(sources@) =~= seq![]);
    let mut i: usize = 0;
    while i < outcome.sources.len()
        invariant
            i <= outcome.sources@.len(),
            *outcome == *old(outcome),
            forms == text::strings_view(literals@),
            before == sources_view(outcome.sources@),
            sources_view(sources@) == scrubbed_sources(before, forms, i as int),
        decreases outcome.sources@.len() - i,
    {
        let source = &outcome.sources[i];
        if !has_echo(source.url.as_str(), &literals) {
            let ghost kept = sources@;
            sources.push(
                SearchSource {
                    title: redaction::redact_sensitive_literals(source.title.as_str(), &literals),
                    url: source.url.clone(),
                },
            );
            assert(sources_view(sources@) =~= sources_view(kept).push(
                (scrubbed_text(before[i as int].0, forms), before[i as int].1),
            ));
        }
        i += 1;
    }
    outcome.formatted = formatted;
    outcome.sources = sources;
}

// --- Asking the backend -----------------------------------------------------------------------

/// What `url::Url::parse` makes of a URL: its text, or the error's message.
pub uninterp spec fn url_text(base: Seq<char>) -> Result<Seq<char>, Seq<char>>;

/// What `url::Url::path` makes of a URL: its path, or the message of the error in the URL.
pub uninterp spec fn url_path(base: Seq<char>) -> Result<Seq<char>, Seq<char>>;

/// What `url::Url::set_path` makes of a URL: its text with another path, or the
/// message of the error in the URL.
pub uninterp spec fn url_with_path(base: Seq<char>, path: Seq<char>) -> Result<
    Seq<char>,
    Seq<char>,
>;

/// What `url::Url::join` makes of a URL and a relative one: the text of the URL, or
/// the error's message.
pub uninterp spec fn url_joined(base: Seq<char>, path: Seq<char>) -> Result<Seq<char>, Seq<char>>;

/// The texts of a result.
pub open spec fn texts(r: Result<String, String>) -> Result<Seq<char>, Seq<char>> {
    match r {
        Ok(t) => Ok(t@),
        Err(e) => Err(e@),
    }
}

/// The most bytes that a slash after the path `path` adds to a URL: where there is no path
/// and the URL cannot be a base, the slash is written as `%2F`.
pub open spec fn slash_bytes(path: Seq<char>) -> nat {
    if path.len() == 0 {
        3
    } else {
        1
    }
}

/// Whether there is room in the URL `base` for a slash after its path: the `url` crate
/// keeps its offsets in 32 bits.
pub open spec fn has_room(base: Seq<char>) -> bool {
    match (url_text(base), url_path(base)) {
        (Ok(t), Ok(p)) => vstd::utf8::encode_utf8(t).len() + slash_bytes(p) <= u32::MAX,
        _ => true,
    }
}

/// `url::Url::parse` of `base`: the text of the URL, which depends on `base` alone.
#[verifier::external_body]
fn parsed_url(base: &str) -> (r: Result<String, String>)
    ensures
        texts(r) == url_text(base@),
{
    match url::Url::parse(base) {
        Ok(url) => Ok(url.to_string()),
        Err(error) => Err(error.to_string()),
    }
}

/// `url::Url::path` of the URL `base`, which depends on `base` alone.
#[verifier::external_body]
fn path_of(base: &str) -> (r: Result<String, String>)
    ensures
        texts(r) == url_path(base@),
{
    match url::Url::parse(base) {
        Ok(url) => Ok(url.path().to_string()),
        Err(error) => Err(error.to_string()),
    }
}

/// `url::Url::set_path` on the URL `base`: the text of the URL with the path `path`,
/// which depends on the two alone. The path is the one that is there with a slash after
/// it; what is there is written again as it is, so that the URL grows by the slash alone.
/// The offsets are kept in 32 bits, so there must be room for it.
#[verifier::external_body]
fn with_path(base: &str, path: &str) -> (r: Result<String, String>)
    requires
        url_path(base@) matches Ok(p) ==> path@ == p + "/"@,
        has_room(base@),
    ensures
        texts(r) == url_with_path(base@, path@),
{
    match url::Url::parse(base) {
        Ok(mut url) => {
            url.set_path(path);
            Ok(url.to_string())
        },
        Err(error) => Err(error.to_string()),
    }
}

/// `url::Url::join` of the URL `base` and the relative URL `path`, which depends on
/// the two alone.
#[verifier::external_body]
fn joined_url(base: &str, path: &str) -> (r: Result<String, String>)
    ensures
        texts(r) == url_joined(base@, path@),
{
    match url::Url::parse(base).and_then(|url| url.join(path)) {
        Ok(url) => Ok(url.to_string()),
        Err(error) => Err(error.to_string()),
    }
}

/// The path of the directory that `path` names, where it is written without its
/// final slash.
pub open spec fn as_directory(path: Seq<char>) -> Option<Seq<char>> {
    if text::has_suffix(path, "/"@) {
        None
    } else {
        Some(path + "/"@)
    }
}

/// The path that a base URL needs in place of `path`, so that a relative URL is
/// resolved below it; `None` where `path` will do.
pub fn directory_path(path: &str) -> (r: Option<String>)
    ensures
        text::opt_view(r) == as_directory(path@),
{
    if text::ends_with(path, "/") {
        None
    } else {
        Some(text::joined(path, "/"))
    }
}

/// Whether the URL `base` can be extended where it must be: its path ends with a slash, or
/// there is room for one.
pub open spec fn can_be_extended(base: Seq<char>) -> bool {
    url_path(base) matches Ok(p) ==> as_directory(p) is None || has_room(base)
}

/// The URL of `path` below `base`, or what is wrong with it.
pub open spec fn endpoint(base: Seq<char>, path: Seq<char>) -> Result<Seq<char>, Seq<char>> {
    match url_path(base) {
        Err(e) => Err(e),
        Ok(p) => match as_directory(p) {
            None => url_joined(base, path),
            Some(d) => match url_with_path(base, d) {
                Err(e) => Err(e),
                Ok(b) => url_joined(b, path),
            },
        },
    }
}

/// The error for a base URL that cannot be used.
pub fn endpoint_error(detail: &str) -> (r: AppError)
    ensures
        r@ == error::internal_view("invalid Brave URL: "@ + detail@),
{
    AppError::internal(text::joined("invalid Brave URL: ", detail).as_str())
}

/// A client of the search backend.
pub struct BraveSearchClient {
    base_url: String,
    api_key: Option<String>,
    max_results: usize,
}

/// What is sent to the search backend.
#[derive(Debug)]
pub struct SearchRequest {
    /// URL, without the query.
    pub url: String,
    /// The credential, for the `X-Subscription-Token` header.
    pub token: String,
    /// The query's names and values, in order.
    pub params: Vec<(String, String)>,
}

/// The names and values of a search's query.
pub open spec fn search_params(query: Seq<char>, max_results: nat) -> Seq<(Seq<char>, Seq<char>)> {
    seq![
        ("q"@, query),
        ("count"@, text::decimal(max_results)),
        ("text_decorations"@, "false"@),
        ("spellcheck"@, "false"@),
    ]
}

/// The texts of names and values.
pub open spec fn pairs_view(pairs: Seq<(String, String)>) -> Seq<(Seq<char>, Seq<char>)> {
    pairs.map_values(|p: (String, String)| (p.0@, p.1@))
}

/// What came back from the search backend.
#[derive(Debug)]
pub enum SearchReply {
    /// Nothing: the request failed.
    SendFailed,
    /// A body that could not be read.
    ReadFailed,
    /// A body over the limit.
    TooLarge,
    /// A body that is no reply.
    InvalidJson,
    /// A reply.
    Payload(BraveSearchResponse),
}

/// The most bytes of a reply that are read.
pub const MAX_REPLY_BYTES: usize = 4194304;

/// Why a reply is no reply.
pub open spec fn reply_error(reply: SearchReply) -> Option<Seq<char>> {
    match reply {
        SearchReply::SendFailed => Some("Brave search request failed"@),
        SearchReply::ReadFailed => Some("failed to read Brave search response"@),
        SearchReply::TooLarge => Some("Brave search response was too large"@),
        SearchReply::InvalidJson => Some("invalid Brave search JSON"@),
        SearchReply::Payload(_) => None,
    }
}

/// The results of a reply, scrubbed of the credential.
pub open spec fn reply_results(reply: SearchReply, key: Seq<char>) -> Seq<ResultView> {
    match reply {
        SearchReply::Payload(payload) => results_of(payload).map_values(
            |r: ResultView| scrubbed(r, key_forms(key)),
        ),
        _ => seq![],
    }
}

impl BraveSearchClient {
    /// The base URL.
    pub closed spec fn base_url(&self) -> Seq<char> {
        self.base_url@
    }

    /// The credential.
    pub closed spec fn api_key(&self) -> Option<Seq<char>> {
        text::opt_view(self.api_key)
    }

    /// How many results to ask for.
    pub closed spec fn max_results(&self) -> nat {
        self.max_results as nat
    }

    /// A client of the backend at `base_url`.
    pub fn new(base_url: String, api_key: Option<String>, max_results: usize) -> (r: Self)
        ensures
            r.base_url() == base_url@,
            r.api_key() == text::opt_view(api_key),
            r.max_results() == max_results,
    {
        BraveSearchClient { base_url, api_key, max_results }
    }

    /// The URL of `path` below the base URL, whether or not that ends with a slash.
    pub fn endpoint_url(&self, path: &str) -> (r: AppResult<String>)
        requires
            can_be_extended(self.base_url()),
        ensures
            match endpoint(self.base_url(), path@) {
                Ok(url) => r matches Ok(u) && u@ == url,
                Err(detail) => r matches Err(e) && e@ == error::internal_view(
                    "invalid Brave URL: "@ + detail,
                ),
            },
    {
        let base = self.base_url.as_str();
        let current = match path_of(base) {
            Ok(current) => current,
            Err(detail) => {
                return Err(endpoint_error(detail.as_str()));
            },
        };
        let joined = match directory_path(current.as_str()) {
            None => joined_url(base, path),
            Some(directory) => match with_path(base, directory.as_str()) {
                Ok(moved) => joined_url(moved.as_str(), path),
                Err(detail) => Err(detail),
            },
        };
        match joined {
            Ok(url) => Ok(url),
            Err(detail) => Err(endpoint_error(detail.as_str())),
        }
    }

    /// Whether `r` is what to send for `query`, or why nothing can be sent.
    pub open spec fn begins(&self, query: Seq<char>, r: AppResult<SearchRequest>) -> bool {
        match self.api_key() {
            None => r matches Err(e) && e@ == error::internal_view(
                "web_search is configured but BRAVE_SEARCH_API_KEY is missing"@,
            ),
            Some(key) => match endpoint(self.base_url(), "web/search"@) {
                Ok(url) => r matches Ok(request) && request.url@ == url && request.token@ == key
                    && pairs_view(request.params@) == search_params(query, self.max_results()),
                Err(detail) => r matches Err(e) && e@ == error::internal_view(
                    "invalid Brave URL: "@ + detail,
                ),
            },
        }
    }

    /// Whether the base URL can be extended.
    fn has_extensible_base(&self) -> (r: bool)
        ensures
            r == can_be_extended(self.base_url()),
    {
        let base = self.base_url.as_str();
        match path_of(base) {
            Ok(path) => if directory_path(path.as_str()).is_none() {
                true
            } else {
                let slash: u64 = if path.as_str().is_empty() {
                    3
                } else {
                    1
                };
                match parsed_url(base) {
                    Ok(t) => t.as_str().as_bytes().len() as u64 <= 4294967295 - slash,
                    Err(_) => true,
                }
            },
            Err(_) => true,
        }
    }

    /// What to send for `query`; nothing where the base URL has no room to be extended.
    pub fn try_begin_search(&self, query: &str) -> (r: Option<AppResult<SearchRequest>>)
        ensures
            match r {
                Some(begun) => self.begins(query@, begun),
                None => self.api_key() is Some && !can_be_extended(self.base_url()),
            },
            self.api_key() is Some && !can_be_extended(self.base_url()) ==> r is None,
    {
        if self.api_key.is_some() && !self.has_extensible_base() {
            None
        } else {
            Some(self.begin_search(query))
        }
    }

    /// What to send for `query`.
    pub fn begin_search(&self, query: &str) -> (r: AppResult<SearchRequest>)
        requires
            self.api_key() is Some ==> can_be_extended(self.base_url()),
        ensures
            self.begins(query@, r),
    {
        let key = match &self.api_key {
            Some(key) => key,
            None => {
                return Err(
                    AppError::internal(
                        "web_search is configured but BRAVE_SEARCH_API_KEY is missing",
                    ),
                );
            },
        };
        let url = match self.endpoint_url("web/search") {
            Ok(url) => url,
            Err(e) => {
                return Err(e);
            },
        };
        let mut params: Vec<(String, String)> = Vec::new();
        params.push(("q".to_owned(), query.to_owned()));
        params.push(("count".to_owned(), text::decimal_of(self.max_results as u128)));
        params.push(("text_decorations".to_owned(), "false".to_owned()));
        params.push(("spellcheck".to_owned(), "false".to_owned()));
        assert(pairs_view(params@) =~= search_params(query@, self.max_results()));
        Ok(SearchRequest { url, token: key.clone(), params })
    }

    /// Holds the reply to a success status, before its body is read.
    pub fn check_status(status: u16) -> (r: AppResult<()>)
        ensures
            if 200 <= status < 300 {
                r is Ok
            } else {
                r matches Err(e) && e@ == error::upstream_view(
                    "Brave search backend returned HTTP "@ + text::decimal(status as nat),
                )
            },
    {
        if status >= 200 && status < 300 {
            return Ok(());
        }
        let code = text::decimal_of(status as u128);
        let message = text::joined("Brave search backend returned HTTP ", code.as_str());
        Err(AppError::upstream(message.as_str()))
    }

    /// What a reply comes to. No byte of the backend's own text is echoed in an error,
    /// and a reply is scrubbed of the credential before it is used.
    pub fn finish_search(api_key: &str, reply: SearchReply) -> (r: AppResult<SearchOutcome>)
        ensures
            match reply_error(reply) {
                Some(message) => r matches Err(e) && e@ == error::upstream_view(message),
                None => r matches Ok(outcome) && {
                    let results = reply_results(reply, api_key@);
                    &&& outcome.formatted@ == formatted(results)
                    &&& sources_view(outcome.sources@) == citable(results, results.len() as int)
                },
            },
    {
        match reply {
            SearchReply::SendFailed => Err(AppError::upstream("Brave search request failed")),
            SearchReply::ReadFailed => Err(
                AppError::upstream("failed to read Brave search response"),
            ),
            SearchReply::TooLarge => Err(AppError::upstream("Brave search response was too large")),
            SearchReply::InvalidJson => Err(AppError::upstream("invalid Brave search JSON")),
            SearchReply::Payload(payload) => {
                let mut payload = payload;
                redact_brave_response_credentials(&mut payload, api_key);
                Ok(
                    SearchOutcome {
                        formatted: format_search_results(&payload),
                        sources: collect_sources(&payload),
                    },
                )
            },
        }
    }
}

// --- Laws --------------------------------------------------------------------------------------

/// A form of the credential that is a plain literal is left in neither text of a
/// scrubbed result, and no form that is not empty is left in its URL.
pub proof fn law_scrubbed_result_has_no_key(r: ResultView, key: Seq<char>, j: int)
    requires
        0 <= j < key_forms(key).len(),
    ensures
        redaction::is_plain_literal(key_forms(key)[j]) ==> {
            &&& !text::has_part(scrubbed(r, key_forms(key)).title, key_forms(key)[j])
            &&& !text::has_part(scrubbed(r, key_forms(key)).description, key_forms(key)[j])
        },
        key_forms(key)[j].len() > 0 ==> !text::has_part(
            scrubbed(r, key_forms(key)).url,
            key_forms(key)[j],
        ),
{
    let forms = key_forms(key);
    if redaction::is_plain_literal(forms[j]) {
        redaction::law_literals_do_not_survive(r.title, forms, j, forms.len() as int);
        redaction::law_literals_do_not_survive(r.description, forms, j, forms.len() as int);
    }
    if forms[j].len() > 0 {
        let url = scrubbed(r, forms).url;
        if text::has_part(url, forms[j]) {
            let i = choose|i: int| text::holds_at(url, i, forms[j]);
            assert(url.len() > 0);
            assert(echoes(r.url, forms));
        }
    }
}

/// A form of the credential that is a plain literal is not left in the text of a
/// scrubbed outcome.
pub proof fn law_scrubbed_outcome_has_no_key(t: Seq<char>, key: Seq<char>, j: int)
    requires
        0 <= j < key_forms(key).len(),
        redaction::is_plain_literal(key_forms(key)[j]),
    ensures
        !text::has_part(scrubbed_text(t, key_forms(key)), key_forms(key)[j]),
{
    redaction::law_literals_do_not_survive(t, key_forms(key), j, key_forms(key).len() as int);
}

/// Every source has a URL.
pub proof fn law_sources_have_urls(results: Seq<ResultView>, n: int, k: int)
    requires
        0 <= n <= results.len(),
        0 <= k < citable(results, n).len(),
    ensures
        citable(results, n)[k].1.len() > 0,
    decreases n,
{
    if n > 0 {
        let rest = citable(results, n - 1);
        if k < rest.len() {
            law_sources_have_urls(results, n - 1, k);
        }
    }
}

} // verus!
