//! Rewriting a remote specifier into a syntax the standard URL parser accepts,
//! and parsing it, with one corrected retry.

use crate::hosted_git_info::protocol::{
    spec_type_from_str, type_from_str, Protocol, ProtocolRegistry, ProtocolType,
};
use crate::text::{
    byte_offset, chars_of, contains_double_slash, double_slash_at, find_first, find_last_before,
    has_double_slash, lemma_absent, lemma_first, lemma_first_is, position, text_of, utf8_offset,
};
use vstd::prelude::*;
use vstd::string::{StrSliceExecFns, StringExecFns};

verus! {

/// Why a specifier could not be parsed.
#[derive(Debug)]
pub enum ParseError {
    /// The text up to the first colon names no known scheme.
    InvalidProtocol { raw_prefix: String },
    /// The standard parser refused the specifier, before and after correction.
    UnparsableUrl { raw: String },
}

/// A `ParseError` with its texts as character sequences.
pub enum ParseFailure {
    InvalidProtocol { raw_prefix: Seq<char> },
    UnparsableUrl { raw: Seq<char> },
}

impl View for ParseError {
    type V = ParseFailure;

    open spec fn view(&self) -> ParseFailure {
        match self {
            ParseError::InvalidProtocol { raw_prefix } => ParseFailure::InvalidProtocol {
                raw_prefix: raw_prefix@,
            },
            ParseError::UnparsableUrl { raw } => ParseFailure::UnparsableUrl { raw: raw@ },
        }
    }
}

impl ParseError {
    /// The message that goes with the error.
    pub fn message(&self) -> (r: String)
        ensures
            self is InvalidProtocol ==> r@ == "Invalid protocol."@,
            self is UnparsableUrl ==> r@ == "Failed to parse the URL."@,
    {
        match self {
            ParseError::InvalidProtocol { .. } => "Invalid protocol.".to_owned(),
            ParseError::UnparsableUrl { .. } => "Failed to parse the URL.".to_owned(),
        }
    }
}

/// The components of a URL that the standard parser accepted.
#[derive(Clone, Debug)]
pub struct ParsedUrl {
    /// The URL as the parser serialises it.
    pub href: String,
    pub scheme: String,
    pub username: String,
    pub password: Option<String>,
    pub host: Option<String>,
    pub port: Option<u16>,
    pub path: String,
    pub query: Option<String>,
    pub fragment: Option<String>,
}

/// A `ParsedUrl` with its texts as character sequences.
pub struct UrlParts {
    pub href: Seq<char>,
    pub scheme: Seq<char>,
    pub username: Seq<char>,
    pub password: Option<Seq<char>>,
    pub host: Option<Seq<char>>,
    pub port: Option<u16>,
    pub path: Seq<char>,
    pub query: Option<Seq<char>>,
    pub fragment: Option<Seq<char>>,
}

impl View for ParsedUrl {
    type V = UrlParts;

    open spec fn view(&self) -> UrlParts {
        UrlParts {
            href: self.href@,
            scheme: self.scheme@,
            username: self.username@,
            password: text_of(self.password),
            host: text_of(self.host),
            port: self.port,
            path: self.path@,
            query: text_of(self.query),
            fragment: text_of(self.fragment),
        }
    }
}

/// What the standard parser makes of `input`: the components of the URL it
/// reads there, or nothing where it refuses the input.
pub uninterp spec fn standard_parse(input: Seq<char>) -> Option<UrlParts>;

/// Runs `url::Url::parse` on `input` and copies the components of its result;
/// the parser's own error is dropped. The parser is a function of its input
/// alone; the contract gives that function the name `standard_parse` and claims
/// nothing of what it computes.
#[verifier::external_body]
fn parse_standard(input: &str) -> (r: Option<ParsedUrl>)
    ensures
        match r {
            Some(u) => standard_parse(input@) == Some(u@),
            None => standard_parse(input@) is None,
        },
{
    let url = url::Url::parse(input).ok()?;
    Some(ParsedUrl {
        href: url.as_str().to_string(),
        scheme: url.scheme().to_string(),
        username: url.username().to_string(),
        password: url.password().map(str::to_string),
        host: url.host_str().map(str::to_string),
        port: url.port(),
        path: url.path().to_string(),
        query: url.query().map(str::to_string),
        fragment: url.fragment().map(str::to_string),
    })
}

/// Position of the last `ch` in front of the first `before` of `s`; nothing
/// where `s` holds no `before`.
pub open spec fn last_before(s: Seq<char>, ch: char, before: char) -> Option<int> {
    match s.index_of_first(before) {
        Some(p) => s.take(p).index_of_last(ch),
        None => None,
    }
}

/// The byte offset of the last `ch` in front of the first `before` of `s`.
pub open spec fn last_offset_before(s: Seq<char>, ch: char, before: char) -> Option<int> {
    match last_before(s, ch, before) {
        Some(i) => Some(byte_offset(s, i)),
        None => None,
    }
}

fn last_position_before(chars: &Vec<char>, ch: char, before_char: char) -> (r: Option<usize>)
    ensures
        position(r) == last_before(chars@, ch, before_char),
        r matches Some(i) ==> i < chars.len() && chars[i as int] == ch,
{
    match find_first(chars, before_char) {
        Some(p) => find_last_before(chars, ch, p),
        None => None,
    }
}

/// Finds the last `ch` in front of the first `before_char` of `string`, and gives
/// its byte offset.
pub fn last_index_of_before(string: &str, ch: char, before_char: char) -> (r: Option<usize>)
    ensures
        position(r) == last_offset_before(string@, ch, before_char),
{
    let chars = chars_of(string);
    match last_position_before(&chars, ch, before_char) {
        Some(i) => Some(utf8_offset(string, i)),
        None => None,
    }
}

/// What `correct_protocol` makes of `url` under the accepted protocols `accepted`.
pub open spec fn protocol_corrected(url: Seq<char>, accepted: Map<ProtocolType, Protocol>) -> Result<
    Seq<char>,
    ParseFailure,
> {
    match url.index_of_first(':') {
        None => Ok(url),
        Some(colon) => match spec_type_from_str(url.take(colon + 1)) {
            None => Err(ParseFailure::InvalidProtocol { raw_prefix: url.take(colon + 1) }),
            Some(kind) => if accepted.contains_key(kind) {
                Ok(url)
            } else {
                match url.index_of_first('@') {
                    Some(at) => if at > colon {
                        Ok("git+ssh://"@ + url)
                    } else {
                        Ok(url)
                    },
                    None => if double_slash_at(url, colon + 1) {
                        Ok(url)
                    } else {
                        Ok(url.take(colon + 1) + "//"@ + url.skip(colon + 1))
                    },
                }
            },
        },
    }
}

/// The outcome of a correction with its texts as character sequences.
pub open spec fn corrected_view(r: Result<String, ParseError>) -> Result<Seq<char>, ParseFailure> {
    match r {
        Ok(s) => Ok(s@),
        Err(e) => Err(e@),
    }
}

/// The first correction pass, made before the first parse attempt. A specifier
/// without a colon is left alone. Otherwise the text up to the first colon must
/// name a known scheme. Where that scheme is accepted the specifier is left
/// alone; where it is not, an SCP-like specifier gets `git+ssh://` in front, and
/// one that lacks `//` behind its scheme gets it inserted.
pub fn correct_protocol(url: &str, protocols: &ProtocolRegistry) -> (r: Result<String, ParseError>)
    ensures
        corrected_view(r) == protocol_corrected(url@, protocols@),
{
    let chars = chars_of(url);
    let colon_idx = match find_first(&chars, ':') {
        None => {
            return Ok(url.to_owned());
        },
        Some(i) => i,
    };
    let prefix: &str = url.substring_char(0, colon_idx + 1);
    let kind = match type_from_str(prefix) {
        None => {
            return Err(ParseError::InvalidProtocol { raw_prefix: prefix.to_owned() });
        },
        Some(kind) => kind,
    };
    if protocols.contains_key(&kind) {
        return Ok(url.to_owned());
    }
    if let Some(at_idx) = find_first(&chars, '@') {
        if at_idx > colon_idx {
            return Ok(String::from_str("git+ssh://").concat(url));
        } else {
            return Ok(url.to_owned());
        }
    }
    if chars.len() - colon_idx > 2 && chars[colon_idx + 1] == '/' && chars[colon_idx + 2] == '/' {
        return Ok(url.to_owned());
    }
    let rest: &str = url.substring_char(colon_idx + 1, chars.len());
    Ok(prefix.to_owned().concat("//").concat(rest))
}

/// What the second correction pass does to a specifier.
#[derive(Debug, Clone, Copy, PartialEq, Eq, Structural)]
pub enum Rewrite {
    /// What follows the last colon is kept, twice, with a slash between. The
    /// rewrite is ambiguous: it drops the host, and it also strikes specifiers
    /// that were well formed.
    TailDuplicated,
    /// `git+ssh://` goes in front.
    SchemePrepended,
    /// The specifier is left alone.
    Unchanged,
}

/// What the second correction pass does to `url`. With a colon behind an `@`,
/// both in front of a `#`, the tail is duplicated. Without a colon in front of a
/// `#` and without `//`, the scheme goes in front.
pub open spec fn rewrite_of(url: Seq<char>) -> Rewrite {
    let colon = last_before(url, ':', '#');
    let at = last_before(url, '@', '#');
    if colon is Some && at is Some && colon->0 > at->0 {
        Rewrite::TailDuplicated
    } else if colon is None && !has_double_slash(url) {
        Rewrite::SchemePrepended
    } else {
        Rewrite::Unchanged
    }
}

/// What `correct_url` makes of `url`.
pub open spec fn url_corrected(url: Seq<char>) -> Seq<char> {
    match rewrite_of(url) {
        Rewrite::TailDuplicated => {
            let tail = url.skip(last_before(url, ':', '#')->0 + 1);
            tail + "/"@ + tail
        },
        Rewrite::SchemePrepended => "git+ssh://"@ + url,
        Rewrite::Unchanged => url,
    }
}

/// Tells what the second correction pass does to `url`, so that a caller can
/// see the ambiguous rewrite coming.
pub fn rewrite(url: &str) -> (r: Rewrite)
    ensures
        r == rewrite_of(url@),
{
    let chars = chars_of(url);
    let last_colon_idx = last_position_before(&chars, ':', '#');
    let at_idx = last_position_before(&chars, '@', '#');
    if let Some(colon) = last_colon_idx {
        if let Some(at) = at_idx {
            if colon > at {
                return Rewrite::TailDuplicated;
            }
        }
    }
    if last_colon_idx.is_none() && !contains_double_slash(&chars) {
        return Rewrite::SchemePrepended;
    }
    Rewrite::Unchanged
}

/// The second correction pass, made after a failed parse attempt. With a colon
/// behind an `@`, both in front of a `#`, what follows that colon is kept, twice,
/// with a slash between: a rewrite known to be ambiguous. Without a colon in
/// front of a `#` and without `//`, `git+ssh://` goes in front. Anything else is
/// left alone.
pub fn correct_url(url: &str) -> (r: String)
    ensures
        r@ == url_corrected(url@),
{
    match rewrite(url) {
        Rewrite::TailDuplicated => {
            let chars = chars_of(url);
            let len: usize = chars.len();
            let tail: &str = match last_position_before(&chars, ':', '#') {
                Some(colon) => url.substring_char(colon + 1, len),
                None => url,
            };
            tail.to_owned().concat("/").concat(tail)
        },
        Rewrite::SchemePrepended => String::from_str("git+ssh://").concat(url),
        Rewrite::Unchanged => url.to_owned(),
    }
}

/// Where the parsing of one specifier stands.
#[derive(Debug)]
pub enum ParseState {
    /// The specifier went through the first correction pass; `candidate` has
    /// not been shown to the standard parser yet.
    Unattempted { candidate: String },
    /// The standard parser refused the first candidate; `candidate` is what the
    /// second correction pass made of it.
    RetryAfterCorrection { candidate: String },
    /// The standard parser accepted a candidate.
    ParsedOk { url: ParsedUrl },
    /// Nothing more will be tried.
    Failed { error: ParseError },
}

/// A `ParseState` with its texts as character sequences.
pub enum ParseStateView {
    Unattempted { candidate: Seq<char> },
    RetryAfterCorrection { candidate: Seq<char> },
    ParsedOk { url: UrlParts },
    Failed { error: ParseFailure },
}

impl View for ParseState {
    type V = ParseStateView;

    open spec fn view(&self) -> ParseStateView {
        match self {
            ParseState::Unattempted { candidate } => ParseStateView::Unattempted {
                candidate: candidate@,
            },
            ParseState::RetryAfterCorrection { candidate } => ParseStateView::RetryAfterCorrection {
                candidate: candidate@,
            },
            ParseState::ParsedOk { url } => ParseStateView::ParsedOk { url: url@ },
            ParseState::Failed { error } => ParseStateView::Failed { error: error@ },
        }
    }
}

/// The accepted protocols of a registry that may be absent.
pub open spec fn accepted_of(protocols: Option<&ProtocolRegistry>) -> Option<
    Map<ProtocolType, Protocol>,
> {
    match protocols {
        Some(p) => Some(p@),
        None => None,
    }
}

/// The components of a URL that may be absent.
pub open spec fn parts_of(url: Option<ParsedUrl>) -> Option<UrlParts> {
    match url {
        Some(u) => Some(u@),
        None => None,
    }
}

/// The outcome of a parse with its texts as character sequences.
pub open spec fn parsed_view(r: Result<ParsedUrl, ParseError>) -> Result<UrlParts, ParseFailure> {
    match r {
        Ok(u) => Ok(u@),
        Err(e) => Err(e@),
    }
}

/// The text that is shown to the standard parser first: `raw` after the first
/// correction pass where a registry is supplied, `raw` itself where none is.
pub open spec fn first_candidate(
    raw: Seq<char>,
    accepted: Option<Map<ProtocolType, Protocol>>,
) -> Result<Seq<char>, ParseFailure> {
    match accepted {
        Some(a) => protocol_corrected(raw, a),
        None => Ok(raw),
    }
}

/// The state in which the parsing of `raw` starts.
pub open spec fn started(
    raw: Seq<char>,
    accepted: Option<Map<ProtocolType, Protocol>>,
) -> ParseStateView {
    match first_candidate(raw, accepted) {
        Ok(candidate) => ParseStateView::Unattempted { candidate },
        Err(error) => ParseStateView::Failed { error },
    }
}

/// The state that follows `state` once the standard parser has answered
/// `outcome` on the first candidate.
pub open spec fn advanced(state: ParseStateView, outcome: Option<UrlParts>) -> ParseStateView {
    match state {
        ParseStateView::Unattempted { candidate } => match outcome {
            Some(url) => ParseStateView::ParsedOk { url },
            None => ParseStateView::RetryAfterCorrection { candidate: url_corrected(candidate) },
        },
        other => other,
    }
}

/// The result in which `state` ends once the standard parser has answered
/// `outcome` on the candidate that `state` holds, if it holds one.
pub open spec fn concluded(state: ParseStateView, raw: Seq<char>, outcome: Option<UrlParts>) -> Result<
    UrlParts,
    ParseFailure,
> {
    match state {
        ParseStateView::ParsedOk { url } => Ok(url),
        ParseStateView::Failed { error } => Err(error),
        _ => match outcome {
            Some(url) => Ok(url),
            None => Err(ParseFailure::UnparsableUrl { raw }),
        },
    }
}

/// What the standard parser makes of the candidate that `state` holds.
pub open spec fn attempted(state: ParseStateView) -> Option<UrlParts> {
    match state {
        ParseStateView::Unattempted { candidate } => standard_parse(candidate),
        ParseStateView::RetryAfterCorrection { candidate } => standard_parse(candidate),
        _ => None,
    }
}

/// What `parse` returns for `raw`: the failure of the first correction pass; else
/// what the standard parser reads in the first candidate; else what it reads in
/// the candidate after the second correction pass; else the failure that
/// carries `raw`.
pub open spec fn parse_outcome(
    raw: Seq<char>,
    accepted: Option<Map<ProtocolType, Protocol>>,
) -> Result<UrlParts, ParseFailure> {
    match first_candidate(raw, accepted) {
        Err(error) => Err(error),
        Ok(candidate) => match standard_parse(candidate) {
            Some(url) => Ok(url),
            None => match standard_parse(url_corrected(candidate)) {
                Some(url) => Ok(url),
                None => Err(ParseFailure::UnparsableUrl { raw }),
            },
        },
    }
}

/// Starts the parsing of `raw`: applies the first correction pass where a
/// registry is supplied.
pub fn begin(raw: &str, protocols: Option<&ProtocolRegistry>) -> (state: ParseState)
    ensures
        state@ == started(raw@, accepted_of(protocols)),
{
    match protocols {
        None => ParseState::Unattempted { candidate: raw.to_owned() },
        Some(registry) => match correct_protocol(raw, registry) {
            Ok(candidate) => ParseState::Unattempted { candidate },
            Err(error) => ParseState::Failed { error },
        },
    }
}

/// Takes the standard parser's answer on the first candidate: a parsed URL ends
/// the parsing, a refusal leads to the second correction pass. A state that
/// holds no first candidate stays as it is.
pub fn advance(state: ParseState, outcome: Option<ParsedUrl>) -> (next: ParseState)
    ensures
        next@ == advanced(state@, parts_of(outcome)),
{
    match state {
        ParseState::Unattempted { candidate } => match outcome {
            Some(url) => ParseState::ParsedOk { url },
            None => ParseState::RetryAfterCorrection { candidate: correct_url(candidate.as_str()) },
        },
        other => other,
    }
}

/// Ends the parsing: a state that is final gives its result, and one that still
/// holds a candidate goes by the standard parser's answer on it, a refusal
/// giving the failure that carries `raw`.
pub fn conclude(state: ParseState, raw: &str, outcome: Option<ParsedUrl>) -> (r: Result<
    ParsedUrl,
    ParseError,
>)
    ensures
        parsed_view(r) == concluded(state@, raw@, parts_of(outcome)),
{
    match state {
        ParseState::ParsedOk { url } => Ok(url),
        ParseState::Failed { error } => Err(error),
        _ => match outcome {
            Some(url) => Ok(url),
            None => Err(ParseError::UnparsableUrl { raw: raw.to_owned() }),
        },
    }
}

fn attempt(state: &ParseState) -> (outcome: Option<ParsedUrl>)
    ensures
        parts_of(outcome) == attempted(state@),
{
    match state {
        ParseState::Unattempted { candidate } => parse_standard(candidate.as_str()),
        ParseState::RetryAfterCorrection { candidate } => parse_standard(candidate.as_str()),
        _ => None,
    }
}

/// Parses the remote specifier `url`. With a registry the first correction pass
/// comes first, and its failure is returned at once. The standard parser then
/// sees the candidate, and, if it refuses it, the candidate after the second
/// correction pass. If it refuses that too, the failure carries `url` as given.
pub fn parse(url: &str, protocols: Option<&ProtocolRegistry>) -> (r: Result<ParsedUrl, ParseError>)
    ensures
        parsed_view(r) == parse_outcome(url@, accepted_of(protocols)),
{
    let unattempted = begin(url, protocols);
    let first = attempt(&unattempted);
    let retried = advance(unattempted, first);
    let second = attempt(&retried);
    conclude(retried, url, second)
}

/// A specifier whose scheme is accepted comes out of the first correction pass
/// as it went in, so that a second application changes nothing either.
pub proof fn lemma_accepted_scheme_is_kept(url: Seq<char>, accepted: Map<ProtocolType, Protocol>)
    requires
        url.index_of_first(':') matches Some(colon) && spec_type_from_str(url.take(colon + 1))
            matches Some(kind) && accepted.contains_key(kind),
    ensures
        protocol_corrected(url, accepted) == Ok::<Seq<char>, ParseFailure>(url),
        protocol_corrected(protocol_corrected(url, accepted)->Ok_0, accepted) == protocol_corrected(
            url,
            accepted,
        ),
{
}

/// The text of `raw` up to its first colon, the colon included.
pub open spec fn scheme_prefix(raw: Seq<char>) -> Option<Seq<char>> {
    match raw.index_of_first(':') {
        Some(colon) => Some(raw.take(colon + 1)),
        None => None,
    }
}

/// Whether `raw` has a colon and the text up to the first one names no known
/// scheme.
pub open spec fn names_unknown_scheme(raw: Seq<char>) -> bool {
    scheme_prefix(raw) matches Some(prefix) && spec_type_from_str(prefix) is None
}

/// With a registry, parsing fails for the scheme exactly when the specifier
/// names an unknown one, and the failure carries the text up to the first colon.
/// Without a registry it never fails so. The other failure carries the
/// specifier as it was given.
pub proof fn lemma_failures(raw: Seq<char>, accepted: Option<Map<ProtocolType, Protocol>>)
    ensures
        accepted is Some && names_unknown_scheme(raw) ==> parse_outcome(raw, accepted) == Err::<
            UrlParts,
            ParseFailure,
        >(ParseFailure::InvalidProtocol { raw_prefix: scheme_prefix(raw)->0 }),
        !(accepted is Some && names_unknown_scheme(raw)) ==> !(parse_outcome(raw, accepted)
            matches Err(e) && e is InvalidProtocol),
        parse_outcome(raw, accepted) matches Err(ParseFailure::UnparsableUrl { raw: carried })
            ==> carried == raw,
{
}

/// Whether the first correction pass puts `git+ssh://` in front of `url`: its
/// scheme is known and not accepted, and an `@` follows the first colon.
pub open spec fn reads_scp_like(url: Seq<char>, accepted: Map<ProtocolType, Protocol>) -> bool {
    &&& url.index_of_first(':') matches Some(colon)
    &&& spec_type_from_str(url.take(colon + 1)) matches Some(kind)
    &&& !accepted.contains_key(kind)
    &&& url.index_of_first('@') matches Some(at)
    &&& at > colon
}

/// Unless it put `git+ssh://` in front, the first correction pass changes
/// nothing when it is applied to its own result.
pub proof fn lemma_correct_protocol_is_stable(url: Seq<char>, accepted: Map<ProtocolType, Protocol>)
    requires
        protocol_corrected(url, accepted) is Ok,
        !reads_scp_like(url, accepted),
    ensures
        protocol_corrected(protocol_corrected(url, accepted)->Ok_0, accepted) == protocol_corrected(
            url,
            accepted,
        ),
{
    let once = protocol_corrected(url, accepted)->Ok_0;
    if once != url {
        let colon = url.index_of_first(':')->0;
        lemma_first(url, ':');
        lemma_first(url, '@');
        let head = url.take(colon + 1);
        reveal_strlit("//");
        assert(once.len() == url.len() + 2);
        assert(forall|j: int| 0 <= j <= colon ==> once[j] == url[j]);
        assert(once[colon + 1] == '/' && once[colon + 2] == '/');
        assert(forall|j: int| colon + 2 < j < once.len() ==> once[j] == url[j - 2]);
        lemma_first_is(once, ':', colon);
        assert(once.take(colon + 1) =~= head);
        assert(once.index_of_first('@') is None) by {
            assert forall|j: int| 0 <= j < once.len() implies once[j] != '@' by {
                if j > colon + 2 {
                    assert(once[j] == url[j - 2]);
                }
            }
            lemma_absent(once, '@');
        }
        assert(double_slash_at(once, colon + 1));
    }
}

/// Without a `#` and without `//`, a specifier that the standard parser refuses
/// is tried again with `git+ssh://` in front, whatever else it holds.
pub proof fn lemma_bare_specifier_is_retried_with_git_ssh(raw: Seq<char>)
    requires
        !raw.contains('#'),
        !has_double_slash(raw),
    ensures
        url_corrected(raw) == "git+ssh://"@ + raw,
        parse_outcome(raw, None) == match standard_parse(raw) {
            Some(url) => Ok::<UrlParts, ParseFailure>(url),
            None => match standard_parse("git+ssh://"@ + raw) {
                Some(url) => Ok(url),
                None => Err(ParseFailure::UnparsableUrl { raw }),
            },
        },
{
    raw.index_of_first_ensures('#');
}

/// A text in which the standard parser reads `url` parses to `url`, provided
/// that the first correction pass, if it is made, leaves the text alone. So
/// where the standard parser reads a URL back from its own serialisation, so
/// does `parse`.
pub proof fn lemma_accepted_text_parses_to_itself(
    text: Seq<char>,
    accepted: Option<Map<ProtocolType, Protocol>>,
    url: UrlParts,
)
    requires
        standard_parse(text) == Some(url),
        first_candidate(text, accepted) == Ok::<Seq<char>, ParseFailure>(text),
    ensures
        parse_outcome(text, accepted) == Ok::<UrlParts, ParseFailure>(url),
{
}

} // verus!
