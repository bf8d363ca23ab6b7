//! What the research provider is asked and what it answers, and the
//! validation of an answer before it is believed.

use crate::text::{
    ascii_lower, ascii_lower_chars, chars_of, push_decimal, push_text, same_chars, same_text,
    texts, trim_chars, trimmed,
};
use vstd::prelude::*;
use vstd::string::StringExecFns;

verus! {

/// How likely a market is to resolve against the plain reading of its
/// rules.
#[derive(Clone, Copy, Debug, PartialEq, Eq, Structural)]
pub enum RiskLevel {
    Low,
    Medium,
    High,
    Critical,
}

/// The request for research on one market. The snapshot is JSON text.
#[derive(Clone, Debug)]
pub struct ResearchRequest {
    pub request_id: String,
    pub market_ticker: String,
    pub event_ticker: String,
    pub rules_primary: String,
    pub rules_secondary: Option<String>,
    pub candidate_snapshot: String,
    pub allowed_urls: Vec<String>,
    pub as_of_ts_ms: i64,
}

/// A claim of fact, with its source. The score is in millionths.
#[derive(Clone, Debug)]
pub struct FactClaim {
    pub claim: String,
    pub source_url: Option<String>,
    pub verifiability_score_ppm: i64,
}

/// A source that the research consulted.
#[derive(Clone, Debug)]
pub struct Provenance {
    pub url: String,
    pub title: Option<String>,
    pub fetched_at_ts_ms: i64,
}

/// The answer of the research provider. Confidence and uncertainty are
/// in millionths.
#[derive(Clone, Debug)]
pub struct ResearchResponse {
    pub resolution_source: String,
    pub definition_summary: String,
    pub edge_case_flags: Vec<String>,
    pub risk_of_misresolution: RiskLevel,
    pub fact_claims: Vec<FactClaim>,
    pub confidence_ppm: i64,
    pub uncertainty_ppm: i64,
    pub as_of_ts_ms: i64,
    pub provenance: Vec<Provenance>,
}

/// How research can fail.
#[derive(Debug)]
pub enum ResearchError {
    ApiError(String),
    HttpStatus { status: u16, body: String },
    JsonError(String),
    Timeout,
    SchemaValidationFailed(String),
}

/// The text of a research error.
pub open spec fn research_error_text(e: ResearchError) -> Seq<char> {
    match e {
        ResearchError::ApiError(m) => "API request failed: "@ + m@,
        ResearchError::HttpStatus { status, body } => "HTTP status "@ + crate::text::decimal(
            status as int,
        ) + ": "@ + body@,
        ResearchError::JsonError(m) => "JSON parsing failed: "@ + m@,
        ResearchError::Timeout => "Timeout"@,
        ResearchError::SchemaValidationFailed(m) => "Schema validation failed: "@ + m@,
    }
}

/// The code under which a research error is journaled.
pub open spec fn research_error_code_text(e: ResearchError) -> Seq<char> {
    match e {
        ResearchError::Timeout => "RESEARCH_TIMEOUT"@,
        ResearchError::SchemaValidationFailed(_) => "RESEARCH_SCHEMA_REJECT"@,
        ResearchError::HttpStatus { .. } => "RESEARCH_HTTP_ERROR"@,
        ResearchError::ApiError(_) => "RESEARCH_API_ERROR"@,
        ResearchError::JsonError(_) => "RESEARCH_JSON_ERROR"@,
    }
}

impl ResearchError {
    /// The text of the error.
    pub fn to_string(&self) -> (s: String)
        ensures
            s@ == research_error_text(*self),
    {
        match self {
            ResearchError::ApiError(m) => {
                let mut s = String::from_str("API request failed: ");
                push_text(&mut s, m.as_str());
                s
            },
            ResearchError::HttpStatus { status, body } => {
                let mut s = String::from_str("HTTP status ");
                push_decimal(&mut s, *status as i128);
                push_text(&mut s, ": ");
                push_text(&mut s, body.as_str());
                s
            },
            ResearchError::JsonError(m) => {
                let mut s = String::from_str("JSON parsing failed: ");
                push_text(&mut s, m.as_str());
                s
            },
            ResearchError::Timeout => String::from_str("Timeout"),
            ResearchError::SchemaValidationFailed(m) => {
                let mut s = String::from_str("Schema validation failed: ");
                push_text(&mut s, m.as_str());
                s
            },
        }
    }
}

/// The code under which a research error is journaled.
pub fn research_error_code(err: &ResearchError) -> (code: &'static str)
    ensures
        code@ == research_error_code_text(*err),
{
    match err {
        ResearchError::Timeout => "RESEARCH_TIMEOUT",
        ResearchError::SchemaValidationFailed(_) => "RESEARCH_SCHEMA_REJECT",
        ResearchError::HttpStatus { .. } => "RESEARCH_HTTP_ERROR",
        ResearchError::ApiError(_) => "RESEARCH_API_ERROR",
        ResearchError::JsonError(_) => "RESEARCH_JSON_ERROR",
    }
}

/// The position of a level on the scale from low to critical.
pub open spec fn risk_rank(level: RiskLevel) -> int {
    match level {
        RiskLevel::Low => 0,
        RiskLevel::Medium => 1,
        RiskLevel::High => 2,
        RiskLevel::Critical => 3,
    }
}

/// The name of a level.
pub open spec fn risk_level_name(level: RiskLevel) -> Seq<char> {
    match level {
        RiskLevel::Low => "Low"@,
        RiskLevel::Medium => "Medium"@,
        RiskLevel::High => "High"@,
        RiskLevel::Critical => "Critical"@,
    }
}

/// The level named by a text, trimmed and in small letters.
pub open spec fn risk_level_named(raw: Seq<char>) -> Option<RiskLevel> {
    let v = ascii_lower(trimmed(raw));
    if v == "low"@ {
        Some(RiskLevel::Low)
    } else if v == "medium"@ {
        Some(RiskLevel::Medium)
    } else if v == "high"@ {
        Some(RiskLevel::High)
    } else if v == "critical"@ {
        Some(RiskLevel::Critical)
    } else {
        None
    }
}

/// The text that reports a level that cannot be read.
pub open spec fn invalid_risk_level_text(raw: Seq<char>) -> Seq<char> {
    "invalid research.rules_risk_veto_level '"@ + ascii_lower(trimmed(raw))
        + "'; expected low|medium|high|critical"@
}

impl RiskLevel {
    /// The position of the level on the scale from low to critical.
    pub fn rank(&self) -> (r: u8)
        ensures
            r == risk_rank(*self),
    {
        match self {
            RiskLevel::Low => 0,
            RiskLevel::Medium => 1,
            RiskLevel::High => 2,
            RiskLevel::Critical => 3,
        }
    }

    /// The name of the level.
    pub fn name(&self) -> (n: &'static str)
        ensures
            n@ == risk_level_name(*self),
    {
        match self {
            RiskLevel::Low => "Low",
            RiskLevel::Medium => "Medium",
            RiskLevel::High => "High",
            RiskLevel::Critical => "Critical",
        }
    }
}

/// Reads a risk level from text.
pub fn parse_risk_level(raw: &str) -> (r: Result<RiskLevel, String>)
    ensures
        match r {
            Ok(level) => risk_level_named(raw@) == Some(level),
            Err(message) => risk_level_named(raw@) is None && message@ == invalid_risk_level_text(
                raw@,
            ),
        },
{
    let v = ascii_lower_chars(&trim_chars(&chars_of(raw)));
    if same_chars(&v, &chars_of("low")) {
        Ok(RiskLevel::Low)
    } else if same_chars(&v, &chars_of("medium")) {
        Ok(RiskLevel::Medium)
    } else if same_chars(&v, &chars_of("high")) {
        Ok(RiskLevel::High)
    } else if same_chars(&v, &chars_of("critical")) {
        Ok(RiskLevel::Critical)
    } else {
        let mut m = String::from_str("invalid research.rules_risk_veto_level '");
        let shown = crate::text::string_of(&v);
        push_text(&mut m, shown.as_str());
        push_text(&mut m, "'; expected low|medium|high|critical");
        Err(m)
    }
}

/// A number of millionths between zero and one.
pub open spec fn unit_ppm(v: int) -> bool {
    0 <= v <= 1_000_000
}

/// `prefix` stands at the start of `text`.
pub open spec fn starts_with(text: Seq<char>, prefix: Seq<char>) -> bool {
    prefix.len() <= text.len() && text.take(prefix.len() as int) == prefix
}

/// Some allowed prefix stands at the start of `url`.
pub open spec fn allow_listed(url: Seq<char>, allowed: Seq<Seq<char>>) -> bool {
    exists|i: int| 0 <= i < allowed.len() && starts_with(url, #[trigger] allowed[i])
}

/// `url` is the address of some source.
pub open spec fn in_provenance(url: Seq<char>, provenance: Seq<Provenance>) -> bool {
    exists|i: int| 0 <= i < provenance.len() && (#[trigger] provenance[i]).url@ == url
}

/// What is wrong with the first claim whose score is out of range.
pub open spec fn score_issue(claims: Seq<FactClaim>) -> Option<Seq<char>>
    decreases claims.len(),
{
    if claims.len() == 0 {
        None
    } else if !unit_ppm(claims[0].verifiability_score_ppm as int) {
        Some("verifiability_score out of range for claim: "@ + claims[0].claim@)
    } else {
        score_issue(claims.drop_first())
    }
}

/// What is wrong with the source of one claim: it must be among the
/// sources consulted and, if there is an allow-list, start with an allowed
/// prefix.
pub open spec fn source_issue_of(
    claim: FactClaim,
    provenance: Seq<Provenance>,
    allowed: Seq<Seq<char>>,
) -> Option<Seq<char>> {
    match claim.source_url {
        None => None,
        Some(url) => {
            if !in_provenance(url@, provenance) {
                Some("claim source_url missing from provenance: "@ + url@)
            } else if allowed.len() > 0 && !allow_listed(url@, allowed) {
                Some("claim source_url not whitelisted: "@ + url@)
            } else {
                None
            }
        },
    }
}

/// What is wrong with the first claim whose source fails.
pub open spec fn source_issue(
    claims: Seq<FactClaim>,
    provenance: Seq<Provenance>,
    allowed: Seq<Seq<char>>,
) -> Option<Seq<char>>
    decreases claims.len(),
{
    if claims.len() == 0 {
        None
    } else if source_issue_of(claims[0], provenance, allowed) is Some {
        source_issue_of(claims[0], provenance, allowed)
    } else {
        source_issue(claims.drop_first(), provenance, allowed)
    }
}

/// The first thing that is wrong with a response, if anything is.
pub open spec fn response_issue(request: ResearchRequest, response: ResearchResponse) -> Option<
    Seq<char>,
> {
    if !unit_ppm(response.confidence_ppm as int) {
        Some("confidence must be in [0,1]"@)
    } else if !unit_ppm(response.uncertainty_ppm as int) {
        Some("uncertainty must be in [0,1]"@)
    } else if response.as_of_ts_ms <= 0 {
        Some("as_of_ts_ms must be positive"@)
    } else if response.fact_claims@.len() > 0 && response.provenance@.len() == 0 {
        Some("fact_claims require provenance"@)
    } else if score_issue(response.fact_claims@) is Some {
        score_issue(response.fact_claims@)
    } else {
        source_issue(response.fact_claims@, response.provenance@, texts(request.allowed_urls@))
    }
}

fn has_prefix(text: &Vec<char>, prefix: &Vec<char>) -> (r: bool)
    ensures
        r == starts_with(text@, prefix@),
{
    if prefix.len() > text.len() {
        return false;
    }
    let mut i: usize = 0;
    while i < prefix.len()
        invariant
            i <= prefix.len() <= text.len(),
            forall|k: int| 0 <= k < i ==> text@[k] == prefix@[k],
        decreases prefix.len() - i,
    {
        if text[i] != prefix[i] {
            assert(text@.take(prefix@.len() as int)[i as int] != prefix@[i as int]);
            return false;
        }
        i += 1;
    }
    assert(text@.take(prefix@.len() as int) =~= prefix@);
    true
}

fn is_allow_listed(url: &str, allowed: &Vec<String>) -> (r: bool)
    ensures
        r == allow_listed(url@, texts(allowed@)),
{
    let u = chars_of(url);
    let mut i: usize = 0;
    while i < allowed.len()
        invariant
            i <= allowed.len(),
            u@ == url@,
            forall|k: int| 0 <= k < i ==> !starts_with(url@, #[trigger] texts(allowed@)[k]),
        decreases allowed.len() - i,
    {
        let prefix = chars_of(allowed[i].as_str());
        assert(texts(allowed@)[i as int] == prefix@);
        if has_prefix(&u, &prefix) {
            return true;
        }
        i += 1;
    }
    false
}

fn is_in_provenance(url: &str, provenance: &Vec<Provenance>) -> (r: bool)
    ensures
        r == in_provenance(url@, provenance@),
{
    let mut i: usize = 0;
    while i < provenance.len()
        invariant
            i <= provenance.len(),
            forall|k: int| 0 <= k < i ==> (#[trigger] provenance@[k]).url@ != url@,
        decreases provenance.len() - i,
    {
        if same_text(provenance[i].url.as_str(), url) {
            return true;
        }
        i += 1;
    }
    false
}

fn rejected(message: String) -> (r: Result<(), ResearchError>)
    ensures
        r matches Err(e) && (e matches ResearchError::SchemaValidationFailed(m) && m@ == message@),
{
    Err(ResearchError::SchemaValidationFailed(message))
}

fn labelled(label: &str, detail: &str) -> (s: String)
    ensures
        s@ == label@ + detail@,
{
    let mut s = String::from_str(label);
    push_text(&mut s, detail);
    s
}

/// Validates a response against its request: confidence, uncertainty
/// and every score lie between zero and one; the time of the research
/// is positive; claims come with sources; and every source named by a
/// claim was consulted and is allowed.
#[verifier::loop_isolation(false)]
pub fn validate_research_response(request: &ResearchRequest, response: &ResearchResponse) -> (r:
    Result<(), ResearchError>)
    ensures
        match r {
            Ok(()) => response_issue(*request, *response) is None,
            Err(e) => response_issue(*request, *response) is Some && (e matches ResearchError::SchemaValidationFailed(
                m,
            ) && m@ == response_issue(*request, *response)->0),
        },
{
    if response.confidence_ppm < 0 || response.confidence_ppm > 1_000_000 {
        return rejected(String::from_str("confidence must be in [0,1]"));
    }
    if response.uncertainty_ppm < 0 || response.uncertainty_ppm > 1_000_000 {
        return rejected(String::from_str("uncertainty must be in [0,1]"));
    }
    if response.as_of_ts_ms <= 0 {
        return rejected(String::from_str("as_of_ts_ms must be positive"));
    }
    if response.fact_claims.len() > 0 && response.provenance.len() == 0 {
        return rejected(String::from_str("fact_claims require provenance"));
    }
    let claims = &response.fact_claims;
    let mut i: usize = 0;
    assert(claims@.skip(0) =~= claims@);
    while i < claims.len()
        invariant
            i <= claims.len(),
            score_issue(claims@) == score_issue(claims@.skip(i as int)),
        decreases claims.len() - i,
    {
        assert(claims@.skip(i as int)[0] == claims@[i as int]);
        assert(claims@.skip(i as int).drop_first() =~= claims@.skip(i + 1));
        let score = claims[i].verifiability_score_ppm;
        if score < 0 || score > 1_000_000 {
            return rejected(
                labelled("verifiability_score out of range for claim: ", claims[i].claim.as_str()),
            );
        }
        i += 1;
    }
    let ghost allowed = texts(request.allowed_urls@);
    let mut j: usize = 0;
    while j < claims.len()
        invariant
            j <= claims.len(),
            allowed == texts(request.allowed_urls@),
            score_issue(claims@) is None,
            source_issue(claims@, response.provenance@, allowed) == source_issue(
                claims@.skip(j as int),
                response.provenance@,
                allowed,
            ),
        decreases claims.len() - j,
    {
        assert(claims@.skip(j as int)[0] == claims@[j as int]);
        assert(claims@.skip(j as int).drop_first() =~= claims@.skip(j + 1));
        match &claims[j].source_url {
            Some(url) => {
                if !is_in_provenance(url.as_str(), &response.provenance) {
                    return rejected(
                        labelled("claim source_url missing from provenance: ", url.as_str()),
                    );
                }
                if request.allowed_urls.len() > 0 && !is_allow_listed(
                    url.as_str(),
                    &request.allowed_urls,
                ) {
                    return rejected(labelled("claim source_url not whitelisted: ", url.as_str()));
                }
            },
            None => {},
        }
        j += 1;
    }
    Ok(())
}

/// Research is stale when more than the budget has passed since it was
/// done.
pub open spec fn research_stale(now_ms: int, as_of_ts_ms: int, budget_ms: int) -> bool {
    now_ms - as_of_ts_ms > budget_ms
}

/// Whether research done at `as_of_ts_ms` is stale at `now_ms`.
pub fn is_research_stale(now_ms: i64, as_of_ts_ms: i64, budget_ms: i64) -> (stale: bool)
    ensures
        stale == research_stale(now_ms as int, as_of_ts_ms as int, budget_ms as int),
{
    now_ms as i128 - as_of_ts_ms as i128 > budget_ms as i128
}

} // verus!
