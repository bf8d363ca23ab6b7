//! What the research transport decides between its calls: whether a
//! failed request is tried again and after how long, which part of a
//! reply is the JSON object, and when a workflow has ended badly.

use crate::rules::research::ResearchError;
use crate::text::{ascii_lower, chars_of, eq_ignore_ascii_case, string_of};
use vstd::prelude::*;

verus! {

/// The pause before the first retry, in milliseconds. Each further pause
/// is twice as long as the one before.
pub const RETRY_STEP_MS: u64 = 150;

/// The longest pause before a retry, in milliseconds.
pub const RETRY_CAP_MS: u64 = 60_000;

/// How a request failed.
#[derive(Debug)]
pub enum TransportFailure {
    /// The provider answered with a status that is no success.
    Status { status: u16, body: String },
    /// No answer came in time.
    TimedOut,
    /// The request could not be delivered.
    Unreachable(String),
}

/// What to do after a failed request.
#[derive(Debug)]
pub enum RetryStep {
    /// Try again after this many milliseconds.
    RetryAfter(u64),
    /// Give up with this error.
    GiveUp(ResearchError),
}

/// Whether a failure is worth another try: a status only when it is 429.
pub open spec fn is_transient(failure: TransportFailure) -> bool {
    match failure {
        TransportFailure::Status { status, .. } => status == 429,
        TransportFailure::TimedOut => true,
        TransportFailure::Unreachable(_) => true,
    }
}

/// Whether `e` is the error that stands for `failure`.
pub open spec fn reports(e: ResearchError, failure: TransportFailure) -> bool {
    match failure {
        TransportFailure::Status { status, body } => e matches ResearchError::HttpStatus {
            status: s,
            body: b,
        } && s == status && b@ == body@,
        TransportFailure::TimedOut => e is Timeout,
        TransportFailure::Unreachable(m) => e matches ResearchError::ApiError(t) && t@ == m@,
    }
}

/// The pause before the retry that follows `attempt` retries: the first
/// pause doubled that many times, and at most the longest pause.
pub open spec fn retry_pause(attempt: nat) -> int
    decreases attempt,
{
    if attempt == 0 {
        RETRY_STEP_MS as int
    } else if 2 * retry_pause((attempt - 1) as nat) >= RETRY_CAP_MS {
        RETRY_CAP_MS as int
    } else {
        2 * retry_pause((attempt - 1) as nat)
    }
}

/// Once the pauses have reached the longest pause they stay there.
pub proof fn lemma_pause_stays_capped(from: nat, to: nat)
    requires
        from <= to,
        retry_pause(from) == RETRY_CAP_MS,
    ensures
        retry_pause(to) == RETRY_CAP_MS,
    decreases to,
{
    if from < to {
        lemma_pause_stays_capped(from, (to - 1) as nat);
    }
}

/// Every pause lies between the first and the longest, and no pause is
/// shorter than the one before it.
pub proof fn lemma_pause_bounded(attempt: nat)
    ensures
        RETRY_STEP_MS <= retry_pause(attempt) <= RETRY_CAP_MS,
        attempt > 0 ==> retry_pause((attempt - 1) as nat) <= retry_pause(attempt),
    decreases attempt,
{
    if attempt > 0 {
        lemma_pause_bounded((attempt - 1) as nat);
    }
}

/// The pause before the retry that follows `attempt` retries, in
/// milliseconds.
pub fn pause_before_retry(attempt: u32) -> (ms: u64)
    ensures
        ms == retry_pause(attempt as nat),
        RETRY_STEP_MS <= ms <= RETRY_CAP_MS,
{
    let mut ms: u64 = RETRY_STEP_MS;
    let mut done: u32 = 0;
    while done < attempt && ms < RETRY_CAP_MS
        invariant
            done <= attempt,
            ms == retry_pause(done as nat),
            RETRY_STEP_MS <= ms <= RETRY_CAP_MS,
        decreases attempt - done,
    {
        ms = if 2 * ms >= RETRY_CAP_MS {
            RETRY_CAP_MS
        } else {
            2 * ms
        };
        done += 1;
    }
    proof {
        if done < attempt {
            lemma_pause_stays_capped(done as nat, attempt as nat);
        }
    }
    ms
}

/// Decides what follows a failed request after `attempt` retries, with
/// at most `max_retries` allowed: a transient failure is tried again
/// while retries are left, after a pause that doubles with each retry up
/// to the longest pause; anything else is given up with the error that
/// stands for it.
pub fn after_failure(failure: TransportFailure, attempt: u32, max_retries: u32) -> (step: RetryStep)
    ensures
        match step {
            RetryStep::RetryAfter(ms) => is_transient(failure) && attempt < max_retries && ms
                == retry_pause(attempt as nat),
            RetryStep::GiveUp(e) => !(is_transient(failure) && attempt < max_retries) && reports(
                e,
                failure,
            ),
        },
{
    let transient = match &failure {
        TransportFailure::Status { status, .. } => *status == 429,
        _ => true,
    };
    if transient && attempt < max_retries {
        return RetryStep::RetryAfter(pause_before_retry(attempt));
    }
    match failure {
        TransportFailure::Status { status, body } => RetryStep::GiveUp(
            ResearchError::HttpStatus { status, body },
        ),
        TransportFailure::TimedOut => RetryStep::GiveUp(ResearchError::Timeout),
        TransportFailure::Unreachable(m) => RetryStep::GiveUp(ResearchError::ApiError(m)),
    }
}

/// Where the first opening brace stands; the length of the text when it
/// holds none.
pub open spec fn first_open(text: Seq<char>) -> int
    decreases text.len(),
{
    if text.len() == 0 || text[0] == '{' {
        0
    } else {
        1 + first_open(text.drop_first())
    }
}

/// The place just behind the last closing brace; zero when the text
/// holds none.
pub open spec fn after_last_close(text: Seq<char>) -> int
    decreases text.len(),
{
    if text.len() == 0 {
        0
    } else if text.last() == '}' {
        text.len() as int
    } else {
        after_last_close(text.drop_last())
    }
}

/// Where the object of a reply begins: at its first opening brace, or at
/// the start when it has none.
pub open spec fn span_start(text: Seq<char>) -> int {
    if first_open(text) == text.len() {
        0
    } else {
        first_open(text)
    }
}

/// Where the object of a reply ends: behind its last closing brace, or
/// at the end when it has none.
pub open spec fn span_end(text: Seq<char>) -> int {
    if after_last_close(text) == 0 {
        text.len() as int
    } else {
        after_last_close(text)
    }
}

/// The part of a reply that is taken for its JSON object. It is empty
/// when the last closing brace stands before the first opening one.
pub open spec fn object_span(text: Seq<char>) -> Seq<char> {
    if 0 <= span_start(text) <= span_end(text) <= text.len() {
        text.subrange(span_start(text), span_end(text))
    } else {
        Seq::empty()
    }
}

proof fn lemma_first_open_bounds(text: Seq<char>)
    ensures
        0 <= first_open(text) <= text.len(),
    decreases text.len(),
{
    if text.len() > 0 && text[0] != '{' {
        lemma_first_open_bounds(text.drop_first());
    }
}

proof fn lemma_after_last_close_bounds(text: Seq<char>)
    ensures
        0 <= after_last_close(text) <= text.len(),
    decreases text.len(),
{
    if text.len() > 0 && text.last() != '}' {
        lemma_after_last_close_bounds(text.drop_last());
    }
}

/// The part of a reply between its first opening brace and its last
/// closing brace, both included.
pub fn extract_object(text: &str) -> (r: String)
    ensures
        r@ == object_span(text@),
{
    let chars = chars_of(text);
    let n = chars.len();
    let mut start: usize = 0;
    assert(chars@.skip(0) =~= chars@);
    while start < n && chars[start] != '{'
        invariant
            n == chars.len(),
            start <= n,
            first_open(chars@) == start + first_open(chars@.skip(start as int)),
        decreases n - start,
    {
        assert(chars@.skip(start as int)[0] == chars@[start as int]);
        assert(chars@.skip(start as int).drop_first() =~= chars@.skip(start + 1));
        start += 1;
    }
    proof {
        let rest = chars@.skip(start as int);
        if start < n {
            assert(rest[0] == chars@[start as int]);
        }
        assert(first_open(rest) == 0);
    }
    if start == n {
        start = 0;
    }
    let mut end: usize = n;
    assert(chars@.take(n as int) =~= chars@);
    while end > 0 && chars[end - 1] != '}'
        invariant
            n == chars.len(),
            end <= n,
            after_last_close(chars@) == after_last_close(chars@.take(end as int)),
        decreases end,
    {
        assert(chars@.take(end as int).last() == chars@[end - 1]);
        assert(chars@.take(end as int).drop_last() =~= chars@.take(end - 1));
        end -= 1;
    }
    proof {
        let head = chars@.take(end as int);
        if end > 0 {
            assert(head.last() == chars@[end - 1]);
        }
        assert(after_last_close(head) == end);
        lemma_first_open_bounds(chars@);
        lemma_after_last_close_bounds(chars@);
    }
    if end == 0 {
        end = n;
    }
    let mut out: Vec<char> = Vec::new();
    if start <= end {
        let mut i: usize = start;
        assert(chars@.subrange(start as int, start as int) =~= Seq::<char>::empty());
        while i < end
            invariant
                start <= i <= end <= chars.len(),
                out@ == chars@.subrange(start as int, i as int),
            decreases end - i,
        {
            out.push(chars[i]);
            assert(chars@.subrange(start as int, i + 1) =~= chars@.subrange(
                start as int,
                i as int,
            ).push(chars@[i as int]));
            i += 1;
        }
    }
    string_of(&out)
}

/// The statuses with which a workflow ends without a result.
pub open spec fn is_failed_status(status: Seq<char>) -> bool {
    let s = ascii_lower(status);
    s == ascii_lower("failed"@) || s == ascii_lower("error"@) || s == ascii_lower("terminated"@)
        || s == ascii_lower("canceled"@)
}

/// Whether a workflow with this status has ended without a result,
/// capitals and small letters alike.
pub fn workflow_failed(status: &str) -> (r: bool)
    ensures
        r == is_failed_status(status@),
{
    eq_ignore_ascii_case(status, "failed") || eq_ignore_ascii_case(status, "error")
        || eq_ignore_ascii_case(status, "terminated") || eq_ignore_ascii_case(status, "canceled")
}

} // verus!
