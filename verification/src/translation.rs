//! Japanese to Vietnamese translation through a local Ollama server: the request
//! prompt, the reading of the server's reply, the retry policy and the circuit
//! breaker that stops calling a failing server for a while.
//!
//! Time is measured in milliseconds of a monotonic clock that the caller reads.
use crate::text::{chars_of, trim, trim_str};
use std::collections::{HashMap, VecDeque};
use vstd::prelude::*;

verus! {

broadcast use {vstd::string::group_string_axioms, vstd::std_specs::hash::group_hash_axioms};

/// The Ollama model used for translation.
pub const DEFAULT_QWEN_MODEL: &'static str = "qwen2.5:7b";

/// How many times one text is sent to Ollama at most.
pub const MAX_TRANSLATION_ATTEMPTS: u32 = 3;

/// The wait before the first retry; each further retry waits twice as long.
pub const RETRY_BASE_BACKOFF_MS: u64 = 250;

/// How many failed translations in a row open the circuit breaker.
pub const CIRCUIT_BREAKER_FAILURE_THRESHOLD: u32 = 5;

/// How long the circuit breaker stays open, in seconds.
pub const CIRCUIT_BREAKER_OPEN_SECS: u64 = 20;

/// How long the circuit breaker stays open, in milliseconds.
pub open spec fn open_period_ms() -> int {
    20000
}

/// The decimal digits of `n`, as `u64::to_string` writes them.
pub open spec fn decimal(n: nat) -> Seq<char>
    decreases n,
{
    if n < 10 {
        seq![((48 + n) as u8) as char]
    } else {
        decimal(n / 10).push(((48 + n % 10) as u8) as char)
    }
}

/// `u64::to_string`: the decimal digits of the number, without sign or leading zeros.
#[verifier::external_body]
pub(crate) fn u64_to_decimal(n: u64) -> (s: String)
    ensures
        s@ == decimal(n as nat),
{
    n.to_string()
}

/// The model name used for translation.
pub fn model_name() -> (r: &'static str)
    ensures
        r@ == "qwen2.5:7b"@,
{
    DEFAULT_QWEN_MODEL
}

/// The text sent to the model for a Japanese source text.
pub open spec fn translation_prompt(source: Seq<char>) -> Seq<char> {
    "You are a professional Japanese to Vietnamese translator. Translate naturally and accurately into Vietnamese. Preserve meaning, names, and numbers. Output only Vietnamese text with no explanations.\n\nJapanese:\n"@
        + source + "\n\nVietnamese:"@
}

/// The text sent to the model for a Japanese source text.
pub fn build_translation_prompt(source_text: &str) -> (r: String)
    ensures
        r@ == translation_prompt(source_text@),
{
    String::from_str(
        "You are a professional Japanese to Vietnamese translator. Translate naturally and accurately into Vietnamese. Preserve meaning, names, and numbers. Output only Vietnamese text with no explanations.\n\nJapanese:\n",
    ).concat(source_text).concat("\n\nVietnamese:")
}

/// The text that is translated: the request without surrounding white space,
/// refused when nothing is left.
pub fn prepare_translation_source(source_text: &str) -> (r: Result<String, String>)
    ensures
        match r {
            Ok(t) => t@ == trim(source_text@) && t@.len() > 0,
            Err(m) => trim(source_text@).len() == 0 && m@ == "Source text is empty"@,
        },
{
    let trimmed = trim_str(source_text);
    if trimmed.as_str().is_empty() {
        Err(String::from_str("Source text is empty"))
    } else {
        Ok(trimmed)
    }
}

/// A failed translation attempt, and whether trying again may help.
#[derive(Debug, Clone, PartialEq, Eq)]
pub struct TranslationFailure {
    pub message: String,
    pub retryable: bool,
}

impl TranslationFailure {
    pub fn retryable(message: String) -> (r: Self)
        ensures
            r.message == message,
            r.retryable,
    {
        TranslationFailure { message, retryable: true }
    }

    pub fn non_retryable(message: String) -> (r: Self)
        ensures
            r.message == message,
            !r.retryable,
    {
        TranslationFailure { message, retryable: false }
    }
}

/// The fields of Ollama's JSON reply that the translation reads.
#[derive(Debug, Clone, PartialEq, Eq)]
pub struct OllamaReply {
    pub response: Option<String>,
    pub error: Option<String>,
}

/// An HTTP status in the 2xx range.
pub open spec fn is_success_status(status: u16) -> bool {
    200 <= status <= 299
}

/// A failure with this HTTP status may go away on its own: a server error (5xx)
/// or "too many requests" (429).
pub open spec fn is_retryable_status(status: u16) -> bool {
    (500 <= status <= 599) || status == 429
}

/// What a reply of Ollama amounts to, given its HTTP status, the status as text,
/// its body, and the body read as JSON (or the reason it could not be).
pub open spec fn ollama_reply_outcome(
    status: u16,
    status_text: Seq<char>,
    body: Seq<char>,
    parsed: Result<(Option<Seq<char>>, Option<Seq<char>>), Seq<char>>,
) -> Result<Seq<char>, (Seq<char>, bool)> {
    if !is_success_status(status) {
        match parsed {
            Ok((_, Some(e))) => Err(("Ollama translation failed: "@ + e, is_retryable_status(status))),
            _ => Err(
                (
                    "Ollama translation failed with status "@ + status_text + ": "@ + trim(body),
                    is_retryable_status(status),
                ),
            ),
        }
    } else {
        match parsed {
            Err(e) => Err(("Invalid Ollama JSON response: "@ + e, true)),
            Ok((_, Some(e))) => Err(("Ollama translation failed: "@ + e, false)),
            Ok((response, None)) => {
                let t = match response {
                    Some(r) => trim(r),
                    None => Seq::empty(),
                };
                if t.len() == 0 {
                    Err(("Qwen returned an empty translation"@, false))
                } else {
                    Ok(t)
                }
            },
        }
    }
}

/// The reply as the outcome function reads it.
pub open spec fn reply_view(parsed: Result<OllamaReply, String>) -> Result<(Option<Seq<char>>, Option<Seq<char>>), Seq<char>> {
    match parsed {
        Ok(r) => Ok((
            match r.response {
                Some(s) => Some(s@),
                None => None,
            },
            match r.error {
                Some(s) => Some(s@),
                None => None,
            },
        )),
        Err(e) => Err(e@),
    }
}

/// Reads a reply of Ollama: the translation, or why there is none and whether
/// asking again may help.
pub fn interpret_ollama_reply(
    status: u16,
    status_text: &str,
    body: &str,
    parsed: &Result<OllamaReply, String>,
) -> (r: Result<String, TranslationFailure>)
    ensures
        match r {
            Ok(t) => ollama_reply_outcome(status, status_text@, body@, reply_view(*parsed)) == Ok::<
                Seq<char>,
                (Seq<char>, bool),
            >(t@),
            Err(f) => ollama_reply_outcome(status, status_text@, body@, reply_view(*parsed))
                == Err::<Seq<char>, (Seq<char>, bool)>((f.message@, f.retryable)),
        },
{
    if !(200 <= status && status <= 299) {
        let retryable_status = (500 <= status && status <= 599) || status == 429;
        if let Ok(reply) = parsed {
            if let Some(e) = &reply.error {
                return Err(
                    TranslationFailure {
                        message: String::from_str("Ollama translation failed: ").concat(e.as_str()),
                        retryable: retryable_status,
                    },
                );
            }
        }
        let trimmed_body = trim_str(body);
        return Err(
            TranslationFailure {
                message: String::from_str("Ollama translation failed with status ").concat(
                    status_text,
                ).concat(": ").concat(trimmed_body.as_str()),
                retryable: retryable_status,
            },
        );
    }
    match parsed {
        Err(e) => Err(
            TranslationFailure::retryable(
                String::from_str("Invalid Ollama JSON response: ").concat(e.as_str()),
            ),
        ),
        Ok(reply) => {
            if let Some(e) = &reply.error {
                return Err(
                    TranslationFailure::non_retryable(
                        String::from_str("Ollama translation failed: ").concat(e.as_str()),
                    ),
                );
            }
            let translated = match &reply.response {
                Some(text) => trim_str(text.as_str()),
                None => String::new(),
            };
            if translated.as_str().is_empty() {
                Err(
                    TranslationFailure::non_retryable(
                        String::from_str("Qwen returned an empty translation"),
                    ),
                )
            } else {
                Ok(translated)
            }
        },
    }
}

/// Only a 2xx reply can give a translation. A reply with another status is a
/// failure whatever its body holds, and that failure is worth retrying exactly
/// when the status is a server error (500 to 599) or 429 "too many requests".
/// A 2xx reply whose body is not JSON is retried; one that carries an error, or
/// no text beside white space, is not. An error that Ollama names is reported
/// after "Ollama translation failed: ", whatever the status.
pub proof fn law_reply_failures_and_retries(
    status: u16,
    status_text: Seq<char>,
    body: Seq<char>,
    parsed: Result<(Option<Seq<char>>, Option<Seq<char>>), Seq<char>>,
)
    ensures
        !(200 <= status <= 299) ==> {
            &&& ollama_reply_outcome(status, status_text, body, parsed) is Err
            &&& ollama_reply_outcome(status, status_text, body, parsed)->Err_0.1 == ((500 <= status
                <= 599) || status == 429)
        },
        (200 <= status <= 299 && parsed is Err) ==> {
            &&& ollama_reply_outcome(status, status_text, body, parsed) is Err
            &&& ollama_reply_outcome(status, status_text, body, parsed)->Err_0.1
        },
        (200 <= status <= 299 && parsed is Ok && parsed->Ok_0.1 is Some) ==> {
            &&& ollama_reply_outcome(status, status_text, body, parsed) is Err
            &&& !ollama_reply_outcome(status, status_text, body, parsed)->Err_0.1
        },
        (parsed is Ok && parsed->Ok_0.1 is Some) ==> ollama_reply_outcome(
            status,
            status_text,
            body,
            parsed,
        )->Err_0.0 == "Ollama translation failed: "@ + parsed->Ok_0.1->Some_0,
        ollama_reply_outcome(status, status_text, body, parsed) is Ok <==> {
            &&& 200 <= status <= 299
            &&& parsed is Ok
            &&& parsed->Ok_0.1 is None
            &&& parsed->Ok_0.0 is Some
            &&& trim(parsed->Ok_0.0->Some_0).len() > 0
        },
        ollama_reply_outcome(status, status_text, body, parsed) is Ok ==> ollama_reply_outcome(
            status,
            status_text,
            body,
            parsed,
        )->Ok_0 == trim(parsed->Ok_0.0->Some_0),
{
}

/// What to do after a failed attempt.
#[derive(Debug, Clone, Copy, PartialEq, Eq, Structural)]
pub enum RetryDecision {
    /// Report the failure.
    GiveUp,
    /// Wait this many milliseconds, then try again.
    RetryAfterMs(u64),
}

/// The wait before retrying after failed attempt number `attempt`: 250 ms,
/// doubled for each earlier failed attempt.
pub open spec fn backoff_ms(attempt: int) -> int
    decreases attempt,
{
    if attempt <= 1 {
        250
    } else {
        2 * backoff_ms(attempt - 1)
    }
}

/// After failed attempt number `attempt` (counting from 1): give up when the
/// failure is not retryable or the attempts are used up, else wait and retry.
pub fn retry_decision(attempt: u32, failure: &TranslationFailure) -> (r: RetryDecision)
    requires
        1 <= attempt <= MAX_TRANSLATION_ATTEMPTS,
    ensures
        (!failure.retryable || attempt == MAX_TRANSLATION_ATTEMPTS) ==> r == RetryDecision::GiveUp,
        (failure.retryable && attempt < MAX_TRANSLATION_ATTEMPTS) ==> r == RetryDecision::RetryAfterMs(
            backoff_ms(attempt as int) as u64,
        ),
{
    if !failure.retryable || attempt == MAX_TRANSLATION_ATTEMPTS {
        RetryDecision::GiveUp
    } else {
        let shift = attempt - 1;
        let factor: u64 = if shift == 0 {
            1
        } else {
            2
        };
        proof {
            reveal_with_fuel(backoff_ms, 3);
        }
        RetryDecision::RetryAfterMs(RETRY_BASE_BACKOFF_MS * factor)
    }
}

/// The error reported when every attempt failed without a message of its own.
pub open spec fn unknown_translation_error() -> Seq<char> {
    "Unknown translation error"@
}

/// The circuit breaker in front of the translation server: after
/// `CIRCUIT_BREAKER_FAILURE_THRESHOLD` failed translations in a row it opens and
/// refuses requests for `CIRCUIT_BREAKER_OPEN_SECS` seconds.
#[derive(Debug)]
pub struct CircuitBreaker {
    consecutive_failures: u32,
    open_until_ms: Option<u64>,
}

/// The state of a circuit breaker: failed translations in a row, and until when
/// (exclusive) it refuses requests, if it was opened.
pub struct BreakerView {
    pub failures: u32,
    pub open_until: Option<u64>,
}

impl View for CircuitBreaker {
    type V = BreakerView;

    closed spec fn view(&self) -> BreakerView {
        BreakerView { failures: self.consecutive_failures, open_until: self.open_until_ms }
    }
}

/// The breaker refuses requests at `now`.
pub open spec fn is_open_at(v: BreakerView, now: u64) -> bool {
    match v.open_until {
        Some(until) => now < until,
        None => false,
    }
}

/// The state after a failed translation at `now`.
pub open spec fn after_failure(v: BreakerView, now: u64) -> BreakerView {
    let f = if v.failures == u32::MAX {
        u32::MAX
    } else {
        (v.failures + 1) as u32
    };
    if f < CIRCUIT_BREAKER_FAILURE_THRESHOLD {
        BreakerView { failures: f, open_until: v.open_until }
    } else {
        BreakerView { failures: f, open_until: Some((now + open_period_ms()) as u64) }
    }
}

/// The state after a successful translation.
pub open spec fn after_success(v: BreakerView) -> BreakerView {
    BreakerView { failures: 0, open_until: v.open_until }
}

/// The state after checking at `now` whether the open period is over.
pub open spec fn after_close_check(v: BreakerView, now: u64) -> BreakerView {
    match v.open_until {
        Some(until) => if now >= until {
            BreakerView { failures: 0, open_until: None }
        } else {
            v
        },
        None => v,
    }
}

/// The message given to a request refused while the breaker is open.
pub open spec fn rejection_text(remaining_secs: nat) -> Seq<char> {
    "Translation temporarily unavailable: Ollama circuit breaker is open ("@ + decimal(
        remaining_secs,
    ) + "s remaining)"@
}

/// The whole seconds until the breaker closes, at least one.
pub open spec fn remaining_secs(until: u64, now: u64) -> nat {
    let s = (until - now) / 1000;
    if s >= 1 {
        s as nat
    } else {
        1
    }
}

/// The message given when a failure opens the breaker.
pub open spec fn degraded_text(failures: nat, error: Seq<char>) -> Seq<char> {
    "Translation degraded: Ollama had "@ + decimal(failures)
        + " consecutive failures. Circuit breaker opened for 20s. Last error: "@ + error
}

impl CircuitBreaker {
    /// A closed breaker with no failures.
    pub fn new() -> (r: Self)
        ensures
            r@ == (BreakerView { failures: 0, open_until: None }),
    {
        CircuitBreaker { consecutive_failures: 0, open_until_ms: None }
    }

    /// While the breaker is open, the message for a refused request.
    pub fn reject_message_if_open(&self, now: u64) -> (r: Option<String>)
        ensures
            r is Some <==> is_open_at(self@, now),
            r matches Some(m) ==> m@ == rejection_text(remaining_secs(self@.open_until->0, now)),
    {
        match self.open_until_ms {
            None => None,
            Some(open_until) => {
                if now >= open_until {
                    return None;
                }
                let secs = (open_until - now) / 1000;
                let shown = if secs >= 1 {
                    secs
                } else {
                    1
                };
                Some(
                    String::from_str(
                        "Translation temporarily unavailable: Ollama circuit breaker is open (",
                    ).concat(u64_to_decimal(shown).as_str()).concat("s remaining)"),
                )
            },
        }
    }

    /// Closes the breaker, forgetting the failures, once its open period is over.
    pub fn close_if_elapsed(&mut self, now: u64)
        ensures
            final(self)@ == after_close_check(old(self)@, now),
    {
        if let Some(open_until) = self.open_until_ms {
            if now >= open_until {
                self.open_until_ms = None;
                self.consecutive_failures = 0;
            }
        }
    }

    /// A translation succeeded: the failure count starts again from zero.
    pub fn on_success(&mut self)
        ensures
            final(self)@ == after_success(old(self)@),
    {
        self.consecutive_failures = 0;
    }

    /// A translation failed at `now` with `error_message`. The failure count goes
    /// up (saturating); when it reaches the threshold the breaker opens for the
    /// open period and the error is reported as degraded service.
    pub fn on_failure(&mut self, error_message: String, now: u64) -> (r: String)
        requires
            now + open_period_ms() <= u64::MAX,
        ensures
            final(self)@ == after_failure(old(self)@, now),
            final(self)@.failures < CIRCUIT_BREAKER_FAILURE_THRESHOLD ==> r == error_message,
            final(self)@.failures >= CIRCUIT_BREAKER_FAILURE_THRESHOLD ==> r@ == degraded_text(
                final(self)@.failures as nat,
                error_message@,
            ),
    {
        self.consecutive_failures = if self.consecutive_failures == u32::MAX {
            u32::MAX
        } else {
            self.consecutive_failures + 1
        };
        if self.consecutive_failures < CIRCUIT_BREAKER_FAILURE_THRESHOLD {
            return error_message;
        }
        self.open_until_ms = Some(now + CIRCUIT_BREAKER_OPEN_SECS * 1000);
        String::from_str("Translation degraded: Ollama had ").concat(
            u64_to_decimal(self.consecutive_failures as u64).as_str(),
        ).concat(" consecutive failures. Circuit breaker opened for 20s. Last error: ").concat(
            error_message.as_str(),
        )
    }

    /// A translation request arrives at `now`: refused with a message while the
    /// breaker is open; otherwise admitted, the breaker closing first if its open
    /// period is over.
    pub fn accept_request(&mut self, now: u64) -> (r: Option<String>)
        ensures
            r is Some <==> is_open_at(old(self)@, now),
            r matches Some(m) ==> m@ == rejection_text(remaining_secs(old(self)@.open_until->0, now)),
            r is Some ==> final(self)@ == old(self)@,
            r is None ==> final(self)@ == after_close_check(old(self)@, now),
    {
        if let Some(message) = self.reject_message_if_open(now) {
            return Some(message);
        }
        self.close_if_elapsed(now);
        None
    }

    /// Records how an admitted translation ended at `now` and gives the answer to
    /// send back: the translation, or the error (reported as degraded service
    /// when this failure opens the breaker).
    pub fn record_outcome(&mut self, outcome: Result<String, String>, now: u64) -> (r: Result<String, String>)
        requires
            now + open_period_ms() <= u64::MAX,
        ensures
            match outcome {
                Ok(t) => r == Ok::<String, String>(t) && final(self)@ == after_success(old(self)@),
                Err(m) => {
                    &&& final(self)@ == after_failure(old(self)@, now)
                    &&& r matches Err(e)
                    &&& final(self)@.failures < CIRCUIT_BREAKER_FAILURE_THRESHOLD ==> e == m
                    &&& final(self)@.failures >= CIRCUIT_BREAKER_FAILURE_THRESHOLD ==> e@
                        == degraded_text(final(self)@.failures as nat, m@)
                },
            },
    {
        match outcome {
            Ok(t) => {
                self.on_success();
                Ok(t)
            },
            Err(m) => Err(self.on_failure(m, now)),
        }
    }
}

/// How many earlier source texts are kept as translation context.
pub const TRANSLATION_CONTEXT_SEGMENTS: usize = 4;

/// How many characters of each context text are kept.
pub const TRANSLATION_CONTEXT_MAX_CHARS: usize = 320;

/// The texts of a list of strings.
pub open spec fn texts_of(v: Seq<String>) -> Seq<Seq<char>> {
    v.map_values(|s: String| s@)
}

/// The context after a source text was translated: its trimmed form, cut to
/// `max_chars` characters, joins the end, and the oldest texts are dropped so
/// that at most `max_segments` remain. An empty text changes nothing.
pub open spec fn context_after(
    history: Seq<Seq<char>>,
    source: Seq<char>,
    max_segments: int,
    max_chars: int,
) -> Seq<Seq<char>> {
    let t = trim(source);
    if t.len() == 0 {
        history
    } else {
        let bounded = if t.len() <= max_chars {
            t
        } else {
            t.take(max_chars)
        };
        let all = history.push(bounded);
        if all.len() > max_segments {
            all.skip(all.len() - max_segments)
        } else {
            all
        }
    }
}

/// Appends a translated source text to the context kept for the next translations.
pub fn push_translation_context_segment(
    history: &mut VecDeque<String>,
    current_source: String,
    max_segments: usize,
    max_chars_per_segment: usize,
)
    ensures
        texts_of(final(history)@) == context_after(
            texts_of(old(history)@),
            current_source@,
            max_segments as int,
            max_chars_per_segment as int,
        ),
{
    let chars = chars_of(current_source.as_str());
    let normalized = crate::text::trim_chars(&chars);
    if normalized.len() == 0 {
        return;
    }
    let keep = if normalized.len() <= max_chars_per_segment {
        normalized.len()
    } else {
        max_chars_per_segment
    };
    let bounded = crate::text::slice_chars(&normalized, 0, keep);
    let ghost t = trim(current_source@);
    assert(bounded@ == (if t.len() <= max_chars_per_segment {
        t
    } else {
        t.take(max_chars_per_segment as int)
    }));
    history.push_back(crate::text::string_from_chars(&bounded));
    let ghost all = texts_of(history@);
    assert(all =~= texts_of(old(history)@).push(bounded@));
    let ghost mut dropped: int = 0;
    while history.len() > max_segments
        invariant
            0 <= dropped <= all.len(),
            history@.len() == all.len() - dropped,
            texts_of(history@) =~= all.skip(dropped),
            dropped == 0 || all.len() - dropped >= max_segments,
        decreases history@.len(),
    {
        let ghost prev = history@;
        history.pop_front();
        proof {
            assert(texts_of(history@) =~= texts_of(prev).skip(1));
            dropped = dropped + 1;
        }
    }
}

/// The milliseconds since a translation started, read and forgotten when it ends;
/// 0 when its start was not recorded.
pub fn remove_translation_start(starts: &mut HashMap<u64, u64>, sequence_id: u64, now: u64) -> (r: u128)
    ensures
        final(starts)@ == old(starts)@.remove(sequence_id),
        old(starts)@.contains_key(sequence_id) ==> r == (if now >= old(starts)@[sequence_id] {
            now - old(starts)@[sequence_id]
        } else {
            0
        }),
        !old(starts)@.contains_key(sequence_id) ==> r == 0,
{
    match starts.remove(&sequence_id) {
        Some(started) => if now >= started {
            (now - started) as u128
        } else {
            0
        },
        None => 0,
    }
}

/// The state of the translation stage between transcripts: the recent source
/// texts given as context, and when each running translation started.
pub struct TranslationStage {
    history: VecDeque<String>,
    started: HashMap<u64, u64>,
}

impl TranslationStage {
    /// The recent source texts, oldest first.
    pub closed spec fn context(&self) -> Seq<Seq<char>> {
        texts_of(self.history@)
    }

    /// When each running translation started.
    pub closed spec fn starts(&self) -> Map<u64, u64> {
        self.started@
    }

    /// A stage with no context and no running translation.
    pub fn new() -> (r: Self)
        ensures
            r.context() == Seq::<Seq<char>>::empty(),
            r.starts() == Map::<u64, u64>::empty(),
    {
        let r = TranslationStage { history: VecDeque::new(), started: HashMap::new() };
        assert(r.context() =~= Seq::<Seq<char>>::empty());
        r
    }

    /// A transcript with sequence number `sequence_id` arrived at `now`. When it
    /// holds text, its trimmed text is to be translated with the current context,
    /// and its start time is recorded; otherwise it is skipped.
    pub fn begin(&mut self, sequence_id: u64, text: &str, now: u64) -> (r: Option<(String, Vec<String>)>)
        ensures
            final(self).context() == old(self).context(),
            trim(text@).len() == 0 ==> r is None && final(self).starts() == old(self).starts(),
            trim(text@).len() > 0 ==> {
                &&& r matches Some((source, context))
                &&& source@ == trim(text@)
                &&& texts_of(context@) == old(self).context()
                &&& final(self).starts() == old(self).starts().insert(sequence_id, now)
            },
    {
        let source = trim_str(text);
        if source.as_str().is_empty() {
            return None;
        }
        let mut context: Vec<String> = Vec::new();
        let mut i: usize = 0;
        while i < self.history.len()
            invariant
                i <= self.history@.len(),
                texts_of(context@) =~= texts_of(self.history@).take(i as int),
            decreases self.history@.len() - i,
        {
            let item = self.history[i].clone();
            assert(item == self.history@[i as int]);
            let ghost prev = context@;
            context.push(item);
            assert(texts_of(context@) =~= texts_of(prev).push(item@));
            assert(texts_of(self.history@).take(i + 1) =~= texts_of(self.history@).take(i as int).push(item@));
            i = i + 1;
        }
        self.started.insert(sequence_id, now);
        Some((source, context))
    }

    /// The translation of transcript `sequence_id` with source text `source`
    /// ended at `now`: its start is forgotten, the milliseconds it took are
    /// returned, and the source joins the context.
    pub fn finish(&mut self, sequence_id: u64, source: String, now: u64) -> (r: u128)
        ensures
            final(self).starts() == old(self).starts().remove(sequence_id),
            old(self).starts().contains_key(sequence_id) ==> r == (if now >= old(self).starts()[sequence_id] {
                now - old(self).starts()[sequence_id]
            } else {
                0
            }),
            !old(self).starts().contains_key(sequence_id) ==> r == 0,
            final(self).context() == context_after(
                old(self).context(),
                source@,
                TRANSLATION_CONTEXT_SEGMENTS as int,
                TRANSLATION_CONTEXT_MAX_CHARS as int,
            ),
    {
        let latency = remove_translation_start(&mut self.started, sequence_id, now);
        push_translation_context_segment(
            &mut self.history,
            source,
            TRANSLATION_CONTEXT_SEGMENTS,
            TRANSLATION_CONTEXT_MAX_CHARS,
        );
        latency
    }
}

/// The context stays bounded: it never holds more than `max_segments` texts nor
/// a text longer than `max_chars`, and a non-empty source, cut to `max_chars`,
/// becomes its newest text (when any text is kept at all).
pub proof fn law_context_stays_bounded(
    history: Seq<Seq<char>>,
    source: Seq<char>,
    max_segments: int,
    max_chars: int,
)
    requires
        0 <= max_segments,
        0 <= max_chars,
        history.len() <= max_segments,
        forall|i: int| 0 <= i < history.len() ==> (#[trigger] history[i]).len() <= max_chars,
    ensures
        context_after(history, source, max_segments, max_chars).len() <= max_segments,
        forall|i: int|
            0 <= i < context_after(history, source, max_segments, max_chars).len() ==> (
            #[trigger] context_after(history, source, max_segments, max_chars)[i]).len() <= max_chars,
        (trim(source).len() > 0 && max_segments > 0) ==> context_after(
            history,
            source,
            max_segments,
            max_chars,
        ).last() == trim(source).take(
            if trim(source).len() <= max_chars {
                trim(source).len() as int
            } else {
                max_chars
            },
        ),
{
    let t = trim(source);
    if t.len() > 0 {
        let bounded = if t.len() <= max_chars {
            t
        } else {
            t.take(max_chars)
        };
        assert(t.take(t.len() as int) =~= t);
        let all = history.push(bounded);
        let r = context_after(history, source, max_segments, max_chars);
        assert forall|i: int| 0 <= i < r.len() implies (#[trigger] r[i]).len() <= max_chars by {
            if all.len() > max_segments {
                assert(r[i] == all[i + all.len() - max_segments]);
            }
        }
    }
}

/// The breaker state after failed translations at the given times, in order.
pub open spec fn after_failures(v: BreakerView, times: Seq<u64>) -> BreakerView
    decreases times.len(),
{
    if times.len() == 0 {
        v
    } else {
        after_failure(after_failures(v, times.drop_last()), times.last())
    }
}

/// Failures in a row open the breaker exactly when their count reaches the
/// threshold: below it the breaker stays as it was, and from the failure that
/// reaches it on, the breaker refuses requests until the open period after the
/// latest failure has passed.
pub proof fn law_failures_open_breaker(v: BreakerView, times: Seq<u64>)
    requires
        v.failures < CIRCUIT_BREAKER_FAILURE_THRESHOLD,
        forall|i: int| 0 <= i < times.len() ==> #[trigger] times[i] + open_period_ms() <= u64::MAX,
    ensures
        v.failures + times.len() < CIRCUIT_BREAKER_FAILURE_THRESHOLD ==> after_failures(v, times)
            == (BreakerView { failures: (v.failures + times.len()) as u32, open_until: v.open_until }),
        v.failures + times.len() >= CIRCUIT_BREAKER_FAILURE_THRESHOLD ==> {
            &&& after_failures(v, times).open_until == Some((times.last() + open_period_ms()) as u64)
            &&& forall|now: u64|
                times.last() <= now < times.last() + open_period_ms() ==> is_open_at(
                    #[trigger] after_failures(v, times),
                    now,
                )
        },
    decreases times.len(),
{
    if times.len() > 0 {
        let rest = times.drop_last();
        assert forall|i: int| 0 <= i < rest.len() implies #[trigger] rest[i] + open_period_ms()
            <= u64::MAX by {
            assert(rest[i] == times[i]);
        }
        law_failures_open_breaker(v, rest);
        assert(times[times.len() - 1] + open_period_ms() <= u64::MAX);
        if v.failures + rest.len() >= CIRCUIT_BREAKER_FAILURE_THRESHOLD {
            assert(after_failures(v, rest).failures >= CIRCUIT_BREAKER_FAILURE_THRESHOLD) by {
                law_failure_count_never_drops(v, rest);
            }
        }
    }
}

/// Failures only ever raise the failure count (up to its maximum).
pub proof fn law_failure_count_never_drops(v: BreakerView, times: Seq<u64>)
    ensures
        after_failures(v, times).failures >= v.failures,
        after_failures(v, times).failures >= (if v.failures + times.len() <= u32::MAX {
            v.failures + times.len()
        } else {
            u32::MAX as int
        }),
    decreases times.len(),
{
    if times.len() > 0 {
        law_failure_count_never_drops(v, times.drop_last());
    }
}

/// A success forgets the failures without touching the open period.
pub proof fn law_success_resets_failures(v: BreakerView)
    ensures
        after_success(v).failures == 0,
        after_success(v).open_until == v.open_until,
{
}

/// A breaker refuses requests only before the end of its open period, never
/// once that has come and never when it was not opened. Once the open period is
/// over, the check closes the breaker and it starts afresh; before that, the
/// check changes nothing.
pub proof fn law_breaker_closes_after_period(v: BreakerView, now: u64)
    ensures
        v.open_until is None ==> !is_open_at(v, now),
        v.open_until is Some ==> (is_open_at(v, now) <==> now < v.open_until->Some_0),
        is_open_at(after_close_check(v, now), now) == is_open_at(v, now),
        is_open_at(v, now) ==> after_close_check(v, now) == v,
        (v.open_until matches Some(until) && now >= until) ==> after_close_check(v, now) == (
        BreakerView { failures: 0, open_until: None }),
{
}

/// Retries wait 250 ms, then 500 ms.
pub proof fn law_backoff_doubles()
    ensures
        backoff_ms(1) == 250,
        backoff_ms(2) == 500,
{
    reveal_with_fuel(backoff_ms, 3);
}

} // verus!
