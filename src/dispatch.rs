//! The chat dispatcher: framing of prompts, classification of upstream
//! failures, and the fallback chain that walks the ordered list of models.
use vstd::prelude::*;
use vstd::string::*;

use crate::text::{contains, contains_text};

verus! {

/// The system prompt put before every question.
pub const ORBIT_SYSTEM_PROMPT: &'static str = "You are Orbit, an expert AI music producer and assistant, running as a cross-platform (macOS/Windows/Linux) overlay application. \
\n\nYour purpose is to integrate directly with a user's Digital Audio Workstation (DAW), such as Ableton Live and FL Studio, to streamline and augment their creative workflow. You function as a co-producer, translating natural language requests into technical music production tasks.\
\n\nIMPORTANT: You have direct control over Ableton Live through these tools:\
\n• Transport: play_ableton, stop_ableton, set_tempo\
\n• Track Control: set_track_volume, mute_track, unmute_track, solo_track, unsolo_track, arm_track, disarm_track\
\n• Session Control: launch_clip, launch_scene\
\n• Info: get_live_info\
\n\nYou also have a screenshot tool to visually understand the user's current project state when needed.\n\n\
Core Capabilities:\n\
• Direct Ableton Control: Start/stop playback, adjust tempo, control track volumes, mute/solo/arm tracks, launch clips and scenes.\n\
• MIDI & Audio Generation: Create MIDI patterns, melodies, chord progressions, and audio files from text prompts (e.g., 'generate a funky bassline in C minor').\n\
• Audio Separation: Isolate vocals, drums, bass, and other instruments from audio tracks (e.g., 'strip the vocals from this track').\n\
• Plugin & Parameter Control: Add, remove, and modify parameters on any plugin within the DAW (e.g., 'add a compressor to the drum bus and set a fast attack').\n\
• Mixing & Production: Execute general production commands like mixing, arranging, and applying effects (e.g., 'pan the hi-hats left,' 'create a return track with a long reverb').\n\n\
Key Behaviors:\n\
• Use Tools Proactively: When users request Ableton control (e.g., 'play the track', 'set tempo to 128'), immediately use the appropriate tool.\n\
• Translate Intent to Action: Convert creative requests ('make the kick punchier') into a sequence of technical DAW actions.\n\
• Be an Expert Assistant: Offer suggestions and common music production techniques when appropriate. Your tone should be helpful, concise, and professional.\n\
• Prioritize Direct Control: For Ableton-specific tasks, use your tools immediately. For ambiguous requests, clarify before acting.\n\
• Track Indexing: Remember that track numbers are 0-based (track 1 in the UI is track_id 0 in the tools).";

/// Told to the user when every model is rate limited.
pub const RATE_LIMIT_ERROR: &'static str = "🚀 You're using Orbit like a pro! You've hit your free usage limit.\n\nUpgrade to Orbit Pro for unlimited AI conversations, faster responses, and premium features.\n\nTry again in a few minutes or upgrade now at orbit.app/pro";
/// Begins the text of a decoding failure.
pub const API_PARSE_ERROR_PREFIX: &'static str = "API response parsing error: ";
/// Begins the text of a failed one-shot invocation.
pub const AGENT_INVOCATION_ERROR_PREFIX: &'static str = "Agent invocation failed: ";
/// Begins the text of a failed streaming invocation.
pub const AGENT_EXECUTION_ERROR_PREFIX: &'static str = "Agent execution failed: ";

/// Marker of a rate-limited upstream call.
pub const RATE_LIMIT_CODE: &'static str = "429";

/// How a rate limit shows when the provider's error body fails to decode.
pub const RATE_LIMIT_DECODE_PATTERN: &'static str =
    "failed to deserialize api response: invalid type: integer `429`";

/// Separates the system prompt from the user's question.
pub const USER_SEPARATOR: &'static str = "\n\nUser: ";

/// Introduces an inline PNG image in a prompt.
pub const IMAGE_SEPARATOR: &'static str = "\n\nImage: data:image/png;base64,";

/// How a failed model invocation is treated by the fallback chain.
#[derive(PartialEq, Eq, Structural, Debug, Clone, Copy)]
pub enum FailureKind {
    /// The provider refused for rate limiting: another model may answer.
    RateLimited,
    /// The provider's reply could not be decoded.
    Parse,
    /// Any other failure.
    Invocation,
}

/// The classification rule on the text of an upstream error.
pub open spec fn failure_kind(detail: Seq<char>) -> FailureKind {
    if contains_text(detail, RATE_LIMIT_CODE@) || contains_text(detail, RATE_LIMIT_DECODE_PATTERN@) {
        FailureKind::RateLimited
    } else if contains_text(detail, "deserialize"@) && contains_text(detail, "integer"@) {
        FailureKind::Parse
    } else {
        FailureKind::Invocation
    }
}

/// Classifies the text of an upstream error.
pub fn classify_failure(detail: &str) -> (r: FailureKind)
    ensures
        r == failure_kind(detail@),
{
    if contains(detail, RATE_LIMIT_CODE) || contains(detail, RATE_LIMIT_DECODE_PATTERN) {
        FailureKind::RateLimited
    } else if contains(detail, "deserialize") && contains(detail, "integer") {
        FailureKind::Parse
    } else {
        FailureKind::Invocation
    }
}

/// What one attempt against one model produced.
#[derive(Debug)]
pub enum ChatOutcome {
    Success(String),
    RateLimited,
    ParseError(String),
    InvocationError(String),
}

/// Turns the text of an upstream error into the outcome of the attempt.
pub fn outcome_of_failure(detail: String) -> (r: ChatOutcome)
    ensures
        failure_kind(detail@) == FailureKind::RateLimited ==> r is RateLimited,
        failure_kind(detail@) == FailureKind::Parse ==> r == ChatOutcome::ParseError(detail),
        failure_kind(detail@) == FailureKind::Invocation ==> r == ChatOutcome::InvocationError(detail),
{
    match classify_failure(detail.as_str()) {
        FailureKind::RateLimited => ChatOutcome::RateLimited,
        FailureKind::Parse => ChatOutcome::ParseError(detail),
        FailureKind::Invocation => ChatOutcome::InvocationError(detail),
    }
}

/// The final error of a chat request.
#[derive(Debug)]
pub enum ChatError {
    /// Every candidate model was rate limited.
    RateLimitExhausted,
    /// A reply could not be decoded.
    Parse(String),
    /// A one-shot invocation failed.
    Invocation(String),
    /// A streaming invocation failed before it produced any text.
    Execution(String),
    /// A streaming invocation failed after part of the answer was delivered.
    PartialStreamFailure { partial_text: String, detail: String },
}

/// The user-facing text of a chat error.
pub open spec fn chat_error_text(e: ChatError) -> Seq<char> {
    match e {
        ChatError::RateLimitExhausted => RATE_LIMIT_ERROR@,
        ChatError::Parse(d) => API_PARSE_ERROR_PREFIX@ + d@,
        ChatError::Invocation(d) => AGENT_INVOCATION_ERROR_PREFIX@ + d@,
        ChatError::Execution(d) => AGENT_EXECUTION_ERROR_PREFIX@ + d@,
        ChatError::PartialStreamFailure { partial_text, detail } => AGENT_EXECUTION_ERROR_PREFIX@ + detail@,
    }
}

impl ChatError {
    /// The user-facing text of this error.
    pub fn message(&self) -> (r: String)
        ensures
            r@ == chat_error_text(*self),
    {
        match self {
            ChatError::RateLimitExhausted => RATE_LIMIT_ERROR.to_owned(),
            ChatError::Parse(d) => {
                let mut r = API_PARSE_ERROR_PREFIX.to_owned();
                r.append(d.as_str());
                r
            },
            ChatError::Invocation(d) => {
                let mut r = AGENT_INVOCATION_ERROR_PREFIX.to_owned();
                r.append(d.as_str());
                r
            },
            ChatError::Execution(d) | ChatError::PartialStreamFailure { detail: d, .. } => {
                let mut r = AGENT_EXECUTION_ERROR_PREFIX.to_owned();
                r.append(d.as_str());
                r
            },
        }
    }
}

/// The result of a fallback chain over the hypothetical outcomes of every
/// candidate, from candidate `i` on, and how many attempts it takes in all.
pub open spec fn chain_from(outcomes: Seq<ChatOutcome>, i: int) -> (Result<String, ChatError>, int)
    decreases outcomes.len() - i,
{
    if i < 0 || i >= outcomes.len() {
        (Err(ChatError::RateLimitExhausted), outcomes.len() as int)
    } else {
        match outcomes[i] {
            ChatOutcome::Success(t) => (Ok(t), i + 1),
            ChatOutcome::RateLimited => chain_from(outcomes, i + 1),
            ChatOutcome::ParseError(d) => (Err(ChatError::Parse(d)), i + 1),
            ChatOutcome::InvocationError(d) => (Err(ChatError::Invocation(d)), i + 1),
        }
    }
}

/// The result of a fallback chain whose candidates would produce `outcomes`,
/// with the number of attempts made.
pub open spec fn chain_result(outcomes: Seq<ChatOutcome>) -> (Result<String, ChatError>, int) {
    chain_from(outcomes, 0)
}

/// Every outcome in `s` is a rate limit.
pub open spec fn all_rate_limited(s: Seq<ChatOutcome>) -> bool {
    forall|i: int| 0 <= i < s.len() ==> s[i] is RateLimited
}

/// Rate-limited outcomes between `j` and `k` are passed over.
pub proof fn lemma_skip_rate_limited(s: Seq<ChatOutcome>, j: int, k: int)
    requires
        0 <= j <= k <= s.len(),
        forall|i: int| j <= i < k ==> s[i] is RateLimited,
    ensures
        chain_from(s, j) == chain_from(s, k),
    decreases k - j,
{
    if j < k {
        lemma_skip_rate_limited(s, j + 1, k);
    }
}

/// Fallback order: when the first `k - 1` candidates are rate limited and
/// candidate `k` succeeds, the chain answers with that success after exactly
/// `k` attempts.
pub proof fn law_fallback_order(outcomes: Seq<ChatOutcome>, k: int)
    requires
        1 <= k <= outcomes.len(),
        forall|i: int| 0 <= i < k - 1 ==> outcomes[i] is RateLimited,
        outcomes[k - 1] is Success,
    ensures
        chain_result(outcomes) == (Ok::<String, ChatError>(outcomes[k - 1]->Success_0), k),
{
    lemma_skip_rate_limited(outcomes, 0, k - 1);
}

/// Fail-fast: an invocation error on the first candidate ends the chain after
/// one attempt with that error, whatever later candidates would do.
pub proof fn law_fail_fast(outcomes: Seq<ChatOutcome>)
    requires
        outcomes.len() >= 1,
        outcomes[0] is InvocationError,
    ensures
        chain_result(outcomes) == (
            Err::<String, ChatError>(ChatError::Invocation(outcomes[0]->InvocationError_0)),
            1int,
        ),
{
}

/// Exhaustion: when every candidate is rate limited, each one is attempted
/// once and the chain ends with the rate-limit message.
pub proof fn law_rate_limit_exhaustion(outcomes: Seq<ChatOutcome>)
    requires
        outcomes.len() >= 1,
        all_rate_limited(outcomes),
    ensures
        chain_result(outcomes) == (Err::<String, ChatError>(ChatError::RateLimitExhausted), outcomes.len() as int),
{
    lemma_skip_rate_limited(outcomes, 0, outcomes.len() as int);
}

/// The fallback chain of one request over `count` candidate models, in list
/// order. A driver asks for the next candidate, invokes it, and records the
/// outcome until the chain settles on a result.
pub struct FallbackChain {
    count: usize,
    next: usize,
    settled: bool,
    attempts: Ghost<Seq<ChatOutcome>>,
}

impl FallbackChain {
    /// The number of candidates.
    pub closed spec fn count(&self) -> nat {
        self.count as nat
    }

    /// The outcomes recorded so far, one per attempted candidate, in order.
    pub closed spec fn attempts(&self) -> Seq<ChatOutcome> {
        self.attempts@
    }

    /// Another candidate is still to be tried.
    pub open spec fn is_pending(&self) -> bool {
        all_rate_limited(self.attempts()) && self.attempts().len() < self.count()
    }

    pub closed spec fn wf(&self) -> bool {
        &&& self.count > 0
        &&& self.next == self.attempts@.len()
        &&& self.next <= self.count
        &&& self.settled == !(all_rate_limited(self.attempts@) && self.next < self.count)
    }

    /// A chain over a non-empty list of `count` candidates.
    pub fn new(count: usize) -> (r: Self)
        requires
            count > 0,
        ensures
            r.wf(),
            r.count() == count,
            r.attempts() == Seq::<ChatOutcome>::empty(),
    {
        FallbackChain { count, next: 0, settled: false, attempts: Ghost(Seq::empty()) }
    }

    /// The index of the candidate to try next: candidates are tried in list
    /// order, and none once the chain has settled.
    pub fn next_candidate(&self) -> (r: Option<usize>)
        requires
            self.wf(),
        ensures
            self.is_pending() ==> r == Some(self.attempts().len() as usize),
            !self.is_pending() ==> r is None,
    {
        if self.settled {
            None
        } else {
            Some(self.next)
        }
    }

    /// Records the outcome of the pending candidate. Returns the final result
    /// once the chain settles: on a success, on a failure other than a rate
    /// limit, or when the last candidate was rate limited.
    pub fn record(&mut self, outcome: ChatOutcome) -> (r: Option<Result<String, ChatError>>)
        requires
            old(self).wf(),
            old(self).is_pending(),
        ensures
            final(self).wf(),
            final(self).count() == old(self).count(),
            final(self).attempts() == old(self).attempts().push(outcome),
            r is None <==> final(self).is_pending(),
            r matches Some(res) ==> res == chain_result(final(self).attempts()).0
                && chain_result(final(self).attempts()).1 == final(self).attempts().len(),
    {
        let ghost before = self.attempts@;
        let ghost after = before.push(outcome);
        proof {
            lemma_skip_rate_limited(after, 0, before.len() as int);
        }
        self.attempts = Ghost(after);
        self.next = self.next + 1;
        let r = match outcome {
            ChatOutcome::Success(t) => Some(Ok(t)),
            ChatOutcome::RateLimited => {
                if self.next == self.count {
                    Some(Err(ChatError::RateLimitExhausted))
                } else {
                    None
                }
            },
            ChatOutcome::ParseError(d) => Some(Err(ChatError::Parse(d))),
            ChatOutcome::InvocationError(d) => Some(Err(ChatError::Invocation(d))),
        };
        self.settled = r.is_some();
        proof {
            assert(after[before.len() as int] == outcome);
            reveal_with_fuel(chain_from, 2);
            assert(chain_result(after) == chain_from(after, before.len() as int));
            if all_rate_limited(after) {
                assert(outcome is RateLimited);
            }
        }
        r
    }
}

/// The full prompt of a question: the system prompt, then the question.
pub open spec fn prompt_for(question: Seq<char>) -> Seq<char> {
    ORBIT_SYSTEM_PROMPT@ + USER_SEPARATOR@ + question
}

/// The full prompt of a question about an image, given the image's base64 text.
pub open spec fn image_prompt_for(question: Seq<char>, encoded_image: Seq<char>) -> Seq<char> {
    prompt_for(question) + IMAGE_SEPARATOR@ + encoded_image
}

/// The prompt sent to a model for `question`.
pub fn full_prompt(question: &str) -> (r: String)
    ensures
        r@ == prompt_for(question@),
{
    let mut r = ORBIT_SYSTEM_PROMPT.to_owned();
    r.append(USER_SEPARATOR);
    r.append(question);
    r
}

/// The prompt for `question` with an image already encoded as base64 text.
pub fn image_prompt_with_encoded(question: &str, encoded_image: &str) -> (r: String)
    ensures
        r@ == image_prompt_for(question@, encoded_image@),
{
    let mut r = full_prompt(question);
    r.append(IMAGE_SEPARATOR);
    r.append(encoded_image);
    r
}

/// Names the text that base64's standard engine produces for `bytes`.
pub uninterp spec fn base64_standard_of(bytes: Seq<u8>) -> Seq<char>;

/// Relies on base64's `STANDARD.encode` (standard alphabet, padded), whose
/// output depends on the bytes alone.
#[verifier::external_body]
fn base64_standard(bytes: &[u8]) -> (r: String)
    ensures
        r@ == base64_standard_of(bytes@),
{
    base64::Engine::encode(&base64::engine::general_purpose::STANDARD, bytes)
}

/// The prompt for `question` with a PNG image embedded inline as base64.
pub fn image_prompt(question: &str, image: &[u8]) -> (r: String)
    ensures
        r@ == image_prompt_for(question@, base64_standard_of(image@)),
{
    let encoded = base64_standard(image);
    image_prompt_with_encoded(question, encoded.as_str())
}

/// The error of a streaming invocation that failed with `detail` after
/// `partial` text had been delivered.
pub open spec fn stream_error_for(partial: String, detail: String) -> ChatError {
    if partial@.len() > 0 {
        ChatError::PartialStreamFailure { partial_text: partial, detail }
    } else if failure_kind(detail@) == FailureKind::RateLimited {
        ChatError::RateLimitExhausted
    } else if failure_kind(detail@) == FailureKind::Parse {
        ChatError::Parse(detail)
    } else {
        ChatError::Execution(detail)
    }
}

/// Classifies the failure of a streaming invocation. A stream cannot be
/// retried from the start, so a failure after part of the answer was
/// delivered keeps that part.
pub fn stream_error(partial: String, detail: String) -> (r: ChatError)
    ensures
        r == stream_error_for(partial, detail),
{
    let kind = classify_failure(detail.as_str());
    if partial.as_str().unicode_len() > 0 {
        ChatError::PartialStreamFailure { partial_text: partial, detail }
    } else if kind == FailureKind::RateLimited {
        ChatError::RateLimitExhausted
    } else if kind == FailureKind::Parse {
        ChatError::Parse(detail)
    } else {
        ChatError::Execution(detail)
    }
}

/// Text-only models.
pub const DEEPSEEK_R1: &'static str = "deepseek/deepseek-r1-0528:free";
pub const KIMI_K2: &'static str = "moonshotai/kimi-k2:free";

/// The provider's API.
pub const OPENROUTER_BASE_URL: &'static str = "https://openrouter.ai/api/v1";

/// Models that accept images.
pub const GEMINI_FLASH_2_FREE: &'static str = "google/gemini-2.0-flash-exp:free";
pub const MISTRAL_SMALL_3DOT2_24B_FREE: &'static str = "mistralai/mistral-small-3.2-24b-instruct:free";
pub const QWEN2DOT5_VL_72B_FREE: &'static str = "qwen/qwen2.5-vl-72b-instruct:free";
pub const GEMMA_3_27B_IT_FREE: &'static str = "google/gemma-3-27b-it:free";
pub const KIMI_VL_A3B_THINKING_FREE: &'static str = "moonshotai/kimi-vl-a3b-thinking:free";

/// A model that the dispatcher may ask.
#[derive(Debug, Clone)]
pub struct ModelCandidate {
    pub identifier: String,
    /// The model accepts images.
    pub vision: bool,
}

/// The identifiers of the fallback list, in priority order.
pub open spec fn fallback_identifiers() -> Seq<Seq<char>> {
    seq![
        GEMINI_FLASH_2_FREE@,
        DEEPSEEK_R1@,
        KIMI_K2@,
        MISTRAL_SMALL_3DOT2_24B_FREE@,
        QWEN2DOT5_VL_72B_FREE@,
        GEMMA_3_27B_IT_FREE@,
        KIMI_VL_A3B_THINKING_FREE@,
    ]
}

/// Which models of the fallback list accept images.
pub open spec fn fallback_vision() -> Seq<bool> {
    seq![true, false, false, true, true, true, true]
}

fn candidate(identifier: &str, vision: bool) -> (r: ModelCandidate)
    ensures
        r.identifier@ == identifier@,
        r.vision == vision,
{
    ModelCandidate { identifier: identifier.to_owned(), vision }
}

/// The fallback list of models, in priority order.
pub fn fallback_models() -> (r: Vec<ModelCandidate>)
    ensures
        r@.len() == fallback_identifiers().len(),
        forall|i: int| 0 <= i < r@.len() ==> r@[i].identifier@ == fallback_identifiers()[i]
            && r@[i].vision == fallback_vision()[i],
{
    let r = vec![
        candidate(GEMINI_FLASH_2_FREE, true),
        candidate(DEEPSEEK_R1, false),
        candidate(KIMI_K2, false),
        candidate(MISTRAL_SMALL_3DOT2_24B_FREE, true),
        candidate(QWEN2DOT5_VL_72B_FREE, true),
        candidate(GEMMA_3_27B_IT_FREE, true),
        candidate(KIMI_VL_A3B_THINKING_FREE, true),
    ];
    r
}

/// `idx` lists the positions of the models that accept images, each once,
/// in list order.
pub open spec fn selects_vision(models: Seq<ModelCandidate>, idx: Seq<usize>) -> bool {
    &&& forall|i: int| 0 <= i < idx.len() ==> idx[i] < models.len() && models[idx[i] as int].vision
    &&& forall|i: int, j: int| 0 <= i < j < idx.len() ==> idx[i] < idx[j]
    &&& forall|k: int| 0 <= k < models.len() && models[k].vision ==> exists|i: int| 0 <= i < idx.len() && idx[i] == k
}

/// The positions of the models that accept images, in list order. A request
/// with an image is offered to these candidates only.
pub fn vision_candidates(models: &Vec<ModelCandidate>) -> (r: Vec<usize>)
    ensures
        selects_vision(models@, r@),
{
    let mut r: Vec<usize> = Vec::new();
    let mut k: usize = 0;
    while k < models.len()
        invariant
            k <= models@.len(),
            forall|i: int| 0 <= i < r@.len() ==> r@[i] < k && models@[r@[i] as int].vision,
            forall|i: int, j: int| 0 <= i < j < r@.len() ==> r@[i] < r@[j],
            forall|m: int| 0 <= m < k && models@[m].vision ==> exists|i: int| 0 <= i < r@.len() && r@[i] == m,
        decreases models@.len() - k,
    {
        if models[k].vision {
            let ghost old_r = r@;
            r.push(k);
            proof {
                assert forall|m: int| 0 <= m < k + 1 && models@[m].vision implies exists|i: int| 0 <= i < r@.len() && r@[i] == m by {
                    if m < k {
                        let i = choose|i: int| 0 <= i < old_r.len() && old_r[i] == m;
                        assert(r@[i] == m);
                    } else {
                        assert(r@[old_r.len() as int] == m);
                    }
                }
            }
        }
        k = k + 1;
    }
    r
}

impl ModelCandidate {
    /// An equal candidate.
    pub fn duplicate(&self) -> (r: Self)
        ensures
            r == *self,
    {
        ModelCandidate { identifier: self.identifier.clone(), vision: self.vision }
    }
}

/// A run of the fallback chain over `models` for `prompt`: `outs` are the
/// outcomes of the models invoked, which are the first `outs.len()` of the
/// list, in order, each once. Every invocation but the last was rate
/// limited, and the last was too only if no model was left.
pub open spec fn fallback_run<F: Fn(&ModelCandidate, &String) -> ChatOutcome>(
    models: Seq<ModelCandidate>,
    prompt: String,
    invoke: F,
    outs: Seq<ChatOutcome>,
) -> bool {
    &&& 1 <= outs.len() <= models.len()
    &&& forall|i: int| 0 <= i < outs.len() ==> invoke.ensures((&models[i], &prompt), outs[i])
    &&& forall|i: int| 0 <= i < outs.len() - 1 ==> outs[i] is RateLimited
    &&& (outs.last() is RateLimited ==> outs.len() == models.len())
}

/// Answers questions by asking a non-empty list of models in priority order,
/// moving to the next model only when one is rate limited.
#[derive(Debug)]
pub struct LangChainChatBot {
    models: Vec<ModelCandidate>,
}

impl LangChainChatBot {
    /// The models, in priority order.
    pub closed spec fn models_spec(&self) -> Seq<ModelCandidate> {
        self.models@
    }

    /// The list of models is not empty.
    pub closed spec fn wf(&self) -> bool {
        self.models@.len() > 0
    }

    /// A bot over the fallback list.
    pub fn new() -> (r: Self)
        ensures
            r.wf(),
            r.models_spec().len() == fallback_identifiers().len(),
            forall|i: int| 0 <= i < r.models_spec().len() ==> r.models_spec()[i].identifier@
                == fallback_identifiers()[i] && r.models_spec()[i].vision == fallback_vision()[i],
    {
        LangChainChatBot { models: fallback_models() }
    }

    /// A bot over `models`, or `None` when the list is empty.
    pub fn with_models(models: Vec<ModelCandidate>) -> (r: Option<Self>)
        ensures
            models@.len() == 0 ==> r is None,
            models@.len() > 0 ==> (r matches Some(b) && b.wf() && b.models_spec() == models@),
    {
        if models.len() == 0 {
            None
        } else {
            Some(LangChainChatBot { models })
        }
    }

    /// The models.
    pub fn models(&self) -> (r: &Vec<ModelCandidate>)
        ensures
            r@ == self.models_spec(),
    {
        &self.models
    }

    /// A bot over this bot's models that accept images, in the same order;
    /// `None` when none does.
    pub fn vision_only(&self) -> (r: Option<Self>)
        ensures
            r is None ==> forall|k: int| 0 <= k < self.models_spec().len() ==> !self.models_spec()[k].vision,
            r matches Some(b) ==> b.wf() && exists|idx: Seq<usize>| selects_vision(self.models_spec(), idx)
                && b.models_spec().len() == idx.len() && forall|i: int| 0 <= i < idx.len()
                ==> b.models_spec()[i] == self.models_spec()[idx[i] as int],
    {
        let idx = vision_candidates(&self.models);
        let mut picked: Vec<ModelCandidate> = Vec::new();
        let mut i: usize = 0;
        while i < idx.len()
            invariant
                selects_vision(self.models@, idx@),
                i <= idx@.len(),
                picked@.len() == i,
                forall|j: int| 0 <= j < i ==> picked@[j] == self.models@[idx@[j] as int],
            decreases idx@.len() - i,
        {
            picked.push(self.models[idx[i]].duplicate());
            i = i + 1;
        }
        if picked.len() == 0 {
            proof {
                assert forall|k: int| 0 <= k < self.models@.len() implies !self.models@[k].vision by {
                    if self.models@[k].vision {
                        let j = choose|j: int| 0 <= j < idx@.len() && idx@[j] == k;
                    }
                }
            }
            None
        } else {
            let b = LangChainChatBot { models: picked };
            proof {
                assert(selects_vision(self.models_spec(), idx@));
                assert(b.models_spec().len() == idx@.len() && forall|i: int| 0 <= i < idx@.len()
                    ==> b.models_spec()[i] == self.models_spec()[idx@[i] as int]);
            }
            Some(b)
        }
    }

    /// Asks the models in priority order with `prompt` through `invoke`,
    /// which performs one invocation of one model. Moves on only from a
    /// rate-limited model; the result is that of the chain over the outcomes.
    pub fn ask_prompt<F: Fn(&ModelCandidate, &String) -> ChatOutcome>(&self, prompt: String, invoke: F) -> (r:
        Result<String, ChatError>)
        requires
            self.wf(),
            forall|m: &ModelCandidate, p: &String| invoke.requires((m, p)),
        ensures
            exists|outs: Seq<ChatOutcome>| fallback_run(self.models_spec(), prompt, invoke, outs) && r
                == chain_result(outs).0 && chain_result(outs).1 == outs.len(),
    {
        let mut chain = FallbackChain::new(self.models.len());
        loop
            invariant
                forall|m: &ModelCandidate, p: &String| invoke.requires((m, p)),
                chain.wf(),
                chain.count() == self.models@.len(),
                chain.is_pending(),
                forall|i: int| 0 <= i < chain.attempts().len() ==> invoke.ensures(
                    (&self.models@[i], &prompt),
                    chain.attempts()[i],
                ),
            decreases chain.count() - chain.attempts().len(),
        {
            let i = match chain.next_candidate() {
                Some(i) => i,
                None => {
                    return Err(ChatError::RateLimitExhausted);
                },
            };
            let outcome = invoke(&self.models[i], &prompt);
            let ghost before = chain.attempts();
            match chain.record(outcome) {
                Some(result) => {
                    proof {
                        let outs = chain.attempts();
                        assert(outs.last() == outs[before.len() as int]);
                        assert(fallback_run(self.models_spec(), prompt, invoke, outs));
                        assert(result == chain_result(outs).0);
                    }
                    return result;
                },
                None => {},
            }
        }
    }

    /// Answers `question` through the fallback chain: the system prompt and
    /// the question go to each model in turn.
    pub fn ask_orbit<F: Fn(&ModelCandidate, &String) -> ChatOutcome>(&self, question: &str, invoke: F) -> (r:
        Result<String, ChatError>)
        requires
            self.wf(),
            forall|m: &ModelCandidate, p: &String| invoke.requires((m, p)),
        ensures
            exists|prompt: String, outs: Seq<ChatOutcome>| prompt@ == prompt_for(question@) && fallback_run(
                self.models_spec(),
                prompt,
                invoke,
                outs,
            ) && r == chain_result(outs).0
                && chain_result(outs).1 == outs.len(),
    {
        let prompt = full_prompt(question);
        self.ask_prompt(prompt, invoke)
    }

    /// Answers `question` about a PNG image through the fallback chain. To
    /// ask only the models that accept images, call it on `vision_only()`.
    pub fn ask_orbit_with_image<F: Fn(&ModelCandidate, &String) -> ChatOutcome>(
        &self,
        question: &str,
        image: &[u8],
        invoke: F,
    ) -> (r: Result<String, ChatError>)
        requires
            self.wf(),
            forall|m: &ModelCandidate, p: &String| invoke.requires((m, p)),
        ensures
            exists|prompt: String, outs: Seq<ChatOutcome>| prompt@ == image_prompt_for(
                question@,
                base64_standard_of(image@),
            ) && fallback_run(self.models_spec(), prompt, invoke, outs) && r == chain_result(outs).0
                && chain_result(outs).1 == outs.len(),
    {
        let prompt = image_prompt(question, image);
        self.ask_prompt(prompt, invoke)
    }
}

/// A chat bot that answers a question about the user's music production.
pub trait ChatBotTrait {
    fn ask_orbit(&self, question: &str) -> Result<String, ChatError>;
}

/// An agent that answers a question about the user's music production.
pub trait OrbitAgentTrait {
    fn ask_orbit(&self, question: &str) -> Result<String, ChatError>;
}

} // verus!
