//! The persona and its strategies. Each strategy is a request for one
//! completion and a reading of what came back; the image strategy is a job
//! to post and a reading of the answer.

use crate::error::AgentError;
use crate::image::{
    deadline_matches_id, fetch_of, fetch_request, HttpRequest, image_job_outcome, job_answer, job_result_view, plan_image_job, read_job_answer,
    text_result_view, text_view, ImageJob,
};
use crate::prompts::{
    build_decision_prompt, build_editorialized_fud_prompt, build_generic_fud_prompt,
    build_post_prompt, build_reply_prompt, decision_prompt, editorialized_fud_prompt,
    generic_fud_prompt, post_prompt, reply_prompt,
};
use crate::text::{
    all_space, contains, contains_text, no_outer_space, to_upper, trim, trimmed, uppercased,
};
use vstd::prelude::*;
use vstd::string::*;

verus! {

/// The marker by which the completion service says that a post deserves an
/// answer.
pub const RESPOND_MARKER: &'static str = "[RESPOND]";

/// The sampling temperature of every completion, in tenths: high, for
/// varied phrasing.
pub const TEMPERATURE_TENTHS: u32 = 9;

/// The token ceiling of every completion.
pub const MAX_TOKENS: u64 = 4096;

/// Whether to engage with a post.
#[derive(Debug, Clone, Copy, PartialEq, Eq, Structural)]
pub enum ResponseDecision {
    Respond,
    Ignore,
}

/// The strategies that ask for a completion.
#[derive(Debug, Clone, Copy, PartialEq, Eq, Structural)]
pub enum Strategy {
    Decision,
    AmbientPost,
    Reply,
    GenericFud,
    EditorializedFud,
}

/// One request to the completion service.
#[derive(Debug, Clone, PartialEq, Eq)]
pub struct GenerationRequest {
    pub kind: Strategy,
    /// The persona's voice, given as context.
    pub system_prompt: String,
    /// The instruction.
    pub prompt: String,
    pub temperature_tenths: u32,
    pub max_tokens: u64,
}

/// The mathematical value of a [`GenerationRequest`].
pub struct GenerationRequestView {
    pub kind: Strategy,
    pub system_prompt: Seq<char>,
    pub prompt: Seq<char>,
    pub temperature_tenths: u32,
    pub max_tokens: u64,
}

impl View for GenerationRequest {
    type V = GenerationRequestView;

    open spec fn view(&self) -> GenerationRequestView {
        GenerationRequestView {
            kind: self.kind,
            system_prompt: self.system_prompt@,
            prompt: self.prompt@,
            temperature_tenths: self.temperature_tenths,
            max_tokens: self.max_tokens,
        }
    }
}

/// The request of strategy `kind` with instruction `prompt`, in the voice
/// `persona`: temperature and token ceiling are the same for all.
pub open spec fn request_for(kind: Strategy, persona: Seq<char>, prompt: Seq<char>)
    -> GenerationRequestView {
    GenerationRequestView {
        kind,
        system_prompt: persona,
        prompt,
        temperature_tenths: TEMPERATURE_TENTHS,
        max_tokens: MAX_TOKENS,
    }
}

/// The decision that an upper-cased completion stands for: respond exactly
/// if the marker stands somewhere in it, whatever surrounds it.
pub open spec fn decision_of_normalized(normalized: Seq<char>) -> ResponseDecision {
    if contains(normalized, RESPOND_MARKER@) {
        ResponseDecision::Respond
    } else {
        ResponseDecision::Ignore
    }
}

/// The decision that a completion stands for: that of its upper-case form,
/// so that the marker counts in any letter case.
pub open spec fn decision_of(completion: Seq<char>) -> ResponseDecision {
    decision_of_normalized(uppercased(completion))
}

/// What a classification yields (`None`: the completion service failed).
pub open spec fn decision_outcome(completion: Option<Seq<char>>) -> Result<
    ResponseDecision,
    AgentError,
> {
    match completion {
        Some(c) => Ok(decision_of(c)),
        None => Err(AgentError::CompletionError),
    }
}

/// What a text strategy yields (`None`: the completion service failed).
/// A completion of white space alone holds no payload and fails as well.
pub open spec fn text_outcome(completion: Option<Seq<char>>) -> Result<Seq<char>, AgentError> {
    match completion {
        Some(c) => if all_space(c) {
            Err(AgentError::CompletionError)
        } else {
            Ok(trimmed(c))
        },
        None => Err(AgentError::CompletionError),
    }
}

/// Whether `status` reports success.
pub open spec fn is_success(status: u16) -> bool {
    200 <= status <= 299
}

/// What fetching an image yields (`None`: the transport failed): the body
/// as it came, exactly if the status reports success.
pub open spec fn image_outcome(fetched: Option<(u16, Seq<u8>)>) -> Result<Seq<u8>, AgentError> {
    match fetched {
        Some((status, body)) => if is_success(status) {
            Ok(body)
        } else {
            Err(AgentError::HttpError)
        },
        None => Err(AgentError::HttpError),
    }
}

/// The view of what a fetch gave.
pub open spec fn fetched_view(fetched: Option<(u16, Vec<u8>)>) -> Option<(u16, Seq<u8>)> {
    match fetched {
        Some((status, body)) => Some((status, body@)),
        None => None,
    }
}

/// The view of a result in bytes.
pub open spec fn bytes_result_view(r: Result<Vec<u8>, AgentError>) -> Result<Seq<u8>, AgentError> {
    match r {
        Ok(bytes) => Ok(bytes@),
        Err(e) => Err(e),
    }
}

/// Reads an upper-cased completion as a decision.
pub fn decide(normalized: &str) -> (d: ResponseDecision)
    ensures
        d == decision_of_normalized(normalized@),
{
    if contains_text(normalized, RESPOND_MARKER) {
        ResponseDecision::Respond
    } else {
        ResponseDecision::Ignore
    }
}

/// Reads a completion as a decision.
pub fn classify(completion: &str) -> (d: ResponseDecision)
    ensures
        d == decision_of(completion@),
{
    let normalized = to_upper(completion);
    decide(normalized.as_str())
}

/// Reads the completion of a text strategy: the text without surrounding
/// white space, which is never empty.
pub fn finish_text(completion: Option<&str>) -> (r: Result<String, AgentError>)
    ensures
        text_result_view(r) == text_outcome(text_view(completion)),
        r matches Ok(t) ==> t@.len() > 0 && no_outer_space(t@),
{
    match completion {
        Some(c) => {
            let text = trim(c);
            if text.as_str().unicode_len() == 0 {
                Err(AgentError::CompletionError)
            } else {
                Ok(text)
            }
        },
        None => Err(AgentError::CompletionError),
    }
}

/// Reads what a fetch gave, status and body: the body whole, exactly if the
/// status reports success.
pub fn read_fetched(status: u16, body: Vec<u8>) -> (r: Result<Vec<u8>, AgentError>)
    ensures
        bytes_result_view(r) == image_outcome(Some((status, body@))),
        r is Err <==> !is_success(status),
        r matches Err(e) ==> e == AgentError::HttpError,
{
    if 200 <= status && status <= 299 {
        Ok(body)
    } else {
        Err(AgentError::HttpError)
    }
}

/// The key of the completion service. It is kept, and not handed out.
#[derive(Debug, Clone, PartialEq, Eq)]
pub struct ApiKey {
    text: String,
}

impl View for ApiKey {
    type V = Seq<char>;

    closed spec fn view(&self) -> Seq<char> {
        self.text@
    }
}

impl ApiKey {
    /// The key with the given text.
    pub fn new(text: &str) -> (key: ApiKey)
        ensures
            key@ == text@,
    {
        ApiKey { text: String::from_str(text) }
    }
}

/// The persona: its voice and the key of the completion service. Made once
/// and never changed.
#[derive(Debug, Clone, PartialEq, Eq)]
pub struct Agent {
    /// The key of the completion service.
    pub anthropic_api_key: ApiKey,
    /// The persona's voice.
    pub prompt: String,
}

impl Agent {
    /// The persona with the given key and voice.
    pub fn new(anthropic_api_key: &str, prompt: &str) -> (agent: Agent)
        ensures
            agent.anthropic_api_key@ == anthropic_api_key@,
            agent.prompt@ == prompt@,
    {
        Agent {
            anthropic_api_key: ApiKey::new(anthropic_api_key),
            prompt: String::from_str(prompt),
        }
    }

    fn request(&self, kind: Strategy, prompt: String) -> (r: GenerationRequest)
        ensures
            r@ == request_for(kind, self.prompt@, prompt@),
    {
        GenerationRequest {
            kind,
            system_prompt: self.prompt.clone(),
            prompt,
            temperature_tenths: TEMPERATURE_TENTHS,
            max_tokens: MAX_TOKENS,
        }
    }

    /// The request that classifies `tweet`.
    pub fn should_respond_request(&self, tweet: &str) -> (r: GenerationRequest)
        ensures
            r@ == request_for(Strategy::Decision, self.prompt@, decision_prompt(tweet@)),
            contains(r@.prompt, tweet@),
    {
        self.request(Strategy::Decision, build_decision_prompt(tweet))
    }

    /// Reads the answer to a classification request. A completion that
    /// holds neither marker means silence.
    pub fn should_respond(&self, completion: Option<&str>) -> (r: Result<
        ResponseDecision,
        AgentError,
    >)
        ensures
            r == decision_outcome(text_view(completion)),
            r == Ok::<ResponseDecision, AgentError>(ResponseDecision::Respond) <==> completion is Some
                && contains(uppercased(completion->0@), RESPOND_MARKER@),
            r == Ok::<ResponseDecision, AgentError>(ResponseDecision::Ignore) <==> completion is Some
                && !contains(uppercased(completion->0@), RESPOND_MARKER@),
    {
        match completion {
            Some(c) => Ok(classify(c)),
            None => Err(AgentError::CompletionError),
        }
    }

    /// The request for a reply to `tweet`.
    pub fn generate_reply_request(&self, tweet: &str) -> (r: GenerationRequest)
        ensures
            r@ == request_for(Strategy::Reply, self.prompt@, reply_prompt(tweet@)),
            contains(r@.prompt, tweet@),
    {
        self.request(Strategy::Reply, build_reply_prompt(tweet))
    }

    /// Reads the answer to a reply request.
    pub fn generate_reply(&self, completion: Option<&str>) -> (r: Result<String, AgentError>)
        ensures
            text_result_view(r) == text_outcome(text_view(completion)),
            r matches Ok(t) ==> t@.len() > 0 && no_outer_space(t@),
    {
        finish_text(completion)
    }

    /// The request for an ambient post.
    pub fn generate_post_request(&self) -> (r: GenerationRequest)
        ensures
            r@ == request_for(Strategy::AmbientPost, self.prompt@, post_prompt()),
    {
        self.request(Strategy::AmbientPost, build_post_prompt())
    }

    /// Reads the answer to a request for an ambient post.
    pub fn generate_post(&self, completion: Option<&str>) -> (r: Result<String, AgentError>)
        ensures
            text_result_view(r) == text_outcome(text_view(completion)),
            r matches Ok(t) ==> t@.len() > 0 && no_outer_space(t@),
    {
        finish_text(completion)
    }

    /// The request for commentary woven from three fragments.
    pub fn generate_generic_fud_request(&self, intro: &str, reason: &str, closing: &str) -> (r:
        GenerationRequest)
        ensures
            r@ == request_for(
                Strategy::GenericFud,
                self.prompt@,
                generic_fud_prompt(self.prompt@, intro@, reason@, closing@),
            ),
            contains(r@.prompt, intro@),
            contains(r@.prompt, reason@),
            contains(r@.prompt, closing@),
    {
        self.request(
            Strategy::GenericFud,
            build_generic_fud_prompt(self.prompt.as_str(), intro, reason, closing),
        )
    }

    /// Reads the answer to a request for generic commentary.
    pub fn generate_generic_fud(&self, completion: Option<&str>) -> (r: Result<String, AgentError>)
        ensures
            text_result_view(r) == text_outcome(text_view(completion)),
            r matches Ok(t) ==> t@.len() > 0 && no_outer_space(t@),
    {
        finish_text(completion)
    }

    /// The request for commentary on the token that `token_info` describes.
    pub fn generate_editorialized_fud_request(&self, token_info: &str) -> (r: GenerationRequest)
        ensures
            r@ == request_for(
                Strategy::EditorializedFud,
                self.prompt@,
                editorialized_fud_prompt(self.prompt@, token_info@),
            ),
            contains(r@.prompt, token_info@),
    {
        self.request(
            Strategy::EditorializedFud,
            build_editorialized_fud_prompt(self.prompt.as_str(), token_info),
        )
    }

    /// Reads the answer to a request for editorialized commentary.
    pub fn generate_editorialized_fud(&self, completion: Option<&str>) -> (r: Result<
        String,
        AgentError,
    >)
        ensures
            text_result_view(r) == text_outcome(text_view(completion)),
            r matches Ok(t) ==> t@.len() > 0 && no_outer_space(t@),
    {
        finish_text(completion)
    }

    /// The image job for the given configuration and clock reading, in
    /// milliseconds since the epoch. An absent value fails the call, the key
    /// first.
    pub fn generate_image_request(
        &self,
        api_key: Option<&str>,
        base_prompt: Option<&str>,
        clock: Option<u64>,
    ) -> (r: Result<ImageJob, AgentError>)
        ensures
            job_result_view(r) == image_job_outcome(
                text_view(api_key),
                text_view(base_prompt),
                clock,
            ),
            r matches Err(AgentError::ConfigError(_)) <==> api_key is None || base_prompt is None,
            r matches Ok(job) ==> deadline_matches_id(job@),
    {
        plan_image_job(api_key, base_prompt, clock)
    }

    /// Reads the image service's answer to a job: the address of the image.
    pub fn generate_image(&self, body: Option<&str>) -> (r: Result<String, AgentError>)
        ensures
            text_result_view(r) == job_answer(text_view(body)),
    {
        read_job_answer(body)
    }

    /// The request that fetches the image at `image_url`.
    pub fn prepare_image_for_tweet_request(&self, image_url: &str) -> (r: HttpRequest)
        ensures
            r@ == fetch_of(image_url@),
    {
        fetch_request(image_url)
    }

    /// Reads what fetching the image gave (`None`: the transport failed):
    /// the whole body, as it came, exactly if the status reports success.
    pub fn prepare_image_for_tweet(&self, fetched: Option<(u16, Vec<u8>)>) -> (r: Result<
        Vec<u8>,
        AgentError,
    >)
        ensures
            bytes_result_view(r) == image_outcome(fetched_view(fetched)),
    {
        match fetched {
            Some((status, body)) => read_fetched(status, body),
            None => Err(AgentError::HttpError),
        }
    }
}

} // verus!
