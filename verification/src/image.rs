//! The image job: what is sent to the image service, and how its answer is
//! read.

use crate::error::{AgentError, ConfigKey};
use crate::laws::lemma_deadline_matches_job_id;
use crate::text::{decimal, decimal_string, decimal_value, digit, strip_quotes, unquoted};
use vstd::prelude::*;
use vstd::string::*;

verus! {

/// Where image jobs are posted.
pub const SUBMIT_URL: &'static str = "http://sequencer.heurist.xyz/submit_job";

/// The content type of the payload.
pub const CONTENT_TYPE: &'static str = "application/json";

pub const BEARER: &'static str = "Bearer ";

pub const JOB_PREFIX: &'static str = "job_";

pub const NEG_PROMPT: &'static str =
    "worst quality, bad quality, umbrella, blurry face, anime, illustration";

pub const MODEL_ID: &'static str = "BluePencilRealistic";

pub const IMAGE_SIDE: u32 = 1024;

pub const NUM_ITERATIONS: u32 = 22;

/// The guidance scale, in tenths.
pub const GUIDANCE_TENTHS: u32 = 75;

pub const PRIORITY: u32 = 1;

/// Seconds from submission after which the job expires at the service.
pub const DEADLINE_HORIZON: u64 = 300;

/// One image job, as submitted.
#[derive(Debug, Clone, PartialEq, Eq)]
pub struct ImageJob {
    /// The value of the `Authorization` header.
    pub authorization: String,
    pub width: u32,
    pub height: u32,
    pub prompt: String,
    pub neg_prompt: String,
    pub num_iterations: u32,
    /// The guidance scale, in tenths.
    pub guidance_tenths: u32,
    pub model_id: String,
    /// Expiry at the service, in seconds since the epoch.
    pub deadline: u64,
    pub priority: u32,
    pub job_id: String,
}

/// The mathematical value of an [`ImageJob`].
pub struct ImageJobView {
    pub authorization: Seq<char>,
    pub width: u32,
    pub height: u32,
    pub prompt: Seq<char>,
    pub neg_prompt: Seq<char>,
    pub num_iterations: u32,
    pub guidance_tenths: u32,
    pub model_id: Seq<char>,
    pub deadline: u64,
    pub priority: u32,
    pub job_id: Seq<char>,
}

impl View for ImageJob {
    type V = ImageJobView;

    open spec fn view(&self) -> ImageJobView {
        ImageJobView {
            authorization: self.authorization@,
            width: self.width,
            height: self.height,
            prompt: self.prompt@,
            neg_prompt: self.neg_prompt@,
            num_iterations: self.num_iterations,
            guidance_tenths: self.guidance_tenths,
            model_id: self.model_id@,
            deadline: self.deadline,
            priority: self.priority,
            job_id: self.job_id@,
        }
    }
}

/// The identifier of a job submitted at `now_millis`.
pub open spec fn job_id_at(now_millis: u64) -> Seq<char> {
    JOB_PREFIX@ + decimal(now_millis as nat)
}

/// The deadline of a job submitted at `now_millis`: that instant in whole
/// seconds, plus the horizon.
pub open spec fn deadline_at(now_millis: u64) -> u64 {
    (now_millis / 1000 + DEADLINE_HORIZON) as u64
}

/// The job for the given configuration, submitted at `now_millis`
/// milliseconds since the epoch. Identifier and deadline come from that one
/// reading.
pub open spec fn image_job_at(api_key: Seq<char>, base_prompt: Seq<char>, now_millis: u64)
    -> ImageJobView {
    ImageJobView {
        authorization: BEARER@ + api_key,
        width: IMAGE_SIDE,
        height: IMAGE_SIDE,
        prompt: base_prompt,
        neg_prompt: NEG_PROMPT@,
        num_iterations: NUM_ITERATIONS,
        guidance_tenths: GUIDANCE_TENTHS,
        model_id: MODEL_ID@,
        deadline: deadline_at(now_millis),
        priority: PRIORITY,
        job_id: job_id_at(now_millis),
    }
}

/// The deadline of `job` is the timestamp in its identifier, in whole
/// seconds, plus the horizon.
pub open spec fn deadline_matches_id(job: ImageJobView) -> bool {
    &&& job.job_id.take(JOB_PREFIX@.len() as int) == JOB_PREFIX@
    &&& job.deadline == decimal_value(job.job_id.skip(JOB_PREFIX@.len() as int)) / 1000
        + DEADLINE_HORIZON
}

/// A character that a header value may hold: anything but the control
/// characters, of which only the tab is allowed.
pub open spec fn header_char_ok(c: char) -> bool {
    (c as int >= 32 && c as int != 127) || c as int == 9
}

/// A text that can stand as a header value.
pub open spec fn header_text_ok(s: Seq<char>) -> bool {
    forall|i: int| 0 <= i < s.len() ==> header_char_ok(#[trigger] s[i])
}

/// Asks `reqwest::header::HeaderValue::from_str` whether it takes `value`.
/// It refuses a value that holds a byte below 32 other than the tab, or the
/// byte 127, and takes every other. Each such byte is a character of its
/// own in the text, since the bytes of all other characters are above 127;
/// so the contract is stated over the characters.
#[verifier::external_body]
fn header_value_accepted(value: &str) -> (ok: bool)
    ensures
        ok == header_text_ok(value@),
{
    reqwest::header::HeaderValue::from_str(value).is_ok()
}

/// What planning a job yields: the first missing input decides the
/// failure, in the order key, base prompt, clock, header.
pub open spec fn image_job_outcome(
    api_key: Option<Seq<char>>,
    base_prompt: Option<Seq<char>>,
    clock: Option<u64>,
) -> Result<ImageJobView, AgentError> {
    if api_key is None {
        Err(AgentError::ConfigError(ConfigKey::ApiKey))
    } else if base_prompt is None {
        Err(AgentError::ConfigError(ConfigKey::BasePrompt))
    } else if clock is None {
        Err(AgentError::ClockError)
    } else if !header_text_ok(BEARER@ + api_key->0) {
        Err(AgentError::HttpError)
    } else {
        Ok(image_job_at(api_key->0, base_prompt->0, clock->0))
    }
}

/// The view of a planning result.
pub open spec fn job_result_view(r: Result<ImageJob, AgentError>) -> Result<
    ImageJobView,
    AgentError,
> {
    match r {
        Ok(job) => Ok(job@),
        Err(e) => Err(e),
    }
}

/// The view of an optional text.
pub open spec fn text_view(t: Option<&str>) -> Option<Seq<char>> {
    match t {
        Some(s) => Some(s@),
        None => None,
    }
}

/// Plans the image job for the given configuration and clock reading
/// (milliseconds since the epoch; `None` where the clock gave none).
pub fn plan_image_job(api_key: Option<&str>, base_prompt: Option<&str>, clock: Option<u64>) -> (r:
    Result<ImageJob, AgentError>)
    ensures
        job_result_view(r) == image_job_outcome(text_view(api_key), text_view(base_prompt), clock),
        r matches Err(AgentError::ConfigError(_)) <==> api_key is None || base_prompt is None,
        r matches Ok(job) ==> deadline_matches_id(job@),
{
    let key = match api_key {
        Some(k) => k,
        None => {
            return Err(AgentError::ConfigError(ConfigKey::ApiKey));
        },
    };
    let base = match base_prompt {
        Some(p) => p,
        None => {
            return Err(AgentError::ConfigError(ConfigKey::BasePrompt));
        },
    };
    let now_millis = match clock {
        Some(t) => t,
        None => {
            return Err(AgentError::ClockError);
        },
    };
    let authorization = String::from_str(BEARER).concat(key);
    if !header_value_accepted(authorization.as_str()) {
        return Err(AgentError::HttpError);
    }
    proof {
        lemma_deadline_matches_job_id(key@, base@, now_millis);
    }
    let deadline: u64 = now_millis / 1000 + DEADLINE_HORIZON;
    let job_id = String::from_str(JOB_PREFIX).concat(decimal_string(now_millis).as_str());
    Ok(
        ImageJob {
            authorization,
            width: IMAGE_SIDE,
            height: IMAGE_SIDE,
            prompt: String::from_str(base),
            neg_prompt: String::from_str(NEG_PROMPT),
            num_iterations: NUM_ITERATIONS,
            guidance_tenths: GUIDANCE_TENTHS,
            model_id: String::from_str(MODEL_ID),
            deadline,
            priority: PRIORITY,
            job_id,
        },
    )
}

/// The hexadecimal digit of `n`, in lower case.
pub open spec fn hex_digit(n: int) -> char {
    if n < 10 {
        digit(n as nat)
    } else if n == 10 {
        'a'
    } else if n == 11 {
        'b'
    } else if n == 12 {
        'c'
    } else if n == 13 {
        'd'
    } else if n == 14 {
        'e'
    } else {
        'f'
    }
}

/// How one character stands inside a JSON string: the double quote, the
/// backslash and the control characters below the space are escaped, the
/// five with a short form by it and the others by their code; every other
/// character stands for itself.
pub open spec fn json_escape(c: char) -> Seq<char> {
    let n = c as int;
    if c == '"' {
        seq!['\\', '"']
    } else if c == '\\' {
        seq!['\\', '\\']
    } else if n == 0x08 {
        seq!['\\', 'b']
    } else if n == 0x09 {
        seq!['\\', 't']
    } else if n == 0x0A {
        seq!['\\', 'n']
    } else if n == 0x0C {
        seq!['\\', 'f']
    } else if n == 0x0D {
        seq!['\\', 'r']
    } else if n < 0x20 {
        seq!['\\', 'u', '0', '0', hex_digit(n / 16), hex_digit(n % 16)]
    } else {
        seq![c]
    }
}

/// The characters of `s`, each as it stands inside a JSON string.
pub open spec fn json_escaped(s: Seq<char>) -> Seq<char>
    decreases s.len(),
{
    if s.len() == 0 {
        Seq::<char>::empty()
    } else {
        json_escaped(s.drop_last()) + json_escape(s.last())
    }
}

/// The JSON text of the string `s`: its characters escaped, between double
/// quotes.
pub open spec fn json_string(s: Seq<char>) -> Seq<char> {
    seq!['"'] + json_escaped(s) + seq!['"']
}

/// Renders `value` as a JSON string through `serde_json`: a
/// `serde_json::Value::String` shown by its `Display`, which writes the
/// compact form. That is the text between double quotes, with the double
/// quote, the backslash and the bytes below 32 escaped as `json_escape`
/// says and every other character unchanged.
#[verifier::external_body]
fn json_quote(value: &str) -> (r: String)
    ensures
        r@ == json_string(value@),
{
    serde_json::Value::String(value.to_string()).to_string()
}

pub const PAYLOAD_WIDTH: &'static str = "{\"model_input\":{\"SD\":{\"width\":";

pub const PAYLOAD_HEIGHT: &'static str = ",\"height\":";

pub const PAYLOAD_PROMPT: &'static str = ",\"prompt\":";

pub const PAYLOAD_NEG_PROMPT: &'static str = ",\"neg_prompt\":";

pub const PAYLOAD_ITERATIONS: &'static str = ",\"num_iterations\":";

pub const PAYLOAD_GUIDANCE: &'static str = ",\"guidance_scale\":";

pub const PAYLOAD_MODEL_ID: &'static str = "}},\"model_id\":";

pub const PAYLOAD_DEADLINE: &'static str = ",\"deadline\":";

pub const PAYLOAD_PRIORITY: &'static str = ",\"priority\":";

pub const PAYLOAD_JOB_ID: &'static str = ",\"job_id\":";

pub const PAYLOAD_END: &'static str = "}";

pub const POINT: &'static str = ".";

/// A number given in tenths, written with one decimal place.
pub open spec fn tenths_text(t: u32) -> Seq<char> {
    decimal((t / 10) as nat) + POINT@ + decimal((t % 10) as nat)
}

/// The JSON object for `job` with its four texts already quoted: the
/// model's input under `model_input.SD`, then model, deadline, priority and
/// identifier.
pub open spec fn payload_with(
    job: ImageJobView,
    prompt: Seq<char>,
    neg_prompt: Seq<char>,
    model_id: Seq<char>,
    job_id: Seq<char>,
) -> Seq<char> {
    PAYLOAD_WIDTH@ + decimal(job.width as nat) + PAYLOAD_HEIGHT@ + decimal(job.height as nat)
        + PAYLOAD_PROMPT@ + prompt + PAYLOAD_NEG_PROMPT@ + neg_prompt + PAYLOAD_ITERATIONS@
        + decimal(job.num_iterations as nat) + PAYLOAD_GUIDANCE@ + tenths_text(job.guidance_tenths)
        + PAYLOAD_MODEL_ID@ + model_id + PAYLOAD_DEADLINE@ + decimal(job.deadline as nat)
        + PAYLOAD_PRIORITY@ + decimal(job.priority as nat) + PAYLOAD_JOB_ID@ + job_id
        + PAYLOAD_END@
}

/// The JSON object that is posted for `job`.
pub open spec fn payload_text(job: ImageJobView) -> Seq<char> {
    payload_with(
        job,
        json_string(job.prompt),
        json_string(job.neg_prompt),
        json_string(job.model_id),
        json_string(job.job_id),
    )
}

fn tenths_string(t: u32) -> (r: String)
    ensures
        r@ == tenths_text(t),
{
    let whole: u32 = t / 10;
    let part: u32 = t % 10;
    decimal_string(whole as u64).concat(POINT).concat(decimal_string(part as u64).as_str())
}

impl ImageJob {
    /// Puts the request body together from the job's numbers and its four
    /// texts, each given as JSON already.
    pub fn assemble_payload(&self, prompt: &str, neg_prompt: &str, model_id: &str, job_id: &str)
        -> (r: String)
        ensures
            r@ == payload_with(self@, prompt@, neg_prompt@, model_id@, job_id@),
    {
        let mut r = String::from_str(PAYLOAD_WIDTH);
        r.append(decimal_string(self.width as u64).as_str());
        r.append(PAYLOAD_HEIGHT);
        r.append(decimal_string(self.height as u64).as_str());
        r.append(PAYLOAD_PROMPT);
        r.append(prompt);
        r.append(PAYLOAD_NEG_PROMPT);
        r.append(neg_prompt);
        r.append(PAYLOAD_ITERATIONS);
        r.append(decimal_string(self.num_iterations as u64).as_str());
        r.append(PAYLOAD_GUIDANCE);
        r.append(tenths_string(self.guidance_tenths).as_str());
        r.append(PAYLOAD_MODEL_ID);
        r.append(model_id);
        r.append(PAYLOAD_DEADLINE);
        r.append(decimal_string(self.deadline).as_str());
        r.append(PAYLOAD_PRIORITY);
        r.append(decimal_string(self.priority as u64).as_str());
        r.append(PAYLOAD_JOB_ID);
        r.append(job_id);
        r.append(PAYLOAD_END);
        r
    }

    /// The request body for this job.
    pub fn payload(&self) -> (r: String)
        ensures
            r@ == payload_text(self@),
    {
        let prompt = json_quote(self.prompt.as_str());
        let neg_prompt = json_quote(self.neg_prompt.as_str());
        let model_id = json_quote(self.model_id.as_str());
        let job_id = json_quote(self.job_id.as_str());
        self.assemble_payload(
            prompt.as_str(),
            neg_prompt.as_str(),
            model_id.as_str(),
            job_id.as_str(),
        )
    }
}

/// How a request is sent.
#[derive(Debug, Clone, Copy, PartialEq, Eq, Structural)]
pub enum HttpMethod {
    Get,
    Post,
}

/// One outbound request, for the caller to send once: no retry, no
/// timeout of its own.
#[derive(Debug, Clone, PartialEq, Eq)]
pub struct HttpRequest {
    pub method: HttpMethod,
    pub url: String,
    /// The value of the `Authorization` header, where one is sent.
    pub authorization: Option<String>,
    /// The value of the `Content-Type` header, where one is sent.
    pub content_type: Option<String>,
    pub body: Option<String>,
}

/// The mathematical value of an [`HttpRequest`].
pub struct HttpRequestView {
    pub method: HttpMethod,
    pub url: Seq<char>,
    pub authorization: Option<Seq<char>>,
    pub content_type: Option<Seq<char>>,
    pub body: Option<Seq<char>>,
}

/// The view of an optional owned text.
pub open spec fn owned_text_view(t: Option<String>) -> Option<Seq<char>> {
    match t {
        Some(s) => Some(s@),
        None => None,
    }
}

impl View for HttpRequest {
    type V = HttpRequestView;

    open spec fn view(&self) -> HttpRequestView {
        HttpRequestView {
            method: self.method,
            url: self.url@,
            authorization: owned_text_view(self.authorization),
            content_type: owned_text_view(self.content_type),
            body: owned_text_view(self.body),
        }
    }
}

/// The request that submits `job`: a POST of its payload to the fixed
/// address, with the bearer token and the JSON content type.
pub open spec fn submission_of(job: ImageJobView) -> HttpRequestView {
    HttpRequestView {
        method: HttpMethod::Post,
        url: SUBMIT_URL@,
        authorization: Some(job.authorization),
        content_type: Some(CONTENT_TYPE@),
        body: Some(payload_text(job)),
    }
}

/// The request that fetches the image at `url`: a plain GET.
pub open spec fn fetch_of(url: Seq<char>) -> HttpRequestView {
    HttpRequestView {
        method: HttpMethod::Get,
        url,
        authorization: None,
        content_type: None,
        body: None,
    }
}

impl ImageJob {
    /// The request that submits this job.
    pub fn submission(&self) -> (r: HttpRequest)
        ensures
            r@ == submission_of(self@),
    {
        HttpRequest {
            method: HttpMethod::Post,
            url: String::from_str(SUBMIT_URL),
            authorization: Some(self.authorization.clone()),
            content_type: Some(String::from_str(CONTENT_TYPE)),
            body: Some(self.payload()),
        }
    }
}

/// The request that fetches the image at `url`.
pub fn fetch_request(url: &str) -> (r: HttpRequest)
    ensures
        r@ == fetch_of(url@),
{
    HttpRequest {
        method: HttpMethod::Get,
        url: String::from_str(url),
        authorization: None,
        content_type: None,
        body: None,
    }
}

/// What the service's answer yields: the body without one layer of
/// surrounding double quotes, or the transport's failure. A body that holds
/// nothing within its quotes names no image and fails as well.
pub open spec fn job_answer(body: Option<Seq<char>>) -> Result<Seq<char>, AgentError> {
    match body {
        Some(b) => if unquoted(b).len() == 0 {
            Err(AgentError::HttpError)
        } else {
            Ok(unquoted(b))
        },
        None => Err(AgentError::HttpError),
    }
}

/// The view of a text result.
pub open spec fn text_result_view(r: Result<String, AgentError>) -> Result<Seq<char>, AgentError> {
    match r {
        Ok(s) => Ok(s@),
        Err(e) => Err(e),
    }
}

/// Reads the service's answer to a submission (`None` where the transport
/// failed).
pub fn read_job_answer(body: Option<&str>) -> (r: Result<String, AgentError>)
    ensures
        text_result_view(r) == job_answer(text_view(body)),
        r matches Ok(t) ==> t@.len() > 0,
{
    match body {
        Some(b) => {
            let address = strip_quotes(b);
            if address.as_str().unicode_len() == 0 {
                Err(AgentError::HttpError)
            } else {
                Ok(address)
            }
        },
        None => Err(AgentError::HttpError),
    }
}

} // verus!
