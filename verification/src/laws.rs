//! What holds of the strategies for every input.

use crate::agent::{
    decision_of, decision_of_normalized, text_outcome, ResponseDecision, RESPOND_MARKER,
};
use crate::error::{AgentError, ConfigKey};
use crate::image::{
    deadline_matches_id, image_job_at, image_job_outcome, ImageJobView, JOB_PREFIX,
};
use crate::prompts::{
    decision_prompt, editorialized_fud_prompt, generic_fud_prompt, reply_prompt, DECISION_HEAD,
    EDITORIAL_FUD_TASK, GENERIC_FUD_CLOSING, GENERIC_FUD_REASON, GENERIC_FUD_TASK, REPLY_HEAD,
};
use crate::text::{
    all_space, contains, decimal, decimal_value, digit, digit_value, is_space, no_outer_space,
    occurs_at, trim_back, trim_front, trimmed, uppercased,
};
use vstd::prelude::*;

verus! {

/// A completion is read as `Respond` exactly if the marker stands in its
/// upper-case form, and as `Ignore` otherwise.
pub proof fn lemma_decision_follows_marker(completion: Seq<char>)
    ensures
        contains(uppercased(completion), RESPOND_MARKER@) ==> decision_of(completion)
            == ResponseDecision::Respond,
        !contains(uppercased(completion), RESPOND_MARKER@) ==> decision_of(completion)
            == ResponseDecision::Ignore,
{
}

/// Whatever stands before and after the marker in an upper-cased
/// completion, the decision is `Respond`.
pub proof fn lemma_marker_with_any_surroundings_is_respond(before: Seq<char>, after: Seq<char>)
    ensures
        decision_of_normalized(before + RESPOND_MARKER@ + after) == ResponseDecision::Respond,
{
    let text = before + RESPOND_MARKER@ + after;
    let i = before.len() as int;
    assert(text.subrange(i, i + RESPOND_MARKER@.len()) =~= RESPOND_MARKER@);
    assert(occurs_at(text, RESPOND_MARKER@, i));
}

/// An upper-cased completion shorter than the marker is read as `Ignore`.
pub proof fn lemma_short_completion_is_ignore(normalized: Seq<char>)
    requires
        normalized.len() < RESPOND_MARKER@.len(),
    ensures
        decision_of_normalized(normalized) == ResponseDecision::Ignore,
{
    assert forall|i: int| !occurs_at(normalized, RESPOND_MARKER@, i) by {}
}

/// An upper-cased completion that is empty is read as `Ignore`.
pub proof fn lemma_empty_completion_is_ignore()
    ensures
        decision_of_normalized(Seq::<char>::empty()) == ResponseDecision::Ignore,
{
    reveal_strlit("[RESPOND]");
    assert(RESPOND_MARKER@.len() == 9);
    lemma_short_completion_is_ignore(Seq::<char>::empty());
}

/// A text strategy never succeeds with an empty text: a completion either
/// keeps a payload after trimming, or the call fails.
pub proof fn lemma_text_outcome_is_never_empty(completion: Option<Seq<char>>)
    ensures
        text_outcome(completion) matches Ok(t) ==> t.len() > 0 && no_outer_space(t),
        text_outcome(completion) is Err <==> completion is None || all_space(completion->0),
{
    if completion is Some {
        lemma_trimmed_empty_iff_blank(completion->0);
        lemma_trimmed_has_no_outer_space(completion->0);
    }
}

/// What `trim_front` leaves is a tail of the text, cut after white space
/// only, and does not start with white space.
pub proof fn lemma_trim_front(s: Seq<char>)
    ensures
        trim_front(s).len() <= s.len(),
        trim_front(s) == s.skip(s.len() - trim_front(s).len()),
        forall|i: int| 0 <= i < s.len() - trim_front(s).len() ==> is_space(#[trigger] s[i]),
        trim_front(s).len() > 0 ==> !is_space(trim_front(s)[0]),
    decreases s.len(),
{
    if s.len() > 0 && is_space(s[0]) {
        let r = s.drop_first();
        lemma_trim_front(r);
        let t = trim_front(r);
        let k = r.len() - t.len();
        assert(r.skip(k) =~= s.skip(k + 1));
        assert forall|i: int| 0 <= i < s.len() - t.len() implies is_space(#[trigger] s[i]) by {
            if i > 0 {
                assert(s[i] == r[i - 1]);
            }
        }
    } else {
        assert(s.skip(0) =~= s);
    }
}

/// What `trim_back` leaves is a head of the text, cut before white space
/// only, and does not end with white space.
pub proof fn lemma_trim_back(s: Seq<char>)
    ensures
        trim_back(s).len() <= s.len(),
        trim_back(s) == s.take(trim_back(s).len() as int),
        forall|i: int| trim_back(s).len() <= i < s.len() ==> is_space(#[trigger] s[i]),
        trim_back(s).len() > 0 ==> !is_space(trim_back(s).last()),
    decreases s.len(),
{
    if s.len() > 0 && is_space(s.last()) {
        let r = s.drop_last();
        lemma_trim_back(r);
        let t = trim_back(r);
        assert(r.take(t.len() as int) =~= s.take(t.len() as int));
        assert forall|i: int| t.len() <= i < s.len() implies is_space(#[trigger] s[i]) by {
            if i < s.len() - 1 {
                assert(s[i] == r[i]);
            }
        }
    } else {
        assert(s.take(s.len() as int) =~= s);
    }
}

/// A trimmed text neither starts nor ends with white space, whatever white
/// space the text had.
pub proof fn lemma_trimmed_has_no_outer_space(s: Seq<char>)
    ensures
        no_outer_space(trimmed(s)),
{
    let f = trim_front(s);
    lemma_trim_front(s);
    lemma_trim_back(f);
}

/// Trimming leaves nothing exactly of a text that is all white space: a
/// text with anything else in it keeps a payload.
pub proof fn lemma_trimmed_empty_iff_blank(s: Seq<char>)
    ensures
        trimmed(s).len() == 0 <==> all_space(s),
{
    let f = trim_front(s);
    let t = trim_back(f);
    lemma_trim_front(s);
    lemma_trim_back(f);
    let k = s.len() - f.len();
    if t.len() == 0 {
        assert forall|i: int| 0 <= i < s.len() implies is_space(#[trigger] s[i]) by {
            if i >= k {
                assert(f[i - k] == s[i]);
                assert(is_space(f[i - k]));
            }
        }
    }
    if all_space(s) && f.len() > 0 {
        assert(f[0] == s[k]);
    }
}

/// Trimming a trimmed text changes nothing.
pub proof fn lemma_trimmed_twice(s: Seq<char>)
    ensures
        trimmed(trimmed(s)) == trimmed(s),
{
    lemma_trimmed_has_no_outer_space(s);
}

/// The classification prompt holds the post, character for character.
pub proof fn lemma_decision_prompt_holds_tweet(tweet: Seq<char>)
    ensures
        contains(decision_prompt(tweet), tweet),
{
    let p = decision_prompt(tweet);
    let i = DECISION_HEAD@.len() as int;
    assert(p.subrange(i, i + tweet.len()) =~= tweet);
    assert(occurs_at(p, tweet, i));
}

/// The reply prompt holds the post, character for character.
pub proof fn lemma_reply_prompt_holds_tweet(tweet: Seq<char>)
    ensures
        contains(reply_prompt(tweet), tweet),
{
    let p = reply_prompt(tweet);
    let i = REPLY_HEAD@.len() as int;
    assert(p.subrange(i, i + tweet.len()) =~= tweet);
    assert(occurs_at(p, tweet, i));
}

/// The generic commentary prompt holds each of its three fragments,
/// character for character, whatever they are: empty, or full of
/// characters that look like the prompt's own delimiters.
pub proof fn lemma_generic_prompt_holds_fragments(
    persona: Seq<char>,
    intro: Seq<char>,
    reason: Seq<char>,
    closing: Seq<char>,
)
    ensures
        contains(generic_fud_prompt(persona, intro, reason, closing), intro),
        contains(generic_fud_prompt(persona, intro, reason, closing), reason),
        contains(generic_fud_prompt(persona, intro, reason, closing), closing),
{
    let p = generic_fud_prompt(persona, intro, reason, closing);
    let a = (persona.len() + GENERIC_FUD_TASK@.len()) as int;
    let b = a + intro.len() + GENERIC_FUD_REASON@.len();
    let c = b + reason.len() + GENERIC_FUD_CLOSING@.len();
    assert(p.subrange(a, a + intro.len()) =~= intro);
    assert(occurs_at(p, intro, a));
    assert(p.subrange(b, b + reason.len()) =~= reason);
    assert(occurs_at(p, reason, b));
    assert(p.subrange(c, c + closing.len()) =~= closing);
    assert(occurs_at(p, closing, c));
}

/// The editorialized commentary prompt holds the token description whole
/// and unaltered.
pub proof fn lemma_editorialized_prompt_holds_token_info(persona: Seq<char>, token_info: Seq<char>)
    ensures
        contains(editorialized_fud_prompt(persona, token_info), token_info),
{
    let p = editorialized_fud_prompt(persona, token_info);
    let i = (persona.len() + EDITORIAL_FUD_TASK@.len()) as int;
    assert(p.subrange(i, i + token_info.len()) =~= token_info);
    assert(occurs_at(p, token_info, i));
}

/// Planning an image job fails on a missing configuration value exactly if
/// the key or the base prompt is absent: on either alone, whatever the
/// other and the clock are.
pub proof fn lemma_missing_configuration_fails(
    api_key: Option<Seq<char>>,
    base_prompt: Option<Seq<char>>,
    clock: Option<u64>,
)
    ensures
        api_key is None ==> image_job_outcome(api_key, base_prompt, clock) == Err::<
            ImageJobView,
            AgentError,
        >(AgentError::ConfigError(ConfigKey::ApiKey)),
        api_key is Some && base_prompt is None ==> image_job_outcome(api_key, base_prompt, clock)
            == Err::<ImageJobView, AgentError>(AgentError::ConfigError(ConfigKey::BasePrompt)),
        image_job_outcome(api_key, base_prompt, clock) matches Err(AgentError::ConfigError(_))
            <==> api_key is None || base_prompt is None,
{
}

/// Reading back the decimal digits of a number gives the number.
pub proof fn lemma_decimal_value_of_decimal(n: nat)
    ensures
        decimal_value(decimal(n)) == n,
    decreases n,
{
    if n < 10 {
        assert(decimal(n).drop_last() =~= Seq::<char>::empty());
        assert(decimal_value(decimal(n).drop_last()) == 0);
        assert(digit_value(digit(n)) == n);
    } else {
        lemma_decimal_value_of_decimal(n / 10);
        assert(decimal(n).drop_last() =~= decimal(n / 10));
        assert(decimal(n).last() == digit(n % 10));
        assert(digit_value(digit(n % 10)) == n % 10);
    }
}

/// The deadline of a job is its identifier's timestamp in whole seconds
/// plus the horizon, for every clock reading: both come from one reading.
pub proof fn lemma_deadline_matches_job_id(
    api_key: Seq<char>,
    base_prompt: Seq<char>,
    now_millis: u64,
)
    ensures
        deadline_matches_id(image_job_at(api_key, base_prompt, now_millis)),
        decimal_value(
            image_job_at(api_key, base_prompt, now_millis).job_id.skip(JOB_PREFIX@.len() as int),
        ) == now_millis,
{
    let job = image_job_at(api_key, base_prompt, now_millis);
    let n = JOB_PREFIX@.len() as int;
    assert(job.job_id.skip(n) =~= decimal(now_millis as nat));
    assert(job.job_id.take(n) =~= JOB_PREFIX@);
    lemma_decimal_value_of_decimal(now_millis as nat);
}

} // verus!
