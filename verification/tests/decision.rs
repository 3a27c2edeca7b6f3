use persona_agent::agent::{classify, decide, Agent, ApiKey, ResponseDecision, Strategy, MAX_TOKENS, TEMPERATURE_TENTHS};
use persona_agent::error::AgentError;

fn agent() -> Agent {
    Agent::new("key", "you are rina")
}

#[test]
fn spam_with_ignore_marker_is_ignored() {
    let a = agent();
    let request = a.should_respond_request("buy my coin now");
    assert!(request.prompt.starts_with("Tweet: buy my coin now\nTask: Reply [RESPOND] or [IGNORE]"));
    assert_eq!(a.should_respond(Some("[IGNORE] this is spam")), Ok(ResponseDecision::Ignore));
}

#[test]
fn question_with_respond_marker_is_answered() {
    let a = agent();
    let request = a.should_respond_request("what do you think about this?");
    assert!(request.prompt.contains("what do you think about this?"));
    assert_eq!(a.should_respond(Some("Sure — [RESPOND]")), Ok(ResponseDecision::Respond));
}

#[test]
fn marker_is_found_in_any_letter_case() {
    assert_eq!(classify("[respond]"), ResponseDecision::Respond);
    assert_eq!(classify("[Respond]"), ResponseDecision::Respond);
    assert_eq!(classify("ok [rEsPoNd] then"), ResponseDecision::Respond);
    assert_eq!(classify("[RESPOND]"), ResponseDecision::Respond);
    assert_eq!(classify("é✓ [respond] ✓"), ResponseDecision::Respond);
}

#[test]
fn marker_is_found_at_either_end() {
    assert_eq!(classify("[RESPOND] yes"), ResponseDecision::Respond);
    assert_eq!(classify("yes, [RESPOND]"), ResponseDecision::Respond);
    assert_eq!(classify("[IGNORE] [RESPOND]"), ResponseDecision::Respond);
}

#[test]
fn anything_without_the_marker_is_ignored() {
    assert_eq!(classify(""), ResponseDecision::Ignore);
    assert_eq!(classify("[IGNORE]"), ResponseDecision::Ignore);
    assert_eq!(classify("maybe"), ResponseDecision::Ignore);
    assert_eq!(classify("RESPOND"), ResponseDecision::Ignore);
    assert_eq!(classify("[RESPOND"), ResponseDecision::Ignore);
    assert_eq!(classify("RESPOND]"), ResponseDecision::Ignore);
    assert_eq!(classify("[RESPONSE]"), ResponseDecision::Ignore);
    assert_eq!(classify("[RES POND]"), ResponseDecision::Ignore);
    assert_eq!(classify("[RESPON"), ResponseDecision::Ignore);
    assert_eq!(classify("{RESPOND}"), ResponseDecision::Ignore);
}

#[test]
fn upper_casing_follows_unicode() {
    assert_eq!(classify("[re\u{17f}pond]"), ResponseDecision::Respond);
    assert_eq!(classify("\u{17f} [respond]"), ResponseDecision::Respond);
    assert_eq!(classify("[R\u{c9}SPOND]"), ResponseDecision::Ignore);
    assert_eq!(classify("[r\u{e9}spond]"), ResponseDecision::Ignore);
    assert_eq!(classify("[re\u{df}pond]"), ResponseDecision::Ignore);
}

#[test]
fn normalized_text_is_searched_as_it_stands() {
    assert_eq!(decide("[RESPOND]"), ResponseDecision::Respond);
    assert_eq!(decide("SURE \u{2014} [RESPOND]!"), ResponseDecision::Respond);
    assert_eq!(decide("[respond]"), ResponseDecision::Ignore);
    assert_eq!(decide("[Respond]"), ResponseDecision::Ignore);
    assert_eq!(decide("[IGNORE]"), ResponseDecision::Ignore);
    assert_eq!(decide(""), ResponseDecision::Ignore);
}

#[test]
fn failed_completion_fails_the_decision() {
    assert_eq!(agent().should_respond(None), Err(AgentError::CompletionError));
}

#[test]
fn decision_prompt_is_exact() {
    let request = agent().should_respond_request("gm @rina?");
    assert_eq!(
        request.prompt,
        "Tweet: gm @rina?\nTask: Reply [RESPOND] or [IGNORE] based on:\n[RESPOND] if:\n- Direct mention/address\n- Contains question\n- Contains command/request\n[IGNORE] if:\n- Unrelated content\n- Spam/nonsensical\nAnswer:"
    );
    assert_eq!(request.kind, Strategy::Decision);
    assert_eq!(request.system_prompt, "you are rina");
    assert_eq!(request.temperature_tenths, 9);
    assert_eq!(request.max_tokens, 4096);
    assert_eq!(TEMPERATURE_TENTHS, 9);
    assert_eq!(MAX_TOKENS, 4096);
}

#[test]
fn new_keeps_key_and_voice() {
    let a = Agent::new("sk-1", "voice");
    assert_eq!(a.prompt, "voice");
    assert_eq!(a.anthropic_api_key, ApiKey::new("sk-1"));
    assert_eq!(a, Agent::new("sk-1", "voice"));
    assert_ne!(a, Agent::new("sk-2", "voice"));
    assert_ne!(a, Agent::new("sk-1", "other"));
}
