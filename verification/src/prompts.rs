//! The instruction text of each strategy. Every style rule is part of the
//! text sent to the completion service; nothing is checked afterwards.

use crate::laws::{
    lemma_decision_prompt_holds_tweet, lemma_editorialized_prompt_holds_token_info,
    lemma_generic_prompt_holds_fragments, lemma_reply_prompt_holds_tweet,
};
use crate::text::contains;
use vstd::prelude::*;
use vstd::string::*;

verus! {

pub const DECISION_HEAD: &'static str = "Tweet: ";

pub const DECISION_TAIL: &'static str =
    "\nTask: Reply [RESPOND] or [IGNORE] based on:\n[RESPOND] if:\n- Direct mention/address\n- Contains question\n- Contains command/request\n[IGNORE] if:\n- Unrelated content\n- Spam/nonsensical\nAnswer:";

pub const REPLY_HEAD: &'static str =
    "Task: Generate a post/reply in your voice, style and perspective while using this as context:\nCurrent Post: '";

pub const REPLY_TAIL: &'static str =
    "'\nGenerate a brief, single response that:\n- Uses all lowercase\n- Avoids punctuation\n- Is direct and possibly sarcastic\n- Stays under 280 characters\nWrite only the response text, nothing else:";

pub const POST_PROMPT: &'static str =
    "Write a 1-3 sentence post that would be engaging to readers. Your response should be the EXACT text of the tweet only, with no introductions, meta-commentary, or explanations.\n\n            Requirements:\n            - Stay under 280 characters\n            - No emojis\n            - No hashtags\n            - No questions\n            - Brief, concise statements only\n            - Focus on personal experiences, observations, or thoughts\n            - Write ONLY THE TWEET TEXT with no additional words or commentary";

pub const GENERIC_FUD_TASK: &'static str =
    "\n\nTask: Generate a toxic, cynical comment incorporating these elements:\nIntro: ";

pub const GENERIC_FUD_REASON: &'static str = "\nFUD Reason: ";

pub const GENERIC_FUD_CLOSING: &'static str = "\nClosing: ";

pub const GENERIC_FUD_RULES: &'static str =
    "\n\nRequirements:\n- Be extremely sarcastic and cynical\n- Incorporate the provided intro, reason, and closing creatively\n- Don't include a ticker\n            - Stay under 280 characters\n- Use all lowercase except for token symbols\n- Be creative with metaphors about scams, rugpulls, or dev behavior\n- Avoid hashtags\n- No emojis (they will be added later)\nWrite ONLY the tweet text with no additional commentary:";

pub const EDITORIAL_FUD_TASK: &'static str =
    "\n\nTask: Generate a toxic, cynical commentary about this token:\n";

pub const EDITORIAL_FUD_RULES: &'static str =
    "\nRequirements:\n- Be extremely sarcastic and cynical\n- Always use proper token symbol from the info\n- Use ONLY the actual numbers provided in the token info (liquidity, market cap)\n- Don't mention the price\n- Use information from SOLANA chain. Do not mention BNB tokens.\n            - If no numbers are available, focus on qualitative criticism instead\n- Never make up specific numbers - if you need a number, use vague terms like 'countless' or 'zero'\n- Be creative with metaphors about scams, rugpulls, or dev behavior\n- Stay under 280 characters\n- Use all lowercase except for token symbols\n- Avoid hashtags\n- Here are some additional examples of FUD:\n'Dev wallet holds 99.9% of supply (trust me bro)'\n'Hawk Tuah team behind this.'\nTelegram admin can't spell for shit.'\n'My wife's boyfriend says it's a rugpull'\n'Chart looks like the Titanic's final moments'\n'Devs are probably just three raccoons in a trenchcoat'\n'Obvious scam.'\n'Federal Honeypot.'\n'This one is just clearly NGMI and if you buy it you deserve to be poor.'\n'Smart contract security looks like Swiss cheese'\n'Good coin for a 10% gain (waste of time).'\n'Just put the fries in the bag, you'd make more money that way.'\n'Reporting dev to the SEC.'\nWrite ONLY the tweet text with no additional commentary:";

/// The classification prompt for `tweet`: the post verbatim, then the task
/// and its criteria.
pub open spec fn decision_prompt(tweet: Seq<char>) -> Seq<char> {
    DECISION_HEAD@ + tweet + DECISION_TAIL@
}

/// The reply prompt for `tweet`.
pub open spec fn reply_prompt(tweet: Seq<char>) -> Seq<char> {
    REPLY_HEAD@ + tweet + REPLY_TAIL@
}

/// The ambient post prompt, which has no input.
pub open spec fn post_prompt() -> Seq<char> {
    POST_PROMPT@
}

/// The generic commentary prompt: the persona, then the three fragments
/// under their labels, then the style rules.
pub open spec fn generic_fud_prompt(
    persona: Seq<char>,
    intro: Seq<char>,
    reason: Seq<char>,
    closing: Seq<char>,
) -> Seq<char> {
    persona + GENERIC_FUD_TASK@ + intro + GENERIC_FUD_REASON@ + reason + GENERIC_FUD_CLOSING@
        + closing + GENERIC_FUD_RULES@
}

/// The editorialized commentary prompt: the persona, then the token
/// description, then the rules and the example lines.
pub open spec fn editorialized_fud_prompt(persona: Seq<char>, token_info: Seq<char>) -> Seq<char> {
    persona + EDITORIAL_FUD_TASK@ + token_info + EDITORIAL_FUD_RULES@
}

/// Builds the classification prompt, with the post in it verbatim.
pub fn build_decision_prompt(tweet: &str) -> (r: String)
    ensures
        r@ == decision_prompt(tweet@),
        contains(r@, tweet@),
{
    proof {
        lemma_decision_prompt_holds_tweet(tweet@);
    }
    String::from_str(DECISION_HEAD).concat(tweet).concat(DECISION_TAIL)
}

/// Builds the reply prompt, with the post in it verbatim.
pub fn build_reply_prompt(tweet: &str) -> (r: String)
    ensures
        r@ == reply_prompt(tweet@),
        contains(r@, tweet@),
{
    proof {
        lemma_reply_prompt_holds_tweet(tweet@);
    }
    String::from_str(REPLY_HEAD).concat(tweet).concat(REPLY_TAIL)
}

/// Builds the ambient post prompt.
pub fn build_post_prompt() -> (r: String)
    ensures
        r@ == post_prompt(),
{
    String::from_str(POST_PROMPT)
}

/// Builds the generic commentary prompt, with the three fragments in it
/// verbatim.
pub fn build_generic_fud_prompt(persona: &str, intro: &str, reason: &str, closing: &str) -> (r:
    String)
    ensures
        r@ == generic_fud_prompt(persona@, intro@, reason@, closing@),
        contains(r@, intro@),
        contains(r@, reason@),
        contains(r@, closing@),
{
    proof {
        lemma_generic_prompt_holds_fragments(persona@, intro@, reason@, closing@);
    }
    String::from_str(persona).concat(GENERIC_FUD_TASK).concat(intro).concat(
        GENERIC_FUD_REASON,
    ).concat(reason).concat(GENERIC_FUD_CLOSING).concat(closing).concat(GENERIC_FUD_RULES)
}

/// Builds the editorialized commentary prompt, with the token description
/// in it verbatim.
pub fn build_editorialized_fud_prompt(persona: &str, token_info: &str) -> (r: String)
    ensures
        r@ == editorialized_fud_prompt(persona@, token_info@),
        contains(r@, token_info@),
{
    proof {
        lemma_editorialized_prompt_holds_token_info(persona@, token_info@);
    }
    String::from_str(persona).concat(EDITORIAL_FUD_TASK).concat(token_info).concat(
        EDITORIAL_FUD_RULES,
    )
}

} // verus!
