use persona_agent::agent::{finish_text, Agent, Strategy};
use persona_agent::error::AgentError;
use persona_agent::text::{contains_text, decimal_string, is_whitespace, strip_quotes, trim};

fn agent() -> Agent {
    Agent::new("key", "PERSONA")
}

#[test]
fn reply_prompt_is_exact() {
    let request = agent().generate_reply_request("wen moon");
    assert_eq!(
        request.prompt,
        "Task: Generate a post/reply in your voice, style and perspective while using this as context:\nCurrent Post: 'wen moon'\nGenerate a brief, single response that:\n- Uses all lowercase\n- Avoids punctuation\n- Is direct and possibly sarcastic\n- Stays under 280 characters\nWrite only the response text, nothing else:"
    );
    assert_eq!(request.kind, Strategy::Reply);
    assert_eq!(request.system_prompt, "PERSONA");
    assert_eq!(request.temperature_tenths, 9);
    assert_eq!(request.max_tokens, 4096);
}

#[test]
fn post_prompt_is_exact() {
    let request = agent().generate_post_request();
    assert_eq!(
        request.prompt,
        "Write a 1-3 sentence post that would be engaging to readers. Your response should be the EXACT text of the tweet only, with no introductions, meta-commentary, or explanations.\n\n            Requirements:\n            - Stay under 280 characters\n            - No emojis\n            - No hashtags\n            - No questions\n            - Brief, concise statements only\n            - Focus on personal experiences, observations, or thoughts\n            - Write ONLY THE TWEET TEXT with no additional words or commentary"
    );
    assert_eq!(request.kind, Strategy::AmbientPost);
    assert_eq!(request.system_prompt, "PERSONA");
}

#[test]
fn generic_fud_prompt_is_exact() {
    let request = agent().generate_generic_fud_request("look at this", "no liquidity", "stay poor");
    assert_eq!(
        request.prompt,
        "PERSONA\n\nTask: Generate a toxic, cynical comment incorporating these elements:\nIntro: look at this\nFUD Reason: no liquidity\nClosing: stay poor\n\nRequirements:\n- Be extremely sarcastic and cynical\n- Incorporate the provided intro, reason, and closing creatively\n- Don't include a ticker\n            - Stay under 280 characters\n- Use all lowercase except for token symbols\n- Be creative with metaphors about scams, rugpulls, or dev behavior\n- Avoid hashtags\n- No emojis (they will be added later)\nWrite ONLY the tweet text with no additional commentary:"
    );
    assert_eq!(request.kind, Strategy::GenericFud);
}

#[test]
fn generic_fud_prompt_keeps_odd_fragments() {
    let intro = "Intro: {}\n\"'\\";
    let reason = "";
    let closing = "\nClosing: {0} ✓\r\n";
    let request = agent().generate_generic_fud_request(intro, reason, closing);
    assert!(request.prompt.contains(&format!("\nIntro: {}\nFUD Reason: ", intro)));
    assert!(request.prompt.contains("\nFUD Reason: \nClosing: "));
    assert!(request.prompt.contains(&format!("\nClosing: {}\n\nRequirements:", closing)));
}

#[test]
fn editorialized_fud_prompt_holds_token_info() {
    let info = "symbol: $RUG\nliquidity: 12.5\nmarket cap: {unknown}\nchain: solana";
    let request = agent().generate_editorialized_fud_request(info);
    let head = format!(
        "PERSONA\n\nTask: Generate a toxic, cynical commentary about this token:\n{}\nRequirements:\n- Be extremely sarcastic and cynical\n",
        info
    );
    assert!(request.prompt.starts_with(&head));
    assert!(request.prompt.contains("- Don't mention the price\n"));
    assert!(request.prompt.contains("- Use ONLY the actual numbers provided in the token info (liquidity, market cap)\n"));
    assert!(request.prompt.contains("- Use information from SOLANA chain. Do not mention BNB tokens.\n"));
    assert!(request.prompt.contains("- Never make up specific numbers"));
    assert!(request.prompt.contains("- Stay under 280 characters\n"));
    assert!(request.prompt.contains("'Reporting dev to the SEC.'\n"));
    assert!(request.prompt.ends_with("Write ONLY the tweet text with no additional commentary:"));
    assert_eq!(request.kind, Strategy::EditorializedFud);
}

#[test]
fn every_text_strategy_trims_its_completion() {
    let a = agent();
    let raw = " \t\r\n hello world \n\n";
    assert_eq!(a.generate_reply(Some(raw)), Ok("hello world".to_string()));
    assert_eq!(a.generate_post(Some(raw)), Ok("hello world".to_string()));
    assert_eq!(a.generate_generic_fud(Some(raw)), Ok("hello world".to_string()));
    assert_eq!(a.generate_editorialized_fud(Some(raw)), Ok("hello world".to_string()));
    assert_eq!(finish_text(Some(raw)), Ok("hello world".to_string()));
}

#[test]
fn every_text_strategy_passes_failure_on() {
    let a = agent();
    assert_eq!(a.generate_reply(None), Err(AgentError::CompletionError));
    assert_eq!(a.generate_post(None), Err(AgentError::CompletionError));
    assert_eq!(a.generate_generic_fud(None), Err(AgentError::CompletionError));
    assert_eq!(a.generate_editorialized_fud(None), Err(AgentError::CompletionError));
}

#[test]
fn trim_agrees_with_std() {
    let cases = [
        "",
        " ",
        "a",
        " a",
        "a ",
        "  a b  ",
        "\u{a0}x\u{3000}",
        "\u{2003}é ✓\u{2028}\u{2029}",
        "\u{85}\u{1680}mid dle\u{202f}\u{205f}",
        "\u{b}\u{c}x",
        "\u{200b}x\u{200b}",
        "\n\n\n",
        "  \"quoted\"  ",
    ];
    for case in cases {
        assert_eq!(trim(case), case.trim().to_string());
    }
}

#[test]
fn blank_completion_is_a_completion_error() {
    let a = agent();
    for blank in ["", " ", " \n\t ", "\u{a0}\u{3000}\u{2028}", "\r\n"] {
        assert_eq!(finish_text(Some(blank)), Err(AgentError::CompletionError));
        assert_eq!(a.generate_reply(Some(blank)), Err(AgentError::CompletionError));
        assert_eq!(a.generate_post(Some(blank)), Err(AgentError::CompletionError));
        assert_eq!(a.generate_generic_fud(Some(blank)), Err(AgentError::CompletionError));
        assert_eq!(a.generate_editorialized_fud(Some(blank)), Err(AgentError::CompletionError));
    }
    assert_eq!(finish_text(Some(" . ")), Ok(".".to_string()));
    assert_eq!(finish_text(Some("\u{200b}")), Ok("\u{200b}".to_string()));
}

#[test]
fn trim_keeps_inner_white_space() {
    assert_eq!(trim("  a \n b  "), "a \n b");
    assert_eq!(trim("   "), "");
}

#[test]
fn white_space_agrees_with_std() {
    let mut n: u32 = 0;
    while n <= 0x3100 {
        if let Some(c) = char::from_u32(n) {
            assert_eq!(is_whitespace(c), c.is_whitespace());
        }
        n += 1;
    }
}

#[test]
fn strip_quotes_takes_one_layer() {
    assert_eq!(strip_quotes("\"https://img.example/x.png\""), "https://img.example/x.png");
    assert_eq!(strip_quotes("plain"), "plain");
    assert_eq!(strip_quotes(""), "");
    assert_eq!(strip_quotes("\""), "");
    assert_eq!(strip_quotes("\"\""), "");
    assert_eq!(strip_quotes("\"a"), "a");
    assert_eq!(strip_quotes("a\""), "a");
    assert_eq!(strip_quotes("\"\"a\"\""), "\"a\"");
    assert_eq!(strip_quotes(" \"a\" "), " \"a\" ");
    assert_eq!(strip_quotes("\"é✓\""), "é✓");
}

#[test]
fn decimal_string_agrees_with_std() {
    let cases: [u64; 9] = [0, 1, 9, 10, 99, 100, 1_700_000_000_123, 1_000_000_000_000_000_000, u64::MAX];
    for n in cases {
        assert_eq!(decimal_string(n), n.to_string());
    }
}

#[test]
fn search_is_exact() {
    assert!(contains_text("say [OK]", "[OK]"));
    assert!(!contains_text("say [ok]", "[OK]"));
    assert!(contains_text("anything", ""));
    assert!(contains_text("", ""));
    assert!(!contains_text("", "A"));
    assert!(!contains_text("AB", "ABC"));
    assert!(contains_text("ABC", "ABC"));
    assert!(contains_text("xxAB", "AB"));
    assert!(contains_text("ABxx", "AB"));
    assert!(contains_text("AAB", "AB"));
    assert!(!contains_text("A B", "AB"));
    assert!(contains_text("\u{e9}\u{2713}AB\u{2713}", "B\u{2713}"));
}

#[test]
fn error_messages() {
    assert_eq!(
        AgentError::ConfigError(persona_agent::error::ConfigKey::ApiKey).message(),
        "HEURIS_API not found in environment"
    );
    assert_eq!(
        AgentError::ConfigError(persona_agent::error::ConfigKey::BasePrompt).message(),
        "IMAGE_PROMPT not found in environment"
    );
    assert_ne!(AgentError::HttpError.message(), AgentError::ClockError.message());
    assert_ne!(AgentError::CompletionError.message(), AgentError::HttpError.message());
}
