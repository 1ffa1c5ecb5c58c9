use orbit::dispatch::{
    classify_failure, fallback_models, full_prompt, image_prompt, image_prompt_with_encoded,
    outcome_of_failure, stream_error, vision_candidates, ChatError, ChatOutcome, FailureKind,
    FallbackChain, LangChainChatBot, ModelCandidate, API_PARSE_ERROR_PREFIX, AGENT_INVOCATION_ERROR_PREFIX,
    ORBIT_SYSTEM_PROMPT, RATE_LIMIT_ERROR,
};

/// Drives a chain the way a caller does, recording which candidates were tried.
fn drive(outcomes: Vec<ChatOutcome>) -> (Result<String, ChatError>, Vec<usize>) {
    let mut chain = FallbackChain::new(outcomes.len());
    let mut pending: Vec<Option<ChatOutcome>> = outcomes.into_iter().map(Some).collect();
    let mut tried = Vec::new();
    while let Some(i) = chain.next_candidate() {
        tried.push(i);
        let outcome = pending[i].take().expect("each candidate is tried once");
        if let Some(result) = chain.record(outcome) {
            return (result, tried);
        }
    }
    panic!("the chain ended without a result");
}

/// Runs `ask_orbit` over three models whose invocations give `outcomes`,
/// recording which models were invoked and with what prompt.
fn ask_three(outcomes: Vec<ChatOutcome>) -> (Result<String, ChatError>, Vec<String>, Vec<String>) {
    let models = vec![
        ModelCandidate { identifier: "m0".to_string(), vision: false },
        ModelCandidate { identifier: "m1".to_string(), vision: true },
        ModelCandidate { identifier: "m2".to_string(), vision: false },
    ];
    let bot = LangChainChatBot::with_models(models).unwrap();
    let pending = std::cell::RefCell::new(outcomes.into_iter().map(Some).collect::<Vec<_>>());
    let invoked = std::cell::RefCell::new(Vec::new());
    let prompts = std::cell::RefCell::new(Vec::new());
    let result = bot.ask_orbit("hello", |m: &ModelCandidate, p: &String| {
        let i = invoked.borrow().len();
        invoked.borrow_mut().push(m.identifier.clone());
        prompts.borrow_mut().push(p.clone());
        pending.borrow_mut()[i].take().unwrap()
    });
    (result, invoked.into_inner(), prompts.into_inner())
}

#[test]
fn ask_orbit_falls_back_in_list_order() {
    let (result, invoked, prompts) = ask_three(vec![
        ChatOutcome::RateLimited,
        ChatOutcome::Success("ok".to_string()),
        ChatOutcome::Success("late".to_string()),
    ]);
    assert_eq!(result.unwrap(), "ok");
    assert_eq!(invoked, vec!["m0", "m1"]);
    assert!(prompts.iter().all(|p| *p == full_prompt("hello")));
}

#[test]
fn ask_orbit_fails_fast_on_invocation_error() {
    let (result, invoked, _) = ask_three(vec![
        ChatOutcome::InvocationError("boom".to_string()),
        ChatOutcome::Success("would succeed".to_string()),
        ChatOutcome::Success("x".to_string()),
    ]);
    assert_eq!(result.unwrap_err().message(), "Agent invocation failed: boom");
    assert_eq!(invoked, vec!["m0"]);
}

#[test]
fn ask_orbit_exhausts_rate_limited_models() {
    let (result, invoked, _) =
        ask_three(vec![ChatOutcome::RateLimited, ChatOutcome::RateLimited, ChatOutcome::RateLimited]);
    let message = result.unwrap_err().message();
    assert_eq!(message, RATE_LIMIT_ERROR);
    assert!(message.contains("You've hit your free usage limit"));
    assert_eq!(invoked, vec!["m0", "m1", "m2"]);
}

#[test]
fn ask_with_image_uses_vision_models_only() {
    let bot = LangChainChatBot::new().vision_only().unwrap();
    let ids: Vec<&str> = bot.models().iter().map(|m| m.identifier.as_str()).collect();
    assert_eq!(ids.len(), 5);
    assert!(!ids.contains(&"deepseek/deepseek-r1-0528:free"));
    let invoked = std::cell::RefCell::new(Vec::new());
    let result = bot.ask_orbit_with_image("what?", &[1u8, 2, 3], |m: &ModelCandidate, p: &String| {
        invoked.borrow_mut().push(m.identifier.clone());
        assert!(p.ends_with("base64,AQID"));
        if invoked.borrow().len() < 2 { ChatOutcome::RateLimited } else { ChatOutcome::Success("img".to_string()) }
    });
    assert_eq!(result.unwrap(), "img");
    assert_eq!(invoked.into_inner(), vec!["google/gemini-2.0-flash-exp:free", "mistralai/mistral-small-3.2-24b-instruct:free"]);
}

#[test]
fn bot_needs_a_model() {
    assert!(LangChainChatBot::with_models(Vec::new()).is_none());
    let text_only = vec![ModelCandidate { identifier: "t".to_string(), vision: false }];
    assert!(LangChainChatBot::with_models(text_only).unwrap().vision_only().is_none());
}

#[test]
fn classifies_rate_limit_by_status_code() {
    assert_eq!(classify_failure("HTTP status 429 Too Many Requests"), FailureKind::RateLimited);
}

#[test]
fn classifies_rate_limit_by_decode_pattern() {
    let detail = "OpenAIError(JSONDeserialize(failed to deserialize api response: invalid type: integer `429`))";
    assert_eq!(classify_failure(detail), FailureKind::RateLimited);
}

#[test]
fn classifies_decode_error_without_rate_limit() {
    let detail = "failed to deserialize api response: invalid type: integer `500`, expected a string";
    assert_eq!(classify_failure(detail), FailureKind::Parse);
}

#[test]
fn classifies_other_failures_as_invocation() {
    assert_eq!(classify_failure("connection reset by peer"), FailureKind::Invocation);
    assert_eq!(classify_failure(""), FailureKind::Invocation);
    assert_eq!(classify_failure("could not deserialize the body"), FailureKind::Invocation);
}

#[test]
fn outcome_keeps_the_detail() {
    match outcome_of_failure("bad gateway".to_string()) {
        ChatOutcome::InvocationError(d) => assert_eq!(d, "bad gateway"),
        other => panic!("unexpected {:?}", other),
    }
    assert!(matches!(outcome_of_failure("429".to_string()), ChatOutcome::RateLimited));
}

#[test]
fn fallback_order_stops_at_first_success() {
    let outcomes = vec![
        ChatOutcome::RateLimited,
        ChatOutcome::RateLimited,
        ChatOutcome::Success("ok".to_string()),
        ChatOutcome::Success("late".to_string()),
    ];
    let (result, tried) = drive(outcomes);
    assert_eq!(result.unwrap(), "ok");
    assert_eq!(tried, vec![0, 1, 2]);
}

#[test]
fn first_candidate_success_takes_one_attempt() {
    let (result, tried) = drive(vec![ChatOutcome::Success("hi".to_string()), ChatOutcome::RateLimited]);
    assert_eq!(result.unwrap(), "hi");
    assert_eq!(tried, vec![0]);
}

#[test]
fn invocation_error_fails_fast() {
    let outcomes = vec![
        ChatOutcome::InvocationError("boom".to_string()),
        ChatOutcome::Success("would succeed".to_string()),
    ];
    let (result, tried) = drive(outcomes);
    match result {
        Err(ChatError::Invocation(d)) => assert_eq!(d, "boom"),
        other => panic!("unexpected {:?}", other),
    }
    assert_eq!(tried, vec![0]);
}

#[test]
fn parse_error_after_rate_limit_fails_fast() {
    let outcomes = vec![
        ChatOutcome::RateLimited,
        ChatOutcome::ParseError("integer".to_string()),
        ChatOutcome::Success("unused".to_string()),
    ];
    let (result, tried) = drive(outcomes);
    assert!(matches!(result, Err(ChatError::Parse(_))));
    assert_eq!(tried, vec![0, 1]);
}

#[test]
fn all_rate_limited_gives_upgrade_message() {
    let outcomes = vec![ChatOutcome::RateLimited, ChatOutcome::RateLimited, ChatOutcome::RateLimited];
    let (result, tried) = drive(outcomes);
    let err = result.unwrap_err();
    assert!(matches!(err, ChatError::RateLimitExhausted));
    assert_eq!(err.message(), RATE_LIMIT_ERROR);
    assert_eq!(tried, vec![0, 1, 2]);
}

#[test]
fn single_candidate_rate_limited() {
    let (result, tried) = drive(vec![ChatOutcome::RateLimited]);
    assert!(matches!(result, Err(ChatError::RateLimitExhausted)));
    assert_eq!(tried, vec![0]);
}

#[test]
fn settled_chain_offers_no_candidate() {
    let mut chain = FallbackChain::new(3);
    assert_eq!(chain.next_candidate(), Some(0));
    assert!(chain.record(ChatOutcome::RateLimited).is_none());
    assert_eq!(chain.next_candidate(), Some(1));
    assert!(chain.record(ChatOutcome::Success("x".to_string())).is_some());
    assert_eq!(chain.next_candidate(), None);
}

#[test]
fn error_messages_carry_prefixes() {
    assert_eq!(
        ChatError::Parse("detail".to_string()).message(),
        format!("{}detail", API_PARSE_ERROR_PREFIX)
    );
    assert_eq!(
        ChatError::Invocation("x".to_string()).message(),
        "Agent invocation failed: x"
    );
    assert_eq!(ChatError::Execution("y".to_string()).message(), "Agent execution failed: y");
    assert!(AGENT_INVOCATION_ERROR_PREFIX.ends_with(": "));
}

#[test]
fn prompt_prepends_system_prompt() {
    let p = full_prompt("hello");
    assert!(p.starts_with(ORBIT_SYSTEM_PROMPT));
    assert_eq!(p, format!("{}\n\nUser: hello", ORBIT_SYSTEM_PROMPT));
}

#[test]
fn image_prompt_embeds_base64() {
    let p = image_prompt("what is this?", &[1u8, 2, 3, 255]);
    assert_eq!(
        p,
        format!(
            "{}\n\nUser: what is this?\n\nImage: data:image/png;base64,AQID/w==",
            ORBIT_SYSTEM_PROMPT
        )
    );
    assert_eq!(image_prompt_with_encoded("q", "AAAA"), format!("{}\n\nUser: q\n\nImage: data:image/png;base64,AAAA", ORBIT_SYSTEM_PROMPT));
}

#[test]
fn image_prompt_of_empty_image() {
    let p = image_prompt("q", &[]);
    assert!(p.ends_with("base64,"));
}

#[test]
fn fallback_list_order_and_vision() {
    let models = fallback_models();
    assert_eq!(models.len(), 7);
    assert_eq!(models[0].identifier, "google/gemini-2.0-flash-exp:free");
    assert_eq!(models[1].identifier, "deepseek/deepseek-r1-0528:free");
    assert_eq!(models[6].identifier, "moonshotai/kimi-vl-a3b-thinking:free");
    assert_eq!(vision_candidates(&models), vec![0, 3, 4, 5, 6]);
}

#[test]
fn vision_candidates_of_text_only_list() {
    let models = vec![ModelCandidate { identifier: "a".to_string(), vision: false }];
    assert!(vision_candidates(&models).is_empty());
    assert!(vision_candidates(&Vec::new()).is_empty());
}

#[test]
fn stream_failure_keeps_partial_text() {
    match stream_error("ab".to_string(), "socket closed".to_string()) {
        ChatError::PartialStreamFailure { partial_text, detail } => {
            assert_eq!(partial_text, "ab");
            assert_eq!(detail, "socket closed");
        }
        other => panic!("unexpected {:?}", other),
    }
    assert!(matches!(stream_error(String::new(), "socket closed".to_string()), ChatError::Execution(_)));
    assert!(matches!(
        stream_error("ab".to_string(), "status 429".to_string()),
        ChatError::PartialStreamFailure { .. }
    ));
    assert!(matches!(stream_error(String::new(), "status 429".to_string()), ChatError::RateLimitExhausted));
    assert!(matches!(
        stream_error(String::new(), "deserialize integer".to_string()),
        ChatError::Parse(_)
    ));
}
