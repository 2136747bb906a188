use fortified_llm_client::{
    create_guardrail_provider, Environment, GuardrailProviderConfig, LlamaPromptGuardConfig,
    LlamaPromptGuardProvider, ProviderSpecificResult, Score,
};

#[test]
fn test_parse_response_benign() {
    let config = LlamaPromptGuardConfig::default();
    let provider = LlamaPromptGuardProvider::new(config);

    let result = provider.parse_response("BENIGN").unwrap();
    assert!(result.passed);
    assert_eq!(result.violations.len(), 0);
}

#[test]
fn test_parse_response_malicious() {
    let config = LlamaPromptGuardConfig::default();
    let provider = LlamaPromptGuardProvider::new(config);

    let result = provider.parse_response("MALICIOUS").unwrap();
    assert!(!result.passed);
    assert_eq!(result.violations.len(), 1);
    assert_eq!(result.violations[0].rule, "PROMPT_INJECTION");
}

#[test]
fn test_parse_response_label_0() {
    let config = LlamaPromptGuardConfig::default();
    let provider = LlamaPromptGuardProvider::new(config);

    let result = provider.parse_response("LABEL_0").unwrap();
    assert!(result.passed);
    assert_eq!(result.violations.len(), 0);
}

#[test]
fn test_parse_response_label_1() {
    let config = LlamaPromptGuardConfig::default();
    let provider = LlamaPromptGuardProvider::new(config);

    let result = provider.parse_response("LABEL_1").unwrap();
    assert!(!result.passed);
    assert_eq!(result.violations.len(), 1);
    assert_eq!(result.violations[0].rule, "PROMPT_INJECTION");
}

#[test]
fn test_parse_response_case_insensitive() {
    let config = LlamaPromptGuardConfig::default();
    let provider = LlamaPromptGuardProvider::new(config);

    let result = provider.parse_response("benign").unwrap();
    assert!(result.passed);

    let result = provider.parse_response("malicious").unwrap();
    assert!(!result.passed);
}

#[test]
fn test_threshold_filtering() {
    let config = LlamaPromptGuardConfig {
        threshold: Score::from_millionths(800_000), // High threshold
        ..Default::default()
    };
    let provider = LlamaPromptGuardProvider::new(config);

    // Low confidence malicious should pass (below threshold)
    let result = provider
        .parse_response("MALICIOUS (confidence: 0.6)")
        .unwrap();
    assert!(
        result.passed,
        "Should pass with confidence 0.6 < threshold 0.8"
    );
}

#[test]
fn test_threshold_filtering_high_confidence() {
    let config = LlamaPromptGuardConfig {
        threshold: Score::from_millionths(500_000),
        ..Default::default()
    };
    let provider = LlamaPromptGuardProvider::new(config);

    // High confidence malicious should fail (above threshold)
    let result = provider
        .parse_response("MALICIOUS (confidence: 0.95)")
        .unwrap();
    assert!(
        !result.passed,
        "Should fail with confidence 0.95 >= threshold 0.5"
    );
}

#[test]
fn test_extract_confidence_patterns() {
    let config = LlamaPromptGuardConfig::default();
    let provider = LlamaPromptGuardProvider::new(config);

    // Pattern: "confidence: 0.95"
    assert_eq!(
        provider.extract_confidence("MALICIOUS confidence: 0.95"),
        Some(Score::from_millionths(950_000))
    );

    // Pattern: "score: 0.87"
    assert_eq!(
        provider.extract_confidence("MALICIOUS score: 0.87"),
        Some(Score::from_millionths(870_000))
    );

    // Pattern: "(0.93)"
    assert_eq!(
        provider.extract_confidence("MALICIOUS (0.93)"),
        Some(Score::from_millionths(930_000))
    );

    // No confidence found
    assert_eq!(provider.extract_confidence("MALICIOUS"), None);
}

#[test]
fn test_invalid_response() {
    let config = LlamaPromptGuardConfig::default();
    let provider = LlamaPromptGuardProvider::new(config);

    let result = provider.parse_response("INVALID_RESPONSE");
    assert!(result.is_err());
}

#[test]
fn test_provider_specific_result() {
    let config = LlamaPromptGuardConfig::default();
    let provider = LlamaPromptGuardProvider::new(config);

    let result = provider
        .parse_response("MALICIOUS (confidence: 0.95)")
        .unwrap();

    // Check provider-specific result is populated
    assert!(result.provider_specific.is_some());

    if let Some(ProviderSpecificResult::LlamaPromptGuard(pg_result)) = result.provider_specific {
        assert!(pg_result.malicious);
        assert_eq!(pg_result.confidence, Score::from_millionths(950_000));
        assert_eq!(pg_result.label, "MALICIOUS");
        assert_eq!(pg_result.raw_response, "MALICIOUS (confidence: 0.95)");
    } else {
        panic!("Expected LlamaPromptGuard provider-specific result");
    }
}

/// Test that LlamaPromptGuard can be created as a provider
#[test]
fn test_llama_prompt_guard_provider_creation() {
    let config = GuardrailProviderConfig::LlamaPromptGuard {
        api_url: "http://localhost:11434/api/generate".to_string(),
        model: "llama-prompt-guard-2-22m".to_string(),
        timeout_secs: 10,
        threshold: Score::from_millionths(500_000),
        api_key: None,
        api_key_name: None,
    };

    let provider = create_guardrail_provider(&config, &Environment::empty());
    assert!(provider.is_ok());

    let provider = provider.unwrap();
    assert_eq!(provider.name(), "LlamaPromptGuard2");
}

/// Test LlamaPromptGuardConfig struct creation
#[test]
fn test_llama_prompt_guard_config_struct() {
    let config = LlamaPromptGuardConfig {
        api_url: "https://api.groq.com/openai/v1/chat/completions".to_string(),
        model: "meta-llama/llama-prompt-guard-2-22m".to_string(),
        timeout_secs: 5,
        threshold: Score::from_millionths(300_000),
        api_key: None,
        api_key_name: None,
    };

    assert_eq!(
        config.api_url,
        "https://api.groq.com/openai/v1/chat/completions"
    );
    assert_eq!(config.model, "meta-llama/llama-prompt-guard-2-22m");
    assert_eq!(config.timeout_secs, 5);
    assert_eq!(config.threshold, Score::from_millionths(300_000));
}

/// Test LlamaPromptGuardProvider creation
#[test]
fn test_llama_prompt_guard_provider_struct() {
    let config = LlamaPromptGuardConfig::default();
    let provider = LlamaPromptGuardProvider::new(config);
    assert_eq!(provider.name(), "LlamaPromptGuard2");
}

fn guard_with_threshold(millionths: u64) -> LlamaPromptGuardProvider {
    LlamaPromptGuardProvider::new(LlamaPromptGuardConfig {
        threshold: Score::from_millionths(millionths),
        ..Default::default()
    })
}

#[test]
fn test_threshold_decides_a_malicious_label() {
    let answer = "MALICIOUS (confidence: 0.6)";
    let lenient = guard_with_threshold(800_000).parse_response(answer).unwrap();
    assert!(lenient.passed);
    assert!(lenient.violations.is_empty());

    let strict = guard_with_threshold(500_000).parse_response(answer).unwrap();
    assert!(!strict.passed);
    assert_eq!(strict.violations.len(), 1);
    assert_eq!(
        strict.violations[0].message,
        "Prompt injection or jailbreak attempt detected (confidence: 0.60, threshold: 0.50)"
    );

    // A confidence equal to the threshold is a violation.
    assert!(!guard_with_threshold(600_000).parse_response(answer).unwrap().passed);
}

#[test]
fn test_benign_passes_under_every_threshold() {
    for threshold in [0, 1, 500_000, 1_000_000, u64::MAX] {
        for answer in ["BENIGN", "benign (confidence: 0.99)", "LABEL_0 score: 1.0"] {
            let result = guard_with_threshold(threshold).parse_response(answer).unwrap();
            assert!(result.passed);
            assert!(result.violations.is_empty());
            assert!(result.warnings.is_empty());
        }
    }
}

#[test]
fn test_default_confidences() {
    let result = guard_with_threshold(1_000_000).parse_response("MALICIOUS").unwrap();
    assert!(!result.passed, "a bare malicious label has confidence 1");
    let result = guard_with_threshold(1_000_001).parse_response("MALICIOUS").unwrap();
    assert!(result.passed);
    match guard_with_threshold(0).parse_response("BENIGN").unwrap().provider_specific {
        Some(ProviderSpecificResult::LlamaPromptGuard(raw)) => {
            assert!(!raw.malicious);
            assert_eq!(raw.confidence, Score::zero());
            assert_eq!(raw.label, "BENIGN");
        }
        _ => panic!("Expected the raw answer of the prompt classifier"),
    }
}

#[test]
fn test_malicious_label_is_looked_for_first() {
    let result = guard_with_threshold(500_000)
        .parse_response("benign? no: malicious")
        .unwrap();
    assert!(!result.passed);
}

#[test]
fn test_unexpected_label_message() {
    let e = guard_with_threshold(500_000).parse_response(" dunno ").unwrap_err();
    assert_eq!(
        e.to_string(),
        "Invalid response: Unexpected Prompt Guard response:  dunno "
    );
}

#[test]
fn test_classify_takes_the_confidence_as_given() {
    let provider = guard_with_threshold(800_000);
    let low = provider
        .classify("MALICIOUS", Some(Score::from_millionths(600_000)), "raw")
        .unwrap();
    assert!(low.passed);
    let high = provider
        .classify("MALICIOUS", Some(Score::from_millionths(800_000)), "raw")
        .unwrap();
    assert!(!high.passed);
    assert!(provider.classify("SOMETHING", None, "raw").is_err());
}

#[test]
fn test_first_score_skips_what_is_no_number() {
    let candidates = vec![
        None,
        Some("1.2.3".to_string()),
        Some(".".to_string()),
        Some("0.25".to_string()),
        Some("0.75".to_string()),
    ];
    assert_eq!(
        LlamaPromptGuardProvider::first_score(&candidates),
        Some(Score::from_millionths(250_000))
    );
    assert_eq!(LlamaPromptGuardProvider::first_score(&vec![None]), None);
}

#[test]
fn test_confidence_patterns_in_order() {
    let provider = guard_with_threshold(500_000);
    assert_eq!(
        provider.extract_confidence("score: 0.1 (0.2) confidence: 0.3"),
        Some(Score::from_millionths(300_000))
    );
    assert_eq!(
        provider.extract_confidence("(0.2) score 0.1"),
        Some(Score::from_millionths(100_000))
    );
    // What follows the word is no number: the next pattern is tried.
    assert_eq!(
        provider.extract_confidence("confidence: ... (0.4)"),
        Some(Score::from_millionths(400_000))
    );
}

#[test]
fn test_score_parse_decimal() {
    assert_eq!(Score::parse_decimal("0.95"), Some(Score::from_millionths(950_000)));
    assert_eq!(Score::parse_decimal("1"), Some(Score::one()));
    assert_eq!(Score::parse_decimal("1."), Some(Score::one()));
    assert_eq!(Score::parse_decimal(".5"), Some(Score::from_millionths(500_000)));
    assert_eq!(Score::parse_decimal("007.250"), Some(Score::from_millionths(7_250_000)));
    assert_eq!(
        Score::parse_decimal("0.1234567899"),
        Some(Score::from_millionths(123_456))
    );
    assert_eq!(Score::parse_decimal(""), None);
    assert_eq!(Score::parse_decimal("."), None);
    assert_eq!(Score::parse_decimal("1.2.3"), None);
    assert_eq!(Score::parse_decimal("1e3"), None);
    assert_eq!(Score::parse_decimal("-1"), None);
    assert_eq!(
        Score::parse_decimal("18446744073709.551615"),
        Some(Score::from_millionths(u64::MAX))
    );
    assert_eq!(
        Score::parse_decimal("18446744073709.551614"),
        Some(Score::from_millionths(u64::MAX - 1))
    );
    assert_eq!(
        Score::parse_decimal("99999999999999999999999999"),
        Some(Score::from_millionths(u64::MAX))
    );
}

#[test]
fn test_score_rendering() {
    let mut out = String::new();
    Score::from_millionths(954_999).append_two_places(&mut out);
    assert_eq!(out, "0.95");
    let mut out = String::from("x");
    Score::from_millionths(955_000).append_two_places(&mut out);
    assert_eq!(out, "x0.96");
    let mut out = String::new();
    Score::from_millionths(12_000_000).append_two_places(&mut out);
    assert_eq!(out, "12.00");
    let mut out = String::new();
    Score::from_millionths(6_540_000).append_one_place(&mut out);
    assert_eq!(out, "6.5");
    let mut out = String::new();
    Score::from_millionths(9_950_000).append_one_place(&mut out);
    assert_eq!(out, "10.0");
}

#[test]
fn test_prompt_window() {
    let provider = guard_with_threshold(500_000);
    let short = "a".repeat(2048);
    assert_eq!(provider.request(&short).user_prompt, short);
    let long = "a".repeat(2049);
    assert_eq!(provider.request(&long).user_prompt, short);
    // The window is counted in characters, so that no character is cut.
    let wide = "é".repeat(3000);
    assert_eq!(provider.request(&wide).user_prompt, "é".repeat(2048));
    let request = provider.request("x");
    assert_eq!(request.system_prompt, "");
    assert_eq!(request.max_tokens, Some(50));
    assert_eq!(request.timeout_secs, 10);
    assert_eq!(request.temperature, Score::zero());
}

#[test]
fn test_answer_is_put_in_upper_case_by_unicode() {
    let provider = guard_with_threshold(500_000);
    // The dotless i is an I in upper case.
    assert!(!provider.parse_response("mal\u{131}c\u{131}ous").unwrap().passed);
    assert!(provider.parse_response("  ben\u{131}gn  ").unwrap().passed);
    // Given the normalized form, the labels are looked for as they stand.
    assert!(provider.classify("malicious", None, "raw").is_err());
    assert!(provider.classify("BENIGN", None, "raw").unwrap().passed);
}
