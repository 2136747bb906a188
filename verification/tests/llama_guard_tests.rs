use fortified_llm_client::{
    LlamaGuardCategory, LlamaGuardConfig, LlamaGuardProvider, ProviderSpecificResult, Severity,
};

#[test]
fn test_category_all() {
    let categories = LlamaGuardCategory::all();
    assert_eq!(categories.len(), 14);
}

#[test]
fn test_category_from_str() {
    assert_eq!(
        LlamaGuardCategory::parse("S1").unwrap(),
        LlamaGuardCategory::S1
    );
    assert_eq!(
        LlamaGuardCategory::parse("S10").unwrap(),
        LlamaGuardCategory::S10
    );
    assert_eq!(
        LlamaGuardCategory::parse("s13").unwrap(),
        LlamaGuardCategory::S13
    );
    assert_eq!(
        LlamaGuardCategory::parse("S14").unwrap(),
        LlamaGuardCategory::S14
    );
    assert_eq!(
        LlamaGuardCategory::parse("s14").unwrap(),
        LlamaGuardCategory::S14
    );
    assert!(LlamaGuardCategory::parse("S15").is_err());
    assert!(LlamaGuardCategory::parse("invalid").is_err());
}

#[test]
fn test_category_as_str() {
    assert_eq!(LlamaGuardCategory::S1.as_str(), "S1");
    assert_eq!(LlamaGuardCategory::S10.as_str(), "S10");
    assert_eq!(LlamaGuardCategory::S13.as_str(), "S13");
    assert_eq!(LlamaGuardCategory::S14.as_str(), "S14");
}

#[test]
fn test_category_description() {
    assert_eq!(LlamaGuardCategory::S1.description(), "Violent Crimes");
    assert_eq!(LlamaGuardCategory::S10.description(), "Hate Speech");
    assert_eq!(
        LlamaGuardCategory::S14.description(),
        "Code Interpreter Abuse"
    );
}

#[test]
fn llama_guard_test_parse_response_safe() {
    let config = LlamaGuardConfig::default();
    let provider = LlamaGuardProvider::new(config);

    let result = provider.parse_response("safe").unwrap();
    assert!(result.passed);
    assert_eq!(result.violations.len(), 0);
    assert!(result.quality_score.is_none());
}

#[test]
fn test_parse_response_unsafe_single_category() {
    let config = LlamaGuardConfig::default();
    let provider = LlamaGuardProvider::new(config);

    let result = provider.parse_response("unsafe\nS1").unwrap();
    assert!(!result.passed);
    assert_eq!(result.violations.len(), 1);
    assert_eq!(result.violations[0].rule, "S1");
    assert_eq!(result.violations[0].severity, Severity::Critical);
}

#[test]
fn test_parse_response_unsafe_multiple_categories() {
    let config = LlamaGuardConfig::default();
    let provider = LlamaGuardProvider::new(config);

    let result = provider.parse_response("unsafe\nS1,S9,S10").unwrap();
    assert!(!result.passed);
    assert_eq!(result.violations.len(), 3);
    assert_eq!(result.violations[0].rule, "S1");
    assert_eq!(result.violations[1].rule, "S9");
    assert_eq!(result.violations[2].rule, "S10");
}

#[test]
fn test_parse_response_unsafe_with_spaces() {
    let config = LlamaGuardConfig::default();
    let provider = LlamaGuardProvider::new(config);

    let result = provider.parse_response("unsafe\nS1, S9, S10").unwrap();
    assert!(!result.passed);
    assert_eq!(result.violations.len(), 3);
}

#[test]
fn test_parse_response_with_s14() {
    // Test S14 (Code Interpreter Abuse) category parsing
    let config = LlamaGuardConfig::default();
    let provider = LlamaGuardProvider::new(config);

    let result = provider.parse_response("unsafe\nS14").unwrap();
    assert!(!result.passed);
    assert_eq!(result.violations.len(), 1);
    assert_eq!(result.violations[0].rule, "S14");
    assert_eq!(result.violations[0].severity, Severity::Critical);
    assert!(result.violations[0]
        .message
        .contains("Code Interpreter Abuse"));
}

#[test]
fn test_parse_response_empty() {
    let config = LlamaGuardConfig::default();
    let provider = LlamaGuardProvider::new(config);

    let result = provider.parse_response("");
    assert!(result.is_err());
}

#[test]
fn test_parse_categories() {
    let config = LlamaGuardConfig::default();
    let provider = LlamaGuardProvider::new(config);

    let categories = provider.parse_categories("S1,S9").unwrap();
    assert_eq!(categories.len(), 2);
    assert_eq!(categories[0], LlamaGuardCategory::S1);
    assert_eq!(categories[1], LlamaGuardCategory::S9);
}

#[test]
fn test_enabled_categories_filtering() {
    // Test that only enabled categories are reported as violations
    let config = LlamaGuardConfig {
        enabled_categories: vec![LlamaGuardCategory::S1, LlamaGuardCategory::S9],
        ..Default::default()
    };
    let provider = LlamaGuardProvider::new(config);

    // Response includes S1, S2, S9 - but only S1 and S9 are enabled
    let result = provider.parse_response("unsafe\nS1,S2,S9").unwrap();
    assert!(!result.passed);
    assert_eq!(result.violations.len(), 2); // Only S1 and S9
    assert_eq!(result.violations[0].rule, "S1");
    assert_eq!(result.violations[1].rule, "S9");
}

#[test]
fn test_all_violations_filtered_out() {
    // Test that if all violations are for disabled categories, result is safe
    let config = LlamaGuardConfig {
        enabled_categories: vec![LlamaGuardCategory::S1],
        ..Default::default()
    };
    let provider = LlamaGuardProvider::new(config);

    // Response includes S2, S3 - but only S1 is enabled
    let result = provider.parse_response("unsafe\nS2,S3").unwrap();
    assert!(result.passed); // Passed because no enabled categories violated
    assert_eq!(result.violations.len(), 0);
}

#[test]
fn test_llama_guard_category_s14_parse() {
    assert_eq!(
        LlamaGuardCategory::parse("S14").unwrap(),
        LlamaGuardCategory::S14
    );
    assert_eq!(LlamaGuardCategory::S14.as_str(), "S14");
    assert_eq!(
        LlamaGuardCategory::S14.description(),
        "Code Interpreter Abuse"
    );
}

#[test]
fn test_llama_guard_parse_response_with_s14() {
    let config = LlamaGuardConfig::default();
    let provider = LlamaGuardProvider::new(config);

    // Test unsafe response with S14
    let response = "unsafe\nS14";
    let result = provider.parse_response(response).unwrap();

    assert!(!result.passed);
    assert_eq!(result.violations.len(), 1);
    assert_eq!(result.violations[0].rule, "S14");
    assert!(result.violations[0]
        .message
        .contains("Code Interpreter Abuse"));
}

#[test]
fn test_enabled_categories_decide_the_outcome() {
    // The same answer fails under one set of enabled categories and passes
    // under another.
    let only_s1 = LlamaGuardProvider::new(LlamaGuardConfig {
        enabled_categories: vec![LlamaGuardCategory::S1],
        ..Default::default()
    });
    let result = only_s1.parse_response("unsafe\nS1,S9").unwrap();
    assert!(!result.passed);
    assert_eq!(result.violations.len(), 1);
    assert_eq!(result.violations[0].rule, "S1");
    assert_eq!(result.violations[0].message, "Llama Guard violation: Violent Crimes");
    assert_eq!(result.violations[0].location, None);
    assert!(result.warnings.is_empty());

    let only_s2 = LlamaGuardProvider::new(LlamaGuardConfig {
        enabled_categories: vec![LlamaGuardCategory::S2],
        ..Default::default()
    });
    let result = only_s2.parse_response("unsafe\nS1,S9").unwrap();
    assert!(result.passed);
    assert!(result.violations.is_empty());
    match result.provider_specific {
        Some(ProviderSpecificResult::LlamaGuard(raw)) => {
            assert!(raw.safe);
            assert!(raw.violated_categories.is_empty());
            assert_eq!(raw.raw_response, "unsafe\nS1,S9");
        }
        _ => panic!("Expected the raw answer of the category classifier"),
    }
}

#[test]
fn test_llama_guard_answer_grammar_edges() {
    let provider = LlamaGuardProvider::new(LlamaGuardConfig::default());
    // The first line is read in any case and with blanks around it.
    assert!(provider.parse_response("  SAFE  \n").unwrap().passed);
    assert!(provider.parse_response("Safe\r\nS1").unwrap().passed);
    // An unknown code is an error, not a failed result.
    let e = provider.parse_response("unsafe\nS1,S99").unwrap_err();
    assert_eq!(e.to_string(), "Invalid response: Unknown Llama Guard category: S99");
    // `unsafe` without a second line names no enabled category, and passes.
    let result = provider.parse_response("unsafe").unwrap();
    assert!(result.passed);
    assert!(result.violations.is_empty());
    // Empty entries are ignored.
    assert_eq!(provider.parse_categories(" S3 ,, s4 ,").unwrap().len(), 2);
    // Only blanks is an empty answer.
    assert_eq!(
        provider.parse_response(" \n ").unwrap_err().to_string(),
        "Invalid response: Empty Llama Guard response"
    );
}

#[test]
fn test_llama_guard_request_and_name() {
    let provider = LlamaGuardProvider::new(LlamaGuardConfig {
        api_key: Some("k".to_string()),
        ..Default::default()
    });
    let request = provider.request("some text");
    assert_eq!(request.model, "llama-guard-3:8b");
    assert_eq!(request.system_prompt, "");
    assert_eq!(request.user_prompt, "some text");
    assert_eq!(request.temperature.millionths, 0);
    assert_eq!(request.max_tokens, Some(100));
    assert_eq!(request.seed, None);
    assert_eq!(request.api_key, Some("k"));
    assert_eq!(request.timeout_secs, 30);
    assert_eq!(provider.name(), "LlamaGuard3");
}

#[test]
fn test_category_round_trip() {
    for c in LlamaGuardCategory::all() {
        assert_eq!(LlamaGuardCategory::parse(c.as_str()).unwrap(), c);
        assert_eq!(
            LlamaGuardCategory::parse(&c.as_str().to_lowercase()).unwrap(),
            c
        );
    }
}

#[test]
fn test_first_line_outside_the_grammar_is_an_error() {
    let provider = LlamaGuardProvider::new(LlamaGuardConfig::default());
    for answer in [
        "maybe",
        "maybe\nS1",
        "safe-ish",
        "un safe",
        "unsafe S1",
        "S1",
        "{\"safe\": true}",
        "not safe",
        "safe.",
        "\u{17f}afe",
    ] {
        let e = provider.parse_response(answer).unwrap_err();
        assert_eq!(e.code(), "INVALID_RESPONSE", "for {answer:?}");
        assert_eq!(
            e.to_string(),
            format!("Invalid response: Unexpected Llama Guard response: {answer}")
        );
    }
    for answer in ["", "   ", "\n\n"] {
        let e = provider.parse_response(answer).unwrap_err();
        assert_eq!(e.to_string(), "Invalid response: Empty Llama Guard response");
    }
    // The two words are read in any case and with blanks around them.
    assert!(provider.parse_response(" Safe ").unwrap().passed);
    assert!(!provider.parse_response("UNSAFE\ns1").unwrap().passed);
    assert!(!provider.parse_response("  UnSafe  \n S2 ").unwrap().passed);
}

#[test]
fn test_verdict_of_categories_takes_the_categories_as_given() {
    let provider = LlamaGuardProvider::new(LlamaGuardConfig {
        enabled_categories: vec![LlamaGuardCategory::S1, LlamaGuardCategory::S3],
        ..Default::default()
    });
    let found = vec![
        LlamaGuardCategory::S3,
        LlamaGuardCategory::S9,
        LlamaGuardCategory::S1,
    ];
    let result = provider.verdict_of_categories(false, &found, "kept");
    assert!(!result.passed);
    let rules: Vec<&str> = result.violations.iter().map(|v| v.rule.as_str()).collect();
    assert_eq!(rules, vec!["S3", "S1"]);
    match result.provider_specific {
        Some(ProviderSpecificResult::LlamaGuard(raw)) => {
            assert!(!raw.safe);
            assert_eq!(raw.violated_categories, vec!["S3", "S1"]);
            assert_eq!(raw.raw_response, "kept");
        }
        _ => panic!("Expected the raw answer of the category classifier"),
    }
    let result = provider.verdict_of_categories(false, &vec![LlamaGuardCategory::S9], "kept");
    assert!(result.passed);
    assert!(result.violations.is_empty());
    assert!(provider.verdict_of_categories(true, &vec![], "kept").passed);
}

#[test]
fn test_category_codes_are_put_in_upper_case_first() {
    assert_eq!(LlamaGuardCategory::from_code("S7"), Some(LlamaGuardCategory::S7));
    assert_eq!(LlamaGuardCategory::from_code("s7"), None);
    assert_eq!(LlamaGuardCategory::from_code("S15"), None);
    assert_eq!(LlamaGuardCategory::from_code(" S1"), None);
    assert_eq!(
        LlamaGuardCategory::parse("s7").unwrap(),
        LlamaGuardCategory::S7
    );
    // The upper-case form is that of Unicode: the long s is an s.
    assert_eq!(
        LlamaGuardCategory::parse("\u{17f}12").unwrap(),
        LlamaGuardCategory::S12
    );
    assert_eq!(
        LlamaGuardCategory::parse("x1").unwrap_err().to_string(),
        "Invalid response: Unknown Llama Guard category: x1"
    );
}
