use fortified_llm_client::{parse_patterns, Matcher, PatternDefinition, PatternScope, Severity};

#[test]
fn test_parse_patterns_basic() {
    let content = "# This is a comment
input	test_pattern	Test description	high
output	another_pattern	Another test	medium
both	shared_pattern	Shared check	critical
";

    let patterns = parse_patterns(content).unwrap();
    assert_eq!(patterns.len(), 3);

    assert_eq!(patterns[0].scope, PatternScope::Input);
    assert_eq!(patterns[0].description, "Test description");
    assert_eq!(patterns[0].severity, Severity::High);

    assert_eq!(patterns[1].scope, PatternScope::Output);
    assert_eq!(patterns[1].description, "Another test");
    assert_eq!(patterns[1].severity, Severity::Medium);

    assert_eq!(patterns[2].scope, PatternScope::Both);
    assert_eq!(patterns[2].description, "Shared check");
    assert_eq!(patterns[2].severity, Severity::Critical);
}

#[test]
fn test_parse_patterns_empty_lines() {
    let content = "
input	pattern1	Description	low

# Comment in the middle

output	pattern2	Description	high

";

    let patterns = parse_patterns(content).unwrap();
    assert_eq!(patterns.len(), 2);
}

#[test]
fn test_parse_patterns_regex() {
    let content = "
input	\\b[0-9]{3}-[0-9]{2}-[0-9]{4}\\b	SSN pattern	critical
output	(?i)password\\s+\\w+	Credentials	high
both	[a-zA-Z0-9._%+-]+@[a-zA-Z0-9.-]+\\.[a-zA-Z]{2,}	Email	medium
";

    let patterns = parse_patterns(content).unwrap();
    assert_eq!(patterns.len(), 3);

    // Test that regexes actually work
    assert!(patterns[0].regex.is_match("123-45-6789"));
    assert!(patterns[1].regex.is_match("my password is secret"));
    assert!(patterns[2].regex.is_match("user@example.com"));
}

#[test]
fn test_parse_patterns_invalid_scope() {
    let content = "invalid_scope	pattern	description	high";
    let result = parse_patterns(content);
    assert!(result.is_err());
    assert!(result.unwrap_err().to_string().contains("Invalid scope"));
}

#[test]
fn test_parse_patterns_invalid_severity() {
    let content = "input	pattern	description	invalid_severity";
    let result = parse_patterns(content);
    assert!(result.is_err());
    assert!(result.unwrap_err().to_string().contains("Invalid severity"));
}

#[test]
fn test_parse_patterns_invalid_regex() {
    let content = "input	[unclosed	description	high";
    let result = parse_patterns(content);
    assert!(result.is_err());
    assert!(result.unwrap_err().to_string().contains("Invalid regex"));
}

#[test]
fn test_parse_patterns_wrong_field_count() {
    let content = "input	pattern	description"; // Missing severity
    let result = parse_patterns(content);
    assert!(result.is_err());
    assert!(result.unwrap_err().to_string().contains("expected 4"));
}

#[test]
fn test_pattern_applies_to_input() {
    let input_pattern = PatternDefinition {
        scope: PatternScope::Input,
        regex: Matcher::new("test").unwrap(),
        description: "Test".to_string(),
        severity: Severity::Low,
    };
    assert!(input_pattern.applies_to_input());
    assert!(!input_pattern.applies_to_output());

    let both_pattern = PatternDefinition {
        scope: PatternScope::Both,
        regex: Matcher::new("test").unwrap(),
        description: "Test".to_string(),
        severity: Severity::Low,
    };
    assert!(both_pattern.applies_to_input());
    assert!(both_pattern.applies_to_output());
}

#[test]
fn test_pattern_applies_to_output() {
    let output_pattern = PatternDefinition {
        scope: PatternScope::Output,
        regex: Matcher::new("test").unwrap(),
        description: "Test".to_string(),
        severity: Severity::Low,
    };
    assert!(!output_pattern.applies_to_input());
    assert!(output_pattern.applies_to_output());
}

#[test]
fn test_parse_patterns_case_insensitive() {
    let content = "
INPUT	pattern1	Description	LOW
OUTPUT	pattern2	Description	HIGH
BOTH	pattern3	Description	CRITICAL
";

    let patterns = parse_patterns(content).unwrap();
    assert_eq!(patterns.len(), 3);
    assert_eq!(patterns[0].scope, PatternScope::Input);
    assert_eq!(patterns[0].severity, Severity::Low);
    assert_eq!(patterns[1].scope, PatternScope::Output);
    assert_eq!(patterns[1].severity, Severity::High);
    assert_eq!(patterns[2].scope, PatternScope::Both);
    assert_eq!(patterns[2].severity, Severity::Critical);
}

#[test]
fn test_parse_patterns_exact_messages() {
    let e = parse_patterns("input\tpattern\tdescription").unwrap_err();
    assert_eq!(
        e.to_string(),
        "Invalid response: Invalid pattern format at line 1: expected 4 tab-separated fields (scope<TAB>pattern<TAB>description<TAB>severity), got 3"
    );
    let e = parse_patterns("# one\n\nsideways\tx\td\thigh").unwrap_err();
    assert_eq!(
        e.to_string(),
        "Invalid response: Line 3: Invalid scope 'sideways'. Must be 'input', 'output', or 'both'"
    );
    let e = parse_patterns("input\tx\td\tgrave").unwrap_err();
    assert_eq!(
        e.to_string(),
        "Invalid response: Line 1: Invalid severity 'grave'. Must be 'low', 'medium', 'high', or 'critical'"
    );
    let e = parse_patterns("input\t(\td\thigh").unwrap_err();
    assert!(e.to_string().starts_with("Invalid response: Line 1: Invalid regex pattern '(': "));
    assert_eq!(e.code(), "INVALID_RESPONSE");
}

#[test]
fn test_parse_patterns_first_fault_wins() {
    // The scope is checked before the expression and the severity.
    let e = parse_patterns("nowhere\t(\td\tgrave").unwrap_err();
    assert!(e.to_string().contains("Invalid scope"));
    // A fault on a later line does not hide the rules before it, it voids them.
    assert!(parse_patterns("input\tok\td\thigh\ninput\tok\td").is_err());
}

#[test]
fn test_parse_patterns_trims_fields_and_lines() {
    let patterns = parse_patterns("  input \t a+ \t  Some words \t high  \r\n").unwrap();
    assert_eq!(patterns.len(), 1);
    assert_eq!(patterns[0].regex.as_str(), "a+");
    assert_eq!(patterns[0].description, "Some words");
    assert_eq!(patterns[0].severity, Severity::High);
}

#[test]
fn test_matcher_find_reports_byte_offset() {
    let m = Matcher::new("b+").unwrap();
    assert_eq!(m.find("aabbb"), Some(2));
    assert_eq!(m.find("é bb"), Some(3));
    assert_eq!(m.find("aaa"), None);
    assert!(!m.is_match("aaa"));
    assert_eq!(m.count_matches("b ab bb"), 3);
    let g = Matcher::new("x=([0-9]+)").unwrap();
    assert_eq!(g.group("y=1 x=42", 1), Some("42".to_string()));
    assert_eq!(g.group("y=1 x=42", 0), Some("x=42".to_string()));
    assert_eq!(g.group("y=1 x=42", 2), None);
    assert_eq!(g.group("y=1", 1), None);
    let two = Matcher::new("(a)|(b)").unwrap();
    assert_eq!(two.group("b", 1), None);
    assert_eq!(two.group("b", 2), Some("b".to_string()));
    assert!(Matcher::new("(").is_err());
}
