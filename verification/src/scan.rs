//! Running a list of rules over a text and reporting what matched.
//!
//! The pattern-match providers share this: they differ in which rules they
//! hold, in which of them they run, and in the words of their findings.

use vstd::prelude::*;
use vstd::string::StringExecFns;
use crate::matcher::regex_first_match;
use crate::patterns::{PatternDefinition, PatternDefinitionView};
use crate::provider::{Severity, Violation, ViolationView};
use crate::text::{
    append_decimal, decimal, from_chars, replace_chars, replaced, to_chars, to_uppercase,
    unicode_uppercase,
};

verus! {

/// The words in which a match is reported.
#[derive(Debug, Clone, Copy, PartialEq, Eq, Structural)]
pub enum FindingStyle {
    /// The rule's description names the finding.
    Matched,
    /// A built-in rule for content on its way to a model: the finding is
    /// personal data or filtered content.
    Detected,
    /// A rule that the user supplied.
    Custom,
    /// A built-in rule for content that a model produced.
    Safety,
}

/// An upper-case description as a rule code: with an underscore for each
/// space.
pub open spec fn code_of_upper(upper: Seq<char>) -> Seq<char> {
    replaced(upper, ' ', '_')
}

/// The description of a rule as a rule code: in upper case, with an
/// underscore for each space.
pub open spec fn rule_code(description: Seq<char>) -> Seq<char> {
    code_of_upper(unicode_uppercase(description))
}

/// The finding that reports a match of `rule` at byte offset `start`.
/// `personal` says whether a built-in input rule is about personal data.
pub open spec fn finding(
    style: FindingStyle,
    personal: bool,
    rule: PatternDefinitionView,
    start: usize,
) -> ViolationView {
    ViolationView {
        rule: match style {
            FindingStyle::Matched => rule_code(rule.description),
            FindingStyle::Detected => if personal {
                "PII_DETECTED"@
            } else {
                "CONTENT_FILTER"@
            },
            FindingStyle::Custom => "CUSTOM_"@ + rule_code(rule.description),
            FindingStyle::Safety => "SAFETY"@,
        },
        severity: rule.severity,
        message: match style {
            FindingStyle::Matched => "Matched: "@ + rule.description,
            FindingStyle::Detected => "Detected: "@ + rule.description,
            FindingStyle::Custom => "Custom pattern matched: "@ + rule.description,
            FindingStyle::Safety => "Detected: "@ + rule.description,
        },
        location: Some("Position "@ + decimal(start as nat)),
    }
}

/// Where each rule matches in `content`: the byte offset of the leftmost
/// match of every rule that is active, and `None` for a rule that has no
/// match or is not active.
pub open spec fn matches_of(
    rules: Seq<PatternDefinitionView>,
    active: Seq<bool>,
    content: Seq<char>,
) -> Seq<Option<usize>> {
    Seq::new(
        rules.len(),
        |i: int|
            if active[i] {
                regex_first_match(rules[i].regex, content)
            } else {
                None
            },
    )
}

/// The findings of the first `upto` rules, in the order of the rules: the
/// violations, which are the findings of rules at or above the threshold,
/// and the warnings, which are the others.
pub open spec fn reported(
    style: FindingStyle,
    threshold: Severity,
    rules: Seq<PatternDefinitionView>,
    personal: Seq<bool>,
    matches: Seq<Option<usize>>,
    upto: nat,
) -> (Seq<ViolationView>, Seq<ViolationView>)
    decreases upto,
{
    if upto == 0 {
        (Seq::empty(), Seq::empty())
    } else {
        let k = (upto - 1) as int;
        let before = reported(style, threshold, rules, personal, matches, k as nat);
        match matches[k] {
            None => before,
            Some(start) => {
                let f = finding(style, personal[k], rules[k], start);
                if rules[k].severity.rank() >= threshold.rank() {
                    (before.0.push(f), before.1)
                } else {
                    (before.0, before.1.push(f))
                }
            },
        }
    }
}

/// Without a match there is nothing to report.
pub proof fn lemma_no_match_no_finding(
    style: FindingStyle,
    threshold: Severity,
    rules: Seq<PatternDefinitionView>,
    personal: Seq<bool>,
    matches: Seq<Option<usize>>,
    upto: nat,
)
    requires
        forall|i: int| 0 <= i < upto ==> matches[i] is None,
    ensures
        reported(style, threshold, rules, personal, matches, upto) == (
            Seq::<ViolationView>::empty(),
            Seq::<ViolationView>::empty(),
        ),
    decreases upto,
{
    if upto > 0 {
        lemma_no_match_no_finding(style, threshold, rules, personal, matches, (upto - 1) as nat);
    }
}

/// Runs every active rule over `content`.
pub fn find_matches(rules: &Vec<PatternDefinition>, active: &Vec<bool>, content: &str) -> (r: Vec<
    Option<usize>,
>)
    requires
        active.len() == rules.len(),
    ensures
        r@ == matches_of(rules.deep_view(), active@, content@),
{
    let mut r: Vec<Option<usize>> = Vec::new();
    let mut i: usize = 0;
    while i < rules.len()
        invariant
            i <= rules.len(),
            active.len() == rules.len(),
            r@ == matches_of(rules.deep_view(), active@, content@).take(i as int),
        decreases rules.len() - i,
    {
        let found = if active[i] {
            rules[i].regex.find(content)
        } else {
            None
        };
        r.push(found);
        i += 1;
        assert(r@ =~= matches_of(rules.deep_view(), active@, content@).take(i as int));
    }
    assert(matches_of(rules.deep_view(), active@, content@).take(rules.len() as int)
        =~= matches_of(rules.deep_view(), active@, content@));
    r
}

/// Makes a rule code of a description that is in upper case already.
pub fn code_from_upper(upper: &str) -> (r: String)
    ensures
        r@ == code_of_upper(upper@),
{
    from_chars(&replace_chars(&to_chars(upper), ' ', '_'))
}

fn code_of(description: &str) -> (r: String)
    ensures
        r@ == rule_code(description@),
{
    let upper = to_uppercase(description);
    code_from_upper(upper.as_str())
}

fn make_finding(style: FindingStyle, personal: bool, rule: &PatternDefinition, start: usize) -> (r:
    Violation)
    ensures
        r.deep_view() == finding(style, personal, rule.deep_view(), start),
{
    let description = rule.description.as_str();
    let name = match style {
        FindingStyle::Matched => code_of(description),
        FindingStyle::Detected => String::from_str(
            if personal {
                "PII_DETECTED"
            } else {
                "CONTENT_FILTER"
            },
        ),
        FindingStyle::Custom => {
            let mut name = String::from_str("CUSTOM_");
            name.append(code_of(description).as_str());
            name
        },
        FindingStyle::Safety => String::from_str("SAFETY"),
    };
    let mut message = String::from_str(
        match style {
            FindingStyle::Matched => "Matched: ",
            FindingStyle::Detected => "Detected: ",
            FindingStyle::Custom => "Custom pattern matched: ",
            FindingStyle::Safety => "Detected: ",
        },
    );
    message.append(description);
    let mut location = String::from_str("Position ");
    append_decimal(&mut location, start as u64);
    Violation { rule: name, severity: rule.severity, message, location: Some(location) }
}

/// Appends the findings of the rules to `violations` and `warnings`.
pub fn report(
    style: FindingStyle,
    threshold: Severity,
    rules: &Vec<PatternDefinition>,
    personal: &Vec<bool>,
    matches: &Vec<Option<usize>>,
    violations: &mut Vec<Violation>,
    warnings: &mut Vec<Violation>,
)
    requires
        matches.len() == rules.len(),
        personal.len() == rules.len(),
    ensures
        final(violations).deep_view() == old(violations).deep_view() + reported(
            style,
            threshold,
            rules.deep_view(),
            personal@,
            matches@,
            rules.len() as nat,
        ).0,
        final(warnings).deep_view() == old(warnings).deep_view() + reported(
            style,
            threshold,
            rules.deep_view(),
            personal@,
            matches@,
            rules.len() as nat,
        ).1,
{
    let mut i: usize = 0;
    assert(violations.deep_view() =~= old(violations).deep_view() + Seq::<ViolationView>::empty());
    assert(warnings.deep_view() =~= old(warnings).deep_view() + Seq::<ViolationView>::empty());
    while i < rules.len()
        invariant
            i <= rules.len(),
            matches.len() == rules.len(),
            personal.len() == rules.len(),
            violations.deep_view() == old(violations).deep_view() + reported(
                style,
                threshold,
                rules.deep_view(),
                personal@,
                matches@,
                i as nat,
            ).0,
            warnings.deep_view() == old(warnings).deep_view() + reported(
                style,
                threshold,
                rules.deep_view(),
                personal@,
                matches@,
                i as nat,
            ).1,
        decreases rules.len() - i,
    {
        let ghost before = reported(
            style,
            threshold,
            rules.deep_view(),
            personal@,
            matches@,
            i as nat,
        );
        let ghost violations_before = violations.deep_view();
        let ghost warnings_before = warnings.deep_view();
        match matches[i] {
            None => {},
            Some(start) => {
                let f = make_finding(style, personal[i], &rules[i], start);
                if rules[i].severity.at_least(threshold) {
                    violations.push(f);
                    assert(violations.deep_view() =~= violations_before.push(f.deep_view()));
                    assert(violations.deep_view() =~= old(violations).deep_view() + before.0.push(
                        f.deep_view(),
                    ));
                } else {
                    warnings.push(f);
                    assert(warnings.deep_view() =~= warnings_before.push(f.deep_view()));
                    assert(warnings.deep_view() =~= old(warnings).deep_view() + before.1.push(
                        f.deep_view(),
                    ));
                }
            },
        }
        i += 1;
    }
}

} // verus!
