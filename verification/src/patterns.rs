//! Rule files: one rule per line, four tab-separated fields
//! (scope, regular expression, description, severity).

use vstd::prelude::*;
use vstd::string::StringExecFns;
use crate::error::{outcome, CliError, CliErrorView};
use crate::matcher::{regex_fault, Matcher};
use crate::provider::Severity;
use crate::text::{
    append_decimal, decimal, from_chars, is_text, lines_chars, lines_of, lowercase_chars,
    lowercased, rows, split_chars, split_on, to_chars, trim_chars, trimmed,
};

verus! {

/// Where a rule applies.
#[derive(Debug, Clone, Copy, PartialEq, Eq, Structural, Hash)]
pub enum PatternScope {
    /// The rule is for content on its way to a model.
    Input,
    /// The rule is for content that a model produced.
    Output,
    /// The rule is for both.
    Both,
}

/// One rule of a rule file.
#[derive(Debug)]
pub struct PatternDefinition {
    pub scope: PatternScope,
    pub regex: Matcher,
    pub description: String,
    pub severity: Severity,
}

/// What a `PatternDefinition` holds.
pub struct PatternDefinitionView {
    pub scope: PatternScope,
    pub regex: Seq<char>,
    pub description: Seq<char>,
    pub severity: Severity,
}

impl DeepView for PatternDefinition {
    type V = PatternDefinitionView;

    open spec fn deep_view(&self) -> PatternDefinitionView {
        PatternDefinitionView {
            scope: self.scope,
            regex: self.regex@,
            description: self.description@,
            severity: self.severity,
        }
    }
}

impl Clone for PatternDefinition {
    fn clone(&self) -> (r: Self)
        ensures
            r == *self,
    {
        PatternDefinition {
            scope: self.scope,
            regex: self.regex.clone(),
            description: self.description.clone(),
            severity: self.severity,
        }
    }
}

impl PatternDefinitionView {
    pub open spec fn applies_to_input(self) -> bool {
        self.scope == PatternScope::Input || self.scope == PatternScope::Both
    }

    pub open spec fn applies_to_output(self) -> bool {
        self.scope == PatternScope::Output || self.scope == PatternScope::Both
    }
}

impl PatternDefinition {
    /// Whether the rule is evaluated on content on its way to a model.
    pub fn applies_to_input(&self) -> (r: bool)
        ensures
            r == self.deep_view().applies_to_input(),
    {
        match self.scope {
            PatternScope::Input => true,
            PatternScope::Output => false,
            PatternScope::Both => true,
        }
    }

    /// Whether the rule is evaluated on content that a model produced.
    pub fn applies_to_output(&self) -> (r: bool)
        ensures
            r == self.deep_view().applies_to_output(),
    {
        match self.scope {
            PatternScope::Input => false,
            PatternScope::Output => true,
            PatternScope::Both => true,
        }
    }
}

/// The scope that a token names, whatever the case of its ASCII letters.
pub open spec fn scope_of(token: Seq<char>) -> Option<PatternScope> {
    let t = lowercased(token);
    if t == "input"@ {
        Some(PatternScope::Input)
    } else if t == "output"@ {
        Some(PatternScope::Output)
    } else if t == "both"@ {
        Some(PatternScope::Both)
    } else {
        None
    }
}

/// The severity that a token names, whatever the case of its ASCII letters.
pub open spec fn severity_of(token: Seq<char>) -> Option<Severity> {
    let t = lowercased(token);
    if t == "low"@ {
        Some(Severity::Low)
    } else if t == "medium"@ {
        Some(Severity::Medium)
    } else if t == "high"@ {
        Some(Severity::High)
    } else if t == "critical"@ {
        Some(Severity::Critical)
    } else {
        None
    }
}

pub open spec fn scope_fault(token: Seq<char>) -> Seq<char> {
    "Invalid scope '"@ + token + "'. Must be 'input', 'output', or 'both'"@
}

pub open spec fn severity_fault(token: Seq<char>) -> Seq<char> {
    "Invalid severity '"@ + token + "'. Must be 'low', 'medium', 'high', or 'critical'"@
}

pub open spec fn regex_fault_message(pattern: Seq<char>, reason: Seq<char>) -> Seq<char> {
    "Invalid regex pattern '"@ + pattern + "': "@ + reason
}

pub open spec fn at_line(number: nat, fault: Seq<char>) -> Seq<char> {
    "Line "@ + decimal(number) + ": "@ + fault
}

pub open spec fn field_count_fault(number: nat, found: nat) -> Seq<char> {
    "Invalid pattern format at line "@ + decimal(number)
        + ": expected 4 tab-separated fields (scope<TAB>pattern<TAB>description<TAB>severity), got "@
        + decimal(found)
}

/// Reads a scope token: `input`, `output` or `both`, in any case.
pub fn parse_scope(s: &str) -> (r: Result<PatternScope, String>)
    ensures
        match r {
            Ok(scope) => scope_of(s@) == Some(scope),
            Err(m) => scope_of(s@) is None && m@ == scope_fault(s@),
        },
{
    let lower = lowercase_chars(&to_chars(s));
    if is_text(&lower, "input") {
        Ok(PatternScope::Input)
    } else if is_text(&lower, "output") {
        Ok(PatternScope::Output)
    } else if is_text(&lower, "both") {
        Ok(PatternScope::Both)
    } else {
        let mut m = String::from_str("Invalid scope '");
        m.append(s);
        m.append("'. Must be 'input', 'output', or 'both'");
        Err(m)
    }
}

/// Reads a severity token: `low`, `medium`, `high` or `critical`, in any case.
pub fn parse_severity(s: &str) -> (r: Result<Severity, String>)
    ensures
        match r {
            Ok(severity) => severity_of(s@) == Some(severity),
            Err(m) => severity_of(s@) is None && m@ == severity_fault(s@),
        },
{
    let lower = lowercase_chars(&to_chars(s));
    if is_text(&lower, "low") {
        Ok(Severity::Low)
    } else if is_text(&lower, "medium") {
        Ok(Severity::Medium)
    } else if is_text(&lower, "high") {
        Ok(Severity::High)
    } else if is_text(&lower, "critical") {
        Ok(Severity::Critical)
    } else {
        let mut m = String::from_str("Invalid severity '");
        m.append(s);
        m.append("'. Must be 'low', 'medium', 'high', or 'critical'");
        Err(m)
    }
}

/// What one line of a rule file amounts to.
pub enum LineView {
    /// A blank line or a comment.
    Blank,
    /// A rule.
    Rule(PatternDefinitionView),
    /// A line that is neither, with the message that says why.
    Fault(Seq<char>),
}

/// What the line `raw`, the `number`-th of its file counting from 1, amounts
/// to. The fields are checked from left to right and the first fault is the
/// one reported.
pub open spec fn rule_of_line(raw: Seq<char>, number: nat) -> LineView {
    let line = trimmed(raw);
    if line.len() == 0 || line[0] == '#' {
        LineView::Blank
    } else {
        let parts = split_on(line, '\t');
        if parts.len() != 4 {
            LineView::Fault(field_count_fault(number, parts.len()))
        } else {
            let scope = trimmed(parts[0]);
            let pattern = trimmed(parts[1]);
            let description = trimmed(parts[2]);
            let severity = trimmed(parts[3]);
            match scope_of(scope) {
                None => LineView::Fault(at_line(number, scope_fault(scope))),
                Some(sc) => match regex_fault(pattern) {
                    Some(reason) => LineView::Fault(
                        at_line(number, regex_fault_message(pattern, reason)),
                    ),
                    None => match severity_of(severity) {
                        None => LineView::Fault(at_line(number, severity_fault(severity))),
                        Some(sv) => LineView::Rule(
                            PatternDefinitionView {
                                scope: sc,
                                regex: pattern,
                                description: description,
                                severity: sv,
                            },
                        ),
                    },
                },
            }
        }
    }
}

/// The rules of the given lines, in order, or the fault of the first line
/// that has one.
pub open spec fn rules_of_lines(lines: Seq<Seq<char>>) -> Result<
    Seq<PatternDefinitionView>,
    Seq<char>,
>
    decreases lines.len(),
{
    if lines.len() == 0 {
        Ok(Seq::empty())
    } else {
        match rules_of_lines(lines.drop_last()) {
            Err(m) => Err(m),
            Ok(rules) => match rule_of_line(lines.last(), lines.len()) {
                LineView::Blank => Ok(rules),
                LineView::Rule(rule) => Ok(rules.push(rule)),
                LineView::Fault(m) => Err(m),
            },
        }
    }
}

/// The rules that the text of a rule file holds.
pub open spec fn parsed_patterns(content: Seq<char>) -> Result<
    Seq<PatternDefinitionView>,
    CliErrorView,
> {
    match rules_of_lines(lines_of(content)) {
        Ok(rules) => Ok(rules),
        Err(m) => Err(CliErrorView::InvalidResponse(m)),
    }
}

fn line_fault(number: usize, fault: &str) -> (r: String)
    ensures
        r@ == at_line(number as nat, fault@),
{
    let mut m = String::from_str("Line ");
    append_decimal(&mut m, number as u64);
    m.append(": ");
    m.append(fault);
    m
}

/// What one line of a rule file amounts to, as an executable value.
enum Line {
    Blank,
    Rule(PatternDefinition),
    Fault(String),
}

impl Line {
    spec fn model(self) -> LineView {
        match self {
            Line::Blank => LineView::Blank,
            Line::Rule(rule) => LineView::Rule(rule.deep_view()),
            Line::Fault(m) => LineView::Fault(m@),
        }
    }
}

fn parse_line(raw: &Vec<char>, number: usize) -> (r: Line)
    ensures
        r.model() == rule_of_line(raw@, number as nat),
{
    let line = trim_chars(raw);
    if line.len() == 0 || line[0] == '#' {
        return Line::Blank;
    }
    let parts = split_chars(&line, '\t');
    if parts.len() != 4 {
        let mut m = String::from_str("Invalid pattern format at line ");
        append_decimal(&mut m, number as u64);
        m.append(
            ": expected 4 tab-separated fields (scope<TAB>pattern<TAB>description<TAB>severity), got ",
        );
        append_decimal(&mut m, parts.len() as u64);
        return Line::Fault(m);
    }
    assert(rows(parts@)[0] == parts@[0]@);
    assert(rows(parts@)[1] == parts@[1]@);
    assert(rows(parts@)[2] == parts@[2]@);
    assert(rows(parts@)[3] == parts@[3]@);
    let scope_text = from_chars(&trim_chars(&parts[0]));
    let pattern_text = from_chars(&trim_chars(&parts[1]));
    let description = from_chars(&trim_chars(&parts[2]));
    let severity_text = from_chars(&trim_chars(&parts[3]));
    let scope = match parse_scope(scope_text.as_str()) {
        Ok(scope) => scope,
        Err(fault) => {
            return Line::Fault(line_fault(number, fault.as_str()));
        },
    };
    let regex = match Matcher::new(pattern_text.as_str()) {
        Ok(regex) => regex,
        Err(reason) => {
            let mut fault = String::from_str("Invalid regex pattern '");
            fault.append(pattern_text.as_str());
            fault.append("': ");
            fault.append(reason.as_str());
            return Line::Fault(line_fault(number, fault.as_str()));
        },
    };
    let severity = match parse_severity(severity_text.as_str()) {
        Ok(severity) => severity,
        Err(fault) => {
            return Line::Fault(line_fault(number, fault.as_str()));
        },
    };
    Line::Rule(PatternDefinition { scope, regex, description, severity })
}

/// Reads the text of a rule file. Blank lines and lines that start with `#`
/// are skipped; every other line must be a rule. The rules come back in the
/// order of their lines; the first faulty line makes the whole text invalid.
pub fn parse_patterns(content: &str) -> (r: Result<Vec<PatternDefinition>, CliError>)
    ensures
        outcome(r) == parsed_patterns(content@),
{
    let lines = lines_chars(&to_chars(content));
    let mut patterns: Vec<PatternDefinition> = Vec::new();
    let mut i: usize = 0;
    assert(lines_of(content@).take(0) =~= Seq::<Seq<char>>::empty());
    assert(patterns.deep_view() =~= Seq::<PatternDefinitionView>::empty());
    while i < lines.len()
        invariant
            i <= lines.len(),
            rows(lines@) == lines_of(content@),
            rules_of_lines(lines_of(content@).take(i as int)) == Ok::<
                Seq<PatternDefinitionView>,
                Seq<char>,
            >(patterns.deep_view()),
        decreases lines.len() - i,
    {
        let ghost all = lines_of(content@);
        let ghost before = patterns.deep_view();
        proof {
            assert(all.take(i + 1).drop_last() =~= all.take(i as int));
            assert(all.take(i + 1).last() == lines@[i as int]@);
            assert(all.take(i + 1).len() == i + 1);
        }
        match parse_line(&lines[i], i + 1) {
            Line::Blank => {},
            Line::Rule(rule) => {
                patterns.push(rule);
                assert(patterns.deep_view() =~= before.push(rule.deep_view()));
            },
            Line::Fault(m) => {
                proof {
                    lemma_fault_stays(all, i + 1);
                }
                return Err(CliError::InvalidResponse(m));
            },
        }
        i += 1;
    }
    assert(lines_of(content@).take(lines.len() as int) =~= lines_of(content@));
    Ok(patterns)
}

/// Once a prefix of the lines has a fault, the whole has the same fault.
proof fn lemma_fault_stays(lines: Seq<Seq<char>>, k: int)
    requires
        0 <= k <= lines.len(),
        rules_of_lines(lines.take(k)) is Err,
    ensures
        rules_of_lines(lines) == rules_of_lines(lines.take(k)),
    decreases lines.len() - k,
{
    if k < lines.len() {
        assert(lines.take(k + 1).drop_last() =~= lines.take(k));
        lemma_fault_stays(lines, k + 1);
    } else {
        assert(lines.take(k) =~= lines);
    }
}

} // verus!
