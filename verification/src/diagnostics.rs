//! The rule pass: line-local checks on every entry of a unit description.

use crate::model::{columns, columns_of, finding_views, Finding, FindingView, Severity, TextRange};
use crate::parser::{is_well_formed, parse_failure, parse_unit_file};
use crate::syntax::{entry_key, entry_spans, entry_value, is_entry, span_starts_with, starts_with};
use crate::text::{lines, span_is, trim_span, utf8_len, Span, TextIndex};
use vstd::prelude::*;
use vstd::string::*;

verus! {

/// The tag that every finding of this engine carries.
pub open spec fn source_tag() -> Seq<char> {
    "systemd-lsp"@
}

/// A warning of this engine.
pub open spec fn warning(range: TextRange, message: Seq<char>) -> FindingView {
    FindingView { severity: Severity::Warning, range, message, source: source_tag() }
}

/// An error of this engine.
pub open spec fn error(range: TextRange, message: Seq<char>) -> FindingView {
    FindingView { severity: Severity::Error, range, message, source: source_tag() }
}

/// The message for an entry whose value is empty.
pub open spec fn empty_value_message(key: Seq<char>) -> Seq<char> {
    "Key '"@ + key + "' has an empty value"@
}

/// The message for an `ExecStart` whose command is not an absolute path.
pub open spec fn relative_path_message() -> Seq<char> {
    "ExecStart should use absolute paths"@
}

/// The message for a `Type` outside the valid service types.
pub open spec fn invalid_type_message(value: Seq<char>) -> Seq<char> {
    "Invalid service type: '"@ + value
        + "'. Valid types: [\"simple\", \"forking\", \"oneshot\", \"dbus\", \"notify\", \"idle\"]"@
}

/// The service types that `Type` accepts.
pub open spec fn is_valid_type(value: Seq<char>) -> bool {
    ||| value == "simple"@
    ||| value == "forking"@
    ||| value == "oneshot"@
    ||| value == "dbus"@
    ||| value == "notify"@
    ||| value == "idle"@
}

/// The range that covers all of `line`, which is line `line_no`.
pub open spec fn line_range(line_no: nat, line: Seq<char>) -> TextRange {
    columns(line_no, utf8_len(line))
}

/// The empty-value rule: a warning where the value of an entry is empty.
pub open spec fn empty_value_findings(line_no: nat, line: Seq<char>) -> Seq<FindingView> {
    if entry_value(line).len() == 0 {
        seq![warning(line_range(line_no, line), empty_value_message(entry_key(line)))]
    } else {
        Seq::empty()
    }
}

/// The rules that go by the key. `ExecStart`: a warning unless the value
/// begins with `/` or `-`. `Type`: an error unless the value is a valid
/// service type. No other key has a rule.
pub open spec fn key_findings(line_no: nat, line: Seq<char>) -> Seq<FindingView> {
    let key = entry_key(line);
    let value = entry_value(line);
    if key == "ExecStart"@ {
        if !starts_with(value, '/') && !starts_with(value, '-') {
            seq![warning(line_range(line_no, line), relative_path_message())]
        } else {
            Seq::empty()
        }
    } else if key == "Type"@ {
        if !is_valid_type(value) {
            seq![error(line_range(line_no, line), invalid_type_message(value))]
        } else {
            Seq::empty()
        }
    } else {
        Seq::empty()
    }
}

/// What the rules find on one line: nothing unless it is an entry line, else
/// the finding of the empty-value rule, then that of the key's rule.
pub open spec fn line_findings(line_no: nat, line: Seq<char>) -> Seq<FindingView> {
    if is_entry(line) {
        empty_value_findings(line_no, line) + key_findings(line_no, line)
    } else {
        Seq::empty()
    }
}

/// What the rules find on `lines`, numbered from 0, in line order.
pub open spec fn rule_findings(lines: Seq<Seq<char>>) -> Seq<FindingView>
    decreases lines.len(),
{
    if lines.len() == 0 {
        Seq::empty()
    } else {
        rule_findings(lines.drop_last()) + line_findings((lines.len() - 1) as nat, lines.last())
    }
}

/// A finding of this engine.
pub fn new_finding(severity: Severity, range: TextRange, message: String) -> (finding: Finding)
    ensures
        finding@ == (FindingView { severity, range, message: message@, source: source_tag() }),
{
    Finding { severity, range, message, source: String::from_str("systemd-lsp") }
}

/// Executable form of [`is_valid_type`].
pub fn valid_type(chars: &Vec<char>, value: Span) -> (b: bool)
    requires
        value.within(chars@.len()),
    ensures
        b == is_valid_type(value.of(chars@)),
{
    span_is(chars, value, "simple") || span_is(chars, value, "forking") || span_is(
        chars,
        value,
        "oneshot",
    ) || span_is(chars, value, "dbus") || span_is(chars, value, "notify") || span_is(
        chars,
        value,
        "idle",
    )
}

/// Applies the rules to line `line_no` and appends what they find.
pub fn check_line(index: &TextIndex, line_no: usize, diagnostics: &mut Vec<Finding>)
    requires
        index.wf(),
        line_no < lines(index.text@).len(),
    ensures
        finding_views(final(diagnostics)@) == finding_views(old(diagnostics)@) + line_findings(
            line_no as nat,
            index.line(line_no as int),
        ),
{
    let ghost before = finding_views(diagnostics@);
    let ghost text = index.line(line_no as int);
    let line = index.line_span(line_no);
    let trimmed = trim_span(&index.chars, line);
    let parts = entry_spans(&index.chars, line);
    if parts.is_none() || span_starts_with(&index.chars, trimmed, '#') || span_starts_with(
        &index.chars,
        trimmed,
        '[',
    ) {
        proof {
            assert(before + line_findings(line_no as nat, text) =~= before);
        }
        return ;
    }
    let (key, value) = parts.unwrap();
    let range = columns_of(line_no, index.width(line));
    if value.start == value.end {
        let mut message = String::from_str("Key '");
        message.append(index.slice(key));
        message.append("' has an empty value");
        let ghost earlier = diagnostics@;
        diagnostics.push(new_finding(Severity::Warning, range, message));
        proof {
            assert(finding_views(diagnostics@) =~= finding_views(earlier) + empty_value_findings(
                line_no as nat,
                text,
            ));
        }
    }
    let ghost midway = finding_views(diagnostics@);
    proof {
        assert(midway =~= before + empty_value_findings(line_no as nat, text));
    }
    if span_is(&index.chars, key, "ExecStart") {
        if !span_starts_with(&index.chars, value, '/') && !span_starts_with(
            &index.chars,
            value,
            '-',
        ) {
            let message = String::from_str("ExecStart should use absolute paths");
            let ghost earlier = diagnostics@;
            diagnostics.push(new_finding(Severity::Warning, range, message));
            proof {
                assert(finding_views(diagnostics@) =~= finding_views(earlier) + key_findings(
                    line_no as nat,
                    text,
                ));
            }
        }
    } else if span_is(&index.chars, key, "Type") {
        if !valid_type(&index.chars, value) {
            let mut message = String::from_str("Invalid service type: '");
            message.append(index.slice(value));
            message.append(
                "'. Valid types: [\"simple\", \"forking\", \"oneshot\", \"dbus\", \"notify\", \"idle\"]",
            );
            let ghost earlier = diagnostics@;
            diagnostics.push(new_finding(Severity::Error, range, message));
            proof {
                assert(finding_views(diagnostics@) =~= finding_views(earlier) + key_findings(
                    line_no as nat,
                    text,
                ));
            }
        }
    }
    proof {
        assert(finding_views(diagnostics@) =~= midway + key_findings(line_no as nat, text));
        assert(finding_views(diagnostics@) =~= before + line_findings(line_no as nat, text));
    }
}

/// Applies the rules to every line of `content` and appends what they find,
/// in line order, to `diagnostics`.
pub fn check_common_errors(content: &str, diagnostics: &mut Vec<Finding>)
    ensures
        finding_views(final(diagnostics)@) == finding_views(old(diagnostics)@) + rule_findings(
            lines(content@),
        ),
{
    let index = TextIndex::new(content);
    let count: usize = index.line_count();
    let ghost all = lines(content@);
    let ghost before = finding_views(diagnostics@);
    let mut i: usize = 0;
    proof {
        assert(before + rule_findings(all.take(0)) =~= before);
    }
    while i < count
        invariant
            index.wf(),
            index.text@ == content@,
            all == lines(content@),
            count == all.len(),
            i <= count,
            finding_views(diagnostics@) == before + rule_findings(all.take(i as int)),
        decreases count - i,
    {
        check_line(&index, i, diagnostics);
        proof {
            let upto = all.take(i + 1);
            assert(upto.last() == all[i as int]);
            assert(upto.drop_last() =~= all.take(i as int));
            assert(finding_views(diagnostics@) =~= before + rule_findings(upto));
        }
        i = i + 1;
    }
    proof {
        assert(all.take(count as int) =~= all);
    }
}

/// The message of the finding for a text that is not well-formed.
pub open spec fn syntax_error_message(detail: Seq<char>) -> Seq<char> {
    "Systemd unit file syntax error: "@ + detail
}

/// The finding for a text that is not well-formed: an error at the first
/// column of the first line, with the reason in its message.
pub open spec fn document_finding(detail: Seq<char>) -> FindingView {
    error(columns(0, 1), syntax_error_message(detail))
}

/// What the well-formedness check contributes: one finding where it failed
/// with `failure`, nothing where it passed.
pub open spec fn document_findings(failure: Option<Seq<char>>) -> Seq<FindingView> {
    match failure {
        Some(detail) => seq![document_finding(detail)],
        None => Seq::empty(),
    }
}

/// The findings for `text`, given the outcome of the well-formedness check:
/// the finding of the check, if any, then those of the rules.
pub open spec fn diagnostics_of(text: Seq<char>, failure: Option<Seq<char>>) -> Seq<FindingView> {
    document_findings(failure) + rule_findings(lines(text))
}

/// The failure of a well-formedness check as a character sequence.
pub open spec fn failure_view(failure: Option<&str>) -> Option<Seq<char>> {
    match failure {
        Some(detail) => Some(detail@),
        None => None,
    }
}

/// The findings for `content`, given the outcome of the well-formedness
/// check: `failure` holds the reason where the check failed.
pub fn diagnostics_for(content: &str, failure: Option<&str>) -> (diagnostics: Vec<Finding>)
    ensures
        finding_views(diagnostics@) == diagnostics_of(content@, failure_view(failure)),
{
    let mut diagnostics: Vec<Finding> = Vec::new();
    match failure {
        Some(detail) => {
            let mut message = String::from_str("Systemd unit file syntax error: ");
            message.append(detail);
            diagnostics.push(new_finding(Severity::Error, columns_of(0, 1), message));
        },
        None => {},
    }
    proof {
        assert(finding_views(diagnostics@) =~= document_findings(failure_view(failure)));
    }
    check_common_errors(content, &mut diagnostics);
    diagnostics
}

/// The findings for `content`: one for the text as a whole where it is not
/// well-formed, then those of the rules, which run in either case.
pub fn generate_diagnostics(content: &str) -> (diagnostics: Vec<Finding>)
    ensures
        finding_views(diagnostics@) == diagnostics_of(content@, parse_failure(content@)),
        parse_failure(content@) is None <==> is_well_formed(content@),
{
    match parse_unit_file(content) {
        Ok(_) => diagnostics_for(content, None),
        Err(why) => diagnostics_for(content, Some(why.as_str())),
    }
}

/// A finding about the document as a whole: its message begins as that of
/// [`document_finding`] does.
pub open spec fn is_document_level(finding: FindingView) -> bool {
    let lead = "Systemd unit file syntax error: "@;
    finding.message.len() >= lead.len() && finding.message.take(lead.len() as int) == lead
}

/// No finding of the rules on one line is about the document as a whole.
pub proof fn lemma_line_findings_are_line_level(line_no: nat, line: Seq<char>)
    ensures
        forall|i: int|
            0 <= i < line_findings(line_no, line).len() ==> !is_document_level(
                #[trigger] line_findings(line_no, line)[i],
            ),
{
    reveal_strlit("Systemd unit file syntax error: ");
    reveal_strlit("Key '");
    reveal_strlit("ExecStart should use absolute paths");
    reveal_strlit("Invalid service type: '");
    let lead = "Systemd unit file syntax error: "@;
    assert(lead[0] == 'S');
    assert forall|i: int| 0 <= i < line_findings(line_no, line).len() implies !is_document_level(
        #[trigger] line_findings(line_no, line)[i],
    ) by {
        let message = line_findings(line_no, line)[i].message;
        assert(message == empty_value_message(entry_key(line)) || message
            == relative_path_message() || message == invalid_type_message(entry_value(line)));
        assert(message.len() > 0 && message[0] != 'S');
        if message.len() >= lead.len() {
            assert(message.take(lead.len() as int)[0] == message[0]);
        }
    }
}

/// No finding of the rules is about the document as a whole.
pub proof fn lemma_rule_findings_are_line_level(lines: Seq<Seq<char>>)
    ensures
        forall|i: int|
            0 <= i < rule_findings(lines).len() ==> !is_document_level(
                #[trigger] rule_findings(lines)[i],
            ),
    decreases lines.len(),
{
    if lines.len() > 0 {
        let earlier = rule_findings(lines.drop_last());
        let last = line_findings((lines.len() - 1) as nat, lines.last());
        lemma_rule_findings_are_line_level(lines.drop_last());
        lemma_line_findings_are_line_level((lines.len() - 1) as nat, lines.last());
        assert forall|i: int| 0 <= i < rule_findings(lines).len() implies !is_document_level(
            #[trigger] rule_findings(lines)[i],
        ) by {
            if i < earlier.len() {
                assert(rule_findings(lines)[i] == earlier[i]);
            } else {
                assert(rule_findings(lines)[i] == last[i - earlier.len()]);
            }
        }
    }
}

/// `finding` is one that the rules make for the entry `line`, which is line
/// `line_no`: it covers the line, carries the engine's tag, and is the
/// finding of the empty-value rule or of the key's rule.
pub open spec fn is_finding_on(finding: FindingView, line_no: nat, line: Seq<char>) -> bool {
    &&& is_entry(line)
    &&& finding.range == line_range(line_no, line)
    &&& finding.source == source_tag()
    &&& empty_value_findings(line_no, line).contains(finding) || key_findings(
        line_no,
        line,
    ).contains(finding)
}

/// Every finding of the rules is made for some entry line of the text, and no
/// line has more than two.
pub proof fn lemma_rule_findings_lie_on_entries(lines: Seq<Seq<char>>)
    ensures
        forall|i: int|
            0 <= i < rule_findings(lines).len() ==> exists|n: int|
                0 <= n < lines.len() && is_finding_on(
                    #[trigger] rule_findings(lines)[i],
                    n as nat,
                    #[trigger] lines[n],
                ),
        rule_findings(lines).len() <= 2 * lines.len(),
    decreases lines.len(),
{
    if lines.len() > 0 {
        let shorter = lines.drop_last();
        let earlier = rule_findings(shorter);
        let n = (lines.len() - 1) as nat;
        let line = lines.last();
        let last = line_findings(n, line);
        lemma_rule_findings_lie_on_entries(shorter);
        assert forall|i: int| 0 <= i < rule_findings(lines).len() implies exists|m: int|
            0 <= m < lines.len() && is_finding_on(
                #[trigger] rule_findings(lines)[i],
                m as nat,
                #[trigger] lines[m],
            ) by {
            let finding = rule_findings(lines)[i];
            if i < earlier.len() {
                assert(finding == earlier[i]);
                let m = choose|m: int|
                    0 <= m < shorter.len() && is_finding_on(
                        earlier[i],
                        m as nat,
                        #[trigger] shorter[m],
                    );
                assert(shorter[m] == lines[m]);
                assert(is_finding_on(finding, m as nat, lines[m]));
            } else {
                let k = i - earlier.len();
                assert(finding == last[k]);
                let first = empty_value_findings(n, line);
                let second = key_findings(n, line);
                if k < first.len() {
                    assert(first[k] == finding);
                } else {
                    assert(second[k - first.len()] == finding);
                }
                assert(is_finding_on(finding, n, lines[n as int]));
            }
        }
    }
}

/// For a well-formed text the findings are those of the rules and nothing
/// else: none of them is about the document as a whole, and each is made for
/// an entry line of the text.
pub proof fn law_well_formed_text(text: Seq<char>)
    requires
        parse_failure(text) is None,
    ensures
        diagnostics_of(text, parse_failure(text)) == rule_findings(lines(text)),
        forall|i: int|
            0 <= i < diagnostics_of(text, parse_failure(text)).len() ==> exists|n: int|
                0 <= n < lines(text).len() && is_finding_on(
                    #[trigger] diagnostics_of(text, parse_failure(text))[i],
                    n as nat,
                    #[trigger] lines(text)[n],
                ),
        forall|i: int|
            0 <= i < diagnostics_of(text, parse_failure(text)).len() ==> !is_document_level(
                #[trigger] diagnostics_of(text, parse_failure(text))[i],
            ),
{
    assert(diagnostics_of(text, parse_failure(text)) =~= rule_findings(lines(text)));
    lemma_rule_findings_are_line_level(lines(text));
    lemma_rule_findings_lie_on_entries(lines(text));
}

/// For a text that is not well-formed the findings begin with exactly one
/// about the document as a whole: an error on the first column of the first
/// line whose message carries the reason. The findings of the rules follow
/// it, as they would for a well-formed text.
pub proof fn law_malformed_text(text: Seq<char>)
    requires
        parse_failure(text) is Some,
    ensures
        diagnostics_of(text, parse_failure(text)).len() >= 1,
        diagnostics_of(text, parse_failure(text))[0] == document_finding(parse_failure(text)->0),
        is_document_level(diagnostics_of(text, parse_failure(text))[0]),
        diagnostics_of(text, parse_failure(text))[0].severity == Severity::Error,
        diagnostics_of(text, parse_failure(text))[0].range == columns(0, 1),
        diagnostics_of(text, parse_failure(text)).skip(1) == rule_findings(lines(text)),
        forall|i: int|
            1 <= i < diagnostics_of(text, parse_failure(text)).len() ==> !is_document_level(
                #[trigger] diagnostics_of(text, parse_failure(text))[i],
            ),
{
    let detail = parse_failure(text)->0;
    let found = diagnostics_of(text, parse_failure(text));
    let rules = rule_findings(lines(text));
    assert(found =~= seq![document_finding(detail)] + rules);
    assert(found.skip(1) =~= rules);
    let lead = "Systemd unit file syntax error: "@;
    assert(found[0].message.take(lead.len() as int) =~= lead);
    lemma_rule_findings_are_line_level(lines(text));
    assert forall|i: int| 1 <= i < found.len() implies !is_document_level(#[trigger] found[i]) by {
        assert(found[i] == rules[i - 1]);
    }
}

} // verus!
