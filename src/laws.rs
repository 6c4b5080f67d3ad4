//! What the detectors guarantee together: the access-control detector
//! defers to the arithmetic and reentrancy detectors, and the windows each
//! correlating detector looks at.
use vstd::prelude::*;
use crate::analyzer::FindingView;
use crate::patterns::{Detector, OWNER_CHECK, STATE_CHANGE, TRANSFER_CALL, regex_hits, suppressed};
use crate::text::{lemma_marked_contains, lines_of, marked, regex_finds};

verus! {

/// Some finding of `fs` stands at the 1-based line `n`.
pub open spec fn has_finding_at(fs: Seq<FindingView>, n: int) -> bool {
    exists|k: int| 0 <= k < fs.len() && (#[trigger] fs[k]).line == n
}

/// A detector's findings stand exactly at the lines it flags.
pub proof fn lemma_finding_lines(d: Detector, lines: Seq<Seq<char>>, n: int)
    ensures
        has_finding_at(d.findings_in(lines), n) <==> (1 <= n <= lines.len() && d.flags(
            lines,
            n - 1,
        )),
{
    let f = d.line_flags(lines);
    let fs = d.findings_in(lines);
    lemma_marked_contains(f, n);
    if has_finding_at(fs, n) {
        let k = choose|k: int| 0 <= k < fs.len() && (#[trigger] fs[k]).line == n;
        assert(marked(f)[k] == n);
    }
    if marked(f).contains(n) {
        let k = choose|k: int| 0 <= k < marked(f).len() && marked(f)[k] == n;
        assert(fs[k].line == n);
    }
}

/// No line receives both an access-control finding and a finding of one of
/// the detectors it defers to (reentrancy, integer overflow, unchecked
/// arithmetic, missing error handling).
pub proof fn access_control_defers(code: Seq<char>, n: int)
    ensures
        !(has_finding_at(Detector::AccessControl.findings(code), n) && (has_finding_at(
            Detector::Reentrancy.findings(code),
            n,
        ) || has_finding_at(Detector::IntegerOverflow.findings(code), n) || has_finding_at(
            Detector::UncheckedArithmetic.findings(code),
            n,
        ) || has_finding_at(Detector::MissingErrorHandling.findings(code), n))),
{
    let lines = lines_of(code);
    lemma_finding_lines(Detector::AccessControl, lines, n);
    lemma_finding_lines(Detector::Reentrancy, lines, n);
    lemma_finding_lines(Detector::IntegerOverflow, lines, n);
    lemma_finding_lines(Detector::UncheckedArithmetic, lines, n);
    lemma_finding_lines(Detector::MissingErrorHandling, lines, n);
}

/// A reentrancy finding stands at line `n` exactly when line `n` holds an
/// external transfer and one of the four lines after it a state change; a
/// state change five or more lines further down is not counted.
pub proof fn reentrancy_window(code: Seq<char>, n: int)
    ensures
        has_finding_at(Detector::Reentrancy.findings(code), n) <==> (1 <= n <= lines_of(code).len()
            && regex_finds(TRANSFER_CALL@, lines_of(code)[n - 1]) && exists|j: int|
            n <= j <= n + 3 && j < lines_of(code).len() && #[trigger] regex_hits(
                STATE_CHANGE@,
                lines_of(code),
            )[j]),
{
    lemma_finding_lines(Detector::Reentrancy, lines_of(code), n);
}

/// The owner-assertion window of a state change on the 0-based line `i` is
/// the lines `i - 10` through `i + 9` once `i` is at least 10, and lines 0
/// through 19 before that: an owner assertion ten or more lines below a
/// state change at line 10 or later does not prevent its finding.
pub proof fn access_control_window(code: Seq<char>, i: int)
    requires
        0 <= i < lines_of(code).len(),
    ensures
        i >= 10 ==> (has_finding_at(Detector::AccessControl.findings(code), i + 1) <==> (
        regex_finds(STATE_CHANGE@, lines_of(code)[i]) && !suppressed(lines_of(code), i) && !exists|
            j: int,
        |
            i - 10 <= j <= i + 9 && j < lines_of(code).len() && #[trigger] regex_hits(
                OWNER_CHECK@,
                lines_of(code),
            )[j])),
        i < 10 ==> (has_finding_at(Detector::AccessControl.findings(code), i + 1) <==> (
        regex_finds(STATE_CHANGE@, lines_of(code)[i]) && !suppressed(lines_of(code), i) && !exists|
            j: int,
        |
            0 <= j <= 19 && j < lines_of(code).len() && #[trigger] regex_hits(
                OWNER_CHECK@,
                lines_of(code),
            )[j])),
{
    lemma_finding_lines(Detector::AccessControl, lines_of(code), i + 1);
}

} // verus!
