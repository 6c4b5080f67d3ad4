//! The finding data model and the analyzer that runs a registry of detectors.
use vstd::prelude::*;
use crate::patterns::Detector;

verus! {

/// How serious a finding is; fixed per detector.
#[derive(Debug, Clone, Copy, PartialEq, Eq, Structural)]
pub enum Severity {
    Critical,
    High,
    Medium,
    Low,
    Info,
}

/// Where a finding stands: a file name, a 1-based line and a column (always 0).
#[derive(Debug)]
pub struct Location {
    pub file: String,
    pub line: usize,
    pub column: usize,
}

/// One finding of one detector.
#[derive(Debug)]
pub struct Vulnerability {
    pub severity: Severity,
    pub title: String,
    pub description: String,
    pub location: Location,
    pub recommendation: String,
}

/// The mathematical content of a `Vulnerability`.
pub struct FindingView {
    pub severity: Severity,
    pub title: Seq<char>,
    pub description: Seq<char>,
    pub file: Seq<char>,
    pub line: int,
    pub column: int,
    pub recommendation: Seq<char>,
}

impl View for Vulnerability {
    type V = FindingView;

    open spec fn view(&self) -> FindingView {
        FindingView {
            severity: self.severity,
            title: self.title@,
            description: self.description@,
            file: self.location.file@,
            line: self.location.line as int,
            column: self.location.column as int,
            recommendation: self.recommendation@,
        }
    }
}

/// The views of a sequence of findings.
pub open spec fn views(v: Seq<Vulnerability>) -> Seq<FindingView> {
    v.map_values(|x: Vulnerability| x@)
}

/// The findings of the detectors `ds` on `code`, concatenated in order.
pub open spec fn analysis(ds: Seq<Detector>, code: Seq<char>) -> Seq<FindingView>
    decreases ds.len(),
{
    if ds.len() == 0 {
        seq![]
    } else {
        analysis(ds.drop_last(), code) + ds.last().findings(code)
    }
}

/// The detectors every scan runs, in this order.
pub open spec fn default_registry() -> Seq<Detector> {
    seq![
        Detector::Reentrancy,
        Detector::IntegerOverflow,
        Detector::UncheckedArithmetic,
        Detector::MissingErrorHandling,
        Detector::AccessControl,
    ]
}

/// Runs a fixed, ordered registry of detectors over source text.
pub struct Analyzer {
    patterns: Vec<Detector>,
}

impl Analyzer {
    /// The detectors this analyzer runs, in order.
    pub closed spec fn detectors(&self) -> Seq<Detector> {
        self.patterns@
    }

    /// An analyzer with the default registry.
    pub fn new() -> (r: Self)
        ensures
            r.detectors() == default_registry(),
    {
        let patterns = vec![
            Detector::Reentrancy,
            Detector::IntegerOverflow,
            Detector::UncheckedArithmetic,
            Detector::MissingErrorHandling,
            Detector::AccessControl,
        ];
        assert(patterns@ =~= default_registry());
        Analyzer { patterns }
    }

    /// An analyzer that runs the detectors `patterns`, in that order; this is
    /// how detectors outside the default registry are switched on.
    pub fn with_detectors(patterns: Vec<Detector>) -> (r: Self)
        ensures
            r.detectors() == patterns@,
    {
        Analyzer { patterns }
    }

    /// Runs every detector of the registry on the source text `code` and
    /// concatenates their findings in registry order.
    pub fn analyze_contract(&self, code: &str) -> (r: Vec<Vulnerability>)
        ensures
            views(r@) == analysis(self.detectors(), code@),
    {
        let mut out: Vec<Vulnerability> = Vec::new();
        let mut i: usize = 0;
        while i < self.patterns.len()
            invariant
                i <= self.patterns@.len(),
                views(out@) == analysis(self.patterns@.take(i as int), code@),
            decreases self.patterns@.len() - i,
        {
            let mut found = self.patterns[i].check(code);
            proof {
                let ds = self.patterns@.take(i + 1);
                assert(ds.drop_last() =~= self.patterns@.take(i as int));
                assert(views(out@ + found@) =~= views(out@) + views(found@));
            }
            out.append(&mut found);
            i = i + 1;
        }
        assert(self.patterns@.take(i as int) =~= self.patterns@);
        out
    }
}

/// Analysis is a function of the detectors and the text alone: two runs on
/// the same text give the same findings, in the same order.
pub proof fn analysis_is_deterministic(ds: Seq<Detector>, first: Seq<char>, second: Seq<char>)
    requires
        first == second,
    ensures
        analysis(ds, first) == analysis(ds, second),
{
}

} // verus!
