//! The detectors: each scans the lines of a source text for one class of
//! vulnerability and reports one finding per flagged line.
use vstd::prelude::*;
use vstd::string::StringExecFns;
use crate::analyzer::{FindingView, Location, Severity, Vulnerability, views};
use crate::text::{contains_text, has_sub, lemma_marked_contains, lines_of, marked, match_lines, regex_finds, split_lines};

verus! {

/// The file name every finding reports.
pub const CONTRACT_FILE: &'static str = "contract.move";

/// An external value transfer.
pub const TRANSFER_CALL: &'static str = "coin::transfer|account::withdraw";
/// A mutation of global state.
pub const STATE_CHANGE: &'static str = "borrow_global_mut|move_to|Table::add";
/// An assertion that checks the owner.
pub const OWNER_CHECK: &'static str = r"assert!\(.*owner.*\)";
/// An assignment whose right-hand side adds.
pub const ADDITION: &'static str = r"[=]\s*[^;\n]+\+[^;\n]+;";
/// An assignment whose right-hand side subtracts.
pub const SUBTRACTION: &'static str = r"[=]\s*[^;\n]+-[^;\n]+;";
/// An assignment whose right-hand side divides.
pub const DIVISION: &'static str = r"[=]\s*[^;\n]+/[^;\n]+;";
/// A `while` loop.
pub const WHILE_LOOP: &'static str = r"while\s*\(";
/// A public function with a type parameter.
pub const GENERIC_FUNCTION: &'static str = r"public\s+fun\s+\w+<";
/// A price taken from on-chain ratios.
pub const PRICE_RATIO: &'static str = r"(token_a\s*/\s*token_b|token_b\s*/\s*token_a|liquidity_ratio|price)";
/// A division by a literal.
pub const LITERAL_DIVISION: &'static str = r"/\s*\d+";
/// A coin deposit or withdrawal.
pub const COIN_OPERATION: &'static str = r"coin::(deposit|withdraw)";
/// A global resource holding a vector.
pub const GLOBAL_VECTOR: &'static str = r"struct\s+\w+\s+has\s+key\s*\{[^}]*vector<";
/// An action that moves funds.
pub const FUNDS_ACTION: &'static str = "withdraw|deposit|transfer";

/// The guard marker: an assertion call.
pub const ASSERTION: &'static str = "assert!";
/// Extracting the value of an option.
pub const OPTION_EXTRACT: &'static str = "option::extract";
/// Borrowing the value of an option.
pub const OPTION_BORROW: &'static str = "option::borrow";

/// The detectors. The default registry (`default_registry`) runs five of them; the others are
/// off by default and run when an `Analyzer` is built with them.
#[derive(Debug, Clone, Copy, PartialEq, Eq, Structural)]
pub enum Detector {
    Reentrancy,
    IntegerOverflow,
    AccessControl,
    UncheckedArithmetic,
    MissingErrorHandling,
    UnboundedExecution,
    GenericsTypeCheck,
    PriceOracleManipulation,
    ArithmeticPrecision,
    AccountRegistration,
    ResourceManagement,
    BusinessLogicFlaw,
    IncorrectStdFunction,
}

pub const REENTRANCY_TITLE: &'static str = "Reentrancy Vulnerability";
pub const REENTRANCY_DESCRIPTION: &'static str = "Potential reentrancy vulnerability detected: External call followed by state change. This pattern could allow an attacker to re-enter the function before the state is updated, potentially leading to multiple withdrawals or unauthorized state modifications.";
pub const REENTRANCY_RECOMMENDATION: &'static str = "Implement the checks-effects-interactions pattern: 1) Validate all conditions first, 2) Update state variables, 3) Make external calls last. Consider using a reentrancy guard or implementing the nonReentrant modifier pattern.";

pub const INTEGER_OVERFLOW_TITLE: &'static str = "Integer Overflow Vulnerability";
pub const INTEGER_OVERFLOW_DESCRIPTION: &'static str = "Potential integer overflow detected: Arithmetic operation without overflow check. This could lead to unexpected behavior where values wrap around, potentially causing financial loss or incorrect calculations.";
pub const INTEGER_OVERFLOW_RECOMMENDATION: &'static str = "Add overflow checks using assert! or use safe math operations. Consider implementing a safe math library that handles overflow/underflow cases explicitly.";

pub const ACCESS_CONTROL_TITLE: &'static str = "Access Control Vulnerability";
pub const ACCESS_CONTROL_DESCRIPTION: &'static str = "Missing access control detected: State modification without owner check. This could allow unauthorized users to modify critical contract state, potentially leading to unauthorized access or fund theft.";
pub const ACCESS_CONTROL_RECOMMENDATION: &'static str = "Implement proper access control: 1) Add owner checks before state modifications, 2) Use role-based access control where appropriate, 3) Consider implementing a multi-signature requirement for critical operations.";

pub const UNCHECKED_ARITHMETIC_TITLE: &'static str = "Unchecked Arithmetic Vulnerability";
pub const UNCHECKED_ARITHMETIC_DESCRIPTION: &'static str = "Potential unchecked arithmetic detected: Subtraction without underflow check. This could lead to unexpected behavior where values wrap around, potentially causing financial loss or incorrect calculations.";
pub const UNCHECKED_ARITHMETIC_RECOMMENDATION: &'static str = "Add underflow checks using assert! or use safe math operations. Consider implementing a safe math library that handles overflow/underflow cases explicitly.";

pub const MISSING_ERROR_HANDLING_TITLE: &'static str = "Missing Error Handling Vulnerability";
pub const MISSING_ERROR_HANDLING_DESCRIPTION: &'static str = "Missing error handling detected: Division without zero check. This could lead to a runtime error if the divisor is zero, potentially causing the entire transaction to fail or unexpected behavior.";
pub const MISSING_ERROR_HANDLING_RECOMMENDATION: &'static str = "Add zero checks using assert! before division. Consider implementing proper error handling with custom error types and clear error messages.";

pub const UNBOUNDED_EXECUTION_TITLE: &'static str = "Unbounded Execution Vulnerability";
pub const UNBOUNDED_EXECUTION_DESCRIPTION: &'static str = "Potential unbounded execution: Loop condition may be user-controlled or unbounded, leading to denial-of-service via gas exhaustion.";
pub const UNBOUNDED_EXECUTION_RECOMMENDATION: &'static str = "Limit loop iterations, use data structures that prevent unbounded growth, or add explicit iteration caps.";

pub const GENERICS_TYPE_CHECK_TITLE: &'static str = "Lack of Generics Type Checking Vulnerability";
pub const GENERICS_TYPE_CHECK_DESCRIPTION: &'static str = "Public function with generic type parameter does not check type validity. This can allow attackers to exploit type mismatches and drain assets.";
pub const GENERICS_TYPE_CHECK_RECOMMENDATION: &'static str = "Add type checks/assertions to ensure the generic type matches the expected or whitelisted type.";

pub const PRICE_ORACLE_TITLE: &'static str = "Price Oracle Manipulation Vulnerability";
pub const PRICE_ORACLE_DESCRIPTION: &'static str = "Potential price oracle manipulation: Price is calculated from on-chain ratios or manipulable sources without external validation.";
pub const PRICE_ORACLE_RECOMMENDATION: &'static str = "Use time-weighted or external oracles, and validate price sources to prevent manipulation.";

pub const ARITHMETIC_PRECISION_TITLE: &'static str = "Arithmetic Precision Error Vulnerability";
pub const ARITHMETIC_PRECISION_DESCRIPTION: &'static str = "Potential arithmetic precision error: Division or multiplication may cause rounding errors, allowing users to bypass fees or receive incorrect payouts.";
pub const ARITHMETIC_PRECISION_RECOMMENDATION: &'static str = "Require minimum amounts or ensure nonzero results after division/multiplication.";

pub const ACCOUNT_REGISTRATION_TITLE: &'static str = "Lack of Account Registration Check Vulnerability";
pub const ACCOUNT_REGISTRATION_DESCRIPTION: &'static str = "Potential lack of account registration check: Coin operations performed without checking or registering the account, which can cause failed transactions or stuck funds.";
pub const ACCOUNT_REGISTRATION_RECOMMENDATION: &'static str = "Always check and register accounts before coin operations.";

pub const RESOURCE_MANAGEMENT_TITLE: &'static str = "Improper Resource Management Vulnerability";
pub const RESOURCE_MANAGEMENT_DESCRIPTION: &'static str = "Improper resource management: Resources are stored globally instead of in user accounts, leading to ambiguous ownership and potential DoS.";
pub const RESOURCE_MANAGEMENT_RECOMMENDATION: &'static str = "Store resources in user accounts whenever possible.";

pub const BUSINESS_LOGIC_TITLE: &'static str = "Business Logic Flaw Vulnerability";
pub const BUSINESS_LOGIC_DESCRIPTION: &'static str = "Potential business logic flaw: Function may allow repeated actions (e.g., double withdrawal) or lacks invariant checks, leading to loss of funds or protocol failure.";
pub const BUSINESS_LOGIC_RECOMMENDATION: &'static str = "Carefully review and test all business logic paths, and enforce invariants with assertions.";

pub const INCORRECT_STD_TITLE: &'static str = "Incorrect Standard Function Usage Vulnerability";
pub const INCORRECT_STD_DESCRIPTION: &'static str = "Incorrect use of standard library function: Borrowing from an Option after extracting its value can cause runtime aborts and unexpected failures.";
pub const INCORRECT_STD_RECOMMENDATION: &'static str = "Use each stdlib function as intended and add tests for edge cases.";

impl Detector {
    /// The severity of this detector's findings.
    pub open spec fn severity_spec(self) -> Severity {
        match self {
            Detector::Reentrancy => Severity::Critical,
            Detector::IntegerOverflow => Severity::High,
            Detector::AccessControl => Severity::High,
            Detector::UncheckedArithmetic => Severity::High,
            Detector::MissingErrorHandling => Severity::High,
            Detector::UnboundedExecution => Severity::High,
            Detector::GenericsTypeCheck => Severity::Critical,
            Detector::PriceOracleManipulation => Severity::Critical,
            Detector::ArithmeticPrecision => Severity::Medium,
            Detector::AccountRegistration => Severity::Medium,
            Detector::ResourceManagement => Severity::Low,
            Detector::BusinessLogicFlaw => Severity::High,
            Detector::IncorrectStdFunction => Severity::Medium,
        }
    }

    /// The severity of this detector's findings.
    pub fn severity(&self) -> (r: Severity)
        ensures
            r == self.severity_spec(),
    {
        match self {
            Detector::Reentrancy => Severity::Critical,
            Detector::IntegerOverflow => Severity::High,
            Detector::AccessControl => Severity::High,
            Detector::UncheckedArithmetic => Severity::High,
            Detector::MissingErrorHandling => Severity::High,
            Detector::UnboundedExecution => Severity::High,
            Detector::GenericsTypeCheck => Severity::Critical,
            Detector::PriceOracleManipulation => Severity::Critical,
            Detector::ArithmeticPrecision => Severity::Medium,
            Detector::AccountRegistration => Severity::Medium,
            Detector::ResourceManagement => Severity::Low,
            Detector::BusinessLogicFlaw => Severity::High,
            Detector::IncorrectStdFunction => Severity::Medium,
        }
    }

    /// This detector's display name, the key findings are grouped by.
    pub open spec fn title_text(self) -> &'static str {
        match self {
            Detector::Reentrancy => REENTRANCY_TITLE,
            Detector::IntegerOverflow => INTEGER_OVERFLOW_TITLE,
            Detector::AccessControl => ACCESS_CONTROL_TITLE,
            Detector::UncheckedArithmetic => UNCHECKED_ARITHMETIC_TITLE,
            Detector::MissingErrorHandling => MISSING_ERROR_HANDLING_TITLE,
            Detector::UnboundedExecution => UNBOUNDED_EXECUTION_TITLE,
            Detector::GenericsTypeCheck => GENERICS_TYPE_CHECK_TITLE,
            Detector::PriceOracleManipulation => PRICE_ORACLE_TITLE,
            Detector::ArithmeticPrecision => ARITHMETIC_PRECISION_TITLE,
            Detector::AccountRegistration => ACCOUNT_REGISTRATION_TITLE,
            Detector::ResourceManagement => RESOURCE_MANAGEMENT_TITLE,
            Detector::BusinessLogicFlaw => BUSINESS_LOGIC_TITLE,
            Detector::IncorrectStdFunction => INCORRECT_STD_TITLE,
        }
    }

    /// This detector's display name, the key findings are grouped by.
    pub fn title(&self) -> (r: &'static str)
        ensures
            r == self.title_text(),
    {
        match self {
            Detector::Reentrancy => REENTRANCY_TITLE,
            Detector::IntegerOverflow => INTEGER_OVERFLOW_TITLE,
            Detector::AccessControl => ACCESS_CONTROL_TITLE,
            Detector::UncheckedArithmetic => UNCHECKED_ARITHMETIC_TITLE,
            Detector::MissingErrorHandling => MISSING_ERROR_HANDLING_TITLE,
            Detector::UnboundedExecution => UNBOUNDED_EXECUTION_TITLE,
            Detector::GenericsTypeCheck => GENERICS_TYPE_CHECK_TITLE,
            Detector::PriceOracleManipulation => PRICE_ORACLE_TITLE,
            Detector::ArithmeticPrecision => ARITHMETIC_PRECISION_TITLE,
            Detector::AccountRegistration => ACCOUNT_REGISTRATION_TITLE,
            Detector::ResourceManagement => RESOURCE_MANAGEMENT_TITLE,
            Detector::BusinessLogicFlaw => BUSINESS_LOGIC_TITLE,
            Detector::IncorrectStdFunction => INCORRECT_STD_TITLE,
        }
    }

    /// This detector's description.
    pub open spec fn description_text(self) -> &'static str {
        match self {
            Detector::Reentrancy => REENTRANCY_DESCRIPTION,
            Detector::IntegerOverflow => INTEGER_OVERFLOW_DESCRIPTION,
            Detector::AccessControl => ACCESS_CONTROL_DESCRIPTION,
            Detector::UncheckedArithmetic => UNCHECKED_ARITHMETIC_DESCRIPTION,
            Detector::MissingErrorHandling => MISSING_ERROR_HANDLING_DESCRIPTION,
            Detector::UnboundedExecution => UNBOUNDED_EXECUTION_DESCRIPTION,
            Detector::GenericsTypeCheck => GENERICS_TYPE_CHECK_DESCRIPTION,
            Detector::PriceOracleManipulation => PRICE_ORACLE_DESCRIPTION,
            Detector::ArithmeticPrecision => ARITHMETIC_PRECISION_DESCRIPTION,
            Detector::AccountRegistration => ACCOUNT_REGISTRATION_DESCRIPTION,
            Detector::ResourceManagement => RESOURCE_MANAGEMENT_DESCRIPTION,
            Detector::BusinessLogicFlaw => BUSINESS_LOGIC_DESCRIPTION,
            Detector::IncorrectStdFunction => INCORRECT_STD_DESCRIPTION,
        }
    }

    /// This detector's description.
    pub fn description(&self) -> (r: &'static str)
        ensures
            r == self.description_text(),
    {
        match self {
            Detector::Reentrancy => REENTRANCY_DESCRIPTION,
            Detector::IntegerOverflow => INTEGER_OVERFLOW_DESCRIPTION,
            Detector::AccessControl => ACCESS_CONTROL_DESCRIPTION,
            Detector::UncheckedArithmetic => UNCHECKED_ARITHMETIC_DESCRIPTION,
            Detector::MissingErrorHandling => MISSING_ERROR_HANDLING_DESCRIPTION,
            Detector::UnboundedExecution => UNBOUNDED_EXECUTION_DESCRIPTION,
            Detector::GenericsTypeCheck => GENERICS_TYPE_CHECK_DESCRIPTION,
            Detector::PriceOracleManipulation => PRICE_ORACLE_DESCRIPTION,
            Detector::ArithmeticPrecision => ARITHMETIC_PRECISION_DESCRIPTION,
            Detector::AccountRegistration => ACCOUNT_REGISTRATION_DESCRIPTION,
            Detector::ResourceManagement => RESOURCE_MANAGEMENT_DESCRIPTION,
            Detector::BusinessLogicFlaw => BUSINESS_LOGIC_DESCRIPTION,
            Detector::IncorrectStdFunction => INCORRECT_STD_DESCRIPTION,
        }
    }

    /// This detector's remediation advice.
    pub open spec fn recommendation_text(self) -> &'static str {
        match self {
            Detector::Reentrancy => REENTRANCY_RECOMMENDATION,
            Detector::IntegerOverflow => INTEGER_OVERFLOW_RECOMMENDATION,
            Detector::AccessControl => ACCESS_CONTROL_RECOMMENDATION,
            Detector::UncheckedArithmetic => UNCHECKED_ARITHMETIC_RECOMMENDATION,
            Detector::MissingErrorHandling => MISSING_ERROR_HANDLING_RECOMMENDATION,
            Detector::UnboundedExecution => UNBOUNDED_EXECUTION_RECOMMENDATION,
            Detector::GenericsTypeCheck => GENERICS_TYPE_CHECK_RECOMMENDATION,
            Detector::PriceOracleManipulation => PRICE_ORACLE_RECOMMENDATION,
            Detector::ArithmeticPrecision => ARITHMETIC_PRECISION_RECOMMENDATION,
            Detector::AccountRegistration => ACCOUNT_REGISTRATION_RECOMMENDATION,
            Detector::ResourceManagement => RESOURCE_MANAGEMENT_RECOMMENDATION,
            Detector::BusinessLogicFlaw => BUSINESS_LOGIC_RECOMMENDATION,
            Detector::IncorrectStdFunction => INCORRECT_STD_RECOMMENDATION,
        }
    }

    /// This detector's remediation advice.
    pub fn recommendation(&self) -> (r: &'static str)
        ensures
            r == self.recommendation_text(),
    {
        match self {
            Detector::Reentrancy => REENTRANCY_RECOMMENDATION,
            Detector::IntegerOverflow => INTEGER_OVERFLOW_RECOMMENDATION,
            Detector::AccessControl => ACCESS_CONTROL_RECOMMENDATION,
            Detector::UncheckedArithmetic => UNCHECKED_ARITHMETIC_RECOMMENDATION,
            Detector::MissingErrorHandling => MISSING_ERROR_HANDLING_RECOMMENDATION,
            Detector::UnboundedExecution => UNBOUNDED_EXECUTION_RECOMMENDATION,
            Detector::GenericsTypeCheck => GENERICS_TYPE_CHECK_RECOMMENDATION,
            Detector::PriceOracleManipulation => PRICE_ORACLE_RECOMMENDATION,
            Detector::ArithmeticPrecision => ARITHMETIC_PRECISION_RECOMMENDATION,
            Detector::AccountRegistration => ACCOUNT_REGISTRATION_RECOMMENDATION,
            Detector::ResourceManagement => RESOURCE_MANAGEMENT_RECOMMENDATION,
            Detector::BusinessLogicFlaw => BUSINESS_LOGIC_RECOMMENDATION,
            Detector::IncorrectStdFunction => INCORRECT_STD_RECOMMENDATION,
        }
    }

}

/// The text of each line.
pub open spec fn lines_view(v: Seq<&str>) -> Seq<Seq<char>> {
    v.map_values(|l: &str| l@)
}

impl Detector {
    /// The finding this detector reports at the 1-based line `line`.
    pub open spec fn finding_at(self, line: int) -> FindingView {
        FindingView {
            severity: self.severity_spec(),
            title: self.title_text()@,
            description: self.description_text()@,
            file: CONTRACT_FILE@,
            line,
            column: 0,
            recommendation: self.recommendation_text()@,
        }
    }

    /// The detectors that decide each line on that line alone, by one
    /// regular expression and a keyword condition.
    pub open spec fn is_line_local(self) -> bool {
        !(self is Reentrancy || self is AccessControl || self is IncorrectStdFunction)
    }

    /// The text that triggers this detector on a line: a regular expression,
    /// except for option misuse, whose trigger is a borrow call found as plain text.
    pub open spec fn trigger_text(self) -> &'static str {
        match self {
            Detector::IntegerOverflow => ADDITION,
            Detector::UncheckedArithmetic => SUBTRACTION,
            Detector::MissingErrorHandling => DIVISION,
            Detector::UnboundedExecution => WHILE_LOOP,
            Detector::GenericsTypeCheck => GENERIC_FUNCTION,
            Detector::PriceOracleManipulation => PRICE_RATIO,
            Detector::ArithmeticPrecision => LITERAL_DIVISION,
            Detector::AccountRegistration => COIN_OPERATION,
            Detector::ResourceManagement => GLOBAL_VECTOR,
            Detector::BusinessLogicFlaw => FUNDS_ACTION,
            Detector::Reentrancy => TRANSFER_CALL,
            Detector::AccessControl => STATE_CHANGE,
            Detector::IncorrectStdFunction => OPTION_BORROW,
        }
    }

    /// The text that triggers this detector on a line: a regular expression,
    /// except for option misuse, whose trigger is a borrow call found as plain text.
    pub fn trigger(&self) -> (r: &'static str)
        ensures
            r == self.trigger_text(),
    {
        match self {
            Detector::IntegerOverflow => ADDITION,
            Detector::UncheckedArithmetic => SUBTRACTION,
            Detector::MissingErrorHandling => DIVISION,
            Detector::UnboundedExecution => WHILE_LOOP,
            Detector::GenericsTypeCheck => GENERIC_FUNCTION,
            Detector::PriceOracleManipulation => PRICE_RATIO,
            Detector::ArithmeticPrecision => LITERAL_DIVISION,
            Detector::AccountRegistration => COIN_OPERATION,
            Detector::ResourceManagement => GLOBAL_VECTOR,
            Detector::BusinessLogicFlaw => FUNDS_ACTION,
            Detector::Reentrancy => TRANSFER_CALL,
            Detector::AccessControl => STATE_CHANGE,
            Detector::IncorrectStdFunction => OPTION_BORROW,
        }
    }

    /// The keyword condition a line-local detector asks of a line that
    /// matches its regular expression.
    pub open spec fn line_condition(self, l: Seq<char>) -> bool {
        match self {
            Detector::UnboundedExecution => has_sub(l, "vector::length"@) || has_sub(l, "len"@)
                || has_sub(l, "user"@) || has_sub(l, "input"@),
            Detector::GenericsTypeCheck => !has_sub(l, "type_of"@) && !has_sub(l, ASSERTION@),
            Detector::PriceOracleManipulation => !has_sub(l, "oracle"@),
            Detector::ArithmeticPrecision => has_sub(l, "fee"@) || has_sub(l, "amount"@) || has_sub(
                l,
                "size"@,
            ),
            Detector::AccountRegistration => !has_sub(l, "is_account_registered"@) && !has_sub(
                l,
                "register"@,
            ),
            Detector::ResourceManagement => true,
            _ => !has_sub(l, ASSERTION@),
        }
    }

    /// Whether `l` meets this detector's keyword condition.
    fn meets_condition(&self, l: &str) -> (r: bool)
        ensures
            r == self.line_condition(l@),
    {
        match self {
            Detector::UnboundedExecution => contains_text(l, "vector::length") || contains_text(
                l,
                "len",
            ) || contains_text(l, "user") || contains_text(l, "input"),
            Detector::GenericsTypeCheck => !contains_text(l, "type_of") && !contains_text(
                l,
                ASSERTION,
            ),
            Detector::PriceOracleManipulation => !contains_text(l, "oracle"),
            Detector::ArithmeticPrecision => contains_text(l, "fee") || contains_text(l, "amount")
                || contains_text(l, "size"),
            Detector::AccountRegistration => !contains_text(l, "is_account_registered")
                && !contains_text(l, "register"),
            Detector::ResourceManagement => true,
            _ => !contains_text(l, ASSERTION),
        }
    }

    /// Whether this detector flags line `i` (0-based) of `lines`.
    pub open spec fn flags(self, lines: Seq<Seq<char>>, i: int) -> bool {
        if self is Reentrancy {
            reentrancy_flags(lines, i)
        } else if self is AccessControl {
            access_control_flags(lines, i)
        } else if self is IncorrectStdFunction {
            misuse_flags(lines, i)
        } else {
            self.flags_line(lines[i])
        }
    }

    /// Whether this line-local detector flags the line `l`.
    pub open spec fn flags_line(self, l: Seq<char>) -> bool {
        regex_finds(self.trigger_text()@, l) && self.line_condition(l)
    }

    /// For each line, whether this detector flags it.
    pub open spec fn line_flags(self, lines: Seq<Seq<char>>) -> Seq<bool> {
        Seq::new(lines.len(), |i: int| self.flags(lines, i))
    }

    /// This detector's findings on the lines `lines`: one per flagged line,
    /// in line order.
    pub open spec fn findings_in(self, lines: Seq<Seq<char>>) -> Seq<FindingView> {
        marked(self.line_flags(lines)).map_values(|n: int| self.finding_at(n))
    }

    /// This detector's findings on the source text `code`.
    pub open spec fn findings(self, code: Seq<char>) -> Seq<FindingView> {
        self.findings_in(lines_of(code))
    }

    /// The finding of this detector at the 1-based line `line`.
    fn make_finding(&self, line: usize) -> (v: Vulnerability)
        ensures
            v@ == self.finding_at(line as int),
    {
        Vulnerability {
            severity: self.severity(),
            title: String::from_str(self.title()),
            description: String::from_str(self.description()),
            location: Location { file: String::from_str(CONTRACT_FILE), line, column: 0 },
            recommendation: String::from_str(self.recommendation()),
        }
    }

    /// One finding for each line at which `hit` holds, in line order.
    pub fn report(&self, hit: &Vec<bool>) -> (r: Vec<Vulnerability>)
        ensures
            views(r@) == marked(hit@).map_values(|n: int| self.finding_at(n)),
    {
        let mut out: Vec<Vulnerability> = Vec::new();
        let mut i: usize = 0;
        while i < hit.len()
            invariant
                i <= hit@.len(),
                views(out@) == marked(hit@.take(i as int)).map_values(|n: int| self.finding_at(n)),
            decreases hit@.len() - i,
        {
            assert(hit@.take(i + 1).drop_last() =~= hit@.take(i as int));
            assert(hit@.take(i + 1).last() == hit@[i as int]);
            if hit[i] {
                let v = self.make_finding(i + 1);
                let ghost prev = out@;
                out.push(v);
                assert(marked(hit@.take(i + 1)) == marked(hit@.take(i as int)).push((i + 1) as int));
                assert(views(out@) =~= views(prev).push(v@));
                assert(views(out@) =~= marked(hit@.take(i + 1)).map_values(
                    |n: int| self.finding_at(n),
                ));
            }
            i = i + 1;
        }
        assert(hit@.take(i as int) =~= hit@);
        out
    }

    /// For each line, whether it matched (`matched`) and meets this
    /// detector's keyword condition.
    pub fn keyword_filter(&self, matched: &Vec<bool>, lines: &Vec<&str>) -> (r: Vec<bool>)
        requires
            matched@.len() == lines@.len(),
        ensures
            r@.len() == lines@.len(),
            forall|i: int|
                0 <= i < r@.len() ==> r@[i] == (matched@[i] && self.line_condition(lines@[i]@)),
    {
        let mut hit: Vec<bool> = Vec::new();
        let mut i: usize = 0;
        while i < lines.len()
            invariant
                i <= lines@.len(),
                matched@.len() == lines@.len(),
                hit@.len() == i,
                forall|k: int| 0 <= k < i ==> hit@[k] == (matched@[k] && self.line_condition(lines@[k]@)),
            decreases lines@.len() - i,
        {
            let b = matched[i] && self.meets_condition(lines[i]);
            hit.push(b);
            i = i + 1;
        }
        hit
    }

    /// For each line, whether this line-local detector flags it.
    fn local_hits(&self, lines: &Vec<&str>) -> (r: Vec<bool>)
        requires
            self.is_line_local(),
        ensures
            r@ == self.line_flags(lines_view(lines@)),
    {
        let matched = match_lines(self.trigger(), lines);
        let hit = self.keyword_filter(&matched, lines);
        assert(hit@ =~= self.line_flags(lines_view(lines@)));
        hit
    }
}

/// For each line, whether the regular expression `pattern` matches it.
pub open spec fn regex_hits(pattern: Seq<char>, lines: Seq<Seq<char>>) -> Seq<bool> {
    Seq::new(lines.len(), |i: int| regex_finds(pattern, lines[i]))
}

/// `transfer` holds at line `i`, and `change` at one of the four lines after it.
pub open spec fn change_follows(transfer: Seq<bool>, change: Seq<bool>, i: int) -> bool {
    transfer[i] && exists|j: int| i < j < i + 5 && j < change.len() && #[trigger] change[j]
}

/// Reentrancy: an external transfer on line `i`, and a state change on one
/// of the next four lines.
pub open spec fn reentrancy_flags(lines: Seq<Seq<char>>, i: int) -> bool {
    change_follows(regex_hits(TRANSFER_CALL@, lines), regex_hits(STATE_CHANGE@, lines), i)
}

/// The first line of the owner-assertion window of line `i`.
pub open spec fn window_start(i: int) -> int {
    if i >= 10 {
        i - 10
    } else {
        0
    }
}

/// `owner` holds within the twenty lines from `window_start(i)`.
pub open spec fn owner_in_window(owner: Seq<bool>, i: int) -> bool {
    exists|j: int|
        window_start(i) <= j < window_start(i) + 20 && j < owner.len() && #[trigger] owner[j]
}

/// A state change on line `i` that is not skipped and has no owner
/// assertion in its window.
pub open spec fn unguarded_at(change: Seq<bool>, owner: Seq<bool>, skip: Seq<bool>, i: int) -> bool {
    change[i] && !skip[i] && !owner_in_window(owner, i)
}

/// Line `i` is flagged by one of the detectors that access control defers to.
pub open spec fn suppressed(lines: Seq<Seq<char>>, i: int) -> bool {
    reentrancy_flags(lines, i) || Detector::IntegerOverflow.flags_line(lines[i])
        || Detector::UncheckedArithmetic.flags_line(lines[i])
        || Detector::MissingErrorHandling.flags_line(lines[i])
}

/// For each line, whether access control defers it to another detector.
pub open spec fn suppression(lines: Seq<Seq<char>>) -> Seq<bool> {
    Seq::new(lines.len(), |i: int| suppressed(lines, i))
}

/// Access control: a state change on line `i` that no suppressing detector
/// flags, with no owner assertion in the window around it.
pub open spec fn access_control_flags(lines: Seq<Seq<char>>, i: int) -> bool {
    unguarded_at(
        regex_hits(STATE_CHANGE@, lines),
        regex_hits(OWNER_CHECK@, lines),
        suppression(lines),
        i,
    )
}

/// An option value was extracted before line `n` and not yet borrowed since.
pub open spec fn extracted_before(lines: Seq<Seq<char>>, n: int) -> bool
    decreases n,
{
    if n <= 0 {
        false
    } else {
        let open = extracted_before(lines, n - 1) || has_sub(lines[n - 1], OPTION_EXTRACT@);
        open && !has_sub(lines[n - 1], OPTION_BORROW@)
    }
}

/// Option misuse: a borrow on line `i` after an extraction that no earlier
/// borrow has answered (an extraction on line `i` itself counts).
pub open spec fn misuse_flags(lines: Seq<Seq<char>>, i: int) -> bool {
    (extracted_before(lines, i) || has_sub(lines[i], OPTION_EXTRACT@)) && has_sub(
        lines[i],
        OPTION_BORROW@,
    )
}


/// For each line, whether `transfer` holds there and `change` on one of
/// the four lines after it.
pub fn changes_after_transfers(transfer: &Vec<bool>, change: &Vec<bool>) -> (r: Vec<bool>)
    requires
        transfer@.len() == change@.len(),
    ensures
        r@.len() == transfer@.len(),
        forall|i: int| 0 <= i < r@.len() ==> r@[i] == change_follows(transfer@, change@, i),
{
    let n = transfer.len();
    let mut hit: Vec<bool> = Vec::new();
    let mut i: usize = 0;
    while i < n
        invariant
            n == transfer@.len(),
            n == change@.len(),
            i <= n,
            hit@.len() == i,
            forall|k: int| 0 <= k < i ==> hit@[k] == change_follows(transfer@, change@, k),
        decreases n - i,
    {
        let mut found = false;
        if transfer[i] {
            let end: usize = if n - i > 5 { i + 5 } else { n };
            let mut j: usize = i + 1;
            while j < end && !found
                invariant
                    n == change@.len(),
                    i < n,
                    end <= n,
                    end <= i + 5,
                    i + 1 <= j,
                    !found ==> forall|k: int| i < k < j && k < end ==> !change@[k],
                    found ==> exists|k: int| i < k < i + 5 && k < n && #[trigger] change@[k],
                decreases end - j,
            {
                if change[j] {
                    found = true;
                }
                j = j + 1;
            }
            proof {
                if !found {
                    assert forall|k: int| i < k < i + 5 && k < n implies !#[trigger] change@[k] by {
                        assert(k < end);
                    }
                }
            }
        }
        hit.push(found);
        i = i + 1;
    }
    hit
}

/// For each line, whether `change` holds there, `skip` does not, and
/// `owner` holds nowhere in its window: the twenty lines from ten before it
/// (from the first line, near the start).
pub fn unguarded_changes(change: &Vec<bool>, owner: &Vec<bool>, skip: &Vec<bool>) -> (r: Vec<bool>)
    requires
        owner@.len() == change@.len(),
        skip@.len() == change@.len(),
    ensures
        r@.len() == change@.len(),
        forall|i: int| 0 <= i < r@.len() ==> r@[i] == unguarded_at(change@, owner@, skip@, i),
{
    let n = change.len();
    let mut hit: Vec<bool> = Vec::new();
    let mut i: usize = 0;
    while i < n
        invariant
            n == change@.len(),
            n == owner@.len(),
            n == skip@.len(),
            i <= n,
            hit@.len() == i,
            forall|k: int| 0 <= k < i ==> hit@[k] == unguarded_at(change@, owner@, skip@, k),
        decreases n - i,
    {
        let mut b = false;
        if change[i] && !skip[i] {
            let start: usize = if i >= 10 { i - 10 } else { 0 };
            let end: usize = if n - start > 20 { start + 20 } else { n };
            let mut seen = false;
            let mut j: usize = start;
            while j < end && !seen
                invariant
                    n == owner@.len(),
                    start == window_start(i as int),
                    end <= n,
                    end <= start + 20,
                    start <= j,
                    !seen ==> forall|k: int| start <= k < j && k < end ==> !owner@[k],
                    seen ==> owner_in_window(owner@, i as int),
                decreases end - j,
            {
                if owner[j] {
                    seen = true;
                }
                j = j + 1;
            }
            proof {
                if !seen {
                    assert forall|k: int|
                        window_start(i as int) <= k < window_start(i as int) + 20 && k < n
                        implies !#[trigger] owner@[k] by {
                        assert(k < end);
                    }
                }
            }
            b = !seen;
        }
        hit.push(b);
        i = i + 1;
    }
    hit
}

/// Some finding of `vs` stands at the 1-based line `n`.
pub open spec fn has_line(vs: Seq<Vulnerability>, n: int) -> bool {
    exists|k: int| 0 <= k < vs.len() && (#[trigger] vs[k]).location.line == n
}

/// The findings of a detector stand exactly at the lines it flags.
proof fn lemma_has_line_marked(d: Detector, f: Seq<bool>, vs: Seq<Vulnerability>, n: int)
    requires
        views(vs) == marked(f).map_values(|m: int| d.finding_at(m)),
    ensures
        has_line(vs, n) <==> (1 <= n <= f.len() && f[n - 1]),
{
    lemma_marked_contains(f, n);
    assert(vs.len() == marked(f).len()) by {
        assert(views(vs).len() == vs.len());
    }
    if has_line(vs, n) {
        let k = choose|k: int| 0 <= k < vs.len() && (#[trigger] vs[k]).location.line == n;
        assert(views(vs)[k] == vs[k]@);
        assert(marked(f)[k] == n);
    }
    if marked(f).contains(n) {
        let k = choose|k: int| 0 <= k < marked(f).len() && marked(f)[k] == n;
        assert(views(vs)[k] == vs[k]@);
        assert(vs[k].location.line == n);
    }
}

/// A finding of a concatenation stands in one of its parts.
proof fn lemma_has_line_concat(x: Seq<Vulnerability>, y: Seq<Vulnerability>, n: int)
    ensures
        has_line(x + y, n) <==> has_line(x, n) || has_line(y, n),
{
    if has_line(x + y, n) {
        let k = choose|k: int| 0 <= k < (x + y).len() && (#[trigger] (x + y)[k]).location.line == n;
        if k < x.len() {
            assert(x[k] == (x + y)[k]);
        } else {
            assert(y[k - x.len()] == (x + y)[k]);
        }
    }
    if has_line(x, n) {
        let k = choose|k: int| 0 <= k < x.len() && (#[trigger] x[k]).location.line == n;
        assert((x + y)[k] == x[k]);
    }
    if has_line(y, n) {
        let k = choose|k: int| 0 <= k < y.len() && (#[trigger] y[k]).location.line == n;
        assert((x + y)[k + x.len()] == y[k]);
    }
}

/// The set of lines at which `vulns` holds a finding.
pub fn flagged_lines(vulns: &[Vulnerability]) -> (r: std::collections::HashSet<usize>)
    ensures
        forall|l: usize| r@.contains(l) <==> has_line(vulns@, l as int),
{
    broadcast use vstd::std_specs::hash::group_hash_axioms;

    let mut set: std::collections::HashSet<usize> = std::collections::HashSet::new();
    let mut i: usize = 0;
    while i < vulns.len()
        invariant
            i <= vulns@.len(),
            forall|l: usize| set@.contains(l) <==> has_line(vulns@.take(i as int), l as int),
        decreases vulns@.len() - i,
    {
        let line = vulns[i].location.line;
        set.insert(line);
        proof {
            let prev = vulns@.take(i as int);
            let next = vulns@.take(i + 1);
            assert forall|l: usize| set@.contains(l) <==> has_line(next, l as int) by {
                if has_line(next, l as int) {
                    let k = choose|k: int| 0 <= k < next.len() && (#[trigger] next[k]).location.line == l;
                    if k < i {
                        assert(prev[k] == next[k]);
                    }
                }
                if has_line(prev, l as int) {
                    let k = choose|k: int| 0 <= k < prev.len() && (#[trigger] prev[k]).location.line == l;
                    assert(next[k] == prev[k]);
                }
                assert(next[i as int] == vulns@[i as int]);
            }
        }
        i = i + 1;
    }
    assert(vulns@.take(i as int) =~= vulns@);
    set
}

impl Detector {
    /// For each line, whether the reentrancy detector flags it.
    fn reentrancy_hits(lines: &Vec<&str>) -> (r: Vec<bool>)
        ensures
            r@ == Detector::Reentrancy.line_flags(lines_view(lines@)),
    {
        let ghost ls = lines_view(lines@);
        let transfer = match_lines(TRANSFER_CALL, lines);
        let change = match_lines(STATE_CHANGE, lines);
        assert(transfer@ =~= regex_hits(TRANSFER_CALL@, ls));
        assert(change@ =~= regex_hits(STATE_CHANGE@, ls));
        let hit = changes_after_transfers(&transfer, &change);
        assert(hit@ =~= Detector::Reentrancy.line_flags(ls));
        hit
    }

    /// For each line, whether the option-misuse detector flags it.
    fn misuse_hits(lines: &Vec<&str>) -> (r: Vec<bool>)
        ensures
            r@ == Detector::IncorrectStdFunction.line_flags(lines_view(lines@)),
    {
        let ghost ls = lines_view(lines@);
        let n = lines.len();
        let mut extracted = false;
        let mut hit: Vec<bool> = Vec::new();
        let mut i: usize = 0;
        while i < n
            invariant
                n == lines@.len(),
                ls == lines_view(lines@),
                i <= n,
                extracted == extracted_before(ls, i as int),
                hit@.len() == i,
                forall|k: int| 0 <= k < i ==> hit@[k] == misuse_flags(ls, k),
            decreases n - i,
        {
            let line = lines[i];
            assert(ls[i as int] == line@);
            if contains_text(line, OPTION_EXTRACT) {
                extracted = true;
            }
            let b = extracted && contains_text(line, OPTION_BORROW);
            if b {
                extracted = false;
            }
            hit.push(b);
            i = i + 1;
        }
        assert(hit@ =~= Detector::IncorrectStdFunction.line_flags(ls));
        hit
    }

    /// For each line, whether the access-control detector flags it.
    fn access_control_hits(lines: &Vec<&str>) -> (r: Vec<bool>)
        ensures
            r@ == Detector::AccessControl.line_flags(lines_view(lines@)),
    {
        broadcast use vstd::std_specs::hash::group_hash_axioms;

        let ghost ls = lines_view(lines@);
        let change = match_lines(STATE_CHANGE, lines);
        let owner = match_lines(OWNER_CHECK, lines);
        let overflow_hits = Detector::IntegerOverflow.local_hits(lines);
        let unchecked_hits = Detector::UncheckedArithmetic.local_hits(lines);
        let division_hits = Detector::MissingErrorHandling.local_hits(lines);
        let reentrant_hits = Detector::reentrancy_hits(lines);
        let mut others = Detector::IntegerOverflow.report(&overflow_hits);
        let ghost a = others@;
        let mut more = Detector::UncheckedArithmetic.report(&unchecked_hits);
        let ghost b = more@;
        others.append(&mut more);
        let mut more = Detector::MissingErrorHandling.report(&division_hits);
        let ghost c = more@;
        others.append(&mut more);
        let mut more = Detector::Reentrancy.report(&reentrant_hits);
        let ghost d = more@;
        others.append(&mut more);
        let flagged = flagged_lines(others.as_slice());
        let n = lines.len();
        proof {
            assert(others@ == a + b + c + d);
            assert(ls.len() == n);
            assert forall|i: int| 0 <= i < ls.len() implies (flagged@.contains((i + 1) as usize)
                <==> suppressed(ls, i)) by {
                let n = i + 1;
                lemma_has_line_concat(a + b + c, d, n);
                lemma_has_line_concat(a + b, c, n);
                lemma_has_line_concat(a, b, n);
                lemma_has_line_marked(Detector::IntegerOverflow, overflow_hits@, a, n);
                lemma_has_line_marked(Detector::UncheckedArithmetic, unchecked_hits@, b, n);
                lemma_has_line_marked(Detector::MissingErrorHandling, division_hits@, c, n);
                lemma_has_line_marked(Detector::Reentrancy, reentrant_hits@, d, n);
                assert(overflow_hits@[i] == Detector::IntegerOverflow.flags_line(ls[i]));
                assert(unchecked_hits@[i] == Detector::UncheckedArithmetic.flags_line(ls[i]));
                assert(division_hits@[i] == Detector::MissingErrorHandling.flags_line(ls[i]));
                assert(reentrant_hits@[i] == reentrancy_flags(ls, i));
                assert(((i + 1) as usize) as int == n);
            }
        }
        let mut skip: Vec<bool> = Vec::new();
        let mut i: usize = 0;
        while i < n
            invariant
                n == lines@.len(),
                ls == lines_view(lines@),
                i <= n,
                forall|k: int| 0 <= k < n ==> (flagged@.contains((k + 1) as usize) <==> suppressed(ls, k)),
                skip@.len() == i,
                forall|k: int| 0 <= k < i ==> skip@[k] == suppressed(ls, k),
            decreases n - i,
        {
            skip.push(flagged.contains(&(i + 1)));
            i = i + 1;
        }
        assert(skip@ =~= suppression(ls));
        assert(change@ =~= regex_hits(STATE_CHANGE@, ls));
        assert(owner@ =~= regex_hits(OWNER_CHECK@, ls));
        let hit = unguarded_changes(&change, &owner, &skip);
        assert(hit@ =~= Detector::AccessControl.line_flags(ls));
        hit
    }

    /// This detector's findings on the lines `lines`.
    fn check_lines(&self, lines: &Vec<&str>) -> (r: Vec<Vulnerability>)
        ensures
            views(r@) == self.findings_in(lines_view(lines@)),
    {
        let hit = match self {
            Detector::Reentrancy => Detector::reentrancy_hits(lines),
            Detector::AccessControl => Detector::access_control_hits(lines),
            Detector::IncorrectStdFunction => Detector::misuse_hits(lines),
            _ => self.local_hits(lines),
        };
        self.report(&hit)
    }

    /// Scans the source text `code` and reports one finding per flagged
    /// line, in line order.
    pub fn check(&self, code: &str) -> (r: Vec<Vulnerability>)
        ensures
            views(r@) == self.findings(code@),
    {
        let lines = split_lines(code);
        assert(lines_view(lines@) =~= lines_of(code@));
        self.check_lines(&lines)
    }
}


/// A detector as a value of its own type.
pub trait SecurityPattern {
    /// The detector this type stands for.
    spec fn detector(&self) -> Detector;

    /// The detector's display name.
    fn name(&self) -> (r: &'static str)
        ensures
            r == self.detector().title_text(),
    ;

    /// The detector's findings on the source text `code`.
    fn check(&self, code: &str) -> (r: Vec<Vulnerability>)
        ensures
            views(r@) == self.detector().findings(code@),
    ;
}

pub struct ReentrancyPattern;

pub struct IntegerOverflowPattern;

pub struct AccessControlPattern;

pub struct UncheckedArithmeticPattern;

pub struct MissingErrorHandlingPattern;

pub struct UnboundedExecutionPattern;

pub struct GenericsTypeCheckPattern;

pub struct PriceOracleManipulationPattern;

pub struct ArithmeticPrecisionPattern;

pub struct AccountRegistrationPattern;

pub struct ResourceManagementPattern;

pub struct BusinessLogicFlawPattern;

pub struct IncorrectStdFunctionPattern;

impl SecurityPattern for ReentrancyPattern {
    open spec fn detector(&self) -> Detector {
        Detector::Reentrancy
    }

    fn name(&self) -> &'static str {
        Detector::Reentrancy.title()
    }

    fn check(&self, code: &str) -> Vec<Vulnerability> {
        Detector::Reentrancy.check(code)
    }
}

impl SecurityPattern for IntegerOverflowPattern {
    open spec fn detector(&self) -> Detector {
        Detector::IntegerOverflow
    }

    fn name(&self) -> &'static str {
        Detector::IntegerOverflow.title()
    }

    fn check(&self, code: &str) -> Vec<Vulnerability> {
        Detector::IntegerOverflow.check(code)
    }
}

impl SecurityPattern for AccessControlPattern {
    open spec fn detector(&self) -> Detector {
        Detector::AccessControl
    }

    fn name(&self) -> &'static str {
        Detector::AccessControl.title()
    }

    fn check(&self, code: &str) -> Vec<Vulnerability> {
        Detector::AccessControl.check(code)
    }
}

impl SecurityPattern for UncheckedArithmeticPattern {
    open spec fn detector(&self) -> Detector {
        Detector::UncheckedArithmetic
    }

    fn name(&self) -> &'static str {
        Detector::UncheckedArithmetic.title()
    }

    fn check(&self, code: &str) -> Vec<Vulnerability> {
        Detector::UncheckedArithmetic.check(code)
    }
}

impl SecurityPattern for MissingErrorHandlingPattern {
    open spec fn detector(&self) -> Detector {
        Detector::MissingErrorHandling
    }

    fn name(&self) -> &'static str {
        Detector::MissingErrorHandling.title()
    }

    fn check(&self, code: &str) -> Vec<Vulnerability> {
        Detector::MissingErrorHandling.check(code)
    }
}

impl SecurityPattern for UnboundedExecutionPattern {
    open spec fn detector(&self) -> Detector {
        Detector::UnboundedExecution
    }

    fn name(&self) -> &'static str {
        Detector::UnboundedExecution.title()
    }

    fn check(&self, code: &str) -> Vec<Vulnerability> {
        Detector::UnboundedExecution.check(code)
    }
}

impl SecurityPattern for GenericsTypeCheckPattern {
    open spec fn detector(&self) -> Detector {
        Detector::GenericsTypeCheck
    }

    fn name(&self) -> &'static str {
        Detector::GenericsTypeCheck.title()
    }

    fn check(&self, code: &str) -> Vec<Vulnerability> {
        Detector::GenericsTypeCheck.check(code)
    }
}

impl SecurityPattern for PriceOracleManipulationPattern {
    open spec fn detector(&self) -> Detector {
        Detector::PriceOracleManipulation
    }

    fn name(&self) -> &'static str {
        Detector::PriceOracleManipulation.title()
    }

    fn check(&self, code: &str) -> Vec<Vulnerability> {
        Detector::PriceOracleManipulation.check(code)
    }
}

impl SecurityPattern for ArithmeticPrecisionPattern {
    open spec fn detector(&self) -> Detector {
        Detector::ArithmeticPrecision
    }

    fn name(&self) -> &'static str {
        Detector::ArithmeticPrecision.title()
    }

    fn check(&self, code: &str) -> Vec<Vulnerability> {
        Detector::ArithmeticPrecision.check(code)
    }
}

impl SecurityPattern for AccountRegistrationPattern {
    open spec fn detector(&self) -> Detector {
        Detector::AccountRegistration
    }

    fn name(&self) -> &'static str {
        Detector::AccountRegistration.title()
    }

    fn check(&self, code: &str) -> Vec<Vulnerability> {
        Detector::AccountRegistration.check(code)
    }
}

impl SecurityPattern for ResourceManagementPattern {
    open spec fn detector(&self) -> Detector {
        Detector::ResourceManagement
    }

    fn name(&self) -> &'static str {
        Detector::ResourceManagement.title()
    }

    fn check(&self, code: &str) -> Vec<Vulnerability> {
        Detector::ResourceManagement.check(code)
    }
}

impl SecurityPattern for BusinessLogicFlawPattern {
    open spec fn detector(&self) -> Detector {
        Detector::BusinessLogicFlaw
    }

    fn name(&self) -> &'static str {
        Detector::BusinessLogicFlaw.title()
    }

    fn check(&self, code: &str) -> Vec<Vulnerability> {
        Detector::BusinessLogicFlaw.check(code)
    }
}

impl SecurityPattern for IncorrectStdFunctionPattern {
    open spec fn detector(&self) -> Detector {
        Detector::IncorrectStdFunction
    }

    fn name(&self) -> &'static str {
        Detector::IncorrectStdFunction.title()
    }

    fn check(&self, code: &str) -> Vec<Vulnerability> {
        Detector::IncorrectStdFunction.check(code)
    }
}


} // verus!
