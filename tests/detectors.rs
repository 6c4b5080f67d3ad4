use aptotect::analyzer::{Analyzer, Severity, Vulnerability};
use aptotect::patterns::{
    changes_after_transfers, flagged_lines, unguarded_changes, AccessControlPattern, AccountRegistrationPattern, ArithmeticPrecisionPattern,
    BusinessLogicFlawPattern, Detector, GenericsTypeCheckPattern, IncorrectStdFunctionPattern,
    IntegerOverflowPattern, MissingErrorHandlingPattern, PriceOracleManipulationPattern,
    ReentrancyPattern, ResourceManagementPattern, SecurityPattern, UnboundedExecutionPattern,
    UncheckedArithmeticPattern,
};
use aptotect::text::contains_text;

const TEST_CONTRACT: &str = "module 0x1::vault {
    use aptos_framework::coin;

    struct Vault has key { balance: u64 }

    public fun withdraw_all(account: &signer, to: address) acquires Vault {
        coin::transfer<AptosCoin>(account, to, 100);
        let vault = borrow_global_mut<Vault>(@0x1);
        vault.balance = 0;
    }

    public fun add(a: u64, b: u64): u64 {
        let total = a + b;
        total
    }

    public fun take(a: u64, b: u64): u64 {
        let rest = a - b;
        rest
    }

    public fun split(a: u64, b: u64): u64 {
        let part = a / b;
        part
    }

    public fun store(account: &signer) {
        move_to(account, Vault { balance: 0 });
    }
}
";

fn lines_of(found: &[Vulnerability], title: &str) -> Vec<usize> {
    found.iter().filter(|v| v.title == title).map(|v| v.location.line).collect()
}

#[test]
fn test_reentrancy_detection() {
    let analyzer = Analyzer::new();
    let vulnerabilities = analyzer.analyze_contract(TEST_CONTRACT);
    assert_eq!(lines_of(&vulnerabilities, "Reentrancy Vulnerability"), vec![7]);
    let v = vulnerabilities.iter().find(|v| v.title == "Reentrancy Vulnerability").unwrap();
    assert_eq!(v.severity, Severity::Critical);
    assert_eq!(v.location.file, "contract.move");
    assert_eq!(v.location.column, 0);
}

#[test]
fn test_integer_overflow_detection() {
    let analyzer = Analyzer::new();
    let vulnerabilities = analyzer.analyze_contract(TEST_CONTRACT);
    assert_eq!(lines_of(&vulnerabilities, "Integer Overflow Vulnerability"), vec![13]);
    assert_eq!(lines_of(&vulnerabilities, "Unchecked Arithmetic Vulnerability"), vec![18]);
    assert_eq!(lines_of(&vulnerabilities, "Missing Error Handling Vulnerability"), vec![23]);
}

#[test]
fn test_access_control_detection() {
    let analyzer = Analyzer::new();
    let vulnerabilities = analyzer.analyze_contract(TEST_CONTRACT);
    // the reentrancy finding stands on the transfer (line 7), so the state
    // change on line 8 is not suppressed
    assert_eq!(lines_of(&vulnerabilities, "Access Control Vulnerability"), vec![8, 28]);
}

#[test]
fn registry_order_and_total() {
    let found = Analyzer::new().analyze_contract(TEST_CONTRACT);
    let titles: Vec<&str> = found.iter().map(|v| v.title.as_str()).collect();
    assert_eq!(
        titles,
        vec![
            "Reentrancy Vulnerability",
            "Integer Overflow Vulnerability",
            "Unchecked Arithmetic Vulnerability",
            "Missing Error Handling Vulnerability",
            "Access Control Vulnerability",
            "Access Control Vulnerability",
        ]
    );
}

#[test]
fn repeated_analysis_is_identical() {
    let analyzer = Analyzer::new();
    let first = analyzer.analyze_contract(TEST_CONTRACT);
    let second = analyzer.analyze_contract(TEST_CONTRACT);
    assert_eq!(format!("{:?}", first), format!("{:?}", second));
}

#[test]
fn addition_without_guard_is_flagged() {
    let found = IntegerOverflowPattern.check("let total = a + b;");
    assert_eq!(found.len(), 1);
    assert_eq!(found[0].severity, Severity::High);
    assert_eq!(found[0].title, "Integer Overflow Vulnerability");
    assert_eq!(found[0].location.line, 1);
}

#[test]
fn addition_with_guard_is_not_flagged() {
    let found = IntegerOverflowPattern.check("let total = a + b; assert!(total >= a, 1);");
    assert!(found.is_empty());
}

#[test]
fn transfer_then_state_change_two_lines_later() {
    let code = "fun f() {\n\
                let x = 1;\n\
                let y = 2;\n\
                let z = 3;\n\
                coin::transfer<C>(a, b, 1);\n\
                let w = 4;\n\
                let r = borrow_global_mut<R>(@0x1);\n\
                }\n";
    let found = ReentrancyPattern.check(code);
    assert_eq!(found.len(), 1);
    assert_eq!(found[0].severity, Severity::Critical);
    assert_eq!(found[0].location.line, 5);
}

#[test]
fn reentrancy_window_is_four_lines() {
    let inside = "account::withdraw(a, 1);\n\n\n\nmove_to(s, R {});\n";
    assert_eq!(ReentrancyPattern.check(inside).len(), 1);
    let outside = "account::withdraw(a, 1);\n\n\n\n\nmove_to(s, R {});\n";
    assert!(ReentrancyPattern.check(outside).is_empty());
}

#[test]
fn reentrancy_reports_once_per_transfer() {
    let code = "coin::transfer(a, b, 1);\nmove_to(s, R {});\nTable::add(t, k, v);\n";
    let found = ReentrancyPattern.check(code);
    assert_eq!(found.len(), 1);
    assert_eq!(found[0].location.line, 1);
}

fn padded(n: usize, at: &[(usize, &str)]) -> String {
    let mut text = String::new();
    for i in 1..=n {
        match at.iter().find(|(l, _)| *l == i) {
            Some((_, s)) => text.push_str(s),
            None => text.push_str("let k = 0;"),
        }
        text.push('\n');
    }
    text
}

#[test]
fn unguarded_state_change_at_line_twenty() {
    let code = padded(30, &[(20, "move_to(account, Vault { balance: 0 });")]);
    let found = AccessControlPattern.check(&code);
    assert_eq!(found.len(), 1);
    assert_eq!(found[0].severity, Severity::High);
    assert_eq!(found[0].location.line, 20);
}

#[test]
fn owner_assertion_inside_window_guards() {
    let code = padded(
        30,
        &[(10, "assert!(signer::address_of(s) == owner, 1);"), (20, "move_to(s, R {});")],
    );
    assert!(AccessControlPattern.check(&code).is_empty());
    let code = padded(
        30,
        &[(29, "assert!(signer::address_of(s) == owner, 1);"), (20, "move_to(s, R {});")],
    );
    assert!(AccessControlPattern.check(&code).is_empty());
}

#[test]
fn owner_assertion_outside_window_does_not_guard() {
    let code = padded(
        40,
        &[(30, "assert!(signer::address_of(s) == owner, 1);"), (20, "move_to(s, R {});")],
    );
    assert_eq!(AccessControlPattern.check(&code).len(), 1);
    let code = padded(
        40,
        &[(9, "assert!(signer::address_of(s) == owner, 1);"), (20, "move_to(s, R {});")],
    );
    assert_eq!(AccessControlPattern.check(&code).len(), 1);
}

#[test]
fn window_near_file_start_spans_twenty_lines() {
    let code = padded(
        30,
        &[(3, "move_to(s, R {});"), (20, "assert!(signer::address_of(s) == owner, 1);")],
    );
    assert!(AccessControlPattern.check(&code).is_empty());
    let code = padded(
        30,
        &[(3, "move_to(s, R {});"), (21, "assert!(signer::address_of(s) == owner, 1);")],
    );
    assert_eq!(AccessControlPattern.check(&code).len(), 1);
}

#[test]
fn suppressed_lines_get_no_access_control_finding() {
    let code = "let x = borrow_global_mut<R>(@0x1) + 1;\n";
    assert_eq!(IntegerOverflowPattern.check(code).len(), 1);
    assert!(AccessControlPattern.check(code).is_empty());
    let all = Analyzer::new().analyze_contract(TEST_CONTRACT);
    let ac = lines_of(&all, "Access Control Vulnerability");
    for v in all.iter().filter(|v| v.title != "Access Control Vulnerability") {
        assert!(!ac.contains(&v.location.line));
    }
}

#[test]
fn empty_text_has_no_findings() {
    assert!(Analyzer::new().analyze_contract("").is_empty());
    let all = Analyzer::with_detectors(vec![
        Detector::UnboundedExecution,
        Detector::IncorrectStdFunction,
        Detector::ResourceManagement,
    ]);
    assert!(all.analyze_contract("").is_empty());
}

#[test]
fn crlf_lines_are_counted_like_lf_lines() {
    let found = IntegerOverflowPattern.check("fun f() {\r\nlet t = a + b;\r\n}\r\n");
    assert_eq!(found.len(), 1);
    assert_eq!(found[0].location.line, 2);
}

#[test]
fn unchecked_and_division_detectors() {
    let found = UncheckedArithmeticPattern.check("let d = a - b;\nlet e = a - b; assert!(a >= b, 2);\n");
    assert_eq!(found.len(), 1);
    assert_eq!(found[0].location.line, 1);
    assert_eq!(found[0].severity, Severity::High);
    let found = MissingErrorHandlingPattern.check("let q = a;\nlet q = a / b;\n");
    assert_eq!(found.len(), 1);
    assert_eq!(found[0].location.line, 2);
}

#[test]
fn one_line_may_be_flagged_by_several_detectors() {
    let code = "let r = a + b - c / d;";
    assert_eq!(IntegerOverflowPattern.check(code).len(), 1);
    assert_eq!(UncheckedArithmeticPattern.check(code).len(), 1);
    assert_eq!(MissingErrorHandlingPattern.check(code).len(), 1);
}

#[test]
fn heuristic_detectors() {
    let found = UnboundedExecutionPattern.check("while (i < vector::length(&v)) {\nwhile (true) {\n");
    assert_eq!(found.len(), 1);
    assert_eq!(found[0].severity, Severity::High);
    let found = GenericsTypeCheckPattern.check("public fun deposit<T>(x: u64) {\npublic fun f(x: u64) {\n");
    assert_eq!(found.len(), 1);
    assert_eq!(found[0].severity, Severity::Critical);
    let found = PriceOracleManipulationPattern.check("let p = token_a / token_b;\nlet p = oracle::price();\n");
    assert_eq!(found.len(), 1);
    assert_eq!(found[0].location.line, 1);
    let found = ArithmeticPrecisionPattern.check("let f = amount / 100;\nlet g = x / 100;\n");
    assert_eq!(found.len(), 1);
    assert_eq!(found[0].severity, Severity::Medium);
    let found = AccountRegistrationPattern.check("coin::deposit(a, c);\ncoin::register<C>(a); coin::deposit(a, c);\n");
    assert_eq!(found.len(), 1);
    assert_eq!(found[0].location.line, 1);
    let found = ResourceManagementPattern.check("struct Pool has key { users: vector<address> }\n");
    assert_eq!(found.len(), 1);
    assert_eq!(found[0].severity, Severity::Low);
    let found = BusinessLogicFlawPattern.check("withdraw(a);\nassert!(ok, 1); withdraw(a);\n");
    assert_eq!(found.len(), 1);
    assert_eq!(found[0].location.line, 1);
}

#[test]
fn option_borrow_after_extract() {
    let code = "option::borrow(&o);\nlet v = option::extract(&mut o);\nlet x = 1;\nlet w = option::borrow(&o);\nlet z = option::borrow(&o);\n";
    let found = IncorrectStdFunctionPattern.check(code);
    assert_eq!(found.len(), 1);
    assert_eq!(found[0].location.line, 4);
    assert_eq!(found[0].severity, Severity::Medium);
}

#[test]
fn names_match_titles() {
    assert_eq!(ReentrancyPattern.name(), "Reentrancy Vulnerability");
    assert_eq!(AccessControlPattern.name(), "Access Control Vulnerability");
    assert_eq!(IncorrectStdFunctionPattern.name(), "Incorrect Standard Function Usage Vulnerability");
    assert_eq!(Detector::ResourceManagement.title(), "Improper Resource Management Vulnerability");
    assert_eq!(Detector::Reentrancy.severity(), Severity::Critical);
}

#[test]
fn flagged_lines_collects_line_numbers() {
    let mut found = IntegerOverflowPattern.check("let a = b + c;\nlet k = 0;\nlet d = e + f;\n");
    found.extend(UncheckedArithmeticPattern.check("let a = b - c;\n"));
    let set = flagged_lines(&found);
    assert_eq!(set.len(), 2);
    assert!(set.contains(&1) && set.contains(&3));
    assert!(!set.contains(&2));
}

#[test]
fn substring_search() {
    assert!(contains_text("let x = assert!(a);", "assert!"));
    assert!(!contains_text("let x = a;", "assert!"));
    assert!(contains_text("abc", ""));
    assert!(!contains_text("ab", "abc"));
}

#[test]
fn transfer_decisions_on_match_vectors() {
    let transfer = vec![false, true, false, false, false, false, false, true];
    let change = vec![false, false, false, false, false, true, true, false];
    assert_eq!(
        changes_after_transfers(&transfer, &change),
        vec![false, true, false, false, false, false, false, false]
    );
    let transfer = vec![true, false, false, false, false, false];
    let change = vec![false, false, false, false, false, true];
    assert_eq!(changes_after_transfers(&transfer, &change), vec![false; 6]);
}

#[test]
fn access_decisions_on_match_vectors() {
    let n = 40;
    let change: Vec<bool> = (0..n).map(|i| i == 12 || i == 25 || i == 3).collect();
    let owner: Vec<bool> = (0..n).map(|i| i == 22 || i == 35).collect();
    let skip: Vec<bool> = (0..n).map(|i| i == 3).collect();
    let r = unguarded_changes(&change, &owner, &skip);
    let flagged: Vec<usize> = (0..n).filter(|&i| r[i]).collect();
    // 12: owner at 22 is ten lines below, outside the window 2..=21
    // 25: owner at 35 is ten below and 22 is inside 15..=34
    // 3: skipped
    assert_eq!(flagged, vec![12]);
}

#[test]
fn keyword_filter_keeps_matched_lines_meeting_the_condition() {
    let lines = vec!["let a = b + c;", "let a = b + c; assert!(a > b, 1);", "let k = 0;"];
    let matched = vec![true, true, false];
    assert_eq!(Detector::IntegerOverflow.keyword_filter(&matched, &lines), vec![true, false, false]);
    let lines = vec!["let f = fee / 100;", "let g = x / 100;"];
    let matched = vec![true, true];
    assert_eq!(Detector::ArithmeticPrecision.keyword_filter(&matched, &lines), vec![true, false]);
}

#[test]
fn report_numbers_lines_from_one() {
    let found = Detector::MissingErrorHandling.report(&vec![false, true, false, true]);
    let lines: Vec<usize> = found.iter().map(|v| v.location.line).collect();
    assert_eq!(lines, vec![2, 4]);
    assert_eq!(found[0].title, "Missing Error Handling Vulnerability");
    assert_eq!(found[0].recommendation, Detector::MissingErrorHandling.recommendation());
    assert_eq!(found[1].description, Detector::MissingErrorHandling.description());
}

#[test]
fn single_addition_gives_one_finding_from_the_registry() {
    let found = Analyzer::new().analyze_contract("let total = a + b;");
    assert_eq!(found.len(), 1);
    assert_eq!(found[0].title, "Integer Overflow Vulnerability");
    assert_eq!(found[0].severity, Severity::High);
    assert_eq!(found[0].location.line, 1);
}
