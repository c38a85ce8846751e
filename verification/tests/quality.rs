use fsm_core::quality::{
    generate_sarif_report, ComplexityChecker, QualityError, RuleEngine, RulePred, SatdScanner,
};

#[test]
fn test_complexity_checker() {
    let checker = ComplexityChecker::new(20);
    assert!(checker.check(15).is_ok());
    assert!(checker.check(25).is_err());
}

#[test]
fn test_calculate_cyclomatic() {
    let checker = ComplexityChecker::new(20);
    let code = r#"
            fn example() {
                if condition {
                    for item in items {
                        if item.is_valid() || item.is_special() {
                            process(item);
                        }
                    }
                }
            }
        "#;

    let complexity = checker.calculate_cyclomatic(code);
    assert!(complexity > 1);
}

#[test]
fn test_calculate_cyclomatic_exact() {
    let checker = ComplexityChecker::new(20);
    assert_eq!(checker.calculate_cyclomatic(""), 1);
    assert_eq!(checker.calculate_cyclomatic("let x = 1;"), 1);
    assert_eq!(checker.calculate_cyclomatic("if a {\n} else {\n}"), 2);
    assert_eq!(
        checker.calculate_cyclomatic("if a && b {\n    while c {\n    }\n}"),
        4
    );
    assert_eq!(checker.calculate_cyclomatic("match x {\n    _ => {}\n}"), 2);
}

#[test]
fn test_satd_scanner() {
    let scanner = SatdScanner::new();

    let clean_code = "fn add(a: i32, b: i32) -> i32 { a + b }";
    assert!(scanner.check(clean_code).is_ok());

    let dirty_code = "fn add(a: i32, b: i32) -> i32 { a + b } // TODO: add overflow check";
    assert!(scanner.check(dirty_code).is_err());
}

#[test]
fn test_satd_scan_reports_line_and_text() {
    let scanner = SatdScanner::new();
    let code = "fn f() {}\n  // FIXME later\n// HACK and TODO\n";
    let violations = scanner.scan(code);
    assert_eq!(
        violations,
        vec![
            String::from("Line 2: // FIXME later"),
            String::from("Line 3: // HACK and TODO"),
            String::from("Line 3: // HACK and TODO"),
        ]
    );
}

#[test]
fn test_satd_scan_empty_input() {
    let scanner = SatdScanner::new();
    assert!(scanner.scan("").is_empty());
    assert!(scanner.check("").is_ok());
}

#[test]
fn test_satd_check_joins_violations() {
    let scanner = SatdScanner::new();
    match scanner.check("// TODO one\n// XXX two") {
        Err(QualityError::SatdViolation(msg)) => {
            assert_eq!(msg, "Line 1: // TODO one, Line 2: // XXX two");
        }
        other => panic!("expected a SATD violation, got {:?}", other),
    }
}

#[test]
fn test_rule_engine() {
    let mut engine = RuleEngine::new();
    assert!(engine.evaluate("anything").is_empty());

    engine.register_rule(String::from("non-empty"), RulePred::NonEmpty);
    engine.register_rule(String::from("short"), RulePred::MaxLen(10));
    engine.register_rule(
        String::from("no-panics"),
        RulePred::FreeOfText(String::from("panic!")),
    );

    assert!(engine.evaluate("ok();").is_empty());
    assert_eq!(engine.evaluate(""), vec![String::from("non-empty")]);
    assert_eq!(
        engine.evaluate("let value = compute(); panic!(\"no\");"),
        vec![String::from("short"), String::from("no-panics")]
    );
}

#[test]
fn test_generate_sarif_report() {
    let report = generate_sarif_report(vec![
        String::from("first finding"),
        String::from("second finding"),
    ]);
    assert_eq!(report.version, "2.1.0");
    assert_eq!(report.runs.len(), 1);
    assert_eq!(report.runs[0].tool.driver.name, "quality-gates");
    assert_eq!(report.runs[0].tool.driver.version, "0.1.0");
    assert_eq!(report.runs[0].results.len(), 2);
    assert_eq!(report.runs[0].results[0].message.text, "first finding");
    assert_eq!(report.runs[0].results[0].level, "error");
    assert_eq!(report.runs[0].results[1].message.text, "second finding");
}
