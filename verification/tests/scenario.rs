use micro_test::{
    micro_assert, micro_assert_eq, micro_assert_eq_with, micro_assert_ne, report, Error, Metadata,
    TestResult,
};

const CASE: Metadata = Metadata { target: "suite::case1", feature: None };

/// Stands for the result handler of a test runner: it keeps what it was given.
struct Sink {
    calls: usize,
    reports: Vec<String>,
}

impl Sink {
    fn new() -> Sink {
        Sink { calls: 0, reports: Vec::new() }
    }

    fn process_result(&mut self, result: TestResult<'_>) {
        self.calls += 1;
        if let Err(error) = result {
            self.reports.push(error.to_string());
        }
    }
}

fn compute() -> i32 {
    6
}

fn one_check(sink: &mut Sink, steps: &mut Vec<&'static str>, condition: bool) {
    steps.push("before");
    if !report(micro_assert(CASE, condition, "condition"), |result| sink.process_result(result)) {
        return;
    }
    steps.push("after");
}

fn body(sink: &mut Sink, steps: &mut Vec<&'static str>) {
    if !report(micro_assert(CASE, 2 + 2 == 4, "2 + 2 == 4"), |result| sink.process_result(result)) {
        return;
    }
    steps.push("sum checked");
    if !report(micro_assert_eq_with(CASE, &compute(), &5, "mismatch"), |result| {
        sink.process_result(result)
    }) {
        return;
    }
    steps.push("result checked");
    if !report(micro_assert(CASE, false, "false"), |result| sink.process_result(result)) {
        return;
    }
    steps.push("end");
}

fn lazily_described(sink: &mut Sink, steps: &mut Vec<&'static str>, found: Result<u8, &str>) {
    if let Err(error) = micro_assert(CASE, found.is_ok(), "found.is_ok()") {
        let message = format!("lookup failed: {}", found.unwrap_err());
        report(Err(error.with_message(&message)), |result| sink.process_result(result));
        return;
    }
    steps.push("found");
}

fn propagating(steps: &mut Vec<&'static str>) -> Result<(), Error<'static>> {
    micro_assert(CASE, true, "true")?;
    steps.push("first");
    micro_assert(CASE, false, "false")?;
    steps.push("second");
    Ok(())
}

#[test]
fn passing_check_reports_nothing_and_goes_on() {
    let mut sink = Sink::new();
    let mut steps = Vec::new();
    one_check(&mut sink, &mut steps, true);
    assert_eq!(sink.calls, 0);
    assert!(sink.reports.is_empty());
    assert_eq!(steps, vec!["before", "after"]);
}

#[test]
fn failing_check_reports_once_and_leaves_the_body() {
    let mut sink = Sink::new();
    let mut steps = Vec::new();
    one_check(&mut sink, &mut steps, false);
    assert_eq!(sink.calls, 1);
    assert_eq!(sink.reports, vec!["suite::case1 test failed at 'assertion failed: `condition`'"]);
    assert_eq!(steps, vec!["before"]);
}

#[test]
fn end_to_end_first_failure_is_the_only_report() {
    let mut sink = Sink::new();
    let mut steps = Vec::new();
    body(&mut sink, &mut steps);
    assert_eq!(sink.calls, 1);
    assert_eq!(
        sink.reports,
        vec![
            "suite::case1 test failed at 'assertion failed: `(left == right)`\n left: `6`,\nright: `5`: mismatch'"
        ]
    );
    assert_eq!(steps, vec!["sum checked"]);
}

#[test]
fn report_says_whether_the_body_goes_on() {
    let mut seen = Vec::new();
    assert!(report(micro_assert_eq(CASE, &1, &1), |result| seen.push(result.is_err())));
    assert!(report(micro_assert_ne(CASE, &1, &2), |result| seen.push(result.is_err())));
    assert!(seen.is_empty());
    assert!(!report(micro_assert_eq(CASE, &1, &2), |result| seen.push(result.is_err())));
    assert!(!report(micro_assert_ne(CASE, &1, &1), |result| seen.push(result.is_err())));
    assert_eq!(seen, vec![true, true]);
}

fn discard(_result: TestResult<'_>) {}

#[test]
fn report_takes_functions_and_borrowed_closures() {
    assert!(report(micro_assert(CASE, true, "true"), discard));
    assert!(!report(micro_assert(CASE, false, "false"), discard));
    let mut texts = Vec::new();
    let mut handler = |result: TestResult<'_>| {
        if let Err(error) = result {
            texts.push(error.cause.to_string());
        }
    };
    assert!(!report(micro_assert(CASE, false, "first"), &mut handler));
    assert!(report(micro_assert(CASE, true, "second"), &mut handler));
    assert!(!report(micro_assert(CASE, false, "third"), &mut handler));
    assert_eq!(texts, vec!["assertion failed: `first`", "assertion failed: `third`"]);
}

#[test]
fn report_hands_over_the_record_itself() {
    let mut received = Vec::new();
    let proceed = report(micro_assert_eq(CASE, &"a", &"b"), |result| {
        let error = result.unwrap_err();
        received.push((error.metadata, error.cause.to_string()));
    });
    assert!(!proceed);
    assert_eq!(
        received,
        vec![(
            CASE,
            String::from("assertion failed: `(left == right)`\n left: `\"a\"`,\nright: `\"b\"`")
        )]
    );
}

#[test]
fn message_is_formatted_only_after_a_failure() {
    let mut sink = Sink::new();
    let mut steps = Vec::new();
    lazily_described(&mut sink, &mut steps, Ok(3));
    assert_eq!(sink.calls, 0);
    assert_eq!(steps, vec!["found"]);
    lazily_described(&mut sink, &mut steps, Err("no such key"));
    assert_eq!(sink.calls, 1);
    assert_eq!(sink.reports, vec!["suite::case1 test failed at 'lookup failed: no such key'"]);
    assert_eq!(steps, vec!["found"]);
}

#[test]
fn question_mark_leaves_the_body_at_the_first_failure() {
    let mut steps = Vec::new();
    let error = propagating(&mut steps).unwrap_err();
    assert_eq!(steps, vec!["first"]);
    assert_eq!(error.to_string(), "suite::case1 test failed at 'assertion failed: `false`'");
}
