use observlib::ObservlibError;
use observlib::aggregate_shutdown_results;
use observlib::coordinator::join_lines;
use observlib::endpoint_url;

fn ok() -> Result<(), String> {
    Ok(())
}

fn fail(reason: &str) -> Result<(), String> {
    Err(reason.to_string())
}

fn failure_message(r: Result<(), ObservlibError>) -> String {
    match r {
        Err(ObservlibError::MultipleShutdownFailures(msg)) => msg,
        _ => panic!("expected an aggregate shutdown failure"),
    }
}

#[test]
fn aggregation_all_success() {
    assert!(matches!(aggregate_shutdown_results(ok(), ok(), ok()), Ok(())));
}

#[test]
fn aggregation_single_failures() {
    let msg = failure_message(aggregate_shutdown_results(fail("t"), ok(), ok()));
    assert_eq!(msg, "tracer provider: t");
    assert!(!msg.contains("meter provider"));
    assert!(!msg.contains("logger provider"));

    let msg = failure_message(aggregate_shutdown_results(ok(), fail("m"), ok()));
    assert_eq!(msg, "meter provider: m");
    assert!(!msg.contains("tracer provider"));
    assert!(!msg.contains("logger provider"));

    let msg = failure_message(aggregate_shutdown_results(ok(), ok(), fail("l")));
    assert_eq!(msg, "logger provider: l");
    assert!(!msg.contains("tracer provider"));
    assert!(!msg.contains("meter provider"));
}

#[test]
fn aggregation_double_failures() {
    let msg = failure_message(aggregate_shutdown_results(fail("t"), fail("m"), ok()));
    assert_eq!(msg, "tracer provider: t\nmeter provider: m");
    assert!(!msg.contains("logger provider"));

    let msg = failure_message(aggregate_shutdown_results(fail("t"), ok(), fail("l")));
    assert_eq!(msg, "tracer provider: t\nlogger provider: l");
    assert!(!msg.contains("meter provider"));

    let msg = failure_message(aggregate_shutdown_results(ok(), fail("m"), fail("l")));
    assert_eq!(msg, "meter provider: m\nlogger provider: l");
    assert!(!msg.contains("tracer provider"));
}

#[test]
fn aggregation_all_failures() {
    let msg = failure_message(aggregate_shutdown_results(fail("t"), fail("m"), fail("l")));
    assert_eq!(msg, "tracer provider: t\nmeter provider: m\nlogger provider: l");
}

#[test]
fn order_invariant() {
    // Whatever fails, the reported order is trace, then metric, then log.
    let msg = failure_message(aggregate_shutdown_results(fail("a"), fail("b"), fail("c")));
    let trace_at = msg.find("tracer provider").unwrap();
    let metric_at = msg.find("meter provider").unwrap();
    let log_at = msg.find("logger provider").unwrap();
    assert!(trace_at < metric_at);
    assert!(metric_at < log_at);

    let msg = failure_message(aggregate_shutdown_results(fail("a"), ok(), fail("c")));
    let trace_at = msg.find("tracer provider").unwrap();
    let log_at = msg.find("logger provider").unwrap();
    assert!(trace_at < log_at);
}

#[test]
fn join_lines_formats() {
    assert_eq!(join_lines(&vec![]), "");
    assert_eq!(join_lines(&vec!["one".to_string()]), "one");
    assert_eq!(
        join_lines(&vec!["one".to_string(), "two".to_string(), "three".to_string()]),
        "one\ntwo\nthree"
    );
}

#[test]
fn endpoint_url_joins_scheme_endpoint_and_path() {
    assert_eq!(
        endpoint_url("127.0.0.1:4318", "/v1/traces"),
        "http://127.0.0.1:4318/v1/traces"
    );
    assert_eq!(endpoint_url("collector:80", "/v1/logs"), "http://collector:80/v1/logs");
}

#[test]
fn describe_renders_each_variant() {
    assert_eq!(
        ObservlibError::TracerShutdown("x".to_string()).describe(),
        "Failed to shutdown tracer provider: x"
    );
    assert_eq!(
        ObservlibError::MeterShutdown("x".to_string()).describe(),
        "Failed to shutdown meter provider: x"
    );
    assert_eq!(
        ObservlibError::LoggerShutdown("x".to_string()).describe(),
        "Failed to shutdown logger provider: x"
    );
    assert_eq!(
        ObservlibError::MultipleShutdownFailures("a\nb".to_string()).describe(),
        "Multiple shutdown failures: a\nb"
    );
    assert_eq!(ObservlibError::ShutdownTimeout.describe(), "Shutdown timeout exceeded");
    assert_eq!(
        ObservlibError::TaskJoin("cancelled".to_string()).describe(),
        "Task join error: cancelled"
    );
    assert_eq!(
        ObservlibError::ExporterConstruction("bad uri".to_string()).describe(),
        "Failed to create exporter: bad uri"
    );
}
