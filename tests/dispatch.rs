use crisp_status_reporter::report::{authorization, report_url, user_agent};
use crisp_status_reporter::{classify_response, cpu_load_divisor, Interval, Reporter};

#[test]
fn report_url_joins_service_and_node() {
    assert_eq!(
        report_url("S", "N"),
        "https://report.crisp.watch/v1/report/S/N/"
    );
}

#[test]
fn manager_of_complete_configuration() {
    let reporter = Reporter::new("YOUR_TOKEN_SECRET")
        .service_id("d657b4c1-dd07-4f94-ac7a-d4c3b4b219c1")
        .node_id("5eca824b-4134-4126-982d-2c2338ecf3ab")
        .replica_id("192.168.1.10")
        .interval(Interval::from_secs(15))
        .build();

    let manager = reporter.manager().unwrap();
    assert_eq!(
        manager.report_url,
        "https://report.crisp.watch/v1/report/d657b4c1-dd07-4f94-ac7a-d4c3b4b219c1/5eca824b-4134-4126-982d-2c2338ecf3ab/"
    );
    assert_eq!(manager.replica_id, "192.168.1.10");
    assert_eq!(manager.interval.as_secs(), 15);
}

#[test]
fn authorization_is_basic_with_empty_user() {
    assert_eq!(authorization("YOUR_TOKEN_SECRET"), "Basic OllPVVJfVE9LRU5fU0VDUkVU");
    assert_eq!(authorization("t"), "Basic OnQ=");

    let reporter = Reporter::new("t").service_id("S").node_id("N").replica_id("R").build();
    assert_eq!(reporter.authorization(), "Basic OnQ=");
}

#[test]
fn user_agent_names_the_reporter() {
    assert_eq!(user_agent(), "rs-crisp-status-reporter/1.2.0");
}

#[test]
fn status_200_is_success() {
    assert_eq!(classify_response(Ok(200)), Ok(()));
}

#[test]
fn other_statuses_are_failures() {
    assert_eq!(classify_response(Ok(503)), Err(()));
    assert_eq!(classify_response(Ok(301)), Err(()));
    assert_eq!(classify_response(Ok(401)), Err(()));
    assert_eq!(classify_response(Ok(204)), Err(()));
}

#[test]
fn transport_failure_is_failure() {
    assert_eq!(classify_response(Err(())), Err(()));
}

#[test]
fn cpu_divisor_is_core_count() {
    let divisor = cpu_load_divisor(Some(4), true).unwrap();
    assert_eq!(divisor, 4);
    assert_eq!(2.0_f64 / divisor as f64, 0.5);
}

#[test]
fn cpu_divisor_clamps_zero_cores_to_one() {
    let divisor = cpu_load_divisor(Some(0), true).unwrap();
    assert_eq!(divisor, 1);
    assert_eq!(2.0_f64 / divisor as f64, 2.0);
}

#[test]
fn cpu_divisor_absent_when_a_read_fails() {
    assert_eq!(cpu_load_divisor(None, true), None);
    assert_eq!(cpu_load_divisor(Some(4), false), None);
    assert_eq!(cpu_load_divisor(None, false), None);
}
