use kuma_client::client::WaitStep;
use kuma_client::client::ACK_WAIT_CAP;
use kuma_client::client::LIST_WAIT_CAP;
use kuma_client::wire::AckRecord;
use kuma_client::KumaAuthentication;
use kuma_client::KumaClient;
use kuma_client::KumaError;
use kuma_client::Monitor;

fn fresh_client() -> KumaClient {
    KumaClient::new(
        "http://uptime.example".to_string(),
        KumaAuthentication { username: Some("user".to_string()), password: None },
    )
}

fn named_monitor(name: &str, parent: Option<u64>) -> Monitor {
    let mut m = Monitor::new(name.to_string(), None);
    m.parent = parent;
    m
}

#[test]
fn connect_url_appends_a_slash() {
    let c = fresh_client();
    assert_eq!(c.connect_url(), "http://uptime.example/");
}

#[test]
fn connecting_twice_is_a_no_op() {
    let mut c = fresh_client();
    assert!(c.needs_connect());
    c.on_connected();
    assert!(!c.needs_connect());
    c.on_connected();
    assert!(!c.needs_connect());
}

#[test]
fn disconnect_without_a_connection_is_a_typed_error() {
    let mut c = fresh_client();
    assert_eq!(c.disconnect().unwrap_err(), KumaError::DisconnectedStateError);
    c.on_connected();
    assert!(c.disconnect().is_ok());
    assert!(c.needs_connect());
}

#[test]
fn snapshot_merge_replaces_entries_with_the_same_uid() {
    let mut c = fresh_client();
    let mut first = named_monitor("svc", Some(5));
    first.interval = 30;
    let mut second = named_monitor("svc", Some(5));
    second.interval = 60;
    c.handle_monitor_list(&vec![first, second]);
    assert_eq!(c.cache.len(), 1);
    assert_eq!(c.cache.monitor_at(0).interval, 60);
}

#[test]
fn begin_refresh_clears_the_cache() {
    let mut c = fresh_client();
    c.handle_monitor_list(&vec![named_monitor("svc", None)]);
    assert_eq!(c.cache.len(), 1);
    c.begin_refresh();
    assert!(c.cache.is_empty());
}

#[test]
fn duplicate_uid_is_rejected_before_anything_is_sent() {
    let mut c = fresh_client();
    c.handle_monitor_list(&vec![named_monitor("svc", Some(5))]);
    assert_eq!(c.cache.monitor_at(0).uid(), "5-svc");
    let candidate = named_monitor("svc", Some(5));
    assert_eq!(c.begin_add(&candidate).unwrap_err(), KumaError::DuplicateMonitor);
    let other = named_monitor("svc", Some(6));
    assert!(c.begin_add(&other).is_ok());
}

#[test]
fn creation_ack_with_a_positive_id_succeeds() {
    let ack = vec![AckRecord { ok: true, msg: None, monitor_id: Some(42) }];
    let created = KumaClient::complete_add(named_monitor("svc", None), Some(ack)).unwrap();
    assert_eq!(created.id, Some(42));
    assert_eq!(created.name, "svc");
}

#[test]
fn creation_ack_without_records_fails_without_panicking() {
    let r = KumaClient::complete_add(named_monitor("svc", None), Some(Vec::new()));
    assert_eq!(r.unwrap_err(), KumaError::CreationFailed);
}

#[test]
fn creation_ack_reporting_failure_fails() {
    let ack = vec![AckRecord { ok: false, msg: Some("denied".to_string()), monitor_id: None }];
    let r = KumaClient::complete_add(named_monitor("svc", None), Some(ack));
    assert_eq!(r.unwrap_err(), KumaError::CreationFailed);
}

#[test]
fn creation_ack_that_never_arrived_fails() {
    let r = KumaClient::complete_add(named_monitor("svc", None), None);
    assert_eq!(r.unwrap_err(), KumaError::CreationFailed);
}

#[test]
fn creation_ack_without_a_positive_id_fails() {
    let ack = vec![AckRecord { ok: true, msg: None, monitor_id: Some(0) }];
    let r = KumaClient::complete_add(named_monitor("svc", None), Some(ack));
    assert_eq!(r.unwrap_err(), KumaError::CreationFailed);
}

#[test]
fn search_filters_by_parent_and_returns_all_without_predicates() {
    let mut c = fresh_client();
    c.handle_monitor_list(&vec![named_monitor("a", Some(0)), named_monitor("b", Some(1))]);
    let hits = c.search_monitor(true, None, Some(1));
    assert_eq!(hits.len(), 1);
    assert_eq!(hits[0].name, "b");
    let all = c.search_monitor(true, None, None);
    assert_eq!(all.len(), 2);
    let by_name = c.search_monitor(true, Some("a".to_string()), None);
    assert_eq!(by_name.len(), 1);
    assert_eq!(by_name[0].name, "a");
}

#[test]
fn failed_refresh_is_swallowed_as_no_results() {
    let mut c = fresh_client();
    c.handle_monitor_list(&vec![named_monitor("a", Some(0))]);
    assert!(c.search_monitor(false, None, None).is_empty());
}

#[test]
fn find_monitor_needs_more_than_one_match() {
    let mut c = fresh_client();
    c.handle_monitor_list(&vec![named_monitor("a", Some(1)), named_monitor("b", Some(1))]);
    let found = c.find_monitor(true, None, Some(1)).unwrap();
    assert_eq!(found.name, "a");
    assert!(c.find_monitor(true, Some("a".to_string()), None).is_none());
}

#[test]
fn refresh_wait_times_out_when_no_list_ever_arrives() {
    let c = fresh_client();
    let mut iterations: u32 = 0;
    let outcome = loop {
        match c.refresh_wait_step(iterations) {
            WaitStep::Wait => iterations += 1,
            other => break other,
        }
    };
    assert_eq!(outcome, WaitStep::TimedOut);
    assert_eq!(iterations, LIST_WAIT_CAP);
    let r = KumaClient::refresh_outcome(outcome);
    assert_eq!(r.unwrap_err(), KumaError::ListRefreshTimedOut);
}

#[test]
fn refresh_wait_is_ready_once_the_cache_fills() {
    let mut c = fresh_client();
    c.handle_monitor_list(&vec![named_monitor("a", None)]);
    assert_eq!(c.refresh_wait_step(0), WaitStep::Ready);
    assert!(KumaClient::refresh_outcome(WaitStep::Ready).is_ok());
}

#[test]
fn ack_wait_gives_up_at_the_iteration_cap() {
    let mut iterations: u32 = 0;
    let outcome = loop {
        match KumaClient::ack_wait_step(false, iterations) {
            WaitStep::Wait => iterations += 1,
            other => break other,
        }
    };
    assert_eq!(outcome, WaitStep::TimedOut);
    assert_eq!(iterations, ACK_WAIT_CAP);
    assert_eq!(KumaClient::ack_wait_step(true, 0), WaitStep::Ready);
}

#[test]
fn every_error_has_a_message() {
    let errors = [
        KumaError::ConnectionFailed,
        KumaError::AuthenticationFailed,
        KumaError::ListRefreshTimedOut,
        KumaError::DuplicateMonitor,
        KumaError::CreationFailed,
        KumaError::DisconnectedStateError,
    ];
    for e in errors {
        assert!(!e.message().is_empty());
    }
}
