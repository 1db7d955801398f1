use kuma_client::monitor::u64_to_decimal;
use kuma_client::Monitor;
use kuma_client::MonitorMethod;
use kuma_client::MonitorType;

#[test]
fn it_works() {
    let m = Monitor::new("entrypoint".to_string(), None);
    assert_eq!(m.typology, MonitorType::Http);
    assert!(m.accepted_status_codes.contains(&"200-299".to_string()));
}

#[test]
fn new_monitor_has_documented_defaults() {
    let m = Monitor::new("x".to_string(), None);
    assert_eq!(m.id, None);
    assert_eq!(m.name, "x");
    assert_eq!(m.typology, MonitorType::Http);
    assert_eq!(m.url, None);
    assert_eq!(m.parent, None);
    assert_eq!(m.path_name, None);
    assert_eq!(m.accepted_status_codes, vec!["200-299".to_string()]);
    assert!(m.expiry_notification);
    assert_eq!(m.method, Some(MonitorMethod::Head));
    assert_eq!(m.interval, 90);
}

#[test]
fn new_monitor_keeps_given_kind() {
    let m = Monitor::new("db".to_string(), Some(MonitorType::Postgres));
    assert_eq!(m.typology, MonitorType::Postgres);
}

#[test]
fn uid_is_stable_across_calls() {
    let mut m = Monitor::new("svc".to_string(), None);
    m.parent = Some(5);
    assert_eq!(m.uid(), "5-svc");
    assert_eq!(m.uid(), m.uid());
}

#[test]
fn uid_ignores_fields_other_than_parent_and_name() {
    let mut a = Monitor::new("svc".to_string(), Some(MonitorType::Ping));
    a.parent = Some(7);
    a.url = Some("http://one".to_string());
    a.interval = 30;
    let mut b = Monitor::new("svc".to_string(), Some(MonitorType::Redis));
    b.parent = Some(7);
    b.id = Some(9);
    b.expiry_notification = false;
    assert_eq!(a.uid(), b.uid());
}

#[test]
fn uid_treats_absent_parent_as_group_zero() {
    let m = Monitor::new("alone".to_string(), None);
    assert_eq!(m.uid(), "0-alone");
}

#[test]
fn decimal_rendering_is_exact() {
    assert_eq!(u64_to_decimal(0), "0");
    assert_eq!(u64_to_decimal(9), "9");
    assert_eq!(u64_to_decimal(905), "905");
    assert_eq!(u64_to_decimal(18446744073709551615), "18446744073709551615");
}

#[test]
fn duplicate_copies_every_field() {
    let mut m = Monitor::new("svc".to_string(), Some(MonitorType::Keyword));
    m.parent = Some(3);
    m.url = Some("http://svc".to_string());
    m.path_name = Some("legacy".to_string());
    let d = m.duplicate();
    assert_eq!(d.name, m.name);
    assert_eq!(d.typology, m.typology);
    assert_eq!(d.url, m.url);
    assert_eq!(d.parent, m.parent);
    assert_eq!(d.path_name, m.path_name);
    assert_eq!(d.accepted_status_codes, m.accepted_status_codes);
    assert_eq!(d.expiry_notification, m.expiry_notification);
    assert_eq!(d.method, m.method);
    assert_eq!(d.interval, m.interval);
}
