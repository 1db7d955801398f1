use kuma_client::wire::decode_monitor;
use kuma_client::wire::encode_monitor;
use kuma_client::wire::method_from_wire;
use kuma_client::wire::method_wire_name;
use kuma_client::wire::type_from_wire;
use kuma_client::wire::type_wire_name;
use kuma_client::KumaError;
use kuma_client::Monitor;
use kuma_client::MonitorMethod;
use kuma_client::MonitorType;

#[test]
fn kind_wire_names_match_the_service_vocabulary() {
    assert_eq!(type_wire_name(MonitorType::Http), "http");
    assert_eq!(type_wire_name(MonitorType::GrpcKeyword), "grpc-keyword");
    assert_eq!(type_wire_name(MonitorType::Sqlserver), "sqlserver");
    assert_eq!(type_from_wire(&"redis".to_string()), Some(MonitorType::Redis));
    assert_eq!(type_from_wire(&"smtp".to_string()), None);
}

#[test]
fn method_wire_names_are_upper_case() {
    assert_eq!(method_wire_name(MonitorMethod::Head), "HEAD");
    assert_eq!(method_wire_name(MonitorMethod::Options), "OPTIONS");
    assert_eq!(method_from_wire(&"GET".to_string()), Some(MonitorMethod::Get));
    assert_eq!(method_from_wire(&"get".to_string()), None);
}

#[test]
fn encoding_uses_the_wire_shape() {
    let mut m = Monitor::new("svc".to_string(), Some(MonitorType::Ping));
    m.parent = Some(4);
    m.path_name = Some("legacy".to_string());
    let w = encode_monitor(&m);
    assert_eq!(w.kind_name, "ping");
    assert_eq!(w.name, "svc");
    assert_eq!(w.parent, Some(4));
    assert_eq!(w.accepted_statuscodes, vec!["200-299".to_string()]);
    assert_eq!(w.method, Some("HEAD".to_string()));
    assert_eq!(w.interval, 90);
    assert!(w.expiry_notification);
}

#[test]
fn round_trip_preserves_wire_visible_fields() {
    let mut m = Monitor::new("svc".to_string(), Some(MonitorType::Keyword));
    m.id = Some(7);
    m.url = Some("http://svc".to_string());
    m.parent = Some(2);
    m.path_name = Some("dropped on the wire".to_string());
    let back = decode_monitor(encode_monitor(&m)).unwrap();
    assert_eq!(back.id, m.id);
    assert_eq!(back.name, m.name);
    assert_eq!(back.typology, m.typology);
    assert_eq!(back.url, m.url);
    assert_eq!(back.parent, m.parent);
    assert_eq!(back.accepted_status_codes, m.accepted_status_codes);
    assert_eq!(back.expiry_notification, m.expiry_notification);
    assert_eq!(back.method, m.method);
    assert_eq!(back.interval, m.interval);
    assert_eq!(back.path_name, None);
}

#[test]
fn decoding_an_unknown_kind_fails_without_panicking() {
    let mut w = encode_monitor(&Monitor::new("svc".to_string(), None));
    w.kind_name = "teapot".to_string();
    assert_eq!(decode_monitor(w).unwrap_err(), KumaError::CreationFailed);
}

#[test]
fn decoding_an_unknown_method_fails_without_panicking() {
    let mut w = encode_monitor(&Monitor::new("svc".to_string(), None));
    w.method = Some("FETCH".to_string());
    assert_eq!(decode_monitor(w).unwrap_err(), KumaError::CreationFailed);
}
