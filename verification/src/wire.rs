//! The wire shape of a monitor and of the server's acknowledgement
//! records. The remote service expects its exact vocabulary: kind names in
//! lower case (with `grpc-keyword` for the gRPC keyword check), method
//! names in upper case, a field literally named `type`, and the legacy
//! spelling `accepted_statuscodes`. The `path_name` field is never
//! transmitted.

use vstd::prelude::*;

use crate::errors::KumaError;
use crate::monitor::Monitor;
use crate::monitor::MonitorMethod;
use crate::monitor::MonitorSpec;
use crate::monitor::MonitorType;
use crate::monitor::clone_string_vec;

verus! {

broadcast use vstd::string::group_string_axioms;

/// The wire name of a monitor kind.
pub open spec fn spec_kind_name(t: MonitorType) -> Seq<char> {
    match t {
        MonitorType::Http => "http"@,
        MonitorType::Port => "port"@,
        MonitorType::Ping => "ping"@,
        MonitorType::Keyword => "keyword"@,
        MonitorType::GrpcKeyword => "grpc-keyword"@,
        MonitorType::Dns => "dns"@,
        MonitorType::Docker => "docker"@,
        MonitorType::Push => "push"@,
        MonitorType::Steam => "steam"@,
        MonitorType::Gamedig => "gamedig"@,
        MonitorType::Group => "group"@,
        MonitorType::Mqtt => "mqtt"@,
        MonitorType::Sqlserver => "sqlserver"@,
        MonitorType::Postgres => "postgres"@,
        MonitorType::Mysql => "mysql"@,
        MonitorType::Mongodb => "mongodb"@,
        MonitorType::Radius => "radius"@,
        MonitorType::Redis => "redis"@,
    }
}

/// The monitor kind a wire name denotes, if any.
pub open spec fn spec_type_from_wire(s: Seq<char>) -> Option<MonitorType> {
    if s == "http"@ { Some(MonitorType::Http) }
    else if s == "port"@ { Some(MonitorType::Port) }
    else if s == "ping"@ { Some(MonitorType::Ping) }
    else if s == "keyword"@ { Some(MonitorType::Keyword) }
    else if s == "grpc-keyword"@ { Some(MonitorType::GrpcKeyword) }
    else if s == "dns"@ { Some(MonitorType::Dns) }
    else if s == "docker"@ { Some(MonitorType::Docker) }
    else if s == "push"@ { Some(MonitorType::Push) }
    else if s == "steam"@ { Some(MonitorType::Steam) }
    else if s == "gamedig"@ { Some(MonitorType::Gamedig) }
    else if s == "group"@ { Some(MonitorType::Group) }
    else if s == "mqtt"@ { Some(MonitorType::Mqtt) }
    else if s == "sqlserver"@ { Some(MonitorType::Sqlserver) }
    else if s == "postgres"@ { Some(MonitorType::Postgres) }
    else if s == "mysql"@ { Some(MonitorType::Mysql) }
    else if s == "mongodb"@ { Some(MonitorType::Mongodb) }
    else if s == "radius"@ { Some(MonitorType::Radius) }
    else if s == "redis"@ { Some(MonitorType::Redis) }
    else { None }
}

/// The wire name of an HTTP method.
pub open spec fn spec_method_name(m: MonitorMethod) -> Seq<char> {
    match m {
        MonitorMethod::Get => "GET"@,
        MonitorMethod::Post => "POST"@,
        MonitorMethod::Put => "PUT"@,
        MonitorMethod::Patch => "PATCH"@,
        MonitorMethod::Delete => "DELETE"@,
        MonitorMethod::Head => "HEAD"@,
        MonitorMethod::Options => "OPTIONS"@,
    }
}

/// The HTTP method a wire name denotes, if any.
pub open spec fn spec_method_from_wire(s: Seq<char>) -> Option<MonitorMethod> {
    if s == "GET"@ { Some(MonitorMethod::Get) }
    else if s == "POST"@ { Some(MonitorMethod::Post) }
    else if s == "PUT"@ { Some(MonitorMethod::Put) }
    else if s == "PATCH"@ { Some(MonitorMethod::Patch) }
    else if s == "DELETE"@ { Some(MonitorMethod::Delete) }
    else if s == "HEAD"@ { Some(MonitorMethod::Head) }
    else if s == "OPTIONS"@ { Some(MonitorMethod::Options) }
    else { None }
}

/// Whether a string equals a literal, stated over their views.
fn str_eq(a: &String, lit: &str) -> (b: bool)
    ensures
        b == (a@ == lit@),
{
    let other = String::from_str(lit);
    *a == other
}

/// The wire name of a monitor kind, as a string.
pub fn type_wire_name(t: MonitorType) -> (s: String)
    ensures
        s@ == spec_kind_name(t),
{
    match t {
        MonitorType::Http => String::from_str("http"),
        MonitorType::Port => String::from_str("port"),
        MonitorType::Ping => String::from_str("ping"),
        MonitorType::Keyword => String::from_str("keyword"),
        MonitorType::GrpcKeyword => String::from_str("grpc-keyword"),
        MonitorType::Dns => String::from_str("dns"),
        MonitorType::Docker => String::from_str("docker"),
        MonitorType::Push => String::from_str("push"),
        MonitorType::Steam => String::from_str("steam"),
        MonitorType::Gamedig => String::from_str("gamedig"),
        MonitorType::Group => String::from_str("group"),
        MonitorType::Mqtt => String::from_str("mqtt"),
        MonitorType::Sqlserver => String::from_str("sqlserver"),
        MonitorType::Postgres => String::from_str("postgres"),
        MonitorType::Mysql => String::from_str("mysql"),
        MonitorType::Mongodb => String::from_str("mongodb"),
        MonitorType::Radius => String::from_str("radius"),
        MonitorType::Redis => String::from_str("redis"),
    }
}

/// The monitor kind a wire name denotes, if any.
pub fn type_from_wire(s: &String) -> (r: Option<MonitorType>)
    ensures
        r == spec_type_from_wire(s@),
{
    if str_eq(s, "http") { Some(MonitorType::Http) }
    else if str_eq(s, "port") { Some(MonitorType::Port) }
    else if str_eq(s, "ping") { Some(MonitorType::Ping) }
    else if str_eq(s, "keyword") { Some(MonitorType::Keyword) }
    else if str_eq(s, "grpc-keyword") { Some(MonitorType::GrpcKeyword) }
    else if str_eq(s, "dns") { Some(MonitorType::Dns) }
    else if str_eq(s, "docker") { Some(MonitorType::Docker) }
    else if str_eq(s, "push") { Some(MonitorType::Push) }
    else if str_eq(s, "steam") { Some(MonitorType::Steam) }
    else if str_eq(s, "gamedig") { Some(MonitorType::Gamedig) }
    else if str_eq(s, "group") { Some(MonitorType::Group) }
    else if str_eq(s, "mqtt") { Some(MonitorType::Mqtt) }
    else if str_eq(s, "sqlserver") { Some(MonitorType::Sqlserver) }
    else if str_eq(s, "postgres") { Some(MonitorType::Postgres) }
    else if str_eq(s, "mysql") { Some(MonitorType::Mysql) }
    else if str_eq(s, "mongodb") { Some(MonitorType::Mongodb) }
    else if str_eq(s, "radius") { Some(MonitorType::Radius) }
    else if str_eq(s, "redis") { Some(MonitorType::Redis) }
    else { None }
}

/// The wire name of an HTTP method, as a string.
pub fn method_wire_name(m: MonitorMethod) -> (s: String)
    ensures
        s@ == spec_method_name(m),
{
    match m {
        MonitorMethod::Get => String::from_str("GET"),
        MonitorMethod::Post => String::from_str("POST"),
        MonitorMethod::Put => String::from_str("PUT"),
        MonitorMethod::Patch => String::from_str("PATCH"),
        MonitorMethod::Delete => String::from_str("DELETE"),
        MonitorMethod::Head => String::from_str("HEAD"),
        MonitorMethod::Options => String::from_str("OPTIONS"),
    }
}

/// The HTTP method a wire name denotes, if any.
pub fn method_from_wire(s: &String) -> (r: Option<MonitorMethod>)
    ensures
        r == spec_method_from_wire(s@),
{
    if str_eq(s, "GET") { Some(MonitorMethod::Get) }
    else if str_eq(s, "POST") { Some(MonitorMethod::Post) }
    else if str_eq(s, "PUT") { Some(MonitorMethod::Put) }
    else if str_eq(s, "PATCH") { Some(MonitorMethod::Patch) }
    else if str_eq(s, "DELETE") { Some(MonitorMethod::Delete) }
    else if str_eq(s, "HEAD") { Some(MonitorMethod::Head) }
    else if str_eq(s, "OPTIONS") { Some(MonitorMethod::Options) }
    else { None }
}

/// Every kind's wire name decodes back to that kind.
pub proof fn lemma_kind_name_round_trip(t: MonitorType)
    ensures
        spec_type_from_wire(spec_kind_name(t)) == Some(t),
{
    reveal_strlit("http");
    reveal_strlit("port");
    reveal_strlit("ping");
    reveal_strlit("keyword");
    reveal_strlit("grpc-keyword");
    reveal_strlit("dns");
    reveal_strlit("docker");
    reveal_strlit("push");
    reveal_strlit("steam");
    reveal_strlit("gamedig");
    reveal_strlit("group");
    reveal_strlit("mqtt");
    reveal_strlit("sqlserver");
    reveal_strlit("postgres");
    reveal_strlit("mysql");
    reveal_strlit("mongodb");
    reveal_strlit("radius");
    reveal_strlit("redis");
    assert("http"@.len() == 4 && "http"@[0] == 'h' && "http"@[1] == 't');
    assert("port"@.len() == 4 && "port"@[0] == 'p' && "port"@[1] == 'o');
    assert("ping"@.len() == 4 && "ping"@[0] == 'p' && "ping"@[1] == 'i');
    assert("push"@.len() == 4 && "push"@[0] == 'p' && "push"@[1] == 'u');
    assert("mqtt"@.len() == 4 && "mqtt"@[0] == 'm' && "mqtt"@[1] == 'q');
    assert("steam"@.len() == 5 && "steam"@[0] == 's');
    assert("group"@.len() == 5 && "group"@[0] == 'g');
    assert("mysql"@.len() == 5 && "mysql"@[0] == 'm');
    assert("redis"@.len() == 5 && "redis"@[0] == 'r');
    assert("docker"@.len() == 6 && "docker"@[0] == 'd');
    assert("radius"@.len() == 6 && "radius"@[0] == 'r');
    assert("keyword"@.len() == 7 && "keyword"@[0] == 'k');
    assert("gamedig"@.len() == 7 && "gamedig"@[0] == 'g');
    assert("mongodb"@.len() == 7 && "mongodb"@[0] == 'm');
    assert("dns"@.len() == 3);
    assert("postgres"@.len() == 8);
    assert("sqlserver"@.len() == 9);
    assert("grpc-keyword"@.len() == 12);
    match t {
        MonitorType::Http => assert(spec_type_from_wire(spec_kind_name(t)) == Some(t)),
        MonitorType::Port => assert(spec_type_from_wire(spec_kind_name(t)) == Some(t)),
        MonitorType::Ping => assert(spec_type_from_wire(spec_kind_name(t)) == Some(t)),
        MonitorType::Keyword => assert(spec_type_from_wire(spec_kind_name(t)) == Some(t)),
        MonitorType::GrpcKeyword => assert(spec_type_from_wire(spec_kind_name(t)) == Some(t)),
        MonitorType::Dns => assert(spec_type_from_wire(spec_kind_name(t)) == Some(t)),
        MonitorType::Docker => assert(spec_type_from_wire(spec_kind_name(t)) == Some(t)),
        MonitorType::Push => assert(spec_type_from_wire(spec_kind_name(t)) == Some(t)),
        MonitorType::Steam => assert(spec_type_from_wire(spec_kind_name(t)) == Some(t)),
        MonitorType::Gamedig => assert(spec_type_from_wire(spec_kind_name(t)) == Some(t)),
        MonitorType::Group => assert(spec_type_from_wire(spec_kind_name(t)) == Some(t)),
        MonitorType::Mqtt => assert(spec_type_from_wire(spec_kind_name(t)) == Some(t)),
        MonitorType::Sqlserver => assert(spec_type_from_wire(spec_kind_name(t)) == Some(t)),
        MonitorType::Postgres => assert(spec_type_from_wire(spec_kind_name(t)) == Some(t)),
        MonitorType::Mysql => assert(spec_type_from_wire(spec_kind_name(t)) == Some(t)),
        MonitorType::Mongodb => assert(spec_type_from_wire(spec_kind_name(t)) == Some(t)),
        MonitorType::Radius => assert(spec_type_from_wire(spec_kind_name(t)) == Some(t)),
        MonitorType::Redis => assert(spec_type_from_wire(spec_kind_name(t)) == Some(t)),
    }
}

/// Every method's wire name decodes back to that method.
pub proof fn lemma_method_name_round_trip(m: MonitorMethod)
    ensures
        spec_method_from_wire(spec_method_name(m)) == Some(m),
{
    reveal_strlit("GET");
    reveal_strlit("POST");
    reveal_strlit("PUT");
    reveal_strlit("PATCH");
    reveal_strlit("DELETE");
    reveal_strlit("HEAD");
    reveal_strlit("OPTIONS");
    assert("GET"@.len() == 3 && "GET"@[0] == 'G');
    assert("PUT"@.len() == 3 && "PUT"@[0] == 'P');
    assert("POST"@.len() == 4 && "POST"@[0] == 'P');
    assert("HEAD"@.len() == 4 && "HEAD"@[0] == 'H');
    assert("PATCH"@.len() == 5);
    assert("DELETE"@.len() == 6);
    assert("OPTIONS"@.len() == 7);
    match m {
        MonitorMethod::Get => assert(spec_method_from_wire(spec_method_name(m)) == Some(m)),
        MonitorMethod::Post => assert(spec_method_from_wire(spec_method_name(m)) == Some(m)),
        MonitorMethod::Put => assert(spec_method_from_wire(spec_method_name(m)) == Some(m)),
        MonitorMethod::Patch => assert(spec_method_from_wire(spec_method_name(m)) == Some(m)),
        MonitorMethod::Delete => assert(spec_method_from_wire(spec_method_name(m)) == Some(m)),
        MonitorMethod::Head => assert(spec_method_from_wire(spec_method_name(m)) == Some(m)),
        MonitorMethod::Options => assert(spec_method_from_wire(spec_method_name(m)) == Some(m)),
    }
}

/// The mathematical value of a [`WireMonitor`].
pub struct WireMonitorSpec {
    pub id: Option<u8>,
    pub name: Seq<char>,
    pub kind_name: Seq<char>,
    pub url: Option<Seq<char>>,
    pub parent: Option<u64>,
    pub accepted_statuscodes: Seq<Seq<char>>,
    pub expiry_notification: bool,
    pub method: Option<Seq<char>>,
    pub interval: u8,
}

/// A monitor in the exact shape the wire expects. `kind_name` travels
/// under the key `type`, and `accepted_statuscodes` keeps the service's
/// legacy spelling. There is no `path_name` here: it is never transmitted.
#[derive(Debug)]
pub struct WireMonitor {
    pub id: Option<u8>,
    pub name: String,
    /// Serialized under the wire key `type`.
    pub kind_name: String,
    pub url: Option<String>,
    pub parent: Option<u64>,
    pub accepted_statuscodes: Vec<String>,
    pub expiry_notification: bool,
    pub method: Option<String>,
    pub interval: u8,
}

impl View for WireMonitor {
    type V = WireMonitorSpec;

    open spec fn view(&self) -> WireMonitorSpec {
        WireMonitorSpec {
            id: self.id,
            name: self.name@,
            kind_name: self.kind_name@,
            url: self.url.deep_view(),
            parent: self.parent,
            accepted_statuscodes: self.accepted_statuscodes.deep_view(),
            expiry_notification: self.expiry_notification,
            method: self.method.deep_view(),
            interval: self.interval,
        }
    }
}

/// The wire shape of a monitor: every field carried over verbatim, the
/// kind and method replaced by their wire names, `path_name` left out.
pub open spec fn spec_encode_monitor(m: MonitorSpec) -> WireMonitorSpec {
    WireMonitorSpec {
        id: m.id,
        name: m.name,
        kind_name: spec_kind_name(m.typology),
        url: m.url,
        parent: m.parent,
        accepted_statuscodes: m.accepted_status_codes,
        expiry_notification: m.expiry_notification,
        method: match m.method {
            Some(x) => Some(spec_method_name(x)),
            None => None,
        },
        interval: m.interval,
    }
}

/// The monitor a wire shape denotes: `None` when the kind or the method
/// name is not part of the wire vocabulary. A decoded monitor never
/// carries a `path_name`.
pub open spec fn spec_decode_monitor(w: WireMonitorSpec) -> Option<MonitorSpec> {
    match spec_type_from_wire(w.kind_name) {
        None => None,
        Some(t) => match w.method {
            None => Some(spec_decoded_fields(w, t, None)),
            Some(ms) => match spec_method_from_wire(ms) {
                None => None,
                Some(meth) => Some(spec_decoded_fields(w, t, Some(meth))),
            },
        },
    }
}

/// The fields of a decoded monitor, given its already-decoded kind and
/// method.
pub open spec fn spec_decoded_fields(
    w: WireMonitorSpec,
    t: MonitorType,
    meth: Option<MonitorMethod>,
) -> MonitorSpec {
    MonitorSpec {
        id: w.id,
        name: w.name,
        typology: t,
        url: w.url,
        parent: w.parent,
        path_name: None,
        accepted_status_codes: w.accepted_statuscodes,
        expiry_notification: w.expiry_notification,
        method: meth,
        interval: w.interval,
    }
}

/// Encode a monitor into its wire shape.
pub fn encode_monitor(m: &Monitor) -> (w: WireMonitor)
    ensures
        w@ == spec_encode_monitor(m@),
{
    let url = match &m.url {
        Some(s) => Some(s.clone()),
        None => None,
    };
    let method = match &m.method {
        Some(x) => Some(method_wire_name(*x)),
        None => None,
    };
    WireMonitor {
        id: m.id,
        name: m.name.clone(),
        kind_name: type_wire_name(m.typology),
        url,
        parent: m.parent,
        accepted_statuscodes: clone_string_vec(&m.accepted_status_codes),
        expiry_notification: m.expiry_notification,
        method,
        interval: m.interval,
    }
}

/// Decode a wire shape back into a monitor. A kind or method name outside
/// the wire vocabulary is a malformed payload and degrades to
/// [`KumaError::CreationFailed`]; nothing here panics.
pub fn decode_monitor(w: WireMonitor) -> (r: Result<Monitor, KumaError>)
    ensures
        r is Ok <==> spec_decode_monitor(w@) is Some,
        r matches Ok(m) ==> Some(m@) == spec_decode_monitor(w@),
        r matches Err(e) ==> e == KumaError::CreationFailed,
{
    let t = match type_from_wire(&w.kind_name) {
        Some(t) => t,
        None => {
            return Err(KumaError::CreationFailed);
        },
    };
    let meth = match &w.method {
        None => None,
        Some(ms) => match method_from_wire(ms) {
            Some(mm) => Some(mm),
            None => {
                return Err(KumaError::CreationFailed);
            },
        },
    };
    Ok(
        Monitor {
            id: w.id,
            name: w.name,
            typology: t,
            url: w.url,
            parent: w.parent,
            path_name: None,
            accepted_status_codes: w.accepted_statuscodes,
            expiry_notification: w.expiry_notification,
            method: meth,
            interval: w.interval,
        },
    )
}

/// A monitor with its legacy `path_name` fragment dropped; every other
/// field as it was.
pub open spec fn strip_path_name(m: MonitorSpec) -> MonitorSpec {
    MonitorSpec { path_name: None, ..m }
}

/// Encoding then decoding a monitor preserves every wire-visible field:
/// only the untransmitted `path_name` is gone.
pub proof fn lemma_monitor_round_trip(m: MonitorSpec)
    ensures
        spec_decode_monitor(spec_encode_monitor(m)) == Some(strip_path_name(m)),
{
    lemma_kind_name_round_trip(m.typology);
    match m.method {
        Some(x) => lemma_method_name_round_trip(x),
        None => (),
    }
}

/// One record of the server's acknowledgement to a creation request: a
/// success flag, an optional message, and the assigned id (transmitted
/// under the wire key `monitorID`).
#[derive(Debug)]
pub struct AckRecord {
    pub ok: bool,
    pub msg: Option<String>,
    /// Serialized under the wire key `monitorID`.
    pub monitor_id: Option<u8>,
}

/// The id an acknowledgement payload assigns, if it reports success: the
/// first record must be present, report success, and carry a positive id.
pub open spec fn ack_assigned_id(records: Seq<AckRecord>) -> Option<u8> {
    if records.len() > 0 && records[0].ok {
        match records[0].monitor_id {
            Some(id) => if id > 0 { Some(id) } else { None },
            None => None,
        }
    } else {
        None
    }
}

} // verus!
