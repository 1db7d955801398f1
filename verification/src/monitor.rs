//! The monitor entity: its shape, its defaulting rules, and its identity
//! function. A monitor's uid is derived from its parent group id and its
//! name alone, so it exists before the server has assigned an id.

use vstd::prelude::*;

verus! {

/// Decimal digit character for a value below ten.
pub open spec fn digit_char(d: nat) -> char {
    if d == 0 { '0' }
    else if d == 1 { '1' }
    else if d == 2 { '2' }
    else if d == 3 { '3' }
    else if d == 4 { '4' }
    else if d == 5 { '5' }
    else if d == 6 { '6' }
    else if d == 7 { '7' }
    else if d == 8 { '8' }
    else { '9' }
}

/// Decimal digit sequence of a natural number, most significant digit first.
pub open spec fn dec_digits(n: nat) -> Seq<char>
    decreases n,
{
    if n < 10 {
        seq![digit_char(n)]
    } else {
        dec_digits(n / 10).push(digit_char(n % 10))
    }
}

/// One decimal digit as a string.
fn digit_string(d: u64) -> (s: String)
    requires
        d < 10,
    ensures
        s@ == seq![digit_char(d as nat)],
{
    proof {
        reveal_strlit("0");
        reveal_strlit("1");
        reveal_strlit("2");
        reveal_strlit("3");
        reveal_strlit("4");
        reveal_strlit("5");
        reveal_strlit("6");
        reveal_strlit("7");
        reveal_strlit("8");
        reveal_strlit("9");
    }
    if d == 0 { String::from_str("0") }
    else if d == 1 { String::from_str("1") }
    else if d == 2 { String::from_str("2") }
    else if d == 3 { String::from_str("3") }
    else if d == 4 { String::from_str("4") }
    else if d == 5 { String::from_str("5") }
    else if d == 6 { String::from_str("6") }
    else if d == 7 { String::from_str("7") }
    else if d == 8 { String::from_str("8") }
    else { String::from_str("9") }
}

/// Decimal rendering of an unsigned integer.
pub fn u64_to_decimal(n: u64) -> (s: String)
    ensures
        s@ == dec_digits(n as nat),
    decreases n,
{
    if n < 10 {
        digit_string(n)
    } else {
        let s = u64_to_decimal(n / 10);
        let d = digit_string(n % 10);
        let r = s.concat(d.as_str());
        proof {
            assert(r@ =~= dec_digits(n as nat));
        }
        r
    }
}

/// A copy of a vector of strings, equal to it element by element.
pub fn clone_string_vec(v: &Vec<String>) -> (r: Vec<String>)
    ensures
        r.deep_view() == v.deep_view(),
{
    let mut r: Vec<String> = Vec::new();
    let n = v.len();
    let mut i: usize = 0;
    while i < n
        invariant
            i <= n,
            n == v.len(),
            r@.len() == i,
            forall|j: int| 0 <= j < i ==> r@[j]@ == v@[j]@,
        decreases n - i,
    {
        r.push(v[i].clone());
        i = i + 1;
    }
    proof {
        assert(r.deep_view() =~~= v.deep_view());
    }
    r
}

/// The kind of check a monitor performs. The wire vocabulary writes these
/// in lower case, with `grpc-keyword` for the gRPC keyword check.
#[derive(Clone, Copy, Debug, PartialEq, Eq, Structural)]
pub enum MonitorType {
    Http,
    Port,
    Ping,
    Keyword,
    GrpcKeyword,
    Dns,
    Docker,
    Push,
    Steam,
    Gamedig,
    Group,
    Mqtt,
    Sqlserver,
    Postgres,
    Mysql,
    Mongodb,
    Radius,
    Redis,
}

/// The HTTP method an http-kind monitor uses. The wire vocabulary writes
/// these in upper case.
#[derive(Clone, Copy, Debug, PartialEq, Eq, Structural)]
pub enum MonitorMethod {
    Get,
    Post,
    Put,
    Patch,
    Delete,
    Head,
    Options,
}

/// The mathematical value of a [`Monitor`]: every text field as a
/// character sequence.
pub struct MonitorSpec {
    pub id: Option<u8>,
    pub name: Seq<char>,
    pub typology: MonitorType,
    pub url: Option<Seq<char>>,
    pub parent: Option<u64>,
    pub path_name: Option<Seq<char>>,
    pub accepted_status_codes: Seq<Seq<char>>,
    pub expiry_notification: bool,
    pub method: Option<MonitorMethod>,
    pub interval: u8,
}

/// One uptime check configuration. `id` stays `None` until the server
/// acknowledges creation; `path_name` is a legacy identity fragment that is
/// never transmitted and plays no part in the uid.
#[derive(Debug)]
pub struct Monitor {
    pub id: Option<u8>,
    pub name: String,
    /// The check kind; the wire field for it is literally named `type`.
    pub typology: MonitorType,
    pub url: Option<String>,
    pub parent: Option<u64>,
    pub path_name: Option<String>,
    pub accepted_status_codes: Vec<String>,
    pub expiry_notification: bool,
    pub method: Option<MonitorMethod>,
    pub interval: u8,
}

impl View for Monitor {
    type V = MonitorSpec;

    open spec fn view(&self) -> MonitorSpec {
        MonitorSpec {
            id: self.id,
            name: self.name@,
            typology: self.typology,
            url: self.url.deep_view(),
            parent: self.parent,
            path_name: self.path_name.deep_view(),
            accepted_status_codes: self.accepted_status_codes.deep_view(),
            expiry_notification: self.expiry_notification,
            method: self.method,
            interval: self.interval,
        }
    }
}

impl DeepView for Monitor {
    type V = MonitorSpec;

    open spec fn deep_view(&self) -> MonitorSpec {
        self.view()
    }
}

/// The identity string of a monitor: the parent group id (zero when
/// absent), a dash, and the name.
pub open spec fn uid_spec(m: MonitorSpec) -> Seq<char> {
    let parent: u64 = match m.parent {
        Some(p) => p,
        None => 0u64,
    };
    dec_digits(parent as nat) + seq!['-'] + m.name
}

impl Monitor {
    /// A monitor with the given name and kind (http when none is given)
    /// and the documented defaults for every other field.
    pub fn new(name: String, typology: Option<MonitorType>) -> (m: Monitor)
        ensures
            m@.id == Option::<u8>::None,
            m@.name == name@,
            m@.typology == (match typology {
                Some(t) => t,
                None => MonitorType::Http,
            }),
            m@.url == Option::<Seq<char>>::None,
            m@.parent == Option::<u64>::None,
            m@.path_name == Option::<Seq<char>>::None,
            m@.accepted_status_codes == seq!["200-299"@],
            m@.expiry_notification == true,
            m@.method == Some(MonitorMethod::Head),
            m@.interval == 90u8,
    {
        let kind = match typology {
            Some(t) => t,
            None => MonitorType::Http,
        };
        let mut codes: Vec<String> = Vec::new();
        codes.push(String::from_str("200-299"));
        proof {
            assert(codes.deep_view() =~= seq!["200-299"@]);
        }
        Monitor {
            id: None,
            name,
            typology: kind,
            url: None,
            parent: None,
            path_name: None,
            accepted_status_codes: codes,
            expiry_notification: true,
            method: Some(MonitorMethod::Head),
            interval: 90,
        }
    }

    /// The locally computed identity string, a pure function of the parent
    /// group id and the name.
    pub fn uid(&self) -> (s: String)
        ensures
            s@ == uid_spec(self@),
    {
        let parent: u64 = match self.parent {
            Some(p) => p,
            None => 0,
        };
        proof {
            reveal_strlit("-");
        }
        let r = u64_to_decimal(parent).concat("-").concat(self.name.as_str());
        proof {
            assert(r@ =~~= uid_spec(self@));
        }
        r
    }

    /// A copy with the same value in every field.
    pub fn duplicate(&self) -> (m: Monitor)
        ensures
            m@ == self@,
    {
        let url = match &self.url {
            Some(s) => Some(s.clone()),
            None => None,
        };
        let path_name = match &self.path_name {
            Some(s) => Some(s.clone()),
            None => None,
        };
        let codes = clone_string_vec(&self.accepted_status_codes);
        let m = Monitor {
            id: self.id,
            name: self.name.clone(),
            typology: self.typology,
            url,
            parent: self.parent,
            path_name,
            accepted_status_codes: codes,
            expiry_notification: self.expiry_notification,
            method: self.method,
            interval: self.interval,
        };
        m
    }
}

/// The uid depends on the parent group id and the name alone: two monitors
/// that agree on those two fields have equal uids, whatever their other
/// fields hold.
pub proof fn lemma_uid_deterministic(a: MonitorSpec, b: MonitorSpec)
    requires
        a.parent == b.parent,
        a.name == b.name,
    ensures
        uid_spec(a) == uid_spec(b),
{
}

} // verus!
