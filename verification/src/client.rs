//! The session client's decision logic. The transport (an event-based
//! socket connection) delivers push events and acknowledgement payloads
//! asynchronously; everything the client decides about them — when a
//! connection step is needed, how a list snapshot merges into the cache,
//! when a bounded wait gives up, whether a creation request may be sent,
//! and what an acknowledgement means — is stated and proved here. The
//! surrounding loop that sleeps, emits events and collects replies is the
//! caller's: it feeds events in and carries actions out.

use vstd::prelude::*;

use crate::cache::MonitorCache;
use crate::cache::contains_uid_spec;
use crate::cache::insert_spec;
use crate::cache::search_matches;
use crate::errors::KumaError;
use crate::monitor::Monitor;
use crate::monitor::MonitorSpec;
use crate::monitor::uid_spec;
use crate::wire::AckRecord;
use crate::wire::ack_assigned_id;

verus! {

/// How long the caller sleeps between two polls of a bounded wait.
pub const POLL_INTERVAL_MS: u64 = 100;

/// How long the caller lets the transport settle after it opens, before
/// the login request is sent.
pub const SETTLE_DELAY_MS: u64 = 300;

/// The acknowledgement timeout handed to the transport for the login
/// request.
pub const LOGIN_ACK_TIMEOUT_SECS: u64 = 2;

/// The acknowledgement timeout handed to the transport for a creation
/// request.
pub const ADD_ACK_TIMEOUT_SECS: u64 = 4;

/// How many polls a list refresh waits for the cache to fill.
pub const LIST_WAIT_CAP: u32 = 100;

/// How many polls a creation request waits for its acknowledgement.
pub const ACK_WAIT_CAP: u32 = 20;

/// Credentials for the login request. An absent field is left out of the
/// outbound payload entirely, not sent as null or empty.
#[derive(Debug)]
pub struct KumaAuthentication {
    pub username: Option<String>,
    pub password: Option<String>,
}

/// The mathematical value of a [`KumaAuthentication`].
pub struct AuthSpec {
    pub username: Option<Seq<char>>,
    pub password: Option<Seq<char>>,
}

impl View for KumaAuthentication {
    type V = AuthSpec;

    open spec fn view(&self) -> AuthSpec {
        AuthSpec { username: self.username.deep_view(), password: self.password.deep_view() }
    }
}

/// What one poll of a bounded wait decides.
#[derive(Clone, Copy, Debug, PartialEq, Eq, Structural)]
pub enum WaitStep {
    /// The awaited condition holds; stop waiting.
    Ready,
    /// Not there yet; sleep one interval and poll again.
    Wait,
    /// The iteration cap is reached; give up.
    TimedOut,
}

/// The decision of one poll: ready as soon as the condition holds, timed
/// out as soon as the iteration count reaches the cap, otherwise wait on.
pub open spec fn spec_wait_step(done: bool, iterations: u32, cap: u32) -> WaitStep {
    if done {
        WaitStep::Ready
    } else if iterations >= cap {
        WaitStep::TimedOut
    } else {
        WaitStep::Wait
    }
}

/// A bounded wait terminates: a poll only ever answers `Wait` while the
/// iteration count is below the cap, and once the count reaches the cap an
/// unmet condition times out rather than waiting on.
pub proof fn lemma_wait_bounded(done: bool, iterations: u32, cap: u32)
    ensures
        spec_wait_step(done, iterations, cap) == WaitStep::Wait ==> iterations < cap,
        !done && iterations >= cap ==> spec_wait_step(done, iterations, cap) == WaitStep::TimedOut,
{
}

/// What merging a pushed list snapshot does to the cached entries: each
/// arriving monitor in order replaces the entry with its uid or is
/// appended.
pub open spec fn merge_spec(s: Seq<MonitorSpec>, ms: Seq<MonitorSpec>) -> Seq<MonitorSpec>
    decreases ms.len(),
{
    if ms.len() == 0 {
        s
    } else {
        insert_spec(merge_spec(s, ms.drop_last()), ms.last())
    }
}

/// One logical session with the remote service: the configuration it was
/// built with, whether the connection choreography has completed, and the
/// cached monitor list.
pub struct KumaClient {
    pub entrypoint: String,
    pub auth: KumaAuthentication,
    pub connected: bool,
    pub cache: MonitorCache,
}

impl KumaClient {
    /// The cache never holds two entries with one uid.
    pub open spec fn inv(&self) -> bool {
        self.cache.well_formed()
    }

    /// A disconnected client with an empty cache.
    pub fn new(entrypoint: String, auth: KumaAuthentication) -> (c: KumaClient)
        ensures
            c.entrypoint@ == entrypoint@,
            c.auth@ == auth@,
            !c.connected,
            c.cache@ == Seq::<MonitorSpec>::empty(),
            c.inv(),
    {
        KumaClient { entrypoint, auth, connected: false, cache: MonitorCache::new() }
    }

    /// Whether the connection choreography still has to run before an
    /// operation; connecting twice is a no-op.
    pub fn needs_connect(&self) -> (b: bool)
        ensures
            b == !self.connected,
    {
        !self.connected
    }

    /// The address the transport connects to: the entrypoint with a
    /// trailing slash.
    pub fn connect_url(&self) -> (u: String)
        ensures
            u@ == self.entrypoint@ + "/"@,
    {
        self.entrypoint.clone().concat("/")
    }

    /// Record that the transport is open and the login acknowledgement
    /// arrived; nothing else changes.
    pub fn on_connected(&mut self)
        ensures
            final(self).connected,
            final(self).entrypoint == old(self).entrypoint,
            final(self).auth == old(self).auth,
            final(self).cache == old(self).cache,
    {
        self.connected = true;
    }

    /// Tear down the connection state. The cache is kept. Disconnecting a
    /// client that holds no connection is an error, not a panic.
    pub fn disconnect(&mut self) -> (r: Result<(), KumaError>)
        ensures
            old(self).connected ==> r is Ok && !final(self).connected && final(self).entrypoint
                == old(self).entrypoint && final(self).auth == old(self).auth && final(self).cache
                == old(self).cache,
            !old(self).connected ==> r == Err::<(), KumaError>(KumaError::DisconnectedStateError)
                && *final(self) == *old(self),
    {
        if self.connected {
            self.connected = false;
            Ok(())
        } else {
            Err(KumaError::DisconnectedStateError)
        }
    }

    /// Merge a pushed list snapshot into the cache, in arrival order.
    pub fn handle_monitor_list(&mut self, monitors: &Vec<Monitor>)
        requires
            old(self).inv(),
        ensures
            final(self).inv(),
            final(self).cache@ == merge_spec(old(self).cache@, monitors.deep_view()),
            final(self).connected == old(self).connected,
            final(self).entrypoint == old(self).entrypoint,
            final(self).auth == old(self).auth,
    {
        let n = monitors.len();
        let mut i: usize = 0;
        proof {
            assert(monitors.deep_view().subrange(0, 0) =~= Seq::<MonitorSpec>::empty());
        }
        while i < n
            invariant
                i <= n,
                n == monitors@.len(),
                self.cache.well_formed(),
                self.cache@ == merge_spec(old(self).cache@, monitors.deep_view().subrange(
                    0,
                    i as int,
                )),
                self.connected == old(self).connected,
                self.entrypoint == old(self).entrypoint,
                self.auth == old(self).auth,
            decreases n - i,
        {
            let ghost pre = self.cache@;
            self.cache.insert(monitors[i].duplicate());
            proof {
                let dv = monitors.deep_view();
                assert(dv.subrange(0, i + 1 as int).drop_last() =~= dv.subrange(0, i as int));
                assert(dv.subrange(0, i + 1 as int).last() == dv[i as int]);
                assert(merge_spec(old(self).cache@, dv.subrange(0, i + 1 as int)) == insert_spec(
                    pre,
                    dv[i as int],
                ));
            }
            i = i + 1;
        }
        proof {
            assert(monitors.deep_view().subrange(0, n as int) =~= monitors.deep_view());
        }
    }

    /// Forget the cached snapshot before a fresh list request goes out.
    pub fn begin_refresh(&mut self)
        ensures
            final(self).cache@ == Seq::<MonitorSpec>::empty(),
            final(self).inv(),
            final(self).connected == old(self).connected,
            final(self).entrypoint == old(self).entrypoint,
            final(self).auth == old(self).auth,
    {
        self.cache.clear();
    }

    /// One poll of the wait for the requested list: ready once the cache
    /// is populated, timed out once the poll count reaches
    /// [`LIST_WAIT_CAP`].
    pub fn refresh_wait_step(&self, iterations: u32) -> (s: WaitStep)
        ensures
            s == spec_wait_step(self.cache@.len() > 0, iterations, LIST_WAIT_CAP),
    {
        if !self.cache.is_empty() {
            WaitStep::Ready
        } else if iterations >= LIST_WAIT_CAP {
            WaitStep::TimedOut
        } else {
            WaitStep::Wait
        }
    }

    /// The outcome of a finished list wait: a timed-out wait is the
    /// refresh error, a ready one is success.
    pub fn refresh_outcome(step: WaitStep) -> (r: Result<(), KumaError>)
        requires
            step != WaitStep::Wait,
        ensures
            step == WaitStep::Ready ==> r == Ok::<(), KumaError>(()),
            step == WaitStep::TimedOut ==> r == Err::<(), KumaError>(
                KumaError::ListRefreshTimedOut,
            ),
    {
        match step {
            WaitStep::Ready => Ok(()),
            _ => Err(KumaError::ListRefreshTimedOut),
        }
    }

    /// One poll of the wait for a creation acknowledgement, capped at
    /// [`ACK_WAIT_CAP`] iterations.
    pub fn ack_wait_step(got_ack: bool, iterations: u32) -> (s: WaitStep)
        ensures
            s == spec_wait_step(got_ack, iterations, ACK_WAIT_CAP),
    {
        if got_ack {
            WaitStep::Ready
        } else if iterations >= ACK_WAIT_CAP {
            WaitStep::TimedOut
        } else {
            WaitStep::Wait
        }
    }

    /// Whether a creation request for this monitor may be sent: it is
    /// rejected as a duplicate, before anything goes out, exactly when the
    /// cache already holds its uid.
    pub fn begin_add(&self, monitor: &Monitor) -> (r: Result<(), KumaError>)
        ensures
            r is Ok <==> !contains_uid_spec(self.cache@, uid_spec(monitor@)),
            r matches Err(e) ==> e == KumaError::DuplicateMonitor,
    {
        let u = monitor.uid();
        if self.cache.contains_uid(&u) {
            Err(KumaError::DuplicateMonitor)
        } else {
            Ok(())
        }
    }

    /// Interpret the acknowledgement of a creation request: success
    /// exactly when a payload arrived whose first record reports success
    /// and carries a positive assigned id; the returned monitor is the
    /// input with that id filled in. A missing payload (the wait timed
    /// out), an empty one, a failure flag or a missing id all degrade to
    /// [`KumaError::CreationFailed`]; nothing here panics.
    pub fn complete_add(monitor: Monitor, ack: Option<Vec<AckRecord>>) -> (r: Result<
        Monitor,
        KumaError,
    >)
        ensures
            r is Ok <==> (ack matches Some(records) && ack_assigned_id(records@) is Some),
            r matches Ok(out) ==> (ack matches Some(records) && ack_assigned_id(records@)
                matches Some(id) && out@ == (MonitorSpec { id: Some(id), ..monitor@ })),
            r matches Err(e) ==> e == KumaError::CreationFailed,
    {
        let records = match ack {
            Some(rs) => rs,
            None => {
                return Err(KumaError::CreationFailed);
            },
        };
        if records.len() == 0 {
            return Err(KumaError::CreationFailed);
        }
        let first = &records[0];
        if !first.ok {
            return Err(KumaError::CreationFailed);
        }
        match first.monitor_id {
            Some(id) => {
                if id > 0 {
                    let mut out = monitor;
                    out.id = Some(id);
                    Ok(out)
                } else {
                    Err(KumaError::CreationFailed)
                }
            },
            None => Err(KumaError::CreationFailed),
        }
    }

    /// What a search over the current cache yields: nothing when the
    /// refresh failed, otherwise the cached monitors that satisfy the
    /// filters, in cache order.
    pub open spec fn search_results(
        &self,
        refresh_ok: bool,
        by_name: Option<Seq<char>>,
        by_parent_id: Option<u64>,
    ) -> Seq<MonitorSpec> {
        if refresh_ok {
            self.cache@.filter(|ms: MonitorSpec| search_matches(ms, by_name, by_parent_id))
        } else {
            Seq::<MonitorSpec>::empty()
        }
    }

    /// The cached monitors that match the given name and parent-group
    /// filters. A failed refresh (`refresh_ok` false) is swallowed as "no
    /// results" rather than propagated.
    pub fn search_monitor(
        &self,
        refresh_ok: bool,
        by_name: Option<String>,
        by_parent_id: Option<u64>,
    ) -> (r: Vec<Monitor>)
        ensures
            r.deep_view() == self.search_results(refresh_ok, by_name.deep_view(), by_parent_id),
    {
        if refresh_ok {
            let r = self.cache.filtered(&by_name, by_parent_id);
            r
        } else {
            let r: Vec<Monitor> = Vec::new();
            proof {
                assert(r.deep_view() =~= Seq::<MonitorSpec>::empty());
            }
            r
        }
    }

    /// The first search match — but only when the search yields more than
    /// one. The more-than-one threshold is the behaviour this client has
    /// always had; a caller looking for exactly one match must count the
    /// results of [`Self::search_monitor`] instead.
    pub fn find_monitor(
        &self,
        refresh_ok: bool,
        by_name: Option<String>,
        by_parent_id: Option<u64>,
    ) -> (r: Option<Monitor>)
        ensures
            r matches Some(m) ==> self.search_results(
                refresh_ok,
                by_name.deep_view(),
                by_parent_id,
            ).len() > 1 && m@ == self.search_results(
                refresh_ok,
                by_name.deep_view(),
                by_parent_id,
            )[0],
            r is None ==> self.search_results(refresh_ok, by_name.deep_view(), by_parent_id).len()
                <= 1,
    {
        let results = self.search_monitor(refresh_ok, by_name, by_parent_id);
        if results.len() > 1 {
            Some(results[0].duplicate())
        } else {
            None
        }
    }
}

} // verus!
