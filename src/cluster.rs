//! The cluster: the instance pool with its configuration, and the decisions
//! of request dispatch. Whoever runs the cluster performs the network calls
//! and the timers, and hands their outcomes back here.

use vstd::prelude::*;
use crate::address::{
    build_url,
    credential_query,
    all_plain,
    query_text,
    query_with,
    verbatim,
    pair_views,
    string_views,
    url_text,
    with_credentials,
};
use crate::instance::{Instance, InstanceView};
use crate::pool::{
    Pool,
    PoolView,
    add_spec,
    pool_wf,
    demote_spec,
    promote_spec,
    select_spec,
    views,
};
use crate::status::RequestStatus;

verus! {

/// The cooldown, in milliseconds, before a disabled instance is tried again,
/// unless set.
pub const DEFAULT_FAILOVER_MS: u64 = 60_000;

/// A well-formed HTTP response, whatever its status code.
#[derive(Debug, Clone, PartialEq)]
pub struct Response {
    pub status: u16,
    pub body: String,
}

/// Why a request failed.
#[derive(Debug, Clone, PartialEq)]
pub enum RequestError {
    /// No instance was available when the request was submitted.
    NoInstancesAvailable,
    /// The call did not bring a well-formed response (connection refused,
    /// timeout, name resolution); the message says what happened.
    TransportFailure(String),
}

/// What the transport brought back from one call.
#[derive(Debug, Clone, PartialEq)]
pub enum TransportOutcome {
    Response(Response),
    Failure(String),
}

/// A call to make: the instance chosen and the URL to request.
#[derive(Debug, Clone)]
pub struct Target {
    pub instance: Instance,
    pub url: String,
}

/// A timer to arm: after `after_ms` milliseconds, `instance` is to be enabled
/// again.
#[derive(Debug, Clone)]
pub struct Readmission {
    pub instance: Instance,
    pub after_ms: u64,
}

/// The value of a cluster.
pub ghost struct ClusterView {
    pub pool: PoolView,
    pub username: Seq<char>,
    pub password: Seq<char>,
    pub request_timeout: Option<u32>,
    pub failover_ms: u64,
}

/// A cluster of instances with failover and round-robin dispatch.
pub struct Cluster {
    pool: Pool,
    username: String,
    password: String,
    request_timeout: Option<u32>,
    failover_ms: u64,
}

impl View for Cluster {
    type V = ClusterView;

    closed spec fn view(&self) -> ClusterView {
        ClusterView {
            pool: self.pool@,
            username: self.username@,
            password: self.password@,
            request_timeout: self.request_timeout,
            failover_ms: self.failover_ms,
        }
    }
}

/// The URL of a request to `i` at `path` with the caller's `query`, and the
/// credentials after it.
pub open spec fn request_url(
    c: ClusterView,
    i: InstanceView,
    path: Seq<String>,
    query: Option<Vec<(String, String)>>,
) -> Seq<char> {
    url_text(
        i,
        string_views(path),
        query_text(request_pairs(c, query)),
    )
}

/// The query pairs of a request with the caller's `query`: the credentials
/// stand last, once each.
pub open spec fn request_pairs(c: ClusterView, query: Option<Vec<(String, String)>>) -> Seq<
    (Seq<char>, Seq<char>),
> {
    with_credentials(
        match query {
            Some(q) => pair_views(q@),
            None => Seq::empty(),
        },
        c.username,
        c.password,
    )
}

impl Cluster {
    /// The cluster's invariant: that of its pool, no instance value both
    /// available and disabled.
    pub open spec fn wf(&self) -> bool {
        pool_wf(self@.pool)
    }

    /// A cluster with `instance` as its one available instance, the given
    /// credentials, no request timeout and the default cooldown.
    pub fn new(instance: Instance, username: String, password: String) -> (r: Cluster)
        ensures
            r.wf(),
            r@.pool.available == seq![instance@],
            r@.pool.disabled.len() == 0,
            r@.pool.cursor == 0,
            r@.username == username@,
            r@.password == password@,
            r@.request_timeout.is_none(),
            r@.failover_ms == DEFAULT_FAILOVER_MS,
    {
        let mut pool = Pool::new();
        pool.add(instance);
        assert(pool@.available =~= seq![instance@]);
        Cluster { pool, username, password, request_timeout: None, failover_ms: DEFAULT_FAILOVER_MS }
    }

    /// Adds a host to the available instances; it must not be disabled.
    pub fn add_host(&mut self, new_host: Instance)
        requires
            old(self).wf(),
            !old(self)@.pool.disabled.contains(new_host@),
        ensures
            final(self).wf(),
            final(self)@ == (ClusterView { pool: add_spec(old(self)@.pool, new_host@), ..old(self)@ }),
    {
        self.pool.add(new_host);
    }

    /// The next instance in round-robin order, or `None` where none is
    /// available.
    pub fn get_instance(&mut self) -> (r: Option<Instance>)
        requires
            old(self).wf(),
        ensures
            final(self).wf(),
            crate::pool::opt_view(r) == select_spec(old(self)@.pool).0,
            final(self)@ == (ClusterView { pool: select_spec(old(self)@.pool).1, ..old(self)@ }),
    {
        self.pool.select_next()
    }

    /// Takes `instance` out of rotation. Where it was available, returns the
    /// timer to arm for its re-admission after the current cooldown; where it
    /// was not, nothing changes.
    pub fn disable_instance(&mut self, instance: &Instance) -> (r: Option<Readmission>)
        requires
            old(self).wf(),
        ensures
            final(self).wf(),
            final(self)@ == (ClusterView {
                pool: demote_spec(old(self)@.pool, instance@),
                ..old(self)@
            }),
            r.is_some() == old(self)@.pool.available.contains(instance@),
            r matches Some(t) ==> t.instance@ == instance@ && t.after_ms
                == old(self)@.failover_ms,
    {
        if self.pool.demote(instance) {
            Some(Readmission { instance: instance.duplicate(), after_ms: self.failover_ms })
        } else {
            None
        }
    }

    /// Puts `instance` back into rotation when its cooldown has passed.
    /// Returns whether it was disabled; where it was not, nothing changes.
    pub fn enable_instance(&mut self, instance: &Instance) -> (r: bool)
        requires
            old(self).wf(),
        ensures
            final(self).wf(),
            r == old(self)@.pool.disabled.contains(instance@),
            final(self)@ == (ClusterView {
                pool: promote_spec(old(self)@.pool, instance@),
                ..old(self)@
            }),
    {
        self.pool.promote(instance)
    }

    /// Starts a request at `path` with the query pairs `query`: chooses the
    /// next instance and builds its URL, the credentials last in the query.
    /// Returns a pending status and the call to make; where no instance is
    /// available, a status that has failed with `NoInstancesAvailable` and
    /// no call.
    pub fn request(&mut self, path: &Vec<String>, query: Option<Vec<(String, String)>>) -> (r: (
        RequestStatus<Response, RequestError>,
        Option<Target>,
    ))
        requires
            old(self).wf(),
        ensures
            final(self).wf(),
            final(self)@ == (ClusterView { pool: select_spec(old(self)@.pool).1, ..old(self)@ }),
            old(self)@.pool.available.len() == 0 ==> r.0 == RequestStatus::<
                Response,
                RequestError,
            >::Failed(RequestError::NoInstancesAvailable) && r.1.is_none(),
            old(self)@.pool.available.len() > 0 ==> {
                &&& r.0 is Pending
                &&& r.1 matches Some(t)
                &&& select_spec(old(self)@.pool).0 == Some(t.instance@)
                &&& t.url@ == request_url(old(self)@, t.instance@, path@, query)
                &&& all_plain(request_pairs(old(self)@, query)) ==> t.url@ == url_text(
                    t.instance@,
                    string_views(path@),
                    query_with(request_pairs(old(self)@, query), verbatim()),
                )
            },
    {
        match self.pool.select_next() {
            None => (RequestStatus::Failed(RequestError::NoInstancesAvailable), None),
            Some(instance) => {
                let pairs = credential_query(query, &self.username, &self.password);
                let url = build_url(&instance, path, &pairs);
                (RequestStatus::new(), Some(Target { instance, url }))
            },
        }
    }

    /// Records the outcome of a call to `instance`. A response, whatever its
    /// status code, completes the request and leaves the pool as it is. A
    /// transport failure fails the request and takes the instance out of
    /// rotation, returning the timer to arm for its re-admission. A status
    /// that is already written keeps its outcome.
    pub fn finish_request(
        &mut self,
        instance: &Instance,
        outcome: TransportOutcome,
        status: &mut RequestStatus<Response, RequestError>,
    ) -> (r: Option<Readmission>)
        requires
            old(self).wf(),
        ensures
            final(self).wf(),
            match outcome {
                TransportOutcome::Response(resp) => {
                    &&& final(self)@ == old(self)@
                    &&& r.is_none()
                    &&& *final(status) == if *old(status) is Pending {
                        RequestStatus::<Response, RequestError>::Complete(resp)
                    } else {
                        *old(status)
                    }
                },
                TransportOutcome::Failure(e) => {
                    &&& final(self)@ == (ClusterView {
                        pool: demote_spec(old(self)@.pool, instance@),
                        ..old(self)@
                    })
                    &&& r.is_some() == old(self)@.pool.available.contains(instance@)
                    &&& r matches Some(t) ==> t.instance@ == instance@ && t.after_ms
                        == old(self)@.failover_ms
                    &&& *final(status) == if *old(status) is Pending {
                        RequestStatus::<Response, RequestError>::Failed(
                            RequestError::TransportFailure(e),
                        )
                    } else {
                        *old(status)
                    }
                },
            },
    {
        match outcome {
            TransportOutcome::Response(resp) => {
                status.complete(resp);
                None
            },
            TransportOutcome::Failure(e) => {
                let readmission = self.disable_instance(instance);
                status.fail(RequestError::TransportFailure(e));
                readmission
            },
        }
    }

    /// Sets the request timeout, in milliseconds; `None` waits without bound.
    pub fn set_request_timeout(&mut self, value: Option<u32>)
        ensures
            final(self).wf() == old(self).wf(),
            final(self)@ == (ClusterView { request_timeout: value, ..old(self)@ }),
    {
        self.request_timeout = value;
    }

    /// Sets the cooldown, in milliseconds, for the instances disabled from now on.
    pub fn set_failover_timeout(&mut self, ms: u64)
        ensures
            final(self).wf() == old(self).wf(),
            final(self)@ == (ClusterView { failover_ms: ms, ..old(self)@ }),
    {
        self.failover_ms = ms;
    }

    /// The request timeout, in milliseconds.
    pub fn request_timeout(&self) -> (r: Option<u32>)
        ensures
            r == self@.request_timeout,
    {
        self.request_timeout
    }

    /// The cooldown, in milliseconds.
    pub fn failover_timeout(&self) -> (r: u64)
        ensures
            r == self@.failover_ms,
    {
        self.failover_ms
    }

    /// Whether `instance` is disabled.
    pub fn is_disabled(&self, instance: &Instance) -> (r: bool)
        ensures
            r == self@.pool.disabled.contains(instance@),
    {
        self.pool.is_disabled(instance)
    }

    /// A copy of the available instances.
    pub fn get_instances_available(&self) -> (r: Vec<Instance>)
        ensures
            views(r@) == self@.pool.available,
    {
        self.pool.snapshot_available()
    }

    /// A copy of the disabled instances.
    pub fn get_instances_disabled(&self) -> (r: Vec<Instance>)
        ensures
            views(r@) == self@.pool.disabled,
    {
        self.pool.snapshot_disabled()
    }
}

impl Default for Cluster {
    /// A cluster with the default instance, empty credentials, no request
    /// timeout and the default cooldown.
    fn default() -> (r: Cluster)
        ensures
            r.wf(),
            r@.pool.available.len() == 1,
            r@.pool.available[0] == Instance::default_view(),
            r@.pool.disabled.len() == 0,
            r@.pool.cursor == 0,
            r@.username.len() == 0,
            r@.password.len() == 0,
            r@.request_timeout.is_none(),
            r@.failover_ms == DEFAULT_FAILOVER_MS,
    {
        Cluster::new(Instance::default(), String::new(), String::new())
    }
}

} // verus!
