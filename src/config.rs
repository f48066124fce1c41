use crate::interval::{Interval, NANOS_PER_SEC};
use vstd::prelude::*;

verus! {

/// Seconds between two reports when no interval is given.
pub const DEFAULT_INTERVAL_SECS: u64 = 30;

/// The view of a text that may be absent.
pub open spec fn text_view(t: Option<&str>) -> Option<Seq<char>> {
    match t {
        Some(s) => Some(s@),
        None => None,
    }
}

/// What a reporter configuration holds.
pub struct ReporterView {
    pub token: Seq<char>,
    pub service_id: Option<Seq<char>>,
    pub node_id: Option<Seq<char>>,
    pub replica_id: Option<Seq<char>>,
    /// The reporting interval, in nanoseconds.
    pub interval: nat,
}

impl ReporterView {
    /// Every identity field is present: the configuration can run.
    pub open spec fn is_complete(self) -> bool {
        &&& self.service_id is Some
        &&& self.node_id is Some
        &&& self.replica_id is Some
    }
}

/// The identity field that a configuration lacks.
#[derive(Clone, Copy, Debug, PartialEq, Eq, Structural)]
pub enum MissingField {
    ServiceId,
    NodeId,
    ReplicaId,
}

/// The first identity field that `v` lacks, in the order service, node, replica.
pub open spec fn first_missing(v: ReporterView) -> Option<MissingField> {
    if v.service_id is None {
        Some(MissingField::ServiceId)
    } else if v.node_id is None {
        Some(MissingField::NodeId)
    } else if v.replica_id is None {
        Some(MissingField::ReplicaId)
    } else {
        None
    }
}

/// The configuration of a status reporter: a credential, the identity of
/// what is reported on and the reporting interval.
pub struct Reporter<'a> {
    token: &'a str,
    service_id: Option<&'a str>,
    node_id: Option<&'a str>,
    replica_id: Option<&'a str>,
    interval: Interval,
}

/// Collects the fields of a reporter configuration before it is finalized.
pub struct ReporterBuilder<'a> {
    reporter: Reporter<'a>,
}

impl<'a> View for Reporter<'a> {
    type V = ReporterView;

    closed spec fn view(&self) -> ReporterView {
        ReporterView {
            token: self.token@,
            service_id: text_view(self.service_id),
            node_id: text_view(self.node_id),
            replica_id: text_view(self.replica_id),
            interval: self.interval@,
        }
    }
}

impl<'a> View for ReporterBuilder<'a> {
    type V = ReporterView;

    closed spec fn view(&self) -> ReporterView {
        self.reporter@
    }
}

impl<'a> Reporter<'a> {
    /// Starts a configuration with the credential `token`, no identity field
    /// and the default interval.
    pub fn new(token: &'a str) -> (r: ReporterBuilder<'a>)
        ensures
            r@ == (ReporterView {
                token: token@,
                service_id: None,
                node_id: None,
                replica_id: None,
                interval: DEFAULT_INTERVAL_SECS as nat * NANOS_PER_SEC as nat,
            }),
    {
        ReporterBuilder {
            reporter: Reporter {
                token,
                service_id: None,
                node_id: None,
                replica_id: None,
                interval: Interval::from_secs(DEFAULT_INTERVAL_SECS),
            },
        }
    }

    /// The credential sent with each report.
    pub fn token(&self) -> (r: &'a str)
        ensures
            r@ == self@.token,
    {
        self.token
    }

    /// The service reported on.
    pub fn service_id(&self) -> (r: Option<&'a str>)
        ensures
            text_view(r) == self@.service_id,
    {
        self.service_id
    }

    /// The node reported on.
    pub fn node_id(&self) -> (r: Option<&'a str>)
        ensures
            text_view(r) == self@.node_id,
    {
        self.node_id
    }

    /// The replica reported on.
    pub fn replica_id(&self) -> (r: Option<&'a str>)
        ensures
            text_view(r) == self@.replica_id,
    {
        self.replica_id
    }

    /// The time between two reports.
    pub fn interval(&self) -> (r: Interval)
        ensures
            r@ == self@.interval,
    {
        self.interval
    }
}

impl<'a> ReporterBuilder<'a> {
    /// The first identity field that the configuration lacks, if any.
    pub fn missing_field(&self) -> (r: Option<MissingField>)
        ensures
            r == first_missing(self@),
            r is None <==> self@.is_complete(),
    {
        if self.reporter.service_id.is_none() {
            Some(MissingField::ServiceId)
        } else if self.reporter.node_id.is_none() {
            Some(MissingField::NodeId)
        } else if self.reporter.replica_id.is_none() {
            Some(MissingField::ReplicaId)
        } else {
            None
        }
    }

    /// Finalizes the configuration.  A configuration that lacks an identity
    /// field is a programming error of the caller: it cannot be finalized.
    pub fn build(self) -> (r: Reporter<'a>)
        requires
            self@.is_complete(),
        ensures
            r@ == self@,
    {
        self.reporter
    }

    /// Sets the service reported on.
    pub fn service_id(self, service_id: &'a str) -> (r: ReporterBuilder<'a>)
        ensures
            r@ == (ReporterView { service_id: Some(service_id@), ..self@ }),
    {
        let mut reporter = self.reporter;
        reporter.service_id = Some(service_id);
        ReporterBuilder { reporter }
    }

    /// Sets the node reported on.
    pub fn node_id(self, node_id: &'a str) -> (r: ReporterBuilder<'a>)
        ensures
            r@ == (ReporterView { node_id: Some(node_id@), ..self@ }),
    {
        let mut reporter = self.reporter;
        reporter.node_id = Some(node_id);
        ReporterBuilder { reporter }
    }

    /// Sets the replica reported on.
    pub fn replica_id(self, replica_id: &'a str) -> (r: ReporterBuilder<'a>)
        ensures
            r@ == (ReporterView { replica_id: Some(replica_id@), ..self@ }),
    {
        let mut reporter = self.reporter;
        reporter.replica_id = Some(replica_id);
        ReporterBuilder { reporter }
    }

    /// Sets the time between two reports.
    pub fn interval(self, interval: Interval) -> (r: ReporterBuilder<'a>)
        ensures
            r@ == (ReporterView { interval: interval@, ..self@ }),
    {
        let mut reporter = self.reporter;
        reporter.interval = interval;
        ReporterBuilder { reporter }
    }
}

} // verus!
