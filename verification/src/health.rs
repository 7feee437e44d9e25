//! Health reports: the plain one, and the deep one that probes the secret
//! store first and the load balancer's API second.

use crate::terminator::{is_success, status_is_success};
use vstd::prelude::*;

verus! {

/// Whether the service can do its work.
#[derive(Clone, Copy, Debug, PartialEq, Eq, Structural)]
pub enum Health {
    Healthy,
    Degraded,
}

impl Health {
    /// The HTTP status under which the report is sent: 200 or 503.
    pub open spec fn http_status(self) -> u16 {
        match self {
            Health::Healthy => 200,
            Health::Degraded => 503,
        }
    }

    /// The word under which the report is sent.
    pub open spec fn word(self) -> Seq<char> {
        match self {
            Health::Healthy => "healthy"@,
            Health::Degraded => "degraded"@,
        }
    }
}

/// A health report, as sent to whoever asked.
#[derive(Debug, PartialEq, Eq)]
pub struct HealthReport {
    pub health: Health,
    pub message: Option<String>,
}

/// A report as contracts see it.
pub struct HealthReportView {
    pub health: Health,
    pub message: Option<Seq<char>>,
}

impl View for HealthReport {
    type V = HealthReportView;

    open spec fn view(&self) -> HealthReportView {
        HealthReportView {
            health: self.health,
            message: match self.message {
                Some(text) => Some(text@),
                None => None,
            },
        }
    }
}

impl HealthReport {
    /// The HTTP status under which the report is sent.
    pub fn http_status(&self) -> (status: u16)
        ensures
            status == self.health.http_status(),
    {
        match self.health {
            Health::Healthy => 200,
            Health::Degraded => 503,
        }
    }

    /// The word under which the report is sent.
    pub fn status_word(&self) -> (word: &'static str)
        ensures
            word@ == self.health.word(),
    {
        match self.health {
            Health::Healthy => "healthy",
            Health::Degraded => "degraded",
        }
    }
}

/// The report of a service in working order.
pub open spec fn healthy() -> HealthReportView {
    HealthReportView { health: Health::Healthy, message: None }
}

/// The report of a service that cannot do its work, with the reason.
pub open spec fn degraded(reason: Seq<char>) -> HealthReportView {
    HealthReportView { health: Health::Degraded, message: Some(reason) }
}

/// What the probe of the secret store came to.
pub enum StoreProbe {
    /// The store answered.
    Reachable,
    /// The store did not answer: the text of the failure.
    Failed(String),
}

/// A store probe as contracts see it.
pub enum StoreProbeView {
    Reachable,
    Failed(Seq<char>),
}

impl View for StoreProbe {
    type V = StoreProbeView;

    open spec fn view(&self) -> StoreProbeView {
        match self {
            StoreProbe::Reachable => StoreProbeView::Reachable,
            StoreProbe::Failed(text) => StoreProbeView::Failed(text@),
        }
    }
}

/// What the probe of the load balancer's API came to.
pub enum BalancerProbe {
    /// No answer came: the text of the failure.
    Failed(String),
    /// The answer: its status, and the status as it is shown to a reader.
    Answered { status: u16, status_line: String },
}

/// A balancer probe as contracts see it.
pub enum BalancerProbeView {
    Failed(Seq<char>),
    Answered { status: u16, status_line: Seq<char> },
}

impl View for BalancerProbe {
    type V = BalancerProbeView;

    open spec fn view(&self) -> BalancerProbeView {
        match self {
            BalancerProbe::Failed(text) => BalancerProbeView::Failed(text@),
            BalancerProbe::Answered { status, status_line } => BalancerProbeView::Answered {
                status: *status,
                status_line: status_line@,
            },
        }
    }
}

/// What follows the probe of the secret store.
#[derive(Debug, PartialEq, Eq)]
pub enum ProbeStep {
    /// Probe the load balancer's API next.
    ProbeBalancer,
    /// Send this report; the load balancer's API is not probed.
    Report(HealthReport),
}

/// A probe step as contracts see it.
pub enum ProbeStepView {
    ProbeBalancer,
    Report(HealthReportView),
}

impl View for ProbeStep {
    type V = ProbeStepView;

    open spec fn view(&self) -> ProbeStepView {
        match self {
            ProbeStep::ProbeBalancer => ProbeStepView::ProbeBalancer,
            ProbeStep::Report(report) => ProbeStepView::Report(report@),
        }
    }
}

/// What follows the probe of the secret store: the probe of the load
/// balancer's API while the store is reachable, a degraded report that names
/// the failure otherwise.
pub open spec fn store_step(probe: StoreProbeView) -> ProbeStepView {
    match probe {
        StoreProbeView::Reachable => ProbeStepView::ProbeBalancer,
        StoreProbeView::Failed(text) => ProbeStepView::Report(
            degraded("Failed to connect to Kubernetes API: "@ + text),
        ),
    }
}

/// The report after the probe of the load balancer's API: healthy under a
/// success status, degraded under any other and where the probe failed.
pub open spec fn balancer_report(probe: BalancerProbeView) -> HealthReportView {
    match probe {
        BalancerProbeView::Failed(text) => degraded("Failed to connect to Linode API: "@ + text),
        BalancerProbeView::Answered { status, status_line } => if is_success(status) {
            healthy()
        } else {
            degraded("Linode API responded with status: "@ + status_line)
        },
    }
}

fn degraded_with(prefix: &str, reason: &str) -> (report: HealthReport)
    ensures
        report@ == degraded(prefix@ + reason@),
{
    HealthReport { health: Health::Degraded, message: Some(String::from_str(prefix).concat(reason)) }
}

/// The answer to a plain health check: the service runs.
pub fn liveness() -> (report: HealthReport)
    ensures
        report@ == healthy(),
{
    HealthReport { health: Health::Healthy, message: None }
}

/// Decides what follows the probe of the secret store: the probe of the
/// load balancer's API, or a degraded report at once.
pub fn after_store_probe(probe: StoreProbe) -> (step: ProbeStep)
    ensures
        step@ == store_step(probe@),
{
    match probe {
        StoreProbe::Reachable => ProbeStep::ProbeBalancer,
        StoreProbe::Failed(text) => ProbeStep::Report(
            degraded_with("Failed to connect to Kubernetes API: ", text.as_str()),
        ),
    }
}

/// Decides the report from the probe of the load balancer's API.
pub fn after_balancer_probe(probe: BalancerProbe) -> (report: HealthReport)
    ensures
        report@ == balancer_report(probe@),
{
    match probe {
        BalancerProbe::Failed(text) => degraded_with(
            "Failed to connect to Linode API: ",
            text.as_str(),
        ),
        BalancerProbe::Answered { status, status_line } => {
            if status_is_success(status) {
                liveness()
            } else {
                degraded_with("Linode API responded with status: ", status_line.as_str())
            }
        },
    }
}

} // verus!
