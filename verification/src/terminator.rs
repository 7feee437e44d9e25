//! The HTTPS terminator of a load balancer: which of the listed configs it
//! is, what is sent to create or update it, and how the answers are read.

use crate::search::{first_index, lemma_first_index, lemma_first_index_is};
use crate::secret::{CertificateMaterial, CertificateMaterialView};
use vstd::prelude::*;

verus! {

/// The well-known HTTPS port. The config bound to it is the terminator.
pub const HTTPS_PORT: u16 = 443;

/// Seconds between two health checks of a terminator that this library creates.
pub const CHECK_INTERVAL_SECS: u32 = 30;

/// Seconds after which such a health check is given up.
pub const CHECK_TIMEOUT_SECS: u32 = 5;

/// Failed health checks after which a backend is taken out.
pub const CHECK_ATTEMPTS: u32 = 3;

/// The protocol that a config speaks.
#[derive(Clone, Copy, Debug, PartialEq, Eq, Structural)]
pub enum Protocol {
    Http,
    Https,
    Tcp,
}

/// How a config spreads connections over its backends.
#[derive(Clone, Copy, Debug, PartialEq, Eq, Structural)]
pub enum Algorithm {
    RoundRobin,
    LeastConnections,
    Source,
}

/// Whether a config keeps a client on one backend, and how.
#[derive(Clone, Copy, Debug, PartialEq, Eq, Structural)]
pub enum Stickiness {
    Off,
    Table,
    HttpCookie,
}

/// How a config checks that a backend is alive.
#[derive(Clone, Copy, Debug, PartialEq, Eq, Structural)]
pub enum HealthCheck {
    Off,
    Connection,
    Http,
    HttpBody,
}

/// The cipher suite that a config offers.
#[derive(Clone, Copy, Debug, PartialEq, Eq, Structural)]
pub enum CipherSuite {
    Recommended,
    Legacy,
}

/// One listener of the load balancer.
#[derive(Debug, PartialEq, Eq)]
pub struct TerminatorConfig {
    pub id: String,
    pub port: u16,
    pub protocol: Protocol,
}

/// A config as contracts see it.
pub struct TerminatorConfigView {
    pub id: Seq<char>,
    pub port: u16,
    pub protocol: Protocol,
}

impl View for TerminatorConfig {
    type V = TerminatorConfigView;

    open spec fn view(&self) -> TerminatorConfigView {
        TerminatorConfigView { id: self.id@, port: self.port, protocol: self.protocol }
    }
}

/// The configs of a listing as contracts see them, in listing order.
pub open spec fn configs_view(configs: Seq<TerminatorConfig>) -> Seq<TerminatorConfigView> {
    configs.map_values(|config: TerminatorConfig| config@)
}

/// A status in the range that HTTP keeps for success.
pub open spec fn is_success(status: u16) -> bool {
    200 <= status < 300
}

/// Tells whether `status` is an HTTP success status.
pub fn status_is_success(status: u16) -> (b: bool)
    ensures
        b == is_success(status),
{
    200 <= status && status < 300
}

/// What the call that lists the configs came to.
pub enum ListingReply {
    /// No answer that could be read: the text of the failure.
    Failed(String),
    /// The answer: its status, its body, and the configs that the body
    /// lists, in its order. The configs count only under a success status.
    Answered { status: u16, body: String, configs: Vec<TerminatorConfig> },
}

/// A listing reply as contracts see it.
pub enum ListingReplyView {
    Failed(Seq<char>),
    Answered { status: u16, body: Seq<char>, configs: Seq<TerminatorConfigView> },
}

impl View for ListingReply {
    type V = ListingReplyView;

    open spec fn view(&self) -> ListingReplyView {
        match self {
            ListingReply::Failed(text) => ListingReplyView::Failed(text@),
            ListingReply::Answered { status, body, configs } => ListingReplyView::Answered {
                status: *status,
                body: body@,
                configs: configs_view(configs@),
            },
        }
    }
}

/// Why the terminator could not be looked for.
#[derive(Debug, PartialEq, Eq)]
pub enum ResolveError {
    /// The listing call failed: its text.
    Unreachable(String),
    /// The listing call was answered with another status than success.
    Rejected { status: u16, body: String },
}

/// A resolve error as contracts see it.
pub enum ResolveErrorView {
    Unreachable(Seq<char>),
    Rejected { status: u16, body: Seq<char> },
}

impl View for ResolveError {
    type V = ResolveErrorView;

    open spec fn view(&self) -> ResolveErrorView {
        match self {
            ResolveError::Unreachable(text) => ResolveErrorView::Unreachable(text@),
            ResolveError::Rejected { status, body } => ResolveErrorView::Rejected {
                status: *status,
                body: body@,
            },
        }
    }
}

impl ResolveErrorView {
    /// What the error says to the caller.
    pub open spec fn text(self) -> Seq<char> {
        match self {
            ResolveErrorView::Unreachable(text) => text,
            ResolveErrorView::Rejected { body, .. } => "Failed to list configs: "@ + body,
        }
    }
}

impl ResolveError {
    /// What the error says to the caller.
    pub fn message(&self) -> (message: String)
        ensures
            message@ == self@.text(),
    {
        match self {
            ResolveError::Unreachable(text) => text.clone(),
            ResolveError::Rejected { body, .. } => String::from_str(
                "Failed to list configs: ",
            ).concat(body.as_str()),
        }
    }
}

/// The place in `configs` of the terminator: the first config bound to the
/// HTTPS port. Later configs on that port are passed over.
pub open spec fn terminator_index(configs: Seq<TerminatorConfigView>) -> Option<int> {
    first_index(configs, |config: TerminatorConfigView| config.port == HTTPS_PORT)
}

/// The terminator among `configs`, if there is one.
pub open spec fn terminator_of(configs: Seq<TerminatorConfigView>) -> Option<TerminatorConfigView> {
    match terminator_index(configs) {
        Some(i) => Some(configs[i]),
        None => None,
    }
}

/// What a listing comes to: the terminator or none under a success status,
/// an error under any other status and where the call failed.
pub open spec fn resolved(reply: ListingReplyView) -> Result<
    Option<TerminatorConfigView>,
    ResolveErrorView,
> {
    match reply {
        ListingReplyView::Failed(text) => Err(ResolveErrorView::Unreachable(text)),
        ListingReplyView::Answered { status, body, configs } => if is_success(status) {
            Ok(terminator_of(configs))
        } else {
            Err(ResolveErrorView::Rejected { status, body })
        },
    }
}

/// The terminator is the first config on the HTTPS port, in listing order,
/// and there is none exactly where no config is bound to that port.
pub proof fn lemma_terminator_is_first_on_port(configs: Seq<TerminatorConfigView>)
    ensures
        terminator_of(configs) is None <==> forall|j: int|
            0 <= j < configs.len() ==> (#[trigger] configs[j]).port != HTTPS_PORT,
        terminator_of(configs) matches Some(config) ==> {
            &&& config.port == HTTPS_PORT
            &&& exists|i: int|
                {
                    &&& 0 <= i < configs.len()
                    &&& configs[i] == config
                    &&& forall|j: int| 0 <= j < i ==> (#[trigger] configs[j]).port != HTTPS_PORT
                }
        },
{
    let wanted = |config: TerminatorConfigView| config.port == HTTPS_PORT;
    lemma_first_index(configs, wanted);
    if terminator_index(configs) is None {
        assert forall|j: int| 0 <= j < configs.len() implies (#[trigger] configs[j]).port
            != HTTPS_PORT by {
            assert(!wanted(configs[j]));
        }
    } else {
        let i = terminator_index(configs)->0;
        assert forall|j: int| 0 <= j < i implies (#[trigger] configs[j]).port != HTTPS_PORT by {
            assert(!wanted(configs[j]));
        }
    }
}

/// A listing answered with a success status never comes to an error: without
/// a config on the HTTPS port it comes to none.
pub proof fn lemma_listing_without_terminator(
    status: u16,
    body: Seq<char>,
    configs: Seq<TerminatorConfigView>,
)
    requires
        is_success(status),
    ensures
        resolved(ListingReplyView::Answered { status, body, configs }) is Ok,
        (forall|j: int| 0 <= j < configs.len() ==> (#[trigger] configs[j]).port != HTTPS_PORT)
            ==> resolved(ListingReplyView::Answered { status, body, configs }) == Ok::<
            Option<TerminatorConfigView>,
            ResolveErrorView,
        >(None),
{
    lemma_terminator_is_first_on_port(configs);
}

/// Finds the place of the terminator in a listing.
pub fn find_terminator(configs: &Vec<TerminatorConfig>) -> (r: Option<usize>)
    ensures
        match r {
            Some(i) => terminator_index(configs_view(configs@)) == Some(i as int),
            None => terminator_index(configs_view(configs@)) is None,
        },
{
    let ghost listed = configs_view(configs@);
    let ghost wanted = |config: TerminatorConfigView| config.port == HTTPS_PORT;
    proof {
        lemma_first_index(listed, wanted);
    }
    let mut i: usize = 0;
    while i < configs.len()
        invariant
            i <= configs.len(),
            listed == configs_view(configs@),
            wanted == (|config: TerminatorConfigView| config.port == HTTPS_PORT),
            forall|j: int| 0 <= j < i ==> !wanted(#[trigger] listed[j]),
        decreases configs.len() - i,
    {
        if configs[i].port == HTTPS_PORT {
            proof {
                lemma_first_index_is(listed, wanted, i as int);
            }
            return Some(i);
        }
        i = i + 1;
    }
    None
}

/// Reads the answer of the listing call: the terminator to update, none
/// where one is to be created, or why neither is known.
pub fn resolve(reply: ListingReply) -> (r: Result<Option<TerminatorConfig>, ResolveError>)
    ensures
        match r {
            Ok(Some(config)) => resolved(reply@) == Ok::<_, ResolveErrorView>(Some(config@)),
            Ok(None) => resolved(reply@) == Ok::<Option<TerminatorConfigView>, ResolveErrorView>(
                None,
            ),
            Err(error) => resolved(reply@) == Err::<Option<TerminatorConfigView>, _>(error@),
        },
{
    match reply {
        ListingReply::Failed(text) => Err(ResolveError::Unreachable(text)),
        ListingReply::Answered { status, body, configs } => {
            if !status_is_success(status) {
                return Err(ResolveError::Rejected { status, body });
            }
            let mut configs = configs;
            match find_terminator(&configs) {
                Some(i) => Ok(Some(configs.remove(i))),
                None => Ok(None),
            }
        },
    }
}

/// The body of the call that creates a terminator. It holds the private
/// key, so it cannot be printed.
#[derive(PartialEq, Eq)]
pub struct NewTerminator {
    pub port: u16,
    pub protocol: Protocol,
    pub algorithm: Algorithm,
    pub stickiness: Stickiness,
    pub check: HealthCheck,
    pub check_path: String,
    pub check_interval: u32,
    pub check_timeout: u32,
    pub check_attempts: u32,
    pub cipher_suite: CipherSuite,
    pub ssl_cert: String,
    pub ssl_key: String,
}

/// A creation body as contracts see it.
pub struct NewTerminatorView {
    pub port: u16,
    pub protocol: Protocol,
    pub algorithm: Algorithm,
    pub stickiness: Stickiness,
    pub check: HealthCheck,
    pub check_path: Seq<char>,
    pub check_interval: u32,
    pub check_timeout: u32,
    pub check_attempts: u32,
    pub cipher_suite: CipherSuite,
    pub ssl_cert: Seq<char>,
    pub ssl_key: Seq<char>,
}

impl View for NewTerminator {
    type V = NewTerminatorView;

    open spec fn view(&self) -> NewTerminatorView {
        NewTerminatorView {
            port: self.port,
            protocol: self.protocol,
            algorithm: self.algorithm,
            stickiness: self.stickiness,
            check: self.check,
            check_path: self.check_path@,
            check_interval: self.check_interval,
            check_timeout: self.check_timeout,
            check_attempts: self.check_attempts,
            cipher_suite: self.cipher_suite,
            ssl_cert: self.ssl_cert@,
            ssl_key: self.ssl_key@,
        }
    }
}

/// The one write that installs key material on a load balancer. It holds
/// the private key, so it cannot be printed.
#[derive(PartialEq, Eq)]
pub enum UpsertRequest {
    /// Replace the material of the config `config_id` in place. Its port is
    /// left as it is; its protocol is set to `protocol`.
    Update { config_id: String, protocol: Protocol, ssl_cert: String, ssl_key: String },
    /// Create the terminator.
    Create(NewTerminator),
}

/// An upsert request as contracts see it.
pub enum UpsertRequestView {
    Update { config_id: Seq<char>, protocol: Protocol, ssl_cert: Seq<char>, ssl_key: Seq<char> },
    Create(NewTerminatorView),
}

impl View for UpsertRequest {
    type V = UpsertRequestView;

    open spec fn view(&self) -> UpsertRequestView {
        match self {
            UpsertRequest::Update { config_id, protocol, ssl_cert, ssl_key } => {
                UpsertRequestView::Update {
                    config_id: config_id@,
                    protocol: *protocol,
                    ssl_cert: ssl_cert@,
                    ssl_key: ssl_key@,
                }
            },
            UpsertRequest::Create(body) => UpsertRequestView::Create(body@),
        }
    }
}

/// The terminator that is created where none exists: HTTPS on port 443,
/// round robin, no stickiness, a health check that reads the body of `/`
/// every 30 seconds with 5 seconds to answer and 3 tries, and the
/// recommended ciphers.
pub open spec fn default_terminator(material: CertificateMaterialView) -> NewTerminatorView {
    NewTerminatorView {
        port: HTTPS_PORT,
        protocol: Protocol::Https,
        algorithm: Algorithm::RoundRobin,
        stickiness: Stickiness::Off,
        check: HealthCheck::HttpBody,
        check_path: "/"@,
        check_interval: CHECK_INTERVAL_SECS,
        check_timeout: CHECK_TIMEOUT_SECS,
        check_attempts: CHECK_ATTEMPTS,
        cipher_suite: CipherSuite::Recommended,
        ssl_cert: material.certificate_pem,
        ssl_key: material.private_key_pem,
    }
}

/// The write that installs `material`: an update of the existing
/// terminator, addressed by its identifier, or else a creation.
pub open spec fn planned(
    existing: Option<TerminatorConfigView>,
    material: CertificateMaterialView,
) -> UpsertRequestView {
    match existing {
        Some(config) => UpsertRequestView::Update {
            config_id: config.id,
            protocol: Protocol::Https,
            ssl_cert: material.certificate_pem,
            ssl_key: material.private_key_pem,
        },
        None => UpsertRequestView::Create(default_terminator(material)),
    }
}

/// The terminator found, as contracts see it.
pub open spec fn existing_view(existing: Option<TerminatorConfig>) -> Option<TerminatorConfigView> {
    match existing {
        Some(config) => Some(config@),
        None => None,
    }
}

/// Decides the write that installs `material` on the load balancer.
pub fn plan_upsert(existing: Option<TerminatorConfig>, material: &CertificateMaterial) -> (request:
    UpsertRequest)
    ensures
        request@ == planned(existing_view(existing), material@),
{
    let ssl_cert = material.certificate_pem().clone();
    let ssl_key = material.private_key_pem().clone();
    match existing {
        Some(config) => UpsertRequest::Update {
            config_id: config.id,
            protocol: Protocol::Https,
            ssl_cert,
            ssl_key,
        },
        None => UpsertRequest::Create(
            NewTerminator {
                port: HTTPS_PORT,
                protocol: Protocol::Https,
                algorithm: Algorithm::RoundRobin,
                stickiness: Stickiness::Off,
                check: HealthCheck::HttpBody,
                check_path: String::from_str("/"),
                check_interval: CHECK_INTERVAL_SECS,
                check_timeout: CHECK_TIMEOUT_SECS,
                check_attempts: CHECK_ATTEMPTS,
                cipher_suite: CipherSuite::Recommended,
                ssl_cert,
                ssl_key,
            },
        ),
    }
}

/// What the call that creates or updates the terminator came to.
pub enum WriteReply {
    /// No answer that could be read: the text of the failure.
    Failed(String),
    /// The answer: its status and its body.
    Answered { status: u16, body: String },
}

/// A write reply as contracts see it.
pub enum WriteReplyView {
    Failed(Seq<char>),
    Answered { status: u16, body: Seq<char> },
}

impl View for WriteReply {
    type V = WriteReplyView;

    open spec fn view(&self) -> WriteReplyView {
        match self {
            WriteReply::Failed(text) => WriteReplyView::Failed(text@),
            WriteReply::Answered { status, body } => WriteReplyView::Answered {
                status: *status,
                body: body@,
            },
        }
    }
}

/// Why the material was not installed.
#[derive(Debug, PartialEq, Eq)]
pub enum UpsertError {
    /// The call failed: its text.
    Unreachable(String),
    /// The call was answered with another status than success: the status
    /// and the body of the answer.
    Rejected { status: u16, body: String },
}

/// An upsert error as contracts see it.
pub enum UpsertErrorView {
    Unreachable(Seq<char>),
    Rejected { status: u16, body: Seq<char> },
}

impl View for UpsertError {
    type V = UpsertErrorView;

    open spec fn view(&self) -> UpsertErrorView {
        match self {
            UpsertError::Unreachable(text) => UpsertErrorView::Unreachable(text@),
            UpsertError::Rejected { status, body } => UpsertErrorView::Rejected {
                status: *status,
                body: body@,
            },
        }
    }
}

impl UpsertErrorView {
    /// What the error says to the caller.
    pub open spec fn text(self) -> Seq<char> {
        match self {
            UpsertErrorView::Unreachable(text) => text,
            UpsertErrorView::Rejected { body, .. } => "Failed to update config: "@ + body,
        }
    }
}

impl UpsertError {
    /// What the error says to the caller.
    pub fn message(&self) -> (message: String)
        ensures
            message@ == self@.text(),
    {
        match self {
            UpsertError::Unreachable(text) => text.clone(),
            UpsertError::Rejected { body, .. } => String::from_str(
                "Failed to update config: ",
            ).concat(body.as_str()),
        }
    }
}

/// What a write comes to: done under a success status, an error that
/// carries the body under any other status, and the failure's text where the
/// call failed.
pub open spec fn settled(reply: WriteReplyView) -> Result<(), UpsertErrorView> {
    match reply {
        WriteReplyView::Failed(text) => Err(UpsertErrorView::Unreachable(text)),
        WriteReplyView::Answered { status, body } => if is_success(status) {
            Ok(())
        } else {
            Err(UpsertErrorView::Rejected { status, body })
        },
    }
}

/// Reads the answer of the call that creates or updates the terminator.
pub fn settle(reply: WriteReply) -> (r: Result<(), UpsertError>)
    ensures
        match r {
            Ok(_) => settled(reply@) == Ok::<(), UpsertErrorView>(()),
            Err(error) => settled(reply@) == Err::<(), _>(error@),
        },
{
    match reply {
        WriteReply::Failed(text) => Err(UpsertError::Unreachable(text)),
        WriteReply::Answered { status, body } => {
            if status_is_success(status) {
                Ok(())
            } else {
                Err(UpsertError::Rejected { status, body })
            }
        },
    }
}

} // verus!
