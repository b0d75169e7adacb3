//! One reconciliation cycle, from loading the configuration to committing
//! the new address.
//!
//! A cycle is a value. It names the next thing for the caller to do
//! (`Cycle::action`) and takes in what came of it (`Cycle::handle`):
//!
//! 1. load the configuration; without one the cycle ends at once;
//! 2. probe the host's address; without one the cycle ends at once;
//! 3. on the scheduled path, end at once if the address is the one the
//!    configuration already holds;
//! 4. for every selected label, in order: list the AAAA records of its full
//!    name, then leave the first of them alone if it already holds the
//!    address, update it if not, or create a record if there is none;
//! 5. read the stored address again and write the audit record;
//! 6. if at least one domain succeeded, store the new address.

use crate::config::database::{AppConfig, AppConfigView};
use crate::services::cloudflare::{
    full_domain, records_view, spec_full_domain, CloudflareClient, CloudflareConfig,
    CloudflareConfigView,
};
use crate::services::exchange::{
    spec_bare, spec_message, Fault, HttpReply, HttpReplyView, HttpRequest, HttpRequestView,
    ProviderError, ProviderErrorView,
};
use crate::services::operation::{
    result_view, Action, ActionView, Completion, CompletionView, Operation, OperationView,
    Progress, ProgressView,
};
use crate::services::retry::{Event, EventView};
use crate::text::{copy_opt, join2, join4, opt_text};
use vstd::prelude::*;
use vstd::string::*;

verus! {

/// What set a cycle off.
#[derive(Debug, Clone, Copy, PartialEq, Eq, Structural)]
pub enum Trigger {
    /// The timer. The cycle is skipped when the address has not changed.
    Scheduled,
    /// A request to run now. The records are looked at in any case.
    Manual,
}

/// How a cycle ended.
#[derive(Debug, Clone, Copy, PartialEq, Eq, Structural)]
pub enum Verdict {
    /// There is no configuration; nothing was done.
    NoConfiguration,
    /// The host's address could not be determined; nothing was done.
    ProbeFailed,
    /// The address is the one already stored; nothing was done.
    Unchanged,
    /// At least one domain points at the new address, which is now stored.
    Updated,
    /// No domain could be brought to point at the new address.
    Failed,
}

impl Verdict {
    /// Whether at least one domain succeeded.
    pub open spec fn spec_succeeded(self) -> bool {
        self == Verdict::Updated
    }

    /// Whether at least one domain succeeded.
    pub fn succeeded(&self) -> (r: bool)
        ensures
            r == self.spec_succeeded(),
    {
        match self {
            Verdict::Updated => true,
            _ => false,
        }
    }

    /// Whether the cycle counts as a failure for the scheduler: it went
    /// through the selected domains and none of them succeeded.
    pub open spec fn spec_is_failure(self) -> bool {
        self == Verdict::Failed
    }

    /// Whether the cycle counts as a failure for the scheduler.
    pub fn is_failure(&self) -> (r: bool)
        ensures
            r == self.spec_is_failure(),
    {
        match self {
            Verdict::Failed => true,
            _ => false,
        }
    }
}

/// What the operation under way does for the current domain.
#[derive(Debug, Clone, Copy, PartialEq, Eq, Structural)]
pub enum DomainStep {
    /// Listing its AAAA records.
    Looking,
    /// Updating its first AAAA record.
    Updating,
    /// Creating its AAAA record.
    Creating,
}

/// The count of a cycle so far.
#[derive(Debug)]
struct Tally {
    total: usize,
    success: usize,
    error: Option<String>,
}

/// The count of a cycle so far.
pub struct TallyView {
    /// Domains dealt with.
    pub total: nat,
    /// Domains that point at the new address.
    pub success: nat,
    /// What went wrong for the last domain that failed.
    pub error: Option<Seq<char>>,
}

impl TallyView {
    pub open spec fn wf(self) -> bool {
        self.success <= self.total
    }

    /// Nothing counted yet.
    pub open spec fn empty() -> TallyView {
        TallyView { total: 0, success: 0, error: None }
    }

    /// One more domain, which succeeded.
    pub open spec fn succeed(self) -> TallyView {
        TallyView { total: self.total + 1, success: self.success + 1, error: self.error }
    }

    /// One more domain, which failed. Its message replaces an earlier one.
    pub open spec fn fail(self, message: Seq<char>) -> TallyView {
        TallyView { total: self.total + 1, success: self.success, error: Some(message) }
    }
}

impl View for Tally {
    type V = TallyView;

    closed spec fn view(&self) -> TallyView {
        TallyView {
            total: self.total as nat,
            success: self.success as nat,
            error: opt_text(self.error),
        }
    }
}

impl Tally {
    #[verifier::type_invariant]
    spec fn inv(self) -> bool {
        self.success <= self.total
    }

    fn empty() -> (tally: Tally)
        ensures
            tally@ == TallyView::empty(),
    {
        Tally { total: 0, success: 0, error: None }
    }

    fn succeed(self) -> (tally: Tally)
        requires
            self@.total < usize::MAX,
        ensures
            tally@ == self@.succeed(),
    {
        proof {
            use_type_invariant(&self);
        }
        Tally { total: self.total + 1, success: self.success + 1, error: self.error }
    }

    fn fail(self, message: String) -> (tally: Tally)
        requires
            self@.total < usize::MAX,
        ensures
            tally@ == self@.fail(message@),
    {
        proof {
            use_type_invariant(&self);
        }
        Tally { total: self.total + 1, success: self.success, error: Some(message) }
    }

    fn conclude(self, previous_ip: Option<String>, new_ip: String) -> (outcome:
        ReconciliationOutcome)
        ensures
            outcome@ == spec_outcome(opt_text(previous_ip), new_ip@, self@),
    {
        proof {
            use_type_invariant(&self);
        }
        ReconciliationOutcome {
            previous_ip,
            new_ip,
            total_count: self.total,
            success_count: self.success,
            error_message: self.error,
        }
    }
}

/// The result of one cycle, as it goes into the audit trail.
#[derive(Debug, PartialEq, Eq)]
pub struct ReconciliationOutcome {
    previous_ip: Option<String>,
    new_ip: String,
    total_count: usize,
    success_count: usize,
    error_message: Option<String>,
}

/// The model of a `ReconciliationOutcome`.
pub struct ReconciliationOutcomeView {
    /// The address stored when the cycle came to write its record.
    pub previous_ip: Option<Seq<char>>,
    /// The address the cycle probed.
    pub new_ip: Seq<char>,
    /// Domains the cycle dealt with.
    pub total_count: nat,
    /// Domains that point at the new address.
    pub success_count: nat,
    /// What went wrong for the last domain that failed, if any did.
    pub error_message: Option<Seq<char>>,
}

impl ReconciliationOutcomeView {
    pub open spec fn wf(self) -> bool {
        self.success_count <= self.total_count
    }
}

/// The outcome that a tally amounts to.
pub open spec fn spec_outcome(
    previous_ip: Option<Seq<char>>,
    new_ip: Seq<char>,
    tally: TallyView,
) -> ReconciliationOutcomeView {
    ReconciliationOutcomeView {
        previous_ip,
        new_ip,
        total_count: tally.total,
        success_count: tally.success,
        error_message: tally.error,
    }
}

impl View for ReconciliationOutcome {
    type V = ReconciliationOutcomeView;

    closed spec fn view(&self) -> ReconciliationOutcomeView {
        ReconciliationOutcomeView {
            previous_ip: opt_text(self.previous_ip),
            new_ip: self.new_ip@,
            total_count: self.total_count as nat,
            success_count: self.success_count as nat,
            error_message: opt_text(self.error_message),
        }
    }
}

impl ReconciliationOutcome {
    #[verifier::type_invariant]
    spec fn inv(self) -> bool {
        self.success_count <= self.total_count
    }

    /// The address stored when the cycle came to write its record.
    pub fn previous_ip(&self) -> (ip: &Option<String>)
        ensures
            opt_text(*ip) == self@.previous_ip,
    {
        &self.previous_ip
    }

    /// The address the cycle probed.
    pub fn new_ip(&self) -> (ip: &str)
        ensures
            ip@ == self@.new_ip,
    {
        self.new_ip.as_str()
    }

    /// Domains the cycle dealt with.
    pub fn total_count(&self) -> (n: usize)
        ensures
            n == self@.total_count,
    {
        self.total_count
    }

    /// Domains that point at the new address; never more than the total.
    pub fn success_count(&self) -> (n: usize)
        ensures
            n == self@.success_count,
            n <= self@.total_count,
    {
        proof {
            use_type_invariant(self);
        }
        self.success_count
    }

    /// What went wrong for the last domain that failed, if any did.
    pub fn error_message(&self) -> (message: &Option<String>)
        ensures
            opt_text(*message) == self@.error_message,
    {
        &self.error_message
    }

    fn duplicate(&self) -> (copy: ReconciliationOutcome)
        ensures
            copy@ == self@,
    {
        proof {
            use_type_invariant(self);
        }
        ReconciliationOutcome {
            previous_ip: copy_opt(&self.previous_ip),
            new_ip: self.new_ip.clone(),
            total_count: self.total_count,
            success_count: self.success_count,
            error_message: copy_opt(&self.error_message),
        }
    }
}

/// What the caller is to do next for a cycle.
#[derive(Debug, PartialEq, Eq)]
pub enum CycleAction {
    /// Load the configuration and report it, or that there is none.
    LoadConfiguration,
    /// Probe the host's IPv6 address and report it, or that there is none.
    Probe,
    /// Send this request to the provider and report the reply.
    Send(HttpRequest),
    /// Wait this many seconds and report that the wait is over.
    Wait(u64),
    /// Read the stored address and report it.
    ReadLastIp,
    /// Append this outcome to the audit trail and report that it was tried.
    WriteAudit(ReconciliationOutcome),
    /// Store this address as the last one observed and report that it was
    /// tried.
    CommitLastIp(String),
    /// Nothing more: the cycle is over.
    Finish(Verdict),
}

/// The model of a `CycleAction`.
pub enum CycleActionView {
    LoadConfiguration,
    Probe,
    Send(HttpRequestView),
    Wait(u64),
    ReadLastIp,
    WriteAudit(ReconciliationOutcomeView),
    CommitLastIp(Seq<char>),
    Finish(Verdict),
}

impl View for CycleAction {
    type V = CycleActionView;

    open spec fn view(&self) -> CycleActionView {
        match self {
            CycleAction::LoadConfiguration => CycleActionView::LoadConfiguration,
            CycleAction::Probe => CycleActionView::Probe,
            CycleAction::Send(request) => CycleActionView::Send(request@),
            CycleAction::Wait(seconds) => CycleActionView::Wait(*seconds),
            CycleAction::ReadLastIp => CycleActionView::ReadLastIp,
            CycleAction::WriteAudit(outcome) => CycleActionView::WriteAudit(outcome@),
            CycleAction::CommitLastIp(ip) => CycleActionView::CommitLastIp(ip@),
            CycleAction::Finish(verdict) => CycleActionView::Finish(*verdict),
        }
    }
}

/// What the caller reports back to a cycle.
#[derive(Debug)]
pub enum CycleEvent {
    /// The stored configuration, or `None` if there is none.
    Configuration(Option<AppConfig>),
    /// The host's IPv6 address, or `None` if the probe found none.
    Probed(Option<String>),
    /// The provider's reply to the request last asked for.
    Reply(HttpReply),
    /// The wait last asked for is over.
    Waited,
    /// The stored address, or `None` if none is stored.
    LastIp(Option<String>),
    /// The audit record was written, or writing it failed; either way the
    /// cycle goes on.
    AuditWritten,
    /// The new address was stored, or storing it failed; either way the
    /// cycle goes on.
    LastIpCommitted,
}

/// The model of a `CycleEvent`.
pub enum CycleEventView {
    Configuration(Option<AppConfigView>),
    Probed(Option<Seq<char>>),
    Reply(HttpReplyView),
    Waited,
    LastIp(Option<Seq<char>>),
    AuditWritten,
    LastIpCommitted,
}

impl View for CycleEvent {
    type V = CycleEventView;

    open spec fn view(&self) -> CycleEventView {
        match self {
            CycleEvent::Configuration(config) => CycleEventView::Configuration(
                match config {
                    Some(c) => Some(c@),
                    None => None,
                },
            ),
            CycleEvent::Probed(ip) => CycleEventView::Probed(opt_text(*ip)),
            CycleEvent::Reply(reply) => CycleEventView::Reply(reply@),
            CycleEvent::Waited => CycleEventView::Waited,
            CycleEvent::LastIp(ip) => CycleEventView::LastIp(opt_text(*ip)),
            CycleEvent::AuditWritten => CycleEventView::AuditWritten,
            CycleEvent::LastIpCommitted => CycleEventView::LastIpCommitted,
        }
    }
}

/// Where a cycle stands.
pub enum PhaseView {
    /// Waiting for the configuration.
    Loading,
    /// Waiting for the probe.
    Probing { config: AppConfigView },
    /// Dealing with the domain at `position` of the selected labels.
    Reconciling {
        config: AppConfigView,
        new_ip: Seq<char>,
        position: nat,
        tally: TallyView,
        step: DomainStep,
        operation: OperationView,
    },
    /// All domains dealt with; waiting for the stored address.
    ReadingLastIp { new_ip: Seq<char>, tally: TallyView },
    /// Waiting for the audit record to be written.
    Auditing { outcome: ReconciliationOutcomeView },
    /// Waiting for the new address to be stored.
    Committing { new_ip: Seq<char> },
    /// Over.
    Finished { verdict: Verdict },
}

/// The model of a `Cycle`.
pub struct CycleView {
    pub trigger: Trigger,
    pub phase: PhaseView,
}

/// The provider session that a configuration describes.
pub open spec fn spec_session(config: AppConfigView) -> CloudflareConfigView {
    CloudflareConfigView {
        api_key: config.cloudflare_api_key,
        zone_id: config.cloudflare_zone_id,
        root_domain: config.root_domain,
    }
}

/// The full name of the domain at `position` of the selected labels.
pub open spec fn spec_domain(config: AppConfigView, position: nat) -> Seq<char> {
    spec_full_domain(config.selected_subdomains[position as int], config.root_domain)
}

/// The error summary for a domain whose records could not be listed.
pub open spec fn spec_lookup_failure(domain: Seq<char>, error: ProviderErrorView) -> Seq<char> {
    "获取域名记录失败 "@ + domain + ": "@ + spec_message(error)
}

/// The error summary for a domain whose record could not be updated.
pub open spec fn spec_update_failure(domain: Seq<char>) -> Seq<char> {
    "更新域名失败: "@ + domain
}

/// The error summary for a domain whose record could not be created.
pub open spec fn spec_create_failure(domain: Seq<char>) -> Seq<char> {
    "创建域名失败: "@ + domain
}

/// The phase in which the domain at `position` is taken up: listing its
/// records, or, past the last domain, reading the stored address.
pub open spec fn spec_enter(
    config: AppConfigView,
    new_ip: Seq<char>,
    position: nat,
    tally: TallyView,
) -> PhaseView {
    if position < config.selected_subdomains.len() {
        PhaseView::Reconciling {
            config,
            new_ip,
            position,
            tally,
            step: DomainStep::Looking,
            operation: OperationView::listing(
                spec_session(config),
                Some(spec_domain(config, position)),
            ),
        }
    } else {
        PhaseView::ReadingLastIp { new_ip, tally }
    }
}

/// The phase after the probe. Without an address the cycle is over. On the
/// scheduled path it is over, too, if the address is the stored one.
pub open spec fn spec_after_probe(
    trigger: Trigger,
    config: AppConfigView,
    probed: Option<Seq<char>>,
) -> PhaseView {
    match probed {
        None => PhaseView::Finished { verdict: Verdict::ProbeFailed },
        Some(ip) => if trigger == Trigger::Scheduled && config.last_ip == Some(ip) {
            PhaseView::Finished { verdict: Verdict::Unchanged }
        } else {
            spec_enter(config, ip, 0, TallyView::empty())
        },
    }
}

/// The phase after the operation for the domain at `position` has finished.
///
/// After the listing: the first record decides. If it holds the new address
/// already, the domain has succeeded and no request is made for it. If it
/// holds another, it is updated. With no record, one is created. A listing
/// that failed fails the domain. After a write: the domain has succeeded if
/// the provider confirmed, and has failed otherwise. A domain that is done
/// makes room for the next.
pub open spec fn spec_settle(
    config: AppConfigView,
    new_ip: Seq<char>,
    position: nat,
    tally: TallyView,
    step: DomainStep,
    result: Result<CompletionView, ProviderErrorView>,
) -> PhaseView {
    let domain = spec_domain(config, position);
    let next = position + 1;
    match step {
        DomainStep::Looking => match result {
            Ok(CompletionView::Records(found)) => if found.len() == 0 {
                PhaseView::Reconciling {
                    config,
                    new_ip,
                    position,
                    tally,
                    step: DomainStep::Creating,
                    operation: OperationView::create(
                        spec_session(config),
                        config.selected_subdomains[position as int],
                        new_ip,
                    ),
                }
            } else if found[0].content == new_ip {
                spec_enter(config, new_ip, next as nat, tally.succeed())
            } else {
                PhaseView::Reconciling {
                    config,
                    new_ip,
                    position,
                    tally,
                    step: DomainStep::Updating,
                    operation: OperationView::update(spec_session(config), found[0].id, new_ip),
                }
            },
            Ok(CompletionView::Confirmed) => spec_enter(
                config,
                new_ip,
                next as nat,
                tally.fail(spec_lookup_failure(domain, spec_bare(Fault::MalformedBody))),
            ),
            Err(error) => spec_enter(
                config,
                new_ip,
                next as nat,
                tally.fail(spec_lookup_failure(domain, error)),
            ),
        },
        DomainStep::Updating => match result {
            Ok(CompletionView::Confirmed) => spec_enter(
                config,
                new_ip,
                next as nat,
                tally.succeed(),
            ),
            _ => spec_enter(config, new_ip, next as nat, tally.fail(spec_update_failure(domain))),
        },
        DomainStep::Creating => match result {
            Ok(CompletionView::Confirmed) => spec_enter(
                config,
                new_ip,
                next as nat,
                tally.succeed(),
            ),
            _ => spec_enter(config, new_ip, next as nat, tally.fail(spec_create_failure(domain))),
        },
    }
}

/// The phase after the operation for the domain at `position` took in an
/// event.
pub open spec fn spec_reconcile(
    config: AppConfigView,
    new_ip: Seq<char>,
    position: nat,
    tally: TallyView,
    step: DomainStep,
    operation: OperationView,
    event: EventView,
) -> PhaseView {
    match operation.handle(event) {
        ProgressView::Pending(operation) => PhaseView::Reconciling {
            config,
            new_ip,
            position,
            tally,
            step,
            operation,
        },
        ProgressView::Finished(result) => spec_settle(config, new_ip, position, tally, step, result),
    }
}

impl CycleView {
    /// A cycle about to start.
    pub open spec fn start(trigger: Trigger) -> CycleView {
        CycleView { trigger, phase: PhaseView::Loading }
    }

    /// The counts never run ahead of the domains, and never more domains
    /// have succeeded than were dealt with.
    pub open spec fn wf(self) -> bool {
        match self.phase {
            PhaseView::Reconciling { config, position, tally, .. } => {
                &&& position < config.selected_subdomains.len()
                &&& tally.total == position
                &&& tally.wf()
            },
            PhaseView::ReadingLastIp { tally, .. } => tally.wf(),
            PhaseView::Auditing { outcome } => outcome.wf(),
            _ => true,
        }
    }

    /// What the caller is to do next.
    pub open spec fn action(self) -> CycleActionView {
        match self.phase {
            PhaseView::Loading => CycleActionView::LoadConfiguration,
            PhaseView::Probing { .. } => CycleActionView::Probe,
            PhaseView::Reconciling { operation, .. } => match operation.action() {
                ActionView::Send(request) => CycleActionView::Send(request),
                ActionView::Wait(seconds) => CycleActionView::Wait(seconds),
            },
            PhaseView::ReadingLastIp { .. } => CycleActionView::ReadLastIp,
            PhaseView::Auditing { outcome } => CycleActionView::WriteAudit(outcome),
            PhaseView::Committing { new_ip } => CycleActionView::CommitLastIp(new_ip),
            PhaseView::Finished { verdict } => CycleActionView::Finish(verdict),
        }
    }

    /// The cycle after an event. An event that does not answer the action
    /// the cycle asked for changes nothing.
    pub open spec fn handle(self, event: CycleEventView) -> CycleView {
        let phase = match (self.phase, event) {
            (PhaseView::Loading, CycleEventView::Configuration(None)) => PhaseView::Finished {
                verdict: Verdict::NoConfiguration,
            },
            (PhaseView::Loading, CycleEventView::Configuration(Some(config))) => PhaseView::Probing {
                config,
            },
            (PhaseView::Probing { config }, CycleEventView::Probed(probed)) => spec_after_probe(
                self.trigger,
                config,
                probed,
            ),
            (
                PhaseView::Reconciling { config, new_ip, position, tally, step, operation },
                CycleEventView::Reply(reply),
            ) => spec_reconcile(
                config,
                new_ip,
                position,
                tally,
                step,
                operation,
                EventView::Reply(reply),
            ),
            (
                PhaseView::Reconciling { config, new_ip, position, tally, step, operation },
                CycleEventView::Waited,
            ) => spec_reconcile(config, new_ip, position, tally, step, operation, EventView::Waited),
            (
                PhaseView::ReadingLastIp { new_ip, tally },
                CycleEventView::LastIp(previous),
            ) => PhaseView::Auditing { outcome: spec_outcome(previous, new_ip, tally) },
            (PhaseView::Auditing { outcome }, CycleEventView::AuditWritten) => {
                if outcome.success_count > 0 {
                    PhaseView::Committing { new_ip: outcome.new_ip }
                } else {
                    PhaseView::Finished { verdict: Verdict::Failed }
                }
            },
            (PhaseView::Committing { .. }, CycleEventView::LastIpCommitted) => PhaseView::Finished {
                verdict: Verdict::Updated,
            },
            (phase, _) => phase,
        };
        CycleView { trigger: self.trigger, phase }
    }
}

#[derive(Debug)]
enum Phase {
    Loading,
    Probing { config: AppConfig },
    Reconciling {
        config: AppConfig,
        new_ip: String,
        position: usize,
        tally: Tally,
        step: DomainStep,
        operation: Operation,
    },
    ReadingLastIp { new_ip: String, tally: Tally },
    Auditing { outcome: ReconciliationOutcome },
    Committing { new_ip: String },
    Finished { verdict: Verdict },
}

impl View for Phase {
    type V = PhaseView;

    closed spec fn view(&self) -> PhaseView {
        match self {
            Phase::Loading => PhaseView::Loading,
            Phase::Probing { config } => PhaseView::Probing { config: config@ },
            Phase::Reconciling {
                config,
                new_ip,
                position,
                tally,
                step,
                operation,
            } => PhaseView::Reconciling {
                config: config@,
                new_ip: new_ip@,
                position: *position as nat,
                tally: tally@,
                step: *step,
                operation: operation@,
            },
            Phase::ReadingLastIp { new_ip, tally } => PhaseView::ReadingLastIp {
                new_ip: new_ip@,
                tally: tally@,
            },
            Phase::Auditing { outcome } => PhaseView::Auditing { outcome: outcome@ },
            Phase::Committing { new_ip } => PhaseView::Committing { new_ip: new_ip@ },
            Phase::Finished { verdict } => PhaseView::Finished { verdict: *verdict },
        }
    }
}

/// A reconciliation cycle under way.
#[derive(Debug)]
pub struct Cycle {
    trigger: Trigger,
    phase: Phase,
}

impl View for Cycle {
    type V = CycleView;

    closed spec fn view(&self) -> CycleView {
        CycleView { trigger: self.trigger, phase: self.phase@ }
    }
}

/// The provider session that `config` describes.
pub fn session(config: &AppConfig) -> (client: CloudflareClient)
    ensures
        client@ == spec_session(config@),
{
    CloudflareClient::new(
        CloudflareConfig {
            api_key: config.cloudflare_api_key.clone(),
            zone_id: config.cloudflare_zone_id.clone(),
            root_domain: config.root_domain.clone(),
        },
    )
}

fn label_count(config: &AppConfig) -> (count: usize)
    ensures
        count == config@.selected_subdomains.len(),
{
    config.selected_subdomains.len()
}

fn domain_at(config: &AppConfig, position: usize) -> (name: String)
    requires
        position < config@.selected_subdomains.len(),
    ensures
        name@ == spec_domain(config@, position as nat),
{
    full_domain(config.selected_subdomains[position].as_str(), config.root_domain.as_str())
}

fn enter(config: AppConfig, new_ip: String, position: usize, tally: Tally) -> (phase: Phase)
    requires
        position <= config@.selected_subdomains.len(),
        tally@.total == position,
        tally@.wf(),
    ensures
        phase@ == spec_enter(config@, new_ip@, position as nat, tally@),
        (CycleView { trigger: Trigger::Manual, phase: phase@ }).wf(),
{
    if position < label_count(&config) {
        let domain = domain_at(&config, position);
        let operation = session(&config).get_aaaa_records(domain.as_str());
        Phase::Reconciling { config, new_ip, position, tally, step: DomainStep::Looking, operation }
    } else {
        Phase::ReadingLastIp { new_ip, tally }
    }
}

fn settle(
    config: AppConfig,
    new_ip: String,
    position: usize,
    tally: Tally,
    step: DomainStep,
    result: Result<Completion, ProviderError>,
) -> (phase: Phase)
    requires
        position < config@.selected_subdomains.len(),
        tally@.total == position,
        tally@.wf(),
    ensures
        phase@ == spec_settle(config@, new_ip@, position as nat, tally@, step, result_view(result)),
        (CycleView { trigger: Trigger::Manual, phase: phase@ }).wf(),
{
    let count = label_count(&config);
    match step {
        DomainStep::Looking => match result {
            Ok(Completion::Records(found)) => {
                if found.len() == 0 {
                    let operation = session(&config).create_aaaa_record(
                        config.selected_subdomains[position].as_str(),
                        new_ip.as_str(),
                    );
                    Phase::Reconciling {
                        config,
                        new_ip,
                        position,
                        tally,
                        step: DomainStep::Creating,
                        operation,
                    }
                } else {
                    assert(records_view(found@)[0] == found@[0]@);
                    if found[0].content == new_ip {
                        enter(config, new_ip, position + 1, tally.succeed())
                    } else {
                        let operation = session(&config).update_dns_record(
                            found[0].id.as_str(),
                            new_ip.as_str(),
                        );
                        Phase::Reconciling {
                            config,
                            new_ip,
                            position,
                            tally,
                            step: DomainStep::Updating,
                            operation,
                        }
                    }
                }
            },
            Ok(Completion::Confirmed) => {
                let error = ProviderError::bare(Fault::MalformedBody);
                let message = join4(
                    "获取域名记录失败 ",
                    domain_at(&config, position).as_str(),
                    ": ",
                    error.message().as_str(),
                );
                enter(config, new_ip, position + 1, tally.fail(message))
            },
            Err(error) => {
                let message = join4(
                    "获取域名记录失败 ",
                    domain_at(&config, position).as_str(),
                    ": ",
                    error.message().as_str(),
                );
                enter(config, new_ip, position + 1, tally.fail(message))
            },
        },
        DomainStep::Updating => match result {
            Ok(Completion::Confirmed) => enter(config, new_ip, position + 1, tally.succeed()),
            _ => {
                let message = join2("更新域名失败: ", domain_at(&config, position).as_str());
                enter(config, new_ip, position + 1, tally.fail(message))
            },
        },
        DomainStep::Creating => match result {
            Ok(Completion::Confirmed) => enter(config, new_ip, position + 1, tally.succeed()),
            _ => {
                let message = join2("创建域名失败: ", domain_at(&config, position).as_str());
                enter(config, new_ip, position + 1, tally.fail(message))
            },
        },
    }
}

fn reconcile(
    config: AppConfig,
    new_ip: String,
    position: usize,
    tally: Tally,
    step: DomainStep,
    operation: Operation,
    event: Event,
) -> (phase: Phase)
    requires
        position < config@.selected_subdomains.len(),
        tally@.total == position,
        tally@.wf(),
    ensures
        phase@ == spec_reconcile(
            config@,
            new_ip@,
            position as nat,
            tally@,
            step,
            operation@,
            event@,
        ),
        (CycleView { trigger: Trigger::Manual, phase: phase@ }).wf(),
{
    match operation.handle(event) {
        Progress::Pending(operation) => Phase::Reconciling {
            config,
            new_ip,
            position,
            tally,
            step,
            operation,
        },
        Progress::Finished(result) => settle(config, new_ip, position, tally, step, result),
    }
}

impl Cycle {
    #[verifier::type_invariant]
    spec fn inv(self) -> bool {
        self@.wf()
    }

    /// A cycle about to start.
    pub fn new(trigger: Trigger) -> (cycle: Cycle)
        ensures
            cycle@ == CycleView::start(trigger),
    {
        Cycle { trigger, phase: Phase::Loading }
    }

    /// What set the cycle off.
    pub fn trigger(&self) -> (trigger: Trigger)
        ensures
            trigger == self@.trigger,
    {
        self.trigger
    }

    /// How the cycle ended, once it has.
    pub fn verdict(&self) -> (verdict: Option<Verdict>)
        ensures
            verdict == match self@.phase {
                PhaseView::Finished { verdict } => Some(verdict),
                _ => None,
            },
    {
        match &self.phase {
            Phase::Finished { verdict } => Some(*verdict),
            _ => None,
        }
    }

    /// What the caller is to do next.
    pub fn action(&self) -> (action: CycleAction)
        ensures
            action@ == self@.action(),
    {
        match &self.phase {
            Phase::Loading => CycleAction::LoadConfiguration,
            Phase::Probing { .. } => CycleAction::Probe,
            Phase::Reconciling { operation, .. } => match operation.action() {
                Action::Send(request) => CycleAction::Send(request),
                Action::Wait(seconds) => CycleAction::Wait(seconds),
            },
            Phase::ReadingLastIp { .. } => CycleAction::ReadLastIp,
            Phase::Auditing { outcome } => CycleAction::WriteAudit(outcome.duplicate()),
            Phase::Committing { new_ip } => CycleAction::CommitLastIp(new_ip.clone()),
            Phase::Finished { verdict } => CycleAction::Finish(*verdict),
        }
    }

    /// The cycle after `event`.
    pub fn handle(self, event: CycleEvent) -> (cycle: Cycle)
        ensures
            cycle@ == self@.handle(event@),
            cycle@.wf(),
    {
        proof {
            use_type_invariant(&self);
        }
        let Cycle { trigger, phase } = self;
        let phase = match (phase, event) {
            (Phase::Loading, CycleEvent::Configuration(None)) => Phase::Finished {
                verdict: Verdict::NoConfiguration,
            },
            (Phase::Loading, CycleEvent::Configuration(Some(config))) => Phase::Probing { config },
            (Phase::Probing { config }, CycleEvent::Probed(probed)) => match probed {
                None => Phase::Finished { verdict: Verdict::ProbeFailed },
                Some(ip) => {
                    let unchanged = match &config.last_ip {
                        Some(last) => *last == ip,
                        None => false,
                    };
                    if matches!(trigger, Trigger::Scheduled) && unchanged {
                        Phase::Finished { verdict: Verdict::Unchanged }
                    } else {
                        enter(config, ip, 0, Tally::empty())
                    }
                },
            },
            (
                Phase::Reconciling { config, new_ip, position, tally, step, operation },
                CycleEvent::Reply(reply),
            ) => reconcile(config, new_ip, position, tally, step, operation, Event::Reply(reply)),
            (
                Phase::Reconciling { config, new_ip, position, tally, step, operation },
                CycleEvent::Waited,
            ) => reconcile(config, new_ip, position, tally, step, operation, Event::Waited),
            (Phase::ReadingLastIp { new_ip, tally }, CycleEvent::LastIp(previous)) => {
                Phase::Auditing { outcome: tally.conclude(previous, new_ip) }
            },
            (Phase::Auditing { outcome }, CycleEvent::AuditWritten) => {
                if outcome.success_count() > 0 {
                    Phase::Committing { new_ip: outcome.new_ip }
                } else {
                    Phase::Finished { verdict: Verdict::Failed }
                }
            },
            (Phase::Committing { .. }, CycleEvent::LastIpCommitted) => Phase::Finished {
                verdict: Verdict::Updated,
            },
            (phase, _) => phase,
        };
        Cycle { trigger, phase }
    }
}

/// The cycle after taking in `events`, one after the other.
pub open spec fn spec_run(cycle: CycleView, events: Seq<CycleEventView>) -> CycleView
    decreases events.len(),
{
    if events.len() == 0 {
        cycle
    } else {
        spec_run(cycle, events.drop_last()).handle(events.last())
    }
}

/// What the caller is asked to do in the course of `events`: entry `i` is
/// the action asked for once the first `i` events are taken in.
pub open spec fn spec_actions(cycle: CycleView, events: Seq<CycleEventView>) -> Seq<
    CycleActionView,
>
    decreases events.len(),
{
    if events.len() == 0 {
        seq![cycle.action()]
    } else {
        spec_actions(cycle, events.drop_last()).push(spec_run(cycle, events).action())
    }
}

/// Whether an action reaches the provider, the audit trail or the stored
/// address.
pub open spec fn has_effect(action: CycleActionView) -> bool {
    action is Send || action is WriteAudit || action is CommitLastIp
}

/// Taking in an event keeps the counts in order.
pub proof fn law_handle_keeps_counts_ordered(cycle: CycleView, event: CycleEventView)
    requires
        cycle.wf(),
    ensures
        cycle.handle(event).wf(),
{
}

/// However a cycle runs, the counts stay in order.
pub proof fn law_run_keeps_counts_ordered(trigger: Trigger, events: Seq<CycleEventView>)
    ensures
        spec_run(CycleView::start(trigger), events).wf(),
        spec_actions(CycleView::start(trigger), events).len() == events.len() + 1,
    decreases events.len(),
{
    if events.len() > 0 {
        law_run_keeps_counts_ordered(trigger, events.drop_last());
        law_handle_keeps_counts_ordered(
            spec_run(CycleView::start(trigger), events.drop_last()),
            events.last(),
        );
    }
}

/// In every cycle, whatever is reported to it, an outcome that goes to the
/// audit trail counts no more successes than domains.
pub proof fn law_success_never_exceeds_total(
    trigger: Trigger,
    events: Seq<CycleEventView>,
    i: int,
)
    requires
        0 <= i <= events.len(),
        spec_actions(CycleView::start(trigger), events)[i] is WriteAudit,
    ensures
        spec_actions(CycleView::start(trigger), events)[i]->WriteAudit_0.success_count
            <= spec_actions(CycleView::start(trigger), events)[i]->WriteAudit_0.total_count,
    decreases events.len(),
{
    let start = CycleView::start(trigger);
    law_run_keeps_counts_ordered(trigger, events);
    if events.len() > 0 {
        law_run_keeps_counts_ordered(trigger, events.drop_last());
        if i < events.len() {
            law_success_never_exceeds_total(trigger, events.drop_last(), i);
        }
    }
}

/// A cycle that is over stays over, with the same verdict.
pub proof fn law_finished_is_final(cycle: CycleView, event: CycleEventView)
    requires
        cycle.phase is Finished,
    ensures
        cycle.handle(event) == cycle,
{
}

/// On the scheduled path, a probe that finds the address already stored in
/// the configuration ends the cycle as unchanged. From start to end such a
/// cycle asks for no request to the provider, no audit record and no change
/// of the stored address, whatever else is reported to it.
pub proof fn law_unchanged_address_is_noop(
    config: AppConfigView,
    ip: Seq<char>,
    events: Seq<CycleEventView>,
    i: int,
)
    requires
        config.last_ip == Some(ip),
        events.len() >= 2,
        events[0] == CycleEventView::Configuration(Some(config)),
        events[1] == CycleEventView::Probed(Some(ip)),
        0 <= i <= events.len(),
    ensures
        spec_run(CycleView::start(Trigger::Scheduled), events).phase == (PhaseView::Finished {
            verdict: Verdict::Unchanged,
        }),
        !has_effect(spec_actions(CycleView::start(Trigger::Scheduled), events)[i]),
    decreases events.len(),
{
    let start = CycleView::start(Trigger::Scheduled);
    let shorter = events.drop_last();
    law_run_keeps_counts_ordered(Trigger::Scheduled, events);
    law_run_keeps_counts_ordered(Trigger::Scheduled, shorter);
    if events.len() == 2 {
        let none = shorter.drop_last();
        assert(none.len() == 0);
        assert(spec_run(start, none) == start);
        assert(shorter.last() == events[0]);
        assert(spec_run(start, shorter).phase == PhaseView::Probing { config });
        assert(events.last() == events[1]);
        assert(spec_actions(start, none) =~= seq![CycleActionView::LoadConfiguration]);
        assert(spec_actions(start, shorter) =~= seq![
            CycleActionView::LoadConfiguration,
            CycleActionView::Probe,
        ]);
    } else {
        assert(shorter[0] == events[0]);
        assert(shorter[1] == events[1]);
        law_unchanged_address_is_noop(config, ip, shorter, if i < events.len() {
            i
        } else {
            0
        });
        law_finished_is_final(spec_run(start, shorter), events.last());
    }
}

/// A domain whose first AAAA record already holds the new address counts as
/// a success at once: the cycle moves on to the next domain, or to the
/// audit, and what it asks for next is no write for this domain.
pub proof fn law_current_record_is_left_alone(
    cycle: CycleView,
    reply: HttpReplyView,
    found: Seq<crate::services::cloudflare::DnsRecordView>,
)
    requires
        cycle.wf(),
        cycle.phase matches PhaseView::Reconciling { new_ip, step, operation, .. }
            && step == DomainStep::Looking
            && operation.handle(EventView::Reply(reply)) == ProgressView::Finished(
            Ok(CompletionView::Records(found)),
        ) && found.len() > 0 && found[0].content == new_ip,
    ensures
        cycle.handle(CycleEventView::Reply(reply)).phase == spec_enter(
            cycle.phase->Reconciling_config,
            cycle.phase->Reconciling_new_ip,
            cycle.phase->Reconciling_position + 1,
            cycle.phase->Reconciling_tally.succeed(),
        ),
        match cycle.handle(CycleEventView::Reply(reply)).phase {
            PhaseView::Reconciling { position, tally, step, .. } => {
                &&& position == cycle.phase->Reconciling_position + 1
                &&& step == DomainStep::Looking
                &&& tally.success == cycle.phase->Reconciling_tally.success + 1
            },
            PhaseView::ReadingLastIp { tally, .. } => tally.success
                == cycle.phase->Reconciling_tally.success + 1,
            _ => false,
        },
{
}

/// Once the audit record is out, the cycle asks to store the new address if
/// and only if the outcome counts at least one success; otherwise it ends as
/// failed and the stored address stays as it is.
pub proof fn law_commit_follows_success(cycle: CycleView)
    requires
        cycle.phase is Auditing,
    ensures
        cycle.handle(CycleEventView::AuditWritten).action() == if cycle.phase->outcome.success_count
            > 0 {
            CycleActionView::CommitLastIp(cycle.phase->outcome.new_ip)
        } else {
            CycleActionView::Finish(Verdict::Failed)
        },
{
}

/// Whether `actions` asks, before position `i`, for an audit record of a
/// cycle that probed `ip` and counts at least one success.
pub open spec fn audited_success_before(actions: Seq<CycleActionView>, i: int, ip: Seq<char>) -> bool {
    exists|j: int|
        0 <= j < i && j < actions.len() && (#[trigger] actions[j] matches CycleActionView::WriteAudit(
            outcome,
        ) && outcome.success_count > 0 && outcome.new_ip == ip)
}

/// However a cycle runs, it asks to store an address only after it has asked
/// for the audit record of an outcome with that address and at least one
/// success.
pub proof fn law_commit_only_after_success(
    trigger: Trigger,
    events: Seq<CycleEventView>,
    i: int,
)
    requires
        0 <= i <= events.len(),
        spec_actions(CycleView::start(trigger), events)[i] is CommitLastIp,
    ensures
        audited_success_before(
            spec_actions(CycleView::start(trigger), events),
            i,
            spec_actions(CycleView::start(trigger), events)[i]->CommitLastIp_0,
        ),
    decreases events.len(),
{
    let start = CycleView::start(trigger);
    let actions = spec_actions(start, events);
    law_run_keeps_counts_ordered(trigger, events);
    if events.len() > 0 {
        let shorter = events.drop_last();
        let before = spec_actions(start, shorter);
        law_run_keeps_counts_ordered(trigger, shorter);
        if i < events.len() {
            law_commit_only_after_success(trigger, shorter, i);
            let ip = before[i]->CommitLastIp_0;
            let j = choose|j: int|
                0 <= j < i && j < before.len() && (#[trigger] before[j] matches CycleActionView::WriteAudit(
                    outcome,
                ) && outcome.success_count > 0 && outcome.new_ip == ip);
            assert(actions[j] == before[j]);
        } else {
            // The last state is committing. It got there from the audit, or
            // it was committing already.
            let previous = spec_run(start, shorter);
            let ip = actions[i]->CommitLastIp_0;
            assert(before[i - 1] == previous.action()) by {
                if shorter.len() > 0 {
                } else {
                }
            }
            if previous.phase is Auditing {
                assert(actions[i - 1] == before[i - 1]);
                assert(actions[i - 1] matches CycleActionView::WriteAudit(outcome)
                    && outcome.success_count > 0 && outcome.new_ip == ip);
            } else {
                assert(previous.phase is Committing);
                law_commit_only_after_success(trigger, shorter, i - 1);
                let j = choose|j: int|
                    0 <= j < i - 1 && j < before.len() && (#[trigger] before[j] matches CycleActionView::WriteAudit(
                        outcome,
                    ) && outcome.success_count > 0 && outcome.new_ip == ip);
                assert(actions[j] == before[j]);
            }
        }
    }
}

/// A domain that fails makes room for the next one: whatever goes wrong for
/// it, the cycle takes up the following domain, or the audit after the last,
/// with one more domain counted and the failure as the error summary.
pub proof fn law_failure_does_not_halt_the_cycle(
    config: AppConfigView,
    new_ip: Seq<char>,
    position: nat,
    tally: TallyView,
    step: DomainStep,
    error: ProviderErrorView,
)
    ensures
        spec_settle(config, new_ip, position, tally, step, Err(error)) == spec_enter(
            config,
            new_ip,
            position + 1,
            tally.fail(
                match step {
                    DomainStep::Looking => spec_lookup_failure(spec_domain(config, position), error),
                    DomainStep::Updating => spec_update_failure(spec_domain(config, position)),
                    DomainStep::Creating => spec_create_failure(spec_domain(config, position)),
                },
            ),
        ),
{
}

/// Of several failures only the last is kept as the error summary, and a
/// success leaves the summary as it is.
pub proof fn law_last_error_is_kept(tally: TallyView, first: Seq<char>, second: Seq<char>)
    ensures
        tally.fail(first).fail(second).error == Some(second),
        tally.fail(first).succeed().error == Some(first),
        tally.succeed().error == tally.error,
{
}

/// When a cycle goes on to its audit, every selected domain has been
/// counted: the total is the number of selected labels.
pub proof fn law_every_domain_is_counted(cycle: CycleView, event: CycleEventView)
    requires
        cycle.wf(),
        cycle.phase is Reconciling,
        cycle.handle(event).phase is ReadingLastIp,
    ensures
        cycle.handle(event).phase->ReadingLastIp_tally.total
            == cycle.phase->Reconciling_config.selected_subdomains.len(),
        cycle.handle(event).phase->ReadingLastIp_new_ip == cycle.phase->Reconciling_new_ip,
{
}

/// The audit record is asked for when all domains are dealt with, whether or
/// not any of them succeeded, and it holds the address that the store held
/// at that time.
pub proof fn law_audit_is_unconditional(cycle: CycleView, previous: Option<Seq<char>>)
    requires
        cycle.phase is ReadingLastIp,
    ensures
        cycle.handle(CycleEventView::LastIp(previous)).action() == CycleActionView::WriteAudit(
            spec_outcome(
                previous,
                cycle.phase->ReadingLastIp_new_ip,
                cycle.phase->ReadingLastIp_tally,
            ),
        ),
{
}

} // verus!
