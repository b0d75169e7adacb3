//! The client's operations, each a short series of exchanges.
//!
//! An operation tells the caller what to do next (`action`) and takes in
//! what happened (`handle`), until it is finished:
//!
//! - the connection test is one exchange;
//! - listing reads the zone page by page, and stops at the first page that
//!   is empty or short;
//! - an update first reads the record's name as the provider holds it, then
//!   writes the record under that name;
//! - creating a record is one exchange.

use crate::services::cloudflare::{
    aaaa_records, full_domain, records_view, spec_aaaa_records, spec_full_domain, spec_request,
    CloudflareClient, CloudflareConfigView, DnsRecord, DnsRecordView, PER_PAGE,
};
use crate::services::exchange::{
    outcome_view, spec_bare, spec_interpret, Answer, AnswerView, Exchange, ExchangeView, Fault,
    HttpReplyView, HttpRequest, HttpRequestView, ProviderError, ProviderErrorView,
};
use crate::services::retry::{Call, CallStep, CallStepView, CallView, Event, EventView};
use crate::text::opt_text;
use vstd::prelude::*;
use vstd::string::*;

verus! {

/// What the caller is to do next for an operation.
#[derive(Debug, PartialEq, Eq)]
pub enum Action {
    /// Send this request and report the reply.
    Send(HttpRequest),
    /// Wait this many seconds and report that the wait is over.
    Wait(u64),
}

/// The model of an `Action`.
pub enum ActionView {
    Send(HttpRequestView),
    Wait(u64),
}

impl View for Action {
    type V = ActionView;

    open spec fn view(&self) -> ActionView {
        match self {
            Action::Send(request) => ActionView::Send(request@),
            Action::Wait(seconds) => ActionView::Wait(*seconds),
        }
    }
}

/// What a finished operation hands over.
#[derive(Debug, PartialEq, Eq)]
pub enum Completion {
    /// The provider confirmed: the zone can be read, or the record is
    /// written.
    Confirmed,
    /// The records that were asked for.
    Records(Vec<DnsRecord>),
}

/// The model of a `Completion`.
pub enum CompletionView {
    Confirmed,
    Records(Seq<DnsRecordView>),
}

impl View for Completion {
    type V = CompletionView;

    open spec fn view(&self) -> CompletionView {
        match self {
            Completion::Confirmed => CompletionView::Confirmed,
            Completion::Records(records) => CompletionView::Records(records_view(records@)),
        }
    }
}

/// The view of an operation's result.
pub open spec fn result_view(result: Result<Completion, ProviderError>) -> Result<
    CompletionView,
    ProviderErrorView,
> {
    match result {
        Ok(c) => Ok(c@),
        Err(e) => Err(e@),
    }
}

/// Which operation is under way, with what it has gathered so far.
#[derive(Debug)]
pub enum Stage {
    /// Testing the connection.
    Testing,
    /// Listing the zone: the page being read, the records of the pages
    /// before it, and the name to keep AAAA records of (all records if none).
    Listing { page: u32, collected: Vec<DnsRecord>, only: Option<String> },
    /// Updating a record, first part: reading the name it has.
    Resolving { record_id: String, content: String },
    /// Writing a record: the second part of an update, or a creation.
    Writing,
}

/// The model of a `Stage`.
pub enum StageView {
    Testing,
    Listing { page: u32, collected: Seq<DnsRecordView>, only: Option<Seq<char>> },
    Resolving { record_id: Seq<char>, content: Seq<char> },
    Writing,
}

impl View for Stage {
    type V = StageView;

    open spec fn view(&self) -> StageView {
        match self {
            Stage::Testing => StageView::Testing,
            Stage::Listing { page, collected, only } => StageView::Listing {
                page: *page,
                collected: records_view(collected@),
                only: opt_text(*only),
            },
            Stage::Resolving { record_id, content } => StageView::Resolving {
                record_id: record_id@,
                content: content@,
            },
            Stage::Writing => StageView::Writing,
        }
    }
}

/// An operation under way.
#[derive(Debug)]
pub struct Operation {
    client: CloudflareClient,
    call: Call,
    stage: Stage,
}

/// The model of an `Operation`.
pub struct OperationView {
    pub client: CloudflareConfigView,
    /// The exchange under way.
    pub call: CallView,
    pub stage: StageView,
}

/// Where an operation stands after an event.
#[derive(Debug)]
pub enum Progress {
    /// Still under way.
    Pending(Operation),
    /// Over.
    Finished(Result<Completion, ProviderError>),
}

/// The model of a `Progress`.
pub enum ProgressView {
    Pending(OperationView),
    Finished(Result<CompletionView, ProviderErrorView>),
}

impl View for Progress {
    type V = ProgressView;

    open spec fn view(&self) -> ProgressView {
        match self {
            Progress::Pending(operation) => ProgressView::Pending(operation@),
            Progress::Finished(result) => ProgressView::Finished(result_view(*result)),
        }
    }
}

/// The records a listing hands over: all it gathered, or of those the AAAA
/// records with the one name it was asked for.
pub open spec fn spec_selection(collected: Seq<DnsRecordView>, only: Option<Seq<char>>) -> Seq<
    DnsRecordView,
> {
    match only {
        Some(domain) => spec_aaaa_records(collected, domain),
        None => collected,
    }
}

/// What follows for an operation of session `client` in stage `stage` when
/// its exchange under way ends with `outcome`.
///
/// A failure ends the operation. A page that is empty ends a listing with
/// what was gathered before; a page shorter than `PER_PAGE` ends it with that
/// page included; a full page is followed by the next one. An answer of the
/// wrong kind for the stage counts as a malformed body.
pub open spec fn spec_advance(
    client: CloudflareConfigView,
    stage: StageView,
    outcome: Result<AnswerView, ProviderErrorView>,
) -> ProgressView {
    match outcome {
        Err(error) => ProgressView::Finished(Err(error)),
        Ok(answer) => match (stage, answer) {
            (StageView::Testing, AnswerView::Connected) => ProgressView::Finished(
                Ok(CompletionView::Confirmed),
            ),
            (StageView::Listing { page, collected, only }, AnswerView::Page(records)) => {
                if records.len() == 0 {
                    ProgressView::Finished(
                        Ok(CompletionView::Records(spec_selection(collected, only))),
                    )
                } else if records.len() < PER_PAGE || page == u32::MAX {
                    ProgressView::Finished(
                        Ok(CompletionView::Records(spec_selection(collected + records, only))),
                    )
                } else {
                    ProgressView::Pending(
                        OperationView {
                            client,
                            call: CallView::start(
                                ExchangeView::ListPage { page: (page + 1) as u32 },
                            ),
                            stage: StageView::Listing {
                                page: (page + 1) as u32,
                                collected: collected + records,
                                only,
                            },
                        },
                    )
                }
            },
            (StageView::Resolving { record_id, content }, AnswerView::RecordName(name)) => {
                ProgressView::Pending(
                    OperationView {
                        client,
                        call: CallView::start(
                            ExchangeView::UpdateRecord { record_id, name, content },
                        ),
                        stage: StageView::Writing,
                    },
                )
            },
            (StageView::Writing, AnswerView::Written) => ProgressView::Finished(
                Ok(CompletionView::Confirmed),
            ),
            _ => ProgressView::Finished(Err(spec_bare(Fault::MalformedBody))),
        },
    }
}

impl OperationView {
    /// The connection test, about to start.
    pub open spec fn test_connection(client: CloudflareConfigView) -> OperationView {
        OperationView {
            client,
            call: CallView::start(ExchangeView::TestConnection),
            stage: StageView::Testing,
        }
    }

    /// A listing, about to read page 1.
    pub open spec fn listing(client: CloudflareConfigView, only: Option<Seq<char>>) -> OperationView {
        OperationView {
            client,
            call: CallView::start(ExchangeView::ListPage { page: 1 }),
            stage: StageView::Listing { page: 1, collected: Seq::empty(), only },
        }
    }

    /// An update of record `record_id` to hold `content`, about to read the
    /// record's name.
    pub open spec fn update(
        client: CloudflareConfigView,
        record_id: Seq<char>,
        content: Seq<char>,
    ) -> OperationView {
        OperationView {
            client,
            call: CallView::start(ExchangeView::FetchRecord { record_id }),
            stage: StageView::Resolving { record_id, content },
        }
    }

    /// The creation of an AAAA record for `label` under the session's root
    /// domain, holding `content`.
    pub open spec fn create(
        client: CloudflareConfigView,
        label: Seq<char>,
        content: Seq<char>,
    ) -> OperationView {
        OperationView {
            client,
            call: CallView::start(
                ExchangeView::CreateRecord {
                    name: spec_full_domain(label, client.root_domain),
                    content,
                },
            ),
            stage: StageView::Writing,
        }
    }

    /// What the caller is to do next: wait out the rest after a failed
    /// attempt, or send the request of the exchange under way.
    pub open spec fn action(self) -> ActionView {
        if self.call.resting {
            ActionView::Wait(self.call.wait())
        } else {
            ActionView::Send(spec_request(self.client, self.call.exchange))
        }
    }

    /// The operation after its exchange under way ended with `outcome`.
    pub open spec fn advance(self, outcome: Result<AnswerView, ProviderErrorView>) -> ProgressView {
        spec_advance(self.client, self.stage, outcome)
    }

    /// The operation after an event.
    pub open spec fn handle(self, event: EventView) -> ProgressView {
        match self.call.handle(event) {
            CallStepView::Pending(call) => ProgressView::Pending(OperationView { call, ..self }),
            CallStepView::Finished(outcome) => self.advance(outcome),
        }
    }
}

impl View for Operation {
    type V = OperationView;

    closed spec fn view(&self) -> OperationView {
        OperationView { client: self.client@, call: self.call@, stage: self.stage@ }
    }
}

impl Operation {
    /// What the caller is to do next.
    pub fn action(&self) -> (action: Action)
        ensures
            action@ == self@.action(),
    {
        if self.call.is_resting() {
            Action::Wait(self.call.wait())
        } else {
            Action::Send(self.client.request(self.call.exchange()))
        }
    }

    /// The stage the operation is in.
    pub fn stage(&self) -> (stage: &Stage)
        ensures
            stage@ == self@.stage,
    {
        &self.stage
    }

    /// Number of the attempt under way of the exchange under way.
    pub fn attempt(&self) -> (n: u32)
        ensures
            n == self@.call.attempt,
    {
        self.call.attempt()
    }

    /// The operation after its exchange under way ended with `outcome`.
    pub fn advance(self, outcome: Result<Answer, ProviderError>) -> (progress: Progress)
        ensures
            progress@ == self@.advance(outcome_view(outcome)),
    {
        advance_stage(self.client, self.stage, outcome)
    }

    /// The operation after `event`: the exchange under way takes the event
    /// in, and where that ends the exchange, the operation moves on.
    pub fn handle(self, event: Event) -> (progress: Progress)
        ensures
            progress@ == self@.handle(event@),
    {
        let Operation { client, call, stage } = self;
        match call.handle(event) {
            CallStep::Pending(call) => Progress::Pending(Operation { client, call, stage }),
            CallStep::Finished(outcome) => advance_stage(client, stage, outcome),
        }
    }
}

fn advance_stage(client: CloudflareClient, stage: Stage, outcome: Result<Answer, ProviderError>) -> (progress: Progress)
    ensures
        progress@ == spec_advance(client@, stage@, outcome_view(outcome)),
{
    match outcome {
        Err(error) => Progress::Finished(Err(error)),
        Ok(answer) => match (stage, answer) {
            (Stage::Testing, Answer::Connected) => Progress::Finished(Ok(Completion::Confirmed)),
            (Stage::Listing { page, collected, only }, Answer::Page(records)) => {
                let ghost before = records_view(collected@);
                let ghost added = records_view(records@);
                if records.len() == 0 {
                    Progress::Finished(Ok(Completion::Records(select(collected, &only))))
                } else {
                    let short = records.len() < PER_PAGE as usize;
                    let mut collected = collected;
                    let mut records = records;
                    collected.append(&mut records);
                    assert(records_view(collected@) =~= before + added);
                    if short || page == u32::MAX {
                        Progress::Finished(Ok(Completion::Records(select(collected, &only))))
                    } else {
                        Progress::Pending(
                            Operation {
                                client,
                                call: Call::new(Exchange::ListPage { page: page + 1 }),
                                stage: Stage::Listing { page: page + 1, collected, only },
                            },
                        )
                    }
                }
            },
            (Stage::Resolving { record_id, content }, Answer::RecordName(name)) => {
                Progress::Pending(
                    Operation {
                        client,
                        call: Call::new(Exchange::UpdateRecord { record_id, name, content }),
                        stage: Stage::Writing,
                    },
                )
            },
            (Stage::Writing, Answer::Written) => Progress::Finished(Ok(Completion::Confirmed)),
            _ => Progress::Finished(Err(ProviderError::bare(Fault::MalformedBody))),
        },
    }
}

/// The records a listing hands over.
fn select(collected: Vec<DnsRecord>, only: &Option<String>) -> (chosen: Vec<DnsRecord>)
    ensures
        records_view(chosen@) == spec_selection(records_view(collected@), opt_text(*only)),
{
    match only {
        Some(domain) => aaaa_records(&collected, domain.as_str()),
        None => collected,
    }
}

impl CloudflareClient {
    /// Tests the connection: one read of the zone.
    pub fn test_connection(&self) -> (operation: Operation)
        ensures
            operation@ == OperationView::test_connection(self@),
    {
        Operation {
            client: self.duplicate(),
            call: Call::new(Exchange::TestConnection),
            stage: Stage::Testing,
        }
    }

    /// Lists all records of the zone.
    pub fn get_dns_records(&self) -> (operation: Operation)
        ensures
            operation@ == OperationView::listing(self@, None),
    {
        let collected: Vec<DnsRecord> = Vec::new();
        assert(records_view(collected@) =~= Seq::<DnsRecordView>::empty());
        Operation {
            client: self.duplicate(),
            call: Call::new(Exchange::ListPage { page: 1 }),
            stage: Stage::Listing { page: 1, collected, only: None },
        }
    }

    /// Lists the zone's AAAA records named exactly `domain`.
    pub fn get_aaaa_records(&self, domain: &str) -> (operation: Operation)
        ensures
            operation@ == OperationView::listing(self@, Some(domain@)),
    {
        let collected: Vec<DnsRecord> = Vec::new();
        assert(records_view(collected@) =~= Seq::<DnsRecordView>::empty());
        Operation {
            client: self.duplicate(),
            call: Call::new(Exchange::ListPage { page: 1 }),
            stage: Stage::Listing { page: 1, collected, only: Some(String::from_str(domain)) },
        }
    }

    /// Points the record `record_id` at `ip`, under the name the provider
    /// holds for it.
    pub fn update_dns_record(&self, record_id: &str, ip: &str) -> (operation: Operation)
        ensures
            operation@ == OperationView::update(self@, record_id@, ip@),
    {
        Operation {
            client: self.duplicate(),
            call: Call::new(Exchange::FetchRecord { record_id: String::from_str(record_id) }),
            stage: Stage::Resolving {
                record_id: String::from_str(record_id),
                content: String::from_str(ip),
            },
        }
    }

    /// Adds an AAAA record for `subdomain` under the root domain (the root
    /// domain itself for the empty label), pointing at `ip`.
    pub fn create_aaaa_record(&self, subdomain: &str, ip: &str) -> (operation: Operation)
        ensures
            operation@ == OperationView::create(self@, subdomain@, ip@),
    {
        Operation {
            client: self.duplicate(),
            call: Call::new(
                Exchange::CreateRecord {
                    name: full_domain(subdomain, self.root_domain()),
                    content: String::from_str(ip),
                },
            ),
            stage: Stage::Writing,
        }
    }
}

/// A listing ends the moment a page comes back empty or short, however many
/// full pages came before it: the reply that carries such a page finishes the
/// operation with the records gathered.
pub proof fn law_short_page_ends_listing(operation: OperationView, reply: HttpReplyView)
    requires
        operation.stage is Listing,
        !operation.call.resting,
        spec_interpret(operation.call.exchange, reply) matches Ok(AnswerView::Page(records))
            && records.len() < PER_PAGE,
    ensures
        operation.handle(EventView::Reply(reply)) matches ProgressView::Finished(
            Ok(CompletionView::Records(_)),
        ),
{
}

/// A full page is followed by a request for the next page, and nothing that
/// was gathered is lost.
pub proof fn law_full_page_continues_listing(operation: OperationView, reply: HttpReplyView)
    requires
        operation.stage is Listing,
        operation.stage->page < u32::MAX,
        !operation.call.resting,
        spec_interpret(operation.call.exchange, reply) matches Ok(AnswerView::Page(records))
            && records.len() >= PER_PAGE,
    ensures
        operation.handle(EventView::Reply(reply)) matches ProgressView::Pending(next)
            && next.stage matches StageView::Listing { page, collected, only }
            && page == operation.stage->page + 1
            && only == operation.stage->only
            && collected.len() >= operation.stage->collected.len() + PER_PAGE
            && next.call == CallView::start(ExchangeView::ListPage { page }),
{
}

/// An update never writes before it has read the record's name: it starts
/// with a read of the record, and the write that follows a name carries that
/// name, the new address, TTL 1 and no proxying.
pub proof fn law_update_reads_the_name_first(
    client: CloudflareConfigView,
    record_id: Seq<char>,
    content: Seq<char>,
    name: Seq<char>,
)
    ensures
        OperationView::update(client, record_id, content).action() == ActionView::Send(
            spec_request(client, ExchangeView::FetchRecord { record_id }),
        ),
        OperationView::update(client, record_id, content).advance(
            Ok(AnswerView::RecordName(name)),
        ) matches ProgressView::Pending(writing) && writing.action() == ActionView::Send(
            spec_request(client, ExchangeView::UpdateRecord { record_id, name, content }),
        ) && spec_request(
            client,
            ExchangeView::UpdateRecord { record_id, name, content },
        ).payload == Some(
            crate::services::cloudflare::UpdateDnsRecordRequestView {
                record_type: "AAAA"@,
                name,
                content,
                ttl: 1,
                proxied: false,
            },
        ),
{
}

/// A failed exchange ends the operation it belongs to with that failure,
/// whatever the stage.
pub proof fn law_failure_ends_operation(operation: OperationView, error: ProviderErrorView)
    ensures
        operation.advance(Err(error)) == ProgressView::Finished(Err(error)),
{
}

} // verus!
