//! The provider's records, and the client that words the requests about
//! them.

use crate::services::exchange::{
    spec_body_form, Exchange, ExchangeView, HttpMethod, HttpRequest, HttpRequestView,
};
use crate::text::{decimal, decimal_string, join2, join3};
use vstd::prelude::*;
use vstd::string::*;

verus! {

/// Records asked for per page of the zone's record list.
pub const PER_PAGE: u32 = 100;

/// Credentials, zone and root domain of one session with the provider.
#[derive(Debug, Clone)]
pub struct CloudflareConfig {
    pub api_key: String,
    pub zone_id: String,
    pub root_domain: String,
}

/// What a `CloudflareConfig` holds, with every string as its characters.
pub struct CloudflareConfigView {
    pub api_key: Seq<char>,
    pub zone_id: Seq<char>,
    pub root_domain: Seq<char>,
}

impl View for CloudflareConfig {
    type V = CloudflareConfigView;

    open spec fn view(&self) -> CloudflareConfigView {
        CloudflareConfigView {
            api_key: self.api_key@,
            zone_id: self.zone_id@,
            root_domain: self.root_domain@,
        }
    }
}

/// A DNS record as the provider lists it.
#[derive(Debug, PartialEq, Eq)]
pub struct DnsRecord {
    pub id: String,
    pub name: String,
    pub record_type: String,
    pub content: String,
    pub proxied: bool,
    pub ttl: u32,
}

/// What a `DnsRecord` holds, with every string as its characters.
pub struct DnsRecordView {
    pub id: Seq<char>,
    pub name: Seq<char>,
    pub record_type: Seq<char>,
    pub content: Seq<char>,
    pub proxied: bool,
    pub ttl: u32,
}

impl View for DnsRecord {
    type V = DnsRecordView;

    open spec fn view(&self) -> DnsRecordView {
        DnsRecordView {
            id: self.id@,
            name: self.name@,
            record_type: self.record_type@,
            content: self.content@,
            proxied: self.proxied,
            ttl: self.ttl,
        }
    }
}

/// The views of a list of records, in order.
pub open spec fn records_view(records: Seq<DnsRecord>) -> Seq<DnsRecordView> {
    records.map_values(|r: DnsRecord| r@)
}

/// One page of the provider's record list.
#[derive(Debug, PartialEq, Eq)]
pub struct DnsRecordResponse {
    pub result: Vec<DnsRecord>,
    pub success: bool,
}

/// What a `DnsRecordResponse` holds, with every string as its characters.
pub struct DnsRecordResponseView {
    pub result: Seq<DnsRecordView>,
    pub success: bool,
}

impl View for DnsRecordResponse {
    type V = DnsRecordResponseView;

    open spec fn view(&self) -> DnsRecordResponseView {
        DnsRecordResponseView { result: records_view(self.result@), success: self.success }
    }
}

/// The body of a create or update request.
#[derive(Debug, Clone, PartialEq, Eq)]
pub struct UpdateDnsRecordRequest {
    pub record_type: String,
    pub name: String,
    pub content: String,
    pub ttl: u32,
    pub proxied: bool,
}

/// What an `UpdateDnsRecordRequest` holds, with every string as its characters.
pub struct UpdateDnsRecordRequestView {
    pub record_type: Seq<char>,
    pub name: Seq<char>,
    pub content: Seq<char>,
    pub ttl: u32,
    pub proxied: bool,
}

impl View for UpdateDnsRecordRequest {
    type V = UpdateDnsRecordRequestView;

    open spec fn view(&self) -> UpdateDnsRecordRequestView {
        UpdateDnsRecordRequestView {
            record_type: self.record_type@,
            name: self.name@,
            content: self.content@,
            ttl: self.ttl,
            proxied: self.proxied,
        }
    }
}

/// The name a label stands for under a root domain: the root domain itself
/// for the empty label, else label, a dot, root domain.
pub open spec fn spec_full_domain(label: Seq<char>, root: Seq<char>) -> Seq<char> {
    if label.len() == 0 {
        root
    } else {
        label + "."@ + root
    }
}

/// The full domain name of `label` under `root`.
pub fn full_domain(label: &str, root: &str) -> (name: String)
    ensures
        name@ == spec_full_domain(label@, root@),
{
    if label.is_empty() {
        String::from_str(root)
    } else {
        join3(label, ".", root)
    }
}

/// The body that writes an AAAA record `name` with address `content`: TTL 1
/// (the provider picks) and no proxying.
pub open spec fn spec_record_body(name: Seq<char>, content: Seq<char>) -> UpdateDnsRecordRequestView {
    UpdateDnsRecordRequestView {
        record_type: "AAAA"@,
        name: name,
        content: content,
        ttl: 1,
        proxied: false,
    }
}

/// The body of a request that writes `content` to the AAAA record `name`.
pub fn record_body(name: &str, content: &str) -> (body: UpdateDnsRecordRequest)
    ensures
        body@ == spec_record_body(name@, content@),
{
    UpdateDnsRecordRequest {
        record_type: String::from_str("AAAA"),
        name: String::from_str(name),
        content: String::from_str(content),
        ttl: 1,
        proxied: false,
    }
}

/// Address of the zone itself.
pub open spec fn spec_zone_url(zone_id: Seq<char>) -> Seq<char> {
    "https://api.cloudflare.com/client/v4/zones/"@ + zone_id
}

/// Address of the zone's record collection.
pub open spec fn spec_records_url(zone_id: Seq<char>) -> Seq<char> {
    spec_zone_url(zone_id) + "/dns_records"@
}

/// Address of one page of the zone's record list.
pub open spec fn spec_page_url(zone_id: Seq<char>, page: u32) -> Seq<char> {
    spec_records_url(zone_id) + "?page="@ + decimal(page as nat) + "&per_page="@ + decimal(
        PER_PAGE as nat,
    )
}

/// Address of a single record.
pub open spec fn spec_record_url(zone_id: Seq<char>, record_id: Seq<char>) -> Seq<char> {
    spec_records_url(zone_id) + "/"@ + record_id
}

/// The value of the `Authorization` header.
pub open spec fn spec_authorization(api_key: Seq<char>) -> Seq<char> {
    "Bearer "@ + api_key
}

/// Whether a record is an AAAA record named exactly `domain`.
pub open spec fn is_aaaa_for(record: DnsRecordView, domain: Seq<char>) -> bool {
    record.record_type == "AAAA"@ && record.name == domain
}

/// The AAAA records named exactly `domain`, in the order of `records`.
pub open spec fn spec_aaaa_records(records: Seq<DnsRecordView>, domain: Seq<char>) -> Seq<
    DnsRecordView,
> {
    records.filter(|r: DnsRecordView| is_aaaa_for(r, domain))
}

/// A copy of a record.
pub fn copy_record(record: &DnsRecord) -> (copy: DnsRecord)
    ensures
        copy@ == record@,
{
    DnsRecord {
        id: record.id.clone(),
        name: record.name.clone(),
        record_type: record.record_type.clone(),
        content: record.content.clone(),
        proxied: record.proxied,
        ttl: record.ttl,
    }
}

/// Keeps of `records` the AAAA records named exactly `domain`, in order.
pub fn aaaa_records(records: &Vec<DnsRecord>, domain: &str) -> (kept: Vec<DnsRecord>)
    ensures
        records_view(kept@) == spec_aaaa_records(records_view(records@), domain@),
{
    let ghost all = records_view(records@);
    let ghost pred = |r: DnsRecordView| is_aaaa_for(r, domain@);
    let wanted_type = String::from_str("AAAA");
    let wanted_name = String::from_str(domain);
    let mut kept: Vec<DnsRecord> = Vec::new();
    let mut i: usize = 0;
    assert(all.take(0) =~= Seq::<DnsRecordView>::empty());
    assert(Seq::<DnsRecordView>::empty().filter(pred) =~= Seq::<DnsRecordView>::empty()) by {
        reveal(Seq::filter);
    }
    while i < records.len()
        invariant
            i <= records.len(),
            wanted_type@ == "AAAA"@,
            wanted_name@ == domain@,
            all == records_view(records@),
            pred == |r: DnsRecordView| is_aaaa_for(r, domain@),
            records_view(kept@) == all.take(i as int).filter(pred),
        decreases records.len() - i,
    {
        let ghost before = records_view(kept@);
        let record = &records[i];
        proof {
            assert(all.take(i + 1) =~= all.take(i as int).push(record@));
            all.take(i as int).lemma_filter_push(record@, pred);
        }
        if record.record_type == wanted_type && record.name == wanted_name {
            kept.push(copy_record(record));
            assert(records_view(kept@) =~= before.push(record@));
        }
        i += 1;
    }
    assert(all.take(i as int) =~= all);
    kept
}

/// The method of the request that carries out an exchange.
pub open spec fn spec_method(exchange: ExchangeView) -> HttpMethod {
    match exchange {
        ExchangeView::UpdateRecord { .. } => HttpMethod::Put,
        ExchangeView::CreateRecord { .. } => HttpMethod::Post,
        _ => HttpMethod::Get,
    }
}

/// The address of the request that carries out an exchange.
pub open spec fn spec_url(zone_id: Seq<char>, exchange: ExchangeView) -> Seq<char> {
    match exchange {
        ExchangeView::TestConnection => spec_zone_url(zone_id),
        ExchangeView::ListPage { page } => spec_page_url(zone_id, page),
        ExchangeView::FetchRecord { record_id } => spec_record_url(zone_id, record_id),
        ExchangeView::UpdateRecord { record_id, .. } => spec_record_url(zone_id, record_id),
        ExchangeView::CreateRecord { .. } => spec_records_url(zone_id),
    }
}

/// The body of the request that carries out an exchange.
pub open spec fn spec_payload(exchange: ExchangeView) -> Option<UpdateDnsRecordRequestView> {
    match exchange {
        ExchangeView::UpdateRecord { name, content, .. } => Some(spec_record_body(name, content)),
        ExchangeView::CreateRecord { name, content } => Some(spec_record_body(name, content)),
        _ => None,
    }
}

/// The request that carries out an exchange for a session.
pub open spec fn spec_request(config: CloudflareConfigView, exchange: ExchangeView) -> HttpRequestView {
    HttpRequestView {
        method: spec_method(exchange),
        url: spec_url(config.zone_id, exchange),
        authorization: spec_authorization(config.api_key),
        content_type: "application/json"@,
        payload: spec_payload(exchange),
        on_success: spec_body_form(exchange, true),
        on_failure: spec_body_form(exchange, false),
    }
}

/// A session with the provider: credentials, zone and root domain, fixed for
/// its lifetime.
#[derive(Debug, Clone)]
pub struct CloudflareClient {
    config: CloudflareConfig,
}

impl View for CloudflareClient {
    type V = CloudflareConfigView;

    closed spec fn view(&self) -> CloudflareConfigView {
        self.config@
    }
}

impl CloudflareClient {
    /// A session with the given configuration.
    pub fn new(config: CloudflareConfig) -> (client: CloudflareClient)
        ensures
            client@ == config@,
    {
        CloudflareClient { config }
    }

    /// The session's root domain.
    pub fn root_domain(&self) -> (root: &str)
        ensures
            root@ == self@.root_domain,
    {
        self.config.root_domain.as_str()
    }

    /// A second handle on the same session.
    pub fn duplicate(&self) -> (client: CloudflareClient)
        ensures
            client@ == self@,
    {
        CloudflareClient {
            config: CloudflareConfig {
                api_key: self.config.api_key.clone(),
                zone_id: self.config.zone_id.clone(),
                root_domain: self.config.root_domain.clone(),
            },
        }
    }

    fn records_url(&self) -> (url: String)
        ensures
            url@ == spec_records_url(self@.zone_id),
    {
        join3(
            "https://api.cloudflare.com/client/v4/zones/",
            self.config.zone_id.as_str(),
            "/dns_records",
        )
    }

    fn url(&self, exchange: &Exchange) -> (url: String)
        ensures
            url@ == spec_url(self@.zone_id, exchange@),
    {
        match exchange {
            Exchange::TestConnection => join2(
                "https://api.cloudflare.com/client/v4/zones/",
                self.config.zone_id.as_str(),
            ),
            Exchange::ListPage { page } => {
                let mut url = self.records_url();
                url.append("?page=");
                url.append(decimal_string(*page as u64).as_str());
                url.append("&per_page=");
                url.append(decimal_string(PER_PAGE as u64).as_str());
                url
            },
            Exchange::FetchRecord { record_id } => {
                let mut url = self.records_url();
                url.append("/");
                url.append(record_id.as_str());
                url
            },
            Exchange::UpdateRecord { record_id, .. } => {
                let mut url = self.records_url();
                url.append("/");
                url.append(record_id.as_str());
                url
            },
            Exchange::CreateRecord { .. } => self.records_url(),
        }
    }

    /// The request that carries out `exchange` in this session: bearer
    /// authorization, JSON content type, and for a write the record body.
    pub fn request(&self, exchange: &Exchange) -> (request: HttpRequest)
        ensures
            request@ == spec_request(self@, exchange@),
    {
        let method = match exchange {
            Exchange::UpdateRecord { .. } => HttpMethod::Put,
            Exchange::CreateRecord { .. } => HttpMethod::Post,
            _ => HttpMethod::Get,
        };
        let payload = match exchange {
            Exchange::UpdateRecord { name, content, .. } => Some(
                record_body(name.as_str(), content.as_str()),
            ),
            Exchange::CreateRecord { name, content } => Some(
                record_body(name.as_str(), content.as_str()),
            ),
            _ => None,
        };
        HttpRequest {
            method,
            url: self.url(exchange),
            authorization: join2("Bearer ", self.config.api_key.as_str()),
            content_type: String::from_str("application/json"),
            payload,
            on_success: exchange.body_form(true),
            on_failure: exchange.body_form(false),
        }
    }
}

} // verus!
