//! The configuration record and the audit record.

use crate::json::{json_of_texts, texts_from_json, texts_of_json, texts_to_json};
use crate::text::{copy_opt, opt_text, signed_decimal, signed_decimal_string, texts};
use vstd::prelude::*;
use vstd::string::*;

verus! {

/// The one stored configuration.
#[derive(Debug, Clone, PartialEq, Eq)]
pub struct AppConfig {
    pub cloudflare_api_key: String,
    pub cloudflare_zone_id: String,
    pub root_domain: String,
    /// Labels under the root domain, in the order they are reconciled. The
    /// empty label stands for the root domain itself.
    pub selected_subdomains: Vec<String>,
    /// Seconds between two scheduled checks.
    pub check_interval: u64,
    /// The address that the records were last pointed at, if any.
    pub last_ip: Option<String>,
}

/// What an `AppConfig` holds, with every string as its characters.
pub struct AppConfigView {
    pub cloudflare_api_key: Seq<char>,
    pub cloudflare_zone_id: Seq<char>,
    pub root_domain: Seq<char>,
    pub selected_subdomains: Seq<Seq<char>>,
    pub check_interval: u64,
    pub last_ip: Option<Seq<char>>,
}

impl View for AppConfig {
    type V = AppConfigView;

    open spec fn view(&self) -> AppConfigView {
        AppConfigView {
            cloudflare_api_key: self.cloudflare_api_key@,
            cloudflare_zone_id: self.cloudflare_zone_id@,
            root_domain: self.root_domain@,
            selected_subdomains: texts(self.selected_subdomains@),
            check_interval: self.check_interval,
            last_ip: opt_text(self.last_ip),
        }
    }
}

/// The row of the configuration table, as the store holds it. The selected
/// labels are kept as one JSON text.
#[derive(Debug, Clone, PartialEq, Eq)]
pub struct ConfigRow {
    pub cloudflare_api_key: String,
    pub cloudflare_zone_id: String,
    pub root_domain: String,
    pub selected_subdomains: String,
    pub check_interval: u64,
    pub last_ip: Option<String>,
}

/// What a `ConfigRow` holds, with every string as its characters.
pub struct ConfigRowView {
    pub cloudflare_api_key: Seq<char>,
    pub cloudflare_zone_id: Seq<char>,
    pub root_domain: Seq<char>,
    pub selected_subdomains: Seq<char>,
    pub check_interval: u64,
    pub last_ip: Option<Seq<char>>,
}

impl View for ConfigRow {
    type V = ConfigRowView;

    open spec fn view(&self) -> ConfigRowView {
        ConfigRowView {
            cloudflare_api_key: self.cloudflare_api_key@,
            cloudflare_zone_id: self.cloudflare_zone_id@,
            root_domain: self.root_domain@,
            selected_subdomains: self.selected_subdomains@,
            check_interval: self.check_interval,
            last_ip: opt_text(self.last_ip),
        }
    }
}

/// The JSON text under which a list of labels is stored: what the encoder
/// writes, or an empty JSON list where it fails.
pub open spec fn spec_subdomains_to_json(labels: Seq<Seq<char>>) -> Seq<char> {
    match json_of_texts(labels) {
        Some(text) => text,
        None => "[]"@,
    }
}

/// The labels that a stored JSON text stands for: what the decoder reads, or
/// no labels where it fails.
pub open spec fn spec_subdomains_from_json(text: Seq<char>) -> Seq<Seq<char>> {
    match texts_of_json(text) {
        Some(labels) => labels,
        None => Seq::empty(),
    }
}

/// The JSON text under which `labels` are stored.
pub fn subdomains_to_json(labels: &Vec<String>) -> (text: String)
    ensures
        text@ == spec_subdomains_to_json(texts(labels@)),
{
    match texts_to_json(labels) {
        Ok(text) => text,
        Err(_) => String::from_str("[]"),
    }
}

/// The labels that the stored JSON text `text` stands for.
pub fn subdomains_from_json(text: &str) -> (labels: Vec<String>)
    ensures
        texts(labels@) == spec_subdomains_from_json(text@),
{
    match texts_from_json(text) {
        Ok(labels) => labels,
        Err(_) => {
            let labels: Vec<String> = Vec::new();
            assert(texts(labels@) =~= Seq::<Seq<char>>::empty());
            labels
        },
    }
}

/// The row under which a configuration is stored.
pub open spec fn spec_save_config(config: AppConfigView) -> ConfigRowView {
    ConfigRowView {
        cloudflare_api_key: config.cloudflare_api_key,
        cloudflare_zone_id: config.cloudflare_zone_id,
        root_domain: config.root_domain,
        selected_subdomains: spec_subdomains_to_json(config.selected_subdomains),
        check_interval: config.check_interval,
        last_ip: config.last_ip,
    }
}

/// The configuration that a stored row stands for.
pub open spec fn spec_load_config(row: ConfigRowView) -> AppConfigView {
    AppConfigView {
        cloudflare_api_key: row.cloudflare_api_key,
        cloudflare_zone_id: row.cloudflare_zone_id,
        root_domain: row.root_domain,
        selected_subdomains: spec_subdomains_from_json(row.selected_subdomains),
        check_interval: row.check_interval,
        last_ip: row.last_ip,
    }
}

/// The row to store for `config`. It replaces whatever row is there.
pub fn save_config(config: &AppConfig) -> (row: ConfigRow)
    ensures
        row@ == spec_save_config(config@),
{
    ConfigRow {
        cloudflare_api_key: config.cloudflare_api_key.clone(),
        cloudflare_zone_id: config.cloudflare_zone_id.clone(),
        root_domain: config.root_domain.clone(),
        selected_subdomains: subdomains_to_json(&config.selected_subdomains),
        check_interval: config.check_interval,
        last_ip: copy_opt(&config.last_ip),
    }
}

/// The configuration that the stored row `row` stands for.
pub fn load_config(row: ConfigRow) -> (config: AppConfig)
    ensures
        config@ == spec_load_config(row@),
{
    let selected_subdomains = subdomains_from_json(row.selected_subdomains.as_str());
    AppConfig {
        cloudflare_api_key: row.cloudflare_api_key,
        cloudflare_zone_id: row.cloudflare_zone_id,
        root_domain: row.root_domain,
        selected_subdomains,
        check_interval: row.check_interval,
        last_ip: row.last_ip,
    }
}

/// Whether a configuration is stored, given the number of rows in the
/// configuration table.
pub fn has_config(rows: i64) -> (r: bool)
    ensures
        r == (rows > 0),
{
    rows > 0
}

/// An instant: seconds since 1970-01-01T00:00:00Z, and nanoseconds into the
/// second.
#[derive(Debug, Clone, Copy, PartialEq, Eq, Structural)]
pub struct Timestamp {
    pub seconds: i64,
    pub nanoseconds: u32,
}

/// The instant that `chrono::DateTime::parse_from_rfc3339` reads from a
/// text, as seconds since the epoch and nanoseconds into the second, or
/// `None` where it reports an error.
pub uninterp spec fn rfc3339_instant(text: Seq<char>) -> Option<(i64, u32)>;

/// Calls `chrono::DateTime::parse_from_rfc3339`. The claim: the outcome is a
/// function of the text alone, named `rfc3339_instant`.
#[verifier::external_body]
pub(crate) fn parse_rfc3339(text: &str) -> (r: Option<Timestamp>)
    ensures
        match r {
            Some(t) => rfc3339_instant(text@) == Some((t.seconds, t.nanoseconds)),
            None => rfc3339_instant(text@) is None,
        },
{
    match chrono::DateTime::parse_from_rfc3339(text) {
        Ok(t) => Some(Timestamp { seconds: t.timestamp(), nanoseconds: t.timestamp_subsec_nanos() }),
        Err(_) => None,
    }
}

/// A row of the audit trail, as the store holds it.
#[derive(Debug, Clone, PartialEq, Eq)]
pub struct AuditRow {
    pub id: i64,
    pub timestamp: String,
    pub old_ip: Option<String>,
    pub new_ip: String,
    pub domain_count: i32,
    pub success_count: i32,
    pub error_message: Option<String>,
}

/// What an `AuditRow` holds, with every string as its characters.
pub struct AuditRowView {
    pub id: i64,
    pub timestamp: Seq<char>,
    pub old_ip: Option<Seq<char>>,
    pub new_ip: Seq<char>,
    pub domain_count: i32,
    pub success_count: i32,
    pub error_message: Option<Seq<char>>,
}

impl View for AuditRow {
    type V = AuditRowView;

    open spec fn view(&self) -> AuditRowView {
        AuditRowView {
            id: self.id,
            timestamp: self.timestamp@,
            old_ip: opt_text(self.old_ip),
            new_ip: self.new_ip@,
            domain_count: self.domain_count,
            success_count: self.success_count,
            error_message: opt_text(self.error_message),
        }
    }
}

/// One reconciliation cycle in the audit trail.
#[derive(Debug, Clone, PartialEq, Eq)]
pub struct DnsUpdateRecord {
    pub id: i64,
    pub timestamp: Timestamp,
    pub old_ip: Option<String>,
    pub new_ip: String,
    pub domain_count: i32,
    pub success_count: i32,
    pub error_message: Option<String>,
}

/// What a `DnsUpdateRecord` holds, with every string as its characters.
pub struct DnsUpdateRecordView {
    pub id: i64,
    pub timestamp: Timestamp,
    pub old_ip: Option<Seq<char>>,
    pub new_ip: Seq<char>,
    pub domain_count: i32,
    pub success_count: i32,
    pub error_message: Option<Seq<char>>,
}

impl View for DnsUpdateRecord {
    type V = DnsUpdateRecordView;

    open spec fn view(&self) -> DnsUpdateRecordView {
        DnsUpdateRecordView {
            id: self.id,
            timestamp: self.timestamp,
            old_ip: opt_text(self.old_ip),
            new_ip: self.new_ip@,
            domain_count: self.domain_count,
            success_count: self.success_count,
            error_message: opt_text(self.error_message),
        }
    }
}

/// The instant a stored timestamp stands for: what it reads as in RFC 3339,
/// or `now` where it cannot be read.
pub open spec fn spec_instant(text: Seq<char>, now: Timestamp) -> Timestamp {
    match rfc3339_instant(text) {
        Some((seconds, nanoseconds)) => Timestamp { seconds, nanoseconds },
        None => now,
    }
}

/// The audit record that a stored row stands for.
pub open spec fn spec_record_from_row(row: AuditRowView, now: Timestamp) -> DnsUpdateRecordView {
    DnsUpdateRecordView {
        id: row.id,
        timestamp: spec_instant(row.timestamp, now),
        old_ip: row.old_ip,
        new_ip: row.new_ip,
        domain_count: row.domain_count,
        success_count: row.success_count,
        error_message: row.error_message,
    }
}

/// The audit record that the stored row `row` stands for. A timestamp that
/// cannot be read is replaced by `now`.
pub fn record_from_row(row: AuditRow, now: Timestamp) -> (record: DnsUpdateRecord)
    ensures
        record@ == spec_record_from_row(row@, now),
{
    let timestamp = match parse_rfc3339(row.timestamp.as_str()) {
        Some(t) => t,
        None => now,
    };
    DnsUpdateRecord {
        id: row.id,
        timestamp,
        old_ip: row.old_ip,
        new_ip: row.new_ip,
        domain_count: row.domain_count,
        success_count: row.success_count,
        error_message: row.error_message,
    }
}

/// The query that reads the audit trail, newest first, all of it or at most
/// `limit` rows.
pub open spec fn spec_records_query(limit: Option<i32>) -> Seq<char> {
    let all =
        "SELECT id, timestamp, old_ip, new_ip, domain_count, success_count, error_message FROM dns_update_records ORDER BY timestamp DESC"@;
    match limit {
        Some(n) => all + " LIMIT "@ + signed_decimal(n as int),
        None => all,
    }
}

/// The query that reads the audit trail, newest first: all of it, or at most
/// `limit` rows.
pub fn get_dns_update_records(limit: Option<i32>) -> (query: String)
    ensures
        query@ == spec_records_query(limit),
{
    let mut query = String::from_str(
        "SELECT id, timestamp, old_ip, new_ip, domain_count, success_count, error_message FROM dns_update_records ORDER BY timestamp DESC",
    );
    match limit {
        Some(n) => {
            query.append(" LIMIT ");
            query.append(signed_decimal_string(n as i64).as_str());
        },
        None => {},
    }
    query
}

/// The query that reads the `count` newest rows of the audit trail.
pub fn get_recent_dns_update_records(count: i32) -> (query: String)
    ensures
        query@ == spec_records_query(Some(count)),
{
    get_dns_update_records(Some(count))
}

} // verus!
