use cloudflare_ddns::config::database::AppConfig;
use cloudflare_ddns::services::cloudflare::{DnsRecord, DnsRecordResponse};
use cloudflare_ddns::services::exchange::{HttpMethod, HttpReply, HttpRequest, ReplyBody};
use cloudflare_ddns::services::reconcile::{
    Cycle, CycleAction, CycleEvent, ReconciliationOutcome, Trigger, Verdict,
};

const IP: &str = "2001:db8::1";

/// A stand-in for everything around a cycle: the store, the prober and the
/// provider, with a record of what the cycle asked for.
struct World {
    config: Option<AppConfig>,
    probe: Option<String>,
    stored_ip: Option<String>,
    zone: Vec<DnsRecord>,
    fail_writes: bool,
    fail_lists: bool,
    requests: Vec<HttpRequest>,
    waits: Vec<u64>,
    audits: Vec<ReconciliationOutcome>,
    commits: Vec<String>,
}

fn config(labels: &[&str], last_ip: Option<&str>) -> AppConfig {
    AppConfig {
        cloudflare_api_key: "key".to_string(),
        cloudflare_zone_id: "zone".to_string(),
        root_domain: "example.com".to_string(),
        selected_subdomains: labels.iter().map(|l| l.to_string()).collect(),
        check_interval: 300,
        last_ip: last_ip.map(|ip| ip.to_string()),
    }
}

fn record(id: &str, name: &str, kind: &str, content: &str) -> DnsRecord {
    DnsRecord {
        id: id.to_string(),
        name: name.to_string(),
        record_type: kind.to_string(),
        content: content.to_string(),
        proxied: false,
        ttl: 1,
    }
}

fn world(config: Option<AppConfig>, probe: Option<&str>, zone: Vec<DnsRecord>) -> World {
    let stored_ip = config.as_ref().and_then(|c| c.last_ip.clone());
    World {
        config,
        probe: probe.map(|ip| ip.to_string()),
        stored_ip,
        zone,
        fail_writes: false,
        fail_lists: false,
        requests: Vec::new(),
        waits: Vec::new(),
        audits: Vec::new(),
        commits: Vec::new(),
    }
}

fn answered(code: u16, status: &str, body: ReplyBody) -> HttpReply {
    HttpReply::Answered { code, status: status.to_string(), body }
}

impl World {
    fn copy_zone(&self) -> Vec<DnsRecord> {
        self.zone
            .iter()
            .map(|r| record(&r.id, &r.name, &r.record_type, &r.content))
            .collect()
    }

    fn reply(&mut self, request: &HttpRequest) -> HttpReply {
        match request.method {
            HttpMethod::Get if request.url.contains("?page=") => {
                if self.fail_lists {
                    answered(500, "500 Internal Server Error", ReplyBody::Skipped)
                } else {
                    let page = DnsRecordResponse { result: self.copy_zone(), success: true };
                    answered(200, "200 OK", ReplyBody::Records(page))
                }
            },
            HttpMethod::Get => {
                let id = request.url.rsplit('/').next().unwrap().to_string();
                let name = self.zone.iter().find(|r| r.id == id).unwrap().name.clone();
                let body = format!("{{\"result\":{{\"id\":\"{}\",\"name\":\"{}\"}}}}", id, name);
                answered(200, "200 OK", ReplyBody::Json(body.into_bytes()))
            },
            HttpMethod::Put | HttpMethod::Post => {
                if self.fail_writes {
                    answered(400, "400 Bad Request", ReplyBody::Text("refused".to_string()))
                } else {
                    answered(200, "200 OK", ReplyBody::Skipped)
                }
            },
        }
    }

    fn run(&mut self, trigger: Trigger) -> Verdict {
        let mut cycle = Cycle::new(trigger);
        let mut steps = 0;
        loop {
            steps += 1;
            assert!(steps < 10_000, "the cycle does not end");
            let event = match cycle.action() {
                CycleAction::LoadConfiguration => CycleEvent::Configuration(self.config.clone()),
                CycleAction::Probe => CycleEvent::Probed(self.probe.clone()),
                CycleAction::Send(request) => {
                    let reply = self.reply(&request);
                    self.requests.push(request);
                    CycleEvent::Reply(reply)
                },
                CycleAction::Wait(seconds) => {
                    self.waits.push(seconds);
                    CycleEvent::Waited
                },
                CycleAction::ReadLastIp => CycleEvent::LastIp(self.stored_ip.clone()),
                CycleAction::WriteAudit(outcome) => {
                    self.audits.push(outcome);
                    CycleEvent::AuditWritten
                },
                CycleAction::CommitLastIp(ip) => {
                    self.stored_ip = Some(ip.clone());
                    self.commits.push(ip);
                    CycleEvent::LastIpCommitted
                },
                CycleAction::Finish(verdict) => {
                    assert_eq!(cycle.verdict(), Some(verdict));
                    return verdict;
                },
            };
            cycle = cycle.handle(event);
        }
    }

    fn writes(&self) -> Vec<&HttpRequest> {
        self.requests.iter().filter(|r| r.method != HttpMethod::Get).collect()
    }
}

#[test]
fn cycle_creates_only_the_missing_record() {
    let zone = vec![record("r1", "example.com", "AAAA", IP)];
    let mut w = world(Some(config(&["", "home"], Some("2001:db8::9"))), Some(IP), zone);
    let verdict = w.run(Trigger::Scheduled);

    assert_eq!(verdict, Verdict::Updated);
    assert!(verdict.succeeded());
    let writes = w.writes();
    assert_eq!(writes.len(), 1);
    assert_eq!(writes[0].method, HttpMethod::Post);
    assert_eq!(writes[0].url, "https://api.cloudflare.com/client/v4/zones/zone/dns_records");
    let body = writes[0].payload.as_ref().unwrap();
    assert_eq!(body.name, "home.example.com");
    assert_eq!(body.content, IP);
    assert_eq!(body.record_type, "AAAA");
    assert_eq!(body.ttl, 1);
    assert!(!body.proxied);

    assert_eq!(w.audits.len(), 1);
    assert_eq!(w.audits[0].total_count(), 2);
    assert_eq!(w.audits[0].success_count(), 2);
    assert_eq!(w.audits[0].error_message(), &None);
    assert_eq!(w.audits[0].previous_ip(), &Some("2001:db8::9".to_string()));
    assert_eq!(w.audits[0].new_ip(), IP);
    assert_eq!(w.commits, vec![IP.to_string()]);
    assert_eq!(w.stored_ip, Some(IP.to_string()));
}

#[test]
fn cycle_fails_when_every_update_fails() {
    let zone = vec![
        record("r1", "example.com", "AAAA", "2001:db8::9"),
        record("r2", "home.example.com", "AAAA", "2001:db8::9"),
    ];
    let mut w = world(Some(config(&["", "home"], Some("2001:db8::9"))), Some(IP), zone);
    w.fail_writes = true;
    let verdict = w.run(Trigger::Scheduled);

    assert_eq!(verdict, Verdict::Failed);
    assert!(verdict.is_failure());
    assert!(!verdict.succeeded());
    // Each domain: three attempts at the update, with waits of 2 and 4.
    let puts: Vec<_> = w.writes();
    assert_eq!(puts.len(), 6);
    assert!(puts.iter().all(|r| r.method == HttpMethod::Put));
    assert_eq!(w.waits, vec![2, 4, 2, 4]);
    assert_eq!(w.audits.len(), 1);
    assert_eq!(w.audits[0].total_count(), 2);
    assert_eq!(w.audits[0].success_count(), 0);
    assert_eq!(
        w.audits[0].error_message(),
        &Some("更新域名失败: home.example.com".to_string())
    );
    assert!(w.commits.is_empty());
    assert_eq!(w.stored_ip, Some("2001:db8::9".to_string()));
}

#[test]
fn probe_failure_is_a_noop() {
    let mut w = world(Some(config(&["", "home"], Some("2001:db8::9"))), None, Vec::new());
    let verdict = w.run(Trigger::Scheduled);

    assert_eq!(verdict, Verdict::ProbeFailed);
    assert!(!verdict.is_failure());
    assert!(!verdict.succeeded());
    assert!(w.requests.is_empty());
    assert!(w.audits.is_empty());
    assert!(w.commits.is_empty());
    assert_eq!(w.stored_ip, Some("2001:db8::9".to_string()));
}

#[test]
fn missing_configuration_is_a_noop() {
    let mut w = world(None, Some(IP), Vec::new());
    let verdict = w.run(Trigger::Manual);

    assert_eq!(verdict, Verdict::NoConfiguration);
    assert!(!verdict.is_failure());
    assert!(w.requests.is_empty());
    assert!(w.audits.is_empty());
    assert!(w.commits.is_empty());
}

#[test]
fn scheduled_cycle_skips_an_unchanged_address() {
    let zone = vec![record("r1", "example.com", "AAAA", "2001:db8::9")];
    let mut w = world(Some(config(&[""], Some(IP))), Some(IP), zone);
    let verdict = w.run(Trigger::Scheduled);

    assert_eq!(verdict, Verdict::Unchanged);
    assert!(w.requests.is_empty());
    assert!(w.audits.is_empty());
    assert!(w.commits.is_empty());
}

#[test]
fn manual_cycle_looks_at_the_records_even_if_the_address_is_unchanged() {
    let zone = vec![record("r1", "example.com", "AAAA", "2001:db8::9")];
    let mut w = world(Some(config(&[""], Some(IP))), Some(IP), zone);
    let verdict = w.run(Trigger::Manual);

    assert_eq!(verdict, Verdict::Updated);
    let writes = w.writes();
    assert_eq!(writes.len(), 1);
    assert_eq!(writes[0].method, HttpMethod::Put);
    assert_eq!(writes[0].url, "https://api.cloudflare.com/client/v4/zones/zone/dns_records/r1");
    assert_eq!(writes[0].payload.as_ref().unwrap().name, "example.com");
    assert_eq!(w.audits.len(), 1);
    assert_eq!(w.commits, vec![IP.to_string()]);
}

#[test]
fn record_that_is_current_counts_without_a_write() {
    let zone = vec![record("r1", "home.example.com", "AAAA", IP)];
    let mut w = world(Some(config(&["home"], None)), Some(IP), zone);
    let verdict = w.run(Trigger::Scheduled);

    assert_eq!(verdict, Verdict::Updated);
    assert!(w.writes().is_empty());
    assert_eq!(w.audits[0].success_count(), 1);
    assert_eq!(w.audits[0].total_count(), 1);
    assert_eq!(w.audits[0].previous_ip(), &None);
}

#[test]
fn only_the_first_of_several_matching_records_is_reconciled() {
    let zone = vec![
        record("a", "home.example.com", "A", "192.0.2.1"),
        record("r1", "home.example.com", "AAAA", "2001:db8::9"),
        record("r2", "home.example.com", "AAAA", "2001:db8::8"),
    ];
    let mut w = world(Some(config(&["home"], None)), Some(IP), zone);
    let verdict = w.run(Trigger::Scheduled);

    assert_eq!(verdict, Verdict::Updated);
    let writes = w.writes();
    assert_eq!(writes.len(), 1);
    assert!(writes[0].url.ends_with("/dns_records/r1"));
}

#[test]
fn a_failed_listing_fails_the_domain_but_not_the_next_one() {
    let zone = vec![record("r1", "example.com", "AAAA", IP)];
    let mut w = world(Some(config(&["", "home"], None)), Some(IP), zone);
    w.fail_lists = true;
    let verdict = w.run(Trigger::Scheduled);

    assert_eq!(verdict, Verdict::Failed);
    // Two domains, three attempts at the first page each.
    assert_eq!(w.requests.len(), 6);
    assert_eq!(w.waits, vec![2, 4, 2, 4]);
    assert_eq!(w.audits[0].total_count(), 2);
    assert_eq!(w.audits[0].success_count(), 0);
    assert_eq!(
        w.audits[0].error_message(),
        &Some(
            "获取域名记录失败 home.example.com: HTTP请求失败: 500 Internal Server Error".to_string()
        )
    );
    assert!(w.commits.is_empty());
}

#[test]
fn partial_success_commits_and_keeps_the_error() {
    let zone = vec![record("r1", "example.com", "AAAA", IP)];
    let mut w = world(Some(config(&["", "home"], None)), Some(IP), zone);
    w.fail_writes = true;
    let verdict = w.run(Trigger::Scheduled);

    assert_eq!(verdict, Verdict::Updated);
    assert_eq!(w.audits[0].total_count(), 2);
    assert_eq!(w.audits[0].success_count(), 1);
    assert_eq!(
        w.audits[0].error_message(),
        &Some("创建域名失败: home.example.com".to_string())
    );
    assert_eq!(w.commits, vec![IP.to_string()]);
}

#[test]
fn no_selected_domain_writes_an_audit_and_fails() {
    let mut w = world(Some(config(&[], None)), Some(IP), Vec::new());
    let verdict = w.run(Trigger::Manual);

    assert_eq!(verdict, Verdict::Failed);
    assert!(w.requests.is_empty());
    assert_eq!(w.audits.len(), 1);
    assert_eq!(w.audits[0].total_count(), 0);
    assert_eq!(w.audits[0].success_count(), 0);
    assert!(w.commits.is_empty());
}

#[test]
fn audit_takes_the_previous_address_from_the_store() {
    let zone = vec![record("r1", "example.com", "AAAA", IP)];
    let mut w = world(Some(config(&[""], Some("2001:db8::9"))), Some(IP), zone);
    // Someone else changed the stored address after the configuration was
    // loaded.
    w.stored_ip = Some("2001:db8::7".to_string());
    let verdict = w.run(Trigger::Scheduled);

    assert_eq!(verdict, Verdict::Updated);
    assert_eq!(w.audits[0].previous_ip(), &Some("2001:db8::7".to_string()));
}

#[test]
fn an_event_that_answers_nothing_changes_nothing() {
    let cycle = Cycle::new(Trigger::Scheduled);
    assert_eq!(cycle.trigger(), Trigger::Scheduled);
    let cycle = cycle.handle(CycleEvent::Waited);
    assert_eq!(cycle.action(), CycleAction::LoadConfiguration);
    let cycle = cycle.handle(CycleEvent::Probed(Some(IP.to_string())));
    assert_eq!(cycle.action(), CycleAction::LoadConfiguration);
    let cycle = cycle.handle(CycleEvent::Configuration(None));
    assert_eq!(cycle.action(), CycleAction::Finish(Verdict::NoConfiguration));
    let cycle = cycle.handle(CycleEvent::Configuration(Some(config(&[""], None))));
    assert_eq!(cycle.action(), CycleAction::Finish(Verdict::NoConfiguration));
}

#[test]
fn success_count_never_exceeds_total() {
    for fail_writes in [false, true] {
        for fail_lists in [false, true] {
            let zone = vec![record("r1", "a.example.com", "AAAA", IP)];
            let mut w = world(Some(config(&["a", "b", "c"], None)), Some(IP), zone);
            w.fail_writes = fail_writes;
            w.fail_lists = fail_lists;
            w.run(Trigger::Manual);
            assert_eq!(w.audits.len(), 1);
            assert!(w.audits[0].success_count() <= w.audits[0].total_count());
            assert_eq!(w.audits[0].total_count(), 3);
            assert_eq!(w.commits.is_empty(), w.audits[0].success_count() == 0);
        }
    }
}
