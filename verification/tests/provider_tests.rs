use cloudflare_ddns::services::cloudflare::{
    aaaa_records, copy_record, full_domain, record_body, CloudflareClient, CloudflareConfig,
    DnsRecord, DnsRecordResponse, PER_PAGE,
};
use cloudflare_ddns::services::exchange::{
    is_success, record_name, Answer, BodyForm, Exchange, Fault, HttpMethod, HttpReply,
    ProviderError, ReplyBody,
};
use cloudflare_ddns::services::operation::{Action, Completion, Progress, Stage};
use cloudflare_ddns::services::retry::{
    after_failure, Backoff, Call, CallStep, Event, BASE_DELAY_SECS, MAX_ATTEMPTS,
};

fn client() -> CloudflareClient {
    CloudflareClient::new(CloudflareConfig {
        api_key: "secret".to_string(),
        zone_id: "z1".to_string(),
        root_domain: "example.com".to_string(),
    })
}

fn record(id: &str, name: &str, kind: &str, content: &str) -> DnsRecord {
    DnsRecord {
        id: id.to_string(),
        name: name.to_string(),
        record_type: kind.to_string(),
        content: content.to_string(),
        proxied: false,
        ttl: 1,
    }
}

fn page_of(n: usize, start: usize) -> Vec<DnsRecord> {
    (0..n).map(|i| record(&format!("id{}", start + i), "x.example.com", "AAAA", "::1")).collect()
}

fn ok_page(records: Vec<DnsRecord>) -> Event {
    Event::Reply(HttpReply::Answered {
        code: 200,
        status: "200 OK".to_string(),
        body: ReplyBody::Records(DnsRecordResponse { result: records, success: true }),
    })
}

fn status(code: u16, line: &str, body: ReplyBody) -> HttpReply {
    HttpReply::Answered { code, status: line.to_string(), body }
}

fn pending(progress: Progress) -> cloudflare_ddns::services::operation::Operation {
    match progress {
        Progress::Pending(operation) => operation,
        Progress::Finished(result) => panic!("finished early: {:?}", result),
    }
}

fn finished(progress: Progress) -> Result<Completion, ProviderError> {
    match progress {
        Progress::Finished(result) => result,
        Progress::Pending(operation) => panic!("still under way: {:?}", operation),
    }
}

#[test]
fn full_domain_of_empty_label_is_the_root() {
    assert_eq!(full_domain("", "example.com"), "example.com");
    assert_eq!(full_domain("home", "example.com"), "home.example.com");
    assert_eq!(full_domain("a.b", "example.com"), "a.b.example.com");
}

#[test]
fn record_body_has_the_fixed_fields() {
    let body = record_body("home.example.com", "2001:db8::1");
    assert_eq!(body.record_type, "AAAA");
    assert_eq!(body.name, "home.example.com");
    assert_eq!(body.content, "2001:db8::1");
    assert_eq!(body.ttl, 1);
    assert!(!body.proxied);
}

#[test]
fn requests_are_worded_for_each_exchange() {
    let c = client();
    assert_eq!(c.root_domain(), "example.com");

    let test = c.request(&Exchange::TestConnection);
    assert_eq!(test.method, HttpMethod::Get);
    assert_eq!(test.url, "https://api.cloudflare.com/client/v4/zones/z1");
    assert_eq!(test.authorization, "Bearer secret");
    assert_eq!(test.content_type, "application/json");
    assert_eq!(test.payload, None);
    assert_eq!(test.on_success, BodyForm::Skip);
    assert_eq!(test.on_failure, BodyForm::Skip);

    let list = c.request(&Exchange::ListPage { page: 12 });
    assert_eq!(list.method, HttpMethod::Get);
    assert_eq!(
        list.url,
        "https://api.cloudflare.com/client/v4/zones/z1/dns_records?page=12&per_page=100"
    );
    assert_eq!(list.on_success, BodyForm::Records);
    assert_eq!(list.on_failure, BodyForm::Skip);

    let fetch = c.request(&Exchange::FetchRecord { record_id: "abc".to_string() });
    assert_eq!(fetch.method, HttpMethod::Get);
    assert_eq!(fetch.url, "https://api.cloudflare.com/client/v4/zones/z1/dns_records/abc");
    assert_eq!(fetch.on_success, BodyForm::Json);
    assert_eq!(fetch.payload, None);

    let update = c.request(&Exchange::UpdateRecord {
        record_id: "abc".to_string(),
        name: "home.example.com".to_string(),
        content: "2001:db8::1".to_string(),
    });
    assert_eq!(update.method, HttpMethod::Put);
    assert_eq!(update.url, "https://api.cloudflare.com/client/v4/zones/z1/dns_records/abc");
    assert_eq!(update.payload, Some(record_body("home.example.com", "2001:db8::1")));
    assert_eq!(update.on_success, BodyForm::Skip);
    assert_eq!(update.on_failure, BodyForm::Text);

    let create = c.request(&Exchange::CreateRecord {
        name: "example.com".to_string(),
        content: "2001:db8::1".to_string(),
    });
    assert_eq!(create.method, HttpMethod::Post);
    assert_eq!(create.url, "https://api.cloudflare.com/client/v4/zones/z1/dns_records");
    assert_eq!(create.payload, Some(record_body("example.com", "2001:db8::1")));
    assert_eq!(create.on_failure, BodyForm::Text);
}

#[test]
fn aaaa_records_keeps_exact_matches_in_order() {
    let records = vec![
        record("1", "home.example.com", "A", "192.0.2.1"),
        record("2", "home.example.com", "AAAA", "::1"),
        record("3", "other.example.com", "AAAA", "::2"),
        record("4", "home.example.com", "AAAA", "::3"),
        record("5", "xhome.example.com", "AAAA", "::4"),
        record("6", "home.example.com", "aaaa", "::5"),
    ];
    let kept = aaaa_records(&records, "home.example.com");
    let ids: Vec<&str> = kept.iter().map(|r| r.id.as_str()).collect();
    assert_eq!(ids, vec!["2", "4"]);
    assert_eq!(kept[0], copy_record(&records[1]));
    assert!(aaaa_records(&records, "none.example.com").is_empty());
    assert!(aaaa_records(&Vec::new(), "home.example.com").is_empty());
}

#[test]
fn success_is_the_two_hundreds() {
    assert!(!is_success(199));
    assert!(is_success(200));
    assert!(is_success(204));
    assert!(is_success(299));
    assert!(!is_success(300));
    assert!(!is_success(404));
    assert!(!is_success(500));
}

#[test]
fn body_form_depends_on_exchange_and_status() {
    let list = Exchange::ListPage { page: 1 };
    assert_eq!(list.body_form(true), BodyForm::Records);
    assert_eq!(list.body_form(false), BodyForm::Skip);
    let create = Exchange::CreateRecord { name: "n".to_string(), content: "c".to_string() };
    assert_eq!(create.body_form(true), BodyForm::Skip);
    assert_eq!(create.body_form(false), BodyForm::Text);
    assert_eq!(Exchange::TestConnection.body_form(true), BodyForm::Skip);
    assert_eq!(Exchange::TestConnection.body_form(false), BodyForm::Skip);
}

#[test]
fn record_name_reads_result_name() {
    let body = br#"{"success":true,"result":{"id":"abc","name":"home.example.com","type":"AAAA"}}"#;
    assert_eq!(record_name(body), Ok("home.example.com".to_string()));
}

#[test]
fn record_name_reports_what_is_missing() {
    assert_eq!(record_name(b"not json"), Err(Fault::MalformedBody));
    assert_eq!(record_name(b""), Err(Fault::MalformedBody));
    assert_eq!(record_name(br#"{"success":true}"#), Err(Fault::MissingResult));
    assert_eq!(record_name(br#"["result"]"#), Err(Fault::MissingResult));
    assert_eq!(record_name(br#"{"result":{"id":"abc"}}"#), Err(Fault::MissingName));
    assert_eq!(record_name(br#"{"result":null}"#), Err(Fault::MissingName));
    assert_eq!(record_name(br#"{"result":{"name":17}}"#), Err(Fault::NameNotText));
    assert_eq!(record_name(br#"{"result":{"name":null}}"#), Err(Fault::NameNotText));
}

#[test]
fn interpret_judges_each_exchange() {
    let unreachable = Exchange::TestConnection.interpret(HttpReply::Unreachable("down".into()));
    assert_eq!(unreachable, Err(ProviderError { fault: Fault::Transport, detail: "down".into() }));

    assert_eq!(
        Exchange::TestConnection.interpret(status(200, "200 OK", ReplyBody::Skipped)),
        Ok(Answer::Connected)
    );
    assert_eq!(
        Exchange::TestConnection.interpret(status(403, "403 Forbidden", ReplyBody::Skipped)),
        Err(ProviderError { fault: Fault::ConnectionTest, detail: "403 Forbidden".into() })
    );

    let list = Exchange::ListPage { page: 1 };
    let page = DnsRecordResponse { result: vec![record("1", "n", "AAAA", "::1")], success: true };
    assert_eq!(
        list.interpret(status(200, "200 OK", ReplyBody::Records(page))),
        Ok(Answer::Page(vec![record("1", "n", "AAAA", "::1")]))
    );
    let refused = DnsRecordResponse { result: Vec::new(), success: false };
    assert_eq!(
        list.interpret(status(200, "200 OK", ReplyBody::Records(refused))),
        Err(ProviderError::bare(Fault::ListRejected))
    );
    assert_eq!(
        list.interpret(status(200, "200 OK", ReplyBody::Skipped)),
        Err(ProviderError::bare(Fault::MalformedBody))
    );
    assert_eq!(
        list.interpret(status(502, "502 Bad Gateway", ReplyBody::Skipped)),
        Err(ProviderError { fault: Fault::ListStatus, detail: "502 Bad Gateway".into() })
    );

    let fetch = Exchange::FetchRecord { record_id: "abc".to_string() };
    assert_eq!(
        fetch.interpret(status(
            200,
            "200 OK",
            ReplyBody::Json(br#"{"result":{"name":"a.example.com"}}"#.to_vec())
        )),
        Ok(Answer::RecordName("a.example.com".to_string()))
    );
    assert_eq!(
        fetch.interpret(status(200, "200 OK", ReplyBody::Json(b"{}".to_vec()))),
        Err(ProviderError::bare(Fault::MissingResult))
    );
    assert_eq!(
        fetch.interpret(status(404, "404 Not Found", ReplyBody::Skipped)),
        Err(ProviderError { fault: Fault::DetailStatus, detail: "404 Not Found".into() })
    );

    let update = Exchange::UpdateRecord {
        record_id: "abc".into(),
        name: "n".into(),
        content: "c".into(),
    };
    assert_eq!(update.interpret(status(200, "200 OK", ReplyBody::Skipped)), Ok(Answer::Written));
    assert_eq!(
        update.interpret(status(400, "400 Bad Request", ReplyBody::Text("no".into()))),
        Err(ProviderError { fault: Fault::UpdateRejected, detail: "no".into() })
    );
    let create = Exchange::CreateRecord { name: "n".into(), content: "c".into() };
    assert_eq!(create.interpret(status(201, "201 Created", ReplyBody::Skipped)), Ok(Answer::Written));
    assert_eq!(
        create.interpret(status(409, "409 Conflict", ReplyBody::Text("dup".into()))),
        Err(ProviderError { fault: Fault::CreateRejected, detail: "dup".into() })
    );
    assert_eq!(
        create.interpret(status(409, "409 Conflict", ReplyBody::Skipped)),
        Err(ProviderError::bare(Fault::MalformedBody))
    );
}

#[test]
fn every_fault_has_its_message() {
    let with = |fault, detail: &str| ProviderError { fault, detail: detail.to_string() }.message();
    assert_eq!(with(Fault::Transport, "connection refused"), "connection refused");
    assert_eq!(with(Fault::ConnectionTest, "403 Forbidden"), "Cloudflare API测试失败: 403 Forbidden");
    assert_eq!(with(Fault::ListStatus, "500 X"), "HTTP请求失败: 500 X");
    assert_eq!(with(Fault::ListRejected, ""), "获取DNS记录失败");
    assert_eq!(with(Fault::DetailStatus, "404 Not Found"), "获取记录信息失败: 404 Not Found");
    assert_eq!(with(Fault::MalformedBody, ""), "error decoding response body");
    assert_eq!(with(Fault::MissingResult, ""), "API响应中缺少result字段");
    assert_eq!(with(Fault::MissingName, ""), "记录中缺少name字段");
    assert_eq!(with(Fault::NameNotText, ""), "无法获取域名名称");
    assert_eq!(with(Fault::UpdateRejected, "bad"), "更新DNS记录失败: bad");
    assert_eq!(with(Fault::CreateRejected, "bad"), "创建DNS记录失败: bad");
    assert_eq!(ProviderError::bare(Fault::ListRejected).detail, "");
}

#[test]
fn backoff_grows_with_the_attempt() {
    assert_eq!(MAX_ATTEMPTS, 3);
    assert_eq!(BASE_DELAY_SECS, 2);
    assert_eq!(after_failure(1), Backoff::RetryAfter(2));
    assert_eq!(after_failure(2), Backoff::RetryAfter(4));
    assert_eq!(after_failure(3), Backoff::GiveUp);
    assert_eq!(after_failure(4), Backoff::GiveUp);
}

#[test]
fn call_that_always_fails_makes_three_attempts_with_waits_2_and_4() {
    let failure = |n: u32| Event::Reply(HttpReply::Unreachable(format!("down {}", n)));
    let mut call = Call::new(Exchange::TestConnection);
    let mut attempts = 0;
    let mut waits = Vec::new();
    let outcome = loop {
        assert!(!call.is_resting());
        assert_eq!(call.wait(), 0);
        attempts += 1;
        assert_eq!(call.attempt(), attempts);
        match call.handle(failure(attempts)) {
            CallStep::Finished(outcome) => break outcome,
            CallStep::Pending(resting) => {
                assert!(resting.is_resting());
                waits.push(resting.wait());
                // A reply while resting changes nothing.
                let resting = match resting.handle(failure(99)) {
                    CallStep::Pending(c) => c,
                    CallStep::Finished(_) => panic!("finished while resting"),
                };
                assert!(resting.is_resting());
                call = match resting.handle(Event::Waited) {
                    CallStep::Pending(c) => c,
                    CallStep::Finished(_) => panic!("finished by waiting"),
                };
            },
        }
    };
    assert_eq!(attempts, 3);
    assert_eq!(waits, vec![2, 4]);
    assert_eq!(outcome, Err(ProviderError { fault: Fault::Transport, detail: "down 3".into() }));
}

#[test]
fn call_that_succeeds_on_the_second_attempt_waits_once() {
    let call = Call::new(Exchange::TestConnection);
    assert_eq!(call.exchange(), &Exchange::TestConnection);
    let call = match call.handle(Event::Waited) {
        CallStep::Pending(c) => c,
        CallStep::Finished(_) => panic!("finished by waiting"),
    };
    assert_eq!(call.attempt(), 1);
    let resting = match call.handle(Event::Reply(status(500, "500 X", ReplyBody::Skipped))) {
        CallStep::Pending(c) => c,
        CallStep::Finished(_) => panic!("gave up after one attempt"),
    };
    assert_eq!(resting.wait(), 2);
    let call = match resting.handle(Event::Waited) {
        CallStep::Pending(c) => c,
        CallStep::Finished(_) => panic!("finished by waiting"),
    };
    assert_eq!(call.attempt(), 2);
    match call.handle(Event::Reply(status(200, "200 OK", ReplyBody::Skipped))) {
        CallStep::Finished(outcome) => assert_eq!(outcome, Ok(Answer::Connected)),
        CallStep::Pending(_) => panic!("still pending after success"),
    }
}

#[test]
fn settle_takes_the_outcome_as_given() {
    let call = Call::new(Exchange::ListPage { page: 1 });
    match call.settle(Ok(Answer::Written)) {
        CallStep::Finished(outcome) => assert_eq!(outcome, Ok(Answer::Written)),
        CallStep::Pending(_) => panic!("pending after an answer"),
    }
    let call = Call::new(Exchange::ListPage { page: 1 });
    match call.settle(Err(ProviderError::bare(Fault::ListRejected))) {
        CallStep::Pending(c) => {
            assert!(c.is_resting());
            assert_eq!(c.into_exchange(), Exchange::ListPage { page: 1 });
        },
        CallStep::Finished(_) => panic!("gave up after one attempt"),
    }
}

#[test]
fn test_connection_is_one_exchange() {
    let op = client().test_connection();
    assert!(matches!(op.stage(), Stage::Testing));
    assert_eq!(op.action(), Action::Send(client().request(&Exchange::TestConnection)));
    let result = finished(op.handle(Event::Reply(status(200, "200 OK", ReplyBody::Skipped))));
    assert_eq!(result, Ok(Completion::Confirmed));
}

#[test]
fn test_connection_fails_after_three_refusals() {
    let mut op = client().test_connection();
    for n in 1..=2u32 {
        assert_eq!(op.attempt(), n);
        op = pending(op.handle(Event::Reply(status(401, "401 Unauthorized", ReplyBody::Skipped))));
        assert_eq!(op.action(), Action::Wait(2 * n as u64));
        op = pending(op.handle(Event::Waited));
    }
    let result = finished(op.handle(Event::Reply(status(401, "401 Unauthorized", ReplyBody::Skipped))));
    assert_eq!(
        result,
        Err(ProviderError { fault: Fault::ConnectionTest, detail: "401 Unauthorized".into() })
    );
}

#[test]
fn listing_stops_at_a_short_page() {
    assert_eq!(PER_PAGE, 100);
    let c = client();
    let mut op = c.get_dns_records();
    assert_eq!(op.action(), Action::Send(c.request(&Exchange::ListPage { page: 1 })));
    op = pending(op.handle(ok_page(page_of(100, 0))));
    assert_eq!(op.action(), Action::Send(c.request(&Exchange::ListPage { page: 2 })));
    op = pending(op.handle(ok_page(page_of(100, 100))));
    assert_eq!(op.action(), Action::Send(c.request(&Exchange::ListPage { page: 3 })));
    match op.stage() {
        Stage::Listing { page, collected, only } => {
            assert_eq!(*page, 3);
            assert_eq!(collected.len(), 200);
            assert_eq!(only, &None);
        },
        other => panic!("not listing: {:?}", other),
    }
    let result = finished(op.handle(ok_page(page_of(42, 200))));
    match result {
        Ok(Completion::Records(records)) => {
            assert_eq!(records.len(), 242);
            assert_eq!(records[0].id, "id0");
            assert_eq!(records[241].id, "id241");
        },
        other => panic!("unexpected: {:?}", other),
    }
}

#[test]
fn listing_stops_at_an_empty_page() {
    let mut op = client().get_dns_records();
    for n in 0..5 {
        op = pending(op.handle(ok_page(page_of(100, 100 * n))));
    }
    let result = finished(op.handle(ok_page(Vec::new())));
    match result {
        Ok(Completion::Records(records)) => assert_eq!(records.len(), 500),
        other => panic!("unexpected: {:?}", other),
    }
    let empty_zone = finished(client().get_dns_records().handle(ok_page(Vec::new())));
    assert_eq!(empty_zone, Ok(Completion::Records(Vec::new())));
}

#[test]
fn listing_fails_as_a_whole_when_a_page_fails() {
    let mut op = client().get_dns_records();
    op = pending(op.handle(ok_page(page_of(100, 0))));
    for _ in 0..2 {
        op = pending(op.handle(Event::Reply(HttpReply::Unreachable("reset".into()))));
        op = pending(op.handle(Event::Waited));
    }
    let result = finished(op.handle(Event::Reply(HttpReply::Unreachable("reset".into()))));
    assert_eq!(result, Err(ProviderError { fault: Fault::Transport, detail: "reset".into() }));
}

#[test]
fn get_aaaa_records_filters_what_was_listed() {
    let op = client().get_aaaa_records("home.example.com");
    let zone = vec![
        record("1", "home.example.com", "A", "192.0.2.1"),
        record("2", "home.example.com", "AAAA", "::1"),
        record("3", "example.com", "AAAA", "::2"),
    ];
    let result = finished(op.handle(ok_page(zone)));
    assert_eq!(result, Ok(Completion::Records(vec![record("2", "home.example.com", "AAAA", "::1")])));
}

#[test]
fn update_reads_the_name_before_it_writes() {
    let c = client();
    let op = c.update_dns_record("abc", "2001:db8::1");
    assert_eq!(
        op.action(),
        Action::Send(c.request(&Exchange::FetchRecord { record_id: "abc".into() }))
    );
    let detail = br#"{"result":{"name":"real.example.com"}}"#.to_vec();
    let op = pending(op.handle(Event::Reply(status(200, "200 OK", ReplyBody::Json(detail)))));
    assert!(matches!(op.stage(), Stage::Writing));
    assert_eq!(
        op.action(),
        Action::Send(c.request(&Exchange::UpdateRecord {
            record_id: "abc".into(),
            name: "real.example.com".into(),
            content: "2001:db8::1".into(),
        }))
    );
    let result = finished(op.handle(Event::Reply(status(200, "200 OK", ReplyBody::Skipped))));
    assert_eq!(result, Ok(Completion::Confirmed));
}

#[test]
fn update_fails_when_the_name_cannot_be_read() {
    let mut op = client().update_dns_record("abc", "2001:db8::1");
    for _ in 0..2 {
        let body = ReplyBody::Json(br#"{"result":{}}"#.to_vec());
        op = pending(op.handle(Event::Reply(status(200, "200 OK", body))));
        op = pending(op.handle(Event::Waited));
    }
    let body = ReplyBody::Json(br#"{"result":{}}"#.to_vec());
    let result = finished(op.handle(Event::Reply(status(200, "200 OK", body))));
    assert_eq!(result, Err(ProviderError::bare(Fault::MissingName)));
}

#[test]
fn create_names_the_record_after_label_and_root() {
    let c = client();
    let op = c.create_aaaa_record("home", "2001:db8::1");
    assert_eq!(
        op.action(),
        Action::Send(c.request(&Exchange::CreateRecord {
            name: "home.example.com".into(),
            content: "2001:db8::1".into(),
        }))
    );
    let root = c.create_aaaa_record("", "2001:db8::1");
    assert_eq!(
        root.action(),
        Action::Send(c.request(&Exchange::CreateRecord {
            name: "example.com".into(),
            content: "2001:db8::1".into(),
        }))
    );
    let result = finished(root.handle(Event::Reply(status(200, "200 OK", ReplyBody::Skipped))));
    assert_eq!(result, Ok(Completion::Confirmed));
}

#[test]
fn advance_takes_the_outcome_as_given() {
    let op = client().get_dns_records();
    let result = finished(op.advance(Ok(Answer::Written)));
    assert_eq!(result, Err(ProviderError::bare(Fault::MalformedBody)));
    let op = client().update_dns_record("abc", "::1");
    let op = pending(op.advance(Ok(Answer::RecordName("n.example.com".into()))));
    assert!(matches!(op.stage(), Stage::Writing));
    let result = finished(op.advance(Err(ProviderError::bare(Fault::ListRejected))));
    assert_eq!(result, Err(ProviderError::bare(Fault::ListRejected)));
}
