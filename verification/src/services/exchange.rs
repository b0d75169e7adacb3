//! One exchange with the provider: the request to send, how to read the
//! reply, and what the reply means.
//!
//! Sending is the caller's business. It receives an `HttpRequest`, reads the
//! reply's body in the form that `Exchange::body_form` names for the status it
//! got, and hands back an `HttpReply`.

use crate::json::{json_below, json_contents, json_document, member, parse_document, text_of};
use crate::services::cloudflare::{
    records_view, DnsRecord, DnsRecordResponse, DnsRecordResponseView, DnsRecordView,
    UpdateDnsRecordRequest, UpdateDnsRecordRequestView,
};
use crate::text::join2;
use vstd::prelude::*;
use vstd::string::*;

verus! {

/// The HTTP methods the client uses.
#[derive(Debug, Clone, Copy, PartialEq, Eq, Structural)]
pub enum HttpMethod {
    Get,
    Put,
    Post,
}

/// A request, ready to send.
#[derive(Debug, PartialEq, Eq)]
pub struct HttpRequest {
    pub method: HttpMethod,
    pub url: String,
    /// Value of the `Authorization` header.
    pub authorization: String,
    /// Value of the `Content-Type` header.
    pub content_type: String,
    /// The JSON body, where the request has one.
    pub payload: Option<UpdateDnsRecordRequest>,
    /// How to read the body of a reply whose status reports success.
    pub on_success: BodyForm,
    /// How to read the body of a reply whose status reports failure.
    pub on_failure: BodyForm,
}

/// What a `HttpRequest` holds, with every string as its characters.
pub struct HttpRequestView {
    pub method: HttpMethod,
    pub url: Seq<char>,
    pub authorization: Seq<char>,
    pub content_type: Seq<char>,
    pub payload: Option<UpdateDnsRecordRequestView>,
    pub on_success: BodyForm,
    pub on_failure: BodyForm,
}

impl View for HttpRequest {
    type V = HttpRequestView;

    open spec fn view(&self) -> HttpRequestView {
        HttpRequestView {
            method: self.method,
            url: self.url@,
            authorization: self.authorization@,
            content_type: self.content_type@,
            payload: match self.payload {
                Some(p) => Some(p@),
                None => None,
            },
            on_success: self.on_success,
            on_failure: self.on_failure,
        }
    }
}

/// How the body of a reply is to be read.
#[derive(Debug, Clone, Copy, PartialEq, Eq, Structural)]
pub enum BodyForm {
    /// Not at all.
    Skip,
    /// As text.
    Text,
    /// As the bytes of a JSON document.
    Json,
    /// As one page of the record list.
    Records,
}

/// The body of a reply, as far as it was read.
#[derive(Debug)]
pub enum ReplyBody {
    Skipped,
    Text(String),
    Json(Vec<u8>),
    Records(DnsRecordResponse),
}

/// What a `ReplyBody` holds, with every string as its characters.
pub enum ReplyBodyView {
    Skipped,
    Text(Seq<char>),
    Json(Seq<u8>),
    Records(DnsRecordResponseView),
}

impl View for ReplyBody {
    type V = ReplyBodyView;

    open spec fn view(&self) -> ReplyBodyView {
        match self {
            ReplyBody::Skipped => ReplyBodyView::Skipped,
            ReplyBody::Text(t) => ReplyBodyView::Text(t@),
            ReplyBody::Json(b) => ReplyBodyView::Json(b@),
            ReplyBody::Records(r) => ReplyBodyView::Records(r@),
        }
    }
}

/// What came back for a request.
#[derive(Debug)]
pub enum HttpReply {
    /// Nothing usable: the request could not be sent, or the body could not
    /// be read or decoded. Holds the transport's own words.
    Unreachable(String),
    /// A reply with its status code, the status line in text, and the body.
    Answered { code: u16, status: String, body: ReplyBody },
}

/// What a `HttpReply` holds, with every string as its characters.
pub enum HttpReplyView {
    Unreachable(Seq<char>),
    Answered { code: u16, status: Seq<char>, body: ReplyBodyView },
}

impl View for HttpReply {
    type V = HttpReplyView;

    open spec fn view(&self) -> HttpReplyView {
        match self {
            HttpReply::Unreachable(m) => HttpReplyView::Unreachable(m@),
            HttpReply::Answered { code, status, body } => HttpReplyView::Answered {
                code: *code,
                status: status@,
                body: body@,
            },
        }
    }
}

/// The ways an exchange can fail.
#[derive(Debug, Clone, Copy, PartialEq, Eq, Structural)]
pub enum Fault {
    /// The transport gave up; the detail holds its words.
    Transport,
    /// The zone answered the connection test with a failure status (detail).
    ConnectionTest,
    /// A page of the record list came with a failure status (detail).
    ListStatus,
    /// A page of the record list came marked as unsuccessful.
    ListRejected,
    /// The record's details came with a failure status (detail).
    DetailStatus,
    /// The body was not what the request called for.
    MalformedBody,
    /// The record's details hold no `result`.
    MissingResult,
    /// The record's details hold no `name` under `result`.
    MissingName,
    /// The record's `name` is not a string.
    NameNotText,
    /// The provider refused the update; the detail holds its reply.
    UpdateRejected,
    /// The provider refused the new record; the detail holds its reply.
    CreateRejected,
}

/// A failed exchange.
#[derive(Debug, Clone, PartialEq, Eq)]
pub struct ProviderError {
    pub fault: Fault,
    /// Text that came with the failure; empty where the fault has none.
    pub detail: String,
}

/// What a `ProviderError` holds, with every string as its characters.
pub struct ProviderErrorView {
    pub fault: Fault,
    pub detail: Seq<char>,
}

impl View for ProviderError {
    type V = ProviderErrorView;

    open spec fn view(&self) -> ProviderErrorView {
        ProviderErrorView { fault: self.fault, detail: self.detail@ }
    }
}

/// The text of a failure.
pub open spec fn spec_message(e: ProviderErrorView) -> Seq<char> {
    match e.fault {
        Fault::Transport => e.detail,
        Fault::ConnectionTest => "Cloudflare API测试失败: "@ + e.detail,
        Fault::ListStatus => "HTTP请求失败: "@ + e.detail,
        Fault::ListRejected => "获取DNS记录失败"@,
        Fault::DetailStatus => "获取记录信息失败: "@ + e.detail,
        Fault::MalformedBody => "error decoding response body"@,
        Fault::MissingResult => "API响应中缺少result字段"@,
        Fault::MissingName => "记录中缺少name字段"@,
        Fault::NameNotText => "无法获取域名名称"@,
        Fault::UpdateRejected => "更新DNS记录失败: "@ + e.detail,
        Fault::CreateRejected => "创建DNS记录失败: "@ + e.detail,
    }
}

impl ProviderError {
    /// A failure without detail.
    pub fn bare(fault: Fault) -> (e: ProviderError)
        ensures
            e@ == (ProviderErrorView { fault, detail: Seq::<char>::empty() }),
    {
        ProviderError { fault, detail: String::new() }
    }

    /// The text of this failure.
    pub fn message(&self) -> (s: String)
        ensures
            s@ == spec_message(self@),
    {
        match self.fault {
            Fault::Transport => self.detail.clone(),
            Fault::ConnectionTest => join2("Cloudflare API测试失败: ", self.detail.as_str()),
            Fault::ListStatus => join2("HTTP请求失败: ", self.detail.as_str()),
            Fault::ListRejected => String::from_str("获取DNS记录失败"),
            Fault::DetailStatus => join2("获取记录信息失败: ", self.detail.as_str()),
            Fault::MalformedBody => String::from_str("error decoding response body"),
            Fault::MissingResult => String::from_str("API响应中缺少result字段"),
            Fault::MissingName => String::from_str("记录中缺少name字段"),
            Fault::NameNotText => String::from_str("无法获取域名名称"),
            Fault::UpdateRejected => join2("更新DNS记录失败: ", self.detail.as_str()),
            Fault::CreateRejected => join2("创建DNS记录失败: ", self.detail.as_str()),
        }
    }
}

/// The exchanges the client knows.
#[derive(Debug, PartialEq, Eq)]
pub enum Exchange {
    /// Read the zone, to see whether the credentials work.
    TestConnection,
    /// Read one page of the zone's record list. Pages count from 1.
    ListPage { page: u32 },
    /// Read one record's details.
    FetchRecord { record_id: String },
    /// Overwrite a record with an AAAA record `name` holding `content`.
    UpdateRecord { record_id: String, name: String, content: String },
    /// Add an AAAA record `name` holding `content`.
    CreateRecord { name: String, content: String },
}

/// What an `Exchange` holds, with every string as its characters.
pub enum ExchangeView {
    TestConnection,
    ListPage { page: u32 },
    FetchRecord { record_id: Seq<char> },
    UpdateRecord { record_id: Seq<char>, name: Seq<char>, content: Seq<char> },
    CreateRecord { name: Seq<char>, content: Seq<char> },
}

impl View for Exchange {
    type V = ExchangeView;

    open spec fn view(&self) -> ExchangeView {
        match self {
            Exchange::TestConnection => ExchangeView::TestConnection,
            Exchange::ListPage { page } => ExchangeView::ListPage { page: *page },
            Exchange::FetchRecord { record_id } => ExchangeView::FetchRecord {
                record_id: record_id@,
            },
            Exchange::UpdateRecord { record_id, name, content } => ExchangeView::UpdateRecord {
                record_id: record_id@,
                name: name@,
                content: content@,
            },
            Exchange::CreateRecord { name, content } => ExchangeView::CreateRecord {
                name: name@,
                content: content@,
            },
        }
    }
}

/// What a successful exchange yields.
#[derive(Debug, PartialEq, Eq)]
pub enum Answer {
    /// The zone can be read.
    Connected,
    /// The records of one page.
    Page(Vec<DnsRecord>),
    /// The name the provider holds for a record.
    RecordName(String),
    /// The record was written.
    Written,
}

/// The model of an `Answer`.
pub enum AnswerView {
    Connected,
    Page(Seq<DnsRecordView>),
    RecordName(Seq<char>),
    Written,
}

impl View for Answer {
    type V = AnswerView;

    open spec fn view(&self) -> AnswerView {
        match self {
            Answer::Connected => AnswerView::Connected,
            Answer::Page(records) => AnswerView::Page(records_view(records@)),
            Answer::RecordName(name) => AnswerView::RecordName(name@),
            Answer::Written => AnswerView::Written,
        }
    }
}

/// The view of an exchange's outcome.
pub open spec fn outcome_view(outcome: Result<Answer, ProviderError>) -> Result<
    AnswerView,
    ProviderErrorView,
> {
    match outcome {
        Ok(a) => Ok(a@),
        Err(e) => Err(e@),
    }
}

/// Whether a status code reports success: 200 to 299.
pub open spec fn spec_is_success(code: u16) -> bool {
    200 <= code <= 299
}

/// Whether a status code reports success.
pub fn is_success(code: u16) -> (r: bool)
    ensures
        r == spec_is_success(code),
{
    200 <= code && code <= 299
}

/// The form in which the body of a reply is wanted, by whether its status
/// reports success.
pub open spec fn spec_body_form(exchange: ExchangeView, success: bool) -> BodyForm {
    match exchange {
        ExchangeView::TestConnection => BodyForm::Skip,
        ExchangeView::ListPage { .. } => if success {
            BodyForm::Records
        } else {
            BodyForm::Skip
        },
        ExchangeView::FetchRecord { .. } => if success {
            BodyForm::Json
        } else {
            BodyForm::Skip
        },
        ExchangeView::UpdateRecord { .. } => if success {
            BodyForm::Skip
        } else {
            BodyForm::Text
        },
        ExchangeView::CreateRecord { .. } => if success {
            BodyForm::Skip
        } else {
            BodyForm::Text
        },
    }
}

/// The name found in a record's details: the string that stands under
/// `result`, then `name`, in the JSON document in `bytes`; else the fault
/// that says what is missing.
pub open spec fn spec_record_name(bytes: Seq<u8>) -> Result<Seq<char>, Fault> {
    match json_document(bytes) {
        None => Err(Fault::MalformedBody),
        Some(contents) => if !contents.dom().contains(seq!["result"@]) {
            Err(Fault::MissingResult)
        } else if !contents.dom().contains(seq!["result"@, "name"@]) {
            Err(Fault::MissingName)
        } else {
            match contents[seq!["result"@, "name"@]] {
                Some(text) => Ok(text),
                None => Err(Fault::NameNotText),
            }
        },
    }
}

/// What a reply means for the exchange it answers.
pub open spec fn spec_interpret(exchange: ExchangeView, reply: HttpReplyView) -> Result<
    AnswerView,
    ProviderErrorView,
> {
    match reply {
        HttpReplyView::Unreachable(words) => Err(
            ProviderErrorView { fault: Fault::Transport, detail: words },
        ),
        HttpReplyView::Answered { code, status, body } => match exchange {
            ExchangeView::TestConnection => if spec_is_success(code) {
                Ok(AnswerView::Connected)
            } else {
                Err(ProviderErrorView { fault: Fault::ConnectionTest, detail: status })
            },
            ExchangeView::ListPage { .. } => if !spec_is_success(code) {
                Err(ProviderErrorView { fault: Fault::ListStatus, detail: status })
            } else {
                match body {
                    ReplyBodyView::Records(page) => if page.success {
                        Ok(AnswerView::Page(page.result))
                    } else {
                        Err(spec_bare(Fault::ListRejected))
                    },
                    _ => Err(spec_bare(Fault::MalformedBody)),
                }
            },
            ExchangeView::FetchRecord { .. } => if !spec_is_success(code) {
                Err(ProviderErrorView { fault: Fault::DetailStatus, detail: status })
            } else {
                match body {
                    ReplyBodyView::Json(bytes) => match spec_record_name(bytes) {
                        Ok(name) => Ok(AnswerView::RecordName(name)),
                        Err(fault) => Err(spec_bare(fault)),
                    },
                    _ => Err(spec_bare(Fault::MalformedBody)),
                }
            },
            ExchangeView::UpdateRecord { .. } => if spec_is_success(code) {
                Ok(AnswerView::Written)
            } else {
                match body {
                    ReplyBodyView::Text(text) => Err(
                        ProviderErrorView { fault: Fault::UpdateRejected, detail: text },
                    ),
                    _ => Err(spec_bare(Fault::MalformedBody)),
                }
            },
            ExchangeView::CreateRecord { .. } => if spec_is_success(code) {
                Ok(AnswerView::Written)
            } else {
                match body {
                    ReplyBodyView::Text(text) => Err(
                        ProviderErrorView { fault: Fault::CreateRejected, detail: text },
                    ),
                    _ => Err(spec_bare(Fault::MalformedBody)),
                }
            },
        },
    }
}

/// A failure without detail.
pub open spec fn spec_bare(fault: Fault) -> ProviderErrorView {
    ProviderErrorView { fault, detail: Seq::<char>::empty() }
}

/// Reads the record's name out of the JSON document in `bytes`.
pub fn record_name(bytes: &[u8]) -> (r: Result<String, Fault>)
    ensures
        match r {
            Ok(name) => spec_record_name(bytes@) == Ok::<Seq<char>, Fault>(name@),
            Err(fault) => spec_record_name(bytes@) == Err::<Seq<char>, Fault>(fault),
        },
{
    let ghost outer = seq!["result"@];
    let ghost inner = seq!["name"@];
    let ghost both = seq!["result"@, "name"@];
    proof {
        assert(outer + inner =~= both);
        assert(inner + Seq::<Seq<char>>::empty() =~= inner);
    }
    match parse_document(bytes) {
        Err(_) => Err(Fault::MalformedBody),
        Ok(document) => match member(&document, "result") {
            None => Err(Fault::MissingResult),
            Some(result) => {
                assert(json_contents(*result) == json_below(json_contents(document), "result"@));
                match member(result, "name") {
                    None => Err(Fault::MissingName),
                    Some(name) => {
                        assert(json_contents(*name) == json_below(
                            json_contents(*result),
                            "name"@,
                        ));
                        assert(json_contents(*name)[Seq::empty()] == json_contents(
                            document,
                        )[both]);
                        match text_of(name) {
                            None => Err(Fault::NameNotText),
                            Some(text) => Ok(text),
                        }
                    },
                }
            },
        },
    }
}

impl Exchange {
    /// The form in which the body of a reply is wanted, by whether its
    /// status reports success.
    pub fn body_form(&self, ok: bool) -> (form: BodyForm)
        ensures
            form == spec_body_form(self@, ok),
    {
        match self {
            Exchange::TestConnection => BodyForm::Skip,
            Exchange::ListPage { .. } => if ok {
                BodyForm::Records
            } else {
                BodyForm::Skip
            },
            Exchange::FetchRecord { .. } => if ok {
                BodyForm::Json
            } else {
                BodyForm::Skip
            },
            Exchange::UpdateRecord { .. } => if ok {
                BodyForm::Skip
            } else {
                BodyForm::Text
            },
            Exchange::CreateRecord { .. } => if ok {
                BodyForm::Skip
            } else {
                BodyForm::Text
            },
        }
    }

    /// What `reply` means for this exchange: the answer, or the failure that
    /// counts against the retry budget.
    pub fn interpret(&self, reply: HttpReply) -> (outcome: Result<Answer, ProviderError>)
        ensures
            outcome_view(outcome) == spec_interpret(self@, reply@),
    {
        match reply {
            HttpReply::Unreachable(words) => Err(
                ProviderError { fault: Fault::Transport, detail: words },
            ),
            HttpReply::Answered { code, status, body } => {
                let ok = is_success(code);
                match self {
                    Exchange::TestConnection => if ok {
                        Ok(Answer::Connected)
                    } else {
                        Err(ProviderError { fault: Fault::ConnectionTest, detail: status })
                    },
                    Exchange::ListPage { .. } => if !ok {
                        Err(ProviderError { fault: Fault::ListStatus, detail: status })
                    } else {
                        match body {
                            ReplyBody::Records(page) => if page.success {
                                Ok(Answer::Page(page.result))
                            } else {
                                Err(ProviderError::bare(Fault::ListRejected))
                            },
                            _ => Err(ProviderError::bare(Fault::MalformedBody)),
                        }
                    },
                    Exchange::FetchRecord { .. } => if !ok {
                        Err(ProviderError { fault: Fault::DetailStatus, detail: status })
                    } else {
                        match body {
                            ReplyBody::Json(bytes) => match record_name(bytes.as_slice()) {
                                Ok(name) => Ok(Answer::RecordName(name)),
                                Err(fault) => Err(ProviderError::bare(fault)),
                            },
                            _ => Err(ProviderError::bare(Fault::MalformedBody)),
                        }
                    },
                    Exchange::UpdateRecord { .. } => if ok {
                        Ok(Answer::Written)
                    } else {
                        match body {
                            ReplyBody::Text(text) => Err(
                                ProviderError { fault: Fault::UpdateRejected, detail: text },
                            ),
                            _ => Err(ProviderError::bare(Fault::MalformedBody)),
                        }
                    },
                    Exchange::CreateRecord { .. } => if ok {
                        Ok(Answer::Written)
                    } else {
                        match body {
                            ReplyBody::Text(text) => Err(
                                ProviderError { fault: Fault::CreateRejected, detail: text },
                            ),
                            _ => Err(ProviderError::bare(Fault::MalformedBody)),
                        }
                    },
                }
            },
        }
    }
}

} // verus!
