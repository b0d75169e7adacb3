//! Request and response bodies of the management API, and the response that
//! answers each request once the service has done its part.

use crate::config::database::{AppConfig, DnsUpdateRecord};
use crate::text::{join2, opt_text, texts};
use vstd::prelude::*;
use vstd::string::*;

verus! {

/// How many audit records the API hands out at most.
pub const RECENT_RECORDS: i32 = 50;

/// Credentials and zone to try out against the provider.
#[derive(Debug, Clone, PartialEq, Eq)]
pub struct TestConfigRequest {
    pub api_key: String,
    pub zone_id: String,
    pub root_domain: String,
}

/// A complete configuration as the user entered it.
#[derive(Debug, Clone, PartialEq, Eq)]
pub struct SaveConfigRequest {
    pub api_key: String,
    pub zone_id: String,
    pub root_domain: String,
    pub selected_subdomains: Vec<String>,
    pub check_interval: u64,
}

/// The envelope of every response.
#[derive(Debug, Clone, PartialEq, Eq)]
pub struct ApiResponse<T> {
    pub success: bool,
    pub data: Option<T>,
    pub message: Option<String>,
}

/// The subdomain labels found in the zone and this host's address.
#[derive(Debug, Clone, PartialEq, Eq)]
pub struct DomainListResponse {
    pub domains: Vec<String>,
    pub current_ip: Option<String>,
}

/// Whether a configuration is stored, and which.
#[derive(Debug, Clone, PartialEq, Eq)]
pub struct ConfigStatus {
    pub configured: bool,
    pub current_config: Option<AppConfig>,
}

/// The newest audit records.
#[derive(Debug, Clone, PartialEq, Eq)]
pub struct DnsUpdateRecordsResponse {
    pub records: Vec<DnsUpdateRecord>,
}

/// Why the audit records could not be had.
#[derive(Debug, Clone, PartialEq, Eq)]
pub enum RecordsError {
    /// The store could not be opened; holds the store's words.
    Connection(String),
    /// The query failed; holds the store's words.
    Query(String),
}

/// A response that carries a message and no data.
pub open spec fn is_notice<T>(response: ApiResponse<T>, success: bool, message: Seq<char>) -> bool {
    &&& response.success == success
    &&& response.data is None
    &&& opt_text(response.message) == Some(message)
}

fn notice<T>(success: bool, message: String) -> (response: ApiResponse<T>)
    ensures
        is_notice(response, success, message@),
{
    ApiResponse { success, data: None, message: Some(message) }
}

/// The response to a configuration test: success only if the provider
/// confirmed; a failure carries the error's words.
pub fn test_config(result: Result<bool, String>) -> (response: ApiResponse<()>)
    ensures
        match result {
            Ok(true) => is_notice(response, true, "配置测试成功"@),
            Ok(false) => is_notice(response, false, "配置测试失败"@),
            Err(e) => is_notice(response, false, "配置测试错误: "@ + e@),
        },
{
    match result {
        Ok(true) => notice(true, String::from_str("配置测试成功")),
        Ok(false) => notice(false, String::from_str("配置测试失败")),
        Err(e) => notice(false, join2("配置测试错误: ", e.as_str())),
    }
}

/// The response to a request for the zone's subdomain labels: the labels
/// with the host's address, if one was found, or the error's words.
pub fn get_domain_list(result: Result<Vec<String>, String>, current_ip: Option<String>) -> (response:
    ApiResponse<DomainListResponse>)
    ensures
        match result {
            Ok(domains) => {
                &&& response.success
                &&& response.message is None
                &&& response.data matches Some(list)
                &&& texts(list.domains@) == texts(domains@)
                &&& opt_text(list.current_ip) == opt_text(current_ip)
            },
            Err(e) => is_notice(response, false, "获取域名列表失败: "@ + e@),
        },
{
    match result {
        Ok(domains) => ApiResponse {
            success: true,
            data: Some(DomainListResponse { domains, current_ip }),
            message: None,
        },
        Err(e) => notice(false, join2("获取域名列表失败: ", e.as_str())),
    }
}

/// The response to saving a configuration.
pub fn save_config(result: Result<(), String>) -> (response: ApiResponse<()>)
    ensures
        match result {
            Ok(_) => is_notice(response, true, "配置保存并更新成功"@),
            Err(e) => is_notice(response, false, "配置保存失败: "@ + e@),
        },
{
    match result {
        Ok(_) => notice(true, String::from_str("配置保存并更新成功")),
        Err(e) => notice(false, join2("配置保存失败: ", e.as_str())),
    }
}

/// The response to a request for the configuration's status. A stored
/// configuration is shown only if the store says that one is there.
pub fn get_config_status(configured: bool, loaded: Option<AppConfig>) -> (response: ApiResponse<
    ConfigStatus,
>)
    ensures
        response.success,
        response.message is None,
        response.data matches Some(status) && status.configured == configured && (match (
            configured,
            loaded,
        ) {
            (true, Some(config)) => status.current_config matches Some(shown) && shown@
                == config@,
            _ => status.current_config is None,
        }),
{
    let current_config = if configured {
        loaded
    } else {
        None
    };
    ApiResponse {
        success: true,
        data: Some(ConfigStatus { configured, current_config }),
        message: None,
    }
}

/// The response to a request for the host's address.
pub fn get_current_ip(result: Result<String, String>) -> (response: ApiResponse<String>)
    ensures
        match result {
            Ok(ip) => response.success && response.message is None && opt_text(response.data)
                == Some(ip@),
            Err(e) => is_notice(response, false, "获取当前IP失败: "@ + e@),
        },
{
    match result {
        Ok(ip) => ApiResponse { success: true, data: Some(ip), message: None },
        Err(e) => notice(false, join2("获取当前IP失败: ", e.as_str())),
    }
}

/// The response to a request for the newest audit records.
pub fn get_dns_update_records(result: Result<Vec<DnsUpdateRecord>, RecordsError>) -> (response:
    ApiResponse<DnsUpdateRecordsResponse>)
    ensures
        match result {
            Ok(records) => response.success && response.message is None && (response.data matches Some(
                body,
            ) && body.records == records),
            Err(RecordsError::Connection(e)) => is_notice(response, false, "数据库连接失败: "@ + e@),
            Err(RecordsError::Query(e)) => is_notice(
                response,
                false,
                "获取DNS更新记录失败: "@ + e@,
            ),
        },
{
    match result {
        Ok(records) => ApiResponse {
            success: true,
            data: Some(DnsUpdateRecordsResponse { records }),
            message: None,
        },
        Err(RecordsError::Connection(e)) => notice(false, join2("数据库连接失败: ", e.as_str())),
        Err(RecordsError::Query(e)) => notice(false, join2("获取DNS更新记录失败: ", e.as_str())),
    }
}

} // verus!
