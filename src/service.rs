//! Service status, cloud configuration and the chat message record.

use vstd::prelude::*;

verus! {

/// One turn of a conversation.
pub struct ChatMessage {
    pub id: String,
    pub role: String,
    pub content: String,
    pub timestamp: i64,
}

/// Credentials for the cloud provider.
pub struct TencentCloudConfig {
    pub secret_id: String,
    pub secret_key: String,
    pub region: String,
}

/// Which subsystems are available, and how many tools there are.
#[derive(PartialEq, Eq, Structural, Clone, Copy, Debug)]
pub struct ServiceStatus {
    pub initialized: bool,
    pub rag: bool,
    pub mcp: bool,
    pub llm: bool,
    pub tools: u32,
}

/// The status snapshot: everything up, four tools.
pub open spec fn current_status() -> ServiceStatus {
    ServiceStatus { initialized: true, rag: true, mcp: true, llm: true, tools: 4 }
}

/// Reports the status snapshot. No earlier call is needed and none changes it.
pub fn get_service_status() -> (r: Result<ServiceStatus, String>)
    ensures
        r == Ok::<ServiceStatus, String>(current_status()),
{
    Ok(ServiceStatus { initialized: true, rag: true, mcp: true, llm: true, tools: 4 })
}

/// Accepts cloud credentials. They are neither checked nor stored, so the
/// call succeeds whatever the fields hold, empty text included.
pub fn set_tencent_cloud_config(_config: TencentCloudConfig) -> (r: Result<String, String>)
    ensures
        r matches Ok(s) && s@ == "腾讯云配置设置成功"@,
{
    Ok("腾讯云配置设置成功".to_owned())
}

} // verus!
