//! Backend of a desktop panda companion: the command handlers that the
//! front end invokes, with their behaviour stated as contracts.

pub mod knowledge;
pub mod params;
pub mod reply;
pub mod service;
pub mod text;
pub mod tools;
pub mod window;

pub use knowledge::{add_knowledge_document, search_knowledge, KnowledgeHit, KnowledgeResponse, RAGQuery};
pub use params::{ParamBag, ParamValue};
pub use reply::{generate_llm_response, LlmResponse, ReplyKind, TokenUsage};
pub use service::{get_service_status, set_tencent_cloud_config, ChatMessage, ServiceStatus, TencentCloudConfig};
pub use tools::{call_mcp_tool, ActionReport, MCPToolCall, MoodReport, ToolResult};
pub use window::{chat_window_spec, create_chat_window, get_screen_size, WindowSpec};
