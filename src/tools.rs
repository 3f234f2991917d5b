//! The tool dispatcher: a tool name and a parameter bag in, a canned
//! result out.

use vstd::prelude::*;

use crate::knowledge::KnowledgeResponse;
use crate::params::ParamBag;
use crate::text::{concat3, text_equals};

verus! {

/// What an action-like tool reports.
pub struct ActionReport {
    pub success: bool,
    pub action: String,
    pub message: String,
}

/// What the mood tool reports.
pub struct MoodReport {
    pub success: bool,
    pub mood: String,
    pub message: String,
}

/// The result of a recognised tool, one variant per tool.
pub enum ToolResult {
    PandaAction(ActionReport),
    PandaMood(MoodReport),
    KnowledgeSearch(KnowledgeResponse),
    WindowControl(ActionReport),
}

/// A tool invocation as the front end phrases it.
pub struct MCPToolCall {
    pub tool_name: String,
    pub parameters: ParamBag,
}

/// The names that the dispatcher recognises.
pub open spec fn is_known_tool(name: Seq<char>) -> bool {
    ||| name == "panda_action"@
    ||| name == "panda_mood"@
    ||| name == "knowledge_search"@
    ||| name == "window_control"@
}

/// The error text for a tool name that is not recognised.
pub open spec fn unknown_tool_message(name: Seq<char>) -> Seq<char> {
    "未知的工具: "@ + name
}

/// `a` reports success, with `action` and the message built around it.
pub open spec fn is_action_report(a: ActionReport, action: Seq<char>, before: Seq<char>, after: Seq<char>) -> bool {
    &&& a.success
    &&& a.action@ == action
    &&& a.message@ == before + action + after
}

/// The result owed for a recognised tool `name` invoked with `params`.
pub open spec fn is_tool_result(r: ToolResult, name: Seq<char>, params: ParamBag) -> bool {
    if name == "panda_action"@ {
        r matches ToolResult::PandaAction(a)
            && is_action_report(a, params.text_or("action"@, "normal"@), "已执行"@, "动作"@)
    } else if name == "panda_mood"@ {
        r matches ToolResult::PandaMood(m) && m.success
            && m.mood@ == params.text_or("mood"@, "happy"@)
            && m.message@ == "心情已设置为"@ + m.mood@
    } else if name == "knowledge_search"@ {
        r matches ToolResult::KnowledgeSearch(k) && k.success
            && k.query@ == params.text_or("query"@, ""@)
            && k.results@.len() == 0
    } else if name == "window_control"@ {
        r matches ToolResult::WindowControl(a)
            && is_action_report(a, params.text_or("action"@, "move"@), "窗口"@, "操作完成"@)
    } else {
        false
    }
}

/// Runs the tool named `tool_name`. A recognised tool always succeeds: a
/// parameter that is missing or not text falls back to its default. Any
/// other name fails, and the error carries that name.
pub fn call_mcp_tool(tool_name: String, parameters: ParamBag) -> (r: Result<ToolResult, String>)
    ensures
        r is Ok <==> is_known_tool(tool_name@),
        r matches Ok(t) ==> is_tool_result(t, tool_name@, parameters),
        r matches Err(e) ==> e@ == unknown_tool_message(tool_name@),
{
    proof {
        reveal_strlit("panda_action");
        reveal_strlit("panda_mood");
        reveal_strlit("knowledge_search");
        reveal_strlit("window_control");
        reveal_strlit("");
    }
    let name = tool_name.as_str();
    if text_equals(name, "panda_action") {
        let action = parameters.get_text_or("action", "normal");
        let message = concat3("已执行", action.as_str(), "动作");
        Ok(ToolResult::PandaAction(ActionReport { success: true, action, message }))
    } else if text_equals(name, "panda_mood") {
        let mood = parameters.get_text_or("mood", "happy");
        let message = concat3("心情已设置为", mood.as_str(), "");
        Ok(ToolResult::PandaMood(MoodReport { success: true, mood, message }))
    } else if text_equals(name, "knowledge_search") {
        let query = parameters.get_text_or("query", "");
        Ok(ToolResult::KnowledgeSearch(KnowledgeResponse { success: true, query, results: Vec::new() }))
    } else if text_equals(name, "window_control") {
        let action = parameters.get_text_or("action", "move");
        let message = concat3("窗口", action.as_str(), "操作完成");
        Ok(ToolResult::WindowControl(ActionReport { success: true, action, message }))
    } else {
        Err(concat3("未知的工具: ", name, ""))
    }
}

} // verus!
