//! The conversational stub: fixed replies chosen by keyword.
//!
//! The rules are tried in a fixed order and the first one whose keyword
//! occurs in the message wins, so a message that holds keywords of two rules
//! gets the reply of the earlier one.

use vstd::prelude::*;

use crate::text::{contains_text, has_substring};

verus! {

/// Which canned reply a message gets.
#[derive(PartialEq, Eq, Structural, Clone, Copy, Debug)]
pub enum ReplyKind {
    Greeting,
    Status,
    Food,
    Sleep,
    Play,
    Fallback,
}

/// The reply kind for message `m`: the first rule whose keyword occurs wins.
pub open spec fn reply_kind_of(m: Seq<char>) -> ReplyKind {
    if has_substring(m, "你好"@) || has_substring(m, "hello"@) {
        ReplyKind::Greeting
    } else if has_substring(m, "状态"@) {
        ReplyKind::Status
    } else if has_substring(m, "吃"@) || has_substring(m, "竹子"@) {
        ReplyKind::Food
    } else if has_substring(m, "困"@) || has_substring(m, "睡觉"@) {
        ReplyKind::Sleep
    } else if has_substring(m, "玩"@) || has_substring(m, "游戏"@) {
        ReplyKind::Play
    } else {
        ReplyKind::Fallback
    }
}

/// The text of each canned reply.
pub open spec fn reply_text_of(k: ReplyKind) -> Seq<char> {
    match k {
        ReplyKind::Greeting => "你好！我是小竹子 🐼 很高兴见到你！有什么我可以帮助你的吗？"@,
        ReplyKind::Status => "我现在状态很好！你可以点击我来切换状态，或者右键查看菜单选择不同的动作哦～"@,
        ReplyKind::Food => "竹子是我的最爱！🎋 让我来吃一根竹子吧～"@,
        ReplyKind::Sleep => "确实有点困了呢...😴 让我打个哈欠吧～"@,
        ReplyKind::Play => "玩耍时间到！🎮 让我来表演一些有趣的动作吧～"@,
        ReplyKind::Fallback => "我听到了！虽然我还在学习中，但我会努力理解你的意思。你可以尝试问我关于我的功能，或者让我执行一些动作哦～ 🐼"@,
    }
}

/// Picks the reply kind for a message.
pub fn classify_message(message: &str) -> (r: ReplyKind)
    ensures
        r == reply_kind_of(message@),
{
    if contains_text(message, "你好") || contains_text(message, "hello") {
        ReplyKind::Greeting
    } else if contains_text(message, "状态") {
        ReplyKind::Status
    } else if contains_text(message, "吃") || contains_text(message, "竹子") {
        ReplyKind::Food
    } else if contains_text(message, "困") || contains_text(message, "睡觉") {
        ReplyKind::Sleep
    } else if contains_text(message, "玩") || contains_text(message, "游戏") {
        ReplyKind::Play
    } else {
        ReplyKind::Fallback
    }
}

/// The text of a canned reply.
pub fn reply_text(kind: ReplyKind) -> (r: &'static str)
    ensures
        r@ == reply_text_of(kind),
{
    match kind {
        ReplyKind::Greeting => "你好！我是小竹子 🐼 很高兴见到你！有什么我可以帮助你的吗？",
        ReplyKind::Status => "我现在状态很好！你可以点击我来切换状态，或者右键查看菜单选择不同的动作哦～",
        ReplyKind::Food => "竹子是我的最爱！🎋 让我来吃一根竹子吧～",
        ReplyKind::Sleep => "确实有点困了呢...😴 让我打个哈欠吧～",
        ReplyKind::Play => "玩耍时间到！🎮 让我来表演一些有趣的动作吧～",
        ReplyKind::Fallback => "我听到了！虽然我还在学习中，但我会努力理解你的意思。你可以尝试问我关于我的功能，或者让我执行一些动作哦～ 🐼",
    }
}

/// Token accounting attached to a reply. The numbers are fixed, not counted.
#[derive(PartialEq, Eq, Structural, Clone, Copy, Debug)]
pub struct TokenUsage {
    pub prompt_tokens: u32,
    pub completion_tokens: u32,
    pub total_tokens: u32,
}

/// A generated reply with its metadata.
pub struct LlmResponse {
    pub content: String,
    pub usage: TokenUsage,
    pub finish_reason: String,
}

/// The fixed token accounting of every reply.
pub open spec fn fixed_usage() -> TokenUsage {
    TokenUsage { prompt_tokens: 100, completion_tokens: 50, total_tokens: 150 }
}

/// Answers a chat message with the canned reply its keywords select. The
/// context is accepted and ignored, and the call always succeeds.
pub fn generate_llm_response(message: String, _context: Option<String>) -> (r: Result<LlmResponse, String>)
    ensures
        r matches Ok(resp)
            && resp.content@ == reply_text_of(reply_kind_of(message@))
            && resp.usage == fixed_usage()
            && resp.finish_reason@ == "stop"@,
{
    let kind = classify_message(message.as_str());
    let content = reply_text(kind).to_owned();
    let usage = TokenUsage { prompt_tokens: 100, completion_tokens: 50, total_tokens: 150 };
    Ok(LlmResponse { content, usage, finish_reason: "stop".to_owned() })
}

/// A message in which no keyword of any rule occurs gets the fallback reply.
pub proof fn lemma_no_keyword_gets_fallback(m: Seq<char>)
    requires
        !has_substring(m, "你好"@),
        !has_substring(m, "hello"@),
        !has_substring(m, "状态"@),
        !has_substring(m, "吃"@),
        !has_substring(m, "竹子"@),
        !has_substring(m, "困"@),
        !has_substring(m, "睡觉"@),
        !has_substring(m, "玩"@),
        !has_substring(m, "游戏"@),
    ensures
        reply_kind_of(m) == ReplyKind::Fallback,
        reply_text_of(reply_kind_of(m)) == reply_text_of(ReplyKind::Fallback),
{
}

/// A message with a greeting keyword gets the greeting, whatever else it holds.
pub proof fn lemma_greeting_comes_first(m: Seq<char>)
    requires
        has_substring(m, "你好"@) || has_substring(m, "hello"@),
    ensures
        reply_kind_of(m) == ReplyKind::Greeting,
{
}

/// Where a sleep keyword and a play keyword both occur, and no keyword of an
/// earlier rule does, the sleep rule wins: the order decides, not the match.
pub proof fn lemma_sleep_before_play(m: Seq<char>)
    requires
        !has_substring(m, "你好"@),
        !has_substring(m, "hello"@),
        !has_substring(m, "状态"@),
        !has_substring(m, "吃"@),
        !has_substring(m, "竹子"@),
        has_substring(m, "困"@) || has_substring(m, "睡觉"@),
    ensures
        reply_kind_of(m) == ReplyKind::Sleep,
{
}

} // verus!
