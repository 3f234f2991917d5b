use panda_companion::generate_llm_response;
use panda_companion::reply::{classify_message, reply_text, ReplyKind};

const GREETING: &str = "你好！我是小竹子 🐼 很高兴见到你！有什么我可以帮助你的吗？";
const SLEEP: &str = "确实有点困了呢...😴 让我打个哈欠吧～";
const FALLBACK: &str = "我听到了！虽然我还在学习中，但我会努力理解你的意思。你可以尝试问我关于我的功能，或者让我执行一些动作哦～ 🐼";

fn reply(m: &str) -> String {
    generate_llm_response(m.to_string(), None).unwrap().content
}

#[test]
fn greetings_in_both_languages() {
    assert_eq!(reply("你好"), GREETING);
    assert_eq!(reply("hello"), GREETING);
    assert_eq!(reply("oh hello there, 我想吃竹子"), GREETING);
}

#[test]
fn sleepy_message_gets_sleep_reply() {
    assert_eq!(reply("我好困啊"), SLEEP);
    assert_eq!(reply("该睡觉了"), SLEEP);
}

#[test]
fn unmatched_message_gets_fallback() {
    assert_eq!(reply("今天天气不错"), FALLBACK);
    assert_eq!(reply(""), FALLBACK);
    assert_eq!(reply("HELLO"), FALLBACK);
}

#[test]
fn earlier_rule_wins_on_overlap() {
    assert_eq!(classify_message("困了想玩"), ReplyKind::Sleep);
    assert_eq!(classify_message("玩完了好困"), ReplyKind::Sleep);
    assert_eq!(classify_message("你的状态怎么样，想吃吗"), ReplyKind::Status);
}

#[test]
fn each_rule_has_its_reply() {
    assert_eq!(classify_message("你现在什么状态"), ReplyKind::Status);
    assert_eq!(classify_message("想吃东西吗"), ReplyKind::Food);
    assert_eq!(classify_message("给你竹子"), ReplyKind::Food);
    assert_eq!(classify_message("来玩吧"), ReplyKind::Play);
    assert_eq!(classify_message("打游戏"), ReplyKind::Play);
    assert_eq!(reply("给你竹子"), "竹子是我的最爱！🎋 让我来吃一根竹子吧～");
    assert_eq!(reply("打游戏"), "玩耍时间到！🎮 让我来表演一些有趣的动作吧～");
    assert_eq!(reply("状态"), "我现在状态很好！你可以点击我来切换状态，或者右键查看菜单选择不同的动作哦～");
    assert_eq!(reply_text(ReplyKind::Fallback), FALLBACK);
}

#[test]
fn reply_metadata_is_fixed() {
    let r = generate_llm_response("hello".to_string(), Some("earlier talk".to_string())).unwrap();
    assert_eq!(r.usage.prompt_tokens, 100);
    assert_eq!(r.usage.completion_tokens, 50);
    assert_eq!(r.usage.total_tokens, 150);
    assert_eq!(r.finish_reason, "stop");
}
