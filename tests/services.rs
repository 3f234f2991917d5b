use panda_companion::text::{concat3, contains_text, text_equals};
use panda_companion::{
    add_knowledge_document, chat_window_spec, create_chat_window, get_screen_size, get_service_status,
    search_knowledge, set_tencent_cloud_config, TencentCloudConfig,
};

#[test]
fn search_returns_one_hit_naming_query() {
    let r = search_knowledge("壽司".to_string(), Some(1)).unwrap();
    assert!(r.success);
    assert_eq!(r.query, "壽司");
    assert_eq!(r.results.len(), 1);
    let hit = &r.results[0];
    assert!(hit.title.contains("壽司"));
    assert_eq!(hit.title, "关于\"壽司\"的知识");
    assert_eq!(hit.content, "这是关于壽司的详细信息...");
    assert_eq!(hit.score_percent, 95);
    assert_eq!(hit.source, "企业知识库");
}

#[test]
fn search_ignores_result_limit() {
    for limit in [None, Some(0), Some(1), Some(50), Some(usize::MAX)] {
        let r = search_knowledge("壽司".to_string(), limit).unwrap();
        assert_eq!(r.results.len(), 1);
        assert_eq!(r.results[0].score_percent, 95);
    }
    let r = search_knowledge(String::new(), Some(3)).unwrap();
    assert_eq!(r.results[0].title, "关于\"\"的知识");
}

#[test]
fn status_is_fixed() {
    let s = get_service_status().unwrap();
    assert!(s.initialized && s.rag && s.mcp && s.llm);
    assert_eq!(s.tools, 4);
    assert_eq!(get_service_status().unwrap(), s);
}

#[test]
fn cloud_config_always_accepted() {
    let empty = TencentCloudConfig { secret_id: String::new(), secret_key: String::new(), region: String::new() };
    assert_eq!(set_tencent_cloud_config(empty), Ok("腾讯云配置设置成功".to_string()));
    let full = TencentCloudConfig {
        secret_id: "AKID".to_string(),
        secret_key: "example-key".to_string(),
        region: "ap-guangzhou".to_string(),
    };
    assert!(set_tencent_cloud_config(full).is_ok());
}

#[test]
fn knowledge_document_accepted() {
    let r = add_knowledge_document("标题".to_string(), "内容".to_string(), None);
    assert_eq!(r, Ok("知识文档添加成功".to_string()));
}

#[test]
fn chat_window_geometry() {
    let w = chat_window_spec();
    assert_eq!(w.label, "chat");
    assert_eq!(w.url, "chat.html");
    assert_eq!(w.title, "与小竹子聊天");
    assert_eq!((w.width, w.height), (400, 500));
    assert!(w.resizable && w.decorated && w.centered);
    assert!(!w.always_on_top);
    assert_eq!(create_chat_window(), Ok("聊天窗口创建成功".to_string()));
}

#[test]
fn screen_size_is_constant() {
    assert_eq!(get_screen_size(), Ok((1920, 1080)));
}

#[test]
fn text_helpers() {
    assert!(contains_text("我好困啊", "困"));
    assert!(contains_text("abc", ""));
    assert!(!contains_text("", "a"));
    assert!(!contains_text("ab", "abc"));
    assert!(contains_text("xxabc", "abc"));
    assert!(text_equals("熊猫", "熊猫"));
    assert!(!text_equals("熊猫", "熊"));
    assert_eq!(concat3("a", "熊", "c"), "a熊c");
}
