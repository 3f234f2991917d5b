//! What the window controller asks of the host windowing system.

use vstd::prelude::*;

verus! {

/// A window to be built by the host: identity, content, geometry and flags.
pub struct WindowSpec {
    pub label: String,
    pub url: String,
    pub title: String,
    pub width: u32,
    pub height: u32,
    pub resizable: bool,
    pub decorated: bool,
    pub always_on_top: bool,
    pub centered: bool,
}

/// The companion chat window: a fixed view at 400 by 500 logical units,
/// resizable, decorated, not pinned above other windows, centred.
pub open spec fn is_chat_window_spec(w: WindowSpec) -> bool {
    &&& w.label@ == "chat"@
    &&& w.url@ == "chat.html"@
    &&& w.title@ == "与小竹子聊天"@
    &&& w.width == 400
    &&& w.height == 500
    &&& w.resizable
    &&& w.decorated
    &&& !w.always_on_top
    &&& w.centered
}

/// Describes the companion chat window.
pub fn chat_window_spec() -> (r: WindowSpec)
    ensures
        is_chat_window_spec(r),
{
    WindowSpec {
        label: "chat".to_owned(),
        url: "chat.html".to_owned(),
        title: "与小竹子聊天".to_owned(),
        width: 400,
        height: 500,
        resizable: true,
        decorated: true,
        always_on_top: false,
        centered: true,
    }
}

/// Acknowledges a request for the chat window.
pub fn create_chat_window() -> (r: Result<String, String>)
    ensures
        r matches Ok(s) && s@ == "聊天窗口创建成功"@,
{
    Ok("聊天窗口创建成功".to_owned())
}

/// The screen size: a fixed 1920 by 1080, not a query of the display.
pub fn get_screen_size() -> (r: Result<(u32, u32), String>)
    ensures
        r == Ok::<(u32, u32), String>((1920u32, 1080u32)),
{
    Ok((1920, 1080))
}

} // verus!
