//! Keyboard shortcut actions and the log line each one produces.
//!
//! The mapping from key strokes to actions lives in the window layer;
//! what belongs here is the set of actions and the text reported when
//! one is handled. Writing that text to a log is the caller's business.

use vstd::prelude::*;
use vstd::string::StringExecFns;

verus! {

/// The actions a keyboard shortcut can trigger.
#[derive(Clone, Copy, Debug)]
pub enum ShortcutAction {
    OpenFile,
    ZoomIn,
    ZoomOut,
    ZoomReset,
    PrevPage,
    NextPage,
    FullScreen,
    AddBookmark,
    Exit,
}

/// The log line reported for an action.
pub open spec fn spec_shortcut_message(action: ShortcutAction) -> Seq<char> {
    match action {
        ShortcutAction::OpenFile => "快捷键: 打开文件"@,
        ShortcutAction::ZoomIn => "快捷键: 放大"@,
        ShortcutAction::ZoomOut => "快捷键: 缩小"@,
        ShortcutAction::ZoomReset => "快捷键: 重置缩放"@,
        ShortcutAction::PrevPage => "快捷键: 上一页"@,
        ShortcutAction::NextPage => "快捷键: 下一页"@,
        ShortcutAction::FullScreen => "快捷键: 全屏"@,
        ShortcutAction::AddBookmark => "快捷键: 添加书签"@,
        ShortcutAction::Exit => "快捷键: 退出"@,
    }
}

/// Handler of triggered shortcuts.
pub struct ShortcutHandler;

impl ShortcutHandler {
    /// Handles a triggered shortcut: yields the line logged for it.
    pub fn handle(action: ShortcutAction) -> (r: String)
        ensures
            r@ == spec_shortcut_message(action),
    {
        match action {
            ShortcutAction::OpenFile => String::from_str("快捷键: 打开文件"),
            ShortcutAction::ZoomIn => String::from_str("快捷键: 放大"),
            ShortcutAction::ZoomOut => String::from_str("快捷键: 缩小"),
            ShortcutAction::ZoomReset => String::from_str("快捷键: 重置缩放"),
            ShortcutAction::PrevPage => String::from_str("快捷键: 上一页"),
            ShortcutAction::NextPage => String::from_str("快捷键: 下一页"),
            ShortcutAction::FullScreen => String::from_str("快捷键: 全屏"),
            ShortcutAction::AddBookmark => String::from_str("快捷键: 添加书签"),
            ShortcutAction::Exit => String::from_str("快捷键: 退出"),
        }
    }
}

} // verus!
