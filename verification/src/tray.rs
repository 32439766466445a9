use vstd::prelude::*;

verus! {

/// What a tray menu entry asks for.
#[derive(Debug, Clone, Copy, PartialEq, Eq, Structural)]
pub enum TrayAction {
    Capture,
    CaptureWindow,
    CaptureControl,
    OpenSettings,
    OpenSaveDir,
    OpenConfigDir,
    Exit,
}

/// The tray menu's entries, top to bottom, with their labels.
pub open spec fn menu_entries() -> Seq<(TrayAction, Seq<char>)> {
    seq![
        (TrayAction::Capture, "截图"@),
        (TrayAction::CaptureWindow, "窗口截图"@),
        (TrayAction::CaptureControl, "控件截图"@),
        (TrayAction::OpenSettings, "设置"@),
        (TrayAction::OpenSaveDir, "打开截图目录"@),
        (TrayAction::OpenConfigDir, "打开配置目录"@),
        (TrayAction::Exit, "退出"@),
    ]
}

/// The label of a menu entry.
pub fn tray_action_label(action: TrayAction) -> (r: &'static str)
    ensures
        exists|k: int| 0 <= k < menu_entries().len() && menu_entries()[k].0 == action && #[trigger] menu_entries()[k].1 == r@,
{
    let r = match action {
        TrayAction::Capture => "截图",
        TrayAction::CaptureWindow => "窗口截图",
        TrayAction::CaptureControl => "控件截图",
        TrayAction::OpenSettings => "设置",
        TrayAction::OpenSaveDir => "打开截图目录",
        TrayAction::OpenConfigDir => "打开配置目录",
        TrayAction::Exit => "退出",
    };
    proof {
        let e = menu_entries();
        match action {
            TrayAction::Capture => assert(e[0].1 == r@),
            TrayAction::CaptureWindow => assert(e[1].1 == r@),
            TrayAction::CaptureControl => assert(e[2].1 == r@),
            TrayAction::OpenSettings => assert(e[3].1 == r@),
            TrayAction::OpenSaveDir => assert(e[4].1 == r@),
            TrayAction::OpenConfigDir => assert(e[5].1 == r@),
            TrayAction::Exit => assert(e[6].1 == r@),
        }
    }
    r
}

/// The action of the menu entry at `position`, counting from the top.
pub fn resolve_action(position: usize) -> (r: Option<TrayAction>)
    ensures
        position < menu_entries().len() ==> r == Some(menu_entries()[position as int].0),
        position >= menu_entries().len() ==> r is None,
{
    match position {
        0 => Some(TrayAction::Capture),
        1 => Some(TrayAction::CaptureWindow),
        2 => Some(TrayAction::CaptureControl),
        3 => Some(TrayAction::OpenSettings),
        4 => Some(TrayAction::OpenSaveDir),
        5 => Some(TrayAction::OpenConfigDir),
        6 => Some(TrayAction::Exit),
        _ => None,
    }
}

} // verus!
