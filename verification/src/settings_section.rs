//! The pages of the settings window and the fixed texts that describe them.
use vstd::prelude::*;

verus! {

/// One page of the settings window.
#[derive(Clone, Copy, Debug, PartialEq, Eq, Structural)]
pub enum SettingsSection {
    Overview,
    Hud,
    ShiftLights,
    GearDisplay,
    Telemetry,
    Calibration,
    About,
}

impl SettingsSection {
    /// Position of the page in the navigation list.
    pub open spec fn spec_index(self) -> u64 {
        match self {
            SettingsSection::Overview => 0,
            SettingsSection::Hud => 1,
            SettingsSection::ShiftLights => 2,
            SettingsSection::GearDisplay => 3,
            SettingsSection::Telemetry => 4,
            SettingsSection::Calibration => 5,
            SettingsSection::About => 6,
        }
    }

    pub open spec fn spec_label(self) -> Seq<char> {
        match self {
            SettingsSection::Overview => "概览"@,
            SettingsSection::Hud => "HUD 显示"@,
            SettingsSection::ShiftLights => "转速指示"@,
            SettingsSection::GearDisplay => "挡位显示"@,
            SettingsSection::Telemetry => "遥测数据"@,
            SettingsSection::Calibration => "校准"@,
            SettingsSection::About => "关于"@,
        }
    }

    pub open spec fn spec_description(self) -> Seq<char> {
        match self {
            SettingsSection::Overview => "管理 Horizon HUD 的常用选项与运行状态。"@,
            SettingsSection::Hud => "配置 HUD 的显示条件与图表可见性。"@,
            SettingsSection::ShiftLights => "按位置、尺寸和显示效果配置转速指示灯。"@,
            SettingsSection::GearDisplay => "调整七段数码管挡位显示的位置、大小和透明度。"@,
            SettingsSection::Telemetry => "配置 UDP 遥测监听地址和端口。"@,
            SettingsSection::Calibration => "配置转速指示灯校准时长、条件与提示样式。"@,
            SettingsSection::About => "查看应用信息、版本与支持资源。"@,
        }
    }

    pub open spec fn spec_icon_path(self) -> Seq<char> {
        match self {
            SettingsSection::Overview => "icons/layout-dashboard.svg"@,
            SettingsSection::Hud => "icons/monitor.svg"@,
            SettingsSection::ShiftLights => "icons/sliders-horizontal.svg"@,
            SettingsSection::GearDisplay => "icons/cog.svg"@,
            SettingsSection::Telemetry => "icons/gauge.svg"@,
            SettingsSection::Calibration => "icons/timer.svg"@,
            SettingsSection::About => "icons/info.svg"@,
        }
    }

    /// Title and explanation of the three rows shown on a page that has no
    /// controls yet.
    pub open spec fn spec_placeholder_rows(self) -> Seq<(Seq<char>, Seq<char>)> {
        match self {
            SettingsSection::Overview => seq![("HUD 状态"@, "在这里查看覆盖层与游戏连接状态。"@), ("快速操作"@, "常用显示和校准操作将集中于此。"@), ("通知"@, "重要状态变化和提示将在这里出现。"@)],
            SettingsSection::Hud => seq![("游戏内可见性"@, "设置 HUD 仅在游戏窗口前台时显示。"@), ("图表显示"@, "控制 HUD 中扭矩、功率和转速历史曲线。"@), ("托盘菜单"@, "以上选项也可通过托盘右键菜单快速调整。"@)],
            SettingsSection::ShiftLights => seq![("位置与方向"@, "选择转速灯在屏幕边缘的位置和点亮方向。"@), ("尺寸与布局"@, "设置整体宽度、灯条厚度、灯格间隔和边缘偏移。"@), ("显示效果"@, "设置闪烁阈值，以及亮起与熄灭状态的透明度。"@)],
            SettingsSection::GearDisplay => seq![("显示位置"@, "使用 X, Y 坐标将挡位显示放置在屏幕上的指定位置。"@), ("大小"@, "调整七段数码管的高度。"@), ("透明度"@, "调整挡位显示整体的不透明程度。"@)],
            SettingsSection::Telemetry => seq![("数据源"@, "选择遥测协议和连接方式。"@), ("更新频率"@, "配置数据采样与界面刷新策略。"@), ("校准"@, "管理转速、扭矩及功率的校准流程。"@)],
            SettingsSection::Calibration => seq![("校准时长"@, "燃油切断检测需要保持的最短时间。"@), ("记住已校准车辆"@, "将断油转速按车辆写入配置，可随时关闭而不删除已有记录。"@), ("校准提示样式"@, "自定义校准过程中的提示外观。"@)],
            SettingsSection::About => seq![("Horizon HUD"@, "应用版本、更新记录与许可证信息。"@), ("帮助与反馈"@, "常见问题、使用说明和问题反馈入口。"@), ("诊断信息"@, "导出运行日志与故障排查所需信息。"@)],
        }
    }

    /// The page title shown in the navigation list.
    pub fn label(self) -> (r: &'static str)
        ensures
            r@ == self.spec_label(),
    {
        match self {
            SettingsSection::Overview => "概览",
            SettingsSection::Hud => "HUD 显示",
            SettingsSection::ShiftLights => "转速指示",
            SettingsSection::GearDisplay => "挡位显示",
            SettingsSection::Telemetry => "遥测数据",
            SettingsSection::Calibration => "校准",
            SettingsSection::About => "关于",
        }
    }

    /// The sentence shown under the page title.
    pub fn description(self) -> (r: &'static str)
        ensures
            r@ == self.spec_description(),
    {
        match self {
            SettingsSection::Overview => "管理 Horizon HUD 的常用选项与运行状态。",
            SettingsSection::Hud => "配置 HUD 的显示条件与图表可见性。",
            SettingsSection::ShiftLights => "按位置、尺寸和显示效果配置转速指示灯。",
            SettingsSection::GearDisplay => "调整七段数码管挡位显示的位置、大小和透明度。",
            SettingsSection::Telemetry => "配置 UDP 遥测监听地址和端口。",
            SettingsSection::Calibration => "配置转速指示灯校准时长、条件与提示样式。",
            SettingsSection::About => "查看应用信息、版本与支持资源。",
        }
    }

    /// The asset path of the page icon.
    pub fn icon_path(self) -> (r: &'static str)
        ensures
            r@ == self.spec_icon_path(),
    {
        match self {
            SettingsSection::Overview => "icons/layout-dashboard.svg",
            SettingsSection::Hud => "icons/monitor.svg",
            SettingsSection::ShiftLights => "icons/sliders-horizontal.svg",
            SettingsSection::GearDisplay => "icons/cog.svg",
            SettingsSection::Telemetry => "icons/gauge.svg",
            SettingsSection::Calibration => "icons/timer.svg",
            SettingsSection::About => "icons/info.svg",
        }
    }

    pub fn index(self) -> (r: u64)
        ensures
            r == self.spec_index(),
            r < 7,
    {
        match self {
            SettingsSection::Overview => 0,
            SettingsSection::Hud => 1,
            SettingsSection::ShiftLights => 2,
            SettingsSection::GearDisplay => 3,
            SettingsSection::Telemetry => 4,
            SettingsSection::Calibration => 5,
            SettingsSection::About => 6,
        }
    }

    pub fn placeholder_rows(self) -> (r: [(&'static str, &'static str); 3])
        ensures
            forall|i: int|
                0 <= i < 3 ==> (#[trigger] r@[i].0@, r@[i].1@) == self.spec_placeholder_rows()[i],
    {
        match self {
            SettingsSection::Overview => [("HUD 状态", "在这里查看覆盖层与游戏连接状态。"), ("快速操作", "常用显示和校准操作将集中于此。"), ("通知", "重要状态变化和提示将在这里出现。")],
            SettingsSection::Hud => [("游戏内可见性", "设置 HUD 仅在游戏窗口前台时显示。"), ("图表显示", "控制 HUD 中扭矩、功率和转速历史曲线。"), ("托盘菜单", "以上选项也可通过托盘右键菜单快速调整。")],
            SettingsSection::ShiftLights => [("位置与方向", "选择转速灯在屏幕边缘的位置和点亮方向。"), ("尺寸与布局", "设置整体宽度、灯条厚度、灯格间隔和边缘偏移。"), ("显示效果", "设置闪烁阈值，以及亮起与熄灭状态的透明度。")],
            SettingsSection::GearDisplay => [("显示位置", "使用 X, Y 坐标将挡位显示放置在屏幕上的指定位置。"), ("大小", "调整七段数码管的高度。"), ("透明度", "调整挡位显示整体的不透明程度。")],
            SettingsSection::Telemetry => [("数据源", "选择遥测协议和连接方式。"), ("更新频率", "配置数据采样与界面刷新策略。"), ("校准", "管理转速、扭矩及功率的校准流程。")],
            SettingsSection::Calibration => [("校准时长", "燃油切断检测需要保持的最短时间。"), ("记住已校准车辆", "将断油转速按车辆写入配置，可随时关闭而不删除已有记录。"), ("校准提示样式", "自定义校准过程中的提示外观。")],
            SettingsSection::About => [("Horizon HUD", "应用版本、更新记录与许可证信息。"), ("帮助与反馈", "常见问题、使用说明和问题反馈入口。"), ("诊断信息", "导出运行日志与故障排查所需信息。")],
        }
    }
}

/// Distinct pages sit at distinct positions of the navigation list.
pub proof fn lemma_index_injective(a: SettingsSection, b: SettingsSection)
    ensures
        a.spec_index() == b.spec_index() ==> a == b,
{
}

} // verus!
