//! The texts of the dashboard, in English and in Chinese.

use vstd::prelude::*;
use vstd::string::*;

verus! {

/// The language that the dashboard speaks.
#[derive(Clone, Copy, Debug, PartialEq, Eq, Structural)]
pub enum Language {
    English,
    Chinese,
}

/// A text of the dashboard.
#[derive(Clone, Copy, Debug, PartialEq, Eq, Structural)]
pub enum UiText {
    Title,
    Subtitle,
    Sim,
    Real,
    Connect,
    Disconnect,
    StartStream,
    StopStream,
    ResetView,
    Controller,
    Data,
    Recording,
    HardwareRequired,
    KeyHint,
    ConnectFirst,
    Threshold,
    Calibration,
    FollowOn,
    FollowOff,
    Ready,
    LanguagePrompt,
    StartSubtitle,
    StartHeading,
    StartRecording,
    StopRecording,
    FftSize,
    Update,
    GenerateWaveformPng,
    GenerateSpectrumPng,
    WaveformPngLabel,
    SpectrumPngLabel,
    NoSpectrumYet,
    RecordRelax,
    RecordAction,
    ConnectStreamFirst,
    Loading,
    Sensitivity,
    Smoothness,
    Window,
    Window30,
    Window60,
    TabWaveform,
    TabSpectrum,
    TabPng,
    TabCalibration,
    TabImpedance,
    ImpedanceDesc,
    ImpedanceAction,
    ImpedanceNoData,
    ImpedanceUpdated,
    ImpedanceChannelHeader,
    ImpedanceValueHeader,
    PortLabel,
    RefreshPorts,
    PortsScanned,
    InjectArtifact,
    ReportFeedback,
    ThemeLight,
    ThemeDark,
    LanguageSwitch,
    Logs,
    ReportLogs,
    Resolution,
    Maximize,
    AutoY,
    FixedUv,
    Notch50,
    Stats,
    TimeAxis,
    ShowPanel,
    HidePanel,
    ImpedanceLegend,
}

/// The English wording of each text.
pub open spec fn english_text(key: UiText) -> Seq<char> {
    match key {
        UiText::Title => "QNMDsol demo v0.1"@,
        UiText::Subtitle => "Neural Interface Control"@,
        UiText::Sim => "Simulation"@,
        UiText::Real => "Hardware"@,
        UiText::Connect => "Connect"@,
        UiText::Disconnect => "Disconnect"@,
        UiText::StartStream => "Start Stream"@,
        UiText::StopStream => "Stop Stream"@,
        UiText::ResetView => "Reset View"@,
        UiText::Controller => "Xbox Controller Visualizer"@,
        UiText::Data => "AI Data Collection"@,
        UiText::Recording => "Recording..."@,
        UiText::HardwareRequired => "Hardware required"@,
        UiText::KeyHint => "Try Keys: WASD / Space / ZXC / QEUO / Arrows"@,
        UiText::ConnectFirst => "Connect first."@,
        UiText::Threshold => "Trigger Threshold:"@,
        UiText::Calibration => "Calibration"@,
        UiText::FollowOn => "Follow Latest: ON"@,
        UiText::FollowOff => "Follow Latest: OFF"@,
        UiText::Ready => "QNMDsol Demo v0.1 Ready."@,
        UiText::LanguagePrompt => "Choose your language"@,
        UiText::StartSubtitle => "Pick a language to start"@,
        UiText::StartHeading => "Welcome to QNMDsol"@,
        UiText::StartRecording => "Record"@,
        UiText::StopRecording => "Stop"@,
        UiText::FftSize => "FFT Size:"@,
        UiText::Update => "Update"@,
        UiText::GenerateWaveformPng => "Generate Waveform PNG"@,
        UiText::GenerateSpectrumPng => "Generate Spectrum PNG"@,
        UiText::WaveformPngLabel => "Waveform PNG:"@,
        UiText::SpectrumPngLabel => "Spectrum PNG:"@,
        UiText::NoSpectrumYet => "No spectrum yet. Start streaming to populate."@,
        UiText::RecordRelax => "1. Record Relax (3s)"@,
        UiText::RecordAction => "2. Record Action (3s)"@,
        UiText::ConnectStreamFirst => "Connect & Stream first."@,
        UiText::Loading => "Working..."@,
        UiText::Sensitivity => "Sensitivity"@,
        UiText::Smoothness => "Smoothing"@,
        UiText::Window => "Window"@,
        UiText::Window30 => "30s"@,
        UiText::Window60 => "60s"@,
        UiText::TabWaveform => "Waveform"@,
        UiText::TabSpectrum => "Spectrum"@,
        UiText::TabPng => "PNG Export"@,
        UiText::TabCalibration => "Calibration"@,
        UiText::TabImpedance => "Resistance Check"@,
        UiText::ImpedanceDesc => "Estimate electrode impedance from the latest buffer (Cyton math)."@,
        UiText::ImpedanceAction => "Run check"@,
        UiText::ImpedanceNoData => "No impedance result yet."@,
        UiText::ImpedanceUpdated => "Impedance results updated."@,
        UiText::ImpedanceChannelHeader => "Channel"@,
        UiText::ImpedanceValueHeader => "Impedance (kOhm)"@,
        UiText::PortLabel => "Port:"@,
        UiText::RefreshPorts => "Refresh"@,
        UiText::PortsScanned => "Ports scanned:"@,
        UiText::InjectArtifact => "Inject Artifact"@,
        UiText::ReportFeedback => "Report Feedback"@,
        UiText::ThemeLight => "Light"@,
        UiText::ThemeDark => "Dark"@,
        UiText::LanguageSwitch => "Language"@,
        UiText::Logs => "Logs"@,
        UiText::ReportLogs => "Last Logs:"@,
        UiText::Resolution => "Resolution"@,
        UiText::Maximize => "Maximize"@,
        UiText::AutoY => "Auto Y"@,
        UiText::FixedUv => "Fixed uV"@,
        UiText::Notch50 => "50Hz Notch"@,
        UiText::Stats => "Stats"@,
        UiText::TimeAxis => "Time span (s)"@,
        UiText::ShowPanel => "Show Panel"@,
        UiText::HidePanel => "Hide Panel"@,
        UiText::ImpedanceLegend => "Good <500k | Acceptable 0.5-2.5M | Poor >2.5M | Railed = no contact"@,
    }
}

/// The Chinese wording of each text.
pub open spec fn chinese_text(key: UiText) -> Seq<char> {
    match key {
        UiText::Title => "QNMDsol 演示 v0.1"@,
        UiText::Subtitle => "神经接口控制"@,
        UiText::Sim => "模拟模式"@,
        UiText::Real => "实机模式"@,
        UiText::Connect => "连接"@,
        UiText::Disconnect => "断开"@,
        UiText::StartStream => "开始采集"@,
        UiText::StopStream => "停止采集"@,
        UiText::ResetView => "重置视图"@,
        UiText::Controller => "手柄可视化"@,
        UiText::Data => "AI数据采集"@,
        UiText::Recording => "录制中..."@,
        UiText::HardwareRequired => "需要硬件设备"@,
        UiText::KeyHint => "键盘提示：WASD / 空格 / ZXC / QEUO / 方向键"@,
        UiText::ConnectFirst => "请先连接设备。"@,
        UiText::Threshold => "触发阈值:"@,
        UiText::Calibration => "校准"@,
        UiText::FollowOn => "跟随最新: 开"@,
        UiText::FollowOff => "跟随最新: 关"@,
        UiText::Ready => "QNMDsol 演示 v0.1 就绪。"@,
        UiText::LanguagePrompt => "选择语言"@,
        UiText::StartSubtitle => "选择语言开始"@,
        UiText::StartHeading => "欢迎使用 QNMDsol"@,
        UiText::StartRecording => "开始录制"@,
        UiText::StopRecording => "停止录制"@,
        UiText::FftSize => "FFT 大小:"@,
        UiText::Update => "更新"@,
        UiText::GenerateWaveformPng => "导出波形PNG"@,
        UiText::GenerateSpectrumPng => "导出频谱PNG"@,
        UiText::WaveformPngLabel => "波形PNG:"@,
        UiText::SpectrumPngLabel => "频谱PNG:"@,
        UiText::NoSpectrumYet => "暂无频谱，开始采集后生成。"@,
        UiText::RecordRelax => "1. 录制静息 (3s)"@,
        UiText::RecordAction => "2. 录制作动 (3s)"@,
        UiText::ConnectStreamFirst => "请先连接并开始采集。"@,
        UiText::Loading => "处理中..."@,
        UiText::Sensitivity => "敏感度"@,
        UiText::Smoothness => "平滑度"@,
        UiText::Window => "窗口长度"@,
        UiText::Window30 => "30秒"@,
        UiText::Window60 => "60秒"@,
        UiText::TabWaveform => "波形"@,
        UiText::TabSpectrum => "频谱"@,
        UiText::TabPng => "导出PNG"@,
        UiText::TabCalibration => "校准"@,
        UiText::TabImpedance => "阻抗检测"@,
        UiText::ImpedanceDesc => "基于最新缓冲区估算电极阻抗（Cyton 计算）。"@,
        UiText::ImpedanceAction => "执行检测"@,
        UiText::ImpedanceNoData => "暂无阻抗结果。"@,
        UiText::ImpedanceUpdated => "阻抗结果已更新。"@,
        UiText::ImpedanceChannelHeader => "通道"@,
        UiText::ImpedanceValueHeader => "阻抗 (kΩ)"@,
        UiText::PortLabel => "串口:"@,
        UiText::RefreshPorts => "刷新"@,
        UiText::PortsScanned => "已扫描串口:"@,
        UiText::InjectArtifact => "注入伪迹"@,
        UiText::ReportFeedback => "报告反馈"@,
        UiText::ThemeLight => "浅色"@,
        UiText::ThemeDark => "深色"@,
        UiText::LanguageSwitch => "语言"@,
        UiText::Logs => "日志"@,
        UiText::ReportLogs => "最近日志："@,
        UiText::Resolution => "分辨率"@,
        UiText::Maximize => "最大化"@,
        UiText::AutoY => "自动Y轴"@,
        UiText::FixedUv => "固定范围(uV)"@,
        UiText::Notch50 => "50Hz 陷波"@,
        UiText::Stats => "统计"@,
        UiText::TimeAxis => "时间轴长度(秒)"@,
        UiText::ShowPanel => "展开面板"@,
        UiText::HidePanel => "收起面板"@,
        UiText::ImpedanceLegend => "🟢 <500k 理想 | 🟡 0.5-2.5M 可用 | 🔴 >2.5M 不良 | Railed=未接触"@,
    }
}

/// The wording of `key` in `language`.
pub open spec fn ui_text(language: Language, key: UiText) -> Seq<char> {
    match language {
        Language::English => english_text(key),
        Language::Chinese => chinese_text(key),
    }
}

/// The label that recordings are given until another is typed in.
pub open spec fn record_label(language: Language) -> Seq<char> {
    match language {
        Language::English => "Attack"@,
        Language::Chinese => "攻击"@,
    }
}

/// The code under which a language is stored.
pub open spec fn code_of(language: Language) -> Seq<char> {
    match language {
        Language::English => "en"@,
        Language::Chinese => "zh"@,
    }
}

/// The language that a stored code names: `zh` and `cn` name Chinese, `en`
/// names English, and nothing else names a language.
pub open spec fn language_of(code: Seq<char>) -> Option<Language> {
    if code == seq!['z', 'h'] || code == seq!['c', 'n'] {
        Some(Language::Chinese)
    } else if code == seq!['e', 'n'] {
        Some(Language::English)
    } else {
        None
    }
}

/// The English wording of `key`.
fn english(key: UiText) -> (label: &'static str)
    ensures
        label@ == english_text(key),
{
    match key {
        UiText::Title => "QNMDsol demo v0.1",
        UiText::Subtitle => "Neural Interface Control",
        UiText::Sim => "Simulation",
        UiText::Real => "Hardware",
        UiText::Connect => "Connect",
        UiText::Disconnect => "Disconnect",
        UiText::StartStream => "Start Stream",
        UiText::StopStream => "Stop Stream",
        UiText::ResetView => "Reset View",
        UiText::Controller => "Xbox Controller Visualizer",
        UiText::Data => "AI Data Collection",
        UiText::Recording => "Recording...",
        UiText::HardwareRequired => "Hardware required",
        UiText::KeyHint => "Try Keys: WASD / Space / ZXC / QEUO / Arrows",
        UiText::ConnectFirst => "Connect first.",
        UiText::Threshold => "Trigger Threshold:",
        UiText::Calibration => "Calibration",
        UiText::FollowOn => "Follow Latest: ON",
        UiText::FollowOff => "Follow Latest: OFF",
        UiText::Ready => "QNMDsol Demo v0.1 Ready.",
        UiText::LanguagePrompt => "Choose your language",
        UiText::StartSubtitle => "Pick a language to start",
        UiText::StartHeading => "Welcome to QNMDsol",
        UiText::StartRecording => "Record",
        UiText::StopRecording => "Stop",
        UiText::FftSize => "FFT Size:",
        UiText::Update => "Update",
        UiText::GenerateWaveformPng => "Generate Waveform PNG",
        UiText::GenerateSpectrumPng => "Generate Spectrum PNG",
        UiText::WaveformPngLabel => "Waveform PNG:",
        UiText::SpectrumPngLabel => "Spectrum PNG:",
        UiText::NoSpectrumYet => "No spectrum yet. Start streaming to populate.",
        UiText::RecordRelax => "1. Record Relax (3s)",
        UiText::RecordAction => "2. Record Action (3s)",
        UiText::ConnectStreamFirst => "Connect & Stream first.",
        UiText::Loading => "Working...",
        UiText::Sensitivity => "Sensitivity",
        UiText::Smoothness => "Smoothing",
        UiText::Window => "Window",
        UiText::Window30 => "30s",
        UiText::Window60 => "60s",
        UiText::TabWaveform => "Waveform",
        UiText::TabSpectrum => "Spectrum",
        UiText::TabPng => "PNG Export",
        UiText::TabCalibration => "Calibration",
        UiText::TabImpedance => "Resistance Check",
        UiText::ImpedanceDesc => "Estimate electrode impedance from the latest buffer (Cyton math).",
        UiText::ImpedanceAction => "Run check",
        UiText::ImpedanceNoData => "No impedance result yet.",
        UiText::ImpedanceUpdated => "Impedance results updated.",
        UiText::ImpedanceChannelHeader => "Channel",
        UiText::ImpedanceValueHeader => "Impedance (kOhm)",
        UiText::PortLabel => "Port:",
        UiText::RefreshPorts => "Refresh",
        UiText::PortsScanned => "Ports scanned:",
        UiText::InjectArtifact => "Inject Artifact",
        UiText::ReportFeedback => "Report Feedback",
        UiText::ThemeLight => "Light",
        UiText::ThemeDark => "Dark",
        UiText::LanguageSwitch => "Language",
        UiText::Logs => "Logs",
        UiText::ReportLogs => "Last Logs:",
        UiText::Resolution => "Resolution",
        UiText::Maximize => "Maximize",
        UiText::AutoY => "Auto Y",
        UiText::FixedUv => "Fixed uV",
        UiText::Notch50 => "50Hz Notch",
        UiText::Stats => "Stats",
        UiText::TimeAxis => "Time span (s)",
        UiText::ShowPanel => "Show Panel",
        UiText::HidePanel => "Hide Panel",
        UiText::ImpedanceLegend => "Good <500k | Acceptable 0.5-2.5M | Poor >2.5M | Railed = no contact",
    }
}

/// The Chinese wording of `key`.
fn chinese(key: UiText) -> (label: &'static str)
    ensures
        label@ == chinese_text(key),
{
    match key {
        UiText::Title => "QNMDsol 演示 v0.1",
        UiText::Subtitle => "神经接口控制",
        UiText::Sim => "模拟模式",
        UiText::Real => "实机模式",
        UiText::Connect => "连接",
        UiText::Disconnect => "断开",
        UiText::StartStream => "开始采集",
        UiText::StopStream => "停止采集",
        UiText::ResetView => "重置视图",
        UiText::Controller => "手柄可视化",
        UiText::Data => "AI数据采集",
        UiText::Recording => "录制中...",
        UiText::HardwareRequired => "需要硬件设备",
        UiText::KeyHint => "键盘提示：WASD / 空格 / ZXC / QEUO / 方向键",
        UiText::ConnectFirst => "请先连接设备。",
        UiText::Threshold => "触发阈值:",
        UiText::Calibration => "校准",
        UiText::FollowOn => "跟随最新: 开",
        UiText::FollowOff => "跟随最新: 关",
        UiText::Ready => "QNMDsol 演示 v0.1 就绪。",
        UiText::LanguagePrompt => "选择语言",
        UiText::StartSubtitle => "选择语言开始",
        UiText::StartHeading => "欢迎使用 QNMDsol",
        UiText::StartRecording => "开始录制",
        UiText::StopRecording => "停止录制",
        UiText::FftSize => "FFT 大小:",
        UiText::Update => "更新",
        UiText::GenerateWaveformPng => "导出波形PNG",
        UiText::GenerateSpectrumPng => "导出频谱PNG",
        UiText::WaveformPngLabel => "波形PNG:",
        UiText::SpectrumPngLabel => "频谱PNG:",
        UiText::NoSpectrumYet => "暂无频谱，开始采集后生成。",
        UiText::RecordRelax => "1. 录制静息 (3s)",
        UiText::RecordAction => "2. 录制作动 (3s)",
        UiText::ConnectStreamFirst => "请先连接并开始采集。",
        UiText::Loading => "处理中...",
        UiText::Sensitivity => "敏感度",
        UiText::Smoothness => "平滑度",
        UiText::Window => "窗口长度",
        UiText::Window30 => "30秒",
        UiText::Window60 => "60秒",
        UiText::TabWaveform => "波形",
        UiText::TabSpectrum => "频谱",
        UiText::TabPng => "导出PNG",
        UiText::TabCalibration => "校准",
        UiText::TabImpedance => "阻抗检测",
        UiText::ImpedanceDesc => "基于最新缓冲区估算电极阻抗（Cyton 计算）。",
        UiText::ImpedanceAction => "执行检测",
        UiText::ImpedanceNoData => "暂无阻抗结果。",
        UiText::ImpedanceUpdated => "阻抗结果已更新。",
        UiText::ImpedanceChannelHeader => "通道",
        UiText::ImpedanceValueHeader => "阻抗 (kΩ)",
        UiText::PortLabel => "串口:",
        UiText::RefreshPorts => "刷新",
        UiText::PortsScanned => "已扫描串口:",
        UiText::InjectArtifact => "注入伪迹",
        UiText::ReportFeedback => "报告反馈",
        UiText::ThemeLight => "浅色",
        UiText::ThemeDark => "深色",
        UiText::LanguageSwitch => "语言",
        UiText::Logs => "日志",
        UiText::ReportLogs => "最近日志：",
        UiText::Resolution => "分辨率",
        UiText::Maximize => "最大化",
        UiText::AutoY => "自动Y轴",
        UiText::FixedUv => "固定范围(uV)",
        UiText::Notch50 => "50Hz 陷波",
        UiText::Stats => "统计",
        UiText::TimeAxis => "时间轴长度(秒)",
        UiText::ShowPanel => "展开面板",
        UiText::HidePanel => "收起面板",
        UiText::ImpedanceLegend => "🟢 <500k 理想 | 🟡 0.5-2.5M 可用 | 🔴 >2.5M 不良 | Railed=未接触",
    }
}

impl Language {
    /// The wording of `key` in this language.
    pub fn text(&self, key: UiText) -> (label: &'static str)
        ensures
            label@ == ui_text(*self, key),
    {
        match self {
            Language::English => english(key),
            Language::Chinese => chinese(key),
        }
    }

    /// The label that recordings are given until another is typed in.
    pub fn default_record_label(&self) -> (label: &'static str)
        ensures
            label@ == record_label(*self),
    {
        match self {
            Language::English => "Attack",
            Language::Chinese => "攻击",
        }
    }

    /// The code under which the language is stored.
    pub fn code(&self) -> (code: &'static str)
        ensures
            code@ == code_of(*self),
    {
        match self {
            Language::English => "en",
            Language::Chinese => "zh",
        }
    }

    /// The language that a stored code names; `None` for any other text.
    pub fn from_code(code: &str) -> (language: Option<Language>)
        ensures
            language == language_of(code@),
    {
        if code.unicode_len() != 2 {
            return None;
        }
        let first = code.get_char(0);
        let second = code.get_char(1);
        assert(code@ =~= seq![first, second]);
        if (first == 'z' && second == 'h') || (first == 'c' && second == 'n') {
            Some(Language::Chinese)
        } else if first == 'e' && second == 'n' {
            Some(Language::English)
        } else {
            None
        }
    }
}

/// A language is found again by its code.
pub proof fn lemma_code_names_its_language(language: Language)
    ensures
        language_of(code_of(language)) == Some(language),
{
    reveal_strlit("en");
    reveal_strlit("zh");
    assert("en"@ =~= seq!['e', 'n']);
    assert("zh"@ =~= seq!['z', 'h']);
}

} // verus!
