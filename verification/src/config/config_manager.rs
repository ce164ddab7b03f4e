//! The configuration manager: one system, one camera and one alignment
//! configuration, and the rules for replacing them.

use vstd::prelude::*;
use crate::clock::now_rfc3339;
use crate::config::system_config::{SystemConfig, PatternSize};
use crate::config::camera_config::CameraConfig;
use crate::config::alignment_config::AlignmentConfig;
use crate::float_bits::{F32Bits, F64Bits, lemma_constant_encodings};
use crate::text::{join2, join3, str_eq, bool_text, bool_str, signed_decimal, i32_decimal_string};

verus! {

/// The configurations that the station works with.
pub struct ConfigManager {
    pub system_config: SystemConfig,
    pub camera_config: CameraConfig,
    pub alignment_config: AlignmentConfig,
    /// Keep the built-in hardware set-up and algorithms in force.
    pub preserve_existing_implementations: bool,
    /// Directory of the configuration files.
    pub config_root_dir: String,
}

/// Everything that a configuration file holds.
pub struct ConfigData {
    pub system: SystemConfig,
    pub camera: CameraConfig,
    pub alignment: AlignmentConfig,
    pub version: String,
    pub created_at: String,
    pub last_modified: String,
}

impl Clone for ConfigData {
    fn clone(&self) -> (r: Self)
        ensures
            r == *self,
    {
        ConfigData {
            system: self.system.clone(),
            camera: self.camera.clone(),
            alignment: self.alignment.clone(),
            version: self.version.clone(),
            created_at: self.created_at.clone(),
            last_modified: self.last_modified.clone(),
        }
    }
}

/// Message prefixes that say which configuration failed its check.
pub open spec fn system_failure_prefix() -> Seq<char> {
    "系统配置验证失败: "@
}

pub open spec fn camera_failure_prefix() -> Seq<char> {
    "相机配置验证失败: "@
}

pub open spec fn alignment_failure_prefix() -> Seq<char> {
    "合像配置验证失败: "@
}

/// The manager for a configuration file's data, loaded from `dir`: the
/// data's configurations, with the built-in implementations protected.
pub open spec fn manager_of_data(data: ConfigData, dir: String) -> ConfigManager {
    ConfigManager {
        system_config: data.system,
        camera_config: data.camera,
        alignment_config: data.alignment,
        preserve_existing_implementations: true,
        config_root_dir: dir,
    }
}

/// The error of checking the three configurations in turn, if any.
pub open spec fn combined_validation_error(system: SystemConfig, camera: CameraConfig,
    alignment: AlignmentConfig) -> Option<Seq<char>> {
    match system.validation_error() {
        Some(e) => Some(system_failure_prefix() + e),
        None => match camera.validation_error() {
            Some(e) => Some(camera_failure_prefix() + e),
            None => match alignment.validation_error() {
                Some(e) => Some(alignment_failure_prefix() + e),
                None => None,
            },
        },
    }
}

/// Checks the three configurations in turn.
fn validate_parts(system: &SystemConfig, camera: &CameraConfig, alignment: &AlignmentConfig)
    -> (r: Result<(), String>)
    requires
        camera.roi_sums_fit(),
    ensures
        r is Ok <==> combined_validation_error(*system, *camera, *alignment) is None,
        r matches Err(e) ==> combined_validation_error(*system, *camera, *alignment) == Some(e@),
{
    match system.validate() {
        Err(e) => return Err(join2("系统配置验证失败: ", e.as_str())),
        Ok(()) => {},
    }
    match camera.validate() {
        Err(e) => return Err(join2("相机配置验证失败: ", e.as_str())),
        Ok(()) => {},
    }
    match alignment.validate() {
        Err(e) => return Err(join2("合像配置验证失败: ", e.as_str())),
        Ok(()) => {},
    }
    Ok(())
}

/// The nine real-valued settings that the configuration report shows, in
/// order: frame rate, exposure, gain, the left eye's roll, pitch and yaw
/// limits, and the RMS, 95th-percentile and maximum error limits.
pub open spec fn report_figures(m: ConfigManager) -> Seq<F64Bits> {
    seq![
        m.camera_config.acquisition_frame_rate,
        m.camera_config.exposure_time,
        m.camera_config.gain,
        m.alignment_config.pose_thresholds.left_eye_max_roll,
        m.alignment_config.pose_thresholds.left_eye_max_pitch,
        m.alignment_config.pose_thresholds.left_eye_max_yaw,
        m.alignment_config.alignment_thresholds.max_rms_error,
        m.alignment_config.alignment_thresholds.max_p95_error,
        m.alignment_config.alignment_thresholds.max_max_error
    ]
}

/// `text` is what `one_decimal` writes for `x`.
pub open spec fn written_as<F: Fn(F64Bits) -> String>(one_decimal: F, x: F64Bits, text: Seq<char>) -> bool {
    exists|s: String| call_ensures(one_decimal, (x,), s) && s@ == text
}

/// The system part of the configuration report.
pub open spec fn system_section(m: ConfigManager) -> Seq<char> {
    "=== 参数配置系统报告 ===\n\n"@
        + "📋 系统配置:\n"@
        + "  - 标定板类型: "@ + m.system_config.pattern_layout.pattern_type@ + "\n"@
        + "  - 标定板尺寸: "@ + signed_decimal(m.system_config.pattern_layout.pattern_width as int) + "×"@
            + signed_decimal(m.system_config.pattern_layout.pattern_height as int) + "\n"@
        + "  - 使用legacy坐标: "@ + bool_text(m.system_config.pattern_layout.use_legacy_coordinates) + "\n"@
        + "  - 左相机序列号: "@ + m.system_config.camera_serials.left_camera_serial@ + "\n"@
        + "  - 右相机序列号: "@ + m.system_config.camera_serials.right_camera_serial@ + "\n"@
}

/// The camera part of the configuration report.
pub open spec fn camera_section(m: ConfigManager, rate: Seq<char>, exposure: Seq<char>, gain: Seq<char>) -> Seq<char> {
    "\n📷 相机配置:\n"@
        + "  - 统一帧率: "@ + rate + " fps\n"@
        + "  - 曝光时间: "@ + exposure + " μs\n"@
        + "  - 增益: "@ + gain + " dB\n"@
        + "  - 使用legacy初始化: "@ + bool_text(m.camera_config.use_legacy_camera_init) + "\n"@
        + "  - 左相机序列号: "@ + m.camera_config.left_camera_serial@ + "\n"@
        + "  - 右相机序列号: "@ + m.camera_config.right_camera_serial@ + "\n"@
}

/// The report's camera section shows the camera configuration alone: it is
/// the same whatever the other settings of the manager are, and it ends with
/// the camera configuration's left and right serials. The system section
/// shows the system configuration alone, and ends with its serials.
pub proof fn lemma_report_serials(m: ConfigManager, other: ConfigManager, system: SystemConfig, camera: CameraConfig,
    rate: Seq<char>, exposure: Seq<char>, gain: Seq<char>)
    ensures
        camera_section(m, rate, exposure, gain)
            == camera_section(ConfigManager { system_config: system, ..m }, rate, exposure, gain),
        camera_section(m, rate, exposure, gain)
            == camera_section(ConfigManager { camera_config: m.camera_config, ..other }, rate, exposure, gain),
        system_section(m) == system_section(ConfigManager { system_config: m.system_config, ..other }),
        exists|head: Seq<char>| camera_section(m, rate, exposure, gain) == head
            + "  - 左相机序列号: "@ + m.camera_config.left_camera_serial@ + "\n"@
            + "  - 右相机序列号: "@ + m.camera_config.right_camera_serial@ + "\n"@,
        system_section(m) == system_section(ConfigManager { camera_config: camera, ..m }),
        exists|head: Seq<char>| system_section(m) == head
            + "  - 左相机序列号: "@ + m.system_config.camera_serials.left_camera_serial@ + "\n"@
            + "  - 右相机序列号: "@ + m.system_config.camera_serials.right_camera_serial@ + "\n"@,
{
    let c = camera_section(m, rate, exposure, gain);
    let tail = "  - 左相机序列号: "@ + m.camera_config.left_camera_serial@ + "\n"@
        + "  - 右相机序列号: "@ + m.camera_config.right_camera_serial@ + "\n"@;
    let head = c.subrange(0, c.len() - tail.len());
    assert(c =~= head + "  - 左相机序列号: "@ + m.camera_config.left_camera_serial@ + "\n"@
        + "  - 右相机序列号: "@ + m.camera_config.right_camera_serial@ + "\n"@);
    let t = system_section(m);
    let stail = "  - 左相机序列号: "@ + m.system_config.camera_serials.left_camera_serial@ + "\n"@
        + "  - 右相机序列号: "@ + m.system_config.camera_serials.right_camera_serial@ + "\n"@;
    let shead = t.subrange(0, t.len() - stail.len());
    assert(t =~= shead + "  - 左相机序列号: "@ + m.system_config.camera_serials.left_camera_serial@ + "\n"@
        + "  - 右相机序列号: "@ + m.system_config.camera_serials.right_camera_serial@ + "\n"@);
}

/// The nine figures of the report are, in order, the camera's frame rate,
/// exposure and gain, the left eye's roll, pitch and yaw limits, and the
/// RMS, 95th-percentile and maximum error limits; in the camera section the
/// frame rate, exposure and gain texts stand after their own labels.
pub proof fn lemma_report_figures(m: ConfigManager, rate: Seq<char>, exposure: Seq<char>, gain: Seq<char>)
    ensures
        report_figures(m).len() == 9,
        report_figures(m)[0] == m.camera_config.acquisition_frame_rate,
        report_figures(m)[1] == m.camera_config.exposure_time,
        report_figures(m)[2] == m.camera_config.gain,
        report_figures(m)[3] == m.alignment_config.pose_thresholds.left_eye_max_roll,
        report_figures(m)[4] == m.alignment_config.pose_thresholds.left_eye_max_pitch,
        report_figures(m)[5] == m.alignment_config.pose_thresholds.left_eye_max_yaw,
        report_figures(m)[6] == m.alignment_config.alignment_thresholds.max_rms_error,
        report_figures(m)[7] == m.alignment_config.alignment_thresholds.max_p95_error,
        report_figures(m)[8] == m.alignment_config.alignment_thresholds.max_max_error,
        exists|h: Seq<char>, t: Seq<char>|
            camera_section(m, rate, exposure, gain) == h + "  - 统一帧率: "@ + rate + " fps\n"@ + t,
        exists|h: Seq<char>, t: Seq<char>|
            camera_section(m, rate, exposure, gain) == h + "  - 曝光时间: "@ + exposure + " μs\n"@ + t,
        exists|h: Seq<char>, t: Seq<char>|
            camera_section(m, rate, exposure, gain) == h + "  - 增益: "@ + gain + " dB\n"@ + t,
{
    let head = "\n📷 相机配置:\n"@;
    let rate_line = "  - 统一帧率: "@ + rate + " fps\n"@;
    let exp_line = "  - 曝光时间: "@ + exposure + " μs\n"@;
    let gain_line = "  - 增益: "@ + gain + " dB\n"@;
    let serials = "  - 使用legacy初始化: "@ + bool_text(m.camera_config.use_legacy_camera_init) + "\n"@
        + "  - 左相机序列号: "@ + m.camera_config.left_camera_serial@ + "\n"@
        + "  - 右相机序列号: "@ + m.camera_config.right_camera_serial@ + "\n"@;
    let c = camera_section(m, rate, exposure, gain);
    assert(c =~= head + rate_line + exp_line + gain_line + serials);
    assert(c == head + "  - 统一帧率: "@ + rate + " fps\n"@ + (exp_line + gain_line + serials)) by {
        assert(c =~= head + "  - 统一帧率: "@ + rate + " fps\n"@ + (exp_line + gain_line + serials));
    }
    assert(c == (head + rate_line) + "  - 曝光时间: "@ + exposure + " μs\n"@ + (gain_line + serials)) by {
        assert(c =~= (head + rate_line) + "  - 曝光时间: "@ + exposure + " μs\n"@ + (gain_line + serials));
    }
    assert(c == (head + rate_line + exp_line) + "  - 增益: "@ + gain + " dB\n"@ + serials) by {
        assert(c =~= (head + rate_line + exp_line) + "  - 增益: "@ + gain + " dB\n"@ + serials);
    }
}

/// The alignment part of the configuration report.
pub open spec fn alignment_section(m: ConfigManager, figures: Seq<Seq<char>>) -> Seq<char> {
    "\n🎯 合像配置:\n"@
        + "  - 左眼姿态阈值: roll≤"@ + figures[3] + "°"@ + ", pitch≤"@ + figures[4] + "°"@ + ", yaw≤"@ + figures[5] + "°\n"@
        + "  - 合像阈值: RMS≤"@ + figures[6] + "px"@ + ", P95≤"@ + figures[7] + "px"@ + ", Max≤"@ + figures[8] + "px\n"@
        + "  - 使用legacy参数: "@ + bool_text(m.alignment_config.use_legacy_alignment_params) + "\n"@
}

/// The protection part of the configuration report.
pub open spec fn protection_section(m: ConfigManager) -> Seq<char> {
    "\n🛡️ 兼容性保护:\n"@
        + "  - 保护现有实现: "@ + bool_text(m.preserve_existing_implementations) + "\n"@
        + "  - 使用legacy实现: "@ + bool_text(m.spec_uses_legacy()) + "\n"@
        + "\n=== 报告结束 ===\n"@
}

/// The configuration report, with `figures` the texts of the nine
/// real-valued settings in the order of `report_figures`.
pub open spec fn config_report_text(m: ConfigManager, figures: Seq<Seq<char>>) -> Seq<char> {
    system_section(m) + camera_section(m, figures[0], figures[1], figures[2])
        + alignment_section(m, figures) + protection_section(m)
}

/// Appends `label`, `value` and a newline.
fn append_line(report: &mut String, label: &str, value: &str)
    ensures
        final(report)@ == old(report)@ + label@ + value@ + "\n"@,
{
    report.append(label);
    report.append(value);
    report.append("\n");
}

/// Appends `label`, the text of `x`, and `unit`.
fn append_figure<F: Fn(F64Bits) -> String>(report: &mut String, label: &str, x: F64Bits, unit: &str,
    one_decimal: &F) -> (text: Ghost<Seq<char>>)
    requires
        forall|y: F64Bits| call_requires(*one_decimal, (y,)),
    ensures
        written_as(*one_decimal, x, text@),
        final(report)@ == old(report)@ + label@ + text@ + unit@,
{
    let s = (*one_decimal)(x);
    report.append(label);
    report.append(s.as_str());
    report.append(unit);
    Ghost(s@)
}

impl Default for ConfigManager {
    fn default() -> (r: Self)
        ensures
            r.is_default_in("configs"@),
    {
        ConfigManager::new()
    }
}

impl ConfigManager {
    /// The manager holds the default configurations (all but the creation
    /// stamp), protects the built-in implementations and uses the given root.
    pub open spec fn is_default_in(self, root: Seq<char>) -> bool {
        &&& self.system_config.is_default_but_stamp()
        &&& self.camera_config.is_default()
        &&& self.alignment_config.is_default()
        &&& self.preserve_existing_implementations
        &&& self.config_root_dir@ == root
    }

    /// Why the configurations are refused, if they are.
    pub open spec fn validation_error(self) -> Option<Seq<char>> {
        combined_validation_error(self.system_config, self.camera_config, self.alignment_config)
    }

    /// The built-in implementations are used throughout.
    pub open spec fn spec_uses_legacy(self) -> bool {
        &&& self.preserve_existing_implementations
        &&& self.system_config.pattern_layout.use_legacy_coordinates
        &&& self.camera_config.use_legacy_camera_init
        &&& self.alignment_config.use_legacy_alignment_params
    }

    /// The default manager, rooted at `configs`.
    pub fn new() -> (r: Self)
        ensures
            r.is_default_in("configs"@),
    {
        let system_config = SystemConfig::new();
        let (left_serial, right_serial) = system_config.get_effective_camera_serials();
        ConfigManager {
            camera_config: CameraConfig::new_with_serials(left_serial.as_str(), right_serial.as_str()),
            alignment_config: AlignmentConfig::new(),
            system_config,
            preserve_existing_implementations: true,
            config_root_dir: "configs".to_string(),
        }
    }

    /// The default manager rooted at the given directory (a directory that
    /// holds no `system_config.yaml` yet).
    pub fn new_in_dir(config_dir: String) -> (r: Self)
        ensures
            r.is_default_in(config_dir@),
    {
        let mut manager = Self::new();
        manager.config_root_dir = config_dir;
        manager
    }

    /// The manager for a loaded configuration file that lies in `config_dir`:
    /// its three configurations, with the built-in implementations protected.
    pub fn from_config_data(data: ConfigData, config_dir: String) -> (r: Self)
        ensures
            r == manager_of_data(data, config_dir),
    {
        ConfigManager {
            system_config: data.system,
            camera_config: data.camera,
            alignment_config: data.alignment,
            preserve_existing_implementations: true,
            config_root_dir: config_dir,
        }
    }

    /// What a configuration file holds for this manager: its configurations,
    /// version `1.0`, the system configuration's creation stamp and the
    /// current time as the modification stamp.
    pub fn to_config_data(&self) -> (r: ConfigData)
        ensures
            r.system == self.system_config,
            r.camera == self.camera_config,
            r.alignment == self.alignment_config,
            r.version@ == "1.0"@,
            r.created_at == self.system_config.created_at,
    {
        ConfigData {
            system: self.system_config.clone(),
            camera: self.camera_config.clone(),
            alignment: self.alignment_config.clone(),
            version: "1.0".to_string(),
            created_at: self.system_config.created_at.clone(),
            last_modified: now_rfc3339(),
        }
    }

    /// Checks the system, camera and alignment configurations, in that order;
    /// the error names the one that failed.
    pub fn validate_all(&self) -> (r: Result<(), String>)
        requires
            self.camera_config.roi_sums_fit(),
        ensures
            r is Ok <==> self.validation_error() is None,
            r matches Err(e) ==> self.validation_error() == Some(e@),
    {
        validate_parts(&self.system_config, &self.camera_config, &self.alignment_config)
    }

    /// Applying camera settings to the hardware is not done: the settings
    /// are kept in memory only, whether or not the built-in set-up is
    /// protected; this always succeeds.
    pub fn apply_camera_config(&self, cam_index: u32, config: &CameraConfig) -> (r: Result<(), String>)
        ensures
            r is Ok,
    {
        Ok(())
    }

    /// Reading the settings back from the hardware is not done: the
    /// configurations in memory stand for the hardware state; this always
    /// succeeds and changes nothing.
    pub fn load_current_hardware_config(&mut self, cam_index: u32) -> (r: Result<(), String>)
        ensures
            r is Ok,
            *final(self) == *old(self),
    {
        Ok(())
    }

    /// The calibration-pattern parameters in effect.
    pub fn get_effective_pattern_params<N: Fn(F64Bits) -> F32Bits>(&self, to_single: N)
        -> (r: (F32Bits, F32Bits, PatternSize))
        requires
            forall|x: F64Bits| call_requires(to_single, (x,)),
        ensures
            self.system_config.pattern_layout.use_legacy_coordinates ==> r == (
                F32Bits { bits: crate::float_bits::F32_15 },
                F32Bits { bits: crate::float_bits::F32_25 },
                PatternSize { width: 4, height: 10 },
            ),
            !self.system_config.pattern_layout.use_legacy_coordinates ==> {
                &&& call_ensures(to_single, (self.system_config.pattern_layout.circle_diameter,), r.0)
                &&& call_ensures(to_single, (self.system_config.pattern_layout.diagonal_spacing,), r.1)
                &&& r.2 == PatternSize {
                    width: self.system_config.pattern_layout.pattern_height,
                    height: self.system_config.pattern_layout.pattern_width,
                }
            },
    {
        self.system_config.get_effective_pattern_params(to_single)
    }

    /// The camera serials in effect: those of the camera configuration.
    pub fn get_effective_camera_serials(&self) -> (r: (String, String))
        ensures
            r.0@ == self.camera_config.left_camera_serial@,
            r.1@ == self.camera_config.right_camera_serial@,
    {
        self.camera_config.get_camera_serials()
    }

    /// Whether the built-in implementations are used throughout: protection
    /// on, and the legacy switch of every configuration on.
    pub fn should_use_legacy_implementations(&self) -> (r: bool)
        ensures
            r == self.spec_uses_legacy(),
    {
        self.preserve_existing_implementations
            && self.system_config.pattern_layout.use_legacy_coordinates
            && self.camera_config.use_legacy_camera_init
            && self.alignment_config.use_legacy_alignment_params
    }

    #[verifier::rlimit(50)]
    fn append_system_section(&self, report: &mut String)
        ensures
            final(report)@ == old(report)@ + system_section(*self),
    {
        let ghost start = report@;
        report.append("=== 参数配置系统报告 ===\n\n");
        report.append("📋 系统配置:\n");
        append_line(report, "  - 标定板类型: ", self.system_config.pattern_layout.pattern_type.as_str());
        let width = i32_decimal_string(self.system_config.pattern_layout.pattern_width);
        let height = i32_decimal_string(self.system_config.pattern_layout.pattern_height);
        let size = join3(width.as_str(), "×", height.as_str());
        append_line(report, "  - 标定板尺寸: ", size.as_str());
        let ghost middle = report@;
        append_line(report, "  - 使用legacy坐标: ", bool_str(self.system_config.pattern_layout.use_legacy_coordinates));
        append_line(report, "  - 左相机序列号: ", self.system_config.camera_serials.left_camera_serial.as_str());
        append_line(report, "  - 右相机序列号: ", self.system_config.camera_serials.right_camera_serial.as_str());
        assert(middle =~= start + "=== 参数配置系统报告 ===\n\n"@ + "📋 系统配置:\n"@
            + "  - 标定板类型: "@ + self.system_config.pattern_layout.pattern_type@ + "\n"@
            + "  - 标定板尺寸: "@ + signed_decimal(self.system_config.pattern_layout.pattern_width as int) + "×"@
            + signed_decimal(self.system_config.pattern_layout.pattern_height as int) + "\n"@);
        assert(report@ =~= start + system_section(*self));
    }

    fn append_camera_section<F: Fn(F64Bits) -> String>(&self, report: &mut String, one_decimal: &F)
        -> (figures: Ghost<Seq<Seq<char>>>)
        requires
            forall|x: F64Bits| call_requires(*one_decimal, (x,)),
        ensures
            figures@.len() == 3,
            forall|k: int| 0 <= k < 3 ==> written_as(*one_decimal, #[trigger] report_figures(*self)[k], figures@[k]),
            final(report)@ == old(report)@ + camera_section(*self, figures@[0], figures@[1], figures@[2]),
    {
        let ghost start = report@;
        report.append("\n📷 相机配置:\n");
        let f0 = append_figure(report, "  - 统一帧率: ", self.camera_config.acquisition_frame_rate, " fps\n", one_decimal);
        let f1 = append_figure(report, "  - 曝光时间: ", self.camera_config.exposure_time, " μs\n", one_decimal);
        let f2 = append_figure(report, "  - 增益: ", self.camera_config.gain, " dB\n", one_decimal);
        report.append("  - 使用legacy初始化: ");
        report.append(bool_str(self.camera_config.use_legacy_camera_init));
        report.append("\n");
        report.append("  - 左相机序列号: ");
        report.append(self.camera_config.left_camera_serial.as_str());
        report.append("\n");
        report.append("  - 右相机序列号: ");
        report.append(self.camera_config.right_camera_serial.as_str());
        report.append("\n");
        let ghost figures = seq![f0@, f1@, f2@];
        assert(report@ =~= start + camera_section(*self, figures[0], figures[1], figures[2]));
        Ghost(figures)
    }

    fn append_alignment_section<F: Fn(F64Bits) -> String>(&self, report: &mut String, one_decimal: &F)
        -> (figures: Ghost<Seq<Seq<char>>>)
        requires
            forall|x: F64Bits| call_requires(*one_decimal, (x,)),
        ensures
            figures@.len() == 9,
            forall|k: int| 3 <= k < 9 ==> written_as(*one_decimal, #[trigger] report_figures(*self)[k], figures@[k]),
            final(report)@ == old(report)@ + alignment_section(*self, figures@),
    {
        let ghost start = report@;
        report.append("\n🎯 合像配置:\n");
        let pose = &self.alignment_config.pose_thresholds;
        let f3 = append_figure(report, "  - 左眼姿态阈值: roll≤", pose.left_eye_max_roll, "°", one_decimal);
        let f4 = append_figure(report, ", pitch≤", pose.left_eye_max_pitch, "°", one_decimal);
        let f5 = append_figure(report, ", yaw≤", pose.left_eye_max_yaw, "°\n", one_decimal);
        let limits = &self.alignment_config.alignment_thresholds;
        let f6 = append_figure(report, "  - 合像阈值: RMS≤", limits.max_rms_error, "px", one_decimal);
        let f7 = append_figure(report, ", P95≤", limits.max_p95_error, "px", one_decimal);
        let f8 = append_figure(report, ", Max≤", limits.max_max_error, "px\n", one_decimal);
        report.append("  - 使用legacy参数: ");
        report.append(bool_str(self.alignment_config.use_legacy_alignment_params));
        report.append("\n");
        let ghost figures = seq![Seq::<char>::empty(), Seq::<char>::empty(), Seq::<char>::empty(),
            f3@, f4@, f5@, f6@, f7@, f8@];
        assert(report@ =~= start + alignment_section(*self, figures));
        Ghost(figures)
    }

    fn append_protection_section(&self, report: &mut String)
        ensures
            final(report)@ == old(report)@ + protection_section(*self),
    {
        let ghost start = report@;
        report.append("\n🛡️ 兼容性保护:\n");
        report.append("  - 保护现有实现: ");
        report.append(bool_str(self.preserve_existing_implementations));
        report.append("\n");
        report.append("  - 使用legacy实现: ");
        report.append(bool_str(self.should_use_legacy_implementations()));
        report.append("\n");
        report.append("\n=== 报告结束 ===\n");
        assert(report@ =~= start + protection_section(*self));
    }

    /// The configuration report. `one_decimal` writes a real-valued setting
    /// with one decimal place.
    pub fn generate_config_report<F: Fn(F64Bits) -> String>(&self, one_decimal: F) -> (r: String)
        requires
            forall|x: F64Bits| call_requires(one_decimal, (x,)),
        ensures
            exists|figures: Seq<Seq<char>>| #![trigger config_report_text(*self, figures)] {
                &&& figures.len() == 9
                &&& forall|k: int| 0 <= k < 9 ==> written_as(one_decimal, #[trigger] report_figures(*self)[k], figures[k])
                &&& r@ == config_report_text(*self, figures)
            },
    {
        let mut report = String::new();
        self.append_system_section(&mut report);
        let camera_figures = self.append_camera_section(&mut report, &one_decimal);
        let alignment_figures = self.append_alignment_section(&mut report, &one_decimal);
        self.append_protection_section(&mut report);
        let ghost figures = seq![camera_figures@[0], camera_figures@[1], camera_figures@[2],
            alignment_figures@[3], alignment_figures@[4], alignment_figures@[5],
            alignment_figures@[6], alignment_figures@[7], alignment_figures@[8]];
        assert forall|k: int| 0 <= k < 9 implies written_as(one_decimal, #[trigger] report_figures(*self)[k], figures[k]) by {
            if k < 3 {
                assert(written_as(one_decimal, report_figures(*self)[k], camera_figures@[k]));
            } else {
                assert(written_as(one_decimal, report_figures(*self)[k], alignment_figures@[k]));
            }
        }
        assert(alignment_section(*self, figures) == alignment_section(*self, alignment_figures@));
        assert(report@ =~= config_report_text(*self, figures));
        report
    }

    /// Replaces the system configuration if it passes its check.
    pub fn set_system_config(&mut self, config: SystemConfig) -> (r: Result<(), String>)
        ensures
            r is Ok <==> config.validation_error() is None,
            r matches Err(e) ==> config.validation_error() == Some(e@) && *final(self) == *old(self),
            r is Ok ==> *final(self) == (ConfigManager { system_config: config, ..*old(self) }),
    {
        config.validate()?;
        self.system_config = config;
        Ok(())
    }

    /// Replaces the camera configuration if it passes its check; it is
    /// applied to both cameras (which keeps it in memory only).
    pub fn set_camera_config(&mut self, config: CameraConfig) -> (r: Result<(), String>)
        requires
            config.roi_sums_fit(),
        ensures
            r is Ok <==> config.validation_error() is None,
            r matches Err(e) ==> config.validation_error() == Some(e@) && *final(self) == *old(self),
            r is Ok ==> *final(self) == (ConfigManager { camera_config: config, ..*old(self) }),
    {
        config.validate()?;
        self.apply_camera_config(0, &config)?;
        self.apply_camera_config(1, &config)?;
        self.camera_config = config;
        Ok(())
    }

    /// Replaces the alignment configuration if it passes its check.
    pub fn set_alignment_config(&mut self, config: AlignmentConfig) -> (r: Result<(), String>)
        ensures
            r is Ok <==> config.validation_error() is None,
            r matches Err(e) ==> config.validation_error() == Some(e@) && *final(self) == *old(self),
            r is Ok ==> *final(self) == (ConfigManager { alignment_config: config, ..*old(self) }),
    {
        config.validate()?;
        self.alignment_config = config;
        Ok(())
    }

    /// Takes over the configurations and root directory of a manager loaded
    /// from a file, if they pass their checks; the protection switch stays.
    pub fn replace_with_loaded(&mut self, loaded: ConfigManager) -> (r: Result<(), String>)
        requires
            loaded.camera_config.roi_sums_fit(),
        ensures
            r is Ok <==> loaded.validation_error() is None,
            r matches Err(e) ==> loaded.validation_error() == Some(e@) && *final(self) == *old(self),
            r is Ok ==> *final(self) == (ConfigManager {
                system_config: loaded.system_config,
                camera_config: loaded.camera_config,
                alignment_config: loaded.alignment_config,
                config_root_dir: loaded.config_root_dir,
                ..*old(self)
            }),
    {
        loaded.validate_all()?;
        self.system_config = loaded.system_config;
        self.camera_config = loaded.camera_config;
        self.alignment_config = loaded.alignment_config;
        self.config_root_dir = loaded.config_root_dir;
        Ok(())
    }

    /// Puts the default configurations back and turns protection on; the
    /// root directory stays.
    pub fn reset_to_default_config(&mut self)
        ensures
            final(self).is_default_in(old(self).config_root_dir@),
            final(self).config_root_dir == old(self).config_root_dir,
    {
        let defaults = ConfigManager::new();
        self.system_config = defaults.system_config;
        self.camera_config = defaults.camera_config;
        self.alignment_config = defaults.alignment_config;
        self.preserve_existing_implementations = true;
    }

    /// Takes over the configurations of imported data, then checks them;
    /// the imported configurations stay even where the check fails.
    pub fn import_config_data(&mut self, data: ConfigData) -> (r: Result<(), String>)
        requires
            data.camera.roi_sums_fit(),
        ensures
            *final(self) == (ConfigManager {
                system_config: data.system,
                camera_config: data.camera,
                alignment_config: data.alignment,
                ..*old(self)
            }),
            r is Ok <==> final(self).validation_error() is None,
            r matches Err(e) ==> final(self).validation_error() == Some(e@),
    {
        self.system_config = data.system;
        self.camera_config = data.camera;
        self.alignment_config = data.alignment;
        self.validate_all()
    }

    /// The serial of the camera on the given side, `left` or `right`.
    pub fn get_camera_serial(&self, camera_side: &str) -> (r: Result<String, String>)
        ensures
            camera_side@ == "left"@ ==> (r matches Ok(s) && s@ == self.camera_config.left_camera_serial@),
            camera_side@ == "right"@ ==> (r matches Ok(s) && s@ == self.camera_config.right_camera_serial@),
            camera_side@ != "left"@ && camera_side@ != "right"@ ==>
                (r matches Err(e) && e@ == "无效的相机侧别，应为 'left' 或 'right'"@),
    {
        let (left_serial, right_serial) = self.camera_config.get_camera_serials();
        proof {
            reveal_strlit("left");
            reveal_strlit("right");
            assert("left"@.len() != "right"@.len());
        }
        if str_eq(camera_side, "left") {
            Ok(left_serial)
        } else if str_eq(camera_side, "right") {
            Ok(right_serial)
        } else {
            Err("无效的相机侧别，应为 'left' 或 'right'".to_string())
        }
    }
}

/// Loading, from the manager's own directory, the data that saving the
/// manager writes gives the manager back, with protection turned on.
pub proof fn lemma_save_load_round_trip(m: ConfigManager, data: ConfigData)
    requires
        data.system == m.system_config,
        data.camera == m.camera_config,
        data.alignment == m.alignment_config,
    ensures
        manager_of_data(data, m.config_root_dir) == (ConfigManager { preserve_existing_implementations: true, ..m }),
{
}

/// Configurations pass the manager's check exactly when each passes its own;
/// so a manager that passes it still does after any replacement that a
/// setter accepts.
pub proof fn lemma_setters_keep_valid(m: ConfigManager, system: SystemConfig, camera: CameraConfig,
    alignment: AlignmentConfig)
    ensures
        m.validation_error() is None <==> (m.system_config.validation_error() is None
            && m.camera_config.validation_error() is None && m.alignment_config.validation_error() is None),
        m.validation_error() is None && system.validation_error() is None
            ==> (ConfigManager { system_config: system, ..m }).validation_error() is None,
        m.validation_error() is None && camera.validation_error() is None
            ==> (ConfigManager { camera_config: camera, ..m }).validation_error() is None,
        m.validation_error() is None && alignment.validation_error() is None
            ==> (ConfigManager { alignment_config: alignment, ..m }).validation_error() is None,
{
}

/// The default configurations pass every check, and their region sums fit.
pub proof fn lemma_defaults_are_valid(manager: ConfigManager)
    requires
        manager.system_config.is_default_but_stamp(),
        manager.camera_config.is_default(),
        manager.alignment_config.is_default(),
    ensures
        manager.camera_config.roi_sums_fit(),
        manager.validation_error() is None,
{
    lemma_constant_encodings();
    reveal_strlit("DA5158733");
    reveal_strlit("DA5158736");
}

} // verus!
