use merging_image::config::alignment_config::AlignmentConfig;
use merging_image::config::camera_config::CameraConfig;
use merging_image::config::config_manager::ConfigManager;
use merging_image::config::system_config::{PatternSize, SystemConfig};
use merging_image::float_bits::{F32Bits, F64Bits};

fn f(x: f64) -> F64Bits {
    F64Bits::from_bits(x.to_bits())
}

#[test]
fn default_manager_is_valid_and_legacy() {
    let m = ConfigManager::new();
    assert!(m.validate_all().is_ok());
    assert!(m.should_use_legacy_implementations());
    assert_eq!(m.config_root_dir, "configs");
    assert!(m.preserve_existing_implementations);
    let (l, r) = m.get_effective_camera_serials();
    assert_eq!(l, "DA5158733");
    assert_eq!(r, "DA5158736");
    assert_eq!(m.system_config.version, "1.0");
    assert!(!m.system_config.created_at.is_empty());
}

#[test]
fn float_comparisons_follow_ieee() {
    assert!(f(-0.0).at_most(&f(0.0)));
    assert!(f(0.0).at_most(&f(-0.0)));
    assert!(!f(-0.0).less_than(&f(0.0)));
    assert!(f(-2.0).less_than(&f(-1.0)));
    assert!(f(1.0).less_than(&f(f64::INFINITY)));
    assert!(f(f64::NEG_INFINITY).less_than(&f(-1.0e300)));
    assert!(!f(f64::NAN).at_most(&f(0.0)));
    assert!(!f(0.0).less_than(&f(f64::NAN)));
    assert!(f(f64::NAN).is_nan());
    assert_eq!(f(2.5).negated().bits, (-2.5f64).to_bits());
}

#[test]
fn system_validation_errors_in_order() {
    let mut c = SystemConfig::new();
    assert!(c.validate().is_ok());
    c.pattern_layout.pattern_height = 0;
    c.pattern_layout.circle_diameter = f(-1.0);
    assert_eq!(c.validate(), Err("标定板尺寸必须为正数".to_string()));
    c.pattern_layout.pattern_height = 4;
    assert_eq!(c.validate(), Err("圆点直径和间距必须为正数".to_string()));
    c.pattern_layout.circle_diameter = f(0.0);
    assert_eq!(c.validate(), Err("圆点直径和间距必须为正数".to_string()));
    c.pattern_layout.circle_diameter = f(f64::NAN);
    assert!(c.validate().is_ok());
    c.camera_serials.right_camera_serial = String::new();
    assert_eq!(c.validate(), Err("相机序列号不能为空".to_string()));
}

#[test]
fn camera_validation_errors() {
    let mut c = CameraConfig::new();
    assert!(c.validate().is_ok());
    c.acquisition_frame_rate = f(60.0);
    assert!(c.validate().is_ok());
    c.acquisition_frame_rate = f(60.5);
    assert_eq!(c.validate(), Err("帧率必须在0-60fps范围内".to_string()));
    c.acquisition_frame_rate = f(0.0);
    assert_eq!(c.validate(), Err("帧率必须在0-60fps范围内".to_string()));
    c.acquisition_frame_rate = f(15.0);
    c.exposure_time = f(-1.0);
    assert_eq!(c.validate(), Err("曝光时间不能为负数".to_string()));
    c.exposure_time = f(-0.0);
    assert!(c.validate().is_ok());
    c.gain = f(-0.5);
    assert_eq!(c.validate(), Err("增益不能为负数".to_string()));
    c.gain = f(0.0);
    c.left_camera_serial = String::new();
    assert_eq!(c.validate(), Err("左右相机序列号不能为空".to_string()));
    c.left_camera_serial = "A".to_string();
    c.roi.enabled = true;
    c.roi.offset_x = -1;
    assert_eq!(c.validate(), Err("ROI参数无效".to_string()));
    c.roi.offset_x = 100;
    assert_eq!(c.validate(), Err("ROI区域超出图像范围".to_string()));
    c.roi.width = 2348;
    assert!(c.validate().is_ok());
    c.roi.offset_y = 1;
    assert_eq!(c.validate(), Err("ROI区域超出图像范围".to_string()));
}

#[test]
fn alignment_validation_errors() {
    let mut c = AlignmentConfig::new();
    assert!(c.validate().is_ok());
    assert!(!c.should_bypass_legacy_alignment());
    c.pose_thresholds.left_eye_max_yaw = f(0.0);
    assert_eq!(c.validate(), Err("姿态阈值必须为正数".to_string()));
    c.pose_thresholds.left_eye_max_yaw = f(3.0);
    c.alignment_thresholds.max_p95_error = f(-3.0);
    assert_eq!(c.validate(), Err("合像阈值必须为正数".to_string()));
    c.alignment_thresholds.max_p95_error = f(3.0);
    c.roi_config.right_roi_enabled = true;
    assert!(c.validate().is_ok());
    c.roi_config.right_roi_width = 0;
    assert_eq!(c.validate(), Err("右相机ROI参数无效".to_string()));
}

#[test]
fn validate_all_names_the_failing_part() {
    let mut m = ConfigManager::new();
    m.camera_config.gain = f(-1.0);
    assert_eq!(m.validate_all(), Err("相机配置验证失败: 增益不能为负数".to_string()));
    m.alignment_config.pose_thresholds.left_eye_max_roll = f(0.0);
    assert_eq!(m.validate_all(), Err("相机配置验证失败: 增益不能为负数".to_string()));
    m.system_config.camera_serials.left_camera_serial = String::new();
    assert_eq!(m.validate_all(), Err("系统配置验证失败: 相机序列号不能为空".to_string()));
    let mut m = ConfigManager::new();
    m.alignment_config.pose_thresholds.left_eye_max_roll = f(0.0);
    assert_eq!(m.validate_all(), Err("合像配置验证失败: 姿态阈值必须为正数".to_string()));
}

#[test]
fn effective_pattern_params() {
    let mut c = SystemConfig::new();
    let single = |x: F64Bits| F32Bits { bits: (f64::from_bits(x.bits) as f32).to_bits() };
    let (d, s, size) = c.get_effective_pattern_params(single);
    assert_eq!(f32::from_bits(d.bits), 15.0);
    assert_eq!(f32::from_bits(s.bits), 25.0);
    assert_eq!(size, PatternSize { width: 4, height: 10 });
    c.pattern_layout.use_legacy_coordinates = false;
    c.pattern_layout.pattern_width = 7;
    c.pattern_layout.pattern_height = 3;
    c.pattern_layout.circle_diameter = f(12.1);
    let (d, s, size) = c.get_effective_pattern_params(single);
    assert_eq!(f32::from_bits(d.bits), 12.1f64 as f32);
    assert_eq!(f32::from_bits(s.bits), 25.0);
    assert_eq!(size, PatternSize { width: 3, height: 7 });
}

#[test]
fn camera_serial_by_side() {
    let m = ConfigManager::new();
    assert_eq!(m.get_camera_serial("left"), Ok("DA5158733".to_string()));
    assert_eq!(m.get_camera_serial("right"), Ok("DA5158736".to_string()));
    assert_eq!(
        m.get_camera_serial("middle"),
        Err("无效的相机侧别，应为 'left' 或 'right'".to_string())
    );
}

#[test]
fn set_configs_only_when_valid() {
    let mut m = ConfigManager::new();
    let mut sys = SystemConfig::new();
    sys.pattern_layout.pattern_width = -3;
    assert!(m.set_system_config(sys).is_err());
    assert_eq!(m.system_config.pattern_layout.pattern_width, 10);
    let mut sys = SystemConfig::new();
    sys.pattern_layout.pattern_width = 8;
    assert!(m.set_system_config(sys).is_ok());
    assert_eq!(m.system_config.pattern_layout.pattern_width, 8);

    let cam = CameraConfig::new_with_serials("X1", "X2");
    assert!(m.set_camera_config(cam).is_ok());
    assert_eq!(m.get_effective_camera_serials(), ("X1".to_string(), "X2".to_string()));
    let mut bad = CameraConfig::new();
    bad.acquisition_frame_rate = f(100.0);
    assert_eq!(m.set_camera_config(bad), Err("帧率必须在0-60fps范围内".to_string()));
    assert_eq!(m.camera_config.left_camera_serial, "X1");

    let mut al = AlignmentConfig::new();
    al.use_legacy_alignment_params = false;
    assert!(m.set_alignment_config(al).is_ok());
    assert!(!m.should_use_legacy_implementations());
}

#[test]
fn import_keeps_data_even_when_invalid() {
    let mut m = ConfigManager::new();
    let mut other = ConfigManager::new();
    other.camera_config.exposure_time = f(-5.0);
    let data = other.to_config_data();
    assert_eq!(data.version, "1.0");
    assert_eq!(m.import_config_data(data), Err("相机配置验证失败: 曝光时间不能为负数".to_string()));
    assert_eq!(f64::from_bits(m.camera_config.exposure_time.bits), -5.0);
    m.reset_to_default_config();
    assert!(m.validate_all().is_ok());
    assert_eq!(f64::from_bits(m.camera_config.exposure_time.bits), 0.0);
}

#[test]
fn replace_with_loaded_takes_root_dir() {
    let mut m = ConfigManager::new();
    m.preserve_existing_implementations = false;
    let loaded = ConfigManager::from_config_data(ConfigManager::new().to_config_data(), "other".to_string());
    assert!(loaded.preserve_existing_implementations);
    assert!(m.replace_with_loaded(loaded).is_ok());
    assert_eq!(m.config_root_dir, "other");
    assert!(!m.preserve_existing_implementations);
    let mut bad = ConfigManager::new_in_dir("bad".to_string());
    bad.system_config.pattern_layout.pattern_width = 0;
    assert_eq!(m.replace_with_loaded(bad), Err("系统配置验证失败: 标定板尺寸必须为正数".to_string()));
    assert_eq!(m.config_root_dir, "other");
}

#[test]
fn hardware_hooks_always_succeed() {
    let mut m = ConfigManager::new();
    let cam = CameraConfig::new();
    assert!(m.apply_camera_config(0, &cam).is_ok());
    assert!(m.load_current_hardware_config(1).is_ok());
    assert!(!cam.should_bypass_legacy_init());
    assert_eq!(cam.get_effective_blob_detector_params().blob_color, 0);
}

#[test]
fn config_report_text() {
    let m = ConfigManager::new();
    let report = m.generate_config_report(|x: F64Bits| format!("{:.1}", f64::from_bits(x.bits)));
    let expected = [
        "=== 参数配置系统报告 ===\n\n",
        "📋 系统配置:\n",
        "  - 标定板类型: asymmetric_circles_grid\n",
        "  - 标定板尺寸: 10×4\n",
        "  - 使用legacy坐标: true\n",
        "  - 左相机序列号: DA5158733\n",
        "  - 右相机序列号: DA5158736\n",
        "\n📷 相机配置:\n",
        "  - 统一帧率: 15.0 fps\n",
        "  - 曝光时间: 0.0 μs\n",
        "  - 增益: 0.0 dB\n",
        "  - 使用legacy初始化: true\n",
        "  - 左相机序列号: DA5158733\n",
        "  - 右相机序列号: DA5158736\n",
        "\n🎯 合像配置:\n",
        "  - 左眼姿态阈值: roll≤5.0°, pitch≤10.0°, yaw≤10.0°\n",
        "  - 合像阈值: RMS≤100.0px, P95≤100.0px, Max≤200.0px\n",
        "  - 使用legacy参数: true\n",
        "\n🛡️ 兼容性保护:\n",
        "  - 保护现有实现: true\n",
        "  - 使用legacy实现: true\n",
        "\n=== 报告结束 ===\n",
    ]
    .concat();
    assert_eq!(report, expected);
}

#[test]
fn config_report_negative_size() {
    let mut m = ConfigManager::new();
    m.system_config.pattern_layout.pattern_width = -12;
    m.preserve_existing_implementations = false;
    let report = m.generate_config_report(|x: F64Bits| format!("{:.1}", f64::from_bits(x.bits)));
    assert!(report.contains("  - 标定板尺寸: -12×4\n"));
    assert!(report.contains("  - 保护现有实现: false\n  - 使用legacy实现: false\n"));
}

#[test]
fn accepted_replacements_keep_manager_valid() {
    let mut m = ConfigManager::new();
    assert!(m.validate_all().is_ok());
    let mut sys = SystemConfig::new();
    sys.pattern_layout.pattern_width = 7;
    assert!(m.set_system_config(sys).is_ok());
    assert!(m.validate_all().is_ok());
    let mut cam = CameraConfig::new();
    cam.acquisition_frame_rate = f(30.0);
    assert!(cam.roi_extent_sums_fit());
    assert!(m.set_camera_config(cam).is_ok());
    assert!(m.validate_all().is_ok());
    assert!(m.set_alignment_config(AlignmentConfig::new()).is_ok());
    assert!(m.validate_all().is_ok());
}

#[test]
fn roi_sum_check() {
    let mut cam = CameraConfig::new();
    cam.roi.enabled = true;
    cam.roi.offset_x = i32::MAX;
    cam.roi.width = 1;
    assert!(!cam.roi_extent_sums_fit());
    cam.acquisition_frame_rate = f(0.0);
    assert!(cam.roi_extent_sums_fit());
    assert_eq!(cam.validate(), Err("帧率必须在0-60fps范围内".to_string()));
}

#[test]
fn save_load_round_trip_in_memory() {
    let mut m = ConfigManager::new_in_dir("station".to_string());
    m.preserve_existing_implementations = false;
    m.system_config.pattern_layout.pattern_width = 11;
    m.camera_config.left_camera_serial = "L-77".to_string();
    m.alignment_config.pose_thresholds.left_eye_max_roll = f(2.5);
    let data = m.to_config_data();
    assert_eq!(data.version, "1.0");
    assert_eq!(data.created_at, m.system_config.created_at);
    let back = ConfigManager::from_config_data(data, m.config_root_dir.clone());
    assert!(back.preserve_existing_implementations);
    assert_eq!(back.config_root_dir, "station");
    assert_eq!(back.system_config.pattern_layout.pattern_width, 11);
    assert_eq!(back.camera_config.left_camera_serial, "L-77");
    assert_eq!(back.alignment_config.pose_thresholds.left_eye_max_roll, f(2.5));
}
