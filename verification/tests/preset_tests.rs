use merging_image::config::compatibility_manager::{user_preset_file, CompatibilityManager, ConfigPreset, PresetFile};
use std::path::Path;
use merging_image::config::config_manager::ConfigManager;

#[test]
fn builtin_presets_are_listed() {
    let cm = CompatibilityManager::new("configs");
    assert_eq!(cm.list_presets(), vec!["production", "debug", "advanced"]);
    assert_eq!(cm.list_builtin_presets(), vec!["production", "debug", "advanced"]);
    assert!(cm.list_user_presets().is_empty());
}

#[test]
fn builtin_preset_contents() {
    let cm = CompatibilityManager::new("configs");
    let production = cm.get_preset("production").unwrap();
    assert_eq!(production.name, "生产环境");
    assert_eq!(production.preset_type, "builtin");
    assert!(production.alignment.roi_config.right_roi_enabled);
    assert_eq!(f64::from_bits(production.camera.acquisition_frame_rate.bits), 15.0);
    let debug = cm.get_preset("debug").unwrap();
    assert_eq!(debug.name, "调试环境");
    assert_eq!(f64::from_bits(debug.camera.acquisition_frame_rate.bits), 5.0);
    assert_eq!(f64::from_bits(debug.alignment.alignment_thresholds.max_max_error.bits), 300.0);
    assert!(!debug.alignment.roi_config.right_roi_enabled);
    let advanced = cm.get_preset("advanced").unwrap();
    assert_eq!(advanced.name, "高级配置");
    assert!(!advanced.camera.use_legacy_camera_init);
    assert_eq!(f64::from_bits(advanced.camera.exposure_time.bits), 8000.0);
    assert_eq!(f64::from_bits(advanced.camera.gain.bits), 2.0);
    assert_eq!(advanced.alignment.legacy_params_location, "高级配置：核心算法使用legacy，但允许调整阈值");
    assert!(cm.get_preset("生产环境").is_none());
}

#[test]
fn applying_presets() {
    let cm = CompatibilityManager::new("configs");
    let mut m = ConfigManager::new();
    assert!(cm.apply_preset_to_manager("advanced", &mut m).is_ok());
    assert!(!m.preserve_existing_implementations);
    assert!(!m.should_use_legacy_implementations());
    assert!(m.validate_all().is_ok());
    assert!(cm.apply_preset_to_manager("debug", &mut m).is_ok());
    assert!(m.preserve_existing_implementations);
    assert!(m.should_use_legacy_implementations());
    assert!(m.validate_all().is_ok());
    assert!(cm.apply_preset_to_manager("production", &mut m).is_ok());
    assert!(m.should_use_legacy_implementations());
    assert_eq!(m.system_config.created_at, "2025-01-15T00:00:00Z");
    assert_eq!(
        cm.apply_preset_to_manager("missing", &mut m),
        Err("预设不存在: missing".to_string())
    );
    assert_eq!(cm.preset_or_error("nope").err(), Some("预设不存在: nope".to_string()));
}

#[test]
fn user_presets() {
    let mut cm = CompatibilityManager::new("configs");
    let m = ConfigManager::new();
    let p = cm.create_preset_from_manager("mine".to_string(), "my settings".to_string(), &m);
    assert_eq!(p.preset_type, "user");
    assert_eq!(p.version, "1.0");
    let mut failed: Option<String> = None;
    let r = cm.save_user_preset(p.clone(), |file: &PresetFile, saved: &ConfigPreset| {
        assert_eq!(Path::new(&file.dir), Path::new("configs").join("presets"));
        assert_eq!(Path::new(&file.path), Path::new("configs").join("presets").join("mine.yaml"));
        failed = Some(saved.name.clone());
        Err("保存预设文件失败: disk full".to_string())
    });
    assert_eq!(r, Err("保存预设文件失败: disk full".to_string()));
    assert_eq!(failed, Some("mine".to_string()));
    assert!(cm.list_user_presets().is_empty());
    let r = cm.save_user_preset(p, |_file: &PresetFile, saved: &ConfigPreset| {
        assert_eq!(saved.preset_type, "user");
        Ok(())
    });
    assert!(r.is_ok());
    assert_eq!(cm.list_user_presets(), vec!["mine"]);
    assert_eq!(cm.list_presets(), vec!["production", "debug", "advanced", "mine"]);

    let mut loaded = cm.create_preset_from_manager("production".to_string(), "d".to_string(), &m);
    loaded.preset_type = "builtin".to_string();
    cm.register_user_preset(loaded);
    assert_eq!(cm.list_presets(), vec!["production", "debug", "advanced", "mine"]);
    assert_eq!(cm.get_preset("production").unwrap().preset_type, "user");
    assert_eq!(cm.list_builtin_presets(), vec!["debug", "advanced"]);
    let mut m2 = ConfigManager::new();
    m2.preserve_existing_implementations = false;
    assert!(cm.apply_preset_to_manager("mine", &mut m2).is_ok());
    assert!(m2.preserve_existing_implementations);
}

#[test]
fn compatibility_report() {
    let mut cm = CompatibilityManager::new("configs");
    let expected = [
        "=== 兼容性管理器报告 ===\n\n",
        "📋 配置预设统计:\n",
        "  - 内置预设: 3 个\n",
        "  - 用户预设: 0 个\n",
        "  - 总计: 3 个\n",
        "\n🔧 内置预设详情:\n",
        "  - 生产环境: 适合生产环境的优化配置，完全使用现有legacy实现\n",
        "    Legacy保护: 系统=true, 相机=true, 合像=true\n",
        "  - 调试环境: 适合调试和开发的配置，参数更宽松便于测试\n",
        "    Legacy保护: 系统=true, 相机=true, 合像=true\n",
        "  - 高级配置: 高级用户配置，允许部分自定义参数但保持核心legacy实现\n",
        "    Legacy保护: 系统=true, 相机=false, 合像=true\n",
        "\n=== 报告结束 ===\n",
    ]
    .concat();
    assert_eq!(cm.generate_compatibility_report(), expected);
    let m = ConfigManager::new();
    let p = cm.create_preset_from_manager("u1".to_string(), "first".to_string(), &m);
    cm.register_user_preset(p);
    let report = cm.generate_compatibility_report();
    assert!(report.contains("  - 用户预设: 1 个\n  - 总计: 4 个\n"));
    assert!(report.ends_with("\n👤 用户预设详情:\n  - u1: first\n\n=== 报告结束 ===\n"));
}

#[test]
fn user_preset_paths() {
    let f = user_preset_file("station/configs", "夜间");
    assert_eq!(f.dir, Path::new("station/configs").join("presets").to_string_lossy());
    assert_eq!(f.path, Path::new("station/configs").join("presets").join("夜间.yaml").to_string_lossy());
    let cm = CompatibilityManager::new("configs");
    assert_eq!(cm.user_presets_dir(), Path::new("configs").join("presets").to_string_lossy());
}

#[test]
fn saved_preset_reads_back() {
    let mut cm = CompatibilityManager::new("configs");
    let m = ConfigManager::new();
    let mut p = cm.create_preset_from_manager("production".to_string(), "override".to_string(), &m);
    p.preset_type = "builtin".to_string();
    assert!(cm.save_user_preset(p, |_f: &PresetFile, _s: &ConfigPreset| Ok(())).is_ok());
    let got = cm.get_preset("production").unwrap();
    assert_eq!(got.description, "override");
    assert_eq!(got.preset_type, "user");
    assert_eq!(cm.get_preset("debug").unwrap().preset_type, "builtin");
    assert_eq!(cm.list_builtin_presets(), vec!["debug", "advanced"]);
    assert_eq!(cm.list_user_presets(), vec!["production"]);
}
