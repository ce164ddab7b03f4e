//! Configuration presets: the built-in ones, those that users save, and
//! applying a preset to the configuration manager.

use vstd::prelude::*;
use crate::clock::now_rfc3339;
use crate::paths::{join_path, joined_path};
use crate::config::system_config::{
    SystemConfig, PatternLayoutConfig, FilePathConfig, CameraSerialConfig,
};
use crate::config::camera_config::CameraConfig;
use crate::config::alignment_config::{
    AlignmentConfig, PoseThresholds, AlignmentThresholds, AlignmentRoiConfig,
};
use crate::config::config_manager::ConfigManager;
use crate::float_bits::{F64Bits, F64_2, F64_5, F64_10, F64_15, F64_8000};
use crate::text::{join2, str_eq, decimal, decimal_string, bool_text, bool_str};

verus! {

/// A named set of system, camera and alignment configurations.
pub struct ConfigPreset {
    pub name: String,
    pub description: String,
    pub system: SystemConfig,
    pub camera: CameraConfig,
    pub alignment: AlignmentConfig,
    pub created_at: String,
    pub version: String,
    /// `builtin` or `user`.
    pub preset_type: String,
}

impl Clone for ConfigPreset {
    fn clone(&self) -> (r: Self)
        ensures
            r == *self,
    {
        ConfigPreset {
            name: self.name.clone(),
            description: self.description.clone(),
            system: self.system.clone(),
            camera: self.camera.clone(),
            alignment: self.alignment.clone(),
            created_at: self.created_at.clone(),
            version: self.version.clone(),
            preset_type: self.preset_type.clone(),
        }
    }
}

/// Presets under their keys, in the order in which they were first stored.
pub type PresetEntries = Seq<(Seq<char>, ConfigPreset)>;

/// No key occurs twice.
pub open spec fn keys_distinct(s: PresetEntries) -> bool {
    forall|i: int, j: int| 0 <= i < j < s.len() ==> s[i].0 != s[j].0
}

/// Some entry has the key.
pub open spec fn has_key(s: PresetEntries, key: Seq<char>) -> bool {
    exists|i: int| 0 <= i < s.len() && s[i].0 == key
}

/// The preset stored under the key.
pub open spec fn lookup(s: PresetEntries, key: Seq<char>) -> Option<ConfigPreset> {
    if has_key(s, key) {
        Some(s[choose|i: int| 0 <= i < s.len() && s[i].0 == key].1)
    } else {
        None
    }
}

/// Stores a preset under a key: in place of the one stored there, or last.
pub open spec fn insert_entry(s: PresetEntries, key: Seq<char>, preset: ConfigPreset) -> PresetEntries {
    if has_key(s, key) {
        s.update(choose|i: int| 0 <= i < s.len() && s[i].0 == key, (key, preset))
    } else {
        s.push((key, preset))
    }
}

/// The keys, in order.
pub open spec fn keys_of(s: PresetEntries) -> Seq<Seq<char>> {
    s.map_values(|e: (Seq<char>, ConfigPreset)| e.0)
}

/// The keys of the presets of the given type, in order.
pub open spec fn keys_of_type(s: PresetEntries, preset_type: Seq<char>) -> Seq<Seq<char>>
    decreases s.len(),
{
    if s.len() == 0 {
        Seq::empty()
    } else {
        let rest = keys_of_type(s.drop_last(), preset_type);
        if s.last().1.preset_type@ == preset_type {
            rest.push(s.last().0)
        } else {
            rest
        }
    }
}

/// The built-in stamp of the built-in presets.
pub open spec fn builtin_stamp() -> Seq<char> {
    "2025-01-15T00:00:00Z"@
}

impl ConfigPreset {
    /// A built-in preset with the given name and description.
    pub open spec fn is_builtin_named(self, name: Seq<char>, description: Seq<char>) -> bool {
        &&& self.name@ == name
        &&& self.description@ == description
        &&& self.created_at@ == builtin_stamp()
        &&& self.version@ == "1.0"@
        &&& self.preset_type@ == "builtin"@
    }

    /// The production preset: built-in layout, paths and serials, default
    /// camera, tuned alignment with the right region on; legacy throughout.
    pub open spec fn is_production(self) -> bool {
        &&& self.is_builtin_named("生产环境"@, "适合生产环境的优化配置，完全使用现有legacy实现"@)
        &&& self.system.pattern_layout.is_builtin_layout("生产环境：强制使用calibration_circles.rs中的原有世界坐标"@)
        &&& self.system.file_paths.is_default()
        &&& self.system.camera_serials.is_default()
        &&& self.system.version@ == "1.0"@
        &&& self.system.created_at@ == builtin_stamp()
        &&& self.camera.is_default()
        &&& self.alignment.is_builtin(
            "生产环境：使用alignment.rs中优化后的参数"@,
            true,
            "生产环境：启用右相机ROI以提升50%性能"@,
        )
    }

    /// The debugging preset, derived from `production`: 5 fps, relaxed pose
    /// and alignment limits, full-frame regions.
    pub open spec fn is_debug_of(self, production: ConfigPreset) -> bool {
        &&& self.is_builtin_named("调试环境"@, "适合调试和开发的配置，参数更宽松便于测试"@)
        &&& self.system == production.system
        &&& self.camera == (CameraConfig {
            acquisition_frame_rate: F64Bits { bits: F64_5 },
            ..production.camera
        })
        &&& self.alignment.pose_thresholds.is_relaxed()
        &&& self.alignment.alignment_thresholds.is_relaxed()
        &&& self.alignment.roi_config.is_full_frame("调试环境：禁用ROI以便观察完整图像"@)
        &&& self.alignment == (AlignmentConfig {
            pose_thresholds: self.alignment.pose_thresholds,
            alignment_thresholds: self.alignment.alignment_thresholds,
            roi_config: self.alignment.roi_config,
            ..production.alignment
        })
    }

    /// The advanced preset, derived from `production`: 10 fps, 8000 us
    /// exposure, 2 dB gain, the built-in camera initialisation bypassed.
    pub open spec fn is_advanced_of(self, production: ConfigPreset) -> bool {
        &&& self.is_builtin_named("高级配置"@, "高级用户配置，允许部分自定义参数但保持核心legacy实现"@)
        &&& self.system == production.system
        &&& self.camera == (CameraConfig {
            acquisition_frame_rate: F64Bits { bits: F64_10 },
            exposure_time: F64Bits { bits: F64_8000 },
            gain: F64Bits { bits: F64_2 },
            use_legacy_camera_init: false,
            ..production.camera
        })
        &&& self.alignment.legacy_params_location@ == "高级配置：核心算法使用legacy，但允许调整阈值"@
        &&& self.alignment == (AlignmentConfig {
            use_legacy_alignment_params: true,
            legacy_params_location: self.alignment.legacy_params_location,
            ..production.alignment
        })
    }

    /// `saved` is `preset` as stored by a user: type `user`, a new stamp.
    pub open spec fn is_user_copy_of(saved: ConfigPreset, preset: ConfigPreset) -> bool {
        saved == (ConfigPreset {
            preset_type: saved.preset_type,
            created_at: saved.created_at,
            ..preset
        }) && saved.preset_type@ == "user"@
    }

    /// The production preset.
    pub fn production() -> (r: Self)
        ensures
            r.is_production(),
    {
        ConfigPreset {
            name: "生产环境".to_string(),
            description: "适合生产环境的优化配置，完全使用现有legacy实现".to_string(),
            system: SystemConfig {
                pattern_layout: PatternLayoutConfig::builtin(
                    "生产环境：强制使用calibration_circles.rs中的原有世界坐标",
                ),
                file_paths: FilePathConfig::default_paths(),
                camera_serials: CameraSerialConfig::default_serials(),
                version: "1.0".to_string(),
                created_at: "2025-01-15T00:00:00Z".to_string(),
            },
            camera: CameraConfig::new(),
            alignment: AlignmentConfig::builtin(
                "生产环境：使用alignment.rs中优化后的参数",
                true,
                "生产环境：启用右相机ROI以提升50%性能",
            ),
            created_at: "2025-01-15T00:00:00Z".to_string(),
            version: "1.0".to_string(),
            preset_type: "builtin".to_string(),
        }
    }

    /// The debugging preset, derived from the production one.
    pub fn debug_from(production: &ConfigPreset) -> (r: Self)
        ensures
            r.is_debug_of(*production),
    {
        ConfigPreset {
            name: "调试环境".to_string(),
            description: "适合调试和开发的配置，参数更宽松便于测试".to_string(),
            system: production.system.clone(),
            camera: CameraConfig {
                acquisition_frame_rate: F64Bits::from_bits(F64_5),
                ..production.camera.clone()
            },
            alignment: AlignmentConfig {
                pose_thresholds: PoseThresholds::relaxed(),
                alignment_thresholds: AlignmentThresholds::relaxed(),
                roi_config: AlignmentRoiConfig::full_frame("调试环境：禁用ROI以便观察完整图像"),
                ..production.alignment.clone()
            },
            created_at: "2025-01-15T00:00:00Z".to_string(),
            version: "1.0".to_string(),
            preset_type: "builtin".to_string(),
        }
    }

    /// The advanced preset, derived from the production one.
    pub fn advanced_from(production: &ConfigPreset) -> (r: Self)
        ensures
            r.is_advanced_of(*production),
    {
        ConfigPreset {
            name: "高级配置".to_string(),
            description: "高级用户配置，允许部分自定义参数但保持核心legacy实现".to_string(),
            system: production.system.clone(),
            camera: CameraConfig {
                acquisition_frame_rate: F64Bits::from_bits(F64_10),
                exposure_time: F64Bits::from_bits(F64_8000),
                gain: F64Bits::from_bits(F64_2),
                use_legacy_camera_init: false,
                ..production.camera.clone()
            },
            alignment: AlignmentConfig {
                use_legacy_alignment_params: true,
                legacy_params_location: "高级配置：核心算法使用legacy，但允许调整阈值".to_string(),
                ..production.alignment.clone()
            },
            created_at: "2025-01-15T00:00:00Z".to_string(),
            version: "1.0".to_string(),
            preset_type: "builtin".to_string(),
        }
    }
}

/// The report lines of one built-in preset.
pub open spec fn builtin_preset_lines(p: ConfigPreset) -> Seq<char> {
    "  - "@ + p.name@ + ": "@ + p.description@ + "\n"@
        + "    Legacy保护: 系统="@ + bool_text(p.system.pattern_layout.use_legacy_coordinates)
        + ", 相机="@ + bool_text(p.camera.use_legacy_camera_init)
        + ", 合像="@ + bool_text(p.alignment.use_legacy_alignment_params) + "\n"@
}

/// The report line of one user preset.
pub open spec fn user_preset_line(p: ConfigPreset) -> Seq<char> {
    "  - "@ + p.name@ + ": "@ + p.description@ + "\n"@
}

/// The detail lines of the presets stored under the given keys, in order.
pub open spec fn detail_lines(s: PresetEntries, keys: Seq<Seq<char>>, builtin: bool) -> Seq<char>
    decreases keys.len(),
{
    if keys.len() == 0 {
        Seq::empty()
    } else {
        detail_lines(s, keys.drop_last(), builtin) + match lookup(s, keys.last()) {
            Some(p) => if builtin { builtin_preset_lines(p) } else { user_preset_line(p) },
            None => Seq::empty(),
        }
    }
}

/// The compatibility report: preset counts, the built-in presets with their
/// legacy switches, and the user presets if there are any.
pub open spec fn compatibility_report(s: PresetEntries) -> Seq<char> {
    let builtin = keys_of_type(s, "builtin"@);
    let user = keys_of_type(s, "user"@);
    "=== 兼容性管理器报告 ===\n\n"@
        + "📋 配置预设统计:\n"@
        + "  - 内置预设: "@ + decimal(builtin.len()) + " 个\n"@
        + "  - 用户预设: "@ + decimal(user.len()) + " 个\n"@
        + "  - 总计: "@ + decimal(s.len()) + " 个\n"@
        + "\n🔧 内置预设详情:\n"@
        + detail_lines(s, builtin, true)
        + (if user.len() > 0 { "\n👤 用户预设详情:\n"@ + detail_lines(s, user, false) } else { Seq::empty() })
        + "\n=== 报告结束 ===\n"@
}

/// The type-filtered keys never outnumber the entries.
proof fn lemma_keys_of_type_len(s: PresetEntries, t: Seq<char>)
    ensures
        keys_of_type(s, t).len() <= s.len(),
    decreases s.len(),
{
    if s.len() > 0 {
        lemma_keys_of_type_len(s.drop_last(), t);
    }
}

/// Appends the report lines of one preset.
#[verifier::rlimit(40)]
fn append_preset_lines(report: &mut String, p: &ConfigPreset, builtin: bool)
    ensures
        final(report)@ == old(report)@ + (if builtin { builtin_preset_lines(*p) } else { user_preset_line(*p) }),
{
    report.append("  - ");
    report.append(p.name.as_str());
    report.append(": ");
    report.append(p.description.as_str());
    report.append("\n");
    if builtin {
        report.append("    Legacy保护: 系统=");
        report.append(bool_str(p.system.pattern_layout.use_legacy_coordinates));
        report.append(", 相机=");
        report.append(bool_str(p.camera.use_legacy_camera_init));
        report.append(", 合像=");
        report.append(bool_str(p.alignment.use_legacy_alignment_params));
        report.append("\n");
    }
    assert(final(report)@ =~= old(report)@ + (if builtin { builtin_preset_lines(*p) } else { user_preset_line(*p) }));
}

/// Where a user preset is written: the presets directory, and the file in it.
pub struct PresetFile {
    pub dir: String,
    pub path: String,
}

/// The presets directory under a configuration directory: `<dir>/presets`.
pub open spec fn presets_dir_of(config_dir: Seq<char>) -> Seq<char> {
    joined_path(config_dir, "presets"@)
}

/// The file of the user preset `name`: `<dir>/presets/<name>.yaml`.
pub open spec fn preset_file_of(config_dir: Seq<char>, name: Seq<char>) -> Seq<char> {
    joined_path(presets_dir_of(config_dir), name + ".yaml"@)
}

/// Where the user preset `name` of the configuration directory is written.
pub fn user_preset_file(config_dir: &str, name: &str) -> (r: PresetFile)
    ensures
        r.dir@ == presets_dir_of(config_dir@),
        r.path@ == preset_file_of(config_dir@, name@),
{
    let dir = join_path(config_dir, "presets");
    let file_name = join2(name, ".yaml");
    let path = join_path(dir.as_str(), file_name.as_str());
    PresetFile { dir, path }
}

/// The presets, by key, and the directory that holds user presets.
pub struct CompatibilityManager {
    presets: Vec<(String, ConfigPreset)>,
    config_dir: String,
}

/// The three built-in presets under `production`, `debug` and `advanced`, in that order.
pub open spec fn are_builtin_entries(s: PresetEntries) -> bool {
    &&& s.len() == 3
    &&& s[0].0 == "production"@
    &&& s[1].0 == "debug"@
    &&& s[2].0 == "advanced"@
    &&& s[0].1.is_production()
    &&& s[1].1.is_debug_of(s[0].1)
    &&& s[2].1.is_advanced_of(s[0].1)
}

/// The protection switch that applying the named preset sets: on for the
/// `production` and `debug` presets and for user presets, off for `advanced`.
pub open spec fn preserve_for_preset(name: Seq<char>) -> bool {
    name != "advanced"@
}

impl CompatibilityManager {
    #[verifier::type_invariant]
    spec fn keys_are_distinct(self) -> bool {
        keys_distinct(self.entries())
    }

    /// The presets under their keys, in storing order.
    pub closed spec fn entries(self) -> PresetEntries {
        self.presets@.map_values(|e: (String, ConfigPreset)| (e.0@, e.1))
    }

    /// The directory under which user presets are kept.
    pub closed spec fn dir(self) -> Seq<char> {
        self.config_dir@
    }

    /// A manager holding the built-in presets, for the given configuration
    /// directory. Presets saved by users are added with `register_user_preset`.
    pub fn new(config_dir: &str) -> (r: Self)
        ensures
            are_builtin_entries(r.entries()),
            keys_distinct(r.entries()),
            r.dir() == config_dir@,
    {
        let mut manager = CompatibilityManager { presets: Vec::new(), config_dir: config_dir.to_string() };
        proof {
            assert(manager.entries() =~= Seq::empty());
        }
        manager.load_builtin_presets();
        proof {
            use_type_invariant(&manager);
        }
        manager
    }

    /// Stores the production, debugging and advanced presets.
    fn load_builtin_presets(&mut self)
        requires
            old(self).entries().len() == 0,
        ensures
            are_builtin_entries(final(self).entries()),
            final(self).dir() == old(self).dir(),
    {
        let production = ConfigPreset::production();
        let debug = ConfigPreset::debug_from(&production);
        let advanced = ConfigPreset::advanced_from(&production);
        proof {
            reveal_strlit("production");
            reveal_strlit("debug");
            reveal_strlit("advanced");
            assert("production"@.len() != "debug"@.len());
            assert("production"@.len() != "advanced"@.len());
            assert("debug"@.len() != "advanced"@.len());
        }
        self.insert_preset("production".to_string(), production);
        self.insert_preset("debug".to_string(), debug);
        self.insert_preset("advanced".to_string(), advanced);
    }

    /// Where the key is stored, if it is.
    fn find_key(&self, key: &str) -> (r: Option<usize>)
        ensures
            match r {
                Some(i) => i < self.entries().len() && self.entries()[i as int].0 == key@,
                None => !has_key(self.entries(), key@),
            },
    {
        let n = self.presets.len();
        let mut i: usize = 0;
        while i < n
            invariant
                n == self.presets@.len(),
                i <= n,
                self.entries().len() == n,
                forall|j: int| 0 <= j < i ==> self.entries()[j].0 != key@,
            decreases n - i,
        {
            if str_eq(self.presets[i].0.as_str(), key) {
                return Some(i);
            }
            i = i + 1;
        }
        None
    }

    /// Stores a preset under a key, in place of one stored there.
    pub fn insert_preset(&mut self, key: String, preset: ConfigPreset)
        ensures
            final(self).entries() == insert_entry(old(self).entries(), key@, preset),
            keys_distinct(final(self).entries()),
            final(self).dir() == old(self).dir(),
    {
        proof {
            use_type_invariant(&*self);
        }
        let ghost old_entries = self.entries();
        let found = self.find_key(key.as_str());
        let mut presets: Vec<(String, ConfigPreset)> = Vec::new();
        std::mem::swap(&mut presets, &mut self.presets);
        assert(presets@.map_values(|e: (String, ConfigPreset)| (e.0@, e.1)) == old_entries);
        let ghost new_entries = insert_entry(old_entries, key@, preset);
        match found {
            Some(i) => {
                proof {
                    let k = choose|k: int| 0 <= k < old_entries.len() && old_entries[k].0 == key@;
                    assert(k == i as int);
                }
                presets.set(i, (key, preset));
            },
            None => {
                presets.push((key, preset));
            },
        }
        assert(presets@.map_values(|e: (String, ConfigPreset)| (e.0@, e.1)) =~= new_entries);
        proof {
            assert forall|a: int, b: int| 0 <= a < b < new_entries.len() implies new_entries[a].0 != new_entries[b].0 by {
                if found is None {
                    if b == old_entries.len() {
                        assert(old_entries[a].0 != key@);
                    }
                }
            }
        }
        self.presets = presets;
    }

    /// The preset stored under the name.
    pub fn get_preset(&self, name: &str) -> (r: Option<&ConfigPreset>)
        ensures
            match r {
                Some(p) => lookup(self.entries(), name@) == Some(*p),
                None => lookup(self.entries(), name@) is None,
            },
            keys_distinct(self.entries()),
    {
        proof {
            use_type_invariant(self);
        }
        match self.find_key(name) {
            Some(i) => {
                proof {
                    let k = choose|k: int| 0 <= k < self.entries().len() && self.entries()[k].0 == name@;
                    assert(k == i as int);
                }
                Some(&self.presets[i].1)
            },
            None => None,
        }
    }

    /// The stored preset under the name, or the error that it does not exist.
    pub fn preset_or_error(&self, name: &str) -> (r: Result<ConfigPreset, String>)
        ensures
            match lookup(self.entries(), name@) {
                Some(p) => r == Ok::<ConfigPreset, String>(p),
                None => r matches Err(e) && e@ == "预设不存在: "@ + name@,
            },
    {
        match self.get_preset(name) {
            Some(p) => Ok(p.clone()),
            None => Err(join2("预设不存在: ", name)),
        }
    }

    /// The keys of all presets, in storing order.
    pub fn list_presets(&self) -> (r: Vec<String>)
        ensures
            r@.map_values(|s: String| s@) == keys_of(self.entries()),
            keys_distinct(self.entries()),
    {
        proof {
            use_type_invariant(self);
        }
        let n = self.presets.len();
        let mut names: Vec<String> = Vec::new();
        let mut i: usize = 0;
        while i < n
            invariant
                n == self.presets@.len(),
                i <= n,
                self.entries().len() == n,
                names@.map_values(|s: String| s@) =~= keys_of(self.entries()).take(i as int),
            decreases n - i,
        {
            assert(self.entries()[i as int].0 == self.presets@[i as int].0@);
            assert(keys_of(self.entries())[i as int] == self.entries()[i as int].0);
            let ghost before = names@;
            let name = self.presets[i].0.clone();
            names.push(name);
            assert(names@ == before.push(name));
            assert(names@.map_values(|s: String| s@) =~= before.map_values(|s: String| s@).push(name@));
            i = i + 1;
            assert(names@.map_values(|s: String| s@) =~= keys_of(self.entries()).take(i as int));
        }
        assert(keys_of(self.entries()).take(n as int) =~= keys_of(self.entries()));
        names
    }

    /// The keys of the presets of the given type, in storing order.
    fn list_of_type(&self, preset_type: &str) -> (r: Vec<String>)
        ensures
            r@.map_values(|s: String| s@) == keys_of_type(self.entries(), preset_type@),
    {
        let n = self.presets.len();
        let mut names: Vec<String> = Vec::new();
        let mut i: usize = 0;
        while i < n
            invariant
                n == self.presets@.len(),
                i <= n,
                self.entries().len() == n,
                names@.map_values(|s: String| s@) =~= keys_of_type(self.entries().take(i as int), preset_type@),
            decreases n - i,
        {
            proof {
                assert(self.entries().take(i + 1).drop_last() =~= self.entries().take(i as int));
            }
            assert(self.entries()[i as int] == (self.presets@[i as int].0@, self.presets@[i as int].1));
            if str_eq(self.presets[i].1.preset_type.as_str(), preset_type) {
                names.push(self.presets[i].0.clone());
            }
            i = i + 1;
            assert(names@.map_values(|s: String| s@) =~= keys_of_type(self.entries().take(i as int), preset_type@));
        }
        assert(self.entries().take(n as int) =~= self.entries());
        names
    }

    /// The keys of the built-in presets, in storing order.
    pub fn list_builtin_presets(&self) -> (r: Vec<String>)
        ensures
            r@.map_values(|s: String| s@) == keys_of_type(self.entries(), "builtin"@),
            keys_distinct(self.entries()),
    {
        proof {
            use_type_invariant(self);
        }
        self.list_of_type("builtin")
    }

    /// The keys of the user presets, in storing order.
    pub fn list_user_presets(&self) -> (r: Vec<String>)
        ensures
            r@.map_values(|s: String| s@) == keys_of_type(self.entries(), "user"@),
            keys_distinct(self.entries()),
    {
        proof {
            use_type_invariant(self);
        }
        self.list_of_type("user")
    }

    /// Stores a preset read from the user-preset directory under its own
    /// name, marked as a user preset.
    pub fn register_user_preset(&mut self, preset: ConfigPreset)
        ensures
            exists|stored: ConfigPreset| {
                &&& stored == (ConfigPreset { preset_type: stored.preset_type, ..preset })
                &&& stored.preset_type@ == "user"@
                &&& final(self).entries() == insert_entry(old(self).entries(), preset.name@, stored)
                &&& lookup(final(self).entries(), preset.name@) == Some(stored)
            },
            forall|other: Seq<char>| other != preset.name@
                ==> #[trigger] lookup(final(self).entries(), other) == lookup(old(self).entries(), other),
            keys_distinct(final(self).entries()),
            final(self).dir() == old(self).dir(),
    {
        proof {
            use_type_invariant(&*self);
        }
        let ghost before = self.entries();
        let mut stored = preset;
        stored.preset_type = "user".to_string();
        let key = stored.name.clone();
        let ghost stored_view = stored;
        self.insert_preset(key, stored);
        proof {
            lemma_lookup_after_insert(before, preset.name@, stored_view, preset.name@);
            assert forall|other: Seq<char>| other != preset.name@
                implies #[trigger] lookup(self.entries(), other) == lookup(before, other) by {
                lemma_lookup_after_insert(before, preset.name@, stored_view, other);
            }
        }
    }

    /// The directory that holds the user presets: `<dir>/presets`.
    pub fn user_presets_dir(&self) -> (r: String)
        ensures
            r@ == presets_dir_of(self.dir()),
    {
        join_path(self.config_dir.as_str(), "presets")
    }

    /// Saves a preset as a user preset: a copy marked `user` and stamped now
    /// is handed to `persist` with its file `<dir>/presets/<name>.yaml`
    /// (and that directory), and `persist` writes it there; if that succeeds
    /// the copy is stored under the preset's name, else nothing changes and
    /// its error is returned.
    pub fn save_user_preset<F: FnOnce(&PresetFile, &ConfigPreset) -> Result<(), String>>(
        &mut self,
        preset: ConfigPreset,
        persist: F,
    ) -> (r: Result<(), String>)
        requires
            forall|f: &PresetFile, p: &ConfigPreset| call_requires(persist, (f, p)),
        ensures
            exists|file: PresetFile, saved: ConfigPreset| #![trigger call_ensures(persist, (&file, &saved), r)] {
                &&& ConfigPreset::is_user_copy_of(saved, preset)
                &&& file.dir@ == presets_dir_of(old(self).dir())
                &&& file.path@ == preset_file_of(old(self).dir(), preset.name@)
                &&& call_ensures(persist, (&file, &saved), r)
                &&& r is Ok ==> final(self).entries() == insert_entry(old(self).entries(), preset.name@, saved)
                &&& r is Ok ==> lookup(final(self).entries(), preset.name@) == Some(saved)
                &&& r is Err ==> final(self).entries() == old(self).entries()
            },
            forall|other: Seq<char>| other != preset.name@
                ==> #[trigger] lookup(final(self).entries(), other) == lookup(old(self).entries(), other),
            keys_distinct(final(self).entries()),
            final(self).dir() == old(self).dir(),
    {
        proof {
            use_type_invariant(&*self);
        }
        let ghost before = self.entries();
        let mut saved = preset.clone();
        saved.preset_type = "user".to_string();
        saved.created_at = now_rfc3339();
        let ghost witness = saved;
        assert(ConfigPreset::is_user_copy_of(witness, preset));
        let file = user_preset_file(self.config_dir.as_str(), preset.name.as_str());
        let outcome = persist(&file, &saved);
        if outcome.is_ok() {
            self.insert_preset(preset.name.clone(), saved);
            proof {
                lemma_lookup_after_insert(before, preset.name@, witness, preset.name@);
                assert forall|other: Seq<char>| other != preset.name@
                    implies #[trigger] lookup(self.entries(), other) == lookup(before, other) by {
                    lemma_lookup_after_insert(before, preset.name@, witness, other);
                }
            }
        }
        outcome
    }

    /// Applies the named preset: the manager takes its three configurations,
    /// and protection is set off for `advanced` and on for every other name.
    /// An unknown name is refused and nothing changes.
    pub fn apply_preset_to_manager(&self, preset_name: &str, manager: &mut ConfigManager) -> (r: Result<(), String>)
        ensures
            match lookup(self.entries(), preset_name@) {
                Some(p) => r is Ok && *final(manager) == (ConfigManager {
                    system_config: p.system,
                    camera_config: p.camera,
                    alignment_config: p.alignment,
                    preserve_existing_implementations: preserve_for_preset(preset_name@),
                    ..*old(manager)
                }),
                None => (r matches Err(e) && e@ == "预设不存在: "@ + preset_name@)
                    && *final(manager) == *old(manager),
            },
    {
        let preset = match self.get_preset(preset_name) {
            Some(p) => p,
            None => return Err(join2("预设不存在: ", preset_name)),
        };
        manager.system_config = preset.system.clone();
        manager.camera_config = preset.camera.clone();
        manager.alignment_config = preset.alignment.clone();
        proof {
            reveal_strlit("production");
            reveal_strlit("debug");
            reveal_strlit("advanced");
            assert("production"@.len() != "advanced"@.len());
            assert("debug"@.len() != "advanced"@.len());
        }
        manager.preserve_existing_implementations =
            if str_eq(preset_name, "production") || str_eq(preset_name, "debug") {
                true
            } else if str_eq(preset_name, "advanced") {
                false
            } else {
                true
            };
        Ok(())
    }

    /// A user preset holding the manager's configurations, stamped now.
    pub fn create_preset_from_manager(&self, name: String, description: String, manager: &ConfigManager) -> (r: ConfigPreset)
        ensures
            r.name == name,
            r.description == description,
            r.system == manager.system_config,
            r.camera == manager.camera_config,
            r.alignment == manager.alignment_config,
            r.version@ == "1.0"@,
            r.preset_type@ == "user"@,
    {
        ConfigPreset {
            name,
            description,
            system: manager.system_config.clone(),
            camera: manager.camera_config.clone(),
            alignment: manager.alignment_config.clone(),
            created_at: now_rfc3339(),
            version: "1.0".to_string(),
            preset_type: "user".to_string(),
        }
    }

    /// Appends the detail lines of the presets under the given keys.
    fn append_detail_lines(&self, report: &mut String, keys: &Vec<String>, builtin: bool)
        ensures
            final(report)@ == old(report)@ + detail_lines(
                self.entries(),
                keys@.map_values(|k: String| k@),
                builtin,
            ),
    {
        let ghost key_views = keys@.map_values(|k: String| k@);
        let n = keys.len();
        let mut i: usize = 0;
        while i < n
            invariant
                n == keys@.len(),
                key_views == keys@.map_values(|k: String| k@),
                i <= n,
                report@ == old(report)@ + detail_lines(self.entries(), key_views.take(i as int), builtin),
            decreases n - i,
        {
            proof {
                assert(key_views.take(i + 1).drop_last() =~= key_views.take(i as int));
                assert(key_views.take(i + 1).last() == keys@[i as int]@);
            }
            match self.get_preset(keys[i].as_str()) {
                Some(p) => append_preset_lines(report, p, builtin),
                None => {},
            }
            i = i + 1;
            assert(report@ =~= old(report)@ + detail_lines(self.entries(), key_views.take(i as int), builtin));
        }
        assert(key_views.take(n as int) =~= key_views);
    }

    /// The compatibility report.
    pub fn generate_compatibility_report(&self) -> (r: String)
        ensures
            r@ == compatibility_report(self.entries()),
    {
        let builtin = self.list_builtin_presets();
        let user = self.list_user_presets();
        proof {
            lemma_keys_of_type_len(self.entries(), "builtin"@);
            lemma_keys_of_type_len(self.entries(), "user"@);
            assert(builtin@.len() == builtin@.map_values(|k: String| k@).len());
            assert(user@.len() == user@.map_values(|k: String| k@).len());
        }
        let builtin_count = builtin.len();
        let user_count = user.len();
        let mut report = String::new();
        report.append("=== 兼容性管理器报告 ===\n\n");
        report.append("📋 配置预设统计:\n");
        report.append("  - 内置预设: ");
        report.append(decimal_string(builtin_count as u64).as_str());
        report.append(" 个\n");
        report.append("  - 用户预设: ");
        report.append(decimal_string(user_count as u64).as_str());
        report.append(" 个\n");
        report.append("  - 总计: ");
        report.append(decimal_string(self.presets.len() as u64).as_str());
        report.append(" 个\n");
        report.append("\n🔧 内置预设详情:\n");
        self.append_detail_lines(&mut report, &builtin, true);
        if user_count > 0 {
            report.append("\n👤 用户预设详情:\n");
            self.append_detail_lines(&mut report, &user, false);
        }
        report.append("\n=== 报告结束 ===\n");
        assert(report@ =~= compatibility_report(self.entries()));
        report
    }
}

} // verus!

verus! {

/// Storing a preset under a key and then looking the key up gives that
/// preset back; every other key keeps its preset; no key is then stored twice.
pub proof fn lemma_lookup_after_insert(s: PresetEntries, key: Seq<char>, preset: ConfigPreset, other: Seq<char>)
    requires
        keys_distinct(s),
    ensures
        lookup(insert_entry(s, key, preset), key) == Some(preset),
        other != key ==> lookup(insert_entry(s, key, preset), other) == lookup(s, other),
        keys_distinct(insert_entry(s, key, preset)),
{
    let t = insert_entry(s, key, preset);
    if has_key(s, key) {
        let k = choose|i: int| 0 <= i < s.len() && s[i].0 == key;
        assert(t[k].0 == key);
        assert(has_key(t, key));
        let k2 = choose|i: int| 0 <= i < t.len() && t[i].0 == key;
        assert(k2 == k);
        assert forall|a: int, b: int| 0 <= a < b < t.len() implies t[a].0 != t[b].0 by {
            if a != k && b != k {
                assert(t[a] == s[a] && t[b] == s[b]);
            } else if a == k {
                assert(s[b].0 != s[k].0);
            } else {
                assert(s[a].0 != s[k].0);
            }
        }
        if other != key {
            if has_key(s, other) {
                let j = choose|i: int| 0 <= i < s.len() && s[i].0 == other;
                assert(t[j].0 == other);
                let j2 = choose|i: int| 0 <= i < t.len() && t[i].0 == other;
                assert(j2 == j);
            } else {
                assert forall|i: int| 0 <= i < t.len() implies t[i].0 != other by {
                    if i != k {
                        assert(t[i] == s[i]);
                    }
                }
            }
        }
    } else {
        let n = s.len() as int;
        assert(t[n].0 == key);
        assert(has_key(t, key));
        let k2 = choose|i: int| 0 <= i < t.len() && t[i].0 == key;
        assert(k2 == n);
        assert forall|a: int, b: int| 0 <= a < b < t.len() implies t[a].0 != t[b].0 by {
            if b == n {
                assert(t[a] == s[a]);
            } else {
                assert(t[a] == s[a] && t[b] == s[b]);
            }
        }
        if other != key {
            if has_key(s, other) {
                let j = choose|i: int| 0 <= i < s.len() && s[i].0 == other;
                assert(t[j].0 == other);
                let j2 = choose|i: int| 0 <= i < t.len() && t[i].0 == other;
                assert(j2 == j);
            } else {
                assert forall|i: int| 0 <= i < t.len() implies t[i].0 != other by {
                    if i < n {
                        assert(t[i] == s[i]);
                    }
                }
            }
        }
    }
}

/// A key is listed under a type exactly when some entry of that type has it.
proof fn lemma_keys_of_type_members(s: PresetEntries, t: Seq<char>, n: Seq<char>)
    ensures
        keys_of_type(s, t).contains(n)
            <==> exists|i: int| 0 <= i < s.len() && s[i].0 == n && #[trigger] s[i].1.preset_type@ == t,
    decreases s.len(),
{
    if s.len() > 0 {
        let init = s.drop_last();
        lemma_keys_of_type_members(init, t, n);
        let rest = keys_of_type(init, t);
        let last = s.len() - 1;
        if s[last].1.preset_type@ == t {
            let keys = rest.push(s[last].0);
            assert(keys_of_type(s, t) == keys);
            if rest.contains(n) {
                let j = choose|j: int| 0 <= j < rest.len() && rest[j] == n;
                assert(keys[j] == n);
            }
            if s[last].0 == n {
                assert(keys[rest.len() as int] == n);
            }
            if keys.contains(n) {
                let j = choose|j: int| 0 <= j < keys.len() && keys[j] == n;
                if j < rest.len() {
                    assert(rest[j] == n);
                }
            }
        }
        if exists|i: int| 0 <= i < init.len() && init[i].0 == n && #[trigger] init[i].1.preset_type@ == t {
            let i = choose|i: int| 0 <= i < init.len() && init[i].0 == n && #[trigger] init[i].1.preset_type@ == t;
            assert(s[i] == init[i]);
        }
        if exists|i: int| 0 <= i < s.len() && s[i].0 == n && #[trigger] s[i].1.preset_type@ == t {
            let i = choose|i: int| 0 <= i < s.len() && s[i].0 == n && #[trigger] s[i].1.preset_type@ == t;
            if i < s.len() - 1 {
                assert(init[i] == s[i]);
            }
        }
    }
}

/// The keys of one type are listed once each.
proof fn lemma_keys_of_type_unique(s: PresetEntries, t: Seq<char>)
    requires
        keys_distinct(s),
    ensures
        keys_of_type(s, t).no_duplicates(),
    decreases s.len(),
{
    if s.len() > 0 {
        let init = s.drop_last();
        lemma_keys_of_type_unique(init, t);
        lemma_keys_of_type_members(init, t, s.last().0);
        if exists|i: int| 0 <= i < init.len() && init[i].0 == s.last().0 && #[trigger] init[i].1.preset_type@ == t {
            let i = choose|i: int| 0 <= i < init.len() && init[i].0 == s.last().0 && #[trigger] init[i].1.preset_type@ == t;
            assert(s[i].0 == s[s.len() - 1].0);
        }
    }
}

/// Entries of two different types list at most all the keys together.
proof fn lemma_keys_of_two_types_len(s: PresetEntries, t1: Seq<char>, t2: Seq<char>)
    requires
        t1 != t2,
    ensures
        keys_of_type(s, t1).len() + keys_of_type(s, t2).len() <= s.len(),
    decreases s.len(),
{
    if s.len() > 0 {
        lemma_keys_of_two_types_len(s.drop_last(), t1, t2);
    }
}

/// With every key stored once: all keys, the built-in keys and the user
/// keys are each listed once; a key is listed as built-in (user) exactly
/// when it is stored with a built-in (user) preset; so no key is listed as
/// both, and the two lists together are no longer than the list of all keys.
pub proof fn lemma_preset_lists(s: PresetEntries, n: Seq<char>)
    requires
        keys_distinct(s),
    ensures
        keys_of(s).no_duplicates(),
        keys_of_type(s, "builtin"@).no_duplicates(),
        keys_of_type(s, "user"@).no_duplicates(),
        keys_of_type(s, "builtin"@).contains(n) <==> (lookup(s, n) matches Some(p) && p.preset_type@ == "builtin"@),
        keys_of_type(s, "user"@).contains(n) <==> (lookup(s, n) matches Some(p) && p.preset_type@ == "user"@),
        !(keys_of_type(s, "builtin"@).contains(n) && keys_of_type(s, "user"@).contains(n)),
        keys_of_type(s, "builtin"@).len() + keys_of_type(s, "user"@).len() <= keys_of(s).len(),
{
    reveal_strlit("builtin");
    reveal_strlit("user");
    assert("builtin"@ != "user"@) by {
        assert("builtin"@.len() != "user"@.len());
    }
    let ks = keys_of(s);
    assert forall|i: int, j: int| 0 <= i < ks.len() && 0 <= j < ks.len() && i != j implies ks[i] != ks[j] by {
        if i < j {
            assert(s[i].0 != s[j].0);
        } else {
            assert(s[j].0 != s[i].0);
        }
    }
    lemma_keys_of_type_unique(s, "builtin"@);
    lemma_keys_of_type_unique(s, "user"@);
    lemma_keys_of_type_members(s, "builtin"@, n);
    lemma_keys_of_type_members(s, "user"@, n);
    lemma_keys_of_two_types_len(s, "builtin"@, "user"@);
    if has_key(s, n) {
        let k = choose|i: int| 0 <= i < s.len() && s[i].0 == n;
        assert forall|i: int| 0 <= i < s.len() && s[i].0 == n implies i == k by {
            if i < k {
                assert(s[i].0 != s[k].0);
            } else if k < i {
                assert(s[k].0 != s[i].0);
            }
        }
    } else {
        assert forall|i: int| 0 <= i < s.len() implies s[i].0 != n by {}
    }
}

/// The camera settings of the built-in presets: production runs at 15 fps
/// with the camera's own exposure and gain and the built-in initialisation;
/// debugging differs from it only in running at 5 fps; the advanced preset
/// runs at 10 fps with 8000 us exposure and 2 dB gain and bypasses the
/// built-in initialisation. All three share one system configuration.
pub proof fn lemma_builtin_camera_settings(s: PresetEntries)
    requires
        are_builtin_entries(s),
    ensures
        ({
            let production = lookup(s, "production"@).unwrap();
            let debug = lookup(s, "debug"@).unwrap();
            let advanced = lookup(s, "advanced"@).unwrap();
            &&& production.camera.acquisition_frame_rate.bits == F64_15
            &&& production.camera.exposure_time.bits == 0
            &&& production.camera.gain.bits == 0
            &&& production.camera.use_legacy_camera_init
            &&& debug.camera.acquisition_frame_rate.bits == F64_5
            &&& debug.camera == (CameraConfig { acquisition_frame_rate: debug.camera.acquisition_frame_rate, ..production.camera })
            &&& advanced.camera.acquisition_frame_rate.bits == F64_10
            &&& advanced.camera.exposure_time.bits == F64_8000
            &&& advanced.camera.gain.bits == F64_2
            &&& !advanced.camera.use_legacy_camera_init
            &&& debug.system == production.system && advanced.system == production.system
        }),
{
    lemma_builtin_lookup(s);
}

/// The alignment settings of the built-in presets: debugging is strictly
/// looser than production in every left-eye pose limit and every error
/// limit, and it looks at the full frame where production crops the right
/// camera; the advanced preset keeps production's limits and regions. All
/// three keep the built-in alignment parameters.
pub proof fn lemma_builtin_alignment_settings(s: PresetEntries)
    requires
        are_builtin_entries(s),
    ensures
        ({
            let p = lookup(s, "production"@).unwrap().alignment;
            let d = lookup(s, "debug"@).unwrap().alignment;
            let a = lookup(s, "advanced"@).unwrap().alignment;
            &&& p.pose_thresholds.left_eye_max_roll.spec_lt(d.pose_thresholds.left_eye_max_roll)
            &&& p.pose_thresholds.left_eye_max_pitch.spec_lt(d.pose_thresholds.left_eye_max_pitch)
            &&& p.pose_thresholds.left_eye_max_yaw.spec_lt(d.pose_thresholds.left_eye_max_yaw)
            &&& p.alignment_thresholds.max_rms_error.spec_lt(d.alignment_thresholds.max_rms_error)
            &&& p.alignment_thresholds.max_p95_error.spec_lt(d.alignment_thresholds.max_p95_error)
            &&& p.alignment_thresholds.max_max_error.spec_lt(d.alignment_thresholds.max_max_error)
            &&& p.roi_config.right_roi_enabled && !d.roi_config.right_roi_enabled
            &&& a.pose_thresholds == p.pose_thresholds
            &&& a.alignment_thresholds == p.alignment_thresholds
            &&& a.roi_config == p.roi_config
            &&& p.use_legacy_alignment_params && d.use_legacy_alignment_params && a.use_legacy_alignment_params
        }),
{
    lemma_builtin_lookup(s);
    crate::float_bits::lemma_constant_encodings();
}

/// Looking up each built-in key gives the preset stored first under it.
pub proof fn lemma_builtin_lookup(s: PresetEntries)
    requires
        are_builtin_entries(s),
    ensures
        lookup(s, "production"@) == Some(s[0].1),
        lookup(s, "debug"@) == Some(s[1].1),
        lookup(s, "advanced"@) == Some(s[2].1),
{
    reveal_strlit("production");
    reveal_strlit("debug");
    reveal_strlit("advanced");
    assert("production"@.len() != "debug"@.len());
    assert("production"@.len() != "advanced"@.len());
    assert("debug"@.len() != "advanced"@.len());
    assert(has_key(s, "production"@));
    assert(has_key(s, "debug"@));
    assert(has_key(s, "advanced"@));
}

/// The manager that applying a preset to `manager` leaves behind.
pub open spec fn applied(manager: ConfigManager, preset: ConfigPreset, name: Seq<char>) -> ConfigManager {
    ConfigManager {
        system_config: preset.system,
        camera_config: preset.camera,
        alignment_config: preset.alignment,
        preserve_existing_implementations: preserve_for_preset(name),
        ..manager
    }
}

/// Applying the production or the debugging preset turns every legacy switch
/// on, so the built-in implementations are used throughout; applying the
/// advanced preset turns them off.
pub proof fn lemma_builtin_presets_protection(s: PresetEntries, manager: ConfigManager)
    requires
        are_builtin_entries(s),
    ensures
        applied(manager, lookup(s, "production"@).unwrap(), "production"@).spec_uses_legacy(),
        applied(manager, lookup(s, "debug"@).unwrap(), "debug"@).spec_uses_legacy(),
        !applied(manager, lookup(s, "advanced"@).unwrap(), "advanced"@).spec_uses_legacy(),
{
    lemma_builtin_lookup(s);
    assert(!preserve_for_preset("advanced"@));
}

/// Every built-in preset passes the checks of the configuration manager.
pub proof fn lemma_builtin_presets_valid(s: PresetEntries, manager: ConfigManager)
    requires
        are_builtin_entries(s),
    ensures
        applied(manager, lookup(s, "production"@).unwrap(), "production"@).validation_error() is None,
        applied(manager, lookup(s, "debug"@).unwrap(), "debug"@).validation_error() is None,
        applied(manager, lookup(s, "advanced"@).unwrap(), "advanced"@).validation_error() is None,
        s[0].1.camera.roi_sums_fit(),
        s[1].1.camera.roi_sums_fit(),
        s[2].1.camera.roi_sums_fit(),
{
    lemma_builtin_lookup(s);
    crate::float_bits::lemma_constant_encodings();
    reveal_strlit("DA5158733");
    reveal_strlit("DA5158736");
}

} // verus!
