//! Alignment-check settings: detector, pose and alignment thresholds, regions.

use vstd::prelude::*;
use crate::float_bits::{
    F64Bits, F32Bits, F64_HALF, F64_1, F64_2, F64_5, F64_10, F64_15, F64_20, F64_100, F64_150,
    F64_200, F64_300, F32_0_1, F32_0_6, F32_0_87, F32_50, F32_100, F32_200, F32_8000,
};
use crate::config::system_config::f64_zero;

verus! {

/// Settings of the alignment check.
pub struct AlignmentConfig {
    pub pattern_layout_ref: String,
    pub use_system_pattern_layout: bool,
    pub alignment_blob_detector: AlignmentBlobDetectorConfig,
    pub pose_thresholds: PoseThresholds,
    pub alignment_thresholds: AlignmentThresholds,
    pub roi_config: AlignmentRoiConfig,
    pub use_legacy_alignment_params: bool,
    pub legacy_params_location: String,
}

/// Blob-detector settings used to find the circles during the alignment check.
pub struct AlignmentBlobDetectorConfig {
    pub use_legacy_alignment_params: bool,
    pub min_threshold: F32Bits,
    pub max_threshold: F32Bits,
    pub threshold_step: F32Bits,
    pub min_area: F32Bits,
    pub max_area: F32Bits,
    pub filter_by_circularity: bool,
    pub min_circularity: F32Bits,
    pub filter_by_convexity: bool,
    pub min_convexity: F32Bits,
    pub filter_by_inertia: bool,
    pub min_inertia_ratio: F32Bits,
    pub filter_by_color: bool,
    pub legacy_params_location: String,
    pub optimization_notes: String,
}

/// Largest accepted eye poses: angles in degrees, translation in millimetres.
pub struct PoseThresholds {
    pub use_legacy_pose_thresholds: bool,
    pub left_eye_max_roll: F64Bits,
    pub left_eye_max_pitch: F64Bits,
    pub left_eye_max_yaw: F64Bits,
    pub left_eye_max_translation: F64Bits,
    pub right_eye_max_roll: F64Bits,
    pub right_eye_max_pitch: F64Bits,
    pub right_eye_max_yaw: F64Bits,
    pub legacy_thresholds_location: String,
}

/// Largest accepted alignment errors, in pixels.
pub struct AlignmentThresholds {
    pub use_legacy_alignment_thresholds: bool,
    pub max_rms_error: F64Bits,
    pub max_p95_error: F64Bits,
    pub max_max_error: F64Bits,
    pub adjustment_hint_threshold: F64Bits,
    pub mean_dx_threshold: F64Bits,
    pub mean_dy_threshold: F64Bits,
    pub legacy_thresholds_location: String,
}

/// Regions of interest of the two cameras during the alignment check, in pixels.
pub struct AlignmentRoiConfig {
    pub right_roi_enabled: bool,
    pub right_roi_x: i32,
    pub right_roi_y: i32,
    pub right_roi_width: i32,
    pub right_roi_height: i32,
    pub left_roi_enabled: bool,
    pub left_roi_x: i32,
    pub left_roi_y: i32,
    pub left_roi_width: i32,
    pub left_roi_height: i32,
    pub roi_optimization_notes: String,
}

impl Clone for AlignmentBlobDetectorConfig {
    fn clone(&self) -> (r: Self)
        ensures
            r == *self,
    {
        AlignmentBlobDetectorConfig {
            use_legacy_alignment_params: self.use_legacy_alignment_params,
            min_threshold: self.min_threshold,
            max_threshold: self.max_threshold,
            threshold_step: self.threshold_step,
            min_area: self.min_area,
            max_area: self.max_area,
            filter_by_circularity: self.filter_by_circularity,
            min_circularity: self.min_circularity,
            filter_by_convexity: self.filter_by_convexity,
            min_convexity: self.min_convexity,
            filter_by_inertia: self.filter_by_inertia,
            min_inertia_ratio: self.min_inertia_ratio,
            filter_by_color: self.filter_by_color,
            legacy_params_location: self.legacy_params_location.clone(),
            optimization_notes: self.optimization_notes.clone(),
        }
    }
}

impl Clone for PoseThresholds {
    fn clone(&self) -> (r: Self)
        ensures
            r == *self,
    {
        PoseThresholds {
            use_legacy_pose_thresholds: self.use_legacy_pose_thresholds,
            left_eye_max_roll: self.left_eye_max_roll,
            left_eye_max_pitch: self.left_eye_max_pitch,
            left_eye_max_yaw: self.left_eye_max_yaw,
            left_eye_max_translation: self.left_eye_max_translation,
            right_eye_max_roll: self.right_eye_max_roll,
            right_eye_max_pitch: self.right_eye_max_pitch,
            right_eye_max_yaw: self.right_eye_max_yaw,
            legacy_thresholds_location: self.legacy_thresholds_location.clone(),
        }
    }
}

impl Clone for AlignmentThresholds {
    fn clone(&self) -> (r: Self)
        ensures
            r == *self,
    {
        AlignmentThresholds {
            use_legacy_alignment_thresholds: self.use_legacy_alignment_thresholds,
            max_rms_error: self.max_rms_error,
            max_p95_error: self.max_p95_error,
            max_max_error: self.max_max_error,
            adjustment_hint_threshold: self.adjustment_hint_threshold,
            mean_dx_threshold: self.mean_dx_threshold,
            mean_dy_threshold: self.mean_dy_threshold,
            legacy_thresholds_location: self.legacy_thresholds_location.clone(),
        }
    }
}

impl Clone for AlignmentRoiConfig {
    fn clone(&self) -> (r: Self)
        ensures
            r == *self,
    {
        AlignmentRoiConfig {
            right_roi_enabled: self.right_roi_enabled,
            right_roi_x: self.right_roi_x,
            right_roi_y: self.right_roi_y,
            right_roi_width: self.right_roi_width,
            right_roi_height: self.right_roi_height,
            left_roi_enabled: self.left_roi_enabled,
            left_roi_x: self.left_roi_x,
            left_roi_y: self.left_roi_y,
            left_roi_width: self.left_roi_width,
            left_roi_height: self.left_roi_height,
            roi_optimization_notes: self.roi_optimization_notes.clone(),
        }
    }
}

impl Clone for AlignmentConfig {
    fn clone(&self) -> (r: Self)
        ensures
            r == *self,
    {
        AlignmentConfig {
            pattern_layout_ref: self.pattern_layout_ref.clone(),
            use_system_pattern_layout: self.use_system_pattern_layout,
            alignment_blob_detector: self.alignment_blob_detector.clone(),
            pose_thresholds: self.pose_thresholds.clone(),
            alignment_thresholds: self.alignment_thresholds.clone(),
            roi_config: self.roi_config.clone(),
            use_legacy_alignment_params: self.use_legacy_alignment_params,
            legacy_params_location: self.legacy_params_location.clone(),
        }
    }
}

impl Default for AlignmentConfig {
    fn default() -> (r: Self)
        ensures
            r.is_default(),
    {
        AlignmentConfig::new()
    }
}

impl AlignmentBlobDetectorConfig {
    /// The tuned detector of the alignment check, with the given notes.
    pub open spec fn is_optimized(self, notes: Seq<char>) -> bool {
        &&& self.use_legacy_alignment_params
        &&& self.min_threshold.bits == F32_100
        &&& self.max_threshold.bits == F32_200
        &&& self.threshold_step.bits == F32_50
        &&& self.min_area.bits == F32_100
        &&& self.max_area.bits == F32_8000
        &&& self.filter_by_circularity
        &&& self.min_circularity.bits == F32_0_6
        &&& !self.filter_by_convexity
        &&& self.min_convexity.bits == F32_0_87
        &&& !self.filter_by_inertia
        &&& self.min_inertia_ratio.bits == F32_0_1
        &&& !self.filter_by_color
        &&& self.legacy_params_location@
            == "src-tauri/src/modules/alignment.rs:create_optimized_blob_detector"@
        &&& self.optimization_notes@ == notes
    }

    /// Builds the tuned detector with the given notes.
    pub fn optimized(notes: &str) -> (r: Self)
        ensures
            r.is_optimized(notes@),
    {
        AlignmentBlobDetectorConfig {
            use_legacy_alignment_params: true,
            min_threshold: F32Bits::from_bits(F32_100),
            max_threshold: F32Bits::from_bits(F32_200),
            threshold_step: F32Bits::from_bits(F32_50),
            min_area: F32Bits::from_bits(F32_100),
            max_area: F32Bits::from_bits(F32_8000),
            filter_by_circularity: true,
            min_circularity: F32Bits::from_bits(F32_0_6),
            filter_by_convexity: false,
            min_convexity: F32Bits::from_bits(F32_0_87),
            filter_by_inertia: false,
            min_inertia_ratio: F32Bits::from_bits(F32_0_1),
            filter_by_color: false,
            legacy_params_location: "src-tauri/src/modules/alignment.rs:create_optimized_blob_detector".to_string(),
            optimization_notes: notes.to_string(),
        }
    }
}

impl PoseThresholds {
    /// Limits as given (roll, pitch, yaw, translation of the left eye; roll,
    /// pitch, yaw of the right), legacy flag on.
    pub open spec fn has_limits(self, l_roll: u64, l_pitch: u64, l_yaw: u64, l_trans: u64,
        r_roll: u64, r_pitch: u64, r_yaw: u64) -> bool {
        &&& self.use_legacy_pose_thresholds
        &&& self.left_eye_max_roll.bits == l_roll
        &&& self.left_eye_max_pitch.bits == l_pitch
        &&& self.left_eye_max_yaw.bits == l_yaw
        &&& self.left_eye_max_translation.bits == l_trans
        &&& self.right_eye_max_roll.bits == r_roll
        &&& self.right_eye_max_pitch.bits == r_pitch
        &&& self.right_eye_max_yaw.bits == r_yaw
        &&& self.legacy_thresholds_location@ == "src-tauri/src/modules/alignment.rs:17-21"@
    }

    /// The built-in limits: 5 degrees of roll, 10 of pitch and yaw, 10 mm off centre.
    pub open spec fn is_strict(self) -> bool {
        self.has_limits(F64_5, F64_10, F64_10, F64_10, F64_5, F64_10, F64_10)
    }

    /// The relaxed limits for debugging: 10 degrees of roll, 15 of pitch and
    /// yaw, 20 mm off centre.
    pub open spec fn is_relaxed(self) -> bool {
        self.has_limits(F64_10, F64_15, F64_15, F64_20, F64_10, F64_15, F64_15)
    }

    fn with_limits(l_roll: u64, l_pitch: u64, l_yaw: u64, l_trans: u64, r_roll: u64,
        r_pitch: u64, r_yaw: u64) -> (r: Self)
        ensures
            r.has_limits(l_roll, l_pitch, l_yaw, l_trans, r_roll, r_pitch, r_yaw),
    {
        PoseThresholds {
            use_legacy_pose_thresholds: true,
            left_eye_max_roll: F64Bits::from_bits(l_roll),
            left_eye_max_pitch: F64Bits::from_bits(l_pitch),
            left_eye_max_yaw: F64Bits::from_bits(l_yaw),
            left_eye_max_translation: F64Bits::from_bits(l_trans),
            right_eye_max_roll: F64Bits::from_bits(r_roll),
            right_eye_max_pitch: F64Bits::from_bits(r_pitch),
            right_eye_max_yaw: F64Bits::from_bits(r_yaw),
            legacy_thresholds_location: "src-tauri/src/modules/alignment.rs:17-21".to_string(),
        }
    }

    /// Builds the built-in limits.
    pub fn strict() -> (r: Self)
        ensures
            r.is_strict(),
    {
        Self::with_limits(F64_5, F64_10, F64_10, F64_10, F64_5, F64_10, F64_10)
    }

    /// Builds the relaxed limits.
    pub fn relaxed() -> (r: Self)
        ensures
            r.is_relaxed(),
    {
        Self::with_limits(F64_10, F64_15, F64_15, F64_20, F64_10, F64_15, F64_15)
    }
}

impl AlignmentThresholds {
    /// Limits as given (RMS, 95th percentile, maximum, hint, mean dx, mean dy),
    /// legacy flag on.
    pub open spec fn has_limits(self, rms: u64, p95: u64, max: u64, hint: u64, dx: u64, dy: u64) -> bool {
        &&& self.use_legacy_alignment_thresholds
        &&& self.max_rms_error.bits == rms
        &&& self.max_p95_error.bits == p95
        &&& self.max_max_error.bits == max
        &&& self.adjustment_hint_threshold.bits == hint
        &&& self.mean_dx_threshold.bits == dx
        &&& self.mean_dy_threshold.bits == dy
        &&& self.legacy_thresholds_location@ == "src-tauri/src/modules/alignment.rs:19-21"@
    }

    /// The built-in limits: RMS 100, 95th percentile 100, maximum 200 pixels.
    pub open spec fn is_strict(self) -> bool {
        self.has_limits(F64_100, F64_100, F64_200, F64_1, F64_HALF, F64_HALF)
    }

    /// The relaxed limits for debugging: RMS 150, 95th percentile 200, maximum 300.
    pub open spec fn is_relaxed(self) -> bool {
        self.has_limits(F64_150, F64_200, F64_300, F64_2, F64_1, F64_1)
    }

    fn with_limits(rms: u64, p95: u64, max: u64, hint: u64, dx: u64, dy: u64) -> (r: Self)
        ensures
            r.has_limits(rms, p95, max, hint, dx, dy),
    {
        AlignmentThresholds {
            use_legacy_alignment_thresholds: true,
            max_rms_error: F64Bits::from_bits(rms),
            max_p95_error: F64Bits::from_bits(p95),
            max_max_error: F64Bits::from_bits(max),
            adjustment_hint_threshold: F64Bits::from_bits(hint),
            mean_dx_threshold: F64Bits::from_bits(dx),
            mean_dy_threshold: F64Bits::from_bits(dy),
            legacy_thresholds_location: "src-tauri/src/modules/alignment.rs:19-21".to_string(),
        }
    }

    /// Builds the built-in limits.
    pub fn strict() -> (r: Self)
        ensures
            r.is_strict(),
    {
        Self::with_limits(F64_100, F64_100, F64_200, F64_1, F64_HALF, F64_HALF)
    }

    /// Builds the relaxed limits.
    pub fn relaxed() -> (r: Self)
        ensures
            r.is_relaxed(),
    {
        Self::with_limits(F64_150, F64_200, F64_300, F64_2, F64_1, F64_1)
    }
}

impl AlignmentRoiConfig {
    /// The tuned regions: right camera from x = 900, 1548 x 1250 (on or off as
    /// given), left camera the full 2448 x 2048 frame and off.
    pub open spec fn is_tuned(self, right_enabled: bool, notes: Seq<char>) -> bool {
        &&& self.right_roi_enabled == right_enabled
        &&& self.right_roi_x == 900
        &&& self.right_roi_y == 0
        &&& self.right_roi_width == 1548
        &&& self.right_roi_height == 1250
        &&& !self.left_roi_enabled
        &&& self.left_roi_x == 0
        &&& self.left_roi_y == 0
        &&& self.left_roi_width == 2448
        &&& self.left_roi_height == 2048
        &&& self.roi_optimization_notes@ == notes
    }

    /// Both regions off and the full 2448 x 2048 frame.
    pub open spec fn is_full_frame(self, notes: Seq<char>) -> bool {
        &&& !self.right_roi_enabled
        &&& self.right_roi_x == 0
        &&& self.right_roi_y == 0
        &&& self.right_roi_width == 2448
        &&& self.right_roi_height == 2048
        &&& !self.left_roi_enabled
        &&& self.left_roi_x == 0
        &&& self.left_roi_y == 0
        &&& self.left_roi_width == 2448
        &&& self.left_roi_height == 2048
        &&& self.roi_optimization_notes@ == notes
    }

    /// Builds the tuned regions.
    pub fn tuned(right_enabled: bool, notes: &str) -> (r: Self)
        ensures
            r.is_tuned(right_enabled, notes@),
    {
        AlignmentRoiConfig {
            right_roi_enabled: right_enabled,
            right_roi_x: 900,
            right_roi_y: 0,
            right_roi_width: 1548,
            right_roi_height: 1250,
            left_roi_enabled: false,
            left_roi_x: 0,
            left_roi_y: 0,
            left_roi_width: 2448,
            left_roi_height: 2048,
            roi_optimization_notes: notes.to_string(),
        }
    }

    /// Builds the full-frame regions.
    pub fn full_frame(notes: &str) -> (r: Self)
        ensures
            r.is_full_frame(notes@),
    {
        AlignmentRoiConfig {
            right_roi_enabled: false,
            right_roi_x: 0,
            right_roi_y: 0,
            right_roi_width: 2448,
            right_roi_height: 2048,
            left_roi_enabled: false,
            left_roi_x: 0,
            left_roi_y: 0,
            left_roi_width: 2448,
            left_roi_height: 2048,
            roi_optimization_notes: notes.to_string(),
        }
    }
}

impl AlignmentConfig {
    /// Built-in alignment settings with the given detector notes, right
    /// region switch and region notes: layout from the system settings,
    /// built-in pose and alignment limits, legacy parameters.
    pub open spec fn is_builtin(self, detector_notes: Seq<char>, right_roi: bool, roi_notes: Seq<char>) -> bool {
        &&& self.pattern_layout_ref@ == "system_config.pattern_layout"@
        &&& self.use_system_pattern_layout
        &&& self.alignment_blob_detector.is_optimized(detector_notes)
        &&& self.pose_thresholds.is_strict()
        &&& self.alignment_thresholds.is_strict()
        &&& self.roi_config.is_tuned(right_roi, roi_notes)
        &&& self.use_legacy_alignment_params
        &&& self.legacy_params_location@ == "src-tauri/src/modules/alignment.rs"@
    }

    /// The default alignment settings (right region off).
    pub open spec fn is_default(self) -> bool {
        self.is_builtin(
            "基于PERFORMANCE_OPTIMIZATION_SUMMARY.md的优化结果，10.1倍性能提升"@,
            false,
            "右相机ROI可减少50%搜索范围，提升检测性能"@,
        )
    }

    /// Why the configuration is refused, if it is: pose limits positive,
    /// alignment limits positive, and an enabled right region non-negative
    /// and non-empty, in that order. NaN limits pass.
    pub open spec fn validation_error(self) -> Option<Seq<char>> {
        if self.pose_thresholds.left_eye_max_roll.spec_le(f64_zero())
            || self.pose_thresholds.left_eye_max_pitch.spec_le(f64_zero())
            || self.pose_thresholds.left_eye_max_yaw.spec_le(f64_zero()) {
            Some("姿态阈值必须为正数"@)
        } else if self.alignment_thresholds.max_rms_error.spec_le(f64_zero())
            || self.alignment_thresholds.max_p95_error.spec_le(f64_zero())
            || self.alignment_thresholds.max_max_error.spec_le(f64_zero()) {
            Some("合像阈值必须为正数"@)
        } else if self.roi_config.right_roi_enabled && (self.roi_config.right_roi_x < 0
            || self.roi_config.right_roi_y < 0 || self.roi_config.right_roi_width <= 0
            || self.roi_config.right_roi_height <= 0) {
            Some("右相机ROI参数无效"@)
        } else {
            None
        }
    }

    /// What the alignment check accepts: positive left-eye roll, pitch and yaw
    /// limits, positive RMS, 95th-percentile and maximum error limits, and an
    /// enabled right region with non-negative offsets and positive sizes. A
    /// pose limit at most zero is refused for the pose limits whatever else
    /// holds; with sound pose limits, an error limit at most zero is refused
    /// for the error limits.
    pub proof fn lemma_alignment_check(self)
        ensures
            self.validation_error() is None <==> {
                &&& !self.pose_thresholds.left_eye_max_roll.spec_le(F64Bits { bits: 0 })
                &&& !self.pose_thresholds.left_eye_max_pitch.spec_le(F64Bits { bits: 0 })
                &&& !self.pose_thresholds.left_eye_max_yaw.spec_le(F64Bits { bits: 0 })
                &&& !self.alignment_thresholds.max_rms_error.spec_le(F64Bits { bits: 0 })
                &&& !self.alignment_thresholds.max_p95_error.spec_le(F64Bits { bits: 0 })
                &&& !self.alignment_thresholds.max_max_error.spec_le(F64Bits { bits: 0 })
                &&& self.roi_config.right_roi_enabled ==> {
                    &&& self.roi_config.right_roi_x >= 0 && self.roi_config.right_roi_y >= 0
                    &&& self.roi_config.right_roi_width > 0 && self.roi_config.right_roi_height > 0
                }
            },
            self.pose_thresholds.left_eye_max_roll.spec_le(F64Bits { bits: 0 })
                || self.pose_thresholds.left_eye_max_pitch.spec_le(F64Bits { bits: 0 })
                || self.pose_thresholds.left_eye_max_yaw.spec_le(F64Bits { bits: 0 })
                ==> self.validation_error() == Some("姿态阈值必须为正数"@),
            !self.pose_thresholds.left_eye_max_roll.spec_le(F64Bits { bits: 0 })
                && !self.pose_thresholds.left_eye_max_pitch.spec_le(F64Bits { bits: 0 })
                && !self.pose_thresholds.left_eye_max_yaw.spec_le(F64Bits { bits: 0 })
                && (self.alignment_thresholds.max_rms_error.spec_le(F64Bits { bits: 0 })
                || self.alignment_thresholds.max_p95_error.spec_le(F64Bits { bits: 0 })
                || self.alignment_thresholds.max_max_error.spec_le(F64Bits { bits: 0 }))
                ==> self.validation_error() == Some("合像阈值必须为正数"@),
    {
    }

    /// Assembles built-in settings with the given parts.
    pub fn builtin(detector_notes: &str, right_roi: bool, roi_notes: &str) -> (r: Self)
        ensures
            r.is_builtin(detector_notes@, right_roi, roi_notes@),
    {
        AlignmentConfig {
            pattern_layout_ref: "system_config.pattern_layout".to_string(),
            use_system_pattern_layout: true,
            alignment_blob_detector: AlignmentBlobDetectorConfig::optimized(detector_notes),
            pose_thresholds: PoseThresholds::strict(),
            alignment_thresholds: AlignmentThresholds::strict(),
            roi_config: AlignmentRoiConfig::tuned(right_roi, roi_notes),
            use_legacy_alignment_params: true,
            legacy_params_location: "src-tauri/src/modules/alignment.rs".to_string(),
        }
    }

    /// The default alignment settings.
    pub fn new() -> (r: Self)
        ensures
            r.is_default(),
    {
        Self::builtin(
            "基于PERFORMANCE_OPTIMIZATION_SUMMARY.md的优化结果，10.1倍性能提升",
            false,
            "右相机ROI可减少50%搜索范围，提升检测性能",
        )
    }

    /// Checks the configuration; the error says what is wrong.
    pub fn validate(&self) -> (r: Result<(), String>)
        ensures
            r is Ok <==> self.validation_error() is None,
            r matches Err(e) ==> self.validation_error() == Some(e@),
    {
        let zero = F64Bits::zero();
        if self.pose_thresholds.left_eye_max_roll.at_most(&zero)
            || self.pose_thresholds.left_eye_max_pitch.at_most(&zero)
            || self.pose_thresholds.left_eye_max_yaw.at_most(&zero) {
            return Err("姿态阈值必须为正数".to_string());
        }
        if self.alignment_thresholds.max_rms_error.at_most(&zero)
            || self.alignment_thresholds.max_p95_error.at_most(&zero)
            || self.alignment_thresholds.max_max_error.at_most(&zero) {
            return Err("合像阈值必须为正数".to_string());
        }
        if self.roi_config.right_roi_enabled {
            if self.roi_config.right_roi_x < 0 || self.roi_config.right_roi_y < 0
                || self.roi_config.right_roi_width <= 0 || self.roi_config.right_roi_height <= 0 {
                return Err("右相机ROI参数无效".to_string());
            }
        }
        Ok(())
    }

    /// The pose limits as configured.
    pub fn get_effective_pose_thresholds(&self) -> (r: &PoseThresholds)
        ensures
            *r == self.pose_thresholds,
    {
        &self.pose_thresholds
    }

    /// The alignment limits as configured.
    pub fn get_effective_alignment_thresholds(&self) -> (r: &AlignmentThresholds)
        ensures
            *r == self.alignment_thresholds,
    {
        &self.alignment_thresholds
    }

    /// The detector settings as configured.
    pub fn get_effective_blob_detector_params(&self) -> (r: &AlignmentBlobDetectorConfig)
        ensures
            *r == self.alignment_blob_detector,
    {
        &self.alignment_blob_detector
    }

    /// Whether the built-in alignment code is to be bypassed.
    pub fn should_bypass_legacy_alignment(&self) -> (r: bool)
        ensures
            r == !self.use_legacy_alignment_params,
    {
        !self.use_legacy_alignment_params
    }
}

} // verus!
