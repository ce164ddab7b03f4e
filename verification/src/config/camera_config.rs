//! Camera settings shared by the left and right cameras.

use vstd::prelude::*;
use crate::float_bits::{
    F64Bits, F32Bits, F64_15, F64_60, F32_0_1, F32_HALF, F32_0_8, F32_10, F32_50, F32_200,
    F32_5000,
};
use crate::config::system_config::f64_zero;

verus! {

/// Settings of both cameras. Frame rate in frames per second, exposure in
/// microseconds, gain in decibels; `width` and `height` are the sensor size in pixels.
pub struct CameraConfig {
    pub acquisition_frame_rate_enable: bool,
    pub acquisition_frame_rate: F64Bits,
    pub exposure_time: F64Bits,
    pub exposure_auto: i32,
    pub gain: F64Bits,
    pub gain_auto: i32,
    pub trigger_mode: i32,
    pub trigger_source: String,
    pub width: u32,
    pub height: u32,
    pub roi: RoiConfig,
    pub calibration_blob_detector: BlobDetectorConfig,
    pub left_camera_serial: String,
    pub right_camera_serial: String,
    pub use_legacy_camera_init: bool,
    pub legacy_init_location: String,
}

/// Region of interest on the sensor, in pixels.
#[derive(Clone, Copy, Debug, PartialEq, Eq, Structural)]
pub struct RoiConfig {
    pub offset_x: i32,
    pub offset_y: i32,
    pub width: i32,
    pub height: i32,
    pub enabled: bool,
    pub applies_to_both_cameras: bool,
}

/// Blob-detector settings used to find the calibration circles.
pub struct BlobDetectorConfig {
    pub use_legacy_params: bool,
    pub min_threshold: F32Bits,
    pub max_threshold: F32Bits,
    pub threshold_step: F32Bits,
    pub min_area: F32Bits,
    pub max_area: F32Bits,
    pub filter_by_circularity: bool,
    pub min_circularity: F32Bits,
    pub filter_by_convexity: bool,
    pub min_convexity: F32Bits,
    pub filter_by_inertia: bool,
    pub min_inertia_ratio: F32Bits,
    pub filter_by_color: bool,
    pub blob_color: u8,
    pub legacy_params_comment: String,
    pub legacy_params_location: String,
}

impl Clone for BlobDetectorConfig {
    fn clone(&self) -> (r: Self)
        ensures
            r == *self,
    {
        BlobDetectorConfig {
            use_legacy_params: self.use_legacy_params,
            min_threshold: self.min_threshold,
            max_threshold: self.max_threshold,
            threshold_step: self.threshold_step,
            min_area: self.min_area,
            max_area: self.max_area,
            filter_by_circularity: self.filter_by_circularity,
            min_circularity: self.min_circularity,
            filter_by_convexity: self.filter_by_convexity,
            min_convexity: self.min_convexity,
            filter_by_inertia: self.filter_by_inertia,
            min_inertia_ratio: self.min_inertia_ratio,
            filter_by_color: self.filter_by_color,
            blob_color: self.blob_color,
            legacy_params_comment: self.legacy_params_comment.clone(),
            legacy_params_location: self.legacy_params_location.clone(),
        }
    }
}

impl Clone for CameraConfig {
    fn clone(&self) -> (r: Self)
        ensures
            r == *self,
    {
        CameraConfig {
            acquisition_frame_rate_enable: self.acquisition_frame_rate_enable,
            acquisition_frame_rate: self.acquisition_frame_rate,
            exposure_time: self.exposure_time,
            exposure_auto: self.exposure_auto,
            gain: self.gain,
            gain_auto: self.gain_auto,
            trigger_mode: self.trigger_mode,
            trigger_source: self.trigger_source.clone(),
            width: self.width,
            height: self.height,
            roi: self.roi,
            calibration_blob_detector: self.calibration_blob_detector.clone(),
            left_camera_serial: self.left_camera_serial.clone(),
            right_camera_serial: self.right_camera_serial.clone(),
            use_legacy_camera_init: self.use_legacy_camera_init,
            legacy_init_location: self.legacy_init_location.clone(),
        }
    }
}

impl Default for CameraConfig {
    fn default() -> (r: Self)
        ensures
            r.is_default(),
    {
        CameraConfig::new()
    }
}

impl RoiConfig {
    /// The full 2448 x 2048 sensor, not enabled, for both cameras.
    pub open spec fn is_full_sensor(self) -> bool {
        self == RoiConfig {
            offset_x: 0,
            offset_y: 0,
            width: 2448,
            height: 2048,
            enabled: false,
            applies_to_both_cameras: true,
        }
    }
}

impl BlobDetectorConfig {
    /// The detector settings that calibration has built in.
    pub open spec fn is_default(self) -> bool {
        &&& self.use_legacy_params
        &&& self.min_threshold.bits == F32_10
        &&& self.max_threshold.bits == F32_200
        &&& self.threshold_step.bits == F32_10
        &&& self.min_area.bits == F32_50
        &&& self.max_area.bits == F32_5000
        &&& self.filter_by_circularity
        &&& self.min_circularity.bits == F32_HALF
        &&& self.filter_by_convexity
        &&& self.min_convexity.bits == F32_0_8
        &&& self.filter_by_inertia
        &&& self.min_inertia_ratio.bits == F32_0_1
        &&& !self.filter_by_color
        &&& self.blob_color == 0
        &&& self.legacy_params_comment@ == "保留calibration_circles.rs中的原有SimpleBlobDetector参数"@
        &&& self.legacy_params_location@ == "src-tauri/src/modules/calibration_circles.rs:49-80"@
    }

    /// Builds the built-in detector settings.
    pub fn default_params() -> (r: Self)
        ensures
            r.is_default(),
    {
        BlobDetectorConfig {
            use_legacy_params: true,
            min_threshold: F32Bits::from_bits(F32_10),
            max_threshold: F32Bits::from_bits(F32_200),
            threshold_step: F32Bits::from_bits(F32_10),
            min_area: F32Bits::from_bits(F32_50),
            max_area: F32Bits::from_bits(F32_5000),
            filter_by_circularity: true,
            min_circularity: F32Bits::from_bits(F32_HALF),
            filter_by_convexity: true,
            min_convexity: F32Bits::from_bits(F32_0_8),
            filter_by_inertia: true,
            min_inertia_ratio: F32Bits::from_bits(F32_0_1),
            filter_by_color: false,
            blob_color: 0,
            legacy_params_comment: "保留calibration_circles.rs中的原有SimpleBlobDetector参数".to_string(),
            legacy_params_location: "src-tauri/src/modules/calibration_circles.rs:49-80".to_string(),
        }
    }
}

impl CameraConfig {
    /// Every setting is the default (15 fps, camera exposure and gain, continuous
    /// trigger, full 2448 x 2048 sensor, built-in detector, legacy initialisation),
    /// whatever the serials are.
    pub open spec fn has_default_settings(self) -> bool {
        &&& self.acquisition_frame_rate_enable
        &&& self.acquisition_frame_rate.bits == F64_15
        &&& self.exposure_time.bits == 0
        &&& self.exposure_auto == 0
        &&& self.gain.bits == 0
        &&& self.gain_auto == 0
        &&& self.trigger_mode == 0
        &&& self.trigger_source@ == "Software"@
        &&& self.width == 2448
        &&& self.height == 2048
        &&& self.roi.is_full_sensor()
        &&& self.calibration_blob_detector.is_default()
        &&& self.use_legacy_camera_init
        &&& self.legacy_init_location@ == "src-tauri/camera_sdk/src/camera_init.c:196-218"@
    }

    /// Default settings with the given serials.
    pub open spec fn is_default_with_serials(self, left: Seq<char>, right: Seq<char>) -> bool {
        &&& self.has_default_settings()
        &&& self.left_camera_serial@ == left
        &&& self.right_camera_serial@ == right
    }

    /// The default camera configuration, serials `DA5158733` and `DA5158736`.
    pub open spec fn is_default(self) -> bool {
        self.is_default_with_serials("DA5158733"@, "DA5158736"@)
    }

    /// `offset + size` of the region, on each axis, as integers.
    pub open spec fn roi_end_x(self) -> int {
        self.roi.offset_x + self.roi.width
    }

    pub open spec fn roi_end_y(self) -> int {
        self.roi.offset_y + self.roi.height
    }

    /// The checks before the region's extent all pass, so `validate` adds the
    /// offsets to the sizes.
    pub open spec fn reaches_roi_extent_check(self) -> bool {
        &&& !(self.acquisition_frame_rate.spec_le(f64_zero())
            || (F64Bits { bits: F64_60 }).spec_lt(self.acquisition_frame_rate))
        &&& !self.exposure_time.spec_lt(f64_zero())
        &&& !self.gain.spec_lt(f64_zero())
        &&& self.left_camera_serial@.len() != 0
        &&& self.right_camera_serial@.len() != 0
        &&& self.roi.enabled
        &&& self.roi.offset_x >= 0
        &&& self.roi.offset_y >= 0
        &&& self.roi.width > 0
        &&& self.roi.height > 0
    }

    /// The 32-bit sums that `validate` forms fit: the horizontal end always,
    /// the vertical end where the horizontal one lies inside the image.
    pub open spec fn roi_sums_fit(self) -> bool {
        self.reaches_roi_extent_check() ==> {
            &&& self.roi_end_x() <= i32::MAX
            &&& self.roi_end_x() <= (self.width as i32) ==> self.roi_end_y() <= i32::MAX
        }
    }

    /// Why the configuration is refused, if it is: frame rate (0, 60] fps,
    /// exposure and gain not negative, both serials given, and an enabled
    /// region non-negative, non-empty and inside the image, in that order.
    /// NaN settings pass every numeric check, as IEEE comparisons decide them.
    pub open spec fn validation_error(self) -> Option<Seq<char>> {
        if self.acquisition_frame_rate.spec_le(f64_zero())
            || (F64Bits { bits: F64_60 }).spec_lt(self.acquisition_frame_rate) {
            Some("帧率必须在0-60fps范围内"@)
        } else if self.exposure_time.spec_lt(f64_zero()) {
            Some("曝光时间不能为负数"@)
        } else if self.gain.spec_lt(f64_zero()) {
            Some("增益不能为负数"@)
        } else if self.left_camera_serial@.len() == 0 || self.right_camera_serial@.len() == 0 {
            Some("左右相机序列号不能为空"@)
        } else if self.roi.enabled && (self.roi.offset_x < 0 || self.roi.offset_y < 0
            || self.roi.width <= 0 || self.roi.height <= 0) {
            Some("ROI参数无效"@)
        } else if self.roi.enabled && (self.roi_end_x() > (self.width as i32)
            || self.roi_end_y() > (self.height as i32)) {
            Some("ROI区域超出图像范围"@)
        } else {
            None
        }
    }

    /// What the camera check accepts: a frame rate above 0 and at most 60
    /// fps, exposure and gain not negative, both serials, and an enabled
    /// region with non-negative offsets and positive sizes that lies inside
    /// the image. A frame rate out of that range is refused for it whatever
    /// else holds; a sound configuration but for its region is refused for
    /// the region.
    pub proof fn lemma_camera_check(self)
        ensures
            self.validation_error() is None <==> {
                &&& !self.acquisition_frame_rate.spec_le(F64Bits { bits: 0 })
                &&& !(F64Bits { bits: F64_60 }).spec_lt(self.acquisition_frame_rate)
                &&& !self.exposure_time.spec_lt(F64Bits { bits: 0 })
                &&& !self.gain.spec_lt(F64Bits { bits: 0 })
                &&& self.left_camera_serial@.len() > 0
                &&& self.right_camera_serial@.len() > 0
                &&& self.roi.enabled ==> {
                    &&& self.roi.offset_x >= 0 && self.roi.offset_y >= 0
                    &&& self.roi.width > 0 && self.roi.height > 0
                    &&& self.roi.offset_x + self.roi.width <= self.width as i32
                    &&& self.roi.offset_y + self.roi.height <= self.height as i32
                }
            },
            self.acquisition_frame_rate.spec_le(F64Bits { bits: 0 })
                || (F64Bits { bits: F64_60 }).spec_lt(self.acquisition_frame_rate)
                ==> self.validation_error() == Some("帧率必须在0-60fps范围内"@),
            (CameraConfig { roi: RoiConfig { enabled: false, ..self.roi }, ..self }).validation_error() is None
                && self.roi.enabled && (self.roi.offset_x < 0 || self.roi.offset_y < 0 || self.roi.width <= 0
                || self.roi.height <= 0)
                ==> self.validation_error() == Some("ROI参数无效"@),
    {
    }

    /// The default camera configuration.
    pub fn new() -> (r: Self)
        ensures
            r.is_default(),
    {
        Self::new_with_serials("DA5158733", "DA5158736")
    }

    /// The default camera configuration with the given serials.
    pub fn new_with_serials(left_serial: &str, right_serial: &str) -> (r: Self)
        ensures
            r.is_default_with_serials(left_serial@, right_serial@),
    {
        CameraConfig {
            acquisition_frame_rate_enable: true,
            acquisition_frame_rate: F64Bits::from_bits(F64_15),
            exposure_time: F64Bits::from_bits(0),
            exposure_auto: 0,
            gain: F64Bits::from_bits(0),
            gain_auto: 0,
            trigger_mode: 0,
            trigger_source: "Software".to_string(),
            width: 2448,
            height: 2048,
            roi: RoiConfig {
                offset_x: 0,
                offset_y: 0,
                width: 2448,
                height: 2048,
                enabled: false,
                applies_to_both_cameras: true,
            },
            calibration_blob_detector: BlobDetectorConfig::default_params(),
            left_camera_serial: left_serial.to_string(),
            right_camera_serial: right_serial.to_string(),
            use_legacy_camera_init: true,
            legacy_init_location: "src-tauri/camera_sdk/src/camera_init.c:196-218".to_string(),
        }
    }

    /// Checks the configuration; the error says what is wrong.
    /// Whether the sums that `validate` forms fit, as `roi_sums_fit` states.
    pub fn roi_extent_sums_fit(&self) -> (r: bool)
        ensures
            r == self.roi_sums_fit(),
    {
        let zero = F64Bits::zero();
        let max_rate = F64Bits::from_bits(F64_60);
        let reaches = !(self.acquisition_frame_rate.at_most(&zero) || max_rate.less_than(&self.acquisition_frame_rate))
            && !self.exposure_time.less_than(&zero) && !self.gain.less_than(&zero)
            && !self.left_camera_serial.as_str().is_empty() && !self.right_camera_serial.as_str().is_empty()
            && self.roi.enabled && self.roi.offset_x >= 0 && self.roi.offset_y >= 0 && self.roi.width > 0
            && self.roi.height > 0;
        if !reaches {
            return true;
        }
        let end_x: i64 = self.roi.offset_x as i64 + self.roi.width as i64;
        let end_y: i64 = self.roi.offset_y as i64 + self.roi.height as i64;
        let limit: i64 = 0x7fff_ffff;
        if end_x > limit {
            return false;
        }
        end_x > (self.width as i32) as i64 || end_y <= limit
    }

    pub fn validate(&self) -> (r: Result<(), String>)
        requires
            self.roi_sums_fit(),
        ensures
            r is Ok <==> self.validation_error() is None,
            r matches Err(e) ==> self.validation_error() == Some(e@),
    {
        let zero = F64Bits::zero();
        let max_rate = F64Bits::from_bits(F64_60);
        if self.acquisition_frame_rate.at_most(&zero) || max_rate.less_than(&self.acquisition_frame_rate) {
            return Err("帧率必须在0-60fps范围内".to_string());
        }
        if self.exposure_time.less_than(&zero) {
            return Err("曝光时间不能为负数".to_string());
        }
        if self.gain.less_than(&zero) {
            return Err("增益不能为负数".to_string());
        }
        if self.left_camera_serial.as_str().is_empty() || self.right_camera_serial.as_str().is_empty() {
            return Err("左右相机序列号不能为空".to_string());
        }
        if self.roi.enabled {
            if self.roi.offset_x < 0 || self.roi.offset_y < 0 || self.roi.width <= 0 || self.roi.height <= 0 {
                return Err("ROI参数无效".to_string());
            }
            if (self.roi.offset_x + self.roi.width) > self.width as i32
                || (self.roi.offset_y + self.roi.height) > self.height as i32 {
                return Err("ROI区域超出图像范围".to_string());
            }
        }
        Ok(())
    }

    /// The blob-detector settings as configured.
    pub fn get_effective_blob_detector_params(&self) -> (r: &BlobDetectorConfig)
        ensures
            *r == self.calibration_blob_detector,
    {
        &self.calibration_blob_detector
    }

    /// Whether the built-in camera initialisation is to be bypassed.
    pub fn should_bypass_legacy_init(&self) -> (r: bool)
        ensures
            r == !self.use_legacy_camera_init,
    {
        !self.use_legacy_camera_init
    }

    /// The serials, left then right.
    pub fn get_camera_serials(&self) -> (r: (String, String))
        ensures
            r.0@ == self.left_camera_serial@,
            r.1@ == self.right_camera_serial@,
    {
        (self.left_camera_serial.clone(), self.right_camera_serial.clone())
    }
}

} // verus!
