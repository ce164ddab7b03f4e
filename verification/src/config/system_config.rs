//! System settings: calibration-pattern layout, file locations and camera serials.

use vstd::prelude::*;
use crate::clock::now_rfc3339;
use crate::float_bits::{F32Bits, F64Bits, F32_15, F32_25, F64_15, F64_25};

verus! {

/// The encoding of `0.0` as a double.
pub open spec fn f64_zero() -> F64Bits {
    F64Bits { bits: 0 }
}


/// System configuration: pattern layout, file paths, camera serials.
pub struct SystemConfig {
    pub pattern_layout: PatternLayoutConfig,
    pub file_paths: FilePathConfig,
    pub camera_serials: CameraSerialConfig,
    pub version: String,
    pub created_at: String,
}

/// Calibration-board layout. The diameters and spacings are in millimetres.
pub struct PatternLayoutConfig {
    /// Keep the world coordinates that the calibration code has built in.
    pub use_legacy_coordinates: bool,
    pub pattern_type: String,
    /// Number of circle columns.
    pub pattern_width: i32,
    /// Number of circle rows.
    pub pattern_height: i32,
    pub circle_diameter: F64Bits,
    pub diagonal_spacing: F64Bits,
    pub legacy_world_coords_comment: String,
    pub legacy_params_location: String,
}

/// Where the camera, calibration and alignment files live.
pub struct FilePathConfig {
    pub camera_config_dir: String,
    pub calibration_images_dir: String,
    pub calibration_params_dir: String,
    pub rectify_maps_path: String,
    pub alignment_config_dir: String,
    pub use_param_io_paths: bool,
    pub left_camera_params_path: String,
    pub right_camera_params_path: String,
    pub stereo_params_path: String,
    pub rectify_params_path: String,
}

/// Serial numbers of the two cameras.
pub struct CameraSerialConfig {
    pub left_camera_serial: String,
    pub right_camera_serial: String,
    pub auto_detect_serials: bool,
    pub legacy_serial_location: String,
}

/// Width and height of a circle grid, as the vision code takes it (rows first).
#[derive(Clone, Copy, Debug, PartialEq, Eq, Structural)]
pub struct PatternSize {
    pub width: i32,
    pub height: i32,
}

impl Clone for PatternLayoutConfig {
    fn clone(&self) -> (r: Self)
        ensures
            r == *self,
    {
        PatternLayoutConfig {
            use_legacy_coordinates: self.use_legacy_coordinates,
            pattern_type: self.pattern_type.clone(),
            pattern_width: self.pattern_width,
            pattern_height: self.pattern_height,
            circle_diameter: self.circle_diameter,
            diagonal_spacing: self.diagonal_spacing,
            legacy_world_coords_comment: self.legacy_world_coords_comment.clone(),
            legacy_params_location: self.legacy_params_location.clone(),
        }
    }
}

impl Clone for FilePathConfig {
    fn clone(&self) -> (r: Self)
        ensures
            r == *self,
    {
        FilePathConfig {
            camera_config_dir: self.camera_config_dir.clone(),
            calibration_images_dir: self.calibration_images_dir.clone(),
            calibration_params_dir: self.calibration_params_dir.clone(),
            rectify_maps_path: self.rectify_maps_path.clone(),
            alignment_config_dir: self.alignment_config_dir.clone(),
            use_param_io_paths: self.use_param_io_paths,
            left_camera_params_path: self.left_camera_params_path.clone(),
            right_camera_params_path: self.right_camera_params_path.clone(),
            stereo_params_path: self.stereo_params_path.clone(),
            rectify_params_path: self.rectify_params_path.clone(),
        }
    }
}

impl Clone for CameraSerialConfig {
    fn clone(&self) -> (r: Self)
        ensures
            r == *self,
    {
        CameraSerialConfig {
            left_camera_serial: self.left_camera_serial.clone(),
            right_camera_serial: self.right_camera_serial.clone(),
            auto_detect_serials: self.auto_detect_serials,
            legacy_serial_location: self.legacy_serial_location.clone(),
        }
    }
}

impl Clone for SystemConfig {
    fn clone(&self) -> (r: Self)
        ensures
            r == *self,
    {
        SystemConfig {
            pattern_layout: self.pattern_layout.clone(),
            file_paths: self.file_paths.clone(),
            camera_serials: self.camera_serials.clone(),
            version: self.version.clone(),
            created_at: self.created_at.clone(),
        }
    }
}

impl Default for SystemConfig {
    fn default() -> (r: Self)
        ensures
            r.is_default_but_stamp(),
    {
        SystemConfig::new()
    }
}

impl PatternLayoutConfig {
    /// The built-in layout: an asymmetric 10 x 4 circle grid, 15 mm circles
    /// 25 mm apart on the diagonal, legacy coordinates on, with the given comment.
    pub open spec fn is_builtin_layout(self, comment: Seq<char>) -> bool {
        &&& self.use_legacy_coordinates
        &&& self.pattern_type@ == "asymmetric_circles_grid"@
        &&& self.pattern_width == 10
        &&& self.pattern_height == 4
        &&& self.circle_diameter.bits == F64_15
        &&& self.diagonal_spacing.bits == F64_25
        &&& self.legacy_world_coords_comment@ == comment
        &&& self.legacy_params_location@
            == "src-tauri/src/modules/calibration_circles.rs:generate_world_points_from_list"@
    }

    /// Builds the built-in layout with the given comment.
    pub fn builtin(comment: &str) -> (r: Self)
        ensures
            r.is_builtin_layout(comment@),
    {
        PatternLayoutConfig {
            use_legacy_coordinates: true,
            pattern_type: "asymmetric_circles_grid".to_string(),
            pattern_width: 10,
            pattern_height: 4,
            circle_diameter: F64Bits::from_bits(F64_15),
            diagonal_spacing: F64Bits::from_bits(F64_25),
            legacy_world_coords_comment: comment.to_string(),
            legacy_params_location:
                "src-tauri/src/modules/calibration_circles.rs:generate_world_points_from_list".to_string(),
        }
    }
}

impl FilePathConfig {
    /// The default file locations.
    pub open spec fn is_default(self) -> bool {
        &&& self.camera_config_dir@ == "configs/camera/"@
        &&& self.calibration_images_dir@ == "calibration_images/"@
        &&& self.calibration_params_dir@ == "./"@
        &&& self.rectify_maps_path@ == "rectify_maps.yaml"@
        &&& self.alignment_config_dir@ == "configs/alignment/"@
        &&& self.use_param_io_paths
        &&& self.left_camera_params_path@ == "left_camera_params.yaml"@
        &&& self.right_camera_params_path@ == "right_camera_params.yaml"@
        &&& self.stereo_params_path@ == "stereo_params.yaml"@
        &&& self.rectify_params_path@ == "rectify_params.yaml"@
    }

    /// Builds the default file locations.
    pub fn default_paths() -> (r: Self)
        ensures
            r.is_default(),
    {
        FilePathConfig {
            camera_config_dir: "configs/camera/".to_string(),
            calibration_images_dir: "calibration_images/".to_string(),
            calibration_params_dir: "./".to_string(),
            rectify_maps_path: "rectify_maps.yaml".to_string(),
            alignment_config_dir: "configs/alignment/".to_string(),
            use_param_io_paths: true,
            left_camera_params_path: "left_camera_params.yaml".to_string(),
            right_camera_params_path: "right_camera_params.yaml".to_string(),
            stereo_params_path: "stereo_params.yaml".to_string(),
            rectify_params_path: "rectify_params.yaml".to_string(),
        }
    }
}

impl CameraSerialConfig {
    /// The default serials: left `DA5158733`, right `DA5158736`, no auto-detection.
    pub open spec fn is_default(self) -> bool {
        &&& self.left_camera_serial@ == "DA5158733"@
        &&& self.right_camera_serial@ == "DA5158736"@
        &&& !self.auto_detect_serials
        &&& self.legacy_serial_location@ == "src-tauri/camera_sdk/include/camera_api.h:29-30"@
    }

    /// Builds the default serials.
    pub fn default_serials() -> (r: Self)
        ensures
            r.is_default(),
    {
        CameraSerialConfig {
            left_camera_serial: "DA5158733".to_string(),
            right_camera_serial: "DA5158736".to_string(),
            auto_detect_serials: false,
            legacy_serial_location: "src-tauri/camera_sdk/include/camera_api.h:29-30".to_string(),
        }
    }
}

impl SystemConfig {
    /// The comment that the default layout carries.
    pub open spec fn default_layout_comment() -> Seq<char> {
        "保留calibration_circles.rs中的原有世界坐标设置，包括generate_world_points_from_list函数"@
    }

    /// Every field holds its default value, but for the creation stamp.
    pub open spec fn is_default_but_stamp(self) -> bool {
        &&& self.pattern_layout.is_builtin_layout(Self::default_layout_comment())
        &&& self.file_paths.is_default()
        &&& self.camera_serials.is_default()
        &&& self.version@ == "1.0"@
    }

    /// Why the configuration is refused, if it is: first the board size, then
    /// the circle diameter and spacing, then the serial numbers.
    pub open spec fn validation_error(self) -> Option<Seq<char>> {
        if self.pattern_layout.pattern_width <= 0 || self.pattern_layout.pattern_height <= 0 {
            Some("标定板尺寸必须为正数"@)
        } else if self.pattern_layout.circle_diameter.spec_le(f64_zero())
            || self.pattern_layout.diagonal_spacing.spec_le(f64_zero()) {
            Some("圆点直径和间距必须为正数"@)
        } else if self.camera_serials.left_camera_serial@.len() == 0
            || self.camera_serials.right_camera_serial@.len() == 0 {
            Some("相机序列号不能为空"@)
        } else {
            None
        }
    }

    /// What the system check accepts: a board of positive size, a circle
    /// diameter and a diagonal spacing that are not at most zero (a NaN is
    /// not), and both serials. A board without positive size is refused for
    /// it first; a positive board whose diameter or spacing is at most zero is
    /// refused for that; a configuration otherwise sound whose serial is
    /// missing is refused for the serial.
    pub proof fn lemma_system_check(self)
        ensures
            self.validation_error() is None <==> {
                &&& self.pattern_layout.pattern_width > 0
                &&& self.pattern_layout.pattern_height > 0
                &&& !self.pattern_layout.circle_diameter.spec_le(F64Bits { bits: 0 })
                &&& !self.pattern_layout.diagonal_spacing.spec_le(F64Bits { bits: 0 })
                &&& self.camera_serials.left_camera_serial@.len() > 0
                &&& self.camera_serials.right_camera_serial@.len() > 0
            },
            self.pattern_layout.pattern_width <= 0 || self.pattern_layout.pattern_height <= 0
                ==> self.validation_error() == Some("标定板尺寸必须为正数"@),
            self.pattern_layout.pattern_width > 0 && self.pattern_layout.pattern_height > 0
                && (self.pattern_layout.circle_diameter.spec_le(F64Bits { bits: 0 })
                || self.pattern_layout.diagonal_spacing.spec_le(F64Bits { bits: 0 }))
                ==> self.validation_error() == Some("圆点直径和间距必须为正数"@),
            self.pattern_layout.pattern_width > 0 && self.pattern_layout.pattern_height > 0
                && !self.pattern_layout.circle_diameter.spec_le(F64Bits { bits: 0 })
                && !self.pattern_layout.diagonal_spacing.spec_le(F64Bits { bits: 0 })
                && (self.camera_serials.left_camera_serial@.len() == 0
                || self.camera_serials.right_camera_serial@.len() == 0)
                ==> self.validation_error() == Some("相机序列号不能为空"@),
    {
    }

    /// The default system configuration, stamped with the current time.
    pub fn new() -> (r: Self)
        ensures
            r.is_default_but_stamp(),
    {
        SystemConfig {
            pattern_layout: PatternLayoutConfig::builtin(
                "保留calibration_circles.rs中的原有世界坐标设置，包括generate_world_points_from_list函数",
            ),
            file_paths: FilePathConfig::default_paths(),
            camera_serials: CameraSerialConfig::default_serials(),
            version: "1.0".to_string(),
            created_at: now_rfc3339(),
        }
    }

    /// Checks the configuration; the error says what is wrong.
    pub fn validate(&self) -> (r: Result<(), String>)
        ensures
            r is Ok <==> self.validation_error() is None,
            r matches Err(e) ==> self.validation_error() == Some(e@),
    {
        let zero = F64Bits::zero();
        if self.pattern_layout.pattern_width <= 0 || self.pattern_layout.pattern_height <= 0 {
            return Err("标定板尺寸必须为正数".to_string());
        }
        if self.pattern_layout.circle_diameter.at_most(&zero)
            || self.pattern_layout.diagonal_spacing.at_most(&zero) {
            return Err("圆点直径和间距必须为正数".to_string());
        }
        if self.camera_serials.left_camera_serial.as_str().is_empty()
            || self.camera_serials.right_camera_serial.as_str().is_empty() {
            return Err("相机序列号不能为空".to_string());
        }
        Ok(())
    }

    /// Pattern parameters in effect: the built-in 15 mm / 25 mm, 4 x 10 grid
    /// when legacy coordinates are on, else the configured ones (the size with
    /// rows as width and columns as height, as the vision code takes it).
    /// The configured diameter and spacing are rounded to single precision by
    /// `to_single`, as `as f32` rounds a double.
    pub fn get_effective_pattern_params<N: Fn(F64Bits) -> F32Bits>(&self, to_single: N)
        -> (r: (F32Bits, F32Bits, PatternSize))
        requires
            forall|x: F64Bits| call_requires(to_single, (x,)),
        ensures
            self.pattern_layout.use_legacy_coordinates ==> r == (
                F32Bits { bits: crate::float_bits::F32_15 },
                F32Bits { bits: crate::float_bits::F32_25 },
                PatternSize { width: 4, height: 10 },
            ),
            !self.pattern_layout.use_legacy_coordinates ==> {
                &&& call_ensures(to_single, (self.pattern_layout.circle_diameter,), r.0)
                &&& call_ensures(to_single, (self.pattern_layout.diagonal_spacing,), r.1)
                &&& r.2 == PatternSize {
                    width: self.pattern_layout.pattern_height,
                    height: self.pattern_layout.pattern_width,
                }
            },
    {
        if self.pattern_layout.use_legacy_coordinates {
            (F32Bits::from_bits(F32_15), F32Bits::from_bits(F32_25), PatternSize { width: 4, height: 10 })
        } else {
            (
                to_single(self.pattern_layout.circle_diameter),
                to_single(self.pattern_layout.diagonal_spacing),
                PatternSize {
                    width: self.pattern_layout.pattern_height,
                    height: self.pattern_layout.pattern_width,
                },
            )
        }
    }

    /// The configured serials, left then right.
    pub fn get_effective_camera_serials(&self) -> (r: (String, String))
        ensures
            r.0@ == self.camera_serials.left_camera_serial@,
            r.1@ == self.camera_serials.right_camera_serial@,
    {
        (self.camera_serials.left_camera_serial.clone(), self.camera_serials.right_camera_serial.clone())
    }
}

} // verus!
