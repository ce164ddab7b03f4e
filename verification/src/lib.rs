//! Configuration, camera-session and alignment-display logic of the stereo
//! image-merging station, with its behaviour stated in contracts.

pub mod float_bits;

mod clock;
pub mod text;
pub mod config;
pub mod camera_ffi;
pub mod camera_manager;
pub mod alignment;
pub mod camera_params;
pub mod calibration_session;
pub mod performance;
pub mod paths;
pub mod encoding;
