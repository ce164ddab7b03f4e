//! The station's configuration: system, camera and alignment settings,
//! their manager, and the presets that can be applied to it.

pub mod system_config;
pub mod camera_config;
pub mod alignment_config;
pub mod config_manager;
pub mod compatibility_manager;


pub mod config_files;
