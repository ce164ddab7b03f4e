//! The plain-text configuration files that the settings page edits.

use vstd::prelude::*;
use crate::text::str_eq;

verus! {

/// The file of a configuration type, if the type is one of
/// `calibration`, `alignment` and `default`.
pub open spec fn config_file_of(config_type: Seq<char>) -> Option<Seq<char>> {
    if config_type == "calibration"@ {
        Some("src-tauri/configs/calibration_config.txt"@)
    } else if config_type == "alignment"@ {
        Some("src-tauri/configs/alignment_config.txt"@)
    } else if config_type == "default"@ {
        Some("src-tauri/configs/default_config.txt"@)
    } else {
        None
    }
}

/// The path of the file of a configuration type; another type is refused.
pub fn config_file_path(config_type: &str) -> (r: Result<&'static str, String>)
    ensures
        match config_file_of(config_type@) {
            Some(path) => r matches Ok(p) && p@ == path,
            None => r matches Err(e) && e@ == "无效的配置类型"@,
        },
{
    if str_eq(config_type, "calibration") {
        Ok("src-tauri/configs/calibration_config.txt")
    } else if str_eq(config_type, "alignment") {
        Ok("src-tauri/configs/alignment_config.txt")
    } else if str_eq(config_type, "default") {
        Ok("src-tauri/configs/default_config.txt")
    } else {
        Err("无效的配置类型".to_string())
    }
}

} // verus!
