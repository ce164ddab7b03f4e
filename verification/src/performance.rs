//! The status texts of the camera performance monitor.
//!
//! The monitor measures frame rates as floating-point numbers; the
//! comparisons of those rates are made where they are measured, and what
//! the status texts make of the comparisons is decided here.

use vstd::prelude::*;

verus! {

/// What the comparisons of one camera's measured frame rate found.
#[derive(Debug, Clone, Copy, PartialEq, Eq, Structural)]
pub struct RateReading {
    /// The measured rate is zero.
    pub stopped: bool,
    /// The measured rate is within 0.1 fps of the target.
    pub on_target: bool,
    /// The measured rate is under 90 % of the target.
    pub below_ninety_percent: bool,
}

/// The status text of one camera.
pub open spec fn camera_status(reading: RateReading) -> Seq<char> {
    if reading.stopped {
        "未运行"@
    } else if reading.on_target {
        "正常"@
    } else if reading.below_ninety_percent {
        "帧率偏低"@
    } else {
        "运行中"@
    }
}

/// The status text of one camera: not running, normal, rate too low, or running.
pub fn camera_status_text(reading: RateReading) -> (r: String)
    ensures
        r@ == camera_status(reading),
{
    if reading.stopped {
        "未运行".to_string()
    } else if reading.on_target {
        "正常".to_string()
    } else if reading.below_ninety_percent {
        "帧率偏低".to_string()
    } else {
        "运行中".to_string()
    }
}

/// The status text of the camera pair.
pub open spec fn system_status(left_healthy: bool, right_healthy: bool, left_stopped: bool, right_stopped: bool)
    -> Seq<char> {
    if left_healthy && right_healthy {
        "正常运行"@
    } else if left_stopped && right_stopped {
        "未运行"@
    } else {
        "部分异常"@
    }
}

/// The status text of the camera pair: running normally when both cameras
/// are healthy, not running when both are stopped, partly faulty otherwise.
pub fn system_status_text(left_healthy: bool, right_healthy: bool, left_stopped: bool, right_stopped: bool)
    -> (r: String)
    ensures
        r@ == system_status(left_healthy, right_healthy, left_stopped, right_stopped),
{
    if left_healthy && right_healthy {
        "正常运行".to_string()
    } else if left_stopped && right_stopped {
        "未运行".to_string()
    } else {
        "部分异常".to_string()
    }
}

/// What the status texts say: a camera is "not running" exactly when its
/// rate is zero, "normal" exactly when it runs on target, "rate too low"
/// exactly when it runs off target and under 90 %; the pair is "running
/// normally" exactly when both cameras are healthy, "not running" exactly
/// when not both are healthy and both are stopped, and "partly faulty"
/// otherwise, in particular when only one camera is stopped.
pub proof fn lemma_status_texts(reading: RateReading, left_healthy: bool, right_healthy: bool, left_stopped: bool,
    right_stopped: bool)
    ensures
        camera_status(reading) == "未运行"@ <==> reading.stopped,
        camera_status(reading) == "正常"@ <==> !reading.stopped && reading.on_target,
        camera_status(reading) == "帧率偏低"@ <==> !reading.stopped && !reading.on_target && reading.below_ninety_percent,
        camera_status(reading) == "运行中"@ <==> !reading.stopped && !reading.on_target && !reading.below_ninety_percent,
        system_status(left_healthy, right_healthy, left_stopped, right_stopped) == "正常运行"@
            <==> left_healthy && right_healthy,
        system_status(left_healthy, right_healthy, left_stopped, right_stopped) == "未运行"@
            <==> !(left_healthy && right_healthy) && left_stopped && right_stopped,
        system_status(left_healthy, right_healthy, left_stopped, right_stopped) == "部分异常"@
            <==> !(left_healthy && right_healthy) && !(left_stopped && right_stopped),
{
    reveal_strlit("未运行");
    reveal_strlit("正常");
    reveal_strlit("帧率偏低");
    reveal_strlit("运行中");
    reveal_strlit("正常运行");
    reveal_strlit("部分异常");
    assert("未运行"@[0] != "正常"@[0] && "未运行"@[0] != "帧率偏低"@[0] && "未运行"@[0] != "运行中"@[0]);
    assert("正常"@.len() != "帧率偏低"@.len() && "正常"@.len() != "运行中"@.len());
    assert("帧率偏低"@[0] != "运行中"@[0]);
    assert("正常运行"@[0] != "未运行"@[0] && "正常运行"@[0] != "部分异常"@[0] && "未运行"@[0] != "部分异常"@[0]);
}

} // verus!
