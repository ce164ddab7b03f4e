//! The alignment check as the display layer sees it: detection stages and
//! results, what is shown for them, and the session state of the commands
//! that drive the alignment workflow.
//!
//! The workflow itself (camera threads and image analysis) is handed in as
//! a value of the caller's type and driven through closures; what the
//! commands decide around those calls is what their contracts state.

use vstd::prelude::*;
use crate::clock::now_unix_millis;
use crate::float_bits::{F64Bits, F32Bits};
use crate::encoding::{base64_encode, base64_of};
use crate::text::{join2, join3};

verus! {

/// Stage of the alignment check.
#[derive(Debug, Clone, Copy, PartialEq, Eq, Structural)]
pub enum DetectionStage {
    Idle,
    Preview,
    LeftEyePoseCheck,
    RightEyePoseCheck,
    DualEyeAlignment,
    Completed,
}

/// The stage that follows a detection stage, if there is one.
pub open spec fn spec_next_stage(stage: DetectionStage) -> Option<DetectionStage> {
    match stage {
        DetectionStage::LeftEyePoseCheck => Some(DetectionStage::RightEyePoseCheck),
        DetectionStage::RightEyePoseCheck => Some(DetectionStage::DualEyeAlignment),
        DetectionStage::DualEyeAlignment => Some(DetectionStage::Completed),
        _ => None,
    }
}

/// The stage after a detection stage: left eye, right eye, both eyes, done.
pub fn next_stage(stage: DetectionStage) -> (r: Option<DetectionStage>)
    ensures
        r == spec_next_stage(stage),
{
    match stage {
        DetectionStage::LeftEyePoseCheck => Some(DetectionStage::RightEyePoseCheck),
        DetectionStage::RightEyePoseCheck => Some(DetectionStage::DualEyeAlignment),
        DetectionStage::DualEyeAlignment => Some(DetectionStage::Completed),
        _ => None,
    }
}

/// The outcome of one detection stage. Angles are in degrees, errors in pixels.
#[derive(Debug)]
pub enum DetectionResult {
    LeftEyePose { roll: F64Bits, pitch: F64Bits, yaw: F64Bits, pass: bool, message: String },
    RightEyePose { roll: F64Bits, pitch: F64Bits, yaw: F64Bits, pass: bool, message: String },
    DualEyeAlignment {
        mean_dx: F64Bits,
        mean_dy: F64Bits,
        rms: F64Bits,
        p95: F64Bits,
        max_err: F64Bits,
        pass: bool,
        adjustment_hint: String,
    },
    Error { message: String },
}

/// A frame pair for the live view.
#[derive(Debug)]
pub struct CameraPreviewData {
    pub left_image_base64: String,
    pub right_image_base64: String,
    /// Milliseconds.
    pub timestamp: u64,
    pub width: u32,
    pub height: u32,
    pub fps: F32Bits,
}

/// What the commands report of the alignment session.
#[derive(Debug, Clone, Copy, PartialEq, Eq, Structural)]
pub struct AlignmentStatus {
    pub is_camera_active: bool,
    pub current_stage: DetectionStage,
    pub workflow_running: bool,
    /// Milliseconds since the Unix epoch.
    pub last_update: u64,
}

/// What is shown of one eye.
#[derive(Debug)]
pub struct EyeDeviationDisplay {
    pub eye_name: String,
    pub pose_status: String,
    pub pose_pass: bool,
    pub roll_adjustment: String,
    pub pitch_adjustment: String,
    pub yaw_adjustment: String,
    /// Centring is shown for the left eye only.
    pub centering_status: Option<String>,
    pub centering_pass: Option<bool>,
    pub centering_adjustment: Option<String>,
}

/// What is shown of a detection result.
#[derive(Debug)]
pub struct AlignmentResultDisplay {
    pub left_eye: EyeDeviationDisplay,
    pub right_eye: EyeDeviationDisplay,
    pub alignment_status: Option<String>,
    pub alignment_pass: Option<bool>,
    pub adjustment_hint: Option<String>,
    pub rms_error: Option<F64Bits>,
    pub processing_time_ms: u64,
}

/// The option holds a string with the given text.
pub open spec fn holds_text(o: Option<String>, text: Seq<char>) -> bool {
    o matches Some(s) && s@ == text
}

/// No centring is shown.
pub open spec fn no_centering(d: EyeDeviationDisplay) -> bool {
    d.centering_status is None && d.centering_pass is None && d.centering_adjustment is None
}

/// The eye passed its checks; its centring passed too if `centering`.
pub open spec fn passed_eye(d: EyeDeviationDisplay, name: Seq<char>, centering: bool) -> bool {
    &&& d.eye_name@ == name
    &&& d.pose_status@ == "检测完成"@
    &&& d.pose_pass
    &&& d.roll_adjustment@ == "已通过"@
    &&& d.pitch_adjustment@ == "已通过"@
    &&& d.yaw_adjustment@ == "已通过"@
    &&& centering ==> {
        &&& holds_text(d.centering_status, "已通过"@)
        &&& d.centering_pass == Some(true)
        &&& holds_text(d.centering_adjustment, "无需调整"@)
    }
    &&& !centering ==> no_centering(d)
}

/// The right eye waits for the left eye.
pub open spec fn pending_right_eye(d: EyeDeviationDisplay) -> bool {
    &&& d.eye_name@ == "右眼"@
    &&& d.pose_status@ == "等待左眼检测完成"@
    &&& !d.pose_pass
    &&& d.roll_adjustment@ == "待检测"@
    &&& d.pitch_adjustment@ == "待检测"@
    &&& d.yaw_adjustment@ == "待检测"@
    &&& no_centering(d)
}

/// The eye failed with the given message; its centring failed too if `centering`.
pub open spec fn failed_eye(d: EyeDeviationDisplay, name: Seq<char>, message: Seq<char>, centering: bool) -> bool {
    &&& d.eye_name@ == name
    &&& d.pose_status@ == "错误: "@ + message
    &&& !d.pose_pass
    &&& d.roll_adjustment@ == "检测失败"@
    &&& d.pitch_adjustment@ == "检测失败"@
    &&& d.yaw_adjustment@ == "检测失败"@
    &&& centering ==> {
        &&& holds_text(d.centering_status, "检测失败"@)
        &&& d.centering_pass == Some(false)
        &&& holds_text(d.centering_adjustment, "检测失败"@)
    }
    &&& !centering ==> no_centering(d)
}

/// One adjustment line: the label, the text that `angle_text` gives for the
/// negated angle, and the degree sign.
pub open spec fn adjustment_line<F: Fn(F64Bits) -> String>(angle_text: F, label: Seq<char>, angle: F64Bits, line: Seq<char>) -> bool {
    exists|s: String| #![trigger call_ensures(angle_text, (F64Bits { bits: angle.bits ^ 0x8000_0000_0000_0000u64 },), s)]
        call_ensures(angle_text, (F64Bits { bits: angle.bits ^ 0x8000_0000_0000_0000u64 },), s)
        && line == label + s@ + "°"@
}

/// The eye was measured: its message and verdict, and the adjustments that
/// undo its roll, pitch and yaw.
pub open spec fn measured_eye<F: Fn(F64Bits) -> String>(d: EyeDeviationDisplay, name: Seq<char>, message: String,
    pass: bool, roll: F64Bits, pitch: F64Bits, yaw: F64Bits, angle_text: F) -> bool {
    &&& d.eye_name@ == name
    &&& d.pose_status@ == message@
    &&& d.pose_pass == pass
    &&& adjustment_line(angle_text, "Roll: "@, roll, d.roll_adjustment@)
    &&& adjustment_line(angle_text, "Pitch: "@, pitch, d.pitch_adjustment@)
    &&& adjustment_line(angle_text, "Yaw: "@, yaw, d.yaw_adjustment@)
    &&& no_centering(d)
}

/// What is shown for a detection result.
pub open spec fn is_display_of<F: Fn(F64Bits) -> String>(d: AlignmentResultDisplay, result: DetectionResult, angle_text: F) -> bool {
    &&& d.processing_time_ms == 0
    &&& match result {
        DetectionResult::LeftEyePose { roll, pitch, yaw, pass, message } => {
            &&& measured_eye(d.left_eye, "左眼"@, message, pass, roll, pitch, yaw, angle_text)
            &&& pending_right_eye(d.right_eye)
            &&& d.alignment_status is None && d.alignment_pass is None
            &&& d.adjustment_hint is None && d.rms_error is None
        },
        DetectionResult::RightEyePose { roll, pitch, yaw, pass, message } => {
            &&& passed_eye(d.left_eye, "左眼"@, true)
            &&& measured_eye(d.right_eye, "右眼"@, message, pass, roll, pitch, yaw, angle_text)
            &&& d.alignment_status is None && d.alignment_pass is None
            &&& d.adjustment_hint is None && d.rms_error is None
        },
        DetectionResult::DualEyeAlignment { rms, pass, adjustment_hint, .. } => {
            &&& passed_eye(d.left_eye, "左眼"@, true)
            &&& passed_eye(d.right_eye, "右眼"@, false)
            &&& holds_text(d.alignment_status, if pass { "✓ 合像检测通过"@ } else { "❌ 合像精度不足"@ })
            &&& d.alignment_pass == Some(pass)
            &&& holds_text(d.adjustment_hint, adjustment_hint@)
            &&& d.rms_error == Some(rms)
        },
        DetectionResult::Error { message } => {
            &&& failed_eye(d.left_eye, "左眼"@, message@, true)
            &&& failed_eye(d.right_eye, "右眼"@, message@, false)
            &&& holds_text(d.alignment_status, "❌ 检测错误: "@ + message@)
            &&& d.alignment_pass == Some(false)
            &&& holds_text(d.adjustment_hint, "请检查设备连接和标定板位置"@)
            &&& d.rms_error is None
        },
    }
}

/// For a result of both eyes, the status shown is the good-alignment text
/// when the alignment is good and the low-precision text when it is not; the
/// verdict, the hint and the RMS error shown are those of the result.
pub proof fn lemma_dual_display_agrees<F: Fn(F64Bits) -> String>(d: AlignmentResultDisplay, mean_dx: F64Bits,
    mean_dy: F64Bits, rms: F64Bits, p95: F64Bits, max_err: F64Bits, pass: bool, adjustment_hint: String, angle_text: F)
    requires
        is_display_of(d, DetectionResult::DualEyeAlignment { mean_dx, mean_dy, rms, p95, max_err, pass, adjustment_hint },
            angle_text),
    ensures
        d.alignment_pass == Some(pass),
        d.alignment_status matches Some(s) && (s@ == "✓ 合像检测通过"@ <==> pass) && (s@ == "❌ 合像精度不足"@ <==> !pass),
        d.adjustment_hint matches Some(h) && h@ == adjustment_hint@,
        d.rms_error == Some(rms),
        d.left_eye.pose_pass && d.right_eye.pose_pass,
{
    reveal_strlit("✓ 合像检测通过");
    reveal_strlit("❌ 合像精度不足");
    assert("✓ 合像检测通过"@[0] != "❌ 合像精度不足"@[0]);
}

/// For a one-eye result, the measured eye shows the result's message and
/// verdict, and each adjustment line shows, after its label, the text that
/// `angle_text` writes for the negated angle (same magnitude, other sign):
/// roll, pitch and yaw each in their own line. No verdict of the alignment
/// of both eyes is shown yet.
pub proof fn lemma_eye_display<F: Fn(F64Bits) -> String>(d: AlignmentResultDisplay, left: bool, roll: F64Bits,
    pitch: F64Bits, yaw: F64Bits, pass: bool, message: String, angle_text: F)
    requires
        is_display_of(d, if left {
            DetectionResult::LeftEyePose { roll, pitch, yaw, pass, message }
        } else {
            DetectionResult::RightEyePose { roll, pitch, yaw, pass, message }
        }, angle_text),
    ensures
        ({
            let eye = if left { d.left_eye } else { d.right_eye };
            &&& eye.pose_pass == pass
            &&& eye.pose_status@ == message@
            &&& exists|a: F64Bits, t: String| #![trigger call_ensures(angle_text, (a,), t)]
                a.magnitude() == roll.magnitude() && a.sign_bit() != roll.sign_bit()
                && call_ensures(angle_text, (a,), t) && eye.roll_adjustment@ == "Roll: "@ + t@ + "°"@
            &&& exists|a: F64Bits, t: String| #![trigger call_ensures(angle_text, (a,), t)]
                a.magnitude() == pitch.magnitude() && a.sign_bit() != pitch.sign_bit()
                && call_ensures(angle_text, (a,), t) && eye.pitch_adjustment@ == "Pitch: "@ + t@ + "°"@
            &&& exists|a: F64Bits, t: String| #![trigger call_ensures(angle_text, (a,), t)]
                a.magnitude() == yaw.magnitude() && a.sign_bit() != yaw.sign_bit()
                && call_ensures(angle_text, (a,), t) && eye.yaw_adjustment@ == "Yaw: "@ + t@ + "°"@
            &&& d.alignment_pass is None && d.alignment_status is None
            &&& left ==> !d.right_eye.pose_pass
            &&& !left ==> d.left_eye.pose_pass
        }),
{
    crate::float_bits::lemma_sign_flip(roll);
    crate::float_bits::lemma_sign_flip(pitch);
    crate::float_bits::lemma_sign_flip(yaw);
}

/// What is shown for an error result: both eyes failed with its message,
/// the verdict shown is "not passed" and the status carries the message.
pub proof fn lemma_error_display<F: Fn(F64Bits) -> String>(d: AlignmentResultDisplay, message: String, angle_text: F)
    requires
        is_display_of(d, DetectionResult::Error { message }, angle_text),
    ensures
        d.alignment_pass == Some(false),
        !d.left_eye.pose_pass && !d.right_eye.pose_pass,
        d.left_eye.pose_status@ == "错误: "@ + message@,
        d.alignment_status matches Some(s) && s@ == "❌ 检测错误: "@ + message@,
        d.rms_error is None,
{
}

/// Whatever the result, the left panel is the left eye's and the right panel
/// the right eye's; a verdict of both eyes is shown only for a result of
/// both eyes or an error, and it is a good verdict exactly for a result of
/// both eyes that is good; an RMS error is shown exactly for a result of
/// both eyes.
pub proof fn lemma_verdict_shown<F: Fn(F64Bits) -> String>(d: AlignmentResultDisplay, result: DetectionResult,
    angle_text: F)
    requires
        is_display_of(d, result, angle_text),
    ensures
        d.left_eye.eye_name@ == "左眼"@,
        d.right_eye.eye_name@ == "右眼"@,
        d.alignment_pass is Some <==> (result is DualEyeAlignment || result is Error),
        d.alignment_pass == Some(true) <==> (result matches DetectionResult::DualEyeAlignment { pass, .. } && pass),
        d.rms_error is Some <==> result is DualEyeAlignment,
{
}

fn passed_eye_display(name: &str, centering: bool) -> (d: EyeDeviationDisplay)
    ensures
        passed_eye(d, name@, centering),
{
    EyeDeviationDisplay {
        eye_name: name.to_string(),
        pose_status: "检测完成".to_string(),
        pose_pass: true,
        roll_adjustment: "已通过".to_string(),
        pitch_adjustment: "已通过".to_string(),
        yaw_adjustment: "已通过".to_string(),
        centering_status: if centering { Some("已通过".to_string()) } else { None },
        centering_pass: if centering { Some(true) } else { None },
        centering_adjustment: if centering { Some("无需调整".to_string()) } else { None },
    }
}

fn failed_eye_display(name: &str, message: &str, centering: bool) -> (d: EyeDeviationDisplay)
    ensures
        failed_eye(d, name@, message@, centering),
{
    EyeDeviationDisplay {
        eye_name: name.to_string(),
        pose_status: join2("错误: ", message),
        pose_pass: false,
        roll_adjustment: "检测失败".to_string(),
        pitch_adjustment: "检测失败".to_string(),
        yaw_adjustment: "检测失败".to_string(),
        centering_status: if centering { Some("检测失败".to_string()) } else { None },
        centering_pass: if centering { Some(false) } else { None },
        centering_adjustment: if centering { Some("检测失败".to_string()) } else { None },
    }
}

fn adjustment<F: Fn(F64Bits) -> String>(angle_text: &F, label: &str, angle: F64Bits) -> (r: String)
    requires
        forall|x: F64Bits| call_requires(*angle_text, (x,)),
    ensures
        adjustment_line(*angle_text, label@, angle, r@),
{
    let negated = angle.negated();
    let text = (*angle_text)(negated);
    assert(negated == (F64Bits { bits: angle.bits ^ 0x8000_0000_0000_0000u64 }));
    assert(call_ensures(*angle_text, (F64Bits { bits: angle.bits ^ 0x8000_0000_0000_0000u64 },), text));
    join3(label, text.as_str(), "°")
}

fn measured_eye_display<F: Fn(F64Bits) -> String>(name: &str, message: &String, pass: bool, roll: F64Bits,
    pitch: F64Bits, yaw: F64Bits, angle_text: &F) -> (d: EyeDeviationDisplay)
    requires
        forall|x: F64Bits| call_requires(*angle_text, (x,)),
    ensures
        measured_eye(d, name@, *message, pass, roll, pitch, yaw, *angle_text),
{
    EyeDeviationDisplay {
        eye_name: name.to_string(),
        pose_status: message.clone(),
        pose_pass: pass,
        roll_adjustment: adjustment(angle_text, "Roll: ", roll),
        pitch_adjustment: adjustment(angle_text, "Pitch: ", pitch),
        yaw_adjustment: adjustment(angle_text, "Yaw: ", yaw),
        centering_status: None,
        centering_pass: None,
        centering_adjustment: None,
    }
}

fn pending_right_eye_display() -> (d: EyeDeviationDisplay)
    ensures
        pending_right_eye(d),
{
    EyeDeviationDisplay {
        eye_name: "右眼".to_string(),
        pose_status: "等待左眼检测完成".to_string(),
        pose_pass: false,
        roll_adjustment: "待检测".to_string(),
        pitch_adjustment: "待检测".to_string(),
        yaw_adjustment: "待检测".to_string(),
        centering_status: None,
        centering_pass: None,
        centering_adjustment: None,
    }
}

/// What is shown for a detection result. `angle_text` writes an angle in
/// degrees with three decimals; an adjustment shows the negated angle, the
/// turn that undoes the deviation.
pub fn convert_detection_result_to_display<F: Fn(F64Bits) -> String>(result: &DetectionResult, angle_text: F)
    -> (d: AlignmentResultDisplay)
    requires
        forall|x: F64Bits| call_requires(angle_text, (x,)),
    ensures
        is_display_of(d, *result, angle_text),
{
    match result {
        DetectionResult::LeftEyePose { roll, pitch, yaw, pass, message } => AlignmentResultDisplay {
            left_eye: measured_eye_display("左眼", message, *pass, *roll, *pitch, *yaw, &angle_text),
            right_eye: pending_right_eye_display(),
            alignment_status: None,
            alignment_pass: None,
            adjustment_hint: None,
            rms_error: None,
            processing_time_ms: 0,
        },
        DetectionResult::RightEyePose { roll, pitch, yaw, pass, message } => AlignmentResultDisplay {
            left_eye: passed_eye_display("左眼", true),
            right_eye: measured_eye_display("右眼", message, *pass, *roll, *pitch, *yaw, &angle_text),
            alignment_status: None,
            alignment_pass: None,
            adjustment_hint: None,
            rms_error: None,
            processing_time_ms: 0,
        },
        DetectionResult::DualEyeAlignment { rms, pass, adjustment_hint, .. } => AlignmentResultDisplay {
            left_eye: passed_eye_display("左眼", true),
            right_eye: passed_eye_display("右眼", false),
            alignment_status: Some(
                if *pass {
                    "✓ 合像检测通过".to_string()
                } else {
                    "❌ 合像精度不足".to_string()
                },
            ),
            alignment_pass: Some(*pass),
            adjustment_hint: Some(adjustment_hint.clone()),
            rms_error: Some(*rms),
            processing_time_ms: 0,
        },
        DetectionResult::Error { message } => AlignmentResultDisplay {
            left_eye: failed_eye_display("左眼", message.as_str(), true),
            right_eye: failed_eye_display("右眼", message.as_str(), false),
            alignment_status: Some(join2("❌ 检测错误: ", message.as_str())),
            alignment_pass: Some(false),
            adjustment_hint: Some("请检查设备连接和标定板位置".to_string()),
            rms_error: None,
            processing_time_ms: 0,
        },
    }
}

/// The preview thumbnail of a raw frame of `width` x `height` pixels, as a
/// JPEG data URL: `encode_jpeg` scales the frame to `thumbnail_size` and
/// encodes it as JPEG, and its bytes are written in Base64 after the
/// `data:image/jpeg;base64,` prefix. An error of `encode_jpeg` is returned.
pub fn create_thumbnail_base64<E: FnOnce(&[u8], u32, u32, u32) -> Result<Vec<u8>, String>>(image_data: &[u8],
    width: u32, height: u32, thumbnail_size: u32, encode_jpeg: E) -> (r: Result<String, String>)
    requires
        call_requires(encode_jpeg, (image_data, width, height, thumbnail_size)),
    ensures
        exists|jpeg: Result<Vec<u8>, String>|
            #![trigger call_ensures(encode_jpeg, (image_data, width, height, thumbnail_size), jpeg)] {
            &&& call_ensures(encode_jpeg, (image_data, width, height, thumbnail_size), jpeg)
            &&& (jpeg matches Ok(bytes) ==> (r matches Ok(s) && s@ == "data:image/jpeg;base64,"@ + base64_of(bytes@)))
            &&& (jpeg matches Err(e) ==> r == Err::<String, String>(e))
        },
{
    match encode_jpeg(image_data, width, height, thumbnail_size) {
        Ok(bytes) => {
            let text = base64_encode(bytes.as_slice());
            Ok(join2("data:image/jpeg;base64,", text.as_str()))
        },
        Err(e) => Err(e),
    }
}

} // verus!

verus! {

/// The alignment session of the commands: the running workflow, whether the
/// cameras are active, and the last preview and result shown.
pub struct AlignmentWorkflowState<W> {
    pub workflow: Option<W>,
    pub is_active: bool,
    pub last_preview: Option<CameraPreviewData>,
    pub last_result: Option<AlignmentResultDisplay>,
}

/// A status with the given switches and stage, stamped at any time.
pub open spec fn status_is(s: AlignmentStatus, active: bool, stage: DetectionStage) -> bool {
    s.is_camera_active == active && s.current_stage == stage && s.workflow_running == active
}

/// The error text `prefix` followed by the workflow's own error.
pub open spec fn prefixed(prefix: Seq<char>, e: String) -> Seq<char> {
    prefix + e@
}

impl<W> AlignmentWorkflowState<W> {
    /// An inactive session with no workflow.
    pub fn new() -> (r: Self)
        ensures
            r.workflow is None,
            !r.is_active,
            r.last_preview is None,
            r.last_result is None,
    {
        AlignmentWorkflowState { workflow: None, is_active: false, last_preview: None, last_result: None }
    }

    /// Starts the cameras: an active session is reported as it is; otherwise
    /// a workflow is created with `create`, initialised with `initialize` and
    /// started with `start`, and the session keeps it and becomes active in
    /// the preview stage. The first of these that fails has its error
    /// returned after a prefix that names the step, and the session is left
    /// as it was.
    pub fn start_alignment_camera<C, I, S>(&mut self, create: C, initialize: I, start: S)
        -> (r: Result<AlignmentStatus, String>)
        where
            C: FnOnce() -> Result<W, String>,
            I: FnOnce(&mut W) -> Result<(), String>,
            S: FnOnce(&mut W) -> Result<(), String>,
        requires
            call_requires(create, ()),
            forall|x: &mut W| call_requires(initialize, (x,)),
            forall|x: &mut W| call_requires(start, (x,)),
        ensures
            old(self).is_active ==> (r matches Ok(s) && status_is(s, true, DetectionStage::Preview))
                && *final(self) == *old(self),
            !old(self).is_active ==> exists|created: Result<W, String>| #![trigger call_ensures(create, (), created)] {
                &&& call_ensures(create, (), created)
                &&& (created matches Err(e) ==> (r matches Err(m) && m@ == prefixed("创建工作流失败: "@, e))
                    && *final(self) == *old(self))
                &&& (created matches Ok(w) ==> exists|x: &mut W, init: Result<(), String>|
                    #![trigger call_ensures(initialize, (x,), init)] {
                    &&& *x == w
                    &&& call_ensures(initialize, (x,), init)
                    &&& (init matches Err(e) ==> (r matches Err(m) && m@ == prefixed("初始化检测系统失败: "@, e))
                        && *final(self) == *old(self))
                    &&& (init is Ok ==> exists|y: &mut W, started: Result<(), String>|
                        #![trigger call_ensures(start, (y,), started)] {
                        &&& *y == *final(x)
                        &&& call_ensures(start, (y,), started)
                        &&& (started matches Err(e) ==> (r matches Err(m) && m@ == prefixed("启动工作流失败: "@, e))
                            && *final(self) == *old(self))
                        &&& (started is Ok ==> (r matches Ok(s) && status_is(s, true, DetectionStage::Preview))
                            && *final(self) == (AlignmentWorkflowState { workflow: Some(*final(y)), is_active: true, ..*old(self) }))
                    })
                })
            },
    {
        if self.is_active {
            return Ok(AlignmentStatus {
                is_camera_active: true,
                current_stage: DetectionStage::Preview,
                workflow_running: true,
                last_update: now_unix_millis() as u64,
            });
        }
        let mut workflow = match create() {
            Ok(w) => w,
            Err(e) => {
                return Err(join2("创建工作流失败: ", e.as_str()));
            },
        };
        match initialize(&mut workflow) {
            Ok(()) => {},
            Err(e) => {
                return Err(join2("初始化检测系统失败: ", e.as_str()));
            },
        }
        match start(&mut workflow) {
            Ok(()) => {},
            Err(e) => {
                return Err(join2("启动工作流失败: ", e.as_str()));
            },
        }
        self.workflow = Some(workflow);
        self.is_active = true;
        Ok(AlignmentStatus {
            is_camera_active: true,
            current_stage: DetectionStage::Preview,
            workflow_running: true,
            last_update: now_unix_millis() as u64,
        })
    }

    /// Stops the cameras: an inactive session is reported as idle; otherwise
    /// the workflow is taken out of the session and stopped with `shutdown`.
    /// If that fails its error is returned prefixed, the workflow is gone and
    /// the session stays active; else the session becomes inactive and
    /// forgets its last preview and result.
    pub fn stop_alignment_camera<S: FnOnce(W) -> Result<(), String>>(&mut self, shutdown: S)
        -> (r: Result<AlignmentStatus, String>)
        requires
            forall|w: W| call_requires(shutdown, (w,)),
        ensures
            !old(self).is_active ==> (r matches Ok(s) && status_is(s, false, DetectionStage::Idle))
                && *final(self) == *old(self),
            old(self).is_active ==> {
                &&& final(self).workflow is None
                &&& old(self).workflow is None ==> (r matches Ok(s) && status_is(s, false, DetectionStage::Idle))
                    && !final(self).is_active && final(self).last_preview is None && final(self).last_result is None
                &&& old(self).workflow matches Some(w) ==> exists|outcome: Result<(), String>|
                    #![trigger call_ensures(shutdown, (w,), outcome)] {
                    &&& call_ensures(shutdown, (w,), outcome)
                    &&& (outcome matches Err(e) ==> (r matches Err(m) && m@ == prefixed("停止工作流失败: "@, e))
                        && final(self).is_active && final(self).last_preview == old(self).last_preview
                        && final(self).last_result == old(self).last_result)
                    &&& (outcome is Ok ==> (r matches Ok(s) && status_is(s, false, DetectionStage::Idle))
                        && !final(self).is_active && final(self).last_preview is None && final(self).last_result is None)
                }
            },
    {
        if !self.is_active {
            return Ok(AlignmentStatus {
                is_camera_active: false,
                current_stage: DetectionStage::Idle,
                workflow_running: false,
                last_update: now_unix_millis() as u64,
            });
        }
        let taken = self.workflow.take();
        if let Some(workflow) = taken {
            match shutdown(workflow) {
                Ok(()) => {},
                Err(e) => return Err(join2("停止工作流失败: ", e.as_str())),
            }
        }
        self.is_active = false;
        self.last_preview = None;
        self.last_result = None;
        Ok(AlignmentStatus {
            is_camera_active: false,
            current_stage: DetectionStage::Idle,
            workflow_running: false,
            last_update: now_unix_millis() as u64,
        })
    }

    /// The session's status: its activity, and the workflow's stage as
    /// `stage_of` reads it (idle without a workflow).
    pub fn get_alignment_status<G: Fn(&W) -> DetectionStage>(&self, stage_of: G) -> (r: AlignmentStatus)
        requires
            forall|w: &W| call_requires(stage_of, (w,)),
        ensures
            r.is_camera_active == self.is_active,
            r.workflow_running == self.is_active,
            self.workflow is None ==> r.current_stage == DetectionStage::Idle,
            self.workflow matches Some(w) ==> call_ensures(stage_of, (&w,), r.current_stage),
    {
        let current_stage = match &self.workflow {
            Some(w) => stage_of(w),
            None => DetectionStage::Idle,
        };
        AlignmentStatus {
            is_camera_active: self.is_active,
            current_stage,
            workflow_running: self.is_active,
            last_update: now_unix_millis() as u64,
        }
    }

    /// The current frame pair that `fetch` reads from the workflow, while
    /// the session is active; nothing otherwise, and nothing when it fails.
    pub fn get_camera_preview<P: FnOnce(&W) -> Result<CameraPreviewData, String>>(&self, fetch: P)
        -> (r: Option<CameraPreviewData>)
        requires
            forall|w: &W| call_requires(fetch, (w,)),
        ensures
            !self.is_active || self.workflow is None ==> r is None,
            self.is_active && self.workflow is Some ==> exists|outcome: Result<CameraPreviewData, String>|
                #![trigger call_ensures(fetch, (&self.workflow.unwrap(),), outcome)] {
                &&& call_ensures(fetch, (&self.workflow.unwrap(),), outcome)
                &&& (outcome matches Ok(p) ==> r == Some(p))
                &&& (outcome is Err ==> r is None)
            },
    {
        if !self.is_active {
            return None;
        }
        match &self.workflow {
            Some(w) => match fetch(w) {
                Ok(preview) => Some(preview),
                Err(_) => None,
            },
            None => None,
        }
    }

    /// What is shown for the workflow's current result, as `fetch` reads it,
    /// while the session is active; nothing otherwise, and nothing when it fails.
    pub fn get_alignment_deviation<R: FnOnce(&W) -> Result<DetectionResult, String>, F: Fn(F64Bits) -> String>(
        &self,
        fetch: R,
        angle_text: F,
    ) -> (r: Option<AlignmentResultDisplay>)
        requires
            forall|w: &W| call_requires(fetch, (w,)),
            forall|x: F64Bits| call_requires(angle_text, (x,)),
        ensures
            !self.is_active || self.workflow is None ==> r is None,
            self.is_active && self.workflow is Some ==> exists|outcome: Result<DetectionResult, String>|
                #![trigger call_ensures(fetch, (&self.workflow.unwrap(),), outcome)] {
                &&& call_ensures(fetch, (&self.workflow.unwrap(),), outcome)
                &&& (outcome matches Ok(res) ==> (r matches Some(d) && is_display_of(d, res, angle_text)))
                &&& (outcome is Err ==> r is None)
            },
    {
        if !self.is_active {
            return None;
        }
        match &self.workflow {
            Some(w) => match fetch(w) {
                Ok(result) => Some(convert_detection_result_to_display(&result, angle_text)),
                Err(_) => None,
            },
            None => None,
        }
    }

    /// Runs a workflow operation of an active session: refused when the
    /// cameras are off or there is no workflow; an error of the operation
    /// comes back after `failure_prefix`; success gives `done`.
    fn run_on_active<O: FnOnce(&W) -> Result<(), String>>(&self, op: O, failure_prefix: &str, done: &str)
        -> (r: Result<String, String>)
        requires
            forall|w: &W| call_requires(op, (w,)),
        ensures
            !self.is_active ==> (r matches Err(e) && e@ == "相机未启动"@),
            self.is_active && self.workflow is None ==> (r matches Err(e) && e@ == "工作流未初始化"@),
            self.is_active && self.workflow is Some ==> exists|outcome: Result<(), String>|
                #![trigger call_ensures(op, (&self.workflow.unwrap(),), outcome)] {
                &&& call_ensures(op, (&self.workflow.unwrap(),), outcome)
                &&& (outcome matches Err(e) ==> (r matches Err(m) && m@ == prefixed(failure_prefix@, e)))
                &&& (outcome is Ok ==> (r matches Ok(m) && m@ == done@))
            },
    {
        if !self.is_active {
            return Err("相机未启动".to_string());
        }
        match &self.workflow {
            Some(w) => match op(w) {
                Ok(()) => Ok(done.to_string()),
                Err(e) => Err(join2(failure_prefix, e.as_str())),
            },
            None => Err("工作流未初始化".to_string()),
        }
    }

    /// Starts a detection run with `start_detection`, in an active session.
    pub fn trigger_alignment_detection<O: FnOnce(&W) -> Result<(), String>>(&self, start_detection: O)
        -> (r: Result<String, String>)
        requires
            forall|w: &W| call_requires(start_detection, (w,)),
        ensures
            !self.is_active ==> (r matches Err(e) && e@ == "相机未启动"@),
            self.is_active && self.workflow is None ==> (r matches Err(e) && e@ == "工作流未初始化"@),
            self.is_active && self.workflow is Some ==> exists|outcome: Result<(), String>|
                #![trigger call_ensures(start_detection, (&self.workflow.unwrap(),), outcome)] {
                &&& call_ensures(start_detection, (&self.workflow.unwrap(),), outcome)
                &&& (outcome matches Err(e) ==> (r matches Err(m) && m@ == prefixed("启动检测失败: "@, e)))
                &&& (outcome is Ok ==> (r matches Ok(m) && m@ == "检测已启动"@))
            },
    {
        self.run_on_active(start_detection, "启动检测失败: ", "检测已启动")
    }

    /// Returns the workflow to the preview with `reset`, in an active session.
    pub fn reset_to_preview<O: FnOnce(&W) -> Result<(), String>>(&self, reset: O) -> (r: Result<String, String>)
        requires
            forall|w: &W| call_requires(reset, (w,)),
        ensures
            !self.is_active ==> (r matches Err(e) && e@ == "相机未启动"@),
            self.is_active && self.workflow is None ==> (r matches Err(e) && e@ == "工作流未初始化"@),
            self.is_active && self.workflow is Some ==> exists|outcome: Result<(), String>|
                #![trigger call_ensures(reset, (&self.workflow.unwrap(),), outcome)] {
                &&& call_ensures(reset, (&self.workflow.unwrap(),), outcome)
                &&& (outcome matches Err(e) ==> (r matches Err(m) && m@ == prefixed("重置失败: "@, e)))
                &&& (outcome is Ok ==> (r matches Ok(m) && m@ == "已重置到预览模式"@))
            },
    {
        self.run_on_active(reset, "重置失败: ", "已重置到预览模式")
    }

    /// Saves the workflow's debugging images with `save`, whenever there is
    /// a workflow (active or not).
    pub fn save_debug_images<O: FnOnce(&W) -> Result<(), String>>(&self, save: O) -> (r: Result<String, String>)
        requires
            forall|w: &W| call_requires(save, (w,)),
        ensures
            self.workflow is None ==> (r matches Err(e) && e@ == "工作流未启动"@),
            self.workflow is Some ==> exists|outcome: Result<(), String>|
                #![trigger call_ensures(save, (&self.workflow.unwrap(),), outcome)] {
                &&& call_ensures(save, (&self.workflow.unwrap(),), outcome)
                &&& (outcome matches Err(e) ==> (r matches Err(m) && m@ == prefixed("保存调试图像失败: "@, e)))
                &&& (outcome is Ok ==> (r matches Ok(m) && m@ == "调试图像已保存到项目根目录"@))
            },
    {
        match &self.workflow {
            Some(w) => match save(w) {
                Ok(()) => Ok("调试图像已保存到项目根目录".to_string()),
                Err(e) => Err(join2("保存调试图像失败: ", e.as_str())),
            },
            None => Err("工作流未启动".to_string()),
        }
    }

    /// The workflow's performance figures as `stats` reads them, while the
    /// session is active; nothing otherwise.
    pub fn get_alignment_performance<V, O: FnOnce(&W) -> Result<V, String>>(&self, stats: O)
        -> (r: Result<Option<V>, String>)
        requires
            forall|w: &W| call_requires(stats, (w,)),
        ensures
            !self.is_active || self.workflow is None ==> r == Ok::<Option<V>, String>(None),
            self.is_active && self.workflow is Some ==> exists|outcome: Result<V, String>|
                #![trigger call_ensures(stats, (&self.workflow.unwrap(),), outcome)] {
                &&& call_ensures(stats, (&self.workflow.unwrap(),), outcome)
                &&& (outcome matches Err(e) ==> (r matches Err(m) && m@ == prefixed("获取性能统计失败: "@, e)))
                &&& (outcome matches Ok(v) ==> r == Ok::<Option<V>, String>(Some(v)))
            },
    {
        if !self.is_active {
            return Ok(None);
        }
        match &self.workflow {
            Some(w) => match stats(w) {
                Ok(v) => Ok(Some(v)),
                Err(e) => Err(join2("获取性能统计失败: ", e.as_str())),
            },
            None => Ok(None),
        }
    }
}

/// Runs an operation on the created workflow: refused when none was
/// created; an error of the operation comes back after `failure_prefix`.
pub fn with_created_workflow<W, O: FnOnce(&mut W) -> Result<(), String>>(
    slot: &mut Option<W>,
    op: O,
    failure_prefix: &str,
) -> (r: Result<(), String>)
    requires
        forall|w: &mut W| call_requires(op, (w,)),
    ensures
        *old(slot) is None ==> (r matches Err(e) && e@ == "工作流程未创建"@) && *final(slot) == *old(slot),
        *old(slot) matches Some(w) ==> exists|x: &mut W, outcome: Result<(), String>|
            #![trigger call_ensures(op, (x,), outcome)] {
            &&& *x == w
            &&& call_ensures(op, (x,), outcome)
            &&& *final(slot) == Some(*final(x))
            &&& (outcome is Ok ==> r is Ok)
            &&& (outcome matches Err(e) ==> (r matches Err(m) && m@ == prefixed(failure_prefix@, e)))
        },
{
    match slot {
        Some(w) => match op(w) {
            Ok(()) => Ok(()),
            Err(e) => Err(join2(failure_prefix, e.as_str())),
        },
        None => Err("工作流程未创建".to_string()),
    }
}

/// The stage of the created workflow as `stage_of` reads it; idle when none was created.
pub fn current_stage_of<W, G: FnOnce(&W) -> DetectionStage>(slot: &Option<W>, stage_of: G) -> (r: DetectionStage)
    requires
        forall|w: &W| call_requires(stage_of, (w,)),
    ensures
        slot is None ==> r == DetectionStage::Idle,
        slot matches Some(w) ==> call_ensures(stage_of, (&w,), r),
{
    match slot {
        Some(w) => stage_of(w),
        None => DetectionStage::Idle,
    }
}

} // verus!
