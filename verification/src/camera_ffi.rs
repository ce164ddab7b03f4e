//! The camera SDK's vocabulary: camera positions, trigger modes, workflow
//! stages and errors, and the reading of the SDK's status codes.
//!
//! The SDK itself is a C library; its functions are handed to the methods
//! here as closures, and what these methods decide from the codes that the
//! closures return is what their contracts state.

use vstd::prelude::*;
use crate::float_bits::F32Bits;
use crate::text::{hex, hex_string, join2, join3, str_eq};

verus! {

/// Which camera a handle drives; the SDK numbers them 0, 1 and -1.
#[derive(Debug, Clone, Copy, PartialEq, Eq, Structural)]
pub enum CameraPosition {
    CamLeft,
    CamRight,
    Uninitailized,
}

impl CameraPosition {
    /// The SDK's number for the position.
    pub fn code(&self) -> (r: i32)
        ensures
            r == match *self {
                CameraPosition::CamLeft => 0i32,
                CameraPosition::CamRight => 1i32,
                CameraPosition::Uninitailized => -1i32,
            },
    {
        match self {
            CameraPosition::CamLeft => 0,
            CameraPosition::CamRight => 1,
            CameraPosition::Uninitailized => -1,
        }
    }
}

/// How a camera is triggered; the SDK numbers the modes 0, 1 and 2.
#[derive(Debug, Clone, Copy, PartialEq, Eq, Structural)]
pub enum TriggerMode {
    Continuous,
    Software,
    Hardware,
}

impl TriggerMode {
    /// The SDK's number for the mode.
    pub fn code(&self) -> (r: i32)
        ensures
            r == match *self {
                TriggerMode::Continuous => 0i32,
                TriggerMode::Software => 1i32,
                TriggerMode::Hardware => 2i32,
            },
    {
        match self {
            TriggerMode::Continuous => 0,
            TriggerMode::Software => 1,
            TriggerMode::Hardware => 2,
        }
    }
}

/// Stage of the acquisition workflow.
#[derive(Debug, Clone, Copy, PartialEq, Eq, Structural)]
pub enum Stage {
    /// Continuous live preview, no alignment check.
    Preview,
    /// Single frames on request, no alignment check.
    Detection,
    /// Continuous acquisition with the alignment check.
    Alignment,
}

/// The identifier of a stage.
pub open spec fn stage_name(stage: Stage) -> Seq<char> {
    match stage {
        Stage::Preview => "preview"@,
        Stage::Detection => "detection"@,
        Stage::Alignment => "alignment"@,
    }
}

/// The stage that an identifier names, if any.
pub open spec fn parse_stage(s: Seq<char>) -> Option<Stage> {
    if s == "preview"@ {
        Some(Stage::Preview)
    } else if s == "detection"@ {
        Some(Stage::Detection)
    } else if s == "alignment"@ {
        Some(Stage::Alignment)
    } else {
        None
    }
}

/// Errors of the acquisition workflow.
#[derive(Debug)]
pub enum WorkflowError {
    CameraConfigError { stage: String, error_code: i32 },
    InvalidStage(String),
    SwitchTimeout { from_stage: String, to_stage: String },
    SystemError(String),
}

impl Clone for WorkflowError {
    fn clone(&self) -> (r: Self)
        ensures
            r == *self,
    {
        match self {
            WorkflowError::CameraConfigError { stage, error_code } =>
                WorkflowError::CameraConfigError { stage: stage.clone(), error_code: *error_code },
            WorkflowError::InvalidStage(stage) => WorkflowError::InvalidStage(stage.clone()),
            WorkflowError::SwitchTimeout { from_stage, to_stage } =>
                WorkflowError::SwitchTimeout { from_stage: from_stage.clone(), to_stage: to_stage.clone() },
            WorkflowError::SystemError(msg) => WorkflowError::SystemError(msg.clone()),
        }
    }
}

/// The text of a workflow error.
pub open spec fn workflow_error_text(e: WorkflowError) -> Seq<char> {
    match e {
        WorkflowError::CameraConfigError { stage, error_code } =>
            "Camera configuration failed for stage '"@ + stage@ + "': 0x"@ + hex((error_code as u32) as nat),
        WorkflowError::InvalidStage(stage) => "Invalid stage name: '"@ + stage@ + "'"@,
        WorkflowError::SwitchTimeout { from_stage, to_stage } =>
            "Stage switch timeout: '"@ + from_stage@ + "' -> '"@ + to_stage@ + "'"@,
        WorkflowError::SystemError(msg) => "System error: "@ + msg@,
    }
}

/// The type-cast of a code to its 32-bit two's-complement pattern.
fn code_bits(code: i32) -> (r: u32)
    ensures
        r == code as u32,
{
    code as u32
}

impl WorkflowError {
    /// The text of the error, as it is shown.
    pub fn message(&self) -> (r: String)
        ensures
            r@ == workflow_error_text(*self),
    {
        match self {
            WorkflowError::CameraConfigError { stage, error_code } => {
                let mut s = join3("Camera configuration failed for stage '", stage.as_str(), "': 0x");
                let h = hex_string(code_bits(*error_code));
                s.append(h.as_str());
                s
            },
            WorkflowError::InvalidStage(stage) => join3("Invalid stage name: '", stage.as_str(), "'"),
            WorkflowError::SwitchTimeout { from_stage, to_stage } => {
                let mut s = join3("Stage switch timeout: '", from_stage.as_str(), "' -> '");
                s.append(to_stage.as_str());
                s.append("'");
                s
            },
            WorkflowError::SystemError(msg) => join2("System error: ", msg.as_str()),
        }
    }
}

impl Stage {
    /// The stage's identifier: `preview`, `detection` or `alignment`.
    pub fn as_c_str(&self) -> (r: &'static str)
        ensures
            r@ == stage_name(*self),
    {
        match self {
            Stage::Preview => "preview",
            Stage::Detection => "detection",
            Stage::Alignment => "alignment",
        }
    }

    /// The stage with the given identifier; any other text is refused as an
    /// invalid stage that carries the text.
    pub fn from_str(s: &str) -> (r: Result<Stage, WorkflowError>)
        ensures
            match parse_stage(s@) {
                Some(stage) => r == Ok::<Stage, WorkflowError>(stage),
                None => r matches Err(WorkflowError::InvalidStage(t)) && t@ == s@,
            },
    {
        if str_eq(s, "preview") {
            Ok(Stage::Preview)
        } else if str_eq(s, "detection") {
            Ok(Stage::Detection)
        } else if str_eq(s, "alignment") {
            Ok(Stage::Alignment)
        } else {
            Err(WorkflowError::InvalidStage(s.to_string()))
        }
    }
}

/// Parsing the identifier of a stage gives the stage back, and no two
/// stages share an identifier.
pub proof fn lemma_stage_name_round_trip(stage: Stage, other: Stage)
    ensures
        parse_stage(stage_name(stage)) == Some(stage),
        stage_name(stage) == stage_name(other) ==> stage == other,
{
    reveal_strlit("preview");
    reveal_strlit("detection");
    reveal_strlit("alignment");
    assert("preview"@ != "detection"@ && "preview"@ != "alignment"@ && "detection"@ != "alignment"@) by {
        assert("preview"@[0] != "detection"@[0]);
        assert("preview"@[0] != "alignment"@[0]);
        assert("detection"@[0] != "alignment"@[0]);
    }
}

/// Reading an SDK status code: 0 is success, anything else is the error.
pub open spec fn status_of(code: i32) -> Result<(), i32> {
    if code == 0 {
        Ok(())
    } else {
        Err(code)
    }
}

/// Access to the initialised camera SDK. Releasing the cameras makes the
/// handle unusable: it is not started, read from or asked for status again,
/// and it cannot be copied, so no other handle escapes the release.
#[derive(Debug)]
pub struct CameraHandle {
    released: bool,
}

impl CameraHandle {
    /// The cameras have been released through this handle.
    pub closed spec fn spec_released(self) -> bool {
        self.released
    }

    /// Whether the cameras have been released through this handle.
    pub fn is_released(&self) -> (r: bool)
        ensures
            r == self.spec_released(),
    {
        self.released
    }

    /// Initialises the cameras with `camera_init`; a nonzero status is the
    /// error, else a handle that has not been released.
    pub fn camera_init_ffi<F: FnOnce() -> i32>(camera_init: F) -> (r: Result<CameraHandle, i32>)
        requires
            call_requires(camera_init, ()),
        ensures
            exists|code: i32| {
                &&& call_ensures(camera_init, (), code)
                &&& (code == 0 ==> (r matches Ok(h) && !h.spec_released()))
                &&& (code != 0 ==> r == Err::<CameraHandle, i32>(code))
            },
    {
        let code = camera_init();
        if code == 0 {
            Ok(CameraHandle { released: false })
        } else {
            Err(code)
        }
    }

    /// Releases the cameras with `camera_release`; a nonzero status is the
    /// error. Either way the handle is released afterwards.
    pub fn camera_release_ffi<F: FnOnce() -> i32>(&mut self, camera_release: F) -> (r: Result<(), i32>)
        requires
            call_requires(camera_release, ()),
        ensures
            exists|code: i32| #![trigger call_ensures(camera_release, (), code)] call_ensures(camera_release, (), code) && r == status_of(code),
            final(self).spec_released(),
    {
        let code = camera_release();
        self.released = true;
        if code == 0 {
            Ok(())
        } else {
            Err(code)
        }
    }

    /// Starts acquisition with `camera_start`; a nonzero status is the error.
    pub fn camera_start_ffi<F: FnOnce() -> i32>(&self, camera_start: F) -> (r: Result<(), i32>)
        requires
            !self.spec_released(),
            call_requires(camera_start, ()),
        ensures
            exists|code: i32| #![trigger call_ensures(camera_start, (), code)] call_ensures(camera_start, (), code) && r == status_of(code),
    {
        let code = camera_start();
        if code == 0 {
            Ok(())
        } else {
            Err(code)
        }
    }

    /// Fetches a frame pair with `camera_get_frame`; a nonzero status is the error.
    pub fn camera_get_frame_ffi<F: FnOnce() -> i32>(&self, camera_get_frame: F) -> (r: Result<(), i32>)
        requires
            !self.spec_released(),
            call_requires(camera_get_frame, ()),
        ensures
            exists|code: i32| #![trigger call_ensures(camera_get_frame, (), code)] call_ensures(camera_get_frame, (), code) && r == status_of(code),
    {
        let code = camera_get_frame();
        if code == 0 {
            Ok(())
        } else {
            Err(code)
        }
    }

    /// The frame-buffer size that `camera_get_frame_buf_size` reports; a size
    /// of 0 is the error 0.
    pub fn camera_get_frame_buf_size_ffi<F: FnOnce() -> u32>(camera_get_frame_buf_size: F) -> (r: Result<usize, i32>)
        requires
            call_requires(camera_get_frame_buf_size, ()),
        ensures
            exists|size: u32| {
                &&& call_ensures(camera_get_frame_buf_size, (), size)
                &&& (size > 0 ==> r == Ok::<usize, i32>(size as usize))
                &&& (size == 0 ==> r == Err::<usize, i32>(0))
            },
    {
        let size = camera_get_frame_buf_size();
        if size > 0 {
            Ok(size as usize)
        } else {
            Err(0)
        }
    }
}

/// What the SDK's status call gives back for one camera: its status, the
/// measured frame rate and the number of dropped frames.
pub struct CameraStatusReading {
    pub status: i32,
    pub fps_actual: F32Bits,
    pub frames_dropped: u32,
}

impl CameraHandle {
    /// The measured frame rate and dropped-frame count of camera `cam_index`,
    /// as `camera_get_status` reports them; a nonzero status is the error.
    pub fn camera_get_status_ffi<F: FnOnce(u32) -> CameraStatusReading>(&self, cam_index: u32, camera_get_status: F)
        -> (r: Result<(F32Bits, u32), i32>)
        requires
            !self.spec_released(),
            call_requires(camera_get_status, (cam_index,)),
        ensures
            exists|reading: CameraStatusReading| #![trigger call_ensures(camera_get_status, (cam_index,), reading)] {
                &&& call_ensures(camera_get_status, (cam_index,), reading)
                &&& reading.status == 0 ==> r == Ok::<(F32Bits, u32), i32>((reading.fps_actual, reading.frames_dropped))
                &&& reading.status != 0 ==> r == Err::<(F32Bits, u32), i32>(reading.status)
            },
    {
        let reading = camera_get_status(cam_index);
        if reading.status == 0 {
            Ok((reading.fps_actual, reading.frames_dropped))
        } else {
            Err(reading.status)
        }
    }
}

/// Size in bytes of one frame buffer.
pub const FRAME_BUFFER_SIZE: usize = 5_013_504;

/// Size in bytes of the buffers of both cameras.
pub const DUAL_CAMERA_BUFFER_SIZE: usize = 10_027_008;

/// Number of frames a buffer pool should hold.
pub const RECOMMENDED_BUFFER_POOL_SIZE: usize = 4;

} // verus!
