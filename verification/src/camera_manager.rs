//! The camera manager: starts continuous acquisition, hands out frame
//! pairs, saves them, and stops.
//!
//! The camera SDK's functions are handed in as closures; the manager decides
//! when each is called and what its status code means.

use vstd::prelude::*;
use crate::camera_ffi::{status_of, CameraHandle};
use crate::clock::now_unix_seconds;
use crate::text::{decimal, hex, hex_string, join2, zero_padded, zero_padded_decimal, decimal_string};

verus! {

/// Errors of the camera manager.
#[derive(Debug)]
pub enum CameraError {
    InitFailed(i32),
    StartFailed(i32),
    CaptureFailed(i32),
    StopFailed(i32),
    NotStarted,
    AlreadyStarted,
    SaveFailed(String),
}

impl Clone for CameraError {
    fn clone(&self) -> (r: Self)
        ensures
            r == *self,
    {
        match self {
            CameraError::InitFailed(c) => CameraError::InitFailed(*c),
            CameraError::StartFailed(c) => CameraError::StartFailed(*c),
            CameraError::CaptureFailed(c) => CameraError::CaptureFailed(*c),
            CameraError::StopFailed(c) => CameraError::StopFailed(*c),
            CameraError::NotStarted => CameraError::NotStarted,
            CameraError::AlreadyStarted => CameraError::AlreadyStarted,
            CameraError::SaveFailed(m) => CameraError::SaveFailed(m.clone()),
        }
    }
}

/// The text of a camera error; codes are shown as 32-bit hexadecimal.
pub open spec fn camera_error_text(e: CameraError) -> Seq<char> {
    match e {
        CameraError::InitFailed(c) => "Camera initialization failed: 0x"@ + hex((c as u32) as nat),
        CameraError::StartFailed(c) => "Camera start failed: 0x"@ + hex((c as u32) as nat),
        CameraError::CaptureFailed(c) => "Frame capture failed: 0x"@ + hex((c as u32) as nat),
        CameraError::StopFailed(c) => "Camera stop failed: 0x"@ + hex((c as u32) as nat),
        CameraError::NotStarted => "Camera not started"@,
        CameraError::AlreadyStarted => "Camera already started"@,
        CameraError::SaveFailed(m) => "File save failed: "@ + m@,
    }
}

fn code_hex(prefix: &str, code: i32) -> (r: String)
    ensures
        r@ == prefix@ + hex((code as u32) as nat),
{
    let h = hex_string(code as u32);
    join2(prefix, h.as_str())
}

impl CameraError {
    /// The text of the error, as it is shown.
    pub fn message(&self) -> (r: String)
        ensures
            r@ == camera_error_text(*self),
    {
        match self {
            CameraError::InitFailed(c) => code_hex("Camera initialization failed: 0x", *c),
            CameraError::StartFailed(c) => code_hex("Camera start failed: 0x", *c),
            CameraError::CaptureFailed(c) => code_hex("Frame capture failed: 0x", *c),
            CameraError::StopFailed(c) => code_hex("Camera stop failed: 0x", *c),
            CameraError::NotStarted => "Camera not started".to_string(),
            CameraError::AlreadyStarted => "Camera already started".to_string(),
            CameraError::SaveFailed(m) => join2("File save failed: ", m.as_str()),
        }
    }
}

/// Stage of the acquisition workflow, as the display layer names it.
#[derive(Debug, Clone, Copy, PartialEq, Eq, Structural)]
pub enum WorkflowStage {
    Preview,
    Detection,
    Alignment,
}

/// What the SDK's frame call gives back: its status, the two buffers it
/// filled, and how many bytes of each it filled.
pub struct FrameGrab {
    pub status: i32,
    pub left: Vec<u8>,
    pub right: Vec<u8>,
    pub left_size: u32,
    pub right_size: u32,
}

/// Where a saved frame pair goes.
pub struct FrameFiles {
    /// Directory of the saved frames.
    pub dir: String,
    pub left_path: String,
    pub right_path: String,
}

/// The first `size` bytes of a buffer (all of it, if it is shorter).
pub open spec fn filled_part(buffer: Seq<u8>, size: u32) -> Seq<u8> {
    if size <= buffer.len() {
        buffer.subrange(0, size as int)
    } else {
        buffer
    }
}

/// The file of one side of a saved frame pair:
/// `captures/frame_<seconds>_<number, six digits>_<side>.raw`.
pub open spec fn frame_path(timestamp: u64, frame_number: u32, side: Seq<char>) -> Seq<char> {
    "captures/frame_"@ + decimal(timestamp as nat) + "_"@ + zero_padded(decimal(frame_number as nat), 6)
        + "_"@ + side + ".raw"@
}

/// The files of a saved frame pair.
pub fn frame_files(timestamp: u64, frame_number: u32) -> (r: FrameFiles)
    ensures
        r.dir@ == "captures"@,
        r.left_path@ == frame_path(timestamp, frame_number, "L"@),
        r.right_path@ == frame_path(timestamp, frame_number, "R"@),
{
    let ts = decimal_string(timestamp);
    let n = zero_padded_decimal(frame_number as u64, 6);
    let mut stem = join2("captures/frame_", ts.as_str());
    stem.append("_");
    stem.append(n.as_str());
    stem.append("_");
    let mut left_path = stem.clone();
    left_path.append("L");
    left_path.append(".raw");
    let mut right_path = stem;
    right_path.append("R");
    right_path.append(".raw");
    FrameFiles { dir: "captures".to_string(), left_path, right_path }
}

/// The camera manager: continuous acquisition at the hardware frame rate.
pub struct SimpleCameraManager {
    cam_handle: CameraHandle,
    running: bool,
    frame_buf_size: u32,
    frame_counter: u32,
    /// Successful starts so far.
    starts: Ghost<nat>,
    /// Camera releases so far, by `stop` or on drop.
    releases: Ghost<nat>,
}

impl SimpleCameraManager {
    /// The manager is consistent: the frame buffers are never empty; a
    /// running manager has started once more than it has released its
    /// cameras and has not released them, a stopped one has released them as
    /// often as it started; the cameras count as released once a release
    /// has happened.
    pub closed spec fn wf(self) -> bool {
        &&& self.frame_buf_size > 0
        &&& self.running ==> !self.cam_handle.spec_released() && self.starts@ == self.releases@ + 1
        &&& !self.running ==> self.starts@ == self.releases@
        &&& self.cam_handle.spec_released() <==> self.releases@ > 0
        &&& self.starts@ <= 1
    }

    /// Successful starts so far.
    pub closed spec fn spec_starts(self) -> nat {
        self.starts@
    }

    /// Camera releases so far.
    pub closed spec fn spec_releases(self) -> nat {
        self.releases@
    }

    /// Acquisition is running.
    pub closed spec fn spec_running(self) -> bool {
        self.running
    }

    /// The cameras have been released, by `stop` or on drop; acquisition
    /// cannot be started again.
    pub closed spec fn spec_released(self) -> bool {
        self.cam_handle.spec_released()
    }

    /// Size in bytes of one frame buffer.
    pub closed spec fn spec_frame_buf_size(self) -> u32 {
        self.frame_buf_size
    }

    /// Number of frame pairs saved so far.
    pub closed spec fn spec_frame_counter(self) -> u32 {
        self.frame_counter
    }

    /// Initialises the cameras with `camera_init`, then asks
    /// `camera_get_frame_buf_size` for the buffer size. A nonzero status of
    /// the first, or a size of 0 from the second, fails the set-up; the
    /// second is not asked when the first fails. A new manager is stopped.
    pub fn new<I: FnOnce() -> i32, S: FnOnce() -> u32>(camera_init: I, camera_get_frame_buf_size: S)
        -> (r: Result<Self, CameraError>)
        requires
            call_requires(camera_init, ()),
            call_requires(camera_get_frame_buf_size, ()),
        ensures
            exists|code: i32| #![trigger call_ensures(camera_init, (), code)] {
                &&& call_ensures(camera_init, (), code)
                &&& code != 0 ==> (r matches Err(CameraError::InitFailed(c)) && c == code)
                &&& code == 0 ==> exists|size: u32| #![trigger call_ensures(camera_get_frame_buf_size, (), size)] {
                    &&& call_ensures(camera_get_frame_buf_size, (), size)
                    &&& size == 0 ==> (r matches Err(CameraError::InitFailed(c)) && c == 0)
                    &&& size > 0 ==> (r matches Ok(m) && m.wf() && !m.spec_running() && !m.spec_released()
                        && m.spec_frame_buf_size() == size && m.spec_frame_counter() == 0
                        && m.spec_starts() == 0 && m.spec_releases() == 0)
                }
            },
    {
        let cam_handle = match CameraHandle::camera_init_ffi(camera_init) {
            Ok(h) => h,
            Err(e) => return Err(CameraError::InitFailed(e)),
        };
        let frame_buf_size = match CameraHandle::camera_get_frame_buf_size_ffi(camera_get_frame_buf_size) {
            Ok(size) => size as u32,
            Err(e) => return Err(CameraError::InitFailed(e)),
        };
        Ok(SimpleCameraManager {
            cam_handle,
            running: false,
            frame_buf_size,
            frame_counter: 0,
            starts: Ghost(0),
            releases: Ghost(0),
        })
    }

    /// Starts continuous acquisition with `camera_start`. Refused while
    /// running (without calling it); a nonzero status is the start error.
    /// The cameras must not have been released.
    pub fn start<F: FnOnce() -> i32>(&mut self, camera_start: F) -> (r: Result<(), CameraError>)
        requires
            old(self).wf(),
            !old(self).spec_released(),
            call_requires(camera_start, ()),
        ensures
            final(self).wf(),
            old(self).spec_running() ==> (r matches Err(CameraError::AlreadyStarted) && *final(self) == *old(self)),
            !old(self).spec_running() ==> exists|code: i32| #![trigger call_ensures(camera_start, (), code)] {
                &&& call_ensures(camera_start, (), code)
                &&& code == 0 ==> r is Ok && final(self).spec_running()
                    && final(self).spec_starts() == old(self).spec_starts() + 1
                &&& code != 0 ==> (r matches Err(CameraError::StartFailed(c)) && c == code && !final(self).spec_running())
                    && final(self).spec_starts() == old(self).spec_starts()
            },
            final(self).spec_releases() == old(self).spec_releases(),
            final(self).spec_frame_buf_size() == old(self).spec_frame_buf_size(),
            final(self).spec_frame_counter() == old(self).spec_frame_counter(),
            final(self).spec_released() == old(self).spec_released(),
    {
        if self.running {
            return Err(CameraError::AlreadyStarted);
        }
        match self.cam_handle.camera_start_ffi(camera_start) {
            Ok(()) => {},
            Err(e) => return Err(CameraError::StartFailed(e)),
        }
        self.running = true;
        proof {
            self.starts@ = self.starts@ + 1;
        }
        Ok(())
    }

    /// Fetches the current frame pair: two zeroed buffers of the frame size
    /// are handed to `camera_get_frame`, which fills them; each comes back cut
    /// to the size filled. Refused while stopped (without calling it); a
    /// nonzero status is the capture error.
    pub fn get_current_frame<F: FnOnce(Vec<u8>, Vec<u8>) -> FrameGrab>(&self, camera_get_frame: F)
        -> (r: Result<(Vec<u8>, Vec<u8>), CameraError>)
        requires
            forall|a: Vec<u8>, b: Vec<u8>| call_requires(camera_get_frame, (a, b)),
        ensures
            !self.spec_running() ==> r matches Err(CameraError::NotStarted),
            self.spec_running() ==> exists|a: Vec<u8>, b: Vec<u8>, grab: FrameGrab|
                #![trigger call_ensures(camera_get_frame, (a, b), grab)] {
                &&& a@.len() == self.spec_frame_buf_size()
                &&& b@.len() == self.spec_frame_buf_size()
                &&& call_ensures(camera_get_frame, (a, b), grab)
                &&& grab.status != 0 ==> (r matches Err(CameraError::CaptureFailed(c)) && c == grab.status)
                &&& grab.status == 0 ==> (r matches Ok(frames)
                    && frames.0@ == filled_part(grab.left@, grab.left_size)
                    && frames.1@ == filled_part(grab.right@, grab.right_size))
            },
    {
        if !self.running {
            return Err(CameraError::NotStarted);
        }
        let size = self.frame_buf_size as usize;
        let left_buffer = vec![0u8; size];
        let right_buffer = vec![0u8; size];
        let ghost a = left_buffer;
        let ghost b = right_buffer;
        let grab = camera_get_frame(left_buffer, right_buffer);
        if grab.status != 0 {
            return Err(CameraError::CaptureFailed(grab.status));
        }
        let FrameGrab { status, left, right, left_size, right_size } = grab;
        let mut left = left;
        let mut right = right;
        left.truncate(left_size as usize);
        right.truncate(right_size as usize);
        Ok((left, right))
    }

    /// Saves a frame pair: the save counter goes up by one (whether or not
    /// the save succeeds), and `persist` writes the pair to the files named
    /// by the current time and the new count; its error is the save error.
    pub fn save_frame_to_disk<P: FnOnce(&FrameFiles, &[u8], &[u8]) -> Result<(), String>>(
        &mut self,
        left_data: &[u8],
        right_data: &[u8],
        persist: P,
    ) -> (r: Result<(), CameraError>)
        requires
            old(self).spec_frame_counter() < u32::MAX,
            forall|f: &FrameFiles, l: &[u8], rr: &[u8]| call_requires(persist, (f, l, rr)),
        ensures
            final(self).spec_frame_counter() == old(self).spec_frame_counter() + 1,
            final(self).spec_running() == old(self).spec_running(),
            final(self).spec_released() == old(self).spec_released(),
            final(self).spec_starts() == old(self).spec_starts(),
            final(self).spec_releases() == old(self).spec_releases(),
            old(self).wf() ==> final(self).wf(),
            final(self).spec_frame_buf_size() == old(self).spec_frame_buf_size(),
            exists|files: FrameFiles, timestamp: u64, outcome: Result<(), String>|
                #![trigger call_ensures(persist, (&files, left_data, right_data), outcome), frame_path(timestamp, final(self).spec_frame_counter(), "L"@)] {
                &&& files.dir@ == "captures"@
                &&& files.left_path@ == frame_path(timestamp, final(self).spec_frame_counter(), "L"@)
                &&& files.right_path@ == frame_path(timestamp, final(self).spec_frame_counter(), "R"@)
                &&& call_ensures(persist, (&files, left_data, right_data), outcome)
                &&& outcome is Ok ==> r is Ok
                &&& (outcome matches Err(m) ==> (r matches Err(CameraError::SaveFailed(e)) && e == m))
            },
    {
        self.frame_counter = self.frame_counter + 1;
        let timestamp = now_unix_seconds() as u64;
        let files = frame_files(timestamp, self.frame_counter);
        let outcome = persist(&files, left_data, right_data);
        match outcome {
            Ok(()) => Ok(()),
            Err(m) => Err(CameraError::SaveFailed(m)),
        }
    }

    /// Fetches the current frame pair and, if asked to, saves it as
    /// `save_frame_to_disk` does. Superseded by calling `get_current_frame`
    /// and saving separately.
    pub fn capture_and_process<F, P>(&mut self, save_current_frame: bool, camera_get_frame: F, persist: P)
        -> (r: Result<(Vec<u8>, Vec<u8>), CameraError>)
        where
            F: FnOnce(Vec<u8>, Vec<u8>) -> FrameGrab,
            P: FnOnce(&FrameFiles, &[u8], &[u8]) -> Result<(), String>,
        requires
            old(self).spec_frame_counter() < u32::MAX,
            forall|a: Vec<u8>, b: Vec<u8>| call_requires(camera_get_frame, (a, b)),
            forall|f: &FrameFiles, l: &[u8], rr: &[u8]| call_requires(persist, (f, l, rr)),
        ensures
            !old(self).spec_running() ==> (r matches Err(CameraError::NotStarted) && *final(self) == *old(self)),
            old(self).spec_running() ==> exists|a: Vec<u8>, b: Vec<u8>, grab: FrameGrab|
                #![trigger call_ensures(camera_get_frame, (a, b), grab)] {
                &&& a@.len() == old(self).spec_frame_buf_size()
                &&& b@.len() == old(self).spec_frame_buf_size()
                &&& call_ensures(camera_get_frame, (a, b), grab)
                &&& grab.status != 0 ==> (r matches Err(CameraError::CaptureFailed(c)) && c == grab.status)
                    && *final(self) == *old(self)
                &&& grab.status == 0 && !save_current_frame ==> (r matches Ok(frames)
                    && frames.0@ == filled_part(grab.left@, grab.left_size)
                    && frames.1@ == filled_part(grab.right@, grab.right_size))
                    && *final(self) == *old(self)
                &&& grab.status == 0 && save_current_frame ==> {
                    &&& final(self).spec_frame_counter() == old(self).spec_frame_counter() + 1
                    &&& exists|files: FrameFiles, timestamp: u64, l: &[u8], rr: &[u8], outcome: Result<(), String>|
                        #![trigger call_ensures(persist, (&files, l, rr), outcome), frame_path(timestamp, final(self).spec_frame_counter(), "L"@)] {
                        &&& files.dir@ == "captures"@
                        &&& files.left_path@ == frame_path(timestamp, final(self).spec_frame_counter(), "L"@)
                        &&& files.right_path@ == frame_path(timestamp, final(self).spec_frame_counter(), "R"@)
                        &&& l@ == filled_part(grab.left@, grab.left_size)
                        &&& rr@ == filled_part(grab.right@, grab.right_size)
                        &&& call_ensures(persist, (&files, l, rr), outcome)
                        &&& (outcome is Ok ==> (r matches Ok(frames) && frames.0@ == l@ && frames.1@ == rr@))
                        &&& (outcome matches Err(m) ==> (r matches Err(CameraError::SaveFailed(e)) && e == m))
                    }
                }
            },
            final(self).spec_running() == old(self).spec_running(),
            final(self).spec_released() == old(self).spec_released(),
            final(self).spec_starts() == old(self).spec_starts(),
            final(self).spec_releases() == old(self).spec_releases(),
            old(self).wf() ==> final(self).wf(),
            final(self).spec_frame_buf_size() == old(self).spec_frame_buf_size(),
    {
        let (left_data, right_data) = self.get_current_frame(camera_get_frame)?;
        if save_current_frame {
            self.save_frame_to_disk(left_data.as_slice(), right_data.as_slice(), persist)?;
        }
        Ok((left_data, right_data))
    }

    /// Stops acquisition and releases the cameras with `camera_release`.
    /// Nothing is done when already stopped; otherwise the manager is
    /// stopped even where the release reports an error.
    pub fn stop<F: FnOnce() -> i32>(&mut self, camera_release: F) -> (r: Result<(), CameraError>)
        requires
            old(self).wf(),
            call_requires(camera_release, ()),
        ensures
            final(self).wf(),
            old(self).spec_running() ==> final(self).spec_releases() == old(self).spec_releases() + 1,
            final(self).spec_starts() == old(self).spec_starts(),
            !old(self).spec_running() ==> r is Ok && *final(self) == *old(self),
            old(self).spec_running() ==> exists|code: i32| #![trigger call_ensures(camera_release, (), code)] {
                &&& call_ensures(camera_release, (), code)
                &&& code == 0 ==> r is Ok
                &&& code != 0 ==> (r matches Err(CameraError::StopFailed(c)) && c == code)
            },
            !final(self).spec_running(),
            final(self).spec_frame_buf_size() == old(self).spec_frame_buf_size(),
            final(self).spec_frame_counter() == old(self).spec_frame_counter(),
            old(self).spec_running() ==> final(self).spec_released(),
    {
        if !self.running {
            return Ok(());
        }
        self.running = false;
        proof {
            self.releases@ = self.releases@ + 1;
        }
        match self.cam_handle.camera_release_ffi(camera_release) {
            Ok(()) => Ok(()),
            Err(e) => Err(CameraError::StopFailed(e)),
        }
    }

    /// Releases the cameras of a manager that is still running when it is
    /// dropped: the manager is marked stopped and `camera_release` is called;
    /// its status comes back. A stopped manager is left as it is, and nothing
    /// is called.
    pub fn release_if_running<F: FnOnce() -> i32>(&mut self, camera_release: F) -> (r: Option<Result<(), i32>>)
        requires
            old(self).wf(),
            call_requires(camera_release, ()),
        ensures
            final(self).wf(),
            old(self).spec_running() ==> final(self).spec_releases() == old(self).spec_releases() + 1,
            final(self).spec_starts() == old(self).spec_starts(),
            !old(self).spec_running() ==> r is None && *final(self) == *old(self),
            old(self).spec_running() ==> exists|code: i32| #![trigger call_ensures(camera_release, (), code)] {
                &&& call_ensures(camera_release, (), code)
                &&& r == Some(status_of(code))
            },
            !final(self).spec_running(),
            final(self).spec_frame_buf_size() == old(self).spec_frame_buf_size(),
            final(self).spec_frame_counter() == old(self).spec_frame_counter(),
            old(self).spec_running() ==> final(self).spec_released(),
    {
        if !self.running {
            return None;
        }
        self.running = false;
        proof {
            self.releases@ = self.releases@ + 1;
        }
        Some(self.cam_handle.camera_release_ffi(camera_release))
    }

    /// What holds of a manager after any sequence of calls from `new`, since
    /// each call keeps it consistent: it runs exactly when it has started once
    /// more than it has released its cameras; it starts successfully at most
    /// once, and once stopped it has released its cameras exactly as often as
    /// it started, through `stop` or on drop; a running manager's cameras are
    /// not released; the frame buffers are never empty.
    pub proof fn lemma_acquisition_accounting(self)
        requires
            self.wf(),
        ensures
            self.spec_running() <==> self.spec_starts() == self.spec_releases() + 1,
            !self.spec_running() ==> self.spec_starts() == self.spec_releases(),
            self.spec_starts() <= 1,
            self.spec_released() <==> self.spec_releases() > 0,
            self.spec_running() ==> !self.spec_released(),
            self.spec_frame_buf_size() > 0,
    {
    }

    /// Whether acquisition is running.
    pub fn is_running(&self) -> (r: bool)
        ensures
            r == self.spec_running(),
    {
        self.running
    }

    /// Number of frame pairs saved so far; saving needs it below `u32::MAX`.
    pub fn saved_frame_count(&self) -> (r: u32)
        ensures
            r == self.spec_frame_counter(),
    {
        self.frame_counter
    }

    /// Whether the cameras have been released; a released manager is not started again.
    pub fn is_released(&self) -> (r: bool)
        ensures
            r == self.spec_released(),
    {
        self.cam_handle.is_released()
    }

    /// Size in bytes of one frame buffer; never 0.
    pub fn get_frame_buffer_size(&self) -> (r: u32)
        ensures
            r == self.spec_frame_buf_size(),
            self.wf() ==> r > 0,
    {
        self.frame_buf_size
    }
}

} // verus!

verus! {

/// The camera manager of the earlier interface, kept for the callers that
/// still hold one: it owns the application handle and answers every request
/// with a fixed result. Acquisition goes through `SimpleCameraManager`.
pub struct CameraManager<H> {
    app_handle: H,
}

/// A zeroed placeholder frame of 100 bytes.
pub open spec fn placeholder_frame(v: Seq<u8>) -> bool {
    v.len() == 100 && forall|i: int| 0 <= i < 100 ==> v[i] == 0u8
}

impl<H> CameraManager<H> {
    /// The application handle that the manager holds.
    pub closed spec fn spec_app_handle(self) -> H {
        self.app_handle
    }

    /// A manager holding `app_handle`; this never fails.
    pub fn new(app_handle: H) -> (r: Result<Self, i32>)
        ensures
            r matches Ok(m) && m.spec_app_handle() == app_handle,
    {
        Ok(CameraManager { app_handle })
    }

    /// Accepted; nothing is started.
    pub fn start_preview(&self) -> (r: Result<(), i32>)
        ensures
            r is Ok,
    {
        Ok(())
    }

    /// Accepted; nothing is stopped.
    pub fn stop_preview(&self) -> (r: Result<(), i32>)
        ensures
            r is Ok,
    {
        Ok(())
    }

    /// The pair of placeholder names `fake_left` and `fake_right`.
    pub fn capture_frame(&self) -> (r: Result<(String, String), i32>)
        ensures
            r matches Ok(p) && p.0@ == "fake_left"@ && p.1@ == "fake_right"@,
    {
        Ok(("fake_left".to_string(), "fake_right".to_string()))
    }

    /// A pair of zeroed placeholder frames.
    pub fn capture_single_frame(&self) -> (r: Result<(Vec<u8>, Vec<u8>), String>)
        ensures
            r matches Ok(p) && placeholder_frame(p.0@) && placeholder_frame(p.1@),
    {
        Ok((vec![0u8; 100], vec![0u8; 100]))
    }

    /// One pair of zeroed placeholder frames, whatever the count asked for.
    pub fn capture_raw_images(&self, _count: usize) -> (r: Result<Vec<(Vec<u8>, Vec<u8>)>, String>)
        ensures
            r matches Ok(v) && v@.len() == 1 && placeholder_frame(v@[0].0@) && placeholder_frame(v@[0].1@),
    {
        let mut images: Vec<(Vec<u8>, Vec<u8>)> = Vec::new();
        images.push((vec![0u8; 100], vec![0u8; 100]));
        Ok(images)
    }

    /// Accepted for every stage; the manager is unchanged.
    pub fn configure_for_stage(&mut self, _stage: WorkflowStage) -> (r: Result<(), String>)
        ensures
            r is Ok,
            *final(self) == *old(self),
    {
        Ok(())
    }
}

} // verus!
