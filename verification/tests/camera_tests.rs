use merging_image::camera_ffi::{CameraHandle, CameraPosition, Stage, TriggerMode, WorkflowError};
use merging_image::camera_manager::{frame_files, CameraError, FrameFiles, FrameGrab, SimpleCameraManager};

#[test]
fn stage_names() {
    assert_eq!(Stage::Preview.as_c_str(), "preview");
    assert_eq!(Stage::Detection.as_c_str(), "detection");
    assert_eq!(Stage::Alignment.as_c_str(), "alignment");
    assert_eq!(Stage::from_str("detection").unwrap(), Stage::Detection);
    assert_eq!(Stage::from_str("alignment").unwrap(), Stage::Alignment);
    match Stage::from_str("Preview") {
        Err(WorkflowError::InvalidStage(s)) => assert_eq!(s, "Preview"),
        _ => panic!("expected an invalid stage"),
    }
}

#[test]
fn sdk_codes() {
    assert_eq!(CameraPosition::CamLeft.code(), 0);
    assert_eq!(CameraPosition::Uninitailized.code(), -1);
    assert_eq!(TriggerMode::Hardware.code(), 2);
    assert!(CameraHandle::camera_init_ffi(|| 0).is_ok());
    assert_eq!(CameraHandle::camera_init_ffi(|| -7).err(), Some(-7));
    let mut h = CameraHandle::camera_init_ffi(|| 0).unwrap();
    assert!(!h.is_released());
    assert_eq!(h.camera_start_ffi(|| 3), Err(3));
    assert_eq!(h.camera_get_frame_ffi(|| 0x8000), Err(0x8000));
    assert_eq!(h.camera_release_ffi(|| 0), Ok(()));
    assert!(h.is_released());
    let mut failed = CameraHandle::camera_init_ffi(|| 0).unwrap();
    assert_eq!(failed.camera_release_ffi(|| 6), Err(6));
    assert!(failed.is_released());
    assert_eq!(CameraHandle::camera_get_frame_buf_size_ffi(|| 5_013_504), Ok(5_013_504));
    assert_eq!(CameraHandle::camera_get_frame_buf_size_ffi(|| 0), Err(0));
}

#[test]
fn error_messages() {
    let e = WorkflowError::CameraConfigError { stage: "preview".to_string(), error_code: -1 };
    assert_eq!(e.message(), "Camera configuration failed for stage 'preview': 0xffffffff");
    let e = WorkflowError::SwitchTimeout { from_stage: "a".to_string(), to_stage: "b".to_string() };
    assert_eq!(e.message(), "Stage switch timeout: 'a' -> 'b'");
    assert_eq!(WorkflowError::InvalidStage("x".to_string()).message(), "Invalid stage name: 'x'");
    assert_eq!(WorkflowError::SystemError("boom".to_string()).message(), "System error: boom");
    assert_eq!(CameraError::InitFailed(0x80000001u32 as i32).message(), "Camera initialization failed: 0x80000001");
    assert_eq!(CameraError::StartFailed(255).message(), "Camera start failed: 0xff");
    assert_eq!(CameraError::CaptureFailed(0).message(), "Frame capture failed: 0x0");
    assert_eq!(CameraError::StopFailed(16).message(), "Camera stop failed: 0x10");
    assert_eq!(CameraError::NotStarted.message(), "Camera not started");
    assert_eq!(CameraError::AlreadyStarted.message(), "Camera already started");
    assert_eq!(CameraError::SaveFailed("no".to_string()).message(), "File save failed: no");
}

#[test]
fn manager_set_up_failures() {
    let mut asked = false;
    match SimpleCameraManager::new(|| 9, || { asked = true; 10 }) {
        Err(CameraError::InitFailed(9)) => {}
        _ => panic!("expected InitFailed(9)"),
    }
    assert!(!asked);
    match SimpleCameraManager::new(|| 0, || 0) {
        Err(CameraError::InitFailed(0)) => {}
        _ => panic!("expected InitFailed(0)"),
    }
}

#[test]
fn manager_lifecycle() {
    let mut m = SimpleCameraManager::new(|| 0, || 64).unwrap();
    assert!(!m.is_running());
    assert_eq!(m.get_frame_buffer_size(), 64);
    assert!(m.start(|| 0).is_ok());
    assert!(m.is_running());
    let mut started_twice = false;
    match m.start(|| { started_twice = true; 0 }) {
        Err(CameraError::AlreadyStarted) => {}
        _ => panic!("expected AlreadyStarted"),
    }
    assert!(!started_twice);
    match m.stop(|| 4) {
        Err(CameraError::StopFailed(4)) => {}
        _ => panic!("expected StopFailed(4)"),
    }
    assert!(!m.is_running());
    assert!(m.is_released());
    assert!(m.stop(|| panic!("not released twice")).is_ok());
    let mut fresh = SimpleCameraManager::new(|| 0, || 64).unwrap();
    assert!(!fresh.is_released());
    assert!(fresh.stop(|| panic!("nothing to release")).is_ok());
    assert!(!fresh.is_released());
    match fresh.start(|| 2) {
        Err(CameraError::StartFailed(2)) => {}
        _ => panic!("expected StartFailed(2)"),
    }
    assert!(!fresh.is_running());
}

#[test]
fn frames_are_cut_to_their_size() {
    let mut m = SimpleCameraManager::new(|| 0, || 8).unwrap();
    match m.get_current_frame(|l: Vec<u8>, r: Vec<u8>| FrameGrab { status: 0, left: l, right: r, left_size: 1, right_size: 1 }) {
        Err(CameraError::NotStarted) => {}
        _ => panic!("expected NotStarted"),
    }
    m.start(|| 0).unwrap();
    let (l, r) = m
        .get_current_frame(|mut l: Vec<u8>, mut r: Vec<u8>| {
            assert_eq!(l.len(), 8);
            assert!(r.iter().all(|b| *b == 0));
            l[0] = 7;
            l[1] = 8;
            r[0] = 9;
            FrameGrab { status: 0, left: l, right: r, left_size: 2, right_size: 100 }
        })
        .unwrap();
    assert_eq!(l, vec![7, 8]);
    assert_eq!(r.len(), 8);
    assert_eq!(r[0], 9);
    match m.get_current_frame(|l: Vec<u8>, r: Vec<u8>| FrameGrab { status: 5, left: l, right: r, left_size: 0, right_size: 0 }) {
        Err(CameraError::CaptureFailed(5)) => {}
        _ => panic!("expected CaptureFailed(5)"),
    }
}

#[test]
fn saving_frames() {
    let mut m = SimpleCameraManager::new(|| 0, || 4).unwrap();
    m.start(|| 0).unwrap();
    let mut seen: Vec<String> = Vec::new();
    let (l, _r) = m
        .capture_and_process(
            true,
            |l: Vec<u8>, r: Vec<u8>| FrameGrab { status: 0, left: l, right: r, left_size: 4, right_size: 4 },
            |files: &FrameFiles, left: &[u8], _right: &[u8]| {
                assert_eq!(files.dir, "captures");
                assert_eq!(left.len(), 4);
                seen.push(files.left_path.clone());
                seen.push(files.right_path.clone());
                Ok(())
            },
        )
        .unwrap();
    assert_eq!(l.len(), 4);
    assert_eq!(seen.len(), 2);
    assert!(seen[0].starts_with("captures/frame_"));
    assert!(seen[0].ends_with("_000001_L.raw"));
    assert!(seen[1].ends_with("_000001_R.raw"));
    let r = m.save_frame_to_disk(&[1], &[2], |_f: &FrameFiles, _l: &[u8], _r: &[u8]| Err("disk".to_string()));
    match r {
        Err(CameraError::SaveFailed(s)) => assert_eq!(s, "disk"),
        _ => panic!("expected SaveFailed"),
    }
    let mut third = String::new();
    m.save_frame_to_disk(&[1], &[2], |f: &FrameFiles, _l: &[u8], _r: &[u8]| {
        third = f.left_path.clone();
        Ok(())
    })
    .unwrap();
    assert!(third.ends_with("_000003_L.raw"));
}

#[test]
fn frame_file_names() {
    let f = frame_files(1_700_000_000, 42);
    assert_eq!(f.left_path, "captures/frame_1700000000_000042_L.raw");
    assert_eq!(f.right_path, "captures/frame_1700000000_000042_R.raw");
    let f = frame_files(0, 1_234_567);
    assert_eq!(f.left_path, "captures/frame_0_1234567_L.raw");
}

#[test]
fn stage_name_round_trip() {
    for stage in [Stage::Preview, Stage::Detection, Stage::Alignment] {
        assert_eq!(Stage::from_str(stage.as_c_str()).unwrap(), stage);
    }
}
