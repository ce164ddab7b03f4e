use merging_image::alignment::create_thumbnail_base64;
use merging_image::encoding::base64_encode;
use merging_image::calibration_session::{
    capture_calibration_image, delete_captured_image, get_calibration_status, get_captured_images,
    get_latest_captured_image, get_preview_frame, reset_calibration_workflow, run_calibration_process,
    start_calibration_session, stop_calibration_session,
};
use merging_image::camera_ffi::{CameraHandle, CameraStatusReading};
use merging_image::camera_manager::{CameraManager, SimpleCameraManager, WorkflowStage};
use merging_image::config::config_files::config_file_path;
use merging_image::float_bits::F32Bits;
use merging_image::performance::{camera_status_text, system_status_text, RateReading};

#[derive(Debug, PartialEq)]
struct FakeWorkflow {
    started: bool,
    pairs: Vec<u32>,
}

fn fresh() -> Result<FakeWorkflow, String> {
    Ok(FakeWorkflow { started: false, pairs: Vec::new() })
}

#[test]
fn calibration_session_flow() {
    let mut slot: Option<FakeWorkflow> = None;
    assert_eq!(get_captured_images(&slot, |w: &FakeWorkflow| w.pairs.clone()), Err("标定会话未启动".to_string()));
    assert_eq!(get_calibration_status(&slot, |w: &FakeWorkflow| w.started, false), Ok(false));
    assert_eq!(get_latest_captured_image(&slot, |w: &FakeWorkflow| w.pairs.last().copied()), Ok(None));
    assert_eq!(
        capture_calibration_image(&mut slot, |w: &mut FakeWorkflow| Ok::<u32, String>(w.pairs.len() as u32)),
        Err("标定会话未启动".to_string())
    );
    assert_eq!(start_calibration_session(&mut slot, || Err("no camera".to_string()), |_w: &mut FakeWorkflow| Ok(())),
        Err("no camera".to_string()));
    assert!(slot.is_none());
    let r = start_calibration_session(&mut slot, fresh, |w: &mut FakeWorkflow| {
        w.started = true;
        Ok(())
    });
    assert_eq!(r, Ok("calibration_session_started".to_string()));
    assert!(slot.as_ref().unwrap().started);
    let saved = capture_calibration_image(&mut slot, |w: &mut FakeWorkflow| {
        w.pairs.push(1);
        w.pairs.push(2);
        Ok::<usize, String>(w.pairs.len())
    });
    assert_eq!(saved, Ok(2));
    assert_eq!(delete_captured_image(&mut slot, 1, |w: &mut FakeWorkflow, id: u32| {
        w.pairs.retain(|p| *p != id);
        Ok(())
    }), Ok(()));
    assert_eq!(get_captured_images(&slot, |w: &FakeWorkflow| w.pairs.clone()), Ok(vec![2]));
    assert_eq!(get_latest_captured_image(&slot, |w: &FakeWorkflow| w.pairs.last().copied()), Ok(Some(2)));
    assert_eq!(run_calibration_process(&mut slot, |_w: &mut FakeWorkflow| Err::<f64, String>("too few".to_string())),
        Err("too few".to_string()));
    assert_eq!(stop_calibration_session(&mut slot, |_w: &mut FakeWorkflow| Err("busy".to_string())),
        Err("busy".to_string()));
    assert!(slot.is_some());
    assert_eq!(stop_calibration_session(&mut slot, |w: &mut FakeWorkflow| {
        w.started = false;
        Ok(())
    }), Ok(()));
    assert!(slot.is_none());
    assert_eq!(stop_calibration_session(&mut slot, |_w: &mut FakeWorkflow| Err("never".to_string())), Ok(()));
    slot = Some(FakeWorkflow { started: true, pairs: vec![] });
    assert_eq!(reset_calibration_workflow(&mut slot, |_w: &mut FakeWorkflow| Err("ignored".to_string())), Ok(()));
    assert!(slot.is_none());
}

#[test]
fn calibration_preview() {
    let mut slot: Option<FakeWorkflow> = None;
    let frame = get_preview_frame(Some(true), &mut slot, fresh, |w: &FakeWorkflow| !w.started,
        |w: &mut FakeWorkflow| {
            w.started = true;
            Ok(())
        },
        |w: &mut FakeWorkflow, save: bool| {
            if save {
                w.pairs.push(7);
            }
            Ok::<usize, String>(w.pairs.len())
        });
    assert_eq!(frame, Ok(1));
    assert_eq!(slot, Some(FakeWorkflow { started: true, pairs: vec![7] }));
    let frame = get_preview_frame(None, &mut slot, fresh, |w: &FakeWorkflow| !w.started,
        |_w: &mut FakeWorkflow| Err("not again".to_string()),
        |_w: &mut FakeWorkflow, save: bool| if save { Ok(1usize) } else { Err("dark".to_string()) });
    assert_eq!(frame, Err("获取预览帧失败: dark".to_string()));
    let mut empty: Option<FakeWorkflow> = None;
    let frame = get_preview_frame(None, &mut empty, fresh, |_w: &FakeWorkflow| true,
        |_w: &mut FakeWorkflow| Err("cannot start".to_string()),
        |_w: &mut FakeWorkflow, _save: bool| Ok(0usize));
    assert_eq!(frame, Err("cannot start".to_string()));
    assert_eq!(empty, Some(FakeWorkflow { started: false, pairs: vec![] }));
    let mut none: Option<FakeWorkflow> = None;
    let frame = get_preview_frame(Some(false), &mut none, || Err("no sdk".to_string()), |_w: &FakeWorkflow| true,
        |_w: &mut FakeWorkflow| Ok(()), |_w: &mut FakeWorkflow, _save: bool| Ok(0usize));
    assert_eq!(frame, Err("no sdk".to_string()));
    assert!(none.is_none());
}

#[test]
fn performance_texts() {
    let r = |stopped, on_target, low| RateReading { stopped, on_target, below_ninety_percent: low };
    assert_eq!(camera_status_text(r(true, true, true)), "未运行");
    assert_eq!(camera_status_text(r(false, true, true)), "正常");
    assert_eq!(camera_status_text(r(false, false, true)), "帧率偏低");
    assert_eq!(camera_status_text(r(false, false, false)), "运行中");
    assert_eq!(system_status_text(true, true, false, false), "正常运行");
    assert_eq!(system_status_text(false, true, true, true), "未运行");
    assert_eq!(system_status_text(true, false, false, true), "部分异常");
}

#[test]
fn config_file_paths() {
    assert_eq!(config_file_path("calibration"), Ok("src-tauri/configs/calibration_config.txt"));
    assert_eq!(config_file_path("alignment"), Ok("src-tauri/configs/alignment_config.txt"));
    assert_eq!(config_file_path("default"), Ok("src-tauri/configs/default_config.txt"));
    assert_eq!(config_file_path("Default"), Err("无效的配置类型".to_string()));
}

#[test]
fn thumbnail_data_url() {
    let shrink = |data: &[u8], width: u32, height: u32, size: u32| -> Result<Vec<u8>, String> {
        if (data.len() as u32) < width * height {
            return Err("图像数据不足".to_string());
        }
        Ok(data.iter().take(size as usize).copied().collect())
    };
    assert_eq!(create_thumbnail_base64(b"Many hands", 5, 2, 3, shrink), Ok("data:image/jpeg;base64,TWFu".to_string()));
    assert_eq!(create_thumbnail_base64(b"Many hands", 5, 2, 2, shrink), Ok("data:image/jpeg;base64,TWE=".to_string()));
    assert_ne!(
        create_thumbnail_base64(b"abcdef", 3, 2, 6, shrink),
        create_thumbnail_base64(b"abcdeg", 3, 2, 6, shrink)
    );
    assert_eq!(create_thumbnail_base64(b"ab", 3, 2, 6, shrink), Err("图像数据不足".to_string()));
}

#[test]
fn base64_text() {
    for (bytes, text) in [
        (&b""[..], ""),
        (&b"f"[..], "Zg=="),
        (&b"fo"[..], "Zm8="),
        (&b"foo"[..], "Zm9v"),
        (&b"foob"[..], "Zm9vYg=="),
        (&b"fooba"[..], "Zm9vYmE="),
        (&b"foobar"[..], "Zm9vYmFy"),
        (&[0xffu8, 0xfe, 0x00, 0x3f][..], "//4APw=="),
    ] {
        assert_eq!(base64_encode(bytes), text);
    }
}

#[test]
fn placeholder_camera_manager() {
    let mut m = CameraManager::new("handle").unwrap();
    assert_eq!(m.start_preview(), Ok(()));
    assert_eq!(m.stop_preview(), Ok(()));
    assert_eq!(m.capture_frame(), Ok(("fake_left".to_string(), "fake_right".to_string())));
    assert_eq!(m.capture_single_frame(), Ok((vec![0u8; 100], vec![0u8; 100])));
    assert_eq!(m.capture_raw_images(5), Ok(vec![(vec![0u8; 100], vec![0u8; 100])]));
    assert_eq!(m.configure_for_stage(WorkflowStage::Alignment), Ok(()));
}

#[test]
fn status_and_release() {
    let h = CameraHandle::camera_init_ffi(|| 0).unwrap();
    let ok = h.camera_get_status_ffi(1, |i: u32| CameraStatusReading {
        status: 0,
        fps_actual: F32Bits::from_bits(9.5f32.to_bits()),
        frames_dropped: i + 2,
    });
    assert_eq!(ok.map(|(f, d)| (f.bits, d)), Ok((9.5f32.to_bits(), 3)));
    let bad = h.camera_get_status_ffi(0, |_i: u32| CameraStatusReading {
        status: -5,
        fps_actual: F32Bits::from_bits(0),
        frames_dropped: 0,
    });
    assert_eq!(bad.map(|(f, d)| (f.bits, d)), Err(-5));

    let mut m = SimpleCameraManager::new(|| 0, || 64).ok().unwrap();
    let mut called = false;
    assert_eq!(m.release_if_running(|| {
        called = true;
        0
    }), None);
    assert!(!called);
    assert!(m.start(|| 0).is_ok());
    assert_eq!(m.release_if_running(|| 4), Some(Err(4)));
    assert!(!m.is_running());
    assert!(m.is_released());
}
