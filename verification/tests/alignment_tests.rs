use merging_image::alignment::{
    convert_detection_result_to_display, current_stage_of, next_stage, with_created_workflow,
    AlignmentWorkflowState, CameraPreviewData, DetectionResult, DetectionStage,
};
use merging_image::float_bits::{F32Bits, F64Bits};

fn deg(x: f64) -> F64Bits {
    F64Bits::from_bits(x.to_bits())
}

fn three_decimals(x: F64Bits) -> String {
    format!("{:.3}", f64::from_bits(x.bits))
}

#[test]
fn stage_order() {
    assert_eq!(next_stage(DetectionStage::LeftEyePoseCheck), Some(DetectionStage::RightEyePoseCheck));
    assert_eq!(next_stage(DetectionStage::RightEyePoseCheck), Some(DetectionStage::DualEyeAlignment));
    assert_eq!(next_stage(DetectionStage::DualEyeAlignment), Some(DetectionStage::Completed));
    assert_eq!(next_stage(DetectionStage::Completed), None);
    assert_eq!(next_stage(DetectionStage::Preview), None);
    assert_eq!(next_stage(DetectionStage::Idle), None);
}

#[test]
fn left_eye_display() {
    let r = DetectionResult::LeftEyePose {
        roll: deg(1.5),
        pitch: deg(-0.25),
        yaw: deg(0.0),
        pass: false,
        message: "姿态超差".to_string(),
    };
    let d = convert_detection_result_to_display(&r, three_decimals);
    assert_eq!(d.left_eye.eye_name, "左眼");
    assert_eq!(d.left_eye.pose_status, "姿态超差");
    assert!(!d.left_eye.pose_pass);
    assert_eq!(d.left_eye.roll_adjustment, "Roll: -1.500°");
    assert_eq!(d.left_eye.pitch_adjustment, "Pitch: 0.250°");
    assert_eq!(d.left_eye.yaw_adjustment, "Yaw: -0.000°");
    assert_eq!(d.left_eye.centering_status, None);
    assert_eq!(d.right_eye.pose_status, "等待左眼检测完成");
    assert_eq!(d.right_eye.roll_adjustment, "待检测");
    assert_eq!(d.alignment_status, None);
    assert_eq!(d.rms_error, None);
    assert_eq!(d.processing_time_ms, 0);
}

#[test]
fn right_eye_display() {
    let r = DetectionResult::RightEyePose {
        roll: deg(0.1),
        pitch: deg(0.2),
        yaw: deg(-0.3),
        pass: true,
        message: "通过".to_string(),
    };
    let d = convert_detection_result_to_display(&r, three_decimals);
    assert_eq!(d.left_eye.pose_status, "检测完成");
    assert_eq!(d.left_eye.roll_adjustment, "已通过");
    assert_eq!(d.left_eye.centering_status, Some("已通过".to_string()));
    assert_eq!(d.left_eye.centering_pass, Some(true));
    assert_eq!(d.left_eye.centering_adjustment, Some("无需调整".to_string()));
    assert_eq!(d.right_eye.eye_name, "右眼");
    assert!(d.right_eye.pose_pass);
    assert_eq!(d.right_eye.yaw_adjustment, "Yaw: 0.300°");
}

#[test]
fn dual_and_error_display() {
    let r = DetectionResult::DualEyeAlignment {
        mean_dx: deg(0.1),
        mean_dy: deg(0.2),
        rms: deg(0.7),
        p95: deg(1.0),
        max_err: deg(2.0),
        pass: false,
        adjustment_hint: "向左调整".to_string(),
    };
    let d = convert_detection_result_to_display(&r, three_decimals);
    assert_eq!(d.alignment_status, Some("❌ 合像精度不足".to_string()));
    assert_eq!(d.alignment_pass, Some(false));
    assert_eq!(d.adjustment_hint, Some("向左调整".to_string()));
    assert_eq!(d.rms_error.map(|x| x.bits), Some(0.7f64.to_bits()));
    assert_eq!(d.right_eye.centering_status, None);
    let e = DetectionResult::Error { message: "无图像".to_string() };
    let d = convert_detection_result_to_display(&e, three_decimals);
    assert_eq!(d.left_eye.pose_status, "错误: 无图像");
    assert_eq!(d.left_eye.centering_pass, Some(false));
    assert_eq!(d.right_eye.centering_pass, None);
    assert_eq!(d.alignment_status, Some("❌ 检测错误: 无图像".to_string()));
    assert_eq!(d.adjustment_hint, Some("请检查设备连接和标定板位置".to_string()));
}

#[test]
fn session_lifecycle() {
    let mut s: AlignmentWorkflowState<u32> = AlignmentWorkflowState::new();
    assert_eq!(s.trigger_alignment_detection(|_w: &u32| Ok(())), Err("相机未启动".to_string()));
    assert_eq!(s.save_debug_images(|_w: &u32| Ok(())), Err("工作流未启动".to_string()));
    assert_eq!(s.get_alignment_performance(|w: &u32| Ok(*w)), Ok(None));
    let stopped = s.stop_alignment_camera(|_w: u32| Ok(())).unwrap();
    assert!(!stopped.is_camera_active);
    assert_eq!(stopped.current_stage, DetectionStage::Idle);

    let ok = |_w: &mut u32| Ok(());
    assert_eq!(
        s.start_alignment_camera(|| Err("相机打不开".to_string()), ok, ok),
        Err("创建工作流失败: 相机打不开".to_string())
    );
    assert_eq!(
        s.start_alignment_camera(|| Ok(1u32), |_w: &mut u32| Err("无标定".to_string()), ok),
        Err("初始化检测系统失败: 无标定".to_string())
    );
    assert_eq!(
        s.start_alignment_camera(|| Ok(1u32), ok, |_w: &mut u32| Err("线程".to_string())),
        Err("启动工作流失败: 线程".to_string())
    );
    assert!(!s.is_active);
    assert_eq!(s.workflow, None);
    let st = s
        .start_alignment_camera(|| Ok(5u32), |w: &mut u32| {
            *w += 1;
            Ok(())
        }, |w: &mut u32| {
            *w += 1;
            Ok(())
        })
        .unwrap();
    assert!(st.is_camera_active && st.workflow_running);
    assert_eq!(st.current_stage, DetectionStage::Preview);
    assert_eq!(s.workflow, Some(7));
    let again = s.start_alignment_camera(|| Ok(9u32), ok, ok).unwrap();
    assert_eq!(again.current_stage, DetectionStage::Preview);
    assert_eq!(s.workflow, Some(7));

    let status = s.get_alignment_status(|w: &u32| if *w == 7 { DetectionStage::LeftEyePoseCheck } else { DetectionStage::Idle });
    assert_eq!(status.current_stage, DetectionStage::LeftEyePoseCheck);
    assert_eq!(s.trigger_alignment_detection(|_w: &u32| Ok(())), Ok("检测已启动".to_string()));
    assert_eq!(s.reset_to_preview(|_w: &u32| Err("忙".to_string())), Err("重置失败: 忙".to_string()));
    assert_eq!(s.reset_to_preview(|_w: &u32| Ok(())), Ok("已重置到预览模式".to_string()));
    assert_eq!(s.save_debug_images(|_w: &u32| Ok(())), Ok("调试图像已保存到项目根目录".to_string()));
    assert_eq!(s.get_alignment_performance(|w: &u32| Ok(*w + 1)), Ok(Some(8)));
    assert_eq!(
        s.get_alignment_performance(|_w: &u32| Err::<u32, String>("x".to_string())),
        Err("获取性能统计失败: x".to_string())
    );
    let preview = s.get_camera_preview(|_w: &u32| {
        Ok(CameraPreviewData {
            left_image_base64: "L".to_string(),
            right_image_base64: "R".to_string(),
            timestamp: 5,
            width: 640,
            height: 480,
            fps: F32Bits::from_bits(10.0f32.to_bits()),
        })
    });
    assert_eq!(preview.map(|p| p.width), Some(640));
    assert!(s.get_camera_preview(|_w: &u32| Err("无帧".to_string())).is_none());
    let dev = s.get_alignment_deviation(|_w: &u32| Ok(DetectionResult::Error { message: "m".to_string() }), three_decimals);
    assert_eq!(dev.unwrap().alignment_pass, Some(false));

    assert_eq!(s.stop_alignment_camera(|_w: u32| Err("卡住".to_string())), Err("停止工作流失败: 卡住".to_string()));
    assert!(s.is_active);
    assert_eq!(s.workflow, None);
    assert_eq!(s.trigger_alignment_detection(|_w: &u32| Ok(())), Err("工作流未初始化".to_string()));
    let st = s.stop_alignment_camera(|_w: u32| Ok(())).unwrap();
    assert!(!st.is_camera_active);
    assert!(!s.is_active);
}

#[test]
fn created_workflow_slot() {
    let mut slot: Option<u32> = None;
    assert_eq!(with_created_workflow(&mut slot, |_w: &mut u32| Ok(()), "失败: "), Err("工作流程未创建".to_string()));
    assert_eq!(current_stage_of(&slot, |_w: &u32| DetectionStage::Completed), DetectionStage::Idle);
    slot = Some(1);
    assert_eq!(with_created_workflow(&mut slot, |w: &mut u32| { *w += 1; Ok(()) }, "失败: "), Ok(()));
    assert_eq!(slot, Some(2));
    assert_eq!(
        with_created_workflow(&mut slot, |_w: &mut u32| Err("坏".to_string()), "启动失败: "),
        Err("启动失败: 坏".to_string())
    );
    assert_eq!(current_stage_of(&slot, |_w: &u32| DetectionStage::Completed), DetectionStage::Completed);
}
