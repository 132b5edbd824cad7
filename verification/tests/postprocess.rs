use edgefirst_decoder::{configs, Decoder, DecoderBuilder, DecoderError};
use pipeline::postprocess::{ultralytics_decoder_plan, DecoderPlan, DecoderVersion, Nms};

fn hal_version(v: DecoderVersion) -> configs::DecoderVersion {
    match v {
        DecoderVersion::Yolov5 => configs::DecoderVersion::Yolov5,
        DecoderVersion::Yolov8 => configs::DecoderVersion::Yolov8,
        DecoderVersion::Yolo11 => configs::DecoderVersion::Yolo11,
        DecoderVersion::Yolo26 => configs::DecoderVersion::Yolo26,
    }
}

/// Build the HAL decoder a plan describes, the way the application glue
/// does, to check that every plan is one the HAL decoder accepts.
fn build(plan: &DecoderPlan, score: f32, iou: f32) -> Result<Decoder, DecoderError> {
    let detection = configs::Detection {
        anchors: None,
        decoder: configs::DecoderType::Ultralytics,
        quantization: None,
        shape: plan.shape.clone(),
        dshape: Vec::new(),
        normalized: Some(plan.normalized),
    };
    let mut builder = DecoderBuilder::new()
        .with_config_yolo_det(detection, Some(hal_version(plan.version)))
        .with_score_threshold(score)
        .with_iou_threshold(iou)
        .with_max_det(plan.max_det);
    if let Some(nms) = plan.nms {
        let nms = match nms {
            Nms::Auto => configs::Nms::Auto,
            Nms::ClassAware => configs::Nms::ClassAware,
            Nms::ClassAgnostic => configs::Nms::ClassAgnostic,
        };
        builder = builder.with_nms(Some(nms));
    }
    if let Some(k) = plan.pre_nms_top_k {
        builder = builder.with_pre_nms_top_k(k);
    }
    builder.build()
}

fn ultralytics_decoder(version: DecoderVersion, output_rows: usize, score: f32, iou: f32) -> Result<Decoder, DecoderError> {
    build(&ultralytics_decoder_plan(version, output_rows), score, iou)
}

#[test]
fn decoder_builds_for_yolov8_coco() {
    // [1, 84, 8400] pre-NMS output.
    let d = ultralytics_decoder(DecoderVersion::Yolov8, 84, 0.25, 0.7);
    assert!(d.is_ok(), "{:?}", d.err());
}

#[test]
fn decoder_builds_for_yolo11_coco() {
    let d = ultralytics_decoder(DecoderVersion::Yolo11, 84, 0.25, 0.7);
    assert!(d.is_ok(), "{:?}", d.err());
}

#[test]
fn decoder_builds_for_yolo26_end_to_end() {
    // True end-to-end: [1, 6, N].
    let d = ultralytics_decoder(DecoderVersion::Yolo26, 6, 0.25, 0.7);
    assert!(d.is_ok(), "{:?}", d.err());
}

#[test]
fn decoder_builds_for_yolo26_pre_nms_export() {
    // A Yolo26 export that did NOT embed NMS still emits [1, 84, 8400].
    let d = ultralytics_decoder(DecoderVersion::Yolo26, 84, 0.25, 0.7);
    assert!(d.is_ok(), "{:?}", d.err());
}

#[test]
fn decoder_builds_for_yolov5_coco() {
    let d = ultralytics_decoder(DecoderVersion::Yolov5, 84, 0.25, 0.7);
    assert!(d.is_ok(), "{:?}", d.err());
}

#[test]
fn plan_for_pre_nms_layout() {
    let p = ultralytics_decoder_plan(DecoderVersion::Yolov8, 84);
    assert!(!p.end_to_end);
    assert_eq!(p.version, DecoderVersion::Yolov8);
    assert_eq!(p.shape, vec![1, 84, 8400]);
    assert!(p.normalized);
    assert_eq!(p.max_det, 300);
    assert_eq!(p.nms, Some(Nms::ClassAgnostic));
    assert_eq!(p.pre_nms_top_k, Some(300));
}

#[test]
fn plan_for_end_to_end_layout() {
    let p = ultralytics_decoder_plan(DecoderVersion::Yolo26, 6);
    assert!(p.end_to_end);
    assert_eq!(p.version, DecoderVersion::Yolo26);
    assert_eq!(p.shape, vec![1, 6, 300]);
    assert_eq!(p.nms, None);
    assert_eq!(p.pre_nms_top_k, None);
}

#[test]
fn plan_for_yolo26_pre_nms_export_uses_yolo11_head() {
    let p = ultralytics_decoder_plan(DecoderVersion::Yolo26, 84);
    assert!(!p.end_to_end);
    assert_eq!(p.version, DecoderVersion::Yolo11);
    assert_eq!(p.shape, vec![1, 84, 8400]);
}

#[test]
fn plan_for_custom_class_count() {
    // 4 box rows + 2 classes.
    let p = ultralytics_decoder_plan(DecoderVersion::Yolo11, 6 + 0);
    assert!(p.end_to_end);
    let p = ultralytics_decoder_plan(DecoderVersion::Yolo11, 7);
    assert!(!p.end_to_end);
    assert_eq!(p.shape, vec![1, 7, 8400]);
}
