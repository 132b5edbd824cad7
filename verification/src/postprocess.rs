//! Postprocessing: the configuration of the HAL decoder for a fused-output
//! ultralytics detection model.
//!
//! The model emits `[1, R, N]`: `R == 6` is the end-to-end layout
//! `(x1, y1, x2, y2, conf, class)` whose NMS is in the graph; any other `R`
//! is the pre-NMS layout `4 + num_classes`, on which the HAL runs NMS.

use vstd::prelude::*;

verus! {

/// The YOLO decode head.
#[derive(Debug, Clone, Copy, PartialEq, Eq, Structural)]
pub enum DecoderVersion {
    Yolov5,
    Yolov8,
    Yolo11,
    Yolo26,
}

/// NMS mode of the HAL decoder.
#[derive(Debug, Clone, Copy, PartialEq, Eq, Structural)]
pub enum Nms {
    /// Resolve the mode from the model configuration.
    Auto,
    /// Suppress only boxes of the same class.
    ClassAware,
    /// Suppress overlapping boxes regardless of class.
    ClassAgnostic,
}

/// Row count of the end-to-end (NMS-in-graph) output layout.
pub const END_TO_END_ROWS: usize = 6;
/// Anchor count of the end-to-end layout.
pub const END_TO_END_ANCHORS: usize = 300;
/// Anchor count of the pre-NMS layout.
pub const PRE_NMS_ANCHORS: usize = 8400;
/// Detections kept after decoding.
pub const MAX_DETECTIONS: usize = 300;
/// Candidates kept before NMS.
pub const PRE_NMS_TOP_K: usize = 300;

/// The configuration the HAL decoder is built with.
#[derive(Debug, Clone)]
pub struct DecoderPlan {
    /// The output already went through NMS in the model graph.
    pub end_to_end: bool,
    /// The decode head handed to the HAL.
    pub version: DecoderVersion,
    /// Shape of the detection output: `[1, rows, anchors]`.
    pub shape: Vec<usize>,
    /// Box coordinates are normalized to `[0, 1]`.
    pub normalized: bool,
    /// Detections kept after decoding.
    pub max_det: usize,
    /// NMS the HAL runs, if any.
    pub nms: Option<Nms>,
    /// Candidates kept before NMS, if NMS runs.
    pub pre_nms_top_k: Option<usize>,
}

/// The decode head for `version` on an output of `output_rows` rows. A
/// Yolo26 export that did not embed NMS uses the Yolo11 anchor-free head,
/// which is the same head before NMS.
pub open spec fn decode_version(version: DecoderVersion, output_rows: usize) -> DecoderVersion {
    if output_rows == END_TO_END_ROWS {
        version
    } else if version == DecoderVersion::Yolo26 {
        DecoderVersion::Yolo11
    } else {
        version
    }
}

/// Plan the HAL decoder for a fused-output ultralytics detection model whose
/// output has `output_rows` rows (dim 1 of `[1, R, N]`, as observed on the
/// model's output tensor).
pub fn ultralytics_decoder_plan(version: DecoderVersion, output_rows: usize) -> (p: DecoderPlan)
    ensures
        p.end_to_end == (output_rows == END_TO_END_ROWS),
        p.version == decode_version(version, output_rows),
        p.shape@ == seq![1usize, output_rows,
            if p.end_to_end { END_TO_END_ANCHORS } else { PRE_NMS_ANCHORS }],
        p.normalized,
        p.max_det == MAX_DETECTIONS,
        // NMS runs exactly on the pre-NMS layout.
        p.nms == (if p.end_to_end { None } else { Some(Nms::ClassAgnostic) }),
        p.pre_nms_top_k == (if p.end_to_end { None } else { Some(PRE_NMS_TOP_K) }),
        // The end-to-end head is only used on the end-to-end layout.
        p.version == DecoderVersion::Yolo26 ==> p.end_to_end,
        // Any other requested head is kept.
        version != DecoderVersion::Yolo26 ==> p.version == version,
        // A Yolo26 request on a pre-NMS layout gets the Yolo11 head.
        version == DecoderVersion::Yolo26 && output_rows != 6 ==> p.version == DecoderVersion::Yolo11,
        output_rows == 6 ==> p.version == version,
        p.shape@ == seq![1usize, output_rows, if output_rows == 6 { 300usize } else { 8400usize }],
        p.max_det == 300,
        p.pre_nms_top_k == (if output_rows == 6 { None } else { Some(300usize) }),
{
    let end_to_end = output_rows == END_TO_END_ROWS;
    let anchors = if end_to_end { END_TO_END_ANCHORS } else { PRE_NMS_ANCHORS };
    let head = if end_to_end {
        version
    } else if version == DecoderVersion::Yolo26 {
        DecoderVersion::Yolo11
    } else {
        version
    };
    let mut shape: Vec<usize> = Vec::new();
    shape.push(1);
    shape.push(output_rows);
    shape.push(anchors);
    let (nms, pre_nms_top_k) = if end_to_end {
        (None, None)
    } else {
        (Some(Nms::ClassAgnostic), Some(PRE_NMS_TOP_K))
    };
    DecoderPlan {
        end_to_end,
        version: head,
        shape,
        normalized: true,
        max_det: MAX_DETECTIONS,
        nms,
        pre_nms_top_k,
    }
}

/// Law: the decode head is the requested one, except that a Yolo26
/// request on a pre-NMS output (any row count other than 6) gets the Yolo11
/// head, which Yolo26 shares before NMS.
pub proof fn lemma_decode_version(version: DecoderVersion, output_rows: usize)
    ensures
        output_rows == 6 ==> decode_version(version, output_rows) == version,
        output_rows != 6 && version == DecoderVersion::Yolo26 ==> decode_version(version, output_rows) == DecoderVersion::Yolo11,
        version != DecoderVersion::Yolo26 ==> decode_version(version, output_rows) == version,
        END_TO_END_ROWS == 6 && END_TO_END_ANCHORS == 300 && PRE_NMS_ANCHORS == 8400,
        MAX_DETECTIONS == 300 && PRE_NMS_TOP_K == 300,
{
}

} // verus!
