//! Verified core of the HAL ↔ Burn image pipeline: preprocessing configuration,
//! letterbox geometry, import planning, output-tensor export checks and
//! ultralytics decoder planning.

pub mod error;
pub mod export;
pub mod formats;
pub mod letterbox;
pub mod postprocess;
pub mod preprocess;

pub use error::{PipelineError, Result};
pub use export::{burn_dtype_to_hal, dtypes_compatible, validate_export};
pub use formats::{DType, ElementType, NumClass, PixelFormat, TensorMemory};
pub use letterbox::{letterbox_region, LetterboxRegion, PadAxis};
pub use postprocess::{ultralytics_decoder_plan, DecoderPlan, DecoderVersion, Nms};
pub use preprocess::{
    check_host_readable, check_zero_copy_format, host_import_plan, letterbox_meta, select_import_path, zero_copy_plan,
    HostImport, ImportPath, LetterboxMeta, PreprocessConfig, ZeroCopyImport, YOLO_PAD,
};
