//! Backend logic of a desktop screenshot tool: crop regions, pixel
//! conversion, data-URI decoding, output naming, and the decisions around
//! the native capture tool.

pub mod capture;
pub mod clipboard;
pub mod crop;
pub mod data_uri;
pub mod pixels;
pub mod text;
pub mod utils;

pub use capture::{
    capture_outcome, capture_tool_args, permission_check_failure, permission_probe_verdict, probe_tool_args, reports_permission_problem,
    CaptureGuard, CaptureMode, CaptureOutcome,
};
pub use clipboard::clipboard_script;
pub use crop::{crop_image, CropRegion};
pub use data_uri::{decode_png_data_uri, png_data_uri_payload};
pub use pixels::{convert_bgra_to_rgba, RgbaFrame};
pub use utils::{
    filename_at, filename_with_id_at, generate_filename, generate_filename_with_id,
    get_desktop_path, get_timestamp, AppResult,
};
