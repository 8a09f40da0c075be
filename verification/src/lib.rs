//! Frame scheduling for exporting a recording's 3D view as a numbered PNG
//! sequence, and the per-instance helpers of the 3D line-strip visualizer.

pub mod frame_name;
pub mod line_strips;
pub mod frame_name_laws;
pub mod png_export;
pub mod export_laws;

