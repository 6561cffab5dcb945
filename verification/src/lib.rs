//! Rendering plans, text layout, outline and search logic of a paginated
//! document viewer, over fixed-point page geometry.

pub mod annotations;
pub mod answers;
pub mod decimal;
pub mod desktop;
pub mod document;
pub mod encoding;
pub mod error;
pub mod font_detect;
pub mod geometry;
pub mod outline;
pub mod pdf_compress;
pub mod pdf_ocr;
pub mod python_bridge;
pub mod render;
pub mod search;
pub mod services;
pub mod strings;
pub mod text;
