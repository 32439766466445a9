//! Verified core of a screenshot, annotation and OCR/translation tool:
//! selection geometry, annotation shapes, pixel compositing, configuration
//! validation and the small parsers that sit between the desktop shell and
//! the remote providers.

pub mod geometry;
pub mod text;
pub mod hotkey;
pub mod config;
pub mod numparse;
pub mod annotate;
pub mod capture;
pub mod raster;
pub mod overlay;
pub mod startup;
pub mod tray;
pub mod lifecycle;
pub mod notification;
pub mod output;
pub mod json;
pub mod remote;
pub mod probe;
pub mod ocr;
pub mod icons;
pub mod pin;
pub mod settings;
pub mod translation;
pub mod encoding;
