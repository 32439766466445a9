//! The capture overlay: selection, annotation shapes, text layout, pixel
//! compositing and toolbar layout, and the session state that ties them.

pub mod types;
pub mod geometry;
pub mod shapes;
pub mod text;
pub mod pixels;
pub mod toolbar;
pub mod session;
pub mod input;
pub mod draw;
pub mod mosaic;
pub mod requests;
pub mod show;
pub mod sample;
pub mod tooltips;
