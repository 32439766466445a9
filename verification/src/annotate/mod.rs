pub mod canvas;
pub mod cli;
pub mod shapes;
