//! Machine translation of recognised text: reading the models' replies,
//! building prompts and requests, and combining per-block results.

pub mod parse;
pub mod blocks;
pub mod pasted;
pub mod content;
pub mod baidu_reply;
