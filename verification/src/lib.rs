//! Classification of captured HTTP responses, extraction of user records
//! from their bodies, and the state machine that keeps the last rendered
//! result in step with a persistent cache slot.

pub mod extract;
pub mod frame;
pub mod http;
pub mod json;
pub mod pipeline;
pub mod render;
pub mod stamps;
pub mod text;
